//! What holds between construction, text, encoding and decoding.

use crate::ble_address::{AddressView, BLEAddress, BLEAddressType, DecodeError};
use crate::hex::{colon_hex, lemma_colon_hex_len};
use vstd::prelude::*;

verus! {

/// Reversing six octets twice gives them back.
proof fn lemma_reverse_twice(octets: Seq<u8>)
    ensures
        octets.reverse().reverse() == octets,
{
    assert(octets.reverse().reverse() =~= octets);
}

/// An address made from six octets in display order shows exactly those
/// octets, in the order given, whatever its type: the order in which it
/// stores them does not show.
pub proof fn law_display_follows_construction(val: [u8; 6], addr_type: BLEAddressType)
    ensures
        AddressView::constructed(val@, addr_type).display_text() == colon_hex(val@),
        AddressView::constructed(val@, addr_type).display_text().len() == 17,
{
    lemma_reverse_twice(val@);
    lemma_colon_hex_len(val@);
}

/// The text of every address is seventeen characters long: six pairs of
/// digits and five colons.
pub proof fn law_display_length(addr: BLEAddress)
    ensures
        addr@.display_text().len() == 17,
{
    addr.lemma_wf();
    lemma_colon_hex_len(addr@.display_order());
}

/// A constructed address has one of the four defined types, and its code is
/// that of the type it was made with.
pub proof fn law_constructed_type_is_defined(val: [u8; 6], addr_type: BLEAddressType)
    ensures
        AddressView::constructed(val@, addr_type).wf(),
        AddressView::constructed(val@, addr_type).has_defined_type(),
        AddressView::constructed(val@, addr_type).type_code == addr_type.spec_code(),
{
}

/// The encoded form is always seven bytes long: the type code as stored, then
/// the six octets as stored.
pub proof fn law_encoded_layout(addr: BLEAddress)
    ensures
        addr@.encoded().len() == 7,
        addr@.encoded()[0] == addr@.type_code,
        addr@.encoded().subrange(1, 7) == addr@.octets,
{
    addr.lemma_wf();
    assert(addr@.encoded().subrange(1, 7) =~= addr@.octets);
}

/// Fewer than seven bytes never decode, whatever they hold.
pub proof fn law_short_input_is_truncated(bytes: Seq<u8>)
    requires
        bytes.len() < 7,
    ensures
        AddressView::decoded(bytes) == Err::<AddressView, DecodeError>(DecodeError::TruncatedInput),
{
}

/// Seven bytes or more decode exactly when the first is one of the four type
/// codes; the bytes after it never decide.
pub proof fn law_first_byte_decides(bytes: Seq<u8>)
    requires
        bytes.len() >= 7,
    ensures
        bytes[0] > 3 ==> AddressView::decoded(bytes) == Err::<AddressView, DecodeError>(
            DecodeError::InvalidAddressType,
        ),
        bytes[0] <= 3 ==> AddressView::decoded(bytes) is Ok,
{
}

/// Whatever decodes is well formed and has a defined type other than
/// `Random`.
pub proof fn law_decoded_is_valid(bytes: Seq<u8>)
    requires
        AddressView::decoded(bytes) is Ok,
    ensures
        AddressView::decoded(bytes)->Ok_0.wf(),
        AddressView::decoded(bytes)->Ok_0.has_defined_type(),
        AddressView::decoded(bytes)->Ok_0.type_code != BLEAddressType::Random.spec_code(),
{
}

/// Decoding is not the mirror image of encoding. Encoding writes the octets
/// in wire order and decoding reads six octets in display order, so an
/// address with a defined type comes back with its octets in the opposite
/// order: it shows what the first address stores, first to last. The type
/// comes back as it was, except that `Random` comes back as `RandomID`.
pub proof fn law_decode_of_encode(addr: BLEAddress)
    requires
        addr@.has_defined_type(),
    ensures
        AddressView::decoded(addr@.encoded()) is Ok,
        AddressView::decoded(addr@.encoded())->Ok_0.octets == addr@.octets.reverse(),
        AddressView::decoded(addr@.encoded())->Ok_0.display_text() == colon_hex(addr@.octets),
        AddressView::decoded(addr@.encoded())->Ok_0.type_code == (if addr@.type_code
            == BLEAddressType::Random.spec_code() {
            BLEAddressType::RandomID.spec_code()
        } else {
            addr@.type_code
        }),
{
    law_encoded_layout(addr);
    lemma_reverse_twice(addr@.octets);
}

/// In terms of construction: the encoded form of the address made from `val`
/// decodes to the address made from `val` reversed.
pub proof fn law_decode_of_encode_constructed(val: [u8; 6], addr_type: BLEAddressType)
    ensures
        AddressView::decoded(AddressView::constructed(val@, addr_type).encoded()) == Ok::<
            AddressView,
            DecodeError,
        >(
            AddressView::constructed(
                val@.reverse(),
                if addr_type == BLEAddressType::Random {
                    BLEAddressType::RandomID
                } else {
                    addr_type
                },
            ),
        ),
{
    let made = AddressView::constructed(val@, addr_type);
    assert(made.encoded().subrange(1, 7) =~= val@.reverse());
}

/// Decoding gives back the very address that was encoded exactly when its
/// type is defined and not `Random`, and its octets read the same in both
/// directions.
pub proof fn law_decode_of_encode_is_identity_exactly_when(addr: BLEAddress)
    ensures
        AddressView::decoded(addr@.encoded()) == Ok::<AddressView, DecodeError>(addr@) <==> ({
            &&& addr@.has_defined_type()
            &&& addr@.type_code != BLEAddressType::Random.spec_code()
            &&& addr@.octets.reverse() == addr@.octets
        }),
{
    if addr@.has_defined_type() {
        law_decode_of_encode(addr);
    } else {
        law_undefined_type_does_not_decode(addr);
    }
}

/// An address whose type code is not defined encodes to bytes that do not
/// decode.
pub proof fn law_undefined_type_does_not_decode(addr: BLEAddress)
    requires
        !addr@.has_defined_type(),
    ensures
        AddressView::decoded(addr@.encoded()) == Err::<AddressView, DecodeError>(
            DecodeError::InvalidAddressType,
        ),
{
    law_encoded_layout(addr);
}

/// Encoding and decoding twice restores the octets, and the type apart from
/// `Random`.
pub proof fn law_decode_of_encode_twice(addr: BLEAddress)
    requires
        addr@.has_defined_type(),
    ensures
        ({
            let once = AddressView::decoded(addr@.encoded())->Ok_0;
            let twice = AddressView::decoded(once.encoded());
            &&& twice is Ok
            &&& twice->Ok_0.octets == addr@.octets
            &&& twice->Ok_0.display_text() == addr@.display_text()
            &&& twice->Ok_0.type_code == once.type_code
        }),
{
    law_decode_of_encode(addr);
    addr.lemma_wf();
    let once = AddressView::decoded(addr@.encoded())->Ok_0;
    assert(once.encoded().subrange(1, 7) =~= once.octets);
    lemma_reverse_twice(addr@.octets);
}

} // verus!
