//! The address value: six octets and a type tag, its text and its binary
//! form.

use crate::hex::{colon_hex, lemma_colon_hex_len, push_hex_pair};
use vstd::prelude::*;
use vstd::std_specs::cmp::PartialEqSpecImpl;

verus! {

/// The length of an encoded address: one byte for the type, six for the
/// octets.
pub const ENCODED_LEN: usize = 7;

/// Bluetooth device address type.
#[derive(Clone, Copy, Debug, PartialEq, Eq, Structural)]
pub enum BLEAddressType {
    Public,
    Random,
    PublicID,
    RandomID,
}

impl BLEAddressType {
    /// The number that stands for this type in the radio stack and as the
    /// first byte of an encoded address.
    pub open spec fn spec_code(self) -> u8 {
        match self {
            BLEAddressType::Public => 0,
            BLEAddressType::Random => 1,
            BLEAddressType::PublicID => 2,
            BLEAddressType::RandomID => 3,
        }
    }

    /// The number that stands for this type.
    #[verifier::when_used_as_spec(spec_code)]
    pub fn code(self) -> (c: u8)
        ensures
            c == self.spec_code(),
    {
        match self {
            BLEAddressType::Public => 0,
            BLEAddressType::Random => 1,
            BLEAddressType::PublicID => 2,
            BLEAddressType::RandomID => 3,
        }
    }

    /// The type that a decoded address gets for the first byte `tag` of its
    /// encoded form, if `tag` is one of the four codes. A decoded address is
    /// never `Random`: the codes of `Random` and of `RandomID` both give
    /// `RandomID`.
    pub open spec fn spec_decoded_from(tag: u8) -> Option<BLEAddressType> {
        if tag == 0 {
            Some(BLEAddressType::Public)
        } else if tag == 1 {
            Some(BLEAddressType::RandomID)
        } else if tag == 2 {
            Some(BLEAddressType::PublicID)
        } else if tag == 3 {
            Some(BLEAddressType::RandomID)
        } else {
            None
        }
    }

    /// The type that a decoded address gets for the first byte `tag` of its
    /// encoded form, or `None` if `tag` is none of the four codes.
    #[verifier::when_used_as_spec(spec_decoded_from)]
    pub fn decoded_from(tag: u8) -> (addr_type: Option<BLEAddressType>)
        ensures
            addr_type == BLEAddressType::spec_decoded_from(tag),
            addr_type is Some <==> tag <= 3,
    {
        if tag == BLEAddressType::Public.code() {
            Some(BLEAddressType::Public)
        } else if tag == BLEAddressType::Random.code() {
            Some(BLEAddressType::RandomID)
        } else if tag == BLEAddressType::PublicID.code() {
            Some(BLEAddressType::PublicID)
        } else if tag == BLEAddressType::RandomID.code() {
            Some(BLEAddressType::RandomID)
        } else {
            None
        }
    }
}

/// Why a byte sequence is no encoded address.
#[derive(Clone, Copy, Debug, PartialEq, Eq, Structural)]
pub enum DecodeError {
    /// The first byte is none of the four type codes.
    InvalidAddressType,
    /// Fewer than seven bytes were given.
    TruncatedInput,
}

/// What an address is: its type code and its six octets in wire order, the
/// least significant first.
pub struct AddressView {
    pub type_code: u8,
    pub octets: Seq<u8>,
}

impl AddressView {
    /// Every address has exactly six octets.
    pub open spec fn wf(self) -> bool {
        self.octets.len() == 6
    }

    /// The type code is one of the four that are defined.
    pub open spec fn has_defined_type(self) -> bool {
        self.type_code <= 3
    }

    /// The address made from six octets in display order, the most
    /// significant first: it holds them reversed.
    pub open spec fn constructed(val: Seq<u8>, addr_type: BLEAddressType) -> AddressView {
        AddressView { type_code: addr_type.spec_code(), octets: val.reverse() }
    }

    /// The octets as people read them, the most significant first.
    pub open spec fn display_order(self) -> Seq<u8> {
        self.octets.reverse()
    }

    /// The text `XX:XX:XX:XX:XX:XX`: the octets in display order, each as two
    /// upper-case hexadecimal digits.
    pub open spec fn display_text(self) -> Seq<char> {
        colon_hex(self.display_order())
    }

    /// The binary form: the type code, then the octets in wire order.
    pub open spec fn encoded(self) -> Seq<u8> {
        seq![self.type_code] + self.octets
    }

    /// What `bytes` decode to. Fewer than seven bytes are truncated input,
    /// whatever they hold. Otherwise the first byte chooses the type, and the
    /// six bytes after it are taken as octets in display order: the address
    /// holds them reversed. Bytes after the seventh are not looked at.
    pub open spec fn decoded(bytes: Seq<u8>) -> Result<AddressView, DecodeError> {
        if bytes.len() < ENCODED_LEN {
            Err(DecodeError::TruncatedInput)
        } else {
            match BLEAddressType::spec_decoded_from(bytes[0]) {
                Some(addr_type) => Ok(
                    AddressView::constructed(bytes.subrange(1, ENCODED_LEN as int), addr_type),
                ),
                None => Err(DecodeError::InvalidAddressType),
            }
        }
    }
}

/// A Bluetooth device address with its type.
#[derive(Clone, Copy)]
pub struct BLEAddress {
    type_: u8,
    val: [u8; 6],
}

impl View for BLEAddress {
    type V = AddressView;

    closed spec fn view(&self) -> AddressView {
        AddressView { type_code: self.type_, octets: self.val@ }
    }
}

impl PartialEq for BLEAddress {
    /// Two addresses are equal when they have the same type code and the
    /// same octets.
    fn eq(&self, other: &Self) -> (same: bool) {
        let mut same = self.type_ == other.type_;
        let mut i: usize = 0;
        while i < 6
            invariant
                i <= 6,
                same <==> self.type_ == other.type_ && forall|j: int|
                    0 <= j < i ==> self.val@[j] == other.val@[j],
            decreases 6 - i,
        {
            if self.val[i] != other.val[i] {
                same = false;
            }
            i += 1;
        }
        proof {
            if same {
                assert(self.val@ =~= other.val@);
            }
        }
        same
    }
}

impl Eq for BLEAddress {}

impl PartialEqSpecImpl for BLEAddress {
    open spec fn obeys_eq_spec() -> bool {
        true
    }

    open spec fn eq_spec(&self, other: &Self) -> bool {
        self@ == other@
    }
}

/// The six octets in the opposite order.
fn reversed(val: [u8; 6]) -> (out: [u8; 6])
    ensures
        out@ == val@.reverse(),
{
    [val[5], val[4], val[3], val[2], val[1], val[0]]
}

impl BLEAddress {
    /// Every address value is well formed.
    pub proof fn lemma_wf(self)
        ensures
            self@.wf(),
    {
    }

    /// Makes an address from six octets in display order and a type. The
    /// octets are stored reversed, in wire order. Every six octets make an
    /// address.
    pub fn new(val: [u8; 6], addr_type: BLEAddressType) -> (addr: Self)
        ensures
            addr@ == AddressView::constructed(val@, addr_type),
            addr@.display_order() == val@,
            addr@.has_defined_type(),
    {
        BLEAddress { type_: addr_type.code(), val: reversed(val) }
    }

    /// Adopts a type code and six octets that are already in wire order, as
    /// the radio stack hands them out. Nothing is reordered and the code is
    /// kept as it is.
    pub fn from_wire(type_code: u8, val: [u8; 6]) -> (addr: Self)
        ensures
            addr@ == (AddressView { type_code, octets: val@ }),
    {
        BLEAddress { type_: type_code, val }
    }

    /// The address as text, `XX:XX:XX:XX:XX:XX`: seventeen characters, the
    /// octets in display order.
    pub fn to_display_string(&self) -> (text: String)
        ensures
            text@ == self@.display_text(),
            text@.len() == 17,
    {
        let ghost shown = self@.display_order();
        let mut text = String::new();
        let mut i: usize = 0;
        while i < 6
            invariant
                i <= 6,
                shown == self@.display_order(),
                text@ == colon_hex(shown.take(i as int)),
            decreases 6 - i,
        {
            if i > 0 {
                text.append(":");
            }
            push_hex_pair(&mut text, self.val[5 - i]);
            proof {
                reveal_strlit(":");
                let next = shown.take(i + 1);
                assert(next.drop_last() == shown.take(i as int));
            }
            i += 1;
        }
        proof {
            assert(shown.take(6) == shown);
            lemma_colon_hex_len(shown);
        }
        text
    }

    /// The binary form of the address: seven bytes, the type code as stored
    /// and then the six octets in wire order.
    pub fn encode(&self) -> (bytes: [u8; 7])
        ensures
            bytes@ == self@.encoded(),
    {
        [
            self.type_,
            self.val[0],
            self.val[1],
            self.val[2],
            self.val[3],
            self.val[4],
            self.val[5],
        ]
    }

    /// Reads an address from its binary form. At least seven bytes are
    /// needed; the six after the type byte go to [`BLEAddress::new`] as they
    /// stand, so the address holds them reversed.
    pub fn decode(bytes: &[u8]) -> (r: Result<BLEAddress, DecodeError>)
        ensures
            match r {
                Ok(addr) => AddressView::decoded(bytes@) == Ok::<AddressView, DecodeError>(addr@),
                Err(e) => AddressView::decoded(bytes@) == Err::<AddressView, DecodeError>(e),
            },
            bytes@.len() < 7 ==> r matches Err(DecodeError::TruncatedInput),
            bytes@.len() >= 7 && bytes@[0] > 3 ==> r matches Err(DecodeError::InvalidAddressType),
            bytes@.len() >= 7 && bytes@[0] <= 3 ==> r is Ok,
    {
        if bytes.len() < ENCODED_LEN {
            return Err(DecodeError::TruncatedInput);
        }
        let addr_type = match BLEAddressType::decoded_from(bytes[0]) {
            Some(addr_type) => addr_type,
            None => {
                return Err(DecodeError::InvalidAddressType);
            },
        };
        let val: [u8; 6] = [bytes[1], bytes[2], bytes[3], bytes[4], bytes[5], bytes[6]];
        assert(val@ == bytes@.subrange(1, 7));
        Ok(BLEAddress::new(val, addr_type))
    }

    /// The type code as stored.
    pub fn type_code(&self) -> (code: u8)
        ensures
            code == self@.type_code,
    {
        self.type_
    }

    /// The six octets in wire order.
    pub fn wire_bytes(&self) -> (val: [u8; 6])
        ensures
            val@ == self@.octets,
    {
        self.val
    }
}

} // verus!
