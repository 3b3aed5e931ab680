//! Upper-case hexadecimal text for octets.

use vstd::prelude::*;

verus! {

/// The sixteen hexadecimal digits, in order of value.
pub open spec fn upper_hex_digits() -> Seq<char> {
    seq!['0', '1', '2', '3', '4', '5', '6', '7', '8', '9', 'A', 'B', 'C', 'D', 'E', 'F']
}

/// The digit that stands for `n`, for `n` below sixteen.
pub open spec fn hex_digit(n: int) -> char
    recommends
        0 <= n < 16,
{
    upper_hex_digits()[n]
}

/// The two digits of `b`, the high half first.
pub open spec fn hex_pair(b: u8) -> Seq<char> {
    seq![hex_digit(b as int / 16), hex_digit(b as int % 16)]
}

/// The octets as two-digit pairs in the order given, with a colon between
/// neighbouring pairs.
pub open spec fn colon_hex(octets: Seq<u8>) -> Seq<char>
    decreases octets.len(),
{
    if octets.len() == 0 {
        Seq::empty()
    } else if octets.len() == 1 {
        hex_pair(octets[0])
    } else {
        colon_hex(octets.drop_last()) + seq![':'] + hex_pair(octets.last())
    }
}

/// A non-empty run of `n` octets takes `3 * n - 1` characters.
pub proof fn lemma_colon_hex_len(octets: Seq<u8>)
    ensures
        octets.len() == 0 ==> colon_hex(octets).len() == 0,
        octets.len() > 0 ==> colon_hex(octets).len() == 3 * octets.len() - 1,
    decreases octets.len(),
{
    if octets.len() > 1 {
        lemma_colon_hex_len(octets.drop_last());
    }
}

/// The one-character text of the digit for `n`.
fn hex_digit_text(n: u8) -> (text: &'static str)
    requires
        n < 16,
    ensures
        text@ == seq![hex_digit(n as int)],
{
    proof {
        reveal_strlit("0");
        reveal_strlit("1");
        reveal_strlit("2");
        reveal_strlit("3");
        reveal_strlit("4");
        reveal_strlit("5");
        reveal_strlit("6");
        reveal_strlit("7");
        reveal_strlit("8");
        reveal_strlit("9");
        reveal_strlit("A");
        reveal_strlit("B");
        reveal_strlit("C");
        reveal_strlit("D");
        reveal_strlit("E");
        reveal_strlit("F");
    }
    match n {
        0 => "0",
        1 => "1",
        2 => "2",
        3 => "3",
        4 => "4",
        5 => "5",
        6 => "6",
        7 => "7",
        8 => "8",
        9 => "9",
        10 => "A",
        11 => "B",
        12 => "C",
        13 => "D",
        14 => "E",
        _ => "F",
    }
}

/// Appends the two digits of `b` to `out`.
pub fn push_hex_pair(out: &mut String, b: u8)
    ensures
        final(out)@ == old(out)@ + hex_pair(b),
{
    out.append(hex_digit_text(b / 16));
    out.append(hex_digit_text(b % 16));
}

} // verus!
