use vstd::prelude::*;

verus! {

/// Whether `b` is one of the letters `A` to `Z`.
pub open spec fn is_upper(b: u8) -> bool {
    0x41 <= b <= 0x5a
}

/// Whether `b` is one of the letters `a` to `z`.
pub open spec fn is_lower(b: u8) -> bool {
    0x61 <= b <= 0x7a
}

/// Whether `b` is an ASCII letter of either case.
pub open spec fn is_letter(b: u8) -> bool {
    is_upper(b) || is_lower(b)
}

/// The upper-case form of an ASCII letter; any other byte is left as it is.
pub open spec fn to_upper(b: u8) -> u8 {
    if is_lower(b) {
        (b - 0x20) as u8
    } else {
        b
    }
}

/// Tells whether `b` is one of the letters `A` to `Z`.
pub(crate) fn is_upper_byte(b: u8) -> (upper: bool)
    ensures
        upper == is_upper(b),
{
    0x41 <= b && b <= 0x5a
}

/// Tells whether `b` is an ASCII letter of either case.
pub(crate) fn is_letter_byte(b: u8) -> (letter: bool)
    ensures
        letter == is_letter(b),
{
    (0x41 <= b && b <= 0x5a) || (0x61 <= b && b <= 0x7a)
}

/// Gives the upper-case form of an ASCII letter and any other byte unchanged.
pub(crate) fn upper_byte(b: u8) -> (upper: u8)
    ensures
        upper == to_upper(b),
        is_letter(b) ==> is_upper(upper),
{
    if 0x61 <= b && b <= 0x7a {
        b - 0x20
    } else {
        b
    }
}

/// The text that two ASCII bytes spell.
pub open spec fn pair_text(bytes: Seq<u8>) -> Seq<char> {
    seq![bytes[0] as char, bytes[1] as char]
}

/// Reads two ASCII bytes as text through `core::str::from_utf8`.
///
/// Not proved: that bytes below 0x80 are valid UTF-8 and that each of them
/// decodes to the character with the same code.
#[verifier::external_body]
pub(crate) fn pair_as_str(bytes: &[u8; 2]) -> (text: &str)
    requires
        bytes@[0] < 0x80,
        bytes@[1] < 0x80,
    ensures
        text@ == pair_text(bytes@),
{
    match core::str::from_utf8(bytes) {
        Ok(text) => text,
        Err(_) => "",
    }
}

} // verus!
