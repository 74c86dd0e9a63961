//! Processor and packet identities: 128-bit values with a textual form.

use vstd::prelude::*;

verus! {

/// The 128-bit value that a piece of text denotes as an identifier, where it
/// denotes one.
pub uninterp spec fn parsed_uuid(text: Seq<char>) -> Option<u128>;

/// Sixteen to the power of `exponent`.
pub open spec fn pow16(exponent: nat) -> nat
    decreases exponent,
{
    if exponent == 0 {
        1
    } else {
        16 * pow16((exponent - 1) as nat)
    }
}

/// The hexadecimal digit of `id` at `position`, counted from the most
/// significant of its 32 digits.
pub open spec fn hex_digit_of(id: u128, position: int) -> int {
    (id as nat / pow16((31 - position) as nat)) as int % 16
}

/// The lower-case character of a hexadecimal digit.
pub open spec fn hex_char(digit: int) -> char {
    seq!['0', '1', '2', '3', '4', '5', '6', '7', '8', '9', 'a', 'b', 'c', 'd', 'e', 'f'][digit]
}

/// The canonical text of an identifier: its 32 hexadecimal digits in lower
/// case, in groups of 8, 4, 4, 4 and 12 with a hyphen between groups.
pub open spec fn uuid_text(id: u128) -> Seq<char> {
    Seq::new(
        36,
        |i: int|
            if i == 8 || i == 13 || i == 18 || i == 23 {
                '-'
            } else if i < 8 {
                hex_char(hex_digit_of(id, i))
            } else if i < 13 {
                hex_char(hex_digit_of(id, i - 1))
            } else if i < 18 {
                hex_char(hex_digit_of(id, i - 2))
            } else if i < 23 {
                hex_char(hex_digit_of(id, i - 3))
            } else {
                hex_char(hex_digit_of(id, i - 4))
            },
    )
}

/// Whether `id` carries the version and variant marks of a randomly drawn
/// identifier: version nibble 4, variant bits `10`.
pub open spec fn is_random_uuid(id: u128) -> bool {
    (id >> 76) & 0xf == 4 && (id >> 62) & 0x3 == 2
}

/// Calls `uuid::Uuid::parse_str` and hands back the identifier as a `u128`
/// (`Uuid::as_u128`), or `None` where the text is refused. Trusted: the
/// result is a function of the text alone.
#[verifier::external_body]
pub(crate) fn parse_uuid(text: &str) -> (r: Option<u128>)
    ensures
        r == parsed_uuid(text@),
{
    match uuid::Uuid::parse_str(text) {
        Ok(id) => Some(id.as_u128()),
        Err(_) => None,
    }
}

/// Formats `uuid::Uuid::from_u128(id)` with its `Display` impl, which writes
/// the lower-case hyphenated form. Trusted: the result is that form, and
/// `Uuid::parse_str` reads it back to the same identifier.
#[verifier::external_body]
pub(crate) fn uuid_to_text(id: u128) -> (r: String)
    ensures
        r@ == uuid_text(id),
        parsed_uuid(r@) == Some(id),
{
    uuid::Uuid::from_u128(id).to_string()
}

/// Calls `uuid::Uuid::new_v4`, which draws 128 random bits and overwrites
/// the version nibble with 4 and the two variant bits with `10`. Trusted:
/// nothing else is claimed of the value.
#[verifier::external_body]
pub(crate) fn fresh_uuid() -> (r: u128)
    ensures
        is_random_uuid(r),
{
    uuid::Uuid::new_v4().as_u128()
}

} // verus!
