//! UUIDs, held as their 128 bits, and their text.

use vstd::arithmetic::power::pow;
use vstd::prelude::*;

verus! {

/// The UUID that `uuid::Uuid::parse_str` reads from `text`, if it reads one.
/// It takes the hyphenated form and the simple, braced and URN forms, in
/// either case.
pub uninterp spec fn uuid_of_text(text: Seq<char>) -> Option<u128>;

/// The sixteen hexadecimal digits, lower case.
pub open spec fn hex_digits() -> Seq<char> {
    seq!['0', '1', '2', '3', '4', '5', '6', '7', '8', '9', 'a', 'b', 'c', 'd', 'e', 'f']
}

/// The `k`-th of the 32 hexadecimal digits of `value`, counted from the most
/// significant one.
pub open spec fn hex_digit_of(value: u128, k: int) -> char {
    hex_digits()[(value as int / pow(16, (31 - k) as nat)) % 16]
}

/// How many hyphens stand before place `i` of the hyphenated form.
pub open spec fn hyphens_before(i: int) -> int {
    (if i > 8 { 1int } else { 0 }) + (if i > 13 { 1int } else { 0 }) + (if i > 18 { 1int } else { 0 })
        + (if i > 23 { 1int } else { 0 })
}

/// The hyphenated lower-case form: 36 characters, hexadecimal digits in groups
/// of 8, 4, 4, 4 and 12.
pub open spec fn uuid_text(value: u128) -> Seq<char> {
    Seq::new(
        36,
        |i: int|
            if i == 8 || i == 13 || i == 18 || i == 23 {
                '-'
            } else {
                hex_digit_of(value, i - hyphens_before(i))
            },
    )
}

/// `uuid::Uuid::parse_str`, with the UUID handed out as its 128 bits by
/// `uuid::Uuid::as_u128`: the result is a function of the text alone.
#[verifier::external_body]
fn read_uuid(text: &str) -> (r: Option<u128>)
    ensures
        r == uuid_of_text(text@),
{
    match ::uuid::Uuid::parse_str(text) {
        Ok(id) => Some(id.as_u128()),
        Err(_) => None,
    }
}

/// The `Display` of the `uuid::Uuid` that `uuid::Uuid::from_u128` makes of
/// the 128 bits: the hyphenated lower-case form, which `parse_str` reads back
/// as the same UUID.
#[verifier::external_body]
fn write_uuid(value: u128) -> (s: String)
    ensures
        s@ == uuid_text(value),
        uuid_of_text(s@) == Some(value),
{
    ::uuid::Uuid::from_u128(value).to_string()
}

/// Reads a UUID from its text.
pub fn parse_uuid(text: &str) -> (r: Option<u128>)
    ensures
        r == uuid_of_text(text@),
{
    read_uuid(text)
}

/// The hyphenated lower-case text of a UUID.
pub fn format_uuid(value: u128) -> (s: String)
    ensures
        s@ == uuid_text(value),
        uuid_of_text(s@) == Some(value),
{
    write_uuid(value)
}

} // verus!
