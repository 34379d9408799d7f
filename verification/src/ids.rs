//! Identities as 128-bit numbers, and their text form.

use vstd::arithmetic::power::pow;
use vstd::prelude::*;

verus! {

/// The sixteen hexadecimal digits, in order of value.
pub open spec fn hex_digits() -> Seq<char> {
    "0123456789abcdef"@
}

/// The value of the hexadecimal digit of `id` at place `k`, counted from
/// the most significant of its 32 digits.
pub open spec fn nibble(id: u128, k: int) -> int {
    (id as int / pow(16, (31 - k) as nat)) % 16
}

/// The place of the hexadecimal digit that stands at position `i` of the
/// hyphenated form, which has hyphens at positions 8, 13, 18 and 23.
pub open spec fn digit_place(i: int) -> int {
    if i < 8 {
        i
    } else if i < 13 {
        i - 1
    } else if i < 18 {
        i - 2
    } else if i < 23 {
        i - 3
    } else {
        i - 4
    }
}

/// The hyphenated text of an identity: its 32 hexadecimal digits in lower
/// case, most significant first, in groups of 8, 4, 4, 4 and 12.
pub open spec fn hyphenated(id: u128) -> Seq<char> {
    Seq::new(
        36,
        |i: int|
            if i == 8 || i == 13 || i == 18 || i == 23 {
                '-'
            } else {
                hex_digits()[nibble(id, digit_place(i))]
            },
    )
}

/// The identity that a text stands for, where it stands for one.
pub uninterp spec fn parsed_uuid(text: Seq<char>) -> Option<u128>;

/// Formats an identity with `uuid::Uuid`'s `Display`, which writes the
/// hyphenated lower-case form of the value that `Uuid::from_u128` holds.
/// `Uuid::parse_str` reads every text that the crate writes, so the text
/// stands for the identity.
#[verifier::external_body]
pub(crate) fn uuid_text(id: u128) -> (text: String)
    ensures
        text@ == hyphenated(id),
        parsed_uuid(text@) == Some(id),
{
    uuid::Uuid::from_u128(id).to_string()
}

/// Parses an identity with `uuid::Uuid::parse_str` and hands out its value
/// as `Uuid::as_u128` gives it. Which texts are accepted is the parser's
/// matter; the contract only names its answer.
#[verifier::external_body]
pub(crate) fn parse_uuid(text: &str) -> (id: Option<u128>)
    ensures
        id == parsed_uuid(text@),
{
    match uuid::Uuid::parse_str(text) {
        Ok(id) => Some(id.as_u128()),
        Err(_) => None,
    }
}

} // verus!
