//! Job identifiers: 128-bit values with the textual forms of a UUID.

use vstd::prelude::*;
use vstd::arithmetic::power::pow;

verus! {

/// What `uuid::Uuid::parse_str` makes of a text: the 128-bit value of the
/// identifier it reads, or `None` where it rejects the text.
pub uninterp spec fn uuid_parse(text: Seq<char>) -> Option<u128>;

/// The hexadecimal digits, in lower case.
pub open spec fn hex_digits() -> Seq<char> {
    seq!['0', '1', '2', '3', '4', '5', '6', '7', '8', '9', 'a', 'b', 'c', 'd', 'e', 'f']
}

/// The number of hyphens that stand before position `i` of the hyphenated
/// notation.
pub open spec fn hyphens_before(i: int) -> int {
    if i > 23 {
        4
    } else if i > 18 {
        3
    } else if i > 13 {
        2
    } else if i > 8 {
        1
    } else {
        0
    }
}

/// The `k`-th of the 32 hexadecimal digits of a 128-bit value, counted from
/// the highest.
pub open spec fn hex_digit_of(id: u128, k: int) -> int {
    (id as int / pow(16, (31 - k) as nat)) % 16
}

/// The hyphenated notation of an identifier: its 32 hexadecimal digits in
/// lower case, highest first, in groups of 8, 4, 4, 4 and 12 digits with a
/// hyphen between two groups.
pub open spec fn uuid_text(id: u128) -> Seq<char> {
    Seq::new(
        36,
        |i: int|
            if i == 8 || i == 13 || i == 18 || i == 23 {
                '-'
            } else {
                hex_digits()[hex_digit_of(id, i - hyphens_before(i))]
            },
    )
}

/// Reads a UUID in any of the notations the `uuid` crate accepts.
///
/// Trusted: calls `uuid::Uuid::parse_str` and takes the value of the result
/// with `Uuid::as_u128`. The contract only gives the outcome its name.
#[verifier::external_body]
pub(crate) fn parse_uuid(text: &str) -> (id: Option<u128>)
    ensures
        id == uuid_parse(text@),
{
    match uuid::Uuid::parse_str(text) {
        Ok(u) => Some(u.as_u128()),
        Err(_) => None,
    }
}

/// Writes an identifier in the hyphenated lower-case notation.
///
/// Trusted: builds the value with `uuid::Uuid::from_u128` and formats it
/// with its `Display` impl, which writes the hyphenated lower-case notation
/// of the 128-bit value.
#[verifier::external_body]
pub(crate) fn format_uuid(id: u128) -> (text: String)
    ensures
        text@ == uuid_text(id),
{
    uuid::Uuid::from_u128(id).to_string()
}

/// Draws a fresh random identifier.
///
/// Trusted: calls `uuid::Uuid::new_v4`. Nothing is claimed of the value.
#[verifier::external_body]
pub(crate) fn random_uuid() -> u128 {
    uuid::Uuid::new_v4().as_u128()
}

} // verus!
