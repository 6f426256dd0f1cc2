//! Identifiers of verifiers and sessions: 128-bit numbers that travel as
//! hyphenated UUIDs.

use std::str::FromStr;
use vstd::arithmetic::power::pow;
use vstd::prelude::*;

verus! {

/// The identifier of a pending verifier.
pub type VerifierId = u128;

/// The identifier of an open session.
pub type SessionId = u128;

/// The lower-case character of a hexadecimal digit.
pub open spec fn lower_hex_char(d: int) -> char {
    if d < 10 {
        crate::bignum::encoding::digit_char(d as nat)
    } else if d == 10 {
        'a'
    } else if d == 11 {
        'b'
    } else if d == 12 {
        'c'
    } else if d == 13 {
        'd'
    } else if d == 14 {
        'e'
    } else {
        'f'
    }
}

/// The `j`-th of the 32 hexadecimal digits of `id`, the most significant
/// first.
pub open spec fn hex_digit_of(id: u128, j: int) -> int {
    (id as int / pow(16, (31 - j) as nat)) % 16
}

/// The hyphenated text of an identifier: its 32 lower-case hexadecimal
/// digits in groups of 8, 4, 4, 4 and 12.
pub open spec fn uuid_text(id: u128) -> Seq<char> {
    Seq::new(
        36,
        |i: int|
            if i == 8 || i == 13 || i == 18 || i == 23 {
                '-'
            } else if i < 8 {
                lower_hex_char(hex_digit_of(id, i))
            } else if i < 13 {
                lower_hex_char(hex_digit_of(id, i - 1))
            } else if i < 18 {
                lower_hex_char(hex_digit_of(id, i - 2))
            } else if i < 23 {
                lower_hex_char(hex_digit_of(id, i - 3))
            } else {
                lower_hex_char(hex_digit_of(id, i - 4))
            },
    )
}

/// Whether an identifier is a random UUID: its version digit is 4 and its
/// variant digit is 8, 9, a or b.
pub open spec fn is_random_uuid(id: u128) -> bool {
    hex_digit_of(id, 12) == 4 && 8 <= hex_digit_of(id, 16) <= 11
}

/// The identifier that a text denotes, as `Uuid::from_str` reads it, if it
/// denotes one.
pub uninterp spec fn uuid_parse(text: Seq<char>) -> Option<u128>;

/// `Uuid::new_v4`: a random identifier of version 4. Nothing else is said
/// of which.
#[verifier::external_body]
pub(crate) fn new_id() -> (id: u128)
    ensures
        is_random_uuid(id),
{
    uuid::Uuid::new_v4().as_u128()
}

/// `Uuid::from_str`: the identifier that a text denotes, if it denotes one.
#[verifier::external_body]
pub(crate) fn parse_id(text: &str) -> (id: Option<u128>)
    ensures
        id == uuid_parse(text@),
{
    match uuid::Uuid::from_str(text) {
        Ok(uuid) => Some(uuid.as_u128()),
        Err(_) => None,
    }
}

/// `Uuid::to_string`: the hyphenated lower-case text of an identifier, which
/// `Uuid::from_str` reads back as the same identifier.
#[verifier::external_body]
pub(crate) fn id_to_string(id: u128) -> (text: String)
    ensures
        text@ == uuid_text(id),
        uuid_parse(text@) == Some(id),
{
    uuid::Uuid::from_u128(id).to_string()
}

} // verus!
