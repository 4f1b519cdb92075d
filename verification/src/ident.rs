//! Identifiers of positions and events: 128-bit UUIDs and their hyphenated text.

use vstd::prelude::*;
use uuid::Uuid;
use crate::error::Error;

verus! {

/// The lower-case hexadecimal digit for a value below sixteen.
pub open spec fn hex_digit(value: int) -> char {
    if value < 10 {
        (48 + value) as char
    } else {
        (87 + value) as char
    }
}

/// The position among the 32 hexadecimal digits of the character at `index`
/// of the hyphenated text, for an index that holds no hyphen.
pub open spec fn digit_position(index: int) -> int {
    if index < 8 {
        index
    } else if index < 13 {
        index - 1
    } else if index < 18 {
        index - 2
    } else if index < 23 {
        index - 3
    } else {
        index - 4
    }
}

/// The hyphenated text of an identifier: its 32 hexadecimal digits, most
/// significant first, in groups of 8, 4, 4, 4 and 12.
pub open spec fn id_text(id: u128) -> Seq<char> {
    Seq::new(
        36,
        |index: int|
            if index == 8 || index == 13 || index == 18 || index == 23 {
                '-'
            } else {
                hex_digit(((id as int) / vstd::arithmetic::power::pow(16, (31 - digit_position(index)) as nat)) % 16)
            },
    )
}

/// The identifier that `uuid` reads from `text`, which may be in any of the
/// forms the crate writes (simple, hyphenated, URN, braced); `None` where the
/// text is none of them.
pub uninterp spec fn text_id(text: Seq<char>) -> Option<u128>;

/// Calls `Uuid::from_u128` and `Uuid::to_string`, which writes the hyphenated
/// lower-case form. The contract states that text, and that `Uuid::parse_str`
/// reads the same identifier back from it.
#[verifier::external_body]
fn uuid_format(id: u128) -> (text: String)
    ensures
        text@ == id_text(id),
        text_id(text@) == Some(id),
{
    Uuid::from_u128(id).to_string()
}

/// Calls `Uuid::parse_str` and, on success, `Uuid::as_u128`. The contract
/// names the outcome.
#[verifier::external_body]
fn uuid_parse(text: &str) -> (id: Option<u128>)
    ensures
        id == text_id(text@),
{
    match Uuid::parse_str(text) {
        Ok(parsed) => Some(parsed.as_u128()),
        Err(_) => None,
    }
}

/// Whether the identifier bears the marks of a random UUID: version 4 in the
/// thirteenth hexadecimal digit and the RFC 4122 variant in the two bits after
/// the sixteenth.
pub open spec fn is_random_id(id: u128) -> bool {
    id & 0x0000_0000_0000_f000_c000_0000_0000_0000 == 0x0000_0000_0000_4000_8000_0000_0000_0000
}

/// Calls `Uuid::new_v4` and `Uuid::as_u128`. The identifier is random: the
/// contract claims only the version and the variant that every such
/// identifier bears.
#[verifier::external_body]
fn uuid_random() -> (id: u128)
    ensures
        is_random_id(id),
{
    Uuid::new_v4().as_u128()
}

/// A fresh random identifier.
pub fn fresh_id() -> (id: u128)
    ensures
        is_random_id(id),
{
    uuid_random()
}

/// Writes an identifier as hyphenated text. Reading the text back gives the
/// same identifier.
pub fn format_id(id: u128) -> (text: String)
    ensures
        text@ == id_text(id),
        text_id(text@) == Some(id),
{
    uuid_format(id)
}

/// Reads an identifier from its text.
pub fn parse_id(text: &str) -> (r: Result<u128, Error>)
    ensures
        r == match text_id(text@) {
            Some(id) => Ok::<u128, Error>(id),
            None => Err(Error::InvalidId),
        },
{
    match uuid_parse(text) {
        Some(id) => Ok(id),
        None => Err(Error::InvalidId),
    }
}

} // verus!
