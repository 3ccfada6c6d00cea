//! Identifiers: 128-bit values that callers exchange as UUID text.

use vstd::prelude::*;
use crate::models::SafeError;

verus! {

/// The error of the `uuid` crate; only ever passed through.
#[verifier::external_type_specification]
#[verifier::external_body]
pub struct ExUuidError(uuid::Error);

/// What `uuid::Uuid::parse_str` makes of a text: the 128-bit value of the UUID that the
/// text spells, or `None` where the crate rejects the text.
pub uninterp spec fn uuid_parse_str(text: Seq<char>) -> Option<u128>;

/// Calls `uuid::Uuid::parse_str` and hands back the UUID as its 128-bit value
/// (`Uuid::as_u128`). Trusted: the outcome is the one that [`uuid_parse_str`] names for
/// this text. The parser reads nothing but the text.
#[verifier::external_body]
fn parse_uuid(text: &str) -> (parsed: Result<u128, uuid::Error>)
    ensures
        match parsed {
            Ok(value) => uuid_parse_str(text@) == Some(value),
            Err(_) => uuid_parse_str(text@) is None,
        },
{
    match uuid::Uuid::parse_str(text) {
        Ok(uuid) => Ok(uuid.as_u128()),
        Err(error) => Err(error),
    }
}

/// The 128-bit value is that of a random UUID: its version field (bits 76 to 79) holds
/// 4 and its variant field (bits 62 and 63) holds the two bits `10`. The other 122
/// bits are free.
pub open spec fn is_random_uuid(id: u128) -> bool {
    (id >> 76) & 0xf == 4 && (id >> 62) & 0x3 == 2
}

/// Calls `uuid::Uuid::new_v4` and hands back the UUID as its 128-bit value.
/// Trusted: the crate draws 128 bits from the operating system's random source and
/// sets version and variant in them, so whatever was drawn, the value is a random
/// UUID in the sense of [`is_random_uuid`]; nothing is claimed of the bits that were
/// drawn. The call panics if the random source cannot be read.
#[verifier::external_body]
fn random_uuid() -> (id: u128)
    ensures
        is_random_uuid(id),
{
    uuid::Uuid::new_v4().as_u128()
}

/// Reads an identifier from its text form; a text that is no UUID is `InvalidData`.
pub fn parse_id(text: &str) -> (id: Result<u128, SafeError>)
    ensures
        id == match uuid_parse_str(text@) {
            Some(value) => Ok::<u128, SafeError>(value),
            None => Err(SafeError::InvalidData),
        },
{
    match parse_uuid(text) {
        Ok(value) => Ok(value),
        Err(_) => Err(SafeError::InvalidData),
    }
}

/// Draws a fresh random identifier: a random UUID.
pub fn generate_id() -> (id: u128)
    ensures
        is_random_uuid(id),
{
    random_uuid()
}

} // verus!
