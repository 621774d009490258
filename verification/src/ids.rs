//! User ids: UUIDs, held as their 128-bit values.

use vstd::prelude::*;
use crate::routes::user::ServiceError;

verus! {

/// The id that `uuid::Uuid::parse_str` reads from a text, as a 128-bit
/// value in big-endian order, or `None` where it rejects the text.
pub uninterp spec fn parsed_id(text: Seq<char>) -> Option<u128>;

/// The bits that mark a UUID as random: version 4 in the high four bits of
/// the seventh byte, and the variant `10` in the high two bits of the ninth.
pub open spec fn is_version_4(id: u128) -> bool {
    id & 0x0000_0000_0000_f000_c000_0000_0000_0000u128
        == 0x0000_0000_0000_4000_8000_0000_0000_0000u128
}

/// Calls `uuid::Uuid::parse_str`, and `as_u128` on what it returns.
/// Trusted: the result depends on the text alone.
#[verifier::external_body]
pub(crate) fn parse_id(text: &str) -> (id: Option<u128>)
    ensures
        id == parsed_id(text@),
{
    match uuid::Uuid::parse_str(text) {
        Ok(id) => Some(id.as_u128()),
        Err(_) => None,
    }
}

/// Calls `uuid::Uuid::new_v4`, and `as_u128` on what it returns. Trusted:
/// whatever the random bits, the version and variant bits are those of a
/// random UUID.
#[verifier::external_body]
pub(crate) fn fresh_id() -> (id: u128)
    ensures
        is_version_4(id),
{
    uuid::Uuid::new_v4().as_u128()
}

/// The id a request names, given what parsing its text gave.
pub open spec fn named_id(parsed: Option<u128>) -> Result<u128, ServiceError> {
    match parsed {
        Some(id) => Ok(id),
        None => Err(ServiceError::InvalidInput),
    }
}

/// Decides which id a request names: a text that is no UUID is invalid
/// input.
pub fn id_or_invalid(parsed: Option<u128>) -> (r: Result<u128, ServiceError>)
    ensures
        r == named_id(parsed),
{
    match parsed {
        Some(id) => Ok(id),
        None => Err(ServiceError::InvalidInput),
    }
}

/// Reads the id in the path of a request.
pub fn request_id(text: &str) -> (r: Result<u128, ServiceError>)
    ensures
        r == named_id(parsed_id(text@)),
{
    id_or_invalid(parse_id(text))
}

} // verus!
