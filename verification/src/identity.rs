//! Reading the identity that verified claims carry.

use crate::claims::Claims;
use crate::error::AuthError;
use vstd::prelude::*;

verus! {

/// The 128-bit value that `uuid::Uuid::parse_str` reads from `text`, or
/// `None` where it does not read a UUID.
pub uninterp spec fn uuid_value(text: Seq<char>) -> Option<u128>;

/// Calls `uuid::Uuid::parse_str` and takes the value as a `u128`.
///
/// Relied upon: the result is a function of the text.
#[verifier::external_body]
fn parse_uuid(text: &str) -> (value: Option<u128>)
    ensures
        value == uuid_value(text@),
{
    match uuid::Uuid::parse_str(text) {
        Ok(id) => Some(id.as_u128()),
        Err(_) => None,
    }
}

/// The user that the claims stand for, as the value of the UUID in `sub`.
/// A subject that is no UUID is the fault of whoever presents it to a
/// handler that needs one: `BadRequest`.
pub fn subject_uuid(claims: &Claims) -> (user: Result<u128, AuthError>)
    ensures
        match uuid_value(claims.sub@) {
            Some(value) => user == Ok::<u128, AuthError>(value),
            None => user == Err::<u128, AuthError>(AuthError::BadRequest),
        },
{
    match parse_uuid(claims.sub.as_str()) {
        Some(value) => Ok(value),
        None => Err(AuthError::BadRequest),
    }
}

} // verus!
