//! Who is calling: owner identifiers and how one is read from a token's
//! subject.

use vstd::prelude::*;
use crate::error::ApiError;

verus! {

/// The identifier of a user: the 128 bits of a UUID, most significant byte
/// first.
#[derive(Clone, Copy, Debug, PartialEq, Eq, Hash, Structural)]
pub struct UserId(pub u128);

/// `uuid::Error`, the reason why a text is no UUID. It is carried from the
/// parser to `identity_from` and never read.
#[verifier::external_type_specification]
#[verifier::external_body]
pub struct ExUuidError(uuid::Error);

/// The 128 bits that `uuid::Uuid::parse_str` reads from `text`, or `None`
/// where it rejects `text`.
pub uninterp spec fn uuid_of(text: Seq<char>) -> Option<u128>;

/// Parses `text` with `uuid::Uuid::parse_str` and packs the bytes with
/// `Uuid::as_u128`.
///
/// Trusted: the outcome is a function of the characters of `text` alone,
/// named `uuid_of`.
#[verifier::external_body]
fn parse_uuid(text: &str) -> (parsed: Result<u128, uuid::Error>)
    ensures
        match parsed {
            Ok(bits) => uuid_of(text@) == Some(bits),
            Err(_) => uuid_of(text@) is None,
        },
{
    match uuid::Uuid::parse_str(text) {
        Ok(id) => Ok(id.as_u128()),
        Err(e) => Err(e),
    }
}

/// The identity that a parse outcome stands for: the user with the parsed
/// bits, or `InternalFailure` where the subject was no UUID.
pub fn identity_from(parsed: Result<u128, uuid::Error>) -> (r: Result<UserId, ApiError>)
    ensures
        match parsed {
            Ok(bits) => r == Ok::<UserId, ApiError>(UserId(bits)),
            Err(_) => r == Err::<UserId, ApiError>(ApiError::InternalFailure),
        },
{
    match parsed {
        Ok(bits) => Ok(UserId(bits)),
        Err(_) => Err(ApiError::InternalFailure),
    }
}

/// Resolves the subject of a verified token to the caller's identifier.
///
/// A subject that is no UUID is an `InternalFailure`, never a panic.
pub fn caller_id(pid: &str) -> (r: Result<UserId, ApiError>)
    ensures
        r == match uuid_of(pid@) {
            Some(bits) => Ok::<UserId, ApiError>(UserId(bits)),
            None => Err::<UserId, ApiError>(ApiError::InternalFailure),
        },
{
    identity_from(parse_uuid(pid))
}

} // verus!
