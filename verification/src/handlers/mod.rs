//! The decisions of the request handlers. Each handler that talks to the
//! database is a step function: the server hands it an event (the request,
//! then the outcome of each database operation) and gets back an action (the
//! next database operation to run, or the reply to send).
pub mod review;
pub mod ride;
pub mod user;
pub mod userinfo;

use vstd::prelude::*;
use crate::ids::{parse_uuid, uuid_from_text};
use crate::jwt_controller::AccessClaims;
use crate::response::{Error, ErrorKind};

verus! {

/// How a database operation failed, as far as the handlers tell failures
/// apart.
#[derive(Debug, Clone, Copy, PartialEq, Eq, Structural)]
pub enum DbError {
    /// A query that must return a row returned none.
    RowNotFound,
    /// The database refused a row that would break a unique constraint.
    UniqueViolation,
    /// The database refused the operation for another reason.
    OtherDatabase,
    /// The database could not be reached or answered unreadably.
    Other,
}

/// The error that answers a failed lookup of a user: no such user is a failed
/// login, anything else a database failure.
pub open spec fn user_lookup_error_kind(e: DbError) -> ErrorKind {
    match e {
        DbError::RowNotFound => ErrorKind::LoginFailed,
        _ => ErrorKind::DbConnection,
    }
}

pub fn user_lookup_error(e: DbError) -> (r: Error)
    ensures
        r.error_kind == user_lookup_error_kind(e),
{
    match e {
        DbError::RowNotFound => Error::new(ErrorKind::LoginFailed),
        _ => Error::new(ErrorKind::DbConnection),
    }
}

/// The id named by the subject of a token; an unreadable subject makes the
/// token invalid.
pub fn parse_subject(sub: &str) -> (r: Result<u128, Error>)
    ensures
        r == (match uuid_from_text(sub@) {
            Some(id) => Ok(id),
            None => Err(Error { error_kind: ErrorKind::InvalidToken }),
        }),
{
    match parse_uuid(sub) {
        Some(id) => Ok(id),
        None => Err(Error::new(ErrorKind::InvalidToken)),
    }
}

/// The id of the ride that a request names.
pub fn parse_ride_id(ride_id: &str) -> (r: Result<u128, Error>)
    ensures
        r == (match uuid_from_text(ride_id@) {
            Some(id) => Ok(id),
            None => Err(Error { error_kind: ErrorKind::InvalidRideId }),
        }),
{
    match parse_uuid(ride_id) {
        Some(id) => Ok(id),
        None => Err(Error::new(ErrorKind::InvalidRideId)),
    }
}


/// The caller of a request, as its access token names it.
#[derive(Debug, Clone, Copy, PartialEq, Eq, Structural)]
pub struct UserClaim {
    pub id: u128,
    pub driver: bool,
}

/// The caller that claims with the given subject and driver flag name.
pub open spec fn user_claim_of(sub: Seq<char>, driver: bool) -> Result<UserClaim, Error> {
    match uuid_from_text(sub) {
        Some(id) => Ok(UserClaim { id, driver }),
        None => Err(Error { error_kind: ErrorKind::InvalidToken }),
    }
}

impl UserClaim {
    /// The caller that the claims of an access token name.
    pub fn from_access_claims(claims: &AccessClaims) -> (r: Result<UserClaim, Error>)
        ensures
            r == user_claim_of(claims.sub@, claims.driver),
    {
        match parse_subject(claims.sub.as_str()) {
            Ok(id) => Ok(UserClaim { id, driver: claims.driver }),
            Err(e) => Err(e),
        }
    }
}

/// The claims that this server issues to a user name that user again: the
/// subject of the access claims of a user reads back as the user's id.
pub proof fn lemma_issued_claims_name_their_user(id: u128, driver: bool)
    ensures
        user_claim_of(crate::ids::hyphenated_text(id), driver) == Ok::<UserClaim, Error>(
            UserClaim { id, driver },
        ),
{
    crate::ids::lemma_hyphenated_text_parses_back(id);
}

/// The reply to an update of one ride: done when exactly one ride changed.
pub open spec fn ride_update_reply(outcome: Result<u64, DbError>) -> Result<u16, Error> {
    match outcome {
        Err(_) => Err(Error { error_kind: ErrorKind::Server }),
        Ok(rows) => if rows == 1 {
            Ok(crate::response::STATUS_OK)
        } else {
            Err(Error { error_kind: ErrorKind::FailedRideOperation })
        },
    }
}

pub fn reply_to_ride_update(outcome: Result<u64, DbError>) -> (r: Result<u16, Error>)
    ensures
        r == ride_update_reply(outcome),
{
    match outcome {
        Err(_) => Err(Error::new(ErrorKind::Server)),
        Ok(rows) => if rows == 1 {
            Ok(crate::response::STATUS_OK)
        } else {
            Err(Error::new(ErrorKind::FailedRideOperation))
        },
    }
}

} // verus!
