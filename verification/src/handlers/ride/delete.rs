//! The customer or the driver of a ride deletes it while it is not over.
use vstd::prelude::*;
use crate::handlers::{parse_ride_id, parse_subject, reply_to_ride_update, ride_update_reply, DbError};
use crate::ids::uuid_from_text;
use crate::jwt_controller::AccessClaims;
use crate::response::{Error, ErrorKind};

verus! {

pub struct Payload {
    pub ride_id: String,
}

/// What the server hands the handler.
pub enum Step {
    /// The request, with the claims of the caller's access token.
    Request { claims: AccessClaims, payload: Payload },
    /// How many rides the update changed, or why it failed.
    Updated(Result<u64, DbError>),
}

/// What the handler asks the server to do next.
#[derive(Debug)]
pub enum Action {
    /// Mark ride `ride_id` deleted and ended now, if it is waiting or running
    /// and `user_id` is its customer or its driver.
    UpdateRide { ride_id: u128, user_id: u128 },
    /// Send this reply.
    Reply(Result<u16, Error>),
}

/// The answer to a request: both the caller's id and the ride's id must be
/// UUIDs.
pub open spec fn request_action(sub: Seq<char>, ride_id: Seq<char>) -> Action {
    match uuid_from_text(sub) {
        None => Action::Reply(Err(Error { error_kind: ErrorKind::InvalidToken })),
        Some(user_id) => match uuid_from_text(ride_id) {
            None => Action::Reply(Err(Error { error_kind: ErrorKind::InvalidRideId })),
            Some(ride_id) => Action::UpdateRide { ride_id, user_id },
        },
    }
}

pub fn handler(step: Step) -> (action: Action)
    ensures
        action == (match step {
            Step::Request { claims, payload } => request_action(claims.sub@, payload.ride_id@),
            Step::Updated(outcome) => Action::Reply(ride_update_reply(outcome)),
        }),
{
    match step {
        Step::Request { claims, payload } => {
            let user_id = match parse_subject(claims.sub.as_str()) {
                Ok(id) => id,
                Err(e) => return Action::Reply(Err(e)),
            };
            match parse_ride_id(payload.ride_id.as_str()) {
                Ok(ride_id) => Action::UpdateRide { ride_id, user_id },
                Err(e) => Action::Reply(Err(e)),
            }
        },
        Step::Updated(outcome) => Action::Reply(reply_to_ride_update(outcome)),
    }
}

} // verus!
