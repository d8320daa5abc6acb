//! A customer asks for a ride.
use vstd::prelude::*;
use crate::handlers::{parse_subject, DbError};
use crate::ids::{hyphenated, hyphenated_text, uuid_from_text};
use crate::jwt_controller::AccessClaims;
use crate::response::{Error, ErrorKind, SuccessWithPayload, STATUS_OK};

verus! {

/// The reply to a created ride: its id, hyphenated.
pub struct ReplayPayload {
    pub ride_id: String,
}

/// What the server hands the handler. The coordinates of the ride are not
/// read here: the server passes them on to the insertion as they came.
pub enum Step {
    /// The request, with the claims of the caller's access token.
    Request { claims: AccessClaims },
    /// The id of the inserted ride, if the insertion returned one, or why it
    /// failed.
    Inserted(Result<Option<u128>, DbError>),
}

/// What the handler asks the server to do next.
pub enum Action {
    /// Insert a ride of customer `user_id` with the request's coordinates
    /// and return its id.
    InsertRide { user_id: u128 },
    /// Send this reply.
    Reply(Result<(u16, SuccessWithPayload<ReplayPayload>), Error>),
}

/// Whether the handler answers with the given error.
pub open spec fn replies_error(action: Action, kind: ErrorKind) -> bool {
    action matches Action::Reply(Err(e)) && e.error_kind == kind
}

/// Whether the handler answers that the ride with the given id was created.
pub open spec fn replies_created(action: Action, ride_id: u128) -> bool {
    action matches Action::Reply(Ok((code, body))) && code == STATUS_OK
        && body.payload.ride_id@ == hyphenated_text(ride_id)
}

/// A driver may not ask for a ride; the caller's id must be a UUID; an
/// insertion that fails is the server's fault, one that returns no id a
/// failed ride operation.
pub fn handler(step: Step) -> (action: Action)
    ensures
        step matches Step::Request { claims } ==> {
            if claims.driver {
                replies_error(action, ErrorKind::Unauthorized)
            } else {
                match uuid_from_text(claims.sub@) {
                    None => replies_error(action, ErrorKind::InvalidToken),
                    Some(user_id) => action == Action::InsertRide { user_id },
                }
            }
        },
        step matches Step::Inserted(outcome) ==> match outcome {
            Err(_) => replies_error(action, ErrorKind::Server),
            Ok(None) => replies_error(action, ErrorKind::FailedRideOperation),
            Ok(Some(ride_id)) => replies_created(action, ride_id),
        },
{
    match step {
        Step::Request { claims } => {
            if claims.driver {
                return Action::Reply(Err(Error::new(ErrorKind::Unauthorized)));
            }
            match parse_subject(claims.sub.as_str()) {
                Ok(user_id) => Action::InsertRide { user_id },
                Err(e) => Action::Reply(Err(e)),
            }
        },
        Step::Inserted(outcome) => match outcome {
            Err(_) => Action::Reply(Err(Error::new(ErrorKind::Server))),
            Ok(None) => Action::Reply(Err(Error::new(ErrorKind::FailedRideOperation))),
            Ok(Some(ride_id)) => {
                let reply = ReplayPayload { ride_id: hyphenated(ride_id) };
                Action::Reply(Ok((STATUS_OK, SuccessWithPayload::new(reply))))
            },
        },
    }
}

} // verus!
