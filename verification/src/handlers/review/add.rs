//! The customer or the driver of a completed ride reviews it, once each.
use vstd::prelude::*;
use crate::handlers::{parse_ride_id, parse_subject, DbError};
use crate::ids::uuid_from_text;
use crate::jwt_controller::AccessClaims;
use crate::response::{Error, ErrorKind, STATUS_OK};

verus! {

pub struct Payload {
    pub ride_id: String,
    pub review: String,
    pub stars: i32,
}

/// Which pair of review columns of a ride a review is written into: a driver
/// writes the `user_review` and `user_stars` columns, a customer the
/// `driver_review` and `driver_stars` columns.
#[derive(Debug, Clone, Copy, PartialEq, Eq, Structural)]
pub enum ReviewColumns {
    User,
    Driver,
}

/// A review that waits for the check that its ride is the caller's.
pub struct PendingReview {
    pub ride_id: u128,
    pub review: String,
    pub stars: i32,
    pub author_is_driver: bool,
}

/// What the server hands the handler.
pub enum Step {
    /// The request, with the claims of the caller's access token.
    Request { claims: AccessClaims, payload: Payload },
    /// Whether the ride is completed and the caller is its customer or its
    /// driver, or why the check failed.
    RideChecked { pending: PendingReview, outcome: Result<bool, DbError> },
    /// How many reviews the upsert wrote, or why it failed.
    Upserted(Result<u64, DbError>),
}

/// What the handler asks the server to do next.
pub enum Action {
    /// Check that ride `ride_id` is completed and that `user_id` is its
    /// customer or its driver; then hand back `pending`.
    CheckRide { ride_id: u128, user_id: u128, pending: PendingReview },
    /// Write the review into the given columns of the ride, unless these
    /// columns already hold one.
    UpsertReview { columns: ReviewColumns, ride_id: u128, review: String, stars: i32 },
    /// Send this reply.
    Reply(Result<u16, Error>),
}

/// Whether the handler answers with the given error.
pub open spec fn replies_error(action: Action, kind: ErrorKind) -> bool {
    action matches Action::Reply(Err(e)) && e.error_kind == kind
}

/// Whether a number of stars is a valid rating: one to five.
pub open spec fn valid_stars(stars: i32) -> bool {
    1 <= stars <= 5
}

/// The review columns that the author of a review writes into.
pub open spec fn columns_of(author_is_driver: bool) -> ReviewColumns {
    if author_is_driver {
        ReviewColumns::User
    } else {
        ReviewColumns::Driver
    }
}

/// Both ids must be UUIDs; then the ride is checked. A ride that is not the
/// caller's completed ride is an invalid ride id; a rating outside one to
/// five stars, or an upsert that writes no review (the side has reviewed the
/// ride before), an invalid review; a failing database the server's fault.
pub fn handler(step: Step) -> (action: Action)
    ensures
        step matches Step::Request { claims, payload } ==> match uuid_from_text(claims.sub@) {
            None => replies_error(action, ErrorKind::InvalidToken),
            Some(user_id) => match uuid_from_text(payload.ride_id@) {
                None => replies_error(action, ErrorKind::InvalidRideId),
                Some(ride_id) => action matches Action::CheckRide { ride_id: r, user_id: u, pending }
                    && r == ride_id && u == user_id && pending.ride_id == ride_id
                    && pending.review == payload.review && pending.stars == payload.stars
                    && pending.author_is_driver == claims.driver,
            },
        },
        step matches Step::RideChecked { pending, outcome } ==> match outcome {
            Err(_) => replies_error(action, ErrorKind::Server),
            Ok(false) => replies_error(action, ErrorKind::InvalidRideId),
            Ok(true) => if valid_stars(pending.stars) {
                action matches Action::UpsertReview { columns, ride_id, review, stars }
                    && columns == columns_of(pending.author_is_driver) && ride_id
                    == pending.ride_id && review == pending.review && stars == pending.stars
            } else {
                replies_error(action, ErrorKind::InvalidReview)
            },
        },
        step matches Step::Upserted(outcome) ==> match outcome {
            Err(_) => replies_error(action, ErrorKind::Server),
            Ok(rows) => if rows == 1 {
                action matches Action::Reply(Ok(code)) && code == STATUS_OK
            } else {
                replies_error(action, ErrorKind::InvalidReview)
            },
        },
{
    match step {
        Step::Request { claims, payload } => {
            let user_id = match parse_subject(claims.sub.as_str()) {
                Ok(id) => id,
                Err(e) => return Action::Reply(Err(e)),
            };
            let ride_id = match parse_ride_id(payload.ride_id.as_str()) {
                Ok(id) => id,
                Err(e) => return Action::Reply(Err(e)),
            };
            let pending = PendingReview {
                ride_id,
                review: payload.review,
                stars: payload.stars,
                author_is_driver: claims.driver,
            };
            Action::CheckRide { ride_id, user_id, pending }
        },
        Step::RideChecked { pending, outcome } => match outcome {
            Err(_) => Action::Reply(Err(Error::new(ErrorKind::Server))),
            Ok(false) => Action::Reply(Err(Error::new(ErrorKind::InvalidRideId))),
            Ok(true) => {
                if pending.stars < 1 || pending.stars > 5 {
                    return Action::Reply(Err(Error::new(ErrorKind::InvalidReview)));
                }
                let columns = if pending.author_is_driver {
                    ReviewColumns::User
                } else {
                    ReviewColumns::Driver
                };
                Action::UpsertReview {
                    columns,
                    ride_id: pending.ride_id,
                    review: pending.review,
                    stars: pending.stars,
                }
            },
        },
        Step::Upserted(outcome) => match outcome {
            Err(_) => Action::Reply(Err(Error::new(ErrorKind::Server))),
            Ok(rows) => if rows == 1 {
                Action::Reply(Ok(STATUS_OK))
            } else {
                Action::Reply(Err(Error::new(ErrorKind::InvalidReview)))
            },
        },
    }
}

} // verus!
