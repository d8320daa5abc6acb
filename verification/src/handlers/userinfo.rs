//! The public details of a user, looked up by id.
use vstd::prelude::*;
use crate::handlers::{user_lookup_error, user_lookup_error_kind, DbError};
use crate::handlers::user::User;
use crate::response::{Error, ErrorKind, SuccessWithPayload, STATUS_OK};

verus! {

pub struct ReplyPayload {
    pub name: String,
    pub last_name: String,
}

/// What the server hands the handler.
pub enum Step {
    /// The request for the user with this id.
    Request { user_id: u128 },
    /// The user, or why the lookup failed.
    Fetched(Result<User, DbError>),
}

/// What the handler asks the server to do next.
pub enum Action {
    /// Look up the user with this id.
    FetchUser { id: u128 },
    /// Send this reply.
    Reply(Result<(u16, SuccessWithPayload<ReplyPayload>), Error>),
}

/// The reply shows the user's names only.
pub fn handler(step: Step) -> (action: Action)
    ensures
        step matches Step::Request { user_id } ==> (action matches Action::FetchUser { id }
            && id == user_id),
        step matches Step::Fetched(outcome) ==> match outcome {
            Err(e) => action matches Action::Reply(Err(err)) && err.error_kind
                == user_lookup_error_kind(e),
            Ok(user) => action matches Action::Reply(Ok((code, body))) && code == STATUS_OK
                && body.payload.name == user.name && body.payload.last_name == user.last_name,
        },
{
    match step {
        Step::Request { user_id } => Action::FetchUser { id: user_id },
        Step::Fetched(outcome) => match outcome {
            Err(e) => Action::Reply(Err(user_lookup_error(e))),
            Ok(user) => {
                let reply = ReplyPayload { name: user.name, last_name: user.last_name };
                Action::Reply(Ok((STATUS_OK, SuccessWithPayload::new(reply))))
            },
        },
    }
}

} // verus!
