//! A user reads the details of their own account.
use vstd::prelude::*;
use crate::handlers::{parse_subject, user_lookup_error, user_lookup_error_kind, DbError};
use crate::handlers::user::User;
use crate::ids::uuid_from_text;
use crate::jwt_controller::AccessClaims;
use crate::response::{Error, ErrorKind, STATUS_OK};

verus! {

pub struct ReplyPayload {
    pub email: String,
    pub name: String,
    pub last_name: String,
    pub driver: bool,
}

/// What the server hands the handler.
pub enum Step {
    /// The request, with the claims of the caller's access token.
    Request { claims: AccessClaims },
    /// The caller's user, or why the lookup failed.
    Fetched(Result<User, DbError>),
}

/// What the handler asks the server to do next.
pub enum Action {
    /// Look up the user with this id.
    FetchUser { id: u128 },
    /// Send this reply.
    Reply(Result<(u16, ReplyPayload), Error>),
}

/// Whether the handler answers with the given error.
pub open spec fn replies_error(action: Action, kind: ErrorKind) -> bool {
    action matches Action::Reply(Err(e)) && e.error_kind == kind
}

/// The caller is looked up by the id in their token; the reply shows the
/// user's email, names and driver flag, and never the password hash.
pub fn handler(step: Step) -> (action: Action)
    ensures
        step matches Step::Request { claims } ==> match uuid_from_text(claims.sub@) {
            None => replies_error(action, ErrorKind::InvalidToken),
            Some(id) => action matches Action::FetchUser { id: i } && i == id,
        },
        step matches Step::Fetched(outcome) ==> match outcome {
            Err(e) => replies_error(action, user_lookup_error_kind(e)),
            Ok(user) => action matches Action::Reply(Ok((code, reply))) && code == STATUS_OK
                && reply.email == user.email && reply.name == user.name && reply.last_name
                == user.last_name && reply.driver == user.driver,
        },
{
    match step {
        Step::Request { claims } => match parse_subject(claims.sub.as_str()) {
            Ok(id) => Action::FetchUser { id },
            Err(e) => Action::Reply(Err(e)),
        },
        Step::Fetched(outcome) => match outcome {
            Err(e) => Action::Reply(Err(user_lookup_error(e))),
            Ok(user) => {
                let reply = ReplyPayload {
                    email: user.email,
                    name: user.name,
                    last_name: user.last_name,
                    driver: user.driver,
                };
                Action::Reply(Ok((STATUS_OK, reply)))
            },
        },
    }
}

} // verus!
