//! A user logs in with email and password and gets an access token.
use vstd::prelude::*;
use crate::handlers::{user_lookup_error, user_lookup_error_kind, DbError};
use crate::handlers::user::{bcrypt_verify_result, verify_password, User};
use crate::ids::uuid_from_text;
use crate::jwt_controller::{
    hs256_accepts, is_clock_reading, is_issued_access_token, jwt_claims_text,
    lemma_accepted_access_token_names_its_user, read_access_claims_text, read_clock, clock_passed,
    refused_only_when_expired, JwtController, SECS_DAY,
};
use crate::response::{Error, ErrorKind, SuccessWithPayload, STATUS_OK};

verus! {

pub struct Payload {
    pub email: String,
    pub password: String,
}

pub struct ReplyPayload {
    pub token: String,
}

/// What the server hands the handler.
pub enum Step {
    /// The request.
    Request { payload: Payload },
    /// The user with the requested email, or why the lookup failed, with the
    /// password of the request handed back.
    Fetched { password: String, outcome: Result<User, DbError> },
}

/// What the handler asks the server to do next.
pub enum Action {
    /// Look up the user with this email; then hand back `password`.
    FetchUser { email: String, password: String },
    /// Send this reply.
    Reply(Result<(u16, SuccessWithPayload<ReplyPayload>), Error>),
}

/// Whether the handler answers with the given error.
pub open spec fn replies_error(action: Action, kind: ErrorKind) -> bool {
    action matches Action::Reply(Err(e)) && e.error_kind == kind
}

/// The verdict on a password: an unreadable stored hash is the server's
/// fault, a password that does not verify a failed login.
pub open spec fn password_check(password: Seq<char>, user: User) -> Result<(), ErrorKind> {
    match bcrypt_verify_result(password, user.hashed_password@) {
        None => Err(ErrorKind::Server),
        Some(false) => Err(ErrorKind::LoginFailed),
        Some(true) => Ok(()),
    }
}

/// The reply to a login with the right password when the clock reads `now`:
/// the access token issued to `user` at `now`, or a server error when the
/// token's expiry would not fit in a `usize`.
pub open spec fn token_reply(action: Action, secret: Seq<char>, user: User, now: u64) -> bool {
    if now + SECS_DAY <= usize::MAX {
        action matches Action::Reply(Ok((code, body))) && code == STATUS_OK
            && is_issued_access_token(secret, user, now as nat, body.payload.token@)
    } else {
        replies_error(action, ErrorKind::Server)
    }
}

/// The reply to a login with the right password when the clock reads `now`.
pub fn reply_with_token(jwt: &JwtController, user: User, now: u64) -> (action: Action)
    ensures
        token_reply(action, jwt@, user, now),
{
    if now > (usize::MAX - SECS_DAY) as u64 {
        return Action::Reply(Err(Error::new(ErrorKind::Server)));
    }
    let ghost u = user;
    let issued = jwt.encode_access_token_at(user, now);
    let action = match issued {
        Ok(token) => Action::Reply(Ok((STATUS_OK, SuccessWithPayload::new(ReplyPayload { token })))),
        Err(e) => Action::Reply(Err(e)),
    };
    assert(token_reply(action, jwt@, u, now));
    action
}

/// The token that answers a login, read back, is the user's and expires a
/// day after the clock reading at which it was issued.
pub proof fn lemma_login_token_expires_a_day_after_issue(
    action: Action,
    secret: Seq<char>,
    user: User,
    now: u64,
)
    requires
        token_reply(action, secret, user, now),
        now + SECS_DAY <= usize::MAX,
    ensures
        action matches Action::Reply(Ok((code, _))) && code == STATUS_OK,
        action matches Action::Reply(Ok((_, body))) ==> hs256_accepts(body.payload.token@, secret)
            && (read_access_claims_text(jwt_claims_text(body.payload.token@)) matches Some(
            (sub, exp, name, last_name, email, driver),
        ) && exp == now + SECS_DAY && uuid_from_text(sub) == Some(user.id) && name == user.name@
            && last_name == user.last_name@ && email == user.email@ && driver == user.driver),
{
    if let Action::Reply(Ok((_, body))) = action {
        lemma_accepted_access_token_names_its_user(
            user,
            (now + SECS_DAY) as nat,
            body.payload.token@,
        );
    }
}

/// The token that answers a login is good for a day: when decoding refuses
/// it (`decode_access_token` states `refused_only_when_expired` of every
/// refusal), the clock has read a time past the issue time plus a day and
/// the leeway.
pub proof fn lemma_login_token_refused_only_after_a_day(
    action: Action,
    secret: Seq<char>,
    user: User,
    now: u64,
    token: Seq<char>,
)
    requires
        token_reply(action, secret, user, now),
        now + SECS_DAY <= usize::MAX,
        action matches Action::Reply(Ok((_, body))) && body.payload.token@ == token,
        refused_only_when_expired(secret, token),
    ensures
        clock_passed((now + SECS_DAY) as nat),
{
}

/// An unknown email is a failed login; a known user with the right password
/// gets the access token issued to them at the time the clock reads.
pub fn handler(jwt: &JwtController, step: Step) -> (action: Action)
    ensures
        step matches Step::Request { payload } ==> (action matches Action::FetchUser {
            email,
            password,
        } && email == payload.email && password == payload.password),
        step matches Step::Fetched { password, outcome } ==> match outcome {
            Err(e) => replies_error(action, user_lookup_error_kind(e)),
            Ok(user) => match password_check(password@, user) {
                Err(kind) => replies_error(action, kind),
                Ok(()) => exists|now: u64|
                    #![trigger token_reply(action, jwt@, user, now)]
                    is_clock_reading(now) && token_reply(action, jwt@, user, now),
            },
        },
{
    match step {
        Step::Request { payload } => Action::FetchUser {
            email: payload.email,
            password: payload.password,
        },
        Step::Fetched { password, outcome } => {
            let user = match outcome {
                Ok(user) => user,
                Err(e) => return Action::Reply(Err(user_lookup_error(e))),
            };
            match verify_password(password.as_str(), user.hashed_password.as_str()) {
                Err(_) => return Action::Reply(Err(Error::new(ErrorKind::Server))),
                Ok(false) => return Action::Reply(Err(Error::new(ErrorKind::LoginFailed))),
                Ok(true) => {},
            }
            let now = read_clock();
            reply_with_token(jwt, user, now)
        },
    }
}

} // verus!
