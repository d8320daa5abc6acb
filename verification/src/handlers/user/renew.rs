//! A user trades a renew token for a fresh renew token and access token.
use vstd::prelude::*;
use crate::handlers::{parse_subject, user_lookup_error, user_lookup_error_kind, DbError};
use crate::handlers::user::User;
use crate::ids::uuid_from_text;
use crate::jwt_controller::{
    is_clock_reading, is_issued_access_token, is_issued_renew_token, jwt_claims_text,
    lemma_accepted_access_token_names_its_user, lemma_accepted_renew_token_names_its_user,
    clock_passed, read_access_claims_text, read_clock, read_renew_claims_text,
    refused_only_when_expired, JwtController, RenewClaims,
    SECS_30_DAY, SECS_DAY,
};
use crate::response::{Error, ErrorKind, SuccessWithPayload, STATUS_OK};

verus! {

pub struct ReplyPayload {
    pub renew_token: String,
    pub token: String,
}

/// What the server hands the handler.
pub enum Step {
    /// The request, with the claims of the caller's renew token.
    Request { claims: RenewClaims },
    /// The caller's user, or why the lookup failed.
    Fetched(Result<User, DbError>),
}

/// What the handler asks the server to do next.
pub enum Action {
    /// Look up the user with this id.
    FetchUser { id: u128 },
    /// Send this reply.
    Reply(Result<(u16, SuccessWithPayload<ReplyPayload>), Error>),
}

/// Whether the handler answers with the given error.
pub open spec fn replies_error(action: Action, kind: ErrorKind) -> bool {
    action matches Action::Reply(Err(e)) && e.error_kind == kind
}

/// The reply to a caller whose user was found, when the clock reads `n1` as
/// the renew token is issued and `n2` as the access token is: both tokens
/// issued to `user` at those times, or a server error when an expiry would
/// not fit in a `usize`.
pub open spec fn tokens_reply(action: Action, secret: Seq<char>, user: User, n1: u64, n2: u64) -> bool {
    if n1 + SECS_30_DAY > usize::MAX || n2 + SECS_DAY > usize::MAX {
        replies_error(action, ErrorKind::Server)
    } else {
        &&& action matches Action::Reply(Ok((code, body)))
        &&& code == STATUS_OK
        &&& is_issued_renew_token(secret, user, n1 as nat, body.payload.renew_token@)
        &&& is_issued_access_token(secret, user, n2 as nat, body.payload.token@)
    }
}

/// The reply to a caller whose user was found, when the clock reads
/// `renew_now` as the renew token is issued and `access_now` as the access
/// token is.
pub fn reply_with_tokens(jwt: &JwtController, user: User, renew_now: u64, access_now: u64) -> (action: Action)
    ensures
        tokens_reply(action, jwt@, user, renew_now, access_now),
{
    if renew_now > (usize::MAX - SECS_30_DAY) as u64 || access_now > (usize::MAX - SECS_DAY) as u64 {
        return Action::Reply(Err(Error::new(ErrorKind::Server)));
    }
    let ghost u = user;
    let renew_token = match jwt.encode_renew_token_at(&user, renew_now) {
        Ok(token) => token,
        Err(e) => return Action::Reply(Err(e)),
    };
    let token = match jwt.encode_access_token_at(user, access_now) {
        Ok(token) => token,
        Err(e) => return Action::Reply(Err(e)),
    };
    let reply = ReplyPayload { renew_token, token };
    let action = Action::Reply(Ok((STATUS_OK, SuccessWithPayload::new(reply))));
    assert(tokens_reply(action, jwt@, u, renew_now, access_now));
    action
}

/// The tokens that answer a renewal, read back, are the user's: the renew
/// token expires 30 days after the clock reading at which it was issued,
/// the access token a day after its own.
pub proof fn lemma_renewed_tokens_expire_after_issue(
    action: Action,
    secret: Seq<char>,
    user: User,
    renew_now: u64,
    access_now: u64,
)
    requires
        tokens_reply(action, secret, user, renew_now, access_now),
        renew_now + SECS_30_DAY <= usize::MAX,
        access_now + SECS_DAY <= usize::MAX,
    ensures
        action matches Action::Reply(Ok((code, _))) && code == STATUS_OK,
        action matches Action::Reply(Ok((_, body))) ==> (read_renew_claims_text(
            jwt_claims_text(body.payload.renew_token@),
        ) matches Some((sub, exp)) && exp == renew_now + SECS_30_DAY && uuid_from_text(sub)
            == Some(user.id)),
        action matches Action::Reply(Ok((_, body))) ==> (read_access_claims_text(
            jwt_claims_text(body.payload.token@),
        ) matches Some((sub, exp, name, last_name, email, driver)) && exp == access_now + SECS_DAY
            && uuid_from_text(sub) == Some(user.id) && name == user.name@ && last_name
            == user.last_name@ && email == user.email@ && driver == user.driver),
{
    if let Action::Reply(Ok((_, body))) = action {
        lemma_accepted_renew_token_names_its_user(
            user,
            (renew_now + SECS_30_DAY) as nat,
            body.payload.renew_token@,
        );
        lemma_accepted_access_token_names_its_user(
            user,
            (access_now + SECS_DAY) as nat,
            body.payload.token@,
        );
    }
}

/// The renew token that answers a renewal is good for 30 days: when decoding
/// refuses it, the clock has read a time past its issue time plus 30 days
/// and the leeway.
pub proof fn lemma_renewed_token_refused_only_after_30_days(
    action: Action,
    secret: Seq<char>,
    user: User,
    renew_now: u64,
    access_now: u64,
    token: Seq<char>,
)
    requires
        tokens_reply(action, secret, user, renew_now, access_now),
        renew_now + SECS_30_DAY <= usize::MAX,
        access_now + SECS_DAY <= usize::MAX,
        action matches Action::Reply(Ok((_, body))) && body.payload.renew_token@ == token,
        refused_only_when_expired(secret, token),
    ensures
        clock_passed((renew_now + SECS_30_DAY) as nat),
{
}

/// The caller is looked up by the id in their renew token and gets both
/// tokens issued anew, each at the time the clock reads.
pub fn handler(jwt: &JwtController, step: Step) -> (action: Action)
    ensures
        step matches Step::Request { claims } ==> match uuid_from_text(claims.sub@) {
            None => replies_error(action, ErrorKind::InvalidToken),
            Some(id) => action matches Action::FetchUser { id: i } && i == id,
        },
        step matches Step::Fetched(outcome) ==> match outcome {
            Err(e) => replies_error(action, user_lookup_error_kind(e)),
            Ok(user) => exists|n1: u64, n2: u64|
                #![trigger tokens_reply(action, jwt@, user, n1, n2)]
                is_clock_reading(n1) && is_clock_reading(n2) && tokens_reply(
                    action,
                    jwt@,
                    user,
                    n1,
                    n2,
                ),
        },
{
    match step {
        Step::Request { claims } => match parse_subject(claims.sub.as_str()) {
            Ok(id) => Action::FetchUser { id },
            Err(e) => Action::Reply(Err(e)),
        },
        Step::Fetched(outcome) => {
            let user = match outcome {
                Ok(user) => user,
                Err(e) => return Action::Reply(Err(user_lookup_error(e))),
            };
            let renew_now = read_clock();
            let access_now = read_clock();
            reply_with_tokens(jwt, user, renew_now, access_now)
        },
    }
}

} // verus!
