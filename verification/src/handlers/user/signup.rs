//! A new customer or driver signs up.
use vstd::prelude::*;
use crate::handlers::DbError;
use crate::handlers::user::{
    bcrypt_verify_result, hash_for_storage, is_bcrypt_hash_text, is_hashing_outcome,
    lemma_hashing_outcome,
};
use crate::response::{Error, ErrorKind, STATUS_OK};

verus! {

pub struct Payload {
    pub email: String,
    pub password: String,
    pub name: String,
    pub last_name: String,
    pub driver: bool,
}

/// The row that a sign-up inserts into the `users` table.
pub struct NewUser {
    pub email: String,
    pub hashed_password: String,
    pub name: String,
    pub last_name: String,
    pub driver: bool,
}

/// Whether `EmailAddress::from_str` of the email_address crate accepts a text.
pub uninterp spec fn email_address_valid(address: Seq<char>) -> bool;

/// Checks an email address with `EmailAddress::from_str` (default options)
/// and gives back `EmailAddress::as_str`, which the crate's source shows is
/// the text that was parsed. Which texts are accepted (RFC 5322 syntax) is
/// named by `email_address_valid`.
#[verifier::external_body]
fn parse_email(address: &str) -> (r: Option<String>)
    ensures
        r is Some <==> email_address_valid(address@),
        r matches Some(accepted) ==> accepted@ == address@,
{
    match <email_address::EmailAddress as std::str::FromStr>::from_str(address) {
        Ok(email) => Some(email.as_str().to_string()),
        Err(_) => None,
    }
}

/// What the server hands the handler.
pub enum Step {
    /// The request.
    Request { payload: Payload },
    /// Whether the insertion succeeded, or why it failed.
    Inserted(Result<(), DbError>),
}

/// What the handler asks the server to do next.
pub enum Action {
    /// Insert this user.
    InsertUser(NewUser),
    /// Send this reply.
    Reply(Result<u16, Error>),
}

/// Whether the handler answers with the given error.
pub open spec fn replies_error(action: Action, kind: ErrorKind) -> bool {
    action matches Action::Reply(Err(e)) && e.error_kind == kind
}

/// Whether `new_user` is the row for a sign-up with `payload`: the same
/// email, names and driver flag, and a password hash that the payload's
/// password verifies against.
pub open spec fn row_for(payload: Payload, new_user: NewUser) -> bool {
    &&& new_user.email@ == payload.email@
    &&& new_user.name == payload.name
    &&& new_user.last_name == payload.last_name
    &&& new_user.driver == payload.driver
    &&& bcrypt_verify_result(payload.password@, new_user.hashed_password@) == Some(true)
}

/// The error that answers a failed insertion of a user: an email that is
/// taken, an insertion that the database refuses for another reason (an
/// invalid address), or a database that fails.
pub open spec fn insert_error_kind(e: DbError) -> ErrorKind {
    match e {
        DbError::UniqueViolation => ErrorKind::EmailAlreadyUsed,
        DbError::OtherDatabase => ErrorKind::InvalidEmailAddress,
        _ => ErrorKind::DbConnection,
    }
}

/// What a sign-up with a valid address leads to, given the outcome of
/// hashing its password: the row of the payload with that hash, or a server
/// error when no hash could be made.
pub open spec fn insert_reply(payload: Payload, hashed: Option<String>, action: Action) -> bool {
    match hashed {
        Some(h) => action matches Action::InsertUser(new_user) && new_user.email@ == payload.email@
            && new_user.hashed_password == h && new_user.name == payload.name
            && new_user.last_name == payload.last_name && new_user.driver == payload.driver,
        None => replies_error(action, ErrorKind::Server),
    }
}

/// A sign-up with a valid address is refused only when hashing its
/// password failed; otherwise the payload's row is inserted, whatever the
/// account's kind, with a bcrypt hash that the password verifies against.
pub proof fn lemma_signup_refused_only_when_hashing_fails(
    payload: Payload,
    hashed: Option<String>,
    action: Action,
)
    requires
        is_hashing_outcome(payload.password@, hashed),
        insert_reply(payload, hashed, action),
    ensures
        action is Reply <==> hashed is None,
        action is Reply ==> replies_error(action, ErrorKind::Server),
        action matches Action::InsertUser(new_user) ==> row_for(payload, new_user)
            && is_bcrypt_hash_text(new_user.hashed_password@),
{
    lemma_hashing_outcome(payload.password@, hashed);
}

/// What a sign-up with a valid address leads to, given the outcome of
/// hashing its password.
pub fn insert_with_hash(payload: Payload, hashed: Option<String>) -> (action: Action)
    ensures
        insert_reply(payload, hashed, action),
{
    match hashed {
        Some(hashed_password) => Action::InsertUser(
            NewUser {
                email: payload.email,
                hashed_password,
                name: payload.name,
                last_name: payload.last_name,
                driver: payload.driver,
            },
        ),
        None => Action::Reply(Err(Error::new(ErrorKind::Server))),
    }
}

/// An address that email_address rejects is an invalid email address; a
/// failure to hash the password (no randomness to be had) is the server's
/// fault; otherwise the user's row is inserted, with a bcrypt hash that the
/// password verifies against (and which, having a bcrypt hash's shape, is
/// not the password itself unless the password has that shape too).
pub fn handler(step: Step) -> (action: Action)
    ensures
        step matches Step::Request { payload } ==> if !email_address_valid(payload.email@) {
            replies_error(action, ErrorKind::InvalidEmailAddress)
        } else {
            &&& exists|hashed: Option<String>|
                #![trigger insert_reply(payload, hashed, action)]
                is_hashing_outcome(payload.password@, hashed) && insert_reply(
                    payload,
                    hashed,
                    action,
                )
            &&& replies_error(action, ErrorKind::Server) || (action matches Action::InsertUser(
                new_user,
            ) && row_for(payload, new_user) && is_bcrypt_hash_text(new_user.hashed_password@)
                && (!is_bcrypt_hash_text(payload.password@) ==> new_user.hashed_password@
                != payload.password@))
        },
        step matches Step::Inserted(outcome) ==> match outcome {
            Ok(()) => action matches Action::Reply(Ok(code)) && code == STATUS_OK,
            Err(e) => replies_error(action, insert_error_kind(e)),
        },
{
    match step {
        Step::Request { payload } => {
            if parse_email(payload.email.as_str()).is_none() {
                return Action::Reply(Err(Error::new(ErrorKind::InvalidEmailAddress)));
            }
            let ghost p = payload;
            let hashed = hash_for_storage(payload.password.as_str());
            proof {
                lemma_hashing_outcome(p.password@, hashed);
            }
            insert_with_hash(payload, hashed)
        },
        Step::Inserted(outcome) => match outcome {
            Ok(()) => Action::Reply(Ok(STATUS_OK)),
            Err(DbError::UniqueViolation) => Action::Reply(
                Err(Error::new(ErrorKind::EmailAlreadyUsed)),
            ),
            Err(DbError::OtherDatabase) => Action::Reply(
                Err(Error::new(ErrorKind::InvalidEmailAddress)),
            ),
            Err(_) => Action::Reply(Err(Error::new(ErrorKind::DbConnection))),
        },
    }
}

} // verus!
