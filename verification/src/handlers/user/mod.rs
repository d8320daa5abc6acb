//! Accounts: signing up, logging in, renewing tokens and reading one's own
//! account.
pub mod info;
pub mod login;
pub mod renew;
pub mod signup;

use vstd::prelude::*;
use crate::response::ErrorKind;

verus! {

/// A row of the `users` table.
pub struct User {
    pub id: u128,
    pub email: String,
    pub name: String,
    pub last_name: String,
    pub driver: bool,
    pub hashed_password: String,
}

#[verifier::external_type_specification]
#[verifier::external_body]
pub struct ExBcryptError(bcrypt::BcryptError);

/// What `bcrypt::verify(password, hash)` returns: `Some(b)` for `Ok(b)`,
/// `None` for an error (a hash that is not a well-formed bcrypt hash).
pub uninterp spec fn bcrypt_verify_result(password: Seq<char>, hash: Seq<char>) -> Option<bool>;

/// Checks a password against a stored hash with `bcrypt::verify`, which
/// reads cost and salt from the hash and recomputes it. The result is a
/// function of the two texts alone and is named by `bcrypt_verify_result`.
#[verifier::external_body]
pub(crate) fn verify_password(password: &str, hash: &str) -> (r: Result<bool, bcrypt::BcryptError>)
    ensures
        r is Ok <==> bcrypt_verify_result(password@, hash@) is Some,
        r matches Ok(b) ==> bcrypt_verify_result(password@, hash@) == Some(b),
{
    bcrypt::verify(password, hash)
}

/// Whether a text has the shape of a bcrypt hash at the default cost as
/// `bcrypt::hash` writes it: `$2b$12$` and 53 more characters.
pub open spec fn is_bcrypt_hash_text(h: Seq<char>) -> bool {
    &&& h.len() == 60
    &&& h.take(7) == seq!['$', '2', 'b', '$', '1', '2', '$']
}

/// Hashes a password with `bcrypt::hash` at `bcrypt::DEFAULT_COST` and a
/// random salt. The hash itself depends on the salt and is left unsaid; what
/// bcrypt's source shows is that `bcrypt::verify` recomputes it from the same
/// cost and salt (truncating the password the same way), so the password
/// verifies against its own hash. The source also fixes the hash's shape:
/// `HashParts::format` writes `$2b$`, the cost as two digits (`12`), `$`,
/// then the salt (16 bytes) and the hash (23 bytes) in bcrypt's base64
/// without padding, 22 and 31 characters. An error comes when the system's
/// random source fails.
#[verifier::external_body]
pub(crate) fn hash_password(password: &str) -> (r: Result<String, bcrypt::BcryptError>)
    ensures
        r matches Ok(hash) ==> bcrypt_verify_result(password@, hash@) == Some(true),
        r matches Ok(hash) ==> is_bcrypt_hash_text(hash@),
{
    bcrypt::hash(password, bcrypt::DEFAULT_COST)
}

/// Whether `hashed` is an outcome of hashing `password` with
/// `hash_password`: `Some` of a hash it returned, or `None` where it failed.
/// Which outcome a call has rests on the random salt; only an outcome that
/// a call actually gave is known to be one.
pub closed spec fn is_hashing_outcome(password: Seq<char>, hashed: Option<String>) -> bool {
    exists|p: &str, r: Result<String, bcrypt::BcryptError>|
        #![trigger call_ensures(hash_password, (p,), r)]
        p@ == password && call_ensures(hash_password, (p,), r) && hashed == match r {
            Ok(h) => Some(h),
            Err(_) => None::<String>,
        }
}

/// Hashes a password for storage: `Some` of its bcrypt hash, or `None` when
/// hashing fails.
pub fn hash_for_storage(password: &str) -> (hashed: Option<String>)
    ensures
        is_hashing_outcome(password@, hashed),
{
    let r = hash_password(password);
    let ghost outcome = r;
    let hashed = match r {
        Ok(h) => Some(h),
        Err(_) => None,
    };
    assert(call_ensures(hash_password, (password,), outcome));
    hashed
}

/// A hash that hashing a password gave is a bcrypt hash of that password:
/// the password verifies against it, and it has a bcrypt hash's shape.
pub proof fn lemma_hashing_outcome(password: Seq<char>, hashed: Option<String>)
    requires
        is_hashing_outcome(password, hashed),
    ensures
        hashed matches Some(h) ==> bcrypt_verify_result(password, h@) == Some(true)
            && is_bcrypt_hash_text(h@),
{
    let (p, r) = choose|p: &str, r: Result<String, bcrypt::BcryptError>|
        #![trigger call_ensures(hash_password, (p,), r)]
        p@ == password && call_ensures(hash_password, (p,), r) && hashed == match r {
            Ok(h) => Some(h),
            Err(_) => None::<String>,
        };
}

/// A user who signed up with a password can log in with it: once the row
/// that a sign-up inserts is stored, a login with the sign-up's password
/// passes the password check against it.
pub proof fn lemma_signed_up_user_logs_in(
    payload: signup::Payload,
    new_user: signup::NewUser,
    stored: User,
)
    requires
        signup::row_for(payload, new_user),
        stored.hashed_password == new_user.hashed_password,
    ensures
        login::password_check(payload.password@, stored) == Ok::<(), ErrorKind>(()),
{
}

} // verus!
