//! Access and renew tokens: which claims they carry, how the claims are
//! written as JSON, and how the tokens are signed (HS256) and checked.
use vstd::prelude::*;
use vstd::string::StringExecFns;
use crate::handlers::user::User;
use crate::ids::{hyphenated, hyphenated_text, lemma_hyphenated_text_parses_back, uuid_from_text};
use crate::json::{
    decimal, json_bool, json_string, lemma_decimal_reads_back, lemma_json_bool_reads_back,
    lemma_json_string_reads_back, lemma_skip_literal, read_decimal, read_json_bool,
    read_json_string, skip_literal, write_decimal, write_json_bool, write_json_string,
};
use crate::response::ErrorKind;
use jsonwebtoken::errors::ErrorKind as JwtErrorKind;

verus! {

/// Seconds in a day: access tokens expire one day after they are issued.
pub const SECS_DAY: usize = 86400;

/// Seconds in 30 days: renew tokens expire 30 days after they are issued.
pub const SECS_30_DAY: usize = SECS_DAY * 30;

/// The claims of an access token.
pub struct AccessClaims {
    /// The user's id, hyphenated.
    pub sub: String,
    /// Expiry, in seconds since the Unix epoch.
    pub exp: usize,
    pub name: String,
    pub last_name: String,
    pub email: String,
    pub driver: bool,
}

/// The claims of a renew token.
pub struct RenewClaims {
    /// The user's id, hyphenated.
    pub sub: String,
    /// Expiry, in seconds since the Unix epoch.
    pub exp: usize,
}

/// The JSON text of access claims, fields in declaration order.
pub open spec fn access_claims_text(
    sub: Seq<char>,
    exp: nat,
    name: Seq<char>,
    last_name: Seq<char>,
    email: Seq<char>,
    driver: bool,
) -> Seq<char> {
    "{\"sub\":"@ + (json_string(sub) + (",\"exp\":"@ + (decimal(exp) + access_claims_rest_text(
        name,
        last_name,
        email,
        driver,
    ))))
}

/// The JSON text of the fields of access claims that follow the expiry.
pub open spec fn access_claims_rest_text(
    name: Seq<char>,
    last_name: Seq<char>,
    email: Seq<char>,
    driver: bool,
) -> Seq<char> {
    ",\"name\":"@ + (json_string(name) + (",\"last_name\":"@ + (json_string(last_name) + (
    ",\"email\":"@ + (json_string(email) + (",\"driver\":"@ + (json_bool(driver) + "}"@)))))))
}

/// The JSON text of renew claims.
pub open spec fn renew_claims_text(sub: Seq<char>, exp: nat) -> Seq<char> {
    "{\"sub\":"@ + (json_string(sub) + (",\"exp\":"@ + (decimal(exp) + "}"@)))
}

/// The JSON text of the access claims of a user, expiring at `exp`.
pub open spec fn user_access_claims_text(user: User, exp: nat) -> Seq<char> {
    access_claims_text(
        hyphenated_text(user.id),
        exp,
        user.name@,
        user.last_name@,
        user.email@,
        user.driver,
    )
}

/// The JSON text of the renew claims of a user, expiring at `exp`.
pub open spec fn user_renew_claims_text(user: User, exp: nat) -> Seq<char> {
    renew_claims_text(hyphenated_text(user.id), exp)
}

/// Reads the fields of access claims that follow the expiry: names, email
/// and driver flag, then the end of the text.
pub open spec fn read_access_claims_rest(t4: Seq<char>) -> Option<
    (Seq<char>, Seq<char>, Seq<char>, bool),
> {
    match skip_literal(",\"name\":"@, t4) {
        None => None,
        Some(t5) => match read_json_string(t5) {
            None => None,
            Some((name, t6)) => match skip_literal(",\"last_name\":"@, t6) {
                None => None,
                Some(t7) => match read_json_string(t7) {
                    None => None,
                    Some((last_name, t8)) => match skip_literal(",\"email\":"@, t8) {
                        None => None,
                        Some(t9) => match read_json_string(t9) {
                            None => None,
                            Some((email, t10)) => match skip_literal(",\"driver\":"@, t10) {
                                None => None,
                                Some(t11) => match read_json_bool(t11) {
                                    None => None,
                                    Some((driver, t12)) => match skip_literal("}"@, t12) {
                                        Some(t13) => if t13.len() == 0 {
                                            Some((name, last_name, email, driver))
                                        } else {
                                            None
                                        },
                                        None => None,
                                    },
                                },
                            },
                        },
                    },
                },
            },
        },
    }
}

/// Reads the claims of an access token from a text in the form that
/// `access_claims_text` writes: the subject, expiry, names, email and driver
/// flag, in that order.
pub open spec fn read_access_claims_text(t0: Seq<char>) -> Option<
    (Seq<char>, nat, Seq<char>, Seq<char>, Seq<char>, bool),
> {
    match skip_literal("{\"sub\":"@, t0) {
        None => None,
        Some(t1) => match read_json_string(t1) {
            None => None,
            Some((sub, t2)) => match skip_literal(",\"exp\":"@, t2) {
                None => None,
                Some(t3) => match read_decimal(t3) {
                    None => None,
                    Some((exp, t4)) => match read_access_claims_rest(t4) {
                        None => None,
                        Some((name, last_name, email, driver)) => Some(
                            (sub, exp, name, last_name, email, driver),
                        ),
                    },
                },
            },
        },
    }
}

/// Reads the claims of a renew token from a text in the form that
/// `renew_claims_text` writes.
pub open spec fn read_renew_claims_text(t0: Seq<char>) -> Option<(Seq<char>, nat)> {
    match skip_literal("{\"sub\":"@, t0) {
        None => None,
        Some(t1) => match read_json_string(t1) {
            None => None,
            Some((sub, t2)) => match skip_literal(",\"exp\":"@, t2) {
                None => None,
                Some(t3) => match read_decimal(t3) {
                    None => None,
                    Some((exp, t4)) => match skip_literal("}"@, t4) {
                        Some(t5) => if t5.len() == 0 {
                            Some((sub, exp))
                        } else {
                            None
                        },
                        None => None,
                    },
                },
            },
        },
    }
}

proof fn lemma_access_claims_rest_reads_back(
    name: Seq<char>,
    last_name: Seq<char>,
    email: Seq<char>,
    driver: bool,
)
    ensures
        read_access_claims_rest(access_claims_rest_text(name, last_name, email, driver)) == Some(
            (name, last_name, email, driver),
        ),
{
    let empty = Seq::<char>::empty();
    let r12 = "}"@;
    assert("}"@ + empty =~= r12);
    lemma_skip_literal("}"@, empty);
    let r11 = json_bool(driver) + r12;
    lemma_json_bool_reads_back(driver, r12);
    let r10 = ",\"driver\":"@ + r11;
    lemma_skip_literal(",\"driver\":"@, r11);
    let r9 = json_string(email) + r10;
    lemma_json_string_reads_back(email, r10);
    let r8 = ",\"email\":"@ + r9;
    lemma_skip_literal(",\"email\":"@, r9);
    let r7 = json_string(last_name) + r8;
    lemma_json_string_reads_back(last_name, r8);
    let r6 = ",\"last_name\":"@ + r7;
    lemma_skip_literal(",\"last_name\":"@, r7);
    let r5 = json_string(name) + r6;
    lemma_json_string_reads_back(name, r6);
    let r4 = ",\"name\":"@ + r5;
    lemma_skip_literal(",\"name\":"@, r5);
}

/// The claims text of an access token reads back as the claims it was written
/// from: whatever the strings hold (quotes, backslashes, control
/// characters), none of them can end its field early or forge another field.
pub proof fn lemma_access_claims_text_reads_back(
    sub: Seq<char>,
    exp: nat,
    name: Seq<char>,
    last_name: Seq<char>,
    email: Seq<char>,
    driver: bool,
)
    ensures
        read_access_claims_text(access_claims_text(sub, exp, name, last_name, email, driver))
            == Some((sub, exp, name, last_name, email, driver)),
{
    reveal_strlit(",\"name\":");
    let r4 = access_claims_rest_text(name, last_name, email, driver);
    lemma_access_claims_rest_reads_back(name, last_name, email, driver);
    assert(r4[0] == ',');
    let r3 = decimal(exp) + r4;
    lemma_decimal_reads_back(exp, r4);
    let r2 = ",\"exp\":"@ + r3;
    lemma_skip_literal(",\"exp\":"@, r3);
    let r1 = json_string(sub) + r2;
    lemma_json_string_reads_back(sub, r2);
    let r0 = "{\"sub\":"@ + r1;
    lemma_skip_literal("{\"sub\":"@, r1);
}

/// The claims of every access token issued to a user read back as that
/// user's claims: the subject names the user's id again, and the expiry,
/// names, email and driver flag are the user's.
pub proof fn lemma_issued_access_claims_name_their_user(user: User, exp: nat)
    ensures
        read_access_claims_text(user_access_claims_text(user, exp)) matches Some(
            (sub, e, name, last_name, email, driver),
        ) && uuid_from_text(sub) == Some(user.id) && e == exp && name == user.name@ && last_name
            == user.last_name@ && email == user.email@ && driver == user.driver,
{
    lemma_access_claims_text_reads_back(
        hyphenated_text(user.id),
        exp,
        user.name@,
        user.last_name@,
        user.email@,
        user.driver,
    );
    lemma_hyphenated_text_parses_back(user.id);
}

/// The claims of every renew token issued to a user read back as that
/// user's claims.
pub proof fn lemma_issued_renew_claims_name_their_user(user: User, exp: nat)
    ensures
        read_renew_claims_text(user_renew_claims_text(user, exp)) matches Some((sub, e)) && uuid_from_text(
            sub,
        ) == Some(user.id) && e == exp,
{
    lemma_renew_claims_text_reads_back(hyphenated_text(user.id), exp);
    lemma_hyphenated_text_parses_back(user.id);
}

/// The claims text of a renew token reads back as the claims it was written
/// from.
pub proof fn lemma_renew_claims_text_reads_back(sub: Seq<char>, exp: nat)
    ensures
        read_renew_claims_text(renew_claims_text(sub, exp)) == Some((sub, exp)),
{
    reveal_strlit("{\"sub\":");
    reveal_strlit(",\"exp\":");
    reveal_strlit("}");
    let empty = Seq::<char>::empty();
    let r4 = "}"@;
    assert("}"@ + empty =~= r4);
    lemma_skip_literal("}"@, empty);
    assert(r4[0] == '}');
    let r3 = decimal(exp) + r4;
    lemma_decimal_reads_back(exp, r4);
    let r2 = ",\"exp\":"@ + r3;
    lemma_skip_literal(",\"exp\":"@, r3);
    let r1 = json_string(sub) + r2;
    lemma_json_string_reads_back(sub, r2);
    let r0 = "{\"sub\":"@ + r1;
    lemma_skip_literal("{\"sub\":"@, r1);
}

impl AccessClaims {
    /// The access claims of a user, before an expiry is set.
    pub fn from_user(user: User) -> (claims: Self)
        ensures
            claims.sub@ == hyphenated_text(user.id),
            claims.exp == 0,
            claims.name == user.name,
            claims.last_name == user.last_name,
            claims.email == user.email,
            claims.driver == user.driver,
    {
        AccessClaims {
            sub: hyphenated(user.id),
            exp: 0,
            name: user.name,
            last_name: user.last_name,
            email: user.email,
            driver: user.driver,
        }
    }

    /// The claims as JSON text.
    pub fn to_json(&self) -> (text: String)
        ensures
            text@ == access_claims_text(
                self.sub@,
                self.exp as nat,
                self.name@,
                self.last_name@,
                self.email@,
                self.driver,
            ),
    {
        let mut out = String::new();
        out.append("{\"sub\":");
        write_json_string(&mut out, self.sub.as_str());
        out.append(",\"exp\":");
        write_decimal(&mut out, self.exp as u64);
        out.append(",\"name\":");
        write_json_string(&mut out, self.name.as_str());
        out.append(",\"last_name\":");
        write_json_string(&mut out, self.last_name.as_str());
        out.append(",\"email\":");
        write_json_string(&mut out, self.email.as_str());
        out.append(",\"driver\":");
        write_json_bool(&mut out, self.driver);
        out.append("}");
        out
    }
}

impl RenewClaims {
    /// The renew claims of a user, before an expiry is set.
    pub fn from_user(user: &User) -> (claims: Self)
        ensures
            claims.sub@ == hyphenated_text(user.id),
            claims.exp == 0,
    {
        RenewClaims { sub: hyphenated(user.id), exp: 0 }
    }

    /// The claims as JSON text.
    pub fn to_json(&self) -> (text: String)
        ensures
            text@ == renew_claims_text(self.sub@, self.exp as nat),
    {
        let mut out = String::new();
        out.append("{\"sub\":");
        write_json_string(&mut out, self.sub.as_str());
        out.append(",\"exp\":");
        write_decimal(&mut out, self.exp as u64);
        out.append("}");
        out
    }
}


/// Why jsonwebtoken refused to sign or to accept a token, as far as the
/// replies tell failures apart.
#[derive(Debug, Clone, Copy, PartialEq, Eq, Structural)]
pub enum JwtFailure {
    InvalidRsaKey,
    InvalidKeyFormat,
    InvalidEcdsaKey,
    /// Any other failure: a malformed or expired token, a bad signature, ...
    Other,
}

/// The error that answers a refusal of jsonwebtoken: a key that it cannot use
/// is the server's fault, anything else makes the token invalid.
pub open spec fn jwt_failure_kind(f: JwtFailure) -> ErrorKind {
    match f {
        JwtFailure::Other => ErrorKind::InvalidToken,
        _ => ErrorKind::Server,
    }
}

impl crate::response::Error {
    pub fn from_jwt_failure(f: JwtFailure) -> (e: Self)
        ensures
            e.error_kind == jwt_failure_kind(f),
    {
        match f {
            JwtFailure::Other => crate::response::Error::new(ErrorKind::InvalidToken),
            _ => crate::response::Error::new(ErrorKind::Server),
        }
    }
}

/// The token that `jsonwebtoken::encode` writes for a claims text under the
/// default header (HS256) with the HMAC key made from the bytes of `secret`.
pub uninterp spec fn hs256_token(claims_json: Seq<char>, secret: Seq<char>) -> Seq<char>;

/// The claims text that `jsonwebtoken::decode` gives back for a token when it
/// accepts it: the token's middle part, base64url-decoded and read by
/// serde_json as a `RawValue` (the JSON value's own text, without surrounding
/// whitespace). It is a function of the token alone; the key and the clock
/// only decide whether the token is accepted.
pub uninterp spec fn jwt_claims_text(token: Seq<char>) -> Seq<char>;

/// Whether jsonwebtoken's signature check accepts a token under an HMAC
/// secret, as `jsonwebtoken::decode` makes it with `Validation::default()`
/// and `DecodingKey::from_secret(secret)`: the token has three
/// dot-separated parts, its header decodes and names HS256, and the third
/// part is the base64url HMAC-SHA256 of the first two under the secret. A
/// function of the token and the secret alone.
pub uninterp spec fn hs256_accepts(token: Seq<char>, secret: Seq<char>) -> bool;

/// The number of dots in a text.
pub open spec fn dot_count(s: Seq<char>) -> nat
    decreases s.len(),
{
    if s.len() == 0 {
        0
    } else {
        dot_count(s.drop_last()) + if s.last() == '.' {
            1nat
        } else {
            0nat
        }
    }
}

/// Whether a text is the claims text of an access token or of a renew token,
/// as this library writes them.
pub open spec fn is_claims_text(c: Seq<char>) -> bool {
    ||| exists|
        sub: Seq<char>,
        exp: nat,
        name: Seq<char>,
        last_name: Seq<char>,
        email: Seq<char>,
        driver: bool,
    | c == #[trigger] access_claims_text(sub, exp, name, last_name, email, driver)
    ||| exists|sub: Seq<char>, exp: nat| c == #[trigger] renew_claims_text(sub, exp)
}

/// Whether a claims text is a JSON object written without surrounding
/// whitespace.
pub open spec fn is_bare_object_text(claims_json: Seq<char>) -> bool {
    claims_json.len() > 0 && claims_json[0] == '{' && claims_json.last() == '}'
}

/// Signs a claims text: the text is handed to `jsonwebtoken::encode` as a
/// `serde_json::value::RawValue` (so it is written into the token as it
/// stands), with `Header::default()` and `EncodingKey::from_secret`. HMAC
/// signing is deterministic, so the token is named by `hs256_token`. The
/// sources of serde_json and jsonwebtoken show that a signed claims text
/// comes back unchanged from the token's middle part when it has no
/// surrounding whitespace (`RawValue::from_string` then keeps it as it is,
/// serialising a `RawValue` writes it verbatim, and reading a `RawValue`
/// takes the value's own text). The sources also show when signing
/// succeeds: `EncodingKey::from_secret` makes an HMAC key, which suits the
/// default header's HS256, and HMAC signing cannot fail, so the only refusal
/// is `RawValue::from_string` refusing a text that is not JSON; the claims
/// texts of this library are JSON objects (strings escaped as serde_json
/// escapes them, a decimal number without leading zeros, a boolean), so they
/// are signed. The token's signature is the HMAC that `jsonwebtoken::decode`
/// recomputes under the same secret. Other failures are told apart by kind.
#[verifier::external_body]
fn sign_claims(claims_json: &str, secret: &str) -> (r: Result<String, JwtFailure>)
    ensures
        is_claims_text(claims_json@) ==> r matches Ok(_),
        r matches Ok(token) ==> token@ == hs256_token(claims_json@, secret@),
        r matches Ok(token) ==> hs256_accepts(token@, secret@),
        r matches Ok(token) ==> (is_bare_object_text(claims_json@) ==> jwt_claims_text(token@)
            == claims_json@),
{
    let key = jsonwebtoken::EncodingKey::from_secret(secret.as_bytes());
    let signed = match serde_json::value::RawValue::from_string(claims_json.to_string()) {
        Ok(claims) => jsonwebtoken::encode(&jsonwebtoken::Header::default(), &claims, &key),
        Err(e) => Err(e.into()),
    };
    match signed {
        Ok(token) => Ok(token),
        Err(e) => Err(match e.kind() {
            JwtErrorKind::InvalidRsaKey(_) => JwtFailure::InvalidRsaKey,
            JwtErrorKind::InvalidKeyFormat => JwtFailure::InvalidKeyFormat,
            JwtErrorKind::InvalidEcdsaKey => JwtFailure::InvalidEcdsaKey,
            _ => JwtFailure::Other,
        }),
    }
}

/// Checks a token with `jsonwebtoken::decode` (`Validation::default()`:
/// HS256, `exp` required and checked against the current time) under the key
/// `DecodingKey::from_secret`, and gives the claims part as JSON text (read
/// as a `serde_json::value::RawValue`), which is named by `jwt_claims_text`.
/// A token is accepted only when the signature check named by
/// `hs256_accepts` passes under `secret`; a text that does not have exactly
/// two dots is refused before any key or clock is used (`rsplitn` finds too
/// few parts, or the header part holds a dot, which base64url does not
/// decode). No failure is one of the key errors: an HMAC key suits the
/// only algorithm admitted (HS256), a header naming another is refused
/// before any key is used, and HMAC verification re-signs and compares;
/// every refusal (malformed text, wrong algorithm or signature, bad JSON,
/// expired or missing `exp`) is `JwtFailure::Other`. A token that `encode`
/// made under the same secret (`hs256_token`) from a claims text of this
/// library is refused only for its expiry: its header, signature and JSON
/// pass, `exp` parses as a `u64` when it fits one, and the default
/// validation checks nothing else (no `nbf`, `iss`, `sub` or `aud` is asked
/// for or present). Expiry is judged against a reading of the clock
/// (`get_current_timestamp`, which makes it panic when the system clock
/// reads before the epoch), with 60 seconds of leeway; which reading is not
/// known, so acceptance itself is left unsaid.
#[verifier::external_body]
fn decode_claims(token: &str, secret: &str) -> (r: Result<String, JwtFailure>)
    ensures
        r matches Ok(claims) ==> claims@ == jwt_claims_text(token@) && hs256_accepts(
            token@,
            secret@,
        ) && dot_count(token@) == 2,
        r matches Err(f) ==> f == JwtFailure::Other,
        r matches Err(_) ==> forall|c: Seq<char>, exp: nat|
            #![trigger hs256_token(c, secret@), claims_text_expiring(c, exp)]
            token@ == hs256_token(c, secret@) && claims_text_expiring(c, exp) && exp
                <= u64::MAX ==> clock_passed(exp),
{
    let key = jsonwebtoken::DecodingKey::from_secret(secret.as_bytes());
    let validation = jsonwebtoken::Validation::default();
    match jsonwebtoken::decode::<Box<serde_json::value::RawValue>>(token, &key, &validation) {
        Ok(data) => Ok(data.claims.get().to_string()),
        Err(e) => Err(match e.kind() {
            JwtErrorKind::InvalidRsaKey(_) => JwtFailure::InvalidRsaKey,
            JwtErrorKind::InvalidKeyFormat => JwtFailure::InvalidKeyFormat,
            JwtErrorKind::InvalidEcdsaKey => JwtFailure::InvalidEcdsaKey,
            _ => JwtFailure::Other,
        }),
    }
}

/// The current time in seconds since the Unix epoch
/// (`jsonwebtoken::get_current_timestamp`). Nothing is stated of it: it is
/// the clock. jsonwebtoken panics when the system clock reads a time before
/// the epoch; no argument can rule that out, so the call may panic there.
#[verifier::external_body]
pub(crate) fn current_timestamp() -> u64 {
    jsonwebtoken::get_current_timestamp()
}

/// Whether `t` is a time that the clock gave: a value returned by a call
/// of `current_timestamp` (jsonwebtoken's `get_current_timestamp`, which
/// `jsonwebtoken::decode` calls too). Nothing else is known of a reading, so
/// in a proof only a value actually read from the clock is one.
pub closed spec fn is_clock_reading(t: u64) -> bool {
    call_ensures(current_timestamp, (), t)
}

/// Reads the clock: the current time in seconds since the Unix epoch.
pub fn read_clock() -> (t: u64)
    ensures
        is_clock_reading(t),
{
    current_timestamp()
}

/// The seconds of leeway with which `Validation::default()` checks expiry.
pub const EXP_LEEWAY: u64 = 60;

/// Whether the clock has given a reading at which jsonwebtoken's default
/// validation refuses a token expiring at `exp`: `exp < now - 60` in
/// jsonwebtoken's `u64` arithmetic, where a reading below 60 leaves no
/// valid expiry.
pub open spec fn clock_passed(exp: nat) -> bool {
    exists|t: u64| #[trigger] is_clock_reading(t) && (t < EXP_LEEWAY || exp + EXP_LEEWAY < t)
}

/// Whether `c` is a claims text of this library (access or renew) whose
/// expiry is `exp`.
pub open spec fn claims_text_expiring(c: Seq<char>, exp: nat) -> bool {
    ||| exists|
        sub: Seq<char>,
        name: Seq<char>,
        last_name: Seq<char>,
        email: Seq<char>,
        driver: bool,
    | c == #[trigger] access_claims_text(sub, exp, name, last_name, email, driver)
    ||| exists|sub: Seq<char>| c == #[trigger] renew_claims_text(sub, exp)
}

/// The access token issued to `user` at time `now`: its claims expire a day
/// later.
pub open spec fn issued_access_token(secret: Seq<char>, user: User, now: nat) -> Seq<char> {
    hs256_token(user_access_claims_text(user, (now + SECS_DAY) as nat), secret)
}

/// The renew token issued to `user` at time `now`: its claims expire 30 days
/// later.
pub open spec fn issued_renew_token(secret: Seq<char>, user: User, now: nat) -> Seq<char> {
    hs256_token(user_renew_claims_text(user, (now + SECS_30_DAY) as nat), secret)
}

proof fn lemma_access_claims_text_bare(user: User, exp: nat)
    ensures
        is_bare_object_text(user_access_claims_text(user, exp)),
{
    reveal_strlit("{\"sub\":");
    reveal_strlit("}");
    let t = user_access_claims_text(user, exp);
    assert(t[0] == '{');
    assert(t.last() == '}');
}

proof fn lemma_renew_claims_text_bare(user: User, exp: nat)
    ensures
        is_bare_object_text(user_renew_claims_text(user, exp)),
{
    reveal_strlit("{\"sub\":");
    reveal_strlit("}");
    let t = user_renew_claims_text(user, exp);
    assert(t[0] == '{');
    assert(t.last() == '}');
}

/// A token issued to a user and accepted again gives back that user's
/// claims: when the claims text that decoding gives (`decode_access_token`)
/// is that of a token issued by `encode_access_token_at`, it reads back as
/// the user's id, expiry, names, email and driver flag.
pub proof fn lemma_accepted_access_token_names_its_user(user: User, exp: nat, token: Seq<char>)
    requires
        jwt_claims_text(token) == user_access_claims_text(user, exp),
    ensures
        read_access_claims_text(jwt_claims_text(token)) matches Some((sub, e, name, last_name, email, driver))
            && uuid_from_text(sub) == Some(user.id) && e == exp && name == user.name@
            && last_name == user.last_name@ && email == user.email@ && driver == user.driver,
{
    lemma_issued_access_claims_name_their_user(user, exp);
}

/// A renew token issued to a user and accepted again gives back that user's
/// claims.
pub proof fn lemma_accepted_renew_token_names_its_user(user: User, exp: nat, token: Seq<char>)
    requires
        jwt_claims_text(token) == user_renew_claims_text(user, exp),
    ensures
        read_renew_claims_text(jwt_claims_text(token)) matches Some((sub, e)) && uuid_from_text(sub) == Some(
            user.id,
        ) && e == exp,
{
    lemma_issued_renew_claims_name_their_user(user, exp);
}

/// Whether `token` is the access token issued to `user` at time `now` under
/// `secret`: the signed claims of the user expiring a day later, accepted by
/// the signature check under the same secret.
pub open spec fn is_issued_access_token(secret: Seq<char>, user: User, now: nat, token: Seq<char>) -> bool {
    &&& token == issued_access_token(secret, user, now)
    &&& jwt_claims_text(token) == user_access_claims_text(user, (now + SECS_DAY) as nat)
    &&& hs256_accepts(token, secret)
}

/// Whether `token` is the renew token issued to `user` at time `now` under
/// `secret`.
pub open spec fn is_issued_renew_token(secret: Seq<char>, user: User, now: nat, token: Seq<char>) -> bool {
    &&& token == issued_renew_token(secret, user, now)
    &&& jwt_claims_text(token) == user_renew_claims_text(user, (now + SECS_30_DAY) as nat)
    &&& hs256_accepts(token, secret)
}

/// What issuing an access token gives when the clock reads `now`: the token
/// issued at `now`, or a server error when the expiry would not fit in a
/// `usize`.
pub open spec fn access_token_outcome(
    secret: Seq<char>,
    user: User,
    now: u64,
    r: Result<String, crate::response::Error>,
) -> bool {
    if now + SECS_DAY <= usize::MAX {
        r matches Ok(token) && is_issued_access_token(secret, user, now as nat, token@)
    } else {
        r matches Err(e) && e.error_kind == ErrorKind::Server
    }
}

/// Whether refusing `token` under `secret` is explained by expiry alone for
/// every way the token could have been issued: a token issued under
/// `secret` to any user at any time `now` (as `encode_*_token_at` issue
/// them) is refused only once the clock has read a time past its expiry
/// and the leeway.
pub open spec fn refused_only_when_expired(secret: Seq<char>, token: Seq<char>) -> bool {
    &&& forall|user: User, now: nat|
        #![trigger issued_access_token(secret, user, now)]
        token == issued_access_token(secret, user, now) && now + SECS_DAY <= u64::MAX
            ==> clock_passed((now + SECS_DAY) as nat)
    &&& forall|user: User, now: nat|
        #![trigger issued_renew_token(secret, user, now)]
        token == issued_renew_token(secret, user, now) && now + SECS_30_DAY <= u64::MAX
            ==> clock_passed((now + SECS_30_DAY) as nat)
}

/// What issuing a renew token gives when the clock reads `now`.
pub open spec fn renew_token_outcome(
    secret: Seq<char>,
    user: User,
    now: u64,
    r: Result<String, crate::response::Error>,
) -> bool {
    if now + SECS_30_DAY <= usize::MAX {
        r matches Ok(token) && is_issued_renew_token(secret, user, now as nat, token@)
    } else {
        r matches Err(e) && e.error_kind == ErrorKind::Server
    }
}

/// The access token issued to a user does not depend on the user's password
/// hash: users that agree on everything else get the same token.
pub proof fn lemma_access_token_ignores_password_hash(
    secret: Seq<char>,
    u1: User,
    u2: User,
    now: nat,
)
    requires
        u1.id == u2.id,
        u1.name == u2.name,
        u1.last_name == u2.last_name,
        u1.email == u2.email,
        u1.driver == u2.driver,
    ensures
        issued_access_token(secret, u1, now) == issued_access_token(secret, u2, now),
{
}

/// The renew token issued to a user depends on the user's id alone.
pub proof fn lemma_renew_token_depends_on_id_only(secret: Seq<char>, u1: User, u2: User, now: nat)
    requires
        u1.id == u2.id,
    ensures
        issued_renew_token(secret, u1, now) == issued_renew_token(secret, u2, now),
{
}

/// What `decode_claims` states of a refused token, told over the tokens
/// that `encode_*_token_at` issue.
proof fn lemma_refusal_of_issued_token(secret: Seq<char>, token: Seq<char>)
    requires
        forall|c: Seq<char>, exp: nat|
            #![trigger hs256_token(c, secret), claims_text_expiring(c, exp)]
            token == hs256_token(c, secret) && claims_text_expiring(c, exp) && exp <= u64::MAX
                ==> clock_passed(exp),
    ensures
        refused_only_when_expired(secret, token),
{
    assert forall|user: User, now: nat|
        token == issued_access_token(secret, user, now) && now + SECS_DAY <= u64::MAX implies
        clock_passed((now + SECS_DAY) as nat) by {
        let exp = (now + SECS_DAY) as nat;
        let c = user_access_claims_text(user, exp);
        assert(claims_text_expiring(c, exp));
        assert(token == hs256_token(c, secret));
    }
    assert forall|user: User, now: nat|
        token == issued_renew_token(secret, user, now) && now + SECS_30_DAY <= u64::MAX implies
        clock_passed((now + SECS_30_DAY) as nat) by {
        let exp = (now + SECS_30_DAY) as nat;
        let c = user_renew_claims_text(user, exp);
        assert(claims_text_expiring(c, exp));
        assert(token == hs256_token(c, secret));
    }
}

/// Signs and checks the tokens of this server with one HMAC secret.
pub struct JwtController {
    secret: String,
}

impl View for JwtController {
    type V = Seq<char>;

    /// The secret that the tokens are signed with.
    closed spec fn view(&self) -> Seq<char> {
        self.secret@
    }
}

impl JwtController {
    pub fn new(jwt_secret: &str) -> (controller: Self)
        ensures
            controller@ == jwt_secret@,
    {
        JwtController { secret: jwt_secret.to_owned() }
    }

    /// The access token of `user` issued at time `now`.
    pub fn encode_access_token_at(&self, user: User, now: u64) -> (r: Result<String, crate::response::Error>)
        requires
            now + SECS_DAY <= usize::MAX,
        ensures
            r matches Ok(token) && is_issued_access_token(self@, user, now as nat, token@),
    {
        proof {
            lemma_access_claims_text_bare(user, (now + SECS_DAY) as nat);
        }
        let mut claims = AccessClaims::from_user(user);
        claims.exp = now as usize + SECS_DAY;
        let text = claims.to_json();
        assert(is_claims_text(text@)) by {
            assert(text@ == access_claims_text(
                claims.sub@,
                claims.exp as nat,
                claims.name@,
                claims.last_name@,
                claims.email@,
                claims.driver,
            ));
        }
        match sign_claims(text.as_str(), self.secret.as_str()) {
            Ok(token) => Ok(token),
            Err(f) => Err(crate::response::Error::from_jwt_failure(f)),
        }
    }

    /// The access token of `user`, issued at the time the clock reads during
    /// the call. A clock so far ahead that the
    /// expiry would not fit in a `usize` is answered with a server error.
    pub fn encode_access_token(&self, user: User) -> (r: Result<String, crate::response::Error>)
        ensures
            exists|now: u64|
                #![trigger access_token_outcome(self@, user, now, r)]
                is_clock_reading(now) && access_token_outcome(self@, user, now, r),
    {
        let now = current_timestamp();
        if now > (usize::MAX - SECS_DAY) as u64 {
            let r = Err(crate::response::Error::new(ErrorKind::Server));
            assert(access_token_outcome(self@, user, now, r));
            return r;
        }
        let ghost u = user;
        let r = self.encode_access_token_at(user, now);
        assert(access_token_outcome(self@, u, now, r));
        r
    }

    /// The renew token of `user` issued at time `now`.
    pub fn encode_renew_token_at(&self, user: &User, now: u64) -> (r: Result<String, crate::response::Error>)
        requires
            now + SECS_30_DAY <= usize::MAX,
        ensures
            r matches Ok(token) && is_issued_renew_token(self@, *user, now as nat, token@),
    {
        proof {
            lemma_renew_claims_text_bare(*user, (now + SECS_30_DAY) as nat);
        }
        let mut claims = RenewClaims::from_user(user);
        claims.exp = now as usize + SECS_30_DAY;
        let text = claims.to_json();
        assert(is_claims_text(text@)) by {
            assert(text@ == renew_claims_text(claims.sub@, claims.exp as nat));
        }
        match sign_claims(text.as_str(), self.secret.as_str()) {
            Ok(token) => Ok(token),
            Err(f) => Err(crate::response::Error::from_jwt_failure(f)),
        }
    }

    /// The renew token of `user`, issued at the time the clock reads during
    /// the call. A clock so far ahead that the
    /// expiry would not fit in a `usize` is answered with a server error.
    pub fn encode_renew_token(&self, user: &User) -> (r: Result<String, crate::response::Error>)
        ensures
            exists|now: u64|
                #![trigger renew_token_outcome(self@, *user, now, r)]
                is_clock_reading(now) && renew_token_outcome(self@, *user, now, r),
    {
        let now = current_timestamp();
        if now > (usize::MAX - SECS_30_DAY) as u64 {
            let r = Err(crate::response::Error::new(ErrorKind::Server));
            assert(renew_token_outcome(self@, *user, now, r));
            return r;
        }
        let r = self.encode_renew_token_at(user, now);
        assert(renew_token_outcome(self@, *user, now, r));
        r
    }

    /// Checks an access token and gives its claims as JSON text: the claims
    /// part of the token (for a token issued by this controller, the claims
    /// text it was signed with). Every refusal is an invalid token, and a
    /// token issued under this secret is refused only once the clock has
    /// read a time past its expiry and the leeway.
    pub fn decode_access_token(&self, token: &str) -> (r: Result<String, crate::response::Error>)
        ensures
            r matches Ok(claims) ==> claims@ == jwt_claims_text(token@),
            r is Ok ==> hs256_accepts(token@, self@),
            r is Ok ==> dot_count(token@) == 2,
            dot_count(token@) != 2 ==> (r matches Err(e) && e.error_kind == ErrorKind::InvalidToken),
            r matches Err(e) ==> e.error_kind == ErrorKind::InvalidToken,
            r matches Err(_) ==> refused_only_when_expired(self@, token@),
    {
        match decode_claims(token, self.secret.as_str()) {
            Ok(claims) => Ok(claims),
            Err(f) => {
                proof {
                    lemma_refusal_of_issued_token(self@, token@);
                }
                Err(crate::response::Error::from_jwt_failure(f))
            },
        }
    }

    /// Checks a renew token and gives its claims as JSON text: the claims
    /// part of the token (for a token issued by this controller, the claims
    /// text it was signed with). Every refusal is an invalid token, and a
    /// token issued under this secret is refused only once the clock has
    /// read a time past its expiry and the leeway.
    pub fn decode_renew_token(&self, token: &str) -> (r: Result<String, crate::response::Error>)
        ensures
            r matches Ok(claims) ==> claims@ == jwt_claims_text(token@),
            r is Ok ==> hs256_accepts(token@, self@),
            r is Ok ==> dot_count(token@) == 2,
            dot_count(token@) != 2 ==> (r matches Err(e) && e.error_kind == ErrorKind::InvalidToken),
            r matches Err(e) ==> e.error_kind == ErrorKind::InvalidToken,
            r matches Err(_) ==> refused_only_when_expired(self@, token@),
    {
        match decode_claims(token, self.secret.as_str()) {
            Ok(claims) => Ok(claims),
            Err(f) => {
                proof {
                    lemma_refusal_of_issued_token(self@, token@);
                }
                Err(crate::response::Error::from_jwt_failure(f))
            },
        }
    }
}

} // verus!
