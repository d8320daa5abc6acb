use usher::handlers::user::{info, login, renew, signup, User};
use usher::handlers::{user_lookup_error, userinfo, DbError};
use usher::jwt_controller::{AccessClaims, JwtController, RenewClaims};
use usher::response::ErrorKind;

const USER_ID: u128 = 0x936da01f_9abd_4d9d_80c7_02af85c822a8;
// A bcrypt hash of "password" at cost 4.
const PASSWORD_HASH: &str = "$2a$04$UuTkLRZZ6QofpDOlMz32MuuxEHA43WOemOYHPz6.SjsVsyO1tDU96";

fn stored_user(hash: &str) -> User {
    User {
        id: USER_ID,
        email: "ada@example.com".to_string(),
        name: "Ada".to_string(),
        last_name: "Lovelace".to_string(),
        driver: true,
        hashed_password: hash.to_string(),
    }
}

fn signup_payload(email: &str, password: &str) -> signup::Payload {
    signup::Payload {
        email: email.to_string(),
        password: password.to_string(),
        name: "Ada".to_string(),
        last_name: "Lovelace".to_string(),
        driver: true,
    }
}

#[test]
fn lookup_errors() {
    assert_eq!(user_lookup_error(DbError::RowNotFound).error_kind, ErrorKind::LoginFailed);
    for e in [DbError::UniqueViolation, DbError::OtherDatabase, DbError::Other] {
        assert_eq!(user_lookup_error(e).error_kind, ErrorKind::DbConnection);
    }
}

#[test]
fn signup_refuses_invalid_email_addresses() {
    for email in ["", "ada", "ada@", "@example.com", "ada example@example.com", "ada@@example.com"] {
        let action = signup::handler(signup::Step::Request { payload: signup_payload(email, "pw") });
        assert!(matches!(action, signup::Action::Reply(Err(e)) if e.error_kind == ErrorKind::InvalidEmailAddress));
    }
}

#[test]
fn signup_outcomes() {
    assert!(matches!(signup::handler(signup::Step::Inserted(Ok(()))), signup::Action::Reply(Ok(200))));
    let kind = |e| match signup::handler(signup::Step::Inserted(Err(e))) {
        signup::Action::Reply(Err(err)) => err.error_kind,
        _ => panic!("expected an error"),
    };
    assert_eq!(kind(DbError::UniqueViolation), ErrorKind::EmailAlreadyUsed);
    assert_eq!(kind(DbError::OtherDatabase), ErrorKind::InvalidEmailAddress);
    assert_eq!(kind(DbError::RowNotFound), ErrorKind::DbConnection);
    assert_eq!(kind(DbError::Other), ErrorKind::DbConnection);
}

#[test]
fn signed_up_user_can_log_in() {
    let action = signup::handler(signup::Step::Request {
        payload: signup_payload("ada@example.com", "correct horse"),
    });
    let new_user = match action {
        signup::Action::InsertUser(u) => u,
        _ => panic!("expected an insertion"),
    };
    assert_eq!(new_user.email, "ada@example.com");
    assert_eq!(new_user.name, "Ada");
    assert_eq!(new_user.last_name, "Lovelace");
    assert!(new_user.driver);
    assert_ne!(new_user.hashed_password, "correct horse");
    assert!(new_user.hashed_password.starts_with("$2b$12$"));
    let jwt = JwtController::new("SECRET-REDACTED");
    let action = login::handler(&jwt, login::Step::Fetched {
        password: "correct horse".to_string(),
        outcome: Ok(stored_user(&new_user.hashed_password)),
    });
    assert!(matches!(action, login::Action::Reply(Ok((200, _)))));
}

#[test]
fn login_looks_the_user_up() {
    let jwt = JwtController::new("SECRET-REDACTED");
    let action = login::handler(&jwt, login::Step::Request {
        payload: login::Payload { email: "ada@example.com".to_string(), password: "pw".to_string() },
    });
    match action {
        login::Action::FetchUser { email, password } => {
            assert_eq!(email, "ada@example.com");
            assert_eq!(password, "pw");
        }
        _ => panic!("expected a lookup"),
    }
}

#[test]
fn login_with_the_right_password_gets_a_token() {
    let jwt = JwtController::new("SECRET-REDACTED");
    let action = login::handler(&jwt, login::Step::Fetched {
        password: "password".to_string(),
        outcome: Ok(stored_user(PASSWORD_HASH)),
    });
    let token = match action {
        login::Action::Reply(Ok((200, body))) => body.payload.token,
        _ => panic!("expected a token"),
    };
    let text = jwt.decode_access_token(&token).unwrap();
    let claims: serde_json::Value = serde_json::from_str(&text).unwrap();
    assert_eq!(claims["sub"], "936da01f-9abd-4d9d-80c7-02af85c822a8");
    assert_eq!(claims["email"], "ada@example.com");
    assert_eq!(claims["driver"], true);
}

#[test]
fn login_failures() {
    let jwt = JwtController::new("SECRET-REDACTED");
    let kind = |password: &str, outcome: Result<User, DbError>| {
        match login::handler(&jwt, login::Step::Fetched { password: password.to_string(), outcome }) {
            login::Action::Reply(Err(e)) => e.error_kind,
            _ => panic!("expected an error"),
        }
    };
    assert_eq!(kind("wrong", Ok(stored_user(PASSWORD_HASH))), ErrorKind::LoginFailed);
    assert_eq!(kind("password", Ok(stored_user("not a bcrypt hash"))), ErrorKind::Server);
    assert_eq!(kind("password", Err(DbError::RowNotFound)), ErrorKind::LoginFailed);
    assert_eq!(kind("password", Err(DbError::Other)), ErrorKind::DbConnection);
}

#[test]
fn info_shows_the_account() {
    let claims = AccessClaims::from_user(stored_user("h"));
    assert!(matches!(info::handler(info::Step::Request { claims }), info::Action::FetchUser { id: USER_ID }));
    let mut bad = AccessClaims::from_user(stored_user("h"));
    bad.sub = "?".to_string();
    assert!(matches!(info::handler(info::Step::Request { claims: bad }),
        info::Action::Reply(Err(e)) if e.error_kind == ErrorKind::InvalidToken));
    match info::handler(info::Step::Fetched(Ok(stored_user("h")))) {
        info::Action::Reply(Ok((200, reply))) => {
            assert_eq!(reply.email, "ada@example.com");
            assert_eq!(reply.name, "Ada");
            assert_eq!(reply.last_name, "Lovelace");
            assert!(reply.driver);
        }
        _ => panic!("expected a reply"),
    }
    assert!(matches!(info::handler(info::Step::Fetched(Err(DbError::RowNotFound))),
        info::Action::Reply(Err(e)) if e.error_kind == ErrorKind::LoginFailed));
}

#[test]
fn renew_issues_both_tokens() {
    let jwt = JwtController::new("SECRET-REDACTED");
    let claims = RenewClaims::from_user(&stored_user("h"));
    assert!(matches!(renew::handler(&jwt, renew::Step::Request { claims }), renew::Action::FetchUser { id: USER_ID }));
    match renew::handler(&jwt, renew::Step::Fetched(Ok(stored_user("h")))) {
        renew::Action::Reply(Ok((200, body))) => {
            assert!(jwt.decode_renew_token(&body.payload.renew_token).is_ok());
            assert!(jwt.decode_access_token(&body.payload.token).is_ok());
            assert_ne!(body.payload.renew_token, body.payload.token);
        }
        _ => panic!("expected tokens"),
    }
    assert!(matches!(renew::handler(&jwt, renew::Step::Fetched(Err(DbError::Other))),
        renew::Action::Reply(Err(e)) if e.error_kind == ErrorKind::DbConnection));
    let mut bad = RenewClaims::from_user(&stored_user("h"));
    bad.sub = String::new();
    assert!(matches!(renew::handler(&jwt, renew::Step::Request { claims: bad }),
        renew::Action::Reply(Err(e)) if e.error_kind == ErrorKind::InvalidToken));
}

#[test]
fn userinfo_shows_the_names() {
    assert!(matches!(userinfo::handler(userinfo::Step::Request { user_id: 5 }), userinfo::Action::FetchUser { id: 5 }));
    match userinfo::handler(userinfo::Step::Fetched(Ok(stored_user("h")))) {
        userinfo::Action::Reply(Ok((200, body))) => {
            assert_eq!(body.payload.name, "Ada");
            assert_eq!(body.payload.last_name, "Lovelace");
        }
        _ => panic!("expected a reply"),
    }
    assert!(matches!(userinfo::handler(userinfo::Step::Fetched(Err(DbError::OtherDatabase))),
        userinfo::Action::Reply(Err(e)) if e.error_kind == ErrorKind::DbConnection));
}

#[test]
fn login_reply_at_a_given_time() {
    let jwt = JwtController::new("SECRET-REDACTED");
    let user = stored_user("h");
    let expected = jwt.encode_access_token_at(stored_user("h"), 1_700_000_000).unwrap();
    match login::reply_with_token(&jwt, user, 1_700_000_000) {
        login::Action::Reply(Ok((200, body))) => assert_eq!(body.payload.token, expected),
        _ => panic!("expected a token"),
    }
    assert!(matches!(login::reply_with_token(&jwt, stored_user("h"), u64::MAX),
        login::Action::Reply(Err(e)) if e.error_kind == ErrorKind::Server));
}

#[test]
fn renew_reply_at_given_times() {
    let jwt = JwtController::new("SECRET-REDACTED");
    let renew = jwt.encode_renew_token_at(&stored_user("h"), 1_700_000_000).unwrap();
    let access = jwt.encode_access_token_at(stored_user("h"), 1_700_000_001).unwrap();
    match renew::reply_with_tokens(&jwt, stored_user("h"), 1_700_000_000, 1_700_000_001) {
        renew::Action::Reply(Ok((200, body))) => {
            assert_eq!(body.payload.renew_token, renew);
            assert_eq!(body.payload.token, access);
        }
        _ => panic!("expected tokens"),
    }
    assert!(matches!(renew::reply_with_tokens(&jwt, stored_user("h"), u64::MAX, 0),
        renew::Action::Reply(Err(e)) if e.error_kind == ErrorKind::Server));
    assert!(matches!(renew::reply_with_tokens(&jwt, stored_user("h"), 0, u64::MAX),
        renew::Action::Reply(Err(e)) if e.error_kind == ErrorKind::Server));
}

#[test]
fn signup_row_for_a_given_hash() {
    match signup::insert_with_hash(signup_payload("ada@example.com", "pw"), Some("h".to_string())) {
        signup::Action::InsertUser(row) => {
            assert_eq!(row.email, "ada@example.com");
            assert_eq!(row.hashed_password, "h");
            assert_eq!(row.name, "Ada");
            assert_eq!(row.last_name, "Lovelace");
            assert!(row.driver);
        }
        _ => panic!("expected an insertion"),
    }
    assert!(matches!(signup::insert_with_hash(signup_payload("ada@example.com", "pw"), None),
        signup::Action::Reply(Err(e)) if e.error_kind == ErrorKind::Server));
}

#[test]
fn signup_stores_a_bcrypt_hash() {
    match signup::handler(signup::Step::Request { payload: signup_payload("ada@example.com", "pw") }) {
        signup::Action::InsertUser(row) => {
            assert_eq!(row.hashed_password.len(), 60);
            assert!(row.hashed_password.starts_with("$2b$12$"));
            assert_ne!(row.hashed_password, "pw");
            assert!(bcrypt::verify("pw", &row.hashed_password).unwrap());
        }
        _ => panic!("expected an insertion"),
    }
}
