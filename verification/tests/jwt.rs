use usher::handlers::user::User;
use usher::jwt_controller::{AccessClaims, JwtController, JwtFailure, RenewClaims, SECS_30_DAY, SECS_DAY};
use usher::response::{Error, ErrorKind};

fn ada() -> User {
    User {
        id: 0x936da01f_9abd_4d9d_80c7_02af85c822a8,
        email: "ada@example.com".to_string(),
        name: "Ada".to_string(),
        last_name: "Lovelace".to_string(),
        driver: false,
        hashed_password: "x".to_string(),
    }
}

fn now() -> u64 {
    jsonwebtoken::get_current_timestamp()
}

#[test]
fn expiry_constants() {
    assert_eq!(SECS_DAY, 86400);
    assert_eq!(SECS_30_DAY, 2_592_000);
}

#[test]
fn access_token_round_trip() {
    let jwt = JwtController::new("SECRET-REDACTED");
    let t = now();
    let token = jwt.encode_access_token_at(ada(), t).unwrap();
    assert_eq!(token.split('.').next().unwrap(), "eyJ0eXAiOiJKV1QiLCJhbGciOiJIUzI1NiJ9");
    assert_eq!(token.split('.').count(), 3);
    let mut claims = AccessClaims::from_user(ada());
    claims.exp = t as usize + SECS_DAY;
    assert_eq!(jwt.decode_access_token(&token).unwrap(), claims.to_json());
}

#[test]
fn access_token_is_read_by_jsonwebtoken() {
    let jwt = JwtController::new("another secret");
    let t = now();
    let token = jwt.encode_access_token_at(ada(), t).unwrap();
    let key = jsonwebtoken::DecodingKey::from_secret(b"another secret");
    let data = jsonwebtoken::decode::<serde_json::Value>(
        &token,
        &key,
        &jsonwebtoken::Validation::default(),
    )
    .unwrap();
    assert_eq!(data.claims["sub"], "936da01f-9abd-4d9d-80c7-02af85c822a8");
    assert_eq!(data.claims["exp"], t + 86400);
    assert_eq!(data.claims["name"], "Ada");
    assert_eq!(data.claims["last_name"], "Lovelace");
    assert_eq!(data.claims["email"], "ada@example.com");
    assert_eq!(data.claims["driver"], false);
}

#[test]
fn signing_is_deterministic() {
    let jwt = JwtController::new("k");
    let a = jwt.encode_access_token_at(ada(), 1_700_000_000).unwrap();
    let b = jwt.encode_access_token_at(ada(), 1_700_000_000).unwrap();
    let c = jwt.encode_access_token_at(ada(), 1_700_000_001).unwrap();
    assert_eq!(a, b);
    assert_ne!(a, c);
}

#[test]
fn renew_token_round_trip() {
    let jwt = JwtController::new("SECRET-REDACTED");
    let t = now();
    let token = jwt.encode_renew_token_at(&ada(), t).unwrap();
    let mut claims = RenewClaims::from_user(&ada());
    claims.exp = t as usize + SECS_30_DAY;
    assert_eq!(jwt.decode_renew_token(&token).unwrap(), claims.to_json());
}

#[test]
fn tokens_issued_now_are_accepted() {
    let jwt = JwtController::new("SECRET-REDACTED");
    let token = jwt.encode_access_token(ada()).unwrap();
    let text = jwt.decode_access_token(&token).unwrap();
    let claims: serde_json::Value = serde_json::from_str(&text).unwrap();
    let exp = claims["exp"].as_u64().unwrap();
    assert!(exp >= now() + 86400 - 5 && exp <= now() + 86400);
    let renew = jwt.encode_renew_token(&ada()).unwrap();
    assert!(jwt.decode_renew_token(&renew).is_ok());
}

#[test]
fn foreign_expired_and_malformed_tokens_are_invalid() {
    let jwt = JwtController::new("SECRET-REDACTED");
    let other = JwtController::new("not the secret");
    let token = other.encode_access_token_at(ada(), now()).unwrap();
    assert_eq!(jwt.decode_access_token(&token).unwrap_err().error_kind, ErrorKind::InvalidToken);
    let expired = jwt.encode_access_token_at(ada(), 1000).unwrap();
    assert_eq!(jwt.decode_access_token(&expired).unwrap_err().error_kind, ErrorKind::InvalidToken);
    assert_eq!(jwt.decode_access_token("a.b.c").unwrap_err().error_kind, ErrorKind::InvalidToken);
    assert_eq!(jwt.decode_renew_token("").unwrap_err().error_kind, ErrorKind::InvalidToken);
}

#[test]
fn jwt_failures_map_to_errors() {
    assert_eq!(Error::from_jwt_failure(JwtFailure::Other).error_kind, ErrorKind::InvalidToken);
    for f in [JwtFailure::InvalidRsaKey, JwtFailure::InvalidKeyFormat, JwtFailure::InvalidEcdsaKey] {
        assert_eq!(Error::from_jwt_failure(f).error_kind, ErrorKind::Server);
    }
}

#[test]
fn access_token_ignores_the_password_hash() {
    let jwt = JwtController::new("k");
    let mut other = ada();
    other.hashed_password = "$2b$12$somethingelse".to_string();
    let a = jwt.encode_access_token_at(ada(), 1_700_000_000).unwrap();
    let b = jwt.encode_access_token_at(other, 1_700_000_000).unwrap();
    assert_eq!(a, b);
}

#[test]
fn renew_token_depends_on_the_id_only() {
    let jwt = JwtController::new("k");
    let other = User {
        id: ada().id,
        email: "someone@example.com".to_string(),
        name: "B".to_string(),
        last_name: "C".to_string(),
        driver: true,
        hashed_password: "y".to_string(),
    };
    let a = jwt.encode_renew_token_at(&ada(), 1_700_000_000).unwrap();
    let b = jwt.encode_renew_token_at(&other, 1_700_000_000).unwrap();
    assert_eq!(a, b);
    let mut third = ada();
    third.id += 1;
    assert_ne!(a, jwt.encode_renew_token_at(&third, 1_700_000_000).unwrap());
}

#[test]
fn texts_without_three_parts_are_invalid_tokens() {
    for secret in ["", "k", "SECRET-REDACTED"] {
        let jwt = JwtController::new(secret);
        for text in ["not-a-token", "", "a.b", "a.b.c.d"] {
            assert_eq!(jwt.decode_access_token(text).unwrap_err().error_kind, ErrorKind::InvalidToken);
            assert_eq!(jwt.decode_renew_token(text).unwrap_err().error_kind, ErrorKind::InvalidToken);
        }
    }
}

#[test]
fn renew_token_under_another_secret_is_invalid() {
    let jwt = JwtController::new("SECRET-REDACTED");
    let other = JwtController::new("");
    let token = other.encode_renew_token_at(&ada(), now()).unwrap();
    assert_eq!(jwt.decode_renew_token(&token).unwrap_err().error_kind, ErrorKind::InvalidToken);
}
