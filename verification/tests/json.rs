use usher::handlers::user::User;
use usher::json::{write_decimal, write_json_bool, write_json_string};
use usher::jwt_controller::{AccessClaims, RenewClaims};

fn json_of(s: &str) -> String {
    let mut out = String::new();
    write_json_string(&mut out, s);
    out
}

#[test]
fn strings_are_written_as_serde_json_writes_them() {
    let mut all_controls = String::new();
    for b in 0u8..0x20 {
        all_controls.push(b as char);
    }
    for s in [
        "",
        "plain",
        "quote \" and backslash \\",
        "tab\tline\nreturn\rform\x0cback\x08",
        "\x00\x01\x1f\x7f",
        "slash / stays",
        "ünïcødé ✓ 🚕",
        all_controls.as_str(),
    ] {
        assert_eq!(json_of(s), serde_json::to_string(s).unwrap());
    }
}

#[test]
fn control_characters_get_lower_case_unicode_escapes() {
    assert_eq!(json_of("\x1b"), "\"\\u001b\"");
    assert_eq!(json_of("\n"), "\"\\n\"");
}

#[test]
fn decimals_and_booleans() {
    for n in [0u64, 7, 10, 99, 86400, 1_725_029_869, u64::MAX] {
        let mut out = String::from("x");
        write_decimal(&mut out, n);
        assert_eq!(out, format!("x{}", n));
    }
    let mut out = String::new();
    write_json_bool(&mut out, true);
    write_json_bool(&mut out, false);
    assert_eq!(out, "truefalse");
}

#[test]
fn access_claims_json() {
    let user = User {
        id: 1,
        email: "a\"b@example.com".to_string(),
        name: "Zoë".to_string(),
        last_name: "O'Neil".to_string(),
        driver: false,
        hashed_password: String::new(),
    };
    let mut claims = AccessClaims::from_user(user);
    claims.exp = 1_725_116_269;
    assert_eq!(
        claims.to_json(),
        "{\"sub\":\"00000000-0000-0000-0000-000000000001\",\"exp\":1725116269,\
         \"name\":\"Zoë\",\"last_name\":\"O'Neil\",\"email\":\"a\\\"b@example.com\",\
         \"driver\":false}"
    );
    let parsed: serde_json::Value = serde_json::from_str(&claims.to_json()).unwrap();
    assert_eq!(parsed["email"], "a\"b@example.com");
    assert_eq!(parsed["exp"], 1_725_116_269u64);
}

#[test]
fn renew_claims_json() {
    let user = User {
        id: u128::MAX,
        email: String::new(),
        name: String::new(),
        last_name: String::new(),
        driver: true,
        hashed_password: String::new(),
    };
    let mut claims = RenewClaims::from_user(&user);
    assert_eq!(claims.exp, 0);
    claims.exp = 42;
    assert_eq!(
        claims.to_json(),
        "{\"sub\":\"ffffffff-ffff-ffff-ffff-ffffffffffff\",\"exp\":42}"
    );
}

#[test]
fn claims_with_hostile_strings_read_back() {
    let user = User {
        id: 7,
        email: "x\",\"driver\":true,\"y\":\"@example.com".to_string(),
        name: "\\\"}".to_string(),
        last_name: "\u{0}\u{1f}\n".to_string(),
        driver: false,
        hashed_password: String::new(),
    };
    let mut claims = AccessClaims::from_user(user);
    claims.exp = 99;
    let parsed: serde_json::Value = serde_json::from_str(&claims.to_json()).unwrap();
    assert_eq!(parsed.as_object().unwrap().len(), 6);
    assert_eq!(parsed["sub"], "00000000-0000-0000-0000-000000000007");
    assert_eq!(parsed["exp"], 99);
    assert_eq!(parsed["email"], "x\",\"driver\":true,\"y\":\"@example.com");
    assert_eq!(parsed["name"], "\\\"}");
    assert_eq!(parsed["last_name"], "\u{0}\u{1f}\n");
    assert_eq!(parsed["driver"], false);
}
