use game_zone::auth::clock_reading;
use game_zone::auth::encode_jwt_with_clock;
use game_zone::auth::{
    claims_at, claims_json, encode_jwt, encode_jwt_at, session_cookie, Claims, AUTH_COOKIE_NAME,
    SESSION_LIFETIME_SECS,
};
use game_zone::HttpStatus;
use jsonwebtoken::{decode, decode_header, Algorithm, DecodingKey, Validation};

fn clock() -> i64 {
    std::time::SystemTime::now()
        .duration_since(std::time::UNIX_EPOCH)
        .unwrap()
        .as_secs() as i64
}

#[test]
fn session_lasts_fourteen_days() {
    assert_eq!(SESSION_LIFETIME_SECS, 14 * 24 * 60 * 60);
    assert_eq!(AUTH_COOKIE_NAME, "auth_token");
}

#[test]
fn claims_are_issued_now_and_expire_after_the_lifetime() {
    let c = claims_at(1_700_000_000, "alice".to_string());
    assert_eq!(
        c,
        Claims { exp: 1_701_209_600, iat: 1_700_000_000, email: "alice".to_string() }
    );
}

#[test]
fn claims_json_is_written_field_by_field() {
    let c = Claims { exp: 1_701_209_600, iat: 1_700_000_000, email: "alice".to_string() };
    assert_eq!(claims_json(&c), "{\"exp\":1701209600,\"iat\":1700000000,\"email\":\"alice\"}");
}

#[test]
fn claims_json_of_zero_and_empty_email() {
    let c = Claims { exp: 0, iat: 9, email: String::new() };
    assert_eq!(claims_json(&c), "{\"exp\":0,\"iat\":9,\"email\":\"\"}");
}

#[test]
fn claims_json_escapes_like_serde_json() {
    let emails = [
        "quote\"back\\slash",
        "tab\tnew\nline\rcr",
        "bell\u{7}bs\u{8}ff\u{c}us\u{1f}del\u{7f}",
        "grüße/名前",
        "\u{0}",
    ];
    for email in emails {
        let c = Claims { exp: 12, iat: 345, email: email.to_string() };
        let expected = format!(
            "{{\"exp\":12,\"iat\":345,\"email\":{}}}",
            serde_json::to_string(email).unwrap()
        );
        assert_eq!(claims_json(&c), expected);
    }
}

#[test]
fn claims_json_parses_back_to_the_claims() {
    let c = Claims { exp: usize::MAX, iat: 1, email: "a\"b\\c\u{1}".to_string() };
    let v: serde_json::Value = serde_json::from_str(&claims_json(&c)).unwrap();
    assert_eq!(v["exp"].as_u64(), Some(usize::MAX as u64));
    assert_eq!(v["iat"].as_u64(), Some(1));
    assert_eq!(v["email"].as_str(), Some("a\"b\\c\u{1}"));
}

#[test]
fn encoded_token_verifies_and_carries_the_claims() {
    let now = clock();
    let token = encode_jwt_at(now, "bob".to_string(), "secret").unwrap();
    let header = decode_header(&token).unwrap();
    assert_eq!(header.alg, Algorithm::HS256);
    let data = decode::<serde_json::Value>(
        &token,
        &DecodingKey::from_secret(b"secret"),
        &Validation::default(),
    )
    .unwrap();
    assert_eq!(data.claims["email"].as_str(), Some("bob"));
    assert_eq!(data.claims["iat"].as_i64(), Some(now));
    assert_eq!(data.claims["exp"].as_i64(), Some(now + SESSION_LIFETIME_SECS));
}

#[test]
fn encoded_token_does_not_verify_under_another_secret() {
    let token = encode_jwt_at(clock(), "bob".to_string(), "secret").unwrap();
    assert!(decode::<serde_json::Value>(
        &token,
        &DecodingKey::from_secret(b"other"),
        &Validation::default(),
    )
    .is_err());
}

#[test]
fn encoding_is_a_function_of_time_name_and_secret() {
    let a = encode_jwt_at(1_700_000_000, "carol".to_string(), "k").unwrap();
    let b = encode_jwt_at(1_700_000_000, "carol".to_string(), "k").unwrap();
    let c = encode_jwt_at(1_700_000_001, "carol".to_string(), "k").unwrap();
    assert_eq!(a, b);
    assert_ne!(a, c);
    assert_eq!(a.split('.').count(), 3);
}

#[test]
fn no_token_where_the_expiry_overflows() {
    assert_eq!(
        encode_jwt_at(i64::MAX, "dave".to_string(), "k"),
        Err(HttpStatus::InternalServerError)
    );
}

#[test]
fn token_is_issued_up_to_the_latest_representable_expiry() {
    assert!(encode_jwt_at(i64::MAX - SESSION_LIFETIME_SECS, "dave".to_string(), "k").is_ok());
    assert!(encode_jwt_at(i64::MAX - SESSION_LIFETIME_SECS + 1, "dave".to_string(), "k").is_err());
}

#[test]
fn encode_jwt_reads_the_clock() {
    let before = clock();
    let token = encode_jwt("erin".to_string(), "s").unwrap();
    let after = clock();
    let data = decode::<serde_json::Value>(
        &token,
        &DecodingKey::from_secret(b"s"),
        &Validation::default(),
    )
    .unwrap();
    let iat = data.claims["iat"].as_i64().unwrap();
    assert!(before <= iat && iat <= after);
}

#[test]
fn session_cookie_is_http_only_site_wide_for_fourteen_days() {
    assert_eq!(
        session_cookie("abc.def.ghi"),
        "auth_token=abc.def.ghi; HttpOnly; Path=/; Max-Age=1209600"
    );
}

#[test]
fn status_codes() {
    assert_eq!(HttpStatus::Success.code(), 200);
    assert_eq!(HttpStatus::Found.code(), 302);
    assert_eq!(HttpStatus::NotFound.code(), 404);
    assert_eq!(HttpStatus::InternalServerError.code(), 500);
}

#[test]
fn hashed_password_verifies_with_the_same_password_only() {
    let h = game_zone::auth::hash_password("s3cret").unwrap();
    assert!(h.starts_with("$2b$12$"));
    assert_eq!(h.chars().count(), 60);
    assert!(bcrypt::verify("s3cret", &h).unwrap());
    assert!(!bcrypt::verify("s3creT", &h).unwrap());
}

#[test]
fn password_cost_is_the_bcrypt_default() {
    assert_eq!(game_zone::auth::PASSWORD_HASH_COST, bcrypt::DEFAULT_COST);
}

#[test]
fn clock_readings_up_to_the_last_representable_second() {
    assert_eq!(clock_reading(Some(0)), Some(0));
    assert_eq!(clock_reading(Some(1_700_000_000)), Some(1_700_000_000));
    assert_eq!(clock_reading(Some(8_210_266_876_799)), Some(8_210_266_876_799));
    assert_eq!(clock_reading(Some(8_210_266_876_800)), None);
    assert_eq!(clock_reading(None), None);
}

#[test]
fn token_from_a_clock_reading() {
    assert_eq!(
        encode_jwt_with_clock(Some(1_700_000_000), "fay".to_string(), "k"),
        encode_jwt_at(1_700_000_000, "fay".to_string(), "k")
    );
    assert!(encode_jwt_with_clock(Some(1_700_000_000), "fay".to_string(), "").is_ok());
    assert_eq!(
        encode_jwt_with_clock(None, "fay".to_string(), "k"),
        Err(HttpStatus::InternalServerError)
    );
    assert_eq!(
        encode_jwt_with_clock(Some(u64::MAX), "fay".to_string(), "k"),
        Err(HttpStatus::InternalServerError)
    );
}
