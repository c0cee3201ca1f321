use axum::http::header::AUTHORIZATION;
use axum::http::{HeaderMap, HeaderValue};
use stock_simulation_engine::auth::types::{Claims, RegisterInfo, ValidationErrors};
use stock_simulation_engine::auth::validation::{
    extract_bearer_token, hash_password, login_claims, user_id_from_claims, verify_password,
};
use stock_simulation_engine::status::StatusCode;

#[test]
fn hash_password_and_verify_roundtrip() {
    let password = "test_password_123";
    let hash = hash_password(password).expect("hashing should succeed");
    let valid = verify_password(password, &hash).expect("verification should succeed");
    assert!(valid);

    let invalid = verify_password("wrong_password", &hash).expect("verification should succeed");
    assert!(!invalid);
}

#[test]
fn hash_password_salts_each_hash() {
    let a = hash_password("same password").unwrap();
    let b = hash_password("same password").unwrap();
    assert_ne!(a, b);
    assert!(a.starts_with("$argon2id$"));
    assert_eq!(verify_password("same password", &b), Ok(true));
}

#[test]
fn verify_password_rejects_unparsable_hash() {
    assert_eq!(verify_password("pw", "not a phc string"), Err(StatusCode::UNAUTHORIZED));
}

#[test]
fn validate_register_input_valid() {
    let info = RegisterInfo {
        username: "validuser".to_string(),
        email: "valid@example.com".to_string(),
        password: "password123".to_string(),
    };
    let result = info.validate();
    assert!(result.is_ok());
}

#[test]
fn validate_register_input_invalid_email() {
    let info = RegisterInfo {
        username: "validuser".to_string(),
        email: "not-an-email".to_string(),
        password: "password123".to_string(),
    };
    let result = info.validate();
    assert!(result.is_err());
}

#[test]
fn validate_register_input_short_password() {
    let info = RegisterInfo {
        username: "validuser".to_string(),
        email: "valid@example.com".to_string(),
        password: "short".to_string(),
    };
    let result = info.validate();
    assert!(result.is_err());
}

#[test]
fn validate_register_input_empty_username() {
    let info = RegisterInfo {
        username: "".to_string(),
        email: "valid@example.com".to_string(),
        password: "password123".to_string(),
    };
    let result = info.validate();
    assert!(result.is_err());
}

#[test]
fn validate_register_input_names_every_failing_field() {
    let info = RegisterInfo {
        username: "".to_string(),
        email: "abc@".to_string(),
        password: "12345".to_string(),
    };
    assert_eq!(
        info.validate(),
        Err(ValidationErrors { username: true, email: true, password: true })
    );
    // Lengths count characters, not bytes: six two-byte characters pass.
    let info = RegisterInfo {
        username: "é".to_string(),
        email: "a@b.com".to_string(),
        password: "éééééé".to_string(),
    };
    assert_eq!(info.validate(), Ok(()));
}

#[test]
fn login_claims_expire_after_one_hour() {
    let c = login_claims("test@example.com", "123e4567-e89b-12d3-a456-426614174000", 1_700_000_000);
    assert_eq!(c.sub, "test@example.com");
    assert_eq!(c.user_id, "123e4567-e89b-12d3-a456-426614174000");
    assert_eq!(c.exp, 1_700_003_600);
}

#[test]
fn user_id_from_claims_reads_the_user_id_claim() {
    let c = Claims {
        sub: "test@example.com".to_string(),
        exp: 0,
        user_id: "123e4567-e89b-12d3-a456-426614174000".to_string(),
    };
    assert_eq!(user_id_from_claims(&c), Ok(0x123e4567_e89b_12d3_a456_426614174000u128));
    let c = Claims { sub: "x".to_string(), exp: 0, user_id: "test@example.com".to_string() };
    assert_eq!(user_id_from_claims(&c), Err(StatusCode::UNAUTHORIZED));
}

fn headers_with(value: &'static str) -> HeaderMap {
    let mut h = HeaderMap::new();
    h.insert(AUTHORIZATION, HeaderValue::from_static(value));
    h
}

#[test]
fn extract_bearer_token_strips_the_prefix() {
    assert_eq!(extract_bearer_token(&headers_with("Bearer abc.def.ghi")), Ok("abc.def.ghi".to_string()));
    assert_eq!(extract_bearer_token(&headers_with("Bearer ")), Ok("".to_string()));
}

#[test]
fn extract_bearer_token_rejects_missing_or_malformed_headers() {
    assert_eq!(extract_bearer_token(&HeaderMap::new()), Err(StatusCode::UNAUTHORIZED));
    assert_eq!(extract_bearer_token(&headers_with("Basic abc")), Err(StatusCode::UNAUTHORIZED));
    assert_eq!(extract_bearer_token(&headers_with("bearer abc")), Err(StatusCode::UNAUTHORIZED));
    assert_eq!(extract_bearer_token(&headers_with("Bearer")), Err(StatusCode::UNAUTHORIZED));
    let mut h = HeaderMap::new();
    h.insert(AUTHORIZATION, HeaderValue::from_bytes(b"Bearer \xff").unwrap());
    assert_eq!(extract_bearer_token(&h), Err(StatusCode::UNAUTHORIZED));
}

#[test]
fn extract_bearer_token_reads_the_first_value() {
    let mut h = HeaderMap::new();
    h.append(AUTHORIZATION, HeaderValue::from_static("Bearer first"));
    h.append(AUTHORIZATION, HeaderValue::from_static("Bearer second"));
    assert_eq!(extract_bearer_token(&h), Ok("first".to_string()));
}
