use auth_service::config::Config;
use auth_service::errors::AuthError;
use auth_service::jwt::{generate_token, validate_token};

fn test_config(secret: &str, ttl_minutes: i64) -> Config {
    Config {
        database_url: String::from("sqlite://test.db"),
        jwt_secret: String::from(secret),
        jwt_expires_in: ttl_minutes,
        host: String::from("127.0.0.1"),
        port: 8080,
    }
}

const NOW: i64 = 1_700_000_000;

#[test]
fn issue_validate_roundtrip() {
    let cfg = test_config("top-secret", 60);
    let token = generate_token(7, "admin", &cfg, NOW).unwrap();
    let claims = validate_token(&token, &cfg, NOW).unwrap();
    assert_eq!(claims.sub, "7");
    assert_eq!(claims.role, "admin");
    assert_eq!(claims.iat, NOW as u64);
    assert_eq!(claims.exp, (NOW + 3600) as u64);
}

#[test]
fn negative_id_subject_roundtrip() {
    let cfg = test_config("top-secret", 5);
    let token = generate_token(-42, "user", &cfg, NOW).unwrap();
    let claims = validate_token(&token, &cfg, NOW).unwrap();
    assert_eq!(claims.sub, "-42");
    assert_eq!(claims.exp, (NOW + 300) as u64);
}

#[test]
fn wrong_secret_rejected() {
    let cfg = test_config("secret-one", 60);
    let other = test_config("secret-two", 60);
    let token = generate_token(7, "user", &cfg, NOW).unwrap();
    assert_eq!(validate_token(&token, &other, NOW).unwrap_err(), AuthError::InvalidToken);
}

#[test]
fn malformed_token_rejected() {
    let cfg = test_config("top-secret", 60);
    for bad in ["", "garbage", "a.b", "a.b.c", "....", "Bearer x"] {
        assert_eq!(validate_token(bad, &cfg, NOW).unwrap_err(), AuthError::InvalidToken);
    }
}

#[test]
fn tampered_token_rejected() {
    let cfg = test_config("top-secret", 60);
    let token = generate_token(7, "user", &cfg, NOW).unwrap();
    // Flip one character in the payload part.
    let mut parts: Vec<String> = token.split('.').map(String::from).collect();
    assert_eq!(parts.len(), 3);
    let payload = parts[1].clone();
    let flipped: String = payload
        .char_indices()
        .map(|(i, c)| if i == payload.len() / 2 { if c == 'A' { 'B' } else { 'A' } } else { c })
        .collect();
    assert_ne!(payload, flipped);
    parts[1] = flipped;
    let tampered = parts.join(".");
    assert_eq!(validate_token(&tampered, &cfg, NOW).unwrap_err(), AuthError::InvalidToken);
}

#[test]
fn expired_token_rejected() {
    let cfg = test_config("top-secret", 60);
    let token = generate_token(7, "user", &cfg, NOW).unwrap();
    // Expiry is NOW + 3600; validation requires expiry strictly after the clock.
    assert!(validate_token(&token, &cfg, NOW + 3599).is_ok());
    assert_eq!(validate_token(&token, &cfg, NOW + 3600).unwrap_err(), AuthError::InvalidToken);
    assert_eq!(validate_token(&token, &cfg, NOW + 7200).unwrap_err(), AuthError::InvalidToken);
}

#[test]
fn unrepresentable_expiry_fails_without_panic() {
    let cfg = test_config("top-secret", i64::MAX);
    assert_eq!(generate_token(7, "user", &cfg, NOW).unwrap_err(), AuthError::TokenCreation);
    let cfg2 = test_config("top-secret", 60);
    assert_eq!(generate_token(7, "user", &cfg2, -1).unwrap_err(), AuthError::TokenCreation);
}
