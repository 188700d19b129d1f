use auth_service::config::Config;
use auth_service::errors::AuthError;
use auth_service::gate::authorize;
use auth_service::jwt::generate_token;

fn test_config(secret: &str, ttl_minutes: i64) -> Config {
    Config {
        database_url: String::from("sqlite://test.db"),
        jwt_secret: String::from(secret),
        jwt_expires_in: ttl_minutes,
        host: String::from("127.0.0.1"),
        port: 8080,
    }
}

const NOW: i64 = 1_700_000_000;

#[test]
fn missing_header_rejected() {
    let cfg = test_config("top-secret", 60);
    assert_eq!(authorize(None, &cfg, NOW).unwrap_err(), AuthError::NoToken);
}

#[test]
fn bad_prefix_rejected() {
    let cfg = test_config("top-secret", 60);
    for bad in ["Token abc", "bearer abc", "Bearer", "Bear", "", "Basic dXNlcjpwdw=="] {
        assert_eq!(authorize(Some(bad), &cfg, NOW).unwrap_err(), AuthError::InvalidTokenFormat);
    }
}

#[test]
fn garbage_token_rejected() {
    let cfg = test_config("top-secret", 60);
    assert_eq!(
        authorize(Some("Bearer not.a.token"), &cfg, NOW).unwrap_err(),
        AuthError::InvalidToken
    );
}

#[test]
fn expired_token_rejected_at_gate() {
    let cfg = test_config("top-secret", 60);
    let token = generate_token(9, "user", &cfg, NOW).unwrap();
    let header = format!("Bearer {}", token);
    assert_eq!(
        authorize(Some(&header), &cfg, NOW + 3600).unwrap_err(),
        AuthError::InvalidToken
    );
}

#[test]
fn foreign_secret_rejected_at_gate() {
    let cfg = test_config("top-secret", 60);
    let other = test_config("other-secret", 60);
    let token = generate_token(9, "user", &other, NOW).unwrap();
    let header = format!("Bearer {}", token);
    assert_eq!(authorize(Some(&header), &cfg, NOW).unwrap_err(), AuthError::InvalidToken);
}

#[test]
fn valid_token_passes_with_identity() {
    let cfg = test_config("top-secret", 60);
    let token = generate_token(42, "admin", &cfg, NOW).unwrap();
    let header = format!("Bearer {}", token);
    let ctx = authorize(Some(&header), &cfg, NOW + 100).unwrap();
    assert_eq!(ctx.user_id, 42);
    assert_eq!(ctx.role, "admin");
}
