use auth_service::config::Config;
use auth_service::errors::AuthError;

fn s(v: &str) -> Option<String> {
    Some(String::from(v))
}

#[test]
fn defaults_applied() {
    let cfg = Config::from_parts(s("sqlite://app.db"), s("top-secret"), None, None, None).unwrap();
    assert_eq!(cfg.database_url, "sqlite://app.db");
    assert_eq!(cfg.jwt_secret, "top-secret");
    assert_eq!(cfg.jwt_expires_in, 60);
    assert_eq!(cfg.host, "127.0.0.1");
    assert_eq!(cfg.port, 8080);
}

#[test]
fn explicit_values_parsed() {
    let cfg = Config::from_parts(
        s("postgres://db"),
        s("k"),
        s("30"),
        s("0.0.0.0"),
        s("9090"),
    )
    .unwrap();
    assert_eq!(cfg.jwt_expires_in, 30);
    assert_eq!(cfg.host, "0.0.0.0");
    assert_eq!(cfg.port, 9090);
}

#[test]
fn missing_required_values_fail_fast() {
    assert!(Config::from_parts(None, s("k"), None, None, None).is_none());
    assert!(Config::from_parts(s("db"), None, None, None, None).is_none());
}

#[test]
fn unparsable_numbers_rejected() {
    assert!(Config::from_parts(s("db"), s("k"), s("abc"), None, None).is_none());
    assert!(Config::from_parts(s("db"), s("k"), s("60x"), None, None).is_none());
    assert!(Config::from_parts(s("db"), s("k"), None, None, s("70000")).is_none());
    assert!(Config::from_parts(s("db"), s("k"), None, None, s("-1")).is_none());
}

#[test]
fn std_number_grammar_accepted() {
    // The values the standard library's parse accepts are accepted here.
    let cfg = Config::from_parts(s("db"), s("k"), s("0060"), None, s("0080")).unwrap();
    assert_eq!(cfg.jwt_expires_in, 60);
    assert_eq!(cfg.port, 80);
    let cfg = Config::from_parts(s("db"), s("k"), s("+60"), None, s("+9090")).unwrap();
    assert_eq!(cfg.jwt_expires_in, 60);
    assert_eq!(cfg.port, 9090);
    let cfg = Config::from_parts(s("db"), s("k"), s("-0"), None, None).unwrap();
    assert_eq!(cfg.jwt_expires_in, 0);
}

#[test]
fn error_messages_are_stable() {
    assert_eq!(AuthError::Conflict.message(), "User with that email or username already exists");
    assert_eq!(AuthError::Conflict.status_code(), 409);
    assert_eq!(AuthError::NoToken.message(), "No authentication token provided");
    assert_eq!(AuthError::InvalidTokenFormat.message(), "Invalid token format");
    assert_eq!(AuthError::InvalidToken.message(), "Invalid or expired token");
    assert_eq!(AuthError::InvalidToken.status_code(), 401);
    assert_eq!(AuthError::TokenCreation.message(), "Failed to generate authentication token");
    assert_eq!(AuthError::Internal.status_code(), 500);
}
