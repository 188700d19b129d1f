use auth_service::password::{hash_password, hash_then_check, verify_password};

#[test]
fn hash_then_verify_roundtrip() {
    let hash = hash_password("secret123").unwrap();
    assert!(verify_password(&hash, "secret123"));
    assert!(!verify_password(&hash, "secret124"));
    assert!(!verify_password(&hash, ""));
}

#[test]
fn two_hashes_differ_but_both_verify() {
    let h1 = hash_password("correct horse battery staple").unwrap();
    let h2 = hash_password("correct horse battery staple").unwrap();
    assert_ne!(h1, h2);
    assert!(verify_password(&h1, "correct horse battery staple"));
    assert!(verify_password(&h2, "correct horse battery staple"));
}

#[test]
fn fresh_hash_always_checks() {
    assert!(hash_then_check(""));
    assert!(hash_then_check("secret123"));
}

#[test]
fn hash_is_phc_self_describing() {
    let hash = hash_password("pw").unwrap();
    assert!(hash.starts_with("$argon2"));
}

#[test]
fn malformed_hash_fails_closed() {
    assert!(!verify_password("not-a-phc-hash", "pw"));
    assert!(!verify_password("", "pw"));
    assert!(!verify_password("$argon2id$v=19$broken", "pw"));
}
