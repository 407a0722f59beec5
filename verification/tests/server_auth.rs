use chrome_host::server::api::auth::{constant_time_eq, require_token};

#[test]
fn constant_time_eq_basics() {
    assert!(constant_time_eq(b"abc", b"abc"));
    assert!(!constant_time_eq(b"abc", b"abd"));
    assert!(!constant_time_eq(b"abc", b"ab"));
    assert!(!constant_time_eq(b"", b"a"));
    assert!(constant_time_eq(b"", b""));
}

#[test]
fn bearer_token_must_match_exactly() {
    assert!(require_token("/api/v1/instances", Some("Bearer s3cret"), "s3cret").is_ok());
    assert!(require_token("/api/v1/instances", Some("Bearer s3cre"), "s3cret").is_err());
    assert!(require_token("/api/v1/instances", Some("s3cret"), "s3cret").is_err());
    assert!(require_token("/api/v1/instances", None, "s3cret").is_err());
}

#[test]
fn empty_configured_token_rejects_everyone() {
    assert!(require_token("/api/v1/health", Some("Bearer "), "").is_err());
    assert!(require_token("/api/v1/health", None, "").is_err());
}

#[test]
fn session_paths_skip_the_bearer_check() {
    assert!(require_token("/cdp/ins_a/sid/json/version", None, "").is_ok());
    assert!(require_token("/cdp/", None, "tok").is_ok());
}

#[test]
fn refusal_is_unauthorized() {
    let e = require_token("/api/v1/health", None, "tok").unwrap_err();
    assert_eq!(e.status(), 401);
    assert_eq!(e.code(), "UNAUTHORIZED");
}
