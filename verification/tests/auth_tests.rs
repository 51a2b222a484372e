use mediasoup_server::auth::{constant_time_eq, resolve_user_id, verify_token};
use mediasoup_server::error::MediaSoupError;

#[test]
fn constant_time_eq_matches_identical_secrets() {
    assert!(constant_time_eq(b"s3cret-token", b"s3cret-token"));
    assert!(constant_time_eq(b"", b""));
}

#[test]
fn constant_time_eq_rejects_mismatches_and_length_differences() {
    assert!(!constant_time_eq(b"s3cret-token", b"wrong-token!"));
    assert!(!constant_time_eq(b"short", b"longer-secret"));
    assert!(!constant_time_eq(b"token", b""));
}

#[test]
fn verify_token_without_secret_accepts_anything() {
    assert!(verify_token(&None, "").is_ok());
    assert!(verify_token(&None, "whatever").is_ok());
}

#[test]
fn verify_token_with_secret_requires_exact_match() {
    let secret = Some("s3cret-token".to_string());
    assert!(verify_token(&secret, "s3cret-token").is_ok());
    assert_eq!(
        verify_token(&secret, "s3cret-tokeN"),
        Err(MediaSoupError::InvalidRequest("Invalid authentication token".to_string()))
    );
    assert!(verify_token(&secret, "").is_err());
    assert!(verify_token(&secret, "s3cret-token ").is_err());
}

#[test]
fn resolve_user_id_keeps_a_claimed_id() {
    assert_eq!(resolve_user_id(Some("user-1".to_string())), "user-1");
}

#[test]
fn resolve_user_id_generates_a_uuid_when_missing_or_empty() {
    let a = resolve_user_id(None);
    let b = resolve_user_id(Some(String::new()));
    for id in [&a, &b] {
        assert_eq!(id.len(), 36);
        for (i, c) in id.chars().enumerate() {
            if [8, 13, 18, 23].contains(&i) {
                assert_eq!(c, '-');
            } else {
                assert!(c.is_ascii_hexdigit() && !c.is_ascii_uppercase());
            }
        }
        assert_eq!(id.chars().nth(14), Some('4'));
        assert!(matches!(id.chars().nth(19), Some('8' | '9' | 'a' | 'b')));
    }
    assert_ne!(a, b);
}
