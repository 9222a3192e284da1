use noise_cymk::http::is_authorized;
use noise_cymk::state::{token_from, Settings};
use noise_cymk::text::{text_contains, text_eq};
use std::path::PathBuf;

#[test]
fn default_settings() {
    let s = Settings::with_defaults("tok".to_string(), PathBuf::from("/tmp/x"));
    assert!(!s.conflict_safe);
    assert!(!s.http_enabled);
    assert_eq!(s.http_port, 7878);
    assert_eq!(s.http_token, "tok");
    assert_eq!(s.capture_fps, 30);
    assert_eq!(s.data_dir, PathBuf::from("/tmp/x"));
}

#[test]
fn token_is_hex_of_clock_and_pid() {
    assert_eq!(token_from(0, 0), "00");
    assert_eq!(token_from(255, 4096), "ff1000");
    assert_eq!(
        token_from(1_700_000_000_123_456_789, 4242),
        format!("{:x}{:x}", 1_700_000_000_123_456_789u128, 4242u32)
    );
    let long = token_from(u128::MAX, u32::MAX);
    assert_eq!(long.len(), 32);
    assert_eq!(long, "ffffffffffffffffffffffffffffffff");
}

#[test]
fn bearer_token_check() {
    assert!(is_authorized(Some("Bearer secret"), "secret"));
    assert!(!is_authorized(Some("Bearer secret2"), "secret"));
    assert!(!is_authorized(Some("bearer secret"), "secret"));
    assert!(!is_authorized(None, "secret"));
    assert!(!is_authorized(Some(""), ""));
    assert!(is_authorized(Some("Bearer "), ""));
}

#[test]
fn text_helpers() {
    assert!(text_eq("abc", "abc"));
    assert!(!text_eq("abc", "abd"));
    assert!(!text_eq("abc", "ab"));
    assert!(text_contains("DXGI frame timeout", "timeout"));
    assert!(text_contains("x", ""));
    assert!(!text_contains("time", "timeout"));
    assert!(text_contains("héllo wörld", "wö"));
}
