use std::time::Duration;

use duration_str::parse;
use rcli::Claims;

#[test]
fn test_time() {
    let duration = parse("1d").unwrap();
    assert_eq!(duration, Duration::new(24 * 60 * 60, 0));
}

#[test]
fn test_claims() {
    let claims = Claims::new("aud".to_string(), 1, "sub".to_string());
    assert_eq!(claims.aud, "aud");
    assert_eq!(claims.exp, 1);
    assert_eq!(claims.sub, "sub");
}

#[test]
fn test_try_new() {
    let claims = Claims::try_new("aud".to_string(), "1d", "sub".to_string()).unwrap();
    assert_eq!(claims.aud, "aud");
    let now = jsonwebtoken::get_current_timestamp();
    assert_eq!(claims.exp, 86400 + now);
    assert_eq!(claims.sub, "sub");
}

#[test]
fn try_new_rejects_malformed_duration() {
    assert!(Claims::try_new("aud".to_string(), "not a duration", "sub".to_string()).is_err());
}
