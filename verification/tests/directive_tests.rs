//! Tests of the directive grammar: extraction, cookie attributes, and
//! max-age parsing.

use cspy::checks::cookies::{
    extract_cookie_name, extract_samesite, is_sensitive_cookie, SameSite,
};
use cspy::checks::csp::extract_directive;
use cspy::checks::hsts;
use cspy::checks::xframe::extract_frame_ancestors;
use cspy::directive::extract;

#[test]
fn test_extract_directive() {
    let csp = "default-src 'self'; script-src 'self' cdn.example.com; object-src 'none'";

    assert_eq!(
        extract_directive(csp, "script-src"),
        Some("'self' cdn.example.com".to_string())
    );

    assert_eq!(extract_directive(csp, "default-src"), Some("'self'".to_string()));
}

#[test]
fn test_extract_cookie_name() {
    assert_eq!(extract_cookie_name("session=abc123"), "session");
    assert_eq!(extract_cookie_name("token=xyz; Secure; HttpOnly"), "token");
}

#[test]
fn test_is_sensitive_cookie() {
    assert!(is_sensitive_cookie("sessionid"));
    assert!(is_sensitive_cookie("auth_token"));
    assert!(is_sensitive_cookie("__Secure-ID"));
    assert!(!is_sensitive_cookie("theme"));
}

#[test]
fn test_extract_samesite() {
    assert!(matches!(extract_samesite("session=123; SameSite=Strict"), SameSite::Strict));
    assert!(matches!(extract_samesite("session=123; SameSite=Lax"), SameSite::Lax));
    assert!(matches!(extract_samesite("session=123; SameSite=None"), SameSite::NoneValue));
    assert!(matches!(extract_samesite("session=123"), SameSite::Missing));
}

#[test]
fn test_extract_max_age() {
    assert_eq!(
        hsts::extract_max_age("max-age=31536000; includeSubDomains"),
        Some(31536000)
    );

    assert_eq!(hsts::extract_max_age("max-age=3600"), Some(3600));

    assert_eq!(
        hsts::extract_max_age("includeSubDomains; max-age=86400; preload"),
        Some(86400)
    );

    assert_eq!(hsts::extract_max_age("includeSubDomains"), None);
}

#[test]
fn test_extract_frame_ancestors() {
    let csp = "default-src 'self'; frame-ancestors 'self' https://example.com; script-src 'self'";
    assert_eq!(
        extract_frame_ancestors(csp),
        Some("'self' https://example.com".to_string())
    );

    let csp2 = "frame-ancestors 'none'";
    assert_eq!(extract_frame_ancestors(csp2), Some("'none'".to_string()));
}

#[test]
fn test_extract_is_deterministic_and_total() {
    let raw = "max-age=300; includeSubDomains";
    let first = extract(raw, "max-age");
    let second = extract(raw, "max-age");
    assert_eq!(first, second);
    assert_eq!(first, Some("300".to_string()));
    // An absent directive name is an answer, not an error.
    assert_eq!(extract(raw, "preload"), None);
    assert_eq!(extract("", "max-age"), None);
}

#[test]
fn test_extract_rejects_partial_token_match() {
    // A longer directive token must not satisfy a lookup for its prefix.
    let csp = "default-src-extended 'self'";
    assert_eq!(extract_directive(csp, "default-src"), None);
    let csp2 = "default-src 'self'; default-src-extended 'none'";
    assert_eq!(extract_directive(csp2, "default-src"), Some("'self'".to_string()));
}

#[test]
fn test_extract_value_forms() {
    // Name/value separators: `=`, whitespace, or a run of both.
    assert_eq!(extract("max-age = 300", "max-age"), Some("300".to_string()));
    assert_eq!(extract("Max-Age=300", "max-age"), Some("300".to_string()));
    // A directive with no value yields the empty value, not absence.
    assert_eq!(extract("upgrade-insecure-requests", "upgrade-insecure-requests"), Some("".to_string()));
}

#[test]
fn test_max_age_i64_limits() {
    assert_eq!(
        hsts::extract_max_age("max-age=9223372036854775807"),
        Some(i64::MAX)
    );
    assert_eq!(hsts::extract_max_age("max-age=9223372036854775808"), None);
    assert_eq!(
        hsts::extract_max_age("max-age=-9223372036854775808"),
        Some(i64::MIN)
    );
    assert_eq!(hsts::extract_max_age("max-age=-9223372036854775809"), None);
}

#[test]
fn test_max_age_malformed_values() {
    // Unreadable numbers count as an absent directive.
    assert_eq!(hsts::extract_max_age("max-age="), None);
    assert_eq!(hsts::extract_max_age("max-age=soon"), None);
    assert_eq!(hsts::extract_max_age("max-age=99999999999999999999999"), None);
    assert_eq!(hsts::extract_max_age("max-age=-5"), Some(-5));
    assert_eq!(hsts::extract_max_age("max-age=+60"), Some(60));
    assert_eq!(hsts::extract_max_age("max-age=0031536000"), Some(31536000));
}
