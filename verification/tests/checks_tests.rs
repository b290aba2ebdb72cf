//! Tests of the rule groups over concrete header snapshots.

use cspy::checks::{cookies, cors, csp, hsts, misc, xframe};
use cspy::headers::HeaderSet;
use cspy::model::Severity;

#[test]
fn test_wildcard_with_credentials() {
    let mut headers = HeaderSet::new();
    headers.insert("access-control-allow-origin", "*");
    headers.insert("access-control-allow-credentials", "true");

    let issues = cors::check(&headers);
    assert!(issues.iter().any(|i| matches!(i.severity, Severity::Critical)));
}

#[test]
fn test_null_origin() {
    let mut headers = HeaderSet::new();
    headers.insert("access-control-allow-origin", "null");

    let issues = cors::check(&headers);
    assert!(issues.iter().any(|i| matches!(i.severity, Severity::High)));
}

#[test]
fn test_wildcard_without_credentials_only_medium() {
    let mut headers = HeaderSet::new();
    headers.insert("access-control-allow-origin", "*");

    let issues = cors::check(&headers);
    assert!(issues
        .iter()
        .any(|i| matches!(i.severity, Severity::Medium) && i.message == "CORS allows all origins (*)"));
    assert!(!issues.iter().any(|i| matches!(i.severity, Severity::Critical)));
}

#[test]
fn test_short_max_age() {
    let mut headers = HeaderSet::new();
    headers.insert("strict-transport-security", "max-age=3600");

    let issues = hsts::check(&headers);
    assert!(issues.iter().any(|i| i.message.contains("too short")));
}

#[test]
fn test_short_max_age_message_and_info() {
    let mut headers = HeaderSet::new();
    headers.insert("strict-transport-security", "max-age=3600");

    let issues = hsts::check(&headers);
    assert!(issues.iter().any(|i| matches!(i.severity, Severity::Medium)
        && i.message == "HSTS max-age is too short (3600 seconds, ~0 days)"));
    assert!(issues.iter().any(|i| matches!(i.severity, Severity::Info)
        && i.message == "HSTS max-age is less than 1 year"));
}

#[test]
fn test_negative_max_age_message() {
    let mut headers = HeaderSet::new();
    headers.insert("strict-transport-security", "max-age=-86500");

    let issues = hsts::check(&headers);
    assert!(issues.iter().any(|i| matches!(i.severity, Severity::Medium)
        && i.message == "HSTS max-age is too short (-86500 seconds, ~-1 days)"));
}

#[test]
fn test_full_hsts_header_is_clean() {
    let mut headers = HeaderSet::new();
    headers.insert(
        "strict-transport-security",
        "max-age=31536000; includeSubDomains; preload",
    );

    let issues = hsts::check(&headers);
    assert_eq!(issues.len(), 0);
}

#[test]
fn test_missing_csp_single_high_finding() {
    let headers = HeaderSet::new();

    let issues = csp::check(&headers);
    assert_eq!(issues.len(), 1);
    assert!(matches!(issues[0].severity, Severity::High));
    assert_eq!(issues[0].message, "Missing Content-Security-Policy header");
}

#[test]
fn test_csp_wildcard_script_src_is_critical() {
    let mut headers = HeaderSet::new();
    headers.insert(
        "content-security-policy",
        "default-src 'self'; script-src *; object-src 'none'; base-uri 'self'; upgrade-insecure-requests",
    );

    let issues = csp::check(&headers);
    assert!(issues.iter().any(|i| matches!(i.severity, Severity::Critical)
        && i.message == "CSP script-src allows all sources (*)"));
}

#[test]
fn test_csp_leading_standalone_wildcard() {
    let mut headers = HeaderSet::new();
    headers.insert("content-security-policy", "default-src 'self'; script-src * https:");

    let issues = csp::check(&headers);
    assert!(issues.iter().any(|i| matches!(i.severity, Severity::Critical)
        && i.message == "CSP script-src allows all sources (*)"));

    let mut tabbed = HeaderSet::new();
    tabbed.insert("content-security-policy", "script-src\t*\thttps:");
    let issues = csp::check(&tabbed);
    assert!(issues.iter().any(|i| matches!(i.severity, Severity::Critical)));
}

#[test]
fn test_csp_default_src_standalone_wildcard() {
    let mut headers = HeaderSet::new();
    headers.insert("content-security-policy", "default-src * data:; script-src 'self'");

    let issues = csp::check(&headers);
    assert!(issues.iter().any(|i| matches!(i.severity, Severity::High)
        && i.message == "CSP default-src allows all sources (*)"));
}

#[test]
fn test_csp_star_inside_token_is_not_a_wildcard() {
    let mut headers = HeaderSet::new();
    headers.insert("content-security-policy", "default-src 'self'; script-src *.example.com");

    let issues = csp::check(&headers);
    assert!(!issues.iter().any(|i| matches!(i.severity, Severity::Critical)));
}

#[test]
fn test_csp_unsafe_keywords() {
    let mut headers = HeaderSet::new();
    headers.insert(
        "content-security-policy",
        "default-src 'self'; script-src 'self' 'unsafe-inline' 'unsafe-eval'",
    );

    let issues = csp::check(&headers);
    assert!(issues.iter().any(|i| i.message == "CSP allows 'unsafe-inline'"));
    assert!(issues.iter().any(|i| i.message == "CSP allows 'unsafe-eval'"));
}

#[test]
fn test_allowall_detection() {
    let mut headers = HeaderSet::new();
    headers.insert("x-frame-options", "ALLOWALL");

    let issues = xframe::check(&headers);
    assert!(issues.iter().any(|i| matches!(i.severity, Severity::High)));
}

#[test]
fn test_allowall_flagged_whatever_frame_ancestors_says() {
    let mut headers = HeaderSet::new();
    headers.insert("x-frame-options", "ALLOWALL");
    headers.insert("content-security-policy", "frame-ancestors 'none'");

    let issues = xframe::check(&headers);
    assert!(issues.iter().any(|i| matches!(i.severity, Severity::High)
        && i.message == "X-Frame-Options is set to ALLOWALL"));
}

#[test]
fn test_frame_ancestors_wildcard_and_http() {
    let mut headers = HeaderSet::new();
    headers.insert("x-frame-options", "SAMEORIGIN");
    headers.insert(
        "content-security-policy",
        "frame-ancestors * http://example.com",
    );

    let issues = xframe::check(&headers);
    assert!(issues.iter().any(|i| i.message == "CSP frame-ancestors allows all sources (*)"));
    assert!(issues
        .iter()
        .any(|i| i.message == "CSP frame-ancestors allows HTTP (unencrypted) sources"));
}

#[test]
fn test_well_set_cookie_is_clean() {
    let mut headers = HeaderSet::new();
    headers.insert("set-cookie", "id=1; Secure; HttpOnly; SameSite=Strict");

    let issues = cookies::check(&headers);
    assert_eq!(issues.len(), 0);
}

#[test]
fn test_host_prefix_domain_misuse() {
    let mut headers = HeaderSet::new();
    headers.insert("set-cookie", "__Host-id=1; Secure; Domain=example.com; Path=/");

    let issues = cookies::check(&headers);
    assert!(issues.iter().any(|i| matches!(i.severity, Severity::High)
        && i.message == "Cookie '__Host-id' uses __Host- prefix but has Domain attribute"));
}

#[test]
fn test_cookie_secure_is_an_attribute_not_a_substring() {
    let mut headers = HeaderSet::new();
    headers.insert("set-cookie", "pref=secure_mode");

    let issues = cookies::check(&headers);
    assert!(issues.iter().any(|i| matches!(i.severity, Severity::Medium)
        && i.message == "Cookie 'pref' missing Secure flag"));

    let mut prefixed = HeaderSet::new();
    prefixed.insert("set-cookie", "__Host-a=xsecurey; Path=/");
    let issues = cookies::check(&prefixed);
    assert!(issues.iter().any(|i| matches!(i.severity, Severity::High)
        && i.message == "Cookie '__Host-a' uses security prefix but missing Secure flag"));
}

#[test]
fn test_host_prefix_domain_must_be_an_attribute() {
    let mut headers = HeaderSet::new();
    headers.insert(
        "set-cookie",
        "__Host-b=domain=example.com; Secure; Path=/; HttpOnly; SameSite=Strict",
    );

    let issues = cookies::check(&headers);
    assert_eq!(issues.len(), 0);
}

#[test]
fn test_every_set_cookie_line_is_checked() {
    let mut headers = HeaderSet::new();
    headers.insert("set-cookie", "a=1; Secure; HttpOnly; SameSite=Lax");
    headers.insert("set-cookie", "session=2; Secure; SameSite=Lax");

    let issues = cookies::check(&headers);
    assert_eq!(issues.len(), 1);
    assert!(matches!(issues[0].severity, Severity::Medium));
    assert_eq!(issues[0].message, "Cookie 'session' missing HttpOnly flag");
}

#[test]
fn test_cookie_long_expiration_and_samesite_none() {
    let mut headers = HeaderSet::new();
    headers.insert(
        "set-cookie",
        "theme=dark; Secure; HttpOnly; SameSite=None; Max-Age=63072000",
    );

    let issues = cookies::check(&headers);
    assert!(issues.iter().any(|i| matches!(i.severity, Severity::Medium)
        && i.message == "Cookie 'theme' has SameSite=None"));
    assert!(issues.iter().any(|i| matches!(i.severity, Severity::Info)
        && i.message == "Cookie 'theme' has very long expiration (>1 year)"));
}

#[test]
fn test_misc_headers_on_empty_snapshot() {
    let headers = HeaderSet::new();

    let issues = misc::check(&headers);
    let messages: Vec<&str> = issues.iter().map(|i| i.message.as_str()).collect();
    assert_eq!(
        messages,
        vec![
            "Missing X-Content-Type-Options header",
            "Missing Referrer-Policy header",
            "Missing Permissions-Policy header",
        ]
    );
}

#[test]
fn test_disabled_xss_protection_is_flagged() {
    let mut headers = HeaderSet::new();
    headers.insert("x-content-type-options", "nosniff");
    headers.insert("x-xss-protection", "0");
    headers.insert("referrer-policy", "no-referrer");
    headers.insert("permissions-policy", "geolocation=()");

    let issues = misc::check(&headers);
    assert_eq!(issues.len(), 1);
    assert_eq!(issues[0].message, "X-XSS-Protection is disabled");
}

#[test]
fn test_cors_methods_and_preflight_cache() {
    let mut headers = HeaderSet::new();
    headers.insert("access-control-allow-origin", "https://app.example.com");
    headers.insert("access-control-allow-methods", "GET, PUT, DELETE");
    headers.insert("access-control-allow-headers", "*");
    headers.insert("access-control-max-age", "172800");

    let issues = cors::check(&headers);
    assert!(issues
        .iter()
        .any(|i| i.message == "CORS allows potentially dangerous methods (DELETE/PUT)"));
    assert!(issues.iter().any(|i| i.message == "CORS allows all headers (*)"));
    assert!(issues.iter().any(|i| i.message == "CORS preflight cache time is very long"));
}

#[test]
fn test_hsts_missing_max_age_directive() {
    let mut headers = HeaderSet::new();
    headers.insert("strict-transport-security", "includeSubDomains; preload");

    let issues = hsts::check(&headers);
    assert_eq!(issues.len(), 1);
    assert!(matches!(issues[0].severity, Severity::High));
    assert_eq!(issues[0].message, "HSTS header missing max-age directive");
}
