//! Tests of the finding model, the dispatcher and URL normalisation.

use cspy::headers::HeaderSet;
use cspy::model::Severity;
use cspy::scan::{analyze, normalize_url, run_checks, select_targets};

#[test]
fn test_severity_labels_and_ranks() {
    assert_eq!(Severity::Critical.as_str(), "CRITICAL");
    assert_eq!(Severity::High.as_str(), "HIGH");
    assert_eq!(Severity::Medium.as_str(), "MEDIUM");
    assert_eq!(Severity::Low.as_str(), "LOW");
    assert_eq!(Severity::Info.as_str(), "INFO");
    assert!(Severity::Critical.rank() > Severity::High.rank());
    assert!(Severity::High.rank() > Severity::Medium.rank());
    assert!(Severity::Medium.rank() > Severity::Low.rank());
    assert!(Severity::Low.rank() > Severity::Info.rank());
}

#[test]
fn test_dispatcher_order_on_empty_snapshot() {
    let headers = HeaderSet::new();
    let issues = run_checks(&headers);
    let categories: Vec<&str> = issues.iter().map(|i| i.category.as_str()).collect();
    assert_eq!(
        categories,
        vec![
            "CSP",
            "HSTS",
            "X-Frame-Options",
            "X-Content-Type-Options",
            "Referrer-Policy",
            "Permissions-Policy",
        ]
    );
}

#[test]
fn test_severity_counts_sum_to_issue_count() {
    let mut headers = HeaderSet::new();
    headers.insert("access-control-allow-origin", "*");
    headers.insert("access-control-allow-credentials", "true");
    headers.insert("set-cookie", "session=1");

    let result = analyze("https://example.com/".to_string(), 200, &headers);
    let total = result.count_by_severity(&Severity::Critical)
        + result.count_by_severity(&Severity::High)
        + result.count_by_severity(&Severity::Medium)
        + result.count_by_severity(&Severity::Low)
        + result.count_by_severity(&Severity::Info);
    assert_eq!(total, result.issues.len());
    assert!(result.has_critical());
    assert_eq!(result.url, "https://example.com/");
    assert_eq!(result.status, 200);
}

#[test]
fn test_has_critical_is_false_without_critical_findings() {
    let headers = HeaderSet::new();
    let result = analyze("https://example.com/".to_string(), 204, &headers);
    assert!(!result.has_critical());
    assert_eq!(result.count_by_severity(&Severity::Critical), 0);
}

#[test]
fn test_finding_fields_are_nonempty() {
    let mut headers = HeaderSet::new();
    headers.insert("content-security-policy", "script-src * 'unsafe-inline' 'unsafe-eval' data:");
    headers.insert("access-control-allow-origin", "*");
    headers.insert("access-control-allow-credentials", "true");
    headers.insert("strict-transport-security", "max-age=3600");
    headers.insert("x-frame-options", "ALLOWALL");
    headers.insert("set-cookie", "__Host-session=1; Domain=example.com");
    headers.insert("x-xss-protection", "0");

    let issues = run_checks(&headers);
    assert!(issues.len() > 10);
    for issue in &issues {
        assert!(!issue.category.is_empty());
        assert!(!issue.message.is_empty());
        assert!(!issue.recommendation.is_empty());
    }
}

#[test]
fn test_normalize_url() {
    assert_eq!(normalize_url("example.com"), "https://example.com");
    assert_eq!(normalize_url("http://example.com"), "http://example.com");
    assert_eq!(normalize_url("https://example.com"), "https://example.com");
}

#[test]
fn test_select_targets_filters_lines() {
    let text = "example.com\n\n# a comment\n  https://a.example  \r\nb.example";
    assert_eq!(
        select_targets(text),
        vec![
            "example.com".to_string(),
            "https://a.example".to_string(),
            "b.example".to_string(),
        ]
    );
    assert_eq!(select_targets(""), Vec::<String>::new());
    assert_eq!(select_targets("# only\n   \n"), Vec::<String>::new());
}

#[test]
fn test_header_lookup_is_case_insensitive() {
    let mut headers = HeaderSet::new();
    headers.insert("Content-Security-Policy", "default-src 'self'");
    assert!(headers.has("content-security-policy"));
    assert_eq!(
        headers.get("CONTENT-SECURITY-POLICY").map(|v| v.as_str()),
        Some("default-src 'self'")
    );
    assert_eq!(headers.len(), 1);
}

#[test]
fn test_get_all_keeps_order_and_duplicates() {
    let mut headers = HeaderSet::new();
    headers.insert("Set-Cookie", "a=1");
    headers.insert("x-other", "y");
    headers.insert("set-cookie", "b=2");
    let values = headers.get_all("SET-COOKIE");
    assert_eq!(values, vec!["a=1".to_string(), "b=2".to_string()]);
}
