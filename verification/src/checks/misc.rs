//! Auxiliary header rules: X-Content-Type-Options, X-XSS-Protection,
//! Referrer-Policy and Permissions-Policy.

use vstd::prelude::*;
use crate::headers::{h_get, h_has, HeaderSet, HeaderSeq};
use crate::model::{
    all_fields_nonempty, iv, lemma_nonempty_concat, mk_issue, push_issue,
    IssueView, SecurityIssue, Severity,
};
use crate::text::{contains_seq, contains_str};

verus! {

/// The findings of the auxiliary-header rules, in rule order.
pub open spec fn misc_spec(h: HeaderSeq) -> Seq<IssueView> {
    (if !h_has(h, "x-content-type-options"@) {
        seq![
            iv(
                "X-Content-Type-Options"@,
                Severity::Low,
                "Missing X-Content-Type-Options header"@,
                "Add 'X-Content-Type-Options: nosniff' to prevent MIME sniffing"@,
            ),
        ]
    } else {
        Seq::empty()
    }) + (match h_get(h, "x-xss-protection"@) {
        Some(v) => if contains_seq(v, "0"@) {
            seq![
                iv(
                    "X-XSS-Protection"@,
                    Severity::Low,
                    "X-XSS-Protection is disabled"@,
                    "Consider removing this header (deprecated) and using CSP instead"@,
                ),
            ]
        } else {
            Seq::empty()
        },
        None => Seq::empty(),
    }) + (if !h_has(h, "referrer-policy"@) {
        seq![
            iv(
                "Referrer-Policy"@,
                Severity::Low,
                "Missing Referrer-Policy header"@,
                "Add 'Referrer-Policy: strict-origin-when-cross-origin' or stricter"@,
            ),
        ]
    } else {
        Seq::empty()
    }) + (if !h_has(h, "permissions-policy"@) {
        seq![
            iv(
                "Permissions-Policy"@,
                Severity::Info,
                "Missing Permissions-Policy header"@,
                "Consider adding Permissions-Policy to control browser features"@,
            ),
        ]
    } else {
        Seq::empty()
    })
}

/// Evaluate the auxiliary-header rules over the snapshot.
pub fn check(h: &HeaderSet) -> (issues: Vec<SecurityIssue>)
    ensures
        issues.deep_view() == misc_spec(h@),
{
    let mut issues: Vec<SecurityIssue> = Vec::new();
    if !h.has("x-content-type-options") {
        push_issue(
            &mut issues,
            mk_issue(
                "X-Content-Type-Options",
                Severity::Low,
                "Missing X-Content-Type-Options header",
                "Add 'X-Content-Type-Options: nosniff' to prevent MIME sniffing",
            ),
        );
    }
    match h.get("x-xss-protection") {
        Some(v) => {
            if contains_str(v.as_str(), "0") {
                push_issue(
                    &mut issues,
                    mk_issue(
                        "X-XSS-Protection",
                        Severity::Low,
                        "X-XSS-Protection is disabled",
                        "Consider removing this header (deprecated) and using CSP instead",
                    ),
                );
            }
        },
        None => {},
    }
    if !h.has("referrer-policy") {
        push_issue(
            &mut issues,
            mk_issue(
                "Referrer-Policy",
                Severity::Low,
                "Missing Referrer-Policy header",
                "Add 'Referrer-Policy: strict-origin-when-cross-origin' or stricter",
            ),
        );
    }
    if !h.has("permissions-policy") {
        push_issue(
            &mut issues,
            mk_issue(
                "Permissions-Policy",
                Severity::Info,
                "Missing Permissions-Policy header",
                "Consider adding Permissions-Policy to control browser features",
            ),
        );
    }
    proof {
        assert(issues.deep_view() =~= misc_spec(h@));
    }
    issues
}

/// Every auxiliary-header finding has non-empty category, message and
/// recommendation text.
pub proof fn lemma_misc_fields_nonempty(h: HeaderSeq)
    ensures
        all_fields_nonempty(misc_spec(h)),
{
    reveal_strlit("X-Content-Type-Options");
    reveal_strlit("Missing X-Content-Type-Options header");
    reveal_strlit("Add 'X-Content-Type-Options: nosniff' to prevent MIME sniffing");
    reveal_strlit("X-XSS-Protection");
    reveal_strlit("X-XSS-Protection is disabled");
    reveal_strlit("Consider removing this header (deprecated) and using CSP instead");
    reveal_strlit("Referrer-Policy");
    reveal_strlit("Missing Referrer-Policy header");
    reveal_strlit("Add 'Referrer-Policy: strict-origin-when-cross-origin' or stricter");
    reveal_strlit("Permissions-Policy");
    reveal_strlit("Missing Permissions-Policy header");
    reveal_strlit("Consider adding Permissions-Policy to control browser features");
    let p1 = if !h_has(h, "x-content-type-options"@) {
        seq![
            iv(
                "X-Content-Type-Options"@,
                Severity::Low,
                "Missing X-Content-Type-Options header"@,
                "Add 'X-Content-Type-Options: nosniff' to prevent MIME sniffing"@,
            ),
        ]
    } else {
        Seq::<IssueView>::empty()
    };
    let p2 = match h_get(h, "x-xss-protection"@) {
        Some(v) => if contains_seq(v, "0"@) {
            seq![
                iv(
                    "X-XSS-Protection"@,
                    Severity::Low,
                    "X-XSS-Protection is disabled"@,
                    "Consider removing this header (deprecated) and using CSP instead"@,
                ),
            ]
        } else {
            Seq::<IssueView>::empty()
        },
        None => Seq::<IssueView>::empty(),
    };
    let p3 = if !h_has(h, "referrer-policy"@) {
        seq![
            iv(
                "Referrer-Policy"@,
                Severity::Low,
                "Missing Referrer-Policy header"@,
                "Add 'Referrer-Policy: strict-origin-when-cross-origin' or stricter"@,
            ),
        ]
    } else {
        Seq::<IssueView>::empty()
    };
    let p4 = if !h_has(h, "permissions-policy"@) {
        seq![
            iv(
                "Permissions-Policy"@,
                Severity::Info,
                "Missing Permissions-Policy header"@,
                "Consider adding Permissions-Policy to control browser features"@,
            ),
        ]
    } else {
        Seq::<IssueView>::empty()
    };
    assert(all_fields_nonempty(p1));
    assert(all_fields_nonempty(p2));
    assert(all_fields_nonempty(p3));
    assert(all_fields_nonempty(p4));
    lemma_nonempty_concat(p1, p2);
    lemma_nonempty_concat(p1 + p2, p3);
    lemma_nonempty_concat(p1 + p2 + p3, p4);
    assert(misc_spec(h) == p1 + p2 + p3 + p4);
}

} // verus!
