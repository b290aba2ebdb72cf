//! Framing rules: X-Frame-Options together with CSP's `frame-ancestors`
//! directive, which modern browsers honor over it.

use vstd::prelude::*;
use crate::directive::{extract, extract_spec};
use crate::headers::{h_get, HeaderSet, HeaderSeq};
use crate::model::{
    all_fields_nonempty, iv, lemma_nonempty_concat, mk_issue, push_issue,
    IssueView, SecurityIssue, Severity,
};
use crate::text::{contains_seq, contains_str, icontains_seq, icontains_str};

verus! {

/// Whether the snapshot's Content-Security-Policy mentions
/// `frame-ancestors` at all.
pub open spec fn has_frame_ancestors(h: HeaderSeq) -> bool {
    match h_get(h, "content-security-policy"@) {
        Some(c) => contains_seq(c, "frame-ancestors"@),
        None => false,
    }
}

/// The findings about the X-Frame-Options header itself, in rule order.
pub open spec fn xfo_part(h: HeaderSeq) -> Seq<IssueView> {
    match h_get(h, "x-frame-options"@) {
        Some(x) => (if icontains_seq(x, "ALLOWALL"@) || icontains_seq(x, "ALLOW-ALL"@) {
            seq![
                iv(
                    "X-Frame-Options"@,
                    Severity::High,
                    "X-Frame-Options is set to ALLOWALL"@,
                    "Change to DENY or SAMEORIGIN to prevent clickjacking"@,
                ),
            ]
        } else {
            Seq::empty()
        }) + (if icontains_seq(x, "ALLOW-FROM"@) {
            seq![
                iv(
                    "X-Frame-Options"@,
                    Severity::Medium,
                    "X-Frame-Options uses deprecated ALLOW-FROM directive"@,
                    "Replace with CSP frame-ancestors directive for better browser support"@,
                ),
            ]
        } else {
            Seq::empty()
        }) + (if has_frame_ancestors(h) {
            seq![
                iv(
                    "X-Frame-Options"@,
                    Severity::Info,
                    "Both X-Frame-Options and CSP frame-ancestors are set"@,
                    "CSP frame-ancestors takes precedence in modern browsers. Consider removing X-Frame-Options for simplicity."@,
                ),
            ]
        } else {
            Seq::empty()
        }),
        None => if !has_frame_ancestors(h) {
            seq![
                iv(
                    "X-Frame-Options"@,
                    Severity::Medium,
                    "Missing X-Frame-Options header"@,
                    "Add 'X-Frame-Options: DENY' or use CSP 'frame-ancestors 'none'' to prevent clickjacking"@,
                ),
            ]
        } else {
            Seq::empty()
        },
    }
}

/// The findings about the CSP `frame-ancestors` value, in rule order.
pub open spec fn ancestors_part(h: HeaderSeq) -> Seq<IssueView> {
    match h_get(h, "content-security-policy"@) {
        Some(c) => match extract_spec(c, "frame-ancestors"@) {
            Some(fa) => (if contains_seq(fa, "*"@) {
                seq![
                    iv(
                        "CSP frame-ancestors"@,
                        Severity::High,
                        "CSP frame-ancestors allows all sources (*)"@,
                        "Restrict frame-ancestors to specific trusted domains or use 'none'"@,
                    ),
                ]
            } else {
                Seq::empty()
            }) + (if contains_seq(fa, "http://"@) {
                seq![
                    iv(
                        "CSP frame-ancestors"@,
                        Severity::Medium,
                        "CSP frame-ancestors allows HTTP (unencrypted) sources"@,
                        "Only allow HTTPS sources in frame-ancestors"@,
                    ),
                ]
            } else {
                Seq::empty()
            }),
            None => Seq::empty(),
        },
        None => Seq::empty(),
    }
}

/// The findings of the framing rules, in rule order.
pub open spec fn xframe_spec(h: HeaderSeq) -> Seq<IssueView> {
    xfo_part(h) + ancestors_part(h)
}

/// Value of the `frame-ancestors` directive of a CSP value, if the
/// directive is present.
pub fn extract_frame_ancestors(csp: &str) -> (r: Option<String>)
    ensures
        match extract_spec(csp@, "frame-ancestors"@) {
            Some(v) => r is Some && r->0@ == v,
            None => r is None,
        },
{
    extract(csp, "frame-ancestors")
}

/// Evaluate the framing rules over the snapshot.
pub fn check(h: &HeaderSet) -> (issues: Vec<SecurityIssue>)
    ensures
        issues.deep_view() == xframe_spec(h@),
{
    let mut issues: Vec<SecurityIssue> = Vec::new();
    let frame_ancestors_set = match h.get("content-security-policy") {
        Some(c) => contains_str(c.as_str(), "frame-ancestors"),
        None => false,
    };
    match h.get("x-frame-options") {
        Some(x) => {
            if icontains_str(x.as_str(), "ALLOWALL") || icontains_str(x.as_str(), "ALLOW-ALL") {
                push_issue(
                    &mut issues,
                    mk_issue(
                        "X-Frame-Options",
                        Severity::High,
                        "X-Frame-Options is set to ALLOWALL",
                        "Change to DENY or SAMEORIGIN to prevent clickjacking",
                    ),
                );
            }
            if icontains_str(x.as_str(), "ALLOW-FROM") {
                push_issue(
                    &mut issues,
                    mk_issue(
                        "X-Frame-Options",
                        Severity::Medium,
                        "X-Frame-Options uses deprecated ALLOW-FROM directive",
                        "Replace with CSP frame-ancestors directive for better browser support",
                    ),
                );
            }
            if frame_ancestors_set {
                push_issue(
                    &mut issues,
                    mk_issue(
                        "X-Frame-Options",
                        Severity::Info,
                        "Both X-Frame-Options and CSP frame-ancestors are set",
                        "CSP frame-ancestors takes precedence in modern browsers. Consider removing X-Frame-Options for simplicity.",
                    ),
                );
            }
        },
        None => {
            if !frame_ancestors_set {
                push_issue(
                    &mut issues,
                    mk_issue(
                        "X-Frame-Options",
                        Severity::Medium,
                        "Missing X-Frame-Options header",
                        "Add 'X-Frame-Options: DENY' or use CSP 'frame-ancestors 'none'' to prevent clickjacking",
                    ),
                );
            }
        },
    }
    proof {
        assert(issues.deep_view() =~= xfo_part(h@));
    }
    match h.get("content-security-policy") {
        Some(c) => {
            match extract_frame_ancestors(c.as_str()) {
                Some(fa) => {
                    if contains_str(fa.as_str(), "*") {
                        push_issue(
                            &mut issues,
                            mk_issue(
                                "CSP frame-ancestors",
                                Severity::High,
                                "CSP frame-ancestors allows all sources (*)",
                                "Restrict frame-ancestors to specific trusted domains or use 'none'",
                            ),
                        );
                    }
                    if contains_str(fa.as_str(), "http://") {
                        push_issue(
                            &mut issues,
                            mk_issue(
                                "CSP frame-ancestors",
                                Severity::Medium,
                                "CSP frame-ancestors allows HTTP (unencrypted) sources",
                                "Only allow HTTPS sources in frame-ancestors",
                            ),
                        );
                    }
                },
                None => {},
            }
        },
        None => {},
    }
    proof {
        assert(issues.deep_view() =~= xframe_spec(h@));
    }
    issues
}

/// An X-Frame-Options value that names ALLOWALL draws the High finding,
/// whatever the rest of the snapshot — in particular, whatever CSP
/// `frame-ancestors` value is present.
pub proof fn lemma_allowall_always_flagged(h: HeaderSeq)
    requires
        h_get(h, "x-frame-options"@) matches Some(x) && icontains_seq(x, "ALLOWALL"@),
    ensures
        exists|i: int|
            0 <= i < xframe_spec(h).len() && xframe_spec(h)[i].severity == Severity::High
                && xframe_spec(h)[i].message == "X-Frame-Options is set to ALLOWALL"@,
{
    assert(xframe_spec(h)[0].severity == Severity::High);
    assert(xframe_spec(h)[0].message == "X-Frame-Options is set to ALLOWALL"@);
}

/// Every framing finding has non-empty category, message and
/// recommendation text.
pub proof fn lemma_xframe_fields_nonempty(h: HeaderSeq)
    ensures
        all_fields_nonempty(xframe_spec(h)),
{
    reveal_strlit("X-Frame-Options");
    reveal_strlit("X-Frame-Options is set to ALLOWALL");
    reveal_strlit("Change to DENY or SAMEORIGIN to prevent clickjacking");
    reveal_strlit("X-Frame-Options uses deprecated ALLOW-FROM directive");
    reveal_strlit("Replace with CSP frame-ancestors directive for better browser support");
    reveal_strlit("Both X-Frame-Options and CSP frame-ancestors are set");
    reveal_strlit("CSP frame-ancestors takes precedence in modern browsers. Consider removing X-Frame-Options for simplicity.");
    reveal_strlit("Missing X-Frame-Options header");
    reveal_strlit("Add 'X-Frame-Options: DENY' or use CSP 'frame-ancestors 'none'' to prevent clickjacking");
    reveal_strlit("CSP frame-ancestors");
    reveal_strlit("CSP frame-ancestors allows all sources (*)");
    reveal_strlit("Restrict frame-ancestors to specific trusted domains or use 'none'");
    reveal_strlit("CSP frame-ancestors allows HTTP (unencrypted) sources");
    reveal_strlit("Only allow HTTPS sources in frame-ancestors");
    assert(all_fields_nonempty(xfo_part(h)));
    assert(all_fields_nonempty(ancestors_part(h)));
    lemma_nonempty_concat(xfo_part(h), ancestors_part(h));
}

} // verus!
