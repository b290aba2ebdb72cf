//! Cross-Origin Resource Sharing rules, keyed on
//! Access-Control-Allow-Origin and Access-Control-Allow-Credentials, with
//! side checks on the methods, headers and preflight-cache headers.

use vstd::prelude::*;
use crate::headers::{h_get, h_has, HeaderSet, HeaderSeq};
use crate::model::{
    all_fields_nonempty, iv, lemma_nonempty_concat, mk_issue, push_issue, IssueView,
    SecurityIssue, Severity,
};
use crate::num::{numeral_ok, numeral_val, parse_i64};
use crate::text::{
    contains_seq, contains_str, icontains_seq, icontains_str, eq_str, ieq_str, seq_ieq, starts_seq,
    starts_with_str,
};

verus! {

/// The findings keyed on the allowed origin, in rule order.
pub open spec fn origin_part(h: HeaderSeq) -> Seq<IssueView> {
    match h_get(h, "access-control-allow-origin"@) {
        Some(o) => (if o == "*"@ {
            (match h_get(h, "access-control-allow-credentials"@) {
                Some(cv) => if seq_ieq(cv, "true"@) {
                    seq![
                        iv(
                            "CORS"@,
                            Severity::Critical,
                            "CORS allows all origins (*) with credentials"@,
                            "NEVER use wildcard (*) with Access-Control-Allow-Credentials: true. This allows any website to make authenticated requests."@,
                        ),
                    ]
                } else {
                    Seq::empty()
                },
                None => Seq::empty(),
            }) + seq![
                iv(
                    "CORS"@,
                    Severity::Medium,
                    "CORS allows all origins (*)"@,
                    "Restrict Access-Control-Allow-Origin to specific trusted domains"@,
                ),
            ]
        } else {
            Seq::empty()
        }) + (if o == "null"@ {
            seq![
                iv(
                    "CORS"@,
                    Severity::High,
                    "CORS allows 'null' origin"@,
                    "Remove 'null' from allowed origins - it can be exploited via sandboxed iframes"@,
                ),
            ]
        } else {
            Seq::empty()
        }) + (if starts_seq(o, "http://"@) {
            seq![
                iv(
                    "CORS"@,
                    Severity::Medium,
                    "CORS allows HTTP origin (unencrypted)"@,
                    "Only allow HTTPS origins to prevent MitM attacks"@,
                ),
            ]
        } else {
            Seq::empty()
        }),
        None => if h_has(h, "access-control-allow-methods"@) || h_has(
            h,
            "access-control-allow-headers"@,
        ) {
            seq![
                iv(
                    "CORS"@,
                    Severity::Low,
                    "CORS headers present but Access-Control-Allow-Origin is missing"@,
                    "Either remove all CORS headers or properly configure Access-Control-Allow-Origin"@,
                ),
            ]
        } else {
            Seq::empty()
        },
    }
}

/// The findings about the allowed methods, in rule order.
pub open spec fn methods_part(h: HeaderSeq) -> Seq<IssueView> {
    match h_get(h, "access-control-allow-methods"@) {
        Some(m) => (if contains_seq(m, "*"@) {
            seq![
                iv(
                    "CORS"@,
                    Severity::High,
                    "CORS allows all HTTP methods (*)"@,
                    "Explicitly specify only the required HTTP methods"@,
                ),
            ]
        } else {
            Seq::empty()
        }) + (if icontains_seq(m, "DELETE"@) || icontains_seq(m, "PUT"@) {
            seq![
                iv(
                    "CORS"@,
                    Severity::Info,
                    "CORS allows potentially dangerous methods (DELETE/PUT)"@,
                    "Ensure these methods are required and properly secured"@,
                ),
            ]
        } else {
            Seq::empty()
        }),
        None => Seq::empty(),
    }
}

/// The finding about the allowed request headers.
pub open spec fn headers_part(h: HeaderSeq) -> Seq<IssueView> {
    match h_get(h, "access-control-allow-headers"@) {
        Some(v) => if contains_seq(v, "*"@) {
            seq![
                iv(
                    "CORS"@,
                    Severity::Medium,
                    "CORS allows all headers (*)"@,
                    "Explicitly specify only the required headers"@,
                ),
            ]
        } else {
            Seq::empty()
        },
        None => Seq::empty(),
    }
}

/// The finding about the preflight cache time: flagged when the value reads
/// as a 32-bit integer larger than a day.
pub open spec fn max_age_part(h: HeaderSeq) -> Seq<IssueView> {
    match h_get(h, "access-control-max-age"@) {
        Some(a) => if numeral_ok(a) && -2147483648 <= numeral_val(a) <= 2147483647 && numeral_val(
            a,
        ) > 86400 {
            seq![
                iv(
                    "CORS"@,
                    Severity::Low,
                    "CORS preflight cache time is very long"@,
                    "Consider reducing Access-Control-Max-Age to allow faster policy updates"@,
                ),
            ]
        } else {
            Seq::empty()
        },
        None => Seq::empty(),
    }
}

/// The findings of the CORS rules, in rule order.
pub open spec fn cors_spec(h: HeaderSeq) -> Seq<IssueView> {
    origin_part(h) + methods_part(h) + headers_part(h) + max_age_part(h)
}

/// Evaluate the CORS rules over the snapshot.
#[verifier::rlimit(60)]
pub fn check(h: &HeaderSet) -> (issues: Vec<SecurityIssue>)
    ensures
        issues.deep_view() == cors_spec(h@),
{
    let mut issues: Vec<SecurityIssue> = Vec::new();
    match h.get("access-control-allow-origin") {
        Some(origin) => {
            if eq_str(origin.as_str(), "*") {
                match h.get("access-control-allow-credentials") {
                    Some(cred) => {
                        if ieq_str(cred.as_str(), "true") {
                            push_issue(
                                &mut issues,
                                mk_issue(
                                    "CORS",
                                    Severity::Critical,
                                    "CORS allows all origins (*) with credentials",
                                    "NEVER use wildcard (*) with Access-Control-Allow-Credentials: true. This allows any website to make authenticated requests.",
                                ),
                            );
                        }
                    },
                    None => {},
                }
                push_issue(
                    &mut issues,
                    mk_issue(
                        "CORS",
                        Severity::Medium,
                        "CORS allows all origins (*)",
                        "Restrict Access-Control-Allow-Origin to specific trusted domains",
                    ),
                );
            }
            if eq_str(origin.as_str(), "null") {
                push_issue(
                    &mut issues,
                    mk_issue(
                        "CORS",
                        Severity::High,
                        "CORS allows 'null' origin",
                        "Remove 'null' from allowed origins - it can be exploited via sandboxed iframes",
                    ),
                );
            }
            if starts_with_str(origin.as_str(), "http://") {
                push_issue(
                    &mut issues,
                    mk_issue(
                        "CORS",
                        Severity::Medium,
                        "CORS allows HTTP origin (unencrypted)",
                        "Only allow HTTPS origins to prevent MitM attacks",
                    ),
                );
            }
        },
        None => {
            if h.has("access-control-allow-methods") || h.has("access-control-allow-headers") {
                push_issue(
                    &mut issues,
                    mk_issue(
                        "CORS",
                        Severity::Low,
                        "CORS headers present but Access-Control-Allow-Origin is missing",
                        "Either remove all CORS headers or properly configure Access-Control-Allow-Origin",
                    ),
                );
            }
        },
    }
    proof {
        assert(issues.deep_view() =~= origin_part(h@));
    }
    match h.get("access-control-allow-methods") {
        Some(methods) => {
            if contains_str(methods.as_str(), "*") {
                push_issue(
                    &mut issues,
                    mk_issue(
                        "CORS",
                        Severity::High,
                        "CORS allows all HTTP methods (*)",
                        "Explicitly specify only the required HTTP methods",
                    ),
                );
            }
            if icontains_str(methods.as_str(), "DELETE") || icontains_str(methods.as_str(), "PUT") {
                push_issue(
                    &mut issues,
                    mk_issue(
                        "CORS",
                        Severity::Info,
                        "CORS allows potentially dangerous methods (DELETE/PUT)",
                        "Ensure these methods are required and properly secured",
                    ),
                );
            }
        },
        None => {},
    }
    proof {
        assert(issues.deep_view() =~= origin_part(h@) + methods_part(h@));
    }
    match h.get("access-control-allow-headers") {
        Some(allowed) => {
            if contains_str(allowed.as_str(), "*") {
                push_issue(
                    &mut issues,
                    mk_issue(
                        "CORS",
                        Severity::Medium,
                        "CORS allows all headers (*)",
                        "Explicitly specify only the required headers",
                    ),
                );
            }
        },
        None => {},
    }
    match h.get("access-control-max-age") {
        Some(age_text) => {
            match parse_i64(age_text.as_str()) {
                Some(age) => {
                    if age <= 2147483647i64 && age >= -2147483648i64 && age > 86400i64 {
                        push_issue(
                            &mut issues,
                            mk_issue(
                                "CORS",
                                Severity::Low,
                                "CORS preflight cache time is very long",
                                "Consider reducing Access-Control-Max-Age to allow faster policy updates",
                            ),
                        );
                    }
                },
                None => {},
            }
        },
        None => {},
    }
    proof {
        assert(issues.deep_view() =~= cors_spec(h@));
    }
    issues
}

/// A wildcard origin together with credentials draws both the Critical
/// "wildcard with credentials" finding and the Medium "wildcard" finding.
pub proof fn lemma_wildcard_with_credentials(h: HeaderSeq)
    requires
        h_get(h, "access-control-allow-origin"@) == Some("*"@),
        h_get(h, "access-control-allow-credentials"@) matches Some(cv) && seq_ieq(cv, "true"@),
    ensures
        exists|i: int|
            0 <= i < cors_spec(h).len() && cors_spec(h)[i].severity == Severity::Critical
                && cors_spec(h)[i].message == "CORS allows all origins (*) with credentials"@,
        exists|i: int|
            0 <= i < cors_spec(h).len() && cors_spec(h)[i].severity == Severity::Medium
                && cors_spec(h)[i].message == "CORS allows all origins (*)"@,
{
    assert(cors_spec(h)[0].severity == Severity::Critical);
    assert(cors_spec(h)[0].message == "CORS allows all origins (*) with credentials"@);
    assert(cors_spec(h)[1].severity == Severity::Medium);
    assert(cors_spec(h)[1].message == "CORS allows all origins (*)"@);
}

/// A wildcard origin without credentials draws the Medium "wildcard"
/// finding and nothing Critical: no other CORS rule reaches that severity.
pub proof fn lemma_wildcard_without_credentials(h: HeaderSeq)
    requires
        h_get(h, "access-control-allow-origin"@) == Some("*"@),
        h_get(h, "access-control-allow-credentials"@) is None,
    ensures
        exists|i: int|
            0 <= i < cors_spec(h).len() && cors_spec(h)[i].severity == Severity::Medium
                && cors_spec(h)[i].message == "CORS allows all origins (*)"@,
        forall|i: int|
            0 <= i < cors_spec(h).len() ==> cors_spec(h)[i].severity != Severity::Critical,
{
    assert(cors_spec(h)[0].severity == Severity::Medium);
    assert(cors_spec(h)[0].message == "CORS allows all origins (*)"@);
    assert(forall|i: int|
        0 <= i < origin_part(h).len() ==> origin_part(h)[i].severity != Severity::Critical);
    assert(forall|i: int|
        0 <= i < methods_part(h).len() ==> methods_part(h)[i].severity != Severity::Critical);
    assert(forall|i: int|
        0 <= i < headers_part(h).len() ==> headers_part(h)[i].severity != Severity::Critical);
    assert(forall|i: int|
        0 <= i < max_age_part(h).len() ==> max_age_part(h)[i].severity != Severity::Critical);
}

/// Every CORS finding has non-empty category, message and recommendation
/// text.
pub proof fn lemma_cors_fields_nonempty(h: HeaderSeq)
    ensures
        all_fields_nonempty(cors_spec(h)),
{
    reveal_strlit("CORS");
    reveal_strlit("CORS allows all origins (*) with credentials");
    reveal_strlit("NEVER use wildcard (*) with Access-Control-Allow-Credentials: true. This allows any website to make authenticated requests.");
    reveal_strlit("CORS allows all origins (*)");
    reveal_strlit("Restrict Access-Control-Allow-Origin to specific trusted domains");
    reveal_strlit("CORS allows 'null' origin");
    reveal_strlit("Remove 'null' from allowed origins - it can be exploited via sandboxed iframes");
    reveal_strlit("CORS allows HTTP origin (unencrypted)");
    reveal_strlit("Only allow HTTPS origins to prevent MitM attacks");
    reveal_strlit("CORS headers present but Access-Control-Allow-Origin is missing");
    reveal_strlit("Either remove all CORS headers or properly configure Access-Control-Allow-Origin");
    reveal_strlit("CORS allows all HTTP methods (*)");
    reveal_strlit("Explicitly specify only the required HTTP methods");
    reveal_strlit("CORS allows potentially dangerous methods (DELETE/PUT)");
    reveal_strlit("Ensure these methods are required and properly secured");
    reveal_strlit("CORS allows all headers (*)");
    reveal_strlit("Explicitly specify only the required headers");
    reveal_strlit("CORS preflight cache time is very long");
    reveal_strlit("Consider reducing Access-Control-Max-Age to allow faster policy updates");
    assert(all_fields_nonempty(origin_part(h)));
    assert(all_fields_nonempty(methods_part(h)));
    assert(all_fields_nonempty(headers_part(h)));
    assert(all_fields_nonempty(max_age_part(h)));
    lemma_nonempty_concat(origin_part(h), methods_part(h));
    lemma_nonempty_concat(origin_part(h) + methods_part(h), headers_part(h));
    lemma_nonempty_concat(origin_part(h) + methods_part(h) + headers_part(h), max_age_part(h));
}

} // verus!
