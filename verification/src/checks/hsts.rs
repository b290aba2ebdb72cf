//! Strict-Transport-Security rules: presence, max-age thresholds,
//! includeSubDomains and preload.

use vstd::prelude::*;
use crate::directive::{extract, max_age_of};
use crate::headers::{h_get, HeaderSet, HeaderSeq};
use crate::model::{
    all_fields_nonempty, iv, mk_issue, mk_issue_msg, push_issue, IssueView, SecurityIssue,
    Severity,
};
use crate::num::{dec_str, i64_to_string, parse_i64};
use crate::text::{icontains_seq, icontains_str};

verus! {

/// Six months in seconds, the floor under a sound max-age.
pub const SIX_MONTHS_SECONDS: i64 = 15768000;

/// One year in seconds, the recommended max-age.
pub const ONE_YEAR_SECONDS: i64 = 31536000;

/// Whole days in `age` seconds, rounded toward zero as integer division
/// rounds.
pub open spec fn days_of(age: int) -> int {
    if age >= 0 {
        age / 86400
    } else {
        -((-age) / 86400)
    }
}

/// The message of the "too short" finding for a given max-age.
pub open spec fn too_short_msg(age: int) -> Seq<char> {
    "HSTS max-age is too short ("@ + dec_str(age) + " seconds, ~"@ + dec_str(days_of(age))
        + " days)"@
}

/// The findings of the Strict-Transport-Security rules, in rule order.
pub open spec fn hsts_spec(h: HeaderSeq) -> Seq<IssueView> {
    match h_get(h, "strict-transport-security"@) {
        None => seq![
            iv(
                "HSTS"@,
                Severity::Medium,
                "Missing Strict-Transport-Security header"@,
                "Add 'Strict-Transport-Security: max-age=31536000; includeSubDomains; preload' to enforce HTTPS"@,
            ),
        ],
        Some(v) => (match max_age_of(v) {
            Some(age) => (if age < SIX_MONTHS_SECONDS {
                seq![
                    iv(
                        "HSTS"@,
                        Severity::Medium,
                        too_short_msg(age),
                        "Increase max-age to at least 6 months (15768000 seconds) or preferably 1 year"@,
                    ),
                ]
            } else {
                Seq::empty()
            }) + (if age < ONE_YEAR_SECONDS {
                seq![
                    iv(
                        "HSTS"@,
                        Severity::Info,
                        "HSTS max-age is less than 1 year"@,
                        "Consider increasing to 1 year (31536000) for stronger protection"@,
                    ),
                ]
            } else {
                Seq::empty()
            }),
            None => seq![
                iv(
                    "HSTS"@,
                    Severity::High,
                    "HSTS header missing max-age directive"@,
                    "Add max-age directive: max-age=31536000"@,
                ),
            ],
        }) + (if !icontains_seq(v, "includesubdomains"@) {
            seq![
                iv(
                    "HSTS"@,
                    Severity::Low,
                    "HSTS missing 'includeSubDomains' directive"@,
                    "Add 'includeSubDomains' to protect all subdomains with HSTS"@,
                ),
            ]
        } else {
            Seq::empty()
        }) + (if !icontains_seq(v, "preload"@) {
            seq![
                iv(
                    "HSTS"@,
                    Severity::Info,
                    "HSTS missing 'preload' directive"@,
                    "Consider adding 'preload' and submitting to hstspreload.org for browser preload lists"@,
                ),
            ]
        } else {
            Seq::empty()
        }),
    }
}

/// Value of the `max-age` directive of an HSTS header value, when it is
/// present and reads as an `i64`.
pub fn extract_max_age(hsts: &str) -> (r: Option<i64>)
    ensures
        match max_age_of(hsts@) {
            Some(age) => r is Some && r->0 == age,
            None => r is None,
        },
{
    match extract(hsts, "max-age") {
        Some(s) => parse_i64(s.as_str()),
        None => None,
    }
}

/// Whole days in `age` seconds, rounded toward zero.
fn days_for(age: i64) -> (d: i64)
    ensures
        d == days_of(age as int),
{
    if age >= 0 {
        ((age as u64) / 86400u64) as i64
    } else {
        let m: u64 = (-(age as i128)) as u64;
        -((m / 86400u64) as i64)
    }
}

/// Evaluate the Strict-Transport-Security rules over the snapshot.
pub fn check(h: &HeaderSet) -> (issues: Vec<SecurityIssue>)
    ensures
        issues.deep_view() == hsts_spec(h@),
{
    let mut issues: Vec<SecurityIssue> = Vec::new();
    let hsts = match h.get("strict-transport-security") {
        Some(v) => v,
        None => {
            push_issue(
                &mut issues,
                mk_issue(
                    "HSTS",
                    Severity::Medium,
                    "Missing Strict-Transport-Security header",
                    "Add 'Strict-Transport-Security: max-age=31536000; includeSubDomains; preload' to enforce HTTPS",
                ),
            );
            proof {
                assert(issues.deep_view() =~= hsts_spec(h@));
            }
            return issues;
        },
    };
    match extract_max_age(hsts.as_str()) {
        Some(age) => {
            if age < SIX_MONTHS_SECONDS {
                let age_text = i64_to_string(age);
                let days_text = i64_to_string(days_for(age));
                let msg = "HSTS max-age is too short (".to_owned().concat(age_text.as_str())
                    .concat(" seconds, ~").concat(days_text.as_str()).concat(" days)");
                proof {
                    assert(msg@ =~= too_short_msg(age as int));
                }
                push_issue(
                    &mut issues,
                    mk_issue_msg(
                        "HSTS",
                        Severity::Medium,
                        msg,
                        "Increase max-age to at least 6 months (15768000 seconds) or preferably 1 year",
                    ),
                );
            }
            if age < ONE_YEAR_SECONDS {
                push_issue(
                    &mut issues,
                    mk_issue(
                        "HSTS",
                        Severity::Info,
                        "HSTS max-age is less than 1 year",
                        "Consider increasing to 1 year (31536000) for stronger protection",
                    ),
                );
            }
        },
        None => {
            push_issue(
                &mut issues,
                mk_issue(
                    "HSTS",
                    Severity::High,
                    "HSTS header missing max-age directive",
                    "Add max-age directive: max-age=31536000",
                ),
            );
        },
    }
    if !icontains_str(hsts.as_str(), "includesubdomains") {
        push_issue(
            &mut issues,
            mk_issue(
                "HSTS",
                Severity::Low,
                "HSTS missing 'includeSubDomains' directive",
                "Add 'includeSubDomains' to protect all subdomains with HSTS",
            ),
        );
    }
    if !icontains_str(hsts.as_str(), "preload") {
        push_issue(
            &mut issues,
            mk_issue(
                "HSTS",
                Severity::Info,
                "HSTS missing 'preload' directive",
                "Consider adding 'preload' and submitting to hstspreload.org for browser preload lists",
            ),
        );
    }
    proof {
        assert(issues.deep_view() =~= hsts_spec(h@));
    }
    issues
}

/// Every Strict-Transport-Security finding has non-empty category, message
/// and recommendation text.
pub proof fn lemma_hsts_fields_nonempty(h: HeaderSeq)
    ensures
        all_fields_nonempty(hsts_spec(h)),
{
    reveal_strlit("HSTS");
    reveal_strlit("Missing Strict-Transport-Security header");
    reveal_strlit("Add 'Strict-Transport-Security: max-age=31536000; includeSubDomains; preload' to enforce HTTPS");
    reveal_strlit("HSTS max-age is too short (");
    reveal_strlit("Increase max-age to at least 6 months (15768000 seconds) or preferably 1 year");
    reveal_strlit("HSTS max-age is less than 1 year");
    reveal_strlit("Consider increasing to 1 year (31536000) for stronger protection");
    reveal_strlit("HSTS header missing max-age directive");
    reveal_strlit("Add max-age directive: max-age=31536000");
    reveal_strlit("HSTS missing 'includeSubDomains' directive");
    reveal_strlit("Add 'includeSubDomains' to protect all subdomains with HSTS");
    reveal_strlit("HSTS missing 'preload' directive");
    reveal_strlit("Consider adding 'preload' and submitting to hstspreload.org for browser preload lists");
    assert(all_fields_nonempty(hsts_spec(h)));
}

} // verus!
