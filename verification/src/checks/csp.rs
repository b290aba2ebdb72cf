//! Content-Security-Policy rules. A missing policy (the deprecated
//! `X-Content-Security-Policy` alias counts) short-circuits with one High
//! finding; a present policy is held to the directive rules, which are
//! independent and may all fire at once.

use vstd::prelude::*;
use crate::directive::{extract, extract_spec};
use crate::headers::{h_get, h_has, HeaderSet, HeaderSeq};
use crate::model::{
    all_fields_nonempty, iv, lemma_nonempty_concat, mk_issue, push_issue, IssueView,
    SecurityIssue, Severity,
};
use crate::text::{char_in_class, contains_seq, contains_str, eq_str, ws, CharClass};

verus! {

/// The policy the snapshot carries: `Content-Security-Policy`, or failing
/// that its deprecated alias.
pub open spec fn csp_value(h: HeaderSeq) -> Option<Seq<char>> {
    match h_get(h, "content-security-policy"@) {
        Some(c) => Some(c),
        None => h_get(h, "x-content-security-policy"@),
    }
}

/// A standalone `*` token stands at offset `i` of the source list: the
/// character is `*` and nothing but whitespace or the value's edge adjoins
/// it.
pub open spec fn standalone_star_at(src: Seq<char>, i: int) -> bool {
    &&& 0 <= i < src.len()
    &&& src[i] == '*'
    &&& (i == 0 || ws(src[i - 1]))
    &&& (i == src.len() - 1 || ws(src[i + 1]))
}

/// A source list that admits every origin: some whitespace-delimited token
/// of it is exactly `*` (a bare `*` value included).
pub open spec fn wildcard_sources(src: Seq<char>) -> bool {
    exists|i: int| standalone_star_at(src, i)
}

/// The finding about `'unsafe-inline'`.
pub open spec fn inline_part(c: Seq<char>) -> Seq<IssueView> {
    if contains_seq(c, "'unsafe-inline'"@) {
        seq![
            iv(
                "CSP"@,
                Severity::High,
                "CSP allows 'unsafe-inline'"@,
                "Remove 'unsafe-inline' and use nonces or hashes for inline scripts/styles"@,
            ),
        ]
    } else {
        Seq::empty()
    }
}

/// The finding about `'unsafe-eval'`.
pub open spec fn eval_part(c: Seq<char>) -> Seq<IssueView> {
    if contains_seq(c, "'unsafe-eval'"@) {
        seq![
            iv(
                "CSP"@,
                Severity::High,
                "CSP allows 'unsafe-eval'"@,
                "Remove 'unsafe-eval' to prevent dynamic code execution"@,
            ),
        ]
    } else {
        Seq::empty()
    }
}

/// The findings about the `script-src` directive, when it is present.
pub open spec fn script_part(c: Seq<char>) -> Seq<IssueView> {
    match extract_spec(c, "script-src"@) {
        Some(ss) => (if wildcard_sources(ss) {
            seq![
                iv(
                    "CSP"@,
                    Severity::Critical,
                    "CSP script-src allows all sources (*)"@,
                    "Restrict script-src to specific trusted domains only"@,
                ),
            ]
        } else {
            Seq::empty()
        }) + (if contains_seq(ss, "data:"@) {
            seq![
                iv(
                    "CSP"@,
                    Severity::High,
                    "CSP script-src allows 'data:' URIs"@,
                    "Remove 'data:' from script-src to prevent base64 encoded script execution"@,
                ),
            ]
        } else {
            Seq::empty()
        }) + (if contains_seq(ss, "https:"@) && !contains_seq(ss, "'unsafe-inline'"@) {
            seq![
                iv(
                    "CSP"@,
                    Severity::Medium,
                    "CSP script-src allows all HTTPS sources"@,
                    "Restrict to specific HTTPS domains instead of allowing all HTTPS"@,
                ),
            ]
        } else {
            Seq::empty()
        }),
        None => Seq::empty(),
    }
}

/// The finding about the `default-src` directive: a wildcard when present,
/// an omission when not.
pub open spec fn default_part(c: Seq<char>) -> Seq<IssueView> {
    match extract_spec(c, "default-src"@) {
        Some(ds) => if wildcard_sources(ds) {
            seq![
                iv(
                    "CSP"@,
                    Severity::High,
                    "CSP default-src allows all sources (*)"@,
                    "Restrict default-src to specific trusted domains"@,
                ),
            ]
        } else {
            Seq::empty()
        },
        None => seq![
            iv(
                "CSP"@,
                Severity::Medium,
                "CSP missing 'default-src' directive"@,
                "Add 'default-src' as a fallback for other directives"@,
            ),
        ],
    }
}

/// The finding about the `object-src` directive: anything but exactly
/// `'none'` when present, an omission when not.
pub open spec fn object_part(c: Seq<char>) -> Seq<IssueView> {
    match extract_spec(c, "object-src"@) {
        Some(os) => if os != "'none'"@ {
            seq![
                iv(
                    "CSP"@,
                    Severity::Medium,
                    "CSP object-src is not set to 'none'"@,
                    "Set object-src to 'none' to prevent Flash/plugin-based attacks"@,
                ),
            ]
        } else {
            Seq::empty()
        },
        None => seq![
            iv(
                "CSP"@,
                Severity::Low,
                "CSP missing 'object-src' directive"@,
                "Add 'object-src 'none'' to prevent plugin execution"@,
            ),
        ],
    }
}

/// The finding about a policy that never mentions `base-uri`.
pub open spec fn base_part(c: Seq<char>) -> Seq<IssueView> {
    if !contains_seq(c, "base-uri"@) {
        seq![
            iv(
                "CSP"@,
                Severity::Medium,
                "CSP missing 'base-uri' directive"@,
                "Add 'base-uri 'self'' to prevent base tag injection"@,
            ),
        ]
    } else {
        Seq::empty()
    }
}

/// The note about a policy without `upgrade-insecure-requests` on a
/// snapshot that has no HSTS either.
pub open spec fn upgrade_part(c: Seq<char>, h: HeaderSeq) -> Seq<IssueView> {
    if !contains_seq(c, "upgrade-insecure-requests"@) && !h_has(h, "strict-transport-security"@) {
        seq![
            iv(
                "CSP"@,
                Severity::Info,
                "CSP missing 'upgrade-insecure-requests' directive"@,
                "Consider adding 'upgrade-insecure-requests' to upgrade HTTP to HTTPS"@,
            ),
        ]
    } else {
        Seq::empty()
    }
}

/// The one finding a missing policy draws.
pub open spec fn missing_csp_issue() -> IssueView {
    iv(
        "CSP"@,
        Severity::High,
        "Missing Content-Security-Policy header"@,
        "Implement CSP to prevent XSS and other injection attacks"@,
    )
}

/// The findings of the Content-Security-Policy rules, in rule order.
pub open spec fn csp_spec(h: HeaderSeq) -> Seq<IssueView> {
    match csp_value(h) {
        None => seq![missing_csp_issue()],
        Some(c) => inline_part(c) + eval_part(c) + script_part(c) + default_part(c) + object_part(
            c,
        ) + base_part(c) + upgrade_part(c, h),
    }
}

/// Value of a named directive of a policy, when the directive is present.
pub fn extract_directive(csp: &str, directive: &str) -> (r: Option<String>)
    ensures
        match extract_spec(csp@, directive@) {
            Some(v) => r is Some && r->0@ == v,
            None => r is None,
        },
{
    extract(csp, directive)
}

/// Whether a source list admits every origin.
fn is_wildcard_sources(src: &str) -> (r: bool)
    ensures
        r == wildcard_sources(src@),
{
    let n = src.unicode_len();
    let mut i: usize = 0;
    while i < n
        invariant
            i <= n,
            n == src@.len(),
            forall|k: int| 0 <= k < i ==> !standalone_star_at(src@, k),
        decreases n - i,
    {
        let c = src.get_char(i);
        if c == '*' {
            let left_open = i == 0 || !char_in_class(CharClass::NonWs, src.get_char(i - 1));
            let right_open = i + 1 == n || !char_in_class(CharClass::NonWs, src.get_char(i + 1));
            if left_open && right_open {
                assert(standalone_star_at(src@, i as int));
                return true;
            }
            assert(!standalone_star_at(src@, i as int));
        } else {
            assert(!standalone_star_at(src@, i as int));
        }
        i = i + 1;
    }
    assert(!wildcard_sources(src@)) by {
        if wildcard_sources(src@) {
            let k = choose|k: int| standalone_star_at(src@, k);
        }
    }
    false
}

/// Evaluate the Content-Security-Policy rules over the snapshot.
#[verifier::rlimit(60)]
pub fn check(h: &HeaderSet) -> (issues: Vec<SecurityIssue>)
    ensures
        issues.deep_view() == csp_spec(h@),
{
    let csp = match h.get("content-security-policy") {
        Some(c) => c,
        None => {
            match h.get("x-content-security-policy") {
                Some(c) => c,
                None => {
                    let mut issues: Vec<SecurityIssue> = Vec::new();
                    push_issue(
                        &mut issues,
                        mk_issue(
                            "CSP",
                            Severity::High,
                            "Missing Content-Security-Policy header",
                            "Implement CSP to prevent XSS and other injection attacks",
                        ),
                    );
                    proof {
                        assert(issues.deep_view() =~= csp_spec(h@));
                    }
                    return issues;
                },
            }
        },
    };
    let mut issues = check_sources(csp.as_str());
    let mut rest = check_policy(csp.as_str(), h);
    let ghost front = issues.deep_view();
    let ghost back = rest.deep_view();
    issues.append(&mut rest);
    proof {
        assert(issues.deep_view() =~= front + back);
        assert(issues.deep_view() =~= csp_spec(h@));
    }
    issues
}

/// Evaluate the source-keyword and `script-src` rules over a present
/// policy value.
#[verifier::rlimit(60)]
fn check_sources(csp: &str) -> (issues: Vec<SecurityIssue>)
    ensures
        issues.deep_view() == inline_part(csp@) + eval_part(csp@) + script_part(csp@),
{
    let mut issues: Vec<SecurityIssue> = Vec::new();
    let ghost c = csp@;
    if contains_str(csp, "'unsafe-inline'") {
        push_issue(
            &mut issues,
            mk_issue(
                "CSP",
                Severity::High,
                "CSP allows 'unsafe-inline'",
                "Remove 'unsafe-inline' and use nonces or hashes for inline scripts/styles",
            ),
        );
    }
    if contains_str(csp, "'unsafe-eval'") {
        push_issue(
            &mut issues,
            mk_issue(
                "CSP",
                Severity::High,
                "CSP allows 'unsafe-eval'",
                "Remove 'unsafe-eval' to prevent dynamic code execution",
            ),
        );
    }
    proof {
        assert(issues.deep_view() =~= inline_part(c) + eval_part(c));
    }
    match extract_directive(csp, "script-src") {
        Some(script_src) => {
            if is_wildcard_sources(script_src.as_str()) {
                push_issue(
                    &mut issues,
                    mk_issue(
                        "CSP",
                        Severity::Critical,
                        "CSP script-src allows all sources (*)",
                        "Restrict script-src to specific trusted domains only",
                    ),
                );
            }
            if contains_str(script_src.as_str(), "data:") {
                push_issue(
                    &mut issues,
                    mk_issue(
                        "CSP",
                        Severity::High,
                        "CSP script-src allows 'data:' URIs",
                        "Remove 'data:' from script-src to prevent base64 encoded script execution",
                    ),
                );
            }
            if contains_str(script_src.as_str(), "https:") && !contains_str(
                script_src.as_str(),
                "'unsafe-inline'",
            ) {
                push_issue(
                    &mut issues,
                    mk_issue(
                        "CSP",
                        Severity::Medium,
                        "CSP script-src allows all HTTPS sources",
                        "Restrict to specific HTTPS domains instead of allowing all HTTPS",
                    ),
                );
            }
        },
        None => {},
    }
    proof {
        assert(issues.deep_view() =~= inline_part(c) + eval_part(c) + script_part(c));
    }
    issues
}

/// Evaluate the `default-src`, `object-src`, `base-uri` and
/// `upgrade-insecure-requests` rules over a present policy value.
#[verifier::rlimit(60)]
fn check_policy(csp: &str, h: &HeaderSet) -> (issues: Vec<SecurityIssue>)
    ensures
        issues.deep_view() == default_part(csp@) + object_part(csp@) + base_part(csp@)
            + upgrade_part(csp@, h@),
{
    let mut issues: Vec<SecurityIssue> = Vec::new();
    let ghost c = csp@;
    match extract_directive(csp, "default-src") {
        Some(default_src) => {
            if is_wildcard_sources(default_src.as_str()) {
                push_issue(
                    &mut issues,
                    mk_issue(
                        "CSP",
                        Severity::High,
                        "CSP default-src allows all sources (*)",
                        "Restrict default-src to specific trusted domains",
                    ),
                );
            }
        },
        None => {
            push_issue(
                &mut issues,
                mk_issue(
                    "CSP",
                    Severity::Medium,
                    "CSP missing 'default-src' directive",
                    "Add 'default-src' as a fallback for other directives",
                ),
            );
        },
    }
    match extract_directive(csp, "object-src") {
        Some(object_src) => {
            if !eq_str(object_src.as_str(), "'none'") {
                push_issue(
                    &mut issues,
                    mk_issue(
                        "CSP",
                        Severity::Medium,
                        "CSP object-src is not set to 'none'",
                        "Set object-src to 'none' to prevent Flash/plugin-based attacks",
                    ),
                );
            }
        },
        None => {
            push_issue(
                &mut issues,
                mk_issue(
                    "CSP",
                    Severity::Low,
                    "CSP missing 'object-src' directive",
                    "Add 'object-src 'none'' to prevent plugin execution",
                ),
            );
        },
    }
    proof {
        assert(issues.deep_view() =~= default_part(c) + object_part(c));
    }
    if !contains_str(csp, "base-uri") {
        push_issue(
            &mut issues,
            mk_issue(
                "CSP",
                Severity::Medium,
                "CSP missing 'base-uri' directive",
                "Add 'base-uri 'self'' to prevent base tag injection",
            ),
        );
    }
    proof {
        assert(issues.deep_view() =~= default_part(c) + object_part(c) + base_part(c));
    }
    if !contains_str(csp, "upgrade-insecure-requests") && !h.has(
        "strict-transport-security",
    ) {
        push_issue(
            &mut issues,
            mk_issue(
                "CSP",
                Severity::Info,
                "CSP missing 'upgrade-insecure-requests' directive",
                "Consider adding 'upgrade-insecure-requests' to upgrade HTTP to HTTPS",
            ),
        );
    }
    proof {
        assert(issues.deep_view() =~= default_part(c) + object_part(c) + base_part(c)
            + upgrade_part(c, h@));
    }
    issues
}

/// A header set with neither `Content-Security-Policy` nor its deprecated
/// alias draws exactly one finding from the CSP rules: the High "missing
/// CSP" one, and no others.
pub proof fn lemma_csp_absent_single_high(h: HeaderSeq)
    requires
        h_get(h, "content-security-policy"@) is None,
        h_get(h, "x-content-security-policy"@) is None,
    ensures
        csp_spec(h).len() == 1,
        csp_spec(h)[0] == missing_csp_issue(),
        csp_spec(h)[0].severity == Severity::High,
{
}

/// Every Content-Security-Policy finding has non-empty category, message
/// and recommendation text.
pub proof fn lemma_csp_fields_nonempty(h: HeaderSeq)
    ensures
        all_fields_nonempty(csp_spec(h)),
{
    reveal_strlit("CSP");
    reveal_strlit("Missing Content-Security-Policy header");
    reveal_strlit("Implement CSP to prevent XSS and other injection attacks");
    reveal_strlit("CSP allows 'unsafe-inline'");
    reveal_strlit("Remove 'unsafe-inline' and use nonces or hashes for inline scripts/styles");
    reveal_strlit("CSP allows 'unsafe-eval'");
    reveal_strlit("Remove 'unsafe-eval' to prevent dynamic code execution");
    reveal_strlit("CSP script-src allows all sources (*)");
    reveal_strlit("Restrict script-src to specific trusted domains only");
    reveal_strlit("CSP script-src allows 'data:' URIs");
    reveal_strlit("Remove 'data:' from script-src to prevent base64 encoded script execution");
    reveal_strlit("CSP script-src allows all HTTPS sources");
    reveal_strlit("Restrict to specific HTTPS domains instead of allowing all HTTPS");
    reveal_strlit("CSP default-src allows all sources (*)");
    reveal_strlit("Restrict default-src to specific trusted domains");
    reveal_strlit("CSP missing 'default-src' directive");
    reveal_strlit("Add 'default-src' as a fallback for other directives");
    reveal_strlit("CSP object-src is not set to 'none'");
    reveal_strlit("Set object-src to 'none' to prevent Flash/plugin-based attacks");
    reveal_strlit("CSP missing 'object-src' directive");
    reveal_strlit("Add 'object-src 'none'' to prevent plugin execution");
    reveal_strlit("CSP missing 'base-uri' directive");
    reveal_strlit("Add 'base-uri 'self'' to prevent base tag injection");
    reveal_strlit("CSP missing 'upgrade-insecure-requests' directive");
    reveal_strlit("Consider adding 'upgrade-insecure-requests' to upgrade HTTP to HTTPS");
    match csp_value(h) {
        None => {
            assert(all_fields_nonempty(seq![missing_csp_issue()]));
        },
        Some(c) => {
            assert(all_fields_nonempty(inline_part(c)));
            assert(all_fields_nonempty(eval_part(c)));
            assert(all_fields_nonempty(script_part(c)));
            assert(all_fields_nonempty(default_part(c)));
            assert(all_fields_nonempty(object_part(c)));
            assert(all_fields_nonempty(base_part(c)));
            assert(all_fields_nonempty(upgrade_part(c, h)));
            lemma_nonempty_concat(inline_part(c), eval_part(c));
            lemma_nonempty_concat(inline_part(c) + eval_part(c), script_part(c));
            lemma_nonempty_concat(inline_part(c) + eval_part(c) + script_part(c), default_part(c));
            lemma_nonempty_concat(
                inline_part(c) + eval_part(c) + script_part(c) + default_part(c),
                object_part(c),
            );
            lemma_nonempty_concat(
                inline_part(c) + eval_part(c) + script_part(c) + default_part(c) + object_part(c),
                base_part(c),
            );
            lemma_nonempty_concat(
                inline_part(c) + eval_part(c) + script_part(c) + default_part(c) + object_part(c)
                    + base_part(c),
                upgrade_part(c, h),
            );
        },
    }
}

} // verus!
