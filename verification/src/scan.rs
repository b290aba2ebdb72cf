//! The rule dispatcher: every rule group run over one immutable header
//! snapshot, in a fixed order, the findings concatenated. Also the scheme
//! normalisation a target string gets before it is fetched.

use vstd::prelude::*;
use crate::checks::{cookies, cors, csp, hsts, misc, xframe};
use crate::headers::{HeaderSet, HeaderSeq};
use crate::model::{
    all_fields_nonempty, lemma_nonempty_concat, IssueView, ScanResult, SecurityIssue,
};
use crate::text::{find_cl, find_in, lemma_find_cl, starts_seq, starts_with_str, trim_spec, trim_str, CharClass};

verus! {

/// The findings of the whole rule set, in the fixed group order:
/// Content-Security-Policy, CORS, Strict-Transport-Security, framing,
/// cookies, auxiliary headers.
pub open spec fn all_checks_spec(h: HeaderSeq) -> Seq<IssueView> {
    csp::csp_spec(h) + cors::cors_spec(h) + hsts::hsts_spec(h) + xframe::xframe_spec(h)
        + cookies::cookies_spec(h) + misc::misc_spec(h)
}

/// Run every rule group over the snapshot and concatenate their findings
/// in group order. No group's result depends on another's.
pub fn run_checks(headers: &HeaderSet) -> (issues: Vec<SecurityIssue>)
    ensures
        issues.deep_view() == all_checks_spec(headers@),
{
    let mut issues = csp::check(headers);
    let ghost a1 = issues.deep_view();
    let mut part = cors::check(headers);
    let ghost b1 = part.deep_view();
    issues.append(&mut part);
    proof {
        assert(issues.deep_view() =~= a1 + b1);
    }
    let ghost a2 = issues.deep_view();
    let mut part = hsts::check(headers);
    let ghost b2 = part.deep_view();
    issues.append(&mut part);
    proof {
        assert(issues.deep_view() =~= a2 + b2);
    }
    let ghost a3 = issues.deep_view();
    let mut part = xframe::check(headers);
    let ghost b3 = part.deep_view();
    issues.append(&mut part);
    proof {
        assert(issues.deep_view() =~= a3 + b3);
    }
    let ghost a4 = issues.deep_view();
    let mut part = cookies::check(headers);
    let ghost b4 = part.deep_view();
    issues.append(&mut part);
    proof {
        assert(issues.deep_view() =~= a4 + b4);
    }
    let ghost a5 = issues.deep_view();
    let mut part = misc::check(headers);
    let ghost b5 = part.deep_view();
    issues.append(&mut part);
    proof {
        assert(issues.deep_view() =~= a5 + b5);
        assert(issues.deep_view() =~= all_checks_spec(headers@));
    }
    issues
}

/// Evaluate one response snapshot: the final URL, the status, and every
/// finding the rules draw from the headers.
pub fn analyze(url: String, status: u16, headers: &HeaderSet) -> (r: ScanResult)
    ensures
        r@.url == url@,
        r@.status == status,
        r@.issues == all_checks_spec(headers@),
{
    let issues = run_checks(headers);
    ScanResult { url, status, issues }
}

/// Every finding the rule set produces has non-empty category, message and
/// recommendation text, whatever the snapshot holds.
pub proof fn lemma_findings_fields_nonempty(h: HeaderSeq)
    ensures
        all_fields_nonempty(all_checks_spec(h)),
{
    csp::lemma_csp_fields_nonempty(h);
    cors::lemma_cors_fields_nonempty(h);
    hsts::lemma_hsts_fields_nonempty(h);
    xframe::lemma_xframe_fields_nonempty(h);
    cookies::lemma_cookies_fields_nonempty(crate::headers::h_get_all(h, "set-cookie"@));
    misc::lemma_misc_fields_nonempty(h);
    lemma_nonempty_concat(csp::csp_spec(h), cors::cors_spec(h));
    lemma_nonempty_concat(csp::csp_spec(h) + cors::cors_spec(h), hsts::hsts_spec(h));
    lemma_nonempty_concat(
        csp::csp_spec(h) + cors::cors_spec(h) + hsts::hsts_spec(h),
        xframe::xframe_spec(h),
    );
    lemma_nonempty_concat(
        csp::csp_spec(h) + cors::cors_spec(h) + hsts::hsts_spec(h) + xframe::xframe_spec(h),
        cookies::cookies_spec(h),
    );
    lemma_nonempty_concat(
        csp::csp_spec(h) + cors::cors_spec(h) + hsts::hsts_spec(h) + xframe::xframe_spec(h)
            + cookies::cookies_spec(h),
        misc::misc_spec(h),
    );
}

/// The targets an input text names: its lines, each trimmed, with the
/// empty ones and the `#` comments dropped.
pub open spec fn targets_spec(s: Seq<char>) -> Seq<Seq<char>>
    decreases s.len(),
{
    let e = find_cl(s, CharClass::Newline);
    let line = trim_spec(s.subrange(0, e as int));
    let kept: Seq<Seq<char>> = if line.len() > 0 && line[0] != '#' {
        seq![line]
    } else {
        Seq::empty()
    };
    if e >= s.len() {
        kept
    } else {
        kept + targets_spec(s.skip(e as int + 1))
    }
}

/// Read a list of targets out of an input file's text: one per line,
/// trimmed, skipping blank lines and `#` comments.
pub fn select_targets(text: &str) -> (r: Vec<String>)
    ensures
        r.deep_view() == targets_spec(text@),
    decreases text@.len(),
{
    let n = text.unicode_len();
    proof {
        lemma_find_cl(text@, CharClass::Newline);
    }
    let e = find_in(text, CharClass::Newline);
    let line = trim_str(text.substring_char(0, e));
    let mut out: Vec<String> = Vec::new();
    if line.unicode_len() > 0 && line.get_char(0) != '#' {
        out.push(line.to_owned());
        proof {
            assert(out.deep_view() =~= seq![line@]);
        }
    } else {
        proof {
            assert(out.deep_view() =~= Seq::<Seq<char>>::empty());
        }
    }
    if e == n {
        proof {
            assert(out.deep_view() =~= targets_spec(text@));
        }
        out
    } else {
        let rest = text.substring_char(e + 1, n);
        proof {
            assert(rest@ =~= text@.skip(e as int + 1));
        }
        let mut more = select_targets(rest);
        let ghost front = out.deep_view();
        let ghost back = more.deep_view();
        out.append(&mut more);
        proof {
            assert(out.deep_view() =~= front + back);
            assert(out.deep_view() =~= targets_spec(text@));
        }
        out
    }
}

/// Prefix a target with `https://` unless it already bears an `http://` or
/// `https://` scheme.
pub fn normalize_url(target: &str) -> (r: String)
    ensures
        starts_seq(target@, "http://"@) || starts_seq(target@, "https://"@) ==> r@ == target@,
        !(starts_seq(target@, "http://"@) || starts_seq(target@, "https://"@)) ==> r@ == "https://"@
            + target@,
{
    if starts_with_str(target, "http://") || starts_with_str(target, "https://") {
        target.to_owned()
    } else {
        "https://".to_owned().concat(target)
    }
}

} // verus!
