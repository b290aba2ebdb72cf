//! Cookie rules, applied to every `Set-Cookie` value independently: the
//! Secure, HttpOnly, SameSite and Max-Age attributes, and the constraints
//! the `__Secure-`/`__Host-` name prefixes impose. No cookies at all is not
//! an issue.

use vstd::prelude::*;
use crate::directive::{extract, extract_spec, has_directive, has_directive_spec, max_age_of};
use crate::headers::{h_get_all, HeaderSet, HeaderSeq};
use crate::model::{
    all_fields_nonempty, iv, lemma_nonempty_concat, mk_issue_msg, push_issue, IssueView,
    SecurityIssue, Severity,
};
use crate::num::parse_i64;
use crate::text::{
    CharClass, find_cl, find_in, icontains_seq, icontains_str, ieq_str, istarts_seq,
    istarts_with_str, seq_ieq, starts_seq, starts_with_str, trim_spec, trim_str,
};

verus! {

/// The SameSite disposition a cookie declares.
#[derive(Debug, Clone, Copy, PartialEq, Eq, Structural)]
pub enum SameSite {
    /// `SameSite=None`: sent on cross-site requests.
    NoneValue,
    /// `SameSite=Lax`.
    Lax,
    /// `SameSite=Strict`.
    Strict,
    /// No `SameSite` attribute (or an unrecognised value).
    Missing,
}

/// The cookie's name: what stands before the first `=`, trimmed.
pub open spec fn cookie_name_spec(c: Seq<char>) -> Seq<char> {
    trim_spec(c.subrange(0, find_cl(c, CharClass::EqSign) as int))
}

/// Whether a cookie name suggests it guards a session or a credential.
pub open spec fn is_sensitive_spec(name: Seq<char>) -> bool {
    icontains_seq(name, "session"@) || icontains_seq(name, "auth"@) || icontains_seq(
        name,
        "token"@,
    ) || icontains_seq(name, "csrf"@) || icontains_seq(name, "xsrf"@) || istarts_seq(
        name,
        "__secure-"@,
    ) || istarts_seq(name, "__host-"@)
}

/// The SameSite disposition of a cookie string.
pub open spec fn samesite_spec(c: Seq<char>) -> SameSite {
    match extract_spec(c, "samesite"@) {
        Some(v) => if seq_ieq(v, "none"@) {
            SameSite::NoneValue
        } else if seq_ieq(v, "lax"@) {
            SameSite::Lax
        } else if seq_ieq(v, "strict"@) {
            SameSite::Strict
        } else {
            SameSite::Missing
        },
        None => SameSite::Missing,
    }
}

/// The finding about a missing Secure attribute: no `;`-segment of the
/// cookie bears it.
pub open spec fn secure_part(c: Seq<char>, name: Seq<char>) -> Seq<IssueView> {
    if !has_directive_spec(c, "secure"@) {
        seq![
            iv(
                "Cookie Security"@,
                Severity::Medium,
                "Cookie '"@ + name + "' missing Secure flag"@,
                "Add 'Secure' flag to ensure cookie is only sent over HTTPS"@,
            ),
        ]
    } else {
        Seq::empty()
    }
}

/// The finding about a missing HttpOnly attribute: Medium for sensitive
/// names, Low otherwise.
pub open spec fn httponly_part(c: Seq<char>, name: Seq<char>) -> Seq<IssueView> {
    if !has_directive_spec(c, "httponly"@) {
        if is_sensitive_spec(name) {
            seq![
                iv(
                    "Cookie Security"@,
                    Severity::Medium,
                    "Cookie '"@ + name + "' missing HttpOnly flag"@,
                    "Add 'HttpOnly' flag to prevent JavaScript access and XSS attacks"@,
                ),
            ]
        } else {
            seq![
                iv(
                    "Cookie Security"@,
                    Severity::Low,
                    "Cookie '"@ + name + "' missing HttpOnly flag"@,
                    "Consider adding 'HttpOnly' flag unless JavaScript access is required"@,
                ),
            ]
        }
    } else {
        Seq::empty()
    }
}

/// The finding the SameSite disposition draws: `None` is flagged, absence
/// is flagged more mildly, `Lax` and `Strict` pass.
pub open spec fn samesite_part(c: Seq<char>, name: Seq<char>) -> Seq<IssueView> {
    match samesite_spec(c) {
        SameSite::NoneValue => seq![
            iv(
                "Cookie Security"@,
                Severity::Medium,
                "Cookie '"@ + name + "' has SameSite=None"@,
                "SameSite=None requires Secure flag and allows cross-site requests. Use Lax or Strict if possible."@,
            ),
        ],
        SameSite::Lax => Seq::empty(),
        SameSite::Strict => Seq::empty(),
        SameSite::Missing => seq![
            iv(
                "Cookie Security"@,
                Severity::Low,
                "Cookie '"@ + name + "' missing SameSite attribute"@,
                "Add 'SameSite=Lax' or 'SameSite=Strict' to prevent CSRF attacks"@,
            ),
        ],
    }
}

/// The finding about an expiration longer than a year.
pub open spec fn age_part(c: Seq<char>, name: Seq<char>) -> Seq<IssueView> {
    match max_age_of(c) {
        Some(age) => if age > 31536000 {
            seq![
                iv(
                    "Cookie Security"@,
                    Severity::Info,
                    "Cookie '"@ + name + "' has very long expiration (>1 year)"@,
                    "Consider shorter expiration times for sensitive cookies"@,
                ),
            ]
        } else {
            Seq::empty()
        },
        None => Seq::empty(),
    }
}

/// The findings the `__Secure-`/`__Host-` prefixes impose: such a cookie
/// must carry Secure, and a `__Host-` cookie must have no Domain and
/// `Path=/`.
pub open spec fn prefix_part(c: Seq<char>, name: Seq<char>) -> Seq<IssueView> {
    if starts_seq(name, "__Secure-"@) || starts_seq(name, "__Host-"@) {
        (if !has_directive_spec(c, "secure"@) {
            seq![
                iv(
                    "Cookie Security"@,
                    Severity::High,
                    "Cookie '"@ + name + "' uses security prefix but missing Secure flag"@,
                    "Cookies with __Secure- or __Host- prefix MUST have Secure flag"@,
                ),
            ]
        } else {
            Seq::empty()
        }) + (if starts_seq(name, "__Host-"@) {
            (if has_directive_spec(c, "domain"@) {
                seq![
                    iv(
                        "Cookie Security"@,
                        Severity::High,
                        "Cookie '"@ + name + "' uses __Host- prefix but has Domain attribute"@,
                        "__Host- cookies must NOT have Domain attribute"@,
                    ),
                ]
            } else {
                Seq::empty()
            }) + (if !icontains_seq(c, "path=/"@) {
                seq![
                    iv(
                        "Cookie Security"@,
                        Severity::High,
                        "Cookie '"@ + name + "' uses __Host- prefix but Path is not /"@,
                        "__Host- cookies must have Path=/"@,
                    ),
                ]
            } else {
                Seq::empty()
            })
        } else {
            Seq::empty()
        })
    } else {
        Seq::empty()
    }
}

/// Every finding one cookie string draws, in rule order.
pub open spec fn cookie_issues(c: Seq<char>) -> Seq<IssueView> {
    let name = cookie_name_spec(c);
    secure_part(c, name) + httponly_part(c, name) + samesite_part(c, name) + age_part(c, name)
        + prefix_part(c, name)
}

/// The findings of a list of cookie strings, in order.
pub open spec fn cookies_issues(cs: Seq<Seq<char>>) -> Seq<IssueView>
    decreases cs.len(),
{
    if cs.len() == 0 {
        Seq::empty()
    } else {
        cookies_issues(cs.drop_last()) + cookie_issues(cs.last())
    }
}

/// The findings of the cookie rules over the snapshot: every `Set-Cookie`
/// value, in order.
pub open spec fn cookies_spec(h: HeaderSeq) -> Seq<IssueView> {
    cookies_issues(h_get_all(h, "set-cookie"@))
}

/// The cookie's name: the text before the first `=`, trimmed.
pub fn extract_cookie_name(cookie: &str) -> (r: String)
    ensures
        r@ == cookie_name_spec(cookie@),
{
    let e = find_in(cookie, CharClass::EqSign);
    let head = cookie.substring_char(0, e);
    let t = trim_str(head);
    t.to_owned()
}

/// Whether the name suggests a session or credential cookie.
pub fn is_sensitive_cookie(name: &str) -> (r: bool)
    ensures
        r == is_sensitive_spec(name@),
{
    icontains_str(name, "session") || icontains_str(name, "auth") || icontains_str(name, "token")
        || icontains_str(name, "csrf") || icontains_str(name, "xsrf") || istarts_with_str(
        name,
        "__secure-",
    ) || istarts_with_str(name, "__host-")
}

/// The SameSite disposition the cookie declares.
pub fn extract_samesite(cookie: &str) -> (r: SameSite)
    ensures
        r == samesite_spec(cookie@),
{
    match extract(cookie, "samesite") {
        Some(v) => {
            if ieq_str(v.as_str(), "none") {
                SameSite::NoneValue
            } else if ieq_str(v.as_str(), "lax") {
                SameSite::Lax
            } else if ieq_str(v.as_str(), "strict") {
                SameSite::Strict
            } else {
                SameSite::Missing
            }
        },
        None => SameSite::Missing,
    }
}

/// Value of the cookie's `Max-Age` attribute, when present and readable as
/// an `i64`.
pub fn extract_max_age(cookie: &str) -> (r: Option<i64>)
    ensures
        match max_age_of(cookie@) {
            Some(age) => r is Some && r->0 == age,
            None => r is None,
        },
{
    match extract(cookie, "max-age") {
        Some(s) => parse_i64(s.as_str()),
        None => None,
    }
}

/// A message about one cookie by name.
fn cookie_msg(name: &String, tail: &str) -> (m: String)
    ensures
        m@ == "Cookie '"@ + name@ + tail@,
{
    "Cookie '".to_owned().concat(name.as_str()).concat(tail)
}

/// Evaluate every cookie rule over one `Set-Cookie` value.
#[verifier::rlimit(80)]
pub fn check_cookie(cookie: &str) -> (issues: Vec<SecurityIssue>)
    ensures
        issues.deep_view() == cookie_issues(cookie@),
{
    let mut issues: Vec<SecurityIssue> = Vec::new();
    let name = extract_cookie_name(cookie);
    let has_secure = has_directive(cookie, "secure");
    if !has_secure {
        push_issue(
            &mut issues,
            mk_issue_msg(
                "Cookie Security",
                Severity::Medium,
                cookie_msg(&name, "' missing Secure flag"),
                "Add 'Secure' flag to ensure cookie is only sent over HTTPS",
            ),
        );
    }
    proof {
        assert(issues.deep_view() =~= secure_part(cookie@, name@));
    }
    if !has_directive(cookie, "httponly") {
        if is_sensitive_cookie(name.as_str()) {
            push_issue(
                &mut issues,
                mk_issue_msg(
                    "Cookie Security",
                    Severity::Medium,
                    cookie_msg(&name, "' missing HttpOnly flag"),
                    "Add 'HttpOnly' flag to prevent JavaScript access and XSS attacks",
                ),
            );
        } else {
            push_issue(
                &mut issues,
                mk_issue_msg(
                    "Cookie Security",
                    Severity::Low,
                    cookie_msg(&name, "' missing HttpOnly flag"),
                    "Consider adding 'HttpOnly' flag unless JavaScript access is required",
                ),
            );
        }
    }
    proof {
        assert(issues.deep_view() =~= secure_part(cookie@, name@) + httponly_part(cookie@, name@));
    }
    match extract_samesite(cookie) {
        SameSite::NoneValue => {
            push_issue(
                &mut issues,
                mk_issue_msg(
                    "Cookie Security",
                    Severity::Medium,
                    cookie_msg(&name, "' has SameSite=None"),
                    "SameSite=None requires Secure flag and allows cross-site requests. Use Lax or Strict if possible.",
                ),
            );
        },
        SameSite::Lax => {},
        SameSite::Strict => {},
        SameSite::Missing => {
            push_issue(
                &mut issues,
                mk_issue_msg(
                    "Cookie Security",
                    Severity::Low,
                    cookie_msg(&name, "' missing SameSite attribute"),
                    "Add 'SameSite=Lax' or 'SameSite=Strict' to prevent CSRF attacks",
                ),
            );
        },
    }
    proof {
        assert(issues.deep_view() =~= secure_part(cookie@, name@) + httponly_part(cookie@, name@)
            + samesite_part(cookie@, name@));
    }
    match extract_max_age(cookie) {
        Some(age) => {
            if age > 31536000i64 {
                push_issue(
                    &mut issues,
                    mk_issue_msg(
                        "Cookie Security",
                        Severity::Info,
                        cookie_msg(&name, "' has very long expiration (>1 year)"),
                        "Consider shorter expiration times for sensitive cookies",
                    ),
                );
            }
        },
        None => {},
    }
    proof {
        assert(issues.deep_view() =~= secure_part(cookie@, name@) + httponly_part(cookie@, name@)
            + samesite_part(cookie@, name@) + age_part(cookie@, name@));
    }
    if starts_with_str(name.as_str(), "__Secure-") || starts_with_str(name.as_str(), "__Host-") {
        if !has_secure {
            push_issue(
                &mut issues,
                mk_issue_msg(
                    "Cookie Security",
                    Severity::High,
                    cookie_msg(&name, "' uses security prefix but missing Secure flag"),
                    "Cookies with __Secure- or __Host- prefix MUST have Secure flag",
                ),
            );
        }
        if starts_with_str(name.as_str(), "__Host-") {
            if has_directive(cookie, "domain") {
                push_issue(
                    &mut issues,
                    mk_issue_msg(
                        "Cookie Security",
                        Severity::High,
                        cookie_msg(&name, "' uses __Host- prefix but has Domain attribute"),
                        "__Host- cookies must NOT have Domain attribute",
                    ),
                );
            }
            if !icontains_str(cookie, "path=/") {
                push_issue(
                    &mut issues,
                    mk_issue_msg(
                        "Cookie Security",
                        Severity::High,
                        cookie_msg(&name, "' uses __Host- prefix but Path is not /"),
                        "__Host- cookies must have Path=/",
                    ),
                );
            }
        }
    }
    proof {
        assert(issues.deep_view() =~= cookie_issues(cookie@));
    }
    issues
}

/// Evaluate the cookie rules over the snapshot: every `Set-Cookie` value in
/// original order.
pub fn check(h: &HeaderSet) -> (issues: Vec<SecurityIssue>)
    ensures
        issues.deep_view() == cookies_spec(h@),
{
    let cookies = h.get_all("set-cookie");
    let n = cookies.len();
    let mut issues: Vec<SecurityIssue> = Vec::new();
    proof {
        assert(cookies.deep_view().subrange(0, 0) =~= Seq::<Seq<char>>::empty());
        assert(issues.deep_view() =~= cookies_issues(cookies.deep_view().subrange(0, 0)));
    }
    let mut i: usize = 0;
    while i < n
        invariant
            i <= n,
            n == cookies.len(),
            cookies.deep_view() == h_get_all(h@, "set-cookie"@),
            issues.deep_view() == cookies_issues(cookies.deep_view().subrange(0, i as int)),
        decreases n - i,
    {
        let mut found = check_cookie(cookies[i].as_str());
        let ghost before = issues.deep_view();
        let ghost added = found.deep_view();
        issues.append(&mut found);
        proof {
            assert(cookies.deep_view()[i as int] == cookies@[i as int]@);
            assert(issues.deep_view() =~= before + added);
            let pre1 = cookies.deep_view().subrange(0, i + 1);
            assert(pre1.drop_last() =~= cookies.deep_view().subrange(0, i as int));
            assert(pre1.last() == cookies.deep_view()[i as int]);
        }
        i = i + 1;
    }
    proof {
        assert(cookies.deep_view().subrange(0, n as int) =~= cookies.deep_view());
    }
    issues
}

/// Every finding one cookie draws has non-empty category, message and
/// recommendation text.
pub proof fn lemma_cookie_fields_nonempty(c: Seq<char>)
    ensures
        all_fields_nonempty(cookie_issues(c)),
{
    reveal_strlit("Cookie Security");
    reveal_strlit("Cookie '");
    reveal_strlit("Add 'Secure' flag to ensure cookie is only sent over HTTPS");
    reveal_strlit("Add 'HttpOnly' flag to prevent JavaScript access and XSS attacks");
    reveal_strlit("Consider adding 'HttpOnly' flag unless JavaScript access is required");
    reveal_strlit("SameSite=None requires Secure flag and allows cross-site requests. Use Lax or Strict if possible.");
    reveal_strlit("Add 'SameSite=Lax' or 'SameSite=Strict' to prevent CSRF attacks");
    reveal_strlit("Consider shorter expiration times for sensitive cookies");
    reveal_strlit("Cookies with __Secure- or __Host- prefix MUST have Secure flag");
    reveal_strlit("__Host- cookies must NOT have Domain attribute");
    reveal_strlit("__Host- cookies must have Path=/");
    let name = cookie_name_spec(c);
    assert(all_fields_nonempty(secure_part(c, name)));
    assert(all_fields_nonempty(httponly_part(c, name)));
    assert(all_fields_nonempty(samesite_part(c, name)));
    assert(all_fields_nonempty(age_part(c, name)));
    assert(all_fields_nonempty(prefix_part(c, name)));
    lemma_nonempty_concat(secure_part(c, name), httponly_part(c, name));
    lemma_nonempty_concat(secure_part(c, name) + httponly_part(c, name), samesite_part(c, name));
    lemma_nonempty_concat(
        secure_part(c, name) + httponly_part(c, name) + samesite_part(c, name),
        age_part(c, name),
    );
    lemma_nonempty_concat(
        secure_part(c, name) + httponly_part(c, name) + samesite_part(c, name) + age_part(c, name),
        prefix_part(c, name),
    );
}

/// Every finding a list of cookies draws has non-empty fields.
pub proof fn lemma_cookies_fields_nonempty(cs: Seq<Seq<char>>)
    ensures
        all_fields_nonempty(cookies_issues(cs)),
    decreases cs.len(),
{
    if cs.len() > 0 {
        lemma_cookies_fields_nonempty(cs.drop_last());
        lemma_cookie_fields_nonempty(cs.last());
        lemma_nonempty_concat(cookies_issues(cs.drop_last()), cookie_issues(cs.last()));
    }
}

} // verus!
