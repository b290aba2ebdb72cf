//! Directive extraction: the shared grammar of semicolon-delimited
//! `name[=value]` headers, used alike by the Content-Security-Policy,
//! Strict-Transport-Security and cookie-attribute rules.
//!
//! A segment's directive token is its trimmed prefix up to the first
//! whitespace or `=`; the token must equal the directive name in full (up to
//! ASCII case), so a directive named `default-src-extended` never answers a
//! lookup for `default-src`.

use vstd::prelude::*;
use crate::text::{
    CharClass, find_cl, find_in, ieq_str, lemma_find_cl, run_end, seq_ieq, skip_in, trim_spec,
    trim_str,
};

verus! {

/// The directive token of a segment: the trimmed segment's prefix up to the
/// first whitespace or `=`.
pub open spec fn seg_token(seg: Seq<char>) -> Seq<char> {
    let t = trim_spec(seg);
    t.subrange(0, find_cl(t, CharClass::SepWsEq) as int)
}

/// The value of a segment: what remains of the trimmed segment after the
/// token and the run of whitespace and `=` that follows it. May be empty.
pub open spec fn seg_value(seg: Seq<char>) -> Seq<char> {
    let t = trim_spec(seg);
    t.subrange(
        run_end(t, find_cl(t, CharClass::SepWsEq) as int, CharClass::SepWsEq),
        t.len() as int,
    )
}

/// Whether the segment's token is `name`, up to ASCII case.
pub open spec fn seg_matches(seg: Seq<char>, name: Seq<char>) -> bool {
    seq_ieq(seg_token(seg), name)
}

/// Value of the first `;`-separated segment of `raw` whose directive token
/// is `name`, or `None` if no segment bears that name.
pub open spec fn extract_spec(raw: Seq<char>, name: Seq<char>) -> Option<Seq<char>>
    decreases raw.len(),
{
    let e = find_cl(raw, CharClass::Semi);
    let seg = raw.subrange(0, e as int);
    if seg_matches(seg, name) {
        Some(seg_value(seg))
    } else if e >= raw.len() {
        None
    } else {
        extract_spec(raw.skip(e as int + 1), name)
    }
}

/// Split `raw_value` on `;`, find the first segment whose directive token
/// equals `directive_name` up to ASCII case, and return that segment's
/// value with surrounding whitespace removed; `None` when no segment
/// matches. Absence is an answer, never an error.
pub fn extract(raw_value: &str, directive_name: &str) -> (r: Option<String>)
    ensures
        match extract_spec(raw_value@, directive_name@) {
            Some(v) => r is Some && r->0@ == v,
            None => r is None,
        },
    decreases raw_value@.len(),
{
    let n = raw_value.unicode_len();
    proof {
        lemma_find_cl(raw_value@, CharClass::Semi);
    }
    let e = find_in(raw_value, CharClass::Semi);
    let seg = raw_value.substring_char(0, e);
    let t = trim_str(seg);
    let tn = t.unicode_len();
    let te = find_in(t, CharClass::SepWsEq);
    let token = t.substring_char(0, te);
    if ieq_str(token, directive_name) {
        let vs = skip_in(t, te, CharClass::SepWsEq);
        let v = t.substring_char(vs, tn);
        proof {
            assert(token@ == seg_token(seg@));
            assert(v@ == seg_value(seg@));
            assert(seg_matches(seg@, directive_name@));
        }
        Some(v.to_owned())
    } else if e == n {
        proof {
            assert(!seg_matches(seg@, directive_name@));
        }
        None
    } else {
        let rest = raw_value.substring_char(e + 1, n);
        proof {
            assert(rest@ =~= raw_value@.skip(e as int + 1));
        }
        extract(rest, directive_name)
    }
}

/// Whether some `;`-segment of `raw` bears the directive `name`: presence
/// of an attribute, with or without a value.
pub open spec fn has_directive_spec(raw: Seq<char>, name: Seq<char>) -> bool {
    extract_spec(raw, name) is Some
}

/// Exec test of [`has_directive_spec`].
pub fn has_directive(raw_value: &str, directive_name: &str) -> (r: bool)
    ensures
        r == has_directive_spec(raw_value@, directive_name@),
{
    match extract(raw_value, directive_name) {
        Some(_) => true,
        None => false,
    }
}

/// The max-age a directive-bearing value declares: the value of its
/// `max-age` directive read as an `i64`. A missing directive and an
/// unreadable value alike give `None`.
pub open spec fn max_age_of(v: Seq<char>) -> Option<int> {
    match extract_spec(v, "max-age"@) {
        Some(s) => if crate::num::numeral_ok(s) && i64::MIN <= crate::num::numeral_val(s)
            <= i64::MAX {
            Some(crate::num::numeral_val(s))
        } else {
            Option::<int>::None
        },
        None => Option::<int>::None,
    }
}

/// Extraction is a pure function of its two inputs: the same raw value and
/// directive name always give the same outcome, and a name that no segment
/// bears yields absence, never an error.
pub proof fn lemma_extract_deterministic(
    raw1: Seq<char>,
    name1: Seq<char>,
    raw2: Seq<char>,
    name2: Seq<char>,
)
    requires
        raw1 == raw2,
        name1 == name2,
    ensures
        extract_spec(raw1, name1) == extract_spec(raw2, name2),
{
}

} // verus!
