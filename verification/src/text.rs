//! Verified character and substring utilities over `&str`, whose
//! mathematical value is a `Seq<char>`.
//!
//! Header grammars are ASCII-case-insensitive in many places, so most
//! predicates come in a case-sensitive and a case-insensitive form. Case
//! folding maps the ASCII letters `A..Z` to `a..z` and leaves every other
//! character alone.

use vstd::prelude::*;

verus! {

/// Code point of `c` with ASCII uppercase letters folded to lowercase.
pub open spec fn fold_char(c: char) -> int {
    let v = c as u32;
    if 65 <= v && v <= 90 {
        v + 32
    } else {
        v as int
    }
}

/// `a` and `b` are equal up to ASCII case.
pub open spec fn chars_imatch(a: char, b: char) -> bool {
    fold_char(a) == fold_char(b)
}

/// Exec test of [`chars_imatch`].
pub fn char_imatch(a: char, b: char) -> (r: bool)
    ensures
        r == chars_imatch(a, b),
{
    let x = a as u32;
    let xf = if 65 <= x && x <= 90 {
        x + 32
    } else {
        x
    };
    let y = b as u32;
    let yf = if 65 <= y && y <= 90 {
        y + 32
    } else {
        y
    };
    xf == yf
}

/// `needle` occurs in `hay` at offset `i`, character for character.
pub open spec fn match_at(hay: Seq<char>, needle: Seq<char>, i: int) -> bool {
    &&& 0 <= i
    &&& i + needle.len() <= hay.len()
    &&& forall|j: int| 0 <= j < needle.len() ==> hay[i + j] == needle[j]
}

/// `needle` occurs in `hay` at offset `i`, up to ASCII case.
pub open spec fn imatch_at(hay: Seq<char>, needle: Seq<char>, i: int) -> bool {
    &&& 0 <= i
    &&& i + needle.len() <= hay.len()
    &&& forall|j: int| 0 <= j < needle.len() ==> chars_imatch(hay[i + j], needle[j])
}

/// `needle` occurs somewhere in `hay`.
pub open spec fn contains_seq(hay: Seq<char>, needle: Seq<char>) -> bool {
    exists|i: int| match_at(hay, needle, i)
}

/// `needle` occurs somewhere in `hay`, up to ASCII case.
pub open spec fn icontains_seq(hay: Seq<char>, needle: Seq<char>) -> bool {
    exists|i: int| imatch_at(hay, needle, i)
}

/// `s` begins with `p`.
pub open spec fn starts_seq(s: Seq<char>, p: Seq<char>) -> bool {
    match_at(s, p, 0)
}

/// `s` begins with `p`, up to ASCII case.
pub open spec fn istarts_seq(s: Seq<char>, p: Seq<char>) -> bool {
    imatch_at(s, p, 0)
}

/// `a` and `b` are the same character sequence up to ASCII case.
pub open spec fn seq_ieq(a: Seq<char>, b: Seq<char>) -> bool {
    a.len() == b.len() && imatch_at(a, b, 0)
}

/// Exec test of [`match_at`] at a given offset.
pub fn match_at_exec(hay: &str, needle: &str, i: usize) -> (r: bool)
    requires
        i + needle@.len() <= hay@.len(),
    ensures
        r == match_at(hay@, needle@, i as int),
{
    let n = needle.unicode_len();
    let hn = hay.unicode_len();
    let mut j: usize = 0;
    while j < n
        invariant
            j <= n,
            n == needle@.len(),
            hn == hay@.len(),
            i + n <= hn,
            forall|k: int| 0 <= k < j ==> hay@[i + k] == needle@[k],
        decreases n - j,
    {
        let hc = hay.get_char(i + j);
        let nc = needle.get_char(j);
        if hc != nc {
            assert(hay@[i + j as int] != needle@[j as int]);
            return false;
        }
        j = j + 1;
    }
    true
}

/// Exec test of [`imatch_at`] at a given offset.
pub fn imatch_at_exec(hay: &str, needle: &str, i: usize) -> (r: bool)
    requires
        i + needle@.len() <= hay@.len(),
    ensures
        r == imatch_at(hay@, needle@, i as int),
{
    let n = needle.unicode_len();
    let hn = hay.unicode_len();
    let mut j: usize = 0;
    while j < n
        invariant
            j <= n,
            n == needle@.len(),
            hn == hay@.len(),
            i + n <= hn,
            forall|k: int| 0 <= k < j ==> chars_imatch(hay@[i + k], needle@[k]),
        decreases n - j,
    {
        let hc = hay.get_char(i + j);
        let nc = needle.get_char(j);
        if !char_imatch(hc, nc) {
            assert(!chars_imatch(hay@[i + j as int], needle@[j as int]));
            return false;
        }
        j = j + 1;
    }
    true
}

/// Exec test of [`contains_seq`].
pub fn contains_str(hay: &str, needle: &str) -> (r: bool)
    ensures
        r == contains_seq(hay@, needle@),
{
    let hn = hay.unicode_len();
    let n = needle.unicode_len();
    if n > hn {
        assert(!contains_seq(hay@, needle@)) by {
            if contains_seq(hay@, needle@) {
                let i = choose|i: int| match_at(hay@, needle@, i);
            }
        }
        return false;
    }
    let mut i: usize = 0;
    while i <= hn - n
        invariant
            n <= hn,
            n == needle@.len(),
            hn == hay@.len(),
            i <= hn - n + 1,
            forall|k: int| 0 <= k < i ==> !match_at(hay@, needle@, k),
        decreases hn - n - i + 1,
    {
        if match_at_exec(hay, needle, i) {
            assert(match_at(hay@, needle@, i as int));
            return true;
        }
        i = i + 1;
    }
    assert(!contains_seq(hay@, needle@)) by {
        if contains_seq(hay@, needle@) {
            let k = choose|k: int| match_at(hay@, needle@, k);
            assert(0 <= k <= hn - n);
        }
    }
    false
}

/// Exec test of [`icontains_seq`].
pub fn icontains_str(hay: &str, needle: &str) -> (r: bool)
    ensures
        r == icontains_seq(hay@, needle@),
{
    let hn = hay.unicode_len();
    let n = needle.unicode_len();
    if n > hn {
        assert(!icontains_seq(hay@, needle@)) by {
            if icontains_seq(hay@, needle@) {
                let i = choose|i: int| imatch_at(hay@, needle@, i);
            }
        }
        return false;
    }
    let mut i: usize = 0;
    while i <= hn - n
        invariant
            n <= hn,
            n == needle@.len(),
            hn == hay@.len(),
            i <= hn - n + 1,
            forall|k: int| 0 <= k < i ==> !imatch_at(hay@, needle@, k),
        decreases hn - n - i + 1,
    {
        if imatch_at_exec(hay, needle, i) {
            assert(imatch_at(hay@, needle@, i as int));
            return true;
        }
        i = i + 1;
    }
    assert(!icontains_seq(hay@, needle@)) by {
        if icontains_seq(hay@, needle@) {
            let k = choose|k: int| imatch_at(hay@, needle@, k);
            assert(0 <= k <= hn - n);
        }
    }
    false
}

/// Exec test of [`starts_seq`].
pub fn starts_with_str(s: &str, p: &str) -> (r: bool)
    ensures
        r == starts_seq(s@, p@),
{
    if p.unicode_len() > s.unicode_len() {
        return false;
    }
    match_at_exec(s, p, 0)
}

/// Exec test of [`istarts_seq`].
pub fn istarts_with_str(s: &str, p: &str) -> (r: bool)
    ensures
        r == istarts_seq(s@, p@),
{
    if p.unicode_len() > s.unicode_len() {
        return false;
    }
    imatch_at_exec(s, p, 0)
}

/// Exec test of character-for-character equality.
pub fn eq_str(a: &str, b: &str) -> (r: bool)
    ensures
        r == (a@ == b@),
{
    if a.unicode_len() != b.unicode_len() {
        return false;
    }
    let r = match_at_exec(a, b, 0);
    proof {
        if r {
            assert(a@ =~= b@);
        }
    }
    r
}

/// Exec test of [`seq_ieq`].
pub fn ieq_str(a: &str, b: &str) -> (r: bool)
    ensures
        r == seq_ieq(a@, b@),
{
    if a.unicode_len() != b.unicode_len() {
        return false;
    }
    imatch_at_exec(a, b, 0)
}

/// ASCII whitespace, the characters the header grammars separate on.
pub open spec fn ws(c: char) -> bool {
    c == ' ' || c == '\t' || c == '\r' || c == '\n'
}

/// A class of characters that delimits tokens in a header value.
#[derive(Clone, Copy, PartialEq, Eq, Structural)]
pub enum CharClass {
    /// The segment separator `;`.
    Semi,
    /// The name/value separator `=`.
    EqSign,
    /// Whitespace or `=`: what separates a directive token from its value.
    SepWsEq,
    /// Anything but whitespace.
    NonWs,
    /// The line separator `\n`.
    Newline,
}

/// Whether `c` belongs to `cl`.
pub open spec fn in_class(cl: CharClass, c: char) -> bool {
    match cl {
        CharClass::Semi => c == ';',
        CharClass::EqSign => c == '=',
        CharClass::SepWsEq => ws(c) || c == '=',
        CharClass::NonWs => !ws(c),
        CharClass::Newline => c == '\n',
    }
}

/// Exec test of [`in_class`].
pub fn char_in_class(cl: CharClass, c: char) -> (r: bool)
    ensures
        r == in_class(cl, c),
{
    match cl {
        CharClass::Semi => c == ';',
        CharClass::EqSign => c == '=',
        CharClass::SepWsEq => c == ' ' || c == '\t' || c == '\r' || c == '\n' || c == '=',
        CharClass::NonWs => !(c == ' ' || c == '\t' || c == '\r' || c == '\n'),
        CharClass::Newline => c == '\n',
    }
}

/// Index of the first character of `s` in class `cl`, or `s.len()` if none.
pub open spec fn find_cl(s: Seq<char>, cl: CharClass) -> nat
    decreases s.len(),
{
    if s.len() == 0 {
        0
    } else if in_class(cl, s[0]) {
        0
    } else {
        1 + find_cl(s.drop_first(), cl)
    }
}

/// Characterisation of [`find_cl`]: it is the first in-class index.
pub proof fn lemma_find_cl(s: Seq<char>, cl: CharClass)
    ensures
        find_cl(s, cl) <= s.len(),
        forall|j: int| 0 <= j < find_cl(s, cl) ==> !in_class(cl, s[j]),
        find_cl(s, cl) < s.len() ==> in_class(cl, s[find_cl(s, cl) as int]),
    decreases s.len(),
{
    if s.len() > 0 && !in_class(cl, s[0]) {
        lemma_find_cl(s.drop_first(), cl);
        assert forall|j: int| 0 <= j < find_cl(s, cl) implies !in_class(cl, s[j]) by {
            if j > 0 {
                assert(s.drop_first()[j - 1] == s[j]);
            }
        }
    }
}

/// One past the last character of `s` in class `cl`, or `0` if none.
pub open spec fn rfind_end(s: Seq<char>, cl: CharClass) -> nat
    decreases s.len(),
{
    if s.len() == 0 {
        0
    } else if in_class(cl, s.last()) {
        s.len()
    } else {
        rfind_end(s.drop_last(), cl)
    }
}

/// Characterisation of [`rfind_end`]: it is one past the last in-class index.
pub proof fn lemma_rfind_end(s: Seq<char>, cl: CharClass)
    ensures
        rfind_end(s, cl) <= s.len(),
        forall|j: int| rfind_end(s, cl) <= j < s.len() ==> !in_class(cl, s[j]),
        rfind_end(s, cl) > 0 ==> in_class(cl, s[rfind_end(s, cl) - 1]),
    decreases s.len(),
{
    if s.len() > 0 && !in_class(cl, s.last()) {
        lemma_rfind_end(s.drop_last(), cl);
        assert forall|j: int| rfind_end(s, cl) <= j < s.len() implies !in_class(cl, s[j]) by {
            if j < s.len() - 1 {
                assert(s.drop_last()[j] == s[j]);
            }
        }
    }
}

/// Exec computation of [`find_cl`].
pub fn find_in(s: &str, cl: CharClass) -> (r: usize)
    ensures
        r == find_cl(s@, cl),
        r <= s@.len(),
{
    proof {
        lemma_find_cl(s@, cl);
    }
    let n = s.unicode_len();
    let mut i: usize = 0;
    while i < n
        invariant
            i <= n,
            n == s@.len(),
            forall|j: int| 0 <= j < i ==> !in_class(cl, s@[j]),
            find_cl(s@, cl) <= s@.len(),
            forall|j: int| 0 <= j < find_cl(s@, cl) ==> !in_class(cl, s@[j]),
            find_cl(s@, cl) < s@.len() ==> in_class(cl, s@[find_cl(s@, cl) as int]),
        decreases n - i,
    {
        let c = s.get_char(i);
        if char_in_class(cl, c) {
            proof {
                let f = find_cl(s@, cl) as int;
                if f < i {
                    assert(in_class(cl, s@[f]));
                    assert(false);
                }
                if f > i {
                    assert(!in_class(cl, s@[i as int]));
                    assert(false);
                }
            }
            return i;
        }
        i = i + 1;
    }
    proof {
        let f = find_cl(s@, cl) as int;
        if f < n {
            assert(in_class(cl, s@[f]));
            assert(false);
        }
    }
    n
}

/// End of the run of class-`cl` characters beginning at `i`.
pub open spec fn run_end(s: Seq<char>, i: int, cl: CharClass) -> int
    decreases s.len() - i,
{
    if i < s.len() && in_class(cl, s[i]) {
        run_end(s, i + 1, cl)
    } else {
        i
    }
}

/// Exec computation of [`run_end`].
pub fn skip_in(s: &str, i: usize, cl: CharClass) -> (r: usize)
    requires
        i <= s@.len(),
    ensures
        r == run_end(s@, i as int, cl),
        i <= r <= s@.len(),
{
    let n = s.unicode_len();
    let mut j: usize = i;
    while j < n && char_in_class(cl, s.get_char(j))
        invariant
            i <= j <= n,
            n == s@.len(),
            run_end(s@, i as int, cl) == run_end(s@, j as int, cl),
        decreases n - j,
    {
        assert(run_end(s@, j as int, cl) == run_end(s@, j + 1, cl));
        j = j + 1;
    }
    proof {
        assert(run_end(s@, j as int, cl) == j);
    }
    j
}

/// `s` with leading and trailing ASCII whitespace removed.
pub open spec fn trim_spec(s: Seq<char>) -> Seq<char> {
    if rfind_end(s, CharClass::NonWs) == 0 {
        Seq::empty()
    } else {
        s.subrange(find_cl(s, CharClass::NonWs) as int, rfind_end(s, CharClass::NonWs) as int)
    }
}

/// Exec computation of [`trim_spec`], as a slice of the input.
pub fn trim_str<'a>(s: &'a str) -> (r: &'a str)
    ensures
        r@ == trim_spec(s@),
{
    proof {
        lemma_find_cl(s@, CharClass::NonWs);
        lemma_rfind_end(s@, CharClass::NonWs);
    }
    let n = s.unicode_len();
    let a = find_in(s, CharClass::NonWs);
    proof {
        assert(s@.subrange(0, n as int) =~= s@);
    }
    let mut b: usize = n;
    while b > 0 && !char_in_class(CharClass::NonWs, s.get_char(b - 1))
        invariant
            b <= n,
            n == s@.len(),
            rfind_end(s@, CharClass::NonWs) == rfind_end(s@.subrange(0, b as int), CharClass::NonWs),
        decreases b,
    {
        proof {
            let t = s@.subrange(0, b as int);
            assert(t.last() == s@[b - 1]);
            assert(t.drop_last() =~= s@.subrange(0, b - 1));
        }
        b = b - 1;
    }
    proof {
        let t = s@.subrange(0, b as int);
        if b == 0 {
            assert(rfind_end(t, CharClass::NonWs) == 0);
        } else {
            assert(t.last() == s@[b - 1]);
            assert(rfind_end(t, CharClass::NonWs) == b);
        }
        let bb = rfind_end(s@, CharClass::NonWs) as int;
        assert(bb == b);
        if b > 0 {
            assert(in_class(CharClass::NonWs, s@[bb - 1]));
            if a > bb - 1 {
                assert(!in_class(CharClass::NonWs, s@[bb - 1]));
            }
            assert(a <= b);
        }
    }
    if b == 0 {
        let r = s.substring_char(0, 0);
        proof {
            assert(r@ =~= trim_spec(s@));
        }
        r
    } else {
        let r = s.substring_char(a, b);
        proof {
            assert(r@ =~= trim_spec(s@));
        }
        r
    }
}

} // verus!
