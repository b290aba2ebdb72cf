//! A read-only, case-insensitive view over a response's headers: an ordered
//! multimap from header name to value, insertion order preserved and
//! duplicates retained (several `Set-Cookie` lines are common).

use vstd::prelude::*;
use crate::text::{ieq_str, seq_ieq};

verus! {

/// One header line: a name and its value.
#[derive(Debug, Clone)]
pub struct HeaderEntry {
    pub name: String,
    pub value: String,
}

/// Mathematical value of a header collection: the `(name, value)` pairs in
/// insertion order.
pub type HeaderSeq = Seq<(Seq<char>, Seq<char>)>;

/// The snapshot of a response's headers that the rule groups read.
#[derive(Debug, Clone)]
pub struct HeaderSet {
    entries: Vec<HeaderEntry>,
}

impl View for HeaderSet {
    type V = HeaderSeq;

    closed spec fn view(&self) -> HeaderSeq {
        self.entries@.map_values(|e: HeaderEntry| (e.name@, e.value@))
    }
}

/// Value of the first header whose name equals `name` up to ASCII case, if
/// any.
pub open spec fn h_get(h: HeaderSeq, name: Seq<char>) -> Option<Seq<char>>
    decreases h.len(),
{
    if h.len() == 0 {
        None
    } else if seq_ieq(h[0].0, name) {
        Some(h[0].1)
    } else {
        h_get(h.drop_first(), name)
    }
}

/// Whether some header is named `name`, up to ASCII case.
pub open spec fn h_has(h: HeaderSeq, name: Seq<char>) -> bool {
    h_get(h, name) is Some
}

/// Values of every header named `name` (up to ASCII case), in original
/// order.
pub open spec fn h_get_all(h: HeaderSeq, name: Seq<char>) -> Seq<Seq<char>>
    decreases h.len(),
{
    if h.len() == 0 {
        Seq::empty()
    } else if seq_ieq(h[0].0, name) {
        seq![h[0].1] + h_get_all(h.drop_first(), name)
    } else {
        h_get_all(h.drop_first(), name)
    }
}

/// Looking up in `h` is looking up in its tail past any non-matching
/// prefix.
proof fn lemma_h_get_skip(h: HeaderSeq, name: Seq<char>, i: int)
    requires
        0 <= i <= h.len(),
        forall|j: int| 0 <= j < i ==> !seq_ieq(h[j].0, name),
    ensures
        h_get(h, name) == h_get(h.skip(i), name),
    decreases i,
{
    if i > 0 {
        assert(h.len() > 0);
        assert(!seq_ieq(h[0].0, name));
        assert(forall|j: int| 0 <= j < i - 1 ==> h.drop_first()[j] == h[j + 1]);
        lemma_h_get_skip(h.drop_first(), name, i - 1);
        assert(h.drop_first().skip(i - 1) =~= h.skip(i));
    } else {
        assert(h.skip(0) =~= h);
    }
}

proof fn lemma_h_get_all_skip(h: HeaderSeq, name: Seq<char>, i: int)
    requires
        0 <= i <= h.len(),
    ensures
        h_get_all(h.skip(i), name) == if i < h.len() && seq_ieq(h[i].0, name) {
            seq![h[i].1] + h_get_all(h.skip(i + 1), name)
        } else if i < h.len() {
            h_get_all(h.skip(i + 1), name)
        } else {
            Seq::<Seq<char>>::empty()
        },
{
    if i < h.len() {
        let t = h.skip(i);
        assert(t.len() > 0);
        assert(t[0] == h[i]);
        assert(t.drop_first() =~= h.skip(i + 1));
    }
}

impl HeaderSet {
    /// An empty header collection.
    pub fn new() -> (h: HeaderSet)
        ensures
            h@ == Seq::<(Seq<char>, Seq<char>)>::empty(),
    {
        let h = HeaderSet { entries: Vec::new() };
        proof {
            assert(h@ =~= Seq::<(Seq<char>, Seq<char>)>::empty());
        }
        h
    }

    /// Append one header line. Order is kept; an existing name is not
    /// replaced.
    pub fn insert(&mut self, name: &str, value: &str)
        ensures
            final(self)@ == old(self)@.push((name@, value@)),
    {
        self.entries.push(HeaderEntry { name: name.to_owned(), value: value.to_owned() });
        proof {
            assert(self@ =~= old(self)@.push((name@, value@)));
        }
    }

    /// Number of header lines.
    pub fn len(&self) -> (n: usize)
        ensures
            n == self@.len(),
    {
        self.entries.len()
    }

    /// The first value under `name`, compared without regard to ASCII case.
    pub fn get(&self, name: &str) -> (r: Option<&String>)
        ensures
            match r {
                Some(v) => h_get(self@, name@) == Some(v@),
                None => h_get(self@, name@) is None,
            },
    {
        let n = self.entries.len();
        let mut i: usize = 0;
        while i < n
            invariant
                i <= n,
                n == self.entries.len(),
                forall|j: int| 0 <= j < i ==> !seq_ieq(self@[j].0, name@),
            decreases n - i,
        {
            if ieq_str(self.entries[i].name.as_str(), name) {
                proof {
                    lemma_h_get_skip(self@, name@, i as int);
                    assert(self@.skip(i as int)[0] == self@[i as int]);
                    assert(self@.skip(i as int).len() > 0);
                }
                return Some(&self.entries[i].value);
            }
            proof {
                assert(self@[i as int].0 == self.entries[i as int].name@);
            }
            i = i + 1;
        }
        proof {
            lemma_h_get_skip(self@, name@, n as int);
            assert(self@.skip(n as int) =~= Seq::<(Seq<char>, Seq<char>)>::empty());
        }
        None
    }

    /// Whether any header is named `name`, without regard to ASCII case.
    pub fn has(&self, name: &str) -> (r: bool)
        ensures
            r == h_has(self@, name@),
    {
        match self.get(name) {
            Some(_) => true,
            None => false,
        }
    }

    /// Every value under `name` (without regard to ASCII case), in original
    /// order.
    pub fn get_all(&self, name: &str) -> (r: Vec<String>)
        ensures
            r.deep_view() == h_get_all(self@, name@),
    {
        let n = self.entries.len();
        let mut out: Vec<String> = Vec::new();
        proof {
            assert(self@.skip(0) =~= self@);
            assert(out.deep_view() =~= Seq::<Seq<char>>::empty());
            assert(out.deep_view() + h_get_all(self@, name@) =~= h_get_all(self@, name@));
        }
        let mut i: usize = 0;
        while i < n
            invariant
                i <= n,
                n == self.entries.len(),
                out.deep_view() + h_get_all(self@.skip(i as int), name@) == h_get_all(
                    self@,
                    name@,
                ),
            decreases n - i,
        {
            proof {
                lemma_h_get_all_skip(self@, name@, i as int);
            }
            if ieq_str(self.entries[i].name.as_str(), name) {
                let ghost before = out.deep_view();
                out.push(self.entries[i].value.clone());
                proof {
                    assert(out.deep_view() =~= before.push(self.entries[i as int].value@));
                    assert(self@[i as int].1 == self.entries[i as int].value@);
                    assert(before.push(self@[i as int].1) + h_get_all(
                        self@.skip(i + 1),
                        name@,
                    ) =~= before + (seq![self@[i as int].1] + h_get_all(self@.skip(i + 1), name@)));
                }
            } else {
                proof {
                    assert(self@[i as int].0 == self.entries[i as int].name@);
                }
            }
            i = i + 1;
        }
        proof {
            assert(self@.skip(n as int) =~= Seq::<(Seq<char>, Seq<char>)>::empty());
            assert(out.deep_view() + Seq::<Seq<char>>::empty() =~= out.deep_view());
        }
        out
    }
}

} // verus!
