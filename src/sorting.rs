//! Stable ordering of fetched lists: timeline eras and events by year,
//! locations by name ignoring case.

use vstd::prelude::*;
use vstd::seq_lib::to_multiset_insert;
use crate::model::{Location, TimelineEra, TimelineEvent};
use crate::merge::{lex_lt, lex_less, lemma_lex_total, lemma_lex_transitive};

verus! {

/// A total preorder on records.
pub trait Ordered: Sized {
    spec fn le_spec(&self, other: &Self) -> bool;

    proof fn lemma_le_total(a: &Self, b: &Self)
        ensures
            a.le_spec(b) || b.le_spec(a),
    ;

    proof fn lemma_le_transitive(a: &Self, b: &Self, c: &Self)
        requires
            a.le_spec(b),
            b.le_spec(c),
        ensures
            a.le_spec(c),
    ;

    fn le(&self, other: &Self) -> (r: bool)
        ensures
            r == self.le_spec(other),
    ;
}

/// `s` is in non-decreasing order.
pub open spec fn sorted<T: Ordered>(s: Seq<T>) -> bool {
    forall|i: int, j: int| #![trigger s[i], s[j]] 0 <= i < j < s.len() ==> s[i].le_spec(&s[j])
}

impl Ordered for TimelineEvent {
    open spec fn le_spec(&self, other: &Self) -> bool {
        self.year <= other.year
    }

    proof fn lemma_le_total(a: &Self, b: &Self) {
    }

    proof fn lemma_le_transitive(a: &Self, b: &Self, c: &Self) {
    }

    fn le(&self, other: &Self) -> (r: bool) {
        self.year <= other.year
    }
}

impl Ordered for TimelineEra {
    open spec fn le_spec(&self, other: &Self) -> bool {
        self.start_year <= other.start_year
    }

    proof fn lemma_le_total(a: &Self, b: &Self) {
    }

    proof fn lemma_le_transitive(a: &Self, b: &Self, c: &Self) {
    }

    fn le(&self, other: &Self) -> (r: bool) {
        self.start_year <= other.start_year
    }
}

/// What `str::to_lowercase` gives: the text in Unicode lower case.
pub uninterp spec fn lower_of(s: Seq<char>) -> Seq<char>;

/// Relies on `str::to_lowercase`: the result depends on the characters alone.
#[verifier::external_body]
fn lowercase(s: &str) -> (r: String)
    ensures
        r@ == lower_of(s@),
{
    s.to_lowercase()
}

impl Ordered for Location {
    open spec fn le_spec(&self, other: &Self) -> bool {
        !lex_lt(lower_of(other.name@), lower_of(self.name@))
    }

    proof fn lemma_le_total(a: &Self, b: &Self) {
        lemma_lex_total(lower_of(a.name@), lower_of(b.name@));
    }

    proof fn lemma_le_transitive(a: &Self, b: &Self, c: &Self) {
        let x = lower_of(a.name@);
        let y = lower_of(b.name@);
        let z = lower_of(c.name@);
        lemma_lex_total(x, y);
        lemma_lex_total(y, z);
        lemma_lex_total(x, z);
        if lex_lt(z, x) {
            if x == y {
                assert(lex_lt(z, y));
            } else if y == z {
            } else {
                assert(lex_lt(x, y) || lex_lt(y, x));
                if lex_lt(y, x) {
                } else {
                    lemma_lex_transitive(z, x, y);
                }
            }
        }
    }

    fn le(&self, other: &Self) -> (r: bool) {
        let a = lowercase(self.name.as_str());
        let b = lowercase(other.name.as_str());
        !lex_less(b.as_str(), a.as_str())
    }
}

/// Sorts `v` stably into non-decreasing order: every record is kept, and
/// records that compare equal keep their relative order.
pub fn sort_stable<T: Ordered>(v: Vec<T>) -> (r: Vec<T>)
    ensures
        r@.to_multiset() == v@.to_multiset(),
        sorted(r@),
{
    let mut r: Vec<T> = Vec::new();
    let mut rest = v;
    let ghost orig = rest@;
    let mut k: usize = 0;
    assert(orig.len() == rest.len());
    proof {
        broadcast use vstd::seq_lib::group_to_multiset_ensures;
        broadcast use vstd::multiset::lemma_multiset_empty_len;

        assert(orig.take(0).to_multiset().len() == 0);
        assert(r@.to_multiset().len() == 0);
        assert(orig.take(0).to_multiset() =~= r@.to_multiset());
    }
    while rest.len() > 0
        invariant
            k <= orig.len(),
            k + rest@.len() == orig.len(),
            orig.len() <= usize::MAX,
            rest@ == orig.skip(k as int),
            r@.to_multiset() == orig.take(k as int).to_multiset(),
            sorted(r@),
        decreases rest.len(),
    {
        let x = rest.remove(0);
        assert(x == orig[k as int]);
        let mut p: usize = 0;
        while p < r.len() && r[p].le(&x)
            invariant
                p <= r@.len(),
                forall|q: int| 0 <= q < p ==> (#[trigger] r@[q]).le_spec(&x),
            decreases r.len() - p,
        {
            p = p + 1;
        }
        let ghost r0 = r@;
        proof {
            to_multiset_insert(r0, p as int, x);
            assert(orig.take(k + 1) =~= orig.take(k as int).push(x));
            vstd::seq_lib::to_multiset_build(orig.take(k as int), x);
            if p < r0.len() {
                T::lemma_le_total(&r0[p as int], &x);
            }
            assert forall|i: int, j: int| #![trigger r0.insert(p as int, x)[i], r0.insert(p as int, x)[j]]
                0 <= i < j < r0.len() + 1 implies r0.insert(p as int, x)[i].le_spec(&r0.insert(p as int, x)[j]) by {
                let s = r0.insert(p as int, x);
                if j < p {
                    assert(s[i] == r0[i]);
                    assert(s[j] == r0[j]);
                } else if j == p {
                    assert(s[i] == r0[i]);
                } else if i == p {
                    assert(s[j] == r0[j - 1]);
                    if j - 1 > p {
                        assert(r0[p as int].le_spec(&r0[j - 1]));
                        T::lemma_le_transitive(&x, &r0[p as int], &r0[j - 1]);
                    }
                } else if i < p {
                    assert(s[i] == r0[i] && s[j] == r0[j - 1]);
                    if j - 1 > p {
                        assert(r0[p as int].le_spec(&r0[j - 1]));
                        T::lemma_le_transitive(&x, &r0[p as int], &r0[j - 1]);
                    }
                    T::lemma_le_transitive(&r0[i], &x, &r0[j - 1]);
                } else {
                    assert(s[i] == r0[i - 1] && s[j] == r0[j - 1]);
                }
            }
        }
        r.insert(p, x);
        k = k + 1;
    }
    assert(orig.take(orig.len() as int) =~= orig);
    r
}

} // verus!
