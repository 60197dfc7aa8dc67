//! Local-wins merge of a fetched collection with the locally held records
//! of the same scope. The result is ordered by id (lexical order of the
//! characters), so successive fetches do not reshuffle what is shown.

use vstd::prelude::*;
use crate::model::Keyed;

verus! {

/// Lexical order on texts: `a` sorts strictly before `b`.
pub open spec fn lex_lt(a: Seq<char>, b: Seq<char>) -> bool
    decreases a.len(),
{
    if a.len() == 0 {
        b.len() > 0
    } else if b.len() == 0 {
        false
    } else if a[0] < b[0] {
        true
    } else if a[0] == b[0] {
        lex_lt(a.drop_first(), b.drop_first())
    } else {
        false
    }
}

proof fn lemma_lex_irreflexive(a: Seq<char>)
    ensures
        !lex_lt(a, a),
    decreases a.len(),
{
    if a.len() > 0 {
        lemma_lex_irreflexive(a.drop_first());
    }
}

pub proof fn lemma_lex_total(a: Seq<char>, b: Seq<char>)
    ensures
        a != b ==> lex_lt(a, b) || lex_lt(b, a),
        !(lex_lt(a, b) && lex_lt(b, a)),
    decreases a.len(),
{
    if a.len() > 0 && b.len() > 0 {
        lemma_lex_total(a.drop_first(), b.drop_first());
        if a[0] == b[0] && a.drop_first() == b.drop_first() {
            assert(a =~= seq![a[0]] + a.drop_first());
            assert(b =~= seq![b[0]] + b.drop_first());
        }
    } else if a.len() == 0 && b.len() == 0 {
        assert(a =~= b);
    }
}

pub proof fn lemma_lex_transitive(a: Seq<char>, b: Seq<char>, c: Seq<char>)
    requires
        lex_lt(a, b),
        lex_lt(b, c),
    ensures
        lex_lt(a, c),
    decreases a.len(),
{
    if a.len() > 0 && b.len() > 0 && c.len() > 0 {
        if a[0] == b[0] && b[0] == c[0] {
            lemma_lex_transitive(a.drop_first(), b.drop_first(), c.drop_first());
        }
    }
}

/// Whether `a` sorts strictly before `b`.
pub fn lex_less(a: &str, b: &str) -> (r: bool)
    ensures
        r == lex_lt(a@, b@),
{
    let n = a.unicode_len();
    let m = b.unicode_len();
    let mut i: usize = 0;
    assert(a@.skip(0) =~= a@);
    assert(b@.skip(0) =~= b@);
    while i < n && i < m
        invariant
            n == a@.len(),
            m == b@.len(),
            i <= n,
            i <= m,
            lex_lt(a@, b@) == lex_lt(a@.skip(i as int), b@.skip(i as int)),
        decreases n - i,
    {
        let x = a.get_char(i);
        let y = b.get_char(i);
        assert(a@.skip(i as int)[0] == x);
        assert(b@.skip(i as int)[0] == y);
        if x < y {
            return true;
        }
        if x != y {
            return false;
        }
        assert(a@.skip(i as int).drop_first() =~= a@.skip(i + 1));
        assert(b@.skip(i as int).drop_first() =~= b@.skip(i + 1));
        i = i + 1;
    }
    i == n && i < m
}

/// The records of `s` by id; a later record replaces an earlier one with
/// the same id.
pub open spec fn by_id<T: Keyed>(s: Seq<T>) -> Map<Seq<char>, T>
    decreases s.len(),
{
    if s.len() == 0 {
        Map::empty()
    } else {
        by_id(s.drop_last()).insert(s.last().key(), s.last())
    }
}

/// The merge of a fetched collection with the local records of the same
/// scope: the fetched records first, the local ones laid over them.
pub open spec fn merged<T: Keyed>(fetched: Seq<T>, local: Seq<T>) -> Map<Seq<char>, T> {
    by_id(fetched + local)
}

/// Strictly increasing ids.
pub open spec fn sorted_by_id<T: Keyed>(s: Seq<T>) -> bool {
    forall|i: int, j: int| 0 <= i < j < s.len() ==> lex_lt(#[trigger] s[i].key(), #[trigger] s[j].key())
}

/// `s` lists exactly the records of `m`, in id order, each once.
pub open spec fn lists<T: Keyed>(s: Seq<T>, m: Map<Seq<char>, T>) -> bool {
    &&& sorted_by_id(s)
    &&& forall|i: int| 0 <= i < s.len() ==> #[trigger] m.contains_key(s[i].key()) && m[s[i].key()] == s[i]
    &&& forall|k: Seq<char>| #[trigger] m.contains_key(k) ==> exists|i: int| 0 <= i < s.len() && s[i].key() == k
}

/// Puts `e` into the id-ordered list `v`, replacing the record with the same id.
fn upsert<T: Keyed>(v: &mut Vec<T>, e: T, Ghost(m): Ghost<Map<Seq<char>, T>>)
    requires
        lists(old(v)@, m),
    ensures
        lists(final(v)@, m.insert(e.key(), e)),
{
    let mut i: usize = 0;
    while i < v.len() && lex_less(v[i].id_str(), e.id_str())
        invariant
            lists(v@, m),
            i <= v@.len(),
            forall|j: int| 0 <= j < i ==> lex_lt(#[trigger] v@[j].key(), e.key()),
        decreases v.len() - i,
    {
        i = i + 1;
    }
    let ghost old_v = v@;
    assert(lists(old_v, m));
    let ghost k = e.key();
    let ghost m2 = m.insert(k, e);
    if i < v.len() && crate::text::str_eq(v[i].id_str(), e.id_str()) {
        v.remove(i);
        v.insert(i, e);
        assert(v@ =~= old_v.update(i as int, e));
        assert forall|a: int, b: int| 0 <= a < b < v@.len() implies lex_lt(#[trigger] v@[a].key(), #[trigger] v@[b].key()) by {
            assert(old_v[i as int].key() == k);
            if a != i && b != i {
                assert(lex_lt(old_v[a].key(), old_v[b].key()));
            } else if a == i {
                assert(lex_lt(old_v[i as int].key(), old_v[b].key()));
            } else {
                assert(lex_lt(old_v[a].key(), old_v[i as int].key()));
            }
        }
        assert forall|j: int| 0 <= j < v@.len() implies #[trigger] m2.contains_key(v@[j].key()) && m2[v@[j].key()] == v@[j] by {
            if j != i {
                assert(v@[j] == old_v[j]);
                assert(m.contains_key(old_v[j].key()));
                assert(old_v[j].key() != k) by {
                    if j < i {
                        assert(lex_lt(old_v[j].key(), old_v[i as int].key()));
                    } else {
                        assert(lex_lt(old_v[i as int].key(), old_v[j].key()));
                    }
                    lemma_lex_irreflexive(k);
                }
            }
        }
        assert forall|kk: Seq<char>| #[trigger] m2.contains_key(kk) implies exists|j: int| 0 <= j < v@.len() && v@[j].key() == kk by {
            if kk == k {
                assert(v@[i as int].key() == kk);
            } else {
                let j = choose|j: int| 0 <= j < old_v.len() && old_v[j].key() == kk;
                assert(v@[j].key() == kk);
            }
        }
    } else {
        proof {
            if i < old_v.len() {
                lemma_lex_total(old_v[i as int].key(), k);
            }
        }
        v.insert(i, e);
        assert(v@ =~= old_v.insert(i as int, e));
        assert forall|a: int, b: int| 0 <= a < b < v@.len() implies lex_lt(#[trigger] v@[a].key(), #[trigger] v@[b].key()) by {
            if b < i {
                assert(lex_lt(old_v[a].key(), old_v[b].key()));
            } else if b == i {
                assert(lex_lt(old_v[a].key(), k));
            } else if a == i {
                if b - 1 > i {
                    assert(lex_lt(old_v[i as int].key(), old_v[b - 1].key()));
                    lemma_lex_transitive(k, old_v[i as int].key(), old_v[b - 1].key());
                }
            } else if a < i {
                assert(lex_lt(old_v[a].key(), k));
                if b - 1 > i {
                    assert(lex_lt(old_v[i as int].key(), old_v[b - 1].key()));
                    lemma_lex_transitive(k, old_v[i as int].key(), old_v[b - 1].key());
                }
                lemma_lex_transitive(old_v[a].key(), k, old_v[b - 1].key());
            } else {
                assert(lex_lt(old_v[a - 1].key(), old_v[b - 1].key()));
            }
        }
        assert forall|j: int| 0 <= j < v@.len() implies #[trigger] m2.contains_key(v@[j].key()) && m2[v@[j].key()] == v@[j] by {
            if j < i {
                assert(v@[j] == old_v[j]);
                lemma_lex_irreflexive(k);
                assert(lex_lt(old_v[j].key(), k));
                assert(old_v[j].key() != k);
                assert(m.contains_key(old_v[j].key()) && m[old_v[j].key()] == old_v[j]);
            } else if j > i {
                assert(v@[j] == old_v[j - 1]);
                if j - 1 > i {
                    assert(lex_lt(old_v[i as int].key(), old_v[j - 1].key()));
                    lemma_lex_transitive(k, old_v[i as int].key(), old_v[j - 1].key());
                }
                lemma_lex_irreflexive(k);
                assert(old_v[j - 1].key() != k);
                let jj = j - 1;
                assert(0 <= jj < old_v.len());
                assert(lists(old_v, m));
                assert(m.contains_key(old_v[jj].key()) && m[old_v[jj].key()] == old_v[jj]);
            } else {
                assert(v@[j] == e);
            }
        }
        assert forall|kk: Seq<char>| #[trigger] m2.contains_key(kk) implies exists|j: int| 0 <= j < v@.len() && v@[j].key() == kk by {
            if kk == k {
                assert(v@[i as int].key() == kk);
            } else {
                let j = choose|j: int| 0 <= j < old_v.len() && old_v[j].key() == kk;
                if j < i {
                    assert(v@[j].key() == kk);
                } else {
                    assert(v@[j + 1].key() == kk);
                }
            }
        }
    }
}

/// Merges a fetched collection with the local records of the same scope:
/// on an id held by both, the local record wins. The result lists each id
/// once, in id order.
pub fn merge_local_wins<T: Keyed>(fetched: &Vec<T>, local: &Vec<T>) -> (r: Vec<T>)
    ensures
        lists(r@, merged(fetched@, local@)),
{
    let mut r: Vec<T> = Vec::new();
    let ghost all = fetched@ + local@;
    assert(lists(r@, by_id(all.take(0)))) by {
        assert(by_id(all.take(0)) =~= Map::<Seq<char>, T>::empty());
    }
    let mut i: usize = 0;
    while i < fetched.len()
        invariant
            all == fetched@ + local@,
            i <= fetched.len(),
            lists(r@, by_id(all.take(i as int))),
        decreases fetched.len() - i,
    {
        let x = fetched[i].duplicate();
        assert(all.take(i + 1).drop_last() =~= all.take(i as int));
        assert(all.take(i + 1).last() == x);
        upsert(&mut r, x, Ghost(by_id(all.take(i as int))));
        i = i + 1;
    }
    let mut j: usize = 0;
    while j < local.len()
        invariant
            all == fetched@ + local@,
            j <= local.len(),
            lists(r@, by_id(all.take(fetched@.len() + j as int))),
        decreases local.len() - j,
    {
        let x = local[j].duplicate();
        assert(all.take(fetched@.len() + j + 1int).drop_last() =~= all.take(fetched@.len() + j as int));
        assert(all.take(fetched@.len() + j + 1int).last() == x);
        upsert(&mut r, x, Ghost(by_id(all.take(fetched@.len() + j as int))));
        j = j + 1;
    }
    assert(all.take(fetched@.len() + local@.len() as int) =~= all);
    r
}

/// Local wins: the merge holds every id of either collection; on an id that
/// the local records hold, it holds the local record, and on any other id
/// the fetched one.
pub proof fn lemma_local_wins<T: Keyed>(fetched: Seq<T>, local: Seq<T>)
    ensures
        merged(fetched, local) == by_id(fetched).union_prefer_right(by_id(local)),
    decreases local.len(),
{
    if local.len() == 0 {
        assert(fetched + local =~= fetched);
        assert(by_id(fetched).union_prefer_right(by_id(local)) =~= by_id(fetched));
    } else {
        let l2 = local.drop_last();
        lemma_local_wins(fetched, l2);
        assert((fetched + local).drop_last() =~= fetched + l2);
        assert((fetched + local).last() == local.last());
        assert(merged(fetched, local) =~= by_id(fetched).union_prefer_right(by_id(local)));
    }
}

/// The ids of a list of records.
pub open spec fn key_set<T: Keyed>(s: Seq<T>) -> Set<Seq<char>> {
    Set::new(|k: Seq<char>| exists|j: int| 0 <= j < s.len() && #[trigger] s[j].key() == k)
}

proof fn lemma_by_id_members<T: Keyed>(s: Seq<T>)
    ensures
        forall|k: Seq<char>| #[trigger] by_id(s).contains_key(k) <==> key_set(s).contains(k),
        forall|k: Seq<char>| #[trigger] by_id(s).contains_key(k) ==> exists|j: int|
            0 <= j < s.len() && s[j] == by_id(s)[k] && s[j].key() == k,
    decreases s.len(),
{
    if s.len() > 0 {
        let p = s.drop_last();
        lemma_by_id_members(p);
        let x = s.last();
        assert(s[s.len() - 1] == x);
        assert(by_id(s) == by_id(p).insert(x.key(), x));
        assert forall|k: Seq<char>| #[trigger] by_id(s).contains_key(k) <==> key_set(s).contains(k) by {
            if k == x.key() {
                assert(s[s.len() - 1].key() == k);
            }
            if key_set(s).contains(k) {
                let j = choose|j: int| 0 <= j < s.len() && #[trigger] s[j].key() == k;
                if j < s.len() - 1 {
                    assert(p[j] == s[j]);
                    assert(key_set(p).contains(k));
                }
            }
            if by_id(s).contains_key(k) && k != x.key() {
                assert(by_id(p).contains_key(k));
                let j = choose|j: int| 0 <= j < p.len() && #[trigger] p[j].key() == k;
                assert(s[j] == p[j]);
            }
        }
        assert forall|k: Seq<char>| #[trigger] by_id(s).contains_key(k) implies exists|j: int|
            0 <= j < s.len() && s[j] == by_id(s)[k] && s[j].key() == k by {
            if k != x.key() {
                assert(by_id(p).contains_key(k));
                let j = choose|j: int| 0 <= j < p.len() && p[j] == by_id(p)[k] && p[j].key() == k;
                assert(s[j] == p[j]);
            }
        }
    }
}

/// Local wins, by ids: the merged list holds exactly the ids of the
/// fetched and the local records, in strictly increasing id order; a
/// record whose id the local records hold is one of the local records,
/// and any other is one of the fetched ones.
pub proof fn lemma_merge_by_ids<T: Keyed>(fetched: Seq<T>, local: Seq<T>, r: Seq<T>)
    requires
        lists(r, merged(fetched, local)),
    ensures
        key_set(r) == key_set(fetched) + key_set(local),
        sorted_by_id(r),
        forall|i: int| 0 <= i < r.len() && key_set(local).contains(#[trigger] r[i].key()) ==> exists|j: int|
            0 <= j < local.len() && local[j] == r[i],
        forall|i: int| 0 <= i < r.len() && !key_set(local).contains(#[trigger] r[i].key()) ==> exists|j: int|
            0 <= j < fetched.len() && fetched[j] == r[i],
{
    lemma_local_wins(fetched, local);
    lemma_by_id_members(fetched);
    lemma_by_id_members(local);
    let m = merged(fetched, local);
    assert forall|k: Seq<char>| key_set(r).contains(k) <==> (key_set(fetched) + key_set(local)).contains(k) by {
        if key_set(r).contains(k) {
            let j = choose|j: int| 0 <= j < r.len() && #[trigger] r[j].key() == k;
            assert(m.contains_key(r[j].key()));
        }
        if (key_set(fetched) + key_set(local)).contains(k) {
            if key_set(local).contains(k) {
                assert(by_id(local).contains_key(k));
            } else {
                assert(by_id(fetched).contains_key(k));
            }
            assert(m.contains_key(k));
            let j = choose|j: int| 0 <= j < r.len() && r[j].key() == k;
            assert(r[j].key() == k);
        }
    }
    assert(key_set(r) =~= key_set(fetched) + key_set(local));
    assert forall|i: int| 0 <= i < r.len() && key_set(local).contains(#[trigger] r[i].key()) implies exists|j: int|
        0 <= j < local.len() && local[j] == r[i] by {
        let k = r[i].key();
        assert(m.contains_key(k) && m[k] == r[i]);
        assert(by_id(local).contains_key(k));
        let j = choose|j: int| 0 <= j < local.len() && local[j] == by_id(local)[k] && local[j].key() == k;
        assert(local[j] == r[i]);
    }
    assert forall|i: int| 0 <= i < r.len() && !key_set(local).contains(#[trigger] r[i].key()) implies exists|j: int|
        0 <= j < fetched.len() && fetched[j] == r[i] by {
        let k = r[i].key();
        assert(m.contains_key(k) && m[k] == r[i]);
        assert(!by_id(local).contains_key(k));
        assert(by_id(fetched).contains_key(k));
        let j = choose|j: int| 0 <= j < fetched.len() && fetched[j] == by_id(fetched)[k] && fetched[j].key() == k;
        assert(fetched[j] == r[i]);
    }
}

} // verus!
