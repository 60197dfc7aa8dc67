//! The load ledger: which (kind, scope) fetches are in progress, and the
//! throttle that spaces out successive attempts. Times are milliseconds on
//! a monotonic clock that the caller reads.

use vstd::prelude::*;
use crate::text::str_eq;

verus! {

/// The identity of a fetch: its kind and the scope it is for (empty for
/// unscoped lists).
pub type Gate = (int, Seq<char>);

/// A key under which at most one fetch may be outstanding.
pub trait GateKey: Sized {
    spec fn gate(&self) -> Gate;

    /// Whether two keys name the same fetch.
    fn same_gate(&self, other: &Self) -> (r: bool)
        ensures
            r == (self.gate() == other.gate()),
    ;

    /// A copy naming the same fetch.
    fn copy_key(&self) -> (r: Self)
        ensures
            r.gate() == self.gate(),
    ;

    /// The kind number of the key.
    fn kind_of(&self) -> (r: u8)
        ensures
            r as int == self.gate().0,
    ;
}

/// Fetches of the worldbuilding and board data.
#[derive(Debug, Clone, PartialEq, Eq, Hash)]
pub enum CoreLoadKey {
    UniversesList,
    BoardsList,
    PmBoard { board_id: String },
    Creatures { universe_id: String },
    Locations { universe_id: String },
    Timeline { universe_id: String },
    Snapshots { universe_id: String },
}

/// Fetches of the novel tree.
#[derive(Debug, Clone, PartialEq, Eq, Hash)]
pub enum ForgeLoadKey {
    Novels,
    Chapters { novel_id: String },
    Scenes { chapter_id: String },
}

/// Kind numbers of the fetch kinds.
pub open spec fn kind_universes() -> int { 0 }
pub open spec fn kind_boards() -> int { 1 }
pub open spec fn kind_pm_board() -> int { 2 }
pub open spec fn kind_creatures() -> int { 3 }
pub open spec fn kind_locations() -> int { 4 }
pub open spec fn kind_timeline() -> int { 5 }
pub open spec fn kind_snapshots() -> int { 6 }
pub open spec fn kind_novels() -> int { 7 }
pub open spec fn kind_chapters() -> int { 8 }
pub open spec fn kind_scenes() -> int { 9 }

impl CoreLoadKey {
    /// The kind number of this key, in exec code.
    fn kind_no(&self) -> (r: u8)
        ensures
            r as int == self.gate().0,
    {
        match self {
            CoreLoadKey::UniversesList => 0,
            CoreLoadKey::BoardsList => 1,
            CoreLoadKey::PmBoard { .. } => 2,
            CoreLoadKey::Creatures { .. } => 3,
            CoreLoadKey::Locations { .. } => 4,
            CoreLoadKey::Timeline { .. } => 5,
            CoreLoadKey::Snapshots { .. } => 6,
        }
    }

    /// The scope text of this key (empty for the unscoped lists).
    fn scope_str(&self) -> (r: &str)
        ensures
            r@ == self.gate().1,
    {
        match self {
            CoreLoadKey::UniversesList => "",
            CoreLoadKey::BoardsList => "",
            CoreLoadKey::PmBoard { board_id } => board_id.as_str(),
            CoreLoadKey::Creatures { universe_id } => universe_id.as_str(),
            CoreLoadKey::Locations { universe_id } => universe_id.as_str(),
            CoreLoadKey::Timeline { universe_id } => universe_id.as_str(),
            CoreLoadKey::Snapshots { universe_id } => universe_id.as_str(),
        }
    }
}

impl GateKey for CoreLoadKey {
    open spec fn gate(&self) -> Gate {
        match self {
            CoreLoadKey::UniversesList => (kind_universes(), ""@),
            CoreLoadKey::BoardsList => (kind_boards(), ""@),
            CoreLoadKey::PmBoard { board_id } => (kind_pm_board(), board_id@),
            CoreLoadKey::Creatures { universe_id } => (kind_creatures(), universe_id@),
            CoreLoadKey::Locations { universe_id } => (kind_locations(), universe_id@),
            CoreLoadKey::Timeline { universe_id } => (kind_timeline(), universe_id@),
            CoreLoadKey::Snapshots { universe_id } => (kind_snapshots(), universe_id@),
        }
    }

    fn same_gate(&self, other: &Self) -> (r: bool) {
        self.kind_no() == other.kind_no() && str_eq(self.scope_str(), other.scope_str())
    }

    fn kind_of(&self) -> (r: u8) {
        self.kind_no()
    }

    fn copy_key(&self) -> (r: Self) {
        match self {
            CoreLoadKey::UniversesList => CoreLoadKey::UniversesList,
            CoreLoadKey::BoardsList => CoreLoadKey::BoardsList,
            CoreLoadKey::PmBoard { board_id } => CoreLoadKey::PmBoard { board_id: board_id.clone() },
            CoreLoadKey::Creatures { universe_id } => CoreLoadKey::Creatures {
                universe_id: universe_id.clone(),
            },
            CoreLoadKey::Locations { universe_id } => CoreLoadKey::Locations {
                universe_id: universe_id.clone(),
            },
            CoreLoadKey::Timeline { universe_id } => CoreLoadKey::Timeline {
                universe_id: universe_id.clone(),
            },
            CoreLoadKey::Snapshots { universe_id } => CoreLoadKey::Snapshots {
                universe_id: universe_id.clone(),
            },
        }
    }
}

impl ForgeLoadKey {
    fn kind_no(&self) -> (r: u8)
        ensures
            r as int == self.gate().0,
    {
        match self {
            ForgeLoadKey::Novels => 7,
            ForgeLoadKey::Chapters { .. } => 8,
            ForgeLoadKey::Scenes { .. } => 9,
        }
    }

    fn scope_str(&self) -> (r: &str)
        ensures
            r@ == self.gate().1,
    {
        match self {
            ForgeLoadKey::Novels => "",
            ForgeLoadKey::Chapters { novel_id } => novel_id.as_str(),
            ForgeLoadKey::Scenes { chapter_id } => chapter_id.as_str(),
        }
    }
}

impl GateKey for ForgeLoadKey {
    open spec fn gate(&self) -> Gate {
        match self {
            ForgeLoadKey::Novels => (kind_novels(), ""@),
            ForgeLoadKey::Chapters { novel_id } => (kind_chapters(), novel_id@),
            ForgeLoadKey::Scenes { chapter_id } => (kind_scenes(), chapter_id@),
        }
    }

    fn same_gate(&self, other: &Self) -> (r: bool) {
        self.kind_no() == other.kind_no() && str_eq(self.scope_str(), other.scope_str())
    }

    fn kind_of(&self) -> (r: u8) {
        self.kind_no()
    }

    fn copy_key(&self) -> (r: Self) {
        match self {
            ForgeLoadKey::Novels => ForgeLoadKey::Novels,
            ForgeLoadKey::Chapters { novel_id } => ForgeLoadKey::Chapters {
                novel_id: novel_id.clone(),
            },
            ForgeLoadKey::Scenes { chapter_id } => ForgeLoadKey::Scenes {
                chapter_id: chapter_id.clone(),
            },
        }
    }
}

/// Milliseconds from `since` to `now`, zero where `now` is earlier.
pub open spec fn elapsed(since: u64, now: u64) -> int {
    if now >= since {
        now - since
    } else {
        0
    }
}

/// A fetch last started (or loaded) at `last` is still inside its throttle
/// window at `now`. `None` means never, or force-expired.
pub open spec fn throttled(last: Option<u64>, now: u64, throttle: u64) -> bool {
    match last {
        Some(t) => elapsed(t, now) < throttle,
        None => false,
    }
}

/// Whether a begin for gate `g` is allowed on the in-progress set `s`.
pub open spec fn may_begin(s: Set<Gate>, g: Gate, last: Option<u64>, now: u64, throttle: u64) -> bool {
    !s.contains(g) && !throttled(last, now, throttle)
}

/// The in-progress set after a begin attempt for gate `g`.
pub open spec fn after_begin(s: Set<Gate>, g: Gate, last: Option<u64>, now: u64, throttle: u64) -> Set<Gate> {
    if may_begin(s, g, last, now, throttle) {
        s.insert(g)
    } else {
        s
    }
}

/// The in-progress set after the end of each gate in `ends`, in order.
pub open spec fn after_ends(s: Set<Gate>, ends: Seq<Gate>) -> Set<Gate>
    decreases ends.len(),
{
    if ends.len() == 0 {
        s
    } else {
        after_ends(s, ends.drop_last()).remove(ends.last())
    }
}

/// The in-progress set after successful begins of each gate in `begins`.
pub open spec fn after_begins(s: Set<Gate>, begins: Seq<Gate>) -> Set<Gate>
    decreases begins.len(),
{
    if begins.len() == 0 {
        s
    } else {
        after_begins(s, begins.drop_last()).insert(begins.last())
    }
}

/// The load slots named by a list of keys.
pub open spec fn gates_of<K: GateKey>(s: Seq<K>) -> Set<Gate> {
    Set::new(|g: Gate| exists|i: int| 0 <= i < s.len() && #[trigger] s[i].gate() == g)
}

proof fn lemma_gates_push<K: GateKey>(s: Seq<K>, x: K)
    ensures
        gates_of(s.push(x)) == gates_of(s).insert(x.gate()),
{
    assert(s.push(x)[s.len() as int] == x);
    assert forall|h: Gate| gates_of(s).contains(h) implies gates_of(s.push(x)).contains(h) by {
        let i = choose|i: int| 0 <= i < s.len() && #[trigger] s[i].gate() == h;
        assert(s.push(x)[i] == s[i]);
    }
    assert forall|h: Gate| gates_of(s.push(x)).contains(h) implies gates_of(s).insert(x.gate()).contains(h) by {
        let i = choose|i: int| 0 <= i < s.len() + 1 && #[trigger] s.push(x)[i].gate() == h;
        if i < s.len() {
            assert(s[i] == s.push(x)[i]);
        }
    }
    assert(gates_of(s.push(x)) =~= gates_of(s).insert(x.gate()));
}

proof fn lemma_gates_empty<K: GateKey>(s: Seq<K>)
    requires
        s.len() == 0,
    ensures
        gates_of(s) == Set::<Gate>::empty(),
{
    assert(gates_of(s) =~= Set::<Gate>::empty());
}

/// Per-key bookkeeping of fetches in progress.
pub struct LoadLedger<K: GateKey> {
    in_progress: Vec<K>,
}

impl<K: GateKey> LoadLedger<K> {
    /// The load slots of the fetches in progress.
    pub closed spec fn view(&self) -> Set<Gate> {
        gates_of(self.in_progress@)
    }

    /// No fetch in progress.
    pub fn new() -> (r: Self)
        ensures
            r.view() == Set::<Gate>::empty(),
    {
        let r = LoadLedger { in_progress: Vec::new() };
        proof {
            lemma_gates_empty(r.in_progress@);
        }
        r
    }

    /// Whether a fetch under `key` is in progress.
    pub fn is_in_progress(&self, key: &K) -> (r: bool)
        ensures
            r == self.view().contains(key.gate()),
    {
        let mut i: usize = 0;
        while i < self.in_progress.len()
            invariant
                i <= self.in_progress@.len(),
                forall|j: int| 0 <= j < i ==> self.in_progress@[j].gate() != key.gate(),
            decreases self.in_progress.len() - i,
        {
            if self.in_progress[i].same_gate(key) {
                assert(self.in_progress@[i as int].gate() == key.gate());
                return true;
            }
            i = i + 1;
        }
        false
    }

    /// Whether no fetch is in progress.
    pub fn is_idle(&self) -> (r: bool)
        ensures
            r == (self.view() == Set::<Gate>::empty()),
    {
        if self.in_progress.len() == 0 {
            proof {
                lemma_gates_empty(self.in_progress@);
            }
            true
        } else {
            assert(self.view().contains(self.in_progress@[0].gate()));
            false
        }
    }

    /// Marks `key` in progress.
    fn mark(&mut self, key: K)
        ensures
            final(self).view() == old(self).view().insert(key.gate()),
    {
        proof {
            lemma_gates_push(self.in_progress@, key);
        }
        self.in_progress.push(key);
    }

    /// Ends the fetch under `key`: always allowed, and a no-op where none
    /// is in progress.
    pub fn end(&mut self, key: &K)
        ensures
            final(self).view() == old(self).view().remove(key.gate()),
    {
        let ghost g = key.gate();
        let ghost orig = self.in_progress@;
        let mut kept: Vec<K> = Vec::new();
        proof {
            lemma_gates_empty(kept@);
            lemma_gates_empty(orig.take(0));
        }
        let mut i: usize = 0;
        while i < self.in_progress.len()
            invariant
                orig == self.in_progress@,
                g == key.gate(),
                i <= orig.len(),
                gates_of(kept@) == gates_of(orig.take(i as int)).remove(g),
            decreases self.in_progress.len() - i,
        {
            let ghost before = kept@;
            proof {
                assert(orig.take(i + 1) =~= orig.take(i as int).push(orig[i as int]));
                lemma_gates_push(orig.take(i as int), orig[i as int]);
            }
            let same = self.in_progress[i].same_gate(key);
            assert(same == (orig[i as int].gate() == g));
            if !same {
                let k = self.in_progress[i].copy_key();
                proof {
                    lemma_gates_push(before, k);
                }
                kept.push(k);
                assert(orig[i as int].gate() != g);
                assert(k.gate() == orig[i as int].gate());
                assert(gates_of(kept@) =~= gates_of(orig.take(i + 1)).remove(g));
            } else {
                assert(orig[i as int].gate() == g);
                assert(gates_of(kept@) =~= gates_of(orig.take(i + 1)).remove(g));
            }
            i = i + 1;
        }
        assert(orig.take(orig.len() as int) =~= orig);
        self.in_progress = kept;
    }

    /// Ends every fetch of kind `kind`, whatever its scope.
    pub fn end_kind(&mut self, kind: u8)
        ensures
            final(self).view() == old(self).view().filter(|g: Gate| g.0 != kind as int),
    {
        let ghost orig = self.in_progress@;
        let ghost keep = |g: Gate| g.0 != kind as int;
        let mut kept: Vec<K> = Vec::new();
        proof {
            lemma_gates_empty(kept@);
            lemma_gates_empty(orig.take(0));
            assert(gates_of(kept@) =~= gates_of(orig.take(0)).filter(keep));
        }
        let mut i: usize = 0;
        while i < self.in_progress.len()
            invariant
                orig == self.in_progress@,
                keep == (|g: Gate| g.0 != kind as int),
                i <= orig.len(),
                gates_of(kept@) == gates_of(orig.take(i as int)).filter(keep),
            decreases self.in_progress.len() - i,
        {
            let ghost before = kept@;
            proof {
                assert(orig.take(i + 1) =~= orig.take(i as int).push(orig[i as int]));
                lemma_gates_push(orig.take(i as int), orig[i as int]);
            }
            let k_no = self.in_progress[i].kind_of();
            if k_no != kind {
                let k = self.in_progress[i].copy_key();
                proof {
                    lemma_gates_push(before, k);
                }
                kept.push(k);
                assert(gates_of(kept@) =~= gates_of(orig.take(i + 1)).filter(keep));
            } else {
                assert(gates_of(kept@) =~= gates_of(orig.take(i + 1)).filter(keep));
            }
            i = i + 1;
        }
        assert(orig.take(orig.len() as int) =~= orig);
        self.in_progress = kept;
    }

    /// Ends every fetch in progress.
    pub fn clear(&mut self)
        ensures
            final(self).view() == Set::<Gate>::empty(),
    {
        self.in_progress.clear();
        assert(final(self).view() =~= Set::<Gate>::empty());
    }

    /// Begins an unscoped fetch: refused while one under `key` is in
    /// progress or while `last_reload` is inside the throttle window;
    /// otherwise `key` is marked in progress and `now` is returned, to be
    /// recorded by the caller as the new `last_reload`.
    pub fn try_begin_global(&mut self, key: K, last_reload: Option<u64>, now: u64, throttle: u64) -> (r: Option<u64>)
        ensures
            r is Some <==> may_begin(old(self).view(), key.gate(), last_reload, now, throttle),
            r is Some ==> r == Some(now),
            final(self).view() == after_begin(old(self).view(), key.gate(), last_reload, now, throttle),
    {
        if self.is_in_progress(&key) {
            return None;
        }
        if let Some(t) = last_reload {
            let el: u64 = if now >= t { now - t } else { 0 };
            if el < throttle {
                return None;
            }
        }
        self.mark(key);
        Some(now)
    }

    /// Begins a scoped fetch: the same refusals, but the throttle runs from
    /// the scope's own last successful load, `loaded_at`.
    pub fn try_begin_scoped(&mut self, key: K, loaded_at: Option<u64>, now: u64, throttle: u64) -> (r: bool)
        ensures
            r == may_begin(old(self).view(), key.gate(), loaded_at, now, throttle),
            final(self).view() == after_begin(old(self).view(), key.gate(), loaded_at, now, throttle),
    {
        self.try_begin_global(key, loaded_at, now, throttle).is_some()
    }
}

/// Two begins under one key with no end between them never both succeed.
pub proof fn lemma_gating_exclusive(
    s: Set<Gate>,
    g: Gate,
    last1: Option<u64>,
    now1: u64,
    last2: Option<u64>,
    now2: u64,
    throttle: u64,
)
    ensures
        !(may_begin(s, g, last1, now1, throttle) && may_begin(
            after_begin(s, g, last1, now1, throttle),
            g,
            last2,
            now2,
            throttle,
        )),
{
}

/// The in-progress set after a sequence of operations: `(true, h, last,
/// now, throttle)` begins `h` under those throttle inputs, `(false, h, ..)`
/// ends `h`.
pub open spec fn after_ops(s: Set<Gate>, ops: Seq<(bool, Gate, Option<u64>, u64, u64)>) -> Set<Gate>
    decreases ops.len(),
{
    if ops.len() == 0 {
        s
    } else {
        let prev = after_ops(s, ops.drop_last());
        let op = ops.last();
        if op.0 {
            after_begin(prev, op.1, op.2, op.3, op.4)
        } else {
            prev.remove(op.1)
        }
    }
}

/// Gating holds across any other activity: after a successful begin under
/// gate `g`, whatever begins (of any gate, with any throttle inputs) and
/// ends of other gates follow, a second begin under `g` is refused, with
/// any throttle inputs, until `g` itself is ended.
pub proof fn lemma_gating_exclusive_across(
    s: Set<Gate>,
    g: Gate,
    last1: Option<u64>,
    now1: u64,
    throttle1: u64,
    ops: Seq<(bool, Gate, Option<u64>, u64, u64)>,
    last2: Option<u64>,
    now2: u64,
    throttle2: u64,
)
    requires
        may_begin(s, g, last1, now1, throttle1),
        forall|i: int| 0 <= i < ops.len() && !(#[trigger] ops[i]).0 ==> ops[i].1 != g,
    ensures
        !may_begin(after_ops(after_begin(s, g, last1, now1, throttle1), ops), g, last2, now2, throttle2),
{
    lemma_in_progress_kept(after_begin(s, g, last1, now1, throttle1), g, ops);
}

proof fn lemma_in_progress_kept(s: Set<Gate>, g: Gate, ops: Seq<(bool, Gate, Option<u64>, u64, u64)>)
    requires
        s.contains(g),
        forall|i: int| 0 <= i < ops.len() && !(#[trigger] ops[i]).0 ==> ops[i].1 != g,
    ensures
        after_ops(s, ops).contains(g),
    decreases ops.len(),
{
    if ops.len() > 0 {
        assert forall|i: int| 0 <= i < ops.drop_last().len() && !(#[trigger] ops.drop_last()[i]).0 implies ops.drop_last()[i].1 != g by {
            assert(ops.drop_last()[i] == ops[i]);
        }
        lemma_in_progress_kept(s, g, ops.drop_last());
        assert(ops.last() == ops[ops.len() - 1]);
    }
}

/// Every begun fetch that is ended leaves the in-progress set: starting
/// from no fetch in progress, after the begins of `begins` and the ends of
/// `ends`, where every begun gate is ended, nothing is in progress.
pub proof fn lemma_all_released(begins: Seq<Gate>, ends: Seq<Gate>)
    requires
        forall|i: int| 0 <= i < begins.len() ==> ends.contains(#[trigger] begins[i]),
    ensures
        after_ends(after_begins(Set::empty(), begins), ends) == Set::<Gate>::empty(),
{
    lemma_after_begins(Set::empty(), begins);
    lemma_after_ends(after_begins(Set::empty(), begins), ends);
    assert(after_ends(after_begins(Set::empty(), begins), ends) =~= Set::<Gate>::empty()) by {
        assert forall|h: Gate| !after_ends(after_begins(Set::empty(), begins), ends).contains(h) by {
            if begins.to_set().contains(h) {
                let i = choose|i: int| 0 <= i < begins.len() && begins[i] == h;
                assert(ends.contains(begins[i]));
            }
        }
    }
}

proof fn lemma_after_begins(s: Set<Gate>, begins: Seq<Gate>)
    ensures
        after_begins(s, begins) == s + begins.to_set(),
    decreases begins.len(),
{
    if begins.len() > 0 {
        lemma_after_begins(s, begins.drop_last());
        assert(begins.to_set() =~= begins.drop_last().to_set().insert(begins.last())) by {
            assert forall|h: Gate| begins.to_set().contains(h) implies begins.drop_last().to_set().insert(begins.last()).contains(h) by {
                let i = choose|i: int| 0 <= i < begins.len() && begins[i] == h;
                if i < begins.len() - 1 {
                    assert(begins.drop_last()[i] == h);
                }
            }
            assert forall|h: Gate| begins.drop_last().to_set().contains(h) implies begins.to_set().contains(h) by {
                let i = choose|i: int| 0 <= i < begins.drop_last().len() && begins.drop_last()[i] == h;
                assert(begins[i] == h);
            }
        }
        assert(after_begins(s, begins) =~= s + begins.to_set());
    } else {
        assert(begins.to_set() =~= Set::<Gate>::empty());
        assert(after_begins(s, begins) =~= s + begins.to_set());
    }
}

pub proof fn lemma_after_ends(s: Set<Gate>, ends: Seq<Gate>)
    ensures
        after_ends(s, ends) == s - ends.to_set(),
    decreases ends.len(),
{
    if ends.len() > 0 {
        lemma_after_ends(s, ends.drop_last());
        assert(ends.to_set() =~= ends.drop_last().to_set().insert(ends.last())) by {
            assert forall|h: Gate| ends.to_set().contains(h) implies ends.drop_last().to_set().insert(ends.last()).contains(h) by {
                let i = choose|i: int| 0 <= i < ends.len() && ends[i] == h;
                if i < ends.len() - 1 {
                    assert(ends.drop_last()[i] == h);
                }
            }
            assert forall|h: Gate| ends.drop_last().to_set().contains(h) implies ends.to_set().contains(h) by {
                let i = choose|i: int| 0 <= i < ends.drop_last().len() && ends.drop_last()[i] == h;
                assert(ends[i] == h);
            }
        }
        assert(after_ends(s, ends) =~= s - ends.to_set());
    } else {
        assert(ends.to_set() =~= Set::<Gate>::empty());
        assert(after_ends(s, ends) =~= s - ends.to_set());
    }
}

} // verus!
