//! The novel tree (novel → chapter → scene): its caches, the selection
//! pointers into them, and the safe-fallback repair that keeps those
//! pointers valid after any change.

use vstd::prelude::*;
use vstd::hash_map::StringHashMap;
use vstd::hash_set::StringHashSet;
use crate::model::{Keyed, Novel, Chapter, Scene};
use crate::ledger::{LoadLedger, ForgeLoadKey, GateKey, Gate, throttled, elapsed};

verus! {

/// The view of an optional id.
pub open spec fn opt_view(o: Option<String>) -> Option<Seq<char>> {
    match o {
        Some(s) => Some(s@),
        None => None,
    }
}

/// `s` holds a record with id `id`.
pub open spec fn holds_id<T: Keyed>(s: Seq<T>, id: Seq<char>) -> bool {
    exists|i: int| 0 <= i < s.len() && #[trigger] s[i].key() == id
}

/// The ids held by `s`.
pub open spec fn ids_of<T: Keyed>(s: Seq<T>) -> Set<Seq<char>> {
    Set::new(|k: Seq<char>| holds_id(s, k))
}

/// The id of the first record of `s`, if any.
pub open spec fn first_id<T: Keyed>(s: Seq<T>) -> Option<Seq<char>> {
    if s.len() > 0 {
        Some(s[0].key())
    } else {
        None
    }
}

/// A selection that names a record of `s`.
pub open spec fn points_into<T: Keyed>(sel: Option<Seq<char>>, s: Seq<T>) -> bool {
    sel matches Some(id) && holds_id(s, id)
}

/// The selection-relevant part of the novel tree state.
pub struct Selection {
    pub novels: Seq<Novel>,
    pub active_novel: Option<Seq<char>>,
    pub novel_chapters: Seq<Chapter>,
    pub chapter_tree: Map<Seq<char>, Seq<Chapter>>,
    pub active_chapter: Option<Seq<char>>,
    pub chapter_scenes: Seq<Scene>,
    pub scene_tree: Map<Seq<char>, Seq<Scene>>,
    pub active_scene: Option<Seq<char>>,
    pub expanded_novels: Set<Seq<char>>,
    pub expanded_chapters: Set<Seq<char>>,
    pub editor: Seq<char>,
    pub last_edit: Option<u64>,
    pub debounce_pending: Option<u64>,
}

/// The editor closed: its text emptied and any pending autosave cancelled.
pub open spec fn editor_closed(s: Selection) -> Selection {
    Selection { editor: Seq::empty(), last_edit: None, debounce_pending: None, ..s }
}

/// First step of the repair: an active novel that does not exist falls back
/// to the first novel (or none), and everything below it is cleared.
pub open spec fn repair_novel(s: Selection) -> Selection {
    if points_into(s.active_novel, s.novels) {
        s
    } else {
        editor_closed(
            Selection {
                active_novel: first_id(s.novels),
                novel_chapters: Seq::empty(),
                active_chapter: None,
                chapter_scenes: Seq::empty(),
                active_scene: None,
                ..s
            },
        )
    }
}

/// Second step: the active novel is expanded, its chapter view is filled
/// from the tree where empty, and an active chapter that is not in that
/// view falls back to its first chapter (or none), clearing the scenes.
pub open spec fn repair_chapter(s: Selection) -> Selection {
    match s.active_novel {
        None => s,
        Some(nid) => {
            let s1 = Selection {
                expanded_novels: s.expanded_novels.insert(nid),
                novel_chapters: if s.novel_chapters.len() == 0 && s.chapter_tree.contains_key(nid) {
                    s.chapter_tree[nid]
                } else {
                    s.novel_chapters
                },
                ..s
            };
            if points_into(s1.active_chapter, s1.novel_chapters) {
                s1
            } else {
                editor_closed(
                    Selection {
                        active_chapter: first_id(s1.novel_chapters),
                        chapter_scenes: Seq::empty(),
                        active_scene: None,
                        ..s1
                    },
                )
            }
        },
    }
}

/// Third step: the same one level down, for scenes; the editor is closed
/// only where no scene is left to select.
pub open spec fn repair_scene(s: Selection) -> Selection {
    match s.active_chapter {
        None => s,
        Some(cid) => {
            let s1 = Selection {
                expanded_chapters: s.expanded_chapters.insert(cid),
                chapter_scenes: if s.chapter_scenes.len() == 0 && s.scene_tree.contains_key(cid) {
                    s.scene_tree[cid]
                } else {
                    s.chapter_scenes
                },
                ..s
            };
            if points_into(s1.active_scene, s1.chapter_scenes) {
                s1
            } else {
                let s2 = Selection { active_scene: first_id(s1.chapter_scenes), ..s1 };
                if s2.active_scene is None {
                    editor_closed(s2)
                } else {
                    s2
                }
            }
        },
    }
}

/// The safe-fallback repair of the selection chain.
pub open spec fn repaired(s: Selection) -> Selection {
    repair_scene(repair_chapter(repair_novel(s)))
}

/// Every selection pointer names an existing record or is empty, and a
/// pointer below an empty one is empty too.
pub open spec fn selection_valid(s: Selection) -> bool {
    &&& (s.active_novel is None || points_into(s.active_novel, s.novels))
    &&& (s.active_chapter is None || points_into(s.active_chapter, s.novel_chapters))
    &&& (s.active_scene is None || points_into(s.active_scene, s.chapter_scenes))
    &&& (s.active_novel is None ==> s.active_chapter is None)
    &&& (s.active_chapter is None ==> s.active_scene is None)
}

proof fn lemma_first_points<T: Keyed>(s: Seq<T>)
    ensures
        first_id(s) is Some ==> points_into(first_id(s), s),
{
    if s.len() > 0 {
        assert(s[0].key() == s[0].key());
    }
}

/// After the repair no selection pointer dangles: each names an existing
/// record, or is empty.
pub proof fn lemma_repair_valid(s: Selection)
    ensures
        selection_valid(repaired(s)),
{
    lemma_first_points(s.novels);
    let a = repair_novel(s);
    lemma_first_points(a.novels);
    let b = repair_chapter(a);
    if let Some(nid) = a.active_novel {
        let nc = if a.novel_chapters.len() == 0 && a.chapter_tree.contains_key(nid) {
            a.chapter_tree[nid]
        } else {
            a.novel_chapters
        };
        lemma_first_points(nc);
    }
    if let Some(cid) = b.active_chapter {
        let sc = if b.chapter_scenes.len() == 0 && b.scene_tree.contains_key(cid) {
            b.scene_tree[cid]
        } else {
            b.chapter_scenes
        };
        lemma_first_points(sc);
    }
}

/// The repair is idempotent: repairing twice gives what repairing once gave.
pub proof fn lemma_repair_idempotent(s: Selection)
    ensures
        repaired(repaired(s)) == repaired(s),
{
    lemma_repair_valid(s);
    let r = repaired(s);
    lemma_first_points(s.novels);
    let a = repair_novel(s);
    let b = repair_chapter(a);
    if let Some(nid) = a.active_novel {
        let nc = if a.novel_chapters.len() == 0 && a.chapter_tree.contains_key(nid) {
            a.chapter_tree[nid]
        } else {
            a.novel_chapters
        };
        lemma_first_points(nc);
    }
    if let Some(cid) = b.active_chapter {
        let sc = if b.chapter_scenes.len() == 0 && b.scene_tree.contains_key(cid) {
            b.scene_tree[cid]
        } else {
            b.chapter_scenes
        };
        lemma_first_points(sc);
    }
    // second pass: every step leaves `r` as it is
    assert(repair_novel(r) == r);
    let r2 = repair_chapter(r);
    if let Some(nid) = r.active_novel {
        assert(r.expanded_novels.insert(nid) =~= r.expanded_novels);
        if r.novel_chapters.len() == 0 && r.chapter_tree.contains_key(nid) {
            assert(r.novel_chapters =~= r.chapter_tree[nid]) by {
                assert(a.active_novel == Some(nid));
                if a.novel_chapters.len() == 0 {
                } else {
                    assert(false);
                }
            }
        }
        if r.active_chapter is None {
            assert(r.chapter_scenes == Seq::<Scene>::empty()) by {
                assert(b.active_chapter is None);
            }
            assert(r.novel_chapters.len() == 0);
            assert(r.editor == Seq::<char>::empty());
        }
        assert(r2 =~= r);
    } else {
        assert(r2 == r);
    }
    let r3 = repair_scene(r2);
    if let Some(cid) = r2.active_chapter {
        assert(r2.expanded_chapters.insert(cid) =~= r2.expanded_chapters);
        if r2.chapter_scenes.len() == 0 && r2.scene_tree.contains_key(cid) {
            assert(r2.chapter_scenes =~= r2.scene_tree[cid]);
        }
        if r2.active_scene is None {
            assert(r2.chapter_scenes.len() == 0);
            assert(r2.editor == Seq::<char>::empty());
        }
        assert(r3 =~= r2);
    } else {
        assert(r3 == r2);
    }
}

/// Whether `s` holds a record with id `id`.
pub fn holds<T: Keyed>(s: &Vec<T>, id: &str) -> (r: bool)
    ensures
        r == holds_id(s@, id@),
{
    let mut i: usize = 0;
    while i < s.len()
        invariant
            i <= s@.len(),
            forall|j: int| 0 <= j < i ==> s@[j].key() != id@,
        decreases s.len() - i,
    {
        if crate::text::str_eq(s[i].id_str(), id) {
            assert(s@[i as int].key() == id@);
            return true;
        }
        i = i + 1;
    }
    false
}

/// The id of the first record of `s`, if any.
pub fn first_key<T: Keyed>(s: &Vec<T>) -> (r: Option<String>)
    ensures
        opt_view(r) == first_id(s@),
{
    if s.len() > 0 {
        Some(s[0].id_str().to_string())
    } else {
        None
    }
}

/// A copy equal to `s`.
pub fn copy_vec<T: Keyed>(s: &Vec<T>) -> (r: Vec<T>)
    ensures
        r@ == s@,
{
    let mut r: Vec<T> = Vec::new();
    let mut i: usize = 0;
    while i < s.len()
        invariant
            i <= s@.len(),
            r@ == s@.take(i as int),
        decreases s.len() - i,
    {
        r.push(s[i].duplicate());
        assert(r@ =~= s@.take(i + 1));
        i = i + 1;
    }
    assert(s@.take(s@.len() as int) =~= s@);
    r
}

/// Whether `sel` names a record of `s`.
pub fn points_to<T: Keyed>(sel: &Option<String>, s: &Vec<T>) -> (r: bool)
    ensures
        r == points_into(opt_view(*sel), s@),
{
    match sel {
        Some(id) => holds(s, id.as_str()),
        None => false,
    }
}

/// A tree of records by parent id, viewed with plain sequences.
pub open spec fn tree_view<T>(m: Map<Seq<char>, Vec<T>>) -> Map<Seq<char>, Seq<T>> {
    m.map_values(|v: Vec<T>| v@)
}

/// Bookkeeping of the novel-tree fetches.
pub struct ForgeLoads {
    pub ledger: LoadLedger<ForgeLoadKey>,
    pub chapters_loaded_for: StringHashMap<u64>,
    pub scenes_loaded_for: StringHashMap<u64>,
    pub last_novels_reload: Option<u64>,
    pub last_chapters_reload: Option<u64>,
    pub last_scenes_reload: Option<u64>,
}

/// The novel tree: cached lists, the per-parent tree caches that are the
/// source of truth, the selection, and the scene editor.
pub struct ForgeState {
    pub novels: Vec<Novel>,
    pub active_novel_id: Option<String>,
    pub active_novel_chapters: Vec<Chapter>,
    pub chapters_by_novel_id: StringHashMap<Vec<Chapter>>,
    pub active_chapter_id: Option<String>,
    pub active_chapter_scenes: Vec<Scene>,
    pub scenes_by_chapter_id: StringHashMap<Vec<Scene>>,
    pub active_scene_id: Option<String>,
    pub expanded_novels: StringHashSet,
    pub expanded_chapters: StringHashSet,
    pub editor_text: String,
    pub last_edit: Option<u64>,
    pub debounce_pending: Option<u64>,
    pub debounce_counter: u64,
    pub loads: ForgeLoads,
}

impl ForgeState {
    /// The selection-relevant part of the state.
    pub open spec fn sel(&self) -> Selection {
        Selection {
            novels: self.novels@,
            active_novel: opt_view(self.active_novel_id),
            novel_chapters: self.active_novel_chapters@,
            chapter_tree: tree_view(self.chapters_by_novel_id@),
            active_chapter: opt_view(self.active_chapter_id),
            chapter_scenes: self.active_chapter_scenes@,
            scene_tree: tree_view(self.scenes_by_chapter_id@),
            active_scene: opt_view(self.active_scene_id),
            expanded_novels: self.expanded_novels@,
            expanded_chapters: self.expanded_chapters@,
            editor: self.editor_text@,
            last_edit: self.last_edit,
            debounce_pending: self.debounce_pending,
        }
    }

    /// An empty tree with nothing selected and nothing loaded.
    pub fn new() -> (r: Self)
        ensures
            r.sel().novels.len() == 0,
            r.sel().active_novel is None,
            r.loads.ledger.view() == Set::<crate::ledger::Gate>::empty(),
            r.debounce_counter == 0,
    {
        ForgeState {
            novels: Vec::new(),
            active_novel_id: None,
            active_novel_chapters: Vec::new(),
            chapters_by_novel_id: StringHashMap::new(),
            active_chapter_id: None,
            active_chapter_scenes: Vec::new(),
            scenes_by_chapter_id: StringHashMap::new(),
            active_scene_id: None,
            expanded_novels: StringHashSet::new(),
            expanded_chapters: StringHashSet::new(),
            editor_text: String::new(),
            last_edit: None,
            debounce_pending: None,
            debounce_counter: 0,
            loads: ForgeLoads {
                ledger: LoadLedger::new(),
                chapters_loaded_for: StringHashMap::new(),
                scenes_loaded_for: StringHashMap::new(),
                last_novels_reload: None,
                last_chapters_reload: None,
                last_scenes_reload: None,
            },
        }
    }

    /// Closes the editor: empties its text and cancels a pending autosave.
    pub fn close_editor(&mut self)
        ensures
            final(self).sel() == editor_closed(old(self).sel()),
            final(self).loads == old(self).loads,
            final(self).debounce_counter == old(self).debounce_counter,
    {
        self.editor_text = String::new();
        self.cancel_debounce();
    }

    /// Cancels a pending autosave.
    pub fn cancel_debounce(&mut self)
        ensures
            final(self).sel() == (Selection { last_edit: None, debounce_pending: None, ..old(self).sel() }),
            final(self).loads == old(self).loads,
            final(self).debounce_counter == old(self).debounce_counter,
    {
        self.last_edit = None;
        self.debounce_pending = None;
    }

    fn repair_novel_step(&mut self)
        ensures
            final(self).sel() == repair_novel(old(self).sel()),
            final(self).loads == old(self).loads,
            final(self).debounce_counter == old(self).debounce_counter,
    {
        if !points_to(&self.active_novel_id, &self.novels) {
            self.active_novel_id = first_key(&self.novels);
            self.active_novel_chapters = Vec::new();
            self.active_chapter_id = None;
            self.active_chapter_scenes = Vec::new();
            self.active_scene_id = None;
            self.close_editor();
            assert(self.sel() =~= repair_novel(old(self).sel()));
        }
    }

    fn repair_chapter_step(&mut self)
        ensures
            final(self).sel() == repair_chapter(old(self).sel()),
            final(self).loads == old(self).loads,
            final(self).debounce_counter == old(self).debounce_counter,
    {
        let nid = match &self.active_novel_id {
            Some(n) => n.clone(),
            None => return,
        };
        self.expanded_novels.insert(nid.clone());
        if self.active_novel_chapters.len() == 0 {
            match self.chapters_by_novel_id.get(nid.as_str()) {
                Some(cached) => {
                    self.active_novel_chapters = copy_vec(cached);
                },
                None => {},
            }
        }
        if !points_to(&self.active_chapter_id, &self.active_novel_chapters) {
            self.active_chapter_id = first_key(&self.active_novel_chapters);
            self.active_chapter_scenes = Vec::new();
            self.active_scene_id = None;
            self.close_editor();
        }
        assert(self.sel() =~= repair_chapter(old(self).sel()));
    }

    fn repair_scene_step(&mut self)
        ensures
            final(self).sel() == repair_scene(old(self).sel()),
            final(self).loads == old(self).loads,
            final(self).debounce_counter == old(self).debounce_counter,
    {
        let cid = match &self.active_chapter_id {
            Some(c) => c.clone(),
            None => return,
        };
        self.expanded_chapters.insert(cid.clone());
        if self.active_chapter_scenes.len() == 0 {
            match self.scenes_by_chapter_id.get(cid.as_str()) {
                Some(cached) => {
                    self.active_chapter_scenes = copy_vec(cached);
                },
                None => {},
            }
        }
        if !points_to(&self.active_scene_id, &self.active_chapter_scenes) {
            self.active_scene_id = first_key(&self.active_chapter_scenes);
            if self.active_scene_id.is_none() {
                self.close_editor();
            }
        }
        assert(self.sel() =~= repair_scene(old(self).sel()));
    }

    /// The safe-fallback repair: every selection pointer that no longer
    /// names an existing record falls back to the first sibling (or none),
    /// clearing what depended on it.
    pub fn ensure_safe_fallback(&mut self)
        ensures
            final(self).sel() == repaired(old(self).sel()),
            selection_valid(final(self).sel()),
            final(self).loads == old(self).loads,
            final(self).debounce_counter == old(self).debounce_counter,
    {
        proof {
            lemma_repair_valid(self.sel());
        }
        self.repair_novel_step();
        self.repair_chapter_step();
        self.repair_scene_step();
    }
}

proof fn lemma_ids_take<T: Keyed>(s: Seq<T>, i: int)
    requires
        0 <= i < s.len(),
    ensures
        ids_of(s.take(i + 1)) == ids_of(s.take(i)).insert(s[i].key()),
{
    let a = s.take(i + 1);
    let b = s.take(i);
    assert forall|k: Seq<char>| ids_of(a).contains(k) implies ids_of(b).insert(s[i].key()).contains(k) by {
        let j = choose|j: int| 0 <= j < a.len() && #[trigger] a[j].key() == k;
        if j < i {
            assert(b[j].key() == k);
        }
    }
    assert forall|k: Seq<char>| ids_of(b).insert(s[i].key()).contains(k) implies ids_of(a).contains(k) by {
        if k == s[i].key() {
            assert(a[i].key() == k);
        } else {
            let j = choose|j: int| 0 <= j < b.len() && #[trigger] b[j].key() == k;
            assert(a[j].key() == k);
        }
    }
    assert(ids_of(a) =~= ids_of(b).insert(s[i].key()));
}

/// Adds the id of every record of `s` to `set`.
pub fn expand_all<T: Keyed>(set: &mut StringHashSet, s: &Vec<T>)
    ensures
        final(set)@ == old(set)@ + ids_of(s@),
{
    let mut i: usize = 0;
    assert(ids_of(s@.take(0)) =~= Set::<Seq<char>>::empty());
    assert(set@ =~= old(set)@ + ids_of(s@.take(0)));
    while i < s.len()
        invariant
            i <= s@.len(),
            set@ == old(set)@ + ids_of(s@.take(i as int)),
        decreases s.len() - i,
    {
        proof {
            lemma_ids_take(s@, i as int);
        }
        set.insert(s[i].id_str().to_string());
        assert(set@ =~= old(set)@ + ids_of(s@.take(i + 1)));
        i = i + 1;
    }
    assert(s@.take(s@.len() as int) =~= s@);
}

/// What the tree holds for `parent`, empty where nothing is cached.
pub open spec fn cached_under<T>(tree: Map<Seq<char>, Seq<T>>, parent: Seq<char>) -> Seq<T> {
    if tree.contains_key(parent) {
        tree[parent]
    } else {
        Seq::empty()
    }
}

/// The selection after a successful novels fetch: the list is replaced,
/// every novel expanded, and where no novel was selected the first one is,
/// with everything below it cleared.
pub open spec fn novels_applied(s: Selection, n: Seq<Novel>) -> Selection {
    let s1 = Selection { novels: n, expanded_novels: s.expanded_novels + ids_of(n), ..s };
    if s.active_novel is None && n.len() > 0 {
        Selection {
            active_novel: first_id(n),
            novel_chapters: Seq::empty(),
            active_chapter: None,
            chapter_scenes: Seq::empty(),
            active_scene: None,
            ..s1
        }
    } else {
        s1
    }
}

/// The selection after chapters of novel `nid` were fetched and merged into
/// the list `m`: the tree entry becomes `m`; where `nid` is the active
/// novel, the chapter view becomes `m`, its chapters are expanded, and
/// where no chapter was selected the first one is, clearing the scenes.
/// A response for another novel only fills the tree.
pub open spec fn chapters_applied(s: Selection, nid: Seq<char>, m: Seq<Chapter>) -> Selection {
    let s1 = Selection { chapter_tree: s.chapter_tree.insert(nid, m), ..s };
    if s.active_novel == Some(nid) {
        let s2 = Selection {
            novel_chapters: m,
            expanded_chapters: s.expanded_chapters + ids_of(m),
            ..s1
        };
        if s.active_chapter is None && m.len() > 0 {
            Selection {
                active_chapter: first_id(m),
                chapter_scenes: Seq::empty(),
                active_scene: None,
                ..s2
            }
        } else {
            s2
        }
    } else {
        s1
    }
}

/// The selection after scenes of chapter `cid` were fetched and merged into
/// the list `m`: the tree entry becomes `m`; where `cid` is the active
/// chapter, the scene view becomes `m` and where no scene was selected the
/// first one is. A response for another chapter only fills the tree.
pub open spec fn scenes_applied(s: Selection, cid: Seq<char>, m: Seq<Scene>) -> Selection {
    let s1 = Selection { scene_tree: s.scene_tree.insert(cid, m), ..s };
    if s.active_chapter == Some(cid) {
        let s2 = Selection { chapter_scenes: m, ..s1 };
        if s.active_scene is None && m.len() > 0 {
            Selection { active_scene: first_id(m), ..s2 }
        } else {
            s2
        }
    } else {
        s1
    }
}

impl ForgeState {
    /// Applies a successful novels fetch.
    pub fn apply_novels(&mut self, novels: Vec<Novel>)
        ensures
            final(self).sel() == novels_applied(old(self).sel(), novels@),
            final(self).loads == old(self).loads,
            final(self).debounce_counter == old(self).debounce_counter,
    {
        expand_all(&mut self.expanded_novels, &novels);
        let first = first_key(&novels);
        self.novels = novels;
        if self.active_novel_id.is_none() && first.is_some() {
            self.active_novel_id = first;
            self.active_novel_chapters = Vec::new();
            self.active_chapter_id = None;
            self.active_chapter_scenes = Vec::new();
            self.active_scene_id = None;
        }
        assert(self.sel() =~= novels_applied(old(self).sel(), novels@));
    }

    /// Applies a successful chapters fetch for novel `novel_id`: the
    /// fetched chapters are merged with the ones the tree holds for that
    /// novel, the local ones winning.
    pub fn apply_chapters(&mut self, novel_id: &str, fetched: Vec<Chapter>)
        ensures
            final(self).sel().chapter_tree.contains_key(novel_id@),
            crate::merge::lists(
                final(self).sel().chapter_tree[novel_id@],
                crate::merge::merged(fetched@, cached_under(old(self).sel().chapter_tree, novel_id@)),
            ),
            final(self).sel() == chapters_applied(
                old(self).sel(),
                novel_id@,
                final(self).sel().chapter_tree[novel_id@],
            ),
            final(self).loads == old(self).loads,
            final(self).debounce_counter == old(self).debounce_counter,
    {
        let local: Vec<Chapter> = match self.chapters_by_novel_id.get(novel_id) {
            Some(l) => copy_vec(l),
            None => Vec::new(),
        };
        assert(local@ == cached_under(old(self).sel().chapter_tree, novel_id@));
        let merged = crate::merge::merge_local_wins(&fetched, &local);
        let ghost m = merged@;
        self.chapters_by_novel_id.insert(novel_id.to_string(), copy_vec(&merged));
        assert(tree_view(self.chapters_by_novel_id@) =~= old(self).sel().chapter_tree.insert(novel_id@, m));
        let is_active = match &self.active_novel_id {
            Some(a) => crate::text::str_eq(a.as_str(), novel_id),
            None => false,
        };
        if is_active {
            expand_all(&mut self.expanded_chapters, &merged);
            let first = first_key(&merged);
            self.active_novel_chapters = merged;
            if self.active_chapter_id.is_none() && first.is_some() {
                self.active_chapter_id = first;
                self.active_chapter_scenes = Vec::new();
                self.active_scene_id = None;
            }
        }
        assert(self.sel().chapter_tree[novel_id@] == m);
        assert(self.sel() =~= chapters_applied(old(self).sel(), novel_id@, m));
    }

    /// Applies a successful scenes fetch for chapter `chapter_id`, merged
    /// with the scenes the tree holds for it, the local ones winning.
    pub fn apply_scenes(&mut self, chapter_id: &str, fetched: Vec<Scene>)
        ensures
            final(self).sel().scene_tree.contains_key(chapter_id@),
            crate::merge::lists(
                final(self).sel().scene_tree[chapter_id@],
                crate::merge::merged(fetched@, cached_under(old(self).sel().scene_tree, chapter_id@)),
            ),
            final(self).sel() == scenes_applied(
                old(self).sel(),
                chapter_id@,
                final(self).sel().scene_tree[chapter_id@],
            ),
            final(self).loads == old(self).loads,
            final(self).debounce_counter == old(self).debounce_counter,
    {
        let local: Vec<Scene> = match self.scenes_by_chapter_id.get(chapter_id) {
            Some(l) => copy_vec(l),
            None => Vec::new(),
        };
        let merged = crate::merge::merge_local_wins(&fetched, &local);
        let ghost m = merged@;
        self.scenes_by_chapter_id.insert(chapter_id.to_string(), copy_vec(&merged));
        assert(tree_view(self.scenes_by_chapter_id@) =~= old(self).sel().scene_tree.insert(chapter_id@, m));
        let is_active = match &self.active_chapter_id {
            Some(a) => crate::text::str_eq(a.as_str(), chapter_id),
            None => false,
        };
        if is_active {
            let first = first_key(&merged);
            self.active_chapter_scenes = merged;
            if self.active_scene_id.is_none() && first.is_some() {
                self.active_scene_id = first;
            }
        }
        assert(self.sel().scene_tree[chapter_id@] == m);
        assert(self.sel() =~= scenes_applied(old(self).sel(), chapter_id@, m));
    }
}

/// Minimum time between two fetches of the novel tree, in milliseconds.
pub const FORGE_THROTTLE_MS: u64 = 800;

/// When the loaded-for map records the last successful load of `scope`.
pub open spec fn loaded_at(m: Map<Seq<char>, u64>, scope: Seq<char>) -> Option<u64> {
    if m.contains_key(scope) {
        Some(m[scope])
    } else {
        None
    }
}

/// The load slot of the novels list.
pub open spec fn novels_gate() -> Gate {
    ForgeLoadKey::Novels.gate()
}

/// The load slot of the chapters of novel `nid`.
pub open spec fn chapters_gate(nid: Seq<char>) -> Gate {
    (crate::ledger::kind_chapters(), nid)
}

/// The load slot of the scenes of chapter `cid`.
pub open spec fn scenes_gate(cid: Seq<char>) -> Gate {
    (crate::ledger::kind_scenes(), cid)
}

/// The novel tree's loads are as they were.
pub open spec fn same_loads(a: &ForgeLoads, b: &ForgeLoads) -> bool {
    &&& a.ledger.view() == b.ledger.view()
    &&& a.chapters_loaded_for@ == b.chapters_loaded_for@
    &&& a.scenes_loaded_for@ == b.scenes_loaded_for@
    &&& a.last_novels_reload == b.last_novels_reload
    &&& a.last_chapters_reload == b.last_chapters_reload
    &&& a.last_scenes_reload == b.last_scenes_reload
}

/// Whether the novels list is to be fetched now.
pub open spec fn novels_load_due(f: &ForgeState, on_forge: bool, universe: Option<Seq<char>>, now: u64) -> bool {
    &&& on_forge
    &&& f.novels@.len() == 0
    &&& universe is Some
    &&& !f.loads.ledger.view().contains(novels_gate())
    &&& !throttled(f.loads.last_novels_reload, now, FORGE_THROTTLE_MS)
}

/// Whether the chapters of novel `nid` are to be fetched now: only for the
/// active novel, when no such fetch is in progress and neither the novel's
/// own last load nor the last chapters fetch is inside the throttle window.
pub open spec fn chapters_load_due(f: &ForgeState, on_forge: bool, nid: Seq<char>, now: u64) -> bool {
    &&& on_forge
    &&& opt_view(f.active_novel_id) == Some(nid)
    &&& !f.loads.ledger.view().contains(chapters_gate(nid))
    &&& !throttled(loaded_at(f.loads.chapters_loaded_for@, nid), now, FORGE_THROTTLE_MS)
    &&& !throttled(f.loads.last_chapters_reload, now, FORGE_THROTTLE_MS)
}

/// Whether the scenes of chapter `cid` are to be fetched now.
pub open spec fn scenes_load_due(f: &ForgeState, on_forge: bool, cid: Seq<char>, now: u64) -> bool {
    &&& on_forge
    &&& opt_view(f.active_chapter_id) == Some(cid)
    &&& !f.loads.ledger.view().contains(scenes_gate(cid))
    &&& !throttled(loaded_at(f.loads.scenes_loaded_for@, cid), now, FORGE_THROTTLE_MS)
    &&& !throttled(f.loads.last_scenes_reload, now, FORGE_THROTTLE_MS)
}

/// Whether `last` is inside the throttle window at `now`.
fn is_throttled(last: Option<u64>, now: u64, throttle: u64) -> (r: bool)
    ensures
        r == throttled(last, now, throttle),
{
    match last {
        Some(t) => {
            let el: u64 = if now >= t { now - t } else { 0 };
            el < throttle
        },
        None => false,
    }
}

/// The last load recorded for `scope`.
fn get_loaded_at(m: &StringHashMap<u64>, scope: &str) -> (r: Option<u64>)
    ensures
        r == loaded_at(m@, scope@),
{
    match m.get(scope) {
        Some(t) => Some(*t),
        None => None,
    }
}

impl ForgeState {
    /// Begins the novels fetch when it is due; returns the universe to
    /// fetch the novels of.
    pub fn load_novels_if_needed(&mut self, on_forge: bool, universe: &Option<String>, now: u64) -> (r: Option<String>)
        ensures
            r is Some <==> novels_load_due(old(self), on_forge, opt_view(*universe), now),
            r is Some ==> opt_view(r) == opt_view(*universe)
                && final(self).loads.ledger.view() == old(self).loads.ledger.view().insert(novels_gate())
                && final(self).loads.last_novels_reload == Some(now),
            r is None ==> same_loads(&final(self).loads, &old(self).loads),
            final(self).loads.chapters_loaded_for@ == old(self).loads.chapters_loaded_for@,
            final(self).loads.scenes_loaded_for@ == old(self).loads.scenes_loaded_for@,
            final(self).loads.last_chapters_reload == old(self).loads.last_chapters_reload,
            final(self).loads.last_scenes_reload == old(self).loads.last_scenes_reload,
            final(self).sel() == old(self).sel(),
            final(self).debounce_counter == old(self).debounce_counter,
    {
        if !on_forge || self.novels.len() > 0 {
            return None;
        }
        let uid = match universe {
            Some(u) => u.clone(),
            None => return None,
        };
        match self.loads.ledger.try_begin_global(
            ForgeLoadKey::Novels,
            self.loads.last_novels_reload,
            now,
            FORGE_THROTTLE_MS,
        ) {
            Some(t) => {
                self.loads.last_novels_reload = Some(t);
                Some(uid)
            },
            None => None,
        }
    }

    /// Begins the chapters fetch of novel `novel_id` when it is due.
    pub fn load_chapters_if_needed(&mut self, on_forge: bool, novel_id: &str, now: u64) -> (r: bool)
        ensures
            r == chapters_load_due(old(self), on_forge, novel_id@, now),
            r ==> final(self).loads.ledger.view() == old(self).loads.ledger.view().insert(chapters_gate(novel_id@))
                && final(self).loads.last_chapters_reload == Some(now),
            !r ==> same_loads(&final(self).loads, &old(self).loads),
            final(self).loads.chapters_loaded_for@ == old(self).loads.chapters_loaded_for@,
            final(self).loads.scenes_loaded_for@ == old(self).loads.scenes_loaded_for@,
            final(self).loads.last_novels_reload == old(self).loads.last_novels_reload,
            final(self).loads.last_scenes_reload == old(self).loads.last_scenes_reload,
            final(self).sel() == old(self).sel(),
            final(self).debounce_counter == old(self).debounce_counter,
    {
        if !on_forge {
            return false;
        }
        let is_active = match &self.active_novel_id {
            Some(a) => crate::text::str_eq(a.as_str(), novel_id),
            None => false,
        };
        if !is_active {
            return false;
        }
        let key = ForgeLoadKey::Chapters { novel_id: novel_id.to_string() };
        if self.loads.ledger.is_in_progress(&key) {
            return false;
        }
        if is_throttled(get_loaded_at(&self.loads.chapters_loaded_for, novel_id), now, FORGE_THROTTLE_MS) {
            return false;
        }
        if is_throttled(self.loads.last_chapters_reload, now, FORGE_THROTTLE_MS) {
            return false;
        }
        self.loads.last_chapters_reload = Some(now);
        self.loads.ledger.try_begin_global(key, None, now, FORGE_THROTTLE_MS);
        true
    }

    /// Begins the scenes fetch of chapter `chapter_id` when it is due.
    pub fn load_scenes_if_needed(&mut self, on_forge: bool, chapter_id: &str, now: u64) -> (r: bool)
        ensures
            r == scenes_load_due(old(self), on_forge, chapter_id@, now),
            r ==> final(self).loads.ledger.view() == old(self).loads.ledger.view().insert(scenes_gate(chapter_id@))
                && final(self).loads.last_scenes_reload == Some(now),
            !r ==> same_loads(&final(self).loads, &old(self).loads),
            final(self).loads.chapters_loaded_for@ == old(self).loads.chapters_loaded_for@,
            final(self).loads.scenes_loaded_for@ == old(self).loads.scenes_loaded_for@,
            final(self).loads.last_novels_reload == old(self).loads.last_novels_reload,
            final(self).loads.last_chapters_reload == old(self).loads.last_chapters_reload,
            final(self).sel() == old(self).sel(),
            final(self).debounce_counter == old(self).debounce_counter,
    {
        if !on_forge {
            return false;
        }
        let is_active = match &self.active_chapter_id {
            Some(a) => crate::text::str_eq(a.as_str(), chapter_id),
            None => false,
        };
        if !is_active {
            return false;
        }
        let key = ForgeLoadKey::Scenes { chapter_id: chapter_id.to_string() };
        if self.loads.ledger.is_in_progress(&key) {
            return false;
        }
        if is_throttled(get_loaded_at(&self.loads.scenes_loaded_for, chapter_id), now, FORGE_THROTTLE_MS) {
            return false;
        }
        if is_throttled(self.loads.last_scenes_reload, now, FORGE_THROTTLE_MS) {
            return false;
        }
        self.loads.last_scenes_reload = Some(now);
        self.loads.ledger.try_begin_global(key, None, now, FORGE_THROTTLE_MS);
        true
    }

    /// Ends the novels fetch.
    pub fn mark_novels_load_finished(&mut self)
        ensures
            final(self).loads.ledger.view() == old(self).loads.ledger.view().remove(novels_gate()),
            final(self).loads.chapters_loaded_for@ == old(self).loads.chapters_loaded_for@,
            final(self).loads.scenes_loaded_for@ == old(self).loads.scenes_loaded_for@,
            final(self).loads.last_novels_reload == old(self).loads.last_novels_reload,
            final(self).loads.last_chapters_reload == old(self).loads.last_chapters_reload,
            final(self).loads.last_scenes_reload == old(self).loads.last_scenes_reload,
            final(self).sel() == old(self).sel(),
            final(self).debounce_counter == old(self).debounce_counter,
    {
        self.loads.ledger.end(&ForgeLoadKey::Novels);
    }

    /// Ends the chapters fetch of `novel_id`; a successful one records
    /// `now` as the novel's last load, a failed one records nothing.
    pub fn mark_chapters_load_finished(&mut self, novel_id: &str, succeeded: bool, now: u64)
        ensures
            final(self).loads.ledger.view() == old(self).loads.ledger.view().remove(chapters_gate(novel_id@)),
            final(self).loads.chapters_loaded_for@ == if succeeded {
                old(self).loads.chapters_loaded_for@.insert(novel_id@, now)
            } else {
                old(self).loads.chapters_loaded_for@
            },
            final(self).loads.scenes_loaded_for@ == old(self).loads.scenes_loaded_for@,
            final(self).loads.last_novels_reload == old(self).loads.last_novels_reload,
            final(self).loads.last_chapters_reload == old(self).loads.last_chapters_reload,
            final(self).loads.last_scenes_reload == old(self).loads.last_scenes_reload,
            final(self).sel() == old(self).sel(),
            final(self).debounce_counter == old(self).debounce_counter,
    {
        self.loads.ledger.end(&ForgeLoadKey::Chapters { novel_id: novel_id.to_string() });
        if succeeded {
            self.loads.chapters_loaded_for.insert(novel_id.to_string(), now);
        }
    }

    /// Ends the scenes fetch of `chapter_id`; a successful one records
    /// `now` as the chapter's last load.
    pub fn mark_scenes_load_finished(&mut self, chapter_id: &str, succeeded: bool, now: u64)
        ensures
            final(self).loads.ledger.view() == old(self).loads.ledger.view().remove(scenes_gate(chapter_id@)),
            final(self).loads.scenes_loaded_for@ == if succeeded {
                old(self).loads.scenes_loaded_for@.insert(chapter_id@, now)
            } else {
                old(self).loads.scenes_loaded_for@
            },
            final(self).loads.chapters_loaded_for@ == old(self).loads.chapters_loaded_for@,
            final(self).loads.last_novels_reload == old(self).loads.last_novels_reload,
            final(self).loads.last_chapters_reload == old(self).loads.last_chapters_reload,
            final(self).loads.last_scenes_reload == old(self).loads.last_scenes_reload,
            final(self).sel() == old(self).sel(),
            final(self).debounce_counter == old(self).debounce_counter,
    {
        self.loads.ledger.end(&ForgeLoadKey::Scenes { chapter_id: chapter_id.to_string() });
        if succeeded {
            self.loads.scenes_loaded_for.insert(chapter_id.to_string(), now);
        }
    }

    /// Invalidates the novels list: the next pass may fetch it at once.
    /// The novels held locally stay.
    pub fn invalidate_novels_cache(&mut self)
        ensures
            final(self).loads.ledger.view() == old(self).loads.ledger.view().remove(novels_gate()),
            final(self).loads.last_novels_reload is None,
            final(self).loads.chapters_loaded_for@ == old(self).loads.chapters_loaded_for@,
            final(self).loads.scenes_loaded_for@ == old(self).loads.scenes_loaded_for@,
            final(self).loads.last_chapters_reload == old(self).loads.last_chapters_reload,
            final(self).loads.last_scenes_reload == old(self).loads.last_scenes_reload,
            final(self).sel() == old(self).sel(),
            final(self).debounce_counter == old(self).debounce_counter,
    {
        self.loads.ledger.end(&ForgeLoadKey::Novels);
        self.loads.last_novels_reload = None;
    }

    /// Invalidates the chapters of `novel_id`: its last load is forgotten,
    /// its gate released and the chapters throttle expired.
    pub fn invalidate_chapters_cache(&mut self, novel_id: &str)
        ensures
            final(self).loads.ledger.view() == old(self).loads.ledger.view().remove(chapters_gate(novel_id@)),
            final(self).loads.chapters_loaded_for@ == old(self).loads.chapters_loaded_for@.remove(novel_id@),
            final(self).loads.last_chapters_reload is None,
            final(self).loads.scenes_loaded_for@ == old(self).loads.scenes_loaded_for@,
            final(self).loads.last_novels_reload == old(self).loads.last_novels_reload,
            final(self).loads.last_scenes_reload == old(self).loads.last_scenes_reload,
            final(self).sel() == old(self).sel(),
            final(self).debounce_counter == old(self).debounce_counter,
    {
        self.loads.chapters_loaded_for.remove(novel_id);
        self.loads.ledger.end(&ForgeLoadKey::Chapters { novel_id: novel_id.to_string() });
        self.loads.last_chapters_reload = None;
    }

    /// Invalidates the scenes of `chapter_id`.
    pub fn invalidate_scenes_cache(&mut self, chapter_id: &str)
        ensures
            final(self).loads.ledger.view() == old(self).loads.ledger.view().remove(scenes_gate(chapter_id@)),
            final(self).loads.scenes_loaded_for@ == old(self).loads.scenes_loaded_for@.remove(chapter_id@),
            final(self).loads.last_scenes_reload is None,
            final(self).loads.chapters_loaded_for@ == old(self).loads.chapters_loaded_for@,
            final(self).loads.last_novels_reload == old(self).loads.last_novels_reload,
            final(self).loads.last_chapters_reload == old(self).loads.last_chapters_reload,
            final(self).sel() == old(self).sel(),
            final(self).debounce_counter == old(self).debounce_counter,
    {
        self.loads.scenes_loaded_for.remove(chapter_id);
        self.loads.ledger.end(&ForgeLoadKey::Scenes { chapter_id: chapter_id.to_string() });
        self.loads.last_scenes_reload = None;
    }

    /// Drops everything loaded and selected (on a change of universe): the
    /// lists, the selection and expansion, every load record and gate; the
    /// tree caches and the editor stay.
    pub fn reset_all_data(&mut self)
        ensures
            final(self).sel() == (Selection {
                novels: Seq::empty(),
                active_novel: None,
                novel_chapters: Seq::empty(),
                active_chapter: None,
                chapter_scenes: Seq::empty(),
                active_scene: None,
                expanded_novels: Set::empty(),
                expanded_chapters: Set::empty(),
                ..old(self).sel()
            }),
            final(self).loads.ledger.view() == Set::<Gate>::empty(),
            final(self).loads.chapters_loaded_for@ == Map::<Seq<char>, u64>::empty(),
            final(self).loads.scenes_loaded_for@ == Map::<Seq<char>, u64>::empty(),
            final(self).loads.last_novels_reload is None,
            final(self).loads.last_chapters_reload is None,
            final(self).loads.last_scenes_reload is None,
            final(self).debounce_counter == old(self).debounce_counter,
    {
        self.novels = Vec::new();
        self.active_novel_chapters = Vec::new();
        self.active_chapter_scenes = Vec::new();
        self.active_novel_id = None;
        self.active_chapter_id = None;
        self.active_scene_id = None;
        self.expanded_novels.clear();
        self.expanded_chapters.clear();
        self.loads.chapters_loaded_for.clear();
        self.loads.scenes_loaded_for.clear();
        self.loads.ledger.clear();
        self.loads.last_novels_reload = None;
        self.loads.last_chapters_reload = None;
        self.loads.last_scenes_reload = None;
        assert(self.sel() =~= (Selection {
            novels: Seq::empty(),
            active_novel: None,
            novel_chapters: Seq::empty(),
            active_chapter: None,
            chapter_scenes: Seq::empty(),
            active_scene: None,
            expanded_novels: Set::empty(),
            expanded_chapters: Set::empty(),
            ..old(self).sel()
        }));
    }
}

/// How long an edit must stand before it is saved, in milliseconds.
pub const AUTOSAVE_DELAY_MS: u64 = 800;

/// `i` is the first position of a record with id `id` in `s`.
pub open spec fn first_index_of<T: Keyed>(s: Seq<T>, id: Seq<char>, i: int) -> bool {
    &&& 0 <= i < s.len()
    &&& s[i].key() == id
    &&& forall|j: int| 0 <= j < i ==> #[trigger] s[j].key() != id
}

/// The first position of a record with id `id` in `s`.
pub fn find_index<T: Keyed>(s: &Vec<T>, id: &str) -> (r: Option<usize>)
    ensures
        r matches Some(i) ==> first_index_of(s@, id@, i as int),
        r is None ==> !holds_id(s@, id@),
{
    let mut i: usize = 0;
    while i < s.len()
        invariant
            i <= s@.len(),
            forall|j: int| 0 <= j < i ==> #[trigger] s@[j].key() != id@,
        decreases s.len() - i,
    {
        if crate::text::str_eq(s[i].id_str(), id) {
            return Some(i);
        }
        i = i + 1;
    }
    proof {
        false_holds(s@, id@);
    }
    None
}

/// There is one first position of an id.
pub proof fn lemma_first_index_unique<T: Keyed>(s: Seq<T>, id: Seq<char>, i: int)
    requires
        first_index_of(s, id, i),
    ensures
        (choose|j: int| first_index_of(s, id, j)) == i,
{
    let j = choose|j: int| first_index_of(s, id, j);
    if j < i {
        assert(s[j].key() == id);
    } else if j > i {
        assert(s[i].key() == id);
    }
}

proof fn false_holds<T: Keyed>(s: Seq<T>, id: Seq<char>)
    requires
        forall|j: int| 0 <= j < s.len() ==> #[trigger] s[j].key() != id,
    ensures
        !holds_id(s, id),
{
}

/// The pending autosave under `token` is due at `now`: it is still the
/// latest one issued, the last edit is at least `delay` old, and the
/// active scene exists.
pub open spec fn autosave_commits(s: Selection, token: u64, now: u64, delay: u64) -> bool {
    &&& s.debounce_pending == Some(token)
    &&& s.last_edit matches Some(t) && elapsed(t, now) >= delay
    &&& points_into(s.active_scene, s.chapter_scenes)
}

/// `b` is scene `a` with its body replaced by `text` and its word count by `wc`.
pub open spec fn body_replaced(a: Scene, b: Scene, text: Seq<char>, wc: i64) -> bool {
    &&& b.id == a.id
    &&& b.chapter_id == a.chapter_id
    &&& b.title == a.title
    &&& b.position == a.position
    &&& b.status == a.status
    &&& b.created_at == a.created_at
    &&& b.updated_at == a.updated_at
    &&& b.body@ == text
    &&& b.word_count == wc
}

/// The scene view `n` is `o` with the body of the first scene with id
/// `active` replaced by `text` (and its word count updated), where there is
/// such a scene; otherwise `o` itself.
pub open spec fn body_set(o: Seq<Scene>, n: Seq<Scene>, active: Option<Seq<char>>, text: Seq<char>) -> bool {
    match active {
        Some(id) => if holds_id(o, id) {
            exists|i: int| #![trigger o[i]] first_index_of(o, id, i) && n.len() == o.len()
                && body_replaced(o[i], n[i], text, crate::text::count_words_spec(text))
                && forall|j: int| 0 <= j < o.len() && j != i ==> #[trigger] n[j] == o[j]
        } else {
            n == o
        },
        None => n == o,
    }
}

/// Only the save of the latest token can commit: among tokens issued in
/// increasing order, where the pending one is the last issued, every
/// earlier token is a no-op.
pub proof fn lemma_only_latest_commits(s: Selection, issued: Seq<u64>, k: int, now: u64, delay: u64)
    requires
        forall|a: int, b: int| 0 <= a < b < issued.len() ==> issued[a] < issued[b],
        issued.len() > 0,
        s.debounce_pending == Some(issued.last()),
        0 <= k < issued.len() - 1,
    ensures
        !autosave_commits(s, issued[k], now, delay),
{
    assert(issued[k] < issued[issued.len() - 1]);
}

impl ForgeState {
    /// An edit of the active scene's text: the editor and the active scene
    /// take the new text and word count, and a new autosave token is issued
    /// that supersedes every earlier one.
    pub fn edit_scene_body(&mut self, text: String, now: u64) -> (token: u64)
        requires
            old(self).debounce_counter < u64::MAX,
        ensures
            token == old(self).debounce_counter + 1,
            final(self).debounce_counter == token,
            final(self).sel().debounce_pending == Some(token),
            final(self).sel().last_edit == Some(now),
            final(self).sel().editor == text@,
            body_set(old(self).active_chapter_scenes@, final(self).active_chapter_scenes@, opt_view(old(self).active_scene_id), text@),
            final(self).sel() == (Selection {
                chapter_scenes: final(self).sel().chapter_scenes,
                editor: text@,
                last_edit: Some(now),
                debounce_pending: Some(token),
                ..old(self).sel()
            }),
            final(self).loads == old(self).loads,
    {
        let wc = crate::text::count_words(text.as_str());
        let found = match &self.active_scene_id {
            Some(id) => find_index(&self.active_chapter_scenes, id.as_str()),
            None => None,
        };
        match found {
            Some(i) => {
                let old_scene = self.active_chapter_scenes.remove(i);
                let ghost o = old_scene;
                let mut sc = old_scene;
                sc.body = text.clone();
                sc.word_count = wc;
                assert(body_replaced(o, sc, text@, wc));
                self.active_chapter_scenes.insert(i, sc);
                assert(self.active_chapter_scenes@ =~= old(self).active_chapter_scenes@.update(i as int, sc));
            },
            None => {},
        }
        self.editor_text = text;
        self.last_edit = Some(now);
        self.debounce_counter = self.debounce_counter + 1;
        self.debounce_pending = Some(self.debounce_counter);
        self.debounce_counter
    }

    /// The autosave timer of `token` fired at `now`: where the save is due,
    /// the active scene is returned for saving and the pending token is
    /// cleared; otherwise nothing changes.
    pub fn debounce_complete(&mut self, token: u64, now: u64, delay: u64) -> (r: Option<Scene>)
        ensures
            r is Some <==> autosave_commits(old(self).sel(), token, now, delay),
            r matches Some(sc) ==> exists|i: int| first_index_of(old(self).active_chapter_scenes@, sc.id@, i)
                && old(self).active_chapter_scenes@[i] == sc
                && opt_view(old(self).active_scene_id) == Some(sc.id@),
            r is Some ==> final(self).sel() == (Selection { debounce_pending: None, ..old(self).sel() }),
            r is None ==> final(self).sel() == old(self).sel() && *final(self) == *old(self),
            final(self).loads == old(self).loads,
            final(self).debounce_counter == old(self).debounce_counter,
    {
        let due = match (self.debounce_pending, self.last_edit) {
            (Some(p), Some(t)) => p == token && (if now >= t { now - t } else { 0 }) >= delay,
            _ => false,
        };
        if !due {
            return None;
        }
        let found = match &self.active_scene_id {
            Some(id) => find_index(&self.active_chapter_scenes, id.as_str()),
            None => None,
        };
        match found {
            Some(i) => {
                let sc = self.active_chapter_scenes[i].duplicate();
                self.debounce_pending = None;
                Some(sc)
            },
            None => None,
        }
    }
}

/// The selection after fetched chapters were merged into the active
/// chapter view as the list `m` (the view's own chapters winning): the view
/// becomes `m`, and the active novel's tree entry too; its chapters are
/// expanded, and where no chapter was selected the first one is.
pub open spec fn active_chapters_applied(s: Selection, m: Seq<Chapter>) -> Selection {
    let s1 = Selection {
        novel_chapters: m,
        chapter_tree: match s.active_novel {
            Some(nid) => s.chapter_tree.insert(nid, m),
            None => s.chapter_tree,
        },
        expanded_chapters: s.expanded_chapters + ids_of(m),
        ..s
    };
    if s.active_chapter is None && m.len() > 0 {
        Selection { active_chapter: first_id(m), chapter_scenes: Seq::empty(), active_scene: None, ..s1 }
    } else {
        s1
    }
}

impl ForgeState {
    /// Merges fetched chapters into the active chapter view, the view's own
    /// chapters winning.
    pub fn apply_active_chapters(&mut self, fetched: Vec<Chapter>)
        ensures
            crate::merge::lists(
                final(self).sel().novel_chapters,
                crate::merge::merged(fetched@, old(self).sel().novel_chapters),
            ),
            final(self).sel() == active_chapters_applied(old(self).sel(), final(self).sel().novel_chapters),
            final(self).loads == old(self).loads,
            final(self).debounce_counter == old(self).debounce_counter,
    {
        let merged = crate::merge::merge_local_wins(&fetched, &self.active_novel_chapters);
        let ghost m = merged@;
        match &self.active_novel_id {
            Some(nid) => {
                self.chapters_by_novel_id.insert(nid.clone(), copy_vec(&merged));
                assert(tree_view(self.chapters_by_novel_id@) =~= old(self).sel().chapter_tree.insert(nid@, m));
            },
            None => {},
        }
        expand_all(&mut self.expanded_chapters, &merged);
        let first = first_key(&merged);
        self.active_novel_chapters = merged;
        if self.active_chapter_id.is_none() && first.is_some() {
            self.active_chapter_id = first;
            self.active_chapter_scenes = Vec::new();
            self.active_scene_id = None;
        }
        assert(self.sel() =~= active_chapters_applied(old(self).sel(), m));
    }
}

/// A scenes response for a chapter other than the active one only fills
/// the tree: the selection and the scene view stay as they were.
pub proof fn lemma_stale_scenes_only_cache(s: Selection, cid: Seq<char>, m: Seq<Scene>)
    requires
        s.active_chapter != Some(cid),
    ensures
        scenes_applied(s, cid, m) == (Selection { scene_tree: s.scene_tree.insert(cid, m), ..s }),
{
}

/// A chapters response for a novel other than the active one only fills
/// the tree.
pub proof fn lemma_stale_chapters_only_cache(s: Selection, nid: Seq<char>, m: Seq<Chapter>)
    requires
        s.active_novel != Some(nid),
    ensures
        chapters_applied(s, nid, m) == (Selection { chapter_tree: s.chapter_tree.insert(nid, m), ..s }),
{
}

} // verus!
