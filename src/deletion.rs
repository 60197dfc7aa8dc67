//! Confirmed deletions in the novel tree: the record goes to the trash
//! through the write queue, and the local caches and selection drop it at
//! once. The payload that lets the trash restore the record is serialised
//! by the caller and handed in as text.

use vstd::prelude::*;
use crate::model::{Keyed, Chapter, Scene};
use crate::state::{AppState, ConfirmAction, DbAction};
use crate::forge::{
    Selection, editor_closed, opt_view, holds_id, first_index_of, find_index, tree_view,
    cached_under,
};
use crate::drafts::{decimal_text, digits_of};
use crate::text::join;

verus! {

/// `s` without the records with id `id`.
pub open spec fn without_id<T: Keyed>(s: Seq<T>, id: Seq<char>) -> Seq<T>
    decreases s.len(),
{
    if s.len() == 0 {
        Seq::empty()
    } else if s.last().key() == id {
        without_id(s.drop_last(), id)
    } else {
        without_id(s.drop_last(), id).push(s.last())
    }
}

/// A copy of `v` without the records with id `id`.
pub fn retain_other<T: Keyed>(v: &Vec<T>, id: &str) -> (r: Vec<T>)
    ensures
        r@ == without_id(v@, id@),
{
    let mut r: Vec<T> = Vec::new();
    let mut i: usize = 0;
    assert(without_id(v@.take(0), id@) =~= Seq::<T>::empty());
    while i < v.len()
        invariant
            i <= v@.len(),
            r@ == without_id(v@.take(i as int), id@),
        decreases v.len() - i,
    {
        assert(v@.take(i + 1).drop_last() =~= v@.take(i as int));
        if !crate::text::str_eq(v[i].id_str(), id) {
            r.push(v[i].duplicate());
        }
        i = i + 1;
    }
    assert(v@.take(v@.len() as int) =~= v@);
    r
}

/// The text of a count followed by a unit word.
pub open spec fn count_text(n: nat, unit: Seq<char>) -> Seq<char> {
    digits_of(n) + " "@ + unit
}

fn count_label(n: u64, unit: &str) -> (r: String)
    ensures
        r@ == count_text(n as nat, unit@),
{
    let d = decimal_text(n);
    let a = join(d.as_str(), " ");
    join(a.as_str(), unit)
}

/// Where a record with id `id` is found: first in the active view `view`,
/// else in the tree entry of the active parent.
pub open spec fn found_in<T: Keyed>(view: Seq<T>, tree: Map<Seq<char>, Seq<T>>, parent: Option<Seq<char>>, id: Seq<char>) -> bool {
    holds_id(view, id) || (parent is Some && holds_id(cached_under(tree, parent->Some_0), id))
}

/// `r` is the record with id `id` found as [`found_in`] describes.
pub open spec fn is_found<T: Keyed>(view: Seq<T>, tree: Map<Seq<char>, Seq<T>>, parent: Option<Seq<char>>, id: Seq<char>, r: T) -> bool {
    if holds_id(view, id) {
        exists|i: int| first_index_of(view, id, i) && view[i] == r
    } else {
        exists|i: int| first_index_of(cached_under(tree, parent->Some_0), id, i) && cached_under(tree, parent->Some_0)[i] == r
    }
}

fn find_in<T: Keyed>(view: &Vec<T>, tree: &vstd::hash_map::StringHashMap<Vec<T>>, parent: &Option<String>, id: &str) -> (r: Option<T>)
    ensures
        r is Some <==> found_in(view@, tree_view(tree@), opt_view(*parent), id@),
        r matches Some(x) ==> is_found(view@, tree_view(tree@), opt_view(*parent), id@, x),
{
    match find_index(view, id) {
        Some(i) => Some(view[i].duplicate()),
        None => match parent {
            Some(p) => match tree.get(p.as_str()) {
                Some(entry) => match find_index(entry, id) {
                    Some(j) => Some(entry[j].duplicate()),
                    None => None,
                },
                None => None,
            },
            None => None,
        },
    }
}

/// The scene tree after scene `id` of chapter `c` was dropped: an entry
/// left empty is removed.
pub open spec fn scene_tree_without(t: Map<Seq<char>, Seq<Scene>>, c: Seq<char>, id: Seq<char>) -> Map<Seq<char>, Seq<Scene>> {
    if t.contains_key(c) {
        if without_id(t[c], id).len() == 0 {
            t.remove(c)
        } else {
            t.insert(c, without_id(t[c], id))
        }
    } else {
        t
    }
}

/// The selection after scene `id` of chapter `c` was deleted.
pub open spec fn scene_deleted(s: Selection, c: Seq<char>, id: Seq<char>) -> Selection {
    let s1 = Selection {
        scene_tree: scene_tree_without(s.scene_tree, c, id),
        chapter_scenes: without_id(s.chapter_scenes, id),
        active_scene: if s.active_scene == Some(id) { None } else { s.active_scene },
        ..s
    };
    if s1.active_scene is None {
        editor_closed(s1)
    } else {
        s1
    }
}

/// The command that sends a deleted record to the trash.
pub open spec fn trash_command(
    a: DbAction,
    target_type: Seq<char>,
    id: Seq<char>,
    name: Seq<char>,
    info: Option<Seq<char>>,
    parent_type: Option<Seq<char>>,
    parent_id: Option<Seq<char>>,
    payload: Seq<char>,
) -> bool {
    a matches DbAction::MoveToTrash { target_type: t, target_id, display_name, display_info, parent_type: pt, parent_id: pi, payload_json }
        && t@ == target_type && target_id@ == id && display_name@ == name && opt_view(display_info) == info
        && opt_view(pt) == parent_type && opt_view(pi) == parent_id && payload_json@ == payload
}

/// What confirming the deletion of `id` with payload `payload` does; `deleted` tells whether it was found.
pub open spec fn scene_deletion(s: &AppState, t: &AppState, id: Seq<char>, payload: Seq<char>, deleted: bool) -> bool {
    &&& (deleted == found_in(
                s.forge.sel().chapter_scenes,
                s.forge.sel().scene_tree,
                s.forge.sel().active_chapter,
                id,
            ))
    &&& (!deleted ==> t.forge.sel() == s.forge.sel() && t.db == s.db)
    &&& (deleted ==> exists|sc: Scene| #![trigger is_found(s.forge.sel().chapter_scenes, s.forge.sel().scene_tree, s.forge.sel().active_chapter, id, sc)]
                is_found(
                    s.forge.sel().chapter_scenes,
                    s.forge.sel().scene_tree,
                    s.forge.sel().active_chapter,
                    id,
                    sc,
                ) && t.forge.sel() == scene_deleted(s.forge.sel(), sc.chapter_id@, id)
                && t.db.view().pending.drop_last() == s.db.view().pending
                && t.db.view().inflight == s.db.view().inflight
                && trash_command(
                    t.db.view().pending.last(),
                    "scene"@,
                    id,
                    sc.title@,
                    Some(
                        if sc.word_count < 0 {
                            "-"@ + count_text((-sc.word_count) as nat, "words"@)
                        } else {
                            count_text(sc.word_count as nat, "words"@)
                        },
                    ),
                    Some("chapter"@),
                    Some(sc.chapter_id@),
                    payload,
                ))
    &&& (t.forge.loads == s.forge.loads)
}

/// What confirming the deletion of `id` with payload `payload` does; `deleted` tells whether it was found.
pub open spec fn chapter_deletion(s: &AppState, t: &AppState, id: Seq<char>, payload: Seq<char>, deleted: bool) -> bool {
    &&& (deleted == found_in(
                s.forge.sel().novel_chapters,
                s.forge.sel().chapter_tree,
                s.forge.sel().active_novel,
                id,
            ))
    &&& (!deleted ==> t.forge.sel() == s.forge.sel() && t.db == s.db
                && t.forge.loads == s.forge.loads)
    &&& (deleted ==> exists|ch: Chapter| #![trigger is_found(s.forge.sel().novel_chapters, s.forge.sel().chapter_tree, s.forge.sel().active_novel, id, ch)]
                is_found(
                    s.forge.sel().novel_chapters,
                    s.forge.sel().chapter_tree,
                    s.forge.sel().active_novel,
                    id,
                    ch,
                ) && t.forge.sel() == chapter_deleted(s.forge.sel(), ch.novel_id@, id)
                && crate::completion::chapters_invalidated_loads(&s.forge.loads, &t.forge.loads, ch.novel_id@, id)
                && t.db.view().pending.drop_last() == s.db.view().pending
                && t.db.view().inflight == s.db.view().inflight
                && trash_command(
                    t.db.view().pending.last(),
                    "chapter"@,
                    id,
                    ch.title@,
                    if cached_under(s.forge.sel().scene_tree, id).len() > 0 {
                        Some(count_text(cached_under(s.forge.sel().scene_tree, id).len(), "scenes"@))
                    } else {
                        None
                    },
                    Some("novel"@),
                    Some(ch.novel_id@),
                    payload,
                ))
}

/// What confirming the deletion of `id` with payload `payload` does; `deleted` tells whether it was found.
pub open spec fn novel_deletion(s: &AppState, t: &AppState, id: Seq<char>, payload: Seq<char>, deleted: bool) -> bool {
    &&& (deleted == holds_id(s.forge.sel().novels, id))
    &&& (!deleted ==> t.forge.sel() == s.forge.sel() && t.db == s.db)
    &&& (deleted ==> exists|i: int| #![trigger s.forge.sel().novels[i]]
                first_index_of(s.forge.sel().novels, id, i)
                && t.forge.sel() == novel_deleted(s.forge.sel(), id)
                && t.db.view().pending.drop_last() == s.db.view().pending
                && t.db.view().inflight == s.db.view().inflight
                && trash_command(
                    t.db.view().pending.last(),
                    "novel"@,
                    id,
                    s.forge.sel().novels[i].title@,
                    if s.forge.sel().novel_chapters.len() > 0 {
                        Some(count_text(s.forge.sel().novel_chapters.len(), "chapters"@))
                    } else {
                        None
                    },
                    if s.forge.sel().novels[i].universe_id is Some { Some("universe"@) } else { None },
                    opt_view(s.forge.sel().novels[i].universe_id),
                    payload,
                ))
    &&& (t.forge.loads == s.forge.loads)
}

impl AppState {
    /// The scene `id`, looked up in the scene view, else in the active
    /// chapter's tree entry.
    pub fn find_scene(&self, id: &str) -> (r: Option<Scene>)
        ensures
            r is Some <==> found_in(self.forge.sel().chapter_scenes, self.forge.sel().scene_tree, self.forge.sel().active_chapter, id@),
            r matches Some(x) ==> is_found(
                self.forge.sel().chapter_scenes,
                self.forge.sel().scene_tree,
                self.forge.sel().active_chapter,
                id@,
                x,
            ),
    {
        find_in(&self.forge.active_chapter_scenes, &self.forge.scenes_by_chapter_id, &self.forge.active_chapter_id, id)
    }

    /// The chapter `id`, looked up in the chapter view, else in the active
    /// novel's tree entry.
    pub fn find_chapter(&self, id: &str) -> (r: Option<Chapter>)
        ensures
            r is Some <==> found_in(self.forge.sel().novel_chapters, self.forge.sel().chapter_tree, self.forge.sel().active_novel, id@),
            r matches Some(x) ==> is_found(
                self.forge.sel().novel_chapters,
                self.forge.sel().chapter_tree,
                self.forge.sel().active_novel,
                id@,
                x,
            ),
    {
        find_in(&self.forge.active_novel_chapters, &self.forge.chapters_by_novel_id, &self.forge.active_novel_id, id)
    }

    /// The user confirmed the deletion of scene `id`, whose serialised form
    /// is `payload_json`. Where the scene is found ([`Self::find_scene`]),
    /// its move to the trash is queued (labelled with its word count and
    /// linked to its chapter), and it leaves the tree, the scene view and
    /// the selection; the editor closes when no scene stays selected.
    /// Returns whether it was found.
    pub fn confirm_delete_scene(&mut self, id: &str, payload_json: String) -> (deleted: bool)
        ensures
            scene_deletion(old(self), final(self), id@, payload_json@, deleted),
            final(self).pending_confirm == old(self).pending_confirm,
    {
        let sc = match self.find_scene(id) {
            Some(s) => s,
            None => return false,
        };
        let info = if sc.word_count < 0 {
            let n: u64 = (0i128 - sc.word_count as i128) as u64;
            let l = count_label(n, "words");
            join("-", l.as_str())
        } else {
            count_label(sc.word_count as u64, "words")
        };
        let ghost c = sc.chapter_id@;
        self.db.enqueue(DbAction::MoveToTrash {
            target_type: String::from_str("scene"),
            target_id: id.to_string(),
            display_name: sc.title.clone(),
            display_info: Some(info),
            parent_type: Some(String::from_str("chapter")),
            parent_id: Some(sc.chapter_id.clone()),
            payload_json,
        });
        assert(self.db.view().pending.drop_last() =~= old(self).db.view().pending);
        let ghost t0 = tree_view(self.forge.scenes_by_chapter_id@);
        let left: Option<Vec<Scene>> = match self.forge.scenes_by_chapter_id.get(sc.chapter_id.as_str()) {
            Some(entry) => Some(retain_other(entry, id)),
            None => None,
        };
        match left {
            Some(l) => {
                if l.len() == 0 {
                    self.forge.scenes_by_chapter_id.remove(sc.chapter_id.as_str());
                    assert(tree_view(self.forge.scenes_by_chapter_id@) =~= scene_tree_without(t0, c, id@));
                } else {
                    let ghost lv = l@;
                    self.forge.scenes_by_chapter_id.insert(sc.chapter_id.clone(), l);
                    assert(tree_view(self.forge.scenes_by_chapter_id@) =~= scene_tree_without(t0, c, id@));
                }
            },
            None => {
                assert(tree_view(self.forge.scenes_by_chapter_id@) =~= scene_tree_without(t0, c, id@));
            },
        }
        self.forge.active_chapter_scenes = retain_other(&self.forge.active_chapter_scenes, id);
        let was_active = match &self.forge.active_scene_id {
            Some(a) => crate::text::str_eq(a.as_str(), id),
            None => false,
        };
        if was_active {
            self.forge.active_scene_id = None;
        }
        if self.forge.active_scene_id.is_none() {
            self.forge.close_editor();
        }
        assert(self.forge.sel() =~= scene_deleted(old(self).forge.sel(), c, id@));
        true
    }

    /// The user confirmed the deletion of chapter `id`, whose serialised
    /// form is `payload_json`. Where the chapter is found
    /// ([`Self::find_chapter`]), its move to the trash is queued (labelled
    /// with its scene count and linked to its novel); it leaves its novel's
    /// tree entry, the chapter view, the expansion and the selection, its
    /// scenes leave the tree, the scene selection and the editor are
    /// cleared, and the novel's chapters and the chapter's scenes are
    /// invalidated. Returns whether it was found.
    pub fn confirm_delete_chapter(&mut self, id: &str, payload_json: String) -> (deleted: bool)
        ensures
            chapter_deletion(old(self), final(self), id@, payload_json@, deleted),
            final(self).pending_confirm == old(self).pending_confirm,
    {
        let ch = match self.find_chapter(id) {
            Some(c) => c,
            None => return false,
        };
        let ghost n = ch.novel_id@;
        let count: usize = match self.forge.scenes_by_chapter_id.get(id) {
            Some(v) => v.len(),
            None => 0,
        };
        let info: Option<String> = if count > 0 {
            Some(count_label(count as u64, "scenes"))
        } else {
            None
        };
        self.db.enqueue(DbAction::MoveToTrash {
            target_type: String::from_str("chapter"),
            target_id: id.to_string(),
            display_name: ch.title.clone(),
            display_info: info,
            parent_type: Some(String::from_str("novel")),
            parent_id: Some(ch.novel_id.clone()),
            payload_json,
        });
        assert(self.db.view().pending.drop_last() =~= old(self).db.view().pending);
        let ghost t0 = tree_view(self.forge.chapters_by_novel_id@);
        let left: Option<Vec<Chapter>> = match self.forge.chapters_by_novel_id.get(ch.novel_id.as_str()) {
            Some(entry) => Some(retain_other(entry, id)),
            None => None,
        };
        match left {
            Some(l) => {
                self.forge.chapters_by_novel_id.insert(ch.novel_id.clone(), l);
            },
            None => {},
        }
        assert(tree_view(self.forge.chapters_by_novel_id@) =~= chapter_tree_without(t0, n, id@));
        let ghost st0 = tree_view(self.forge.scenes_by_chapter_id@);
        self.forge.scenes_by_chapter_id.remove(id);
        assert(tree_view(self.forge.scenes_by_chapter_id@) =~= st0.remove(id@));
        self.forge.active_novel_chapters = retain_other(&self.forge.active_novel_chapters, id);
        self.forge.active_chapter_scenes = Vec::new();
        self.forge.expanded_chapters.remove(id);
        let was_active = match &self.forge.active_chapter_id {
            Some(a) => crate::text::str_eq(a.as_str(), id),
            None => false,
        };
        if was_active {
            self.forge.active_chapter_id = None;
        }
        self.forge.active_scene_id = None;
        self.forge.editor_text = String::new();
        assert(self.forge.sel() =~= chapter_deleted(old(self).forge.sel(), n, id@));
        self.forge.invalidate_chapters_cache(ch.novel_id.as_str());
        self.forge.invalidate_scenes_cache(id);
        true
    }

    /// The user confirmed the deletion of novel `id`, whose serialised form
    /// is `payload_json`. Where it is in the novels list, its move to the
    /// trash is queued (labelled with the chapter count of the chapter view
    /// and linked to its universe, if any); it leaves the list, and where it
    /// was the active novel everything below is cleared. Returns whether it
    /// was found.
    pub fn confirm_delete_novel(&mut self, id: &str, payload_json: String) -> (deleted: bool)
        ensures
            novel_deletion(old(self), final(self), id@, payload_json@, deleted),
            final(self).pending_confirm == old(self).pending_confirm,
    {
        let i = match find_index(&self.forge.novels, id) {
            Some(i) => i,
            None => return false,
        };
        let nv = self.forge.novels[i].duplicate();
        let count = self.forge.active_novel_chapters.len();
        let info: Option<String> = if count > 0 {
            Some(count_label(count as u64, "chapters"))
        } else {
            None
        };
        let pt: Option<String> = match &nv.universe_id {
            Some(_) => Some(String::from_str("universe")),
            None => None,
        };
        self.db.enqueue(DbAction::MoveToTrash {
            target_type: String::from_str("novel"),
            target_id: id.to_string(),
            display_name: nv.title.clone(),
            display_info: info,
            parent_type: pt,
            parent_id: crate::model::copy_opt_string(&nv.universe_id),
            payload_json,
        });
        assert(self.db.view().pending.drop_last() =~= old(self).db.view().pending);
        self.forge.novels = retain_other(&self.forge.novels, id);
        let was_active = match &self.forge.active_novel_id {
            Some(a) => crate::text::str_eq(a.as_str(), id),
            None => false,
        };
        if was_active {
            self.forge.active_novel_id = None;
            self.forge.active_novel_chapters = Vec::new();
            self.forge.active_chapter_id = None;
            self.forge.active_chapter_scenes = Vec::new();
            self.forge.active_scene_id = None;
        }
        assert(self.forge.sel() =~= novel_deleted(old(self).forge.sel(), id@));
        true
    }
}

/// The chapter tree after chapter `id` of novel `n` was dropped.
pub open spec fn chapter_tree_without(t: Map<Seq<char>, Seq<Chapter>>, n: Seq<char>, id: Seq<char>) -> Map<Seq<char>, Seq<Chapter>> {
    if t.contains_key(n) {
        t.insert(n, without_id(t[n], id))
    } else {
        t
    }
}

/// The selection after chapter `id` of novel `n` was deleted.
pub open spec fn chapter_deleted(s: Selection, n: Seq<char>, id: Seq<char>) -> Selection {
    Selection {
        chapter_tree: chapter_tree_without(s.chapter_tree, n, id),
        scene_tree: s.scene_tree.remove(id),
        novel_chapters: without_id(s.novel_chapters, id),
        chapter_scenes: Seq::empty(),
        expanded_chapters: s.expanded_chapters.remove(id),
        active_chapter: if s.active_chapter == Some(id) { None } else { s.active_chapter },
        active_scene: None,
        editor: Seq::empty(),
        ..s
    }
}

/// The selection after novel `id` was deleted.
pub open spec fn novel_deleted(s: Selection, id: Seq<char>) -> Selection {
    let s1 = Selection { novels: without_id(s.novels, id), ..s };
    if s.active_novel == Some(id) {
        Selection {
            active_novel: None,
            novel_chapters: Seq::empty(),
            active_chapter: None,
            chapter_scenes: Seq::empty(),
            active_scene: None,
            ..s1
        }
    } else {
        s1
    }
}

/// The first record of `s` with id `id`.
pub open spec fn first_of<T: Keyed>(s: Seq<T>, id: Seq<char>) -> T {
    s[choose|i: int| first_index_of(s, id, i)]
}

/// The queue after a trash move was requested: where `found`, one
/// `MoveToTrash` with the given fields is appended; otherwise the queue is
/// unchanged.
pub open spec fn queued_trash(
    s: &AppState,
    t: &AppState,
    found: bool,
    target_type: Seq<char>,
    id: Seq<char>,
    name: Seq<char>,
    info: Option<Seq<char>>,
    parent_type: Option<Seq<char>>,
    parent_id: Option<Seq<char>>,
    payload: Seq<char>,
) -> bool {
    if found {
        &&& t.db.view().inflight == s.db.view().inflight
        &&& t.db.view().pending.drop_last() == s.db.view().pending
        &&& t.db.view().pending.len() == s.db.view().pending.len() + 1
        &&& trash_command(t.db.view().pending.last(), target_type, id, name, info, parent_type, parent_id, payload)
    } else {
        t.db == s.db
    }
}

/// What confirming the pending deletion does, for the records outside the
/// novel tree: the record (the first with that id in its list) goes to the
/// trash through the queue, labelled and linked as its kind asks.
pub open spec fn other_deletion(s: &AppState, t: &AppState, a: ConfirmAction, payload: Seq<char>, queued: bool) -> bool {
    match a {
        ConfirmAction::DeleteUniverse(id) => queued == holds_id(s.universes@, id@) && queued_trash(
            s, t, queued, "universe"@, id@, first_of(s.universes@, id@).name@, None, None, None, payload,
        ),
        ConfirmAction::DeleteBoard(id) => queued == holds_id(s.boards_list@, id@) && queued_trash(
            s, t, queued, "board"@, id@, first_of(s.boards_list@, id@).name@, None, None, None, payload,
        ),
        ConfirmAction::DeleteCreature(id) => queued == holds_id(s.creatures@, id@) && queued_trash(
            s, t, queued, "creature"@, id@, first_of(s.creatures@, id@).name@,
            Some(first_of(s.creatures@, id@).kind@), Some("universe"@), opt_view(s.loaded_creatures_universe), payload,
        ),
        ConfirmAction::DeleteLocation(id) => queued == holds_id(s.locations@, id@) && queued_trash(
            s, t, queued, "location"@, id@, first_of(s.locations@, id@).name@,
            Some(first_of(s.locations@, id@).kind@), Some("universe"@), Some(first_of(s.locations@, id@).universe_id@), payload,
        ),
        ConfirmAction::DeleteEvent(id) => queued == holds_id(s.timeline_events@, id@) && queued_trash(
            s, t, queued, "event"@, id@, first_of(s.timeline_events@, id@).title@,
            Some(first_of(s.timeline_events@, id@).display_date@), Some("universe"@),
            Some(first_of(s.timeline_events@, id@).universe_id@), payload,
        ),
        ConfirmAction::DeleteEra(id) => queued == holds_id(s.timeline_eras@, id@) && queued_trash(
            s, t, queued, "era"@, id@, first_of(s.timeline_eras@, id@).name@, None, Some("universe"@),
            Some(first_of(s.timeline_eras@, id@).universe_id@), payload,
        ),
        _ => true,
    }
}

fn trash_action(
    target_type: &str,
    id: &String,
    name: &String,
    info: Option<String>,
    parent_type: Option<String>,
    parent_id: Option<String>,
    payload_json: String,
) -> (r: DbAction)
    ensures
        trash_command(r, target_type@, id@, name@, opt_view(info), opt_view(parent_type), opt_view(parent_id), payload_json@),
{
    DbAction::MoveToTrash {
        target_type: String::from_str(target_type),
        target_id: id.clone(),
        display_name: name.clone(),
        display_info: info,
        parent_type,
        parent_id,
        payload_json,
    }
}

impl AppState {
    /// The user confirmed the pending deletion, whose record serialises to
    /// `payload_json`: the record goes to the trash through the write
    /// queue (novels, chapters and scenes as their own confirmations say),
    /// and no confirmation stays pending. Returns whether a move was queued.
    pub fn confirm_delete(&mut self, payload_json: String) -> (queued: bool)
        ensures
            final(self).pending_confirm is None,
            old(self).pending_confirm is None ==> !queued && *final(self) == *old(self),
            old(self).pending_confirm matches Some(a) ==> match a {
                ConfirmAction::DeleteNovel(id) => novel_deletion(old(self), final(self), id@, payload_json@, queued),
                ConfirmAction::DeleteChapter(id) => chapter_deletion(old(self), final(self), id@, payload_json@, queued),
                ConfirmAction::DeleteScene(id) => scene_deletion(old(self), final(self), id@, payload_json@, queued),
                _ => other_deletion(old(self), final(self), a, payload_json@, queued)
                    && *final(self) == (AppState { db: final(self).db, pending_confirm: None, ..*old(self) }),
            },
    {
        let pending = self.pending_confirm.take();
        match pending {
            None => false,
            Some(ConfirmAction::DeleteNovel(id)) => self.confirm_delete_novel(id.as_str(), payload_json),
            Some(ConfirmAction::DeleteChapter(id)) => self.confirm_delete_chapter(id.as_str(), payload_json),
            Some(ConfirmAction::DeleteScene(id)) => self.confirm_delete_scene(id.as_str(), payload_json),
            Some(ConfirmAction::DeleteUniverse(id)) => match find_index(&self.universes, id.as_str()) {
                Some(i) => {
                    proof { crate::forge::lemma_first_index_unique(self.universes@, id@, i as int); }
                    let a = trash_action("universe", &id, &self.universes[i].name, None, None, None, payload_json);
                    self.db.enqueue(a);
                    assert(self.db.view().pending.drop_last() =~= old(self).db.view().pending);
                    true
                },
                None => false,
            },
            Some(ConfirmAction::DeleteBoard(id)) => match find_index(&self.boards_list, id.as_str()) {
                Some(i) => {
                    proof { crate::forge::lemma_first_index_unique(self.boards_list@, id@, i as int); }
                    let a = trash_action("board", &id, &self.boards_list[i].name, None, None, None, payload_json);
                    self.db.enqueue(a);
                    assert(self.db.view().pending.drop_last() =~= old(self).db.view().pending);
                    true
                },
                None => false,
            },
            Some(ConfirmAction::DeleteCreature(id)) => match find_index(&self.creatures, id.as_str()) {
                Some(i) => {
                    proof { crate::forge::lemma_first_index_unique(self.creatures@, id@, i as int); }
                    let a = trash_action(
                        "creature",
                        &id,
                        &self.creatures[i].name,
                        Some(self.creatures[i].kind.clone()),
                        Some(String::from_str("universe")),
                        crate::model::copy_opt_string(&self.loaded_creatures_universe),
                        payload_json,
                    );
                    self.db.enqueue(a);
                    assert(self.db.view().pending.drop_last() =~= old(self).db.view().pending);
                    true
                },
                None => false,
            },
            Some(ConfirmAction::DeleteLocation(id)) => match find_index(&self.locations, id.as_str()) {
                Some(i) => {
                    proof { crate::forge::lemma_first_index_unique(self.locations@, id@, i as int); }
                    let a = trash_action(
                        "location",
                        &id,
                        &self.locations[i].name,
                        Some(self.locations[i].kind.clone()),
                        Some(String::from_str("universe")),
                        Some(self.locations[i].universe_id.clone()),
                        payload_json,
                    );
                    self.db.enqueue(a);
                    assert(self.db.view().pending.drop_last() =~= old(self).db.view().pending);
                    true
                },
                None => false,
            },
            Some(ConfirmAction::DeleteEvent(id)) => match find_index(&self.timeline_events, id.as_str()) {
                Some(i) => {
                    proof { crate::forge::lemma_first_index_unique(self.timeline_events@, id@, i as int); }
                    let a = trash_action(
                        "event",
                        &id,
                        &self.timeline_events[i].title,
                        Some(self.timeline_events[i].display_date.clone()),
                        Some(String::from_str("universe")),
                        Some(self.timeline_events[i].universe_id.clone()),
                        payload_json,
                    );
                    self.db.enqueue(a);
                    assert(self.db.view().pending.drop_last() =~= old(self).db.view().pending);
                    true
                },
                None => false,
            },
            Some(ConfirmAction::DeleteEra(id)) => match find_index(&self.timeline_eras, id.as_str()) {
                Some(i) => {
                    proof { crate::forge::lemma_first_index_unique(self.timeline_eras@, id@, i as int); }
                    let a = trash_action(
                        "era",
                        &id,
                        &self.timeline_eras[i].name,
                        None,
                        Some(String::from_str("universe")),
                        Some(self.timeline_eras[i].universe_id.clone()),
                        payload_json,
                    );
                    self.db.enqueue(a);
                    assert(self.db.view().pending.drop_last() =~= old(self).db.view().pending);
                    true
                },
                None => false,
            },
        }
    }

    /// The user cancelled the pending deletion.
    pub fn cancel_confirm(&mut self)
        ensures
            *final(self) == (AppState { pending_confirm: None, ..*old(self) }),
    {
        self.pending_confirm = None;
    }
}

} // verus!
