//! Novel-tree intents: selecting and creating novels, chapters and scenes.
//! A switch of selection first saves the scene being edited; a creation is
//! applied locally at once and queued for the data store.

use vstd::prelude::*;
use crate::model::{Keyed, Novel, Chapter, Scene, ProjectKind};
use crate::state::{AppState, DbAction, Route};
use crate::forge::{
    Selection, editor_closed, opt_view, points_into, first_index_of, find_index, holds_id, tree_view,
    cached_under,
};
use crate::notices::ToastKind;
use crate::queue::QueueView;

verus! {

/// Minimum time between two creations from the same button, in milliseconds.
pub const CREATE_DEBOUNCE_MS: u64 = 1000;

/// The queue after the switch-time save: the active scene, where it
/// exists, is queued for saving.
pub open spec fn saved_before_switch(old_q: QueueView<DbAction>, new_q: QueueView<DbAction>, s: Selection) -> bool {
    if points_into(s.active_scene, s.chapter_scenes) {
        &&& new_q.inflight == old_q.inflight
        &&& new_q.pending.len() == old_q.pending.len() + 1
        &&& new_q.pending.drop_last() == old_q.pending
        &&& new_q.pending.last() matches DbAction::UpdateScene(sc) && exists|i: int|
            first_index_of(s.chapter_scenes, s.active_scene->Some_0, i) && s.chapter_scenes[i] == sc
    } else {
        new_q == old_q
    }
}

/// The selection after novel `id` was chosen.
pub open spec fn novel_selected(s: Selection, id: Seq<char>) -> Selection {
    if s.active_novel == Some(id) {
        s
    } else {
        editor_closed(
            Selection {
                active_novel: Some(id),
                novel_chapters: Seq::empty(),
                active_chapter: None,
                chapter_scenes: Seq::empty(),
                active_scene: None,
                ..s
            },
        )
    }
}

/// The selection after chapter `id` was chosen.
pub open spec fn chapter_selected(s: Selection, id: Seq<char>) -> Selection {
    if s.active_chapter == Some(id) {
        s
    } else {
        editor_closed(
            Selection { active_chapter: Some(id), chapter_scenes: Seq::empty(), active_scene: None, ..s },
        )
    }
}

/// The position of a record appended after `n` others.
pub open spec fn position_after(n: nat) -> i64 {
    if n <= i64::MAX as nat {
        n as i64
    } else {
        i64::MAX
    }
}

impl AppState {
    /// Queues the scene being edited for saving, where it exists.
    pub fn auto_save_before_switch(&mut self)
        ensures
            saved_before_switch(old(self).db.view(), final(self).db.view(), old(self).forge.sel()),
            *final(self) == (AppState { db: final(self).db, ..*old(self) }),
    {
        let found = match &self.forge.active_scene_id {
            Some(id) => find_index(&self.forge.active_chapter_scenes, id.as_str()),
            None => None,
        };
        match found {
            Some(i) => {
                let sc = self.forge.active_chapter_scenes[i].duplicate();
                self.db.enqueue(DbAction::UpdateScene(sc));
                assert(self.db.view().pending.drop_last() =~= old(self).db.view().pending);
            },
            None => {},
        }
    }

    /// The user chose novel `id`: the edited scene is saved, and a change
    /// of novel clears everything below it.
    pub fn select_novel(&mut self, id: String)
        ensures
            saved_before_switch(old(self).db.view(), final(self).db.view(), old(self).forge.sel()),
            final(self).forge.sel() == novel_selected(old(self).forge.sel(), id@),
            final(self).forge.loads == old(self).forge.loads,
            final(self).core == old(self).core,
    {
        self.auto_save_before_switch();
        let current = match &self.forge.active_novel_id {
            Some(a) => crate::text::str_eq(a.as_str(), id.as_str()),
            None => false,
        };
        if !current {
            self.forge.active_novel_id = Some(id);
            self.forge.active_novel_chapters = Vec::new();
            self.forge.active_chapter_id = None;
            self.forge.active_chapter_scenes = Vec::new();
            self.forge.active_scene_id = None;
            self.forge.close_editor();
        }
    }

    /// The user chose chapter `id`: the edited scene is saved, and a change
    /// of chapter clears the scenes and the editor.
    pub fn select_chapter(&mut self, id: String)
        ensures
            saved_before_switch(old(self).db.view(), final(self).db.view(), old(self).forge.sel()),
            final(self).forge.sel() == chapter_selected(old(self).forge.sel(), id@),
            final(self).forge.loads == old(self).forge.loads,
            final(self).core == old(self).core,
    {
        self.auto_save_before_switch();
        let current = match &self.forge.active_chapter_id {
            Some(a) => crate::text::str_eq(a.as_str(), id.as_str()),
            None => false,
        };
        if !current {
            self.forge.active_chapter_id = Some(id);
            self.forge.active_chapter_scenes = Vec::new();
            self.forge.active_scene_id = None;
            self.forge.close_editor();
        }
    }

    /// The user chose scene `id`: the edited scene is saved; a change of
    /// scene opens its text in the editor (where the scene is in the
    /// chapter view) and cancels the pending autosave.
    pub fn select_scene(&mut self, id: String)
        ensures
            saved_before_switch(old(self).db.view(), final(self).db.view(), old(self).forge.sel()),
            opt_view(old(self).forge.active_scene_id) == Some(id@) ==> final(self).forge.sel() == old(self).forge.sel(),
            opt_view(old(self).forge.active_scene_id) != Some(id@) ==> ({
                let s = final(self).forge.sel();
                &&& s.active_scene == Some(id@)
                &&& s.last_edit is None && s.debounce_pending is None
                &&& (holds_id(old(self).forge.sel().chapter_scenes, id@) ==> exists|i: int|
                    first_index_of(old(self).forge.sel().chapter_scenes, id@, i)
                    && s.editor == old(self).forge.sel().chapter_scenes[i].body@)
                &&& (!holds_id(old(self).forge.sel().chapter_scenes, id@) ==> s.editor == old(self).forge.sel().editor)
                &&& s == (Selection {
                    active_scene: Some(id@),
                    editor: s.editor,
                    last_edit: None,
                    debounce_pending: None,
                    ..old(self).forge.sel()
                })
            }),
            final(self).forge.loads == old(self).forge.loads,
            final(self).core == old(self).core,
    {
        self.auto_save_before_switch();
        let current = match &self.forge.active_scene_id {
            Some(a) => crate::text::str_eq(a.as_str(), id.as_str()),
            None => false,
        };
        if !current {
            match find_index(&self.forge.active_chapter_scenes, id.as_str()) {
                Some(i) => {
                    self.forge.editor_text = self.forge.active_chapter_scenes[i].body.clone();
                },
                None => {},
            }
            self.forge.active_scene_id = Some(id);
            self.forge.cancel_debounce();
        }
    }

    /// Creates chapter `chapter_id` (titled `Chapter`) at the end of novel
    /// `novel_id` at time `now_secs`: it is added to the chapter view and to
    /// the novel's tree entry, expanded and selected, and queued for the
    /// data store. An empty novel id does nothing.
    pub fn create_chapter(&mut self, novel_id: String, chapter_id: String, now_secs: i64)
        ensures
            novel_id@.len() == 0 ==> *final(self) == *old(self),
            novel_id@.len() > 0 ==> ({
                let s = final(self).forge.sel();
                let o = old(self).forge.sel();
                &&& s.novel_chapters.len() == o.novel_chapters.len() + 1
                &&& s.novel_chapters.drop_last() == o.novel_chapters
                &&& s.novel_chapters.last().id@ == chapter_id@
                &&& s.novel_chapters.last().novel_id@ == novel_id@
                &&& s.novel_chapters.last().position == position_after(if o.chapter_tree.contains_key(novel_id@) {
                    o.chapter_tree[novel_id@].len()
                } else {
                    o.novel_chapters.len()
                })
                &&& s.chapter_tree == o.chapter_tree.insert(
                    novel_id@,
                    cached_under(o.chapter_tree, novel_id@).push(s.novel_chapters.last()),
                )
                &&& s.expanded_novels == o.expanded_novels.insert(novel_id@)
                &&& s.expanded_chapters == o.expanded_chapters.insert(chapter_id@)
                &&& s == editor_closed(Selection {
                    novel_chapters: s.novel_chapters,
                    chapter_tree: s.chapter_tree,
                    expanded_novels: s.expanded_novels,
                    expanded_chapters: s.expanded_chapters,
                    active_chapter: Some(chapter_id@),
                    chapter_scenes: Seq::empty(),
                    active_scene: None,
                    ..o
                })
                &&& final(self).db.view().pending.len() == old(self).db.view().pending.len() + 1
                &&& final(self).db.view().pending.last() matches DbAction::CreateChapter(c, n, _)
                    && c@ == chapter_id@ && n@ == novel_id@
            }),
    {
        if novel_id.unicode_len() == 0 {
            return;
        }
        let (mut entry, pos): (Vec<Chapter>, usize) = match self.forge.chapters_by_novel_id.get(novel_id.as_str()) {
            Some(v) => (crate::forge::copy_vec(v), v.len()),
            None => (Vec::new(), self.forge.active_novel_chapters.len()),
        };
        let pos_i: i64 = if (pos as u64) <= (i64::MAX as u64) { pos as i64 } else { i64::MAX };
        let c = Chapter {
            id: chapter_id.clone(),
            novel_id: novel_id.clone(),
            title: String::from_str("Chapter"),
            position: pos_i,
            synopsis: String::new(),
            status: String::from_str("draft"),
            created_at: now_secs,
            updated_at: now_secs,
        };
        let ghost cv = c;
        entry.push(c.duplicate());
        self.forge.active_novel_chapters.push(c);
        let ghost t0 = self.forge.chapters_by_novel_id@;
        self.forge.chapters_by_novel_id.insert(novel_id.clone(), entry);
        assert(tree_view(self.forge.chapters_by_novel_id@) =~= old(self).forge.sel().chapter_tree.insert(
            novel_id@,
            cached_under(old(self).forge.sel().chapter_tree, novel_id@).push(cv),
        ));
        self.forge.expanded_novels.insert(novel_id.clone());
        self.forge.expanded_chapters.insert(chapter_id.clone());
        self.forge.active_chapter_id = Some(chapter_id.clone());
        self.forge.active_scene_id = None;
        self.forge.active_chapter_scenes = Vec::new();
        self.forge.close_editor();
        self.db.enqueue(DbAction::CreateChapter(chapter_id, novel_id, String::from_str("Chapter")));
    }

    /// Creates novel `novel_id` (titled `Novel`) at `now` (milliseconds;
    /// `now_secs` for its timestamps), unless another was created less than
    /// a second before. It needs a loaded universe, or a project that is a
    /// novel; otherwise the user is told. The novel is added, expanded and
    /// selected, and queued for the data store. Returns whether it was
    /// created.
    pub fn create_novel(&mut self, novel_id: String, now: u64, now_secs: i64) -> (created: bool)
        ensures
            created == (!crate::ledger::throttled(old(self).last_create_novel_at, now, CREATE_DEBOUNCE_MS) && (
            old(self).loaded_forge_universe is Some || (old(self).active_project matches Some(p)
                && crate::model::kind_of_path(p.path@) == ProjectKind::Novel))),
            created ==> ({
                let s = final(self).forge.sel();
                let o = old(self).forge.sel();
                &&& s.novels.len() == o.novels.len() + 1
                &&& s.novels.drop_last() == o.novels
                &&& s.novels.last().id@ == novel_id@
                &&& s.novels.last().universe_id == old(self).loaded_forge_universe
                &&& s == editor_closed(Selection {
                    novels: s.novels,
                    expanded_novels: o.expanded_novels.insert(novel_id@),
                    active_novel: Some(novel_id@),
                    novel_chapters: Seq::empty(),
                    active_chapter: None,
                    chapter_scenes: Seq::empty(),
                    active_scene: None,
                    ..o
                })
                &&& final(self).db.view().pending.len() == old(self).db.view().pending.len() + 1
                &&& final(self).db.view().pending.last() matches DbAction::CreateNovel(n, u, _)
                    && n@ == novel_id@ && u == old(self).loaded_forge_universe
            }),
            !created ==> final(self).forge.sel() == old(self).forge.sel() && final(self).db == old(self).db,
    {
        match self.last_create_novel_at {
            Some(t) => {
                let el: u64 = if now >= t { now - t } else { 0 };
                if el < CREATE_DEBOUNCE_MS {
                    return false;
                }
            },
            None => {},
        }
        self.last_create_novel_at = Some(now);
        let standalone = match &self.active_project {
            Some(p) => match p.get_kind() {
                ProjectKind::Novel => true,
                _ => false,
            },
            None => false,
        };
        if self.loaded_forge_universe.is_none() && !standalone {
            self.notices.notify(String::from_str("No universe selected"), ToastKind::Error, now);
            return false;
        }
        let uid = crate::model::copy_opt_string(&self.loaded_forge_universe);
        let n = Novel {
            id: novel_id.clone(),
            universe_id: crate::model::copy_opt_string(&self.loaded_forge_universe),
            title: String::from_str("Novel"),
            synopsis: String::new(),
            status: String::from_str("draft"),
            created_at: now_secs,
            updated_at: now_secs,
        };
        self.forge.novels.push(n);
        self.forge.expanded_novels.insert(novel_id.clone());
        self.forge.active_novel_id = Some(novel_id.clone());
        self.forge.active_novel_chapters = Vec::new();
        self.forge.active_chapter_id = None;
        self.forge.active_chapter_scenes = Vec::new();
        self.forge.active_scene_id = None;
        self.forge.close_editor();
        self.db.enqueue(DbAction::CreateNovel(novel_id, uid, String::from_str("Novel")));
        true
    }

    /// Creates scene `scene_id` (titled `Scene`) at the end of chapter
    /// `chapter_id` at `now` (milliseconds; `now_secs` for its timestamps),
    /// unless another was created less than a second before. The chapter
    /// becomes the active one; the scene is added to its tree entry and to
    /// the scene view, selected, and queued for the data store. Returns
    /// whether it was created.
    pub fn create_scene(&mut self, chapter_id: String, scene_id: String, now: u64, now_secs: i64) -> (created: bool)
        ensures
            created == !crate::ledger::throttled(old(self).last_create_scene_at, now, CREATE_DEBOUNCE_MS),
            created ==> ({
                let s = final(self).forge.sel();
                &&& s.active_chapter == Some(chapter_id@)
                &&& s.active_scene == Some(scene_id@)
                &&& s.expanded_chapters == old(self).forge.sel().expanded_chapters.insert(chapter_id@)
                &&& s.scene_tree.contains_key(chapter_id@)
                &&& holds_id(s.scene_tree[chapter_id@], scene_id@)
                &&& holds_id(s.chapter_scenes, scene_id@)
                &&& s.editor.len() == 0 && s.debounce_pending is None
                &&& final(self).db.view().pending.len() == old(self).db.view().pending.len() + 1
                &&& final(self).db.view().pending.last() matches DbAction::CreateScene(sc, c, _)
                    && sc@ == scene_id@ && c@ == chapter_id@
            }),
            !created ==> final(self).forge.sel() == old(self).forge.sel() && final(self).db == old(self).db,
    {
        match self.last_create_scene_at {
            Some(t) => {
                let el: u64 = if now >= t { now - t } else { 0 };
                if el < CREATE_DEBOUNCE_MS {
                    return false;
                }
            },
            None => {},
        }
        self.last_create_scene_at = Some(now);
        let is_active = match &self.forge.active_chapter_id {
            Some(a) => crate::text::str_eq(a.as_str(), chapter_id.as_str()),
            None => false,
        };
        if !is_active {
            self.forge.active_chapter_id = Some(chapter_id.clone());
            self.forge.active_chapter_scenes = Vec::new();
            self.forge.active_scene_id = None;
            self.forge.close_editor();
        }
        self.forge.expanded_chapters.insert(chapter_id.clone());
        let mut entry: Vec<Scene> = match self.forge.scenes_by_chapter_id.get(chapter_id.as_str()) {
            Some(v) => crate::forge::copy_vec(v),
            None => Vec::new(),
        };
        let n = entry.len();
        let pos: i64 = if (n as u64) <= (i64::MAX as u64) { n as i64 } else { i64::MAX };
        let sc = Scene {
            id: scene_id.clone(),
            chapter_id: chapter_id.clone(),
            title: String::from_str("Scene"),
            body: String::new(),
            position: pos,
            status: String::from_str("draft"),
            word_count: 0,
            created_at: now_secs,
            updated_at: now_secs,
        };
        if !crate::forge::holds(&entry, scene_id.as_str()) {
            let ghost e0 = entry@;
            entry.push(sc.duplicate());
            assert(entry@[e0.len() as int].key() == scene_id@);
        }
        let ghost ev = entry@;
        self.forge.scenes_by_chapter_id.insert(chapter_id.clone(), entry);
        assert(tree_view(self.forge.scenes_by_chapter_id@)[chapter_id@] == ev);
        if !crate::forge::holds(&self.forge.active_chapter_scenes, scene_id.as_str()) {
            let ghost a0 = self.forge.active_chapter_scenes@;
            self.forge.active_chapter_scenes.push(sc);
            assert(self.forge.active_chapter_scenes@[a0.len() as int].key() == scene_id@);
        }
        self.forge.active_scene_id = Some(scene_id.clone());
        self.forge.close_editor();
        self.db.enqueue(DbAction::CreateScene(scene_id, chapter_id, String::from_str("Scene")));
        true
    }

    /// Opens the forge on `universe_id`, else on the universe already
    /// loaded there, else on the first universe. A change of universe drops
    /// the novels and the selection. Returns whether a universe is loaded,
    /// so that the novels can be fetched.
    pub fn open_forge(&mut self, universe_id: Option<String>) -> (r: bool)
        ensures
            final(self).route == Route::Forge,
            opt_view(final(self).loaded_forge_universe) == match universe_id {
                Some(u) => Some(u@),
                None => match old(self).loaded_forge_universe {
                    Some(l) => Some(l@),
                    None => if old(self).universes@.len() > 0 {
                        Some(old(self).universes@[0].id@)
                    } else {
                        None
                    },
                },
            },
            r == final(self).loaded_forge_universe is Some,
            opt_view(final(self).loaded_forge_universe) != opt_view(old(self).loaded_forge_universe) ==> ({
                let s = final(self).forge.sel();
                &&& s.novels.len() == 0 && s.active_novel is None && s.active_chapter is None
                &&& s.active_scene is None && s.editor.len() == 0
            }),
            opt_view(final(self).loaded_forge_universe) == opt_view(old(self).loaded_forge_universe)
                ==> final(self).forge.sel() == old(self).forge.sel(),
            final(self).db == old(self).db,
    {
        self.route = Route::Forge;
        let target: Option<String> = match universe_id {
            Some(u) => Some(u),
            None => match &self.loaded_forge_universe {
                Some(l) => Some(l.clone()),
                None => if self.universes.len() > 0 {
                    Some(self.universes[0].id.clone())
                } else {
                    None
                },
            },
        };
        let same = match (&self.loaded_forge_universe, &target) {
            (Some(a), Some(b)) => crate::text::str_eq(a.as_str(), b.as_str()),
            (None, None) => true,
            _ => false,
        };
        if !same {
            self.loaded_forge_universe = target;
            self.forge.novels = Vec::new();
            self.forge.active_novel_id = None;
            self.forge.active_novel_chapters = Vec::new();
            self.forge.active_chapter_id = None;
            self.forge.active_chapter_scenes = Vec::new();
            self.forge.active_scene_id = None;
            self.forge.editor_text = String::new();
        }
        self.loaded_forge_universe.is_some()
    }

    /// The forge's universe changed to `new_id`: where it differs, the
    /// novels, the selection, the expansion and the editor are reset.
    pub fn universe_changed(&mut self, new_id: String)
        ensures
            opt_view(final(self).loaded_forge_universe) == Some(new_id@),
            opt_view(old(self).loaded_forge_universe) == Some(new_id@) ==> final(self).forge.sel() == old(self).forge.sel(),
            opt_view(old(self).loaded_forge_universe) != Some(new_id@) ==> final(self).forge.sel() == editor_closed(
                Selection {
                    novels: Seq::empty(),
                    active_novel: None,
                    novel_chapters: Seq::empty(),
                    active_chapter: None,
                    chapter_scenes: Seq::empty(),
                    active_scene: None,
                    expanded_novels: Set::empty(),
                    expanded_chapters: Set::empty(),
                    ..old(self).forge.sel()
                },
            ),
            final(self).db == old(self).db,
    {
        let same = match &self.loaded_forge_universe {
            Some(a) => crate::text::str_eq(a.as_str(), new_id.as_str()),
            None => false,
        };
        if !same {
            self.loaded_forge_universe = Some(new_id);
            self.forge.novels = Vec::new();
            self.forge.active_novel_id = None;
            self.forge.active_novel_chapters = Vec::new();
            self.forge.active_chapter_id = None;
            self.forge.active_chapter_scenes = Vec::new();
            self.forge.active_scene_id = None;
            self.forge.expanded_chapters.clear();
            self.forge.expanded_novels.clear();
            self.forge.close_editor();
            assert(self.forge.sel() =~= editor_closed(
                Selection {
                    novels: Seq::empty(),
                    active_novel: None,
                    novel_chapters: Seq::empty(),
                    active_chapter: None,
                    chapter_scenes: Seq::empty(),
                    active_scene: None,
                    expanded_novels: Set::empty(),
                    expanded_chapters: Set::empty(),
                    ..old(self).forge.sel()
                },
            ));
        }
    }
}

} // verus!
