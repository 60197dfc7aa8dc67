//! Outline intents of the novel tree: expanding and collapsing, reordering
//! by drag, saving the open scene, and renaming novels, chapters and scenes
//! in place (the new title shows at once and is saved when the rename ends).

use vstd::prelude::*;
use crate::model::{Keyed, Novel, Chapter, Scene};
use crate::state::{AppState, DbAction};
use crate::forge::{Selection, holds_id, first_index_of, find_index, tree_view};
use crate::intents::saved_before_switch;
use crate::queue::QueueView;

verus! {

/// A record whose title can be changed.
pub trait Titled: Keyed {
    /// `b` is `self` with title `title` and update time `at`.
    spec fn retitled_as(&self, b: &Self, title: Seq<char>, at: i64) -> bool;

    fn retitle(&mut self, title: String, at: i64)
        ensures
            old(self).retitled_as(final(self), title@, at),
            final(self).key() == old(self).key(),
    ;
}

impl Titled for Novel {
    open spec fn retitled_as(&self, b: &Self, title: Seq<char>, at: i64) -> bool {
        b.id == self.id && b.universe_id == self.universe_id && b.title@ == title && b.synopsis == self.synopsis
            && b.status == self.status && b.created_at == self.created_at && b.updated_at == at
    }

    fn retitle(&mut self, title: String, at: i64) {
        self.title = title;
        self.updated_at = at;
    }
}

impl Titled for Chapter {
    open spec fn retitled_as(&self, b: &Self, title: Seq<char>, at: i64) -> bool {
        b.id == self.id && b.novel_id == self.novel_id && b.title@ == title && b.position == self.position
            && b.synopsis == self.synopsis && b.status == self.status && b.created_at == self.created_at
            && b.updated_at == at
    }

    fn retitle(&mut self, title: String, at: i64) {
        self.title = title;
        self.updated_at = at;
    }
}

impl Titled for Scene {
    open spec fn retitled_as(&self, b: &Self, title: Seq<char>, at: i64) -> bool {
        b.id == self.id && b.chapter_id == self.chapter_id && b.title@ == title && b.body == self.body
            && b.position == self.position && b.status == self.status && b.word_count == self.word_count
            && b.created_at == self.created_at && b.updated_at == at
    }

    fn retitle(&mut self, title: String, at: i64) {
        self.title = title;
        self.updated_at = at;
    }
}

/// `n` is `o` with the first record with id `id` (if any) retitled.
pub open spec fn list_retitled<T: Titled>(o: Seq<T>, n: Seq<T>, id: Seq<char>, title: Seq<char>, at: i64) -> bool {
    if holds_id(o, id) {
        exists|i: int| #![trigger o[i]] first_index_of(o, id, i) && n.len() == o.len()
            && o[i].retitled_as(&n[i], title, at)
            && forall|j: int| 0 <= j < o.len() && j != i ==> #[trigger] n[j] == o[j]
    } else {
        n == o
    }
}

/// Retitles the first record with id `id` in `v`.
pub fn retitle_in<T: Titled>(v: &mut Vec<T>, id: &str, title: String, at: i64)
    ensures
        list_retitled(old(v)@, final(v)@, id@, title@, at),
{
    match find_index(v, id) {
        Some(i) => {
            let mut x = v.remove(i);
            let ghost x0 = x;
            x.retitle(title, at);
            v.insert(i, x);
            assert(v@ =~= old(v)@.update(i as int, x));
        },
        None => {},
    }
}

/// Whether a chapter toggle expanded or collapsed it, or only asked that a
/// rename in progress end first.
#[derive(Debug, Clone, Copy, PartialEq, Eq)]
pub enum ChapterToggle {
    FinishRename,
    Collapsed,
    Expanded,
}

impl AppState {
    /// Expands novel `id` and makes it the active one (its chapters are
    /// then to be loaded; returns `true`), or collapses it where expanded.
    pub fn toggle_novel(&mut self, id: String) -> (load: bool)
        ensures
            load == !old(self).forge.sel().expanded_novels.contains(id@),
            !load ==> final(self).forge.sel() == (Selection {
                expanded_novels: old(self).forge.sel().expanded_novels.remove(id@),
                ..old(self).forge.sel()
            }),
            load ==> final(self).forge.sel() == (Selection {
                expanded_novels: old(self).forge.sel().expanded_novels.insert(id@),
                active_novel: Some(id@),
                ..old(self).forge.sel()
            }),
            final(self).forge.loads == old(self).forge.loads,
            final(self).forge.debounce_counter == old(self).forge.debounce_counter,
            *final(self) == (AppState { forge: final(self).forge, ..*old(self) }),
    {
        if self.forge.expanded_novels.contains(id.as_str()) {
            self.forge.expanded_novels.remove(id.as_str());
            false
        } else {
            self.forge.expanded_novels.insert(id.clone());
            self.forge.active_novel_id = Some(id);
            true
        }
    }

    /// Toggles chapter `id`. While a rename is in progress nothing changes
    /// and the rename is to end first. Collapsing the active chapter clears
    /// its scenes and the scene selection; expanding a chapter makes it the
    /// active one with no scene selected (its scenes are then to be loaded).
    pub fn toggle_chapter(&mut self, id: String) -> (r: ChapterToggle)
        ensures
            (old(self).rename_novel is Some || old(self).rename_chapter is Some || old(self).rename_scene is Some)
                ==> r == ChapterToggle::FinishRename && *final(self) == *old(self),
            !(old(self).rename_novel is Some || old(self).rename_chapter is Some || old(self).rename_scene is Some) ==> ({
                let o = old(self).forge.sel();
                if o.expanded_chapters.contains(id@) {
                    r == ChapterToggle::Collapsed && final(self).forge.sel() == if o.active_chapter == Some(id@) {
                        Selection {
                            expanded_chapters: o.expanded_chapters.remove(id@),
                            active_chapter: None,
                            chapter_scenes: Seq::empty(),
                            active_scene: None,
                            ..o
                        }
                    } else {
                        Selection { expanded_chapters: o.expanded_chapters.remove(id@), ..o }
                    }
                } else {
                    r == ChapterToggle::Expanded && final(self).forge.sel() == (Selection {
                        expanded_chapters: o.expanded_chapters.insert(id@),
                        active_chapter: Some(id@),
                        active_scene: None,
                        ..o
                    })
                }
            }),
            final(self).forge.loads == old(self).forge.loads,
            final(self).forge.debounce_counter == old(self).forge.debounce_counter,
            *final(self) == (AppState { forge: final(self).forge, ..*old(self) }),
    {
        if self.rename_novel.is_some() || self.rename_chapter.is_some() || self.rename_scene.is_some() {
            return ChapterToggle::FinishRename;
        }
        if self.forge.expanded_chapters.contains(id.as_str()) {
            self.forge.expanded_chapters.remove(id.as_str());
            let active = match &self.forge.active_chapter_id {
                Some(a) => crate::text::str_eq(a.as_str(), id.as_str()),
                None => false,
            };
            if active {
                self.forge.active_chapter_id = None;
                self.forge.active_chapter_scenes = Vec::new();
                self.forge.active_scene_id = None;
            }
            ChapterToggle::Collapsed
        } else {
            self.forge.expanded_chapters.insert(id.clone());
            self.forge.active_chapter_id = Some(id);
            self.forge.active_scene_id = None;
            ChapterToggle::Expanded
        }
    }

    /// Chapter `id` was dragged to `position`: the reorder is queued.
    pub fn chapter_dragged(&mut self, id: String, position: i64)
        ensures
            final(self).db.view() == (QueueView {
                pending: old(self).db.view().pending.push(DbAction::ReorderChapter(id, position)),
                ..old(self).db.view()
            }),
            *final(self) == (AppState { db: final(self).db, ..*old(self) }),
    {
        self.db.enqueue(DbAction::ReorderChapter(id, position));
    }

    /// Scene `id` was dragged to `position`: the reorder is queued.
    pub fn scene_dragged(&mut self, id: String, position: i64)
        ensures
            final(self).db.view() == (QueueView {
                pending: old(self).db.view().pending.push(DbAction::ReorderScene(id, position)),
                ..old(self).db.view()
            }),
            *final(self) == (AppState { db: final(self).db, ..*old(self) }),
    {
        self.db.enqueue(DbAction::ReorderScene(id, position));
    }

    /// Saves the open scene: the active scene, where it is in the scene
    /// view, is queued for saving.
    pub fn save_current_scene(&mut self)
        ensures
            saved_before_switch(old(self).db.view(), final(self).db.view(), old(self).forge.sel()),
            *final(self) == (AppState { db: final(self).db, ..*old(self) }),
    {
        self.auto_save_before_switch();
    }

    /// Starts renaming novel `id` (the first novel with that id); any other
    /// rename is dropped.
    pub fn begin_rename_novel(&mut self, id: &str)
        ensures
            holds_id(old(self).forge.novels@, id@) ==> exists|i: int| #![trigger old(self).forge.novels@[i]]
                first_index_of(old(self).forge.novels@, id@, i) && final(self).rename_novel == Some(old(self).forge.novels@[i]),
            !holds_id(old(self).forge.novels@, id@) ==> final(self).rename_novel is None,
            *final(self) == (AppState {
                rename_novel: final(self).rename_novel,
                rename_chapter: None,
                rename_scene: None,
                ..*old(self)
            }),
    {
        self.rename_novel = match find_index(&self.forge.novels, id) {
            Some(i) => Some(self.forge.novels[i].duplicate()),
            None => None,
        };
        self.rename_chapter = None;
        self.rename_scene = None;
    }

    /// Starts renaming chapter `id`, as [`AppState::find_chapter`] finds
    /// it; any other rename is dropped.
    pub fn begin_rename_chapter(&mut self, id: &str)
        ensures
            final(self).rename_chapter is Some <==> crate::deletion::found_in(
                old(self).forge.sel().novel_chapters,
                old(self).forge.sel().chapter_tree,
                old(self).forge.sel().active_novel,
                id@,
            ),
            final(self).rename_chapter matches Some(c) ==> crate::deletion::is_found(
                old(self).forge.sel().novel_chapters,
                old(self).forge.sel().chapter_tree,
                old(self).forge.sel().active_novel,
                id@,
                c,
            ),
            *final(self) == (AppState {
                rename_chapter: final(self).rename_chapter,
                rename_novel: None,
                rename_scene: None,
                ..*old(self)
            }),
    {
        self.rename_chapter = self.find_chapter(id);
        self.rename_novel = None;
        self.rename_scene = None;
    }

    /// Starts renaming scene `id`, as [`AppState::find_scene`] finds it;
    /// any other rename is dropped.
    pub fn begin_rename_scene(&mut self, id: &str)
        ensures
            final(self).rename_scene is Some <==> crate::deletion::found_in(
                old(self).forge.sel().chapter_scenes,
                old(self).forge.sel().scene_tree,
                old(self).forge.sel().active_chapter,
                id@,
            ),
            final(self).rename_scene matches Some(c) ==> crate::deletion::is_found(
                old(self).forge.sel().chapter_scenes,
                old(self).forge.sel().scene_tree,
                old(self).forge.sel().active_chapter,
                id@,
                c,
            ),
            *final(self) == (AppState {
                rename_scene: final(self).rename_scene,
                rename_novel: None,
                rename_chapter: None,
                ..*old(self)
            }),
    {
        self.rename_scene = self.find_scene(id);
        self.rename_novel = None;
        self.rename_chapter = None;
    }

    /// The title of the novel being renamed changed to `title` at `at`:
    /// the rename copy and the novel in the list show it at once.
    pub fn novel_title_changed(&mut self, title: String, at: i64)
        ensures
            old(self).rename_novel matches Some(n) ==> (final(self).rename_novel matches Some(m)
                && n.retitled_as(&m, title@, at)) && list_retitled(
                old(self).forge.novels@,
                final(self).forge.novels@,
                n.id@,
                title@,
                at,
            ) && final(self).forge.sel() == (Selection { novels: final(self).forge.sel().novels, ..old(self).forge.sel() }),
            old(self).rename_novel is None ==> *final(self) == *old(self),
            final(self).forge.loads == old(self).forge.loads,
            final(self).forge.debounce_counter == old(self).forge.debounce_counter,
            *final(self) == (AppState { rename_novel: final(self).rename_novel, forge: final(self).forge, ..*old(self) }),
    {
        match self.rename_novel.take() {
            Some(mut n) => {
                retitle_in(&mut self.forge.novels, n.id.as_str(), title.clone(), at);
                n.retitle(title, at);
                self.rename_novel = Some(n);
            },
            None => {},
        }
    }

    /// The title of the chapter being renamed changed to `title` at `at`:
    /// the rename copy, the chapter view and the chapter's novel entry in
    /// the tree show it at once.
    pub fn chapter_title_changed(&mut self, title: String, at: i64)
        ensures
            old(self).rename_chapter matches Some(c) ==> ({
                let o = old(self).forge.sel();
                let s = final(self).forge.sel();
                &&& final(self).rename_chapter matches Some(m) && c.retitled_as(&m, title@, at)
                &&& list_retitled(o.novel_chapters, s.novel_chapters, c.id@, title@, at)
                &&& o.chapter_tree.contains_key(c.novel_id@) ==> s.chapter_tree.contains_key(c.novel_id@)
                    && list_retitled(o.chapter_tree[c.novel_id@], s.chapter_tree[c.novel_id@], c.id@, title@, at)
                    && s.chapter_tree == o.chapter_tree.insert(c.novel_id@, s.chapter_tree[c.novel_id@])
                &&& !o.chapter_tree.contains_key(c.novel_id@) ==> s.chapter_tree == o.chapter_tree
                &&& s == (Selection { novel_chapters: s.novel_chapters, chapter_tree: s.chapter_tree, ..o })
            }),
            old(self).rename_chapter is None ==> *final(self) == *old(self),
            final(self).forge.loads == old(self).forge.loads,
            final(self).forge.debounce_counter == old(self).forge.debounce_counter,
            *final(self) == (AppState { rename_chapter: final(self).rename_chapter, forge: final(self).forge, ..*old(self) }),
    {
        match self.rename_chapter.take() {
            Some(mut c) => {
                retitle_in(&mut self.forge.active_novel_chapters, c.id.as_str(), title.clone(), at);
                let entry: Option<Vec<Chapter>> = match self.forge.chapters_by_novel_id.get(c.novel_id.as_str()) {
                    Some(v) => {
                        let mut w = crate::forge::copy_vec(v);
                        retitle_in(&mut w, c.id.as_str(), title.clone(), at);
                        Some(w)
                    },
                    None => None,
                };
                match entry {
                    Some(w) => {
                        let ghost wv = w@;
                        let ghost t0 = tree_view(self.forge.chapters_by_novel_id@);
                        self.forge.chapters_by_novel_id.insert(c.novel_id.clone(), w);
                        assert(tree_view(self.forge.chapters_by_novel_id@) =~= t0.insert(c.novel_id@, wv));
                    },
                    None => {},
                }
                c.retitle(title, at);
                self.rename_chapter = Some(c);
            },
            None => {},
        }
    }

    /// The title of the scene being renamed changed to `title` at `at`:
    /// the rename copy, the scene view and the scene's chapter entry in the
    /// tree show it at once.
    pub fn scene_title_changed(&mut self, title: String, at: i64)
        ensures
            old(self).rename_scene matches Some(c) ==> ({
                let o = old(self).forge.sel();
                let s = final(self).forge.sel();
                &&& final(self).rename_scene matches Some(m) && c.retitled_as(&m, title@, at)
                &&& list_retitled(o.chapter_scenes, s.chapter_scenes, c.id@, title@, at)
                &&& o.scene_tree.contains_key(c.chapter_id@) ==> s.scene_tree.contains_key(c.chapter_id@)
                    && list_retitled(o.scene_tree[c.chapter_id@], s.scene_tree[c.chapter_id@], c.id@, title@, at)
                    && s.scene_tree == o.scene_tree.insert(c.chapter_id@, s.scene_tree[c.chapter_id@])
                &&& !o.scene_tree.contains_key(c.chapter_id@) ==> s.scene_tree == o.scene_tree
                &&& s == (Selection { chapter_scenes: s.chapter_scenes, scene_tree: s.scene_tree, ..o })
            }),
            old(self).rename_scene is None ==> *final(self) == *old(self),
            final(self).forge.loads == old(self).forge.loads,
            final(self).forge.debounce_counter == old(self).forge.debounce_counter,
            *final(self) == (AppState { rename_scene: final(self).rename_scene, forge: final(self).forge, ..*old(self) }),
    {
        match self.rename_scene.take() {
            Some(mut c) => {
                retitle_in(&mut self.forge.active_chapter_scenes, c.id.as_str(), title.clone(), at);
                let entry: Option<Vec<Scene>> = match self.forge.scenes_by_chapter_id.get(c.chapter_id.as_str()) {
                    Some(v) => {
                        let mut w = crate::forge::copy_vec(v);
                        retitle_in(&mut w, c.id.as_str(), title.clone(), at);
                        Some(w)
                    },
                    None => None,
                };
                match entry {
                    Some(w) => {
                        let ghost wv = w@;
                        let ghost t0 = tree_view(self.forge.scenes_by_chapter_id@);
                        self.forge.scenes_by_chapter_id.insert(c.chapter_id.clone(), w);
                        assert(tree_view(self.forge.scenes_by_chapter_id@) =~= t0.insert(c.chapter_id@, wv));
                    },
                    None => {},
                }
                c.retitle(title, at);
                self.rename_scene = Some(c);
            },
            None => {},
        }
    }

    /// Ends the renames in progress: each renamed record is queued for
    /// saving (novel, then chapter, then scene), and no rename stays.
    pub fn end_rename(&mut self)
        ensures
            final(self).rename_novel is None && final(self).rename_chapter is None && final(self).rename_scene is None,
            final(self).db.view().inflight == old(self).db.view().inflight,
            final(self).db.view().pending == old(self).db.view().pending + match old(self).rename_novel {
                Some(n) => seq![DbAction::UpdateNovel(n)],
                None => Seq::empty(),
            } + match old(self).rename_chapter {
                Some(c) => seq![DbAction::UpdateChapter(c)],
                None => Seq::empty(),
            } + match old(self).rename_scene {
                Some(s) => seq![DbAction::UpdateScene(s)],
                None => Seq::empty(),
            },
            *final(self) == (AppState {
                rename_novel: None,
                rename_chapter: None,
                rename_scene: None,
                db: final(self).db,
                ..*old(self)
            }),
    {
        let ghost p0 = self.db.view().pending;
        match self.rename_novel.take() {
            Some(n) => self.db.enqueue(DbAction::UpdateNovel(n)),
            None => {},
        }
        let ghost p1 = self.db.view().pending;
        match self.rename_chapter.take() {
            Some(c) => self.db.enqueue(DbAction::UpdateChapter(c)),
            None => {},
        }
        let ghost p2 = self.db.view().pending;
        match self.rename_scene.take() {
            Some(s) => self.db.enqueue(DbAction::UpdateScene(s)),
            None => {},
        }
        assert(self.db.view().pending =~= p0 + match old(self).rename_novel {
            Some(n) => seq![DbAction::UpdateNovel(n)],
            None => Seq::empty(),
        } + match old(self).rename_chapter {
            Some(c) => seq![DbAction::UpdateChapter(c)],
            None => Seq::empty(),
        } + match old(self).rename_scene {
            Some(s) => seq![DbAction::UpdateScene(s)],
            None => Seq::empty(),
        });
    }
}

} // verus!
