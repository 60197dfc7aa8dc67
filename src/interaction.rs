//! User interactions that schedule work: loading the novel tree, scene
//! autosave, and dropping a kanban card.

use vstd::prelude::*;
use crate::state::{AppState, Route, DbAction, FetchRequest};
use crate::notices::ToastKind;
use crate::queue::QueueView;
use crate::forge::{Selection, body_set, first_index_of, opt_view, novels_load_due, chapters_load_due, scenes_load_due, autosave_commits, AUTOSAVE_DELAY_MS, novels_gate, chapters_gate, scenes_gate, same_loads};
use crate::kanban::{drop_position, DropPlacement, KanbanBoardData};
use crate::model::BoardColumn;
use crate::text::{str_eq, trim_text, trimmed, eq_ignore_ascii_case_lower, matches_ignore_ascii_case};

verus! {

/// A card being dragged on the board.
#[derive(Debug, Clone, PartialEq, Eq)]
pub struct PmDrag {
    pub card_id: String,
    pub original_col: String,
    pub active: bool,
}

/// The card being created or edited on the board.
#[derive(Debug, Clone, PartialEq, Eq)]
pub struct CardEditor {
    pub card_id: Option<String>,
    pub column_id: String,
    pub title: String,
    pub description: String,
    pub priority: String,
}

/// A release now moves the dragged card: the drag is active, it ends over
/// a column other than its own, and a board is open.
pub open spec fn drop_moves(s: &AppState) -> bool {
    match (s.pm_drag, s.hovered_column) {
        (Some(d), Some(col)) => d.active && col@ != d.original_col@ && s.pm_data is Some,
        _ => false,
    }
}

/// What an edit of the active scene's text does: the editor and the active
/// scene take the text, and the next autosave token is pending; once tokens
/// are exhausted nothing changes.
pub open spec fn body_changed(s: &AppState, t: &AppState, text: Seq<char>, now: u64) -> bool {
    if s.forge.debounce_counter < u64::MAX {
        &&& t.forge.debounce_counter == s.forge.debounce_counter + 1
        &&& body_set(s.forge.sel().chapter_scenes, t.forge.sel().chapter_scenes, s.forge.sel().active_scene, text)
        &&& t.forge.sel() == (Selection {
            chapter_scenes: t.forge.sel().chapter_scenes,
            editor: text,
            last_edit: Some(now),
            debounce_pending: Some(t.forge.debounce_counter),
            ..s.forge.sel()
        })
        &&& t.forge.loads == s.forge.loads
        &&& *t == (AppState { forge: t.forge, ..*s })
    } else {
        *t == *s
    }
}

/// What the autosave timer of `token` does at `now`: where the save is due
/// the active scene (its first occurrence in the view) is queued for saving
/// and no token stays pending; otherwise nothing changes.
pub open spec fn autosave_fired(s: &AppState, t: &AppState, token: u64, now: u64) -> bool {
    let sel = s.forge.sel();
    if autosave_commits(sel, token, now, AUTOSAVE_DELAY_MS) {
        let i = choose|i: int| first_index_of(sel.chapter_scenes, sel.active_scene->Some_0, i);
        &&& t.db.view() == (QueueView {
            pending: s.db.view().pending.push(DbAction::UpdateScene(sel.chapter_scenes[i])),
            ..s.db.view()
        })
        &&& t.forge.sel() == (Selection { debounce_pending: None, ..sel })
        &&& t.forge.loads == s.forge.loads
        &&& t.forge.debounce_counter == s.forge.debounce_counter
        &&& *t == (AppState { forge: t.forge, db: t.db, ..*s })
    } else {
        *t == *s
    }
}

/// What releasing the mouse during a card drag does: where the drop moves
/// the card ([`drop_moves`]) its move is queued, at the position
/// [`crate::kanban::drop_spec`] chooses in the target column, followed by a
/// rebalance of that column where there was no room; the drag ends in every
/// case and nothing else changes.
pub open spec fn mouse_released(s: &AppState, t: &AppState) -> bool {
    &&& drop_moves(s) ==> ({
                let d = s.pm_drag->Some_0;
                let col = s.hovered_column->Some_0;
                let p = crate::kanban::drop_spec(
                    crate::kanban::column_cards(s.pm_data->Some_0, col@),
                    opt_view(s.hovered_card),
                );
                let moved = s.db.view().pending.push(DbAction::MoveCard(d.card_id, col, p.position));
                t.db.view() == (crate::queue::QueueView {
                    pending: if p.needs_rebalance {
                        moved.push(DbAction::RebalanceColumn(col))
                    } else {
                        moved
                    },
                    ..s.db.view()
                })
            })
    &&& !drop_moves(s) ==> t.db == s.db
    &&& *t == (AppState { db: t.db, pm_drag: None, ..*s })
}

/// Three rapid edits, then the timers: the timers of the first two edits
/// find a later token pending and do nothing; the pending token is the
/// third edit's.
pub proof fn lemma_three_edits_one_save(
    s0: &AppState,
    s1: &AppState,
    s2: &AppState,
    s3: &AppState,
    t1: Seq<char>,
    t2: Seq<char>,
    t3: Seq<char>,
    n1: u64,
    n2: u64,
    n3: u64,
    now: u64,
)
    requires
        s0.forge.debounce_counter < u64::MAX - 3,
        body_changed(s0, s1, t1, n1),
        body_changed(s1, s2, t2, n2),
        body_changed(s2, s3, t3, n3),
    ensures
        s3.forge.sel().debounce_pending == Some(s3.forge.debounce_counter),
        !autosave_commits(s3.forge.sel(), s1.forge.debounce_counter, now, AUTOSAVE_DELAY_MS),
        !autosave_commits(s3.forge.sel(), s2.forge.debounce_counter, now, AUTOSAVE_DELAY_MS),
        s1.forge.debounce_counter < s2.forge.debounce_counter < s3.forge.debounce_counter,
{
}

impl AppState {
    /// Begins the novels fetch where it is due (the forge is on screen, no
    /// novel is held, a universe is loaded, and the ledger allows it).
    pub fn load_forge_data_if_needed(&mut self, now: u64) -> (r: Option<FetchRequest>)
        ensures
            r is Some <==> novels_load_due(&old(self).forge, old(self).route is Forge, opt_view(old(self).loaded_forge_universe), now),
            r matches Some(f) ==> (f matches FetchRequest::Novels { universe_id }
                && opt_view(old(self).loaded_forge_universe) == Some(universe_id@)),
            r is Some ==> final(self).forge.loads.ledger.view() == old(self).forge.loads.ledger.view().insert(novels_gate())
                && final(self).forge.loads.last_novels_reload == Some(now),
            r is None ==> same_loads(&final(self).forge.loads, &old(self).forge.loads),
            final(self).forge.loads.chapters_loaded_for@ == old(self).forge.loads.chapters_loaded_for@,
            final(self).forge.loads.scenes_loaded_for@ == old(self).forge.loads.scenes_loaded_for@,
            final(self).forge.loads.last_chapters_reload == old(self).forge.loads.last_chapters_reload,
            final(self).forge.loads.last_scenes_reload == old(self).forge.loads.last_scenes_reload,
            final(self).forge.sel() == old(self).forge.sel(),
            final(self).forge.debounce_counter == old(self).forge.debounce_counter,
            *final(self) == (AppState { forge: final(self).forge, ..*old(self) }),
    {
        let on_forge = matches!(self.route, Route::Forge);
        match self.forge.load_novels_if_needed(on_forge, &self.loaded_forge_universe, now) {
            Some(uid) => Some(FetchRequest::Novels { universe_id: uid }),
            None => None,
        }
    }

    /// Begins the chapters fetch of `novel_id` where it is due.
    pub fn load_chapters_if_needed(&mut self, novel_id: &str, now: u64) -> (r: Option<FetchRequest>)
        ensures
            r is Some <==> chapters_load_due(&old(self).forge, old(self).route is Forge, novel_id@, now),
            r matches Some(f) ==> (f matches FetchRequest::Chapters { novel_id: n } && n@ == novel_id@),
            r is Some ==> final(self).forge.loads.ledger.view() == old(self).forge.loads.ledger.view().insert(chapters_gate(novel_id@))
                && final(self).forge.loads.last_chapters_reload == Some(now),
            r is None ==> same_loads(&final(self).forge.loads, &old(self).forge.loads),
            final(self).forge.loads.chapters_loaded_for@ == old(self).forge.loads.chapters_loaded_for@,
            final(self).forge.loads.scenes_loaded_for@ == old(self).forge.loads.scenes_loaded_for@,
            final(self).forge.loads.last_novels_reload == old(self).forge.loads.last_novels_reload,
            final(self).forge.loads.last_scenes_reload == old(self).forge.loads.last_scenes_reload,
            final(self).forge.sel() == old(self).forge.sel(),
            final(self).forge.debounce_counter == old(self).forge.debounce_counter,
            *final(self) == (AppState { forge: final(self).forge, ..*old(self) }),
    {
        let on_forge = matches!(self.route, Route::Forge);
        if self.forge.load_chapters_if_needed(on_forge, novel_id, now) {
            Some(FetchRequest::Chapters { novel_id: novel_id.to_string() })
        } else {
            None
        }
    }

    /// Begins the scenes fetch of `chapter_id` where it is due.
    pub fn load_scenes_if_needed(&mut self, chapter_id: &str, now: u64) -> (r: Option<FetchRequest>)
        ensures
            r is Some <==> scenes_load_due(&old(self).forge, old(self).route is Forge, chapter_id@, now),
            r matches Some(f) ==> (f matches FetchRequest::Scenes { chapter_id: c } && c@ == chapter_id@),
            r is Some ==> final(self).forge.loads.ledger.view() == old(self).forge.loads.ledger.view().insert(scenes_gate(chapter_id@))
                && final(self).forge.loads.last_scenes_reload == Some(now),
            r is None ==> same_loads(&final(self).forge.loads, &old(self).forge.loads),
            final(self).forge.loads.chapters_loaded_for@ == old(self).forge.loads.chapters_loaded_for@,
            final(self).forge.loads.scenes_loaded_for@ == old(self).forge.loads.scenes_loaded_for@,
            final(self).forge.loads.last_novels_reload == old(self).forge.loads.last_novels_reload,
            final(self).forge.loads.last_chapters_reload == old(self).forge.loads.last_chapters_reload,
            final(self).forge.sel() == old(self).forge.sel(),
            final(self).forge.debounce_counter == old(self).forge.debounce_counter,
            *final(self) == (AppState { forge: final(self).forge, ..*old(self) }),
    {
        let on_forge = matches!(self.route, Route::Forge);
        if self.forge.load_scenes_if_needed(on_forge, chapter_id, now) {
            Some(FetchRequest::Scenes { chapter_id: chapter_id.to_string() })
        } else {
            None
        }
    }

    /// The text of the active scene changed: returns the autosave token to
    /// fire after the delay, or `None` once tokens are exhausted.
    pub fn scene_body_changed(&mut self, text: String, now: u64) -> (r: Option<u64>)
        ensures
            body_changed(old(self), final(self), text@, now),
            old(self).forge.debounce_counter < u64::MAX ==> r == Some((old(self).forge.debounce_counter + 1) as u64),
            old(self).forge.debounce_counter == u64::MAX ==> r is None,
    {
        if self.forge.debounce_counter < u64::MAX {
            Some(self.forge.edit_scene_body(text, now))
        } else {
            None
        }
    }

    /// The autosave timer of `token` fired at `now`: where it is still the
    /// latest token, the edit has stood long enough and the active scene
    /// exists, the scene is queued for saving; otherwise nothing happens.
    pub fn debounce_complete(&mut self, token: u64, now: u64) -> (saved: bool)
        ensures
            saved == autosave_commits(old(self).forge.sel(), token, now, AUTOSAVE_DELAY_MS),
            autosave_fired(old(self), final(self), token, now),
    {
        match self.forge.debounce_complete(token, now, AUTOSAVE_DELAY_MS) {
            Some(scene) => {
                proof {
                    let id = scene.id@;
                    let i = choose|i: int| first_index_of(old(self).forge.active_chapter_scenes@, id, i)
                        && old(self).forge.active_chapter_scenes@[i] == scene;
                    crate::forge::lemma_first_index_unique(old(self).forge.active_chapter_scenes@, id, i);
                }
                self.db.enqueue(DbAction::UpdateScene(scene));
                true
            },
            None => false,
        }
    }

    /// The mouse was released while dragging a card. Where the drag is
    /// active and ends over another column than the one it started in, the
    /// card is moved into that column at the position [`drop_spec`] chooses
    /// (before the hovered card, else at the end), and a rebalance of the
    /// column is queued where there was no room. The drag ends in every case.
    pub fn handle_mouse_released(&mut self)
        ensures
            mouse_released(old(self), final(self)),
    {
        let mut first: Option<DbAction> = None;
        let mut second: Option<DbAction> = None;
        match (&self.pm_drag, &self.hovered_column, &self.pm_data) {
            (Some(d), Some(target), Some(data)) => {
                if d.active && !crate::text::str_eq(target.as_str(), d.original_col.as_str()) {
                    let cards = data.get_column_cards(target.as_str());
                    let hovered: Option<&str> = match &self.hovered_card {
                        Some(h) => Some(h.as_str()),
                        None => None,
                    };
                    let p: DropPlacement = drop_position(&cards, hovered);
                    first = Some(DbAction::MoveCard(d.card_id.clone(), target.clone(), p.position));
                    if p.needs_rebalance {
                        second = Some(DbAction::RebalanceColumn(target.clone()));
                    }
                }
            },
            _ => {},
        }
        match first {
            Some(a) => self.db.enqueue(a),
            None => {},
        }
        match second {
            Some(a) => self.db.enqueue(a),
            None => {},
        }
        self.pm_drag = None;
    }

    /// A board finished loading: it becomes the open board, the default
    /// column is hovered ([`default_column`]), no card is, and no drag goes on.
    pub fn board_loaded(&mut self, data: KanbanBoardData)
        ensures
            opt_view(final(self).hovered_column) == default_column_of(data.columns@),
            final(self).hovered_card is None,
            final(self).pm_drag is None,
            final(self).pm_data == Some(data),
            final(self).forge == old(self).forge,
            final(self).db == old(self).db,
    {
        self.hovered_column = default_column(&data.columns);
        self.hovered_card = None;
        self.pm_drag = None;
        self.pm_data = Some(data);
    }

    /// A drag starts on card `card_id` where the open board has it; it is
    /// not active until the pointer has moved far enough.
    pub fn drag_start(&mut self, card_id: &str)
        ensures
            (old(self).pm_data matches Some(d) && d.cards_by_id@.contains_key(card_id@)) ==> (final(self).pm_drag matches Some(
                g,
            ) && g.card_id@ == card_id@ && !g.active),
            !(old(self).pm_data matches Some(d) && d.cards_by_id@.contains_key(card_id@)) ==> final(self).pm_drag
                == old(self).pm_drag,
            final(self).forge == old(self).forge,
            final(self).db == old(self).db,
    {
        let drag = match &self.pm_data {
            Some(d) => match d.get_card(card_id) {
                Some(card) => Some(
                    PmDrag { card_id: card_id.to_string(), original_col: card.column_id.clone(), active: false },
                ),
                None => None,
            },
            None => None,
        };
        if drag.is_some() {
            self.pm_drag = drag;
        }
    }

    /// The pointer moved far enough: the drag becomes active.
    pub fn activate_drag(&mut self)
        ensures
            old(self).pm_drag matches Some(g) ==> final(self).pm_drag == Some(PmDrag { active: true, ..g }),
            old(self).pm_drag is None ==> final(self).pm_drag is None,
            final(self).forge == old(self).forge,
            final(self).db == old(self).db,
    {
        match &mut self.pm_drag {
            Some(g) => {
                g.active = true;
            },
            None => {},
        }
    }
}

impl AppState {
    /// Creates a board named after the trimmed board-name input, where it
    /// is not blank; `fresh_id` is its id.
    pub fn create_board(&mut self, fresh_id: String, now: u64)
        ensures
            trimmed(old(self).new_board_name@).len() > 0 ==> final(self).db.view().pending.len()
                == old(self).db.view().pending.len() + 1
                && (final(self).db.view().pending.last() matches DbAction::CreateBoard { id, name }
                && id@ == fresh_id@ && name@ == trimmed(old(self).new_board_name@))
                && final(self).new_board_name@.len() == 0,
            trimmed(old(self).new_board_name@).len() == 0 ==> final(self).db == old(self).db,
            final(self).db.view().inflight == old(self).db.view().inflight,
            final(self).forge == old(self).forge,
    {
        let name = trim_text(self.new_board_name.as_str()).to_string();
        if name.unicode_len() > 0 {
            self.db.enqueue(DbAction::CreateBoard { id: fresh_id, name });
            self.new_board_name = String::new();
            self.notices.notify(String::from_str("Creating board..."), ToastKind::Info, now);
        }
    }

    /// Saves the card editor: where its title is not blank and it has a
    /// column, the card (keeping its id, else taking `fresh_id`) is queued
    /// at the end of its column. The editor closes either way.
    pub fn save_card_editor(&mut self, fresh_id: String)
        ensures
            final(self).card_editor is None,
            (old(self).card_editor matches Some(e) && trimmed(e.title@).len() > 0 && e.column_id@.len() > 0)
                ==> final(self).db.view().pending.len() == old(self).db.view().pending.len() + 1
                && (final(self).db.view().pending.last() matches DbAction::SaveCard(c)
                && c.column_id@ == old(self).card_editor->Some_0.column_id@
                && c.title@ == old(self).card_editor->Some_0.title@
                && c.id@ == match old(self).card_editor->Some_0.card_id {
                    Some(i) => i@,
                    None => fresh_id@,
                }),
            !(old(self).card_editor matches Some(e) && trimmed(e.title@).len() > 0 && e.column_id@.len() > 0)
                ==> final(self).db == old(self).db,
            final(self).db.view().inflight == old(self).db.view().inflight,
            final(self).forge == old(self).forge,
    {
        let ed = self.card_editor.take();
        match ed {
            Some(e) => {
                if trim_text(e.title.as_str()).unicode_len() > 0 && e.column_id.unicode_len() > 0 {
                    let n: usize = match &self.pm_data {
                        Some(d) => d.get_column_cards(e.column_id.as_str()).len(),
                        None => 0,
                    };
                    let pos: i64 = if (n as u64) <= (i64::MAX as u64) { n as i64 } else { i64::MAX };
                    let id = match e.card_id {
                        Some(i) => i,
                        None => fresh_id,
                    };
                    self.db.enqueue(DbAction::SaveCard(crate::model::Card {
                        id,
                        column_id: e.column_id,
                        title: e.title,
                        description: e.description,
                        position: pos,
                        priority: e.priority,
                    }));
                }
            },
            None => {},
        }
    }

    /// Deletes the card being edited, where it exists already; the editor
    /// closes either way.
    pub fn delete_card_editor(&mut self)
        ensures
            final(self).card_editor is None,
            (old(self).card_editor matches Some(e) && e.card_id is Some) ==> final(self).db.view().pending
                == old(self).db.view().pending.push(DbAction::DeleteCard(old(self).card_editor->Some_0.card_id->Some_0)),
            !(old(self).card_editor matches Some(e) && e.card_id is Some) ==> final(self).db == old(self).db,
            final(self).db.view().inflight == old(self).db.view().inflight,
            final(self).forge == old(self).forge,
    {
        let ed = self.card_editor.take();
        match ed {
            Some(e) => match e.card_id {
                Some(id) => self.db.enqueue(DbAction::DeleteCard(id)),
                None => {},
            },
            None => {},
        }
    }
}

/// The column a freshly loaded board hovers: the one with id `col-todo`,
/// else the first named `to do` (ignoring case and surrounding space), else
/// the first column, else none.
pub open spec fn default_column_of(cols: Seq<BoardColumn>) -> Option<Seq<char>> {
    if exists|i: int| 0 <= i < cols.len() && #[trigger] cols[i].id@ == "col-todo"@ {
        Some("col-todo"@)
    } else if exists|i: int| 0 <= i < cols.len() && matches_ignore_ascii_case(trimmed(#[trigger] cols[i].name@), "to do"@) {
        let i = choose|i: int| 0 <= i < cols.len() && matches_ignore_ascii_case(trimmed(#[trigger] cols[i].name@), "to do"@)
            && forall|j: int| 0 <= j < i ==> !matches_ignore_ascii_case(trimmed(#[trigger] cols[j].name@), "to do"@);
        Some(cols[i].id@)
    } else if cols.len() > 0 {
        Some(cols[0].id@)
    } else {
        None
    }
}

/// The default column of a board's columns.
pub fn default_column(cols: &Vec<BoardColumn>) -> (r: Option<String>)
    ensures
        opt_view(r) == default_column_of(cols@),
{
    let mut i: usize = 0;
    while i < cols.len()
        invariant
            i <= cols@.len(),
            forall|j: int| 0 <= j < i ==> #[trigger] cols@[j].id@ != "col-todo"@,
        decreases cols.len() - i,
    {
        if str_eq(cols[i].id.as_str(), "col-todo") {
            return Some(cols[i].id.clone());
        }
        i = i + 1;
    }
    let mut k: usize = 0;
    while k < cols.len()
        invariant
            k <= cols@.len(),
            forall|j: int| 0 <= j < cols@.len() ==> #[trigger] cols@[j].id@ != "col-todo"@,
            forall|j: int| 0 <= j < k ==> !matches_ignore_ascii_case(trimmed(#[trigger] cols@[j].name@), "to do"@),
        decreases cols.len() - k,
    {
        let t = trim_text(cols[k].name.as_str());
        if eq_ignore_ascii_case_lower(t, "to do") {
            proof {
                let w = k as int;
                assert(matches_ignore_ascii_case(trimmed(cols@[w].name@), "to do"@));
                let c = choose|i: int| 0 <= i < cols@.len() && matches_ignore_ascii_case(trimmed(#[trigger] cols@[i].name@), "to do"@)
                    && forall|j: int| 0 <= j < i ==> !matches_ignore_ascii_case(trimmed(#[trigger] cols@[j].name@), "to do"@);
                if c < w {
                } else if c > w {
                    assert(!matches_ignore_ascii_case(trimmed(cols@[w].name@), "to do"@));
                }
            }
            return Some(cols[k].id.clone());
        }
        k = k + 1;
    }
    if cols.len() > 0 {
        Some(cols[0].id.clone())
    } else {
        None
    }
}

} // verus!
