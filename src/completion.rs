//! What follows the completion of a write: the in-flight slot is emptied,
//! and a success invalidates exactly the caches the command touched (with
//! a blunt fallback for commands that have no handler of their own) and is
//! confirmed to the user; a failure changes no cache and is reported.

use vstd::prelude::*;
use crate::state::{AppState, CoreLoads, DbAction, DemoResetScope, Route, is_detail_of, is_board_of};
use crate::ledger::{CoreLoadKey, Gate};
use crate::forge::{opt_view, Selection};
use crate::notices::ToastKind;
use crate::text::{str_eq, join, contains_text, has_substring, replace_text, replaced};

verus! {

/// The user-facing message of a failed command: capability errors get a
/// friendlier text than generic failures.
pub open spec fn command_error_message(e: Seq<char>) -> Seq<char> {
    if has_substring(e, "disabled in this project"@) {
        "❌ Feature disabled: "@ + replaced(
            replaced(e, "Capability '"@, ""@),
            "' is disabled in this project"@,
            ""@,
        )
    } else if has_substring(e, "capability"@) || has_substring(e, "Capability"@) {
        "⚠️ Permission error: "@ + e
    } else {
        "Action failed: "@ + e
    }
}

/// The message of a failed command.
pub fn command_error_text(e: &str) -> (r: String)
    ensures
        r@ == command_error_message(e@),
{
    if contains_text(e, "disabled in this project") {
        let a = replace_text(e, "Capability '", "");
        let b = replace_text(a.as_str(), "' is disabled in this project", "");
        join("❌ Feature disabled: ", b.as_str())
    } else if contains_text(e, "capability") || contains_text(e, "Capability") {
        join("⚠️ Permission error: ", e)
    } else {
        join("Action failed: ", e)
    }
}

/// `t` is the target type `word`.
pub open spec fn is_type(t: String, word: &str) -> bool {
    t@ == word@
}

/// `o` is the parent type `word`.
pub open spec fn is_parent_type(o: Option<String>, word: &str) -> bool {
    o matches Some(t) && t@ == word@
}

/// The command is handled by the fallback that invalidates everything.
pub open spec fn uses_fallback(a: DbAction) -> bool {
    match a {
        DbAction::CreateUniverse { .. } => false,
        DbAction::CreateBoard { .. } => false,
        DbAction::CreateNovel(..) => false,
        DbAction::CreateChapter(..) => false,
        DbAction::ReorderChapter(..) => false,
        DbAction::CreateScene(..) => false,
        DbAction::ReorderScene(..) => false,
        DbAction::MoveToTrash { target_type, .. } => !(is_type(target_type, "universe") || is_type(
            target_type,
            "board",
        ) || is_type(target_type, "novel") || is_type(target_type, "chapter") || is_type(
            target_type,
            "scene",
        )),
        DbAction::UpdateNovel(..) => false,
        DbAction::UpdateChapter(..) => false,
        DbAction::UpdateScene(..) => false,
        DbAction::RestoreFromTrash(..) => false,
        DbAction::PermanentDelete(..) => false,
        DbAction::SaveCreature(..) => false,
        DbAction::ArchiveCreature(..) => false,
        DbAction::SaveLocation(..) => false,
        _ => true,
    }
}

/// Every worldbuilding scope is force-expired: nothing is marked loaded,
/// no load is recorded, no gate is held.
pub open spec fn core_scopes_expired(s: &AppState) -> bool {
    &&& s.loaded_creatures_universe is None
    &&& s.loaded_locations_universe is None
    &&& s.loaded_timeline_universe is None
    &&& s.loaded_snapshots_universe is None
    &&& s.core.creatures_loaded_for@ == Map::<Seq<char>, u64>::empty()
    &&& s.core.locations_loaded_for@ == Map::<Seq<char>, u64>::empty()
    &&& s.core.timeline_loaded_for@ == Map::<Seq<char>, u64>::empty()
    &&& s.core.snapshots_loaded_for@ == Map::<Seq<char>, u64>::empty()
    &&& s.core.ledger.view() == Set::<Gate>::empty()
}

/// The confirmation shown after a successful command, if any.
pub open spec fn success_message(a: DbAction) -> Option<Seq<char>> {
    match a {
        DbAction::ResetDemoDataScoped(_, scope) => Some(
            match scope {
                DemoResetScope::All => "Demo reset complete: Bestiary(7), Locations(7), Timeline(5 eras/15 events), PM Tools(6 cards)"@,
                DemoResetScope::Timeline => "Timeline reset complete: 5 eras / 15 events"@,
                DemoResetScope::Locations => "Locations reset complete: 7 locations"@,
                DemoResetScope::Bestiary => "Bestiary reset complete: 7 creatures"@,
                DemoResetScope::PmTools => "PM Tools reset complete: 6 cards"@,
            },
        ),
        DbAction::InjectDemoData(_) => Some("Demo data injected"@),
        DbAction::MoveToTrash { display_name, .. } => Some("'"@ + display_name@ + "' moved to trash"@),
        DbAction::RestoreFromTrash(_) => Some("Item restored from trash"@),
        DbAction::SaveCreature(c, _) => Some("Creature '"@ + c.name@ + "' saved"@),
        DbAction::ArchiveCreature(_, archived) => Some(
            if archived {
                "Creature archived"@
            } else {
                "Creature restored"@
            },
        ),
        DbAction::SaveLocation(l) => Some("Location '"@ + l.name@ + "' saved"@),
        DbAction::EmptyTrash => Some("Trash emptied"@),
        _ => None,
    }
}

fn is_type_exec(t: &String, word: &str) -> (r: bool)
    ensures
        r == (t@ == word@),
{
    str_eq(t.as_str(), word)
}

fn is_parent_type_exec(o: &Option<String>, word: &str) -> (r: bool)
    ensures
        r == is_parent_type(*o, word),
{
    match o {
        Some(t) => str_eq(t.as_str(), word),
        None => false,
    }
}

impl AppState {
    /// Drops the trash list so that it is fetched again.
    fn invalidate_trash(&mut self)
        ensures
            final(self).trash_entries@.len() == 0,
            *final(self) == (AppState { trash_entries: final(self).trash_entries, trash_loaded: false, ..*old(self) }),
    {
        self.trash_entries = Vec::new();
        self.trash_loaded = false;
    }

    /// Forces every worldbuilding scope to be fetched again.
    fn expire_core_scopes(&mut self)
        ensures
            core_scopes_expired(final(self)),
            final(self).core.last_universes_reload == old(self).core.last_universes_reload,
            final(self).core.last_boards_reload == old(self).core.last_boards_reload,
            final(self).core.pm_board_loaded_for == old(self).core.pm_board_loaded_for,
            *final(self) == (AppState {
                loaded_creatures_universe: None,
                loaded_locations_universe: None,
                loaded_timeline_universe: None,
                loaded_snapshots_universe: None,
                core: final(self).core,
                ..*old(self)
            }),
    {
        self.loaded_creatures_universe = None;
        self.loaded_locations_universe = None;
        self.loaded_timeline_universe = None;
        self.loaded_snapshots_universe = None;
        self.core.creatures_loaded_for.clear();
        self.core.locations_loaded_for.clear();
        self.core.timeline_loaded_for.clear();
        self.core.snapshots_loaded_for.clear();
        self.core.ledger.clear();
    }

    /// The blunt fallback for commands without their own handler: marks the
    /// data dirty, force-expires every worldbuilding scope and drops the
    /// open board.
    fn apply_global_invalidate_legacy(&mut self)
        ensures
            core_scopes_expired(final(self)),
            *final(self) == (AppState {
                data_dirty: true,
                pm_data: None,
                loaded_creatures_universe: None,
                loaded_locations_universe: None,
                loaded_timeline_universe: None,
                loaded_snapshots_universe: None,
                core: final(self).core,
                ..*old(self)
            }),
    {
        self.data_dirty = true;
        self.expire_core_scopes();
        self.pm_data = None;
    }

    /// Refreshes everything a restore from the trash may have brought back:
    /// every list is dropped and every scope force-expired.
    fn invalidate_after_restore_from_trash(&mut self)
        ensures
            final(self).trash_entries@.len() == 0,
            !final(self).trash_loaded,
            final(self).universes@.len() == 0,
            final(self).boards_list@.len() == 0,
            final(self).forge.novels@.len() == 0,
            final(self).creatures@.len() == 0,
            final(self).locations@.len() == 0,
            final(self).timeline_events@.len() == 0,
            final(self).timeline_eras@.len() == 0,
            final(self).snapshots@.len() == 0,
            core_scopes_expired(final(self)),
            final(self).loaded_forge_universe is None,
            final(self).forge.active_novel_chapters@.len() == 0,
            final(self).forge.active_chapter_scenes@.len() == 0,
            tree_loads_expired(&old(self).forge.loads, &final(self).forge.loads),
            final(self).db == old(self).db,
            final(self).notices == old(self).notices,
            final(self).route == old(self).route,
    {
        self.trash_entries = Vec::new();
        self.trash_loaded = false;
        self.universes = Vec::new();
        self.boards_list = Vec::new();
        self.forge.novels = Vec::new();
        self.creatures = Vec::new();
        self.creatures_index.clear();
        self.locations = Vec::new();
        self.timeline_events = Vec::new();
        self.timeline_eras = Vec::new();
        self.snapshots = Vec::new();
        self.expire_core_scopes();
        self.loaded_forge_universe = None;
        self.forge.active_novel_chapters = Vec::new();
        self.forge.active_chapter_scenes = Vec::new();
        self.forge.loads.chapters_loaded_for.clear();
        self.forge.loads.scenes_loaded_for.clear();
        self.forge.loads.ledger.end_kind(8);
        self.forge.loads.ledger.end_kind(9);
        self.forge.loads.last_chapters_reload = None;
        self.forge.loads.last_scenes_reload = None;
    }

    /// Drops the caches of universe `uid`: its loaded data where it is the
    /// one shown, and in any case its load records and gates.
    fn clear_universe_scoped_caches_if_match(&mut self, uid: &str)
        ensures
            final(self).core.creatures_loaded_for@ == old(self).core.creatures_loaded_for@.remove(uid@),
            final(self).core.locations_loaded_for@ == old(self).core.locations_loaded_for@.remove(uid@),
            final(self).core.timeline_loaded_for@ == old(self).core.timeline_loaded_for@.remove(uid@),
            final(self).core.snapshots_loaded_for@ == old(self).core.snapshots_loaded_for@.remove(uid@),
            final(self).core.ledger.view() == old(self).core.ledger.view().remove(
                crate::state::creatures_gate(uid@),
            ).remove(crate::state::locations_gate(uid@)).remove(crate::state::timeline_gate(uid@)).remove(
                crate::state::snapshots_gate(uid@),
            ),
            opt_view(final(self).loaded_creatures_universe) != Some(uid@),
            opt_view(final(self).loaded_locations_universe) != Some(uid@),
            opt_view(final(self).loaded_timeline_universe) != Some(uid@),
            opt_view(final(self).loaded_snapshots_universe) != Some(uid@),
            opt_view(final(self).loaded_forge_universe) != Some(uid@),
            final(self).forge.loads == old(self).forge.loads,
            final(self).db == old(self).db,
            final(self).notices == old(self).notices,
            final(self).route == old(self).route,
            final(self).universes == old(self).universes,
            final(self).boards_list == old(self).boards_list,
            final(self).trash_entries == old(self).trash_entries,
            final(self).trash_loaded == old(self).trash_loaded,
    {
        if opt_matches(&self.loaded_creatures_universe, uid) {
            self.loaded_creatures_universe = None;
            self.creatures = Vec::new();
            self.creatures_index.clear();
        }
        self.core.creatures_loaded_for.remove(uid);
        self.core.ledger.end(&CoreLoadKey::Creatures { universe_id: uid.to_string() });
        if opt_matches(&self.loaded_locations_universe, uid) {
            self.loaded_locations_universe = None;
            self.locations = Vec::new();
        }
        self.core.locations_loaded_for.remove(uid);
        self.core.ledger.end(&CoreLoadKey::Locations { universe_id: uid.to_string() });
        if opt_matches(&self.loaded_timeline_universe, uid) {
            self.loaded_timeline_universe = None;
            self.timeline_events = Vec::new();
            self.timeline_eras = Vec::new();
        }
        self.core.timeline_loaded_for.remove(uid);
        self.core.ledger.end(&CoreLoadKey::Timeline { universe_id: uid.to_string() });
        if opt_matches(&self.loaded_snapshots_universe, uid) {
            self.loaded_snapshots_universe = None;
            self.snapshots = Vec::new();
        }
        self.core.snapshots_loaded_for.remove(uid);
        self.core.ledger.end(&CoreLoadKey::Snapshots { universe_id: uid.to_string() });
        if opt_matches(&self.loaded_forge_universe, uid) {
            self.loaded_forge_universe = None;
            self.forge.novels = Vec::new();
            self.forge.active_novel_id = None;
            self.forge.active_novel_chapters = Vec::new();
            self.forge.active_chapter_id = None;
            self.forge.active_chapter_scenes = Vec::new();
            self.forge.active_scene_id = None;
            self.forge.editor_text = String::new();
        }
    }

    /// After universe `uid` went to the trash: the universes list is
    /// refetched, its detail screen is left, and its caches are dropped.
    fn handle_deleted_universe(&mut self, uid: &str)
        ensures
            final(self).universes@.len() == 0,
            is_detail_of(old(self).route, uid@) ==> final(self).route == Route::UniverseList,
            !is_detail_of(old(self).route, uid@) ==> final(self).route == old(self).route,
            opt_view(final(self).loaded_creatures_universe) != Some(uid@),
            opt_view(final(self).loaded_locations_universe) != Some(uid@),
            opt_view(final(self).loaded_timeline_universe) != Some(uid@),
            opt_view(final(self).loaded_snapshots_universe) != Some(uid@),
            opt_view(final(self).loaded_forge_universe) != Some(uid@),
            final(self).forge.loads == old(self).forge.loads,
            final(self).db == old(self).db,
            final(self).notices == old(self).notices,
            final(self).trash_entries == old(self).trash_entries,
            final(self).trash_loaded == old(self).trash_loaded,
    {
        self.universes = Vec::new();
        let leave = match &self.route {
            Route::UniverseDetail { universe_id } => str_eq(universe_id.as_str(), uid),
            _ => false,
        };
        if leave {
            self.route = Route::UniverseList;
        }
        self.clear_universe_scoped_caches_if_match(uid);
    }

    /// After board `bid` went to the trash: the boards list is refetched,
    /// its screen is left, and its data dropped where it was open.
    fn handle_deleted_board(&mut self, bid: &str)
        ensures
            final(self).boards_list@.len() == 0,
            is_board_of(old(self).route, bid@) ==> final(self).route == Route::PmList,
            !is_board_of(old(self).route, bid@) ==> final(self).route == old(self).route,
            (old(self).pm_data matches Some(d) && d.board.id@ == bid@) ==> final(self).pm_data is None
                && final(self).hovered_card is None && final(self).hovered_column is None,
            final(self).forge == old(self).forge,
            final(self).core == old(self).core,
            final(self).db == old(self).db,
            final(self).notices == old(self).notices,
            final(self).trash_entries == old(self).trash_entries,
            final(self).trash_loaded == old(self).trash_loaded,
    {
        self.boards_list = Vec::new();
        let leave = match &self.route {
            Route::PmBoard { board_id } => str_eq(board_id.as_str(), bid),
            _ => false,
        };
        if leave {
            self.route = Route::PmList;
        }
        let drop_data = match &self.pm_data {
            Some(d) => str_eq(d.board.id.as_str(), bid),
            None => false,
        };
        if drop_data {
            self.pm_data = None;
            self.hovered_column = None;
            self.hovered_card = None;
        }
    }
}

fn opt_matches(o: &Option<String>, s: &str) -> (r: bool)
    ensures
        r == (opt_view(*o) == Some(s@)),
{
    match o {
        Some(x) => str_eq(x.as_str(), s),
        None => false,
    }
}

/// The novel-tree selection after novel `t` went to the trash.
pub open spec fn trashed_novel(s: Selection, t: Seq<char>) -> Selection {
    let s1 = Selection { expanded_novels: s.expanded_novels.remove(t), ..s };
    if s.active_novel == Some(t) {
        Selection {
            active_novel: None,
            novel_chapters: Seq::empty(),
            active_chapter: None,
            chapter_scenes: Seq::empty(),
            active_scene: None,
            editor: Seq::empty(),
            ..s1
        }
    } else {
        s1
    }
}

/// The novel-tree selection after chapter `t` went to the trash.
pub open spec fn trashed_chapter(s: Selection, t: Seq<char>) -> Selection {
    let s1 = Selection { expanded_chapters: s.expanded_chapters.remove(t), ..s };
    if s.active_chapter == Some(t) {
        Selection {
            active_chapter: None,
            chapter_scenes: Seq::empty(),
            active_scene: None,
            editor: Seq::empty(),
            ..s1
        }
    } else {
        s1
    }
}

/// The novel-tree selection after scene `t` went to the trash.
pub open spec fn trashed_scene(s: Selection, t: Seq<char>) -> Selection {
    if s.active_scene == Some(t) {
        Selection { active_scene: None, editor: Seq::empty(), ..s }
    } else {
        s
    }
}

/// The chapters of novel `nid` are invalidated from `s` to `t`.
pub open spec fn chapters_invalidated(s: &AppState, t: &AppState, nid: Seq<char>) -> bool {
    &&& t.forge.loads.chapters_loaded_for@ == s.forge.loads.chapters_loaded_for@.remove(nid)
    &&& t.forge.loads.ledger.view() == s.forge.loads.ledger.view().remove(crate::forge::chapters_gate(nid))
    &&& t.forge.loads.last_chapters_reload is None
}

/// The scenes of chapter `cid` are invalidated from `s` to `t`.
pub open spec fn scenes_invalidated(s: &AppState, t: &AppState, cid: Seq<char>) -> bool {
    &&& t.forge.loads.scenes_loaded_for@ == s.forge.loads.scenes_loaded_for@.remove(cid)
    &&& t.forge.loads.ledger.view() == s.forge.loads.ledger.view().remove(crate::forge::scenes_gate(cid))
    &&& t.forge.loads.last_scenes_reload is None
}

/// The loads after the chapters of novel `n` and the scenes of chapter
/// `cid` were invalidated.
pub open spec fn chapters_invalidated_loads(a: &crate::forge::ForgeLoads, b: &crate::forge::ForgeLoads, n: Seq<char>, cid: Seq<char>) -> bool {
    &&& b.chapters_loaded_for@ == a.chapters_loaded_for@.remove(n)
    &&& b.scenes_loaded_for@ == a.scenes_loaded_for@.remove(cid)
    &&& b.ledger.view() == a.ledger.view().remove(crate::forge::chapters_gate(n)).remove(crate::forge::scenes_gate(cid))
    &&& b.last_chapters_reload is None
    &&& b.last_scenes_reload is None
    &&& b.last_novels_reload == a.last_novels_reload
}

/// The novels list is invalidated from `s` to `t`.
pub open spec fn novels_invalidated(s: &AppState, t: &AppState) -> bool {
    &&& t.forge.loads.ledger.view() == s.forge.loads.ledger.view().remove(crate::forge::novels_gate())
    &&& t.forge.loads.last_novels_reload is None
}

/// The cache invalidation that the success of command `a` calls for, from
/// state `s` to state `t`: each command invalidates only its own scope.
pub open spec fn invalidated(s: &AppState, t: &AppState, a: DbAction) -> bool {
    &&& (a is MoveToTrash ==> t.trash_entries@.len() == 0 && !t.trash_loaded)
    &&& (uses_fallback(a) ==> t.data_dirty && core_scopes_expired(t) && t.pm_data is None)
    &&& (a is CreateUniverse ==> t.universes@.len() == 0)
    &&& (a is CreateBoard ==> t.boards_list@.len() == 0)
    &&& (a is CreateNovel ==> novels_invalidated(s, t))
    &&& (a is UpdateNovel ==> novels_invalidated(s, t))
    &&& (a matches DbAction::CreateChapter(_, nid, _) ==> chapters_invalidated(s, t, nid@))
    &&& (a matches DbAction::UpdateChapter(ch) ==> chapters_invalidated(s, t, ch.novel_id@))
    &&& (a matches DbAction::CreateScene(_, cid, _) ==> scenes_invalidated(s, t, cid@))
    &&& (a matches DbAction::UpdateScene(sc) ==> scenes_invalidated(s, t, sc.chapter_id@))
    &&& ((a is ReorderChapter || a is ReorderScene) ==> t.forge == s.forge && t.core == s.core)
    &&& (a matches DbAction::MoveToTrash { target_type, target_id, .. } ==> {
        &&& (is_type(target_type, "universe") ==> t.universes@.len() == 0
            && opt_view(t.loaded_creatures_universe) != Some(target_id@)
            && opt_view(t.loaded_forge_universe) != Some(target_id@)
            && (is_detail_of(s.route, target_id@) ==> t.route == Route::UniverseList))
        &&& (is_type(target_type, "board") ==> t.boards_list@.len() == 0
            && (is_board_of(s.route, target_id@) ==> t.route == Route::PmList))
        &&& (is_type(target_type, "novel") ==> novels_invalidated(s, t)
            && t.forge.sel() == trashed_novel(s.forge.sel(), target_id@))
    })
    &&& (a matches DbAction::MoveToTrash { target_type, target_id, parent_type, parent_id, .. }
        ==> (is_type(target_type, "chapter") ==> t.forge.sel() == trashed_chapter(s.forge.sel(), target_id@)
            && ((is_parent_type(parent_type, "novel") && parent_id is Some) ==> chapters_invalidated(
            s,
            t,
            parent_id->Some_0@,
        ))))
    &&& (a matches DbAction::MoveToTrash { target_type, target_id, parent_type, parent_id, .. }
        ==> (is_type(target_type, "scene") ==> t.forge.sel() == trashed_scene(s.forge.sel(), target_id@)
            && ((is_parent_type(parent_type, "chapter") && parent_id is Some) ==> scenes_invalidated(
            s,
            t,
            parent_id->Some_0@,
        ))))
    &&& (a is RestoreFromTrash ==> t.trash_entries@.len() == 0 && !t.trash_loaded && t.universes@.len() == 0
        && t.boards_list@.len() == 0 && t.forge.novels@.len() == 0 && core_scopes_expired(t)
        && t.forge.active_chapter_scenes@.len() == 0 && t.forge.active_novel_chapters@.len() == 0)
    &&& (a is PermanentDelete ==> t.trash_entries@.len() == 0 && !t.trash_loaded)
    &&& (a is EmptyTrash ==> t.trash_entries@.len() == 0 && !t.trash_loaded)
    &&& (a matches DbAction::SaveCreature(_, uid) ==> t.loaded_creatures_universe is None
        && t.creatures@.len() == 0
        && t.core.creatures_loaded_for@ == s.core.creatures_loaded_for@.remove(uid@)
        && t.core.ledger.view() == s.core.ledger.view().remove(crate::state::creatures_gate(uid@)))
    &&& (a is ArchiveCreature ==> t.loaded_creatures_universe is None && t.creatures@.len() == 0
        && t.core.creatures_loaded_for@ == Map::<Seq<char>, u64>::empty()
        && t.core.ledger.view() == s.core.ledger.view().filter(|g: Gate| g.0 != crate::ledger::kind_creatures()))
    &&& (a matches DbAction::SaveLocation(l) ==> t.loaded_locations_universe is None
        && t.locations@.len() == 0
        && t.core.locations_loaded_for@ == s.core.locations_loaded_for@.remove(l.universe_id@)
        && t.core.ledger.view() == s.core.ledger.view().remove(crate::state::locations_gate(l.universe_id@)))
    &&& (a is RestoreFromTrash ==> tree_loads_expired(&s.forge.loads, &t.forge.loads))
    &&& only_scope_touched(s, t, a)
}

/// Every chapter and scene scope of the novel tree is to be fetched again.
pub open spec fn tree_loads_expired(a: &crate::forge::ForgeLoads, b: &crate::forge::ForgeLoads) -> bool {
    &&& b.chapters_loaded_for@ == Map::<Seq<char>, u64>::empty()
    &&& b.scenes_loaded_for@ == Map::<Seq<char>, u64>::empty()
    &&& b.ledger.view() == a.ledger.view().filter(|g: Gate| g.0 != crate::ledger::kind_chapters()).filter(
        |g: Gate| g.0 != crate::ledger::kind_scenes(),
    )
    &&& b.last_chapters_reload is None
    &&& b.last_scenes_reload is None
    &&& b.last_novels_reload == a.last_novels_reload
}

/// The novel tree changed at most in its selection and in the load records
/// that `novels`, `chapters` and `scenes` name.
pub open spec fn forge_loads_kept(s: &AppState, t: &AppState, novels: bool, chapters: bool, scenes: bool) -> bool {
    &&& t.forge.debounce_counter == s.forge.debounce_counter
    &&& !novels ==> t.forge.loads.last_novels_reload == s.forge.loads.last_novels_reload
    &&& !chapters ==> t.forge.loads.chapters_loaded_for@ == s.forge.loads.chapters_loaded_for@
        && t.forge.loads.last_chapters_reload == s.forge.loads.last_chapters_reload
    &&& !scenes ==> t.forge.loads.scenes_loaded_for@ == s.forge.loads.scenes_loaded_for@
        && t.forge.loads.last_scenes_reload == s.forge.loads.last_scenes_reload
}

/// A successful command touches only its own scope: what each command may
/// change is named, everything else (the write queue and notifications
/// aside, which the completion handles itself) stays as it was.
pub open spec fn only_scope_touched(s: &AppState, t: &AppState, a: DbAction) -> bool {
    match a {
        DbAction::CreateUniverse { .. } => *t == (AppState { universes: t.universes, db: t.db, notices: t.notices, ..*s }),
        DbAction::CreateBoard { .. } => *t == (AppState { boards_list: t.boards_list, db: t.db, notices: t.notices, ..*s }),
        DbAction::CreateNovel(..) | DbAction::UpdateNovel(..) => *t == (AppState { forge: t.forge, db: t.db, notices: t.notices, ..*s })
            && t.forge.sel() == s.forge.sel() && forge_loads_kept(s, t, true, false, false),
        DbAction::CreateChapter(..) | DbAction::UpdateChapter(..) => *t == (AppState { forge: t.forge, db: t.db, notices: t.notices, ..*s })
            && t.forge.sel() == s.forge.sel() && forge_loads_kept(s, t, false, true, false)
            && t.forge.loads.ledger.view().filter(|g: Gate| g.0 != crate::ledger::kind_chapters())
                == s.forge.loads.ledger.view().filter(|g: Gate| g.0 != crate::ledger::kind_chapters()),
        DbAction::CreateScene(..) | DbAction::UpdateScene(..) => *t == (AppState { forge: t.forge, db: t.db, notices: t.notices, ..*s })
            && t.forge.sel() == s.forge.sel() && forge_loads_kept(s, t, false, false, true)
            && t.forge.loads.ledger.view().filter(|g: Gate| g.0 != crate::ledger::kind_scenes())
                == s.forge.loads.ledger.view().filter(|g: Gate| g.0 != crate::ledger::kind_scenes()),
        DbAction::ReorderChapter(..) | DbAction::ReorderScene(..) => *t == (AppState { db: t.db, notices: t.notices, ..*s }),
        DbAction::MoveToTrash { target_type, .. } => if is_type(target_type, "novel") {
            *t == (AppState { forge: t.forge, trash_entries: t.trash_entries, trash_loaded: t.trash_loaded, db: t.db, notices: t.notices, ..*s })
                && forge_loads_kept(s, t, true, false, false)
        } else if is_type(target_type, "chapter") {
            *t == (AppState { forge: t.forge, trash_entries: t.trash_entries, trash_loaded: t.trash_loaded, db: t.db, notices: t.notices, ..*s })
                && forge_loads_kept(s, t, false, true, false)
        } else if is_type(target_type, "scene") {
            *t == (AppState { forge: t.forge, trash_entries: t.trash_entries, trash_loaded: t.trash_loaded, db: t.db, notices: t.notices, ..*s })
                && forge_loads_kept(s, t, false, false, true)
        } else {
            true
        },
        DbAction::PermanentDelete(..) => *t == (AppState { trash_entries: t.trash_entries, trash_loaded: t.trash_loaded, db: t.db, notices: t.notices, ..*s }),
        DbAction::SaveCreature(..) | DbAction::ArchiveCreature(..) => *t == (AppState {
            loaded_creatures_universe: t.loaded_creatures_universe,
            creatures: t.creatures,
            creatures_index: t.creatures_index,
            core: t.core,
            db: t.db,
            notices: t.notices,
            ..*s
        }) && t.core == (CoreLoads { ledger: t.core.ledger, creatures_loaded_for: t.core.creatures_loaded_for, ..s.core }),
        DbAction::SaveLocation(..) => *t == (AppState {
            loaded_locations_universe: t.loaded_locations_universe,
            locations: t.locations,
            core: t.core,
            db: t.db,
            notices: t.notices,
            ..*s
        }) && t.core == (CoreLoads { ledger: t.core.ledger, locations_loaded_for: t.core.locations_loaded_for, ..s.core }),
        _ => true,
    }
}

/// What the completion of the write in flight with `result` does: the
/// in-flight slot is emptied whatever the outcome; a failure invalidates
/// nothing and reports its cause as an error; a success invalidates what
/// the command touched (everything, with no command on record) and shows
/// the command's confirmation, if it has one.
pub open spec fn action_done(s: &AppState, t: &AppState, result: Result<(), String>, now: u64) -> bool {
    &&& t.db.view() == (crate::queue::QueueView { inflight: None, ..s.db.view() })
    &&& result is Err ==> *t == (AppState { notices: t.notices, db: t.db, ..*s })
        && crate::notices::notified(&s.notices, &t.notices, command_error_message(result->Err_0@), ToastKind::Error, now)
    &&& (result is Ok && s.db.view().inflight is None) ==> t.data_dirty && core_scopes_expired(t) && t.pm_data is None
        && t.notices == s.notices
    &&& (result is Ok && s.db.view().inflight is Some) ==> invalidated(s, t, s.db.view().inflight->Some_0)
        && match success_message(s.db.view().inflight->Some_0) {
            Some(m) => crate::notices::notified(&s.notices, &t.notices, m, ToastKind::Success, now),
            None => t.notices == s.notices,
        }
}

impl AppState {
    /// Invalidates what the successful command `a` touched.
    fn invalidate_for(&mut self, a: &DbAction)
        ensures
            invalidated(old(self), final(self), *a),
            final(self).db == old(self).db,
            final(self).notices == old(self).notices,
    {
        proof {
            reveal_strlit("universe");
            reveal_strlit("board");
            reveal_strlit("novel");
            reveal_strlit("chapter");
            reveal_strlit("scene");
        }
        let trash_move = match a {
            DbAction::MoveToTrash { .. } => true,
            _ => false,
        };
        if trash_move {
            self.invalidate_trash();
        }
        let ghost mid = *self;
        match a {
            DbAction::CreateUniverse { .. } => {
                self.universes = Vec::new();
            },
            DbAction::CreateBoard { .. } => {
                self.boards_list = Vec::new();
            },
            DbAction::CreateNovel(..) => {
                self.forge.invalidate_novels_cache();
            },
            DbAction::UpdateNovel(..) => {
                self.forge.invalidate_novels_cache();
            },
            DbAction::CreateChapter(_, nid, _) => {
                self.forge.invalidate_chapters_cache(nid.as_str());
                assert(self.forge.loads.ledger.view().filter(|g: Gate| g.0 != crate::ledger::kind_chapters()) =~= old(self).forge.loads.ledger.view().filter(|g: Gate| g.0 != crate::ledger::kind_chapters()));
            },
            DbAction::UpdateChapter(ch) => {
                self.forge.invalidate_chapters_cache(ch.novel_id.as_str());
                assert(self.forge.loads.ledger.view().filter(|g: Gate| g.0 != crate::ledger::kind_chapters()) =~= old(self).forge.loads.ledger.view().filter(|g: Gate| g.0 != crate::ledger::kind_chapters()));
            },
            DbAction::CreateScene(_, cid, _) => {
                self.forge.invalidate_scenes_cache(cid.as_str());
                assert(self.forge.loads.ledger.view().filter(|g: Gate| g.0 != crate::ledger::kind_scenes()) =~= old(self).forge.loads.ledger.view().filter(|g: Gate| g.0 != crate::ledger::kind_scenes()));
            },
            DbAction::UpdateScene(sc) => {
                self.forge.invalidate_scenes_cache(sc.chapter_id.as_str());
                assert(self.forge.loads.ledger.view().filter(|g: Gate| g.0 != crate::ledger::kind_scenes()) =~= old(self).forge.loads.ledger.view().filter(|g: Gate| g.0 != crate::ledger::kind_scenes()));
            },
            DbAction::ReorderChapter(..) => {},
            DbAction::ReorderScene(..) => {},
            DbAction::MoveToTrash { target_type, target_id, parent_type, parent_id, .. } => {
                assert("universe"@ != "novel"@ && "universe"@ != "board"@ && "universe"@ != "chapter"@
                    && "universe"@ != "scene"@ && "board"@ != "novel"@ && "board"@ != "chapter"@
                    && "board"@ != "scene"@ && "novel"@ != "chapter"@ && "novel"@ != "scene"@
                    && "chapter"@ != "scene"@) by {
                    assert("universe"@.len() != "novel"@.len());
                    assert("universe"@.len() != "board"@.len());
                    assert("universe"@.len() != "chapter"@.len());
                    assert("universe"@.len() != "scene"@.len());
                    assert("board"@[0] != "novel"@[0]);
                    assert("board"@.len() != "chapter"@.len());
                    assert("board"@[0] != "scene"@[0]);
                    assert("novel"@.len() != "chapter"@.len());
                    assert("novel"@[0] != "scene"@[0]);
                    assert("chapter"@.len() != "scene"@.len());
                }
                if is_type_exec(target_type, "universe") {
                    self.handle_deleted_universe(target_id.as_str());
                } else if is_type_exec(target_type, "board") {
                    self.handle_deleted_board(target_id.as_str());
                } else if is_type_exec(target_type, "novel") {
                    self.forge.invalidate_novels_cache();
                    if opt_matches(&self.forge.active_novel_id, target_id.as_str()) {
                        self.forge.active_novel_id = None;
                        self.forge.active_novel_chapters = Vec::new();
                        self.forge.active_chapter_id = None;
                        self.forge.active_chapter_scenes = Vec::new();
                        self.forge.active_scene_id = None;
                        self.forge.editor_text = String::new();
                    }
                    self.forge.expanded_novels.remove(target_id.as_str());
                    assert(self.forge.sel() =~= trashed_novel(old(self).forge.sel(), target_id@));
                } else if is_type_exec(target_type, "chapter") {
                    if is_parent_type_exec(parent_type, "novel") {
                        match parent_id {
                            Some(pid) => self.forge.invalidate_chapters_cache(pid.as_str()),
                            None => {},
                        }
                    }
                    if opt_matches(&self.forge.active_chapter_id, target_id.as_str()) {
                        self.forge.active_chapter_id = None;
                        self.forge.active_chapter_scenes = Vec::new();
                        self.forge.active_scene_id = None;
                        self.forge.editor_text = String::new();
                    }
                    self.forge.expanded_chapters.remove(target_id.as_str());
                    assert(self.forge.sel() =~= trashed_chapter(old(self).forge.sel(), target_id@));
                } else if is_type_exec(target_type, "scene") {
                    if is_parent_type_exec(parent_type, "chapter") {
                        match parent_id {
                            Some(pid) => self.forge.invalidate_scenes_cache(pid.as_str()),
                            None => {},
                        }
                    }
                    if opt_matches(&self.forge.active_scene_id, target_id.as_str()) {
                        self.forge.active_scene_id = None;
                        self.forge.editor_text = String::new();
                    }
                    assert(self.forge.sel() =~= trashed_scene(old(self).forge.sel(), target_id@));
                } else {
                    self.apply_global_invalidate_legacy();
                }
            },
            DbAction::RestoreFromTrash(..) => {
                self.invalidate_after_restore_from_trash();
            },
            DbAction::PermanentDelete(..) => {
                self.invalidate_trash();
            },
            DbAction::EmptyTrash => {
                self.invalidate_trash();
                self.apply_global_invalidate_legacy();
            },
            DbAction::SaveCreature(_, uid) => {
                self.loaded_creatures_universe = None;
                self.creatures = Vec::new();
                self.creatures_index.clear();
                self.core.creatures_loaded_for.remove(uid.as_str());
                self.core.ledger.end(&CoreLoadKey::Creatures { universe_id: uid.clone() });
            },
            DbAction::ArchiveCreature(..) => {
                self.loaded_creatures_universe = None;
                self.creatures = Vec::new();
                self.creatures_index.clear();
                self.core.creatures_loaded_for.clear();
                self.core.ledger.end_kind(3);
            },
            DbAction::SaveLocation(l) => {
                self.loaded_locations_universe = None;
                self.locations = Vec::new();
                self.core.locations_loaded_for.remove(l.universe_id.as_str());
                self.core.ledger.end(&CoreLoadKey::Locations { universe_id: l.universe_id.clone() });
            },
            _ => {
                self.apply_global_invalidate_legacy();
            },
        }
    }

    /// Confirms a successful command to the user, where it calls for it.
    fn confirm(&mut self, a: &DbAction, now: u64)
        ensures
            *final(self) == (AppState { notices: final(self).notices, ..*old(self) }),
            success_message(*a) is None ==> final(self).notices == old(self).notices,
            success_message(*a) is Some ==> crate::notices::notified(
                &old(self).notices,
                &final(self).notices,
                success_message(*a)->Some_0,
                ToastKind::Success,
                now,
            ),
    {
        let msg: Option<String> = match a {
            DbAction::ResetDemoDataScoped(_, scope) => Some(
                match scope {
                    DemoResetScope::All => String::from_str(
                        "Demo reset complete: Bestiary(7), Locations(7), Timeline(5 eras/15 events), PM Tools(6 cards)",
                    ),
                    DemoResetScope::Timeline => String::from_str("Timeline reset complete: 5 eras / 15 events"),
                    DemoResetScope::Locations => String::from_str("Locations reset complete: 7 locations"),
                    DemoResetScope::Bestiary => String::from_str("Bestiary reset complete: 7 creatures"),
                    DemoResetScope::PmTools => String::from_str("PM Tools reset complete: 6 cards"),
                },
            ),
            DbAction::InjectDemoData(_) => Some(String::from_str("Demo data injected")),
            DbAction::MoveToTrash { display_name, .. } => {
                let m = join("'", display_name.as_str());
                Some(join(m.as_str(), "' moved to trash"))
            },
            DbAction::RestoreFromTrash(_) => Some(String::from_str("Item restored from trash")),
            DbAction::SaveCreature(c, _) => {
                let m = join("Creature '", c.name.as_str());
                Some(join(m.as_str(), "' saved"))
            },
            DbAction::ArchiveCreature(_, archived) => Some(
                if *archived {
                    String::from_str("Creature archived")
                } else {
                    String::from_str("Creature restored")
                },
            ),
            DbAction::SaveLocation(l) => {
                let m = join("Location '", l.name.as_str());
                Some(join(m.as_str(), "' saved"))
            },
            DbAction::EmptyTrash => Some(String::from_str("Trash emptied")),
            _ => None,
        };
        match msg {
            Some(m) => self.notices.notify(m, ToastKind::Success, now),
            None => {},
        }
    }

    /// The write in flight completed with `result`. The in-flight slot is
    /// emptied whatever the outcome, so the queue can proceed. A success
    /// invalidates what the command touched (everything, for a success
    /// with no command on record) and is confirmed; a failure invalidates
    /// nothing and is reported with its cause.
    pub fn handle_action_done(&mut self, result: Result<(), String>, now: u64)
        ensures
            action_done(old(self), final(self), result, now),
    {
        let inflight = self.db.finish();
        match result {
            Err(e) => {
                self.notices.notify(command_error_text(e.as_str()), ToastKind::Error, now);
            },
            Ok(()) => {
                match inflight {
                    None => {
                        self.apply_global_invalidate_legacy();
                    },
                    Some(a) => {
                        self.invalidate_for(&a);
                        let ghost mid = *self;
                        self.confirm(&a, now);
                        assert(invalidated(old(self), final(self), a)) by {
                            assert(final(self).forge == mid.forge);
                        }
                    },
                }
            },
        }
    }
}

} // verus!
