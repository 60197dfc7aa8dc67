//! The application state aggregate: routes, the write queue's command
//! vocabulary, the worldbuilding caches with their load bookkeeping, and
//! the handlers that apply fetch responses.

use vstd::prelude::*;
use vstd::hash_map::StringHashMap;
use crate::model::{
    Keyed, Project, Universe, Creature, Location, TimelineEra, TimelineEvent, Board, Card, Novel,
    Chapter, Scene, UniverseSnapshot, TrashEntry,
};
use crate::ledger::{LoadLedger, CoreLoadKey, GateKey, Gate};
use crate::forge::ForgeState;
use crate::kanban::KanbanBoardData;
use crate::queue::CommandQueue;
use crate::notices::{Notices, ToastKind};
use crate::text::{str_eq, join};

verus! {

/// The screens of the application.
#[derive(Clone, Debug, PartialEq, Eq)]
pub enum Route {
    Overview,
    Workspaces,
    UniverseList,
    UniverseDetail { universe_id: String },
    Bestiary { universe_id: String },
    Locations { universe_id: String },
    Timeline { universe_id: String },
    PmList,
    PmBoard { board_id: String },
    Forge,
    Assets,
    Account,
    Trash,
}

impl Default for Route {
    fn default() -> (r: Self)
        ensures
            r == Route::Overview,
    {
        Route::Overview
    }
}

/// The outcome of a navigation request.
#[derive(Clone, Debug, PartialEq, Eq)]
pub enum NavigationResult {
    NotHandled,
    Handled,
    Denied { attempted: Route, reason: String },
}

/// Which part of the demo data a scoped reset restores.
#[derive(Debug, Clone, Copy, PartialEq, Eq)]
pub enum DemoResetScope {
    All,
    Timeline,
    Locations,
    Bestiary,
    PmTools,
}

/// A mutating command for the data store: the write queue's vocabulary.
#[derive(Debug, Clone, PartialEq)]
pub enum DbAction {
    CreateUniverse { id: String, name: String, desc: String },
    InjectDemoData(String),
    ResetDemoDataScoped(String, DemoResetScope),
    SnapshotCreate { universe_id: String, name: String },
    SnapshotDelete { snapshot_id: String },
    SnapshotRestore { snapshot_id: String },
    CreateBoard { id: String, name: String },
    SaveCreature(Creature, String),
    ArchiveCreature(String, bool),
    SaveLocation(Location),
    SaveEvent(TimelineEvent),
    SaveEra(TimelineEra),
    SaveCard(Card),
    MoveCard(String, String, i64),
    RebalanceColumn(String),
    DeleteCard(String),
    CreateNovel(String, Option<String>, String),
    UpdateNovel(Novel),
    CreateChapter(String, String, String),
    UpdateChapter(Chapter),
    ReorderChapter(String, i64),
    CreateScene(String, String, String),
    UpdateScene(Scene),
    ReorderScene(String, i64),
    MoveToTrash {
        target_type: String,
        target_id: String,
        display_name: String,
        display_info: Option<String>,
        parent_type: Option<String>,
        parent_id: Option<String>,
        payload_json: String,
    },
    RestoreFromTrash(String),
    PermanentDelete(String),
    EmptyTrash,
    CleanupOldTrash,
}

/// A deletion waiting for the user's confirmation.
#[derive(Debug, Clone, PartialEq, Eq)]
pub enum ConfirmAction {
    DeleteUniverse(String),
    DeleteBoard(String),
    DeleteNovel(String),
    DeleteChapter(String),
    DeleteScene(String),
    DeleteLocation(String),
    DeleteCreature(String),
    DeleteEvent(String),
    DeleteEra(String),
}

#[derive(Debug, Clone, Copy, PartialEq, Eq)]
pub enum DebugEventKind {
    Info,
    Warn,
    Error,
}

/// A diagnostic event; `at` is in milliseconds.
#[derive(Debug, Clone, PartialEq)]
pub struct DebugEvent {
    pub at: u64,
    pub kind: DebugEventKind,
    pub msg: String,
}

/// The last cache invalidation, for diagnostics.
#[derive(Debug, Clone, PartialEq)]
pub struct DebugInvalidation {
    pub at: u64,
    pub scope: String,
    pub key: String,
    pub reason: String,
}

/// The last response ignored as no longer relevant, for diagnostics.
#[derive(Debug, Clone, PartialEq)]
pub struct DebugIgnored {
    pub at: u64,
    pub reason: String,
}

/// A fetch the data store is asked for.
#[derive(Debug, Clone, PartialEq, Eq)]
pub enum FetchRequest {
    Projects,
    Universes,
    Boards,
    PmBoard { board_id: String },
    Creatures { universe_id: String },
    Locations { universe_id: String },
    Timeline { universe_id: String },
    Snapshots { universe_id: String },
    SchemaVersion,
    Integrity,
    Trash,
    Novels { universe_id: String },
    Chapters { novel_id: String },
    Scenes { chapter_id: String },
}

/// Work the runtime performs for the core.
#[derive(Debug, Clone, PartialEq, Eq)]
pub enum Effect {
    /// Execute the command now in flight in the write queue.
    RunCommand,
    Fetch(FetchRequest),
    /// Fire the autosave timer of `token` after the autosave delay.
    ScheduleAutosave { token: u64 },
}

/// Minimum time between two fetches of the same worldbuilding data, in
/// milliseconds.
pub const CORE_THROTTLE_MS: u64 = 800;

/// Load bookkeeping of the worldbuilding and board data.
pub struct CoreLoads {
    pub ledger: LoadLedger<CoreLoadKey>,
    pub last_universes_reload: Option<u64>,
    pub last_boards_reload: Option<u64>,
    pub creatures_loaded_for: StringHashMap<u64>,
    pub locations_loaded_for: StringHashMap<u64>,
    pub timeline_loaded_for: StringHashMap<u64>,
    pub snapshots_loaded_for: StringHashMap<u64>,
    pub pm_board_loaded_for: StringHashMap<u64>,
}

/// The single owned state of the application core.
pub struct AppState {
    pub route: Route,
    pub active_project: Option<Project>,
    pub projects: Vec<Project>,
    pub universes: Vec<Universe>,
    pub boards_list: Vec<Board>,
    pub creatures: Vec<Creature>,
    pub creatures_index: StringHashMap<usize>,
    pub locations: Vec<Location>,
    pub timeline_events: Vec<TimelineEvent>,
    pub timeline_eras: Vec<TimelineEra>,
    pub snapshots: Vec<UniverseSnapshot>,
    pub pm_data: Option<KanbanBoardData>,
    pub hovered_column: Option<String>,
    pub hovered_card: Option<String>,
    pub pm_drag: Option<crate::interaction::PmDrag>,
    pub expanded_locations: vstd::hash_set::StringHashSet,
    pub selected_location: Option<String>,
    pub location_roots: Vec<String>,
    pub locations_children_map: StringHashMap<Vec<String>>,
    pub last_create_novel_at: Option<u64>,
    pub last_create_scene_at: Option<u64>,
    pub loaded_creatures_universe: Option<String>,
    pub loaded_locations_universe: Option<String>,
    pub loaded_timeline_universe: Option<String>,
    pub loaded_snapshots_universe: Option<String>,
    pub loaded_forge_universe: Option<String>,
    pub data_dirty: bool,
    pub core: CoreLoads,
    pub forge: ForgeState,
    pub db: CommandQueue<DbAction>,
    pub notices: Notices,
    pub trash_entries: Vec<TrashEntry>,
    pub trash_loaded: bool,
    pub debug_overlay_open: bool,
    pub debug_schema_version: Option<i64>,
    pub integrity_busy: bool,
    pub integrity_issues: Vec<String>,
    pub new_universe_name: String,
    pub new_universe_desc: String,
    pub snapshot_name: String,
    pub dev_panel_open: bool,
    pub pending_confirm: Option<ConfirmAction>,
    pub new_board_name: String,
    pub card_editor: Option<crate::interaction::CardEditor>,
    pub rename_novel: Option<Novel>,
    pub rename_chapter: Option<Chapter>,
    pub rename_scene: Option<Scene>,
    pub trash_selected: Vec<String>,
    pub trash_search_query: String,
}

/// `r` is the bestiary of universe `uid`.
pub open spec fn is_bestiary_of(r: Route, uid: Seq<char>) -> bool {
    r matches Route::Bestiary { universe_id } && universe_id@ == uid
}

/// `r` shows the locations of universe `uid` (locations, bestiary or timeline).
pub open spec fn shows_locations_of(r: Route, uid: Seq<char>) -> bool {
    match r {
        Route::Locations { universe_id } => universe_id@ == uid,
        Route::Bestiary { universe_id } => universe_id@ == uid,
        Route::Timeline { universe_id } => universe_id@ == uid,
        _ => false,
    }
}

/// `r` is the timeline of universe `uid`.
pub open spec fn is_timeline_of(r: Route, uid: Seq<char>) -> bool {
    r matches Route::Timeline { universe_id } && universe_id@ == uid
}

/// `r` is the detail screen of universe `uid`.
pub open spec fn is_detail_of(r: Route, uid: Seq<char>) -> bool {
    r matches Route::UniverseDetail { universe_id } && universe_id@ == uid
}

/// `r` is board `bid`.
pub open spec fn is_board_of(r: Route, bid: Seq<char>) -> bool {
    r matches Route::PmBoard { board_id } && board_id@ == bid
}

/// Gates of the scoped worldbuilding fetches.
pub open spec fn creatures_gate(uid: Seq<char>) -> Gate {
    (crate::ledger::kind_creatures(), uid)
}

pub open spec fn locations_gate(uid: Seq<char>) -> Gate {
    (crate::ledger::kind_locations(), uid)
}

pub open spec fn timeline_gate(uid: Seq<char>) -> Gate {
    (crate::ledger::kind_timeline(), uid)
}

pub open spec fn snapshots_gate(uid: Seq<char>) -> Gate {
    (crate::ledger::kind_snapshots(), uid)
}

pub open spec fn pm_board_gate(bid: Seq<char>) -> Gate {
    (crate::ledger::kind_pm_board(), bid)
}

/// The index of a list of records: each id to its last position.
pub open spec fn index_of<T: Keyed>(s: Seq<T>) -> Map<Seq<char>, usize>
    decreases s.len(),
{
    if s.len() == 0 {
        Map::empty()
    } else {
        index_of(s.drop_last()).insert(s.last().key(), (s.len() - 1) as usize)
    }
}

/// The message of a failed fetch or command.
pub open spec fn failure_message(e: Seq<char>) -> Seq<char> {
    "Action failed: "@ + e
}

fn route_is_bestiary_of(r: &Route, uid: &str) -> (b: bool)
    ensures
        b == is_bestiary_of(*r, uid@),
{
    match r {
        Route::Bestiary { universe_id } => str_eq(universe_id.as_str(), uid),
        _ => false,
    }
}

fn route_shows_locations_of(r: &Route, uid: &str) -> (b: bool)
    ensures
        b == shows_locations_of(*r, uid@),
{
    match r {
        Route::Locations { universe_id } => str_eq(universe_id.as_str(), uid),
        Route::Bestiary { universe_id } => str_eq(universe_id.as_str(), uid),
        Route::Timeline { universe_id } => str_eq(universe_id.as_str(), uid),
        _ => false,
    }
}

fn route_is_timeline_of(r: &Route, uid: &str) -> (b: bool)
    ensures
        b == is_timeline_of(*r, uid@),
{
    match r {
        Route::Timeline { universe_id } => str_eq(universe_id.as_str(), uid),
        _ => false,
    }
}

fn route_is_detail_of(r: &Route, uid: &str) -> (b: bool)
    ensures
        b == is_detail_of(*r, uid@),
{
    match r {
        Route::UniverseDetail { universe_id } => str_eq(universe_id.as_str(), uid),
        _ => false,
    }
}

fn route_is_board_of(r: &Route, bid: &str) -> (b: bool)
    ensures
        b == is_board_of(*r, bid@),
{
    match r {
        Route::PmBoard { board_id } => str_eq(board_id.as_str(), bid),
        _ => false,
    }
}

/// Builds the id index of a list of records.
pub fn build_index<T: Keyed>(s: &Vec<T>) -> (r: StringHashMap<usize>)
    ensures
        r@ == index_of(s@),
{
    let mut m: StringHashMap<usize> = StringHashMap::new();
    let mut i: usize = 0;
    assert(index_of(s@.take(0)) =~= Map::<Seq<char>, usize>::empty());
    while i < s.len()
        invariant
            i <= s@.len(),
            m@ == index_of(s@.take(i as int)),
        decreases s.len() - i,
    {
        assert(s@.take(i + 1).drop_last() =~= s@.take(i as int));
        m.insert(s[i].id_str().to_string(), i);
        i = i + 1;
    }
    assert(s@.take(s@.len() as int) =~= s@);
    m
}

impl AppState {
    /// The state at start-up: on the overview, nothing loaded or queued.
    pub fn new() -> (r: Self)
        ensures
            r.route == Route::Overview,
            r.core.ledger.view() == Set::<Gate>::empty(),
            r.forge.loads.ledger.view() == Set::<Gate>::empty(),
            r.db.view().pending.len() == 0,
            r.db.view().inflight is None,
            r.notices.toasts@.len() == 0,
            r.notices.counter == 0,
    {
        AppState {
            route: Route::Overview,
            active_project: None,
            projects: Vec::new(),
            universes: Vec::new(),
            boards_list: Vec::new(),
            creatures: Vec::new(),
            creatures_index: StringHashMap::new(),
            locations: Vec::new(),
            timeline_events: Vec::new(),
            timeline_eras: Vec::new(),
            snapshots: Vec::new(),
            pm_data: None,
            hovered_column: None,
            hovered_card: None,
            pm_drag: None,
            expanded_locations: vstd::hash_set::StringHashSet::new(),
            selected_location: None,
            location_roots: Vec::new(),
            locations_children_map: StringHashMap::new(),
            last_create_novel_at: None,
            last_create_scene_at: None,
            loaded_creatures_universe: None,
            loaded_locations_universe: None,
            loaded_timeline_universe: None,
            loaded_snapshots_universe: None,
            loaded_forge_universe: None,
            data_dirty: false,
            core: CoreLoads {
                ledger: LoadLedger::new(),
                last_universes_reload: None,
                last_boards_reload: None,
                creatures_loaded_for: StringHashMap::new(),
                locations_loaded_for: StringHashMap::new(),
                timeline_loaded_for: StringHashMap::new(),
                snapshots_loaded_for: StringHashMap::new(),
                pm_board_loaded_for: StringHashMap::new(),
            },
            forge: ForgeState::new(),
            db: CommandQueue::new(),
            notices: Notices::new(),
            trash_entries: Vec::new(),
            trash_loaded: false,
            debug_overlay_open: false,
            debug_schema_version: None,
            integrity_busy: false,
            integrity_issues: Vec::new(),
            new_universe_name: String::new(),
            new_universe_desc: String::new(),
            snapshot_name: String::new(),
            dev_panel_open: true,
            pending_confirm: None,
            new_board_name: String::new(),
            card_editor: None,
            rename_novel: None,
            rename_chapter: None,
            rename_scene: None,
            trash_selected: Vec::new(),
            trash_search_query: String::new(),
        }
    }

    /// Queues a mutating command.
    pub fn queue(&mut self, action: DbAction)
        ensures
            final(self).db.view() == (crate::queue::QueueView {
                pending: old(self).db.view().pending.push(action),
                ..old(self).db.view()
            }),
            *final(self) == (AppState { db: final(self).db, ..*old(self) }),
    {
        self.db.enqueue(action);
    }

    /// Shows a notification; once the id counter is exhausted nothing is shown.
    pub fn show_toast(&mut self, message: String, kind: ToastKind, now: u64)
        ensures
            crate::notices::notified(&old(self).notices, &final(self).notices, message@, kind, now),
            *final(self) == (AppState { notices: final(self).notices, ..*old(self) }),
    {
        self.notices.notify(message, kind, now);
    }

    /// Rebuilds the creature id index from the creature list.
    pub fn rebuild_creatures_index(&mut self)
        ensures
            final(self).creatures_index@ == index_of(old(self).creatures@),
            final(self).creatures@ == old(self).creatures@,
    {
        self.creatures_index = build_index(&self.creatures);
    }

    /// The creature with id `id`, through the index.
    pub fn find_creature_by_id(&self, id: &str) -> (r: Option<&Creature>)
        ensures
            match r {
                Some(c) => self.creatures_index@.contains_key(id@)
                    && (self.creatures_index@[id@] as int) < self.creatures@.len()
                    && *c == self.creatures@[self.creatures_index@[id@] as int],
                None => !self.creatures_index@.contains_key(id@)
                    || self.creatures_index@[id@] as int >= self.creatures@.len(),
            },
    {
        match self.creatures_index.get(id) {
            Some(i) => {
                if *i < self.creatures.len() {
                    Some(&self.creatures[*i])
                } else {
                    None
                }
            },
            None => None,
        }
    }

    /// Tries to begin an unscoped core fetch (see the ledger).
    pub fn core_try_begin_global_load(&mut self, key: CoreLoadKey, last_reload: Option<u64>, now: u64) -> (r: Option<u64>)
        ensures
            r is Some <==> crate::ledger::may_begin(old(self).core.ledger.view(), key.gate(), last_reload, now, CORE_THROTTLE_MS),
            r is Some ==> r == Some(now),
            final(self).core.ledger.view() == crate::ledger::after_begin(
                old(self).core.ledger.view(),
                key.gate(),
                last_reload,
                now,
                CORE_THROTTLE_MS,
            ),
            final(self).core == (CoreLoads { ledger: final(self).core.ledger, ..old(self).core }),
            *final(self) == (AppState { core: final(self).core, ..*old(self) }),
    {
        self.core.ledger.try_begin_global(key, last_reload, now, CORE_THROTTLE_MS)
    }

    /// Tries to begin a scoped core fetch, throttled by the scope's last load.
    pub fn core_try_begin_scoped_load(&mut self, key: CoreLoadKey, loaded_at: Option<u64>, now: u64) -> (r: bool)
        ensures
            r == crate::ledger::may_begin(old(self).core.ledger.view(), key.gate(), loaded_at, now, CORE_THROTTLE_MS),
            final(self).core.ledger.view() == crate::ledger::after_begin(
                old(self).core.ledger.view(),
                key.gate(),
                loaded_at,
                now,
                CORE_THROTTLE_MS,
            ),
            final(self).core == (CoreLoads { ledger: final(self).core.ledger, ..old(self).core }),
            *final(self) == (AppState { core: final(self).core, ..*old(self) }),
    {
        self.core.ledger.try_begin_scoped(key, loaded_at, now, CORE_THROTTLE_MS)
    }

    /// Applies a creatures response for universe `universe_id`. The load slot is
    /// released whatever the outcome; the data is applied only while the
    /// bestiary of that universe is on screen, else it is ignored as stale.
    pub fn handle_creatures_fetched(&mut self, universe_id: String, result: Result<Vec<Creature>, String>, now: u64)
        ensures
            crate::responses::creatures_response(old(self), final(self), universe_id@, result, now),
    {
        self.core.ledger.end(&CoreLoadKey::Creatures { universe_id: universe_id.clone() });
        let relevant = route_is_bestiary_of(&self.route, universe_id.as_str());
        match result {
            Ok(v) => {
                if relevant {
                    self.creatures = v;
                    self.creatures_index = build_index(&self.creatures);
                    self.loaded_creatures_universe = Some(universe_id.clone());
                    self.core.creatures_loaded_for.insert(universe_id, now);
                }
            },
            Err(e) => {
                if relevant {
                    self.notices.notify(join("Action failed: ", e.as_str()), ToastKind::Error, now);
                }
            },
        }
    }

    /// Applies a locations response for universe `universe_id`, relevant on
    /// its locations, bestiary and timeline screens.
    pub fn handle_locations_fetched(&mut self, universe_id: String, result: Result<Vec<Location>, String>, now: u64)
        ensures
            crate::responses::locations_response(old(self), final(self), universe_id@, result, now),
    {
        self.core.ledger.end(&CoreLoadKey::Locations { universe_id: universe_id.clone() });
        let relevant = route_shows_locations_of(&self.route, universe_id.as_str());
        match result {
            Ok(v) => {
                if relevant {
                    self.locations = crate::sorting::sort_stable(v);
                    self.rebuild_locations_cache();
                    self.loaded_locations_universe = Some(universe_id.clone());
                    self.core.locations_loaded_for.insert(universe_id, now);
                }
            },
            Err(e) => {
                if relevant {
                    self.notices.notify(join("Action failed: ", e.as_str()), ToastKind::Error, now);
                }
            },
        }
    }

    /// Applies a timeline response (events and eras) for universe
    /// `universe_id`, relevant on its timeline screen.
    pub fn handle_timeline_fetched(
        &mut self,
        universe_id: String,
        result: Result<(Vec<TimelineEvent>, Vec<TimelineEra>), String>,
        now: u64,
    )
        ensures
            crate::responses::timeline_response(old(self), final(self), universe_id@, result, now),
    {
        self.core.ledger.end(&CoreLoadKey::Timeline { universe_id: universe_id.clone() });
        let relevant = route_is_timeline_of(&self.route, universe_id.as_str());
        match result {
            Ok(v) => {
                if relevant {
                    let (events, eras) = v;
                    self.timeline_events = crate::sorting::sort_stable(events);
                    self.timeline_eras = crate::sorting::sort_stable(eras);
                    self.loaded_timeline_universe = Some(universe_id.clone());
                    self.core.timeline_loaded_for.insert(universe_id, now);
                }
            },
            Err(e) => {
                if relevant {
                    self.notices.notify(join("Action failed: ", e.as_str()), ToastKind::Error, now);
                }
            },
        }
    }

    /// Applies a snapshots response for universe `universe_id`, relevant on
    /// its detail screen.
    pub fn handle_snapshots_fetched(&mut self, universe_id: String, result: Result<Vec<UniverseSnapshot>, String>, now: u64)
        ensures
            crate::responses::snapshots_response(old(self), final(self), universe_id@, result, now),
    {
        self.core.ledger.end(&CoreLoadKey::Snapshots { universe_id: universe_id.clone() });
        let relevant = route_is_detail_of(&self.route, universe_id.as_str());
        match result {
            Ok(v) => {
                if relevant {
                    self.snapshots = v;
                    self.loaded_snapshots_universe = Some(universe_id.clone());
                    self.core.snapshots_loaded_for.insert(universe_id, now);
                }
            },
            Err(e) => {
                if relevant {
                    self.notices.notify(join("Action failed: ", e.as_str()), ToastKind::Error, now);
                }
            },
        }
    }

    /// Applies a board response for board `board_id`, relevant while that
    /// board is on screen.
    pub fn handle_pm_board_fetched(&mut self, board_id: String, result: Result<KanbanBoardData, String>, now: u64)
        ensures
            crate::responses::pm_board_response(old(self), final(self), board_id@, result, now),
    {
        self.core.ledger.end(&CoreLoadKey::PmBoard { board_id: board_id.clone() });
        let relevant = route_is_board_of(&self.route, board_id.as_str());
        match result {
            Ok(v) => {
                if relevant {
                    self.core.pm_board_loaded_for.insert(board_id, now);
                    self.pm_data = Some(v);
                }
            },
            Err(e) => {
                if relevant {
                    self.notices.notify(join("Action failed: ", e.as_str()), ToastKind::Error, now);
                }
            },
        }
    }

    /// Applies the universes list response; the load slot is released either way.
    pub fn handle_universes_fetched(&mut self, result: Result<Vec<Universe>, String>, now: u64)
        ensures
            crate::responses::universes_response(old(self), final(self), result, now),
    {
        self.core.ledger.end(&CoreLoadKey::UniversesList);
        match result {
            Ok(v) => {
                self.universes = v;
            },
            Err(e) => {
                self.notices.notify(join("Action failed: ", e.as_str()), ToastKind::Error, now);
            },
        }
    }

    /// Applies the boards list response; the load slot is released either way.
    pub fn handle_boards_fetched(&mut self, result: Result<Vec<Board>, String>, now: u64)
        ensures
            crate::responses::boards_response(old(self), final(self), result, now),
    {
        self.core.ledger.end(&CoreLoadKey::BoardsList);
        match result {
            Ok(v) => {
                self.boards_list = v;
            },
            Err(e) => {
                self.notices.notify(join("Action failed: ", e.as_str()), ToastKind::Error, now);
            },
        }
    }

    /// Applies the trash list response.
    pub fn handle_trash_fetched(&mut self, result: Result<Vec<TrashEntry>, String>, now: u64)
        ensures
            crate::responses::trash_response(old(self), final(self), result, now),
    {
        match result {
            Ok(v) => {
                self.trash_entries = v;
                self.trash_loaded = true;
            },
            Err(e) => {
                self.notices.notify(join("Failed to load trash: ", e.as_str()), ToastKind::Error, now);
            },
        }
    }
}

/// The selection after a novel-tree response, repaired where the forge is
/// on screen.
pub open spec fn settled(on_forge: bool, s: crate::forge::Selection) -> crate::forge::Selection {
    if on_forge {
        crate::forge::repaired(s)
    } else {
        s
    }
}

impl AppState {
    /// Runs the safe-fallback repair of the novel tree while it is on screen.
    pub fn ensure_forge_safe_fallback(&mut self)
        ensures
            final(self).forge.sel() == settled(old(self).route is Forge, old(self).forge.sel()),
            final(self).forge.loads == old(self).forge.loads,
            final(self).forge.debounce_counter == old(self).forge.debounce_counter,
            *final(self) == (AppState { forge: final(self).forge, ..*old(self) }),
            !(old(self).route is Forge) ==> *final(self) == *old(self),
    {
        if matches!(self.route, Route::Forge) {
            self.forge.ensure_safe_fallback();
        }
    }

    /// Applies a novels response: the load slot is released either way; a
    /// success replaces the list and repairs the selection.
    pub fn handle_novels_fetched(&mut self, result: Result<Vec<Novel>, String>, now: u64)
        ensures
            crate::responses::novels_response(old(self), final(self), result, now),
    {
        self.forge.mark_novels_load_finished();
        match result {
            Ok(v) => {
                self.forge.apply_novels(v);
                self.ensure_forge_safe_fallback();
            },
            Err(e) => {
                self.notices.notify(join("Failed to load novels: ", e.as_str()), ToastKind::Error, now);
            },
        }
    }

    /// Applies a chapters response for novel `novel_id`. The load slot is
    /// released either way and only a success records the load time; the
    /// chapters are merged into the tree (local edits win) and, for the
    /// active novel, into the view; then the selection is repaired. A
    /// failure is reported only while that novel is active.
    pub fn handle_forge_chapters_fetched(&mut self, novel_id: String, result: Result<Vec<Chapter>, String>, now: u64)
        ensures
            crate::responses::forge_chapters_response(old(self), final(self), novel_id@, result, now),
    {
        let ok = result.is_ok();
        self.forge.mark_chapters_load_finished(novel_id.as_str(), ok, now);
        match result {
            Ok(v) => {
                self.forge.apply_chapters(novel_id.as_str(), v);
                self.ensure_forge_safe_fallback();
            },
            Err(e) => {
                let active = match &self.forge.active_novel_id {
                    Some(a) => str_eq(a.as_str(), novel_id.as_str()),
                    None => false,
                };
                if active {
                    self.notices.notify(join("Failed to load chapters: ", e.as_str()), ToastKind::Error, now);
                }
            },
        }
    }

    /// Applies a scenes response for chapter `chapter_id`, in the same way
    /// as chapters one level down.
    pub fn handle_forge_scenes_fetched(&mut self, chapter_id: String, result: Result<Vec<Scene>, String>, now: u64)
        ensures
            crate::responses::forge_scenes_response(old(self), final(self), chapter_id@, result, now),
    {
        let ok = result.is_ok();
        self.forge.mark_scenes_load_finished(chapter_id.as_str(), ok, now);
        match result {
            Ok(v) => {
                self.forge.apply_scenes(chapter_id.as_str(), v);
                self.ensure_forge_safe_fallback();
            },
            Err(e) => {
                let active = match &self.forge.active_chapter_id {
                    Some(a) => str_eq(a.as_str(), chapter_id.as_str()),
                    None => false,
                };
                if active {
                    self.notices.notify(join("Failed to load scenes: ", e.as_str()), ToastKind::Error, now);
                }
            },
        }
    }
}

impl AppState {
    /// Applies a chapters response for the active novel, merging it into
    /// the active chapter view (its own chapters winning). The active
    /// novel's load slot is released either way, and only a success records
    /// its load time.
    pub fn handle_chapters_fetched(&mut self, result: Result<Vec<Chapter>, String>, now: u64)
        ensures
            crate::responses::active_chapters_response(old(self), final(self), result, now),
    {
        let ok = result.is_ok();
        match &self.forge.active_novel_id {
            Some(nid) => {
                let n = nid.clone();
                self.forge.mark_chapters_load_finished(n.as_str(), ok, now);
            },
            None => {},
        }
        match result {
            Ok(v) => {
                self.forge.apply_active_chapters(v);
                let ghost m = self.forge.sel().novel_chapters;
                let ghost applied = self.forge.sel();
                self.ensure_forge_safe_fallback();
                assert(crate::forge::active_chapters_applied(old(self).forge.sel(), m) == applied);
            },
            Err(e) => {
                self.notices.notify(join("Failed to load chapters: ", e.as_str()), ToastKind::Error, now);
            },
        }
    }
}

impl AppState {
    /// Applies the schema version response (shown in diagnostics).
    pub fn handle_schema_version_fetched(&mut self, result: Result<i64, String>, now: u64)
        ensures
            crate::responses::schema_response(old(self), final(self), result, now),
    {
        match result {
            Ok(v) => {
                self.debug_schema_version = Some(v);
            },
            Err(e) => {
                self.notices.notify(join("Action failed: ", e.as_str()), ToastKind::Error, now);
            },
        }
    }

    /// Applies the integrity check response: its issues are shown and the
    /// check is no longer pending.
    pub fn handle_integrity_fetched(&mut self, result: Result<Vec<String>, String>, now: u64)
        ensures
            crate::responses::integrity_response(old(self), final(self), result, now),
    {
        match result {
            Ok(v) => {
                self.integrity_issues = v;
                self.integrity_busy = false;
            },
            Err(e) => {
                self.notices.notify(join("Action failed: ", e.as_str()), ToastKind::Error, now);
            },
        }
    }
}

} // verus!
