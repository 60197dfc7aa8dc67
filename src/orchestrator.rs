//! The fetch orchestrator: after each processed event it starts the next
//! queued write, and only when no write is pending or in flight decides
//! which fetches the current route needs.

use vstd::prelude::*;
use crate::ledger::{LoadLedger, CoreLoadKey, GateKey, Gate, may_begin};
use crate::forge::{opt_view, loaded_at};
use crate::state::{
    AppState, CoreLoads, Route, Effect, FetchRequest, CORE_THROTTLE_MS, is_bestiary_of, shows_locations_of,
    is_timeline_of, is_detail_of, is_board_of, creatures_gate, locations_gate, timeline_gate,
    snapshots_gate, pm_board_gate,
};
use crate::text::str_eq;

verus! {

/// The load slot a fetch effect runs under, for the gated fetches.
pub open spec fn effect_gate(e: Effect) -> Option<Gate> {
    match e {
        Effect::Fetch(f) => match f {
            FetchRequest::Universes => Some(CoreLoadKey::UniversesList.gate()),
            FetchRequest::Boards => Some(CoreLoadKey::BoardsList.gate()),
            FetchRequest::PmBoard { board_id } => Some(pm_board_gate(board_id@)),
            FetchRequest::Creatures { universe_id } => Some(creatures_gate(universe_id@)),
            FetchRequest::Locations { universe_id } => Some(locations_gate(universe_id@)),
            FetchRequest::Timeline { universe_id } => Some(timeline_gate(universe_id@)),
            FetchRequest::Snapshots { universe_id } => Some(snapshots_gate(universe_id@)),
            _ => None,
        },
        _ => None,
    }
}

/// `r` requests a fetch under gate `g`.
pub open spec fn requested(r: Seq<Effect>, g: Gate) -> bool {
    exists|i: int| 0 <= i < r.len() && effect_gate(#[trigger] r[i]) == Some(g)
}

/// Neither a write is queued nor one is in flight.
pub open spec fn writes_idle(s: &AppState) -> bool {
    s.db.view().inflight is None && s.db.view().pending.len() == 0
}

/// The route shows the board list.
pub open spec fn wants_boards(r: Route) -> bool {
    r is Overview || r is PmList || r is PmBoard
}

/// The gated fetches due at `now`, given the state before the pass. All of
/// them require that no write is pending; then the top-level lists are
/// due while empty, and each route's scoped collections while the loaded
/// scope differs from the route's one; each is also subject to the ledger
/// (not in progress, outside the throttle window).
pub open spec fn due_gates(s: &AppState, now: u64) -> Set<Gate> {
    let l = s.core.ledger.view();
    Set::new(
        |g: Gate|
            writes_idle(s) && {
                ||| (g == CoreLoadKey::UniversesList.gate() && s.universes@.len() == 0 && may_begin(
                    l,
                    g,
                    s.core.last_universes_reload,
                    now,
                    CORE_THROTTLE_MS,
                ))
                ||| (g == CoreLoadKey::BoardsList.gate() && wants_boards(s.route) && s.boards_list@.len() == 0
                    && may_begin(l, g, s.core.last_boards_reload, now, CORE_THROTTLE_MS))
                ||| (g == pm_board_gate(g.1) && is_board_of(s.route, g.1) && (s.pm_data is None
                    || s.pm_data->Some_0.board.id@ != g.1) && may_begin(
                    l,
                    g,
                    loaded_at(s.core.pm_board_loaded_for@, g.1),
                    now,
                    CORE_THROTTLE_MS,
                ))
                ||| (g == creatures_gate(g.1) && is_bestiary_of(s.route, g.1) && opt_view(
                    s.loaded_creatures_universe,
                ) != Some(g.1) && may_begin(
                    l,
                    g,
                    loaded_at(s.core.creatures_loaded_for@, g.1),
                    now,
                    CORE_THROTTLE_MS,
                ))
                ||| (g == locations_gate(g.1) && shows_locations_of(s.route, g.1) && opt_view(
                    s.loaded_locations_universe,
                ) != Some(g.1) && may_begin(
                    l,
                    g,
                    loaded_at(s.core.locations_loaded_for@, g.1),
                    now,
                    CORE_THROTTLE_MS,
                ))
                ||| (g == timeline_gate(g.1) && is_timeline_of(s.route, g.1) && opt_view(
                    s.loaded_timeline_universe,
                ) != Some(g.1) && may_begin(
                    l,
                    g,
                    loaded_at(s.core.timeline_loaded_for@, g.1),
                    now,
                    CORE_THROTTLE_MS,
                ))
                ||| (g == snapshots_gate(g.1) && is_detail_of(s.route, g.1) && opt_view(
                    s.loaded_snapshots_universe,
                ) != Some(g.1) && may_begin(
                    l,
                    g,
                    loaded_at(s.core.snapshots_loaded_for@, g.1),
                    now,
                    CORE_THROTTLE_MS,
                ))
            },
    )
}

proof fn lemma_push<T>(r: Seq<T>, e: T, x: T)
    ensures
        r.push(e).contains(x) == (r.contains(x) || e == x),
{
    if r.contains(x) {
        let i = choose|i: int| 0 <= i < r.len() && r[i] == x;
        assert(r.push(e)[i] == x);
    }
    if e == x {
        assert(r.push(e)[r.len() as int] == x);
    }
    if r.push(e).contains(x) {
        let i = choose|i: int| 0 <= i < r.len() + 1 && r.push(e)[i] == x;
        if i < r.len() {
            assert(r[i] == x);
        }
    }
}

proof fn lemma_requested_push(r: Seq<Effect>, e: Effect, g: Gate)
    ensures
        requested(r.push(e), g) == (requested(r, g) || effect_gate(e) == Some(g)),
{
    if requested(r, g) {
        let i = choose|i: int| 0 <= i < r.len() && effect_gate(#[trigger] r[i]) == Some(g);
        assert(r.push(e)[i] == r[i]);
    }
    if effect_gate(e) == Some(g) {
        assert(r.push(e)[r.len() as int] == e);
    }
    if requested(r.push(e), g) {
        let i = choose|i: int| 0 <= i < r.len() + 1 && effect_gate(#[trigger] r.push(e)[i]) == Some(g);
        if i < r.len() {
            assert(r[i] == r.push(e)[i]);
        }
    }
}

/// Requests a gated fetch when the ledger allows it. `l0` is the ledger
/// before the pass and `begun` what the pass has begun so far.
fn request(
    ledger: &mut LoadLedger<CoreLoadKey>,
    key: CoreLoadKey,
    last: Option<u64>,
    now: u64,
    fetch: FetchRequest,
    effects: &mut Vec<Effect>,
    Ghost(l0): Ghost<Set<Gate>>,
    Ghost(begun): Ghost<Set<Gate>>,
) -> (started: bool)
    requires
        effect_gate(Effect::Fetch(fetch)) == Some(key.gate()),
        old(ledger).view() == l0 + begun,
        forall|g: Gate| requested(old(effects)@, g) <==> #[trigger] begun.contains(g),
        !begun.contains(key.gate()),
    ensures
        started == may_begin(l0, key.gate(), last, now, CORE_THROTTLE_MS),
        final(ledger).view() == l0 + if started {
            begun.insert(key.gate())
        } else {
            begun
        },
        forall|g: Gate| #[trigger] requested(final(effects)@, g) <==> (if started {
            begun.insert(key.gate())
        } else {
            begun
        }).contains(g),
        forall|x: Effect| effect_gate(x) is None ==> (#[trigger] final(effects)@.contains(x)
            == old(effects)@.contains(x)),
        forall|i: int| 0 <= i < final(effects)@.len() ==> effect_gate(#[trigger] final(effects)@[i]) is Some
            || final(effects)@[i] == old(effects)@[i],
        old(effects)@.len() <= final(effects)@.len(),
        forall|i: int| 0 <= i < final(effects)@.len() && #[trigger] final(effects)@[i] == Effect::RunCommand
            ==> i < old(effects)@.len() && old(effects)@[i] == Effect::RunCommand,
{
    let ghost g0 = key.gate();
    let ghost e0 = effects@;
    assert(may_begin(l0 + begun, g0, last, now, CORE_THROTTLE_MS) == may_begin(l0, g0, last, now, CORE_THROTTLE_MS));
    if ledger.try_begin_global(key, last, now, CORE_THROTTLE_MS).is_some() {
        effects.push(Effect::Fetch(fetch));
        proof {
            assert((l0 + begun).insert(g0) =~= l0 + begun.insert(g0));
            assert forall|g: Gate| requested(effects@, g) <==> #[trigger] begun.insert(g0).contains(g) by {
                lemma_requested_push(e0, Effect::Fetch(fetch), g);
            }
            assert forall|x: Effect| effect_gate(x) is None implies (#[trigger] effects@.contains(x) == e0.contains(x)) by {
                lemma_push(e0, Effect::Fetch(fetch), x);
            }
        }
        true
    } else {
        false
    }
}

/// The scope that was loaded differs from `scope`.
fn differs(loaded: &Option<String>, scope: &str) -> (r: bool)
    ensures
        r == (opt_view(*loaded) != Some(scope@)),
{
    match loaded {
        Some(l) => !str_eq(l.as_str(), scope),
        None => true,
    }
}

fn get_time(m: &vstd::hash_map::StringHashMap<u64>, scope: &str) -> (r: Option<u64>)
    ensures
        r == loaded_at(m@, scope@),
{
    match m.get(scope) {
        Some(t) => Some(*t),
        None => None,
    }
}

impl AppState {
    /// One pass of the orchestrator at time `now`. In order: the projects
    /// list is requested while empty; the next queued write starts where
    /// none is in flight; the trash list is requested on the trash screen
    /// while not loaded and no write is in flight; and only where no write
    /// is queued or in flight, the gated fetches of [`due_gates`] are begun
    /// and requested, with the diagnostics fetches of the universe screen.
    pub fn post_event_tasks(&mut self, now: u64) -> (r: Vec<Effect>)
        ensures
            final(self).db.view() == crate::queue::began(old(self).db.view()),
            r@.contains(Effect::RunCommand) <==> (old(self).db.view().inflight is None
                && old(self).db.view().pending.len() > 0),
            r@.contains(Effect::Fetch(FetchRequest::Projects)) <==> old(self).projects@.len() == 0,
            r@.contains(Effect::Fetch(FetchRequest::Trash)) <==> (old(self).route is Trash
                && !old(self).trash_loaded && writes_idle(old(self))),
            r@.contains(Effect::Fetch(FetchRequest::SchemaVersion)) <==> (writes_idle(old(self))
                && old(self).route is UniverseDetail && old(self).debug_overlay_open
                && old(self).debug_schema_version is None),
            r@.contains(Effect::Fetch(FetchRequest::Integrity)) <==> (writes_idle(old(self))
                && old(self).route is UniverseDetail && old(self).integrity_busy),
            forall|g: Gate| requested(r@, g) <==> #[trigger] due_gates(old(self), now).contains(g),
            final(self).core.ledger.view() == old(self).core.ledger.view() + due_gates(old(self), now),
            !writes_idle(old(self)) ==> forall|i: int| 0 <= i < r@.len() ==> (#[trigger] r@[i] == Effect::RunCommand
                || r@[i] == Effect::Fetch(FetchRequest::Projects)),
            final(self).core.last_universes_reload == if due_gates(old(self), now).contains(
                CoreLoadKey::UniversesList.gate(),
            ) {
                Some(now)
            } else {
                old(self).core.last_universes_reload
            },
            final(self).core.last_boards_reload == if due_gates(old(self), now).contains(
                CoreLoadKey::BoardsList.gate(),
            ) {
                Some(now)
            } else {
                old(self).core.last_boards_reload
            },
            forall|i: int| 0 <= i < r@.len() && #[trigger] r@[i] == Effect::RunCommand ==> i == if old(
                self,
            ).projects@.len() == 0 {
                1int
            } else {
                0int
            },
            final(self).core == (CoreLoads {
                ledger: final(self).core.ledger,
                last_universes_reload: final(self).core.last_universes_reload,
                last_boards_reload: final(self).core.last_boards_reload,
                ..old(self).core
            }),
            *final(self) == (AppState { core: final(self).core, db: final(self).db, ..*old(self) }),
    {
        let ghost due = due_gates(old(self), now);
        let mut effects: Vec<Effect> = Vec::new();
        let ghost run = Effect::RunCommand;
        let ghost trash = Effect::Fetch(FetchRequest::Trash);
        let ghost projects = Effect::Fetch(FetchRequest::Projects);
        let ghost schema = Effect::Fetch(FetchRequest::SchemaVersion);
        let ghost integrity = Effect::Fetch(FetchRequest::Integrity);
        if self.projects.len() == 0 {
            effects.push(Effect::Fetch(FetchRequest::Projects));
            proof {
                lemma_push(Seq::<Effect>::empty(), projects, run);
                lemma_push(Seq::<Effect>::empty(), projects, trash);
                lemma_push(Seq::<Effect>::empty(), projects, projects);
                lemma_push(Seq::<Effect>::empty(), projects, schema);
                lemma_push(Seq::<Effect>::empty(), projects, integrity);
                assert(Seq::<Effect>::empty().push(projects) == effects@);
            }
        }
        assert(!effects@.contains(run) && !effects@.contains(trash));
        assert(effects@.contains(projects) == (old(self).projects@.len() == 0));
        let started = self.db.begin_next();
        if started {
            let ghost e0 = effects@;
            effects.push(Effect::RunCommand);
            proof {
                lemma_push(e0, run, run);
                lemma_push(e0, run, trash);
                lemma_push(e0, run, projects);
                lemma_push(e0, run, schema);
                lemma_push(e0, run, integrity);
            }
        }
        let on_trash = matches!(self.route, Route::Trash);
        if on_trash && !self.trash_loaded && !self.db.is_busy() {
            let ghost e0 = effects@;
            effects.push(Effect::Fetch(FetchRequest::Trash));
            proof {
                lemma_push(e0, trash, run);
                lemma_push(e0, trash, trash);
                lemma_push(e0, trash, projects);
                lemma_push(e0, trash, schema);
                lemma_push(e0, trash, integrity);
            }
        }
        assert(effects@.contains(run) == started);
        assert(effects@.contains(projects) == (old(self).projects@.len() == 0));
        assert(!effects@.contains(schema) && !effects@.contains(integrity));
        let ghost pre = effects@;
        let ghost l0 = old(self).core.ledger.view();
        let ghost mut begun: Set<Gate> = Set::empty();
        proof {
            assert forall|g: Gate| requested(pre, g) <==> #[trigger] begun.contains(g) by {
                if requested(pre, g) {
                    let i = choose|i: int| 0 <= i < pre.len() && effect_gate(#[trigger] pre[i]) == Some(g);
                }
            }
            assert(self.core.ledger.view() =~= l0 + begun);
        }
        if self.db.is_idle() {
            if self.universes.len() == 0 {
                let st = request(
                    &mut self.core.ledger,
                    CoreLoadKey::UniversesList,
                    self.core.last_universes_reload,
                    now,
                    FetchRequest::Universes,
                    &mut effects,
                    Ghost(l0),
                    Ghost(begun),
                );
                if st {
                    self.core.last_universes_reload = Some(now);
                    proof { begun = begun.insert(CoreLoadKey::UniversesList.gate()); }
                }
            }
            let wb = match &self.route {
                Route::Overview => true,
                Route::PmList => true,
                Route::PmBoard { .. } => true,
                _ => false,
            };
            if wb && self.boards_list.len() == 0 {
                let st = request(
                    &mut self.core.ledger,
                    CoreLoadKey::BoardsList,
                    self.core.last_boards_reload,
                    now,
                    FetchRequest::Boards,
                    &mut effects,
                    Ghost(l0),
                    Ghost(begun),
                );
                if st {
                    self.core.last_boards_reload = Some(now);
                    proof { begun = begun.insert(CoreLoadKey::BoardsList.gate()); }
                }
            }
            match &self.route {
                Route::PmBoard { board_id } => {
                    let need = match &self.pm_data {
                        Some(d) => !str_eq(d.board.id.as_str(), board_id.as_str()),
                        None => true,
                    };
                    if need {
                        let t = get_time(&self.core.pm_board_loaded_for, board_id.as_str());
                        let st = request(
                            &mut self.core.ledger,
                            CoreLoadKey::PmBoard { board_id: board_id.clone() },
                            t,
                            now,
                            FetchRequest::PmBoard { board_id: board_id.clone() },
                            &mut effects,
                            Ghost(l0),
                            Ghost(begun),
                        );
                        if st {
                            proof { begun = begun.insert(pm_board_gate(board_id@)); }
                        }
                    }
                },
                Route::Bestiary { universe_id } => {
                    if differs(&self.loaded_creatures_universe, universe_id.as_str()) {
                        let t = get_time(&self.core.creatures_loaded_for, universe_id.as_str());
                        let st = request(
                            &mut self.core.ledger,
                            CoreLoadKey::Creatures { universe_id: universe_id.clone() },
                            t,
                            now,
                            FetchRequest::Creatures { universe_id: universe_id.clone() },
                            &mut effects,
                            Ghost(l0),
                            Ghost(begun),
                        );
                        if st {
                            proof { begun = begun.insert(creatures_gate(universe_id@)); }
                        }
                    }
                    if differs(&self.loaded_locations_universe, universe_id.as_str()) {
                        let t = get_time(&self.core.locations_loaded_for, universe_id.as_str());
                        let st = request(
                            &mut self.core.ledger,
                            CoreLoadKey::Locations { universe_id: universe_id.clone() },
                            t,
                            now,
                            FetchRequest::Locations { universe_id: universe_id.clone() },
                            &mut effects,
                            Ghost(l0),
                            Ghost(begun),
                        );
                        if st {
                            proof { begun = begun.insert(locations_gate(universe_id@)); }
                        }
                    }
                },
                Route::Locations { universe_id } => {
                    if differs(&self.loaded_locations_universe, universe_id.as_str()) {
                        let t = get_time(&self.core.locations_loaded_for, universe_id.as_str());
                        let st = request(
                            &mut self.core.ledger,
                            CoreLoadKey::Locations { universe_id: universe_id.clone() },
                            t,
                            now,
                            FetchRequest::Locations { universe_id: universe_id.clone() },
                            &mut effects,
                            Ghost(l0),
                            Ghost(begun),
                        );
                        if st {
                            proof { begun = begun.insert(locations_gate(universe_id@)); }
                        }
                    }
                },
                Route::Timeline { universe_id } => {
                    if differs(&self.loaded_timeline_universe, universe_id.as_str()) {
                        let t = get_time(&self.core.timeline_loaded_for, universe_id.as_str());
                        let st = request(
                            &mut self.core.ledger,
                            CoreLoadKey::Timeline { universe_id: universe_id.clone() },
                            t,
                            now,
                            FetchRequest::Timeline { universe_id: universe_id.clone() },
                            &mut effects,
                            Ghost(l0),
                            Ghost(begun),
                        );
                        if st {
                            proof { begun = begun.insert(timeline_gate(universe_id@)); }
                        }
                    }
                    if differs(&self.loaded_locations_universe, universe_id.as_str()) {
                        let t = get_time(&self.core.locations_loaded_for, universe_id.as_str());
                        let st = request(
                            &mut self.core.ledger,
                            CoreLoadKey::Locations { universe_id: universe_id.clone() },
                            t,
                            now,
                            FetchRequest::Locations { universe_id: universe_id.clone() },
                            &mut effects,
                            Ghost(l0),
                            Ghost(begun),
                        );
                        if st {
                            proof { begun = begun.insert(locations_gate(universe_id@)); }
                        }
                    }
                },
                Route::UniverseDetail { universe_id } => {
                    if self.debug_overlay_open && self.debug_schema_version.is_none() {
                        let ghost e0 = effects@;
                        effects.push(Effect::Fetch(FetchRequest::SchemaVersion));
                        proof {
                            assert forall|g: Gate| requested(effects@, g) <==> #[trigger] begun.contains(g) by {
                                lemma_requested_push(e0, Effect::Fetch(FetchRequest::SchemaVersion), g);
                            }
                            lemma_push(e0, Effect::Fetch(FetchRequest::SchemaVersion), run);
                            lemma_push(e0, Effect::Fetch(FetchRequest::SchemaVersion), trash);
                            lemma_push(e0, Effect::Fetch(FetchRequest::SchemaVersion), projects);
                            lemma_push(e0, Effect::Fetch(FetchRequest::SchemaVersion), schema);
                            lemma_push(e0, Effect::Fetch(FetchRequest::SchemaVersion), integrity);
                        }
                    }
                    if differs(&self.loaded_snapshots_universe, universe_id.as_str()) {
                        let t = get_time(&self.core.snapshots_loaded_for, universe_id.as_str());
                        let st = request(
                            &mut self.core.ledger,
                            CoreLoadKey::Snapshots { universe_id: universe_id.clone() },
                            t,
                            now,
                            FetchRequest::Snapshots { universe_id: universe_id.clone() },
                            &mut effects,
                            Ghost(l0),
                            Ghost(begun),
                        );
                        if st {
                            proof { begun = begun.insert(snapshots_gate(universe_id@)); }
                        }
                    }
                    if self.integrity_busy {
                        let ghost e0 = effects@;
                        effects.push(Effect::Fetch(FetchRequest::Integrity));
                        proof {
                            assert forall|g: Gate| requested(effects@, g) <==> #[trigger] begun.contains(g) by {
                                lemma_requested_push(e0, Effect::Fetch(FetchRequest::Integrity), g);
                            }
                            lemma_push(e0, Effect::Fetch(FetchRequest::Integrity), run);
                            lemma_push(e0, Effect::Fetch(FetchRequest::Integrity), trash);
                            lemma_push(e0, Effect::Fetch(FetchRequest::Integrity), projects);
                            lemma_push(e0, Effect::Fetch(FetchRequest::Integrity), schema);
                            lemma_push(e0, Effect::Fetch(FetchRequest::Integrity), integrity);
                        }
                    }
                },
                _ => {},
            }
            assert(begun =~= due);
        } else {
            assert(due =~= Set::<Gate>::empty());
        }
        effects
    }
}

} // verus!
