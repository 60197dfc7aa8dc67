//! What each fetch response does to the application state, stated once so
//! that the handlers and the event dispatcher share one contract. Every
//! predicate ends with a frame: the fields it does not name stay as they
//! were.

use vstd::prelude::*;
use crate::model::{Creature, Location, TimelineEvent, TimelineEra, UniverseSnapshot, Universe, Board, TrashEntry, Novel, Chapter, Scene};
use crate::kanban::KanbanBoardData;
use crate::ledger::{CoreLoadKey, GateKey};
use crate::forge::{opt_view, novels_gate, chapters_gate, scenes_gate};
use crate::notices::{ToastKind, notified};
use crate::state::{
    AppState, CoreLoads, index_of, failure_message, is_bestiary_of, shows_locations_of, is_timeline_of,
    is_detail_of, is_board_of, creatures_gate, locations_gate, timeline_gate, snapshots_gate, pm_board_gate,
    settled,
};

verus! {

/// The notifications after a response: an error notification with text
/// `msg` where `shown`, none otherwise.
pub open spec fn error_toast(s: &AppState, t: &AppState, shown: bool, msg: Seq<char>, now: u64) -> bool {
    if shown {
        notified(&s.notices, &t.notices, msg, ToastKind::Error, now)
    } else {
        t.notices == s.notices
    }
}

/// A creatures response for universe `uid`.
pub open spec fn creatures_response(s: &AppState, t: &AppState, uid: Seq<char>, result: Result<Vec<Creature>, String>, now: u64) -> bool {
    let here = is_bestiary_of(s.route, uid);
    &&& t.core.ledger.view() == s.core.ledger.view().remove(creatures_gate(uid))
    &&& (result is Ok && here) ==> t.creatures@ == result->Ok_0@ && t.creatures_index@ == index_of(result->Ok_0@)
        && opt_view(t.loaded_creatures_universe) == Some(uid)
        && t.core.creatures_loaded_for@ == s.core.creatures_loaded_for@.insert(uid, now)
    &&& !(result is Ok && here) ==> t.creatures == s.creatures && t.creatures_index == s.creatures_index
        && t.loaded_creatures_universe == s.loaded_creatures_universe
        && t.core.creatures_loaded_for == s.core.creatures_loaded_for
    &&& error_toast(s, t, result is Err && here, failure_message(result->Err_0@), now)
    &&& t.core == (CoreLoads { ledger: t.core.ledger, creatures_loaded_for: t.core.creatures_loaded_for, ..s.core })
    &&& *t == (AppState {
        core: t.core,
        creatures: t.creatures,
        creatures_index: t.creatures_index,
        loaded_creatures_universe: t.loaded_creatures_universe,
        notices: t.notices,
        ..*s
    })
}

/// A locations response for universe `uid`.
pub open spec fn locations_response(s: &AppState, t: &AppState, uid: Seq<char>, result: Result<Vec<Location>, String>, now: u64) -> bool {
    let here = shows_locations_of(s.route, uid);
    &&& t.core.ledger.view() == s.core.ledger.view().remove(locations_gate(uid))
    &&& (result is Ok && here) ==> t.locations@.to_multiset() == result->Ok_0@.to_multiset()
        && crate::sorting::sorted(t.locations@)
        && crate::navigation::caches_children(t.location_roots@, t.locations_children_map@, t.locations@)
        && opt_view(t.loaded_locations_universe) == Some(uid)
        && t.core.locations_loaded_for@ == s.core.locations_loaded_for@.insert(uid, now)
    &&& !(result is Ok && here) ==> t.locations == s.locations && t.location_roots == s.location_roots
        && t.locations_children_map == s.locations_children_map
        && t.loaded_locations_universe == s.loaded_locations_universe
        && t.core.locations_loaded_for == s.core.locations_loaded_for
    &&& error_toast(s, t, result is Err && here, failure_message(result->Err_0@), now)
    &&& t.core == (CoreLoads { ledger: t.core.ledger, locations_loaded_for: t.core.locations_loaded_for, ..s.core })
    &&& *t == (AppState {
        core: t.core,
        locations: t.locations,
        location_roots: t.location_roots,
        locations_children_map: t.locations_children_map,
        loaded_locations_universe: t.loaded_locations_universe,
        notices: t.notices,
        ..*s
    })
}

/// A timeline response (events and eras) for universe `uid`.
pub open spec fn timeline_response(
    s: &AppState,
    t: &AppState,
    uid: Seq<char>,
    result: Result<(Vec<TimelineEvent>, Vec<TimelineEra>), String>,
    now: u64,
) -> bool {
    let here = is_timeline_of(s.route, uid);
    &&& t.core.ledger.view() == s.core.ledger.view().remove(timeline_gate(uid))
    &&& (result is Ok && here) ==> t.timeline_events@.to_multiset() == result->Ok_0.0@.to_multiset()
        && crate::sorting::sorted(t.timeline_events@)
        && t.timeline_eras@.to_multiset() == result->Ok_0.1@.to_multiset()
        && crate::sorting::sorted(t.timeline_eras@)
        && opt_view(t.loaded_timeline_universe) == Some(uid)
        && t.core.timeline_loaded_for@ == s.core.timeline_loaded_for@.insert(uid, now)
    &&& !(result is Ok && here) ==> t.timeline_events == s.timeline_events && t.timeline_eras == s.timeline_eras
        && t.loaded_timeline_universe == s.loaded_timeline_universe
        && t.core.timeline_loaded_for == s.core.timeline_loaded_for
    &&& error_toast(s, t, result is Err && here, failure_message(result->Err_0@), now)
    &&& t.core == (CoreLoads { ledger: t.core.ledger, timeline_loaded_for: t.core.timeline_loaded_for, ..s.core })
    &&& *t == (AppState {
        core: t.core,
        timeline_events: t.timeline_events,
        timeline_eras: t.timeline_eras,
        loaded_timeline_universe: t.loaded_timeline_universe,
        notices: t.notices,
        ..*s
    })
}

/// A snapshots response for universe `uid`.
pub open spec fn snapshots_response(s: &AppState, t: &AppState, uid: Seq<char>, result: Result<Vec<UniverseSnapshot>, String>, now: u64) -> bool {
    let here = is_detail_of(s.route, uid);
    &&& t.core.ledger.view() == s.core.ledger.view().remove(snapshots_gate(uid))
    &&& (result is Ok && here) ==> t.snapshots@ == result->Ok_0@ && opt_view(t.loaded_snapshots_universe) == Some(uid)
        && t.core.snapshots_loaded_for@ == s.core.snapshots_loaded_for@.insert(uid, now)
    &&& !(result is Ok && here) ==> t.snapshots == s.snapshots
        && t.loaded_snapshots_universe == s.loaded_snapshots_universe
        && t.core.snapshots_loaded_for == s.core.snapshots_loaded_for
    &&& error_toast(s, t, result is Err && here, failure_message(result->Err_0@), now)
    &&& t.core == (CoreLoads { ledger: t.core.ledger, snapshots_loaded_for: t.core.snapshots_loaded_for, ..s.core })
    &&& *t == (AppState {
        core: t.core,
        snapshots: t.snapshots,
        loaded_snapshots_universe: t.loaded_snapshots_universe,
        notices: t.notices,
        ..*s
    })
}

/// A board response for board `bid`.
pub open spec fn pm_board_response(s: &AppState, t: &AppState, bid: Seq<char>, result: Result<KanbanBoardData, String>, now: u64) -> bool {
    let here = is_board_of(s.route, bid);
    &&& t.core.ledger.view() == s.core.ledger.view().remove(pm_board_gate(bid))
    &&& (result is Ok && here) ==> t.pm_data == Some(result->Ok_0)
        && t.core.pm_board_loaded_for@ == s.core.pm_board_loaded_for@.insert(bid, now)
    &&& !(result is Ok && here) ==> t.pm_data == s.pm_data && t.core.pm_board_loaded_for == s.core.pm_board_loaded_for
    &&& error_toast(s, t, result is Err && here, failure_message(result->Err_0@), now)
    &&& t.core == (CoreLoads { ledger: t.core.ledger, pm_board_loaded_for: t.core.pm_board_loaded_for, ..s.core })
    &&& *t == (AppState { core: t.core, pm_data: t.pm_data, notices: t.notices, ..*s })
}

/// The universes list response.
pub open spec fn universes_response(s: &AppState, t: &AppState, result: Result<Vec<Universe>, String>, now: u64) -> bool {
    &&& t.core.ledger.view() == s.core.ledger.view().remove(CoreLoadKey::UniversesList.gate())
    &&& result is Ok ==> t.universes@ == result->Ok_0@
    &&& result is Err ==> t.universes == s.universes
    &&& error_toast(s, t, result is Err, failure_message(result->Err_0@), now)
    &&& t.core == (CoreLoads { ledger: t.core.ledger, ..s.core })
    &&& *t == (AppState { core: t.core, universes: t.universes, notices: t.notices, ..*s })
}

/// The boards list response.
pub open spec fn boards_response(s: &AppState, t: &AppState, result: Result<Vec<Board>, String>, now: u64) -> bool {
    &&& t.core.ledger.view() == s.core.ledger.view().remove(CoreLoadKey::BoardsList.gate())
    &&& result is Ok ==> t.boards_list@ == result->Ok_0@
    &&& result is Err ==> t.boards_list == s.boards_list
    &&& error_toast(s, t, result is Err, failure_message(result->Err_0@), now)
    &&& t.core == (CoreLoads { ledger: t.core.ledger, ..s.core })
    &&& *t == (AppState { core: t.core, boards_list: t.boards_list, notices: t.notices, ..*s })
}

/// The trash list response.
pub open spec fn trash_response(s: &AppState, t: &AppState, result: Result<Vec<TrashEntry>, String>, now: u64) -> bool {
    &&& result is Ok ==> t.trash_entries@ == result->Ok_0@ && t.trash_loaded
    &&& result is Err ==> t.trash_entries == s.trash_entries && t.trash_loaded == s.trash_loaded
    &&& error_toast(s, t, result is Err, "Failed to load trash: "@ + result->Err_0@, now)
    &&& *t == (AppState { trash_entries: t.trash_entries, trash_loaded: t.trash_loaded, notices: t.notices, ..*s })
}

/// The schema version response.
pub open spec fn schema_response(s: &AppState, t: &AppState, result: Result<i64, String>, now: u64) -> bool {
    &&& result is Ok ==> t.debug_schema_version == Some(result->Ok_0)
    &&& result is Err ==> t.debug_schema_version == s.debug_schema_version
    &&& error_toast(s, t, result is Err, failure_message(result->Err_0@), now)
    &&& *t == (AppState { debug_schema_version: t.debug_schema_version, notices: t.notices, ..*s })
}

/// The integrity check response.
pub open spec fn integrity_response(s: &AppState, t: &AppState, result: Result<Vec<String>, String>, now: u64) -> bool {
    &&& result is Ok ==> t.integrity_issues@ == result->Ok_0@ && !t.integrity_busy
    &&& result is Err ==> t.integrity_issues == s.integrity_issues && t.integrity_busy == s.integrity_busy
    &&& error_toast(s, t, result is Err, failure_message(result->Err_0@), now)
    &&& *t == (AppState { integrity_issues: t.integrity_issues, integrity_busy: t.integrity_busy, notices: t.notices, ..*s })
}

/// Only the novel tree and the notifications change, and of the tree's
/// load records only the ledger and the loaded-for map of one level may.
pub open spec fn forge_frame(s: &AppState, t: &AppState, chapters_map: bool, scenes_map: bool) -> bool {
    &&& *t == (AppState { forge: t.forge, notices: t.notices, ..*s })
    &&& t.forge.debounce_counter == s.forge.debounce_counter
    &&& t.forge.loads.last_novels_reload == s.forge.loads.last_novels_reload
    &&& t.forge.loads.last_chapters_reload == s.forge.loads.last_chapters_reload
    &&& t.forge.loads.last_scenes_reload == s.forge.loads.last_scenes_reload
    &&& !chapters_map ==> t.forge.loads.chapters_loaded_for@ == s.forge.loads.chapters_loaded_for@
    &&& !scenes_map ==> t.forge.loads.scenes_loaded_for@ == s.forge.loads.scenes_loaded_for@
}

/// A novels response.
pub open spec fn novels_response(s: &AppState, t: &AppState, result: Result<Vec<Novel>, String>, now: u64) -> bool {
    &&& t.forge.loads.ledger.view() == s.forge.loads.ledger.view().remove(novels_gate())
    &&& result is Ok ==> t.forge.sel() == settled(
        s.route is Forge,
        crate::forge::novels_applied(s.forge.sel(), result->Ok_0@),
    )
    &&& result is Err ==> t.forge.sel() == s.forge.sel()
    &&& error_toast(s, t, result is Err, "Failed to load novels: "@ + result->Err_0@, now)
    &&& forge_frame(s, t, false, false)
}

/// A chapters response for novel `nid`.
pub open spec fn forge_chapters_response(s: &AppState, t: &AppState, nid: Seq<char>, result: Result<Vec<Chapter>, String>, now: u64) -> bool {
    &&& t.forge.loads.ledger.view() == s.forge.loads.ledger.view().remove(chapters_gate(nid))
    &&& t.forge.loads.chapters_loaded_for@ == if result is Ok {
        s.forge.loads.chapters_loaded_for@.insert(nid, now)
    } else {
        s.forge.loads.chapters_loaded_for@
    }
    &&& result is Ok ==> t.forge.sel().chapter_tree.contains_key(nid) && crate::merge::lists(
        t.forge.sel().chapter_tree[nid],
        crate::merge::merged(result->Ok_0@, crate::forge::cached_under(s.forge.sel().chapter_tree, nid)),
    ) && t.forge.sel() == settled(
        s.route is Forge,
        crate::forge::chapters_applied(s.forge.sel(), nid, t.forge.sel().chapter_tree[nid]),
    )
    &&& result is Err ==> t.forge.sel() == s.forge.sel()
    &&& error_toast(
        s,
        t,
        result is Err && opt_view(s.forge.active_novel_id) == Some(nid),
        "Failed to load chapters: "@ + result->Err_0@,
        now,
    )
    &&& forge_frame(s, t, true, false)
}

/// A scenes response for chapter `cid`.
pub open spec fn forge_scenes_response(s: &AppState, t: &AppState, cid: Seq<char>, result: Result<Vec<Scene>, String>, now: u64) -> bool {
    &&& t.forge.loads.ledger.view() == s.forge.loads.ledger.view().remove(scenes_gate(cid))
    &&& t.forge.loads.scenes_loaded_for@ == if result is Ok {
        s.forge.loads.scenes_loaded_for@.insert(cid, now)
    } else {
        s.forge.loads.scenes_loaded_for@
    }
    &&& result is Ok ==> t.forge.sel().scene_tree.contains_key(cid) && crate::merge::lists(
        t.forge.sel().scene_tree[cid],
        crate::merge::merged(result->Ok_0@, crate::forge::cached_under(s.forge.sel().scene_tree, cid)),
    ) && t.forge.sel() == settled(
        s.route is Forge,
        crate::forge::scenes_applied(s.forge.sel(), cid, t.forge.sel().scene_tree[cid]),
    )
    &&& result is Err ==> t.forge.sel() == s.forge.sel()
    &&& error_toast(
        s,
        t,
        result is Err && opt_view(s.forge.active_chapter_id) == Some(cid),
        "Failed to load scenes: "@ + result->Err_0@,
        now,
    )
    &&& forge_frame(s, t, false, true)
}

/// A chapters response merged into the active chapter view.
pub open spec fn active_chapters_response(s: &AppState, t: &AppState, result: Result<Vec<Chapter>, String>, now: u64) -> bool {
    &&& t.forge.loads.ledger.view() == match s.forge.active_novel_id {
        Some(nid) => s.forge.loads.ledger.view().remove(chapters_gate(nid@)),
        None => s.forge.loads.ledger.view(),
    }
    &&& t.forge.loads.chapters_loaded_for@ == match s.forge.active_novel_id {
        Some(nid) => if result is Ok {
            s.forge.loads.chapters_loaded_for@.insert(nid@, now)
        } else {
            s.forge.loads.chapters_loaded_for@
        },
        None => s.forge.loads.chapters_loaded_for@,
    }
    &&& result is Ok ==> exists|m: Seq<Chapter>| #![trigger crate::forge::active_chapters_applied(s.forge.sel(), m)]
        crate::merge::lists(m, crate::merge::merged(result->Ok_0@, s.forge.sel().novel_chapters))
        && t.forge.sel() == settled(s.route is Forge, crate::forge::active_chapters_applied(s.forge.sel(), m))
    &&& result is Err ==> t.forge.sel() == s.forge.sel()
    &&& error_toast(s, t, result is Err, "Failed to load chapters: "@ + result->Err_0@, now)
    &&& forge_frame(s, t, true, false)
}

/// Every scenes response releases its own load slot: after a chain of
/// scenes responses, in any order and with any outcome, the slots of their
/// chapters are no longer in progress; where those were all the slots in
/// progress at the start, none is left.
pub proof fn lemma_scene_responses_release(
    states: Seq<AppState>,
    cids: Seq<Seq<char>>,
    results: Seq<Result<Vec<Scene>, String>>,
    times: Seq<u64>,
)
    requires
        states.len() == cids.len() + 1,
        results.len() == cids.len(),
        times.len() == cids.len(),
        forall|i: int| 0 <= i < cids.len() ==> #[trigger] forge_scenes_response(
            &states[i],
            &states[i + 1],
            cids[i],
            results[i],
            times[i],
        ),
    ensures
        states.last().forge.loads.ledger.view() == states[0].forge.loads.ledger.view() - cids.map_values(
            |c: Seq<char>| scenes_gate(c),
        ).to_set(),
        states[0].forge.loads.ledger.view().subset_of(cids.map_values(|c: Seq<char>| scenes_gate(c)).to_set())
            ==> states.last().forge.loads.ledger.view() == Set::<crate::ledger::Gate>::empty(),
    decreases cids.len(),
{
    let gates = cids.map_values(|c: Seq<char>| scenes_gate(c));
    lemma_chain(states, cids, results, times, cids.len() as int);
    crate::ledger::lemma_after_ends(states[0].forge.loads.ledger.view(), gates);
    assert(gates.take(cids.len() as int) =~= gates);
    assert(states.last() == states[cids.len() as int]);
    if states[0].forge.loads.ledger.view().subset_of(gates.to_set()) {
        assert(states.last().forge.loads.ledger.view() =~= Set::<crate::ledger::Gate>::empty());
    }
}

proof fn lemma_chain(
    states: Seq<AppState>,
    cids: Seq<Seq<char>>,
    results: Seq<Result<Vec<Scene>, String>>,
    times: Seq<u64>,
    n: int,
)
    requires
        0 <= n <= cids.len(),
        states.len() == cids.len() + 1,
        results.len() == cids.len(),
        times.len() == cids.len(),
        forall|i: int| 0 <= i < cids.len() ==> #[trigger] forge_scenes_response(
            &states[i],
            &states[i + 1],
            cids[i],
            results[i],
            times[i],
        ),
    ensures
        states[n].forge.loads.ledger.view() == crate::ledger::after_ends(
            states[0].forge.loads.ledger.view(),
            cids.map_values(|c: Seq<char>| scenes_gate(c)).take(n),
        ),
    decreases n,
{
    let gates = cids.map_values(|c: Seq<char>| scenes_gate(c));
    if n == 0 {
        assert(gates.take(0) =~= Seq::<crate::ledger::Gate>::empty());
    } else {
        lemma_chain(states, cids, results, times, n - 1);
        let k = n - 1;
        assert(forge_scenes_response(&states[k], &states[k + 1], cids[k], results[k], times[k]));
        assert(k + 1 == n);
        assert(gates.take(n).drop_last() =~= gates.take(n - 1));
        assert(gates.take(n).last() == scenes_gate(cids[n - 1]));
    }
}

} // verus!
