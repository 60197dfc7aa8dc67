use forge_core::ledger::{CoreLoadKey, ForgeLoadKey, LoadLedger};
use forge_core::model::{Creature, Universe};
use forge_core::state::{AppState, Effect, FetchRequest, Route, DbAction};

fn creature(id: &str, name: &str) -> Creature {
    Creature {
        id: id.to_string(),
        name: name.to_string(),
        kind: String::new(),
        habitat: String::new(),
        description: String::new(),
        danger: String::new(),
        home_location_id: None,
        archived: false,
    }
}

#[test]
fn gating_exclusivity_second_begin_refused() {
    let mut l: LoadLedger<CoreLoadKey> = LoadLedger::new();
    let k = CoreLoadKey::Creatures { universe_id: "u1".to_string() };
    assert!(l.try_begin_scoped(k.clone(), None, 10_000, 800));
    assert!(!l.try_begin_scoped(k.clone(), None, 20_000, 800));
    assert!(l.is_in_progress(&k));
    l.end(&k);
    assert!(!l.is_in_progress(&k));
    assert!(l.try_begin_scoped(k, None, 30_000, 800));
}

#[test]
fn gating_other_scope_is_independent() {
    let mut l: LoadLedger<CoreLoadKey> = LoadLedger::new();
    assert!(l.try_begin_scoped(CoreLoadKey::Creatures { universe_id: "a".to_string() }, None, 0, 800));
    assert!(l.try_begin_scoped(CoreLoadKey::Creatures { universe_id: "b".to_string() }, None, 0, 800));
    assert!(l.try_begin_scoped(CoreLoadKey::Locations { universe_id: "a".to_string() }, None, 0, 800));
}

#[test]
fn throttle_window_refuses_then_allows() {
    let mut l: LoadLedger<ForgeLoadKey> = LoadLedger::new();
    assert_eq!(l.try_begin_global(ForgeLoadKey::Novels, Some(1000), 1500, 800), None);
    assert_eq!(l.try_begin_global(ForgeLoadKey::Novels, Some(1000), 1800, 800), Some(1800));
    assert!(l.is_in_progress(&ForgeLoadKey::Novels));
}

#[test]
fn end_is_idempotent() {
    let mut l: LoadLedger<CoreLoadKey> = LoadLedger::new();
    l.end(&CoreLoadKey::UniversesList);
    assert!(l.is_idle());
    assert_eq!(l.try_begin_global(CoreLoadKey::UniversesList, None, 5, 800), Some(5));
    l.end(&CoreLoadKey::UniversesList);
    l.end(&CoreLoadKey::UniversesList);
    assert!(l.is_idle());
}

#[test]
fn gating_always_releases_after_cycles() {
    let mut s = AppState::new();
    s.route = Route::Bestiary { universe_id: "u1".to_string() };
    let fx = s.post_event_tasks(10_000);
    assert!(fx.contains(&Effect::Fetch(FetchRequest::Creatures { universe_id: "u1".to_string() })));
    assert!(fx.contains(&Effect::Fetch(FetchRequest::Locations { universe_id: "u1".to_string() })));
    assert!(fx.contains(&Effect::Fetch(FetchRequest::Universes)));
    assert!(!s.core.ledger.is_idle());
    s.handle_creatures_fetched("u1".to_string(), Ok(vec![creature("c1", "Wyrm")]), 10_100);
    s.handle_locations_fetched("u1".to_string(), Err("disk".to_string()), 10_200);
    s.route = Route::Overview;
    s.handle_universes_fetched(Ok(vec![]), 10_300);
    assert!(s.core.ledger.is_idle());
}

#[test]
fn stale_creatures_response_ignored() {
    let mut s = AppState::new();
    s.route = Route::Bestiary { universe_id: "A".to_string() };
    let fx = s.post_event_tasks(10_000);
    assert!(fx.contains(&Effect::Fetch(FetchRequest::Creatures { universe_id: "A".to_string() })));
    s.route = Route::Bestiary { universe_id: "B".to_string() };
    let fx2 = s.post_event_tasks(20_000);
    assert!(fx2.contains(&Effect::Fetch(FetchRequest::Creatures { universe_id: "B".to_string() })));
    s.handle_creatures_fetched("B".to_string(), Ok(vec![creature("b1", "Griffin")]), 20_100);
    s.handle_creatures_fetched("A".to_string(), Ok(vec![creature("a1", "Kraken")]), 20_200);
    assert_eq!(s.loaded_creatures_universe, Some("B".to_string()));
    assert_eq!(s.creatures.len(), 1);
    assert_eq!(s.creatures[0].id, "b1");
    assert!(!s.core.ledger.is_in_progress(&CoreLoadKey::Creatures { universe_id: "A".to_string() }));
    assert!(s.core.ledger.is_idle() || s.core.ledger.is_in_progress(&CoreLoadKey::Locations { universe_id: "B".to_string() }));
    assert_eq!(s.find_creature_by_id("b1").map(|c| c.name.clone()), Some("Griffin".to_string()));
}

#[test]
fn stale_error_shows_no_toast() {
    let mut s = AppState::new();
    s.route = Route::Overview;
    s.handle_creatures_fetched("A".to_string(), Err("boom".to_string()), 5);
    assert!(s.notices.toasts.is_empty());
    s.route = Route::Bestiary { universe_id: "A".to_string() };
    s.handle_creatures_fetched("A".to_string(), Err("boom".to_string()), 6);
    assert_eq!(s.notices.toasts.last().unwrap().message, "Action failed: boom");
}

#[test]
fn reads_wait_for_writes() {
    let mut s = AppState::new();
    s.route = Route::Bestiary { universe_id: "u".to_string() };
    s.queue(DbAction::EmptyTrash);
    let fx = s.post_event_tasks(10_000);
    assert!(fx.contains(&Effect::RunCommand));
    assert!(fx.iter().all(|e| *e == Effect::RunCommand || *e == Effect::Fetch(FetchRequest::Projects)));
    assert!(s.core.ledger.is_idle());
    s.handle_action_done(Ok(()), 10_100);
    let fx2 = s.post_event_tasks(20_000);
    assert!(fx2.contains(&Effect::Fetch(FetchRequest::Creatures { universe_id: "u".to_string() })));
}

#[test]
fn route_change_alone_triggers_refetch() {
    let mut s = AppState::new();
    s.universes = vec![Universe { id: "u".to_string(), name: "U".to_string(), description: String::new(), archived: false }];
    s.route = Route::Locations { universe_id: "u".to_string() };
    let fx = s.post_event_tasks(10_000);
    assert!(fx.contains(&Effect::Fetch(FetchRequest::Locations { universe_id: "u".to_string() })));
    s.handle_locations_fetched("u".to_string(), Ok(vec![]), 10_050);
    let fx2 = s.post_event_tasks(20_000);
    assert!(!fx2.iter().any(|e| matches!(e, Effect::Fetch(FetchRequest::Locations { .. }))));
    s.route = Route::Locations { universe_id: "v".to_string() };
    let fx3 = s.post_event_tasks(20_010);
    assert!(fx3.contains(&Effect::Fetch(FetchRequest::Locations { universe_id: "v".to_string() })));
}

#[test]
fn boards_requested_only_where_shown() {
    let mut s = AppState::new();
    s.route = Route::Timeline { universe_id: "u".to_string() };
    let fx = s.post_event_tasks(10_000);
    assert!(!fx.contains(&Effect::Fetch(FetchRequest::Boards)));
    assert!(fx.contains(&Effect::Fetch(FetchRequest::Timeline { universe_id: "u".to_string() })));
    let mut t = AppState::new();
    t.route = Route::PmList;
    let fx2 = t.post_event_tasks(10_000);
    assert!(fx2.contains(&Effect::Fetch(FetchRequest::Boards)));
}
