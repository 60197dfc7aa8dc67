use forge_core::state::{ConfirmAction, DbAction};
use forge_core::universe::UniverseMessage as M;
use forge_core::capabilities::{check_capability, Capabilities};
use forge_core::completion::command_error_text;
use forge_core::model::{Location, Project, ProjectKind, TrashEntry};
use forge_core::navigation::NavMessage;
use forge_core::notices::{Notices, ToastKind, MAX_TOASTS};
use forge_core::state::{AppState, NavigationResult, Route};
use forge_core::text::count_words;

#[test]
fn capability_aliases() {
    let mut c = Capabilities::none_enabled();
    c.forge = true;
    assert!(c.is_enabled("novel"));
    assert!(c.is_enabled("  The_Forge "));
    assert!(c.is_enabled("FORGE"));
    assert!(!c.is_enabled("pm"));
    assert!(!c.is_enabled("worldbuilding"));
    c.locations = true;
    assert!(c.is_enabled("world-building"));
    assert!(!c.is_enabled("unknown"));
    assert!(Capabilities::all_enabled().is_enabled("snapshots"));
}

#[test]
fn capability_from_keys_and_check() {
    let c = Capabilities::from_keys(&vec!["pm".to_string(), "worldbuilding".to_string(), "bogus".to_string()]);
    assert!(c.boards && c.universes && c.bestiary && c.locations);
    assert!(!c.forge && !c.timeline);
    let e = check_capability(&c, "timeline").unwrap_err();
    assert_eq!(e.message(), "Capability 'timeline' is disabled in this project");
    assert!(check_capability(&c, "pm").is_ok());
}

#[test]
fn error_messages_by_kind() {
    assert_eq!(command_error_text("Capability 'trash' is disabled in this project"), "❌ Feature disabled: trash");
    assert_eq!(command_error_text("missing capability"), "⚠️ Permission error: missing capability");
    assert_eq!(command_error_text("disk full"), "Action failed: disk full");
}

#[test]
fn project_kind_from_extension() {
    let p = |path: &str| Project { id: "p".to_string(), name: "P".to_string(), path: path.to_string(), last_opened: 0, created_at: 0 };
    assert_eq!(p("a/b.novel").get_kind(), ProjectKind::Novel);
    assert_eq!(p("x.pmboard").get_kind(), ProjectKind::Board);
    assert_eq!(p("x.tas").get_kind(), ProjectKind::Universe);
    assert_eq!(ProjectKind::default(), ProjectKind::Universe);
}

#[test]
fn trash_entry_date_format() {
    let e = TrashEntry {
        id: "t".to_string(),
        deleted_at: 86_400 + 3_600 + 120,
        target_type: "scene".to_string(),
        target_id: "s".to_string(),
        parent_type: None,
        parent_id: None,
        display_name: "S".to_string(),
        display_info: None,
        payload_json: "{}".to_string(),
    };
    assert_eq!(e.deleted_at_formatted(), "1970-01-02 01:02");
}

#[test]
fn word_counting() {
    assert_eq!(count_words("  one two\tthree\n"), 3);
    assert_eq!(count_words(""), 0);
}

#[test]
fn toasts_bounded_and_expire() {
    let mut n = Notices::new();
    for i in 0..12 {
        n.show_toast(format!("m{}", i), ToastKind::Info, 1000);
    }
    assert_eq!(n.toasts.len(), MAX_TOASTS);
    assert_eq!(n.toasts[0].message, "m2");
    assert_eq!(n.toasts.last().unwrap().id, 12);
    n.show_toast("late".to_string(), ToastKind::Error, 6000);
    assert_eq!(n.toasts.len(), 1);
    assert_eq!(n.toasts[0].message, "late");
}

#[test]
fn navigation_needs_project() {
    let mut s = AppState::new();
    let r = s.try_handle_navigation(NavMessage::Navigate(Route::Trash));
    assert!(matches!(r, NavigationResult::Denied { .. }));
    assert_eq!(s.route, Route::Overview);
    s.active_project = Some(Project { id: "p".to_string(), name: "P".to_string(), path: "p.tas".to_string(), last_opened: 0, created_at: 0 });
    assert_eq!(s.try_handle_navigation(NavMessage::Navigate(Route::Trash)), NavigationResult::Handled);
    assert_eq!(s.route, Route::Trash);
    s.try_handle_navigation(NavMessage::OpenTimeline("u".to_string()));
    assert_eq!(s.route, Route::Timeline { universe_id: "u".to_string() });
}

#[test]
fn go_to_location_expands_ancestors() {

    let loc = |id: &str, parent: Option<&str>| Location {
        id: id.to_string(),
        universe_id: "u".to_string(),
        parent_id: parent.map(|p| p.to_string()),
        name: id.to_string(),
        description: String::new(),
        kind: String::new(),
    };
    let mut s = AppState::new();
    s.locations = vec![loc("city", Some("region")), loc("region", Some("world")), loc("world", None)];
    s.try_handle_navigation(NavMessage::GoToLocation("u".to_string(), "city".to_string()));
    assert_eq!(s.route, Route::Locations { universe_id: "u".to_string() });
    assert_eq!(s.selected_location, Some("city".to_string()));
    assert!(s.expanded_locations.contains("region"));
    assert!(s.expanded_locations.contains("world"));
    assert!(!s.expanded_locations.contains("city"));
}

#[test]
fn draft_names_are_file_safe() {
    use_drafts();
}

fn use_drafts() {
    assert_eq!(forge_core::drafts::sanitize_scene_id("a/b c-d_9"), "a_b_c-d_9");
    assert_eq!(forge_core::drafts::draft_file_name("x:y"), "x_y.draft.txt");
}

#[test]
fn stable_keys_match_fnv1a() {
    let k = forge_core::drafts::stable_key(0, "a");
    assert_eq!(k, (14695981039346656037u64 ^ 0x61).wrapping_mul(1099511628211));
    assert_ne!(forge_core::drafts::stable_key_v(1, "a", 1), forge_core::drafts::stable_key_v(1, "a", 2));
}

#[test]
fn audit_records() {
    use_audit();
}

fn use_audit() {
    let a = forge_core::audit::audit_spec_for(&forge_core::state::DbAction::ArchiveCreature("c1".to_string(), true)).unwrap();
    assert_eq!(a.action, "archive_creature");
    assert_eq!(a.entity_type, "creature");
    assert_eq!(a.entity_id, "c1");
    assert!(forge_core::audit::audit_spec_for(&forge_core::state::DbAction::EmptyTrash).is_none());
}

#[test]
fn toasts_prune_and_dismiss() {
    let mut n = Notices::new();
    n.show_toast("a".to_string(), ToastKind::Info, 0);
    n.show_toast("b".to_string(), ToastKind::Success, 3_000);
    n.dismiss(2);
    assert_eq!(n.toasts.len(), 1);
    n.show_toast("c".to_string(), ToastKind::Error, 3_500);
    n.prune(5_000);
    let msgs: Vec<&str> = n.toasts.iter().map(|t| t.message.as_str()).collect();
    assert_eq!(msgs, vec!["c"]);
}

#[test]
fn universe_create_and_snapshot_intents() {
    use_universe();
}

fn use_universe() {

    let mut s = AppState::new();
    s.handle_universe_message(M::NameChanged("   ".to_string()), "u-1".to_string(), 0);
    s.handle_universe_message(M::Create, "u-1".to_string(), 0);
    assert_eq!(s.db.pending_len(), 0);
    s.handle_universe_message(M::NameChanged("  Eldoria ".to_string()), "u-1".to_string(), 0);
    s.handle_universe_message(M::DescChanged(" old lands".to_string()), "u-1".to_string(), 0);
    s.handle_universe_message(M::Create, "u-1".to_string(), 0);
    assert!(s.db.begin_next());
    assert_eq!(
        s.db.inflight(),
        Some(&forge_core::state::DbAction::CreateUniverse { id: "u-1".to_string(), name: "Eldoria".to_string(), desc: "old lands".to_string() })
    );
    assert_eq!(s.new_universe_name, "");
    s.route = Route::UniverseDetail { universe_id: "u-1".to_string() };
    let fx = s.post_event_tasks(10_000);
    assert!(fx.is_empty() || !fx.contains(&forge_core::state::Effect::Fetch(forge_core::state::FetchRequest::Snapshots { universe_id: "u-1".to_string() })));
    s.db.finish();
    let fx = s.post_event_tasks(10_001);
    assert!(fx.contains(&forge_core::state::Effect::Fetch(forge_core::state::FetchRequest::Snapshots { universe_id: "u-1".to_string() })));
    s.handle_universe_message(M::SnapshotRefresh("u-1".to_string()), String::new(), 10_002);
    let fx = s.post_event_tasks(10_003);
    assert!(fx.contains(&forge_core::state::Effect::Fetch(forge_core::state::FetchRequest::Snapshots { universe_id: "u-1".to_string() })));
}

#[test]
fn confirm_and_cancel_deletions() {
    let mut s = AppState::new();
    s.universes = vec![forge_core::model::Universe { id: "u".to_string(), name: "Eldoria".to_string(), description: String::new(), archived: false }];
    s.pending_confirm = Some(ConfirmAction::DeleteUniverse("u".to_string()));
    assert!(s.confirm_delete("{}".to_string()));
    assert!(s.pending_confirm.is_none());
    assert!(s.db.begin_next());
    assert!(matches!(s.db.inflight(), Some(DbAction::MoveToTrash { target_type, display_name, .. }) if target_type == "universe" && display_name == "Eldoria"));
    s.db.finish();
    s.pending_confirm = Some(ConfirmAction::DeleteEra("nope".to_string()));
    assert!(!s.confirm_delete("{}".to_string()));
    assert_eq!(s.db.pending_len(), 0);
    s.pending_confirm = Some(ConfirmAction::DeleteBoard("b".to_string()));
    s.cancel_confirm();
    assert!(s.pending_confirm.is_none());
}

#[test]
fn trash_selection_bulk_actions() {
    let entry = |id: &str| TrashEntry {
        id: id.to_string(),
        deleted_at: 0,
        target_type: "scene".to_string(),
        target_id: "s".to_string(),
        parent_type: None,
        parent_id: None,
        display_name: "S".to_string(),
        display_info: None,
        payload_json: "{}".to_string(),
    };
    let mut s = AppState::new();
    s.trash_entries = vec![entry("t1"), entry("t2"), entry("t3")];
    s.toggle_trash_selection("t2".to_string());
    s.toggle_trash_selection("t1".to_string());
    s.toggle_trash_selection("t2".to_string());
    assert_eq!(s.trash_selected, vec!["t1".to_string()]);
    s.select_all_trash();
    assert_eq!(s.trash_selected.len(), 3);
    s.restore_selected();
    assert!(s.trash_selected.is_empty());
    assert_eq!(s.db.pending_len(), 3);
    assert!(s.db.begin_next());
    assert_eq!(s.db.inflight(), Some(&DbAction::RestoreFromTrash("t1".to_string())));
    s.toggle_trash_selection("t3".to_string());
    s.delete_selected_forever();
    assert_eq!(s.db.pending_len(), 3);
    s.trash_search_changed("sce".to_string());
    assert_eq!(s.trash_search_query, "sce");
    s.deselect_all_trash();
}

#[test]
fn enabled_flag_keys() {
    let keys = forge_core::capabilities::enabled_keys(&vec![("pm".to_string(), true), ("novel".to_string(), false), ("trash".to_string(), true)]);
    assert_eq!(keys, vec!["pm".to_string(), "trash".to_string()]);
}
