use forge_core::dispatch::CoreEvent;
use forge_core::model::{Chapter, Location, Novel, Project, Scene, TimelineEra, TimelineEvent};
use forge_core::sorting::sort_stable;
use forge_core::state::{AppState, DbAction, Effect, Route};

fn chapter(id: &str, novel: &str) -> Chapter {
    Chapter {
        id: id.to_string(),
        novel_id: novel.to_string(),
        title: id.to_string(),
        position: 0,
        synopsis: String::new(),
        status: String::new(),
        created_at: 0,
        updated_at: 0,
    }
}

fn scene(id: &str, chapter: &str, body: &str, pos: i64) -> Scene {
    Scene {
        id: id.to_string(),
        chapter_id: chapter.to_string(),
        title: "T".to_string(),
        body: body.to_string(),
        position: pos,
        status: "draft".to_string(),
        word_count: 1,
        created_at: 5,
        updated_at: 6,
    }
}

fn novel(id: &str) -> Novel {
    Novel {
        id: id.to_string(),
        universe_id: Some("u".to_string()),
        title: id.to_string(),
        synopsis: String::new(),
        status: String::new(),
        created_at: 0,
        updated_at: 0,
    }
}

fn loc(id: &str, name: &str, parent: Option<&str>) -> Location {
    Location {
        id: id.to_string(),
        universe_id: "u".to_string(),
        parent_id: parent.map(|p| p.to_string()),
        name: name.to_string(),
        description: String::new(),
        kind: String::new(),
    }
}

#[test]
fn timeline_sorted_stably_by_year() {
    let ev = |id: &str, year: i64| TimelineEvent {
        id: id.to_string(),
        universe_id: "u".to_string(),
        title: id.to_string(),
        description: String::new(),
        year,
        display_date: String::new(),
        importance: String::new(),
        kind: String::new(),
        color: String::new(),
        location_id: None,
    };
    let sorted = sort_stable(vec![ev("a", 30), ev("b", -5), ev("c", 30), ev("d", 10)]);
    let ids: Vec<&str> = sorted.iter().map(|e| e.id.as_str()).collect();
    assert_eq!(ids, vec!["b", "d", "a", "c"]);
    let era = |id: &str, y: i64| TimelineEra {
        id: id.to_string(),
        universe_id: "u".to_string(),
        name: id.to_string(),
        start_year: y,
        end_year: None,
        description: String::new(),
        color: String::new(),
    };
    let eras = sort_stable(vec![era("late", 100), era("early", 1)]);
    assert_eq!(eras[0].id, "early");
}

#[test]
fn locations_sorted_ignoring_case_and_cached() {
    let mut s = AppState::new();
    s.route = Route::Locations { universe_id: "u".to_string() };
    s.handle_locations_fetched(
        "u".to_string(),
        Ok(vec![loc("3", "zeta", None), loc("1", "Alpha", None), loc("2", "beta", Some("1"))]),
        10,
    );
    let names: Vec<&str> = s.locations.iter().map(|l| l.name.as_str()).collect();
    assert_eq!(names, vec!["Alpha", "beta", "zeta"]);
    assert_eq!(s.get_location_children(&None), vec!["1".to_string(), "3".to_string()]);
    assert_eq!(s.get_location_children(&Some("1".to_string())), vec!["2".to_string()]);
    assert!(s.get_location_children(&Some("2".to_string())).is_empty());
}

fn forge_app() -> AppState {
    let mut s = AppState::new();
    s.route = Route::Forge;
    s.loaded_forge_universe = Some("u".to_string());
    s
}

#[test]
fn switching_novel_saves_edited_scene_and_clears_below() {
    let mut s = forge_app();
    s.handle_novels_fetched(Ok(vec![novel("n1"), novel("n2")]), 10);
    s.handle_forge_chapters_fetched("n1".to_string(), Ok(vec![chapter("c1", "n1")]), 20);
    s.handle_forge_scenes_fetched("c1".to_string(), Ok(vec![scene("s1", "c1", "hello", 1)]), 30);
    s.select_novel("n2".to_string());
    assert_eq!(s.db.pending_len(), 1);
    assert!(s.db.begin_next());
    assert!(matches!(s.db.inflight(), Some(DbAction::UpdateScene(sc)) if sc.id == "s1"));
    assert_eq!(s.forge.active_novel_id, Some("n2".to_string()));
    assert_eq!(s.forge.active_chapter_id, None);
    assert_eq!(s.forge.active_scene_id, None);
    assert!(s.forge.active_novel_chapters.is_empty());
}

#[test]
fn selecting_scene_opens_its_text() {
    let mut s = forge_app();
    s.handle_novels_fetched(Ok(vec![novel("n1")]), 10);
    s.handle_forge_chapters_fetched("n1".to_string(), Ok(vec![chapter("c1", "n1")]), 20);
    s.handle_forge_scenes_fetched("c1".to_string(), Ok(vec![scene("s1", "c1", "one", 1), scene("s2", "c1", "two", 2)]), 30);
    s.select_scene("s2".to_string());
    assert_eq!(s.forge.active_scene_id, Some("s2".to_string()));
    assert_eq!(s.forge.editor_text, "two");
    s.select_chapter("c1".to_string());
    assert_eq!(s.forge.active_scene_id, Some("s2".to_string()));
}

#[test]
fn creating_chapter_and_scene_applies_locally_and_queues() {
    let mut s = forge_app();
    s.handle_novels_fetched(Ok(vec![novel("n1")]), 10);
    s.create_chapter("n1".to_string(), "c9".to_string(), 100);
    assert_eq!(s.forge.active_chapter_id, Some("c9".to_string()));
    assert_eq!(s.forge.active_novel_chapters.last().unwrap().id, "c9");
    assert_eq!(s.forge.chapters_by_novel_id.get("n1").unwrap().len(), 1);
    assert!(s.create_scene("c9".to_string(), "s9".to_string(), 5_000, 100));
    assert!(!s.create_scene("c9".to_string(), "s10".to_string(), 5_500, 100));
    assert_eq!(s.forge.active_scene_id, Some("s9".to_string()));
    assert_eq!(s.db.pending_len(), 2);
    s.create_chapter(String::new(), "cx".to_string(), 100);
    assert_eq!(s.db.pending_len(), 2);
}

#[test]
fn creating_novel_needs_universe_or_novel_project() {
    let mut s = AppState::new();
    assert!(!s.create_novel("n".to_string(), 5_000, 1));
    assert_eq!(s.notices.toasts.last().unwrap().message, "No universe selected");
    s.active_project = Some(Project { id: "p".to_string(), name: "P".to_string(), path: "book.novel".to_string(), last_opened: 0, created_at: 0 });
    assert!(!s.create_novel("n".to_string(), 5_500, 1));
    assert!(s.create_novel("n".to_string(), 7_000, 1));
    assert_eq!(s.forge.active_novel_id, Some("n".to_string()));
    assert_eq!(s.db.pending_len(), 1);
}

#[test]
fn legacy_chapters_merge_into_active_view() {
    let mut s = forge_app();
    s.handle_novels_fetched(Ok(vec![novel("n1")]), 10);
    s.forge.active_novel_chapters = vec![chapter("b", "n1")];
    s.forge.active_novel_chapters[0].title = "local".to_string();
    let mut fetched_b = chapter("b", "n1");
    fetched_b.title = "server".to_string();
    s.handle_chapters_fetched(Ok(vec![chapter("a", "n1"), fetched_b]), 50);
    let got: Vec<(String, String)> = s.forge.active_novel_chapters.iter().map(|c| (c.id.clone(), c.title.clone())).collect();
    assert_eq!(got, vec![("a".to_string(), "a".to_string()), ("b".to_string(), "local".to_string())]);
    assert_eq!(s.forge.active_chapter_id, Some("a".to_string()));
    assert_eq!(s.forge.chapters_by_novel_id.get("n1").unwrap().len(), 2);
}

#[test]
fn dispatcher_routes_events() {
    let mut s = forge_app();
    assert!(s.update(CoreEvent::NovelsFetched(Ok(vec![novel("n1")])), 10).is_empty());
    s.update(CoreEvent::ForgeChaptersFetched { novel_id: "n1".to_string(), result: Ok(vec![chapter("c1", "n1")]) }, 20);
    s.update(CoreEvent::ForgeScenesFetched { chapter_id: "c1".to_string(), result: Ok(vec![scene("s1", "c1", "", 1)]) }, 30);
    let fx = s.update(CoreEvent::SceneBodyChanged("a b".to_string()), 1_000);
    assert_eq!(fx, vec![Effect::ScheduleAutosave { token: 1 }]);
    s.update(CoreEvent::DebounceComplete(1), 2_000);
    assert_eq!(s.db.pending_len(), 1);
    let run = s.post_event_tasks(2_100);
    assert!(run.contains(&Effect::RunCommand));
    s.update(CoreEvent::ActionDone(Ok(())), 2_200);
    assert!(s.db.is_idle());
}

#[test]
fn trash_round_trip_refetches_restored_scene() {
    let mut s = forge_app();
    s.handle_novels_fetched(Ok(vec![novel("n1")]), 10);
    s.handle_forge_chapters_fetched("C".to_string(), Ok(vec![]), 15);
    s.select_novel("n1".to_string());
    s.handle_forge_chapters_fetched("n1".to_string(), Ok(vec![chapter("C", "n1")]), 20);
    s.handle_forge_scenes_fetched("C".to_string(), Ok(vec![scene("S", "C", "body text", 7)]), 30);
    s.queue(DbAction::MoveToTrash {
        target_type: "scene".to_string(),
        target_id: "S".to_string(),
        display_name: "T".to_string(),
        display_info: None,
        parent_type: Some("chapter".to_string()),
        parent_id: Some("C".to_string()),
        payload_json: "{}".to_string(),
    });
    s.post_event_tasks(40);
    s.handle_action_done(Ok(()), 50);
    assert_eq!(s.forge.active_scene_id, None);
    s.queue(DbAction::RestoreFromTrash("t".to_string()));
    s.post_event_tasks(60);
    s.handle_action_done(Ok(()), 70);
    assert!(s.forge.active_chapter_scenes.is_empty());
    assert!(s.forge.novels.is_empty());
    assert_eq!(s.loaded_forge_universe, None);
    assert!(s.load_forge_data_if_needed(1_000).is_none());
    s.loaded_forge_universe = Some("u".to_string());
    assert!(s.load_forge_data_if_needed(1_000).is_some());
    s.handle_novels_fetched(Ok(vec![novel("n1")]), 1_010);
    assert!(s.load_chapters_if_needed("n1", 2_000).is_some());
    s.handle_forge_chapters_fetched("n1".to_string(), Ok(vec![chapter("C", "n1")]), 2_010);
    assert_eq!(s.forge.active_chapter_id, Some("C".to_string()));
    assert!(s.load_scenes_if_needed("C", 3_000).is_some());
    s.handle_forge_scenes_fetched("C".to_string(), Ok(vec![scene("S", "C", "body text", 7)]), 3_010);
    let restored = s.forge.active_chapter_scenes.iter().find(|x| x.id == "S").unwrap();
    assert_eq!((restored.title.as_str(), restored.body.as_str(), restored.position), ("T", "body text", 7));
    assert_eq!(s.forge.active_scene_id, Some("S".to_string()));
}

#[test]
fn confirming_scene_deletion_queues_trash_and_drops_locally() {
    let mut s = forge_app();
    s.handle_novels_fetched(Ok(vec![novel("n1")]), 10);
    s.handle_forge_chapters_fetched("n1".to_string(), Ok(vec![chapter("c1", "n1")]), 20);
    let mut sc = scene("s1", "c1", "x", 1);
    sc.word_count = 42;
    s.handle_forge_scenes_fetched("c1".to_string(), Ok(vec![sc, scene("s2", "c1", "y", 2)]), 30);
    assert_eq!(s.forge.active_scene_id, Some("s1".to_string()));
    assert!(s.confirm_delete_scene("s1", "{\"id\":\"s1\"}".to_string()));
    assert_eq!(s.forge.active_scene_id, None);
    assert_eq!(s.forge.active_chapter_scenes.len(), 1);
    assert_eq!(s.forge.scenes_by_chapter_id.get("c1").unwrap().len(), 1);
    assert!(s.db.begin_next());
    match s.db.inflight() {
        Some(DbAction::MoveToTrash { target_type, target_id, display_info, parent_type, parent_id, payload_json, .. }) => {
            assert_eq!(target_type, "scene");
            assert_eq!(target_id, "s1");
            assert_eq!(display_info.as_deref(), Some("42 words"));
            assert_eq!(parent_type.as_deref(), Some("chapter"));
            assert_eq!(parent_id.as_deref(), Some("c1"));
            assert_eq!(payload_json, "{\"id\":\"s1\"}");
        }
        other => panic!("unexpected {:?}", other),
    }
    assert!(!s.confirm_delete_scene("nope", String::new()));
}

#[test]
fn confirming_chapter_and_novel_deletion() {
    let mut s = forge_app();
    s.handle_novels_fetched(Ok(vec![novel("n1"), novel("n2")]), 10);
    s.handle_forge_chapters_fetched("n1".to_string(), Ok(vec![chapter("c1", "n1"), chapter("c2", "n1")]), 20);
    s.handle_forge_scenes_fetched("c1".to_string(), Ok(vec![scene("s1", "c1", "", 1), scene("s2", "c1", "", 2)]), 30);
    assert!(s.confirm_delete_chapter("c1", "{}".to_string()));
    assert_eq!(s.forge.active_chapter_id, None);
    assert!(!s.forge.scenes_by_chapter_id.contains_key("c1"));
    assert_eq!(s.forge.active_novel_chapters.len(), 1);
    assert!(s.db.begin_next());
    assert!(matches!(s.db.inflight(), Some(DbAction::MoveToTrash { display_info: Some(i), .. }) if i == "2 scenes"));
    s.db.finish();
    assert!(s.confirm_delete_novel("n1", "{}".to_string()));
    assert_eq!(s.forge.active_novel_id, None);
    assert_eq!(s.forge.novels.len(), 1);
    assert!(s.db.begin_next());
    assert!(matches!(s.db.inflight(), Some(DbAction::MoveToTrash { display_info: Some(i), parent_type: Some(p), .. }) if i == "1 chapters" && p == "universe"));
    s.ensure_forge_safe_fallback();
    assert_eq!(s.forge.active_novel_id, Some("n2".to_string()));
}

#[test]
fn outline_toggles_drags_and_save() {
    let mut s = forge_app();
    s.handle_novels_fetched(Ok(vec![novel("n1"), novel("n2")]), 10);
    assert!(!s.toggle_novel("n1".to_string()));
    assert!(!s.forge.expanded_novels.contains("n1"));
    assert!(!s.toggle_novel("n2".to_string()));
    assert!(s.toggle_novel("n2".to_string()));
    assert_eq!(s.forge.active_novel_id, Some("n2".to_string()));
    assert_eq!(s.toggle_chapter("c1".to_string()), forge_core::renames::ChapterToggle::Expanded);
    assert_eq!(s.forge.active_chapter_id, Some("c1".to_string()));
    assert_eq!(s.toggle_chapter("c1".to_string()), forge_core::renames::ChapterToggle::Collapsed);
    assert_eq!(s.forge.active_chapter_id, None);
    s.chapter_dragged("c1".to_string(), 3);
    s.scene_dragged("s1".to_string(), 4);
    assert!(s.db.begin_next());
    assert_eq!(s.db.inflight(), Some(&DbAction::ReorderChapter("c1".to_string(), 3)));
    s.db.finish();
    assert!(s.db.begin_next());
    assert_eq!(s.db.inflight(), Some(&DbAction::ReorderScene("s1".to_string(), 4)));
    s.db.finish();
    s.save_current_scene();
    assert_eq!(s.db.pending_len(), 0);
}

#[test]
fn rename_flow_updates_lists_and_queues_on_end() {
    let mut s = forge_app();
    s.handle_novels_fetched(Ok(vec![novel("n1")]), 10);
    s.handle_forge_chapters_fetched("n1".to_string(), Ok(vec![chapter("c1", "n1")]), 20);
    s.begin_rename_chapter("c1");
    assert!(s.rename_chapter.is_some());
    assert_eq!(s.toggle_chapter("c1".to_string()), forge_core::renames::ChapterToggle::FinishRename);
    s.chapter_title_changed("Prologue".to_string(), 99);
    assert_eq!(s.forge.active_novel_chapters[0].title, "Prologue");
    assert_eq!(s.forge.chapters_by_novel_id.get("n1").unwrap()[0].title, "Prologue");
    s.end_rename();
    assert!(s.rename_chapter.is_none());
    assert!(s.db.begin_next());
    assert!(matches!(s.db.inflight(), Some(DbAction::UpdateChapter(c)) if c.title == "Prologue" && c.updated_at == 99));
    s.db.finish();
    s.begin_rename_novel("n1");
    s.novel_title_changed("Saga".to_string(), 5);
    assert_eq!(s.forge.novels[0].title, "Saga");
    s.end_rename();
    assert!(s.db.begin_next());
    assert!(matches!(s.db.inflight(), Some(DbAction::UpdateNovel(n)) if n.title == "Saga"));
}

#[test]
fn restore_expires_tree_scopes() {
    let mut s = forge_app();
    s.forge.loads.scenes_loaded_for.insert("C".to_string(), 1);
    s.forge.loads.chapters_loaded_for.insert("N".to_string(), 1);
    s.queue(DbAction::RestoreFromTrash("t".to_string()));
    assert!(s.db.begin_next());
    s.handle_action_done(Ok(()), 5);
    assert!(!s.forge.loads.scenes_loaded_for.contains_key("C"));
    assert!(!s.forge.loads.chapters_loaded_for.contains_key("N"));
}

#[test]
fn save_location_touches_only_its_scope() {
    let mut s = AppState::new();
    s.core.creatures_loaded_for.insert("u".to_string(), 1);
    s.core.locations_loaded_for.insert("u".to_string(), 1);
    s.core.locations_loaded_for.insert("v".to_string(), 1);
    s.loaded_creatures_universe = Some("u".to_string());
    s.queue(DbAction::SaveLocation(forge_core::model::Location {
        id: "l".to_string(),
        universe_id: "u".to_string(),
        parent_id: None,
        name: "Keep".to_string(),
        description: String::new(),
        kind: String::new(),
    }));
    assert!(s.db.begin_next());
    s.handle_action_done(Ok(()), 5);
    assert!(!s.core.locations_loaded_for.contains_key("u"));
    assert!(s.core.locations_loaded_for.contains_key("v"));
    assert!(s.core.creatures_loaded_for.contains_key("u"));
    assert_eq!(s.loaded_creatures_universe, Some("u".to_string()));
    assert!(!s.data_dirty);
    assert_eq!(s.notices.toasts.last().unwrap().message, "Location 'Keep' saved");
}
