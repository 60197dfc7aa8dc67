use forge_core::forge::ForgeState;
use forge_core::merge::merge_local_wins;
use forge_core::model::{Chapter, Novel, Scene};
use forge_core::queue::CommandQueue;
use forge_core::state::{AppState, DbAction, Route};

fn chapter(id: &str, novel: &str, title: &str) -> Chapter {
    Chapter {
        id: id.to_string(),
        novel_id: novel.to_string(),
        title: title.to_string(),
        position: 0,
        synopsis: String::new(),
        status: String::new(),
        created_at: 0,
        updated_at: 0,
    }
}

fn scene(id: &str, chapter: &str, title: &str, body: &str, pos: i64) -> Scene {
    Scene {
        id: id.to_string(),
        chapter_id: chapter.to_string(),
        title: title.to_string(),
        body: body.to_string(),
        position: pos,
        status: String::new(),
        word_count: 0,
        created_at: 0,
        updated_at: 0,
    }
}

fn novel(id: &str) -> Novel {
    Novel {
        id: id.to_string(),
        universe_id: None,
        title: id.to_string(),
        synopsis: String::new(),
        status: String::new(),
        created_at: 0,
        updated_at: 0,
    }
}

#[test]
fn local_wins_merge() {
    let fetched = vec![chapter("A", "n", "v1"), chapter("B", "n", "v1")];
    let local = vec![chapter("B", "n", "v2"), chapter("C", "n", "v1")];
    let m = merge_local_wins(&fetched, &local);
    let got: Vec<(String, String)> = m.iter().map(|c| (c.id.clone(), c.title.clone())).collect();
    assert_eq!(
        got,
        vec![
            ("A".to_string(), "v1".to_string()),
            ("B".to_string(), "v2".to_string()),
            ("C".to_string(), "v1".to_string())
        ]
    );
}

#[test]
fn merge_orders_by_id() {
    let fetched = vec![chapter("z", "n", "1"), chapter("a", "n", "1"), chapter("m", "n", "1")];
    let m = merge_local_wins(&fetched, &vec![]);
    let ids: Vec<&str> = m.iter().map(|c| c.id.as_str()).collect();
    assert_eq!(ids, vec!["a", "m", "z"]);
}

fn forge_app() -> AppState {
    let mut s = AppState::new();
    s.route = Route::Forge;
    s.loaded_forge_universe = Some("u".to_string());
    s
}

#[test]
fn novels_then_chapters_then_scenes_select_first() {
    let mut s = forge_app();
    let r = s.load_forge_data_if_needed(10_000);
    assert!(r.is_some());
    s.handle_novels_fetched(Ok(vec![novel("n1"), novel("n2")]), 10_100);
    assert_eq!(s.forge.active_novel_id, Some("n1".to_string()));
    assert!(s.load_chapters_if_needed("n1", 20_000).is_some());
    assert!(s.load_chapters_if_needed("n1", 20_001).is_none());
    s.handle_forge_chapters_fetched("n1".to_string(), Ok(vec![chapter("c2", "n1", "b"), chapter("c1", "n1", "a")]), 20_100);
    assert_eq!(s.forge.active_chapter_id, Some("c1".to_string()));
    assert!(s.load_scenes_if_needed("c1", 30_000).is_some());
    s.handle_forge_scenes_fetched("c1".to_string(), Ok(vec![scene("s1", "c1", "t", "x", 1), scene("s2", "c1", "t", "y", 2)]), 30_100);
    assert_eq!(s.forge.active_scene_id, Some("s1".to_string()));
    assert!(s.forge.loads.ledger.is_idle());
}

#[test]
fn chapters_response_for_other_novel_only_fills_tree() {
    let mut s = forge_app();
    s.handle_novels_fetched(Ok(vec![novel("n1"), novel("n2")]), 10);
    s.handle_forge_chapters_fetched("n2".to_string(), Ok(vec![chapter("x", "n2", "t")]), 20);
    assert_eq!(s.forge.active_novel_id, Some("n1".to_string()));
    assert!(s.forge.active_novel_chapters.is_empty());
    assert!(s.forge.chapters_by_novel_id.contains_key("n2"));
}

fn dangling_state() -> ForgeState {
    let mut f = ForgeState::new();
    f.novels = vec![novel("n1")];
    f.active_novel_id = Some("gone".to_string());
    f.chapters_by_novel_id.insert("n1".to_string(), vec![chapter("c1", "n1", "t")]);
    f.scenes_by_chapter_id.insert("c1".to_string(), vec![scene("s1", "c1", "t", "b", 1)]);
    f.active_scene_id = Some("old".to_string());
    f.editor_text = "draft".to_string();
    f
}

fn snapshot(f: &ForgeState) -> (Option<String>, Vec<String>, Option<String>, Vec<String>, Option<String>, String, Option<u64>) {
    (
        f.active_novel_id.clone(),
        f.active_novel_chapters.iter().map(|c| c.id.clone()).collect(),
        f.active_chapter_id.clone(),
        f.active_chapter_scenes.iter().map(|c| c.id.clone()).collect(),
        f.active_scene_id.clone(),
        f.editor_text.clone(),
        f.debounce_pending,
    )
}

#[test]
fn selection_repair_idempotent() {
    let mut f = dangling_state();
    f.ensure_safe_fallback();
    let once = snapshot(&f);
    f.ensure_safe_fallback();
    assert_eq!(snapshot(&f), once);
    assert_eq!(once.0, Some("n1".to_string()));
    assert_eq!(once.2, Some("c1".to_string()));
    assert_eq!(once.4, Some("s1".to_string()));
    assert_eq!(once.5, "");
}

#[test]
fn repair_with_nothing_left_clears_everything() {
    let mut f = ForgeState::new();
    f.active_novel_id = Some("n".to_string());
    f.active_chapter_id = Some("c".to_string());
    f.active_scene_id = Some("s".to_string());
    f.ensure_safe_fallback();
    assert_eq!(f.active_novel_id, None);
    assert_eq!(f.active_chapter_id, None);
    assert_eq!(f.active_scene_id, None);
}

#[test]
fn deleting_active_scene_leaves_sibling_or_none() {
    let mut s = forge_app();
    s.handle_novels_fetched(Ok(vec![novel("n1")]), 10);
    s.handle_forge_chapters_fetched("n1".to_string(), Ok(vec![chapter("c1", "n1", "t")]), 20);
    s.handle_forge_scenes_fetched("c1".to_string(), Ok(vec![scene("s1", "c1", "a", "", 1), scene("s2", "c1", "b", "", 2)]), 30);
    assert_eq!(s.forge.active_scene_id, Some("s1".to_string()));
    s.queue(DbAction::MoveToTrash {
        target_type: "scene".to_string(),
        target_id: "s1".to_string(),
        display_name: "a".to_string(),
        display_info: None,
        parent_type: Some("chapter".to_string()),
        parent_id: Some("c1".to_string()),
        payload_json: "{}".to_string(),
    });
    assert!(s.db.begin_next());
    s.handle_action_done(Ok(()), 40);
    assert_eq!(s.forge.active_scene_id, None);
    s.forge.active_chapter_scenes.retain(|x| x.id != "s1");
    s.forge.scenes_by_chapter_id.insert("c1".to_string(), vec![scene("s2", "c1", "b", "", 2)]);
    s.ensure_forge_safe_fallback();
    assert_eq!(s.forge.active_scene_id, Some("s2".to_string()));
    s.forge.active_chapter_scenes.clear();
    s.forge.scenes_by_chapter_id.insert("c1".to_string(), vec![]);
    s.forge.active_scene_id = Some("s2".to_string());
    s.ensure_forge_safe_fallback();
    assert_eq!(s.forge.active_scene_id, None);
}

#[test]
fn write_queue_serialized_fifo() {
    let mut q: CommandQueue<u32> = CommandQueue::new();
    for i in 1..=4 {
        q.enqueue(i);
    }
    let mut done = Vec::new();
    assert!(q.begin_next());
    assert!(!q.begin_next());
    assert_eq!(q.inflight(), Some(&1));
    done.push(q.finish().unwrap());
    while q.begin_next() {
        assert!(!q.begin_next());
        done.push(q.finish().unwrap());
    }
    assert_eq!(done, vec![1, 2, 3, 4]);
    assert!(q.is_idle());
}

#[test]
fn debounced_autosave_only_last_commits() {
    let mut s = forge_app();
    s.handle_novels_fetched(Ok(vec![novel("n1")]), 10);
    s.handle_forge_chapters_fetched("n1".to_string(), Ok(vec![chapter("c1", "n1", "t")]), 20);
    s.handle_forge_scenes_fetched("c1".to_string(), Ok(vec![scene("s1", "c1", "a", "", 1)]), 30);
    let t1 = s.scene_body_changed("one".to_string(), 1000).unwrap();
    let t2 = s.scene_body_changed("one two".to_string(), 1100).unwrap();
    let t3 = s.scene_body_changed("one two three".to_string(), 1200).unwrap();
    assert!(t1 < t2 && t2 < t3);
    assert!(!s.debounce_complete(t1, 1800));
    assert!(!s.debounce_complete(t2, 1900));
    assert_eq!(s.db.pending_len(), 0);
    assert!(s.debounce_complete(t3, 2000));
    assert_eq!(s.db.pending_len(), 1);
    assert!(!s.debounce_complete(t3, 2100));
    assert_eq!(s.forge.active_chapter_scenes[0].body, "one two three");
    assert_eq!(s.forge.active_chapter_scenes[0].word_count, 3);
}

#[test]
fn autosave_waits_for_the_delay() {
    let mut s = forge_app();
    s.handle_novels_fetched(Ok(vec![novel("n1")]), 10);
    s.handle_forge_chapters_fetched("n1".to_string(), Ok(vec![chapter("c1", "n1", "t")]), 20);
    s.handle_forge_scenes_fetched("c1".to_string(), Ok(vec![scene("s1", "c1", "a", "", 1)]), 30);
    let t = s.scene_body_changed("x".to_string(), 1000).unwrap();
    assert!(!s.debounce_complete(t, 1500));
    assert!(s.debounce_complete(t, 1800));
}

#[test]
fn trash_scene_invalidates_parent_chapter_scenes() {
    let mut s = forge_app();
    s.forge.loads.scenes_loaded_for.insert("C".to_string(), 5);
    s.queue(DbAction::MoveToTrash {
        target_type: "scene".to_string(),
        target_id: "S".to_string(),
        display_name: "Scene S".to_string(),
        display_info: None,
        parent_type: Some("chapter".to_string()),
        parent_id: Some("C".to_string()),
        payload_json: "{}".to_string(),
    });
    s.trash_loaded = true;
    assert!(s.db.begin_next());
    s.handle_action_done(Ok(()), 100);
    assert!(!s.forge.loads.scenes_loaded_for.contains_key("C"));
    assert!(!s.trash_loaded);
    assert_eq!(s.notices.toasts.last().unwrap().message, "'Scene S' moved to trash");
    s.forge.active_chapter_id = Some("C".to_string());
    assert!(s.load_scenes_if_needed("C", 100).is_some());
    s.queue(DbAction::RestoreFromTrash("t1".to_string()));
    assert!(s.db.begin_next());
    s.handle_action_done(Ok(()), 200);
    assert_eq!(s.notices.toasts.last().unwrap().message, "Item restored from trash");
    assert!(s.core.ledger.is_idle());
}

#[test]
fn failed_command_invalidates_nothing() {
    let mut s = forge_app();
    s.forge.loads.chapters_loaded_for.insert("n".to_string(), 7);
    s.queue(DbAction::CreateChapter("c".to_string(), "n".to_string(), "t".to_string()));
    assert!(s.db.begin_next());
    s.handle_action_done(Err("Capability 'forge' is disabled in this project".to_string()), 10);
    assert!(s.forge.loads.chapters_loaded_for.contains_key("n"));
    assert!(s.db.inflight().is_none());
    assert_eq!(s.notices.toasts.last().unwrap().message, "❌ Feature disabled: forge");
}

#[test]
fn created_chapter_invalidates_its_novel() {
    let mut s = forge_app();
    s.forge.loads.chapters_loaded_for.insert("n".to_string(), 7);
    s.forge.loads.chapters_loaded_for.insert("m".to_string(), 7);
    s.queue(DbAction::CreateChapter("c".to_string(), "n".to_string(), "t".to_string()));
    assert!(s.db.begin_next());
    s.handle_action_done(Ok(()), 10);
    assert!(!s.forge.loads.chapters_loaded_for.contains_key("n"));
    assert!(s.forge.loads.chapters_loaded_for.contains_key("m"));
}
