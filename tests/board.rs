use forge_core::interaction::{CardEditor, PmDrag};
use forge_core::kanban::{drop_position, rebalance_column, KanbanBoardData, PmIdPool};
use forge_core::model::{Board, BoardColumn, Card};
use forge_core::state::{AppState, DbAction};

fn card(id: &str, col: &str, pos: i64) -> Card {
    Card {
        id: id.to_string(),
        column_id: col.to_string(),
        title: id.to_string(),
        description: String::new(),
        position: pos,
        priority: String::new(),
    }
}

fn column(id: &str) -> BoardColumn {
    BoardColumn { id: id.to_string(), board_id: "b".to_string(), name: id.to_string(), position: 0 }
}

fn board_data() -> KanbanBoardData {
    KanbanBoardData::from_columns_and_cards(
        Board { id: "b".to_string(), name: "B".to_string(), kind: "kanban".to_string() },
        vec![
            (column("todo"), vec![card("k1", "todo", 1000), card("k2", "todo", 2000)]),
            (column("done"), vec![card("k3", "done", 1000), card("k4", "done", 1001)]),
        ],
    )
}

#[test]
fn column_rebalance_scenario() {
    let cards = vec![card("a", "c", 1000), card("b", "c", 1001)];
    let p = drop_position(&cards, Some("b"));
    assert!(p.needs_rebalance);
    let mut col = vec![card("a", "c", 1000), card("n", "c", p.position), card("b", "c", 1001)];
    rebalance_column(&mut col);
    let got: Vec<(String, i64)> = col.iter().map(|c| (c.id.clone(), c.position)).collect();
    assert_eq!(
        got,
        vec![("a".to_string(), 1000), ("n".to_string(), 2000), ("b".to_string(), 3000)]
    );
}

#[test]
fn drop_between_uses_midpoint() {
    let cards = vec![card("a", "c", 1000), card("b", "c", 2000)];
    let p = drop_position(&cards, Some("b"));
    assert_eq!(p.position, 1500);
    assert!(!p.needs_rebalance);
}

#[test]
fn drop_without_neighbor_appends() {
    let cards = vec![card("a", "c", 1000), card("b", "c", 2000)];
    assert_eq!(drop_position(&cards, None).position, 3000);
    assert_eq!(drop_position(&cards, Some("zz")).position, 3000);
    assert_eq!(drop_position(&vec![], None).position, 1000);
}

#[test]
fn board_indices_and_move() {
    let mut d = board_data();
    assert_eq!(d.get_card("k3").unwrap().position, 1000);
    assert!(d.get_card("nope").is_none());
    let ids: Vec<String> = d.get_column_cards("todo").iter().map(|c| c.id.clone()).collect();
    assert_eq!(ids, vec!["k1".to_string(), "k2".to_string()]);
    d.move_card_to_column("k1", "done");
    let todo: Vec<String> = d.get_column_cards("todo").iter().map(|c| c.id.clone()).collect();
    let done: Vec<String> = d.get_column_cards("done").iter().map(|c| c.id.clone()).collect();
    assert_eq!(todo, vec!["k2".to_string()]);
    assert_eq!(done, vec!["k3".to_string(), "k4".to_string(), "k1".to_string()]);
    assert_eq!(d.get_card("k1").unwrap().column_id, "done");
    assert!(d.get_column_cards("missing").is_empty());
}

#[test]
fn id_pool_interns_board_ids() {
    let d = board_data();
    let mut pool = PmIdPool::new();
    pool.rebuild_from_pm(&d);
    assert_eq!(pool.get("k4"), "k4");
    assert_eq!(pool.get("todo"), "todo");
    assert_eq!(pool.get("other"), "other");
}

#[test]
fn release_over_tight_gap_queues_move_and_rebalance() {
    let mut s = AppState::new();
    s.pm_data = Some(board_data());
    s.pm_drag = Some(PmDrag { card_id: "k1".to_string(), original_col: "todo".to_string(), active: true });
    s.hovered_column = Some("done".to_string());
    s.hovered_card = Some("k4".to_string());
    s.handle_mouse_released();
    assert!(s.pm_drag.is_none());
    assert_eq!(s.db.pending_len(), 2);
    assert!(s.db.begin_next());
    assert_eq!(s.db.inflight(), Some(&DbAction::MoveCard("k1".to_string(), "done".to_string(), 1002)));
    s.db.finish();
    assert!(s.db.begin_next());
    assert_eq!(s.db.inflight(), Some(&DbAction::RebalanceColumn("done".to_string())));
}

#[test]
fn release_in_same_column_only_ends_drag() {
    let mut s = AppState::new();
    s.pm_data = Some(board_data());
    s.pm_drag = Some(PmDrag { card_id: "k1".to_string(), original_col: "todo".to_string(), active: true });
    s.hovered_column = Some("todo".to_string());
    s.handle_mouse_released();
    assert!(s.pm_drag.is_none());
    assert_eq!(s.db.pending_len(), 0);
}

#[test]
fn loaded_board_hovers_todo_column() {
    let mut s = AppState::new();
    let mut named = column("c2");
    named.name = "  To Do ".to_string();
    let data = KanbanBoardData::from_columns_and_cards(
        Board { id: "b".to_string(), name: "B".to_string(), kind: "kanban".to_string() },
        vec![(column("c1"), vec![]), (named, vec![card("k", "c2", 1000)])],
    );
    s.board_loaded(data);
    assert_eq!(s.hovered_column, Some("c2".to_string()));
    let data2 = KanbanBoardData::from_columns_and_cards(
        Board { id: "b".to_string(), name: "B".to_string(), kind: "kanban".to_string() },
        vec![(column("x"), vec![]), (column("col-todo"), vec![])],
    );
    s.board_loaded(data2);
    assert_eq!(s.hovered_column, Some("col-todo".to_string()));
}

#[test]
fn drag_starts_inactive_then_activates() {
    let mut s = AppState::new();
    s.board_loaded(board_data());
    s.drag_start("k2");
    assert_eq!(s.pm_drag, Some(PmDrag { card_id: "k2".to_string(), original_col: "todo".to_string(), active: false }));
    s.hovered_column = Some("done".to_string());
    s.handle_mouse_released();
    assert_eq!(s.db.pending_len(), 0);
    s.drag_start("k2");
    s.activate_drag();
    s.hovered_column = Some("done".to_string());
    s.hovered_card = None;
    s.handle_mouse_released();
    assert!(s.db.begin_next());
    assert_eq!(s.db.inflight(), Some(&DbAction::MoveCard("k2".to_string(), "done".to_string(), 2001)));
}

#[test]
fn board_and_card_editor_intents() {
    let mut s = AppState::new();
    s.new_board_name = "  Sprint ".to_string();
    s.create_board("board-1".to_string(), 0);
    assert!(s.db.begin_next());
    assert_eq!(s.db.inflight(), Some(&DbAction::CreateBoard { id: "board-1".to_string(), name: "Sprint".to_string() }));
    s.db.finish();
    s.pm_data = Some(board_data());
    s.card_editor = Some(CardEditor {
        card_id: None,
        column_id: "todo".to_string(),
        title: "New".to_string(),
        description: "d".to_string(),
        priority: "high".to_string(),
    });
    s.save_card_editor("card-9".to_string());
    assert!(s.card_editor.is_none());
    assert!(s.db.begin_next());
    match s.db.inflight() {
        Some(DbAction::SaveCard(c)) => {
            assert_eq!(c.id, "card-9");
            assert_eq!(c.position, 2);
        }
        other => panic!("unexpected {:?}", other),
    }
    s.db.finish();
    s.card_editor = Some(CardEditor {
        card_id: Some("k1".to_string()),
        column_id: "todo".to_string(),
        title: "  ".to_string(),
        description: String::new(),
        priority: String::new(),
    });
    s.save_card_editor("unused".to_string());
    assert_eq!(s.db.pending_len(), 0);
    s.card_editor = Some(CardEditor {
        card_id: Some("k1".to_string()),
        column_id: "todo".to_string(),
        title: "x".to_string(),
        description: String::new(),
        priority: String::new(),
    });
    s.delete_card_editor();
    assert!(s.db.begin_next());
    assert_eq!(s.db.inflight(), Some(&DbAction::DeleteCard("k1".to_string())));
}

#[test]
fn id_pool_interns_every_card_and_its_column() {
    let data = KanbanBoardData::from_columns_and_cards(
        Board { id: "b".to_string(), name: "B".to_string(), kind: "kanban".to_string() },
        vec![(column("todo"), vec![card("k1", "elsewhere", 1000)])],
    );
    let mut pool = PmIdPool::new();
    pool.rebuild_from_pm(&data);
    assert_eq!(pool.get("elsewhere"), "elsewhere");
    assert_eq!(pool.get("k1"), "k1");
}

#[test]
fn moving_a_card_leaves_every_list() {
    let mut d = board_data();
    d.move_card_to_column("k3", "archive");
    d.move_card_to_column("k3", "todo");
    let archive: Vec<String> = d.get_column_cards("archive").iter().map(|c| c.id.clone()).collect();
    let done: Vec<String> = d.get_column_cards("done").iter().map(|c| c.id.clone()).collect();
    let todo: Vec<String> = d.get_column_cards("todo").iter().map(|c| c.id.clone()).collect();
    assert!(archive.is_empty());
    assert_eq!(done, vec!["k4".to_string()]);
    assert_eq!(todo, vec!["k1".to_string(), "k2".to_string(), "k3".to_string()]);
}
