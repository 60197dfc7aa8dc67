//! The audit record written, best effort, after a successful command.

use vstd::prelude::*;
use crate::state::DbAction;

verus! {

/// What the audit log records of a command.
#[derive(Debug, Clone, PartialEq, Eq)]
pub struct AuditSpec {
    pub action: String,
    pub entity_type: String,
    pub entity_id: String,
}

/// The (action, entity type, entity id) recorded for a command; trash
/// commands keep their own records and get none here.
pub open spec fn audit_of(a: DbAction) -> Option<(Seq<char>, Seq<char>, Seq<char>)> {
    match a {
        DbAction::CreateUniverse { id, .. } => Some(("create_universe"@, "universe"@, id@)),
        DbAction::InjectDemoData(id) => Some(("inject_demo_data"@, "universe"@, id@)),
        DbAction::ResetDemoDataScoped(id, _) => Some(("reset_demo_data_scoped"@, "universe"@, id@)),
        DbAction::SnapshotCreate { universe_id, .. } => Some(("snapshot_create"@, "universe"@, universe_id@)),
        DbAction::SnapshotDelete { snapshot_id } => Some(("snapshot_delete"@, "snapshot"@, snapshot_id@)),
        DbAction::SnapshotRestore { snapshot_id } => Some(("snapshot_restore"@, "snapshot"@, snapshot_id@)),
        DbAction::CreateBoard { id, .. } => Some(("create_board"@, "board"@, id@)),
        DbAction::SaveCreature(c, _) => Some(("save_creature"@, "creature"@, c.id@)),
        DbAction::ArchiveCreature(id, archived) => Some(
            (if archived { "archive_creature"@ } else { "restore_creature"@ }, "creature"@, id@),
        ),
        DbAction::SaveLocation(l) => Some(("save_location"@, "location"@, l.id@)),
        DbAction::SaveEvent(e) => Some(("save_timeline_event"@, "timeline_event"@, e.id@)),
        DbAction::SaveEra(e) => Some(("save_timeline_era"@, "timeline_era"@, e.id@)),
        DbAction::SaveCard(c) => Some(("save_card"@, "card"@, c.id@)),
        DbAction::MoveCard(id, _, _) => Some(("move_card"@, "card"@, id@)),
        DbAction::RebalanceColumn(col) => Some(("rebalance_column"@, "board_column"@, col@)),
        DbAction::DeleteCard(id) => Some(("delete_card"@, "card"@, id@)),
        DbAction::CreateNovel(id, _, _) => Some(("create_novel"@, "novel"@, id@)),
        DbAction::UpdateNovel(n) => Some(("update_novel"@, "novel"@, n.id@)),
        DbAction::CreateChapter(id, _, _) => Some(("create_chapter"@, "chapter"@, id@)),
        DbAction::UpdateChapter(c) => Some(("update_chapter"@, "chapter"@, c.id@)),
        DbAction::ReorderChapter(id, _) => Some(("reorder_chapter"@, "chapter"@, id@)),
        DbAction::CreateScene(id, _, _) => Some(("create_scene"@, "scene"@, id@)),
        DbAction::UpdateScene(s) => Some(("update_scene"@, "scene"@, s.id@)),
        DbAction::ReorderScene(id, _) => Some(("reorder_scene"@, "scene"@, id@)),
        _ => None,
    }
}

fn spec3(action: &str, entity_type: &str, id: &String) -> (r: Option<AuditSpec>)
    ensures
        r matches Some(s) && s.action@ == action@ && s.entity_type@ == entity_type@ && s.entity_id@ == id@,
{
    Some(
        AuditSpec {
            action: String::from_str(action),
            entity_type: String::from_str(entity_type),
            entity_id: id.clone(),
        },
    )
}

/// The audit record of command `a`, where it gets one.
pub fn audit_spec_for(a: &DbAction) -> (r: Option<AuditSpec>)
    ensures
        r is None <==> audit_of(*a) is None,
        r matches Some(s) ==> audit_of(*a) == Some((s.action@, s.entity_type@, s.entity_id@)),
{
    match a {
        DbAction::CreateUniverse { id, .. } => spec3("create_universe", "universe", id),
        DbAction::InjectDemoData(id) => spec3("inject_demo_data", "universe", id),
        DbAction::ResetDemoDataScoped(id, _) => spec3("reset_demo_data_scoped", "universe", id),
        DbAction::SnapshotCreate { universe_id, .. } => spec3("snapshot_create", "universe", universe_id),
        DbAction::SnapshotDelete { snapshot_id } => spec3("snapshot_delete", "snapshot", snapshot_id),
        DbAction::SnapshotRestore { snapshot_id } => spec3("snapshot_restore", "snapshot", snapshot_id),
        DbAction::CreateBoard { id, .. } => spec3("create_board", "board", id),
        DbAction::SaveCreature(c, _) => spec3("save_creature", "creature", &c.id),
        DbAction::ArchiveCreature(id, archived) => {
            if *archived {
                spec3("archive_creature", "creature", id)
            } else {
                spec3("restore_creature", "creature", id)
            }
        },
        DbAction::SaveLocation(l) => spec3("save_location", "location", &l.id),
        DbAction::SaveEvent(e) => spec3("save_timeline_event", "timeline_event", &e.id),
        DbAction::SaveEra(e) => spec3("save_timeline_era", "timeline_era", &e.id),
        DbAction::SaveCard(c) => spec3("save_card", "card", &c.id),
        DbAction::MoveCard(id, _, _) => spec3("move_card", "card", id),
        DbAction::RebalanceColumn(col) => spec3("rebalance_column", "board_column", col),
        DbAction::DeleteCard(id) => spec3("delete_card", "card", id),
        DbAction::CreateNovel(id, _, _) => spec3("create_novel", "novel", id),
        DbAction::UpdateNovel(n) => spec3("update_novel", "novel", &n.id),
        DbAction::CreateChapter(id, _, _) => spec3("create_chapter", "chapter", id),
        DbAction::UpdateChapter(c) => spec3("update_chapter", "chapter", &c.id),
        DbAction::ReorderChapter(id, _) => spec3("reorder_chapter", "chapter", id),
        DbAction::CreateScene(id, _, _) => spec3("create_scene", "scene", id),
        DbAction::UpdateScene(s) => spec3("update_scene", "scene", &s.id),
        DbAction::ReorderScene(id, _) => spec3("reorder_scene", "scene", id),
        _ => None,
    }
}

} // verus!
