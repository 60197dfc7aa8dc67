//! Intents of the universe screens: creating universes, demo data,
//! snapshots and integrity checks.

use vstd::prelude::*;
use crate::state::{AppState, ConfirmAction, DbAction, DemoResetScope, Route, snapshots_gate};
use crate::ledger::CoreLoadKey;
use crate::notices::ToastKind;
use crate::text::{trim_text, trimmed};
use crate::model::Keyed;
use crate::deletion::{retain_other, without_id};

verus! {

/// A user intent on the universe screens.
#[derive(Debug, Clone, PartialEq, Eq)]
pub enum UniverseMessage {
    NameChanged(String),
    DescChanged(String),
    Create,
    Delete(String),
    Open(String),
    InjectDemoData(String),
    ResetDemoPrompt(String, DemoResetScope),
    ToggleDeveloperPanel,
    ToggleDebugOverlay,
    SnapshotNameChanged(String),
    SnapshotCreate(String),
    SnapshotRefresh(String),
    SnapshotRestore(String),
    SnapshotDelete(String),
    ValidateUniverse(String),
}

impl Keyed for crate::model::UniverseSnapshot {
    open spec fn key(&self) -> Seq<char> {
        self.id@
    }

    fn id_str(&self) -> (r: &str) {
        self.id.as_str()
    }

    fn duplicate(&self) -> (r: Self) {
        crate::model::UniverseSnapshot {
            id: self.id.clone(),
            universe_id: self.universe_id.clone(),
            name: self.name.clone(),
            created_at: self.created_at,
            size_bytes: self.size_bytes,
        }
    }
}

/// The snapshots of universe `uid` are to be fetched again: not marked
/// loaded, no load recorded, no fetch in progress.
pub open spec fn snapshots_expired(s: &AppState, t: &AppState, uid: Seq<char>) -> bool {
    &&& t.loaded_snapshots_universe is None
    &&& t.core.snapshots_loaded_for@ == s.core.snapshots_loaded_for@.remove(uid)
    &&& t.core.ledger.view() == s.core.ledger.view().remove(snapshots_gate(uid))
}

impl AppState {
    fn expire_snapshots(&mut self, uid: &str)
        ensures
            snapshots_expired(old(self), final(self), uid@),
            final(self).db == old(self).db,
            final(self).forge == old(self).forge,
            final(self).route == old(self).route,
            final(self).snapshots == old(self).snapshots,
            final(self).notices == old(self).notices,
            final(self).snapshot_name == old(self).snapshot_name,
    {
        self.loaded_snapshots_universe = None;
        self.core.snapshots_loaded_for.remove(uid);
        self.core.ledger.end(&CoreLoadKey::Snapshots { universe_id: uid.to_string() });
    }

    /// Handles an intent of the universe screens at `now`; `fresh_id` is
    /// the id a created universe gets.
    pub fn handle_universe_message(&mut self, msg: UniverseMessage, fresh_id: String, now: u64)
        ensures
            msg is Create ==> (trimmed(old(self).new_universe_name@).len() > 0 <==> final(self).db.view().pending.len()
                == old(self).db.view().pending.len() + 1),
            (msg is Create && trimmed(old(self).new_universe_name@).len() > 0) ==> (final(self).db.view().pending.last() matches DbAction::CreateUniverse { id, name, desc }
                && id@ == fresh_id@ && name@ == trimmed(old(self).new_universe_name@)
                && desc@ == trimmed(old(self).new_universe_desc@)) && final(self).new_universe_name@.len() == 0,
            msg matches UniverseMessage::Open(id) ==> final(self).route == (Route::UniverseDetail { universe_id: id }),
            msg matches UniverseMessage::Delete(id) ==> final(self).pending_confirm == Some(ConfirmAction::DeleteUniverse(id)),
            msg matches UniverseMessage::SnapshotCreate(uid) ==> (trimmed(old(self).snapshot_name@).len() > 0 ==> snapshots_expired(
                old(self),
                final(self),
                uid@,
            ) && final(self).db.view().pending.len() == old(self).db.view().pending.len() + 1
                && final(self).snapshot_name@.len() == 0),
            msg matches UniverseMessage::SnapshotRefresh(uid) ==> snapshots_expired(old(self), final(self), uid@)
                && final(self).route == (Route::UniverseDetail { universe_id: uid }),
            msg is SnapshotRestore ==> final(self).loaded_creatures_universe is None
                && final(self).loaded_locations_universe is None && final(self).loaded_timeline_universe is None
                && final(self).loaded_snapshots_universe is None
                && final(self).db.view().pending.len() == old(self).db.view().pending.len() + 1,
            msg matches UniverseMessage::SnapshotDelete(sid) ==> final(self).snapshots@ == without_id(old(self).snapshots@, sid@)
                && final(self).loaded_snapshots_universe is None
                && final(self).db.view().pending.len() == old(self).db.view().pending.len() + 1,
            msg is ValidateUniverse ==> final(self).integrity_busy,
            msg is ToggleDebugOverlay ==> final(self).debug_overlay_open == !old(self).debug_overlay_open
                && final(self).debug_schema_version is None,
            final(self).forge == old(self).forge,
            final(self).db.view().inflight == old(self).db.view().inflight,
    {
        match msg {
            UniverseMessage::NameChanged(v) => {
                self.new_universe_name = v;
            },
            UniverseMessage::DescChanged(v) => {
                self.new_universe_desc = v;
            },
            UniverseMessage::Create => {
                let name = trim_text(self.new_universe_name.as_str()).to_string();
                if name.unicode_len() > 0 {
                    let desc = trim_text(self.new_universe_desc.as_str()).to_string();
                    self.db.enqueue(DbAction::CreateUniverse { id: fresh_id, name, desc });
                    self.new_universe_name = String::new();
                    self.new_universe_desc = String::new();
                    self.notices.notify(String::from_str("Creating universe..."), ToastKind::Info, now);
                }
            },
            UniverseMessage::Delete(id) => {
                self.pending_confirm = Some(ConfirmAction::DeleteUniverse(id));
                self.notices.notify(String::from_str("Universe deleted"), ToastKind::Info, now);
            },
            UniverseMessage::Open(id) => {
                self.route = Route::UniverseDetail { universe_id: id };
            },
            UniverseMessage::InjectDemoData(id) => {
                self.db.enqueue(DbAction::InjectDemoData(id));
                self.notices.notify(String::from_str("Injecting demo data..."), ToastKind::Info, now);
            },
            UniverseMessage::ResetDemoPrompt(uid, scope) => {
                self.db.enqueue(DbAction::ResetDemoDataScoped(uid, scope));
                self.notices.notify(String::from_str("Resetting demo data..."), ToastKind::Info, now);
            },
            UniverseMessage::ToggleDeveloperPanel => {
                self.dev_panel_open = !self.dev_panel_open;
            },
            UniverseMessage::ToggleDebugOverlay => {
                self.debug_overlay_open = !self.debug_overlay_open;
                self.debug_schema_version = None;
            },
            UniverseMessage::SnapshotNameChanged(v) => {
                self.snapshot_name = v;
            },
            UniverseMessage::SnapshotCreate(uid) => {
                let name = trim_text(self.snapshot_name.as_str()).to_string();
                if name.unicode_len() > 0 {
                    self.expire_snapshots(uid.as_str());
                    self.db.enqueue(DbAction::SnapshotCreate { universe_id: uid, name });
                    self.snapshot_name = String::new();
                    self.notices.notify(String::from_str("Creating snapshot..."), ToastKind::Info, now);
                }
            },
            UniverseMessage::SnapshotRefresh(uid) => {
                self.expire_snapshots(uid.as_str());
                self.notices.notify(String::from_str("Refreshing snapshots..."), ToastKind::Info, now);
                self.route = Route::UniverseDetail { universe_id: uid };
            },
            UniverseMessage::SnapshotRestore(sid) => {
                self.loaded_creatures_universe = None;
                self.loaded_locations_universe = None;
                self.loaded_timeline_universe = None;
                self.loaded_snapshots_universe = None;
                self.db.enqueue(DbAction::SnapshotRestore { snapshot_id: sid });
                self.notices.notify(String::from_str("Restoring snapshot..."), ToastKind::Info, now);
            },
            UniverseMessage::SnapshotDelete(sid) => {
                self.snapshots = retain_other(&self.snapshots, sid.as_str());
                self.loaded_snapshots_universe = None;
                self.db.enqueue(DbAction::SnapshotDelete { snapshot_id: sid });
                self.notices.notify(String::from_str("Deleting snapshot..."), ToastKind::Info, now);
            },
            UniverseMessage::ValidateUniverse(_) => {
                self.integrity_busy = true;
            },
        }
    }
}

} // verus!
