//! The single entry point for events: each event is routed to its handler.
//! After it, the runtime runs the orchestrator pass (`post_event_tasks`).

use vstd::prelude::*;
use crate::model::{Universe, Board, Creature, Location, TimelineEvent, TimelineEra, UniverseSnapshot, TrashEntry, Novel, Chapter, Scene};
use crate::kanban::KanbanBoardData;
use crate::navigation::NavMessage;
use crate::state::{AppState, DbAction, Effect};
use crate::queue::QueueView;
use crate::state::NavigationResult;
use crate::navigation::navigated;
use crate::interaction::{body_changed, autosave_fired, mouse_released};
use crate::notices::alive;

verus! {

/// An event that re-enters the core: a fetch or command outcome, or a user intent.
pub enum CoreEvent {
    UniversesFetched(Result<Vec<Universe>, String>),
    BoardsFetched(Result<Vec<Board>, String>),
    PmBoardFetched { board_id: String, result: Result<KanbanBoardData, String> },
    CreaturesFetched { universe_id: String, result: Result<Vec<Creature>, String> },
    LocationsFetched { universe_id: String, result: Result<Vec<Location>, String> },
    TimelineFetched { universe_id: String, result: Result<(Vec<TimelineEvent>, Vec<TimelineEra>), String> },
    SnapshotsFetched { universe_id: String, result: Result<Vec<UniverseSnapshot>, String> },
    TrashFetched(Result<Vec<TrashEntry>, String>),
    SchemaVersionFetched(Result<i64, String>),
    IntegrityFetched(Result<Vec<String>, String>),
    NovelsFetched(Result<Vec<Novel>, String>),
    /// Chapters of the active novel, merged into the chapter view.
    ChaptersFetched(Result<Vec<Chapter>, String>),
    ForgeChaptersFetched { novel_id: String, result: Result<Vec<Chapter>, String> },
    ForgeScenesFetched { chapter_id: String, result: Result<Vec<Scene>, String> },
    ActionDone(Result<(), String>),
    Navigation(NavMessage),
    Queue(DbAction),
    SceneBodyChanged(String),
    DebounceComplete(u64),
    MouseReleased,
    /// Time passed: expired notifications go.
    Tick,
    ToastDismiss(u64),
}

impl AppState {
    /// Routes `event` to its handler at time `now`; returns the work it asks
    /// for beyond the orchestrator pass. Every fetch outcome releases the
    /// load slot of its own fetch, whether it succeeded, failed or arrived
    /// for a screen no longer shown.
    pub fn update(&mut self, event: CoreEvent, now: u64) -> (r: Vec<Effect>)
        ensures
            event matches CoreEvent::UniversesFetched(result) ==> crate::responses::universes_response(old(self), final(self), result, now),
            event matches CoreEvent::BoardsFetched(result) ==> crate::responses::boards_response(old(self), final(self), result, now),
            event matches CoreEvent::PmBoardFetched { board_id, result } ==> crate::responses::pm_board_response(
                old(self),
                final(self),
                board_id@,
                result,
                now,
            ),
            event matches CoreEvent::CreaturesFetched { universe_id, result } ==> crate::responses::creatures_response(
                old(self),
                final(self),
                universe_id@,
                result,
                now,
            ),
            event matches CoreEvent::LocationsFetched { universe_id, result } ==> crate::responses::locations_response(
                old(self),
                final(self),
                universe_id@,
                result,
                now,
            ),
            event matches CoreEvent::TimelineFetched { universe_id, result } ==> crate::responses::timeline_response(
                old(self),
                final(self),
                universe_id@,
                result,
                now,
            ),
            event matches CoreEvent::SnapshotsFetched { universe_id, result } ==> crate::responses::snapshots_response(
                old(self),
                final(self),
                universe_id@,
                result,
                now,
            ),
            event matches CoreEvent::TrashFetched(result) ==> crate::responses::trash_response(old(self), final(self), result, now),
            event matches CoreEvent::SchemaVersionFetched(result) ==> crate::responses::schema_response(old(self), final(self), result, now),
            event matches CoreEvent::IntegrityFetched(result) ==> crate::responses::integrity_response(old(self), final(self), result, now),
            event matches CoreEvent::ChaptersFetched(result) ==> crate::responses::active_chapters_response(
                old(self),
                final(self),
                result,
                now,
            ),
            event matches CoreEvent::NovelsFetched(result) ==> crate::responses::novels_response(old(self), final(self), result, now),
            event matches CoreEvent::ForgeChaptersFetched { novel_id, result } ==> crate::responses::forge_chapters_response(
                old(self),
                final(self),
                novel_id@,
                result,
                now,
            ),
            event matches CoreEvent::ForgeScenesFetched { chapter_id, result } ==> crate::responses::forge_scenes_response(
                old(self),
                final(self),
                chapter_id@,
                result,
                now,
            ),
            event matches CoreEvent::ActionDone(result) ==> crate::completion::action_done(old(self), final(self), result, now),
            event matches CoreEvent::Navigation(msg) ==> exists|n: NavigationResult| #[trigger] navigated(old(self), final(self), msg, n),
            event matches CoreEvent::Queue(a) ==> final(self).db.view() == (QueueView {
                pending: old(self).db.view().pending.push(a),
                ..old(self).db.view()
            }) && *final(self) == (AppState { db: final(self).db, ..*old(self) }),
            event matches CoreEvent::SceneBodyChanged(text) ==> body_changed(old(self), final(self), text@, now),
            (event is SceneBodyChanged && old(self).forge.debounce_counter < u64::MAX) ==> r@ == seq![
                Effect::ScheduleAutosave { token: (old(self).forge.debounce_counter + 1) as u64 },
            ],
            event matches CoreEvent::DebounceComplete(token) ==> autosave_fired(old(self), final(self), token, now),
            event is MouseReleased ==> mouse_released(old(self), final(self)),
            event is Tick ==> final(self).notices.toasts@ == alive(old(self).notices.toasts@, now)
                && final(self).notices.counter == old(self).notices.counter
                && *final(self) == (AppState { notices: final(self).notices, ..*old(self) }),
            event matches CoreEvent::ToastDismiss(id) ==> final(self).notices.toasts@ == old(self).notices.toasts@.filter(
                |t: crate::notices::Toast| t.id != id,
            ) && final(self).notices.counter == old(self).notices.counter
                && *final(self) == (AppState { notices: final(self).notices, ..*old(self) }),
            !(event is SceneBodyChanged && old(self).forge.debounce_counter < u64::MAX) ==> r@.len() == 0,
    {
        let mut effects: Vec<Effect> = Vec::new();
        match event {
            CoreEvent::UniversesFetched(result) => self.handle_universes_fetched(result, now),
            CoreEvent::BoardsFetched(result) => self.handle_boards_fetched(result, now),
            CoreEvent::PmBoardFetched { board_id, result } => self.handle_pm_board_fetched(board_id, result, now),
            CoreEvent::CreaturesFetched { universe_id, result } => self.handle_creatures_fetched(
                universe_id,
                result,
                now,
            ),
            CoreEvent::LocationsFetched { universe_id, result } => self.handle_locations_fetched(
                universe_id,
                result,
                now,
            ),
            CoreEvent::TimelineFetched { universe_id, result } => self.handle_timeline_fetched(
                universe_id,
                result,
                now,
            ),
            CoreEvent::SnapshotsFetched { universe_id, result } => self.handle_snapshots_fetched(
                universe_id,
                result,
                now,
            ),
            CoreEvent::TrashFetched(result) => self.handle_trash_fetched(result, now),
            CoreEvent::SchemaVersionFetched(result) => self.handle_schema_version_fetched(result, now),
            CoreEvent::IntegrityFetched(result) => self.handle_integrity_fetched(result, now),
            CoreEvent::Tick => self.notices.prune(now),
            CoreEvent::ToastDismiss(id) => self.notices.dismiss(id),
            CoreEvent::NovelsFetched(result) => self.handle_novels_fetched(result, now),
            CoreEvent::ChaptersFetched(result) => self.handle_chapters_fetched(result, now),
            CoreEvent::ForgeChaptersFetched { novel_id, result } => self.handle_forge_chapters_fetched(
                novel_id,
                result,
                now,
            ),
            CoreEvent::ForgeScenesFetched { chapter_id, result } => self.handle_forge_scenes_fetched(
                chapter_id,
                result,
                now,
            ),
            CoreEvent::ActionDone(result) => self.handle_action_done(result, now),
            CoreEvent::Navigation(msg) => {
                let n = self.try_handle_navigation(msg);
            },
            CoreEvent::Queue(a) => self.queue(a),
            CoreEvent::SceneBodyChanged(text) => {
                match self.scene_body_changed(text, now) {
                    Some(token) => effects.push(Effect::ScheduleAutosave { token }),
                    None => {},
                }
            },
            CoreEvent::DebounceComplete(token) => {
                self.debounce_complete(token, now);
            },
            CoreEvent::MouseReleased => self.handle_mouse_released(),
        }
        effects
    }
}

} // verus!
