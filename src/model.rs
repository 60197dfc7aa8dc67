//! The entity store's records. Timestamps are seconds since the Unix epoch.

use vstd::prelude::*;
use crate::text::{ends_with, utc_minute_text, format_utc_minute};

verus! {

/// A record with a string identity that can be copied exactly.
pub trait Keyed: Sized {
    /// The record's id.
    spec fn key(&self) -> Seq<char>;

    /// The record's id, as text.
    fn id_str(&self) -> (r: &str)
        ensures
            r@ == self.key(),
    ;

    /// A copy equal to the record.
    fn duplicate(&self) -> (r: Self)
        ensures
            r == *self,
    ;
}

/// An exact copy of an optional text.
pub fn copy_opt_string(o: &Option<String>) -> (r: Option<String>)
    ensures
        r == *o,
{
    match o {
        Some(s) => Some(s.clone()),
        None => None,
    }
}

/// What a project file holds, told by its extension.
#[derive(Debug, Clone, Copy, PartialEq, Eq)]
pub enum ProjectKind {
    Universe,
    Novel,
    Board,
}

impl Default for ProjectKind {
    fn default() -> (r: Self)
        ensures
            r == ProjectKind::Universe,
    {
        ProjectKind::Universe
    }
}

/// A project known to the launcher.
#[derive(Debug, Clone, PartialEq)]
pub struct Project {
    pub id: String,
    pub name: String,
    pub path: String,
    pub last_opened: i64,
    pub created_at: i64,
}

/// The kind of a project at `path`: `.novel` files hold a novel, `.pmboard`
/// files a board, anything else a universe.
pub open spec fn kind_of_path(path: Seq<char>) -> ProjectKind {
    if path.len() >= ".novel"@.len() && path.subrange(
        path.len() - ".novel"@.len(),
        path.len() as int,
    ) == ".novel"@ {
        ProjectKind::Novel
    } else if path.len() >= ".pmboard"@.len() && path.subrange(
        path.len() - ".pmboard"@.len(),
        path.len() as int,
    ) == ".pmboard"@ {
        ProjectKind::Board
    } else {
        ProjectKind::Universe
    }
}

impl Project {
    /// The project's kind, from its file extension.
    pub fn get_kind(&self) -> (r: ProjectKind)
        ensures
            r == kind_of_path(self.path@),
    {
        if ends_with(self.path.as_str(), ".novel") {
            ProjectKind::Novel
        } else if ends_with(self.path.as_str(), ".pmboard") {
            ProjectKind::Board
        } else {
            ProjectKind::Universe
        }
    }
}

#[derive(Debug, Clone, PartialEq)]
pub struct Universe {
    pub id: String,
    pub name: String,
    pub description: String,
    pub archived: bool,
}

#[derive(Debug, Clone, PartialEq)]
pub struct Creature {
    pub id: String,
    pub name: String,
    pub kind: String,
    pub habitat: String,
    pub description: String,
    pub danger: String,
    pub home_location_id: Option<String>,
    pub archived: bool,
}

impl Keyed for Creature {
    open spec fn key(&self) -> Seq<char> {
        self.id@
    }

    fn id_str(&self) -> (r: &str) {
        self.id.as_str()
    }

    fn duplicate(&self) -> (r: Self) {
        Creature {
            id: self.id.clone(),
            name: self.name.clone(),
            kind: self.kind.clone(),
            habitat: self.habitat.clone(),
            description: self.description.clone(),
            danger: self.danger.clone(),
            home_location_id: copy_opt_string(&self.home_location_id),
            archived: self.archived,
        }
    }
}

#[derive(Debug, Clone, PartialEq)]
pub struct Location {
    pub id: String,
    pub universe_id: String,
    pub parent_id: Option<String>,
    pub name: String,
    pub description: String,
    pub kind: String,
}

#[derive(Debug, Clone, PartialEq)]
pub struct TimelineEra {
    pub id: String,
    pub universe_id: String,
    pub name: String,
    pub start_year: i64,
    pub end_year: Option<i64>,
    pub description: String,
    pub color: String,
}

#[derive(Debug, Clone, PartialEq)]
pub struct TimelineEvent {
    pub id: String,
    pub universe_id: String,
    pub title: String,
    pub description: String,
    pub year: i64,
    pub display_date: String,
    pub importance: String,
    pub kind: String,
    pub color: String,
    pub location_id: Option<String>,
}

#[derive(Debug, Clone, PartialEq)]
pub struct Board {
    pub id: String,
    pub name: String,
    pub kind: String,
}

#[derive(Debug, Clone, PartialEq)]
pub struct BoardColumn {
    pub id: String,
    pub board_id: String,
    pub name: String,
    pub position: i32,
}

#[derive(Debug, Clone, PartialEq)]
pub struct Card {
    pub id: String,
    pub column_id: String,
    pub title: String,
    pub description: String,
    pub position: i64,
    pub priority: String,
}

impl Keyed for Card {
    open spec fn key(&self) -> Seq<char> {
        self.id@
    }

    fn id_str(&self) -> (r: &str) {
        self.id.as_str()
    }

    fn duplicate(&self) -> (r: Self) {
        Card {
            id: self.id.clone(),
            column_id: self.column_id.clone(),
            title: self.title.clone(),
            description: self.description.clone(),
            position: self.position,
            priority: self.priority.clone(),
        }
    }
}

#[derive(Debug, Clone, PartialEq)]
pub struct Scene {
    pub id: String,
    pub chapter_id: String,
    pub title: String,
    pub body: String,
    pub position: i64,
    pub status: String,
    pub word_count: i64,
    pub created_at: i64,
    pub updated_at: i64,
}

impl Keyed for Scene {
    open spec fn key(&self) -> Seq<char> {
        self.id@
    }

    fn id_str(&self) -> (r: &str) {
        self.id.as_str()
    }

    fn duplicate(&self) -> (r: Self) {
        Scene {
            id: self.id.clone(),
            chapter_id: self.chapter_id.clone(),
            title: self.title.clone(),
            body: self.body.clone(),
            position: self.position,
            status: self.status.clone(),
            word_count: self.word_count,
            created_at: self.created_at,
            updated_at: self.updated_at,
        }
    }
}

#[derive(Debug, Clone, PartialEq)]
pub struct Novel {
    pub id: String,
    pub universe_id: Option<String>,
    pub title: String,
    pub synopsis: String,
    pub status: String,
    pub created_at: i64,
    pub updated_at: i64,
}

impl Keyed for Novel {
    open spec fn key(&self) -> Seq<char> {
        self.id@
    }

    fn id_str(&self) -> (r: &str) {
        self.id.as_str()
    }

    fn duplicate(&self) -> (r: Self) {
        Novel {
            id: self.id.clone(),
            universe_id: copy_opt_string(&self.universe_id),
            title: self.title.clone(),
            synopsis: self.synopsis.clone(),
            status: self.status.clone(),
            created_at: self.created_at,
            updated_at: self.updated_at,
        }
    }
}

#[derive(Debug, Clone, PartialEq)]
pub struct Chapter {
    pub id: String,
    pub novel_id: String,
    pub title: String,
    pub position: i64,
    pub synopsis: String,
    pub status: String,
    pub created_at: i64,
    pub updated_at: i64,
}

impl Keyed for Chapter {
    open spec fn key(&self) -> Seq<char> {
        self.id@
    }

    fn id_str(&self) -> (r: &str) {
        self.id.as_str()
    }

    fn duplicate(&self) -> (r: Self) {
        Chapter {
            id: self.id.clone(),
            novel_id: self.novel_id.clone(),
            title: self.title.clone(),
            position: self.position,
            synopsis: self.synopsis.clone(),
            status: self.status.clone(),
            created_at: self.created_at,
            updated_at: self.updated_at,
        }
    }
}

#[derive(Debug, Clone, PartialEq)]
pub struct UniverseSnapshot {
    pub id: String,
    pub universe_id: String,
    pub name: String,
    pub created_at: i64,
    pub size_bytes: i64,
}

/// Everything a universe snapshot restores.
#[derive(Debug, Clone, PartialEq)]
pub struct UniverseSnapshotPayload {
    pub universe: Universe,
    pub creatures: Vec<Creature>,
    pub locations: Vec<Location>,
    pub timeline_eras: Vec<TimelineEra>,
    pub timeline_events: Vec<TimelineEvent>,
    pub pm_cards: Vec<Card>,
}

impl Keyed for Universe {
    open spec fn key(&self) -> Seq<char> {
        self.id@
    }

    fn id_str(&self) -> (r: &str) {
        self.id.as_str()
    }

    fn duplicate(&self) -> (r: Self) {
        Universe {
            id: self.id.clone(),
            name: self.name.clone(),
            description: self.description.clone(),
            archived: self.archived,
        }
    }
}

impl Keyed for Board {
    open spec fn key(&self) -> Seq<char> {
        self.id@
    }

    fn id_str(&self) -> (r: &str) {
        self.id.as_str()
    }

    fn duplicate(&self) -> (r: Self) {
        Board { id: self.id.clone(), name: self.name.clone(), kind: self.kind.clone() }
    }
}

impl Keyed for TimelineEra {
    open spec fn key(&self) -> Seq<char> {
        self.id@
    }

    fn id_str(&self) -> (r: &str) {
        self.id.as_str()
    }

    fn duplicate(&self) -> (r: Self) {
        TimelineEra {
            id: self.id.clone(),
            universe_id: self.universe_id.clone(),
            name: self.name.clone(),
            start_year: self.start_year,
            end_year: self.end_year,
            description: self.description.clone(),
            color: self.color.clone(),
        }
    }
}

impl Keyed for TimelineEvent {
    open spec fn key(&self) -> Seq<char> {
        self.id@
    }

    fn id_str(&self) -> (r: &str) {
        self.id.as_str()
    }

    fn duplicate(&self) -> (r: Self) {
        TimelineEvent {
            id: self.id.clone(),
            universe_id: self.universe_id.clone(),
            title: self.title.clone(),
            description: self.description.clone(),
            year: self.year,
            display_date: self.display_date.clone(),
            importance: self.importance.clone(),
            kind: self.kind.clone(),
            color: self.color.clone(),
            location_id: copy_opt_string(&self.location_id),
        }
    }
}

/// A soft-deleted record, with what is needed to restore it.
#[derive(Debug, Clone, PartialEq)]
pub struct TrashEntry {
    pub id: String,
    pub deleted_at: i64,
    pub target_type: String,
    pub target_id: String,
    pub parent_type: Option<String>,
    pub parent_id: Option<String>,
    pub display_name: String,
    pub display_info: Option<String>,
    pub payload_json: String,
}

impl TrashEntry {
    /// The deletion time as `YYYY-MM-DD HH:MM` (UTC); empty where the
    /// timestamp lies outside the calendar's range.
    pub fn deleted_at_formatted(&self) -> (r: String)
        ensures
            r@ == utc_minute_text(self.deleted_at) || r@ == Seq::<char>::empty(),
            0 <= self.deleted_at <= 253402300799 ==> r@ == utc_minute_text(self.deleted_at),
    {
        match format_utc_minute(self.deleted_at) {
            Some(s) => s,
            None => String::new(),
        }
    }
}

/// One record of the audit log.
#[derive(Debug, Clone, PartialEq)]
pub struct AuditLogEntry {
    pub id: String,
    pub ts: i64,
    pub action: String,
    pub entity_type: String,
    pub entity_id: String,
    pub details_json: String,
}

} // verus!
