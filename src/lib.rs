//! Cache-coherency and load-orchestration core of a worldbuilding / kanban /
//! novel-writing studio.
//!
//! - [`ledger`]: per-(kind, scope) fetch gating with a throttle window.
//! - [`orchestrator`]: which fetches the current route needs, only once no
//!   write is pending.
//! - [`state`], [`dispatch`]: the state aggregate and the handlers of fetch
//!   responses, which release their load slot on every outcome and drop
//!   responses for screens no longer shown.
//! - [`merge`], [`forge`]: local-wins merge of fetched collections, and the
//!   safe-fallback repair of the novel → chapter → scene selection.
//! - [`queue`], [`completion`], [`audit`]: the strictly serialized write
//!   queue and what follows a command's completion.
//! - [`kanban`], [`interaction`], [`intents`], [`deletion`], [`navigation`]:
//!   user intents on the board, the novel tree and the routes.
//! - [`capabilities`], [`notices`], [`sorting`], [`drafts`], [`text`],
//!   [`model`]: supporting pieces.

pub mod text;
pub mod capabilities;
pub mod model;
pub mod ledger;
pub mod merge;
pub mod forge;
pub mod queue;
pub mod kanban;
pub mod notices;
pub mod state;
pub mod orchestrator;
pub mod completion;
pub mod interaction;
pub mod navigation;
pub mod audit;
pub mod dispatch;
pub mod drafts;
pub mod intents;
pub mod sorting;
pub mod deletion;
pub mod universe;
pub mod responses;
pub mod renames;
pub mod trash;
