//! Core logic of a chat bot that drives a local music player daemon:
//! command and callback routing, the search/select/enqueue flow, upload
//! ingestion policy, and the texts of every reply.

use vstd::prelude::*;

pub mod callback;
pub mod commands;
pub mod helper;
pub mod replies;
pub mod search;
pub mod song;
pub mod store;
pub mod text;
pub mod upload;
pub mod urls;

verus! {

/// Dialogue state of a chat session. Only one state exists today; the
/// variable is kept so multi-step dialogues can be added without
/// restructuring the dispatch plumbing.
#[derive(Default, Clone, Copy)]
pub enum BotState {
    #[default]
    Start,
}

} // verus!
