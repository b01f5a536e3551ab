//! Core logic of a LAN ebook-library sharing host: PIN/token pairing,
//! manifest and file delivery with format fallback, a reading-progress
//! ledger with last-write-wins merge, a bounded transfer queue, and a
//! peer-discovery reconciler.
//!
//! Everything here is decision logic over plain values. Network,
//! filesystem and catalog access stay with the embedding program,
//! which hands their outcomes in as arguments.

use vstd::prelude::*;

pub mod discovery;
pub mod error;
pub mod formats;
pub mod models;
pub mod progress;
pub mod server;
pub mod sync;
pub mod text;

use crate::discovery::DiscoveryState;
use crate::server::ServerState;
use crate::sync::SyncManager;

verus! {

/// Everything one running process owns: the content server's state,
/// the set of visible peers, and the transfer engine's queue. Each
/// field is independent; an embedding program may place each behind its
/// own lock.
pub struct AppState {
    pub server: ServerState,
    pub discovery: DiscoveryState,
    pub sync_manager: SyncManager,
}

impl AppState {
    /// A fresh process: no pairings, no known peers, nothing queued.
    pub fn new(pin: String) -> (r: AppState)
        ensures
            r.server.pin == pin,
            r.server.library_path is None,
            r.server.books@.len() == 0,
            r.server.authorized_tokens@.len() == 0,
            r.discovery@.len() == 0,
            r.sync_manager@.len() == 0,
    {
        AppState {
            server: ServerState::new(pin),
            discovery: DiscoveryState::new(),
            sync_manager: SyncManager::new(),
        }
    }
}

} // verus!
