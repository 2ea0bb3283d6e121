//! Bookkeeping, protocol decisions and wire helpers of an entity and asset
//! synchronisation plugin for a server and its clients.
pub mod text;
pub mod texture_format;
pub mod image;
pub mod mesh;
pub mod ids;
pub mod proto;
pub mod maps;
pub mod tracker;
pub mod reaction;
pub mod assets;
pub mod server;
pub mod initial_sync;
pub mod client;
pub mod laws;

pub use proto::{ClientState, PromoteToHostEvent, ServerState, SyncConnectionParameters, SyncEntity, SyncExclude, SyncMark};
