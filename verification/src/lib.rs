//! Verified core of a bulk file-synchronization engine for a paginated,
//! quota-limited remote folder store.
//!
//! The library holds the transfer engine's logic: remote-listing
//! accumulation, duplicate filtering, concurrency sizing, the per-item
//! retry/backoff state machine, the atomic download-completion protocol,
//! bounded-pool scheduling, and run metrics. The surrounding binary owns
//! the network client, the filesystem, and the terminal.

pub mod cli;
pub mod data;
pub mod dedup;
pub mod engine;
pub mod download;
pub mod lister;
pub mod metrics;
pub mod scanner;
pub mod sched;
pub mod mime_map;
pub mod retry;
pub mod text;
pub mod tuner;
