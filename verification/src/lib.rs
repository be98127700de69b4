//! Verified core of an internet-radio broadcast engine.
//!
//! The crate models the broadcast state of a small streaming station:
//! a playlist cursor, a bounded ring of recently played track metadata,
//! a single-slot album-art holder with a weak checksum for cache
//! validation, a one-producer many-consumer fan-out bus with bounded
//! per-subscriber queues, live statistics, and the per-track decisions
//! of the broadcast loop. Process spawning, HTTP serving and file
//! system walking live outside the library and hand it plain values.

pub mod art;
pub mod audio;
pub mod bus;
pub mod cmd;
pub mod config;
pub mod files;
pub mod notify;
pub mod player;
pub mod render;
pub(crate) mod random;
pub mod ring;
pub mod stats;
pub mod text;
