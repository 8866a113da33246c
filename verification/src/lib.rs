//! The decisions of a message proxy: what it keeps, replays, forwards and drops.

pub mod address;
pub mod channels;
pub mod client_laws;
pub mod cors;
pub mod event_loop;
pub mod history;
pub mod laws;
pub mod limit_laws;
pub mod live;
pub mod live_laws;
pub mod messages;
pub mod options;
pub mod queue;
pub mod record_laws;
pub mod relay;
pub mod relay_laws;
pub mod service;
pub mod size;
pub mod static_key;
pub mod status;

pub use options::{MemoryLimit, PlaybackBehavior, ServerOptions};
