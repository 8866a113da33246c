//! What a proxy server can be told when it is started.

use vstd::prelude::*;

verus! {

/// Default port of the `/proxy` server.
pub const DEFAULT_SERVER_PORT: u16 = 9876;

/// The largest message that the server accepts, in bytes.
pub const MAX_DECODING_MESSAGE_SIZE: usize = 0xffff_ffff;

/// The largest message that the server sends, in bytes.
pub const MAX_ENCODING_MESSAGE_SIZE: usize = 0xffff_ffff;

/// How much memory the history may take. `None` means that there is no limit.
#[derive(Clone, Copy, Debug, PartialEq, Eq, Structural)]
pub struct MemoryLimit {
    pub max_bytes: Option<u64>,
}

impl MemoryLimit {
    /// A limit of `max_bytes` bytes.
    pub fn from_bytes(max_bytes: u64) -> (limit: MemoryLimit)
        ensures
            limit.max_bytes == Some(max_bytes),
    {
        MemoryLimit { max_bytes: Some(max_bytes) }
    }

    /// No limit at all.
    pub fn unlimited() -> (limit: MemoryLimit)
        ensures
            limit.max_bytes is None,
    {
        MemoryLimit { max_bytes: None }
    }

    /// The limit in bytes, `u64::MAX` where there is none.
    pub open spec fn bytes(self) -> u64 {
        match self.max_bytes {
            Some(n) => n,
            None => u64::MAX,
        }
    }

    /// See [`MemoryLimit::bytes`].
    pub fn as_bytes(&self) -> (n: u64)
        ensures
            n == self.bytes(),
    {
        match self.max_bytes {
            Some(n) => n,
            None => u64::MAX,
        }
    }

    /// Whether there is a limit.
    pub fn is_limited(&self) -> (b: bool)
        ensures
            b == (self.max_bytes is Some),
    {
        self.max_bytes.is_some()
    }
}

/// What a client that connects is sent first.
#[derive(Clone, Copy, Debug, PartialEq, Eq, Structural)]
pub enum PlaybackBehavior {
    /// All the old data, and only then what has happened since.
    OldestFirst,
    /// The messages that arrive now, and the history behind them, newest first.
    NewestFirst,
}

impl PlaybackBehavior {
    /// `NewestFirst` if `newest_first`, `OldestFirst` otherwise.
    pub fn from_newest_first(newest_first: bool) -> (playback: PlaybackBehavior)
        ensures
            playback == (if newest_first {
                PlaybackBehavior::NewestFirst
            } else {
                PlaybackBehavior::OldestFirst
            }),
    {
        if newest_first {
            PlaybackBehavior::NewestFirst
        } else {
            PlaybackBehavior::OldestFirst
        }
    }
}

/// Options of a proxy server.
#[derive(Clone, Debug)]
pub struct ServerOptions {
    /// Whether a client that connects is sent the oldest data first, or the newest.
    pub playback_behavior: PlaybackBehavior,
    /// How much history the server keeps. Old data goes once it is exceeded.
    pub memory_limit: MemoryLimit,
    /// Origin patterns that may make cross-origin requests, besides the default ones.
    ///
    /// A pattern is matched against the whole `Origin` header (`https://example.com:8080`);
    /// `*` stands for any characters, `?` for exactly one.
    pub cors_allowed_origins: Vec<String>,
    /// Keep only the scene skeleton in the history: store infos, blueprints, their activations,
    /// and static chunks. Temporal data still reaches the clients that are connected; it is never
    /// replayed to one that connects later. `memory_limit` plays no part under this flag.
    pub drop_temporal_history: bool,
    /// A byte budget for recording data that waits in the live queue. Where the queue holds
    /// more, further recording data is dropped, and counted, in place of being waited for; the
    /// scene skeleton never is. `None` means that nothing is ever dropped.
    pub live_temporal_budget_bytes: Option<u64>,
}

/// What holds of the options that nobody has changed.
pub open spec fn is_default_options(options: ServerOptions) -> bool {
    &&& options.playback_behavior == PlaybackBehavior::OldestFirst
    &&& options.memory_limit.max_bytes == Some(1073741824u64)
    &&& options.cors_allowed_origins@ == Seq::<String>::empty()
    &&& !options.drop_temporal_history
    &&& options.live_temporal_budget_bytes is None
}

impl Default for ServerOptions {
    /// Oldest first, one GiB of history, the default origins, all data kept and sent.
    fn default() -> (options: ServerOptions)
        ensures
            is_default_options(options),
    {
        ServerOptions {
            playback_behavior: PlaybackBehavior::OldestFirst,
            memory_limit: MemoryLimit::from_bytes(1073741824),
            cors_allowed_origins: Vec::new(),
            drop_temporal_history: false,
            live_temporal_budget_bytes: None,
        }
    }
}

/// Nobody has to ask for port 9876, one GiB of history, the default origins, the oldest data first, and all
/// data kept and sent.
pub proof fn defaults_keep_and_send_everything(options: ServerOptions)
    requires
        is_default_options(options),
    ensures
        options.playback_behavior == PlaybackBehavior::OldestFirst,
        options.memory_limit.max_bytes == Some(0x4000_0000u64),
        options.cors_allowed_origins@.len() == 0,
        !options.drop_temporal_history,
        options.live_temporal_budget_bytes is None,
        DEFAULT_SERVER_PORT == 9876,
{
}

/// A limit is the number of bytes that it was made with, and no limit is more than any.
pub proof fn limits_are_what_they_say(limit: MemoryLimit)
    ensures
        limit.max_bytes matches Some(n) ==> limit.bytes() == n,
        limit.max_bytes is None ==> limit.bytes() == u64::MAX,
{
}

} // verus!
