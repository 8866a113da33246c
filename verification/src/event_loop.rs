//! What the server does with each event, one after the other.

use vstd::prelude::*;

use crate::history::{History, MessageBuffer, is_kept};
use crate::laws::freeing_memory_spares_what_matters;
use crate::live::{DropTotals, LiveDecision, LiveOccupancy, decide_live, live_decision};
use crate::messages::{LogOrTableMsgProto, SizedMsg};
use crate::options::ServerOptions;
use crate::queue::total_bytes;
use crate::size::is_measured;
use crate::static_key::{key_may_be, key_of};

verus! {

/// Whether anything is remembered. The scene skeleton is, whatever the limit, where only that is.
pub open spec fn history_enabled(options: ServerOptions) -> bool {
    options.memory_limit.max_bytes != Some(0u64) || options.drop_temporal_history
}

/// The history once memory has been freed to stay within the limit. Nothing is freed where only the
/// scene skeleton is remembered: each client needs all of it.
pub open spec fn within_limit(options: ServerOptions, history: History) -> History {
    if !options.drop_temporal_history && options.memory_limit.max_bytes is Some {
        history.collected(options.memory_limit.bytes() as nat)
    } else {
        history
    }
}

/// The history once a message that was sent has been remembered. Memory is freed first, so that the
/// latest message is always there.
pub open spec fn recorded(options: ServerOptions, history: History, m: SizedMsg) -> History {
    if history_enabled(options) {
        within_limit(options, history).added(options.drop_temporal_history, m)
    } else {
        history
    }
}

/// The state of the server between two events.
pub struct EventLoop {
    pub options: ServerOptions,
    /// All messages received so far, minus those that were replaced or given up.
    pub history: MessageBuffer,
    /// The bytes that have been dropped from the live stream so far.
    pub live_dropped_bytes: u64,
    /// What has been dropped since a viewer fell behind, if one is behind.
    pub drop_regime: Option<DropTotals>,
}

impl EventLoop {
    /// The history is well-formed and of the kind that the options ask for.
    pub open spec fn wf(&self) -> bool {
        &&& self.history.wf()
        &&& self.history.drop_temporal == self.options.drop_temporal_history
    }

    /// Whether `m` can be remembered: if it is kept, the memory can still be counted.
    pub open spec fn can_record(&self, m: SizedMsg) -> bool {
        history_enabled(self.options) && is_kept(self.options.drop_temporal_history, m.msg)
            ==> within_limit(self.options, self.history@).bytes() + m.size_bytes <= u64::MAX
    }

    /// Whether `m` can be remembered even if no memory can be freed for it.
    pub fn can_record_msg(&self, m: &SizedMsg) -> (b: bool)
        requires
            self.wf(),
        ensures
            b == (!history_enabled(self.options) || self.history.can_add(*m)),
            b ==> self.can_record(*m),
    {
        proof {
            freeing_memory_spares_what_matters(
                self.history@,
                self.options.memory_limit.bytes() as nat,
            );
        }
        !self.is_history_enabled() || self.history.can_take(m)
    }

    /// A server that has received nothing yet.
    pub fn new(options: ServerOptions) -> (event_loop: EventLoop)
        ensures
            event_loop.wf(),
            event_loop.options == options,
            event_loop.history@ == History::empty(),
            event_loop.live_dropped_bytes == 0,
            event_loop.drop_regime is None,
    {
        let history = MessageBuffer::new(options.drop_temporal_history);
        EventLoop { options, history, live_dropped_bytes: 0, drop_regime: None }
    }

    /// Takes down what has to be known of a message that has arrived: its size, and its key where
    /// keys count.
    pub fn arrived(&self, msg: LogOrTableMsgProto) -> (sized: SizedMsg)
        ensures
            is_measured(msg, sized),
            if self.options.drop_temporal_history {
                key_may_be(msg, key_of(sized))
            } else {
                sized.static_key is None
            },
    {
        if self.options.drop_temporal_history {
            SizedMsg::new(msg)
        } else {
            SizedMsg::without_key(msg)
        }
    }

    /// What a client that connects is sent before anything that arrives later.
    pub fn new_client(&self) -> (msgs: Vec<&LogOrTableMsgProto>)
        ensures
            msgs@.len() == self.history@.replay(self.options.playback_behavior).len(),
            forall|i: int|
                0 <= i < msgs@.len() ==> *(#[trigger] msgs@[i]) == self.history@.replay(
                    self.options.playback_behavior,
                )[i].msg,
    {
        self.history.all(self.options.playback_behavior)
    }

    /// Decides whether a message that has arrived is sent to all clients, where `occupancy` is what
    /// waits in the live queue. One that is dropped is counted, and is not to be remembered; one
    /// that is sent goes to [`EventLoop::record_msg`] next.
    pub fn handle_msg(&mut self, msg: &SizedMsg, occupancy: LiveOccupancy) -> (decision:
        LiveDecision)
        ensures
            (decision, final(self).drop_regime) == live_decision(
                old(self).options.live_temporal_budget_bytes,
                *msg,
                occupancy,
                old(self).drop_regime,
            ),
            final(self).live_dropped_bytes == (if decision.drop {
                old(self).live_dropped_bytes.saturating_add(msg.size_bytes)
            } else {
                old(self).live_dropped_bytes
            }),
            final(self).options == old(self).options,
            final(self).history == old(self).history,
    {
        let (decision, drop_regime) = decide_live(
            self.options.live_temporal_budget_bytes,
            msg,
            occupancy,
            self.drop_regime,
        );
        self.drop_regime = drop_regime;
        if decision.drop {
            self.live_dropped_bytes = self.live_dropped_bytes.saturating_add(msg.size_bytes);
        }
        decision
    }

    /// Remembers a message that was sent, for the clients that have yet to connect.
    pub fn record_msg(&mut self, msg: SizedMsg)
        requires
            old(self).wf(),
            old(self).can_record(msg),
        ensures
            final(self).wf(),
            final(self).history@ == recorded(old(self).options, old(self).history@, msg),
            final(self).options == old(self).options,
            final(self).live_dropped_bytes == old(self).live_dropped_bytes,
            final(self).drop_regime == old(self).drop_regime,
    {
        if !self.is_history_enabled() {
            return ;
        }
        self.gc_if_using_too_much_ram();
        self.history.add_msg(msg);
    }

    /// Whether anything is remembered.
    pub fn is_history_enabled(&self) -> (b: bool)
        ensures
            b == history_enabled(self.options),
    {
        self.options.memory_limit.max_bytes != Some(0u64) || self.options.drop_temporal_history
    }

    /// Frees memory where there is a limit and the history is over it.
    pub fn gc_if_using_too_much_ram(&mut self)
        requires
            old(self).wf(),
        ensures
            final(self).wf(),
            final(self).history@ == within_limit(old(self).options, old(self).history@),
            final(self).options == old(self).options,
            final(self).live_dropped_bytes == old(self).live_dropped_bytes,
            final(self).drop_regime == old(self).drop_regime,
    {
        if !self.options.drop_temporal_history && self.options.memory_limit.is_limited() {
            self.history.gc(self.options.memory_limit.as_bytes());
        }
    }

    /// What the server holds and has dropped, in bytes, under the names by which it is reported.
    /// `broadcast_bytes` is what waits in the live queue.
    pub fn capture_mem_usage_tree(&self, broadcast_bytes: u64) -> (usage: Vec<(&'static str, u64)>)
        requires
            self.wf(),
        ensures
            usage@ == seq![
                ("disposable", total_bytes(self.history@.disposable) as u64),
                ("static", total_bytes(self.history@.static_) as u64),
                ("persistent", total_bytes(self.history@.persistent) as u64),
                ("broadcast", broadcast_bytes),
                ("live_dropped", self.live_dropped_bytes),
            ],
    {
        let mut usage: Vec<(&'static str, u64)> = Vec::new();
        usage.push(("disposable", self.history.disposable.size_bytes()));
        usage.push(("static", self.history.static_.size_bytes()));
        usage.push(("persistent", self.history.persistent.size_bytes()));
        usage.push(("broadcast", broadcast_bytes));
        usage.push(("live_dropped", self.live_dropped_bytes));
        usage
    }
}

} // verus!
