//! What holds of what a client is sent, whenever it connects.

use vstd::prelude::*;

use crate::event_loop::recorded;
use crate::history::{History, retention};
use crate::laws::{history_after, late_client_misses_nothing};
use crate::live::{DropTotals, live_decision};
use crate::live_laws::{
    Arrival, dropped_bytes, everything_is_sent_without_a_budget, received, regime_after, sent,
};
use crate::messages::SizedMsg;
use crate::options::{PlaybackBehavior, ServerOptions};

verus! {

/// Something that reaches the event loop.
pub enum LoopEvent {
    /// A client connects.
    NewClient,
    /// A message arrives.
    Message(Arrival),
    /// Somebody asks for the memory in use.
    CaptureMemory,
}

/// What the event loop keeps between two events.
pub struct LoopState {
    pub history: History,
    pub drop_regime: Option<DropTotals>,
    pub live_dropped_bytes: u64,
}

/// What the event loop keeps after `event`: a message that is not dropped is remembered, one that is
/// dropped is counted, and nothing else changes anything.
pub open spec fn after_event(options: ServerOptions, state: LoopState, event: LoopEvent) -> LoopState {
    match event {
        LoopEvent::Message(a) => {
            let (decision, drop_regime) = live_decision(
                options.live_temporal_budget_bytes,
                a.msg,
                a.occupancy,
                state.drop_regime,
            );
            if decision.drop {
                LoopState {
                    drop_regime,
                    live_dropped_bytes: state.live_dropped_bytes.saturating_add(a.msg.size_bytes),
                    ..state
                }
            } else {
                LoopState {
                    history: recorded(options, state.history, a.msg),
                    drop_regime,
                    ..state
                }
            }
        },
        _ => state,
    }
}

/// What the event loop keeps after all of `events`.
pub open spec fn after_events(options: ServerOptions, events: Seq<LoopEvent>) -> LoopState
    decreases events.len(),
{
    if events.len() == 0 {
        LoopState { history: History::empty(), drop_regime: None, live_dropped_bytes: 0 }
    } else {
        after_event(options, after_events(options, events.drop_last()), events.last())
    }
}

/// The messages that are sent to the clients that are there, over all of `events`.
pub open spec fn broadcast(options: ServerOptions, events: Seq<LoopEvent>) -> Seq<SizedMsg>
    decreases events.len(),
{
    if events.len() == 0 {
        Seq::empty()
    } else {
        let earlier = broadcast(options, events.drop_last());
        match events.last() {
            LoopEvent::Message(a) if !live_decision(
                options.live_temporal_budget_bytes,
                a.msg,
                a.occupancy,
                after_events(options, events.drop_last()).drop_regime,
            ).0.drop => earlier.push(a.msg),
            _ => earlier,
        }
    }
}

/// The messages among `events`, with what waited in the live queue when each came.
pub open spec fn arrivals(events: Seq<LoopEvent>) -> Seq<Arrival>
    decreases events.len(),
{
    if events.len() == 0 {
        Seq::empty()
    } else {
        let earlier = arrivals(events.drop_last());
        match events.last() {
            LoopEvent::Message(a) => earlier.push(a),
            _ => earlier,
        }
    }
}

/// The messages among `events`.
pub open spec fn messages(events: Seq<LoopEvent>) -> Seq<SizedMsg> {
    received(arrivals(events))
}

/// Whatever clients connect and whoever asks for the memory in use, the history, the counter and the
/// regime are those of the messages that were sent and dropped.
pub proof fn only_messages_matter(options: ServerOptions, events: Seq<LoopEvent>)
    ensures
        after_events(options, events).history == history_after(
            options,
            sent(options.live_temporal_budget_bytes, arrivals(events)),
        ),
        after_events(options, events).drop_regime == regime_after(
            options.live_temporal_budget_bytes,
            arrivals(events),
        ),
        after_events(options, events).live_dropped_bytes == dropped_bytes(
            options.live_temporal_budget_bytes,
            arrivals(events),
        ),
        broadcast(options, events) == sent(options.live_temporal_budget_bytes, arrivals(events)),
    decreases events.len(),
{
    if events.len() > 0 {
        let earlier = events.drop_last();
        only_messages_matter(options, earlier);
        if let LoopEvent::Message(a) = events.last() {
            assert(arrivals(earlier).push(a).drop_last() =~= arrivals(earlier));
            let so_far = sent(options.live_temporal_budget_bytes, arrivals(earlier));
            assert(so_far.push(a.msg).drop_last() =~= so_far);
        }
    }
}

/// The history that a client is given that connects with the event at `c`.
pub open spec fn client_history(options: ServerOptions, events: Seq<LoopEvent>, c: int) -> Seq<
    SizedMsg,
> {
    after_events(options, events.take(c)).history.replay(options.playback_behavior)
}

/// What such a client is sent as it arrives.
pub open spec fn client_live(options: ServerOptions, events: Seq<LoopEvent>, c: int) -> Seq<SizedMsg> {
    broadcast(options, events).skip(broadcast(options, events.take(c)).len() as int)
}

/// Whether `merged` is made of all of `a` and all of `b`, each in its order.
pub open spec fn is_interleaving(
    a: Seq<SizedMsg>,
    b: Seq<SizedMsg>,
    merged: Seq<SizedMsg>,
) -> bool
    decreases merged.len(),
{
    if merged.len() == 0 {
        a.len() == 0 && b.len() == 0
    } else {
        ||| a.len() > 0 && a.last() == merged.last() && is_interleaving(
            a.drop_last(),
            b,
            merged.drop_last(),
        )
        ||| b.len() > 0 && b.last() == merged.last() && is_interleaving(
            a,
            b.drop_last(),
            merged.drop_last(),
        )
    }
}

/// Whether `stream` is what a client may see that connects with the event at `c`. Oldest first, it is
/// the history and then what arrives. Newest first, what arrives goes before the history, of which a
/// part may have been sent by then: that depends on when it arrives.
pub open spec fn is_client_stream(
    options: ServerOptions,
    events: Seq<LoopEvent>,
    c: int,
    stream: Seq<SizedMsg>,
) -> bool {
    let history = client_history(options, events, c);
    let live = client_live(options, events, c);
    match options.playback_behavior {
        PlaybackBehavior::OldestFirst => stream == history + live,
        PlaybackBehavior::NewestFirst => is_interleaving(history, live, stream),
    }
}

/// An interleaving misses nothing and doubles nothing.
pub proof fn interleaving_keeps_every_message(
    a: Seq<SizedMsg>,
    b: Seq<SizedMsg>,
    merged: Seq<SizedMsg>,
)
    requires
        is_interleaving(a, b, merged),
    ensures
        merged.len() == a.len() + b.len(),
        merged.to_multiset() == a.to_multiset().add(b.to_multiset()),
    decreases merged.len(),
{
    broadcast use vstd::seq_lib::group_to_multiset_ensures;

    if merged.len() == 0 {
        assert(merged.to_multiset() =~= a.to_multiset().add(b.to_multiset()));
    } else {
        let last = merged.last();
        assert(merged =~= merged.drop_last().push(last));
        if a.len() > 0 && a.last() == last && is_interleaving(a.drop_last(), b, merged.drop_last()) {
            interleaving_keeps_every_message(a.drop_last(), b, merged.drop_last());
            assert(a =~= a.drop_last().push(last));
        } else {
            interleaving_keeps_every_message(a, b.drop_last(), merged.drop_last());
            assert(b =~= b.drop_last().push(last));
        }
        assert(merged.to_multiset() =~= a.to_multiset().add(b.to_multiset()));
    }
}

/// What was broadcast stays broadcast, in its place.
proof fn broadcast_only_grows(options: ServerOptions, events: Seq<LoopEvent>, c: int)
    requires
        0 <= c <= events.len(),
    ensures
        broadcast(options, events.take(c)).len() <= broadcast(options, events).len(),
        broadcast(options, events) == broadcast(options, events.take(c)) + client_live(
            options,
            events,
            c,
        ),
    decreases events.len(),
{
    if c < events.len() {
        let earlier = events.drop_last();
        assert(earlier.take(c) =~= events.take(c));
        broadcast_only_grows(options, earlier, c);
        assert(broadcast(options, events) =~= broadcast(options, events.take(c)) + client_live(
            options,
            events,
            c,
        ));
    } else {
        assert(events.take(c) =~= events);
        assert(broadcast(options, events) =~= broadcast(options, events.take(c)) + client_live(
            options,
            events,
            c,
        ));
    }
}

/// Messages before and after make up all messages.
proof fn messages_split(events: Seq<LoopEvent>, c: int)
    requires
        0 <= c <= events.len(),
    ensures
        messages(events) == messages(events.take(c)) + messages(events.skip(c)),
    decreases events.len(),
{
    if c < events.len() {
        let earlier = events.drop_last();
        messages_split(earlier, c);
        assert(earlier.take(c) =~= events.take(c));
        assert(events.skip(c).drop_last() =~= earlier.skip(c));
        assert(events.skip(c).last() == events.last());
        if let LoopEvent::Message(a) = events.last() {
            assert(received(arrivals(earlier).push(a)) =~= messages(earlier).push(a.msg));
            assert(received(arrivals(earlier.skip(c)).push(a)) =~= messages(earlier.skip(c)).push(
                a.msg,
            ));
            assert(messages(events) =~= messages(events.take(c)) + messages(events.skip(c)));
        }
    } else {
        assert(events.take(c) =~= events);
        assert(events.skip(c) =~= Seq::empty());
        assert(messages(events) =~= messages(events.take(c)) + messages(events.skip(c)));
    }
}

/// Without a budget, a client that connects is given the history of exactly the messages that came
/// before it, and is sent exactly those that come after it, in their order. With no memory limit
/// and all data kept, it thereby misses none and gets none twice, in either order of playback, but
/// for those without a payload that came before it.
pub proof fn clients_see_every_message(
    options: ServerOptions,
    events: Seq<LoopEvent>,
    c: int,
    stream: Seq<SizedMsg>,
)
    requires
        options.live_temporal_budget_bytes is None,
        0 <= c <= events.len(),
        is_client_stream(options, events, c, stream),
    ensures
        client_history(options, events, c) == history_after(
            options,
            messages(events.take(c)),
        ).replay(options.playback_behavior),
        client_live(options, events, c) == messages(events.skip(c)),
        options.memory_limit.max_bytes is None && !options.drop_temporal_history
            ==> stream.to_multiset() == (messages(events.take(c)).filter(
            |m: SizedMsg| !(retention(m.msg) is Rejected),
        ) + messages(events.skip(c))).to_multiset(),
{
    broadcast use vstd::seq_lib::lemma_multiset_commutative;

    only_messages_matter(options, events);
    only_messages_matter(options, events.take(c));
    everything_is_sent_without_a_budget(arrivals(events));
    everything_is_sent_without_a_budget(arrivals(events.take(c)));
    broadcast_only_grows(options, events, c);
    messages_split(events, c);
    assert(client_live(options, events, c) =~= messages(events.skip(c)));
    let history = client_history(options, events, c);
    let live = client_live(options, events, c);
    if options.playback_behavior == PlaybackBehavior::NewestFirst {
        interleaving_keeps_every_message(history, live, stream);
    }
    if options.memory_limit.max_bytes is None && !options.drop_temporal_history {
        late_client_misses_nothing(options, messages(events.take(c)), options.playback_behavior);
    }
}

/// Whatever the options, a client that connects before the first message sees all that is sent, in
/// the order in which it is sent, and so do all such clients alike.
pub proof fn first_clients_see_every_message_in_order(
    options: ServerOptions,
    events: Seq<LoopEvent>,
    c: int,
    stream: Seq<SizedMsg>,
)
    requires
        0 <= c <= events.len(),
        arrivals(events.take(c)).len() == 0,
        is_client_stream(options, events, c, stream),
    ensures
        stream == broadcast(options, events),
{
    let history = client_history(options, events, c);
    let live = client_live(options, events, c);
    only_messages_matter(options, events.take(c));
    assert(history =~= Seq::empty());
    broadcast_only_grows(options, events, c);
    assert(live =~= broadcast(options, events));
    if options.playback_behavior == PlaybackBehavior::NewestFirst {
        interleaving_with_nothing(live, stream);
    }
}

proof fn interleaving_with_nothing(b: Seq<SizedMsg>, merged: Seq<SizedMsg>)
    requires
        is_interleaving(Seq::empty(), b, merged),
    ensures
        merged == b,
    decreases merged.len(),
{
    if merged.len() > 0 {
        interleaving_with_nothing(b.drop_last(), merged.drop_last());
        assert(merged =~= merged.drop_last().push(merged.last()));
        assert(b =~= b.drop_last().push(b.last()));
    } else {
        assert(merged =~= b);
    }
}

} // verus!
