//! What the memory limit costs the history, and what it does not.

use vstd::prelude::*;

use crate::event_loop::{recorded, within_limit};
use crate::history::{History, retention};
use crate::laws::{
    freeing_memory_spares_what_matters, freeing_takes_the_fewest, history_after, replay_multiset,
};
use crate::messages::{LogOrTableMsgProto, SizedMsg};
use crate::options::{PlaybackBehavior, ServerOptions};
use crate::queue::{total_bytes, total_bytes_of_push};

verus! {

/// The memory of a queue is the sum of the sizes of its messages: none for an empty one, and each
/// message counts with its size wherever it stands.
pub proof fn memory_is_the_sum_of_the_sizes(before: Seq<SizedMsg>, m: SizedMsg, after: Seq<SizedMsg>)
    ensures
        total_bytes(Seq::empty()) == 0,
        total_bytes(before.push(m) + after) == total_bytes(before + after) + m.size_bytes,
    decreases after.len(),
{
    if after.len() == 0 {
        assert(before.push(m) + after =~= before.push(m));
        assert(before + after =~= before);
        total_bytes_of_push(before, m);
    } else {
        let earlier = after.drop_last();
        memory_is_the_sum_of_the_sizes(before, m, earlier);
        assert((before.push(m) + after).drop_last() =~= before.push(m) + earlier);
        assert((before + after).drop_last() =~= before + earlier);
    }
}

/// The memory of a history is that of its parts, whatever is in each.
pub proof fn memory_of_a_history_is_that_of_its_parts(history: History)
    ensures
        history.bytes() == total_bytes(history.persistent) + total_bytes(history.static_)
            + total_bytes(history.disposable),
{
}

/// A history that is within the limit, or just at it, is left as it is.
pub proof fn history_within_the_limit_is_left_alone(history: History, max_bytes: nat)
    requires
        total_bytes(history.persistent) + total_bytes(history.static_) + total_bytes(
            history.disposable,
        ) <= max_bytes,
    ensures
        history.collected(max_bytes) == history,
{
}

/// A history over the limit loses the fewest of its oldest messages that bring it below, at least one,
/// the disposable ones first: with one fewer of them it would not be below. Static ones go only where
/// the disposable ones were not enough, and then again the fewest. Persistent ones stay.
pub proof fn history_over_the_limit_loses_the_fewest(history: History, max_bytes: nat)
    requires
        total_bytes(history.persistent) + total_bytes(history.static_) + total_bytes(
            history.disposable,
        ) > max_bytes,
    ensures
        ({
            let after = history.collected(max_bytes);
            let held = total_bytes(history.persistent) + total_bytes(history.static_);
            let d = history.disposable.len() - after.disposable.len();
            &&& after.persistent == history.persistent
            &&& 0 <= d <= history.disposable.len()
            &&& after.disposable == history.disposable.skip(d)
            &&& history.disposable.len() > 0 ==> d >= 1
            &&& d < history.disposable.len() ==> total_bytes(history.disposable.skip(d)) + held
                < max_bytes
            &&& forall|k: int|
                1 <= k < d ==> total_bytes(#[trigger] history.disposable.skip(k)) + held >= max_bytes
        }),
        ({
            let after = history.collected(max_bytes);
            let held = total_bytes(history.persistent) + total_bytes(after.disposable);
            let s = history.static_.len() - after.static_.len();
            &&& 0 <= s <= history.static_.len()
            &&& after.static_ == history.static_.skip(s)
            &&& held + total_bytes(history.static_) <= max_bytes ==> s == 0
            &&& held + total_bytes(history.static_) > max_bytes && history.static_.len() > 0 ==> s
                >= 1
            &&& 0 < s < history.static_.len() ==> total_bytes(history.static_.skip(s)) + held
                < max_bytes
            &&& forall|k: int|
                1 <= k < s ==> total_bytes(#[trigger] history.static_.skip(k)) + held >= max_bytes
        }),
{
    let after = history.collected(max_bytes);
    let d = freeing_takes_the_fewest(
        history.disposable,
        total_bytes(history.static_) + total_bytes(history.persistent),
        max_bytes,
    );
    let rest = total_bytes(after.disposable) + total_bytes(history.persistent);
    let s = freeing_takes_the_fewest(history.static_, rest, max_bytes);
    assert(history.static_.skip(0) =~= history.static_);
}

/// A larger limit never costs more: what is left under a limit is left under any larger one.
pub proof fn larger_limit_keeps_more(history: History, smaller: nat, larger: nat)
    requires
        smaller <= larger,
    ensures
        ({
            let less = history.collected(smaller);
            let more = history.collected(larger);
            &&& less.disposable.len() <= more.disposable.len()
            &&& less.disposable == more.disposable.skip(
                more.disposable.len() - less.disposable.len(),
            )
            &&& less.static_.len() <= more.static_.len()
            &&& less.static_ == more.static_.skip(more.static_.len() - less.static_.len())
            &&& less.persistent == more.persistent
        }),
{
    let less = history.collected(smaller);
    let more = history.collected(larger);
    freeing_memory_spares_what_matters(history, smaller);
    freeing_memory_spares_what_matters(history, larger);
    assert(history.disposable.skip(0) =~= history.disposable);
    assert(history.static_.skip(0) =~= history.static_);
    if history.bytes() > larger {
        history_over_the_limit_loses_the_fewest(history, smaller);
        history_over_the_limit_loses_the_fewest(history, larger);
    }
    assert(less.disposable =~= more.disposable.skip(more.disposable.len() - less.disposable.len()));
    assert(less.static_ =~= more.static_.skip(more.static_.len() - less.static_.len()));
}

/// Memory is freed before a message is remembered, and only where there is a limit that the history
/// exceeds and all data is kept. A limit of zero remembers nothing then.
pub proof fn memory_is_freed_only_for_a_limit(options: ServerOptions, history: History, m: SizedMsg)
    ensures
        options.drop_temporal_history ==> recorded(options, history, m) == history.added(true, m),
        !options.drop_temporal_history ==> match options.memory_limit.max_bytes {
            None => recorded(options, history, m) == history.added(false, m),
            Some(n) => if n == 0 {
                recorded(options, history, m) == history
            } else if total_bytes(history.persistent) + total_bytes(history.static_) + total_bytes(
                history.disposable,
            ) <= n {
                recorded(options, history, m) == history.added(false, m)
            } else {
                recorded(options, history, m) == history.collected(n as nat).added(false, m)
            },
        },
        options.drop_temporal_history || options.memory_limit.max_bytes is None ==> within_limit(
            options,
            history,
        ) == history,
        !options.drop_temporal_history ==> (options.memory_limit.max_bytes matches Some(n)
            ==> within_limit(options, history) == history.collected(n as nat)),
{
}

/// While all that has been received fits the limit, nothing is given up: each part of the history holds
/// every message of its class, in the order of arrival, and a client that connects is sent every
/// message with a payload exactly as often as it was received.
pub proof fn nothing_is_given_up_within_the_limit(
    options: ServerOptions,
    msgs: Seq<SizedMsg>,
    playback: PlaybackBehavior,
)
    requires
        !options.drop_temporal_history,
        options.memory_limit.max_bytes matches Some(n) && n > 0 && total_bytes(msgs) <= n,
    ensures
        history_after(options, msgs) == (History {
            persistent: msgs.filter(|m: SizedMsg| retention(m.msg) is Persistent),
            static_: msgs.filter(|m: SizedMsg| retention(m.msg) is Static),
            disposable: msgs.filter(|m: SizedMsg| retention(m.msg) is Disposable),
        }),
        history_after(options, msgs).bytes() <= total_bytes(msgs),
        history_after(options, msgs).replay(playback).to_multiset() == msgs.filter(
            |m: SizedMsg| !(m.msg matches LogOrTableMsgProto::LogMsg(log_msg) && log_msg.msg is None),
        ).to_multiset(),
    decreases msgs.len(),
{
    let history = history_after(options, msgs);
    let with_payload = |m: SizedMsg|
        !(m.msg matches LogOrTableMsgProto::LogMsg(log_msg) && log_msg.msg is None);
    replay_multiset(history, playback);
    reveal(Seq::filter);
    broadcast use vstd::seq_lib::group_to_multiset_ensures;

    if msgs.len() == 0 {
        assert(history.persistent =~= msgs.filter(with_payload));
        assert(history.static_ =~= msgs.filter(with_payload));
        assert(history.disposable =~= msgs.filter(with_payload));
        assert(history.replay(playback).to_multiset() =~= msgs.filter(with_payload).to_multiset());
    } else {
        let m = msgs.last();
        let before = history_after(options, msgs.drop_last());
        nothing_is_given_up_within_the_limit(options, msgs.drop_last(), playback);
        replay_multiset(before, playback);
        total_bytes_of_push(before.persistent, m);
        total_bytes_of_push(before.static_, m);
        total_bytes_of_push(before.disposable, m);
        assert(history.replay(playback).to_multiset() =~= msgs.filter(with_payload).to_multiset());
    }
}

/// Whatever the limit, only the oldest messages of a class are ever given up: each part of the history
/// is the latest of what was received of its class, without a gap, and the persistent part is all of it.
pub proof fn only_the_oldest_are_given_up(options: ServerOptions, msgs: Seq<SizedMsg>)
    requires
        !options.drop_temporal_history,
        options.memory_limit.max_bytes != Some(0u64),
    ensures
        ({
            let after = history_after(options, msgs);
            let static_ = msgs.filter(|m: SizedMsg| retention(m.msg) is Static);
            let disposable = msgs.filter(|m: SizedMsg| retention(m.msg) is Disposable);
            &&& after.persistent == msgs.filter(|m: SizedMsg| retention(m.msg) is Persistent)
            &&& after.static_.len() <= static_.len()
            &&& after.static_ == static_.skip(static_.len() - after.static_.len())
            &&& after.disposable.len() <= disposable.len()
            &&& after.disposable == disposable.skip(disposable.len() - after.disposable.len())
        }),
    decreases msgs.len(),
{
    reveal(Seq::filter);
    let after = history_after(options, msgs);
    let static_ = msgs.filter(|m: SizedMsg| retention(m.msg) is Static);
    let disposable = msgs.filter(|m: SizedMsg| retention(m.msg) is Disposable);
    if msgs.len() > 0 {
        let before = history_after(options, msgs.drop_last());
        only_the_oldest_are_given_up(options, msgs.drop_last());
        if options.memory_limit.max_bytes is Some {
            freeing_memory_spares_what_matters(before, options.memory_limit.bytes() as nat);
        }
        assert(after.static_ =~= static_.skip(static_.len() - after.static_.len()));
        assert(after.disposable =~= disposable.skip(disposable.len() - after.disposable.len()));
    } else {
        assert(after.static_ =~= static_.skip(0));
        assert(after.disposable =~= disposable.skip(0));
    }
}

} // verus!
