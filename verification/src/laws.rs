//! What holds of the history and of the live stream whatever is received.

use vstd::prelude::*;

use crate::event_loop::{history_enabled, recorded, within_limit};
use crate::history::{
    History, Retention, activated_blueprint, is_superseded, retention, without_key,
};
use crate::live::temporal;
use crate::messages::{LogOrTableMsgProto, SizedMsg};
use crate::options::{PlaybackBehavior, ServerOptions};
use crate::queue::{
    drop_oldest, drop_oldest_frees_memory, popped, select, total_bytes, total_bytes_of_push,
};
use crate::static_key::key_of;

verus! {

/// A queue into which `msgs` have been put, one after the other.
pub open spec fn filled(msgs: Seq<SizedMsg>) -> Seq<SizedMsg>
    decreases msgs.len(),
{
    if msgs.len() == 0 {
        Seq::empty()
    } else {
        filled(msgs.drop_last()).push(msgs.last())
    }
}

/// What is left of a queue once `n` messages have been asked for.
pub open spec fn after_pops(queue: Seq<SizedMsg>, n: nat) -> Seq<SizedMsg>
    decreases n,
{
    if n == 0 {
        queue
    } else {
        popped(after_pops(queue, (n - 1) as nat)).1
    }
}

/// A queue gives back what was put into it, in the order of arrival, and always holds as many bytes
/// as the messages that are left. Once it is empty, it has no message and stays empty.
pub proof fn queue_gives_back_what_was_put_in(msgs: Seq<SizedMsg>, n: nat)
    ensures
        ({
            let left = after_pops(filled(msgs), n);
            if n < msgs.len() {
                &&& popped(left).0 == Some(msgs[n as int])
                &&& total_bytes(left) == total_bytes(msgs.skip(n as int))
            } else {
                &&& popped(left) == (None::<SizedMsg>, left)
                &&& total_bytes(left) == 0
            }
        }),
{
    filling_keeps_the_order(msgs);
    popping_skips(msgs, n);
}

proof fn filling_keeps_the_order(msgs: Seq<SizedMsg>)
    ensures
        filled(msgs) == msgs,
    decreases msgs.len(),
{
    if msgs.len() > 0 {
        filling_keeps_the_order(msgs.drop_last());
        assert(msgs.drop_last().push(msgs.last()) =~= msgs);
    } else {
        assert(msgs =~= Seq::empty());
    }
}

proof fn popping_skips(queue: Seq<SizedMsg>, n: nat)
    ensures
        after_pops(queue, n) == (if n < queue.len() {
            queue.skip(n as int)
        } else {
            Seq::empty()
        }),
    decreases n,
{
    if n > 0 {
        popping_skips(queue, (n - 1) as nat);
        if n <= queue.len() {
            assert(queue.skip(n - 1).drop_first() =~= queue.skip(n as int));
        }
    } else {
        assert(queue.skip(0) =~= queue);
    }
}

/// The history of a server that has received and sent `msgs`.
pub open spec fn history_after(options: ServerOptions, msgs: Seq<SizedMsg>) -> History
    decreases msgs.len(),
{
    if msgs.len() == 0 {
        History::empty()
    } else {
        recorded(options, history_after(options, msgs.drop_last()), msgs.last())
    }
}

/// The messages that are kept for as long as `class` says.
pub open spec fn of_class(msgs: Seq<SizedMsg>, class: Retention) -> Seq<SizedMsg> {
    msgs.filter(|m: SizedMsg| retention(m.msg) == class)
}

/// Without a limit, and where all data is kept, the history holds every message that has a payload,
/// in the order of arrival within its class.
pub proof fn unlimited_history_keeps_everything(options: ServerOptions, msgs: Seq<SizedMsg>)
    requires
        options.memory_limit.max_bytes is None,
        !options.drop_temporal_history,
    ensures
        history_after(options, msgs) == (History {
            persistent: of_class(msgs, Retention::Persistent),
            static_: of_class(msgs, Retention::Static),
            disposable: of_class(msgs, Retention::Disposable),
        }),
    decreases msgs.len(),
{
    reveal(Seq::filter);
    if msgs.len() > 0 {
        unlimited_history_keeps_everything(options, msgs.drop_last());
    }
}

/// Where all data is kept and there is any history at all, no limit costs a persistent message.
pub proof fn persistent_messages_are_never_given_up(options: ServerOptions, msgs: Seq<SizedMsg>)
    requires
        !options.drop_temporal_history,
        history_enabled(options),
    ensures
        history_after(options, msgs).persistent == of_class(msgs, Retention::Persistent),
    decreases msgs.len(),
{
    reveal(Seq::filter);
    if msgs.len() > 0 {
        persistent_messages_are_never_given_up(options, msgs.drop_last());
    }
}

/// A limit of zero turns the history off, unless the scene skeleton is to be kept.
pub proof fn zero_limit_remembers_nothing(options: ServerOptions, msgs: Seq<SizedMsg>)
    requires
        options.memory_limit.max_bytes == Some(0u64),
        !options.drop_temporal_history,
    ensures
        history_after(options, msgs) == History::empty(),
    decreases msgs.len(),
{
    if msgs.len() > 0 {
        zero_limit_remembers_nothing(options, msgs.drop_last());
    }
}

/// Where only the scene skeleton is kept, no temporal message is ever replayed.
pub proof fn skeleton_history_replays_no_temporal_data(
    options: ServerOptions,
    msgs: Seq<SizedMsg>,
    playback: PlaybackBehavior,
)
    requires
        options.drop_temporal_history,
    ensures
        history_after(options, msgs).disposable == Seq::<SizedMsg>::empty(),
        forall|i: int|
            0 <= i < history_after(options, msgs).replay(playback).len() ==> !temporal(
                (#[trigger] history_after(options, msgs).replay(playback)[i]).msg,
            ),
{
    skeleton_history_holds_its_classes(options, msgs);
}

/// Where only the scene skeleton is kept, each part of the history holds only what belongs there.
proof fn skeleton_history_holds_its_classes(options: ServerOptions, msgs: Seq<SizedMsg>)
    requires
        options.drop_temporal_history,
    ensures
        history_after(options, msgs).disposable == Seq::<SizedMsg>::empty(),
        forall|i: int|
            0 <= i < history_after(options, msgs).persistent.len() ==> retention(
                (#[trigger] history_after(options, msgs).persistent[i]).msg,
            ) is Persistent,
        forall|i: int|
            0 <= i < history_after(options, msgs).static_.len() ==> retention(
                (#[trigger] history_after(options, msgs).static_[i]).msg,
            ) is Static,
    decreases msgs.len(),
{
    broadcast use Seq::lemma_filter_contains_rev;

    if msgs.len() > 0 {
        let before = history_after(options, msgs.drop_last());
        let after = history_after(options, msgs);
        let m = msgs.last();
        skeleton_history_holds_its_classes(options, msgs.drop_last());
        assert forall|i: int| 0 <= i < after.persistent.len() implies retention(
            (#[trigger] after.persistent[i]).msg,
        ) is Persistent by {
            let x = after.persistent[i];
            assert(after.persistent.contains(x));
            assert(before.persistent.push(m).contains(x) || before.persistent.contains(x));
        }
        assert forall|i: int| 0 <= i < after.static_.len() implies retention(
            (#[trigger] after.static_[i]).msg,
        ) is Static by {
            let x = after.static_[i];
            assert(after.static_.contains(x));
            if retention(m.msg) is Static {
                match key_of(m) {
                    Some(key) => {
                        let kept = without_key(before.static_, key);
                        if i < kept.len() {
                            assert(kept.contains(kept[i]));
                            assert(before.static_.contains(kept[i]));
                        }
                    },
                    None => {},
                }
            }
        }
    }
}

/// Where only the scene skeleton is kept, the memory limit plays no part.
pub proof fn skeleton_history_ignores_the_limit(
    options: ServerOptions,
    other: ServerOptions,
    msgs: Seq<SizedMsg>,
)
    requires
        options.drop_temporal_history,
        other.drop_temporal_history,
    ensures
        history_after(options, msgs) == history_after(other, msgs),
    decreases msgs.len(),
{
    if msgs.len() > 0 {
        skeleton_history_ignores_the_limit(options, other, msgs.drop_last());
    }
}

/// Whether the static chunk at `i` is the latest with its key. One without a key always is.
pub open spec fn is_latest_static(msgs: Seq<SizedMsg>, i: int) -> bool {
    &&& retention(msgs[i].msg) is Static
    &&& key_of(msgs[i]) is Some ==> forall|j: int|
        i < j < msgs.len() && retention(msgs[j].msg) is Static ==> key_of(#[trigger] msgs[j]) != key_of(msgs[i])
}

/// Filtering what was selected is selecting by both.
proof fn filter_of_select<T>(
    items: Seq<T>,
    kept: Seq<bool>,
    narrower: Seq<bool>,
    keep: spec_fn(T) -> bool,
)
    requires
        items.len() == kept.len() == narrower.len(),
        forall|i: int|
            0 <= i < items.len() ==> #[trigger] narrower[i] == (kept[i] && keep(items[i])),
    ensures
        select(items, kept).filter(keep) == select(items, narrower),
    decreases items.len(),
{
    reveal(Seq::filter);
    if items.len() > 0 {
        let rest = select(items.drop_last(), kept.drop_last());
        assert forall|i: int| 0 <= i < items.drop_last().len() implies #[trigger] narrower.drop_last()[i]
            == (kept.drop_last()[i] && keep(items.drop_last()[i])) by {
            assert(narrower.drop_last()[i] == narrower[i]);
        }
        filter_of_select(items.drop_last(), kept.drop_last(), narrower.drop_last(), keep);
        assert(narrower[items.len() - 1] == (kept.last() && keep(items.last())));
        assert(rest.push(items.last()).drop_last() =~= rest);
    }
}

/// Where only the scene skeleton is kept, the static chunks that are remembered are exactly the
/// latest with each key, in the order of arrival.
pub proof fn latest_static_chunk_wins(options: ServerOptions, msgs: Seq<SizedMsg>)
    requires
        options.drop_temporal_history,
    ensures
        history_after(options, msgs).static_ == select(
            msgs,
            Seq::new(msgs.len(), |i: int| is_latest_static(msgs, i)),
        ),
    decreases msgs.len(),
{
    if msgs.len() > 0 {
        let earlier = msgs.drop_last();
        let m = msgs.last();
        let kept = Seq::new(earlier.len(), |i: int| is_latest_static(earlier, i));
        let now = Seq::new(msgs.len(), |i: int| is_latest_static(msgs, i));
        latest_static_chunk_wins(options, earlier);
        let keep = |x: SizedMsg| !(retention(m.msg) is Static && key_of(m) is Some
            && key_of(x) == key_of(m));
        assert forall|i: int| 0 <= i < earlier.len() implies #[trigger] now.drop_last()[i] == (kept[i]
            && keep(earlier[i])) by {
            assert(now.drop_last()[i] == is_latest_static(msgs, i));
            assert(earlier[i] == msgs[i]);
            if is_latest_static(msgs, i) {
                assert forall|j: int|
                    i < j < earlier.len() && retention(earlier[j].msg) is Static && key_of(msgs[i]) is Some implies key_of(#[trigger] earlier[j]) != key_of(msgs[i]) by {
                    assert(earlier[j] == msgs[j]);
                }
                assert(msgs[msgs.len() - 1] == m);
            }
            if is_latest_static(earlier, i) && keep(earlier[i]) {
                assert forall|j: int|
                    i < j < msgs.len() && retention(msgs[j].msg) is Static && key_of(msgs[i]) is Some implies key_of(#[trigger] msgs[j]) != key_of(msgs[i]) by {
                    if j < earlier.len() {
                        assert(earlier[j] == msgs[j]);
                    }
                }
            }
        }
        filter_of_select(earlier, kept, now.drop_last(), keep);
        let before = history_after(options, earlier).static_;
        if retention(m.msg) is Static && key_of(m) is Some {
            let key = key_of(m)->0;
            filters_agree(before, keep, |x: SizedMsg| key_of(x) != Some(key));
        } else {
            filters_agree(before, keep, |x: SizedMsg| true);
            filter_of_all(before);
        }
    }
}

/// Filters that agree on every element have the same result.
pub proof fn filters_agree<T>(items: Seq<T>, a: spec_fn(T) -> bool, b: spec_fn(T) -> bool)
    requires
        forall|x: T| #[trigger] a(x) == b(x),
    ensures
        items.filter(a) == items.filter(b),
    decreases items.len(),
{
    reveal(Seq::filter);
    if items.len() > 0 {
        filters_agree(items.drop_last(), a, b);
    }
}

proof fn filter_of_all<T>(items: Seq<T>)
    ensures
        items.filter(|x: T| true) == items,
    decreases items.len(),
{
    reveal(Seq::filter);
    if items.len() > 0 {
        filter_of_all(items.drop_last());
        assert(items.drop_last().push(items.last()) =~= items);
    }
}

/// Whether the persistent message at `i` belongs to no blueprint that a later activation, or the
/// message itself, has superseded.
pub open spec fn is_current_persistent(msgs: Seq<SizedMsg>, i: int) -> bool {
    &&& retention(msgs[i].msg) is Persistent
    &&& forall|j: int|
        i <= j < msgs.len() && activated_blueprint(msgs[j].msg) is Some ==> !is_superseded(
            msgs[i].msg,
            activated_blueprint((#[trigger] msgs[j]).msg)->0,
        )
}

/// Where only the scene skeleton is kept, the persistent messages that are remembered are exactly
/// those of recordings and of blueprints that no later activation has superseded, in the order of
/// arrival.
pub proof fn activation_supersedes_other_blueprints(options: ServerOptions, msgs: Seq<SizedMsg>)
    requires
        options.drop_temporal_history,
    ensures
        history_after(options, msgs).persistent == select(
            msgs,
            Seq::new(msgs.len(), |i: int| is_current_persistent(msgs, i)),
        ),
    decreases msgs.len(),
{
    if msgs.len() > 0 {
        let earlier = msgs.drop_last();
        let m = msgs.last();
        let kept = Seq::new(earlier.len(), |i: int| is_current_persistent(earlier, i));
        let now = Seq::new(msgs.len(), |i: int| is_current_persistent(msgs, i));
        activation_supersedes_other_blueprints(options, earlier);
        let keep = |x: SizedMsg| !(activated_blueprint(m.msg) is Some && is_superseded(
            x.msg,
            activated_blueprint(m.msg)->0,
        ));
        assert forall|i: int| 0 <= i < earlier.len() implies #[trigger] now.drop_last()[i] == (kept[i]
            && keep(earlier[i])) by {
            assert(now.drop_last()[i] == is_current_persistent(msgs, i));
            assert(earlier[i] == msgs[i]);
            if is_current_persistent(msgs, i) {
                assert forall|j: int|
                    i <= j < earlier.len() && activated_blueprint(
                        earlier[j].msg,
                    ) is Some implies !is_superseded(
                    earlier[i].msg,
                    activated_blueprint((#[trigger] earlier[j]).msg)->0,
                ) by {
                    assert(earlier[j] == msgs[j]);
                }
                assert(msgs[msgs.len() - 1] == m);
            }
            if is_current_persistent(earlier, i) && keep(earlier[i]) {
                assert forall|j: int|
                    i <= j < msgs.len() && activated_blueprint(
                        msgs[j].msg,
                    ) is Some implies !is_superseded(
                    msgs[i].msg,
                    activated_blueprint((#[trigger] msgs[j]).msg)->0,
                ) by {
                    if j < earlier.len() {
                        assert(earlier[j] == msgs[j]);
                    }
                }
            }
        }
        filter_of_select(earlier, kept, now.drop_last(), keep);
        let before = history_after(options, earlier).persistent;
        assert(now.last() == is_current_persistent(msgs, msgs.len() - 1));
        assert(now.last() == (retention(m.msg) is Persistent && keep(m))) by {
            assert(msgs[msgs.len() - 1] == m);
        }
        if activated_blueprint(m.msg) is Some {
            let active = activated_blueprint(m.msg)->0;
            let current = |x: SizedMsg| !is_superseded(x.msg, active);
            reveal(Seq::filter);
            assert(before.push(m).drop_last() =~= before);
            filters_agree(before, keep, current);
        } else {
            filters_agree(before, keep, |x: SizedMsg| true);
            filter_of_all(before);
        }
    }
}

/// Where only the scene skeleton is kept, no two static chunks that are remembered have the same
/// key: logging a chunk again does not make the history grow.
pub proof fn one_static_chunk_per_key(
    options: ServerOptions,
    msgs: Seq<SizedMsg>,
    key: (Seq<char>, Seq<char>),
)
    requires
        options.drop_temporal_history,
    ensures
        history_after(options, msgs).static_.filter(
            |m: SizedMsg| key_of(m) == Some(key),
        ).len() <= 1,
    decreases msgs.len(),
{
    let has_key = |m: SizedMsg| key_of(m) == Some(key);
    reveal(Seq::filter);
    if msgs.len() > 0 {
        let m = msgs.last();
        let before = history_after(options, msgs.drop_last()).static_;
        one_static_chunk_per_key(options, msgs.drop_last(), key);
        if retention(m.msg) is Static {
            match key_of(m) {
                Some(new_key) => {
                    let others = without_key(before, new_key);
                    filter_within_filter(
                        before,
                        |x: SizedMsg| key_of(x) != Some(new_key),
                        has_key,
                    );
                    assert(others.push(m).drop_last() =~= others);
                    if new_key == key {
                        filter_of_none(others, has_key);
                    }
                },
                None => {
                    assert(before.push(m).drop_last() =~= before);
                },
            }
        }
    }
}

/// Filtering a part finds no more than filtering the whole.
proof fn filter_within_filter<T>(items: Seq<T>, a: spec_fn(T) -> bool, b: spec_fn(T) -> bool)
    ensures
        items.filter(a).filter(b).len() <= items.filter(b).len(),
    decreases items.len(),
{
    reveal(Seq::filter);
    if items.len() > 0 {
        let rest = items.drop_last().filter(a);
        filter_within_filter(items.drop_last(), a, b);
        assert(rest.push(items.last()).drop_last() =~= rest);
    }
}

proof fn filter_of_none(items: Seq<SizedMsg>, keep: spec_fn(SizedMsg) -> bool)
    requires
        forall|i: int| 0 <= i < items.len() ==> !keep(#[trigger] items[i]),
    ensures
        items.filter(keep).len() == 0,
    decreases items.len(),
{
    reveal(Seq::filter);
    if items.len() > 0 {
        assert(!keep(items[items.len() - 1]));
        assert forall|i: int| 0 <= i < items.drop_last().len() implies !keep(
            #[trigger] items.drop_last()[i],
        ) by {
            assert(items.drop_last()[i] == items[i]);
        }
        filter_of_none(items.drop_last(), keep);
    }
}

/// Freeing memory takes the fewest of the oldest messages that do: `n` go, where with any smaller
/// number of at least one too much would have been left, and with `n` it is not, unless nothing is.
pub proof fn freeing_takes_the_fewest(msgs: Seq<SizedMsg>, rest: nat, max_bytes: nat) -> (n: nat)
    ensures
        n <= msgs.len(),
        msgs.len() > 0 ==> n >= 1,
        drop_oldest(msgs, rest, max_bytes) == msgs.skip(n as int),
        n < msgs.len() ==> total_bytes(msgs.skip(n as int)) + rest < max_bytes,
        forall|k: int|
            1 <= k < n ==> total_bytes(#[trigger] msgs.skip(k)) + rest >= max_bytes,
    decreases msgs.len(),
{
    if msgs.len() == 0 {
        assert(msgs.skip(0) =~= msgs);
        0
    } else {
        let tail = msgs.drop_first();
        assert(tail =~= msgs.skip(1));
        if total_bytes(tail) + rest < max_bytes {
            1
        } else {
            let n = freeing_takes_the_fewest(tail, rest, max_bytes);
            assert(tail.skip(n as int) =~= msgs.skip(n as int + 1));
            if tail.len() == 0 {
                assert(n == 0);
            }
            assert forall|k: int| 1 <= k < n + 1 implies total_bytes(#[trigger] msgs.skip(k)) + rest
                >= max_bytes by {
                if k > 1 {
                    assert(tail.skip(k - 1) =~= msgs.skip(k));
                }
            }
            (n + 1) as nat
        }
    }
}

/// Freeing memory leaves every persistent message, takes static ones only where no disposable one
/// is left, takes the oldest first, and succeeds unless nothing but persistent messages is left.
pub proof fn freeing_memory_spares_what_matters(history: History, max_bytes: nat)
    ensures
        ({
            let after = history.collected(max_bytes);
            &&& after.persistent == history.persistent
            &&& after.static_ != history.static_ ==> after.disposable.len() == 0
            &&& after.disposable.len() <= history.disposable.len()
            &&& after.static_.len() <= history.static_.len()
            &&& after.disposable == history.disposable.skip(
                history.disposable.len() - after.disposable.len(),
            )
            &&& after.static_ == history.static_.skip(history.static_.len() - after.static_.len())
            &&& after.bytes() <= history.bytes()
            &&& after.bytes() <= max_bytes || (after.disposable.len() == 0 && after.static_.len()
                == 0)
        }),
{
    let after = history.collected(max_bytes);
    assert(history.disposable.skip(0) =~= history.disposable);
    assert(history.static_.skip(0) =~= history.static_);
    if history.bytes() > max_bytes {
        let fixed = total_bytes(history.static_) + total_bytes(history.persistent);
        drop_oldest_frees_memory(history.disposable, fixed, max_bytes);
        drop_oldest_until_done(history.disposable, fixed, max_bytes);
        let fixed = total_bytes(after.disposable) + total_bytes(history.persistent);
        drop_oldest_frees_memory(history.static_, fixed, max_bytes);
        drop_oldest_until_done(history.static_, fixed, max_bytes);
    }
}

proof fn drop_oldest_until_done(msgs: Seq<SizedMsg>, rest: nat, max_bytes: nat)
    ensures
        drop_oldest(msgs, rest, max_bytes).len() == 0 || total_bytes(
            drop_oldest(msgs, rest, max_bytes),
        ) + rest < max_bytes,
    decreases msgs.len(),
{
    if msgs.len() > 0 {
        drop_oldest_until_done(msgs.drop_first(), rest, max_bytes);
    }
}

/// However low the limit, the latest message is there once it has been received, unless it has no
/// payload or is temporal and only the scene skeleton is kept.
pub proof fn latest_message_is_remembered(options: ServerOptions, history: History, m: SizedMsg)
    requires
        history_enabled(options),
        !(retention(m.msg) is Rejected),
        !(options.drop_temporal_history && retention(m.msg) is Disposable),
    ensures
        match retention(m.msg) {
            Retention::Persistent => recorded(options, history, m).persistent.last() == m,
            Retention::Static => recorded(options, history, m).static_.last() == m,
            _ => recorded(options, history, m).disposable.last() == m,
        },
{
    reveal(Seq::filter);
}

/// With a limit, what is held after a message is what the limit allows and the message, or nothing
/// but persistent messages and the message.
pub proof fn limit_bounds_the_history(options: ServerOptions, history: History, m: SizedMsg)
    requires
        !options.drop_temporal_history,
        options.memory_limit.max_bytes matches Some(n) && n > 0,
    ensures
        ({
            let limit = options.memory_limit.bytes() as nat;
            let kept = total_bytes(history.persistent);
            recorded(options, history, m).bytes() <= (if limit > kept {
                limit
            } else {
                kept
            }) + m.size_bytes
        }),
{
    let limit = options.memory_limit.bytes() as nat;
    let freed = within_limit(options, history);
    freeing_memory_spares_what_matters(history, limit);
    total_bytes_of_push(freed.persistent, m);
    total_bytes_of_push(freed.static_, m);
    total_bytes_of_push(freed.disposable, m);
}

/// What is filed as disposable is exactly what is temporal.
pub proof fn temporal_messages_are_the_disposable_ones(msg: LogOrTableMsgProto)
    ensures
        temporal(msg) <==> retention(msg) is Disposable,
{
}

/// Whether `part` is made of messages of `msgs`, each at most once and in the order of arrival.
pub open spec fn is_selected_from(part: Seq<SizedMsg>, msgs: Seq<SizedMsg>) -> bool {
    exists|kept: Seq<bool>| kept.len() == msgs.len() && part == #[trigger] select(msgs, kept)
}

/// Whatever the options, each part of the history is made of messages that were received, each at
/// most as often as it was received, in the order of arrival.
pub proof fn history_holds_what_was_received(options: ServerOptions, msgs: Seq<SizedMsg>)
    ensures
        is_selected_from(history_after(options, msgs).persistent, msgs),
        is_selected_from(history_after(options, msgs).static_, msgs),
        is_selected_from(history_after(options, msgs).disposable, msgs),
    decreases msgs.len(),
{
    let after = history_after(options, msgs);
    if msgs.len() == 0 {
        let none = Seq::<bool>::empty();
        assert(select(msgs, none) =~= Seq::empty());
        assert(after.persistent == select(msgs, none));
        assert(after.static_ == select(msgs, none));
        assert(after.disposable == select(msgs, none));
    } else {
        let earlier = msgs.drop_last();
        let m = msgs.last();
        let before = history_after(options, earlier);
        history_holds_what_was_received(options, earlier);
        let freed = within_limit(options, before);
        if !options.drop_temporal_history && options.memory_limit.max_bytes is Some {
            freeing_memory_spares_what_matters(before, options.memory_limit.bytes() as nat);
            skipping_selects(
                before.disposable,
                earlier,
                before.disposable.len() - freed.disposable.len(),
            );
            skipping_selects(before.static_, earlier, before.static_.len() - freed.static_.len());
        }
        adding_selects(before.persistent, msgs);
        adding_selects(before.static_, msgs);
        adding_selects(before.disposable, msgs);
        adding_selects(freed.persistent, msgs);
        adding_selects(freed.static_, msgs);
        adding_selects(freed.disposable, msgs);
        if options.drop_temporal_history {
            match (retention(m.msg), activated_blueprint(m.msg), key_of(m)) {
                (Retention::Persistent, Some(active), _) => {
                    filtering_selects(
                        before.persistent.push(m),
                        msgs,
                        |x: SizedMsg| !is_superseded(x.msg, active),
                    );
                },
                (Retention::Static, _, Some(key)) => {
                    filtering_selects(
                        before.static_,
                        earlier,
                        |x: SizedMsg| key_of(x) != Some(key),
                    );
                    adding_selects(without_key(before.static_, key), msgs);
                },
                _ => {},
            }
        }
    }
}

/// What was selected from all but the last message is selected from all, with or without the last.
proof fn adding_selects(part: Seq<SizedMsg>, msgs: Seq<SizedMsg>)
    requires
        msgs.len() > 0,
        is_selected_from(part, msgs.drop_last()),
    ensures
        is_selected_from(part, msgs),
        is_selected_from(part.push(msgs.last()), msgs),
{
    let earlier = msgs.drop_last();
    let kept = choose|kept: Seq<bool>|
        kept.len() == earlier.len() && part == #[trigger] select(earlier, kept);
    assert(kept.push(false).drop_last() =~= kept);
    assert(kept.push(true).drop_last() =~= kept);
    assert(part == select(msgs, kept.push(false)));
    assert(part.push(msgs.last()) == select(msgs, kept.push(true)));
}

/// The end of what was selected is selected.
proof fn skipping_selects(part: Seq<SizedMsg>, msgs: Seq<SizedMsg>, n: int)
    requires
        is_selected_from(part, msgs),
        0 <= n <= part.len(),
    ensures
        is_selected_from(part.skip(n), msgs),
    decreases msgs.len(),
{
    let kept = choose|kept: Seq<bool>|
        kept.len() == msgs.len() && part == #[trigger] select(msgs, kept);
    if n == part.len() {
        selecting_nothing(msgs);
        assert(part.skip(n) =~= Seq::empty());
    } else if msgs.len() > 0 {
        let earlier = msgs.drop_last();
        let rest = select(earlier, kept.drop_last());
        if kept.last() {
            skipping_selects(rest, earlier, n);
            adding_selects(rest.skip(n), msgs);
            assert(part.skip(n) =~= rest.skip(n).push(msgs.last()));
        } else {
            skipping_selects(rest, earlier, n);
            adding_selects(rest.skip(n), msgs);
        }
    }
}

proof fn selecting_nothing(msgs: Seq<SizedMsg>)
    ensures
        is_selected_from(Seq::empty(), msgs),
    decreases msgs.len(),
{
    if msgs.len() == 0 {
        assert(Seq::<SizedMsg>::empty() == select(msgs, Seq::<bool>::empty()));
    } else {
        selecting_nothing(msgs.drop_last());
        adding_selects(Seq::empty(), msgs);
    }
}

/// What is left of what was selected is selected.
proof fn filtering_selects(part: Seq<SizedMsg>, msgs: Seq<SizedMsg>, keep: spec_fn(SizedMsg) -> bool)
    requires
        is_selected_from(part, msgs),
    ensures
        is_selected_from(part.filter(keep), msgs),
{
    let kept = choose|kept: Seq<bool>|
        kept.len() == msgs.len() && part == #[trigger] select(msgs, kept);
    let narrower = Seq::new(msgs.len(), |i: int| kept[i] && keep(msgs[i]));
    filter_of_select(msgs, kept, narrower, keep);
}

/// Without a limit, and where all data is kept, a client that connects is sent every message with a
/// payload that was received before, exactly as often as it was received, in either order of
/// playback. What arrives later it is sent as it arrives.
pub proof fn late_client_misses_nothing(
    options: ServerOptions,
    msgs: Seq<SizedMsg>,
    playback: PlaybackBehavior,
)
    requires
        options.memory_limit.max_bytes is None,
        !options.drop_temporal_history,
    ensures
        history_after(options, msgs).replay(playback).to_multiset() == msgs.filter(
            |m: SizedMsg| !(retention(m.msg) is Rejected),
        ).to_multiset(),
    decreases msgs.len(),
{
    let history = history_after(options, msgs);
    let accepted = |m: SizedMsg| !(retention(m.msg) is Rejected);
    replay_multiset(history, playback);
    reveal(Seq::filter);
    broadcast use vstd::seq_lib::group_to_multiset_ensures;

    if msgs.len() == 0 {
        assert(history.persistent =~= msgs.filter(accepted));
        assert(history.static_ =~= msgs.filter(accepted));
        assert(history.disposable =~= msgs.filter(accepted));
        assert(history.replay(playback).to_multiset() =~= msgs.filter(accepted).to_multiset());
    } else {
        let m = msgs.last();
        let before = history_after(options, msgs.drop_last());
        late_client_misses_nothing(options, msgs.drop_last(), playback);
        replay_multiset(before, playback);
        assert(history.replay(playback).to_multiset() =~= msgs.filter(accepted).to_multiset());
    }
}

/// A client is sent what is in the parts of the history, each message as often as it is there.
pub proof fn replay_multiset(history: History, playback: PlaybackBehavior)
    ensures
        history.replay(playback).to_multiset() == history.persistent.to_multiset().add(
            history.static_.to_multiset(),
        ).add(history.disposable.to_multiset()),
{
    broadcast use vstd::seq_lib::lemma_multiset_commutative;

    history.persistent.lemma_reverse_to_multiset();
    history.static_.lemma_reverse_to_multiset();
    history.disposable.lemma_reverse_to_multiset();
}

/// The persistent messages come before the static ones and those before the disposable ones, in
/// either order of playback; and newest first is oldest first backwards, within each part.
pub proof fn replay_sends_the_skeleton_first(history: History)
    ensures
        ({
            let p = history.persistent.len() as int;
            let s = p + history.static_.len();
            let oldest = history.replay(PlaybackBehavior::OldestFirst);
            let newest = history.replay(PlaybackBehavior::NewestFirst);
            &&& oldest.len() == newest.len() == s + history.disposable.len()
            &&& oldest.subrange(0, p) == history.persistent
            &&& oldest.subrange(p, s) == history.static_
            &&& oldest.subrange(s, oldest.len() as int) == history.disposable
            &&& newest.subrange(0, p) == oldest.subrange(0, p).reverse()
            &&& newest.subrange(p, s) == oldest.subrange(p, s).reverse()
            &&& newest.subrange(s, newest.len() as int) == oldest.subrange(
                s,
                oldest.len() as int,
            ).reverse()
        }),
{
    let p = history.persistent.len() as int;
    let s = p + history.static_.len();
    let oldest = history.replay(PlaybackBehavior::OldestFirst);
    assert(oldest.subrange(0, p) =~= history.persistent);
    assert(oldest.subrange(p, s) =~= history.static_);
    assert(oldest.subrange(s, oldest.len() as int) =~= history.disposable);
}

} // verus!
