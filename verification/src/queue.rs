//! A queue of messages that knows how much memory it holds.

use std::collections::VecDeque;

use vstd::prelude::*;

use crate::messages::{LogOrTableMsgProto, SizedMsg};

verus! {

/// The memory that all of `msgs` take together.
pub open spec fn total_bytes(msgs: Seq<SizedMsg>) -> nat
    decreases msgs.len(),
{
    if msgs.len() == 0 {
        0
    } else {
        total_bytes(msgs.drop_last()) + msgs.last().size_bytes as nat
    }
}

/// The elements of `items` at the indices where `kept` is true, in the same order.
pub open spec fn select<T>(items: Seq<T>, kept: Seq<bool>) -> Seq<T>
    decreases items.len(),
{
    if items.len() == 0 {
        Seq::empty()
    } else {
        let rest = select(items.drop_last(), kept.drop_last());
        if kept.last() {
            rest.push(items.last())
        } else {
            rest
        }
    }
}

/// `msgs` without its oldest message, and without as many more as it takes until what is left,
/// together with `rest` bytes held elsewhere, is less than `max_bytes`.
pub open spec fn drop_oldest(msgs: Seq<SizedMsg>, rest: nat, max_bytes: nat) -> Seq<SizedMsg>
    decreases msgs.len(),
{
    if msgs.len() == 0 {
        msgs
    } else if total_bytes(msgs.drop_first()) + rest < max_bytes {
        msgs.drop_first()
    } else {
        drop_oldest(msgs.drop_first(), rest, max_bytes)
    }
}

/// What comes out of a queue next, and what is left.
pub open spec fn popped(queue: Seq<SizedMsg>) -> (Option<SizedMsg>, Seq<SizedMsg>) {
    if queue.len() == 0 {
        (None, queue)
    } else {
        (Some(queue[0]), queue.drop_first())
    }
}

/// The memory of two queues one behind the other is the sum of theirs.
pub proof fn total_bytes_of_concatenation(front: Seq<SizedMsg>, back: Seq<SizedMsg>)
    ensures
        total_bytes(front + back) == total_bytes(front) + total_bytes(back),
    decreases back.len(),
{
    if back.len() == 0 {
        assert(front + back =~= front);
    } else {
        assert((front + back).drop_last() =~= front + back.drop_last());
        total_bytes_of_concatenation(front, back.drop_last());
    }
}

/// A message behind a queue adds what it takes.
pub proof fn total_bytes_of_push(msgs: Seq<SizedMsg>, msg: SizedMsg)
    ensures
        total_bytes(msgs.push(msg)) == total_bytes(msgs) + msg.size_bytes,
{
    assert(msgs.push(msg).drop_last() =~= msgs);
}

/// Taking the first message away frees what it takes.
pub proof fn total_bytes_of_drop_first(msgs: Seq<SizedMsg>)
    requires
        msgs.len() > 0,
    ensures
        total_bytes(msgs) == msgs[0].size_bytes + total_bytes(msgs.drop_first()),
{
    let first = seq![msgs[0]];
    assert(msgs =~= first + msgs.drop_first());
    total_bytes_of_concatenation(first, msgs.drop_first());
    assert(first.drop_last() =~= Seq::empty());
    assert(total_bytes(first) == msgs[0].size_bytes) by {
        reveal_with_fuel(total_bytes, 2);
    }
}

/// Selecting by a property is filtering by it.
pub proof fn select_is_filter<T>(items: Seq<T>, kept: Seq<bool>, keep: spec_fn(T) -> bool)
    requires
        items.len() == kept.len(),
        forall|i: int| 0 <= i < items.len() ==> #[trigger] kept[i] == keep(items[i]),
    ensures
        select(items, kept) == items.filter(keep),
    decreases items.len(),
{
    reveal(Seq::filter);
    if items.len() > 0 {
        assert forall|i: int| 0 <= i < items.drop_last().len() implies #[trigger] kept.drop_last()[i]
            == keep(items.drop_last()[i]) by {
            assert(kept.drop_last()[i] == kept[i]);
        }
        select_is_filter(items.drop_last(), kept.drop_last(), keep);
        assert(kept[items.len() - 1] == keep(items[items.len() - 1]));
    }
}

/// What is selected from a queue takes no more memory than all of it.
pub proof fn total_bytes_of_select(msgs: Seq<SizedMsg>, kept: Seq<bool>)
    requires
        msgs.len() == kept.len(),
    ensures
        total_bytes(select(msgs, kept)) <= total_bytes(msgs),
    decreases msgs.len(),
{
    if msgs.len() > 0 {
        let rest = select(msgs.drop_last(), kept.drop_last());
        total_bytes_of_select(msgs.drop_last(), kept.drop_last());
        total_bytes_of_push(rest, msgs.last());
    }
}

/// What is left of a queue takes no more memory than all of it.
pub proof fn total_bytes_of_filter(msgs: Seq<SizedMsg>, keep: spec_fn(SizedMsg) -> bool)
    ensures
        total_bytes(msgs.filter(keep)) <= total_bytes(msgs),
    decreases msgs.len(),
{
    reveal(Seq::filter);
    if msgs.len() > 0 {
        let rest = msgs.drop_last().filter(keep);
        total_bytes_of_filter(msgs.drop_last(), keep);
        total_bytes_of_push(rest, msgs.last());
    }
}

/// What is left once the oldest messages are gone is the end of the queue, and takes no more memory
/// than all of it.
pub proof fn drop_oldest_frees_memory(msgs: Seq<SizedMsg>, rest: nat, max_bytes: nat)
    ensures
        total_bytes(drop_oldest(msgs, rest, max_bytes)) <= total_bytes(msgs),
        drop_oldest(msgs, rest, max_bytes).len() <= msgs.len(),
        drop_oldest(msgs, rest, max_bytes) == msgs.skip(
            msgs.len() - drop_oldest(msgs, rest, max_bytes).len(),
        ),
    decreases msgs.len(),
{
    if msgs.len() > 0 {
        total_bytes_of_drop_first(msgs);
        drop_oldest_frees_memory(msgs.drop_first(), rest, max_bytes);
    }
}

/// Messages in the order in which they arrived, oldest first.
pub struct MsgQueue {
    queue: VecDeque<SizedMsg>,
    /// The memory that `queue` holds.
    size_bytes: u64,
}

impl View for MsgQueue {
    type V = Seq<SizedMsg>;

    closed spec fn view(&self) -> Seq<SizedMsg> {
        self.queue@
    }
}

impl MsgQueue {
    /// The counter is the memory of the messages that are there.
    pub closed spec fn wf(&self) -> bool {
        self.size_bytes == total_bytes(self.queue@)
    }

    /// A queue without messages.
    pub fn new() -> (queue: MsgQueue)
        ensures
            queue.wf(),
            queue@ == Seq::<SizedMsg>::empty(),
    {
        MsgQueue { queue: VecDeque::new(), size_bytes: 0 }
    }

    /// The memory that the messages take.
    pub fn size_bytes(&self) -> (n: u64)
        requires
            self.wf(),
        ensures
            n == total_bytes(self@),
    {
        self.size_bytes
    }

    /// The number of messages.
    pub fn len(&self) -> (n: usize)
        ensures
            n == self@.len(),
    {
        self.queue.len()
    }

    /// The messages, oldest first.
    pub fn iter(&self) -> (msgs: Vec<&SizedMsg>)
        ensures
            msgs@.len() == self@.len(),
            forall|i: int| 0 <= i < self@.len() ==> *(#[trigger] msgs@[i]) == self@[i],
    {
        let mut msgs: Vec<&SizedMsg> = Vec::new();
        let n: usize = self.queue.len();
        for i in 0..n
            invariant
                n == self@.len(),
                msgs@.len() == i,
                forall|j: int| 0 <= j < i ==> *(#[trigger] msgs@[j]) == self@[j],
        {
            msgs.push(&self.queue[i]);
        }
        msgs
    }

    /// Adds a message behind all others.
    pub fn push_back(&mut self, msg: SizedMsg)
        requires
            old(self).wf(),
            total_bytes(old(self)@) + msg.size_bytes <= u64::MAX,
        ensures
            final(self).wf(),
            final(self)@ == old(self)@.push(msg),
    {
        proof {
            total_bytes_of_push(self@, msg);
        }
        self.size_bytes += msg.size_bytes;
        self.queue.push_back(msg);
    }

    /// Takes the oldest message out.
    pub fn pop_front(&mut self) -> (msg: Option<SizedMsg>)
        requires
            old(self).wf(),
        ensures
            final(self).wf(),
            (msg, final(self)@) == popped(old(self)@),
    {
        proof {
            if self@.len() > 0 {
                total_bytes_of_drop_first(self@);
            }
        }
        if let Some(msg) = self.queue.pop_front() {
            assert(self.queue@ == old(self)@.drop_first());
            self.size_bytes -= msg.size_bytes;
            Some(msg)
        } else {
            None
        }
    }

    /// Takes the oldest message out, and as many more as it takes until what is left, together with
    /// `rest` bytes held elsewhere, is less than `max_bytes`.
    pub fn drop_oldest(&mut self, rest: u64, max_bytes: u64)
        requires
            old(self).wf(),
            total_bytes(old(self)@) + rest <= u64::MAX,
        ensures
            final(self).wf(),
            final(self)@ == drop_oldest(old(self)@, rest as nat, max_bytes as nat),
    {
        let ghost start = self@;
        loop
            invariant_except_break
                self.wf(),
                total_bytes(self@) + rest <= u64::MAX,
                drop_oldest(self@, rest as nat, max_bytes as nat) == drop_oldest(
                    start,
                    rest as nat,
                    max_bytes as nat,
                ),
            ensures
                self.wf(),
                self@ == drop_oldest(start, rest as nat, max_bytes as nat),
            decreases self@.len(),
        {
            proof {
                if self@.len() > 0 {
                    total_bytes_of_drop_first(self@);
                }
            }
            if self.pop_front().is_none() {
                break;
            }
            if self.size_bytes + rest < max_bytes {
                break;
            }
        }
    }

    /// Keeps the messages whose flag in `kept` is true, in the order in which they are.
    pub fn retain_selected(&mut self, kept: &Vec<bool>)
        requires
            old(self).wf(),
            kept@.len() == old(self)@.len(),
        ensures
            final(self).wf(),
            final(self)@ == select(old(self)@, kept@),
    {
        let ghost before = self@;
        let n: usize = self.queue.len();
        let mut survivors: VecDeque<SizedMsg> = VecDeque::new();
        let mut removed_bytes: u64 = 0;
        for i in 0..n
            invariant
                n == before.len(),
                n == kept@.len(),
                before == old(self)@,
                self.size_bytes == total_bytes(before),
                self.queue@ == before.subrange(i as int, n as int),
                survivors@ == select(before.take(i as int), kept@.take(i as int)),
                total_bytes(survivors@) + removed_bytes + total_bytes(self.queue@) == total_bytes(
                    before,
                ),
        {
            proof {
                total_bytes_of_drop_first(self.queue@);
                assert(self.queue@.drop_first() =~= before.subrange(i + 1, n as int));
                assert(before.take(i + 1).drop_last() =~= before.take(i as int));
                assert(kept@.take(i + 1).drop_last() =~= kept@.take(i as int));
            }
            if let Some(msg) = self.queue.pop_front() {
                assert(self.queue@ =~= before.subrange(i + 1, n as int));
                proof {
                    total_bytes_of_push(survivors@, msg);
                }
                if kept[i] {
                    survivors.push_back(msg);
                } else {
                    removed_bytes += msg.size_bytes;
                }
            }
        }
        proof {
            assert(before.take(n as int) =~= before);
            assert(kept@.take(n as int) =~= kept@);
            assert(self.queue@ =~= Seq::empty());
        }
        self.queue = survivors;
        self.size_bytes -= removed_bytes;
    }

    /// Keeps the messages for which `keep` returns true, in the order in which they are.
    pub fn retain<F: Fn(&LogOrTableMsgProto) -> bool>(&mut self, keep: F)
        requires
            old(self).wf(),
            forall|i: int|
                0 <= i < old(self)@.len() ==> call_requires(keep, (&(#[trigger] old(self)@[i]).msg,)),
        ensures
            final(self).wf(),
            exists|kept: Seq<bool>|
                {
                    &&& kept.len() == old(self)@.len()
                    &&& forall|i: int|
                        0 <= i < kept.len() ==> call_ensures(
                            keep,
                            (&old(self)@[i].msg,),
                            #[trigger] kept[i],
                        )
                    &&& final(self)@ == #[trigger] select(old(self)@, kept)
                },
    {
        let n: usize = self.queue.len();
        let mut kept: Vec<bool> = Vec::new();
        for i in 0..n
            invariant
                n == self@.len(),
                self@ == old(self)@,
                self.wf(),
                kept@.len() == i,
                forall|j: int|
                    0 <= j < self@.len() ==> call_requires(keep, (&(#[trigger] self@[j]).msg,)),
                forall|j: int|
                    0 <= j < i ==> call_ensures(keep, (&self@[j].msg,), #[trigger] kept@[j]),
        {
            let msg: &SizedMsg = &self.queue[i];
            assert(self@[i as int] == *msg);
            let b: bool = keep(&msg.msg);
            kept.push(b);
        }
        self.retain_selected(&kept);
    }
}

/// What comes out of a queue next is what is at its front, and the rest stays as it is.
pub proof fn queue_is_emptied_from_the_front(queue: Seq<SizedMsg>, first: SizedMsg)
    ensures
        popped(seq![first] + queue) == (Some(first), queue),
        popped(Seq::empty()) == (None::<SizedMsg>, Seq::<SizedMsg>::empty()),
{
    assert((seq![first] + queue).drop_first() =~= queue);
}

/// What is selected keeps its order: each item that is kept comes behind those before it that are.
pub proof fn selection_keeps_the_order<T>(items: Seq<T>, kept: Seq<bool>, last: T, keep_last: bool)
    requires
        items.len() == kept.len(),
    ensures
        select(items.push(last), kept.push(keep_last)) == if keep_last {
            select(items, kept).push(last)
        } else {
            select(items, kept)
        },
        select(Seq::<T>::empty(), Seq::empty()) == Seq::<T>::empty(),
{
    assert(items.push(last).drop_last() =~= items);
    assert(kept.push(keep_last).drop_last() =~= kept);
}

} // verus!
