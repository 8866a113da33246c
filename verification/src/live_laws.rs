//! What holds of the live stream however far behind a viewer falls.

use vstd::prelude::*;

use crate::laws::history_after;
use crate::live::{
    CHANNEL_SIZE_MESSAGES, DropTotals, LIVE_MESSAGE_RESERVE, LIVE_SMALL_MESSAGE_FLOOR_BYTES,
    LiveBudgetComplaint, LiveDecision, LiveOccupancy, LiveReport, band_complaint, is_droppable, is_shed,
    live_decision, over_bytes, over_messages, temporal,
};
use crate::messages::{ArrowMsgProto, LogMsgProto, LogOrTableMsgProto, Msg, SizedMsg};
use crate::options::ServerOptions;
use crate::queue::{
    total_bytes, total_bytes_of_concatenation, total_bytes_of_filter, total_bytes_of_push,
};

verus! {

/// The scene skeleton, tables and commands are never dropped.
pub proof fn skeleton_is_never_dropped(
    budget: Option<u64>,
    msg: SizedMsg,
    occupancy: LiveOccupancy,
    regime: Option<DropTotals>,
)
    requires
        !temporal(msg.msg) || !(msg.msg is LogMsg),
    ensures
        !live_decision(budget, msg, occupancy, regime).0.drop,
{
}

/// Without a budget nothing is dropped.
pub proof fn nothing_is_dropped_without_a_budget(
    msg: SizedMsg,
    occupancy: LiveOccupancy,
    regime: Option<DropTotals>,
)
    ensures
        !live_decision(None, msg, occupancy, regime).0.drop,
{
}

/// An empty queue takes a message of any size under any budget.
pub proof fn empty_queue_takes_any_message(
    budget: Option<u64>,
    msg: SizedMsg,
    regime: Option<DropTotals>,
)
    ensures
        !live_decision(
            budget,
            msg,
            (LiveOccupancy { bytes: 0, messages: 0 }),
            regime,
        ).0.drop,
{
}

/// A budget is complained of exactly if there is no message that it drops for the bytes in the
/// queue.
pub proof fn complaint_means_that_the_budget_is_inert(budget: u64)
    ensures
        band_complaint(budget) is Some <==> (forall|size_bytes: u64, occupancy: LiveOccupancy|
            !over_bytes(budget, size_bytes, occupancy)),
{
    if band_complaint(budget) is None {
        let occupancy = LiveOccupancy { bytes: (budget + 1) as u64, messages: 0 };
        assert(over_bytes(budget, LIVE_SMALL_MESSAGE_FLOOR_BYTES, occupancy));
    }
}

/// A small message is dropped only where no slot is left for it, never for the bytes in the queue.
pub proof fn small_messages_only_need_a_slot(
    budget: Option<u64>,
    msg: SizedMsg,
    occupancy: LiveOccupancy,
)
    requires
        msg.size_bytes < LIVE_SMALL_MESSAGE_FLOOR_BYTES,
    ensures
        is_shed(budget, msg, occupancy) ==> over_messages(occupancy),
{
}

/// Under a budget, recording data that is sent leaves the reserved slots free.
pub proof fn reserved_slots_stay_free(budget: u64, msg: SizedMsg, occupancy: LiveOccupancy)
    requires
        is_droppable(msg.msg),
        !is_shed(Some(budget), msg, occupancy),
    ensures
        occupancy.messages + 1 <= CHANNEL_SIZE_MESSAGES - LIVE_MESSAGE_RESERVE,
{
}

/// What the queue holds, as a number of bytes and of messages.
pub open spec fn holds(queue: Seq<SizedMsg>, occupancy: LiveOccupancy) -> bool {
    occupancy.bytes == total_bytes(queue) && occupancy.messages == queue.len()
}

/// Whether a message is not exempt from the budget.
pub open spec fn is_large(m: SizedMsg) -> bool {
    m.size_bytes >= LIVE_SMALL_MESSAGE_FLOOR_BYTES
}

/// Whether recording data at `i` has a slot that is not reserved, and, if it is large, no more bytes
/// before it than the budget. Other messages need neither.
pub open spec fn has_room(budget: u64, queue: Seq<SizedMsg>, i: int) -> bool {
    is_droppable(queue[i].msg) ==> {
        &&& i < CHANNEL_SIZE_MESSAGES - LIVE_MESSAGE_RESERVE
        &&& is_large(queue[i]) ==> total_bytes(queue.take(i)) <= budget
    }
}

/// Whether all of a queue is within a budget.
pub open spec fn within_budget(budget: u64, queue: Seq<SizedMsg>) -> bool {
    forall|i: int| 0 <= i < queue.len() ==> #[trigger] has_room(budget, queue, i)
}

/// The live queue stays within the budget: sending any message that is not dropped keeps it so, and
/// so does receiving one. Budgets that are complained of are left out.
pub proof fn live_queue_stays_within_budget(
    budget: u64,
    queue: Seq<SizedMsg>,
    msg: SizedMsg,
    occupancy: LiveOccupancy,
)
    requires
        band_complaint(budget) is None,
        within_budget(budget, queue),
        holds(queue, occupancy),
    ensures
        !is_shed(Some(budget), msg, occupancy) ==> within_budget(budget, queue.push(msg)),
        queue.len() > 0 ==> within_budget(budget, queue.drop_first()),
{
    if !is_shed(Some(budget), msg, occupancy) {
        let after = queue.push(msg);
        assert forall|i: int| 0 <= i < after.len() implies #[trigger] has_room(budget, after, i) by {
            assert(after.take(i) =~= queue.take(i));
            if i < queue.len() {
                assert(has_room(budget, queue, i));
            } else {
                assert(queue.take(i) =~= queue);
            }
        }
    }
    if queue.len() > 0 {
        let after = queue.drop_first();
        let first = seq![queue[0]];
        assert forall|i: int| 0 <= i < after.len() implies #[trigger] has_room(budget, after, i) by {
            assert(queue.take(i + 1) =~= first + after.take(i));
            total_bytes_of_concatenation(first, after.take(i));
            assert(has_room(budget, queue, i + 1));
        }
    }
}

/// The recording data in a queue.
pub open spec fn recording_data(queue: Seq<SizedMsg>) -> Seq<SizedMsg> {
    queue.filter(|m: SizedMsg| is_droppable(m.msg))
}

/// How much recording data a queue within the budget holds at most: the budget, one more message,
/// and a small message in every slot that is not reserved.
pub proof fn budget_bounds_the_live_queue(budget: u64, queue: Seq<SizedMsg>, largest: u64)
    requires
        within_budget(budget, queue),
        forall|i: int|
            0 <= i < queue.len() && is_droppable(queue[i].msg) ==> (#[trigger] queue[i]).size_bytes
                <= largest,
    ensures
        total_bytes(recording_data(queue)) <= budget + largest + (CHANNEL_SIZE_MESSAGES
            - LIVE_MESSAGE_RESERVE) * LIVE_SMALL_MESSAGE_FLOOR_BYTES,
{
    recording_data_in_slots(budget, queue, largest);
}

/// The slots of a queue that recording data may be in.
spec fn open_slots(queue: Seq<SizedMsg>) -> int {
    if queue.len() <= CHANNEL_SIZE_MESSAGES - LIVE_MESSAGE_RESERVE {
        queue.len() as int
    } else {
        CHANNEL_SIZE_MESSAGES - LIVE_MESSAGE_RESERVE
    }
}

proof fn recording_data_in_slots(budget: u64, queue: Seq<SizedMsg>, largest: u64)
    requires
        within_budget(budget, queue),
        forall|i: int|
            0 <= i < queue.len() && is_droppable(queue[i].msg) ==> (#[trigger] queue[i]).size_bytes
                <= largest,
    ensures
        total_bytes(recording_data(queue)) <= budget + largest + open_slots(queue)
            * LIVE_SMALL_MESSAGE_FLOOR_BYTES,
    decreases queue.len(),
{
    reveal(Seq::filter);
    if queue.len() > 0 {
        let earlier = queue.drop_last();
        let last = queue.last();
        assert(earlier =~= queue.take(queue.len() - 1));
        assert forall|i: int| 0 <= i < earlier.len() implies #[trigger] has_room(budget, earlier, i) by {
            assert(earlier.take(i) =~= queue.take(i));
            assert(has_room(budget, queue, i));
        }
        assert forall|i: int| 0 <= i < earlier.len() && is_droppable(earlier[i].msg) implies (
        #[trigger] earlier[i]).size_bytes <= largest by {
            assert(earlier[i] == queue[i]);
        }
        recording_data_in_slots(budget, earlier, largest);
        total_bytes_of_push(recording_data(earlier), last);
        total_bytes_of_filter(earlier, |m: SizedMsg| is_droppable(m.msg));
        assert(has_room(budget, queue, queue.len() - 1));
        assert(queue[queue.len() - 1] == last);
    }
}

/// A message and what waited in the queue when it came.
pub struct Arrival {
    pub msg: SizedMsg,
    pub occupancy: LiveOccupancy,
}

/// What has been dropped since a viewer fell behind, once all of `arrivals` have come.
pub open spec fn regime_after(budget: Option<u64>, arrivals: Seq<Arrival>) -> Option<DropTotals>
    decreases arrivals.len(),
{
    if arrivals.len() == 0 {
        None
    } else {
        let a = arrivals.last();
        live_decision(
            budget,
            a.msg,
            a.occupancy,
            regime_after(budget, arrivals.drop_last()),
        ).1
    }
}

/// What was decided on the last of `arrivals`.
pub open spec fn decision_on_last(budget: Option<u64>, arrivals: Seq<Arrival>) -> LiveDecision {
    let a = arrivals.last();
    live_decision(budget, a.msg, a.occupancy, regime_after(budget, arrivals.drop_last())).0
}

/// How often viewers have begun to fall behind.
pub open spec fn began(budget: Option<u64>, arrivals: Seq<Arrival>) -> nat
    decreases arrivals.len(),
{
    if arrivals.len() == 0 {
        0
    } else {
        began(budget, arrivals.drop_last()) + if decision_on_last(
            budget,
            arrivals,
        ).report is DropsBegan {
            1nat
        } else {
            0
        }
    }
}

/// How often viewers have caught up.
pub open spec fn ended(budget: Option<u64>, arrivals: Seq<Arrival>) -> nat
    decreases arrivals.len(),
{
    if arrivals.len() == 0 {
        0
    } else {
        ended(budget, arrivals.drop_last()) + if decision_on_last(
            budget,
            arrivals,
        ).report is DropsEnded {
            1nat
        } else {
            0
        }
    }
}

/// Drops are loud once: between two loud reports there is always the report that they ended, and a
/// regime is open exactly where one more has begun than ended. No drop is silent.
pub proof fn drops_are_loud_once(budget: Option<u64>, arrivals: Seq<Arrival>)
    ensures
        began(budget, arrivals) == ended(budget, arrivals) + if regime_after(
            budget,
            arrivals,
        ) is Some {
            1nat
        } else {
            0
        },
        arrivals.len() > 0 ==> (decision_on_last(budget, arrivals).drop <==> decision_on_last(
            budget,
            arrivals,
        ).report is DropsBegan || decision_on_last(budget, arrivals).report is DropsContinue),
    decreases arrivals.len(),
{
    if arrivals.len() > 0 {
        drops_are_loud_once(budget, arrivals.drop_last());
    }
}

/// The messages that have come.
pub open spec fn received(arrivals: Seq<Arrival>) -> Seq<SizedMsg> {
    arrivals.map_values(|a: Arrival| a.msg)
}

/// Those of them that were sent to the clients, and are remembered.
pub open spec fn sent(budget: Option<u64>, arrivals: Seq<Arrival>) -> Seq<SizedMsg>
    decreases arrivals.len(),
{
    if arrivals.len() == 0 {
        Seq::empty()
    } else {
        let earlier = sent(budget, arrivals.drop_last());
        if decision_on_last(budget, arrivals).drop {
            earlier
        } else {
            earlier.push(arrivals.last().msg)
        }
    }
}

/// Those of them that were dropped.
pub open spec fn dropped(budget: Option<u64>, arrivals: Seq<Arrival>) -> Seq<SizedMsg>
    decreases arrivals.len(),
{
    if arrivals.len() == 0 {
        Seq::empty()
    } else {
        let earlier = dropped(budget, arrivals.drop_last());
        if decision_on_last(budget, arrivals).drop {
            earlier.push(arrivals.last().msg)
        } else {
            earlier
        }
    }
}

/// What is counted as dropped once all of `arrivals` have come.
pub open spec fn dropped_bytes(budget: Option<u64>, arrivals: Seq<Arrival>) -> u64
    decreases arrivals.len(),
{
    if arrivals.len() == 0 {
        0
    } else {
        let earlier = dropped_bytes(budget, arrivals.drop_last());
        if decision_on_last(budget, arrivals).drop {
            earlier.saturating_add(arrivals.last().msg.size_bytes)
        } else {
            earlier
        }
    }
}

/// Every message is either sent or dropped, and all dropped bytes are counted, as far as a counter
/// reaches.
pub proof fn no_drop_goes_uncounted(budget: Option<u64>, arrivals: Seq<Arrival>)
    ensures
        sent(budget, arrivals).len() + dropped(budget, arrivals).len() == arrivals.len(),
        dropped_bytes(budget, arrivals) == crate::size::capped(
            total_bytes(dropped(budget, arrivals)),
        ),
    decreases arrivals.len(),
{
    if arrivals.len() > 0 {
        no_drop_goes_uncounted(budget, arrivals.drop_last());
        total_bytes_of_push(dropped(budget, arrivals.drop_last()), arrivals.last().msg);
    }
}

/// Without a budget every message is sent, in the order in which it came.
pub proof fn everything_is_sent_without_a_budget(arrivals: Seq<Arrival>)
    ensures
        sent(None, arrivals) == received(arrivals),
    decreases arrivals.len(),
{
    if arrivals.len() > 0 {
        everything_is_sent_without_a_budget(arrivals.drop_last());
        assert(received(arrivals) =~= received(arrivals.drop_last()).push(arrivals.last().msg));
    }
}

/// However busy the live stream is, it costs no client its scene: all messages other than recording
/// data on a timeline are sent, in the order in which they came.
pub proof fn busy_stream_costs_no_scene(budget: Option<u64>, arrivals: Seq<Arrival>)
    ensures
        sent(budget, arrivals).filter(|m: SizedMsg| !is_droppable(m.msg)) == received(
            arrivals,
        ).filter(|m: SizedMsg| !is_droppable(m.msg)),
    decreases arrivals.len(),
{
    reveal(Seq::filter);
    if arrivals.len() > 0 {
        let earlier = arrivals.drop_last();
        let m = arrivals.last().msg;
        busy_stream_costs_no_scene(budget, earlier);
        assert(received(arrivals).drop_last() =~= received(earlier));
        assert(sent(budget, earlier).push(m).drop_last() =~= sent(budget, earlier));
    }
}

/// Where only the scene skeleton is remembered, a budget changes nothing for the clients that have
/// yet to connect: what it drops would not have been remembered.
pub proof fn budget_does_not_thin_a_skeleton_history(
    options: ServerOptions,
    budget: Option<u64>,
    arrivals: Seq<Arrival>,
)
    requires
        options.drop_temporal_history,
    ensures
        history_after(options, sent(budget, arrivals)) == history_after(options, received(arrivals)),
    decreases arrivals.len(),
{
    if arrivals.len() > 0 {
        let earlier = arrivals.drop_last();
        let m = arrivals.last().msg;
        budget_does_not_thin_a_skeleton_history(options, budget, earlier);
        assert(received(arrivals).drop_last() =~= received(earlier));
        assert(sent(budget, earlier).push(m).drop_last() =~= sent(budget, earlier));
    }
}

/// Nothing is dropped while the live queue holds no more bytes than the budget and has a slot that is not
/// reserved (64 of the 1024 are), whatever the message.
pub proof fn nothing_is_dropped_within_the_budget(
    budget: Option<u64>,
    msg: SizedMsg,
    occupancy: LiveOccupancy,
    regime: Option<DropTotals>,
)
    requires
        budget matches Some(n) ==> occupancy.bytes <= n,
        occupancy.messages < 960,
    ensures
        !is_shed(budget, msg, occupancy),
        !live_decision(budget, msg, occupancy, regime).0.drop,
{
}

/// Recording data on a timeline is dropped where only reserved slots are left, under any budget and at
/// any size; and where the queue holds more bytes than a usable budget, unless it is below 8 KiB.
pub proof fn recording_data_is_dropped_over_the_budget(
    budget: u64,
    msg: SizedMsg,
    arrow: ArrowMsgProto,
    occupancy: LiveOccupancy,
    regime: Option<DropTotals>,
)
    requires
        msg.msg == LogOrTableMsgProto::LogMsg(LogMsgProto { msg: Some(Msg::ArrowMsg(arrow)) }),
        arrow.is_static != Some(true),
        !(arrow.store_id matches Some(id) && id.kind == 2),
        occupancy.messages >= 960 || (8192 < budget < 134217728 && budget < occupancy.bytes
            && msg.size_bytes >= 8192),
    ensures
        is_shed(Some(budget), msg, occupancy),
        live_decision(Some(budget), msg, occupancy, regime).0.drop,
{
}

/// While a slot is left that is not reserved, messages below 8 KiB are not dropped, and neither is anything
/// under a budget that is no more than 8 KiB or no less than the 128 MiB that the queue holds at most.
pub proof fn small_messages_and_unusable_budgets_drop_nothing(
    budget: u64,
    msg: SizedMsg,
    occupancy: LiveOccupancy,
    regime: Option<DropTotals>,
)
    requires
        occupancy.messages < 960,
        msg.size_bytes < 8192 || budget <= 8192 || budget >= 134217728,
    ensures
        !is_shed(Some(budget), msg, occupancy),
        !live_decision(Some(budget), msg, occupancy, regime).0.drop,
{
}

/// Only chunks of a recording on a timeline are ever dropped, however full the queue is: no announcement,
/// no activation, no static chunk, nothing of a blueprint, no table, no command, and no message
/// without a payload.
pub proof fn only_recording_data_is_dropped(
    budget: Option<u64>,
    msg: SizedMsg,
    occupancy: LiveOccupancy,
    regime: Option<DropTotals>,
)
    ensures
        live_decision(budget, msg, occupancy, regime).0.drop ==> budget is Some && (
        msg.msg matches LogOrTableMsgProto::LogMsg(log_msg) && log_msg.msg matches Some(
            Msg::ArrowMsg(arrow),
        ) && arrow.is_static != Some(true) && !(arrow.store_id matches Some(id) && id.kind == 2)),
        live_decision(budget, msg, occupancy, regime).0.drop <==> is_shed(budget, msg, occupancy),
{
}

/// A queue that holds more never drops less, and neither does a smaller budget among the usable ones.
pub proof fn fuller_queue_drops_no_less(
    budget: u64,
    smaller: u64,
    msg: SizedMsg,
    occupancy: LiveOccupancy,
    fuller: LiveOccupancy,
)
    requires
        8192 < smaller <= budget,
        occupancy.bytes <= fuller.bytes,
        occupancy.messages <= fuller.messages,
    ensures
        is_shed(Some(budget), msg, occupancy) ==> is_shed(Some(smaller), msg, fuller),
{
}

/// A budget is complained of exactly if it is no more than 8 KiB, which is below, or no less than 128 MiB,
/// which is above.
pub proof fn budgets_are_usable_within_the_band(budget: u64)
    ensures
        band_complaint(budget) == Some(LiveBudgetComplaint::NotAboveFloor) <==> budget <= 8192,
        band_complaint(budget) == Some(LiveBudgetComplaint::NotBelowChannelSize) <==> budget
            >= 134217728,
        band_complaint(budget) is None <==> 8192 < budget < 134217728,
{
}

/// What is said of a message, and what has been dropped since a viewer fell behind. The first drop says
/// which bounds were exceeded and starts the count, each later one adds one message and its bytes, and
/// the first recording data that gets through ends the count and says what it came to. Other messages
/// that get through change nothing, and say nothing.
pub proof fn drops_are_reported_and_counted(
    budget: Option<u64>,
    msg: SizedMsg,
    occupancy: LiveOccupancy,
    regime: Option<DropTotals>,
)
    ensures
        ({
            let (decision, after) = live_decision(budget, msg, occupancy, regime);
            let on_timeline = msg.msg matches LogOrTableMsgProto::LogMsg(log_msg)
                && log_msg.msg matches Some(Msg::ArrowMsg(arrow)) && arrow.is_static != Some(true)
                && !(arrow.store_id matches Some(id) && id.kind == 2);
            match (decision.drop, regime) {
                (true, None) => {
                    &&& after == Some(DropTotals { messages: 1, bytes: msg.size_bytes })
                    &&& budget matches Some(n) && decision.report == (LiveReport::DropsBegan {
                        budget: n,
                        over_bytes: 8192 < n < 134217728 && msg.size_bytes >= 8192 && n
                            < occupancy.bytes,
                        over_messages: occupancy.messages >= 960,
                    })
                },
                (true, Some(before)) => {
                    &&& after matches Some(totals) && decision.report == LiveReport::DropsContinue(
                        totals,
                    )
                    &&& after->0.messages == if before.messages < u64::MAX {
                        before.messages + 1
                    } else {
                        u64::MAX as int
                    }
                    &&& after->0.bytes == if before.bytes + msg.size_bytes <= u64::MAX {
                        before.bytes + msg.size_bytes
                    } else {
                        u64::MAX as int
                    }
                },
                (false, Some(before)) => if on_timeline {
                    decision.report == LiveReport::DropsEnded(before) && after is None
                } else {
                    decision.report == LiveReport::Silent && after == regime
                },
                (false, None) => decision.report == LiveReport::Silent && after is None,
            }
        }),
{
}

} // verus!
