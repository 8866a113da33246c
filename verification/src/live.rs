//! What is dropped from the live stream when a viewer cannot keep up.

use vstd::prelude::*;

use crate::history::{in_blueprint, is_blueprint};
use crate::messages::{LogOrTableMsgProto, Msg, SizedMsg};

verus! {

/// The most messages that the live queue holds.
pub const CHANNEL_SIZE_MESSAGES: usize = 1024;

/// The most bytes that the live queue holds, besides a single larger message: 128 MiB. Enough for a
/// quick burst of messages, also where the server keeps no history.
pub const CHANNEL_SIZE_BYTES: u64 = 134217728;

/// The slots of the live queue that recording data leaves free, so that sending never waits for one
/// and the scene skeleton always finds one.
pub const LIVE_MESSAGE_RESERVE: usize = 64;

/// Messages below this size, 8 KiB, are not dropped for the bytes that the live queue holds: they
/// save a viewer next to nothing, and may never come again.
pub const LIVE_SMALL_MESSAGE_FLOOR_BYTES: u64 = 8192;

/// Whether `msg` is not part of the scene skeleton that every viewer needs.
pub open spec fn temporal(msg: LogOrTableMsgProto) -> bool {
    match msg {
        LogOrTableMsgProto::LogMsg(log_msg) => match log_msg.msg {
            Some(Msg::ArrowMsg(arrow)) => !is_blueprint(arrow.store_id) && arrow.is_static != Some(
                true,
            ),
            _ => false,
        },
        _ => true,
    }
}

/// Whether a message is temporal, as opposed to part of the scene skeleton that every viewer needs.
///
/// Store infos, blueprint data, activations and static chunks are the skeleton. So is a log message
/// without a payload, so that nothing here keeps it from being reported. All other recording data
/// is temporal, and so are tables and commands.
pub fn is_temporal(msg: &LogOrTableMsgProto) -> (b: bool)
    ensures
        b == temporal(*msg),
{
    match msg {
        LogOrTableMsgProto::LogMsg(log_msg) => match &log_msg.msg {
            Some(Msg::ArrowMsg(arrow)) => !in_blueprint(arrow) && arrow.is_static != Some(true),
            _ => false,
        },
        _ => true,
    }
}

/// Whether `msg` may be dropped from the live stream at all: chunks of a recording on a timeline.
///
/// Tables and commands are not worth replaying, but each is sent once and somebody waits for it.
pub open spec fn is_droppable(msg: LogOrTableMsgProto) -> bool {
    msg is LogMsg && temporal(msg)
}

/// What the live queue holds at some moment.
#[derive(Clone, Copy, Debug, PartialEq, Eq, Structural)]
pub struct LiveOccupancy {
    pub bytes: u64,
    pub messages: usize,
}

/// Why a budget cannot do what it is there for.
#[derive(Clone, Copy, Debug, PartialEq, Eq, Structural)]
pub enum LiveBudgetComplaint {
    /// It is not above the size below which messages are exempt.
    NotAboveFloor,
    /// The queue is full before the budget is used up.
    NotBelowChannelSize,
}

/// The end of the usable band that `budget` has crossed.
pub open spec fn band_complaint(budget: u64) -> Option<LiveBudgetComplaint> {
    if budget <= LIVE_SMALL_MESSAGE_FLOOR_BYTES {
        Some(LiveBudgetComplaint::NotAboveFloor)
    } else if budget >= CHANNEL_SIZE_BYTES {
        Some(LiveBudgetComplaint::NotBelowChannelSize)
    } else {
        None
    }
}

/// The end of the usable band that the configured budget has crossed. Such a budget is accepted; it
/// never drops anything for its bytes.
pub fn live_budget_band_complaint(budget: Option<u64>) -> (complaint: Option<LiveBudgetComplaint>)
    ensures
        complaint == (match budget {
            Some(n) => band_complaint(n),
            None => None,
        }),
{
    match budget {
        Some(n) => if n <= LIVE_SMALL_MESSAGE_FLOOR_BYTES {
            Some(LiveBudgetComplaint::NotAboveFloor)
        } else if n >= CHANNEL_SIZE_BYTES {
            Some(LiveBudgetComplaint::NotBelowChannelSize)
        } else {
            None
        },
        None => None,
    }
}

/// Whether the bytes in the queue are reason to drop a droppable message of `size_bytes`.
pub open spec fn over_bytes(budget: u64, size_bytes: u64, occupancy: LiveOccupancy) -> bool {
    &&& band_complaint(budget) is None
    &&& size_bytes >= LIVE_SMALL_MESSAGE_FLOOR_BYTES
    &&& budget < occupancy.bytes
}

/// Whether only the reserved slots are left in the queue.
pub open spec fn over_messages(occupancy: LiveOccupancy) -> bool {
    occupancy.messages + LIVE_MESSAGE_RESERVE >= CHANNEL_SIZE_MESSAGES
}

/// Whether `msg` is dropped from the live stream.
pub open spec fn is_shed(budget: Option<u64>, msg: SizedMsg, occupancy: LiveOccupancy) -> bool {
    &&& budget matches Some(n)
    &&& is_droppable(msg.msg)
    &&& over_bytes(n, msg.size_bytes, occupancy) || over_messages(occupancy)
}

fn is_over_bytes(budget: u64, size_bytes: u64, occupancy: LiveOccupancy) -> (b: bool)
    ensures
        b == over_bytes(budget, size_bytes, occupancy),
{
    live_budget_band_complaint(Some(budget)).is_none() && size_bytes
        >= LIVE_SMALL_MESSAGE_FLOOR_BYTES && budget < occupancy.bytes
}

fn is_over_messages(occupancy: LiveOccupancy) -> (b: bool)
    ensures
        b == over_messages(occupancy),
{
    occupancy.messages >= CHANNEL_SIZE_MESSAGES - LIVE_MESSAGE_RESERVE
}

fn may_be_dropped(msg: &LogOrTableMsgProto) -> (b: bool)
    ensures
        b == is_droppable(*msg),
{
    match msg {
        LogOrTableMsgProto::LogMsg(_) => is_temporal(msg),
        _ => false,
    }
}

/// Whether `msg` is dropped from the live stream, where `occupancy` is what the queue holds.
///
/// Never without a budget, and never if it is part of the scene skeleton, a table or a command. Other
/// recording data is dropped where only the reserved slots are left, and, unless it is small, where
/// the queue holds more bytes than the budget. What counts is what the queue holds already, so that
/// an empty queue takes a message of any size.
pub fn should_drop_live(budget: Option<u64>, msg: &SizedMsg, occupancy: LiveOccupancy) -> (b: bool)
    ensures
        b == is_shed(budget, *msg, occupancy),
{
    match budget {
        Some(n) => may_be_dropped(&msg.msg) && (is_over_bytes(n, msg.size_bytes, occupancy)
            || is_over_messages(occupancy)),
        None => false,
    }
}

/// What has been dropped since a viewer fell behind.
#[derive(Clone, Copy, Debug, PartialEq, Eq, Structural)]
pub struct DropTotals {
    pub messages: u64,
    pub bytes: u64,
}

/// What is to be said of a message.
#[derive(Clone, Copy, Debug, PartialEq, Eq, Structural)]
pub enum LiveReport {
    /// Nothing.
    Silent,
    /// Loudly: the first message has been dropped, and why.
    DropsBegan { budget: u64, over_bytes: bool, over_messages: bool },
    /// Quietly: another message has been dropped, which makes so many.
    DropsContinue(DropTotals),
    /// The first message got through again. This is what it has cost.
    DropsEnded(DropTotals),
}

/// What happens to a message in the live stream.
#[derive(Clone, Copy, Debug, PartialEq, Eq, Structural)]
pub struct LiveDecision {
    /// Whether it is dropped, in place of being sent.
    pub drop: bool,
    pub report: LiveReport,
}

/// `totals` and one more message of `size_bytes`.
pub open spec fn one_more(totals: Option<DropTotals>, size_bytes: u64) -> DropTotals {
    match totals {
        Some(t) => DropTotals {
            messages: t.messages.saturating_add(1),
            bytes: t.bytes.saturating_add(size_bytes),
        },
        None => DropTotals { messages: 1, bytes: size_bytes },
    }
}

/// What happens to `msg`, and what has been dropped since a viewer fell behind, where `regime` is
/// what had been before. `None` means that no viewer is behind.
pub open spec fn live_decision(
    budget: Option<u64>,
    msg: SizedMsg,
    occupancy: LiveOccupancy,
    regime: Option<DropTotals>,
) -> (LiveDecision, Option<DropTotals>) {
    match budget {
        Some(n) if is_shed(budget, msg, occupancy) => {
            let totals = one_more(regime, msg.size_bytes);
            let report = if regime is None {
                LiveReport::DropsBegan {
                    budget: n,
                    over_bytes: over_bytes(n, msg.size_bytes, occupancy),
                    over_messages: over_messages(occupancy),
                }
            } else {
                LiveReport::DropsContinue(totals)
            };
            (LiveDecision { drop: true, report }, Some(totals))
        },
        _ => match regime {
            Some(totals) if is_droppable(msg.msg) => (
                LiveDecision { drop: false, report: LiveReport::DropsEnded(totals) },
                None,
            ),
            _ => (LiveDecision { drop: false, report: LiveReport::Silent }, regime),
        },
    }
}

/// Decides whether a message is sent or dropped, and what is said of it. The first drop is loud,
/// those after it are quiet, and the first message that could have been dropped and was not ends it.
pub fn decide_live(
    budget: Option<u64>,
    msg: &SizedMsg,
    occupancy: LiveOccupancy,
    regime: Option<DropTotals>,
) -> (decision: (LiveDecision, Option<DropTotals>))
    ensures
        decision == live_decision(budget, *msg, occupancy, regime),
{
    if let Some(n) = budget {
        if should_drop_live(budget, msg, occupancy) {
            return match regime {
                Some(t) => {
                    let totals = DropTotals {
                        messages: t.messages.saturating_add(1),
                        bytes: t.bytes.saturating_add(msg.size_bytes),
                    };
                    (
                        LiveDecision { drop: true, report: LiveReport::DropsContinue(totals) },
                        Some(totals),
                    )
                },
                None => {
                    let report = LiveReport::DropsBegan {
                        budget: n,
                        over_bytes: is_over_bytes(n, msg.size_bytes, occupancy),
                        over_messages: is_over_messages(occupancy),
                    };
                    (
                        LiveDecision { drop: true, report },
                        Some(DropTotals { messages: 1, bytes: msg.size_bytes }),
                    )
                },
            };
        }
    }
    match regime {
        Some(totals) => if may_be_dropped(&msg.msg) {
            (LiveDecision { drop: false, report: LiveReport::DropsEnded(totals) }, None)
        } else {
            (LiveDecision { drop: false, report: LiveReport::Silent }, regime)
        },
        None => (LiveDecision { drop: false, report: LiveReport::Silent }, regime),
    }
}

} // verus!
