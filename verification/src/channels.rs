//! Messages that enter within the same process.

use futures::FutureExt;
use futures::future::lazy;
use re_log_encoding::ToTransport;
use re_log_encoding::rrd::Compression;
use re_log_types::LogMsg;
use re_protos::log_msg::v1alpha1::log_msg::Msg as TransportMsg;
use tokio::task::{LocalSet, unconstrained};
use vstd::prelude::*;

use crate::messages::{
    ArrowMsgProto, BlueprintActivationCommandProto, LogMsgProto, LogOrTableMsgProto, Msg,
    SetStoreInfoProto, StoreIdProto, StoreInfoProto, StoreSourceProto, TuidProto,
};
use crate::relay::{Relayed, decoded_activation, may_relay, store_of};

verus! {

/// What comes next from the sources in this process.
#[derive(Debug)]
pub enum IntakeEvent {
    /// A log message, or `None` for one that could not be encoded.
    LogMsg(Option<LogMsgProto>),
    /// A message of a kind that is not sent on.
    Unsupported,
    /// A source asks to be told once all that it has sent is through.
    Flush,
    /// A source has quit, and whether others are left.
    Quit { sources_left: bool },
    /// Nothing could be received, and whether sources are left.
    Disconnected { sources_left: bool },
}

/// What is done about it.
#[derive(Debug)]
pub enum IntakeStep {
    /// The message goes to the event loop.
    Forward(LogOrTableMsgProto),
    /// The message is left out, and said to be impossible to encode.
    ReportNotEncoded,
    /// The message is left out, and said to be of a kind that is not sent on.
    ReportUnsupported,
    /// The source is told at once, since nothing is held back.
    ConfirmFlush,
    /// Nothing.
    GoOn,
    /// Nothing ever comes again.
    Stop,
}

/// What is done about what comes next.
pub open spec fn intake(event: IntakeEvent) -> IntakeStep {
    match event {
        IntakeEvent::LogMsg(Some(log_msg)) => IntakeStep::Forward(
            LogOrTableMsgProto::LogMsg(log_msg),
        ),
        IntakeEvent::LogMsg(None) => IntakeStep::ReportNotEncoded,
        IntakeEvent::Unsupported => IntakeStep::ReportUnsupported,
        IntakeEvent::Flush => IntakeStep::ConfirmFlush,
        IntakeEvent::Quit { sources_left } => if sources_left {
            IntakeStep::GoOn
        } else {
            IntakeStep::Stop
        },
        IntakeEvent::Disconnected { sources_left } => if sources_left {
            IntakeStep::GoOn
        } else {
            IntakeStep::Stop
        },
    }
}

/// See [`intake`].
pub fn intake_step(event: IntakeEvent) -> (step: IntakeStep)
    ensures
        step == intake(event),
{
    match event {
        IntakeEvent::LogMsg(Some(log_msg)) => IntakeStep::Forward(
            LogOrTableMsgProto::from(log_msg),
        ),
        IntakeEvent::LogMsg(None) => IntakeStep::ReportNotEncoded,
        IntakeEvent::Unsupported => IntakeStep::ReportUnsupported,
        IntakeEvent::Flush => IntakeStep::ConfirmFlush,
        IntakeEvent::Quit { sources_left } => if sources_left {
            IntakeStep::GoOn
        } else {
            IntakeStep::Stop
        },
        IntakeEvent::Disconnected { sources_left } => if sources_left {
            IntakeStep::GoOn
        } else {
            IntakeStep::Stop
        },
    }
}

/// Whether encoding a log message for the wire may give `encoded`, in some run of some program, where
/// `None` means that the encoder fails. Of the bytes that a chunk is encoded to nothing is known.
pub uninterp spec fn may_encode_to(msg: LogMsg, encoded: Option<Msg>) -> bool;

/// The kinds of log messages.
#[derive(Clone, Copy, Debug, PartialEq, Eq, Structural)]
pub enum LogMsgKind {
    SetStoreInfo,
    ArrowMsg,
    BlueprintActivationCommand,
}

/// Which variant of `re_log_types::LogMsg` a message is.
pub uninterp spec fn log_msg_kind(msg: LogMsg) -> LogMsgKind;

/// Tells the variants of `re_log_types::LogMsg` apart.
///
/// Claimed: the kind is that of the message, see [`log_msg_kind`].
#[verifier::external_body]
fn kind_of(msg: &LogMsg) -> (kind: LogMsgKind)
    ensures
        kind == log_msg_kind(*msg),
{
    match msg {
        LogMsg::SetStoreInfo(_) => LogMsgKind::SetStoreInfo,
        LogMsg::ArrowMsg(..) => LogMsgKind::ArrowMsg,
        LogMsg::BlueprintActivationCommand(_) => LogMsgKind::BlueprintActivationCommand,
    }
}

/// Calls `re_log_encoding::ToTransport::to_transport` on an announcement.
///
/// Claimed: that succeeds, and the result is what the message is encoded to, with a row id, a store id
/// and a source.
#[verifier::external_body]
fn encode_set_store_info(msg: &LogMsg) -> (encoded: Option<SetStoreInfoProto>)
    requires
        log_msg_kind(*msg) == LogMsgKind::SetStoreInfo,
    ensures
        encoded is Some,
        encoded matches Some(set) ==> may_encode_to(*msg, Some(Msg::SetStoreInfo(set))),
        encoded matches Some(set) ==> set.row_id is Some && (set.info matches Some(info)
            && info.store_id is Some && info.store_source is Some),
{
    let Ok(TransportMsg::SetStoreInfo(set)) = msg.to_transport(Compression::LZ4) else { return None };
    let row_id = set.row_id.map(|id| TuidProto { time_ns: id.time_ns, inc: id.inc });
    let info = set.info.map(|info| StoreInfoProto {
        application_id: info.application_id.map(|id| id.id),
        store_id: info.store_id.map(|id| StoreIdProto {
            kind: id.kind,
            recording_id: id.recording_id,
            application_id: id.application_id.map(|id| id.id),
        }),
        store_source: info.store_source.map(|source| StoreSourceProto {
            kind: source.kind, extra: source.extra.map(|extra| extra.payload.into()),
        }),
        store_version: info.store_version.map(|version| version.crate_version_bits),
    });
    Some(SetStoreInfoProto { row_id, info })
}

/// Calls `re_log_encoding::ToTransport::to_transport` on an activation.
///
/// Claimed: that succeeds, and the result is what the message is encoded to. It names the blueprint and
/// its application, and is decoded to the same message again.
#[verifier::external_body]
fn encode_activation(msg: &LogMsg) -> (encoded: Option<BlueprintActivationCommandProto>)
    requires
        log_msg_kind(*msg) == LogMsgKind::BlueprintActivationCommand,
    ensures
        encoded is Some,
        encoded matches Some(cmd) ==> may_encode_to(
            *msg,
            Some(Msg::BlueprintActivationCommand(cmd)),
        ),
        encoded matches Some(cmd) ==> is_encoded_activation(*msg, cmd),
{
    let Ok(TransportMsg::BlueprintActivationCommand(cmd)) = msg.to_transport(Compression::LZ4) else {
        return None;
    };
    let blueprint_id = cmd.blueprint_id.map(|id| StoreIdProto {
        kind: id.kind,
        recording_id: id.recording_id,
        application_id: id.application_id.map(|id| id.id),
    });
    let (make_active, make_default) = (cmd.make_active, cmd.make_default);
    Some(BlueprintActivationCommandProto { blueprint_id, make_active, make_default })
}

/// Calls `re_log_encoding::ToTransport::to_transport` with LZ4 on a chunk, as the only task of a
/// `tokio::task::LocalSet`, so that a chunk on which the encoder panics counts as one that cannot be
/// encoded. `None` for any other message.
///
/// Claimed: the result is what the message is encoded to, it names its store, the application of that
/// and its chunk id, and says that it is compressed with LZ4 and encoded as arrow IPC. What the bytes
/// are is not said. There is none for a chunk only if the encoder may fail on it.
#[verifier::external_body]
fn encode_chunk(msg: LogMsg) -> (encoded: Option<ArrowMsgProto>)
    ensures
        encoded matches Some(arrow) ==> may_encode_to(msg, Some(Msg::ArrowMsg(arrow))),
        encoded is None && log_msg_kind(msg) == LogMsgKind::ArrowMsg ==> may_encode_to(msg, None),
        encoded matches Some(arrow) ==> is_encoded_chunk(arrow),
{
    let tasks = LocalSet::new();
    let task = tasks.spawn_local(lazy(move |_| msg.to_transport(Compression::LZ4).ok()));
    tasks.now_or_never();
    let Some(TransportMsg::ArrowMsg(arrow)) = unconstrained(task).now_or_never()?.ok()? else { return None };
    let store_id = arrow.store_id.map(|id| StoreIdProto {
        kind: id.kind,
        recording_id: id.recording_id,
        application_id: id.application_id.map(|id| id.id),
    });
    let chunk_id = arrow.chunk_id.map(|id| TuidProto { time_ns: id.time_ns, inc: id.inc });
    Some(ArrowMsgProto {
        store_id, chunk_id, compression: arrow.compression, uncompressed_size: arrow.uncompressed_size,
        encoding: arrow.encoding, payload: arrow.payload.into(), is_static: arrow.is_static,
    })
}

/// Whether `cmd` names a blueprint and its application, and is decoded to `msg`.
pub open spec fn is_encoded_activation(msg: LogMsg, cmd: BlueprintActivationCommandProto) -> bool {
    cmd.blueprint_id matches Some(id) && id.application_id matches Some(application_id) && msg
        == decoded_activation(store_of(id), application_id@, cmd.make_active, cmd.make_default)
}

/// What every chunk looks like that has been encoded here.
pub open spec fn is_encoded_chunk(arrow: ArrowMsgProto) -> bool {
    &&& arrow.store_id matches Some(id) && id.application_id is Some
    &&& arrow.chunk_id is Some
    &&& arrow.compression == 2
    &&& arrow.encoding == 1
}

/// Whether `step` may be done about a log message from a source in this process. It is forwarded as
/// it is encoded. Only a chunk may turn out to be impossible to encode, and only if the encoder may
/// fail on it.
pub open spec fn may_take_in(msg: LogMsg, step: IntakeStep) -> bool {
    match step {
        IntakeStep::Forward(LogOrTableMsgProto::LogMsg(log_msg)) => match log_msg.msg {
            Some(encoded) => may_encode_to(msg, Some(encoded)) && match encoded {
                Msg::SetStoreInfo(_) => log_msg_kind(msg) == LogMsgKind::SetStoreInfo,
                Msg::ArrowMsg(arrow) => log_msg_kind(msg) == LogMsgKind::ArrowMsg
                    && is_encoded_chunk(arrow),
                Msg::BlueprintActivationCommand(cmd) => log_msg_kind(msg)
                    == LogMsgKind::BlueprintActivationCommand && is_encoded_activation(msg, cmd),
            },
            None => false,
        },
        IntakeStep::ReportNotEncoded => log_msg_kind(msg) == LogMsgKind::ArrowMsg && may_encode_to(
            msg,
            None,
        ),
        _ => false,
    }
}

/// Encodes a log message from a source in this process, and says what is done about it.
pub fn take_in_log_msg(msg: LogMsg) -> (step: IntakeStep)
    ensures
        may_take_in(msg, step),
        exists|encoded: Option<LogMsgProto>| step == #[trigger] intake(IntakeEvent::LogMsg(encoded)),
{
    let encoded: Option<Msg> = match kind_of(&msg) {
        LogMsgKind::SetStoreInfo => match encode_set_store_info(&msg) {
            Some(set) => Some(Msg::SetStoreInfo(set)),
            None => None,
        },
        LogMsgKind::ArrowMsg => match encode_chunk(msg) {
            Some(arrow) => Some(Msg::ArrowMsg(arrow)),
            None => None,
        },
        LogMsgKind::BlueprintActivationCommand => match encode_activation(&msg) {
            Some(cmd) => Some(Msg::BlueprintActivationCommand(cmd)),
            None => None,
        },
    };
    let log_msg: Option<LogMsgProto> = match encoded {
        Some(msg) => Some(LogMsgProto { msg: Some(msg) }),
        None => None,
    };
    intake_step(IntakeEvent::LogMsg(log_msg))
}

/// An activation that is taken in and relayed within the same process comes out as it was, whatever
/// has been announced.
pub proof fn activation_comes_out_as_it_was(
    msg: LogMsg,
    cmd: BlueprintActivationCommandProto,
    known: Map<(Seq<char>, bool), Seq<char>>,
    step: Relayed,
)
    requires
        is_encoded_activation(msg, cmd),
        may_relay(known, LogMsgProto { msg: Some(Msg::BlueprintActivationCommand(cmd)) }, step),
    ensures
        step == Relayed::LogMsg(msg),
{
}

/// The messages that go to the event loop out of `events`, where it takes every one of them.
pub open spec fn forwarded(events: Seq<IntakeEvent>) -> Seq<LogOrTableMsgProto>
    decreases events.len(),
{
    if events.len() == 0 || intake(events[0]) is Stop {
        Seq::empty()
    } else {
        let later = forwarded(events.drop_first());
        match intake(events[0]) {
            IntakeStep::Forward(msg) => seq![msg] + later,
            _ => later,
        }
    }
}

/// Whether no source is left after `event`.
pub open spec fn is_last(event: IntakeEvent) -> bool {
    event == (IntakeEvent::Quit { sources_left: false }) || event == (IntakeEvent::Disconnected {
        sources_left: false,
    })
}

/// The log messages among `events` that could be encoded.
pub open spec fn encoded(events: Seq<IntakeEvent>) -> Seq<LogOrTableMsgProto> {
    events.filter_map(
        |event: IntakeEvent|
            match event {
                IntakeEvent::LogMsg(Some(log_msg)) => Some(LogOrTableMsgProto::LogMsg(log_msg)),
                _ => None,
            },
    )
}

/// While a source is left, every log message that could be encoded goes to the event loop, in order
/// and unchanged: messages that could not, those of other kinds, flushes and sources that quit
/// before the last one cost none.
pub proof fn every_encoded_message_is_forwarded(events: Seq<IntakeEvent>)
    requires
        forall|i: int| 0 <= i < events.len() ==> !is_last(#[trigger] events[i]),
    ensures
        forwarded(events) == encoded(events),
    decreases events.len(),
{
    if events.len() == 0 {
        assert(encoded(events) =~= Seq::empty());
    } else {
        let rest = events.drop_first();
        assert(!is_last(events[0]));
        assert forall|i: int| 0 <= i < rest.len() implies !is_last(#[trigger] rest[i]) by {
            assert(rest[i] == events[i + 1]);
        }
        every_encoded_message_is_forwarded(rest);
        encoded_begins_with_the_first(events);
    }
}

/// Nothing goes to the event loop after the last source is gone.
pub proof fn nothing_is_forwarded_after_the_last_source(
    before: Seq<IntakeEvent>,
    last: IntakeEvent,
    after: Seq<IntakeEvent>,
)
    requires
        is_last(last),
    ensures
        forwarded(before.push(last) + after) == forwarded(before),
    decreases before.len(),
{
    let events = before.push(last) + after;
    if before.len() == 0 {
        assert(events[0] == last);
    } else {
        assert(events[0] == before[0]);
        assert(events.drop_first() =~= before.drop_first().push(last) + after);
        nothing_is_forwarded_after_the_last_source(before.drop_first(), last, after);
    }
}

proof fn encoded_begins_with_the_first(events: Seq<IntakeEvent>)
    requires
        events.len() > 0,
    ensures
        encoded(events) == (match events[0] {
            IntakeEvent::LogMsg(Some(log_msg)) => seq![LogOrTableMsgProto::LogMsg(log_msg)]
                + encoded(events.drop_first()),
            _ => encoded(events.drop_first()),
        }),
    decreases events.len(),
{
    if events.len() == 1 {
        assert(events.drop_last() =~= Seq::empty());
        assert(events.drop_first() =~= Seq::empty());
        assert(encoded(events.drop_last()) =~= Seq::empty());
        assert(encoded(events.drop_first()) =~= Seq::empty());
    } else {
        encoded_begins_with_the_first(events.drop_last());
        assert(events.drop_last().drop_first() =~= events.drop_first().drop_last());
        assert(events.drop_first().last() == events.last());
    }
}

/// A message from a source in this process is forwarded as the encoder gives it. It is reported as
/// impossible to encode only if it is a chunk on which the encoder may fail; whether the chunk is static,
/// of a recording or of a blueprint, small or large, makes no difference. Nothing else is ever done.
pub proof fn messages_are_forwarded_if_they_encode(msg: LogMsg, step: IntakeStep)
    requires
        may_take_in(msg, step),
    ensures
        step is ReportNotEncoded ==> may_encode_to(msg, None) && log_msg_kind(msg)
            == LogMsgKind::ArrowMsg,
        !(step is ReportNotEncoded) ==> (step matches IntakeStep::Forward(
            LogOrTableMsgProto::LogMsg(log_msg),
        ) && log_msg.msg matches Some(encoded) && may_encode_to(msg, Some(encoded)) && match encoded {
            Msg::SetStoreInfo(_) => log_msg_kind(msg) == LogMsgKind::SetStoreInfo,
            Msg::ArrowMsg(_) => log_msg_kind(msg) == LogMsgKind::ArrowMsg,
            Msg::BlueprintActivationCommand(_) => log_msg_kind(msg)
                == LogMsgKind::BlueprintActivationCommand,
        }),
{
}

/// A chunk on which the encoder cannot fail is forwarded, and so is every announcement and every
/// activation.
pub proof fn what_encodes_is_forwarded(msg: LogMsg, step: IntakeStep)
    requires
        !may_encode_to(msg, None) || log_msg_kind(msg) != LogMsgKind::ArrowMsg,
        may_take_in(msg, step),
    ensures
        step is Forward,
{
}

/// A chunk that is forwarded names its store, the application of that and its chunk id, and says that it
/// is compressed with LZ4 and encoded as arrow IPC.
pub proof fn forwarded_chunks_say_how_they_are_encoded(msg: LogMsg, arrow: ArrowMsgProto)
    requires
        may_take_in(
            msg,
            IntakeStep::Forward(
                LogOrTableMsgProto::LogMsg(LogMsgProto { msg: Some(Msg::ArrowMsg(arrow)) }),
            ),
        ),
    ensures
        arrow.store_id matches Some(id) && id.application_id is Some,
        arrow.chunk_id is Some,
        arrow.compression == 2,
        arrow.encoding == 1,
{
}

/// An activation that is forwarded names its blueprint and the application of that, and is decoded to what
/// it was.
pub proof fn forwarded_activations_are_whole(msg: LogMsg, cmd: BlueprintActivationCommandProto)
    requires
        may_take_in(
            msg,
            IntakeStep::Forward(
                LogOrTableMsgProto::LogMsg(
                    LogMsgProto { msg: Some(Msg::BlueprintActivationCommand(cmd)) },
                ),
            ),
        ),
    ensures
        cmd.blueprint_id matches Some(id) && id.application_id matches Some(application_id) && msg
            == decoded_activation(
            (id.recording_id@, id.kind == 2),
            application_id@,
            cmd.make_active,
            cmd.make_default,
        ),
{
}

/// A message goes on exactly as it was encoded, one that could not be encoded or is of a kind that is not
/// sent on is reported as such, a flush is confirmed, and the end of a source, or of all that can be
/// received, is the end of everything exactly if no source is left.
pub proof fn every_event_has_its_step(log_msg: LogMsgProto, sources_left: bool)
    ensures
        intake(IntakeEvent::LogMsg(Some(log_msg))) == IntakeStep::Forward(
            LogOrTableMsgProto::LogMsg(log_msg),
        ),
        intake(IntakeEvent::LogMsg(None)) == IntakeStep::ReportNotEncoded,
        intake(IntakeEvent::Unsupported) == IntakeStep::ReportUnsupported,
        intake(IntakeEvent::Flush) == IntakeStep::ConfirmFlush,
        intake(IntakeEvent::Quit { sources_left }) == intake(
            IntakeEvent::Disconnected { sources_left },
        ),
        sources_left ==> intake(IntakeEvent::Quit { sources_left }) == IntakeStep::GoOn,
        !sources_left ==> intake(IntakeEvent::Quit { sources_left }) == IntakeStep::Stop,
{
}

} // verus!
