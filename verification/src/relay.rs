//! What the viewer in the same process is handed out of the live queue.

use std::cell::RefCell;
use std::mem::take;
use std::rc::Rc;

use futures::FutureExt;
use futures::future::lazy;
use re_log_encoding::{CachingApplicationIdInjector, ToApplication};
use re_log_types::{LogMsg, TableMsg};
use re_protos::common::v1alpha1::{ApplicationId, DataframePart, StoreId, Tuid};
use re_protos::log_msg::v1alpha1::log_msg::Msg as TransportMsg;
use re_protos::log_msg::v1alpha1::{
    ArrowMsg, BlueprintActivationCommand, SetStoreInfo, StoreInfo, StoreSource, StoreSourceExtra,
    StoreVersion,
};
use tokio::task::{LocalSet, unconstrained};
use vstd::prelude::*;

use crate::messages::{
    ArrowMsgProto, BlueprintActivationCommandProto, LogMsgProto, LogOrTableMsgProto, Msg,
    SetStoreInfoProto, StoreIdProto, StoreKindProto, TableMsgProto, store_kind,
};

verus! {

/// A log message as viewers read it. Nothing here looks inside one.
#[verifier::external_type_specification]
#[verifier::external_body]
pub struct ExLogMsg(re_log_types::LogMsg);

/// A table as viewers read it. Nothing here looks inside one.
#[verifier::external_type_specification]
#[verifier::external_body]
pub struct ExTableMsg(re_log_types::TableMsg);

/// The applications of the stores that have been announced. See [`known_applications`].
#[verifier::external_type_specification]
#[verifier::external_body]
pub struct ExCachingApplicationIdInjector(re_log_encoding::CachingApplicationIdInjector);

/// What a cache holds: for each store, by its recording id and whether it is a blueprint, the id of
/// its application.
pub uninterp spec fn known_applications(cache: CachingApplicationIdInjector) -> Map<
    (Seq<char>, bool),
    Seq<char>,
>;

/// Whether a store source can be decoded: some kinds need more, encoded in `extra`.
pub uninterp spec fn store_source_decodes(kind: i32, extra: Option<Seq<u8>>) -> bool;

/// What an announcement is decoded to.
pub uninterp spec fn decoded_announcement(
    row_id: (u64, u64),
    store: (Seq<char>, bool),
    application_id: Seq<char>,
    source_kind: i32,
    source_extra: Option<Seq<u8>>,
    version: Option<i32>,
) -> LogMsg;

/// What an activation is decoded to.
pub uninterp spec fn decoded_activation(
    store: (Seq<char>, bool),
    application_id: Seq<char>,
    make_active: bool,
    make_default: bool,
) -> LogMsg;

/// Whether decoding a chunk may give `decoded`, in some run of some program, where `None` means that
/// the decoder fails. One chunk may give several: where its metadata holds an entry twice, in an old
/// and in a new spelling, the decoder keeps whichever it walks last, and some checks are made in debug
/// builds only.
pub uninterp spec fn chunk_may_decode_to(
    store: (Seq<char>, bool),
    application_id: Seq<char>,
    compression: i32,
    uncompressed_size: u64,
    encoding: i32,
    payload: Seq<u8>,
    decoded: Option<LogMsg>,
) -> bool;

/// What a table is decoded to, if it can be, and whether decoding it may fail, in some run of some
/// program: of a malformed payload, that may depend on the build and the machine.
pub uninterp spec fn decoded_table(
    id: Seq<char>,
    encoder_version: i32,
    payload: Option<Seq<u8>>,
    compression: i32,
    uncompressed_size: u64,
) -> (TableMsg, bool);

/// Bytes that may be absent.
pub open spec fn bytes_view(bytes: Option<Vec<u8>>) -> Option<Seq<u8>> {
    match bytes {
        Some(bytes) => Some(bytes@),
        None => None,
    }
}

/// The store that an id names. A store of an unspecified kind is a recording.
pub open spec fn store_of(id: StoreIdProto) -> (Seq<char>, bool) {
    (id.recording_id@, store_kind(id.kind) == StoreKindProto::Blueprint)
}

/// The application of a store, if it is known: from its id, or because it was announced.
pub open spec fn application_of(
    known: Map<(Seq<char>, bool), Seq<char>>,
    id: Option<StoreIdProto>,
) -> Option<Seq<char>> {
    match id {
        Some(id) => match id.application_id {
            Some(application_id) => Some(application_id@),
            None => if known.contains_key(store_of(id)) {
                Some(known[store_of(id)])
            } else {
                None
            },
        },
        None => None,
    }
}

/// What an announcement says.
pub struct Announcement {
    pub row_id: (u64, u64),
    pub store: (Seq<char>, bool),
    pub application_id: Seq<char>,
    pub source_kind: i32,
    pub source_extra: Option<Seq<u8>>,
    pub version: Option<i32>,
}

/// What is announced. `None` if the announcement cannot be decoded: it needs a whole row id, a store
/// id, an application in that or beside it, and a source.
pub open spec fn announced(set: SetStoreInfoProto) -> Option<Announcement> {
    match (set.row_id, set.info) {
        (Some(row_id), Some(info)) => match (
            row_id.time_ns,
            row_id.inc,
            info.store_id,
            info.store_source,
        ) {
            (Some(time_ns), Some(inc), Some(id), Some(source)) => {
                let application_id = match id.application_id {
                    Some(application_id) => Some(application_id),
                    None => info.application_id,
                };
                match application_id {
                    Some(application_id) if store_source_decodes(
                        source.kind,
                        bytes_view(source.extra),
                    ) => Some(
                        Announcement {
                            row_id: (time_ns, inc),
                            store: store_of(id),
                            application_id: application_id@,
                            source_kind: source.kind,
                            source_extra: bytes_view(source.extra),
                            version: info.store_version,
                        },
                    ),
                    _ => None,
                }
            },
            _ => None,
        },
        _ => None,
    }
}

/// Calls `re_log_encoding::ToApplication::to_application` on the transport message with these fields.
///
/// Claimed: exactly the announcements of which [`announced`] says so are decoded, and the cache then
/// knows the application of the store; nothing else in it changes. What comes out depends on what is
/// announced alone, and has the name [`decoded_announcement`]. Which sources can be decoded has the
/// name [`store_source_decodes`].
#[verifier::external_body]
fn decode_set_store_info(cache: &mut CachingApplicationIdInjector, set: &SetStoreInfoProto) -> (decoded:
    Option<LogMsg>)
    ensures
        decoded is Some <==> announced(*set) is Some,
        decoded is Some ==> (set.info matches Some(info) && info.store_source matches Some(source)
            && store_source_decodes(source.kind, bytes_view(source.extra))),
        announced(*set) matches Some(a) ==> decoded == Some(
            decoded_announcement(
                a.row_id,
                a.store,
                a.application_id,
                a.source_kind,
                a.source_extra,
                a.version,
            ),
        ),
        known_applications(*final(cache)) == applications_after_info(
            known_applications(*old(cache)),
            *set,
        ),
{
    let info = set.info.clone().map(|info| StoreInfo {
        application_id: info.application_id.map(|id| ApplicationId { id }),
        store_id: info.store_id.map(|id| StoreId {
            kind: id.kind,
            recording_id: id.recording_id,
            application_id: id.application_id.map(|id| ApplicationId { id }),
        }),
        store_source: info.store_source.map(|source| StoreSource {
            kind: source.kind,
            extra: source.extra.map(|bytes| StoreSourceExtra { payload: bytes.into() }),
        }),
        store_version: info.store_version.map(|bits| StoreVersion { crate_version_bits: bits }),
    });
    let row_id = set.row_id.map(|id| Tuid { time_ns: id.time_ns, inc: id.inc });
    TransportMsg::SetStoreInfo(SetStoreInfo { row_id, info }).to_application((cache, None)).ok()
}

/// Calls `re_log_encoding::ToApplication::to_application` on the transport message of the store `id`
/// with these fields, as the only task of a `tokio::task::LocalSet`, so that a payload on which the
/// arrow reader panics counts as one that cannot be decoded. The cache is lent to the task and taken
/// back.
///
/// Claimed: a chunk is decoded only if the application of its store is known. What comes out then,
/// failure included, is something that decoding these fields may give. The cache stays as it is. Whether
/// the payload can be decoded, and what to, is not said, see [`chunk_may_decode_to`].
#[verifier::external_body]
fn decode_chunk(
    cache: &mut CachingApplicationIdInjector,
    id: &StoreIdProto,
    arrow: &ArrowMsgProto,
) -> (decoded: Option<LogMsg>)
    ensures
        match application_of(known_applications(*old(cache)), Some(*id)) {
            Some(application_id) => chunk_may_decode_to(
                store_of(*id),
                application_id,
                arrow.compression,
                arrow.uncompressed_size,
                arrow.encoding,
                arrow.payload@,
                decoded,
            ),
            None => decoded is None,
        },
        known_applications(*final(cache)) == known_applications(*old(cache)),
{
    let application_id = id.application_id.clone().map(|id| ApplicationId { id });
    let msg = TransportMsg::ArrowMsg(ArrowMsg {
        store_id: Some(StoreId { kind: id.kind, recording_id: id.recording_id.clone(), application_id }),
        compression: arrow.compression,
        uncompressed_size: arrow.uncompressed_size,
        encoding: arrow.encoding,
        payload: arrow.payload.clone().into(), ..Default::default()
    });
    let lent = Rc::new(RefCell::new(take(cache)));
    let held = lent.clone();
    let tasks = LocalSet::new();
    let task = tasks.spawn_local(lazy(move |_| msg.to_application((&mut *held.borrow_mut(), None)).ok()));
    tasks.now_or_never();
    *cache = lent.take();
    unconstrained(task).now_or_never()?.ok()?
}

/// Calls `re_log_encoding::ToApplication::to_application` on the transport message with these fields.
///
/// Claimed: an activation is decoded exactly if the application of its blueprint is known. What comes
/// out depends on the store, the application and the two flags alone, and has the name
/// [`decoded_activation`]. The cache stays as it is.
#[verifier::external_body]
fn decode_activation(
    cache: &mut CachingApplicationIdInjector,
    cmd: &BlueprintActivationCommandProto,
) -> (decoded: Option<LogMsg>)
    ensures
        decoded is Some <==> application_of(
            known_applications(*old(cache)),
            cmd.blueprint_id,
        ) is Some,
        (cmd.blueprint_id matches Some(id) && application_of(
            known_applications(*old(cache)),
            Some(id),
        ) matches Some(application_id)) ==> decoded == Some(
            decoded_activation(
                store_of(cmd.blueprint_id->0),
                application_of(known_applications(*old(cache)), cmd.blueprint_id)->0,
                cmd.make_active,
                cmd.make_default,
            ),
        ),
        known_applications(*final(cache)) == known_applications(*old(cache)),
{
    let blueprint_id = cmd.blueprint_id.clone().map(|id| StoreId {
        kind: id.kind,
        recording_id: id.recording_id,
        application_id: id.application_id.map(|id| ApplicationId { id }),
    });
    let msg = TransportMsg::BlueprintActivationCommand(BlueprintActivationCommand {
        blueprint_id,
        make_active: cmd.make_active,
        make_default: cmd.make_default,
    });
    msg.to_application((cache, None)).ok()
}

/// Calls the `TryFrom<DataframePart>` of `arrow::array::RecordBatch` in `re_protos` on these fields,
/// as the only task of a `tokio::task::LocalSet`, so that a payload on which the arrow reader panics
/// counts as one that cannot be decoded.
///
/// Claimed: success takes an encoder of version 1 (the only one) and a payload. What comes out then
/// depends on the id and the contents alone, and has the name [`decoded_table`], which also says of
/// which contents the decoder may fail. Whether a given payload can be decoded is not said.
#[verifier::external_body]
fn decode_table(table: &TableMsgProto) -> (decoded: Option<TableMsg>)
    ensures
        decoded matches Some(t) ==> t == decoded_table(
            table.id.id@,
            table.data.encoder_version,
            bytes_view(table.data.payload),
            table.data.compression,
            table.data.uncompressed_size,
        ).0,
        decoded is None ==> decoded_table(
            table.id.id@,
            table.data.encoder_version,
            bytes_view(table.data.payload),
            table.data.compression,
            table.data.uncompressed_size,
        ).1,
        decoded is Some ==> table.data.encoder_version == 1 && table.data.payload is Some,
{
    let part = DataframePart {
        encoder_version: table.data.encoder_version,
        payload: table.data.payload.clone().map(|payload| payload.into()),
        compression: table.data.compression,
        uncompressed_size: table.data.uncompressed_size,
    };
    let tasks = LocalSet::new();
    let task = tasks.spawn_local(lazy(move |_| part.try_into().ok()));
    tasks.now_or_never();
    let data = unconstrained(task).now_or_never()?.ok()??;
    Some(TableMsg { id: table.id.id.clone().into(), data })
}

/// What is done about what comes next out of the live queue.
#[derive(Debug)]
pub enum Relayed {
    /// The viewer is given a log message.
    LogMsg(LogMsg),
    /// The viewer is given a table.
    Table(TableMsg),
    /// The viewer is given a command.
    UiCommand(re_log_channel::DataSourceUiCommand),
    /// The message is left out, and said to lack its payload.
    ReportMissingPayload,
    /// The message is left out, and said to be impossible to decode.
    ReportNotDecoded,
    /// The viewer is told that nothing more comes.
    Quit,
}

/// What the viewer is given for a log message that was decoded to `decoded`.
pub open spec fn log_msg_relayed(log_msg: LogMsgProto, decoded: Option<LogMsg>) -> Relayed {
    if log_msg.msg is None {
        Relayed::ReportMissingPayload
    } else {
        match decoded {
            Some(msg) => Relayed::LogMsg(msg),
            None => Relayed::ReportNotDecoded,
        }
    }
}

/// See [`log_msg_relayed`].
pub fn relayed_log_msg(log_msg: &LogMsgProto, decoded: Option<LogMsg>) -> (step: Relayed)
    ensures
        step == log_msg_relayed(*log_msg, decoded),
{
    if log_msg.msg.is_none() {
        return Relayed::ReportMissingPayload;
    }
    match decoded {
        Some(msg) => Relayed::LogMsg(msg),
        None => Relayed::ReportNotDecoded,
    }
}

/// What the viewer is given for a table that was decoded to `decoded`.
pub open spec fn table_relayed(decoded: Option<TableMsg>) -> Relayed {
    match decoded {
        Some(table) => Relayed::Table(table),
        None => Relayed::ReportNotDecoded,
    }
}

/// See [`table_relayed`].
pub fn relayed_table(decoded: Option<TableMsg>) -> (step: Relayed)
    ensures
        step == table_relayed(decoded),
{
    match decoded {
        Some(table) => Relayed::Table(table),
        None => Relayed::ReportNotDecoded,
    }
}

/// Whether the viewer may be given `step` for a log message, where `known` are the applications of
/// the stores announced. Only of a chunk does that leave anything open: whether it can be decoded,
/// and to which of the messages that it may be decoded to.
pub open spec fn may_relay(
    known: Map<(Seq<char>, bool), Seq<char>>,
    log_msg: LogMsgProto,
    step: Relayed,
) -> bool {
    match log_msg.msg {
        None => step == Relayed::ReportMissingPayload,
        Some(Msg::SetStoreInfo(set)) => match announced(set) {
            Some(a) => step == Relayed::LogMsg(
                decoded_announcement(
                    a.row_id,
                    a.store,
                    a.application_id,
                    a.source_kind,
                    a.source_extra,
                    a.version,
                ),
            ),
            None => step == Relayed::ReportNotDecoded,
        },
        Some(Msg::BlueprintActivationCommand(cmd)) => match (
            cmd.blueprint_id,
            application_of(known, cmd.blueprint_id),
        ) {
            (Some(id), Some(application_id)) => step == Relayed::LogMsg(
                decoded_activation(
                    store_of(id),
                    application_id,
                    cmd.make_active,
                    cmd.make_default,
                ),
            ),
            _ => step == Relayed::ReportNotDecoded,
        },
        Some(Msg::ArrowMsg(arrow)) => match (arrow.store_id, application_of(known, arrow.store_id)) {
            (Some(id), Some(application_id)) => exists|decoded: Option<LogMsg>|
                #[trigger] chunk_may_decode_to(
                    store_of(id),
                    application_id,
                    arrow.compression,
                    arrow.uncompressed_size,
                    arrow.encoding,
                    arrow.payload@,
                    decoded,
                ) && step == log_msg_relayed(log_msg, decoded),
            _ => step == Relayed::ReportNotDecoded,
        },
    }
}

/// Whether the viewer may be given `step` for a table: what it is decoded to, or that it cannot be,
/// where the decoder may fail on it.
pub open spec fn may_relay_table(table: TableMsgProto, step: Relayed) -> bool {
    let (decoded, may_fail) = decoded_table(
        table.id.id@,
        table.data.encoder_version,
        bytes_view(table.data.payload),
        table.data.compression,
        table.data.uncompressed_size,
    );
    ||| step == Relayed::ReportNotDecoded && may_fail
    ||| step == Relayed::Table(decoded) && table.data.encoder_version == 1
        && table.data.payload is Some
}

/// The applications that are known after an announcement.
pub open spec fn applications_after_info(
    known: Map<(Seq<char>, bool), Seq<char>>,
    set: SetStoreInfoProto,
) -> Map<(Seq<char>, bool), Seq<char>> {
    match announced(set) {
        Some(a) => known.insert(a.store, a.application_id),
        None => known,
    }
}

/// The applications that are known after a log message. Only announcements add any.
pub open spec fn applications_after(
    known: Map<(Seq<char>, bool), Seq<char>>,
    log_msg: LogMsgProto,
) -> Map<(Seq<char>, bool), Seq<char>> {
    match log_msg.msg {
        Some(Msg::SetStoreInfo(set)) => applications_after_info(known, set),
        _ => known,
    }
}

/// Decodes a log message for the viewer.
pub fn relay_log_msg(cache: &mut CachingApplicationIdInjector, log_msg: &LogMsgProto) -> (step:
    Relayed)
    ensures
        may_relay(known_applications(*old(cache)), *log_msg, step),
        step is ReportMissingPayload <==> log_msg.msg is None,
        exists|decoded: Option<LogMsg>| step == #[trigger] log_msg_relayed(*log_msg, decoded),
        known_applications(*final(cache)) == applications_after(
            known_applications(*old(cache)),
            *log_msg,
        ),
{
    let decoded: Option<LogMsg> = match &log_msg.msg {
        Some(Msg::SetStoreInfo(set)) => decode_set_store_info(cache, set),
        Some(Msg::ArrowMsg(arrow)) => match &arrow.store_id {
            Some(id) => decode_chunk(cache, id, arrow),
            None => None,
        },
        Some(Msg::BlueprintActivationCommand(cmd)) => decode_activation(cache, cmd),
        None => None,
    };
    relayed_log_msg(log_msg, decoded)
}

/// Decodes a table for the viewer.
pub fn relay_table(table: &TableMsgProto) -> (step: Relayed)
    ensures
        may_relay_table(*table, step),
        exists|decoded: Option<TableMsg>| step == #[trigger] table_relayed(decoded),
{
    let decoded = decode_table(table);
    relayed_table(decoded)
}

/// What the viewer is given for what comes next out of the live queue, or for its end, which is
/// `None`.
pub fn relay(cache: &mut CachingApplicationIdInjector, received: Option<LogOrTableMsgProto>) -> (step:
    Relayed)
    ensures
        match received {
            Some(LogOrTableMsgProto::LogMsg(log_msg)) => {
                &&& may_relay(known_applications(*old(cache)), log_msg, step)
                &&& known_applications(*final(cache)) == applications_after(
                    known_applications(*old(cache)),
                    log_msg,
                )
            },
            Some(LogOrTableMsgProto::Table(table)) => {
                &&& may_relay_table(table, step)
                &&& *final(cache) == *old(cache)
            },
            Some(LogOrTableMsgProto::UiCommand(command)) => {
                &&& step == Relayed::UiCommand(command)
                &&& *final(cache) == *old(cache)
            },
            None => step == Relayed::Quit && *final(cache) == *old(cache),
        },
{
    match received {
        Some(LogOrTableMsgProto::LogMsg(log_msg)) => relay_log_msg(cache, &log_msg),
        Some(LogOrTableMsgProto::Table(table)) => relay_table(&table),
        Some(LogOrTableMsgProto::UiCommand(command)) => Relayed::UiCommand(command),
        None => Relayed::Quit,
    }
}

/// A store that has been announced supplies an application to what is logged to it later without
/// one, whatever comes in between.
pub proof fn announcement_supplies_the_application(
    known: Map<(Seq<char>, bool), Seq<char>>,
    set: SetStoreInfoProto,
    between: Seq<LogMsgProto>,
    id: StoreIdProto,
)
    requires
        announced(set) matches Some(a) && a.store == store_of(id),
    ensures
        application_of(
            applications_after_all(applications_after_info(known, set), between),
            Some(id),
        ) is Some,
{
    applications_are_not_forgotten(applications_after_info(known, set), between, store_of(id));
}

/// The applications that are known after all of `log_msgs`.
pub open spec fn applications_after_all(
    known: Map<(Seq<char>, bool), Seq<char>>,
    log_msgs: Seq<LogMsgProto>,
) -> Map<(Seq<char>, bool), Seq<char>>
    decreases log_msgs.len(),
{
    if log_msgs.len() == 0 {
        known
    } else {
        applications_after(applications_after_all(known, log_msgs.drop_last()), log_msgs.last())
    }
}

/// A store whose application is known stays known.
pub proof fn applications_are_not_forgotten(
    known: Map<(Seq<char>, bool), Seq<char>>,
    log_msgs: Seq<LogMsgProto>,
    store: (Seq<char>, bool),
)
    requires
        known.contains_key(store),
    ensures
        applications_after_all(known, log_msgs).contains_key(store),
    decreases log_msgs.len(),
{
    if log_msgs.len() > 0 {
        applications_are_not_forgotten(known, log_msgs.drop_last(), store);
    }
}

/// Something that came out of the live queue, with what it was decoded to.
pub enum RelayEvent {
    LogMsg { log_msg: LogMsgProto, decoded: Option<LogMsg> },
    Table { decoded: Option<TableMsg> },
    UiCommand { command: re_log_channel::DataSourceUiCommand },
    Closed,
}

/// What is done about it.
pub open spec fn relayed(event: RelayEvent) -> Relayed {
    match event {
        RelayEvent::LogMsg { log_msg, decoded } => log_msg_relayed(log_msg, decoded),
        RelayEvent::Table { decoded } => table_relayed(decoded),
        RelayEvent::UiCommand { command } => Relayed::UiCommand(command),
        RelayEvent::Closed => Relayed::Quit,
    }
}

/// Whether the viewer is given something.
pub open spec fn is_delivery(step: Relayed) -> bool {
    step is LogMsg || step is Table || step is UiCommand
}

/// What the viewer is given for `events`, one after the other, until it is told that nothing more
/// comes.
pub open spec fn delivered(events: Seq<RelayEvent>) -> Seq<Relayed>
    decreases events.len(),
{
    if events.len() == 0 || relayed(events[0]) is Quit {
        Seq::empty()
    } else {
        let later = delivered(events.drop_first());
        if is_delivery(relayed(events[0])) {
            seq![relayed(events[0])] + later
        } else {
            later
        }
    }
}

/// The viewer is given everything that could be decoded, in the order in which it came, whatever
/// could not be decoded in between, and nothing after the end.
pub proof fn what_decodes_is_delivered(events: Seq<RelayEvent>, after: Seq<RelayEvent>)
    requires
        forall|i: int| 0 <= i < events.len() ==> !(#[trigger] events[i] is Closed),
    ensures
        delivered(events) == events.map_values(|event: RelayEvent| relayed(event)).filter(
            |step: Relayed| is_delivery(step),
        ),
        delivered(events.push(RelayEvent::Closed) + after) == delivered(events),
    decreases events.len(),
{
    let steps = events.map_values(|event: RelayEvent| relayed(event));
    let keep = |step: Relayed| is_delivery(step);
    let ended = events.push(RelayEvent::Closed) + after;
    if events.len() == 0 {
        assert(ended[0] is Closed);
        reveal(Seq::filter);
    } else {
        let rest = events.drop_first();
        let later = rest.map_values(|event: RelayEvent| relayed(event));
        assert forall|i: int| 0 <= i < rest.len() implies !(#[trigger] rest[i] is Closed) by {
            assert(rest[i] == events[i + 1]);
        }
        what_decodes_is_delivered(rest, after);
        assert(!(events[0] is Closed));
        assert(ended[0] == events[0]);
        assert(ended.drop_first() =~= rest.push(RelayEvent::Closed) + after);
        assert(steps =~= seq![steps[0]] + later);
        Seq::filter_distributes_over_add(seq![steps[0]], later, keep);
        reveal(Seq::filter);
        assert(seq![steps[0]].drop_last() =~= Seq::empty());
        assert(seq![steps[0]].filter(keep) =~= if keep(steps[0]) {
            seq![steps[0]]
        } else {
            Seq::empty()
        }) by {
            reveal_with_fuel(Seq::filter, 2);
        }
    }
}

} // verus!
