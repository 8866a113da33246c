//! What holds of everything that is handed to the viewer in the same process.

use re_log_types::{LogMsg, TableMsg};
use vstd::prelude::*;

use crate::messages::{
    ArrowMsgProto, BlueprintActivationCommandProto, LogMsgProto, Msg, SetStoreInfoProto,
    StoreIdProto, TableMsgProto,
};
use crate::relay::{
    Relayed, announced, application_of, applications_after, bytes_view, chunk_may_decode_to,
    decoded_activation, decoded_announcement, decoded_table, log_msg_relayed, may_relay,
    may_relay_table, store_of, store_source_decodes, table_relayed,
};

verus! {

/// A store is told from others by its recording id and by whether it is a blueprint. Its application is
/// the one in its id; where there is none, the one that is known of that store, and of no other.
pub proof fn applications_are_those_of_the_store(
    known: Map<(Seq<char>, bool), Seq<char>>,
    id: StoreIdProto,
)
    ensures
        store_of(id) == (id.recording_id@, id.kind == 2),
        id.application_id matches Some(own) ==> application_of(known, Some(id)) == Some(own@),
        id.application_id is None && known.contains_key((id.recording_id@, id.kind == 2))
            ==> application_of(known, Some(id)) == Some(known[(id.recording_id@, id.kind == 2)]),
        id.application_id is None && !known.contains_key((id.recording_id@, id.kind == 2))
            ==> application_of(known, Some(id)) is None,
        application_of(known, None) is None,
{
}

/// Every chunk whose store has a known application is handed to the decoder, with its own store, bytes
/// and encoding, and whatever the decoder gives for it is delivered: it is reported as impossible to
/// decode only if the decoder may fail on exactly these. Whether it is static, of a recording or of a
/// blueprint, small or large, makes no difference.
pub proof fn every_chunk_reaches_the_viewer_if_it_decodes(
    known: Map<(Seq<char>, bool), Seq<char>>,
    arrow: ArrowMsgProto,
    id: StoreIdProto,
    application_id: Seq<char>,
    step: Relayed,
)
    requires
        arrow.store_id == Some(id),
        match id.application_id {
            Some(own) => application_id == own@,
            None => known.contains_key((id.recording_id@, id.kind == 2)) && known[(
                id.recording_id@,
                id.kind == 2,
            )] == application_id,
        },
        may_relay(known, LogMsgProto { msg: Some(Msg::ArrowMsg(arrow)) }, step),
    ensures
        step is LogMsg || step is ReportNotDecoded,
        step matches Relayed::LogMsg(m) ==> chunk_may_decode_to(
            (id.recording_id@, id.kind == 2),
            application_id,
            arrow.compression,
            arrow.uncompressed_size,
            arrow.encoding,
            arrow.payload@,
            Some(m),
        ),
        step is ReportNotDecoded ==> chunk_may_decode_to(
            (id.recording_id@, id.kind == 2),
            application_id,
            arrow.compression,
            arrow.uncompressed_size,
            arrow.encoding,
            arrow.payload@,
            None,
        ),
{
}

/// A chunk on which the decoder cannot fail is always delivered.
pub proof fn chunk_that_decodes_is_delivered(
    known: Map<(Seq<char>, bool), Seq<char>>,
    arrow: ArrowMsgProto,
    id: StoreIdProto,
    application_id: Seq<char>,
    step: Relayed,
)
    requires
        arrow.store_id == Some(id),
        id.application_id matches Some(own) && application_id == own@,
        !chunk_may_decode_to(
            (id.recording_id@, id.kind == 2),
            application_id,
            arrow.compression,
            arrow.uncompressed_size,
            arrow.encoding,
            arrow.payload@,
            None,
        ),
        may_relay(known, LogMsgProto { msg: Some(Msg::ArrowMsg(arrow)) }, step),
    ensures
        step is LogMsg,
{
}

/// A chunk of no store, or of one whose application is unknown, cannot be decoded, and neither can an
/// activation of such a blueprint.
pub proof fn unknown_applications_are_reported(
    known: Map<(Seq<char>, bool), Seq<char>>,
    arrow: ArrowMsgProto,
    cmd: BlueprintActivationCommandProto,
    step: Relayed,
)
    requires
        match arrow.store_id {
            Some(id) => id.application_id is None && !known.contains_key(
                (id.recording_id@, id.kind == 2),
            ),
            None => true,
        },
        cmd.blueprint_id == arrow.store_id,
    ensures
        may_relay(known, LogMsgProto { msg: Some(Msg::ArrowMsg(arrow)) }, step) ==> step
            == Relayed::ReportNotDecoded,
        may_relay(known, LogMsgProto { msg: Some(Msg::BlueprintActivationCommand(cmd)) }, step)
            ==> step == Relayed::ReportNotDecoded,
{
}

/// An activation of a blueprint whose application is known is always delivered, with its own blueprint
/// and both its flags.
pub proof fn every_activation_reaches_the_viewer(
    known: Map<(Seq<char>, bool), Seq<char>>,
    cmd: BlueprintActivationCommandProto,
    id: StoreIdProto,
    application_id: Seq<char>,
    step: Relayed,
)
    requires
        cmd.blueprint_id == Some(id),
        match id.application_id {
            Some(own) => application_id == own@,
            None => known.contains_key((id.recording_id@, id.kind == 2)) && known[(
                id.recording_id@,
                id.kind == 2,
            )] == application_id,
        },
        may_relay(known, LogMsgProto { msg: Some(Msg::BlueprintActivationCommand(cmd)) }, step),
    ensures
        step == Relayed::LogMsg(
            decoded_activation(
                (id.recording_id@, id.kind == 2),
                application_id,
                cmd.make_active,
                cmd.make_default,
            ),
        ),
{
}

/// An announcement with a whole row id, a store, an application, which its store id supplies or else it
/// carries itself, and a source that can be decoded is always delivered, with all that it says. From then
/// on the application of that store is known, and nothing that was known of other stores changes.
pub proof fn every_announcement_reaches_the_viewer(
    known: Map<(Seq<char>, bool), Seq<char>>,
    set: SetStoreInfoProto,
    row_id: (u64, u64),
    id: StoreIdProto,
    application_id: Seq<char>,
    source_extra: Option<Seq<u8>>,
    step: Relayed,
)
    requires
        set.row_id matches Some(row) && row.time_ns == Some(row_id.0) && row.inc == Some(row_id.1),
        set.info matches Some(info) && info.store_id == Some(id) && (
        info.store_source matches Some(source) && store_source_decodes(source.kind, source_extra)
            && match source.extra {
            Some(bytes) => source_extra == Some(bytes@),
            None => source_extra is None,
        }) && match id.application_id {
            Some(own) => application_id == own@,
            None => info.application_id matches Some(beside) && application_id == beside@,
        },
        may_relay(known, LogMsgProto { msg: Some(Msg::SetStoreInfo(set)) }, step),
    ensures
        set.info matches Some(info) && info.store_source matches Some(source) && step
            == Relayed::LogMsg(
            decoded_announcement(
                row_id,
                (id.recording_id@, id.kind == 2),
                application_id,
                source.kind,
                source_extra,
                info.store_version,
            ),
        ),
        applications_after(known, LogMsgProto { msg: Some(Msg::SetStoreInfo(set)) })
            == known.insert((id.recording_id@, id.kind == 2), application_id),
{
}

/// An announcement that lacks any of that is reported, and nothing is known after it that was not before.
pub proof fn incomplete_announcements_are_reported(
    known: Map<(Seq<char>, bool), Seq<char>>,
    set: SetStoreInfoProto,
    step: Relayed,
)
    requires
        set.row_id matches Some(row) ==> row.time_ns is None || row.inc is None || (
        set.info matches Some(info) ==> info.store_source is None || (
        info.store_source matches Some(source) && !store_source_decodes(
            source.kind,
            bytes_view(source.extra),
        )) || (info.store_id matches Some(id) ==> id.application_id is None
            && info.application_id is None)),
        may_relay(known, LogMsgProto { msg: Some(Msg::SetStoreInfo(set)) }, step),
    ensures
        step == Relayed::ReportNotDecoded,
        announced(set) is None,
        applications_after(known, LogMsgProto { msg: Some(Msg::SetStoreInfo(set)) }) == known,
{
}

/// Only a log message without a payload is said to lack it. Such a message, a chunk and an activation
/// leave what is known of applications as it is.
pub proof fn only_announcements_make_applications_known(
    known: Map<(Seq<char>, bool), Seq<char>>,
    log_msg: LogMsgProto,
    step: Relayed,
)
    requires
        may_relay(known, log_msg, step),
    ensures
        step == Relayed::ReportMissingPayload <==> log_msg.msg is None,
        !(log_msg.msg matches Some(Msg::SetStoreInfo(_))) ==> applications_after(known, log_msg)
            == known,
{
}

/// Every table is handed to the decoder, with its own id and contents, and what it gives is delivered: it
/// is reported as impossible to decode only if the decoder may fail on exactly these.
pub proof fn every_table_reaches_the_viewer_if_it_decodes(
    table: TableMsgProto,
    payload: Option<Seq<u8>>,
    step: Relayed,
)
    requires
        match table.data.payload {
            Some(bytes) => payload == Some(bytes@),
            None => payload is None,
        },
        may_relay_table(table, step),
    ensures
        ({
            let (decoded, may_fail) = decoded_table(
                table.id.id@,
                table.data.encoder_version,
                payload,
                table.data.compression,
                table.data.uncompressed_size,
            );
            &&& step == Relayed::Table(decoded) || step == Relayed::ReportNotDecoded
            &&& step == Relayed::ReportNotDecoded ==> may_fail
            &&& table.data.encoder_version != 1 || payload is None ==> step
                == Relayed::ReportNotDecoded
        }),
{
}

/// What was decoded is delivered as it is, and nothing else is. What was not is reported.
pub proof fn what_was_decoded_is_delivered_as_it_is(
    log_msg: LogMsgProto,
    decoded: Option<LogMsg>,
    table: Option<TableMsg>,
)
    ensures
        log_msg.msg is None ==> log_msg_relayed(log_msg, decoded) == Relayed::ReportMissingPayload,
        log_msg.msg is Some ==> (decoded matches Some(m) ==> log_msg_relayed(log_msg, decoded)
            == Relayed::LogMsg(m)),
        log_msg.msg is Some && decoded is None ==> log_msg_relayed(log_msg, decoded)
            == Relayed::ReportNotDecoded,
        table matches Some(t) ==> table_relayed(table) == Relayed::Table(t),
        table is None ==> table_relayed(table) == Relayed::ReportNotDecoded,
{
}

} // verus!
