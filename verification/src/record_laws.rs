//! What one message does to the history.

use vstd::prelude::*;

use crate::event_loop::{EventLoop, history_enabled};
use crate::history::{
    History, MessageBuffer, activated_blueprint, is_blueprint, is_kept, is_superseded, replaced,
    retention, store_id_of, without_key, without_superseded,
};
use crate::laws::{filters_agree, freeing_memory_spares_what_matters};
use crate::live::{is_droppable, temporal};
use crate::messages::{
    ArrowMsgProto, BlueprintActivationCommandProto, LogMsgProto, LogOrTableMsgProto, Msg,
    SetStoreInfoProto, SizedMsg, StoreIdProto, StoreKindProto, TableMsgProto, store_kind,
};
use crate::options::ServerOptions;
use crate::queue::total_bytes;
use crate::static_key::key_of;

verus! {

/// On the wire, 1 is a recording and 2 a blueprint. Any other number is neither.
pub proof fn kinds_have_their_numbers(id: StoreIdProto)
    ensures
        store_kind(id.kind) == StoreKindProto::Recording <==> id.kind == 1,
        store_kind(id.kind) == StoreKindProto::Blueprint <==> id.kind == 2,
        is_blueprint(Some(id)) <==> id.kind == 2,
        !is_blueprint(None),
{
}

/// How long a chunk is kept goes by its store and by whether it is static, and by nothing else: chunks of
/// a blueprint stay for good, static ones of any other store as long as possible, and the rest is
/// temporal, is the first to go, and is all that may be dropped from the live stream.
pub proof fn chunks_are_kept_by_store_and_time(arrow: ArrowMsgProto, drop_temporal: bool)
    ensures
        ({
            let msg = LogOrTableMsgProto::LogMsg(LogMsgProto { msg: Some(Msg::ArrowMsg(arrow)) });
            let in_blueprint = arrow.store_id matches Some(id) && id.kind == 2;
            let without_time = arrow.is_static == Some(true);
            &&& retention(msg) is Persistent <==> in_blueprint
            &&& retention(msg) is Static <==> !in_blueprint && without_time
            &&& retention(msg) is Disposable <==> !in_blueprint && !without_time
            &&& temporal(msg) <==> !in_blueprint && !without_time
            &&& is_droppable(msg) <==> !in_blueprint && !without_time
            &&& is_kept(drop_temporal, msg) <==> in_blueprint || without_time || !drop_temporal
            &&& store_id_of(msg) == arrow.store_id
            &&& activated_blueprint(msg) is None
        }),
{
}

/// Announcements and activations stay for good, whatever is in them. A log message without a payload is
/// not kept. Tables and commands are the first to go. None of these is ever dropped from the live
/// stream.
pub proof fn other_messages_are_kept_by_kind(
    set: SetStoreInfoProto,
    cmd: BlueprintActivationCommandProto,
    table: TableMsgProto,
    command: re_log_channel::DataSourceUiCommand,
    drop_temporal: bool,
)
    ensures
        ({
            let msg = LogOrTableMsgProto::LogMsg(LogMsgProto { msg: Some(Msg::SetStoreInfo(set)) });
            &&& retention(msg) is Persistent && is_kept(drop_temporal, msg)
            &&& !temporal(msg) && !is_droppable(msg)
            &&& activated_blueprint(msg) is None
            &&& set.info is None ==> store_id_of(msg) is None
            &&& set.info matches Some(info) ==> store_id_of(msg) == info.store_id
        }),
        ({
            let msg = LogOrTableMsgProto::LogMsg(
                LogMsgProto { msg: Some(Msg::BlueprintActivationCommand(cmd)) },
            );
            &&& retention(msg) is Persistent && is_kept(drop_temporal, msg)
            &&& !temporal(msg) && !is_droppable(msg)
            &&& store_id_of(msg) == cmd.blueprint_id
            &&& cmd.blueprint_id is None ==> activated_blueprint(msg) is None
            &&& cmd.blueprint_id matches Some(id) ==> activated_blueprint(msg) == Some(
                id.recording_id@,
            )
        }),
        ({
            let msg = LogOrTableMsgProto::LogMsg(LogMsgProto { msg: None });
            &&& retention(msg) is Rejected && !is_kept(drop_temporal, msg)
            &&& !temporal(msg) && !is_droppable(msg)
            &&& store_id_of(msg) is None && activated_blueprint(msg) is None
        }),
        ({
            let msg = LogOrTableMsgProto::Table(table);
            &&& retention(msg) is Disposable && (is_kept(drop_temporal, msg) <==> !drop_temporal)
            &&& temporal(msg) && !is_droppable(msg)
            &&& store_id_of(msg) is None && activated_blueprint(msg) is None
        }),
        ({
            let msg = LogOrTableMsgProto::UiCommand(command);
            &&& retention(msg) is Disposable && (is_kept(drop_temporal, msg) <==> !drop_temporal)
            &&& temporal(msg) && !is_droppable(msg)
            &&& store_id_of(msg) is None && activated_blueprint(msg) is None
        }),
{
}

/// Anything is remembered unless the limit is zero and all data is kept.
pub proof fn only_a_zero_limit_turns_the_history_off(options: ServerOptions)
    ensures
        !history_enabled(options) <==> options.memory_limit.max_bytes == Some(0u64)
            && !options.drop_temporal_history,
{
}

/// Where all data is kept, a message goes behind those of its part, and nothing else changes: chunks of
/// a blueprint, announcements and activations go to the persistent part, other static chunks to the
/// static one, and everything else with a payload to the disposable one. Nothing replaces anything.
pub proof fn full_history_takes_messages_in_order(history: History, m: SizedMsg)
    ensures
        ({
            let after = history.added(false, m);
            match m.msg {
                LogOrTableMsgProto::LogMsg(log_msg) => match log_msg.msg {
                    None => after == history,
                    Some(Msg::ArrowMsg(arrow)) => {
                        let in_blueprint = arrow.store_id matches Some(id) && id.kind == 2;
                        let without_time = arrow.is_static == Some(true);
                        &&& after.persistent == if in_blueprint {
                            history.persistent.push(m)
                        } else {
                            history.persistent
                        }
                        &&& after.static_ == if !in_blueprint && without_time {
                            history.static_.push(m)
                        } else {
                            history.static_
                        }
                        &&& after.disposable == if !in_blueprint && !without_time {
                            history.disposable.push(m)
                        } else {
                            history.disposable
                        }
                    },
                    Some(_) => {
                        &&& after.persistent == history.persistent.push(m)
                        &&& after.static_ == history.static_
                        &&& after.disposable == history.disposable
                    },
                },
                _ => {
                    &&& after.persistent == history.persistent
                    &&& after.static_ == history.static_
                    &&& after.disposable == history.disposable.push(m)
                },
            }
        }),
{
}

/// Where only the scene skeleton is kept, an announcement or a chunk of a blueprint goes behind what is
/// there, and nothing else changes. Chunks on a timeline, tables, commands and messages without a
/// payload leave no trace.
pub proof fn skeleton_history_takes_the_skeleton_in_order(history: History, m: SizedMsg)
    ensures
        ({
            let after = history.added(true, m);
            match m.msg {
                LogOrTableMsgProto::LogMsg(log_msg) => match log_msg.msg {
                    None => after == history,
                    Some(Msg::SetStoreInfo(_)) => {
                        &&& after.persistent == history.persistent.push(m)
                        &&& after.static_ == history.static_
                        &&& after.disposable == history.disposable
                    },
                    Some(Msg::ArrowMsg(arrow)) => {
                        let in_blueprint = arrow.store_id matches Some(id) && id.kind == 2;
                        &&& in_blueprint ==> after.persistent == history.persistent.push(m)
                            && after.static_ == history.static_
                        &&& !in_blueprint ==> after.persistent == history.persistent
                        &&& !in_blueprint && arrow.is_static != Some(true) ==> after.static_
                            == history.static_
                        &&& after.disposable == history.disposable
                    },
                    Some(Msg::BlueprintActivationCommand(_)) => {
                        &&& after.static_ == history.static_
                        &&& after.disposable == history.disposable
                    },
                },
                _ => after == history,
            }
        }),
{
}

/// Where only the scene skeleton is kept, a static chunk of anything but a blueprint goes behind the
/// static ones, in place of exactly those with its key: the same recording and the same entity path,
/// character for character. One without a key takes no other's place, and one without a key that is
/// there keeps its place.
pub proof fn static_chunk_replaces_its_own_kind_only(
    history: History,
    m: SizedMsg,
    arrow: ArrowMsgProto,
)
    requires
        m.msg == LogOrTableMsgProto::LogMsg(LogMsgProto { msg: Some(Msg::ArrowMsg(arrow)) }),
        arrow.is_static == Some(true),
        !(arrow.store_id matches Some(id) && id.kind == 2),
    ensures
        history.added(true, m).persistent == history.persistent,
        history.added(true, m).disposable == history.disposable,
        match m.static_key {
            None => history.added(true, m).static_ == history.static_.push(m),
            Some(key) => history.added(true, m).static_ == history.static_.filter(
                |x: SizedMsg|
                    !(x.static_key matches Some(k) && k.recording_id@ == key.recording_id@
                        && k.entity_path@ == key.entity_path@),
            ).push(m),
        },
{
    if let Some(key) = m.static_key {
        let other = |x: SizedMsg|
            !(x.static_key matches Some(k) && k.recording_id@ == key.recording_id@
                && k.entity_path@ == key.entity_path@);
        filters_agree(history.static_, |x: SizedMsg| key_of(x) != Some(key@), other);
    }
}

/// A message belongs to a superseded blueprint exactly if it names a blueprint other than the active
/// one: an announcement by its store, a chunk by its store, an activation by its blueprint.
pub proof fn superseded_means_another_blueprint(msg: LogOrTableMsgProto, active: Seq<char>)
    ensures
        is_superseded(msg, active) <==> (msg matches LogOrTableMsgProto::LogMsg(log_msg)
            && match log_msg.msg {
            Some(Msg::SetStoreInfo(set)) => set.info matches Some(info) && info.store_id matches Some(
                id,
            ) && id.kind == 2 && id.recording_id@ != active,
            Some(Msg::ArrowMsg(arrow)) => arrow.store_id matches Some(id) && id.kind == 2
                && id.recording_id@ != active,
            Some(Msg::BlueprintActivationCommand(cmd)) => cmd.blueprint_id matches Some(id)
                && id.kind == 2 && id.recording_id@ != active,
            None => false,
        }),
{
}

/// Where only the scene skeleton is kept, an activation goes behind the persistent messages, and then
/// exactly those go that name a blueprint other than the activated one. All others stay, in order.
/// An activation without a blueprint costs nothing.
pub proof fn activation_gives_up_other_blueprints_only(
    history: History,
    m: SizedMsg,
    cmd: BlueprintActivationCommandProto,
)
    requires
        m.msg == LogOrTableMsgProto::LogMsg(
            LogMsgProto { msg: Some(Msg::BlueprintActivationCommand(cmd)) },
        ),
    ensures
        history.added(true, m).static_ == history.static_,
        history.added(true, m).disposable == history.disposable,
        match cmd.blueprint_id {
            None => history.added(true, m).persistent == history.persistent.push(m),
            Some(active) => history.added(true, m).persistent == history.persistent.push(m).filter(
                |x: SizedMsg|
                    !(x.msg matches LogOrTableMsgProto::LogMsg(log_msg) && match log_msg.msg {
                        Some(Msg::SetStoreInfo(set)) => set.info matches Some(info)
                            && info.store_id matches Some(id) && id.kind == 2 && id.recording_id@
                            != active.recording_id@,
                        Some(Msg::ArrowMsg(arrow)) => arrow.store_id matches Some(id) && id.kind == 2
                            && id.recording_id@ != active.recording_id@,
                        Some(Msg::BlueprintActivationCommand(cmd)) => cmd.blueprint_id matches Some(
                            id,
                        ) && id.kind == 2 && id.recording_id@ != active.recording_id@,
                        None => false,
                    }),
            ),
        },
{
    if let Some(active) = cmd.blueprint_id {
        let stays = |x: SizedMsg|
            !(x.msg matches LogOrTableMsgProto::LogMsg(log_msg) && match log_msg.msg {
                Some(Msg::SetStoreInfo(set)) => set.info matches Some(info)
                    && info.store_id matches Some(id) && id.kind == 2 && id.recording_id@
                    != active.recording_id@,
                Some(Msg::ArrowMsg(arrow)) => arrow.store_id matches Some(id) && id.kind == 2
                    && id.recording_id@ != active.recording_id@,
                Some(Msg::BlueprintActivationCommand(cmd)) => cmd.blueprint_id matches Some(id)
                    && id.kind == 2 && id.recording_id@ != active.recording_id@,
                None => false,
            });
        filters_agree(
            history.persistent.push(m),
            |x: SizedMsg| !is_superseded(x.msg, active.recording_id@),
            stays,
        );
    }
}

/// What is given up for an activation is the messages of other blueprints, and what is given up for a
/// static chunk is those with its key, in whatever queue they are: all others stay, in order.
pub proof fn giving_up_spares_all_others(
    msgs: Seq<SizedMsg>,
    active: Seq<char>,
    recording_id: Seq<char>,
    entity_path: Seq<char>,
)
    ensures
        without_superseded(msgs, active) == msgs.filter(
            |x: SizedMsg|
                !(store_id_of(x.msg) matches Some(id) && id.kind == 2 && id.recording_id@ != active),
        ),
        without_key(msgs, (recording_id, entity_path)) == msgs.filter(
            |x: SizedMsg|
                !(x.static_key matches Some(k) && k.recording_id@ == recording_id && k.entity_path@
                    == entity_path),
        ),
{
    filters_agree(
        msgs,
        |x: SizedMsg| !is_superseded(x.msg, active),
        |x: SizedMsg|
            !(store_id_of(x.msg) matches Some(id) && id.kind == 2 && id.recording_id@ != active),
    );
    filters_agree(
        msgs,
        |x: SizedMsg| key_of(x) != Some((recording_id, entity_path)),
        |x: SizedMsg|
            !(x.static_key matches Some(k) && k.recording_id@ == recording_id && k.entity_path@
                == entity_path),
    );
}

/// A static chunk takes the place of those with its key in any queue, and one without a key goes behind
/// all that is there.
pub proof fn replacing_spares_other_keys(msgs: Seq<SizedMsg>, m: SizedMsg)
    ensures
        match m.static_key {
            None => replaced(msgs, m) == msgs.push(m),
            Some(key) => replaced(msgs, m) == msgs.filter(
                |x: SizedMsg|
                    !(x.static_key matches Some(k) && k.recording_id@ == key.recording_id@
                        && k.entity_path@ == key.entity_path@),
            ).push(m),
        },
{
    if let Some(key) = m.static_key {
        giving_up_spares_all_others(msgs, Seq::empty(), key.recording_id@, key.entity_path@);
        filters_agree(
            msgs,
            |x: SizedMsg| key_of(x) != Some(key@),
            |x: SizedMsg|
                !(x.static_key matches Some(k) && k.recording_id@ == key.recording_id@
                    && k.entity_path@ == key.entity_path@),
        );
    }
}

/// Any message can be taken in whose bytes can be counted together with those that are held, and any that
/// is not kept.
pub proof fn whatever_can_be_counted_can_be_taken_in(
    buffer: MessageBuffer,
    event_loop: EventLoop,
    m: SizedMsg,
)
    ensures
        buffer.can_add(m) <==> !is_kept(buffer.drop_temporal, m.msg) || total_bytes(
            buffer.persistent@,
        ) + total_bytes(buffer.static_@) + total_bytes(buffer.disposable@) + m.size_bytes
            <= u64::MAX,
        total_bytes(event_loop.history.persistent@) + total_bytes(event_loop.history.static_@)
            + total_bytes(event_loop.history.disposable@) + m.size_bytes <= u64::MAX
            ==> event_loop.can_record(m),
        !is_kept(event_loop.options.drop_temporal_history, m.msg) ==> event_loop.can_record(m),
{
    freeing_memory_spares_what_matters(
        event_loop.history@,
        event_loop.options.memory_limit.bytes() as nat,
    );
}

/// What is held is what is in the three queues.
pub proof fn history_is_what_the_queues_hold(buffer: MessageBuffer)
    ensures
        buffer@.persistent == buffer.persistent@,
        buffer@.static_ == buffer.static_@,
        buffer@.disposable == buffer.disposable@,
        History::empty().persistent.len() == 0,
        History::empty().static_.len() == 0,
        History::empty().disposable.len() == 0,
{
}

} // verus!
