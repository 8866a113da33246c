//! What clients write and read.

use vstd::prelude::*;

use crate::messages::{
    DataframePartProto, LogMsgProto, LogOrTableMsgProto, TableIdProto, TableMsgProto,
};
use crate::options::PlaybackBehavior;

verus! {

/// What comes next from a client that writes messages.
#[derive(Debug)]
pub enum WriteEvent {
    /// A request, with the message in it, if there is one.
    Request(Option<LogMsgProto>),
    /// The client is done.
    Closed,
    /// The connection failed.
    Failed,
}

/// What is done about it.
#[derive(Debug)]
pub enum WriteStep {
    /// The message goes to the event loop, and the next one is waited for.
    Push(LogMsgProto),
    /// The request is complained of, and the next one is waited for.
    WarnMissing,
    /// The client is answered.
    Stop,
    /// The failure is reported, and the client is answered.
    StopFailed,
}

/// What is done about what comes next from a client that writes messages.
pub open spec fn write_step(event: WriteEvent) -> WriteStep {
    match event {
        WriteEvent::Request(Some(log_msg)) => WriteStep::Push(log_msg),
        WriteEvent::Request(None) => WriteStep::WarnMissing,
        WriteEvent::Closed => WriteStep::Stop,
        WriteEvent::Failed => WriteStep::StopFailed,
    }
}

/// See [`write_step`].
pub fn write_messages_step(event: WriteEvent) -> (step: WriteStep)
    ensures
        step == write_step(event),
{
    match event {
        WriteEvent::Request(Some(log_msg)) => WriteStep::Push(log_msg),
        WriteEvent::Request(None) => WriteStep::WarnMissing,
        WriteEvent::Closed => WriteStep::Stop,
        WriteEvent::Failed => WriteStep::StopFailed,
    }
}

/// The messages that go to the event loop out of what a client writes.
pub open spec fn written(events: Seq<WriteEvent>) -> Seq<LogMsgProto>
    decreases events.len(),
{
    if events.len() == 0 {
        Seq::empty()
    } else {
        let later = written(events.drop_first());
        match write_step(events[0]) {
            WriteStep::Push(log_msg) => seq![log_msg] + later,
            WriteStep::WarnMissing => later,
            WriteStep::Stop => Seq::empty(),
            WriteStep::StopFailed => Seq::empty(),
        }
    }
}

/// Requests, one for each of `log_msgs`.
pub open spec fn requests(log_msgs: Seq<Option<LogMsgProto>>) -> Seq<WriteEvent> {
    log_msgs.map_values(|log_msg: Option<LogMsgProto>| WriteEvent::Request(log_msg))
}

/// The messages that are there.
pub open spec fn present(log_msgs: Seq<Option<LogMsgProto>>) -> Seq<LogMsgProto>
    decreases log_msgs.len(),
{
    if log_msgs.len() == 0 {
        Seq::empty()
    } else {
        let later = present(log_msgs.drop_first());
        match log_msgs[0] {
            Some(log_msg) => seq![log_msg] + later,
            None => later,
        }
    }
}

/// Every message that a client writes goes to the event loop, in order and unchanged: requests
/// without one cost none, and what was written before the client is done, or before its connection
/// fails, is not lost. Nothing is taken after that.
pub proof fn written_messages_are_not_lost(
    log_msgs: Seq<Option<LogMsgProto>>,
    end: WriteEvent,
    after: Seq<WriteEvent>,
)
    requires
        !(end is Request),
    ensures
        written(requests(log_msgs)) == present(log_msgs),
        written(requests(log_msgs).push(end) + after) == present(log_msgs),
    decreases log_msgs.len(),
{
    let events = requests(log_msgs);
    let ended = events.push(end) + after;
    if log_msgs.len() == 0 {
        assert(ended[0] == end);
    } else {
        let rest = log_msgs.drop_first();
        written_messages_are_not_lost(rest, end, after);
        assert(events.drop_first() =~= requests(rest));
        assert(events[0] == WriteEvent::Request(log_msgs[0]));
        assert(ended[0] == events[0]);
        assert(ended.drop_first() =~= requests(rest).push(end) + after);
    }
}

/// The table in a request to write one. A request that lacks the id or the data has none.
pub fn write_table(id: Option<TableIdProto>, data: Option<DataframePartProto>) -> (table: Option<
    TableMsgProto,
>)
    ensures
        table == (match (id, data) {
            (Some(id), Some(data)) => Some(TableMsgProto { id, data }),
            _ => None,
        }),
{
    match (id, data) {
        (Some(id), Some(data)) => Some(TableMsgProto { id, data }),
        _ => None,
    }
}

/// One item of a stream of log messages.
#[derive(Debug, PartialEq, Eq)]
pub struct ReadMessagesResponse {
    pub log_msg: Option<LogMsgProto>,
}

/// One item of a stream of tables.
#[derive(Debug, PartialEq, Eq)]
pub struct ReadTablesResponse {
    pub id: Option<TableIdProto>,
    pub data: Option<DataframePartProto>,
}

/// One item for a client, of whatever kind.
#[derive(Debug, PartialEq, Eq)]
pub enum ReadLogOrTableMsgResponse {
    LogMsg(ReadMessagesResponse),
    TableMsg(ReadTablesResponse),
    UiCommand,
}

/// What a message looks like to clients. A command is not sent to any.
pub open spec fn response(msg: LogOrTableMsgProto) -> ReadLogOrTableMsgResponse {
    match msg {
        LogOrTableMsgProto::LogMsg(log_msg) => ReadLogOrTableMsgResponse::LogMsg(
            ReadMessagesResponse { log_msg: Some(log_msg) },
        ),
        LogOrTableMsgProto::Table(table) => ReadLogOrTableMsgResponse::TableMsg(
            ReadTablesResponse { id: Some(table.id), data: Some(table.data) },
        ),
        LogOrTableMsgProto::UiCommand(_) => ReadLogOrTableMsgResponse::UiCommand,
    }
}

impl From<LogOrTableMsgProto> for ReadLogOrTableMsgResponse {
    fn from(proto: LogOrTableMsgProto) -> (item: ReadLogOrTableMsgResponse) {
        match proto {
            LogOrTableMsgProto::LogMsg(log_msg) => ReadLogOrTableMsgResponse::LogMsg(
                ReadMessagesResponse { log_msg: Some(log_msg) },
            ),
            LogOrTableMsgProto::Table(table) => ReadLogOrTableMsgResponse::TableMsg(
                ReadTablesResponse { id: Some(table.id), data: Some(table.data) },
            ),
            LogOrTableMsgProto::UiCommand(_) => ReadLogOrTableMsgResponse::UiCommand,
        }
    }
}

impl vstd::std_specs::convert::FromSpecImpl<LogOrTableMsgProto> for ReadLogOrTableMsgResponse {
    open spec fn obeys_from_spec() -> bool {
        true
    }

    open spec fn from_spec(proto: LogOrTableMsgProto) -> ReadLogOrTableMsgResponse {
        response(proto)
    }
}

/// What a stream of log messages makes of an item: log messages and errors pass, tables and
/// commands do not.
pub open spec fn log_item<E>(item: Result<ReadLogOrTableMsgResponse, E>) -> Option<
    Result<ReadMessagesResponse, E>,
> {
    match item {
        Ok(ReadLogOrTableMsgResponse::LogMsg(msg)) => Some(Ok(msg)),
        Ok(_) => None,
        Err(err) => Some(Err(err)),
    }
}

/// What a stream of tables makes of an item: tables and errors pass, log messages and commands do
/// not.
pub open spec fn table_item<E>(item: Result<ReadLogOrTableMsgResponse, E>) -> Option<
    Result<ReadTablesResponse, E>,
> {
    match item {
        Ok(ReadLogOrTableMsgResponse::TableMsg(msg)) => Some(Ok(msg)),
        Ok(_) => None,
        Err(err) => Some(Err(err)),
    }
}

/// See [`log_item`].
pub fn log_stream_item<E>(item: Result<ReadLogOrTableMsgResponse, E>) -> (out: Option<
    Result<ReadMessagesResponse, E>,
>)
    ensures
        out == log_item(item),
{
    match item {
        Ok(ReadLogOrTableMsgResponse::LogMsg(msg)) => Some(Ok(msg)),
        Ok(ReadLogOrTableMsgResponse::TableMsg(_)) => None,
        Ok(ReadLogOrTableMsgResponse::UiCommand) => None,
        Err(err) => Some(Err(err)),
    }
}

/// See [`table_item`].
pub fn table_stream_item<E>(item: Result<ReadLogOrTableMsgResponse, E>) -> (out: Option<
    Result<ReadTablesResponse, E>,
>)
    ensures
        out == table_item(item),
{
    match item {
        Ok(ReadLogOrTableMsgResponse::LogMsg(_)) => None,
        Ok(ReadLogOrTableMsgResponse::TableMsg(msg)) => Some(Ok(msg)),
        Ok(ReadLogOrTableMsgResponse::UiCommand) => None,
        Err(err) => Some(Err(err)),
    }
}

/// Each message reaches exactly the streams of its kind, unchanged: a log message those of log
/// messages, a table those of tables, a command none.
pub proof fn streams_carry_their_kind<E>(msg: LogOrTableMsgProto)
    ensures
        log_item::<E>(Ok(response(msg))) == (match msg {
            LogOrTableMsgProto::LogMsg(log_msg) => Some(
                Ok::<ReadMessagesResponse, E>(ReadMessagesResponse { log_msg: Some(log_msg) }),
            ),
            _ => None,
        }),
        table_item::<E>(Ok(response(msg))) == (match msg {
            LogOrTableMsgProto::Table(table) => Some(
                Ok::<ReadTablesResponse, E>(ReadTablesResponse { id: Some(table.id), data: Some(table.data) }),
            ),
            _ => None,
        }),
{
}

/// How the history and what arrives now are put together for a client.
#[derive(Clone, Copy, Debug, PartialEq, Eq, Structural)]
pub enum StreamOrder {
    /// All of the history, then what has arrived since.
    HistoryThenLive,
    /// Whatever arrives first, the history only while nothing does.
    LiveBeforeHistory,
}

/// How the history and what arrives now are put together for a client.
pub fn stream_order(playback_behavior: PlaybackBehavior) -> (order: StreamOrder)
    ensures
        order == (match playback_behavior {
            PlaybackBehavior::OldestFirst => StreamOrder::HistoryThenLive,
            PlaybackBehavior::NewestFirst => StreamOrder::LiveBeforeHistory,
        }),
{
    match playback_behavior {
        PlaybackBehavior::OldestFirst => StreamOrder::HistoryThenLive,
        PlaybackBehavior::NewestFirst => StreamOrder::LiveBeforeHistory,
    }
}

/// What a question for the memory in use is answered, where `event_loop_gone` says whether the event
/// loop can no longer be asked for a newer answer, and `latest` is its last one. Before the first
/// answer it is `empty`.
pub fn capture_memory<T>(event_loop_gone: bool, latest: Option<T>, empty: T) -> (answer: Option<T>)
    ensures
        answer == (if event_loop_gone {
            None
        } else {
            match latest {
                Some(usage) => Some(usage),
                None => Some(empty),
            }
        }),
{
    if event_loop_gone {
        None
    } else {
        match latest {
            Some(usage) => Some(usage),
            None => Some(empty),
        }
    }
}

/// A message that is written is passed on as it is, a request without one is complained of and costs
/// nothing else, and only the end of the client or of its connection ends the writing, the latter not
/// in silence.
pub proof fn every_request_has_its_step(log_msg: LogMsgProto)
    ensures
        write_step(WriteEvent::Request(Some(log_msg))) == WriteStep::Push(log_msg),
        write_step(WriteEvent::Request(None)) == WriteStep::WarnMissing,
        write_step(WriteEvent::Closed) == WriteStep::Stop,
        write_step(WriteEvent::Failed) == WriteStep::StopFailed,
{
}

/// What clients are sent of a log message or a table is all of it, and of a command that there was one.
pub proof fn responses_hold_the_whole_message(
    log_msg: LogMsgProto,
    table: TableMsgProto,
    command: re_log_channel::DataSourceUiCommand,
)
    ensures
        response(LogOrTableMsgProto::LogMsg(log_msg)) == ReadLogOrTableMsgResponse::LogMsg(
            ReadMessagesResponse { log_msg: Some(log_msg) },
        ),
        response(LogOrTableMsgProto::Table(table)) == ReadLogOrTableMsgResponse::TableMsg(
            ReadTablesResponse { id: Some(table.id), data: Some(table.data) },
        ),
        response(LogOrTableMsgProto::UiCommand(command)) == ReadLogOrTableMsgResponse::UiCommand,
        forall|msg: LogOrTableMsgProto|
            #[trigger] <ReadLogOrTableMsgResponse as vstd::std_specs::convert::FromSpec<
                LogOrTableMsgProto,
            >>::from_spec(msg) == response(msg),
        <ReadLogOrTableMsgResponse as vstd::std_specs::convert::FromSpec<
            LogOrTableMsgProto,
        >>::obeys_from_spec(),
{
}

/// Each stream passes on exactly the items of its kind, whatever is in them, and every error, all of them
/// unchanged. No item is passed on by both.
pub proof fn streams_pass_on_their_kind_and_errors<E>(
    msg: ReadMessagesResponse,
    table: ReadTablesResponse,
    err: E,
)
    ensures
        log_item::<E>(Ok(ReadLogOrTableMsgResponse::LogMsg(msg))) == Some(
            Ok::<ReadMessagesResponse, E>(msg),
        ),
        log_item::<E>(Ok(ReadLogOrTableMsgResponse::TableMsg(table))) is None,
        log_item::<E>(Ok(ReadLogOrTableMsgResponse::UiCommand)) is None,
        log_item(Err(err)) == Some(Err::<ReadMessagesResponse, E>(err)),
        table_item::<E>(Ok(ReadLogOrTableMsgResponse::TableMsg(table))) == Some(
            Ok::<ReadTablesResponse, E>(table),
        ),
        table_item::<E>(Ok(ReadLogOrTableMsgResponse::LogMsg(msg))) is None,
        table_item::<E>(Ok(ReadLogOrTableMsgResponse::UiCommand)) is None,
        table_item(Err(err)) == Some(Err::<ReadTablesResponse, E>(err)),
{
}

} // verus!
