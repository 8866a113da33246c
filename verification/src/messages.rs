//! The messages that go through the proxy, as plain values.
//!
//! Field for field these are the transport messages of `re_protos`, so that a message can be
//! taken in and handed out again unchanged.

use vstd::prelude::*;

use crate::static_key::StaticKey;

verus! {

/// A command to the viewer's user interface. Nothing here looks inside one.
#[verifier::external_type_specification]
#[verifier::external_body]
pub struct ExDataSourceUiCommand(re_log_channel::DataSourceUiCommand);

/// A time-based unique id.
#[derive(Clone, Copy, Debug, PartialEq, Eq)]
pub struct TuidProto {
    pub time_ns: Option<u64>,
    pub inc: Option<u64>,
}

/// What a store holds.
#[derive(Clone, Copy, Debug, PartialEq, Eq, Structural)]
pub enum StoreKindProto {
    Unspecified,
    Recording,
    Blueprint,
}

/// The id of a store: a recording or a blueprint.
#[derive(Debug, PartialEq, Eq)]
pub struct StoreIdProto {
    /// The number of the kind on the wire. See [`StoreIdProto::kind`].
    pub kind: i32,
    /// Tells the store from all others of its kind.
    pub recording_id: String,
    pub application_id: Option<String>,
}

impl Clone for StoreIdProto {
    fn clone(&self) -> (id: StoreIdProto)
        ensures
            id == *self,
    {
        let application_id: Option<String> = match &self.application_id {
            Some(application_id) => Some(application_id.clone()),
            None => None,
        };
        StoreIdProto { kind: self.kind, recording_id: self.recording_id.clone(), application_id }
    }
}

/// The kind that a number on the wire stands for. A number without a kind is `Unspecified`.
pub open spec fn store_kind(kind: i32) -> StoreKindProto {
    if kind == 1 {
        StoreKindProto::Recording
    } else if kind == 2 {
        StoreKindProto::Blueprint
    } else {
        StoreKindProto::Unspecified
    }
}

impl StoreIdProto {
    /// The kind of the store.
    pub fn kind(&self) -> (kind: StoreKindProto)
        ensures
            kind == store_kind(self.kind),
    {
        if self.kind == 1 {
            StoreKindProto::Recording
        } else if self.kind == 2 {
            StoreKindProto::Blueprint
        } else {
            StoreKindProto::Unspecified
        }
    }
}

/// Where a store came from.
#[derive(Clone, Debug, PartialEq, Eq)]
pub struct StoreSourceProto {
    pub kind: i32,
    pub extra: Option<Vec<u8>>,
}

/// What is known of a store.
#[derive(Clone, Debug, PartialEq, Eq)]
pub struct StoreInfoProto {
    pub application_id: Option<String>,
    pub store_id: Option<StoreIdProto>,
    pub store_source: Option<StoreSourceProto>,
    /// The version of the store, as encoded bits.
    pub store_version: Option<i32>,
}

/// Announces a store.
#[derive(Clone, Debug, PartialEq, Eq)]
pub struct SetStoreInfoProto {
    pub row_id: Option<TuidProto>,
    pub info: Option<StoreInfoProto>,
}

/// A chunk of data.
#[derive(Clone, Debug, PartialEq, Eq)]
pub struct ArrowMsgProto {
    pub store_id: Option<StoreIdProto>,
    pub chunk_id: Option<TuidProto>,
    /// The number of the compression on the wire.
    pub compression: i32,
    pub uncompressed_size: u64,
    /// The number of the encoding on the wire.
    pub encoding: i32,
    /// The encoded and compressed chunk.
    pub payload: Vec<u8>,
    /// `Some(true)` for a chunk that holds only data without a time.
    pub is_static: Option<bool>,
}

/// Tells viewers to use a blueprint, now that all of it has been sent.
#[derive(Clone, Debug, PartialEq, Eq)]
pub struct BlueprintActivationCommandProto {
    pub blueprint_id: Option<StoreIdProto>,
    pub make_active: bool,
    pub make_default: bool,
}

/// What a log message carries.
#[derive(Clone, Debug, PartialEq, Eq)]
pub enum Msg {
    SetStoreInfo(SetStoreInfoProto),
    ArrowMsg(ArrowMsgProto),
    BlueprintActivationCommand(BlueprintActivationCommandProto),
}

/// A log message. One without a payload is malformed.
#[derive(Clone, Debug, PartialEq, Eq)]
pub struct LogMsgProto {
    pub msg: Option<Msg>,
}

/// The id of a table.
#[derive(Clone, Debug, PartialEq, Eq)]
pub struct TableIdProto {
    pub id: String,
}

/// The contents of a table.
#[derive(Clone, Debug, PartialEq, Eq)]
pub struct DataframePartProto {
    pub encoder_version: i32,
    pub payload: Option<Vec<u8>>,
    pub compression: i32,
    pub uncompressed_size: u64,
}

/// A table with its id.
#[derive(Clone, Debug, PartialEq, Eq)]
pub struct TableMsgProto {
    pub id: TableIdProto,
    pub data: DataframePartProto,
}

/// Anything that the proxy takes in and sends on.
#[derive(Debug)]
pub enum LogOrTableMsgProto {
    LogMsg(LogMsgProto),
    Table(TableMsgProto),
    UiCommand(re_log_channel::DataSourceUiCommand),
}

impl From<LogMsgProto> for LogOrTableMsgProto {
    fn from(value: LogMsgProto) -> (msg: LogOrTableMsgProto) {
        LogOrTableMsgProto::LogMsg(value)
    }
}

impl vstd::std_specs::convert::FromSpecImpl<LogMsgProto> for LogOrTableMsgProto {
    open spec fn obeys_from_spec() -> bool {
        true
    }

    open spec fn from_spec(value: LogMsgProto) -> LogOrTableMsgProto {
        LogOrTableMsgProto::LogMsg(value)
    }
}

impl From<TableMsgProto> for LogOrTableMsgProto {
    fn from(value: TableMsgProto) -> (msg: LogOrTableMsgProto) {
        LogOrTableMsgProto::Table(value)
    }
}

impl vstd::std_specs::convert::FromSpecImpl<TableMsgProto> for LogOrTableMsgProto {
    open spec fn obeys_from_spec() -> bool {
        true
    }

    open spec fn from_spec(value: TableMsgProto) -> LogOrTableMsgProto {
        LogOrTableMsgProto::Table(value)
    }
}

impl From<re_log_channel::DataSourceUiCommand> for LogOrTableMsgProto {
    fn from(value: re_log_channel::DataSourceUiCommand) -> (msg: LogOrTableMsgProto) {
        LogOrTableMsgProto::UiCommand(value)
    }
}

impl vstd::std_specs::convert::FromSpecImpl<re_log_channel::DataSourceUiCommand>
    for LogOrTableMsgProto {
    open spec fn obeys_from_spec() -> bool {
        true
    }

    open spec fn from_spec(value: re_log_channel::DataSourceUiCommand) -> LogOrTableMsgProto {
        LogOrTableMsgProto::UiCommand(value)
    }
}

/// A message with what is found out about it once, as it arrives. See [`SizedMsg::new`].
#[derive(Debug)]
pub struct SizedMsg {
    pub msg: LogOrTableMsgProto,
    /// The size of the message in memory, in bytes.
    pub size_bytes: u64,
    /// What the message is about, if it is a static chunk and that could be found.
    pub static_key: Option<StaticKey>,
}

/// What a message is made from is all in it, unchanged.
pub proof fn messages_hold_what_they_are_made_from(
    log_msg: LogMsgProto,
    table: TableMsgProto,
    command: re_log_channel::DataSourceUiCommand,
)
    ensures
        <LogOrTableMsgProto as vstd::std_specs::convert::FromSpec<LogMsgProto>>::from_spec(log_msg)
            == LogOrTableMsgProto::LogMsg(log_msg),
        <LogOrTableMsgProto as vstd::std_specs::convert::FromSpec<TableMsgProto>>::from_spec(table)
            == LogOrTableMsgProto::Table(table),
        <LogOrTableMsgProto as vstd::std_specs::convert::FromSpec<
            re_log_channel::DataSourceUiCommand,
        >>::from_spec(command) == LogOrTableMsgProto::UiCommand(command),
        <LogOrTableMsgProto as vstd::std_specs::convert::FromSpec<LogMsgProto>>::obeys_from_spec(),
        <LogOrTableMsgProto as vstd::std_specs::convert::FromSpec<TableMsgProto>>::obeys_from_spec(),
        <LogOrTableMsgProto as vstd::std_specs::convert::FromSpec<
            re_log_channel::DataSourceUiCommand,
        >>::obeys_from_spec(),
{
}

} // verus!
