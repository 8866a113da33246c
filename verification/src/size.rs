//! How much memory a message takes.

use vstd::prelude::*;
use vstd::utf8::encode_utf8;

use crate::history::{MessageBuffer, store_id_of};
use crate::messages::{
    ArrowMsgProto, LogMsgProto, LogOrTableMsgProto, Msg, SetStoreInfoProto, SizedMsg, StoreIdProto,
    TableMsgProto,
};
use crate::static_key::{key_may_be, key_of, static_key_from_msg};

verus! {

/// Calls `re_byte_size::SizeBytes::heap_size_bytes` on a string.
///
/// Claimed: it is what the string has allocated, which is at least the bytes of its text, and at most
/// what one allocation can be. How much of it is unused depends on the allocator, and is not
/// said.
#[verifier::external_body]
fn text_heap_bytes(text: &String) -> (n: u64)
    ensures
        encode_utf8(text@).len() <= n <= isize::MAX,
{
    re_byte_size::SizeBytes::heap_size_bytes(text)
}

/// Calls `re_byte_size::SizeBytes::heap_size_bytes` on a command.
///
/// Nothing is claimed of the result: it counts what the strings in the command have allocated.
#[verifier::external_body]
fn command_heap_bytes(command: &re_log_channel::DataSourceUiCommand) -> (n: u64) {
    re_byte_size::SizeBytes::heap_size_bytes(command)
}

/// Whether measuring what a string has allocated may give `n`.
pub closed spec fn may_have_allocated(text: String, n: u64) -> bool {
    call_ensures(text_heap_bytes, (&text,), n)
}

/// Whether measuring what a command has allocated may give `n`.
pub closed spec fn command_may_have_allocated(
    command: re_log_channel::DataSourceUiCommand,
    n: u64,
) -> bool {
    call_ensures(command_heap_bytes, (&command,), n)
}

/// The bytes of encoded data that a message carries.
pub open spec fn data_bytes(msg: LogOrTableMsgProto) -> nat {
    match msg {
        LogOrTableMsgProto::LogMsg(log_msg) => match log_msg.msg {
            Some(Msg::ArrowMsg(arrow)) => arrow.payload@.len(),
            Some(Msg::SetStoreInfo(set)) => match set.info {
                Some(info) => match info.store_source {
                    Some(source) => match source.extra {
                        Some(extra) => extra@.len(),
                        None => 0,
                    },
                    None => 0,
                },
                None => 0,
            },
            _ => 0,
        },
        LogOrTableMsgProto::Table(table) => match table.data.payload {
            Some(payload) => payload@.len(),
            None => 0,
        },
        LogOrTableMsgProto::UiCommand(_) => 0,
    }
}

/// The bytes of the texts in a store id.
pub open spec fn id_text_bytes(id: Option<StoreIdProto>) -> nat {
    match id {
        Some(id) => encode_utf8(id.recording_id@).len() + match id.application_id {
            Some(application_id) => encode_utf8(application_id@).len(),
            None => 0,
        },
        None => 0,
    }
}

/// The bytes of the texts in the ids of a message. What is in a command is not visible here, and the
/// application id of a store info, which its store id has taken the place of, does not count.
pub open spec fn id_bytes(msg: LogOrTableMsgProto) -> nat {
    match msg {
        LogOrTableMsgProto::LogMsg(_) => id_text_bytes(store_id_of(msg)),
        LogOrTableMsgProto::Table(table) => encode_utf8(table.id.id@).len(),
        LogOrTableMsgProto::UiCommand(_) => 0,
    }
}

/// Whether the texts of a store id can have allocated `n` bytes together.
pub open spec fn id_may_have_allocated(id: StoreIdProto, n: u64) -> bool {
    exists|recording_id: u64|
        #[trigger] may_have_allocated(id.recording_id, recording_id) && match id.application_id {
            Some(application_id) => recording_id <= n && may_have_allocated(
                application_id,
                (n - recording_id) as u64,
            ),
            None => n == recording_id,
        }
}

/// Whether the texts of a message can have allocated `n` bytes: what measuring each of them may give,
/// which is at least what it holds and at most what one allocation can be. Of a command nothing else is
/// known.
pub open spec fn possible_text_bytes(msg: LogOrTableMsgProto, n: u64) -> bool {
    let largest = match msg {
        LogOrTableMsgProto::LogMsg(_) => match store_id_of(msg) {
            Some(id) => if id.application_id is Some {
                2 * isize::MAX
            } else {
                isize::MAX as int
            },
            None => 0,
        },
        LogOrTableMsgProto::Table(_) => isize::MAX as int,
        LogOrTableMsgProto::UiCommand(_) => u64::MAX as int,
    };
    &&& id_bytes(msg) <= n <= largest
    &&& match msg {
        LogOrTableMsgProto::LogMsg(_) => match store_id_of(msg) {
            Some(id) => id_may_have_allocated(id, n),
            None => n == 0,
        },
        LogOrTableMsgProto::Table(table) => may_have_allocated(table.id.id, n),
        LogOrTableMsgProto::UiCommand(command) => command_may_have_allocated(command, n),
    }
}

/// `n`, or the largest number there is where `n` is larger.
pub open spec fn capped(n: nat) -> u64 {
    if n <= u64::MAX {
        n as u64
    } else {
        u64::MAX
    }
}

/// The memory of a message whose texts have allocated `text_bytes`: the value itself, the data that
/// it carries, and the texts.
pub open spec fn bytes_with_text(msg: LogOrTableMsgProto, text_bytes: u64) -> u64 {
    capped(
        vstd::layout::size_of::<LogOrTableMsgProto>() + data_bytes(msg) + text_bytes as nat,
    )
}

fn data_len(msg: &LogOrTableMsgProto) -> (n: usize)
    ensures
        n == data_bytes(*msg),
{
    match msg {
        LogOrTableMsgProto::LogMsg(log_msg) => match &log_msg.msg {
            Some(Msg::ArrowMsg(arrow)) => arrow.payload.len(),
            Some(Msg::SetStoreInfo(set)) => match &set.info {
                Some(info) => match &info.store_source {
                    Some(source) => match &source.extra {
                        Some(extra) => extra.len(),
                        None => 0,
                    },
                    None => 0,
                },
                None => 0,
            },
            _ => 0,
        },
        LogOrTableMsgProto::Table(table) => match &table.data.payload {
            Some(payload) => payload.len(),
            None => 0,
        },
        LogOrTableMsgProto::UiCommand(_) => 0,
    }
}

fn text_bytes(msg: &LogOrTableMsgProto) -> (n: u64)
    ensures
        possible_text_bytes(*msg, n),
{
    match msg {
        LogOrTableMsgProto::LogMsg(_) => match MessageBuffer::message_store_id(msg) {
            Some(id) => {
                let recording_id: u64 = text_heap_bytes(&id.recording_id);
                assert(may_have_allocated(id.recording_id, recording_id));
                match &id.application_id {
                    Some(application_id) => recording_id + text_heap_bytes(application_id),
                    None => recording_id,
                }
            },
            None => 0,
        },
        LogOrTableMsgProto::Table(table) => text_heap_bytes(&table.id.id),
        LogOrTableMsgProto::UiCommand(command) => command_heap_bytes(command),
    }
}

/// The memory of a message whose texts have been found to take `text_bytes`.
pub fn total_size_with_text(msg: &LogOrTableMsgProto, text_bytes: u64) -> (n: u64)
    ensures
        n == bytes_with_text(*msg, text_bytes),
{
    let stack_bytes: usize = core::mem::size_of::<LogOrTableMsgProto>();
    (stack_bytes as u64).saturating_add(data_len(msg) as u64).saturating_add(text_bytes)
}

impl LogOrTableMsgProto {
    /// The memory that the message takes: the message itself, all its data, and what its texts have
    /// allocated, of which the unused part depends on the allocator.
    pub fn total_size_bytes(&self) -> (n: u64)
        ensures
            exists|text_bytes: u64|
                possible_text_bytes(*self, text_bytes) && n == #[trigger] bytes_with_text(
                    *self,
                    text_bytes,
                ),
    {
        let text_bytes: u64 = text_bytes(self);
        total_size_with_text(self, text_bytes)
    }
}

/// Whether `sized` is `msg` with a size that it can have.
pub open spec fn is_measured(msg: LogOrTableMsgProto, sized: SizedMsg) -> bool {
    &&& sized.msg == msg
    &&& exists|text_bytes: u64|
        possible_text_bytes(msg, text_bytes) && sized.size_bytes == #[trigger] bytes_with_text(
            msg,
            text_bytes,
        )
}

impl SizedMsg {
    /// Measures a message, and looks for its key.
    pub fn new(msg: LogOrTableMsgProto) -> (sized: SizedMsg)
        ensures
            is_measured(msg, sized),
            key_may_be(msg, key_of(sized)),
    {
        let size_bytes: u64 = msg.total_size_bytes();
        let static_key = static_key_from_msg(&msg);
        SizedMsg { msg, size_bytes, static_key }
    }

    /// Measures a message whose key plays no part.
    pub fn without_key(msg: LogOrTableMsgProto) -> (sized: SizedMsg)
        ensures
            is_measured(msg, sized),
            sized.static_key is None,
    {
        let size_bytes: u64 = msg.total_size_bytes();
        SizedMsg { msg, size_bytes, static_key: None }
    }
}

/// The size of a message is that of the value, of the bytes of data in it, and of what its texts have
/// allocated, added up as far as a counter reaches: more data or longer texts never count for less.
pub proof fn sizes_count_all_data_and_texts(
    arrow: ArrowMsgProto,
    set: SetStoreInfoProto,
    table: TableMsgProto,
    msg: LogOrTableMsgProto,
    text_bytes: u64,
)
    ensures
        data_bytes(LogOrTableMsgProto::LogMsg(LogMsgProto { msg: Some(Msg::ArrowMsg(arrow)) }))
            == arrow.payload@.len(),
        set.info matches Some(info) ==> (info.store_source matches Some(source) ==> (
        source.extra matches Some(extra) ==> data_bytes(
            LogOrTableMsgProto::LogMsg(LogMsgProto { msg: Some(Msg::SetStoreInfo(set)) }),
        ) == extra@.len())),
        !(set.info matches Some(info) && info.store_source matches Some(source)
            && source.extra is Some) ==> data_bytes(
            LogOrTableMsgProto::LogMsg(LogMsgProto { msg: Some(Msg::SetStoreInfo(set)) }),
        ) == 0,
        table.data.payload matches Some(payload) ==> data_bytes(LogOrTableMsgProto::Table(table))
            == payload@.len(),
        table.data.payload is None ==> data_bytes(LogOrTableMsgProto::Table(table)) == 0,
        data_bytes(msg) == 0 || (msg matches LogOrTableMsgProto::LogMsg(log_msg) && (
        log_msg.msg matches Some(Msg::ArrowMsg(_)) || log_msg.msg matches Some(Msg::SetStoreInfo(_))))
            || msg is Table,
        ({
            let sum = vstd::layout::size_of::<LogOrTableMsgProto>() + data_bytes(msg) + text_bytes;
            &&& sum <= u64::MAX ==> bytes_with_text(msg, text_bytes) == sum
            &&& sum > u64::MAX ==> bytes_with_text(msg, text_bytes) == u64::MAX
        }),
{
}

/// The texts of a message are the recording id and the application id of its store, or the id of its
/// table. They count with what measuring each of them gives, and so with at least the bytes that they hold
/// and at most what an allocation can be.
pub proof fn texts_count_with_what_they_take(msg: LogOrTableMsgProto, text_bytes: u64)
    requires
        possible_text_bytes(msg, text_bytes),
    ensures
        msg matches LogOrTableMsgProto::UiCommand(command) ==> command_may_have_allocated(
            command,
            text_bytes,
        ),
        msg matches LogOrTableMsgProto::Table(table) ==> {
            &&& may_have_allocated(table.id.id, text_bytes)
            &&& encode_utf8(table.id.id@).len() <= text_bytes <= isize::MAX
        },
        msg is LogMsg && store_id_of(msg) is None ==> text_bytes == 0,
        msg is LogMsg ==> (store_id_of(msg) matches Some(id) ==> (id.application_id is None ==> {
            &&& may_have_allocated(id.recording_id, text_bytes)
            &&& encode_utf8(id.recording_id@).len() <= text_bytes <= isize::MAX
        })),
        msg is LogMsg ==> (store_id_of(msg) matches Some(id) ==> (
        id.application_id matches Some(application_id) ==> {
            &&& encode_utf8(id.recording_id@).len() + encode_utf8(application_id@).len()
                <= text_bytes <= 2 * isize::MAX
            &&& exists|a: u64, b: u64|
                #[trigger] may_have_allocated(id.recording_id, a) && #[trigger] may_have_allocated(
                    application_id,
                    b,
                ) && a + b == text_bytes
        })),
{
    match msg {
        LogOrTableMsgProto::Table(table) => only_measuring_counts(table.id.id, text_bytes),
        LogOrTableMsgProto::UiCommand(command) => only_measuring_commands_counts(
            command,
            text_bytes,
        ),
        LogOrTableMsgProto::LogMsg(_) => {},
    }
}

/// A message that has been measured is the message that came, and its size counts all of its data and
/// texts.
pub proof fn measured_messages_are_those_that_came(msg: LogOrTableMsgProto, sized: SizedMsg)
    requires
        is_measured(msg, sized),
    ensures
        sized.msg == msg,
        exists|text_bytes: u64| #[trigger]
            possible_text_bytes(msg, text_bytes) && sized.size_bytes == bytes_with_text(
                msg,
                text_bytes,
            ),
        sized.size_bytes < u64::MAX ==> sized.size_bytes >= vstd::layout::size_of::<
            LogOrTableMsgProto,
        >() + data_bytes(msg) + id_bytes(msg),
{
}

/// What a text counts with is what it was measured to have allocated, and nothing else.
proof fn only_measuring_counts(text: String, n: u64)
    requires
        may_have_allocated(text, n),
    ensures
        call_ensures(text_heap_bytes, (&text,), n),
        encode_utf8(text@).len() <= n <= isize::MAX,
{
}

/// Likewise a command.
proof fn only_measuring_commands_counts(command: re_log_channel::DataSourceUiCommand, n: u64)
    requires
        command_may_have_allocated(command, n),
    ensures
        call_ensures(command_heap_bytes, (&command,), n),
{
}

} // verus!
