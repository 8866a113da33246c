//! Queues and histories on messages made by hand.

use re_log_channel::DataSourceUiCommand;
use re_log_types::{StoreId, StoreKind};

use re_grpc_server::event_loop::EventLoop;
use re_grpc_server::history::MessageBuffer;
use re_grpc_server::messages::{
    ArrowMsgProto, BlueprintActivationCommandProto, DataframePartProto, LogMsgProto,
    LogOrTableMsgProto, Msg, SetStoreInfoProto, SizedMsg, StoreIdProto, StoreInfoProto,
    StoreKindProto, StoreSourceProto, TableIdProto, TableMsgProto,
};
use re_grpc_server::options::{
    DEFAULT_SERVER_PORT, MAX_DECODING_MESSAGE_SIZE, MAX_ENCODING_MESSAGE_SIZE,
};
use re_grpc_server::queue::MsgQueue;
use re_grpc_server::size::total_size_with_text;
use re_grpc_server::static_key::{
    other_keys, static_key_from_msg, static_key_with_path, StaticKey,
};
use re_grpc_server::{MemoryLimit, PlaybackBehavior, ServerOptions};

const RECORDING: i32 = 1;
const BLUEPRINT: i32 = 2;

fn id(kind: i32, recording_id: &str) -> StoreIdProto {
    StoreIdProto { kind, recording_id: recording_id.to_owned(), application_id: None }
}

fn log(msg: Option<Msg>, size_bytes: u64) -> SizedMsg {
    SizedMsg { msg: LogOrTableMsgProto::LogMsg(LogMsgProto { msg }), size_bytes, static_key: None }
}

fn arrow(store_id: Option<StoreIdProto>, is_static: Option<bool>) -> ArrowMsgProto {
    ArrowMsgProto {
        store_id,
        chunk_id: None,
        compression: 1,
        uncompressed_size: 0,
        encoding: 1,
        payload: vec![7],
        is_static,
    }
}

fn chunk(kind: i32, recording_id: &str, is_static: bool, size_bytes: u64) -> SizedMsg {
    let is_static = if is_static { Some(true) } else { None };
    log(Some(Msg::ArrowMsg(arrow(Some(id(kind, recording_id)), is_static))), size_bytes)
}

fn info(kind: i32, recording_id: &str, size_bytes: u64) -> SizedMsg {
    let info = StoreInfoProto {
        application_id: None,
        store_id: Some(id(kind, recording_id)),
        store_source: None,
        store_version: None,
    };
    log(Some(Msg::SetStoreInfo(SetStoreInfoProto { row_id: None, info: Some(info) })), size_bytes)
}

fn activate(recording_id: Option<&str>, size_bytes: u64) -> SizedMsg {
    let cmd = BlueprintActivationCommandProto {
        blueprint_id: recording_id.map(|recording_id| id(BLUEPRINT, recording_id)),
        make_active: true,
        make_default: false,
    };
    log(Some(Msg::BlueprintActivationCommand(cmd)), size_bytes)
}

fn table(name: &str, size_bytes: u64) -> SizedMsg {
    let table = TableMsgProto {
        id: TableIdProto { id: name.to_owned() },
        data: DataframePartProto {
            encoder_version: 1,
            payload: None,
            compression: 0,
            uncompressed_size: 0,
        },
    };
    SizedMsg { msg: table.into(), size_bytes, static_key: None }
}

fn command(size_bytes: u64) -> SizedMsg {
    let command = DataSourceUiCommand::SetUrlFragment {
        store_id: StoreId::random(StoreKind::Recording, "test_app"),
        fragment: "here".to_owned(),
    };
    SizedMsg { msg: command.into(), size_bytes, static_key: None }
}

fn sizes(queue: &MsgQueue) -> Vec<u64> {
    queue.iter().iter().map(|msg| msg.size_bytes).collect()
}

fn parts(buffer: &MessageBuffer) -> (Vec<u64>, Vec<u64>, Vec<u64>) {
    (sizes(&buffer.persistent), sizes(&buffer.static_), sizes(&buffer.disposable))
}

#[test]
fn messages_are_measured_with_all_they_hold() {
    let own = core::mem::size_of::<LogOrTableMsgProto>() as u64;
    assert_eq!(log(None, 0).msg.total_size_bytes(), own);
    assert_eq!(info(RECORDING, "recording", 0).msg.total_size_bytes(), own + 9);
    assert_eq!(activate(Some("blueprint"), 0).msg.total_size_bytes(), own + 9);
    // A byte of data, and the recording id.
    assert_eq!(chunk(RECORDING, "r", false, 0).msg.total_size_bytes(), own + 2);
    assert_eq!(table("table", 0).msg.total_size_bytes(), own + 5);

    let application = StoreIdProto { application_id: Some("app".to_owned()), ..id(RECORDING, "r") };
    let with_application = log(Some(Msg::ArrowMsg(arrow(Some(application), None))), 0);
    assert_eq!(with_application.msg.total_size_bytes(), own + 5);

    assert!(command(0).msg.total_size_bytes() >= own + 4);
    assert_eq!(SizedMsg::new(table("table", 0).msg).size_bytes, own + 5);
    assert_eq!(total_size_with_text(&table("table", 0).msg, 7), own + 7);
    assert_eq!(total_size_with_text(&table("table", 0).msg, u64::MAX), u64::MAX);
}

#[test]
fn data_is_measured_where_it_is() {
    let own = core::mem::size_of::<LogOrTableMsgProto>() as u64;
    let source = StoreSourceProto { kind: 0, extra: Some(vec![0; 100]) };
    let info = StoreInfoProto {
        application_id: Some("not counted".to_owned()),
        store_id: None,
        store_source: Some(source),
        store_version: None,
    };
    let set = SetStoreInfoProto { row_id: None, info: Some(info) };
    assert_eq!(log(Some(Msg::SetStoreInfo(set)), 0).msg.total_size_bytes(), own + 100);
    let data = DataframePartProto {
        encoder_version: 1,
        payload: Some(vec![0; 30]),
        compression: 0,
        uncompressed_size: 1000,
    };
    let table = TableMsgProto { id: TableIdProto { id: String::new() }, data };
    assert_eq!(LogOrTableMsgProto::from(table).total_size_bytes(), own + 30);
}

#[test]
fn queue_counts_what_it_holds() {
    let mut queue = MsgQueue::new();
    assert_eq!((queue.len(), queue.size_bytes()), (0, 0));
    assert!(queue.pop_front().is_none());
    for size in [10, 20, 30] {
        queue.push_back(table("t", size));
    }
    assert_eq!((sizes(&queue), queue.size_bytes()), (vec![10, 20, 30], 60));
    assert_eq!(queue.pop_front().map(|msg| msg.size_bytes), Some(10));
    assert_eq!((sizes(&queue), queue.size_bytes()), (vec![20, 30], 50));
}

#[test]
fn retain_keeps_the_order_and_the_count() {
    let mut queue = MsgQueue::new();
    queue.push_back(table("a", 1));
    queue.push_back(chunk(RECORDING, "r", false, 2));
    queue.push_back(table("b", 4));
    queue.push_back(command(8));
    queue.retain(|msg| matches!(msg, LogOrTableMsgProto::Table(_)));
    assert_eq!((sizes(&queue), queue.size_bytes()), (vec![1, 4], 5));
    queue.retain_selected(&vec![false, true]);
    assert_eq!((sizes(&queue), queue.size_bytes()), (vec![4], 4));
}

#[test]
fn drop_oldest_takes_at_least_one_and_stops_below_the_limit() {
    let mut queue = MsgQueue::new();
    for size in [10, 20, 30] {
        queue.push_back(table("t", size));
    }
    // 50 is not below 50.
    queue.drop_oldest(0, 50);
    assert_eq!(sizes(&queue), vec![30]);
    queue.drop_oldest(0, 1000);
    assert_eq!(sizes(&queue), Vec::<u64>::new());
    queue.drop_oldest(5, 5);
    assert_eq!(queue.size_bytes(), 0);
}

#[test]
fn messages_are_filed_by_how_long_they_are_kept() {
    let mut buffer = MessageBuffer::new(false);
    buffer.add_msg(info(RECORDING, "r", 1));
    buffer.add_msg(chunk(BLUEPRINT, "b", true, 2));
    buffer.add_msg(activate(Some("b"), 3));
    buffer.add_msg(chunk(RECORDING, "r", true, 4));
    buffer.add_msg(chunk(RECORDING, "r", false, 5));
    buffer.add_msg(chunk(0, "u", true, 6));
    buffer.add_msg(chunk(77, "u", false, 7));
    buffer.add_msg(log(Some(Msg::ArrowMsg(arrow(None, Some(false)))), 8));
    buffer.add_msg(log(None, 9));
    buffer.add_msg(table("t", 10));
    buffer.add_msg(command(11));
    assert_eq!(parts(&buffer), (vec![1, 2, 3], vec![4, 6], vec![5, 7, 8, 10, 11]));
    assert_eq!(buffer.size_bytes(), 57);
}

#[test]
fn skeleton_buffer_takes_nothing_disposable() {
    let mut buffer = MessageBuffer::new(true);
    buffer.add_msg(info(RECORDING, "r", 1));
    buffer.add_msg(chunk(RECORDING, "r", false, 2));
    buffer.add_msg(table("t", 4));
    buffer.add_msg(command(8));
    buffer.add_msg(log(None, 16));
    assert_eq!(parts(&buffer), (vec![1], vec![], vec![]));
}

#[test]
fn superseded_blueprints_stay_unless_only_the_skeleton_is_kept() {
    for drop_temporal in [false, true] {
        let mut buffer = MessageBuffer::new(drop_temporal);
        buffer.add_msg(info(RECORDING, "r", 1));
        buffer.add_msg(info(BLUEPRINT, "b1", 2));
        buffer.add_msg(chunk(BLUEPRINT, "b1", false, 3));
        buffer.add_msg(activate(Some("b1"), 4));
        buffer.add_msg(activate(None, 5));
        buffer.add_msg(info(BLUEPRINT, "b2", 6));
        buffer.add_msg(activate(Some("b2"), 7));
        let expected = if drop_temporal { vec![1, 5, 6, 7] } else { vec![1, 2, 3, 4, 5, 6, 7] };
        assert_eq!(sizes(&buffer.persistent), expected);
    }
}

#[test]
fn static_chunks_are_replaced_by_their_keys() {
    let key = |entity_path: &str| {
        Some(StaticKey { recording_id: "r".to_owned(), entity_path: entity_path.to_owned() })
    };
    let keyed = |entity_path: Option<&str>, size: u64| SizedMsg {
        static_key: entity_path.and_then(key),
        ..chunk(RECORDING, "r", true, size)
    };
    let mut buffer = MessageBuffer::new(true);
    buffer.add_msg(keyed(Some("/a"), 1));
    buffer.add_msg(keyed(None, 2));
    buffer.add_msg(keyed(Some("/b"), 3));
    assert_eq!(
        other_keys(&buffer.static_.iter(), &key("/a").unwrap()),
        vec![false, true, true]
    );
    buffer.replace_static(keyed(Some("/a"), 4));
    assert_eq!(sizes(&buffer.static_), vec![2, 3, 4]);
    buffer.add_msg(keyed(None, 5));
    assert_eq!(sizes(&buffer.static_), vec![2, 3, 4, 5]);
    // Where all is kept, keys play no part.
    let mut buffer = MessageBuffer::new(false);
    buffer.add_msg(keyed(Some("/a"), 1));
    buffer.add_msg(keyed(Some("/a"), 2));
    assert_eq!(sizes(&buffer.static_), vec![1, 2]);
}

#[test]
fn key_is_the_recording_and_the_path() {
    let chunk = arrow(Some(id(RECORDING, "r")), Some(true));
    assert_eq!(
        static_key_with_path(&chunk, Some("/a".to_owned())),
        Some(StaticKey { recording_id: "r".to_owned(), entity_path: "/a".to_owned() })
    );
    assert_eq!(static_key_with_path(&chunk, None), None);
    assert_eq!(static_key_with_path(&arrow(None, Some(true)), Some("/a".to_owned())), None);
    let temporal = arrow(Some(id(RECORDING, "r")), None);
    assert_eq!(static_key_with_path(&temporal, Some("/a".to_owned())), None);
}

#[test]
fn chunks_that_need_more_than_all_memory_have_no_key() {
    let mut huge = arrow(Some(id(RECORDING, "r")), Some(true));
    huge.compression = 2;
    huge.uncompressed_size = u64::MAX;
    let mut buffer = MessageBuffer::new(true);
    for _ in 0..2 {
        let msg = log(Some(Msg::ArrowMsg(huge.clone())), 1);
        assert_eq!(static_key_from_msg(&msg.msg), None);
        buffer.add_msg(msg);
    }
    assert_eq!(buffer.static_.len(), 2);
}

#[test]
fn memory_that_cannot_be_counted_is_told_apart() {
    let mut buffer = MessageBuffer::new(false);
    buffer.add_msg(table("t", u64::MAX));
    assert!(!buffer.can_take(&table("t", 1)));
    assert!(buffer.can_take(&table("t", 0)));
    assert!(buffer.can_take(&log(None, 1)));
    let mut skeleton = MessageBuffer::new(true);
    skeleton.add_msg(info(RECORDING, "r", u64::MAX));
    assert!(!skeleton.can_take(&chunk(RECORDING, "r", true, 1)));
    assert!(skeleton.can_take(&chunk(RECORDING, "r", false, 1)));
    assert!(skeleton.can_take(&table("t", 1)));
}

#[test]
fn queue_gives_back_what_was_put_in() {
    let sizes = [5, 0, 7, 11];
    let mut queue = MsgQueue::new();
    for (i, size) in sizes.into_iter().enumerate() {
        queue.push_back(table(&format!("{i}"), size));
    }
    for (i, size) in sizes.into_iter().enumerate() {
        let popped = queue.pop_front().unwrap();
        assert_eq!(popped.size_bytes, size);
        assert!(matches!(popped.msg, LogOrTableMsgProto::Table(t) if t.id.id == format!("{i}")));
        assert_eq!(queue.size_bytes(), sizes[i + 1..].iter().sum::<u64>());
    }
    for _ in 0..2 {
        assert!(queue.pop_front().is_none());
        assert_eq!((queue.len(), queue.size_bytes()), (0, 0));
    }
}

fn filled() -> MessageBuffer {
    let mut buffer = MessageBuffer::new(false);
    buffer.add_msg(info(RECORDING, "r", 100));
    for size in [10, 20] {
        buffer.add_msg(chunk(RECORDING, "r", true, size));
    }
    for size in [1, 2, 3] {
        buffer.add_msg(chunk(RECORDING, "r", false, size));
    }
    buffer
}

#[test]
fn gc_gives_up_the_oldest_of_the_least_important() {
    // 136 bytes are held.
    let after = |max_bytes: u64| {
        let mut buffer = filled();
        buffer.gc(max_bytes);
        parts(&buffer)
    };
    assert_eq!(after(136), (vec![100], vec![10, 20], vec![1, 2, 3]));
    assert_eq!(after(135), (vec![100], vec![10, 20], vec![3]));
    assert_eq!(after(134), (vec![100], vec![10, 20], vec![3]));
    assert_eq!(after(133), (vec![100], vec![10, 20], vec![]));
    assert_eq!(after(130), (vec![100], vec![10, 20], vec![]));
    assert_eq!(after(129), (vec![100], vec![20], vec![]));
    assert_eq!(after(120), (vec![100], vec![], vec![]));
    assert_eq!(after(1), (vec![100], vec![], vec![]));
    assert_eq!(after(0), (vec![100], vec![], vec![]));
}

#[test]
fn replay_is_in_parts_in_either_order() {
    let buffer = filled();
    let is_static = |msg: &LogOrTableMsgProto| match msg {
        LogOrTableMsgProto::LogMsg(LogMsgProto { msg: Some(Msg::ArrowMsg(arrow)) }) => {
            Some(arrow.is_static == Some(true))
        }
        _ => None,
    };
    for playback in [PlaybackBehavior::OldestFirst, PlaybackBehavior::NewestFirst] {
        let kinds: Vec<_> = buffer.all(playback).into_iter().map(is_static).collect();
        assert_eq!(
            kinds,
            vec![None, Some(true), Some(true), Some(false), Some(false), Some(false)]
        );
    }
}

#[test]
fn store_of_a_message() {
    let store = |msg: SizedMsg| {
        MessageBuffer::message_store_id(&msg.msg)
            .map(|id| (id.kind(), id.recording_id.clone()))
    };
    assert_eq!(store(info(RECORDING, "r", 1)), Some((StoreKindProto::Recording, "r".to_owned())));
    assert_eq!(
        store(chunk(BLUEPRINT, "b", false, 1)),
        Some((StoreKindProto::Blueprint, "b".to_owned()))
    );
    assert_eq!(store(activate(Some("b"), 1)), Some((StoreKindProto::Blueprint, "b".to_owned())));
    assert_eq!(store(chunk(3, "x", false, 1)), Some((StoreKindProto::Unspecified, "x".to_owned())));
    assert_eq!(store(activate(None, 1)), None);
    assert_eq!(store(log(None, 1)), None);
    assert_eq!(store(table("t", 1)), None);
    let bare = Msg::SetStoreInfo(SetStoreInfoProto { row_id: None, info: None });
    assert_eq!(store(log(Some(bare), 1)), None);
}

#[test]
fn store_ids_are_cloned_whole() {
    let id = StoreIdProto {
        kind: RECORDING,
        recording_id: "r".to_owned(),
        application_id: Some("app".to_owned()),
    };
    assert_eq!(id.clone(), id);
}

fn server(memory_limit: MemoryLimit, drop_temporal_history: bool) -> EventLoop {
    EventLoop::new(ServerOptions { memory_limit, drop_temporal_history, ..Default::default() })
}

#[test]
fn default_options() {
    let options = ServerOptions::default();
    assert_eq!(options.playback_behavior, PlaybackBehavior::OldestFirst);
    assert_eq!(options.memory_limit, MemoryLimit::from_bytes(1024 * 1024 * 1024));
    assert_eq!(options.cors_allowed_origins, Vec::<String>::new());
    assert!(!options.drop_temporal_history);
    assert_eq!(options.live_temporal_budget_bytes, None);
    assert_eq!(DEFAULT_SERVER_PORT, 9876);
    assert_eq!(MAX_DECODING_MESSAGE_SIZE, u32::MAX as usize);
    assert_eq!(MAX_ENCODING_MESSAGE_SIZE, u32::MAX as usize);
}

#[test]
fn newest_first_is_chosen_by_the_flag() {
    assert_eq!(PlaybackBehavior::from_newest_first(true), PlaybackBehavior::NewestFirst);
    assert_eq!(PlaybackBehavior::from_newest_first(false), PlaybackBehavior::OldestFirst);
}

#[test]
fn memory_limits() {
    assert!(MemoryLimit::from_bytes(0).is_limited());
    assert!(!MemoryLimit::unlimited().is_limited());
    assert_eq!(MemoryLimit::from_bytes(17).as_bytes(), 17);
    assert_eq!(MemoryLimit::unlimited().as_bytes(), u64::MAX);
}

#[test]
fn zero_limit_keeps_only_a_skeleton_that_is_asked_for() {
    for (drop_temporal, expected) in [(false, 0), (true, 2)] {
        let mut server = server(MemoryLimit::from_bytes(0), drop_temporal);
        assert_eq!(server.is_history_enabled(), drop_temporal);
        for msg in [
            info(RECORDING, "r", 1),
            chunk(RECORDING, "r", true, 2),
            chunk(RECORDING, "r", false, 4),
        ] {
            assert!(server.can_record_msg(&msg));
            server.record_msg(msg);
        }
        assert_eq!(server.new_client().len(), expected);
    }
}

#[test]
fn skeleton_is_kept_whatever_the_limit() {
    let mut server = server(MemoryLimit::from_bytes(1), true);
    for size in [10, 20, 30] {
        server.record_msg(chunk(RECORDING, "r", true, size));
    }
    server.gc_if_using_too_much_ram();
    assert_eq!(server.history.size_bytes(), 60);
}

#[test]
fn latest_message_is_kept_whatever_the_limit() {
    let mut server = server(MemoryLimit::from_bytes(1), false);
    for size in [10, 20, 30] {
        server.record_msg(chunk(RECORDING, "r", true, size));
    }
    assert_eq!(sizes(&server.history.static_), vec![30]);
}

#[test]
fn memory_is_reported_by_name() {
    let mut server = server(MemoryLimit::unlimited(), false);
    server.record_msg(info(RECORDING, "r", 1));
    server.record_msg(chunk(RECORDING, "r", true, 2));
    server.record_msg(chunk(RECORDING, "r", false, 4));
    assert_eq!(
        server.capture_mem_usage_tree(8),
        vec![
            ("disposable", 4),
            ("static", 2),
            ("persistent", 1),
            ("broadcast", 8),
            ("live_dropped", 0),
        ]
    );
}
