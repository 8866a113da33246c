//! The proxy on messages as the SDK encodes them: what clients are sent, live and as history.

use re_log_encoding::rrd::Compression;
use re_log_encoding::{CachingApplicationIdInjector, ToTransport};
use re_log_types::{LogMsg, SetStoreInfo, StoreId, StoreInfo, StoreKind, StoreSource};
use re_protos::log_msg::v1alpha1 as transport;

use re_grpc_server::channels::{take_in_log_msg, IntakeStep};
use re_grpc_server::event_loop::EventLoop;
use re_grpc_server::history::MessageBuffer;
use re_grpc_server::live::{is_temporal, LiveOccupancy};
use re_grpc_server::messages::{
    ArrowMsgProto, BlueprintActivationCommandProto, DataframePartProto, LogMsgProto,
    LogOrTableMsgProto, Msg, SetStoreInfoProto, SizedMsg, StoreIdProto, StoreInfoProto,
    StoreSourceProto, TableIdProto, TableMsgProto, TuidProto,
};
use re_grpc_server::relay::{relay, relayed_log_msg, relayed_table, Relayed};
use re_grpc_server::static_key::{static_key_from_arrow, StaticKey};
use re_grpc_server::{MemoryLimit, PlaybackBehavior, ServerOptions};

fn store_id(id: re_protos::common::v1alpha1::StoreId) -> StoreIdProto {
    StoreIdProto {
        kind: id.kind,
        recording_id: id.recording_id,
        application_id: id.application_id.map(|id| id.id),
    }
}

fn tuid(id: re_protos::common::v1alpha1::Tuid) -> TuidProto {
    TuidProto { time_ns: id.time_ns, inc: id.inc }
}

#[allow(deprecated)]
fn store_info(info: transport::StoreInfo) -> StoreInfoProto {
    StoreInfoProto {
        application_id: info.application_id.map(|id| id.id),
        store_id: info.store_id.map(store_id),
        store_source: info.store_source.map(|source| StoreSourceProto {
            kind: source.kind,
            extra: source.extra.map(|extra| extra.payload.to_vec()),
        }),
        store_version: info.store_version.map(|version| version.crate_version_bits),
    }
}

fn payload(msg: transport::log_msg::Msg) -> Msg {
    match msg {
        transport::log_msg::Msg::SetStoreInfo(set) => Msg::SetStoreInfo(SetStoreInfoProto {
            row_id: set.row_id.map(tuid),
            info: set.info.map(store_info),
        }),
        transport::log_msg::Msg::ArrowMsg(arrow) => Msg::ArrowMsg(ArrowMsgProto {
            store_id: arrow.store_id.map(store_id),
            chunk_id: arrow.chunk_id.map(tuid),
            compression: arrow.compression,
            uncompressed_size: arrow.uncompressed_size,
            encoding: arrow.encoding,
            payload: arrow.payload.to_vec(),
            is_static: arrow.is_static,
        }),
        transport::log_msg::Msg::BlueprintActivationCommand(cmd) => {
            Msg::BlueprintActivationCommand(BlueprintActivationCommandProto {
                blueprint_id: cmd.blueprint_id.map(store_id),
                make_active: cmd.make_active,
                make_default: cmd.make_default,
            })
        }
    }
}

/// A message as the proxy takes it in, encoded the way the SDK does.
fn proto_of(msg: &LogMsg) -> SizedMsg {
    encoded_with(msg, Compression::LZ4)
}

fn encoded_with(msg: &LogMsg, compression: Compression) -> SizedMsg {
    let encoded: transport::LogMsg = msg
        .to_transport(compression)
        .expect("encode LogMsg to transport proto")
        .into();
    let log_msg = LogMsgProto { msg: encoded.msg.map(payload) };
    SizedMsg::new(log_msg.into())
}

fn log_msg_of(msg: &LogOrTableMsgProto) -> LogMsgProto {
    match msg {
        LogOrTableMsgProto::LogMsg(log_msg) => log_msg.clone(),
        _ => panic!("expected a LogMsg variant"),
    }
}

fn inner_proto_msg(msg: &LogOrTableMsgProto) -> Msg {
    log_msg_of(msg).msg.expect("log msg has an inner msg")
}

fn protos_of(msgs: &[LogMsg]) -> Vec<LogMsgProto> {
    msgs.iter().map(|msg| log_msg_of(&proto_of(msg).msg)).collect()
}

fn set_store_info_msg(store_id: &StoreId) -> LogMsg {
    LogMsg::SetStoreInfo(SetStoreInfo {
        row_id: *re_chunk::RowId::new(),
        info: StoreInfo::new(
            store_id.clone(),
            StoreSource::RustSdk { rustc_version: String::new(), llvm_version: String::new() },
        ),
    })
}

fn blueprint_chunk(store_id: &StoreId) -> LogMsg {
    LogMsg::ArrowMsg(
        store_id.clone(),
        re_chunk::Chunk::builder("test_entity")
            .with_archetype(
                re_chunk::RowId::new(),
                re_log_types::TimePoint::default().with(
                    re_log_types::Timeline::new_sequence("blueprint"),
                    re_log_types::TimeInt::from_millis(re_log_types::NonMinI64::MIN),
                ),
                &re_sdk_types::blueprint::archetypes::Background::new(
                    re_sdk_types::blueprint::components::BackgroundKind::SolidColor,
                )
                .with_color([255, 0, 0]),
            )
            .build()
            .unwrap()
            .to_arrow_msg()
            .unwrap(),
    )
}

fn activation(store_id: &StoreId) -> LogMsg {
    LogMsg::BlueprintActivationCommand(re_log_types::BlueprintActivationCommand {
        blueprint_id: store_id.clone(),
        make_active: true,
        make_default: true,
    })
}

fn blueprint_stream_for(store_id: &StoreId, n_chunks: usize) -> Vec<LogMsg> {
    let mut messages = vec![set_store_info_msg(store_id)];
    for _ in 0..n_chunks {
        messages.push(blueprint_chunk(store_id));
    }
    messages.push(activation(store_id));
    messages
}

fn fake_log_stream_blueprint(n: usize) -> Vec<LogMsg> {
    blueprint_stream_for(&StoreId::random(StoreKind::Blueprint, "test_app"), n)
}

#[derive(Clone, Copy)]
enum Temporalness {
    Static,
    Temporal,
}

fn generate_log_messages(store_id: &StoreId, n: usize, temporalness: Temporalness) -> Vec<LogMsg> {
    let mut messages = Vec::new();
    for _ in 0..n {
        let timepoint = match temporalness {
            Temporalness::Static => re_log_types::TimePoint::STATIC,
            Temporalness::Temporal => re_log_types::TimePoint::default().with(
                re_log_types::Timeline::new_sequence("log_time"),
                re_log_types::TimeInt::from_millis(re_log_types::NonMinI64::MIN),
            ),
        };
        messages.push(chunk_for_entity(store_id, "test_entity", timepoint));
    }
    messages
}

fn chunk_for_entity(
    store_id: &StoreId,
    entity: &str,
    timepoint: re_log_types::TimePoint,
) -> LogMsg {
    LogMsg::ArrowMsg(
        store_id.clone(),
        re_chunk::Chunk::builder(entity)
            .with_archetype(
                re_chunk::RowId::new(),
                timepoint,
                &re_sdk_types::archetypes::Points2D::new([(0.0, 0.0), (1.0, 1.0), (2.0, 2.0)]),
            )
            .build()
            .unwrap()
            .to_arrow_msg()
            .unwrap(),
    )
}

fn static_msg_for_entity(store_id: &StoreId, entity: &str) -> LogMsg {
    chunk_for_entity(store_id, entity, re_log_types::TimePoint::STATIC)
}

fn fake_log_stream_recording(n: usize) -> Vec<LogMsg> {
    let store_id = StoreId::random(StoreKind::Recording, "test_app");
    let mut messages = vec![set_store_info_msg(&store_id)];
    messages.extend(generate_log_messages(&store_id, n, Temporalness::Temporal));
    messages
}

fn options_with(memory_limit: MemoryLimit) -> ServerOptions {
    ServerOptions {
        playback_behavior: PlaybackBehavior::OldestFirst,
        memory_limit,
        cors_allowed_origins: vec![],
        drop_temporal_history: false,
        live_temporal_budget_bytes: None,
    }
}

/// A server and the clients that are connected to it.
struct Proxy {
    event_loop: EventLoop,
    clients: Vec<Vec<LogMsgProto>>,
}

impl Proxy {
    fn new(options: ServerOptions) -> Proxy {
        Proxy { event_loop: EventLoop::new(options), clients: Vec::new() }
    }

    /// Connects a client, which is sent the history.
    fn read_messages(&mut self) -> usize {
        let history = self.event_loop.new_client().iter().map(|msg| log_msg_of(msg)).collect();
        self.clients.push(history);
        self.clients.len() - 1
    }

    fn write_messages(&mut self, messages: &[LogMsg]) {
        for msg in messages {
            let msg = proto_of(msg);
            let empty = LiveOccupancy { bytes: 0, messages: 0 };
            assert!(!self.event_loop.handle_msg(&msg, empty).drop);
            for client in &mut self.clients {
                client.push(log_msg_of(&msg.msg));
            }
            self.event_loop.record_msg(msg);
        }
    }
}

#[test]
fn pubsub_basic() {
    let mut proxy = Proxy::new(options_with(MemoryLimit::unlimited()));
    let messages = fake_log_stream_blueprint(3);

    let client = proxy.read_messages();
    proxy.write_messages(&messages);

    let actual = &proxy.clients[client];
    assert_eq!(&protos_of(&messages), actual);
    assert!(matches!(messages[0], LogMsg::SetStoreInfo(..)));
    assert!(matches!(actual[0].msg, Some(Msg::SetStoreInfo(..))));
}

#[test]
fn pubsub_history() {
    let mut proxy = Proxy::new(options_with(MemoryLimit::unlimited()));
    let messages = fake_log_stream_blueprint(3);

    proxy.write_messages(&messages);
    let client = proxy.read_messages();

    assert_eq!(protos_of(&messages), proxy.clients[client]);
}

#[test]
fn one_producer_many_consumers() {
    let mut proxy = Proxy::new(options_with(MemoryLimit::unlimited()));
    let messages = fake_log_stream_blueprint(3);

    let consumers = [proxy.read_messages(), proxy.read_messages()];
    proxy.write_messages(&messages);

    for consumer in consumers {
        assert_eq!(protos_of(&messages), proxy.clients[consumer]);
    }
}

#[test]
fn many_producers_many_consumers() {
    let mut proxy = Proxy::new(options_with(MemoryLimit::unlimited()));
    let messages = fake_log_stream_blueprint(3);

    let consumers = [proxy.read_messages(), proxy.read_messages()];
    for _producer in 0..2 {
        proxy.write_messages(&messages);
    }

    let expected = [protos_of(&messages), protos_of(&messages)].concat();
    for consumer in consumers {
        assert_eq!(proxy.clients[consumer], expected);
    }
}

#[test]
fn memory_limit_drops_messages() {
    // An absurdly low limit, so that everything that may go is given up at once.
    let mut proxy = Proxy::new(options_with(MemoryLimit::from_bytes(1)));
    let messages = fake_log_stream_recording(3);

    proxy.write_messages(&messages);
    let client = proxy.read_messages();

    // Memory is freed before a message is stored, so the persistent message and the last one stay.
    let actual = &proxy.clients[client];
    let messages = protos_of(&messages);
    assert_eq!(actual.len(), 2);
    assert_eq!(&actual[0], &messages[0]);
    assert_eq!(&actual[1], messages.last().unwrap());
}

#[test]
fn memory_limit_does_not_drop_blueprint() {
    let mut proxy = Proxy::new(options_with(MemoryLimit::from_bytes(1)));
    let messages = fake_log_stream_blueprint(3);

    proxy.write_messages(&messages);
    let client = proxy.read_messages();

    assert_eq!(protos_of(&messages), proxy.clients[client]);
}

#[test]
fn drop_temporal_history_retains_statics_not_temporal() {
    let mut proxy = Proxy::new(ServerOptions {
        playback_behavior: PlaybackBehavior::NewestFirst,
        drop_temporal_history: true,
        ..options_with(MemoryLimit::unlimited())
    });

    let store_id = StoreId::random(StoreKind::Recording, "test_app");
    let statics = vec![
        static_msg_for_entity(&store_id, "entity_a"),
        static_msg_for_entity(&store_id, "entity_b"),
    ];
    let temporal = generate_log_messages(&store_id, 3, Temporalness::Temporal);
    let mut messages = vec![set_store_info_msg(&store_id)];
    messages.extend(statics.clone());
    messages.extend(temporal.clone());

    proxy.write_messages(&messages);
    let client = proxy.read_messages();

    let actual = &proxy.clients[client];
    assert_eq!(
        actual.len(),
        3,
        "connect-history = SetStoreInfo + 2 statics, temporal dropped: {actual:?}"
    );
    assert!(matches!(actual[0].msg, Some(Msg::SetStoreInfo(..))));
    for t in &protos_of(&temporal) {
        assert!(
            !actual.contains(t),
            "a temporal frame leaked into the drop-temporal connect-history"
        );
    }
    for s in &protos_of(&statics) {
        assert!(actual.contains(s), "a static frame was wrongly dropped");
    }
}

#[test]
fn only_recording_data_on_a_timeline_is_temporal() {
    let rec = StoreId::random(StoreKind::Recording, "test_app");
    let bp = StoreId::random(StoreKind::Blueprint, "test_app");

    let skeleton: Vec<(&str, LogMsg)> = vec![
        ("recording SetStoreInfo", set_store_info_msg(&rec)),
        ("blueprint SetStoreInfo", set_store_info_msg(&bp)),
        ("static chunk", static_msg_for_entity(&rec, "entity_a")),
        (
            "blueprint chunk",
            generate_log_messages(&bp, 1, Temporalness::Temporal).pop().unwrap(),
        ),
        ("blueprint activation", activation(&bp)),
    ];
    for (what, msg) in &skeleton {
        assert!(
            !is_temporal(&proto_of(msg).msg),
            "{what} is scene skeleton — it must NEVER be dropped by the live budget"
        );
    }

    let temporal = generate_log_messages(&rec, 2, Temporalness::Temporal);
    for msg in &temporal {
        assert!(
            is_temporal(&proto_of(msg).msg),
            "a recording chunk on a timeline is temporal and IS eligible"
        );
    }

    assert_ne!(
        is_temporal(&proto_of(&skeleton[3].1).msg),
        is_temporal(&proto_of(&temporal[0]).msg),
        "the blueprint/recording distinction is what the classifier reads"
    );
}

fn recording_id(sid: &StoreId) -> String {
    let proto: re_protos::common::v1alpha1::StoreId = sid.clone().into();
    proto.recording_id
}

#[test]
fn drop_temporal_evicts_superseded_blueprint_stores() {
    let mut buffer = MessageBuffer::new(true);

    let recording = StoreId::random(StoreKind::Recording, "test_app");
    let data_info = set_store_info_msg(&recording);
    buffer.add_msg(proto_of(&data_info));

    let b1 = StoreId::random(StoreKind::Blueprint, "test_app");
    let b2 = StoreId::random(StoreKind::Blueprint, "test_app");
    let b3 = StoreId::random(StoreKind::Blueprint, "test_app");
    for id in [&b1, &b2] {
        for m in blueprint_stream_for(id, 2) {
            buffer.add_msg(proto_of(&m));
        }
    }
    let bp3 = blueprint_stream_for(&b3, 2);
    for m in &bp3 {
        buffer.add_msg(proto_of(m));
    }

    let mut expected_msgs = vec![data_info.clone()];
    expected_msgs.extend(bp3.iter().cloned());
    let expected_protos: Vec<SizedMsg> = expected_msgs.iter().map(proto_of).collect();

    assert_eq!(
        buffer.persistent.len(),
        expected_protos.len(),
        "persistent must hold only the data SetStoreInfo + the LAST blueprint"
    );
    assert_eq!(buffer.static_.len(), 0);
    assert_eq!(buffer.disposable.len(), 0);

    let mut expected_ids = vec![recording_id(&recording)];
    expected_ids.extend(bp3.iter().map(|_| recording_id(&b3)));
    let actual_ids: Vec<String> = buffer
        .persistent
        .iter()
        .iter()
        .map(|m| {
            MessageBuffer::message_store_id(&m.msg)
                .expect("persistent message has a store id")
                .recording_id
                .clone()
        })
        .collect();
    assert_eq!(actual_ids, expected_ids, "wrong stores survived eviction");
    assert!(
        !actual_ids.contains(&recording_id(&b1)) && !actual_ids.contains(&recording_id(&b2)),
        "a superseded blueprint store leaked into persistent"
    );

    let expected_bytes: u64 = expected_protos.iter().map(|m| m.size_bytes).sum();
    assert_eq!(
        buffer.persistent.size_bytes(),
        expected_bytes,
        "persistent size_bytes must equal the retained messages' summed size"
    );
}

#[test]
fn drop_temporal_blueprint_eviction_preserves_activation_ordering() {
    let mut buffer = MessageBuffer::new(true);
    let b1 = StoreId::random(StoreKind::Blueprint, "test_app");
    let b2 = StoreId::random(StoreKind::Blueprint, "test_app");
    for m in blueprint_stream_for(&b1, 2) {
        buffer.add_msg(proto_of(&m));
    }
    for m in blueprint_stream_for(&b2, 2) {
        buffer.add_msg(proto_of(&m));
    }

    let all = buffer.all(PlaybackBehavior::OldestFirst);
    for msg in &all {
        if let Some(id) = MessageBuffer::message_store_id(msg) {
            assert_ne!(id.recording_id, recording_id(&b1), "b1 was not evicted");
        }
    }

    let kinds: Vec<&'static str> = all
        .iter()
        .map(|m| match inner_proto_msg(m) {
            Msg::SetStoreInfo(..) => "set_store_info",
            Msg::ArrowMsg(..) => "arrow",
            Msg::BlueprintActivationCommand(..) => "activation",
        })
        .collect();
    assert_eq!(
        kinds,
        vec!["set_store_info", "arrow", "arrow", "activation"],
        "surviving blueprint's activation ordering must be preserved"
    );
}

#[test]
fn drop_temporal_dedups_static_relog_per_entity() {
    let mut buffer = MessageBuffer::new(true);
    let store = StoreId::random(StoreKind::Recording, "test_app");

    let first = static_msg_for_entity(&store, "robot/base");
    let second = static_msg_for_entity(&store, "robot/base");
    buffer.add_msg(proto_of(&first));
    buffer.add_msg(proto_of(&second));
    assert_eq!(
        buffer.static_.len(),
        1,
        "a same-entity static re-log must dedup to one chunk"
    );

    let retained = inner_proto_msg(&buffer.static_.iter()[0].msg);
    assert_eq!(
        retained,
        inner_proto_msg(&proto_of(&second).msg),
        "the retained static must be the latest re-log"
    );
    assert_ne!(
        retained,
        inner_proto_msg(&proto_of(&first).msg),
        "the earlier static must have been evicted"
    );
    assert_eq!(
        buffer.static_.size_bytes(),
        proto_of(&second).size_bytes,
        "static_ size_bytes must reflect the single retained chunk"
    );

    let other = static_msg_for_entity(&store, "robot/arm");
    buffer.add_msg(proto_of(&other));
    assert_eq!(
        buffer.static_.len(),
        2,
        "statics for distinct entities must both be retained"
    );
}

#[test]
fn memory_limit_does_not_interrupt_stream() {
    for memory_limit in [0, 1] {
        let mut proxy = Proxy::new(options_with(MemoryLimit::from_bytes(memory_limit)));
        let messages = fake_log_stream_blueprint(3);

        let client = proxy.read_messages();
        proxy.write_messages(&messages);

        assert_eq!(protos_of(&messages), proxy.clients[client]);
    }
}

#[test]
fn static_data_is_returned_first() {
    let mut proxy = Proxy::new(options_with(MemoryLimit::unlimited()));
    let store_id = StoreId::random(StoreKind::Recording, "test_app");

    let set_store_info = vec![set_store_info_msg(&store_id)];
    let first_static = generate_log_messages(&store_id, 3, Temporalness::Static);
    let first_temporal = generate_log_messages(&store_id, 3, Temporalness::Temporal);
    let second_static = generate_log_messages(&store_id, 3, Temporalness::Static);

    proxy.write_messages(&set_store_info);
    proxy.write_messages(&first_static);
    proxy.write_messages(&first_temporal);
    proxy.write_messages(&second_static);

    let expected = [set_store_info, first_static, second_static, first_temporal].concat();
    let client = proxy.read_messages();
    assert_eq!(proxy.clients[client], protos_of(&expected));
}

#[test]
fn playback_newest_first() {
    let mut proxy = Proxy::new(ServerOptions {
        playback_behavior: PlaybackBehavior::NewestFirst,
        ..options_with(MemoryLimit::unlimited())
    });
    let store_id = StoreId::random(StoreKind::Recording, "test_app");

    let set_store_info = vec![set_store_info_msg(&store_id)];
    let first_statics = generate_log_messages(&store_id, 3, Temporalness::Static);
    let temporals = generate_log_messages(&store_id, 3, Temporalness::Temporal);
    let second_statics = generate_log_messages(&store_id, 3, Temporalness::Static);

    proxy.write_messages(&set_store_info);
    proxy.write_messages(&first_statics);
    proxy.write_messages(&temporals);
    proxy.write_messages(&second_statics);

    let mut expected = Vec::new();
    for mut part in [set_store_info, [first_statics, second_statics].concat(), temporals] {
        part.reverse();
        expected.extend(part);
    }
    let client = proxy.read_messages();
    assert_eq!(proxy.clients[client], protos_of(&expected));
}

#[test]
fn static_key_names_the_recording_and_the_entity() {
    let store = StoreId::random(StoreKind::Recording, "test_app");
    let Msg::ArrowMsg(arrow) = inner_proto_msg(&proto_of(&static_msg_for_entity(&store, "robot/base")).msg)
    else {
        panic!("expected a chunk");
    };
    let expected =
        StaticKey { recording_id: recording_id(&store), entity_path: "/robot/base".to_owned() };
    assert_eq!(static_key_from_arrow(&arrow), Some(expected));

    // One that is not static, not of a store, or not to be decoded has none.
    let temporal = ArrowMsgProto { is_static: Some(false), ..arrow.clone() };
    assert_eq!(static_key_from_arrow(&temporal), None);
    let stray = ArrowMsgProto { store_id: None, ..arrow.clone() };
    assert_eq!(static_key_from_arrow(&stray), None);
    let broken = ArrowMsgProto { payload: vec![1, 2, 3], ..arrow.clone() };
    assert_eq!(static_key_from_arrow(&broken), None);
    let unknown_encoding = ArrowMsgProto { encoding: 0, ..arrow };
    assert_eq!(static_key_from_arrow(&unknown_encoding), None);
}

#[test]
fn static_chunks_without_a_key_are_kept() {
    let mut buffer = MessageBuffer::new(true);
    let store = StoreId::random(StoreKind::Recording, "test_app");
    for _ in 0..2 {
        let mut msg = proto_of(&static_msg_for_entity(&store, "robot/base"));
        if let LogOrTableMsgProto::LogMsg(LogMsgProto { msg: Some(Msg::ArrowMsg(arrow)) }) =
            &mut msg.msg
        {
            arrow.encoding = 0;
        }
        buffer.add_msg(SizedMsg::new(msg.msg));
    }
    assert_eq!(buffer.static_.len(), 2);
}

#[test]
fn static_chunks_of_other_recordings_are_kept() {
    let mut buffer = MessageBuffer::new(true);
    for _ in 0..2 {
        let store = StoreId::random(StoreKind::Recording, "test_app");
        buffer.add_msg(proto_of(&static_msg_for_entity(&store, "robot/base")));
    }
    assert_eq!(buffer.static_.len(), 2);
}

fn arrow_of(msg: SizedMsg) -> ArrowMsgProto {
    match inner_proto_msg(&msg.msg) {
        Msg::ArrowMsg(arrow) => arrow,
        _ => panic!("expected a chunk"),
    }
}

fn log_of(msg: Msg) -> LogOrTableMsgProto {
    LogMsgProto { msg: Some(msg) }.into()
}

fn int_at(bytes: &[u8], at: usize) -> i64 {
    i64::from_le_bytes(bytes[at..at + 8].try_into().unwrap())
}

/// An uncompressed static chunk, and where the table of contents and the body of its batch are.
fn plain_chunk() -> (ArrowMsgProto, usize, usize) {
    let store = StoreId::random(StoreKind::Recording, "test_app");
    let arrow =
        arrow_of(encoded_with(&static_msg_for_entity(&store, "robot/base"), Compression::Off));
    let len_at = |at: usize| {
        u32::from_le_bytes(arrow.payload[at + 4..at + 8].try_into().unwrap()) as usize
    };
    let contents = 8 + len_at(0) + 8;
    let body = contents + len_at(contents - 8);
    (arrow, contents, body)
}

/// Malformed variants of a chunk: a body of negative length, and lengths and positions past the body.
fn malformed_chunks() -> Vec<ArrowMsgProto> {
    let (arrow, contents, body) = plain_chunk();
    let body_len = (arrow.payload.len() - 8 - body) as i64;
    let mut chunks = vec![];
    for at in (contents..body - 7).step_by(4) {
        let value = int_at(&arrow.payload, at);
        let mut patch = |value: i64| {
            let mut arrow = arrow.clone();
            arrow.payload[at..at + 8].copy_from_slice(&value.to_le_bytes());
            chunks.push(arrow);
        };
        if value == body_len {
            patch(-8);
        }
        if 0 < value && value <= body_len {
            patch(value + 2 * body_len);
        }
    }
    for len in 0..arrow.payload.len() {
        let mut arrow = arrow.clone();
        arrow.payload.truncate(len);
        chunks.push(arrow);
    }
    chunks
}

#[test]
fn malformed_chunks_stop_nothing() {
    let (arrow, _, _) = plain_chunk();
    assert!(static_key_from_arrow(&arrow).is_some());
    let chunks = malformed_chunks();
    assert!(chunks.len() > arrow.payload.len() + 5);
    let mut cache = CachingApplicationIdInjector::default();
    let mut without_key = 0;
    for chunk in chunks {
        let key = static_key_from_arrow(&chunk);
        let decoded =
            matches!(relay(&mut cache, Some(log_of(Msg::ArrowMsg(chunk)))), Relayed::LogMsg(_));
        assert_eq!(key.is_some(), decoded);
        if key.is_none() {
            without_key += 1;
        }
    }
    assert!(without_key > arrow.payload.len() / 2);
}

#[test]
fn malformed_chunks_stop_no_task() {
    let runtime = tokio::runtime::Builder::new_current_thread().build().unwrap();
    let task = runtime.spawn(std::future::ready(()));
    runtime.block_on(async move {
        task.await.unwrap();
        let (arrow, contents, body) = plain_chunk();
        let body_len = (arrow.payload.len() - 8 - body) as i64;
        let mut broken = arrow.clone();
        let at = (contents..body - 7).find(|&at| int_at(&arrow.payload, at) == body_len).unwrap();
        broken.payload[at..at + 8].copy_from_slice(&(-8i64).to_le_bytes());
        // More often than a task may go on without letting others run.
        for _ in 0..300 {
            assert!(static_key_from_arrow(&arrow).is_some());
            assert!(static_key_from_arrow(&broken).is_none());
        }
    });
}

#[test]
fn relayed_messages_are_those_that_were_sent() {
    let store = StoreId::random(StoreKind::Recording, "test_app");
    let blueprint = StoreId::random(StoreKind::Blueprint, "test_app");
    let mut cache = CachingApplicationIdInjector::default();
    let mut msgs = vec![set_store_info_msg(&store), static_msg_for_entity(&store, "robot/base")];
    msgs.extend(blueprint_stream_for(&blueprint, 1));
    for msg in msgs {
        let Relayed::LogMsg(relayed) = relay(&mut cache, Some(proto_of(&msg).msg)) else {
            panic!("not relayed");
        };
        assert_eq!(relayed.store_id(), msg.store_id());
        match (&msg, &relayed) {
            (LogMsg::ArrowMsg(_, sent), LogMsg::ArrowMsg(_, got)) => {
                assert_eq!(sent.chunk_id, got.chunk_id);
                assert_eq!(sent.batch.num_rows(), got.batch.num_rows());
            }
            (LogMsg::SetStoreInfo(sent), LogMsg::SetStoreInfo(got)) => assert_eq!(sent, got),
            (
                LogMsg::BlueprintActivationCommand(sent),
                LogMsg::BlueprintActivationCommand(got),
            ) => assert_eq!(sent, got),
            _ => panic!("relayed as another kind"),
        }
    }
}

#[test]
fn announcement_supplies_the_application() {
    let store = StoreId::random(StoreKind::Recording, "test_app");
    let mut chunk = arrow_of(proto_of(&static_msg_for_entity(&store, "robot/base")));
    chunk.store_id.as_mut().unwrap().application_id = None;
    let chunk = || Some(log_of(Msg::ArrowMsg(chunk.clone())));
    let mut cache = CachingApplicationIdInjector::default();
    assert!(matches!(relay(&mut cache, chunk()), Relayed::ReportNotDecoded));

    let Msg::SetStoreInfo(set) = inner_proto_msg(&proto_of(&set_store_info_msg(&store)).msg) else {
        panic!("expected a store info");
    };
    let mut broken = set.clone();
    broken.row_id = None;
    let broken = Some(log_of(Msg::SetStoreInfo(broken)));
    assert!(matches!(relay(&mut cache, broken), Relayed::ReportNotDecoded));
    assert!(matches!(relay(&mut cache, chunk()), Relayed::ReportNotDecoded));

    // A malformed chunk in between costs nothing.
    let announced = Some(log_of(Msg::SetStoreInfo(set)));
    assert!(matches!(relay(&mut cache, announced), Relayed::LogMsg(_)));
    for malformed in malformed_chunks().into_iter().take(8) {
        relay(&mut cache, Some(log_of(Msg::ArrowMsg(malformed))));
    }
    let Relayed::LogMsg(relayed) = relay(&mut cache, chunk()) else {
        panic!("not relayed");
    };
    assert_eq!(relayed.store_id(), &store);
}

#[test]
fn relayed_activations_need_an_application() {
    let blueprint = StoreId::random(StoreKind::Blueprint, "test_app");
    let Msg::BlueprintActivationCommand(mut cmd) =
        inner_proto_msg(&proto_of(&activation(&blueprint)).msg)
    else {
        panic!("expected an activation");
    };
    let mut cache = CachingApplicationIdInjector::default();
    let relayed = |cache: &mut CachingApplicationIdInjector,
                   cmd: &BlueprintActivationCommandProto| {
        relay(cache, Some(log_of(Msg::BlueprintActivationCommand(cmd.clone()))))
    };
    assert!(matches!(relayed(&mut cache, &cmd), Relayed::LogMsg(_)));
    cmd.blueprint_id.as_mut().unwrap().application_id = None;
    assert!(matches!(relayed(&mut cache, &cmd), Relayed::ReportNotDecoded));
    cmd.blueprint_id = None;
    assert!(matches!(relayed(&mut cache, &cmd), Relayed::ReportNotDecoded));
}

fn table() -> TableMsgProto {
    let store = StoreId::random(StoreKind::Recording, "test_app");
    let LogMsg::ArrowMsg(_, arrow) = static_msg_for_entity(&store, "robot/base") else {
        panic!("expected a chunk");
    };
    let data = re_protos::common::v1alpha1::DataframePart::from(&arrow.batch);
    TableMsgProto {
        id: TableIdProto { id: "table".to_owned() },
        data: DataframePartProto {
            encoder_version: data.encoder_version,
            payload: data.payload.map(|payload| payload.to_vec()),
            compression: data.compression,
            uncompressed_size: data.uncompressed_size,
        },
    }
}

#[test]
fn relayed_tables_are_those_that_were_sent() {
    let mut cache = CachingApplicationIdInjector::default();
    let Relayed::Table(relayed) = relay(&mut cache, Some(table().into())) else {
        panic!("not relayed");
    };
    assert_eq!(relayed.id.as_str(), "table");
    assert_eq!(relayed.data.num_rows(), 1);

    let broken = |change: fn(&mut DataframePartProto)| {
        let mut table = table();
        change(&mut table.data);
        matches!(relay(&mut CachingApplicationIdInjector::default(), Some(table.into())), Relayed::ReportNotDecoded)
    };
    assert!(broken(|data| data.encoder_version = 0));
    assert!(broken(|data| data.payload = None));
    assert!(broken(|data| data.payload = Some(vec![1, 2, 3])));
    assert!(broken(|data| data.uncompressed_size = u64::MAX));
    assert!(broken(|data| data.compression = 7));
}

#[test]
fn relaying_the_rest() {
    let mut cache = CachingApplicationIdInjector::default();
    assert!(matches!(relay(&mut cache, None), Relayed::Quit));
    let missing = LogMsgProto { msg: None };
    assert!(matches!(
        relay(&mut cache, Some(missing.clone().into())),
        Relayed::ReportMissingPayload
    ));
    let command = re_log_channel::DataSourceUiCommand::SetUrlFragment {
        store_id: StoreId::random(StoreKind::Recording, "test_app"),
        fragment: "here".to_owned(),
    };
    assert!(matches!(relay(&mut cache, Some(command.into())), Relayed::UiCommand(_)));

    let store = StoreId::random(StoreKind::Recording, "test_app");
    let msg = set_store_info_msg(&store);
    let log_msg = log_msg_of(&proto_of(&msg).msg);
    assert!(matches!(
        relayed_log_msg(&missing, Some(msg.clone())),
        Relayed::ReportMissingPayload
    ));
    assert!(matches!(relayed_log_msg(&log_msg, Some(msg)), Relayed::LogMsg(_)));
    assert!(matches!(relayed_log_msg(&log_msg, None), Relayed::ReportNotDecoded));
    assert!(matches!(relayed_table(None), Relayed::ReportNotDecoded));
}

#[test]
fn messages_taken_in_are_those_that_were_sent() {
    let store = StoreId::random(StoreKind::Recording, "test_app");
    let blueprint = StoreId::random(StoreKind::Blueprint, "test_app");
    let mut msgs = vec![set_store_info_msg(&store), static_msg_for_entity(&store, "robot/base")];
    msgs.extend(blueprint_stream_for(&blueprint, 1));
    for msg in msgs {
        let expected = log_msg_of(&proto_of(&msg).msg);
        let IntakeStep::Forward(forwarded) = take_in_log_msg(msg) else {
            panic!("not forwarded");
        };
        assert_eq!(log_msg_of(&forwarded), expected);
    }
}

#[test]
fn activation_comes_out_as_it_was() {
    let blueprint = StoreId::random(StoreKind::Blueprint, "test_app");
    for (make_active, make_default) in [(true, false), (false, true)] {
        let cmd = re_log_types::BlueprintActivationCommand {
            blueprint_id: blueprint.clone(),
            make_active,
            make_default,
        };
        let msg = LogMsg::BlueprintActivationCommand(cmd.clone());
        let IntakeStep::Forward(forwarded) = take_in_log_msg(msg) else {
            panic!("not forwarded");
        };
        let relayed = relay(&mut CachingApplicationIdInjector::default(), Some(forwarded));
        assert!(matches!(
            relayed,
            Relayed::LogMsg(LogMsg::BlueprintActivationCommand(got)) if got == cmd
        ));
    }
}

#[test]
fn keys_are_looked_for_where_they_count() {
    let store = StoreId::random(StoreKind::Recording, "test_app");
    for drop_temporal_history in [false, true] {
        let server = EventLoop::new(ServerOptions {
            drop_temporal_history,
            ..options_with(MemoryLimit::unlimited())
        });
        let msg = proto_of(&static_msg_for_entity(&store, "robot/base"));
        let (size_bytes, expected) = (msg.size_bytes, log_msg_of(&msg.msg));
        let arrived = server.arrived(msg.msg);
        assert_eq!(arrived.static_key.is_some(), drop_temporal_history);
        assert_eq!(arrived.size_bytes, size_bytes);
        assert_eq!(log_msg_of(&arrived.msg), expected);
    }
}
