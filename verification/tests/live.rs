//! What is dropped from the live stream, and what is said of it.

use re_grpc_server::event_loop::EventLoop;
use re_grpc_server::live::{
    decide_live, is_temporal, live_budget_band_complaint, should_drop_live, DropTotals,
    LiveBudgetComplaint, LiveDecision, LiveOccupancy, LiveReport, CHANNEL_SIZE_BYTES,
    CHANNEL_SIZE_MESSAGES, LIVE_MESSAGE_RESERVE, LIVE_SMALL_MESSAGE_FLOOR_BYTES,
};
use re_grpc_server::messages::{
    ArrowMsgProto, DataframePartProto, LogMsgProto, LogOrTableMsgProto, Msg, SetStoreInfoProto,
    SizedMsg, StoreIdProto, TableIdProto, TableMsgProto,
};
use re_grpc_server::{MemoryLimit, ServerOptions};

const BUDGET: u64 = 8 * 1024 * 1024;
const FRAME: u64 = 2_779_467;

fn frame(size_bytes: u64) -> SizedMsg {
    let arrow = ArrowMsgProto {
        store_id: Some(StoreIdProto {
            kind: 1,
            recording_id: "r".to_owned(),
            application_id: None,
        }),
        chunk_id: None,
        compression: 0,
        uncompressed_size: 0,
        encoding: 1,
        payload: vec![],
        is_static: None,
    };
    let msg = LogMsgProto { msg: Some(Msg::ArrowMsg(arrow)) };
    SizedMsg { msg: LogOrTableMsgProto::LogMsg(msg), size_bytes, static_key: None }
}

fn store_info(size_bytes: u64) -> SizedMsg {
    let msg = Msg::SetStoreInfo(SetStoreInfoProto { row_id: None, info: None });
    SizedMsg { msg: LogOrTableMsgProto::LogMsg(LogMsgProto { msg: Some(msg) }), size_bytes, static_key: None }
}

fn table(size_bytes: u64) -> SizedMsg {
    let data = DataframePartProto {
        encoder_version: 0,
        payload: None,
        compression: 0,
        uncompressed_size: 0,
    };
    let table = TableMsgProto { id: TableIdProto { id: "t".to_owned() }, data };
    SizedMsg { msg: LogOrTableMsgProto::Table(table), size_bytes, static_key: None }
}

fn command(size_bytes: u64) -> SizedMsg {
    let command = re_log_channel::DataSourceUiCommand::SetUrlFragment {
        store_id: re_log_types::StoreId::random(re_log_types::StoreKind::Recording, "test_app"),
        fragment: String::new(),
    };
    SizedMsg { msg: command.into(), size_bytes, static_key: None }
}

fn queue(bytes: u64, messages: usize) -> LiveOccupancy {
    LiveOccupancy { bytes, messages }
}

fn drops(budget: Option<u64>, msg: &SizedMsg, occupancy: LiveOccupancy) -> bool {
    decide_live(budget, msg, occupancy, None).0.drop
}

#[test]
fn recording_data_over_the_budget_is_dropped() {
    assert!(drops(Some(BUDGET), &frame(FRAME), queue(BUDGET + 1, 3)));
    assert!(!drops(Some(BUDGET), &frame(FRAME), queue(BUDGET, 3)));
    assert!(!drops(None, &frame(FRAME), queue(u64::MAX, usize::MAX)));
    assert!(!drops(Some(BUDGET), &frame(u64::MAX), queue(0, 0)));
}

#[test]
fn skeleton_tables_and_commands_are_never_dropped() {
    let full = queue(u64::MAX, usize::MAX);
    assert!(!drops(Some(BUDGET), &store_info(FRAME), full));
    assert!(!drops(Some(BUDGET), &table(FRAME), full));
    let missing = SizedMsg {
        msg: LogOrTableMsgProto::LogMsg(LogMsgProto { msg: None }),
        size_bytes: FRAME,
        static_key: None,
    };
    assert!(!drops(Some(BUDGET), &missing, full));
}

#[test]
fn small_messages_are_exempt_from_the_bytes_and_only_from_them() {
    let over = queue(BUDGET + 1, 3);
    assert!(!drops(Some(BUDGET), &frame(LIVE_SMALL_MESSAGE_FLOOR_BYTES - 1), over));
    assert!(drops(Some(BUDGET), &frame(LIVE_SMALL_MESSAGE_FLOOR_BYTES), over));
    let last_slot = CHANNEL_SIZE_MESSAGES - LIVE_MESSAGE_RESERVE;
    assert_eq!(last_slot, 960);
    assert!(drops(Some(BUDGET), &frame(1), queue(0, last_slot)));
    assert!(!drops(Some(BUDGET), &frame(1), queue(0, last_slot - 1)));
}

#[test]
fn budgets_outside_the_band_are_complained_of_and_inert() {
    let complaint = |budget: u64| live_budget_band_complaint(Some(budget));
    assert_eq!(complaint(0), Some(LiveBudgetComplaint::NotAboveFloor));
    assert_eq!(complaint(8 * 1024), Some(LiveBudgetComplaint::NotAboveFloor));
    assert_eq!(complaint(8 * 1024 + 1), None);
    assert_eq!(complaint(128 * 1024 * 1024 - 1), None);
    assert_eq!(complaint(128 * 1024 * 1024), Some(LiveBudgetComplaint::NotBelowChannelSize));
    assert_eq!(live_budget_band_complaint(None), None);
    assert_eq!(CHANNEL_SIZE_BYTES, 128 * 1024 * 1024);
    assert!(!drops(Some(8 * 1024), &frame(FRAME), queue(BUDGET, 3)));
    assert!(drops(Some(8 * 1024 + 1), &frame(FRAME), queue(BUDGET, 3)));
    assert!(!drops(Some(CHANNEL_SIZE_BYTES), &frame(FRAME), queue(u64::MAX, 3)));
}

#[test]
fn only_recording_data_is_dropped_and_on_both_quotas() {
    let over = queue(BUDGET + 1, 3);
    assert!(should_drop_live(Some(BUDGET), &frame(FRAME), over));
    assert!(!should_drop_live(Some(BUDGET), &frame(FRAME), queue(BUDGET, 3)));
    assert!(!should_drop_live(None, &frame(FRAME), over));
    assert!(!should_drop_live(Some(BUDGET), &store_info(FRAME), over));
    assert!(!should_drop_live(Some(BUDGET), &table(FRAME), over));
    assert!(!should_drop_live(Some(BUDGET), &command(FRAME), over));
    assert!(!should_drop_live(Some(BUDGET), &frame(8191), over));
    assert!(should_drop_live(Some(BUDGET), &frame(8192), over));
    assert!(should_drop_live(Some(BUDGET), &frame(1), queue(0, 961)));
    assert!(!should_drop_live(Some(BUDGET), &table(1), queue(0, 1024)));
}

#[test]
fn temporal_messages() {
    assert!(is_temporal(&frame(1).msg));
    assert!(is_temporal(&table(1).msg));
    assert!(is_temporal(&command(1).msg));
    assert!(!is_temporal(&store_info(1).msg));
    assert!(!is_temporal(&LogOrTableMsgProto::LogMsg(LogMsgProto { msg: None })));
}

fn server() -> EventLoop {
    EventLoop::new(ServerOptions {
        memory_limit: MemoryLimit::unlimited(),
        live_temporal_budget_bytes: Some(BUDGET),
        ..Default::default()
    })
}

#[test]
fn drops_are_loud_once_until_they_end() {
    let mut server = server();
    let over = queue(BUDGET + 1, 3);
    let said = |decision: LiveDecision| (decision.drop, decision.report);

    let began =
        LiveReport::DropsBegan { budget: BUDGET, over_bytes: true, over_messages: false };
    assert_eq!(said(server.handle_msg(&frame(10_000), over)), (true, began));
    let totals = DropTotals { messages: 2, bytes: 30_000 };
    assert_eq!(
        said(server.handle_msg(&frame(20_000), over)),
        (true, LiveReport::DropsContinue(totals))
    );
    // The skeleton gets through without ending it.
    assert_eq!(said(server.handle_msg(&store_info(1), over)), (false, LiveReport::Silent));
    assert_eq!(
        said(server.handle_msg(&frame(10_000), queue(0, 0))),
        (false, LiveReport::DropsEnded(totals))
    );
    assert_eq!(said(server.handle_msg(&frame(10_000), queue(0, 0))), (false, LiveReport::Silent));
    // A viewer that falls behind again is reported again.
    let began = LiveReport::DropsBegan { budget: BUDGET, over_bytes: false, over_messages: true };
    assert_eq!(said(server.handle_msg(&frame(10_000), queue(0, 960))), (true, began));
    assert_eq!(server.live_dropped_bytes, 40_000);
}

#[test]
fn dropped_messages_are_counted_and_not_remembered() {
    let mut server = server();
    assert!(server.handle_msg(&frame(FRAME), queue(BUDGET + 1, 3)).drop);
    assert_eq!(server.new_client().len(), 0);
    assert_eq!(server.capture_mem_usage_tree(0)[4], ("live_dropped", FRAME));
    assert!(server.handle_msg(&frame(u64::MAX), queue(BUDGET + 1, 3)).drop);
    assert_eq!(server.live_dropped_bytes, u64::MAX);
}

#[test]
fn budget_bounds_what_waits() {
    // A viewer that receives nothing: frames and small messages arrive in turn.
    let mut waiting = queue(0, 0);
    for i in 0..5000 {
        let size = if i % 2 == 0 { FRAME } else { 1229 };
        if !drops(Some(BUDGET), &frame(size), waiting) {
            waiting.bytes += size;
            waiting.messages += 1;
        }
    }
    assert_eq!(waiting.messages, 960);
    assert!(waiting.bytes <= BUDGET + FRAME + 960 * 8 * 1024);
}

#[test]
fn busy_stream_costs_no_scene() {
    // Nobody receives; every third message is part of the scene, with or without a budget.
    let run = |live_temporal_budget_bytes: Option<u64>| {
        let mut server = EventLoop::new(ServerOptions {
            drop_temporal_history: true,
            live_temporal_budget_bytes,
            ..Default::default()
        });
        let mut waiting = queue(0, 0);
        let mut sent_frames = 0;
        for i in 0..30 {
            let msg = if i % 3 == 0 { store_info(1000) } else { frame(FRAME) };
            let decision = server.handle_msg(&msg, waiting);
            assert!(i % 3 != 0 || !decision.drop);
            if !decision.drop {
                waiting.bytes += msg.size_bytes;
                waiting.messages += 1;
                if i % 3 != 0 {
                    sent_frames += 1;
                }
                server.record_msg(msg);
            }
        }
        (sent_frames, server.live_dropped_bytes, server.new_client().len())
    };
    assert_eq!(run(None), (20, 0, 10));
    assert_eq!(run(Some(BUDGET)), (4, 16 * FRAME, 10));
}
