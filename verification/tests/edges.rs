//! Requests, streams, channels and addresses.

use re_log_channel::DataSourceUiCommand;
use re_log_types::{StoreId, StoreKind};

use re_grpc_server::address::{connect_addr, listens_on_both_stacks, IpAddress, LoopbackOnly};
use re_grpc_server::channels::{intake_step, IntakeEvent, IntakeStep};
use re_grpc_server::messages::{
    DataframePartProto, LogMsgProto, LogOrTableMsgProto, TableIdProto, TableMsgProto,
};
use re_grpc_server::service::{
    capture_memory, log_stream_item, stream_order, table_stream_item, write_messages_step,
    write_table, ReadLogOrTableMsgResponse, ReadMessagesResponse, ReadTablesResponse, StreamOrder,
    WriteEvent, WriteStep,
};
use re_grpc_server::status::TonicStatusError;
use re_grpc_server::PlaybackBehavior;

const LOCALHOST_V6: [u16; 8] = [0, 0, 0, 0, 0, 0, 0, 1];
const ANY_V6: [u16; 8] = [0; 8];

#[test]
fn loopback_only_rejects_non_loopback_peers() {
    let interceptor = LoopbackOnly;

    assert!(interceptor.call(Some(IpAddress::V4([127, 0, 0, 1]))).is_ok());
    assert!(interceptor.call(Some(IpAddress::V6(LOCALHOST_V6))).is_ok());

    let permission_denied = tonic::Code::PermissionDenied as i32;
    assert_eq!(
        interceptor.call(Some(IpAddress::V4([10, 0, 0, 1]))).unwrap_err().code,
        permission_denied
    );
    assert_eq!(interceptor.call(None).unwrap_err().code, permission_denied);
}

#[test]
fn all_of_127_is_loopback_and_mapped_addresses_are_not() {
    assert!(IpAddress::V4([127, 255, 3, 4]).is_loopback());
    assert!(!IpAddress::V4([128, 0, 0, 1]).is_loopback());
    assert!(!IpAddress::V6([0, 0, 0, 0, 0, 0xffff, 0x7f00, 1]).is_loopback());
    assert!(!IpAddress::V6(ANY_V6).is_loopback());
    assert!(IpAddress::V6(ANY_V6).is_unspecified());
    assert!(IpAddress::V4([0; 4]).is_unspecified());
    assert!(!IpAddress::V4([0, 0, 0, 1]).is_unspecified());
    assert!(!IpAddress::V6(LOCALHOST_V6).is_unspecified());
}

#[test]
fn both_stacks_are_for_windows_and_all_addresses() {
    assert!(listens_on_both_stacks(true, &IpAddress::V6(ANY_V6)));
    assert!(!listens_on_both_stacks(false, &IpAddress::V6(ANY_V6)));
    assert!(!listens_on_both_stacks(true, &IpAddress::V6(LOCALHOST_V6)));
    assert!(!listens_on_both_stacks(true, &IpAddress::V4([0; 4])));
}

#[test]
fn addresses_to_connect_to() {
    let v4 = IpAddress::V4([192, 168, 0, 7]);
    assert_eq!(
        connect_addr(false, &v4, 9876, "192.168.0.7:9876"),
        "rerun+http://192.168.0.7:9876/proxy"
    );
    assert_eq!(connect_addr(true, &v4, 80, "x"), "rerun+http://127.0.0.1:80/proxy");
    let any = IpAddress::V4([0; 4]);
    assert_eq!(
        connect_addr(false, &any, 65535, "0.0.0.0:65535"),
        "rerun+http://127.0.0.1:65535/proxy"
    );
    let local = IpAddress::V6(LOCALHOST_V6);
    assert_eq!(connect_addr(false, &local, 0, "[::1]:0"), "rerun+http://127.0.0.1:0/proxy");
    for port in [7, 10, 99, 100, 1024, 43210] {
        assert_eq!(
            connect_addr(false, &local, port, ""),
            format!("rerun+http://127.0.0.1:{port}/proxy")
        );
    }
}

#[test]
fn errors_in_words() {
    let status = |code: i32, message: &str, metadata: Option<&str>| {
        TonicStatusError {
            code,
            message: message.to_owned(),
            metadata: metadata.map(|text| text.to_owned()),
        }
        .fmt_tonic_status()
    };
    assert_eq!(status(2, "", None), "gRPC error");
    assert_eq!(status(2, "oops", None), "oops");
    assert_eq!(status(5, "oops", None), "oops (Some requested entity was not found)");
    assert_eq!(status(99, "oops", None), "oops");
    assert_eq!(status(-1, "oops", None), "oops");
    assert_eq!(
        status(13, "", Some("{\"a\": \"b\"}")),
        "gRPC error (Internal error)\nDetails: metadata: {\"a\": \"b\"}"
    );
    assert_eq!(
        LoopbackOnly.call(None).unwrap_err().fmt_tonic_status(),
        "Only connections from the local machine are allowed (The caller does not have permission to execute the specified operation)"
    );
}

#[test]
fn every_code_has_the_words_of_tonic() {
    for code in -1..18 {
        let words = tonic::Code::from_i32(code);
        let text = TonicStatusError { code, message: "m".to_owned(), metadata: None }
            .fmt_tonic_status();
        if words == tonic::Code::Unknown {
            assert_eq!(text, "m");
        } else {
            assert_eq!(text, format!("m ({words})"));
        }
    }
}

fn data() -> DataframePartProto {
    DataframePartProto {
        encoder_version: 1,
        payload: Some(vec![1, 2]),
        compression: 0,
        uncompressed_size: 0,
    }
}

fn table() -> TableMsgProto {
    TableMsgProto { id: TableIdProto { id: "t".to_owned() }, data: data() }
}

fn log() -> LogMsgProto {
    LogMsgProto { msg: None }
}

fn command() -> LogOrTableMsgProto {
    DataSourceUiCommand::SetUrlFragment {
        store_id: StoreId::random(StoreKind::Recording, "test_app"),
        fragment: String::new(),
    }
    .into()
}

#[test]
fn writing_messages() {
    assert!(matches!(
        write_messages_step(WriteEvent::Request(Some(log()))),
        WriteStep::Push(LogMsgProto { msg: None })
    ));
    assert!(matches!(
        write_messages_step(WriteEvent::Request(None)),
        WriteStep::WarnMissing
    ));
    assert!(matches!(write_messages_step(WriteEvent::Closed), WriteStep::Stop));
    assert!(matches!(write_messages_step(WriteEvent::Failed), WriteStep::StopFailed));
}

#[test]
fn writing_tables() {
    let id = || Some(TableIdProto { id: "t".to_owned() });
    assert_eq!(write_table(id(), Some(data())), Some(table()));
    assert_eq!(write_table(None, Some(data())), None);
    assert_eq!(write_table(id(), None), None);
}

#[test]
fn streams_carry_their_kind() {
    let item = |msg: LogOrTableMsgProto| Ok::<_, String>(ReadLogOrTableMsgResponse::from(msg));
    assert_eq!(
        log_stream_item(item(log().into())),
        Some(Ok(ReadMessagesResponse { log_msg: Some(log()) }))
    );
    assert_eq!(table_stream_item(item(log().into())), None);
    assert_eq!(log_stream_item(item(table().into())), None);
    assert_eq!(
        table_stream_item(item(table().into())),
        Some(Ok(ReadTablesResponse { id: Some(table().id), data: Some(table().data) }))
    );
    assert_eq!(log_stream_item(item(command())), None);
    assert_eq!(table_stream_item(item(command())), None);
    assert_eq!(log_stream_item(Err("gone")), Some(Err("gone")));
    assert_eq!(table_stream_item(Err("gone")), Some(Err("gone")));
}

#[test]
fn order_of_history_and_live() {
    assert_eq!(stream_order(PlaybackBehavior::OldestFirst), StreamOrder::HistoryThenLive);
    assert_eq!(stream_order(PlaybackBehavior::NewestFirst), StreamOrder::LiveBeforeHistory);
}

#[test]
fn answers_on_memory() {
    assert_eq!(capture_memory(false, Some(3), 0), Some(3));
    assert_eq!(capture_memory(false, None, 0), Some(0));
    assert_eq!(capture_memory(true, Some(3), 0), None);
}

#[test]
fn intake_steps() {
    assert!(matches!(
        intake_step(IntakeEvent::LogMsg(Some(log()))),
        IntakeStep::Forward(LogOrTableMsgProto::LogMsg(LogMsgProto { msg: None }))
    ));
    assert!(matches!(intake_step(IntakeEvent::LogMsg(None)), IntakeStep::ReportNotEncoded));
    assert!(matches!(intake_step(IntakeEvent::Unsupported), IntakeStep::ReportUnsupported));
    assert!(matches!(intake_step(IntakeEvent::Flush), IntakeStep::ConfirmFlush));
    for sources_left in [false, true] {
        for event in [IntakeEvent::Quit { sources_left }, IntakeEvent::Disconnected { sources_left }]
        {
            assert_eq!(matches!(intake_step(event), IntakeStep::Stop), !sources_left);
        }
    }
}
