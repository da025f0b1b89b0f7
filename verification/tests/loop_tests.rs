use binance_connector::clock::epoch_nanos;
use binance_connector::command::{cppMessageHandler, command_for, read_message, Command, MessageError};
use binance_connector::loops::{
    after_event_loop, after_renewal, keep_alive_start, EventLoopEnd, KeepAliveStep, StreamStep,
    KEEP_ALIVE_PERIOD_SECS,
};

#[test]
fn stream_loop_always_reconnects() {
    assert_eq!(after_event_loop(EventLoopEnd::Returned), StreamStep::Reconnect);
    assert_eq!(after_event_loop(EventLoopEnd::Failed), StreamStep::ReportCloseAndReconnect);
}

#[test]
fn keep_alive_renews_every_half_hour_until_failure() {
    assert_eq!(KEEP_ALIVE_PERIOD_SECS, 1800);
    assert_eq!(keep_alive_start(), KeepAliveStep::WaitThenRenew(1800));
    assert_eq!(after_renewal(true), KeepAliveStep::WaitThenRenew(1800));
    assert_eq!(after_renewal(false), KeepAliveStep::Stop);
}

#[test]
fn epoch_nanos_exact() {
    assert_eq!(epoch_nanos(0, 0), 0);
    assert_eq!(epoch_nanos(1_700_000_000, 123_456_789), 1_700_000_000_123_456_789);
    assert_eq!(epoch_nanos(18_446_744_073, 709_551_615), u64::MAX);
}

#[test]
fn commands_by_name() {
    assert_eq!(command_for(Some("new_order")), Command::NewOrder);
    assert_eq!(command_for(Some("ws_start")), Command::WsStart);
    assert_eq!(command_for(Some("batch_new_order")), Command::BatchNewOrder);
    assert_eq!(command_for(Some("cancel_all_orders")), Command::CancelAllOrders);
    assert_eq!(command_for(Some("exchange_info")), Command::ExchangeInfo);
    assert_eq!(command_for(Some("new_orders")), Command::Unknown);
    assert_eq!(command_for(Some("")), Command::Unknown);
    assert_eq!(command_for(None), Command::Unknown);
}

#[test]
fn message_handler_reads_cmd() {
    assert_eq!(cppMessageHandler("{\"cmd\":\"new_order\",\"qty\":1}"), Command::NewOrder);
    assert_eq!(cppMessageHandler("{\"cmd\": \"exchange_info\"}"), Command::ExchangeInfo);
    assert_eq!(cppMessageHandler("{\"cmd\": \"ws_start\", \"cmd\": \"batch_new_order\"}"), Command::BatchNewOrder);
    assert_eq!(cppMessageHandler("{\"cmd\": 3}"), Command::Unknown);
    assert_eq!(cppMessageHandler("{\"other\": \"ws_start\"}"), Command::Unknown);
    assert_eq!(cppMessageHandler("[\"ws_start\"]"), Command::Unknown);
    assert_eq!(cppMessageHandler("\"ws_start\""), Command::Unknown);
}

#[test]
fn read_message_checks_json() {
    assert_eq!(read_message("{\"cmd\":\"cancel_all_orders\"}"), Ok(Command::CancelAllOrders));
    assert_eq!(read_message("{\"cmd\":\"ws_start\"}"), Ok(Command::WsStart));
    assert_eq!(read_message("{}"), Ok(Command::Unknown));
    assert_eq!(read_message("{cmd: new_order}"), Err(MessageError::InvalidJson));
    assert_eq!(read_message(""), Err(MessageError::InvalidJson));
}
