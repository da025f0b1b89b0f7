use binance_connector::streams::{
    stream_name, ws_agg_trade_rs, ws_mark_price_rs, ws_order_book_rs, ws_user_data_rs,
    StreamKind, StreamRegistry,
};

#[test]
fn stream_names_have_their_suffix() {
    assert_eq!(stream_name("btcusdt", StreamKind::OrderBook), "btcusdt@depth@0ms");
    assert_eq!(stream_name("btcusdt", StreamKind::AggTrade), "btcusdt@aggTrade");
    assert_eq!(stream_name("ethusdt", StreamKind::MarkPrice), "ethusdt@markPrice");
    assert_eq!(stream_name("", StreamKind::AggTrade), "@aggTrade");
}

#[test]
fn stream_names_differ_by_kind() {
    let kinds = [StreamKind::OrderBook, StreamKind::AggTrade, StreamKind::MarkPrice];
    for a in kinds {
        for b in kinds {
            assert_eq!(stream_name("x", a) == stream_name("x", b), a == b);
        }
    }
}

#[test]
fn registration_keeps_request_order() {
    let mut reg = StreamRegistry::new();
    assert_eq!(reg.len(), 0);
    assert_eq!(ws_order_book_rs(&mut reg, "btcusdt"), 0);
    assert_eq!(ws_agg_trade_rs(&mut reg, "ethusdt"), 0);
    assert_eq!(ws_mark_price_rs(&mut reg, "btcusdt"), 0);
    assert_eq!(
        reg.names(),
        &vec![
            "btcusdt@depth@0ms".to_string(),
            "ethusdt@aggTrade".to_string(),
            "btcusdt@markPrice".to_string()
        ]
    );
    assert_eq!(reg.len(), 3);
}

#[test]
fn user_data_stream_registers_listen_key() {
    let mut reg = StreamRegistry::new();
    ws_order_book_rs(&mut reg, "btcusdt");
    assert_eq!(ws_user_data_rs(&mut reg, Some("pqia91ma19a5s61cv6a81va65sdf19v8a65a1a5s61cv6a81va65sdf19v8a65a1".to_string())), 0);
    assert_eq!(reg.len(), 2);
    assert_eq!(reg.names()[1], "pqia91ma19a5s61cv6a81va65sdf19v8a65a1a5s61cv6a81va65sdf19v8a65a1");
}

#[test]
fn user_data_stream_failure_answers_one() {
    let mut reg = StreamRegistry::new();
    ws_agg_trade_rs(&mut reg, "btcusdt");
    assert_eq!(ws_user_data_rs(&mut reg, None), 1);
    assert_eq!(reg.names(), &vec!["btcusdt@aggTrade".to_string()]);
}
