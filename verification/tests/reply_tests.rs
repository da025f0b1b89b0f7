use binance_connector::replies::{api_reply, cancel_all_reply, error_reply, ApiError};

#[test]
fn rejected_request_reply() {
    let e = ApiError::Rejected { code: -2011, msg: "Unknown order sent.".to_string() };
    assert_eq!(error_reply(&e), "{ec: \"-2011\", errmsg: \"Unknown order sent.\"}");
    let e = ApiError::Rejected { code: 400, msg: String::new() };
    assert_eq!(error_reply(&e), "{ec: \"400\", errmsg: \"\"}");
}

#[test]
fn failed_request_reply() {
    let e = ApiError::Failed("error sending request".to_string());
    assert_eq!(error_reply(&e), "{ec: 1, errmsg: \"error sending request\"}");
}

#[test]
fn successful_reply_is_the_answer() {
    assert_eq!(api_reply(Ok("SymbolPrice { symbol: \"BTCUSDT\" }".to_string())), "SymbolPrice { symbol: \"BTCUSDT\" }");
    assert_eq!(
        api_reply(Err(ApiError::Rejected { code: -1121, msg: "Invalid symbol.".to_string() })),
        "{ec: \"-1121\", errmsg: \"Invalid symbol.\"}"
    );
}

#[test]
fn cancel_all_reply_wraps_answer() {
    assert_eq!(cancel_all_reply(Ok("()".to_string())), "{\"data\":[()]}");
    assert_eq!(
        cancel_all_reply(Err(ApiError::Failed("timeout".to_string()))),
        "{ec: 1, errmsg: \"timeout\"}"
    );
}

#[test]
fn every_error_reply_is_a_record() {
    let errors = [
        ApiError::Rejected { code: i16::MIN, msg: "m".to_string() },
        ApiError::Rejected { code: 0, msg: "}".to_string() },
        ApiError::Failed(String::new()),
    ];
    for e in errors.iter() {
        let r = error_reply(e);
        assert!(r.starts_with("{ec: "));
        assert!(r.ends_with('}'));
    }
}
