//! The texts handed back to the C++ caller for each API request.

use vstd::prelude::*;
use crate::decimal::{signed_decimal, signed_text, signed_value, signed_text_reads_back};

verus! {

/// Why an API request failed.
#[derive(Clone, Debug)]
pub enum ApiError {
    /// The exchange answered with an error code and message.
    Rejected { code: i16, msg: String },
    /// Any other failure (transport, decoding, ...), by its message text.
    Failed(String),
}

/// The reply text for a failed request.
pub open spec fn error_text(e: ApiError) -> Seq<char> {
    match e {
        ApiError::Rejected { code, msg } => "{ec: \""@ + signed_decimal(code as int) + "\", errmsg: \""@
            + msg@ + "\"}"@,
        ApiError::Failed(msg) => "{ec: 1, errmsg: \""@ + msg@ + "\"}"@,
    }
}

/// The reply text for a request whose outcome is `outcome`: the answer's own text
/// on success, the error text on failure.
pub open spec fn reply_of(outcome: Result<String, ApiError>) -> Seq<char> {
    match outcome {
        Ok(answer) => answer@,
        Err(e) => error_text(e),
    }
}

/// The reply text for a request to cancel all open orders: on success the answer
/// is wrapped as the only element of a `data` list.
pub open spec fn cancel_all_reply_of(outcome: Result<String, ApiError>) -> Seq<char> {
    match outcome {
        Ok(answer) => "{\"data\":["@ + answer@ + "]}"@,
        Err(e) => error_text(e),
    }
}

/// Writes the reply text for a failed request.
pub fn error_reply(e: &ApiError) -> (res: String)
    ensures
        res@ == error_text(*e),
{
    match e {
        ApiError::Rejected { code, msg } => {
            let mut res = String::from_str("{ec: \"");
            let digits = signed_text(*code as i64);
            res.append(digits.as_str());
            res.append("\", errmsg: \"");
            res.append(msg.as_str());
            res.append("\"}");
            res
        },
        ApiError::Failed(msg) => {
            let mut res = String::from_str("{ec: 1, errmsg: \"");
            res.append(msg.as_str());
            res.append("\"}");
            res
        },
    }
}

/// Writes the reply text for a request, given its outcome.
pub fn api_reply(outcome: Result<String, ApiError>) -> (res: String)
    ensures
        res@ == reply_of(outcome),
{
    match outcome {
        Ok(answer) => answer,
        Err(e) => error_reply(&e),
    }
}

/// Writes the reply text for a request to cancel all open orders, given its outcome.
pub fn cancel_all_reply(outcome: Result<String, ApiError>) -> (res: String)
    ensures
        res@ == cancel_all_reply_of(outcome),
{
    match outcome {
        Ok(answer) => {
            let mut res = String::from_str("{\"data\":[");
            res.append(answer.as_str());
            res.append("]}");
            res
        },
        Err(e) => error_reply(&e),
    }
}

/// Every error reply is a brace-delimited record whose first field is `ec`.
pub proof fn error_replies_are_records(e: ApiError)
    ensures
        error_text(e).len() > 6,
        error_text(e).take(5) == "{ec: "@,
        error_text(e).last() == '}',
{
    reveal_strlit("{ec: \"");
    reveal_strlit("\", errmsg: \"");
    reveal_strlit("\"}");
    reveal_strlit("{ec: 1, errmsg: \"");
    reveal_strlit("{ec: ");
    let t = error_text(e);
    match e {
        ApiError::Rejected { code, msg } => {
            assert(t.take(5) =~= "{ec: "@);
        },
        ApiError::Failed(msg) => {
            assert(t.take(5) =~= "{ec: "@);
        },
    }
}

/// On success a reply is the answer's own text, unchanged, whatever it holds.
pub proof fn success_reply_is_answer(answer: String)
    ensures
        reply_of(Ok(answer)) == answer@,
{
}

/// On success the cancel-all reply wraps the same text that any other request
/// would answer in a one-element `data` list.
pub proof fn cancel_all_success_wraps_reply(answer: String)
    ensures
        cancel_all_reply_of(Ok(answer)) == "{\"data\":["@ + reply_of(Ok(answer)) + "]}"@,
{
}

/// A failure is answered alike by every request, cancel-all included.
pub proof fn failures_reply_alike(e: ApiError)
    ensures
        cancel_all_reply_of(Err(e)) == reply_of(Err(e)),
        reply_of(Err(e)) == error_text(e),
{
}

/// The reply to a rejected request quotes the exchange's code right after
/// `{ec: "`, as a text that reads back as the code, and ends with the exchange's
/// message and `"}`.
pub proof fn rejection_quotes_code(code: i16, msg: String)
    ensures
        ({
            let t = error_text(ApiError::Rejected { code, msg });
            let d = signed_decimal(code as int);
    let e = 6 + d.len() as int;
            &&& t.subrange(0, 6) == "{ec: \""@
            &&& t[e] == '"'
            &&& signed_value(t.subrange(6, e)) == code
            &&& t.subrange(t.len() - 2 - msg@.len(), t.len() - 2 as int) == msg@
            &&& t.subrange(t.len() - 2, t.len() as int) == "\"}"@
        }),
{
    reveal_strlit("{ec: \"");
    reveal_strlit("\", errmsg: \"");
    reveal_strlit("\"}");
    signed_text_reads_back(code as int);
    let t = error_text(ApiError::Rejected { code, msg });
    let d = signed_decimal(code as int);
    let e = 6 + d.len() as int;
    assert(t.subrange(0, 6) =~= "{ec: \""@);
    assert(t.subrange(6, e) =~= d);
    assert(t[e] == '"');
    assert(t.subrange(t.len() - 2 - msg@.len(), t.len() - 2 as int) =~= msg@);
    assert(t.subrange(t.len() - 2, t.len() as int) =~= "\"}"@);
}

/// Any other failure is answered with code `1`, unquoted, then its message.
pub proof fn failure_answers_code_one(msg: String)
    ensures
        ({
            let t = error_text(ApiError::Failed(msg));
            &&& t.subrange(0, 17) == "{ec: 1, errmsg: \""@
            &&& t.subrange(17, t.len() - 2 as int) == msg@
            &&& t.subrange(t.len() - 2, t.len() as int) == "\"}"@
        }),
{
    reveal_strlit("{ec: 1, errmsg: \"");
    reveal_strlit("\"}");
    let t = error_text(ApiError::Failed(msg));
    assert(t.subrange(0, 17) =~= "{ec: 1, errmsg: \""@);
    assert(t.subrange(17, t.len() - 2 as int) =~= msg@);
    assert(t.subrange(t.len() - 2, t.len() as int) =~= "\"}"@);
}

} // verus!
