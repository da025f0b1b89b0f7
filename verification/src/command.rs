//! Commands sent by the C++ side as JSON messages with a `cmd` field.

use vstd::prelude::*;

verus! {

#[verifier::external_type_specification]
#[verifier::external_body]
pub struct ExJsonError(serde_json::Error);

/// Whether `serde_json::from_str::<serde_json::Value>` accepts `text` as a JSON document.
pub uninterp spec fn json_accepts(text: Seq<char>) -> bool;

/// The text of the member `key` of the JSON document `text`, as serde_json reads
/// it: `None` when the document is no object, has no such member, or the member
/// is not a string.
pub uninterp spec fn json_str_member(text: Seq<char>, key: Seq<char>) -> Option<Seq<char>>;

/// The view of an optional text.
pub open spec fn text_view(t: Option<String>) -> Option<Seq<char>> {
    match t {
        Some(s) => Some(s@),
        None => None,
    }
}

/// Parses `text` with `serde_json::from_str::<serde_json::Value>` and reads the
/// member `key` of the value (`<Value as Index<&str>>::index`, which gives `Null`
/// for a missing member or a value that is no object), keeping its text where it
/// is a `Value::String`. Stated: parsing succeeds exactly on the texts that
/// serde_json accepts, and the member's text is a function of `text` and `key`
/// alone. Neither call panics.
#[verifier::external_body]
fn read_str_member(text: &str, key: &str) -> (res: Result<Option<String>, serde_json::Error>)
    ensures
        res is Ok <==> json_accepts(text@),
        res matches Ok(m) ==> text_view(m) == json_str_member(text@, key@),
{
    serde_json::from_str::<serde_json::Value>(text).map(|value| match &value[key] {
        serde_json::Value::String(s) => Some(s.clone()),
        _ => None,
    })
}

/// The commands that the C++ side sends.
#[derive(Clone, Copy, Debug, PartialEq, Eq, Structural)]
pub enum Command {
    NewOrder,
    WsStart,
    BatchNewOrder,
    CancelAllOrders,
    ExchangeInfo,
    /// A `cmd` that is none of the above, or no text `cmd` at all.
    Unknown,
}

/// Why a message could not be read.
#[derive(Clone, Copy, Debug, PartialEq, Eq, Structural)]
pub enum MessageError {
    /// The message is not a JSON document.
    InvalidJson,
}

/// The command named by the text of a message's `cmd` member, if it has one.
pub open spec fn command_named(cmd: Option<Seq<char>>) -> Command {
    match cmd {
        Some(name) => if name == "new_order"@ {
            Command::NewOrder
        } else if name == "ws_start"@ {
            Command::WsStart
        } else if name == "batch_new_order"@ {
            Command::BatchNewOrder
        } else if name == "cancel_all_orders"@ {
            Command::CancelAllOrders
        } else if name == "exchange_info"@ {
            Command::ExchangeInfo
        } else {
            Command::Unknown
        },
        None => Command::Unknown,
    }
}

fn same_text(a: &str, b: &str) -> (res: bool)
    ensures
        res == (a@ == b@),
{
    let n = a.unicode_len();
    if n != b.unicode_len() {
        return false;
    }
    let mut i: usize = 0;
    while i < n
        invariant
            n == a@.len(),
            n == b@.len(),
            i <= n,
            forall|k: int| 0 <= k < i ==> a@[k] == b@[k],
        decreases n - i,
    {
        if a.get_char(i) != b.get_char(i) {
            return false;
        }
        i = i + 1;
    }
    assert(a@ =~= b@);
    true
}

/// The command that a message's `cmd` text names.
pub fn command_for(cmd: Option<&str>) -> (res: Command)
    ensures
        res == command_named(match cmd {
            Some(s) => Some(s@),
            None => None,
        }),
{
    match cmd {
        Some(name) => if same_text(name, "new_order") {
            Command::NewOrder
        } else if same_text(name, "ws_start") {
            Command::WsStart
        } else if same_text(name, "batch_new_order") {
            Command::BatchNewOrder
        } else if same_text(name, "cancel_all_orders") {
            Command::CancelAllOrders
        } else if same_text(name, "exchange_info") {
            Command::ExchangeInfo
        } else {
            Command::Unknown
        },
        None => Command::Unknown,
    }
}

/// The command that a message from the C++ side names in its `cmd` member. The
/// message must be a JSON document.
#[allow(non_snake_case)]
pub fn cppMessageHandler(msg: &str) -> (res: Command)
    requires
        json_accepts(msg@),
    ensures
        res == command_named(json_str_member(msg@, "cmd"@)),
{
    match read_str_member(msg, "cmd") {
        Ok(Some(name)) => command_for(Some(name.as_str())),
        Ok(None) => command_for(None),
        Err(_) => {
            assert(false);
            Command::Unknown
        },
    }
}

/// Reads a message from the C++ side: the command that its `cmd` member names,
/// or `InvalidJson` when the message is not a JSON document.
pub fn read_message(msg: &str) -> (res: Result<Command, MessageError>)
    ensures
        json_accepts(msg@) ==> res == Ok::<Command, MessageError>(command_named(json_str_member(msg@, "cmd"@))),
        !json_accepts(msg@) ==> res == Err::<Command, MessageError>(MessageError::InvalidJson),
{
    match read_str_member(msg, "cmd") {
        Ok(_) => Ok(cppMessageHandler(msg)),
        Err(_) => Err(MessageError::InvalidJson),
    }
}

} // verus!
