//! Fields of API requests, taken from the caller's text arguments.

use vstd::prelude::*;

verus! {

/// The symbol filter of a position request: an empty text asks for every symbol.
pub fn position_symbol(symbol: &str) -> (res: Option<String>)
    ensures
        res is None <==> symbol@.len() == 0,
        res matches Some(s) ==> s@ == symbol@,
{
    if symbol.is_empty() {
        None
    } else {
        Some(String::from_str(symbol))
    }
}

} // verus!
