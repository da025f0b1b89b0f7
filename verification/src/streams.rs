//! Market and user-data stream names, and the registry of the streams that the
//! streaming loop subscribes to.

use vstd::prelude::*;

verus! {

/// The kinds of market stream that can be requested for a symbol.
#[derive(Clone, Copy, Debug, PartialEq, Eq, Structural)]
pub enum StreamKind {
    /// Order book updates, every 0 ms.
    OrderBook,
    /// Aggregated trades.
    AggTrade,
    /// Mark price updates.
    MarkPrice,
}

/// The text that follows the symbol in the name of a stream of kind `kind`.
pub open spec fn stream_suffix(kind: StreamKind) -> Seq<char> {
    match kind {
        StreamKind::OrderBook => "@depth@0ms"@,
        StreamKind::AggTrade => "@aggTrade"@,
        StreamKind::MarkPrice => "@markPrice"@,
    }
}

/// The name of the stream of kind `kind` for `symbol`.
pub open spec fn stream_of(symbol: Seq<char>, kind: StreamKind) -> Seq<char> {
    symbol + stream_suffix(kind)
}

fn suffix_str(kind: StreamKind) -> (res: &'static str)
    ensures
        res@ == stream_suffix(kind),
{
    match kind {
        StreamKind::OrderBook => "@depth@0ms",
        StreamKind::AggTrade => "@aggTrade",
        StreamKind::MarkPrice => "@markPrice",
    }
}

/// The name of the stream of kind `kind` for `symbol`, such as `btcusdt@aggTrade`.
pub fn stream_name(symbol: &str, kind: StreamKind) -> (res: String)
    ensures
        res@ == stream_of(symbol@, kind),
{
    let mut res = String::from_str(symbol);
    res.append(suffix_str(kind));
    res
}

/// A stream name determines both the symbol and the kind it was made from.
pub proof fn stream_names_identify(s1: Seq<char>, k1: StreamKind, s2: Seq<char>, k2: StreamKind)
    requires
        stream_of(s1, k1) == stream_of(s2, k2),
    ensures
        s1 == s2,
        k1 == k2,
{
    reveal_strlit("@depth@0ms");
    reveal_strlit("@aggTrade");
    reveal_strlit("@markPrice");
    let n1 = stream_of(s1, k1);
    let n2 = stream_of(s2, k2);
    let l1 = stream_suffix(k1).len();
    let l2 = stream_suffix(k2).len();
    assert(n1[n1.len() - 1] == stream_suffix(k1)[l1 - 1]);
    assert(n2[n2.len() - 1] == stream_suffix(k2)[l2 - 1]);
    assert(n1[n1.len() - 2] == stream_suffix(k1)[l1 - 2]);
    assert(n2[n2.len() - 2] == stream_suffix(k2)[l2 - 2]);
    assert(k1 == k2);
    assert(s1.len() == s2.len());
    assert forall|i: int| 0 <= i < s1.len() implies s1[i] == s2[i] by {
        assert(n1[i] == s1[i]);
        assert(n2[i] == s2[i]);
    }
    assert(s1 =~= s2);
}

/// Every stream name is the symbol, unchanged, followed by the fixed suffix of
/// its kind: `@depth@0ms`, `@aggTrade` or `@markPrice`, whatever the symbol.
pub proof fn stream_names_are_symbol_then_suffix(s: Seq<char>)
    ensures
        stream_of(s, StreamKind::OrderBook).len() == s.len() + 10,
        stream_of(s, StreamKind::OrderBook).subrange(0, s.len() as int) == s,
        stream_of(s, StreamKind::OrderBook).subrange(s.len() as int, s.len() + 10int) == "@depth@0ms"@,
        stream_of(s, StreamKind::AggTrade).len() == s.len() + 9,
        stream_of(s, StreamKind::AggTrade).subrange(0, s.len() as int) == s,
        stream_of(s, StreamKind::AggTrade).subrange(s.len() as int, s.len() + 9int) == "@aggTrade"@,
        stream_of(s, StreamKind::MarkPrice).len() == s.len() + 10,
        stream_of(s, StreamKind::MarkPrice).subrange(0, s.len() as int) == s,
        stream_of(s, StreamKind::MarkPrice).subrange(s.len() as int, s.len() + 10int) == "@markPrice"@,
{
    reveal_strlit("@depth@0ms");
    reveal_strlit("@aggTrade");
    reveal_strlit("@markPrice");
    let a = stream_of(s, StreamKind::OrderBook);
    let b = stream_of(s, StreamKind::AggTrade);
    let c = stream_of(s, StreamKind::MarkPrice);
    assert(a.subrange(0, s.len() as int) =~= s);
    assert(a.subrange(s.len() as int, s.len() + 10int) =~= "@depth@0ms"@);
    assert(b.subrange(0, s.len() as int) =~= s);
    assert(b.subrange(s.len() as int, s.len() + 9int) =~= "@aggTrade"@);
    assert(c.subrange(0, s.len() as int) =~= s);
    assert(c.subrange(s.len() as int, s.len() + 10int) =~= "@markPrice"@);
}

/// What follows the symbol in a stream name depends on the kind alone, not on
/// the symbol.
pub proof fn stream_suffix_ignores_symbol(s1: Seq<char>, s2: Seq<char>, kind: StreamKind)
    ensures
        stream_of(s1, kind).subrange(s1.len() as int, stream_of(s1, kind).len() as int)
            == stream_of(s2, kind).subrange(s2.len() as int, stream_of(s2, kind).len() as int),
{
    assert(stream_of(s1, kind).subrange(s1.len() as int, stream_of(s1, kind).len() as int) =~= stream_suffix(kind));
    assert(stream_of(s2, kind).subrange(s2.len() as int, stream_of(s2, kind).len() as int) =~= stream_suffix(kind));
}

/// The streams to subscribe to, in the order in which they were requested.
pub struct StreamRegistry {
    names: Vec<String>,
}

impl View for StreamRegistry {
    type V = Seq<Seq<char>>;

    closed spec fn view(&self) -> Seq<Seq<char>> {
        self.names@.map_values(|s: String| s@)
    }
}

impl StreamRegistry {
    /// A registry with no streams.
    pub fn new() -> (res: Self)
        ensures
            res@ == Seq::<Seq<char>>::empty(),
    {
        let res = StreamRegistry { names: Vec::new() };
        assert(res@ =~= Seq::<Seq<char>>::empty());
        res
    }

    /// Adds `name` after the streams already registered.
    pub fn register(&mut self, name: String)
        ensures
            final(self)@ == old(self)@.push(name@),
    {
        let ghost before = self@;
        self.names.push(name);
        assert(self@ =~= before.push(name@));
    }

    /// The number of registered streams.
    pub fn len(&self) -> (res: usize)
        ensures
            res == self@.len(),
    {
        self.names.len()
    }

    /// The registered stream names, in registration order.
    pub fn names(&self) -> (res: &Vec<String>)
        ensures
            res@.map_values(|s: String| s@) == self@,
    {
        &self.names
    }
}

/// Registers the order book stream of `symbol`; answers `0`.
pub fn ws_order_book_rs(registry: &mut StreamRegistry, symbol: &str) -> (code: i32)
    ensures
        code == 0,
        final(registry)@ == old(registry)@.push(stream_of(symbol@, StreamKind::OrderBook)),
{
    registry.register(stream_name(symbol, StreamKind::OrderBook));
    0
}

/// Registers the aggregated trade stream of `symbol`; answers `0`.
pub fn ws_agg_trade_rs(registry: &mut StreamRegistry, symbol: &str) -> (code: i32)
    ensures
        code == 0,
        final(registry)@ == old(registry)@.push(stream_of(symbol@, StreamKind::AggTrade)),
{
    registry.register(stream_name(symbol, StreamKind::AggTrade));
    0
}

/// Registers the mark price stream of `symbol`; answers `0`.
pub fn ws_mark_price_rs(registry: &mut StreamRegistry, symbol: &str) -> (code: i32)
    ensures
        code == 0,
        final(registry)@ == old(registry)@.push(stream_of(symbol@, StreamKind::MarkPrice)),
{
    registry.register(stream_name(symbol, StreamKind::MarkPrice));
    0
}

/// Records the outcome of starting the user data stream: with the listen key it
/// got, the key joins the streams and the answer is `0`; without one, nothing is
/// registered and the answer is `1`.
pub fn ws_user_data_rs(registry: &mut StreamRegistry, listen_key: Option<String>) -> (code: i32)
    ensures
        match listen_key {
            Some(key) => code == 0 && final(registry)@ == old(registry)@.push(key@),
            None => code == 1 && final(registry)@ == old(registry)@,
        },
{
    match listen_key {
        Some(key) => {
            registry.register(key);
            0
        },
        None => 1,
    }
}

} // verus!
