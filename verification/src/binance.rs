use vstd::prelude::*;
use crate::text::{owned, join2, str_eq};
use crate::market::{Ticker, Timeframe, spec_ticker_lower, spec_timeframe_label};

verus! {

/// Aggregated-trade stream name of a ticker, e.g. "btcusdt@aggTrade".
pub open spec fn spec_trade_stream(ticker: Ticker) -> Seq<char> {
    spec_ticker_lower(ticker) + "@aggTrade"@
}

/// 100 ms order-book diff stream name of a ticker.
pub open spec fn spec_depth_stream(ticker: Ticker) -> Seq<char> {
    spec_ticker_lower(ticker) + "@depth@100ms"@
}

/// Kline stream name of a ticker and timeframe, e.g. "btcusdt@kline_1m".
pub open spec fn spec_kline_stream(ticker: Ticker, tf: Timeframe) -> Seq<char> {
    spec_ticker_lower(ticker) + "@kline_"@ + spec_timeframe_label(tf)
}

/// Combined-stream websocket address of the trade and depth streams of a ticker.
pub open spec fn spec_market_ws_url(ticker: Ticker) -> Seq<char> {
    "wss://fstream.binance.com/stream?streams="@ + spec_trade_stream(ticker) + "/"@ + spec_depth_stream(ticker)
}

/// Stream names joined by "/".
pub open spec fn spec_join_slash(names: Seq<Seq<char>>) -> Seq<char>
    decreases names.len(),
{
    if names.len() == 0 {
        Seq::empty()
    } else if names.len() == 1 {
        names[0]
    } else {
        spec_join_slash(names.drop_last()) + "/"@ + names.last()
    }
}

/// Kline stream names of a list of (ticker, timeframe) pairs.
pub open spec fn spec_kline_streams(pairs: Seq<(Ticker, Timeframe)>) -> Seq<Seq<char>> {
    pairs.map_values(|p: (Ticker, Timeframe)| spec_kline_stream(p.0, p.1))
}

/// Combined-stream websocket address of the kline streams of the pairs.
pub open spec fn spec_kline_ws_url(pairs: Seq<(Ticker, Timeframe)>) -> Seq<char> {
    "wss://fstream.binance.com/stream?streams="@ + spec_join_slash(spec_kline_streams(pairs))
}

/// REST address of the latest 720 klines of a ticker and timeframe.
pub open spec fn spec_klines_url(ticker: Ticker, tf: Timeframe) -> Seq<char> {
    "https://fapi.binance.com/fapi/v1/klines?symbol="@ + spec_ticker_lower(ticker) + "&interval="@
        + spec_timeframe_label(tf) + "&limit=720"@
}

/// REST address of a 100-level order-book snapshot of a ticker.
pub open spec fn spec_depth_url(ticker: Ticker) -> Seq<char> {
    "https://fapi.binance.com/fapi/v1/depth?symbol="@ + spec_ticker_lower(ticker) + "&limit=100"@
}

/// "{symbol}@aggTrade"
pub fn trade_stream(ticker: Ticker) -> (res: String)
    ensures
        res@ == spec_trade_stream(ticker),
{
    let mut s = ticker.get_string();
    s.append("@aggTrade");
    s
}

/// "{symbol}@depth@100ms"
pub fn depth_stream(ticker: Ticker) -> (res: String)
    ensures
        res@ == spec_depth_stream(ticker),
{
    let mut s = ticker.get_string();
    s.append("@depth@100ms");
    s
}

/// "{symbol}@kline_{timeframe}"
pub fn kline_stream(ticker: Ticker, tf: Timeframe) -> (res: String)
    ensures
        res@ == spec_kline_stream(ticker, tf),
{
    let mut s = ticker.get_string();
    s.append("@kline_");
    s.append(tf.to_string().as_str());
    s
}

/// Websocket address of the market (trade and depth) streams of a ticker.
pub fn market_ws_url(ticker: Ticker) -> (res: String)
    ensures
        res@ == spec_market_ws_url(ticker),
{
    let mut s = owned("wss://fstream.binance.com/stream?streams=");
    s.append(trade_stream(ticker).as_str());
    s.append("/");
    s.append(depth_stream(ticker).as_str());
    s
}

/// Where the `k`-th name starts in names joined by "/": the lengths of the
/// names before it, each followed by its separator.
pub open spec fn slash_offset(names: Seq<Seq<char>>, k: int) -> int
    decreases k,
{
    if k <= 0 || k > names.len() {
        0
    } else {
        slash_offset(names, k - 1) + names[k - 1].len() + 1
    }
}

proof fn lemma_offset_grows(names: Seq<Seq<char>>, a: int, b: int)
    requires
        0 <= a <= b <= names.len(),
    ensures
        slash_offset(names, a) <= slash_offset(names, b),
    decreases b - a,
{
    if a < b {
        lemma_offset_grows(names, a, b - 1);
    }
}

proof fn lemma_offset_step(names: Seq<Seq<char>>, k: int)
    requires
        0 <= k < names.len(),
    ensures
        slash_offset(names, k + 1) == slash_offset(names, k) + names[k].len() + 1,
        slash_offset(names, k) >= 0,
{
    lemma_offset_grows(names, 0, k);
}

proof fn lemma_offset_prefix(names: Seq<Seq<char>>, n: int, k: int)
    requires
        0 <= k <= n <= names.len(),
    ensures
        slash_offset(names.take(n), k) == slash_offset(names, k),
    decreases k,
{
    if k > 0 {
        lemma_offset_prefix(names, n, k - 1);
    }
}

/// Names joined by "/" hold every name, in order, each at its offset and
/// followed by a "/" except the last: splitting the text on "/" gives the
/// names back (when no name holds a "/"), and its length is the names'
/// lengths plus one separator between each two.
pub proof fn lemma_join_slash_positions(names: Seq<Seq<char>>)
    ensures
        names.len() > 0 ==> spec_join_slash(names).len() == slash_offset(names, names.len() as int) - 1,
        forall|k: int| 0 <= k < names.len() ==> #[trigger] spec_join_slash(names).subrange(
            slash_offset(names, k), slash_offset(names, k) + names[k].len()) == names[k],
        forall|k: int| 0 <= k < names.len() - 1 ==>
            #[trigger] spec_join_slash(names)[slash_offset(names, k) + names[k].len()] == '/',
    decreases names.len(),
{
    reveal_strlit("/");
    let n = names.len() as int;
    if n == 1 {
        lemma_offset_step(names, 0);
        assert(spec_join_slash(names) == names[0]);
        assert(names[0].subrange(0, names[0].len() as int) =~= names[0]);
    } else if n > 1 {
        let p = names.drop_last();
        assert(p =~= names.take(n - 1));
        lemma_join_slash_positions(p);
        let jp = spec_join_slash(p);
        let j = spec_join_slash(names);
        assert(j == jp + "/"@ + names.last());
        lemma_offset_prefix(names, n - 1, n - 1);
        assert(jp.len() == slash_offset(names, n - 1) - 1);
        lemma_offset_step(names, n - 1);
        assert forall|k: int| 0 <= k < n implies #[trigger] j.subrange(
            slash_offset(names, k), slash_offset(names, k) + names[k].len()) == names[k] by {
            if k < n - 1 {
                lemma_offset_prefix(names, n - 1, k);
                lemma_offset_grows(names, k + 1, n - 1);
                lemma_offset_step(names, k);
                assert(p[k] == names[k]);
                assert(jp.subrange(slash_offset(p, k), slash_offset(p, k) + p[k].len()) == p[k]);
                assert(j.subrange(slash_offset(names, k), slash_offset(names, k) + names[k].len())
                    =~= jp.subrange(slash_offset(names, k), slash_offset(names, k) + names[k].len()));
            } else {
                lemma_offset_step(names, n - 2);
                assert(j.subrange(slash_offset(names, k), slash_offset(names, k) + names[k].len()) =~= names.last());
            }
        }
        assert forall|k: int| 0 <= k < n - 1 implies
            #[trigger] j[slash_offset(names, k) + names[k].len()] == '/' by {
            lemma_offset_prefix(names, n - 1, k);
            lemma_offset_step(names, k);
            lemma_offset_step(names, n - 2);
            if k < n - 2 {
                lemma_offset_grows(names, k + 1, n - 2);
                assert(p[k] == names[k]);
                assert(jp[slash_offset(p, k) + p[k].len()] == '/');
                let pos = slash_offset(names, k) + names[k].len();
                assert(pos < jp.len());
                assert(j[pos] == jp[pos]);
            } else {
                assert(j[jp.len() as int] == '/');
            }
        }
    }
}

/// The kline websocket address lists every pair's kline stream name, in
/// order, after the fixed prefix: the `k`-th name is the stream of the
/// `k`-th pair, it stands at its offset, and names are separated by "/".
#[verifier::rlimit(40)]
pub proof fn lemma_kline_ws_url_lists_every_pair(pairs: Seq<(Ticker, Timeframe)>)
    ensures
        ({
            let head = "wss://fstream.binance.com/stream?streams="@;
            let names = spec_kline_streams(pairs);
            let url = spec_kline_ws_url(pairs);
            &&& names.len() == pairs.len()
            &&& url.subrange(0, head.len() as int) == head
            &&& pairs.len() > 0 ==> url.len() == head.len() + slash_offset(names, pairs.len() as int) - 1
            &&& forall|k: int| 0 <= k < pairs.len() ==> {
                &&& #[trigger] names[k] == spec_kline_stream(pairs[k].0, pairs[k].1)
                &&& url.subrange(head.len() + slash_offset(names, k), head.len() + slash_offset(names, k) + names[k].len()) == names[k]
            }
            &&& forall|k: int| 0 <= k < pairs.len() - 1 ==>
                url[head.len() + slash_offset(names, k) + #[trigger] names[k].len()] == '/'
        }),
{
    let head = "wss://fstream.binance.com/stream?streams="@;
    let names = spec_kline_streams(pairs);
    let url = spec_kline_ws_url(pairs);
    let j = spec_join_slash(names);
    lemma_join_slash_positions(names);
    assert(url == head + j);
    assert(url.subrange(0, head.len() as int) =~= head);
    assert forall|k: int| 0 <= k < pairs.len() implies {
        &&& #[trigger] names[k] == spec_kline_stream(pairs[k].0, pairs[k].1)
        &&& url.subrange(head.len() + slash_offset(names, k), head.len() + slash_offset(names, k) + names[k].len()) == names[k]
    } by {
        assert(j.subrange(slash_offset(names, k), slash_offset(names, k) + names[k].len()) == names[k]);
        lemma_offset_grows(names, k + 1, names.len() as int);
        lemma_offset_step(names, k);
        assert(slash_offset(names, k) + names[k].len() <= j.len());
        assert(url.subrange(head.len() + slash_offset(names, k), head.len() + slash_offset(names, k) + names[k].len())
            =~= j.subrange(slash_offset(names, k), slash_offset(names, k) + names[k].len()));
    }
    assert forall|k: int| 0 <= k < pairs.len() - 1 implies
        url[head.len() + slash_offset(names, k) + #[trigger] names[k].len()] == '/' by {
        assert(j[slash_offset(names, k) + names[k].len()] == '/');
        lemma_offset_step(names, k);
        lemma_offset_grows(names, k + 1, names.len() - 1);
        lemma_offset_step(names, names.len() - 1);
        assert(slash_offset(names, k) + names[k].len() < j.len());
    }
}

/// Websocket address of the kline streams of the pairs, in order.
pub fn kline_ws_url(pairs: &Vec<(Ticker, Timeframe)>) -> (res: String)
    ensures
        res@ == spec_kline_ws_url(pairs@),
{
    let mut joined = String::new();
    let mut i: usize = 0;
    while i < pairs.len()
        invariant
            0 <= i <= pairs@.len(),
            joined@ == spec_join_slash(spec_kline_streams(pairs@.take(i as int))),
        decreases pairs@.len() - i,
    {
        let (ticker, tf) = pairs[i];
        let name = kline_stream(ticker, tf);
        let ghost prev = spec_kline_streams(pairs@.take(i as int));
        let ghost next = spec_kline_streams(pairs@.take(i as int + 1));
        assert(next.drop_last() =~= prev);
        assert(next.last() == spec_kline_stream(ticker, tf));
        if i > 0 {
            joined.append("/");
        }
        joined.append(name.as_str());
        proof {
            if i == 0 {
                assert(prev.len() == 0);
                assert(joined@ =~= next[0]);
            }
        }
        i += 1;
    }
    assert(pairs@.take(i as int) =~= pairs@);
    join2("wss://fstream.binance.com/stream?streams=", joined.as_str())
}

/// Kline request address.
pub fn klines_url(ticker: Ticker, tf: Timeframe) -> (res: String)
    ensures
        res@ == spec_klines_url(ticker, tf),
{
    let mut s = owned("https://fapi.binance.com/fapi/v1/klines?symbol=");
    s.append(ticker.get_string().as_str());
    s.append("&interval=");
    s.append(tf.to_string().as_str());
    s.append("&limit=720");
    s
}

/// Order-book snapshot request address.
pub fn depth_url(ticker: Ticker) -> (res: String)
    ensures
        res@ == spec_depth_url(ticker),
{
    let mut s = owned("https://fapi.binance.com/fapi/v1/depth?symbol=");
    s.append(ticker.get_string().as_str());
    s.append("&limit=100");
    s
}

/// Which buffer a combined-stream message goes to.
#[derive(Debug, Clone, Copy, PartialEq, Eq, Structural)]
pub enum MessageRoute {
    Trade,
    Depth,
    Other,
}

/// A message of the trade stream is a trade, one of the depth stream a
/// depth update, anything else is reported and dropped.
pub open spec fn spec_route(stream: Seq<char>, trade: Seq<char>, depth: Seq<char>) -> MessageRoute {
    if stream == trade {
        MessageRoute::Trade
    } else if stream == depth {
        MessageRoute::Depth
    } else {
        MessageRoute::Other
    }
}

/// Routes a combined-stream message by its stream name.
pub fn route_message(stream: &str, trade: &str, depth: &str) -> (res: MessageRoute)
    ensures
        res == spec_route(stream@, trade@, depth@),
{
    if str_eq(stream, trade) {
        MessageRoute::Trade
    } else if str_eq(stream, depth) {
        MessageRoute::Depth
    } else {
        MessageRoute::Other
    }
}

/// The timeframe of the first subscribed pair whose display name equals the
/// interval of a kline message, if any.
pub open spec fn spec_find_timeframe(pairs: Seq<(Ticker, Timeframe)>, interval: Seq<char>) -> Option<Timeframe>
    decreases pairs.len(),
{
    if pairs.len() == 0 {
        None
    } else if spec_timeframe_label(pairs[0].1) == interval {
        Some(pairs[0].1)
    } else {
        spec_find_timeframe(pairs.drop_first(), interval)
    }
}

/// Finds which subscribed timeframe a kline message with `interval` belongs to.
pub fn find_timeframe(pairs: &Vec<(Ticker, Timeframe)>, interval: &str) -> (res: Option<Timeframe>)
    ensures
        res == spec_find_timeframe(pairs@, interval@),
{
    let mut i: usize = 0;
    assert(pairs@.skip(0) =~= pairs@);
    while i < pairs.len()
        invariant
            0 <= i <= pairs@.len(),
            spec_find_timeframe(pairs@, interval@) == spec_find_timeframe(pairs@.skip(i as int), interval@),
        decreases pairs@.len() - i,
    {
        let (_, tf) = pairs[i];
        assert(pairs@.skip(i as int).drop_first() =~= pairs@.skip(i as int + 1));
        let label = tf.to_string();
        if str_eq(label.as_str(), interval) {
            return Some(tf);
        }
        i += 1;
    }
    None
}


/// The fields of a combined-stream kline message that its handling reads,
/// as `serde_json` reads the text into a JSON value: the string values of
/// "data"."e" and "data"."k"."i", and whether "data"."k" is an object;
/// `None` when the text is not JSON.
pub uninterp spec fn spec_kline_fields(text: Seq<char>) -> Option<(Option<Seq<char>>, Option<Seq<char>>, bool)>;

/// Reads the event name, the interval and the shape of the kline object of a
/// kline message with `serde_json::from_str::<serde_json::Value>`.
/// Trusted: the result is the named reading of the text; indexing a missing
/// field or a non-object gives no string and no object.
#[verifier::external_body]
fn kline_fields(text: &str) -> (r: Option<(Option<String>, Option<String>, bool)>)
    ensures
        match r {
            Some((e, i, k)) => spec_kline_fields(text@) == Some((
                match e { Some(t) => Some(t@), None => None },
                match i { Some(t) => Some(t@), None => None },
                k)),
            None => spec_kline_fields(text@) is None,
        },
{
    match serde_json::from_str::<serde_json::Value>(text) {
        Ok(v) => Some((
            v["data"]["e"].as_str().map(|t| t.to_string()),
            v["data"]["k"]["i"].as_str().map(|t| t.to_string()),
            v["data"]["k"].is_object(),
        )),
        Err(_) => None,
    }
}

/// The subscribed timeframe a kline message belongs to: the message must be
/// JSON whose "data" is a "kline" event with a kline object and an interval
/// naming one of the pairs' timeframes.
pub open spec fn spec_kline_message_timeframe(fields: Option<(Option<Seq<char>>, Option<Seq<char>>, bool)>, pairs: Seq<(Ticker, Timeframe)>) -> Option<Timeframe> {
    match fields {
        Some((Some(e), Some(interval), true)) => if e == "kline"@ {
            spec_find_timeframe(pairs, interval)
        } else {
            None
        },
        _ => None,
    }
}

/// The subscribed timeframe a raw kline message belongs to, if any.
pub fn kline_message_timeframe(text: &str, pairs: &Vec<(Ticker, Timeframe)>) -> (r: Option<Timeframe>)
    ensures
        r == spec_kline_message_timeframe(spec_kline_fields(text@), pairs@),
{
    match kline_fields(text) {
        Some((Some(e), Some(interval), true)) => {
            if str_eq(e.as_str(), "kline") {
                find_timeframe(pairs, interval.as_str())
            } else {
                None
            }
        },
        _ => None,
    }
}

/// A kline message whose interval is the name of a subscribed timeframe is
/// attributed to that timeframe.
pub proof fn lemma_kline_attributed(pairs: Seq<(Ticker, Timeframe)>, tf: Timeframe)
    requires
        exists|i: int| 0 <= i < pairs.len() && pairs[i].1 == tf,
    ensures
        spec_find_timeframe(pairs, spec_timeframe_label(tf)) == Some(tf),
    decreases pairs.len(),
{
    crate::market::lemma_timeframe_labels_distinct(pairs[0].1, tf);
    if pairs[0].1 != tf {
        let i = choose|i: int| 0 <= i < pairs.len() && pairs[i].1 == tf;
        assert(pairs.drop_first()[i - 1] == pairs[i]);
        lemma_kline_attributed(pairs.drop_first(), tf);
    }
}

/// On a ticker's market feed, trade messages go to the trade buffer and
/// order-book messages to the book.
pub proof fn lemma_market_routes(t: Ticker)
    ensures
        spec_route(spec_trade_stream(t), spec_trade_stream(t), spec_depth_stream(t)) == MessageRoute::Trade,
        spec_route(spec_depth_stream(t), spec_trade_stream(t), spec_depth_stream(t)) == MessageRoute::Depth,
{
    reveal_strlit("@aggTrade");
    reveal_strlit("@depth@100ms");
    let n: int = spec_ticker_lower(t).len() as int;
    assert(spec_trade_stream(t)[n + 1] == 'a');
    assert(spec_depth_stream(t)[n + 1] == 'd');
}

/// The sending half of a `futures` channel of strings.
#[verifier::external_type_specification]
#[verifier::external_body]
#[verifier::reject_recursive_types(T)]
pub struct ExSender<T>(futures::channel::mpsc::Sender<T>);

/// Cloning the sending half of a channel. Trusted: nothing is claimed of
/// the clone.
pub assume_specification<T>[ <futures::channel::mpsc::Sender<T> as Clone>::clone ](
    s: &futures::channel::mpsc::Sender<T>,
) -> futures::channel::mpsc::Sender<T>;

/// An open market-stream connection and the channel that feeds it.
#[derive(Debug, Clone)]
pub struct Connection(pub futures::channel::mpsc::Sender<String>);

} // verus!
