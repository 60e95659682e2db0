use vstd::prelude::*;
use crate::text::{owned, join2, str_eq, starts_with, spec_starts_with};
use crate::market::{Ticker, Timeframe, spec_ticker_label, spec_timeframe_label};
use sonic_rs::JsonValueTrait;

verus! {

/// Bybit interval code of a timeframe (minutes), e.g. `15`.
pub open spec fn spec_interval(tf: Timeframe) -> Seq<char> {
    match tf {
        Timeframe::M1 => "1"@,
        Timeframe::M3 => "3"@,
        Timeframe::M5 => "5"@,
        Timeframe::M15 => "15"@,
        Timeframe::M30 => "30"@,
    }
}

/// Bybit symbol of a ticker (upper case), e.g. "BTCUSDT".
pub fn symbol_str(ticker: Ticker) -> (res: String)
    ensures
        res@ == spec_ticker_label(ticker),
{
    ticker.to_string()
}

/// Bybit interval code of a timeframe, e.g. "15".
pub fn timeframe_str(tf: Timeframe) -> (res: String)
    ensures
        res@ == spec_interval(tf),
{
    match tf {
        Timeframe::M1 => owned("1"),
        Timeframe::M3 => owned("3"),
        Timeframe::M5 => owned("5"),
        Timeframe::M15 => owned("15"),
        Timeframe::M30 => owned("30"),
    }
}

/// Topic of the public trade stream of a symbol.
pub open spec fn spec_trade_topic(symbol: Seq<char>) -> Seq<char> {
    "publicTrade."@ + symbol
}

/// Topic of the 200-level order-book stream of a symbol.
pub open spec fn spec_depth_topic(symbol: Seq<char>) -> Seq<char> {
    "orderbook.200."@ + symbol
}

/// Topic of the kline stream of a ticker and timeframe.
pub open spec fn spec_kline_topic(ticker: Ticker, tf: Timeframe) -> Seq<char> {
    "kline."@ + spec_interval(tf) + "."@ + spec_ticker_label(ticker)
}

/// "publicTrade.{symbol}"
pub fn trade_topic(symbol: &str) -> (res: String)
    ensures
        res@ == spec_trade_topic(symbol@),
{
    join2("publicTrade.", symbol)
}

/// "orderbook.200.{symbol}"
pub fn depth_topic(symbol: &str) -> (res: String)
    ensures
        res@ == spec_depth_topic(symbol@),
{
    join2("orderbook.200.", symbol)
}

/// "kline.{interval}.{symbol}"
pub fn kline_topic(ticker: Ticker, tf: Timeframe) -> (res: String)
    ensures
        res@ == spec_kline_topic(ticker, tf),
{
    let mut s = owned("kline.");
    s.append(timeframe_str(tf).as_str());
    s.append(".");
    s.append(symbol_str(ticker).as_str());
    s
}

/// What a message topic of the public stream refers to.
#[derive(Debug, Clone, Copy, PartialEq, Eq, Structural)]
pub enum StreamName {
    Depth,
    Trade,
    Kline,
    Unknown,
}

/// Classification of a topic for a symbol: its depth topic, its trade topic,
/// any topic starting with "kline", or something else.
pub open spec fn spec_stream_name(symbol: Seq<char>, topic: Seq<char>) -> StreamName {
    if topic == spec_depth_topic(symbol) {
        StreamName::Depth
    } else if topic == spec_trade_topic(symbol) {
        StreamName::Trade
    } else if spec_starts_with(topic, "kline"@) {
        StreamName::Kline
    } else {
        StreamName::Unknown
    }
}

impl StreamName {
    /// Classifies the topic `stream_type` of a message for `symbol`.
    pub fn from_symbol_and_type(symbol: &str, stream_type: &str) -> (res: StreamName)
        ensures
            res == spec_stream_name(symbol@, stream_type@),
    {
        let depth = depth_topic(symbol);
        let trade = trade_topic(symbol);
        if str_eq(stream_type, depth.as_str()) {
            StreamName::Depth
        } else if str_eq(stream_type, trade.as_str()) {
            StreamName::Trade
        } else if starts_with(stream_type, "kline") {
            StreamName::Kline
        } else {
            StreamName::Unknown
        }
    }
}

/// The timeframe whose display name is the interval followed by "m", if any.
pub open spec fn spec_string_to_timeframe(interval: Seq<char>) -> Option<Timeframe> {
    let s = interval + "m"@;
    if s == spec_timeframe_label(Timeframe::M1) {
        Some(Timeframe::M1)
    } else if s == spec_timeframe_label(Timeframe::M3) {
        Some(Timeframe::M3)
    } else if s == spec_timeframe_label(Timeframe::M5) {
        Some(Timeframe::M5)
    } else if s == spec_timeframe_label(Timeframe::M15) {
        Some(Timeframe::M15)
    } else if s == spec_timeframe_label(Timeframe::M30) {
        Some(Timeframe::M30)
    } else {
        None
    }
}

/// Finds the timeframe of a kline message from its interval code.
pub fn string_to_timeframe(interval: &str) -> (res: Option<Timeframe>)
    ensures
        res == spec_string_to_timeframe(interval@),
{
    let wanted = join2(interval, "m");
    let all = Timeframe::all();
    let mut i: usize = 0;
    while i < all.len()
        invariant
            all@ == seq![Timeframe::M1, Timeframe::M3, Timeframe::M5, Timeframe::M15, Timeframe::M30],
            wanted@ == interval@ + "m"@,
            0 <= i <= 5,
            forall|k: int| 0 <= k < i ==> spec_timeframe_label(#[trigger] all@[k]) != wanted@,
        decreases 5 - i,
    {
        let tf = all[i];
        let label = tf.to_string();
        if label == wanted {
            return Some(tf);
        }
        i += 1;
    }
    assert(spec_timeframe_label(all@[0]) != wanted@);
    assert(spec_timeframe_label(all@[1]) != wanted@);
    assert(spec_timeframe_label(all@[2]) != wanted@);
    assert(spec_timeframe_label(all@[3]) != wanted@);
    assert(spec_timeframe_label(all@[4]) != wanted@);
    None
}


/// The interval code written into a kline subscription is read back as the
/// same timeframe when a kline message reports it.
pub proof fn lemma_interval_round_trip(tf: Timeframe)
    ensures
        spec_string_to_timeframe(spec_interval(tf)) == Some(tf),
{
    reveal_strlit("1");
    reveal_strlit("3");
    reveal_strlit("5");
    reveal_strlit("15");
    reveal_strlit("30");
    reveal_strlit("m");
    reveal_strlit("1m");
    reveal_strlit("3m");
    reveal_strlit("5m");
    reveal_strlit("15m");
    reveal_strlit("30m");
    let s = spec_interval(tf) + "m"@;
    match tf {
        Timeframe::M1 => { assert(s =~= "1m"@); },
        Timeframe::M3 => {
            assert(s =~= "3m"@);
            assert(s[0] != "1m"@[0]);
        },
        Timeframe::M5 => {
            assert(s =~= "5m"@);
            assert(s[0] != "1m"@[0]);
            assert(s[0] != "3m"@[0]);
        },
        Timeframe::M15 => {
            assert(s =~= "15m"@);
            assert(s.len() == 3);
        },
        Timeframe::M30 => {
            assert(s =~= "30m"@);
            assert(s.len() == 3);
            assert(s[0] != "15m"@[0]);
        },
    }
}

/// The topics the market stream subscribes to are recognised as what they
/// are: the depth topic as depth, the trade topic as trades, and every kline
/// topic as a kline.
pub proof fn lemma_topics_classified(symbol: Seq<char>, ticker: Ticker, tf: Timeframe)
    ensures
        spec_stream_name(symbol, spec_depth_topic(symbol)) == StreamName::Depth,
        spec_stream_name(symbol, spec_trade_topic(symbol)) == StreamName::Trade,
        spec_stream_name(symbol, spec_kline_topic(ticker, tf)) == StreamName::Kline,
{
    reveal_strlit("publicTrade.");
    reveal_strlit("orderbook.200.");
    reveal_strlit("kline.");
    reveal_strlit("kline");
    let d = spec_depth_topic(symbol);
    let t = spec_trade_topic(symbol);
    let k = spec_kline_topic(ticker, tf);
    assert(d[0] == 'o');
    assert(t[0] == 'p');
    assert(t != d);
    assert(k[0] == 'k');
    assert(k != d);
    assert(k != t);
    assert(k.subrange(0, 5) =~= "kline"@);
}


/// The kline subscription of a set of (ticker, timeframe) pairs: one topic
/// per pair, in order, and the symbol of the last pair (empty when there is
/// none), which the kline feed uses when it decodes messages.
pub fn kline_stream_plan(pairs: &Vec<(Ticker, Timeframe)>) -> (res: (Vec<String>, String))
    ensures
        res.0@.len() == pairs@.len(),
        forall|i: int| 0 <= i < pairs@.len() ==> #[trigger] res.0@[i]@ == spec_kline_topic(pairs@[i].0, pairs@[i].1),
        pairs@.len() == 0 ==> res.1@ == Seq::<char>::empty(),
        pairs@.len() > 0 ==> res.1@ == spec_ticker_label(pairs@.last().0),
{
    let mut topics: Vec<String> = Vec::new();
    let mut last = String::new();
    let mut i: usize = 0;
    while i < pairs.len()
        invariant
            0 <= i <= pairs@.len(),
            topics@.len() == i,
            forall|k: int| 0 <= k < i ==> #[trigger] topics@[k]@ == spec_kline_topic(pairs@[k].0, pairs@[k].1),
            i == 0 ==> last@ == Seq::<char>::empty(),
            i > 0 ==> last@ == spec_ticker_label(pairs@[i - 1].0),
        decreases pairs@.len() - i,
    {
        let (ticker, tf) = pairs[i];
        last = symbol_str(ticker);
        topics.push(kline_topic(ticker, tf));
        i += 1;
    }
    (topics, last)
}

/// REST address of the latest 250 klines of a ticker and timeframe.
pub open spec fn spec_klines_url(ticker: Ticker, tf: Timeframe) -> Seq<char> {
    "https://api.bybit.com/v5/market/kline?category=linear&symbol="@ + spec_ticker_label(ticker)
        + "&interval="@ + spec_interval(tf) + "&limit=250"@
}

/// REST address of a ticker's instrument information (tick size).
pub open spec fn spec_ticksize_url(ticker: Ticker) -> Seq<char> {
    "https://api.bybit.com/v5/market/instruments-info?category=linear&symbol="@ + spec_ticker_label(ticker)
}

/// Builds the kline request address.
pub fn klines_url(ticker: Ticker, tf: Timeframe) -> (res: String)
    ensures
        res@ == spec_klines_url(ticker, tf),
{
    let mut s = owned("https://api.bybit.com/v5/market/kline?category=linear&symbol=");
    s.append(symbol_str(ticker).as_str());
    s.append("&interval=");
    s.append(timeframe_str(tf).as_str());
    s.append("&limit=250");
    s
}

/// Builds the instrument-information request address.
pub fn ticksize_url(ticker: Ticker) -> (res: String)
    ensures
        res@ == spec_ticksize_url(ticker),
{
    join2("https://api.bybit.com/v5/market/instruments-info?category=linear&symbol=", symbol_str(ticker).as_str())
}

/// How an order-book message is applied to the local book.
#[derive(Debug, Clone, Copy, PartialEq, Eq, Structural)]
pub enum DepthUpdateKind {
    /// Replace the whole book.
    Snapshot,
    /// Merge the levels into the book and publish it.
    Delta,
    /// Leave the book as it is.
    Ignored,
}

/// A snapshot (or the first update of a session) replaces the book, a delta
/// is merged, anything else is ignored.
pub open spec fn spec_depth_update_kind(data_type: Seq<char>, update_id: int) -> DepthUpdateKind {
    if data_type == "snapshot"@ || update_id == 1 {
        DepthUpdateKind::Snapshot
    } else if data_type == "delta"@ {
        DepthUpdateKind::Delta
    } else {
        DepthUpdateKind::Ignored
    }
}

/// Decides how an order-book message of type `data_type` is applied.
pub fn depth_update_kind(data_type: &str, update_id: i64) -> (res: DepthUpdateKind)
    ensures
        res == spec_depth_update_kind(data_type@, update_id as int),
{
    if str_eq(data_type, "snapshot") || update_id == 1 {
        DepthUpdateKind::Snapshot
    } else if str_eq(data_type, "delta") {
        DepthUpdateKind::Delta
    } else {
        DepthUpdateKind::Ignored
    }
}

/// Whether a trade message's side field marks a sell.
pub fn is_sell_side(side: &str) -> (res: bool)
    ensures
        res == (side@ == "Sell"@),
{
    str_eq(side, "Sell")
}

/// Sum of a sequence of latencies.
pub open spec fn spec_sum(s: Seq<i64>) -> int
    decreases s.len(),
{
    if s.len() == 0 {
        0
    } else {
        spec_sum(s.drop_last()) + s.last()
    }
}

/// Every running total of the sequence fits in an `i64`.
pub open spec fn sums_fit(s: Seq<i64>) -> bool {
    forall|k: int| 0 <= k <= s.len() ==> i64::MIN <= #[trigger] spec_sum(s.take(k)) <= i64::MAX
}

/// Mean of the trade latencies gathered since the last order-book update,
/// rounded toward zero; `None` when there was no trade.
pub fn average_latency(latencies: &Vec<i64>) -> (res: Option<i64>)
    requires
        sums_fit(latencies@),
        latencies@.len() <= i64::MAX,
    ensures
        latencies@.len() == 0 ==> res is None,
        latencies@.len() > 0 ==> res == Some(crate::charts::div_trunc(spec_sum(latencies@), latencies@.len() as int) as i64),
{
    if latencies.len() == 0 {
        return None;
    }
    let mut total: i64 = 0;
    let mut i: usize = 0;
    assert(latencies@.take(0) =~= Seq::<i64>::empty());
    while i < latencies.len()
        invariant
            0 <= i <= latencies@.len(),
            sums_fit(latencies@),
            total == spec_sum(latencies@.take(i as int)),
        decreases latencies@.len() - i,
    {
        assert(latencies@.take(i as int + 1).drop_last() =~= latencies@.take(i as int));
        assert(i64::MIN <= spec_sum(latencies@.take(i as int + 1)) <= i64::MAX);
        total = total + latencies[i];
        i += 1;
    }
    assert(latencies@.take(i as int) =~= latencies@);
    let n = latencies.len() as i64;
    let avg = total / n;
    assert(avg == crate::charts::div_trunc(total as int, n as int));
    Some(avg)
}

/// Kind of payload a public-stream message carries.
#[derive(Debug, Clone, Copy, PartialEq, Eq, Structural)]
pub enum StreamWrapper {
    Trade,
    Depth,
    Kline,
}

/// What the message decoder asks of its caller after one key of a message.
#[derive(Debug, Clone, Copy, PartialEq, Eq, Structural)]
pub enum FeedAction {
    /// Go on with the next key.
    Continue,
    /// The topic names no stream of this symbol; report it and go on.
    UnknownStreamName,
    /// Parse the value as the trade list and return it.
    ParseTrades,
    /// Parse the value as the order-book update and keep it.
    ParseDepth,
    /// Parse the value as the kline list and return it.
    ParseKlines,
    /// Data arrived before a known topic; report it and go on.
    UnknownStreamType,
    /// The message type is not a string.
    TypeNotText,
    /// Read the value as the message time and return the kept order-book update.
    ReadDepthTime,
}

/// Decoding state of one public-stream message, read key by key.
pub struct FeedDecoder {
    pub symbol: String,
    pub stream_type: Option<StreamWrapper>,
    pub depth_pending: bool,
    pub data_type: String,
}

/// The stream kind a topic selects, if it selects one.
pub open spec fn spec_topic_wrapper(symbol: Seq<char>, topic: Seq<char>) -> Option<StreamWrapper> {
    match spec_stream_name(symbol, topic) {
        StreamName::Depth => Some(StreamWrapper::Depth),
        StreamName::Trade => Some(StreamWrapper::Trade),
        StreamName::Kline => Some(StreamWrapper::Kline),
        StreamName::Unknown => None,
    }
}

/// What the decoder asks for on the "data" key.
pub open spec fn spec_data_action(stream_type: Option<StreamWrapper>) -> FeedAction {
    match stream_type {
        Some(StreamWrapper::Trade) => FeedAction::ParseTrades,
        Some(StreamWrapper::Depth) => FeedAction::ParseDepth,
        Some(StreamWrapper::Kline) => FeedAction::ParseKlines,
        None => FeedAction::UnknownStreamType,
    }
}

impl FeedDecoder {
    /// A decoder for one message of the streams of `symbol`.
    pub fn new(symbol: &str) -> (d: FeedDecoder)
        ensures
            d.symbol@ == symbol@,
            d.stream_type is None,
            !d.depth_pending,
            d.data_type@ == Seq::<char>::empty(),
    {
        FeedDecoder { symbol: owned(symbol), stream_type: None, depth_pending: false, data_type: String::new() }
    }

    /// Takes the next key of the message (and its value when that is a
    /// string) and says what to do with the value.
    pub fn step(&mut self, key: &str, text: Option<&str>) -> (action: FeedAction)
        ensures
            final(self).symbol@ == old(self).symbol@,
            final(self).depth_pending == old(self).depth_pending,
            key@ == "topic"@ ==> match text {
                Some(t) => {
                    &&& final(self).data_type@ == old(self).data_type@
                    &&& match spec_topic_wrapper(old(self).symbol@, t@) {
                        Some(w) => final(self).stream_type == Some(w) && action == FeedAction::Continue,
                        None => final(self).stream_type == old(self).stream_type
                            && action == FeedAction::UnknownStreamName,
                    }
                },
                None => final(self).stream_type == old(self).stream_type
                    && final(self).data_type@ == old(self).data_type@ && action == FeedAction::Continue,
            },
            key@ == "type"@ ==> final(self).stream_type == old(self).stream_type && match text {
                Some(t) => final(self).data_type@ == t@ && action == FeedAction::Continue,
                None => final(self).data_type@ == old(self).data_type@ && action == FeedAction::TypeNotText,
            },
            key@ == "data"@ ==> final(self).stream_type == old(self).stream_type
                && final(self).data_type@ == old(self).data_type@
                && action == spec_data_action(old(self).stream_type),
            key@ == "cts"@ ==> final(self).stream_type == old(self).stream_type
                && final(self).data_type@ == old(self).data_type@
                && action == (if old(self).depth_pending { FeedAction::ReadDepthTime } else { FeedAction::Continue }),
            key@ != "topic"@ && key@ != "type"@ && key@ != "data"@ && key@ != "cts"@ ==>
                final(self).stream_type == old(self).stream_type
                && final(self).data_type@ == old(self).data_type@
                && action == FeedAction::Continue,
    {
        proof {
            reveal_strlit("topic");
            reveal_strlit("type");
            reveal_strlit("data");
            reveal_strlit("cts");
            assert("topic"@[1] != "type"@[1]);
            assert("data"@[0] != "type"@[0]);
            assert("data"@[0] != "topic"@[0]);
        }
        if str_eq(key, "topic") {
            match text {
                Some(val) => {
                    match StreamName::from_symbol_and_type(self.symbol.as_str(), val) {
                        StreamName::Depth => {
                            self.stream_type = Some(StreamWrapper::Depth);
                            FeedAction::Continue
                        },
                        StreamName::Trade => {
                            self.stream_type = Some(StreamWrapper::Trade);
                            FeedAction::Continue
                        },
                        StreamName::Kline => {
                            self.stream_type = Some(StreamWrapper::Kline);
                            FeedAction::Continue
                        },
                        StreamName::Unknown => FeedAction::UnknownStreamName,
                    }
                },
                None => FeedAction::Continue,
            }
        } else if str_eq(key, "type") {
            match text {
                Some(t) => {
                    self.data_type = owned(t);
                    FeedAction::Continue
                },
                None => FeedAction::TypeNotText,
            }
        } else if str_eq(key, "data") {
            match self.stream_type {
                Some(StreamWrapper::Trade) => FeedAction::ParseTrades,
                Some(StreamWrapper::Depth) => FeedAction::ParseDepth,
                Some(StreamWrapper::Kline) => FeedAction::ParseKlines,
                None => FeedAction::UnknownStreamType,
            }
        } else if str_eq(key, "cts") {
            if self.depth_pending {
                FeedAction::ReadDepthTime
            } else {
                FeedAction::Continue
            }
        } else {
            FeedAction::Continue
        }
    }

    /// Records that the order-book update of this message was parsed.
    pub fn depth_parsed(&mut self)
        ensures
            final(self).depth_pending,
            final(self).symbol@ == old(self).symbol@,
            final(self).stream_type == old(self).stream_type,
            final(self).data_type@ == old(self).data_type@,
    {
        self.depth_pending = true;
    }
}


/// Marker of an open public-stream connection.
#[derive(Debug, Clone, Copy)]
pub struct Connection;

/// One kline as the kline stream reports it, before its prices are parsed.
#[derive(Debug, Clone)]
pub struct SonicKline {
    pub time: u64,
    pub open: String,
    pub high: String,
    pub low: String,
    pub close: String,
    pub volume: String,
    pub interval: String,
}

/// One top-level entry of a stream message: its key, its value as text when
/// the value is a string, as a number when it is an unsigned integer, and
/// the value's raw JSON text.
#[derive(Debug, Clone)]
pub struct FeedEntry {
    pub key: String,
    pub text: Option<String>,
    pub number: Option<u64>,
    pub raw: String,
}

/// An entry as plain values.
pub open spec fn entry_view(e: FeedEntry) -> (Seq<char>, Option<Seq<char>>, Option<u64>, Seq<char>) {
    (e.key@, match e.text { Some(t) => Some(t@), None => None }, e.number, e.raw@)
}

/// The entries of a message as plain values.
pub open spec fn entries_view(es: Seq<FeedEntry>) -> Seq<(Seq<char>, Option<Seq<char>>, Option<u64>, Seq<char>)> {
    es.map_values(|e: FeedEntry| entry_view(e))
}

/// The top-level entries of a JSON object, in order, as `sonic_rs`'s object
/// iterator reads them, and whether it stopped on malformed input.
pub uninterp spec fn spec_object_entries(bytes: Seq<u8>) -> (Seq<(Seq<char>, Option<Seq<char>>, Option<u64>, Seq<char>)>, bool);

/// Reads the top-level entries of a JSON object with `sonic_rs::to_object_iter`.
/// Trusted: the entries and the error flag are the named reading of the
/// bytes; `as_str`, `as_u64` and `as_raw_str` give each value as text, as
/// an unsigned number and as raw JSON. The iterator's parsing is left
/// unstated.
#[verifier::external_body]
fn object_entries(bytes: &[u8]) -> (r: (Vec<FeedEntry>, bool))
    ensures
        (entries_view(r.0@), r.1) == spec_object_entries(bytes@),
{
    let mut entries = Vec::new();
    for item in sonic_rs::to_object_iter(bytes) {
        match item {
            Ok((k, v)) => entries.push(FeedEntry {
                key: k.to_string(),
                text: v.as_str().map(|t| t.to_string()),
                number: v.as_u64(),
                raw: v.as_raw_str().to_string(),
            }),
            Err(_) => return (entries, true),
        }
    }
    (entries, false)
}

/// What a stream message leads to, once read key by key.
#[derive(Debug, Clone)]
pub enum FeedRoute {
    /// The raw trade list of the "data" entry.
    Trades(String),
    /// The raw kline list of the "data" entry.
    Klines(String),
    /// The last order-book update, with the message type and the "cts" time.
    Depth { data_type: String, time: u64 },
    /// The "type" entry is not a string.
    TypeNotText,
    /// The "cts" entry after an order-book update is not an unsigned number.
    BadTime,
    /// The message is malformed before any of these was found.
    BadStream,
    /// No known payload was found.
    Unknown,
}

/// A stream message read key by key: the raw order-book updates met on the
/// way, in order (each is parsed when it is met, so a malformed one ends
/// the reading there), and where the reading led.
#[derive(Debug, Clone)]
pub struct FeedMessage {
    pub depth_updates: Vec<String>,
    pub route: FeedRoute,
}

/// A route as plain values.
pub enum FeedOutcome {
    Trades(Seq<char>),
    Klines(Seq<char>),
    Depth(Seq<char>, u64),
    TypeNotText,
    BadTime,
    BadStream,
    Unknown,
}

/// A route as plain values.
pub open spec fn route_view(r: FeedRoute) -> FeedOutcome {
    match r {
        FeedRoute::Trades(t) => FeedOutcome::Trades(t@),
        FeedRoute::Klines(k) => FeedOutcome::Klines(k@),
        FeedRoute::Depth { data_type, time } => FeedOutcome::Depth(data_type@, time),
        FeedRoute::TypeNotText => FeedOutcome::TypeNotText,
        FeedRoute::BadTime => FeedOutcome::BadTime,
        FeedRoute::BadStream => FeedOutcome::BadStream,
        FeedRoute::Unknown => FeedOutcome::Unknown,
    }
}

/// Texts as plain values.
pub open spec fn texts_view(v: Seq<String>) -> Seq<Seq<char>> {
    v.map_values(|t: String| t@)
}

/// A read message as plain values.
pub open spec fn message_view(m: FeedMessage) -> (Seq<Seq<char>>, FeedOutcome) {
    (texts_view(m.depth_updates@), route_view(m.route))
}

/// Reads a message's entries from index `i` on, having met the order-book
/// updates `depths`: a "topic" naming a stream of `symbol` selects the
/// payload kind, "type" sets the message type (and must be a string),
/// "data" returns a trade or kline list at once and adds an order-book
/// update to `depths`; a "cts" after an order-book update gives its time.
/// Running out of entries gives `BadStream` when the reading stopped on
/// malformed input, `Unknown` otherwise.
pub open spec fn spec_route_from(
    es: Seq<(Seq<char>, Option<Seq<char>>, Option<u64>, Seq<char>)>,
    failed: bool,
    symbol: Seq<char>,
    i: int,
    stream: Option<StreamWrapper>,
    data_type: Seq<char>,
    depths: Seq<Seq<char>>,
) -> (Seq<Seq<char>>, FeedOutcome)
    decreases es.len() - i,
{
    if i < 0 || i >= es.len() {
        (depths, if failed { FeedOutcome::BadStream } else { FeedOutcome::Unknown })
    } else {
        let e = es[i];
        if e.0 == "topic"@ {
            let next = match e.1 {
                Some(t) => match spec_topic_wrapper(symbol, t) {
                    Some(w) => Some(w),
                    None => stream,
                },
                None => stream,
            };
            spec_route_from(es, failed, symbol, i + 1, next, data_type, depths)
        } else if e.0 == "type"@ {
            match e.1 {
                Some(t) => spec_route_from(es, failed, symbol, i + 1, stream, t, depths),
                None => (depths, FeedOutcome::TypeNotText),
            }
        } else if e.0 == "data"@ {
            match stream {
                Some(StreamWrapper::Trade) => (depths, FeedOutcome::Trades(e.3)),
                Some(StreamWrapper::Kline) => (depths, FeedOutcome::Klines(e.3)),
                Some(StreamWrapper::Depth) => spec_route_from(es, failed, symbol, i + 1, stream, data_type, depths.push(e.3)),
                None => spec_route_from(es, failed, symbol, i + 1, stream, data_type, depths),
            }
        } else if e.0 == "cts"@ && depths.len() > 0 {
            match e.2 {
                Some(n) => (depths, FeedOutcome::Depth(data_type, n)),
                None => (depths, FeedOutcome::BadTime),
            }
        } else {
            spec_route_from(es, failed, symbol, i + 1, stream, data_type, depths)
        }
    }
}

/// What a message with these entries leads to for the streams of `symbol`.
pub open spec fn spec_feed_route(
    es: Seq<(Seq<char>, Option<Seq<char>>, Option<u64>, Seq<char>)>,
    failed: bool,
    symbol: Seq<char>,
) -> (Seq<Seq<char>>, FeedOutcome) {
    spec_route_from(es, failed, symbol, 0, None, Seq::empty(), Seq::empty())
}

/// Reads the entries of a message, in order, with the stream decoder.
pub fn route_feed(entries: &Vec<FeedEntry>, failed: bool, symbol: &str) -> (r: FeedMessage)
    ensures
        message_view(r) == spec_feed_route(entries_view(entries@), failed, symbol@),
{
    let ghost es = entries_view(entries@);
    let mut decoder = FeedDecoder::new(symbol);
    let mut depths: Vec<String> = Vec::new();
    assert(texts_view(depths@) =~= Seq::<Seq<char>>::empty());
    let mut i: usize = 0;
    while i < entries.len()
        invariant
            0 <= i <= entries@.len(),
            es == entries_view(entries@),
            decoder.symbol@ == symbol@,
            decoder.depth_pending == (depths@.len() > 0),
            spec_feed_route(es, failed, symbol@) == spec_route_from(es, failed, symbol@, i as int,
                decoder.stream_type, decoder.data_type@, texts_view(depths@)),
        decreases entries@.len() - i,
    {
        let e = &entries[i];
        assert(es[i as int] == entry_view(entries@[i as int]));
        let text: Option<&str> = match &e.text {
            Some(t) => Some(t.as_str()),
            None => None,
        };
        let action = decoder.step(e.key.as_str(), text);
        match action {
            FeedAction::TypeNotText => return FeedMessage { depth_updates: depths, route: FeedRoute::TypeNotText },
            FeedAction::ParseTrades => return FeedMessage { depth_updates: depths, route: FeedRoute::Trades(owned(e.raw.as_str())) },
            FeedAction::ParseKlines => return FeedMessage { depth_updates: depths, route: FeedRoute::Klines(owned(e.raw.as_str())) },
            FeedAction::ParseDepth => {
                let ghost before = depths@;
                depths.push(owned(e.raw.as_str()));
                assert(texts_view(depths@) =~= texts_view(before).push(e.raw@));
                decoder.depth_parsed();
            },
            FeedAction::ReadDepthTime => {
                let route = match e.number {
                    Some(n) => FeedRoute::Depth { data_type: owned(decoder.data_type.as_str()), time: n },
                    None => FeedRoute::BadTime,
                };
                return FeedMessage { depth_updates: depths, route };
            },
            _ => {},
        }
        i += 1;
    }
    FeedMessage { depth_updates: depths, route: if failed { FeedRoute::BadStream } else { FeedRoute::Unknown } }
}

/// What a raw stream message leads to for the streams of `symbol`.
pub fn feed_route(bytes: &[u8], symbol: &str) -> (r: FeedMessage)
    ensures
        message_view(r) == spec_feed_route(spec_object_entries(bytes@).0, spec_object_entries(bytes@).1, symbol@),
{
    let (entries, failed) = object_entries(bytes);
    route_feed(&entries, failed, symbol)
}

} // verus!
