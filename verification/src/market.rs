use vstd::prelude::*;
use crate::text::{decimal, spec_decimal};

verus! {

/// Perpetual-swap venues the dashboard can stream from.
#[derive(Debug, Clone, Copy, PartialEq, Eq, Hash, Structural)]
pub enum Exchange {
    BinanceFutures,
    BybitLinear,
}

/// Instruments offered by the dashboard.
#[derive(Debug, Clone, Copy, PartialEq, Eq, Hash, Structural)]
pub enum Ticker {
    BTCUSDT,
    ETHUSDT,
    SOLUSDT,
    LTCUSDT,
}

/// Candle intervals offered for kline-based charts.
#[derive(Debug, Clone, Copy, PartialEq, Eq, Hash, Structural)]
pub enum Timeframe {
    M1,
    M3,
    M5,
    M15,
    M30,
}

/// Lower-case symbol of a ticker, e.g. `btcusdt`.
pub open spec fn spec_ticker_lower(t: Ticker) -> Seq<char> {
    match t {
        Ticker::BTCUSDT => "btcusdt"@,
        Ticker::ETHUSDT => "ethusdt"@,
        Ticker::SOLUSDT => "solusdt"@,
        Ticker::LTCUSDT => "ltcusdt"@,
    }
}

/// Minutes in one candle of a timeframe.
pub open spec fn spec_minutes(tf: Timeframe) -> u16 {
    match tf {
        Timeframe::M1 => 1,
        Timeframe::M3 => 3,
        Timeframe::M5 => 5,
        Timeframe::M15 => 15,
        Timeframe::M30 => 30,
    }
}

impl Ticker {
    /// Returns the ticker's symbol in lower case, e.g. BTCUSDT -> "btcusdt".
    pub fn get_string(&self) -> (res: String)
        ensures
            res@ == spec_ticker_lower(*self),
    {
        match self {
            Ticker::BTCUSDT => "btcusdt".to_string(),
            Ticker::ETHUSDT => "ethusdt".to_string(),
            Ticker::SOLUSDT => "solusdt".to_string(),
            Ticker::LTCUSDT => "ltcusdt".to_string(),
        }
    }
}

impl Timeframe {
    /// Length of one candle in minutes.
    pub fn to_minutes(&self) -> (res: u16)
        ensures
            res == spec_minutes(*self),
    {
        match self {
            Timeframe::M1 => 1,
            Timeframe::M3 => 3,
            Timeframe::M5 => 5,
            Timeframe::M15 => 15,
            Timeframe::M30 => 30,
        }
    }
}


/// Upper-case symbol of a ticker, as the dashboard shows it, e.g. `BTCUSDT`.
pub open spec fn spec_ticker_label(t: Ticker) -> Seq<char> {
    match t {
        Ticker::BTCUSDT => "BTCUSDT"@,
        Ticker::ETHUSDT => "ETHUSDT"@,
        Ticker::SOLUSDT => "SOLUSDT"@,
        Ticker::LTCUSDT => "LTCUSDT"@,
    }
}

/// Display name of an exchange.
pub open spec fn spec_exchange_label(e: Exchange) -> Seq<char> {
    match e {
        Exchange::BinanceFutures => "Binance Futures"@,
        Exchange::BybitLinear => "Bybit Linear"@,
    }
}

/// Display name of a timeframe, e.g. `15m`.
pub open spec fn spec_timeframe_label(tf: Timeframe) -> Seq<char> {
    match tf {
        Timeframe::M1 => "1m"@,
        Timeframe::M3 => "3m"@,
        Timeframe::M5 => "5m"@,
        Timeframe::M15 => "15m"@,
        Timeframe::M30 => "30m"@,
    }
}

impl Exchange {
    /// The display name, e.g. "Binance Futures".
    pub fn to_string(&self) -> (res: String)
        ensures
            res@ == spec_exchange_label(*self),
    {
        match self {
            Exchange::BinanceFutures => "Binance Futures".to_string(),
            Exchange::BybitLinear => "Bybit Linear".to_string(),
        }
    }

    /// Every exchange, in menu order.
    pub fn all() -> (v: Vec<Exchange>)
        ensures
            v@ == seq![Exchange::BinanceFutures, Exchange::BybitLinear],
    {
        vec![Exchange::BinanceFutures, Exchange::BybitLinear]
    }
}

impl Ticker {
    /// The upper-case symbol, e.g. "BTCUSDT".
    pub fn to_string(&self) -> (res: String)
        ensures
            res@ == spec_ticker_label(*self),
    {
        match self {
            Ticker::BTCUSDT => "BTCUSDT".to_string(),
            Ticker::ETHUSDT => "ETHUSDT".to_string(),
            Ticker::SOLUSDT => "SOLUSDT".to_string(),
            Ticker::LTCUSDT => "LTCUSDT".to_string(),
        }
    }

    /// Every ticker, in menu order.
    pub fn all() -> (v: Vec<Ticker>)
        ensures
            v@ == seq![Ticker::BTCUSDT, Ticker::ETHUSDT, Ticker::SOLUSDT, Ticker::LTCUSDT],
    {
        vec![Ticker::BTCUSDT, Ticker::ETHUSDT, Ticker::SOLUSDT, Ticker::LTCUSDT]
    }
}

impl Timeframe {
    /// The display name, e.g. "15m".
    pub fn to_string(&self) -> (res: String)
        ensures
            res@ == spec_timeframe_label(*self),
    {
        match self {
            Timeframe::M1 => "1m".to_string(),
            Timeframe::M3 => "3m".to_string(),
            Timeframe::M5 => "5m".to_string(),
            Timeframe::M15 => "15m".to_string(),
            Timeframe::M30 => "30m".to_string(),
        }
    }

    /// Every timeframe, shortest first.
    pub fn all() -> (v: Vec<Timeframe>)
        ensures
            v@ == seq![Timeframe::M1, Timeframe::M3, Timeframe::M5, Timeframe::M15, Timeframe::M30],
    {
        vec![Timeframe::M1, Timeframe::M3, Timeframe::M5, Timeframe::M15, Timeframe::M30]
    }
}

/// A market-data subscription of a chart pane.
#[derive(Debug, Clone, Copy, PartialEq, Eq, Hash, Structural)]
pub enum StreamType {
    Kline { exchange: Exchange, ticker: Ticker, timeframe: Timeframe },
    DepthAndTrades { exchange: Exchange, ticker: Ticker },
    NoStream,
}

/// Multiplier applied to an instrument's minimum tick size to group prices.
#[derive(Debug, Clone, Copy, PartialEq, Eq, Structural)]
pub struct TickMultiplier(pub u16);

impl TickMultiplier {
    /// The label shown in the picker, e.g. "10x".
    pub fn to_string(&self) -> (res: String)
        ensures
            res@ == spec_decimal(self.0 as nat) + seq!['x'],
    {
        let mut s = decimal(self.0 as u64);
        s.append("x");
        proof { reveal_strlit("x"); }
        s
    }
}

/// Latencies (ms) measured on one order-book update of a feed.
#[derive(Debug, Clone, Copy)]
pub struct FeedLatency {
    pub time: i64,
    pub depth_latency: i64,
    pub trade_latency: Option<i64>,
}

impl Default for FeedLatency {
    fn default() -> (r: FeedLatency)
        ensures
            r.time == 0 && r.depth_latency == 0 && r.trade_latency is None,
    {
        FeedLatency { time: 0, depth_latency: 0, trade_latency: None }
    }
}


/// ASCII upper-case letters turned to lower case, other characters kept.
pub open spec fn spec_ascii_lower(s: Seq<char>) -> Seq<char> {
    s.map_values(|c: char| if 'A' <= c && c <= 'Z' { ((c as u32) + 32) as char } else { c })
}

/// The lower-case symbol used in stream names is the displayed symbol in
/// lower case.
pub proof fn lemma_lower_symbol(t: Ticker)
    ensures
        spec_ticker_lower(t) == spec_ascii_lower(spec_ticker_label(t)),
{
    reveal_strlit("btcusdt");
    reveal_strlit("ethusdt");
    reveal_strlit("solusdt");
    reveal_strlit("ltcusdt");
    reveal_strlit("BTCUSDT");
    reveal_strlit("ETHUSDT");
    reveal_strlit("SOLUSDT");
    reveal_strlit("LTCUSDT");
    assert(spec_ticker_lower(t) =~= spec_ascii_lower(spec_ticker_label(t)));
}

/// A timeframe's name is its length in minutes followed by "m".
pub proof fn lemma_label_is_minutes(tf: Timeframe)
    ensures
        spec_timeframe_label(tf) == spec_decimal(spec_minutes(tf) as nat) + "m"@,
{
    reveal_strlit("1m");
    reveal_strlit("3m");
    reveal_strlit("5m");
    reveal_strlit("15m");
    reveal_strlit("30m");
    reveal_strlit("m");
    assert(spec_decimal(1) =~= seq!['1']);
    assert(spec_decimal(3) =~= seq!['3']);
    assert(spec_decimal(5) =~= seq!['5']);
    assert(spec_decimal(15) =~= seq!['1', '5']);
    assert(spec_decimal(30) =~= seq!['3', '0']);
    assert(spec_timeframe_label(tf) =~= spec_decimal(spec_minutes(tf) as nat) + "m"@);
}

/// Distinct timeframes have distinct names.
pub proof fn lemma_timeframe_labels_distinct(a: Timeframe, b: Timeframe)
    ensures
        spec_timeframe_label(a) == spec_timeframe_label(b) ==> a == b,
{
    lemma_label_is_minutes(a);
    lemma_label_is_minutes(b);
    reveal_strlit("1m");
    reveal_strlit("3m");
    reveal_strlit("5m");
    reveal_strlit("15m");
    reveal_strlit("30m");
    if spec_timeframe_label(a) == spec_timeframe_label(b) {
        let la = spec_timeframe_label(a);
        let lb = spec_timeframe_label(b);
        assert(la.len() == lb.len());
        assert(la[0] == lb[0]);
        assert(la[1] == lb[1]);
    }
}

/// Connection state of a Binance market stream.
#[derive(Debug)]
pub enum BinanceWsState {
    Connected(crate::binance::Connection),
    Disconnected,
}

impl Default for BinanceWsState {
    fn default() -> (r: BinanceWsState)
        ensures
            r is Disconnected,
    {
        BinanceWsState::Disconnected
    }
}

/// Connection state of a Bybit market stream.
#[derive(Debug)]
pub enum BybitWsState {
    Connected(crate::bybit::Connection),
    Disconnected,
}

impl Default for BybitWsState {
    fn default() -> (r: BybitWsState)
        ensures
            r is Disconnected,
    {
        BybitWsState::Disconnected
    }
}

/// Connection state of the user-data stream.
pub enum UserWsState {
    Connected(crate::user_data::Connection),
    Disconnected,
}

impl Default for UserWsState {
    fn default() -> (r: UserWsState)
        ensures
            r is Disconnected,
    {
        UserWsState::Disconnected
    }
}

} // verus!
