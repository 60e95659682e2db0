pub mod pane;
pub mod board;

use vstd::prelude::*;
use crate::text::{owned, str_eq};
use crate::market::{Exchange, Ticker, Timeframe, StreamType, TickMultiplier};

verus! {

/// What a pane shows once it is set up.
#[derive(Debug, Clone, Copy, PartialEq, Eq, Structural)]
pub enum ContentKind {
    Heatmap,
    Footprint,
    Candlestick,
    TimeAndSales,
}

/// Menu label of a pane content.
pub open spec fn spec_content_label(kind: ContentKind) -> Seq<char> {
    match kind {
        ContentKind::Heatmap => "Heatmap chart"@,
        ContentKind::Footprint => "Footprint chart"@,
        ContentKind::Candlestick => "Candlestick chart"@,
        ContentKind::TimeAndSales => "Time&Sales"@,
    }
}

/// The content whose menu label is `label`, if any.
pub open spec fn spec_content_from_label(label: Seq<char>) -> Option<ContentKind> {
    if label == spec_content_label(ContentKind::Heatmap) {
        Some(ContentKind::Heatmap)
    } else if label == spec_content_label(ContentKind::Footprint) {
        Some(ContentKind::Footprint)
    } else if label == spec_content_label(ContentKind::Candlestick) {
        Some(ContentKind::Candlestick)
    } else if label == spec_content_label(ContentKind::TimeAndSales) {
        Some(ContentKind::TimeAndSales)
    } else {
        None
    }
}

impl ContentKind {
    /// The menu label, e.g. "Footprint chart".
    pub fn label(&self) -> (res: String)
        ensures
            res@ == spec_content_label(*self),
    {
        match self {
            ContentKind::Heatmap => owned("Heatmap chart"),
            ContentKind::Footprint => owned("Footprint chart"),
            ContentKind::Candlestick => owned("Candlestick chart"),
            ContentKind::TimeAndSales => owned("Time&Sales"),
        }
    }

    /// Reads a menu label back; other text selects nothing.
    pub fn from_label(label: &str) -> (res: Option<ContentKind>)
        ensures
            res == spec_content_from_label(label@),
    {
        if str_eq(label, "Heatmap chart") {
            Some(ContentKind::Heatmap)
        } else if str_eq(label, "Footprint chart") {
            Some(ContentKind::Footprint)
        } else if str_eq(label, "Candlestick chart") {
            Some(ContentKind::Candlestick)
        } else if str_eq(label, "Time&Sales") {
            Some(ContentKind::TimeAndSales)
        } else {
            None
        }
    }

    /// Every content, in menu order.
    pub fn all() -> (v: Vec<ContentKind>)
        ensures
            v@ == seq![ContentKind::Heatmap, ContentKind::Footprint, ContentKind::Candlestick, ContentKind::TimeAndSales],
    {
        vec![ContentKind::Heatmap, ContentKind::Footprint, ContentKind::Candlestick, ContentKind::TimeAndSales]
    }
}

/// Reading back a content's menu label gives that content.
pub proof fn lemma_content_label_round_trip(kind: ContentKind)
    ensures
        spec_content_from_label(spec_content_label(kind)) == Some(kind),
{
    reveal_strlit("Heatmap chart");
    reveal_strlit("Footprint chart");
    reveal_strlit("Candlestick chart");
    reveal_strlit("Time&Sales");
    let h = spec_content_label(ContentKind::Heatmap);
    let f = spec_content_label(ContentKind::Footprint);
    let c = spec_content_label(ContentKind::Candlestick);
    let t = spec_content_label(ContentKind::TimeAndSales);
    assert(h[0] != f[0] && h[0] != c[0] && h[0] != t[0]);
    assert(f[0] != c[0] && f[0] != t[0]);
    assert(c[0] != t[0]);
}

/// Streams a new pane of a content subscribes to.
pub open spec fn spec_pane_streams(kind: ContentKind, exchange: Exchange, ticker: Ticker, timeframe: Timeframe) -> Seq<StreamType> {
    match kind {
        ContentKind::Heatmap | ContentKind::TimeAndSales => seq![StreamType::DepthAndTrades { exchange, ticker }],
        ContentKind::Footprint => seq![
            StreamType::DepthAndTrades { exchange, ticker },
            StreamType::Kline { exchange, ticker, timeframe },
        ],
        ContentKind::Candlestick => seq![StreamType::Kline { exchange, ticker, timeframe }],
    }
}

/// The streams a pane set up with `kind` for the chosen exchange, ticker and
/// timeframe subscribes to.
pub fn pane_streams(kind: ContentKind, exchange: Exchange, ticker: Ticker, timeframe: Timeframe) -> (v: Vec<StreamType>)
    ensures
        v@ == spec_pane_streams(kind, exchange, ticker, timeframe),
{
    match kind {
        ContentKind::Heatmap | ContentKind::TimeAndSales => vec![StreamType::DepthAndTrades { exchange, ticker }],
        ContentKind::Footprint => vec![
            StreamType::DepthAndTrades { exchange, ticker },
            StreamType::Kline { exchange, ticker, timeframe },
        ],
        ContentKind::Candlestick => vec![StreamType::Kline { exchange, ticker, timeframe }],
    }
}

/// Whether a pane subscribed to `streams` receives updates of `stream`.
pub fn stream_matches(streams: &Vec<StreamType>, stream: StreamType) -> (res: bool)
    ensures
        res == streams@.contains(stream),
{
    let mut i: usize = 0;
    while i < streams.len()
        invariant
            0 <= i <= streams@.len(),
            forall|k: int| 0 <= k < i ==> streams@[k] != stream,
        decreases streams@.len() - i,
    {
        if streams[i] == stream {
            return true;
        }
        i += 1;
    }
    false
}

/// Whether a stream is a real subscription (kline or depth-and-trades).
pub open spec fn is_subscription(s: StreamType) -> bool {
    !(s is NoStream)
}

/// Whether a stream occurs among the streams of the panes.
pub open spec fn in_some_pane(panes: Seq<Vec<StreamType>>, s: StreamType) -> bool {
    exists|i: int| 0 <= i < panes.len() && (#[trigger] panes[i])@.contains(s)
}

/// No stream occurs twice.
pub open spec fn no_duplicates(v: Seq<StreamType>) -> bool {
    forall|i: int, j: int| 0 <= i < j < v.len() ==> v[i] != v[j]
}

/// The distinct subscriptions of all panes, in order of first appearance;
/// the dashboard opens one connection per entry.
#[verifier::spinoff_prover]
pub fn all_diff_streams(panes: &Vec<Vec<StreamType>>) -> (v: Vec<StreamType>)
    ensures
        no_duplicates(v@),
        forall|s: StreamType| v@.contains(s) <==> (is_subscription(s) && in_some_pane(panes@, s)),
{
    let mut out: Vec<StreamType> = Vec::new();
    let mut i: usize = 0;
    while i < panes.len()
        invariant
            0 <= i <= panes@.len(),
            no_duplicates(out@),
            forall|s: StreamType| #[trigger] out@.contains(s) <==> (is_subscription(s) && in_some_pane(panes@.take(i as int), s)),
        decreases panes@.len() - i,
    {
        let pane = &panes[i];
        let mut j: usize = 0;
        let ghost before = out@;
        while j < pane.len()
            invariant
                0 <= i < panes@.len(),
                pane == &panes@[i as int],
                0 <= j <= pane@.len(),
                no_duplicates(out@),
                forall|s: StreamType| #[trigger] out@.contains(s) <==> (
                    (is_subscription(s) && in_some_pane(panes@.take(i as int), s))
                    || (is_subscription(s) && pane@.take(j as int).contains(s))),
            decreases pane@.len() - j,
        {
            let s = pane[j];
            let present = stream_matches(&out, s);
            let ghost prev = out@;
            let subscription = match s {
                StreamType::NoStream => false,
                _ => true,
            };
            if subscription && !present {
                out.push(s);
                assert forall|a: int, b: int| 0 <= a < b < out@.len() implies out@[a] != out@[b] by {
                    if b == out@.len() - 1 {
                        assert(prev.contains(out@[a]) || out@[a] == s);
                        if out@[a] == s {
                            assert(prev.contains(s));
                        }
                    }
                }
            }
            assert(subscription == is_subscription(s));
            assert(present == prev.contains(s));
            let ghost cur = pane@.take(j as int);
            let ghost nxt = pane@.take(j as int + 1);
            assert(nxt =~= cur.push(s));
            assert forall|t: StreamType| out@.contains(t) <==> (
                (is_subscription(t) && in_some_pane(panes@.take(i as int), t))
                || (is_subscription(t) && nxt.contains(t))) by {
                lemma_contains_push(cur, s, t);
                lemma_contains_push(prev, s, t);
                assert(prev.contains(t) <==> ((is_subscription(t) && in_some_pane(panes@.take(i as int), t))
                    || (is_subscription(t) && cur.contains(t))));
                if subscription && !present {
                    assert(out@ =~= prev.push(s));
                } else {
                    assert(out@ =~= prev);
                }
            }
            j += 1;
        }
        assert(pane@.take(pane@.len() as int) =~= pane@);
        assert forall|t: StreamType| in_some_pane(panes@.take(i as int + 1), t) <==> (
            in_some_pane(panes@.take(i as int), t) || pane@.contains(t)) by {
            let next = panes@.take(i as int + 1);
            if in_some_pane(next, t) {
                let k = choose|k: int| 0 <= k < next.len() && (#[trigger] next[k])@.contains(t);
                if k < i {
                    assert(panes@.take(i as int)[k] == next[k]);
                }
            }
            if in_some_pane(panes@.take(i as int), t) {
                let k = choose|k: int| 0 <= k < i && (#[trigger] panes@.take(i as int)[k])@.contains(t);
                assert(next[k] == panes@.take(i as int)[k]);
            }
            if pane@.contains(t) {
                assert(next[i as int] == pane);
            }
        }
        i += 1;
    }
    assert(panes@.take(panes@.len() as int) =~= panes@);
    out
}

/// A stream moved to another timeframe (only kline streams have one).
pub open spec fn spec_retimed(s: StreamType, tf: Timeframe) -> StreamType {
    match s {
        StreamType::Kline { exchange, ticker, .. } => StreamType::Kline { exchange, ticker, timeframe: tf },
        _ => s,
    }
}

/// Index of the first kline stream at or after `from`, if any.
pub open spec fn spec_first_kline(s: Seq<StreamType>, from: int) -> Option<int>
    decreases s.len() - from,
{
    if from >= s.len() || from < 0 {
        None
    } else if s[from] is Kline {
        Some(from)
    } else {
        spec_first_kline(s, from + 1)
    }
}

/// Changes the timeframe of a pane's kline streams. A candlestick or
/// footprint pane (`charted`) changes only its first kline stream and
/// returns it, so that its klines can be fetched again; any other pane
/// changes all of them and returns nothing.
pub fn retime_streams(streams: &mut Vec<StreamType>, tf: Timeframe, charted: bool) -> (res: Option<StreamType>)
    ensures
        final(streams)@.len() == old(streams)@.len(),
        charted ==> match spec_first_kline(old(streams)@, 0) {
            Some(k) => final(streams)@ == old(streams)@.update(k, spec_retimed(old(streams)@[k], tf))
                && res == Some(spec_retimed(old(streams)@[k], tf)),
            None => final(streams)@ == old(streams)@ && res is None,
        },
        !charted ==> res is None && forall|k: int| 0 <= k < old(streams)@.len()
            ==> #[trigger] final(streams)@[k] == spec_retimed(old(streams)@[k], tf),
{
    let ghost initial = streams@;
    let mut i: usize = 0;
    while i < streams.len()
        invariant
            0 <= i <= streams@.len(),
            initial == old(streams)@,
            streams@.len() == initial.len(),
            charted ==> streams@ == initial,
            charted ==> spec_first_kline(initial, 0) == spec_first_kline(initial, i as int),
            !charted ==> forall|k: int| 0 <= k < i ==> #[trigger] streams@[k] == spec_retimed(initial[k], tf),
            !charted ==> forall|k: int| i <= k < initial.len() ==> #[trigger] streams@[k] == initial[k],
        decreases streams@.len() - i,
    {
        let s = streams[i];
        match s {
            StreamType::Kline { exchange, ticker, .. } => {
                let moved = StreamType::Kline { exchange, ticker, timeframe: tf };
                let ghost before = streams@;
                assert(moved == spec_retimed(initial[i as int], tf));
                streams.set(i, moved);
                assert(streams@ =~= before.update(i as int, moved));
                if charted {
                    assert(spec_first_kline(initial, i as int) == Some(i as int));
                    return Some(moved);
                }
            },
            _ => {},
        }
        i += 1;
    }
    None
}

/// Membership in a sequence extended by one element.
proof fn lemma_contains_push(s: Seq<StreamType>, x: StreamType, t: StreamType)
    ensures
        s.push(x).contains(t) <==> (s.contains(t) || t == x),
{
    if s.contains(t) {
        let k = choose|k: int| 0 <= k < s.len() && s[k] == t;
        assert(s.push(x)[k] == t);
    }
    if t == x {
        assert(s.push(x)[s.len() as int] == t);
    }
    if s.push(x).contains(t) {
        let k = choose|k: int| 0 <= k < s.push(x).len() && s.push(x)[k] == t;
        if k < s.len() {
            assert(s[k] == t);
        }
    }
}

/// A data fetch that a pane or a layout needs before it can draw.
#[derive(Debug, Clone, Copy, PartialEq, Eq, Structural)]
pub enum FetchRequest {
    /// Historical klines of a kline stream.
    Klines { exchange: Exchange, ticker: Ticker, timeframe: Timeframe },
    /// Minimum tick size of an instrument.
    TickSize { exchange: Exchange, ticker: Ticker },
}

/// Fetches one stream of a newly set-up pane needs.
pub open spec fn spec_stream_fetches(kind: ContentKind, s: StreamType) -> Seq<FetchRequest> {
    match s {
        StreamType::Kline { exchange, ticker, timeframe } => match kind {
            ContentKind::Candlestick => seq![FetchRequest::Klines { exchange, ticker, timeframe }],
            ContentKind::Footprint => seq![
                FetchRequest::Klines { exchange, ticker, timeframe },
                FetchRequest::TickSize { exchange, ticker },
            ],
            _ => Seq::empty(),
        },
        StreamType::DepthAndTrades { exchange, ticker } => match kind {
            ContentKind::TimeAndSales => Seq::empty(),
            _ => seq![FetchRequest::TickSize { exchange, ticker }],
        },
        StreamType::NoStream => Seq::empty(),
    }
}

/// Fetches of all streams of a newly set-up pane, in stream order.
pub open spec fn spec_content_fetches(kind: ContentKind, streams: Seq<StreamType>) -> Seq<FetchRequest>
    decreases streams.len(),
{
    if streams.len() == 0 {
        Seq::empty()
    } else {
        spec_content_fetches(kind, streams.drop_last()) + spec_stream_fetches(kind, streams.last())
    }
}

/// The fetches a pane needs right after its content is chosen: klines for
/// candlestick and footprint charts, tick sizes for footprint and heatmap
/// charts; a time-and-sales pane needs none.
pub fn content_fetch_plan(kind: ContentKind, streams: &Vec<StreamType>) -> (v: Vec<FetchRequest>)
    ensures
        v@ == spec_content_fetches(kind, streams@),
{
    let mut out: Vec<FetchRequest> = Vec::new();
    let mut i: usize = 0;
    assert(streams@.take(0) =~= Seq::<StreamType>::empty());
    while i < streams.len()
        invariant
            0 <= i <= streams@.len(),
            out@ == spec_content_fetches(kind, streams@.take(i as int)),
        decreases streams@.len() - i,
    {
        let s = streams[i];
        assert(streams@.take(i as int + 1).drop_last() =~= streams@.take(i as int));
        let ghost before = out@;
        match s {
            StreamType::Kline { exchange, ticker, timeframe } => {
                match kind {
                    ContentKind::Candlestick => {
                        out.push(FetchRequest::Klines { exchange, ticker, timeframe });
                    },
                    ContentKind::Footprint => {
                        out.push(FetchRequest::Klines { exchange, ticker, timeframe });
                        out.push(FetchRequest::TickSize { exchange, ticker });
                    },
                    _ => {},
                }
            },
            StreamType::DepthAndTrades { exchange, ticker } => {
                match kind {
                    ContentKind::TimeAndSales => {},
                    _ => {
                        out.push(FetchRequest::TickSize { exchange, ticker });
                    },
                }
            },
            StreamType::NoStream => {},
        }
        assert(out@ =~= before + spec_stream_fetches(kind, s));
        i += 1;
    }
    assert(streams@.take(i as int) =~= streams@);
    out
}

/// The fetch a layout needs for one of its distinct streams.
pub open spec fn spec_layout_fetch(s: StreamType) -> Seq<FetchRequest> {
    match s {
        StreamType::Kline { exchange, ticker, timeframe } => seq![FetchRequest::Klines { exchange, ticker, timeframe }],
        StreamType::DepthAndTrades { exchange, ticker } => seq![FetchRequest::TickSize { exchange, ticker }],
        StreamType::NoStream => Seq::empty(),
    }
}

/// Kline fetches of a stream list, in order.
pub open spec fn spec_kline_fetches(streams: Seq<StreamType>) -> Seq<FetchRequest>
    decreases streams.len(),
{
    if streams.len() == 0 {
        Seq::empty()
    } else {
        spec_kline_fetches(streams.drop_last()) + match streams.last() {
            StreamType::Kline { .. } => spec_layout_fetch(streams.last()),
            _ => Seq::empty(),
        }
    }
}

/// Tick-size fetches of a stream list, in order.
pub open spec fn spec_ticksize_fetches(streams: Seq<StreamType>) -> Seq<FetchRequest>
    decreases streams.len(),
{
    if streams.len() == 0 {
        Seq::empty()
    } else {
        spec_ticksize_fetches(streams.drop_last()) + match streams.last() {
            StreamType::DepthAndTrades { .. } => spec_layout_fetch(streams.last()),
            _ => Seq::empty(),
        }
    }
}

/// The fetches a layout needs when it becomes active: klines of every kline
/// stream, then the tick size of every depth-and-trades stream.
pub fn layout_fetch_plan(streams: &Vec<StreamType>) -> (v: Vec<FetchRequest>)
    ensures
        v@ == spec_kline_fetches(streams@) + spec_ticksize_fetches(streams@),
{
    let mut klines: Vec<FetchRequest> = Vec::new();
    let mut ticks: Vec<FetchRequest> = Vec::new();
    let mut i: usize = 0;
    assert(streams@.take(0) =~= Seq::<StreamType>::empty());
    while i < streams.len()
        invariant
            0 <= i <= streams@.len(),
            klines@ == spec_kline_fetches(streams@.take(i as int)),
            ticks@ == spec_ticksize_fetches(streams@.take(i as int)),
        decreases streams@.len() - i,
    {
        let s = streams[i];
        assert(streams@.take(i as int + 1).drop_last() =~= streams@.take(i as int));
        let ghost kb = klines@;
        let ghost tb = ticks@;
        match s {
            StreamType::Kline { exchange, ticker, timeframe } => {
                klines.push(FetchRequest::Klines { exchange, ticker, timeframe });
            },
            StreamType::DepthAndTrades { exchange, ticker } => {
                ticks.push(FetchRequest::TickSize { exchange, ticker });
            },
            StreamType::NoStream => {},
        }
        assert(klines@ =~= kb + match s {
            StreamType::Kline { .. } => spec_layout_fetch(s),
            _ => Seq::empty(),
        });
        assert(ticks@ =~= tb + match s {
            StreamType::DepthAndTrades { .. } => spec_layout_fetch(s),
            _ => Seq::empty(),
        });
        i += 1;
    }
    assert(streams@.take(i as int) =~= streams@);
    klines.append(&mut ticks);
    klines
}

/// Tick multipliers offered for a content (none for candles and trades).
pub open spec fn spec_tick_choices(kind: ContentKind) -> Seq<TickMultiplier> {
    match kind {
        ContentKind::Heatmap => seq![
            TickMultiplier(1), TickMultiplier(2), TickMultiplier(5), TickMultiplier(10),
            TickMultiplier(25), TickMultiplier(50),
        ],
        ContentKind::Footprint => seq![
            TickMultiplier(1), TickMultiplier(2), TickMultiplier(5), TickMultiplier(10),
            TickMultiplier(25), TickMultiplier(50), TickMultiplier(100), TickMultiplier(200),
        ],
        _ => Seq::empty(),
    }
}

/// The tick multipliers the pane's picker offers.
pub fn tick_multiplier_choices(kind: ContentKind) -> (v: Vec<TickMultiplier>)
    ensures
        v@ == spec_tick_choices(kind),
{
    match kind {
        ContentKind::Heatmap => vec![
            TickMultiplier(1), TickMultiplier(2), TickMultiplier(5), TickMultiplier(10),
            TickMultiplier(25), TickMultiplier(50),
        ],
        ContentKind::Footprint => vec![
            TickMultiplier(1), TickMultiplier(2), TickMultiplier(5), TickMultiplier(10),
            TickMultiplier(25), TickMultiplier(50), TickMultiplier(100), TickMultiplier(200),
        ],
        _ => Vec::new(),
    }
}

/// Instruments whose order-book and trade feed of an exchange is to be
/// opened, one connection each, in stream order.
pub open spec fn spec_depth_tickers(streams: Seq<StreamType>, exchange: Exchange) -> Seq<Ticker>
    decreases streams.len(),
{
    if streams.len() == 0 {
        Seq::empty()
    } else {
        spec_depth_tickers(streams.drop_last(), exchange) + match streams.last() {
            StreamType::DepthAndTrades { exchange: e, ticker } => if e == exchange { seq![ticker] } else { Seq::empty() },
            _ => Seq::empty(),
        }
    }
}

/// (Instrument, timeframe) pairs of an exchange's kline streams, which share
/// one connection, in stream order.
pub open spec fn spec_kline_pairs(streams: Seq<StreamType>, exchange: Exchange) -> Seq<(Ticker, Timeframe)>
    decreases streams.len(),
{
    if streams.len() == 0 {
        Seq::empty()
    } else {
        spec_kline_pairs(streams.drop_last(), exchange) + match streams.last() {
            StreamType::Kline { exchange: e, ticker, timeframe } => if e == exchange { seq![(ticker, timeframe)] } else { Seq::empty() },
            _ => Seq::empty(),
        }
    }
}

/// The order-book and trade feeds of an exchange that the open streams need.
pub fn depth_tickers(streams: &Vec<StreamType>, exchange: Exchange) -> (v: Vec<Ticker>)
    ensures
        v@ == spec_depth_tickers(streams@, exchange),
{
    let mut v: Vec<Ticker> = Vec::new();
    let mut i: usize = 0;
    while i < streams.len()
        invariant
            0 <= i <= streams@.len(),
            v@ == spec_depth_tickers(streams@.take(i as int), exchange),
        decreases streams@.len() - i,
    {
        assert(streams@.take(i as int + 1).drop_last() =~= streams@.take(i as int));
        match streams[i] {
            StreamType::DepthAndTrades { exchange: e, ticker } => {
                if e == exchange {
                    v.push(ticker);
                }
            },
            _ => {},
        }
        assert(v@ =~= spec_depth_tickers(streams@.take(i as int + 1), exchange));
        i += 1;
    }
    assert(streams@.take(streams@.len() as int) =~= streams@);
    v
}

/// The kline pairs of an exchange that the open streams need; an empty list
/// means no kline connection.
pub fn kline_pairs(streams: &Vec<StreamType>, exchange: Exchange) -> (v: Vec<(Ticker, Timeframe)>)
    ensures
        v@ == spec_kline_pairs(streams@, exchange),
{
    let mut v: Vec<(Ticker, Timeframe)> = Vec::new();
    let mut i: usize = 0;
    while i < streams.len()
        invariant
            0 <= i <= streams@.len(),
            v@ == spec_kline_pairs(streams@.take(i as int), exchange),
        decreases streams@.len() - i,
    {
        assert(streams@.take(i as int + 1).drop_last() =~= streams@.take(i as int));
        match streams[i] {
            StreamType::Kline { exchange: e, ticker, timeframe } => {
                if e == exchange {
                    v.push((ticker, timeframe));
                }
            },
            _ => {},
        }
        assert(v@ =~= spec_kline_pairs(streams@.take(i as int + 1), exchange));
        i += 1;
    }
    assert(streams@.take(streams@.len() as int) =~= streams@);
    v
}

/// Whether a stream is a kline stream of an exchange.
pub open spec fn is_kline_of(x: StreamType, exchange: Exchange) -> bool {
    match x {
        StreamType::Kline { exchange: e, .. } => e == exchange,
        _ => false,
    }
}

/// Whether a stream is an order-book and trade stream of an exchange.
pub open spec fn is_depth_of(x: StreamType, exchange: Exchange) -> bool {
    match x {
        StreamType::DepthAndTrades { exchange: e, .. } => e == exchange,
        _ => false,
    }
}

/// How many streams of a list are kline streams of an exchange.
pub open spec fn count_klines_of(s: Seq<StreamType>, exchange: Exchange) -> int
    decreases s.len(),
{
    if s.len() == 0 { 0 } else { count_klines_of(s.drop_last(), exchange) + if is_kline_of(s.last(), exchange) { 1int } else { 0int } }
}

/// How many streams of a list are order-book streams of an exchange.
pub open spec fn count_depth_of(s: Seq<StreamType>, exchange: Exchange) -> int
    decreases s.len(),
{
    if s.len() == 0 { 0 } else { count_depth_of(s.drop_last(), exchange) + if is_depth_of(s.last(), exchange) { 1int } else { 0int } }
}

/// How many streams of a list are kline streams.
pub open spec fn count_klines(s: Seq<StreamType>) -> int
    decreases s.len(),
{
    if s.len() == 0 { 0 } else { count_klines(s.drop_last()) + if s.last() is Kline { 1int } else { 0int } }
}

/// How many streams of a list are order-book streams.
pub open spec fn count_depth(s: Seq<StreamType>) -> int
    decreases s.len(),
{
    if s.len() == 0 { 0 } else { count_depth(s.drop_last()) + if s.last() is DepthAndTrades { 1int } else { 0int } }
}

/// The (ticker, timeframe) of a kline stream.
pub open spec fn pair_of(x: StreamType) -> (Ticker, Timeframe) {
    match x {
        StreamType::Kline { ticker, timeframe, .. } => (ticker, timeframe),
        _ => (Ticker::BTCUSDT, Timeframe::M1),
    }
}

/// The ticker of an order-book stream.
pub open spec fn ticker_of(x: StreamType) -> Ticker {
    match x {
        StreamType::DepthAndTrades { ticker, .. } => ticker,
        StreamType::Kline { ticker, .. } => ticker,
        _ => Ticker::BTCUSDT,
    }
}

/// The klines fetch of a kline stream.
pub open spec fn klines_fetch_of(x: StreamType) -> FetchRequest {
    match x {
        StreamType::Kline { exchange, ticker, timeframe } => FetchRequest::Klines { exchange, ticker, timeframe },
        _ => FetchRequest::Klines { exchange: Exchange::BinanceFutures, ticker: Ticker::BTCUSDT, timeframe: Timeframe::M1 },
    }
}

/// The tick-size fetch of an order-book stream.
pub open spec fn ticksize_fetch_of(x: StreamType) -> FetchRequest {
    match x {
        StreamType::DepthAndTrades { exchange, ticker } => FetchRequest::TickSize { exchange, ticker },
        _ => FetchRequest::TickSize { exchange: Exchange::BinanceFutures, ticker: Ticker::BTCUSDT },
    }
}

/// The shared kline connection of an exchange carries every kline stream of
/// that exchange, each once, in stream order: there is one pair per such
/// stream, and the stream at index `k` gives the pair at the position
/// counted by the matching streams before it.
pub proof fn lemma_kline_pairs_complete(s: Seq<StreamType>, exchange: Exchange)
    ensures
        spec_kline_pairs(s, exchange).len() == count_klines_of(s, exchange),
        forall|k: int| 0 <= k < s.len() && #[trigger] is_kline_of(s[k], exchange) ==> {
            let j = count_klines_of(s.take(k), exchange);
            &&& 0 <= j < spec_kline_pairs(s, exchange).len()
            &&& spec_kline_pairs(s, exchange)[j] == pair_of(s[k])
        },
    decreases s.len(),
{
    if s.len() > 0 {
        let p = s.drop_last();
        lemma_kline_pairs_complete(p, exchange);
        assert forall|k: int| 0 <= k < s.len() && #[trigger] is_kline_of(s[k], exchange) implies {
            let j = count_klines_of(s.take(k), exchange);
            &&& 0 <= j < spec_kline_pairs(s, exchange).len()
            &&& spec_kline_pairs(s, exchange)[j] == pair_of(s[k])
        } by {
            if k < s.len() - 1 {
                assert(s.take(k) =~= p.take(k));
                assert(p[k] == s[k]);
                assert(is_kline_of(p[k], exchange));
            } else {
                assert(s.take(k) =~= p);
            }
        }
    }
}

/// Every order-book stream of an exchange gets its own connection, each
/// once, in stream order.
pub proof fn lemma_depth_tickers_complete(s: Seq<StreamType>, exchange: Exchange)
    ensures
        spec_depth_tickers(s, exchange).len() == count_depth_of(s, exchange),
        forall|k: int| 0 <= k < s.len() && #[trigger] is_depth_of(s[k], exchange) ==> {
            let j = count_depth_of(s.take(k), exchange);
            &&& 0 <= j < spec_depth_tickers(s, exchange).len()
            &&& spec_depth_tickers(s, exchange)[j] == ticker_of(s[k])
        },
    decreases s.len(),
{
    if s.len() > 0 {
        let p = s.drop_last();
        lemma_depth_tickers_complete(p, exchange);
        assert forall|k: int| 0 <= k < s.len() && #[trigger] is_depth_of(s[k], exchange) implies {
            let j = count_depth_of(s.take(k), exchange);
            &&& 0 <= j < spec_depth_tickers(s, exchange).len()
            &&& spec_depth_tickers(s, exchange)[j] == ticker_of(s[k])
        } by {
            if k < s.len() - 1 {
                assert(s.take(k) =~= p.take(k));
                assert(p[k] == s[k]);
                assert(is_depth_of(p[k], exchange));
            } else {
                assert(s.take(k) =~= p);
            }
        }
    }
}

/// A layout's fetch plan asks for the klines of every kline stream, each
/// once and in stream order, and then for the tick size of every order-book
/// stream, each once and in stream order.
pub proof fn lemma_layout_fetches_complete(s: Seq<StreamType>)
    ensures
        spec_kline_fetches(s).len() == count_klines(s),
        spec_ticksize_fetches(s).len() == count_depth(s),
        forall|k: int| 0 <= k < s.len() && #[trigger] s[k] is Kline ==> {
            let j = count_klines(s.take(k));
            &&& 0 <= j < spec_kline_fetches(s).len()
            &&& spec_kline_fetches(s)[j] == klines_fetch_of(s[k])
        },
        forall|k: int| 0 <= k < s.len() && #[trigger] s[k] is DepthAndTrades ==> {
            let j = count_depth(s.take(k));
            &&& 0 <= j < spec_ticksize_fetches(s).len()
            &&& spec_ticksize_fetches(s)[j] == ticksize_fetch_of(s[k])
        },
    decreases s.len(),
{
    if s.len() > 0 {
        let p = s.drop_last();
        lemma_layout_fetches_complete(p);
        assert forall|k: int| 0 <= k < s.len() && #[trigger] s[k] is Kline implies {
            let j = count_klines(s.take(k));
            &&& 0 <= j < spec_kline_fetches(s).len()
            &&& spec_kline_fetches(s)[j] == klines_fetch_of(s[k])
        } by {
            if k < s.len() - 1 {
                assert(s.take(k) =~= p.take(k));
                assert(p[k] == s[k]);
            } else {
                assert(s.take(k) =~= p);
            }
        }
        assert forall|k: int| 0 <= k < s.len() && #[trigger] s[k] is DepthAndTrades implies {
            let j = count_depth(s.take(k));
            &&& 0 <= j < spec_ticksize_fetches(s).len()
            &&& spec_ticksize_fetches(s)[j] == ticksize_fetch_of(s[k])
        } by {
            if k < s.len() - 1 {
                assert(s.take(k) =~= p.take(k));
                assert(p[k] == s[k]);
            } else {
                assert(s.take(k) =~= p);
            }
        }
    }
}

} // verus!
