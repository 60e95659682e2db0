use iced_trade::dashboard::{
    all_diff_streams, content_fetch_plan, layout_fetch_plan, pane_streams, retime_streams, stream_matches,
    tick_multiplier_choices, ContentKind, FetchRequest,
};
use iced_trade::market::{Exchange, StreamType, TickMultiplier, Ticker, Timeframe};

const EX: Exchange = Exchange::BinanceFutures;

fn depth(t: Ticker) -> StreamType {
    StreamType::DepthAndTrades { exchange: EX, ticker: t }
}

fn kline(t: Ticker, tf: Timeframe) -> StreamType {
    StreamType::Kline { exchange: EX, ticker: t, timeframe: tf }
}

#[test]
fn content_labels_round_trip() {
    for k in ContentKind::all() {
        assert_eq!(ContentKind::from_label(&k.label()), Some(k));
    }
    assert_eq!(ContentKind::from_label("Time&Sales"), Some(ContentKind::TimeAndSales));
    assert_eq!(ContentKind::from_label("Line chart"), None);
}

#[test]
fn new_pane_streams() {
    assert_eq!(pane_streams(ContentKind::Heatmap, EX, Ticker::BTCUSDT, Timeframe::M1), vec![depth(Ticker::BTCUSDT)]);
    assert_eq!(pane_streams(ContentKind::TimeAndSales, EX, Ticker::BTCUSDT, Timeframe::M1), vec![depth(Ticker::BTCUSDT)]);
    assert_eq!(
        pane_streams(ContentKind::Footprint, EX, Ticker::ETHUSDT, Timeframe::M5),
        vec![depth(Ticker::ETHUSDT), kline(Ticker::ETHUSDT, Timeframe::M5)]
    );
    assert_eq!(
        pane_streams(ContentKind::Candlestick, EX, Ticker::ETHUSDT, Timeframe::M3),
        vec![kline(Ticker::ETHUSDT, Timeframe::M3)]
    );
}

#[test]
fn pane_matches_its_streams() {
    let s = vec![depth(Ticker::BTCUSDT), kline(Ticker::BTCUSDT, Timeframe::M1)];
    assert!(stream_matches(&s, kline(Ticker::BTCUSDT, Timeframe::M1)));
    assert!(!stream_matches(&s, kline(Ticker::BTCUSDT, Timeframe::M3)));
    assert!(!stream_matches(&vec![], depth(Ticker::BTCUSDT)));
}

#[test]
fn distinct_streams_of_panes() {
    let panes = vec![
        vec![depth(Ticker::BTCUSDT), kline(Ticker::BTCUSDT, Timeframe::M1)],
        vec![StreamType::NoStream],
        vec![depth(Ticker::BTCUSDT)],
        vec![kline(Ticker::ETHUSDT, Timeframe::M5), kline(Ticker::BTCUSDT, Timeframe::M1)],
    ];
    assert_eq!(
        all_diff_streams(&panes),
        vec![depth(Ticker::BTCUSDT), kline(Ticker::BTCUSDT, Timeframe::M1), kline(Ticker::ETHUSDT, Timeframe::M5)]
    );
    assert!(all_diff_streams(&vec![]).is_empty());
}

#[test]
fn fetches_for_new_content() {
    let fp = vec![depth(Ticker::BTCUSDT), kline(Ticker::BTCUSDT, Timeframe::M1)];
    assert_eq!(
        content_fetch_plan(ContentKind::Footprint, &fp),
        vec![
            FetchRequest::TickSize { exchange: EX, ticker: Ticker::BTCUSDT },
            FetchRequest::Klines { exchange: EX, ticker: Ticker::BTCUSDT, timeframe: Timeframe::M1 },
            FetchRequest::TickSize { exchange: EX, ticker: Ticker::BTCUSDT },
        ]
    );
    assert_eq!(
        content_fetch_plan(ContentKind::Candlestick, &vec![kline(Ticker::ETHUSDT, Timeframe::M3)]),
        vec![FetchRequest::Klines { exchange: EX, ticker: Ticker::ETHUSDT, timeframe: Timeframe::M3 }]
    );
    assert_eq!(
        content_fetch_plan(ContentKind::Heatmap, &vec![depth(Ticker::SOLUSDT)]),
        vec![FetchRequest::TickSize { exchange: EX, ticker: Ticker::SOLUSDT }]
    );
    assert!(content_fetch_plan(ContentKind::TimeAndSales, &vec![depth(Ticker::SOLUSDT)]).is_empty());
}

#[test]
fn fetches_for_layout() {
    let streams = vec![depth(Ticker::BTCUSDT), kline(Ticker::ETHUSDT, Timeframe::M5), StreamType::NoStream];
    assert_eq!(
        layout_fetch_plan(&streams),
        vec![
            FetchRequest::Klines { exchange: EX, ticker: Ticker::ETHUSDT, timeframe: Timeframe::M5 },
            FetchRequest::TickSize { exchange: EX, ticker: Ticker::BTCUSDT },
        ]
    );
}

#[test]
fn timeframe_change_of_charted_pane() {
    let mut s = vec![depth(Ticker::BTCUSDT), kline(Ticker::BTCUSDT, Timeframe::M1), kline(Ticker::ETHUSDT, Timeframe::M1)];
    let r = retime_streams(&mut s, Timeframe::M15, true);
    assert_eq!(r, Some(kline(Ticker::BTCUSDT, Timeframe::M15)));
    assert_eq!(s, vec![depth(Ticker::BTCUSDT), kline(Ticker::BTCUSDT, Timeframe::M15), kline(Ticker::ETHUSDT, Timeframe::M1)]);
    let mut other = vec![kline(Ticker::BTCUSDT, Timeframe::M1), kline(Ticker::ETHUSDT, Timeframe::M1)];
    assert_eq!(retime_streams(&mut other, Timeframe::M5, false), None);
    assert_eq!(other, vec![kline(Ticker::BTCUSDT, Timeframe::M5), kline(Ticker::ETHUSDT, Timeframe::M5)]);
    let mut none = vec![depth(Ticker::BTCUSDT)];
    assert_eq!(retime_streams(&mut none, Timeframe::M5, true), None);
}

#[test]
fn tick_multiplier_menus() {
    assert_eq!(tick_multiplier_choices(ContentKind::Heatmap).len(), 6);
    assert_eq!(tick_multiplier_choices(ContentKind::Footprint).last(), Some(&TickMultiplier(200)));
    assert!(tick_multiplier_choices(ContentKind::Candlestick).is_empty());
}
