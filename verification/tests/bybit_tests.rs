use iced_trade::bybit::{
    average_latency, depth_topic, depth_update_kind, is_sell_side, kline_stream_plan, kline_topic, klines_url,
    string_to_timeframe, symbol_str, ticksize_url, timeframe_str, trade_topic, DepthUpdateKind, FeedAction, FeedDecoder,
    StreamName, StreamWrapper,
};
use iced_trade::market::{Ticker, Timeframe};

#[test]
fn bybit_topics() {
    assert_eq!(trade_topic("BTCUSDT"), "publicTrade.BTCUSDT");
    assert_eq!(depth_topic("ETHUSDT"), "orderbook.200.ETHUSDT");
    assert_eq!(kline_topic(Ticker::SOLUSDT, Timeframe::M15), "kline.15.SOLUSDT");
    assert_eq!(symbol_str(Ticker::LTCUSDT), "LTCUSDT");
    assert_eq!(timeframe_str(Timeframe::M30), "30");
}

#[test]
fn topic_classification() {
    assert_eq!(StreamName::from_symbol_and_type("BTCUSDT", "orderbook.200.BTCUSDT"), StreamName::Depth);
    assert_eq!(StreamName::from_symbol_and_type("BTCUSDT", "publicTrade.BTCUSDT"), StreamName::Trade);
    assert_eq!(StreamName::from_symbol_and_type("BTCUSDT", "kline.1.ETHUSDT"), StreamName::Kline);
    assert_eq!(StreamName::from_symbol_and_type("BTCUSDT", "publicTrade.ETHUSDT"), StreamName::Unknown);
    assert_eq!(StreamName::from_symbol_and_type("BTCUSDT", "orderbook.50.BTCUSDT"), StreamName::Unknown);
}

#[test]
fn subscribed_topics_are_recognised() {
    for t in Ticker::all() {
        let sym = symbol_str(t);
        assert_eq!(StreamName::from_symbol_and_type(&sym, &depth_topic(&sym)), StreamName::Depth);
        assert_eq!(StreamName::from_symbol_and_type(&sym, &trade_topic(&sym)), StreamName::Trade);
        for tf in Timeframe::all() {
            assert_eq!(StreamName::from_symbol_and_type(&sym, &kline_topic(t, tf)), StreamName::Kline);
        }
    }
}

#[test]
fn interval_codes_round_trip() {
    for tf in Timeframe::all() {
        assert_eq!(string_to_timeframe(&timeframe_str(tf)), Some(tf));
    }
    assert_eq!(string_to_timeframe("15"), Some(Timeframe::M15));
    assert_eq!(string_to_timeframe("2"), None);
    assert_eq!(string_to_timeframe("15m"), None);
    assert_eq!(string_to_timeframe("D"), None);
}

#[test]
fn kline_plan_uses_last_symbol() {
    let (topics, last) = kline_stream_plan(&vec![(Ticker::BTCUSDT, Timeframe::M1), (Ticker::ETHUSDT, Timeframe::M5)]);
    assert_eq!(topics, vec!["kline.1.BTCUSDT".to_string(), "kline.5.ETHUSDT".to_string()]);
    assert_eq!(last, "ETHUSDT");
    let (none, empty) = kline_stream_plan(&vec![]);
    assert!(none.is_empty());
    assert_eq!(empty, "");
}

#[test]
fn bybit_rest_addresses() {
    assert_eq!(
        klines_url(Ticker::BTCUSDT, Timeframe::M3),
        "https://api.bybit.com/v5/market/kline?category=linear&symbol=BTCUSDT&interval=3&limit=250"
    );
    assert_eq!(
        ticksize_url(Ticker::ETHUSDT),
        "https://api.bybit.com/v5/market/instruments-info?category=linear&symbol=ETHUSDT"
    );
}

#[test]
fn depth_message_kinds() {
    assert_eq!(depth_update_kind("snapshot", 7), DepthUpdateKind::Snapshot);
    assert_eq!(depth_update_kind("delta", 1), DepthUpdateKind::Snapshot);
    assert_eq!(depth_update_kind("delta", 8), DepthUpdateKind::Delta);
    assert_eq!(depth_update_kind("other", 8), DepthUpdateKind::Ignored);
}

#[test]
fn trade_side() {
    assert!(is_sell_side("Sell"));
    assert!(!is_sell_side("Buy"));
    assert!(!is_sell_side("sell"));
}

#[test]
fn average_trade_latency() {
    assert_eq!(average_latency(&vec![]), None);
    assert_eq!(average_latency(&vec![10, 20, 31]), Some(20));
    assert_eq!(average_latency(&vec![-7, 0]), Some(-3));
}

#[test]
fn decoder_depth_message() {
    let mut d = FeedDecoder::new("BTCUSDT");
    assert_eq!(d.step("topic", Some("orderbook.200.BTCUSDT")), FeedAction::Continue);
    assert_eq!(d.stream_type, Some(StreamWrapper::Depth));
    assert_eq!(d.step("type", Some("delta")), FeedAction::Continue);
    assert_eq!(d.data_type, "delta");
    assert_eq!(d.step("ts", Some("x")), FeedAction::Continue);
    assert_eq!(d.step("cts", None), FeedAction::Continue);
    assert_eq!(d.step("data", None), FeedAction::ParseDepth);
    d.depth_parsed();
    assert_eq!(d.step("cts", None), FeedAction::ReadDepthTime);
}

#[test]
fn decoder_trade_and_unknown() {
    let mut d = FeedDecoder::new("ETHUSDT");
    assert_eq!(d.step("data", None), FeedAction::UnknownStreamType);
    assert_eq!(d.step("topic", Some("publicTrade.BTCUSDT")), FeedAction::UnknownStreamName);
    assert_eq!(d.stream_type, None);
    assert_eq!(d.step("topic", None), FeedAction::Continue);
    assert_eq!(d.step("topic", Some("publicTrade.ETHUSDT")), FeedAction::Continue);
    assert_eq!(d.step("data", None), FeedAction::ParseTrades);
    assert_eq!(d.step("type", None), FeedAction::TypeNotText);
    let mut k = FeedDecoder::new("ETHUSDT");
    assert_eq!(k.step("topic", Some("kline.5.ETHUSDT")), FeedAction::Continue);
    assert_eq!(k.step("data", None), FeedAction::ParseKlines);
}
