use iced_trade::binance::{
    depth_stream, depth_url, find_timeframe, kline_stream, kline_ws_url, klines_url, market_ws_url, route_message,
    trade_stream, MessageRoute,
};
use iced_trade::market::{Ticker, Timeframe};

#[test]
fn binance_stream_names() {
    assert_eq!(trade_stream(Ticker::BTCUSDT), "btcusdt@aggTrade");
    assert_eq!(depth_stream(Ticker::SOLUSDT), "solusdt@depth@100ms");
    assert_eq!(kline_stream(Ticker::ETHUSDT, Timeframe::M30), "ethusdt@kline_30m");
}

#[test]
fn binance_socket_addresses() {
    assert_eq!(
        market_ws_url(Ticker::LTCUSDT),
        "wss://fstream.binance.com/stream?streams=ltcusdt@aggTrade/ltcusdt@depth@100ms"
    );
    assert_eq!(
        kline_ws_url(&vec![(Ticker::BTCUSDT, Timeframe::M1), (Ticker::ETHUSDT, Timeframe::M5)]),
        "wss://fstream.binance.com/stream?streams=btcusdt@kline_1m/ethusdt@kline_5m"
    );
    assert_eq!(kline_ws_url(&vec![]), "wss://fstream.binance.com/stream?streams=");
}

#[test]
fn binance_rest_addresses() {
    assert_eq!(
        klines_url(Ticker::BTCUSDT, Timeframe::M15),
        "https://fapi.binance.com/fapi/v1/klines?symbol=btcusdt&interval=15m&limit=720"
    );
    assert_eq!(depth_url(Ticker::ETHUSDT), "https://fapi.binance.com/fapi/v1/depth?symbol=ethusdt&limit=100");
}

#[test]
fn market_message_routing() {
    for t in Ticker::all() {
        let trade = trade_stream(t);
        let depth = depth_stream(t);
        assert_eq!(route_message(&trade, &trade, &depth), MessageRoute::Trade);
        assert_eq!(route_message(&depth, &trade, &depth), MessageRoute::Depth);
        assert_eq!(route_message("btcusdt@kline_1m", &trade, &depth), MessageRoute::Other);
    }
}

#[test]
fn kline_message_timeframe() {
    let pairs = vec![(Ticker::BTCUSDT, Timeframe::M1), (Ticker::ETHUSDT, Timeframe::M15)];
    assert_eq!(find_timeframe(&pairs, "15m"), Some(Timeframe::M15));
    assert_eq!(find_timeframe(&pairs, "1m"), Some(Timeframe::M1));
    assert_eq!(find_timeframe(&pairs, "5m"), None);
    for tf in Timeframe::all() {
        assert_eq!(find_timeframe(&vec![(Ticker::SOLUSDT, tf)], &tf.to_string()), Some(tf));
    }
}
