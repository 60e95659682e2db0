use std::collections::VecDeque;
use iced_trade::latency::LatencyMonitor;
use iced_trade::link::{link_step, LinkAction, LinkEvent, LinkState, Venue};
use iced_trade::market::FeedLatency;
use iced_trade::series::rescale_depth_levels;
use iced_trade::ws_binance::{contains_str, klines_url_for, ticker_klines_url, ticker_stream_route, ticker_ws_url, streams_url_for, TickerStreamRoute};

fn lat(d: i64, t: Option<i64>) -> FeedLatency {
    FeedLatency { time: 0, depth_latency: d, trade_latency: t }
}

#[test]
fn latency_averages_and_trim() {
    let mut m = LatencyMonitor::new();
    m.feed_latency_cache = VecDeque::from(vec![lat(10, Some(4)), lat(20, None), lat(31, Some(7))]);
    m.update_exchange_latency();
    assert_eq!(m.exchange_latency, Some((20, 5)));
    assert_eq!(m.feed_latency_cache.len(), 3);

    let mut big = LatencyMonitor::new();
    big.feed_latency_cache = (0..150).map(|i| lat(i, None)).collect();
    big.update_exchange_latency();
    assert_eq!(big.exchange_latency, None);
    assert_eq!(big.feed_latency_cache.len(), 100);
    assert_eq!(big.feed_latency_cache[0].depth_latency, 50);
}

#[test]
fn latency_kept_when_trades_missing() {
    let mut m = LatencyMonitor::new();
    m.exchange_latency = Some((1, 2));
    m.feed_latency_cache = VecDeque::from(vec![lat(10, None)]);
    m.update_exchange_latency();
    assert_eq!(m.exchange_latency, Some((1, 2)));
}

#[test]
fn bybit_link_decisions() {
    assert_eq!(link_step(Venue::Bybit, true, false, LinkState::Disconnected, LinkEvent::Opened), (LinkState::Disconnected, LinkAction::Subscribe));
    assert_eq!(link_step(Venue::Bybit, true, false, LinkState::Disconnected, LinkEvent::Subscribed), (LinkState::Connected, LinkAction::Skip));
    assert_eq!(link_step(Venue::Bybit, true, false, LinkState::Disconnected, LinkEvent::SubscribeFailed), (LinkState::Disconnected, LinkAction::ReportDisconnected));
    assert_eq!(link_step(Venue::Bybit, true, false, LinkState::Disconnected, LinkEvent::OpenFailed), (LinkState::Disconnected, LinkAction::PauseAndReportDisconnected));
    assert_eq!(link_step(Venue::Bybit, true, false, LinkState::Connected, LinkEvent::CloseFrame), (LinkState::Connected, LinkAction::ReportDisconnected));
    assert_eq!(link_step(Venue::Bybit, false, false, LinkState::Connected, LinkEvent::CloseFrame), (LinkState::Connected, LinkAction::Skip));
    assert_eq!(link_step(Venue::Bybit, true, false, LinkState::Connected, LinkEvent::ReadFailed), (LinkState::Connected, LinkAction::LogReadError));
    assert_eq!(link_step(Venue::Bybit, true, false, LinkState::Connected, LinkEvent::TextFrame), (LinkState::Connected, LinkAction::HandleText));
}

#[test]
fn binance_link_decisions() {
    assert_eq!(link_step(Venue::Binance, false, true, LinkState::Disconnected, LinkEvent::Opened), (LinkState::Connected, LinkAction::Skip));
    assert_eq!(link_step(Venue::Binance, false, true, LinkState::Connected, LinkEvent::ReadFailed), (LinkState::Disconnected, LinkAction::ReportDisconnected));
    assert_eq!(link_step(Venue::Binance, false, true, LinkState::Connected, LinkEvent::RefreshTick), (LinkState::Connected, LinkAction::RefreshDepth));
    assert_eq!(link_step(Venue::Binance, false, false, LinkState::Connected, LinkEvent::RefreshTick), (LinkState::Connected, LinkAction::Skip));
    assert_eq!(link_step(Venue::Binance, false, true, LinkState::Connected, LinkEvent::OtherFrame), (LinkState::Connected, LinkAction::Skip));
}

#[test]
fn heatmap_depth_zoom() {
    assert_eq!(rescale_depth_levels(20, 10, false, 100, 50), Some(30));
    assert_eq!(rescale_depth_levels(95, 10, false, 100, 50), Some(100));
    assert_eq!(rescale_depth_levels(20, 10, true, 100, 50), Some(10));
    assert_eq!(rescale_depth_levels(40, 10, true, 100, 50), Some(30));
    assert_eq!(rescale_depth_levels(10, 10, true, 100, 50), Some(10));
    assert_eq!(rescale_depth_levels(20, 10, false, 0, 50), None);
}

#[test]
fn substring_search_and_ticker_routing() {
    assert!(contains_str("btcusdt@aggTrade", "aggTrade"));
    assert!(!contains_str("btc", "btcusdt"));
    assert!(contains_str("abc", ""));
    assert_eq!(ticker_stream_route("btcusdt@aggTrade"), TickerStreamRoute::Trade);
    assert_eq!(ticker_stream_route("btcusdt@depth20@100ms"), TickerStreamRoute::Depth);
    assert_eq!(ticker_stream_route("btcusdt@kline_1m"), TickerStreamRoute::Kline);
    assert_eq!(ticker_stream_route("btcusdt@markPrice"), TickerStreamRoute::Other);
}

#[test]
fn ticker_stream_addresses() {
    assert_eq!(
        ticker_ws_url("BTCUSDT"),
        "wss://fstream.binance.com/stream?streams=btcusdt@aggTrade/btcusdt@depth20@100ms/btcusdt@kline_1m"
    );
    assert_eq!(ticker_klines_url("ETHUSDT"), "https://fapi.binance.com/fapi/v1/klines?symbol=ethusdt&interval=1m&limit=180");
}

#[test]
fn addresses_of_lower_case_symbols() {
    assert_eq!(
        streams_url_for("solusdt"),
        "wss://fstream.binance.com/stream?streams=solusdt@aggTrade/solusdt@depth20@100ms/solusdt@kline_1m"
    );
    assert_eq!(klines_url_for("ltcusdt"), "https://fapi.binance.com/fapi/v1/klines?symbol=ltcusdt&interval=1m&limit=180");
}
