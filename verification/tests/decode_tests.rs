use iced_trade::bybit::{feed_route, route_feed, FeedEntry, FeedMessage, FeedRoute};

fn route(json: &str) -> FeedMessage {
    feed_route(json.as_bytes(), "BTCUSDT")
}

#[test]
fn trade_message_gives_its_list() {
    let m = route(r#"{"topic":"publicTrade.BTCUSDT","type":"snapshot","ts":1,"data":[{"T":5,"p":"1.5","v":"2","S":"Sell"}]}"#);
    assert!(m.depth_updates.is_empty());
    match m.route {
        FeedRoute::Trades(raw) => assert_eq!(raw, r#"[{"T":5,"p":"1.5","v":"2","S":"Sell"}]"#),
        other => panic!("unexpected {:?}", other),
    }
}

#[test]
fn depth_message_waits_for_its_time() {
    let m = route(r#"{"topic":"orderbook.200.BTCUSDT","type":"delta","data":{"u":7,"b":[],"a":[]},"cts":1700}"#);
    assert_eq!(m.depth_updates, vec![r#"{"u":7,"b":[],"a":[]}"#.to_string()]);
    match m.route {
        FeedRoute::Depth { data_type, time } => {
            assert_eq!(data_type, "delta");
            assert_eq!(time, 1700);
        }
        other => panic!("unexpected {:?}", other),
    }
}

#[test]
fn kline_message_gives_its_list() {
    let m = route(r#"{"topic":"kline.5.BTCUSDT","data":[{"start":1}],"type":"snapshot"}"#);
    assert!(matches!(m.route, FeedRoute::Klines(raw) if raw == r#"[{"start":1}]"#));
}

#[test]
fn depth_updates_are_kept_before_a_failure() {
    let m = route(r#"{"topic":"orderbook.200.BTCUSDT","data":"bad"}"#);
    assert_eq!(m.depth_updates, vec!["\"bad\"".to_string()]);
    assert!(matches!(m.route, FeedRoute::Unknown));
}

#[test]
fn decoding_failures() {
    assert!(matches!(route(r#"{"topic":"publicTrade.ETHUSDT","data":[]}"#).route, FeedRoute::Unknown));
    assert!(matches!(route(r#"{"type":3,"data":[]}"#).route, FeedRoute::TypeNotText));
    assert!(matches!(route(r#"{"topic":"orderbook.200.BTCUSDT","data":{},"cts":"x"}"#).route, FeedRoute::BadTime));
    assert!(matches!(route(r#"{"topic":"orderbook.200.BTCUSDT","data":{}"#).route, FeedRoute::BadStream));
    assert!(matches!(route("[1,2]").route, FeedRoute::BadStream));
}

fn entry(key: &str, text: Option<&str>, number: Option<u64>, raw: &str) -> FeedEntry {
    FeedEntry { key: key.to_string(), text: text.map(|t| t.to_string()), number, raw: raw.to_string() }
}

#[test]
fn entries_are_read_in_order() {
    let es = vec![
        entry("data", None, None, "[1]"),
        entry("topic", Some("publicTrade.BTCUSDT"), None, "\"publicTrade.BTCUSDT\""),
        entry("data", None, None, "[2]"),
    ];
    assert!(matches!(route_feed(&es, false, "BTCUSDT").route, FeedRoute::Trades(raw) if raw == "[2]"));
    assert!(matches!(route_feed(&es[..1].to_vec(), true, "BTCUSDT").route, FeedRoute::BadStream));
    assert!(matches!(route_feed(&vec![], false, "BTCUSDT").route, FeedRoute::Unknown));
    let depth = vec![
        entry("topic", Some("orderbook.200.BTCUSDT"), None, ""),
        entry("data", None, None, "{1}"),
        entry("data", None, None, "{2}"),
        entry("cts", None, Some(9), "9"),
    ];
    let m = route_feed(&depth, false, "BTCUSDT");
    assert_eq!(m.depth_updates, vec!["{1}".to_string(), "{2}".to_string()]);
    assert!(matches!(m.route, FeedRoute::Depth { time: 9, .. }));
}
