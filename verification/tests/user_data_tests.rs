use iced_trade::user_data::{
    cancel_order_params, event_notice, event_type_of, limit_order_params, market_order_params, open_orders_params,
    sign_params, signature_hex, signed_url, timestamp_params, user_event_outcome, user_stream_url, Endpoint, EventType,
    UserEventOutcome,
};

#[test]
fn signature_known_vector() {
    assert_eq!(
        sign_params("The quick brown fox jumps over the lazy dog", "key"),
        "f7bc83f430538424b13298e6aa6fb143ef4d59a14946175997479dbc2d1a3cd8"
    );
}

#[test]
fn signature_depends_on_both_inputs() {
    let a = sign_params("timestamp=1", "secret");
    assert_eq!(a.len(), 64);
    assert_ne!(a, sign_params("timestamp=2", "secret"));
    assert_ne!(a, sign_params("timestamp=1", "other"));
    assert_eq!(a, sign_params("timestamp=1", "secret"));
}

#[test]
fn order_query_strings() {
    assert_eq!(
        limit_order_params("BUY", "0.01", "60000", 1700000000000),
        "symbol=BTCUSDT&side=BUY&type=LIMIT&timeInForce=GTC&quantity=0.01&price=60000&timestamp=1700000000000"
    );
    assert_eq!(
        market_order_params("SELL", "1", 5),
        "symbol=BTCUSDT&side=SELL&type=MARKET&quantity=1&timestamp=5"
    );
    assert_eq!(cancel_order_params("42", 9), "symbol=BTCUSDT&orderId=42&timestamp=9");
    assert_eq!(open_orders_params("BTCUSDT", 10), "timestamp=10&symbol=BTCUSDT");
    assert_eq!(timestamp_params(-1), "timestamp=-1");
}

#[test]
fn signed_addresses() {
    let url = signed_url(Endpoint::Balance, "timestamp=1", "secret");
    let expected = format!(
        "https://testnet.binancefuture.com/fapi/v2/balance?timestamp=1&signature={}",
        sign_params("timestamp=1", "secret")
    );
    assert_eq!(url, expected);
    assert!(signed_url(Endpoint::ListenKey, "timestamp=1", "k").starts_with("https://testnet.binancefuture.com/fapi/v1/listenKey?"));
    assert!(signed_url(Endpoint::OpenOrders, "x", "k").starts_with("https://testnet.binancefuture.com/fapi/v1/openOrders?x&signature="));
    assert!(signed_url(Endpoint::PositionRisk, "x", "k").starts_with("https://testnet.binancefuture.com/fapi/v2/positionRisk?"));
    assert!(signed_url(Endpoint::Order, "x", "k").starts_with("https://testnet.binancefuture.com/fapi/v1/order?"));
    assert_eq!(user_stream_url("abc"), "wss://stream.binancefuture.com/ws/abc");
}

fn notice(o: UserEventOutcome) -> Option<String> {
    match o {
        UserEventOutcome::Notice(s) => Some(s),
        _ => None,
    }
}

#[test]
fn user_event_decisions() {
    assert_eq!(event_type_of(Some("ACCOUNT_UPDATE")), Some(EventType::AccountUpdate));
    assert_eq!(event_type_of(Some("ORDER_TRADE_UPDATE")), Some(EventType::OrderTradeUpdate));
    assert_eq!(event_type_of(Some("MARGIN_CALL")), None);
    assert_eq!(event_type_of(None), None);

    assert!(matches!(user_event_outcome(Some(EventType::AccountUpdate), Some("ORDER")), UserEventOutcome::NewPositions));
    assert_eq!(notice(user_event_outcome(Some(EventType::AccountUpdate), Some("FUNDING_FEE"))), Some("Account Update".to_string()));
    assert_eq!(notice(user_event_outcome(Some(EventType::AccountUpdate), None)), Some("Unknown".to_string()));
    assert_eq!(notice(user_event_outcome(Some(EventType::OrderTradeUpdate), Some("NEW"))), Some("New Order".to_string()));
    assert_eq!(notice(user_event_outcome(Some(EventType::OrderTradeUpdate), Some("TRADE"))), Some("Trade".to_string()));
    assert!(matches!(user_event_outcome(Some(EventType::OrderTradeUpdate), Some("CANCELED")), UserEventOutcome::CancelOrder));
    assert_eq!(notice(user_event_outcome(Some(EventType::OrderTradeUpdate), Some("EXPIRED"))), Some("Unknown".to_string()));
    assert_eq!(notice(user_event_outcome(None, Some("ORDER"))), Some("Unknown".to_string()));
}

#[test]
fn plain_user_stream_notices() {
    assert_eq!(event_notice(Some(EventType::AccountUpdate)), "Account Update");
    assert_eq!(event_notice(Some(EventType::OrderTradeUpdate)), "Order Trade Update");
    assert_eq!(event_notice(None), "Unknown");
}

#[test]
fn tag_bytes_as_lower_hex() {
    assert_eq!(signature_hex(&[0x0f, 0xa0, 0x00, 0xff]), "0fa000ff");
    assert_eq!(signature_hex(&[]), "");
}

#[test]
fn signature_rfc4231_case_two() {
    let sig = sign_params("what do ya want for nothing?", "Jefe");
    assert_eq!(sig, "5bdcc146bf60754e6a042426089575c75a003f089d2739839dec58b964ec3843");
    assert_eq!(sig.len(), 64);
}
