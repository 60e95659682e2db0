use iced_trade::binance::kline_message_timeframe;
use iced_trade::market::{Ticker, Timeframe};
use iced_trade::user_data::{user_message_outcome, UserEventOutcome};

fn notice(text: &str) -> Option<String> {
    match user_message_outcome(text) {
        Some(UserEventOutcome::Notice(t)) => Some(t),
        _ => None,
    }
}

#[test]
fn user_messages_are_decided_from_their_text() {
    assert!(matches!(
        user_message_outcome(r#"{"e":"ACCOUNT_UPDATE","a":{"m":"ORDER","B":[],"P":[]}}"#),
        Some(UserEventOutcome::NewPositions)
    ));
    assert_eq!(notice(r#"{"e":"ACCOUNT_UPDATE","a":{"m":"FUNDING_FEE","B":[],"P":[]}}"#), Some("Account Update".to_string()));
    assert_eq!(notice(r#"{"e":"ORDER_TRADE_UPDATE","o":{"x":"NEW"}}"#), Some("New Order".to_string()));
    assert_eq!(notice(r#"{"e":"ORDER_TRADE_UPDATE","o":{"x":"TRADE"}}"#), Some("Trade".to_string()));
    assert!(matches!(
        user_message_outcome(r#"{"e":"ORDER_TRADE_UPDATE","o":{"x":"CANCELED"}}"#),
        Some(UserEventOutcome::CancelOrder)
    ));
    assert_eq!(notice(r#"{"e":"ORDER_TRADE_UPDATE","a":{"m":"ORDER"}}"#), Some("Unknown".to_string()));
    assert_eq!(notice(r#"{"e":"listenKeyExpired"}"#), Some("Unknown".to_string()));
    assert!(user_message_outcome("not json").is_none());
}

#[test]
fn kline_messages_find_their_timeframe() {
    let pairs = vec![(Ticker::BTCUSDT, Timeframe::M1), (Ticker::ETHUSDT, Timeframe::M15)];
    let msg = |e: &str, i: &str| format!(r#"{{"stream":"x","data":{{"e":"{e}","k":{{"i":"{i}","t":1}}}}}}"#);
    assert_eq!(kline_message_timeframe(&msg("kline", "15m"), &pairs), Some(Timeframe::M15));
    assert_eq!(kline_message_timeframe(&msg("kline", "1m"), &pairs), Some(Timeframe::M1));
    assert_eq!(kline_message_timeframe(&msg("kline", "5m"), &pairs), None);
    assert_eq!(kline_message_timeframe(&msg("trade", "1m"), &pairs), None);
    assert_eq!(kline_message_timeframe(r#"{"data":{"e":"kline","k":"1m"}}"#, &pairs), None);
    assert_eq!(kline_message_timeframe("{", &pairs), None);
}
