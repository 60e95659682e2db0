use iced_trade::dashboard::board::Dashboard;
use iced_trade::dashboard::pane::{PaneSettings, PaneState};
use iced_trade::dashboard::ContentKind;
use iced_trade::market::{Exchange, StreamType, Ticker, Timeframe};
use iced_trade::screen::{Error, LayoutId, Notification};
use iced_trade::state::{layout_index, State};

fn layouts() -> Vec<Dashboard> {
    let chart = PaneState::from_config(
        1,
        Some(ContentKind::Footprint),
        vec![
            StreamType::DepthAndTrades { exchange: Exchange::BybitLinear, ticker: Ticker::BTCUSDT },
            StreamType::Kline { exchange: Exchange::BybitLinear, ticker: Ticker::BTCUSDT, timeframe: Timeframe::M5 },
        ],
        PaneSettings::default(),
    );
    vec![
        Dashboard::empty([1, 2, 3, 4, 5]),
        Dashboard::from_config(vec![chart]),
        Dashboard::empty([11, 12, 13, 14, 15]),
        Dashboard::empty([21, 22, 23, 24, 25]),
    ]
}

#[test]
fn layout_positions() {
    assert_eq!(layout_index(LayoutId::Layout1), 0);
    assert_eq!(layout_index(LayoutId::Layout2), 1);
    assert_eq!(layout_index(LayoutId::Layout3), 2);
    assert_eq!(layout_index(LayoutId::Layout4), 3);
}

#[test]
fn restored_state_shows_its_active_layout() {
    let s = State::new(layouts(), LayoutId::Layout3);
    assert_eq!(s.get_dashboard().panes[0].id, 11);
    assert!(s.notification.is_none());
    assert!(!s.show_layout_modal);
}

#[test]
fn selecting_a_layout_opens_its_streams() {
    let mut s = State::new(layouts(), LayoutId::Layout1);
    s.layout_selected(LayoutId::Layout2);
    assert_eq!(s.last_active_layout, LayoutId::Layout2);
    assert_eq!(s.get_dashboard().pane_streams.len(), 2);
    assert_eq!(s.depth_received(Exchange::BybitLinear, Ticker::BTCUSDT), Ok(vec![0]));
    assert_eq!(s.kline_received(Exchange::BybitLinear, Ticker::BTCUSDT, Timeframe::M5), Ok(vec![0]));
    assert!(s.depth_received(Exchange::BinanceFutures, Ticker::BTCUSDT).is_err());
    assert!(s.kline_received(Exchange::BybitLinear, Ticker::BTCUSDT, Timeframe::M1).is_err());
}

#[test]
fn lock_and_reset_touch_only_the_active_layout() {
    let mut s = State::new(layouts(), LayoutId::Layout2);
    s.toggle_layout_lock();
    assert!(s.get_dashboard().layout_lock);
    assert!(!s.layouts[0].layout_lock);
    s.toggle_layout_lock();
    assert!(!s.get_dashboard().layout_lock);
    s.reset_current_layout([31, 32, 33, 34, 35]);
    assert_eq!(s.get_dashboard().panes.len(), 5);
    assert_eq!(s.get_dashboard().panes[4].id, 35);
    assert_eq!(s.layouts[2].panes[0].id, 11);
    assert!(matches!(&s.notification, Some(Notification::Info(t)) if t == "Layout reset"));
}

#[test]
fn failures_become_notifications() {
    let mut s = State::new(layouts(), LayoutId::Layout1);
    s.error_occurred(&Error::StreamError("closed".to_string()));
    assert!(matches!(&s.notification, Some(Notification::Error(t)) if t == "Failed to fetch stream: closed"));
}

#[test]
fn layout_dialog_and_notifications() {
    let mut s = State::new(layouts(), LayoutId::Layout1);
    s.show_layout_modal();
    assert!(s.show_layout_modal);
    s.hide_layout_modal();
    assert!(!s.show_layout_modal);
    s.notify(Notification::Warn("slow".to_string()));
    assert!(matches!(&s.notification, Some(Notification::Warn(t)) if t == "slow"));
    s.clear_notification();
    assert!(s.notification.is_none());
}
