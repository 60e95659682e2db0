use iced_trade::dashboard::board::{Dashboard, FilterTarget, PaneTarget};
use iced_trade::dashboard::pane::{starter_selection, view_controls, PaneSettings, PaneState};
use iced_trade::dashboard::{depth_tickers, kline_pairs, ContentKind, FetchRequest};
use iced_trade::market::{Exchange, StreamType, TickMultiplier, Ticker, Timeframe};
use iced_trade::screen::{error_notification, notification_text, Error, Icon, Notification};

const BN: Exchange = Exchange::BinanceFutures;
const BY: Exchange = Exchange::BybitLinear;

fn depth(e: Exchange, t: Ticker) -> StreamType {
    StreamType::DepthAndTrades { exchange: e, ticker: t }
}

fn kline(e: Exchange, t: Ticker, tf: Timeframe) -> StreamType {
    StreamType::Kline { exchange: e, ticker: t, timeframe: tf }
}

fn pane(id: u128, content: Option<ContentKind>, stream: Vec<StreamType>) -> PaneState {
    PaneState::from_config(id, content, stream, PaneSettings::default())
}

fn board() -> Dashboard {
    Dashboard::from_config(vec![
        pane(1, Some(ContentKind::Heatmap), vec![depth(BN, Ticker::BTCUSDT)]),
        pane(2, Some(ContentKind::Footprint), vec![depth(BN, Ticker::BTCUSDT), kline(BN, Ticker::BTCUSDT, Timeframe::M1)]),
        pane(3, Some(ContentKind::Candlestick), vec![kline(BY, Ticker::ETHUSDT, Timeframe::M5)]),
        pane(4, Some(ContentKind::TimeAndSales), vec![depth(BN, Ticker::BTCUSDT)]),
        pane(5, None, vec![]),
    ])
}

#[test]
fn default_pane_settings() {
    let s = PaneSettings::default();
    assert!(!s.has_min_tick_size);
    assert_eq!(s.tick_multiply, Some(TickMultiplier(10)));
    assert_eq!(s.selected_ticker, None);
    assert_eq!(s.selected_exchange, None);
    assert_eq!(s.selected_timeframe, Some(Timeframe::M1));
}

#[test]
fn empty_layout_has_five_starter_panes() {
    let d = Dashboard::empty([10, 11, 12, 13, 14]);
    assert_eq!(d.panes.len(), 5);
    for (i, p) in d.panes.iter().enumerate() {
        assert_eq!(p.id, 10 + i as u128);
        assert!(p.content.is_none());
        assert!(p.stream.is_empty());
        assert!(!p.show_modal);
    }
    assert!(!d.layout_lock);
    assert!(d.pane_streams.is_empty());
}

#[test]
fn find_pane_takes_first_match() {
    let mut d = board();
    d.panes.push(pane(2, None, vec![]));
    assert_eq!(d.find_pane(2), Some(1));
    assert_eq!(d.find_pane(5), Some(4));
    assert_eq!(d.find_pane(99), None);
}

#[test]
fn pane_state_matches_streams() {
    let d = board();
    assert!(d.panes[1].matches_stream(&kline(BN, Ticker::BTCUSDT, Timeframe::M1)));
    assert!(!d.panes[1].matches_stream(&kline(BN, Ticker::BTCUSDT, Timeframe::M3)));
    assert!(!d.panes[4].matches_stream(&StreamType::NoStream));
}

#[test]
fn selecting_ticker_and_exchange() {
    let mut d = board();
    assert!(d.select_ticker(5, Ticker::SOLUSDT).is_ok());
    assert!(d.select_exchange(5, BY).is_ok());
    assert_eq!(d.panes[4].settings.selected_ticker, Some(Ticker::SOLUSDT));
    assert_eq!(d.panes[4].settings.selected_exchange, Some(BY));
    match d.select_ticker(42, Ticker::SOLUSDT) {
        Err(Error::UnknownError(m)) => assert_eq!(m, "No pane found"),
        _ => panic!("expected an error"),
    }
    assert!(matches!(d.select_exchange(42, BY), Err(Error::UnknownError(m)) if m == "No pane found"));
}

#[test]
fn min_tick_size_is_recorded() {
    let mut d = board();
    assert!(d.set_min_tick_size(2).is_ok());
    assert!(d.panes[1].settings.has_min_tick_size);
    assert!(!d.panes[0].settings.has_min_tick_size);
    assert!(matches!(d.set_min_tick_size(77), Err(Error::UnknownError(m)) if m == "No pane found"));
}

#[test]
fn modal_hidden_on_every_pane_with_id() {
    let mut d = board();
    d.panes[0].show_modal = true;
    d.panes[1].show_modal = true;
    d.hide_modal(1);
    assert!(!d.panes[0].show_modal);
    assert!(d.panes[1].show_modal);
}

#[test]
fn content_and_stream_of_a_pane() {
    let mut d = board();
    assert_eq!(d.set_pane_content(5, Some(ContentKind::Heatmap)), Ok(()));
    assert_eq!(d.panes[4].content, Some(ContentKind::Heatmap));
    assert_eq!(d.set_pane_stream(5, vec![depth(BY, Ticker::LTCUSDT)]), Ok(()));
    assert_eq!(d.panes[4].stream, vec![depth(BY, Ticker::LTCUSDT)]);
    assert_eq!(d.set_pane_content(9, None), Err("No pane found"));
    assert_eq!(d.set_pane_stream(9, vec![]), Err("No pane found"));
}

fn unknown_text(r: Result<usize, Error>) -> String {
    match r {
        Err(Error::UnknownError(m)) => m,
        other => panic!("unexpected {:?}", other),
    }
}

#[test]
fn tick_multiplier_changes() {
    let mut d = board();
    assert_eq!(unknown_text(d.set_pane_ticksize(2, TickMultiplier(25))), "No min tick size found");
    assert_eq!(d.panes[1].settings.tick_multiply, Some(TickMultiplier(25)));
    d.set_min_tick_size(2).unwrap();
    assert_eq!(d.set_pane_ticksize(2, TickMultiplier(50)).unwrap(), 1);
    d.set_min_tick_size(3).unwrap();
    assert_eq!(unknown_text(d.set_pane_ticksize(3, TickMultiplier(5))), "No chart found to change ticksize");
    assert_eq!(d.panes[2].settings.tick_multiply, Some(TickMultiplier(5)));
    assert_eq!(unknown_text(d.set_pane_ticksize(99, TickMultiplier(5))), "No pane found to change ticksize");
}

#[test]
fn size_filter_targets() {
    let d = board();
    assert_eq!(d.size_filter_target(1), FilterTarget::Chart(0));
    assert_eq!(d.size_filter_target(4), FilterTarget::Chart(3));
    assert_eq!(d.size_filter_target(2), FilterTarget::NoChart(1));
    assert_eq!(d.size_filter_target(8), FilterTarget::NoPane);
}

#[test]
fn replacing_a_pane() {
    let mut d = board();
    d.replace_new_pane(0, 50);
    assert_eq!(d.panes[0].id, 50);
    assert!(d.panes[0].content.is_none());
    assert!(d.panes[0].stream.is_empty());
    assert_eq!(d.panes[0].settings, PaneSettings::default());
    d.replace_new_pane(9, 60);
    assert_eq!(d.panes.len(), 5);
    assert_eq!(d.find_pane(60), None);
}

#[test]
fn timeframe_of_a_chart_pane() {
    let mut d = board();
    let moved = d.set_pane_timeframe(2, Timeframe::M15).unwrap();
    assert_eq!(moved, kline(BN, Ticker::BTCUSDT, Timeframe::M15));
    assert_eq!(d.panes[1].stream, vec![depth(BN, Ticker::BTCUSDT), kline(BN, Ticker::BTCUSDT, Timeframe::M15)]);
    assert_eq!(d.panes[1].settings.selected_timeframe, Some(Timeframe::M15));
    assert_eq!(d.panes[2].stream, vec![kline(BY, Ticker::ETHUSDT, Timeframe::M5)]);
}

#[test]
fn timeframe_of_a_pane_without_chart() {
    let mut d = Dashboard::from_config(vec![pane(
        7,
        Some(ContentKind::Heatmap),
        vec![kline(BN, Ticker::BTCUSDT, Timeframe::M1), kline(BN, Ticker::ETHUSDT, Timeframe::M3)],
    )]);
    match d.set_pane_timeframe(7, Timeframe::M30) {
        Err(Error::UnknownError(m)) => assert_eq!(m, "No pane found to change tiemframe"),
        _ => panic!("expected an error"),
    }
    assert_eq!(
        d.panes[0].stream,
        vec![kline(BN, Ticker::BTCUSDT, Timeframe::M30), kline(BN, Ticker::ETHUSDT, Timeframe::M30)]
    );
    assert_eq!(d.panes[0].settings.selected_timeframe, Some(Timeframe::M30));
}

#[test]
fn timeframe_selected_asks_for_klines() {
    let mut d = board();
    match d.timeframe_selected(3, Timeframe::M30) {
        Ok((fetches, Notification::Info(notice))) => {
            assert_eq!(fetches.pane_id, 3);
            assert_eq!(
                fetches.requests,
                vec![FetchRequest::Klines { exchange: BY, ticker: Ticker::ETHUSDT, timeframe: Timeframe::M30 }]
            );
            assert_eq!(notice, "Fetching for klines...");
        }
        other => panic!("unexpected {:?}", other),
    }
    assert!(d.pane_streams.contains(&kline(BY, Ticker::ETHUSDT, Timeframe::M30)));
    assert!(!d.pane_streams.contains(&kline(BY, Ticker::ETHUSDT, Timeframe::M5)));
    match d.timeframe_selected(5, Timeframe::M3) {
        Err(Error::UnknownError(m)) => assert_eq!(m, "No pane found to change tiemframe"),
        other => panic!("unexpected {:?}", other),
    }
}

#[test]
fn fetched_tick_sizes_reach_grid_charts() {
    let mut d = board();
    assert_eq!(d.find_and_insert_ticksizes(&depth(BN, Ticker::BTCUSDT)), Ok(vec![0, 1]));
    assert!(d.panes[0].settings.has_min_tick_size);
    assert!(d.panes[1].settings.has_min_tick_size);
    assert!(!d.panes[3].settings.has_min_tick_size);
    assert_eq!(
        d.find_and_insert_ticksizes(&kline(BY, Ticker::ETHUSDT, Timeframe::M5)),
        Err("No matching pane found for the stream")
    );
}

#[test]
fn fetched_klines_reach_kline_charts() {
    let d = board();
    assert_eq!(d.find_and_insert_klines(&kline(BN, Ticker::BTCUSDT, Timeframe::M1)), Ok(vec![1]));
    assert_eq!(d.find_and_insert_klines(&depth(BN, Ticker::BTCUSDT)), Err("No matching pane found for the stream"));
    assert_eq!(d.insert_klines_vec(&kline(BY, Ticker::ETHUSDT, Timeframe::M5), 3), vec![2]);
    assert_eq!(d.insert_klines_vec(&depth(BN, Ticker::BTCUSDT), 2), Vec::<usize>::new());
}

#[test]
fn updates_reach_subscribed_panes() {
    let mut d = board();
    assert_eq!(d.update_depth_and_trades(depth(BN, Ticker::BTCUSDT)), Ok(vec![0, 1, 3]));
    assert_eq!(d.update_latest_klines(&kline(BY, Ticker::ETHUSDT, Timeframe::M5)), Ok(vec![2]));
    assert!(d.pane_streams.is_empty());
    assert_eq!(d.select(PaneTarget::Subscribed(depth(BY, Ticker::BTCUSDT))), Vec::<usize>::new());
}

#[test]
fn unrouted_update_refreshes_open_streams() {
    let mut d = board();
    assert_eq!(
        d.update_latest_klines(&kline(BN, Ticker::SOLUSDT, Timeframe::M1)),
        Err("No matching pane found for the stream")
    );
    assert_eq!(
        d.pane_streams,
        vec![depth(BN, Ticker::BTCUSDT), kline(BN, Ticker::BTCUSDT, Timeframe::M1), kline(BY, Ticker::ETHUSDT, Timeframe::M5)]
    );
}

#[test]
fn distinct_streams_of_the_layout() {
    let mut d = board();
    let all = d.get_all_diff_streams();
    assert_eq!(
        all,
        vec![depth(BN, Ticker::BTCUSDT), kline(BN, Ticker::BTCUSDT, Timeframe::M1), kline(BY, Ticker::ETHUSDT, Timeframe::M5)]
    );
    d.layout_changed();
    assert_eq!(d.pane_streams, all);
}

#[test]
fn content_chosen_on_starter_screen() {
    let mut d = board();
    let streams = vec![depth(BY, Ticker::SOLUSDT), kline(BY, Ticker::SOLUSDT, Timeframe::M3)];
    let fetches = d.pane_content_selected("Footprint chart", 5, streams.clone()).unwrap();
    assert_eq!(fetches.pane_id, 5);
    assert_eq!(
        fetches.requests,
        vec![
            FetchRequest::TickSize { exchange: BY, ticker: Ticker::SOLUSDT },
            FetchRequest::Klines { exchange: BY, ticker: Ticker::SOLUSDT, timeframe: Timeframe::M3 },
            FetchRequest::TickSize { exchange: BY, ticker: Ticker::SOLUSDT },
        ]
    );
    assert_eq!(d.panes[4].content, Some(ContentKind::Footprint));
    assert_eq!(d.panes[4].stream, streams);
    assert_eq!(d.pane_streams, streams);
    assert!(d.pane_content_selected("Line chart", 5, vec![]).is_none());
    assert_eq!(d.panes[4].stream, streams);
}

#[test]
fn title_bar_labels() {
    let p = pane(1, None, vec![depth(BY, Ticker::ETHUSDT), kline(BN, Ticker::BTCUSDT, Timeframe::M15)]);
    assert_eq!(p.stream_label(), Some((BN, "BTCUSDT 15m".to_string())));
    let q = pane(2, None, vec![StreamType::NoStream, depth(BY, Ticker::ETHUSDT)]);
    assert_eq!(q.stream_label(), Some((BY, "ETHUSDT".to_string())));
    assert_eq!(pane(3, None, vec![]).stream_label(), None);
}

#[test]
fn starter_buttons_need_exchange_and_ticker() {
    let mut s = PaneSettings::default();
    assert_eq!(starter_selection(&s, ContentKind::Candlestick), None);
    s.selected_exchange = Some(BN);
    assert_eq!(starter_selection(&s, ContentKind::Candlestick), None);
    s.selected_ticker = Some(Ticker::LTCUSDT);
    s.selected_timeframe = None;
    assert_eq!(starter_selection(&s, ContentKind::Candlestick), Some(vec![kline(BN, Ticker::LTCUSDT, Timeframe::M1)]));
    s.selected_timeframe = Some(Timeframe::M5);
    assert_eq!(
        starter_selection(&s, ContentKind::Footprint),
        Some(vec![depth(BN, Ticker::LTCUSDT), kline(BN, Ticker::LTCUSDT, Timeframe::M5)])
    );
}

#[test]
fn title_bar_controls() {
    let all_timeframes = vec![Timeframe::M1, Timeframe::M3, Timeframe::M5, Timeframe::M15, Timeframe::M30];
    let c = view_controls(Some(ContentKind::Footprint), 3, false);
    assert_eq!(c.timeframe_choices, all_timeframes);
    assert_eq!(c.tick_choices.len(), 8);
    assert_eq!(c.buttons, vec![Icon::Cog, Icon::ResizeFull, Icon::Close]);
    assert!(!c.restores);
    let h = view_controls(Some(ContentKind::Heatmap), 1, true);
    assert!(h.timeframe_choices.is_empty());
    assert_eq!(h.tick_choices.last(), Some(&TickMultiplier(50)));
    assert_eq!(h.buttons, vec![Icon::Cog, Icon::ResizeSmall]);
    assert!(h.restores);
    let k = view_controls(Some(ContentKind::Candlestick), 2, false);
    assert_eq!(k.timeframe_choices, all_timeframes);
    assert!(k.tick_choices.is_empty());
    let s = view_controls(None, 2, false);
    assert!(s.timeframe_choices.is_empty());
    assert!(s.tick_choices.is_empty());
    assert_eq!(s.buttons, vec![Icon::Cog, Icon::ResizeFull, Icon::Close]);
}

#[test]
fn settings_dialog_opens_at_index() {
    let mut d = board();
    d.show_modal(2);
    assert!(d.panes[2].show_modal);
    assert!(!d.panes[1].show_modal);
    d.show_modal(9);
    assert_eq!(d.panes.len(), 5);
}

#[test]
fn stale_open_streams_are_replaced() {
    let mut d = Dashboard::from_config(vec![]);
    d.pane_streams = vec![kline(BN, Ticker::BTCUSDT, Timeframe::M1)];
    let all = d.get_all_diff_streams();
    assert!(all.is_empty());
    assert!(d.pane_streams.is_empty());
}

#[test]
fn error_notifications() {
    let n = error_notification(&Error::FetchError("timeout".to_string()));
    assert!(matches!(&n, Notification::Error(t) if t == "Failed to fetch data: timeout"));
    assert_eq!(notification_text(&n), "err: Failed to fetch data: timeout");
    let n = error_notification(&Error::PaneSetError("x".to_string()));
    assert!(matches!(&n, Notification::Error(t) if t == "Failed to set pane: x"));
    let n = error_notification(&Error::ParseError("y".to_string()));
    assert!(matches!(&n, Notification::Error(t) if t == "Failed to parse data: y"));
    let n = error_notification(&Error::StreamError("z".to_string()));
    assert!(matches!(&n, Notification::Error(t) if t == "Failed to fetch stream: z"));
    let n = error_notification(&Error::UnknownError("plain".to_string()));
    assert!(matches!(&n, Notification::Error(t) if t == "plain"));
    assert_eq!(notification_text(&Notification::Info("Layout reset".to_string())), "Layout reset");
    assert_eq!(notification_text(&Notification::Warn("slow".to_string())), "warn: slow");
}

#[test]
fn connections_per_exchange() {
    let streams = vec![
        depth(BN, Ticker::BTCUSDT),
        kline(BY, Ticker::ETHUSDT, Timeframe::M5),
        kline(BN, Ticker::BTCUSDT, Timeframe::M1),
        depth(BY, Ticker::SOLUSDT),
        depth(BN, Ticker::ETHUSDT),
        StreamType::NoStream,
    ];
    assert_eq!(depth_tickers(&streams, BN), vec![Ticker::BTCUSDT, Ticker::ETHUSDT]);
    assert_eq!(depth_tickers(&streams, BY), vec![Ticker::SOLUSDT]);
    assert_eq!(kline_pairs(&streams, BN), vec![(Ticker::BTCUSDT, Timeframe::M1)]);
    assert_eq!(kline_pairs(&streams, BY), vec![(Ticker::ETHUSDT, Timeframe::M5)]);
    assert!(kline_pairs(&vec![depth(BN, Ticker::BTCUSDT)], BN).is_empty());
}

#[test]
fn opened_streams_reach_a_pane() {
    let mut d = board();
    d.layout_changed();
    let opened = d.pane_streams.clone();
    for s in opened {
        let routed = match s {
            StreamType::DepthAndTrades { .. } => d.update_depth_and_trades(s),
            _ => d.update_latest_klines(&s),
        };
        assert!(routed.map(|v| !v.is_empty()).unwrap_or(false));
    }
}

#[test]
fn pane_fetched_klines_reach_only_that_pane() {
    let stream = kline(BN, Ticker::BTCUSDT, Timeframe::M1);
    let d = Dashboard::from_config(vec![
        pane(1, Some(ContentKind::Candlestick), vec![stream]),
        pane(2, Some(ContentKind::Candlestick), vec![stream]),
    ]);
    assert_eq!(d.insert_klines_vec(&stream, 2), vec![1]);
    assert_eq!(d.find_and_insert_klines(&stream), Ok(vec![0, 1]));
}
