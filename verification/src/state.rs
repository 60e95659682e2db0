use vstd::prelude::*;
use crate::text::owned;
use crate::market::{Exchange, Ticker, Timeframe, StreamType};
use crate::screen::{Error, LayoutId, Notification, error_notification, spec_error_notice};
use crate::dashboard::{is_subscription, no_duplicates};
use crate::dashboard::board::{Dashboard, PaneTarget, spec_select, subscribed_somewhere};
use crate::dashboard::pane::spec_default_settings;

verus! {

/// Position of a layout among the four saved layouts.
pub open spec fn spec_layout_index(id: LayoutId) -> int {
    match id {
        LayoutId::Layout1 => 0,
        LayoutId::Layout2 => 1,
        LayoutId::Layout3 => 2,
        LayoutId::Layout4 => 3,
    }
}

/// Position of a layout among the four saved layouts.
pub fn layout_index(id: LayoutId) -> (i: usize)
    ensures
        i == spec_layout_index(id),
{
    match id {
        LayoutId::Layout1 => 0,
        LayoutId::Layout2 => 1,
        LayoutId::Layout3 => 2,
        LayoutId::Layout4 => 3,
    }
}

/// The application's state: one dashboard per layout, the layout on
/// screen, whether the layout dialog is open and the notification shown.
pub struct State {
    pub layouts: Vec<Dashboard>,
    pub last_active_layout: LayoutId,
    pub show_layout_modal: bool,
    pub notification: Option<Notification>,
}

impl State {
    /// There is a dashboard for each of the four layouts.
    pub open spec fn wf(&self) -> bool {
        self.layouts@.len() == 4
    }

    /// The dashboard of the layout on screen.
    pub open spec fn active(&self) -> Dashboard {
        self.layouts@[spec_layout_index(self.last_active_layout)]
    }

    /// The state restored from the four saved layouts, in layout order,
    /// showing `last_active_layout`.
    pub fn new(layouts: Vec<Dashboard>, last_active_layout: LayoutId) -> (s: State)
        requires
            layouts@.len() == 4,
        ensures
            s.wf(),
            s.layouts@ == layouts@,
            s.last_active_layout == last_active_layout,
            !s.show_layout_modal,
            s.notification is None,
    {
        State { layouts, last_active_layout, show_layout_modal: false, notification: None }
    }

    /// The dashboard on screen.
    pub fn get_dashboard(&self) -> (d: &Dashboard)
        requires
            self.wf(),
        ensures
            *d == self.active(),
    {
        &self.layouts[layout_index(self.last_active_layout)]
    }

    /// Shows another layout and recomputes the streams it needs.
    pub fn layout_selected(&mut self, layout: LayoutId)
        requires
            old(self).wf(),
        ensures
            final(self).wf(),
            final(self).last_active_layout == layout,
            forall|i: int| 0 <= i < 4 && i != spec_layout_index(layout) ==> #[trigger] final(self).layouts@[i] == old(self).layouts@[i],
            final(self).active().panes@ == old(self).layouts@[spec_layout_index(layout)].panes@,
            final(self).active().layout_lock == old(self).layouts@[spec_layout_index(layout)].layout_lock,
            no_duplicates(final(self).active().pane_streams@),
            forall|s: StreamType| final(self).active().pane_streams@.contains(s) <==> (
                is_subscription(s) && subscribed_somewhere(old(self).layouts@[spec_layout_index(layout)].panes@, s)),
            final(self).show_layout_modal == old(self).show_layout_modal,
            final(self).notification == old(self).notification,
    {
        self.last_active_layout = layout;
        let i = layout_index(layout);
        self.layouts[i].layout_changed();
    }

    /// Locks or unlocks the layout on screen.
    pub fn toggle_layout_lock(&mut self)
        requires
            old(self).wf(),
        ensures
            final(self).wf(),
            final(self).last_active_layout == old(self).last_active_layout,
            forall|i: int| 0 <= i < 4 && i != spec_layout_index(old(self).last_active_layout) ==> #[trigger] final(self).layouts@[i] == old(self).layouts@[i],
            final(self).active().layout_lock == !old(self).active().layout_lock,
            final(self).active().panes@ == old(self).active().panes@,
            final(self).active().pane_streams@ == old(self).active().pane_streams@,
            final(self).show_layout_modal == old(self).show_layout_modal,
            final(self).notification == old(self).notification,
    {
        let i = layout_index(self.last_active_layout);
        let locked = self.layouts[i].layout_lock;
        self.layouts[i].layout_lock = !locked;
    }

    /// Replaces the layout on screen by the default one (five starter panes
    /// with the given identifiers) and says so.
    pub fn reset_current_layout(&mut self, ids: [u128; 5])
        requires
            old(self).wf(),
        ensures
            final(self).wf(),
            final(self).last_active_layout == old(self).last_active_layout,
            forall|i: int| 0 <= i < 4 && i != spec_layout_index(old(self).last_active_layout) ==> #[trigger] final(self).layouts@[i] == old(self).layouts@[i],
            final(self).active().panes@.len() == 5,
            forall|i: int| 0 <= i < 5 ==> {
                &&& (#[trigger] final(self).active().panes@[i]).id == ids[i]
                &&& !final(self).active().panes@[i].show_modal
                &&& final(self).active().panes@[i].content is None
                &&& final(self).active().panes@[i].stream@.len() == 0
                &&& final(self).active().panes@[i].settings == spec_default_settings()
            },
            !final(self).active().layout_lock,
            final(self).active().pane_streams@.len() == 0,
            final(self).notification matches Some(Notification::Info(t)) && t@ == "Layout reset"@,
            final(self).show_layout_modal == old(self).show_layout_modal,
    {
        let i = layout_index(self.last_active_layout);
        self.layouts.set(i, Dashboard::empty(ids));
        self.notification = Some(Notification::Info(owned("Layout reset")));
    }

    /// Opens the layout dialog.
    pub fn show_layout_modal(&mut self)
        ensures
            final(self).show_layout_modal,
            final(self).layouts@ == old(self).layouts@,
            final(self).last_active_layout == old(self).last_active_layout,
            final(self).notification == old(self).notification,
    {
        self.show_layout_modal = true;
    }

    /// Closes the layout dialog.
    pub fn hide_layout_modal(&mut self)
        ensures
            !final(self).show_layout_modal,
            final(self).layouts@ == old(self).layouts@,
            final(self).last_active_layout == old(self).last_active_layout,
            final(self).notification == old(self).notification,
    {
        self.show_layout_modal = false;
    }

    /// Shows a notification.
    pub fn notify(&mut self, notification: Notification)
        ensures
            final(self).notification == Some(notification),
            final(self).layouts@ == old(self).layouts@,
            final(self).last_active_layout == old(self).last_active_layout,
            final(self).show_layout_modal == old(self).show_layout_modal,
    {
        self.notification = Some(notification);
    }

    /// Removes the notification shown.
    pub fn clear_notification(&mut self)
        ensures
            final(self).notification is None,
            final(self).layouts@ == old(self).layouts@,
            final(self).last_active_layout == old(self).last_active_layout,
            final(self).show_layout_modal == old(self).show_layout_modal,
    {
        self.notification = None;
    }

    /// Shows the notification of a failure.
    pub fn error_occurred(&mut self, err: &Error)
        ensures
            final(self).notification matches Some(Notification::Error(t)) && t@ == spec_error_notice(*err),
            final(self).layouts@ == old(self).layouts@,
            final(self).last_active_layout == old(self).last_active_layout,
            final(self).show_layout_modal == old(self).show_layout_modal,
    {
        self.notification = Some(error_notification(err));
    }

    /// Hands an order-book update of an exchange's ticker to the panes of
    /// the layout on screen that are subscribed to it.
    pub fn depth_received(&mut self, exchange: Exchange, ticker: Ticker) -> (r: Result<Vec<usize>, &'static str>)
        requires
            old(self).wf(),
        ensures
            final(self).wf(),
            final(self).last_active_layout == old(self).last_active_layout,
            forall|i: int| 0 <= i < 4 && i != spec_layout_index(old(self).last_active_layout) ==> #[trigger] final(self).layouts@[i] == old(self).layouts@[i],
            final(self).active().panes@ == old(self).active().panes@,
            spec_select(old(self).active().panes@, PaneTarget::Subscribed(StreamType::DepthAndTrades { exchange, ticker })).len() > 0 ==>
                (r matches Ok(v) && v@ == spec_select(old(self).active().panes@, PaneTarget::Subscribed(StreamType::DepthAndTrades { exchange, ticker }))),
            final(self).active().layout_lock == old(self).active().layout_lock,
            spec_select(old(self).active().panes@, PaneTarget::Subscribed(StreamType::DepthAndTrades { exchange, ticker })).len() > 0 ==>
                final(self).active().pane_streams@ == old(self).active().pane_streams@,
            spec_select(old(self).active().panes@, PaneTarget::Subscribed(StreamType::DepthAndTrades { exchange, ticker })).len() == 0 ==>
                (r matches Err(m) && m@ == "No matching pane found for the stream"@)
                && no_duplicates(final(self).active().pane_streams@)
                && forall|s: StreamType| final(self).active().pane_streams@.contains(s) <==> (
                    is_subscription(s) && subscribed_somewhere(old(self).active().panes@, s)),
            final(self).notification == old(self).notification,
            final(self).show_layout_modal == old(self).show_layout_modal,
    {
        let i = layout_index(self.last_active_layout);
        self.layouts[i].update_depth_and_trades(StreamType::DepthAndTrades { exchange, ticker })
    }

    /// Hands a kline of an exchange's ticker and timeframe to the panes of
    /// the layout on screen that are subscribed to it.
    pub fn kline_received(&mut self, exchange: Exchange, ticker: Ticker, timeframe: Timeframe) -> (r: Result<Vec<usize>, &'static str>)
        requires
            old(self).wf(),
        ensures
            final(self).wf(),
            final(self).last_active_layout == old(self).last_active_layout,
            forall|i: int| 0 <= i < 4 && i != spec_layout_index(old(self).last_active_layout) ==> #[trigger] final(self).layouts@[i] == old(self).layouts@[i],
            final(self).active().panes@ == old(self).active().panes@,
            spec_select(old(self).active().panes@, PaneTarget::Subscribed(StreamType::Kline { exchange, ticker, timeframe })).len() > 0 ==>
                (r matches Ok(v) && v@ == spec_select(old(self).active().panes@, PaneTarget::Subscribed(StreamType::Kline { exchange, ticker, timeframe }))),
            final(self).active().layout_lock == old(self).active().layout_lock,
            spec_select(old(self).active().panes@, PaneTarget::Subscribed(StreamType::Kline { exchange, ticker, timeframe })).len() > 0 ==>
                final(self).active().pane_streams@ == old(self).active().pane_streams@,
            spec_select(old(self).active().panes@, PaneTarget::Subscribed(StreamType::Kline { exchange, ticker, timeframe })).len() == 0 ==>
                (r matches Err(m) && m@ == "No matching pane found for the stream"@)
                && no_duplicates(final(self).active().pane_streams@)
                && forall|s: StreamType| final(self).active().pane_streams@.contains(s) <==> (
                    is_subscription(s) && subscribed_somewhere(old(self).active().panes@, s)),
            final(self).notification == old(self).notification,
            final(self).show_layout_modal == old(self).show_layout_modal,
    {
        let i = layout_index(self.last_active_layout);
        self.layouts[i].update_latest_klines(&StreamType::Kline { exchange, ticker, timeframe })
    }
}

} // verus!
