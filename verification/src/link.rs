use vstd::prelude::*;

verus! {

/// Which exchange's websocket protocol a feed speaks.
#[derive(Debug, Clone, Copy, PartialEq, Eq, Structural)]
pub enum Venue {
    /// Bybit: the client subscribes after connecting; read errors keep the link.
    Bybit,
    /// Binance: streams are named in the address; read errors drop the link.
    Binance,
}

/// Whether a feed's websocket is up.
#[derive(Debug, Clone, Copy, PartialEq, Eq, Structural)]
pub enum LinkState {
    Disconnected,
    Connected,
}

/// What the feed task observed.
#[derive(Debug, Clone, Copy, PartialEq, Eq, Structural)]
pub enum LinkEvent {
    /// The websocket connection was established.
    Opened,
    /// Connecting failed.
    OpenFailed,
    /// The subscription request was written.
    Subscribed,
    /// Writing the subscription request failed.
    SubscribeFailed,
    /// A text frame arrived.
    TextFrame,
    /// A close frame arrived.
    CloseFrame,
    /// Some other frame arrived.
    OtherFrame,
    /// Reading the next frame failed.
    ReadFailed,
    /// The periodic order-book refresh timer fired.
    RefreshTick,
}

/// What the feed task does next.
#[derive(Debug, Clone, Copy, PartialEq, Eq, Structural)]
pub enum LinkAction {
    /// Write the subscription request.
    Subscribe,
    /// Wait a second, then tell the dashboard the feed is down.
    PauseAndReportDisconnected,
    /// Tell the dashboard the feed is down.
    ReportDisconnected,
    /// Decode the text frame.
    HandleText,
    /// Fetch an order-book snapshot in the background.
    RefreshDepth,
    /// Log the read error.
    LogReadError,
    /// Nothing to do.
    Skip,
}

/// The feed's decision table. `reports_close` says whether a close frame is
/// reported (the Bybit market feed does, its kline feed does not);
/// `refreshes_depth` whether the refresh timer runs (the Binance market feed).
pub open spec fn spec_link_step(
    venue: Venue,
    reports_close: bool,
    refreshes_depth: bool,
    state: LinkState,
    event: LinkEvent,
) -> (LinkState, LinkAction) {
    match (state, event) {
        (LinkState::Disconnected, LinkEvent::Opened) => match venue {
            Venue::Bybit => (LinkState::Disconnected, LinkAction::Subscribe),
            Venue::Binance => (LinkState::Connected, LinkAction::Skip),
        },
        (LinkState::Disconnected, LinkEvent::OpenFailed) => (LinkState::Disconnected, LinkAction::PauseAndReportDisconnected),
        (LinkState::Disconnected, LinkEvent::Subscribed) => match venue {
            Venue::Bybit => (LinkState::Connected, LinkAction::Skip),
            Venue::Binance => (LinkState::Disconnected, LinkAction::Skip),
        },
        (LinkState::Disconnected, LinkEvent::SubscribeFailed) => match venue {
            Venue::Bybit => (LinkState::Disconnected, LinkAction::ReportDisconnected),
            Venue::Binance => (LinkState::Disconnected, LinkAction::Skip),
        },
        (LinkState::Connected, LinkEvent::TextFrame) => (LinkState::Connected, LinkAction::HandleText),
        (LinkState::Connected, LinkEvent::CloseFrame) => if venue == Venue::Bybit && reports_close {
            (LinkState::Connected, LinkAction::ReportDisconnected)
        } else {
            (LinkState::Connected, LinkAction::Skip)
        },
        (LinkState::Connected, LinkEvent::ReadFailed) => match venue {
            Venue::Bybit => (LinkState::Connected, LinkAction::LogReadError),
            Venue::Binance => (LinkState::Disconnected, LinkAction::ReportDisconnected),
        },
        (LinkState::Connected, LinkEvent::RefreshTick) => if venue == Venue::Binance && refreshes_depth {
            (LinkState::Connected, LinkAction::RefreshDepth)
        } else {
            (LinkState::Connected, LinkAction::Skip)
        },
        (s, _) => (s, LinkAction::Skip),
    }
}

/// One decision of a feed task: the next link state and what to do.
pub fn link_step(
    venue: Venue,
    reports_close: bool,
    refreshes_depth: bool,
    state: LinkState,
    event: LinkEvent,
) -> (r: (LinkState, LinkAction))
    ensures
        r == spec_link_step(venue, reports_close, refreshes_depth, state, event),
{
    match (state, event) {
        (LinkState::Disconnected, LinkEvent::Opened) => match venue {
            Venue::Bybit => (LinkState::Disconnected, LinkAction::Subscribe),
            Venue::Binance => (LinkState::Connected, LinkAction::Skip),
        },
        (LinkState::Disconnected, LinkEvent::OpenFailed) => (LinkState::Disconnected, LinkAction::PauseAndReportDisconnected),
        (LinkState::Disconnected, LinkEvent::Subscribed) => match venue {
            Venue::Bybit => (LinkState::Connected, LinkAction::Skip),
            Venue::Binance => (LinkState::Disconnected, LinkAction::Skip),
        },
        (LinkState::Disconnected, LinkEvent::SubscribeFailed) => match venue {
            Venue::Bybit => (LinkState::Disconnected, LinkAction::ReportDisconnected),
            Venue::Binance => (LinkState::Disconnected, LinkAction::Skip),
        },
        (LinkState::Connected, LinkEvent::TextFrame) => (LinkState::Connected, LinkAction::HandleText),
        (LinkState::Connected, LinkEvent::CloseFrame) => {
            let bybit = match venue {
                Venue::Bybit => true,
                Venue::Binance => false,
            };
            if bybit && reports_close {
                (LinkState::Connected, LinkAction::ReportDisconnected)
            } else {
                (LinkState::Connected, LinkAction::Skip)
            }
        },
        (LinkState::Connected, LinkEvent::ReadFailed) => match venue {
            Venue::Bybit => (LinkState::Connected, LinkAction::LogReadError),
            Venue::Binance => (LinkState::Disconnected, LinkAction::ReportDisconnected),
        },
        (LinkState::Connected, LinkEvent::RefreshTick) => {
            let binance = match venue {
                Venue::Bybit => false,
                Venue::Binance => true,
            };
            if binance && refreshes_depth {
                (LinkState::Connected, LinkAction::RefreshDepth)
            } else {
                (LinkState::Connected, LinkAction::Skip)
            }
        },
        (s, _) => (s, LinkAction::Skip),
    }
}

/// Text frames are handled only on an established link, and every failed
/// connection attempt is reported to the dashboard after a pause, whatever
/// the venue.
pub proof fn lemma_link_reports(venue: Venue, reports_close: bool, refreshes_depth: bool, state: LinkState, event: LinkEvent)
    ensures
        spec_link_step(venue, reports_close, refreshes_depth, state, event).1 == LinkAction::HandleText
            ==> state == LinkState::Connected && event == LinkEvent::TextFrame,
        state == LinkState::Disconnected && event == LinkEvent::OpenFailed ==>
            spec_link_step(venue, reports_close, refreshes_depth, state, event)
                == (LinkState::Disconnected, LinkAction::PauseAndReportDisconnected),
        spec_link_step(venue, reports_close, refreshes_depth, state, event).0 == LinkState::Connected
            && state == LinkState::Disconnected ==> event == LinkEvent::Opened || event == LinkEvent::Subscribed,
{
}

} // verus!
