use vstd::prelude::*;
use crate::text::join2;
use crate::market::{Exchange, Ticker, Timeframe, StreamType, TickMultiplier, spec_ticker_label, spec_timeframe_label};
use crate::dashboard::{ContentKind, stream_matches, pane_streams, spec_pane_streams, tick_multiplier_choices, spec_tick_choices};
use crate::screen::Icon;

verus! {

/// The settings of a pane that the dashboard's logic reads. The minimum
/// tick size and the trade-size filter are prices and stay with the chart;
/// here is only whether a minimum tick size is known.
#[derive(Debug, Clone, Copy, PartialEq, Eq, Structural)]
pub struct PaneSettings {
    pub has_min_tick_size: bool,
    pub tick_multiply: Option<TickMultiplier>,
    pub selected_ticker: Option<Ticker>,
    pub selected_exchange: Option<Exchange>,
    pub selected_timeframe: Option<Timeframe>,
}

/// Settings of a fresh pane: multiplier 10, one-minute timeframe, nothing
/// else chosen.
pub open spec fn spec_default_settings() -> PaneSettings {
    PaneSettings {
        has_min_tick_size: false,
        tick_multiply: Some(TickMultiplier(10)),
        selected_ticker: None,
        selected_exchange: None,
        selected_timeframe: Some(Timeframe::M1),
    }
}

impl Default for PaneSettings {
    fn default() -> (s: Self)
        ensures
            s == spec_default_settings(),
    {
        PaneSettings {
            has_min_tick_size: false,
            tick_multiply: Some(TickMultiplier(10)),
            selected_ticker: None,
            selected_exchange: None,
            selected_timeframe: Some(Timeframe::M1),
        }
    }
}

/// One pane of the dashboard: its identifier, what it shows (`None`: the
/// starter screen where the content is chosen), the streams it is
/// subscribed to and its settings.
#[derive(Debug, Clone)]
pub struct PaneState {
    pub id: u128,
    pub show_modal: bool,
    pub stream: Vec<StreamType>,
    pub content: Option<ContentKind>,
    pub settings: PaneSettings,
}

/// The title-bar text of a pane: the first kline stream's instrument and
/// timeframe, else the first depth-and-trades stream's instrument.
pub open spec fn spec_stream_label(s: Seq<StreamType>) -> Option<(Exchange, Seq<char>)> {
    match spec_first_kline_label(s) {
        Some(l) => Some(l),
        None => spec_first_depth_label(s),
    }
}

/// Label of the first kline stream, if any.
pub open spec fn spec_first_kline_label(s: Seq<StreamType>) -> Option<(Exchange, Seq<char>)>
    decreases s.len(),
{
    if s.len() == 0 {
        None
    } else {
        match s[0] {
            StreamType::Kline { exchange, ticker, timeframe } =>
                Some((exchange, spec_ticker_label(ticker) + " "@ + spec_timeframe_label(timeframe))),
            _ => spec_first_kline_label(s.drop_first()),
        }
    }
}

/// Label of the first depth-and-trades stream, if any.
pub open spec fn spec_first_depth_label(s: Seq<StreamType>) -> Option<(Exchange, Seq<char>)>
    decreases s.len(),
{
    if s.len() == 0 {
        None
    } else {
        match s[0] {
            StreamType::DepthAndTrades { exchange, ticker } => Some((exchange, spec_ticker_label(ticker))),
            _ => spec_first_depth_label(s.drop_first()),
        }
    }
}

impl PaneState {
    /// A pane on the starter screen.
    pub fn new(id: u128, stream: Vec<StreamType>, settings: PaneSettings) -> (p: Self)
        ensures
            p.id == id,
            !p.show_modal,
            p.stream@ == stream@,
            p.content is None,
            p.settings == settings,
    {
        PaneState { id, show_modal: false, stream, content: None, settings }
    }

    /// A pane restored from a saved layout, under a fresh identifier.
    pub fn from_config(id: u128, content: Option<ContentKind>, stream: Vec<StreamType>, settings: PaneSettings) -> (p: Self)
        ensures
            p.id == id,
            !p.show_modal,
            p.stream@ == stream@,
            p.content == content,
            p.settings == settings,
    {
        PaneState { id, show_modal: false, stream, content, settings }
    }

    /// Whether the pane receives updates of a stream.
    pub fn matches_stream(&self, stream_type: &StreamType) -> (res: bool)
        ensures
            res == self.stream@.contains(*stream_type),
    {
        stream_matches(&self.stream, *stream_type)
    }

    /// The venue and text shown in the pane's title bar.
    pub fn stream_label(&self) -> (res: Option<(Exchange, String)>)
        ensures
            match res {
                Some((e, t)) => spec_stream_label(self.stream@) == Some((e, t@)),
                None => spec_stream_label(self.stream@) is None,
            },
    {
        let mut i: usize = 0;
        assert(self.stream@.skip(0) =~= self.stream@);
        while i < self.stream.len()
            invariant
                0 <= i <= self.stream@.len(),
                spec_first_kline_label(self.stream@) == spec_first_kline_label(self.stream@.skip(i as int)),
            decreases self.stream@.len() - i,
        {
            assert(self.stream@.skip(i as int).drop_first() =~= self.stream@.skip(i as int + 1));
            assert(self.stream@.skip(i as int)[0] == self.stream@[i as int]);
            match self.stream[i] {
                StreamType::Kline { exchange, ticker, timeframe } => {
                    let head = join2(ticker.to_string().as_str(), " ");
                    let label = join2(head.as_str(), timeframe.to_string().as_str());
                    proof { reveal_strlit(" "); }
                    return Some((exchange, label));
                },
                _ => {},
            }
            i += 1;
        }
        let mut j: usize = 0;
        assert(self.stream@.skip(self.stream@.len() as int) =~= Seq::<StreamType>::empty());
        assert(self.stream@.skip(0) =~= self.stream@);
        while j < self.stream.len()
            invariant
                0 <= j <= self.stream@.len(),
                spec_first_kline_label(self.stream@) is None,
                spec_first_depth_label(self.stream@) == spec_first_depth_label(self.stream@.skip(j as int)),
            decreases self.stream@.len() - j,
        {
            assert(self.stream@.skip(j as int).drop_first() =~= self.stream@.skip(j as int + 1));
            assert(self.stream@.skip(j as int)[0] == self.stream@[j as int]);
            match self.stream[j] {
                StreamType::DepthAndTrades { exchange, ticker } => {
                    return Some((exchange, ticker.to_string()));
                },
                _ => {},
            }
            j += 1;
        }
        assert(self.stream@.skip(j as int) =~= Seq::<StreamType>::empty());
        None
    }
}

/// The streams a content button of the starter screen subscribes the pane
/// to: none until both an exchange and a ticker are chosen (the button is
/// then disabled); the timeframe defaults to one minute.
pub open spec fn spec_starter_selection(settings: PaneSettings, kind: ContentKind) -> Option<Seq<StreamType>> {
    match (settings.selected_exchange, settings.selected_ticker) {
        (Some(exchange), Some(ticker)) => Some(spec_pane_streams(kind, exchange, ticker, match settings.selected_timeframe {
            Some(tf) => tf,
            None => Timeframe::M1,
        })),
        _ => None,
    }
}

/// What pressing a content button on the starter screen subscribes to.
pub fn starter_selection(settings: &PaneSettings, kind: ContentKind) -> (r: Option<Vec<StreamType>>)
    ensures
        match r {
            Some(v) => spec_starter_selection(*settings, kind) == Some(v@),
            None => spec_starter_selection(*settings, kind) is None,
        },
{
    match (settings.selected_exchange, settings.selected_ticker) {
        (Some(exchange), Some(ticker)) => {
            let timeframe = match settings.selected_timeframe {
                Some(tf) => tf,
                None => Timeframe::M1,
            };
            Some(pane_streams(kind, exchange, ticker, timeframe))
        },
        _ => None,
    }
}

/// The controls of a pane's title bar.
#[derive(Debug, Clone)]
pub struct PaneControls {
    /// The timeframes its picker offers (candlestick and footprint charts;
    /// empty: no timeframe picker).
    pub timeframe_choices: Vec<Timeframe>,
    /// The tick multipliers its picker offers (footprint and heatmap charts;
    /// empty: no multiplier picker).
    pub tick_choices: Vec<TickMultiplier>,
    /// The buttons, in order: settings (opens the pane's dialog), resize,
    /// and close when the layout has more than one pane.
    pub buttons: Vec<Icon>,
    /// Whether the resize button restores the layout (else it maximizes the pane).
    pub restores: bool,
}

/// The timeframes offered by a pane showing `content`.
pub open spec fn spec_pane_timeframe_choices(content: Option<ContentKind>) -> Seq<Timeframe> {
    if content == Some(ContentKind::Candlestick) || content == Some(ContentKind::Footprint) {
        seq![Timeframe::M1, Timeframe::M3, Timeframe::M5, Timeframe::M15, Timeframe::M30]
    } else {
        Seq::empty()
    }
}

/// The title-bar buttons of a pane among `total_panes` panes.
pub open spec fn spec_pane_buttons(total_panes: int, is_maximized: bool) -> Seq<Icon> {
    seq![Icon::Cog, if is_maximized { Icon::ResizeSmall } else { Icon::ResizeFull }]
        + if total_panes > 1 { seq![Icon::Close] } else { Seq::<Icon>::empty() }
}

/// Tick multipliers offered by a pane showing `content`.
pub open spec fn spec_pane_tick_choices(content: Option<ContentKind>) -> Seq<TickMultiplier> {
    match content {
        Some(kind) => spec_tick_choices(kind),
        None => Seq::empty(),
    }
}

/// The title-bar controls of a pane showing `content`, among `total_panes`
/// panes, maximized or not.
pub fn view_controls(content: Option<ContentKind>, total_panes: usize, is_maximized: bool) -> (c: PaneControls)
    ensures
        c.timeframe_choices@ == spec_pane_timeframe_choices(content),
        c.tick_choices@ == spec_pane_tick_choices(content),
        c.buttons@ == spec_pane_buttons(total_panes as int, is_maximized),
        c.restores == is_maximized,
{
    let timeframe_choices = match content {
        Some(ContentKind::Candlestick) | Some(ContentKind::Footprint) => Timeframe::all(),
        _ => Vec::new(),
    };
    let tick_choices = match content {
        Some(kind) => tick_multiplier_choices(kind),
        None => Vec::new(),
    };
    let resize_icon = if is_maximized { Icon::ResizeSmall } else { Icon::ResizeFull };
    let mut buttons = vec![Icon::Cog, resize_icon];
    if total_panes > 1 {
        buttons.push(Icon::Close);
    }
    assert(buttons@ =~= spec_pane_buttons(total_panes as int, is_maximized));
    PaneControls { timeframe_choices, tick_choices, buttons, restores: is_maximized }
}

} // verus!
