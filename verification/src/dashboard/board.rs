use vstd::prelude::*;
use crate::text::owned;
use crate::market::{Exchange, Ticker, Timeframe, StreamType, TickMultiplier};
use crate::screen::{Error, Notification};
use crate::dashboard::{ContentKind, FetchRequest, all_diff_streams, stream_matches, lemma_contains_push,
    content_fetch_plan, spec_content_fetches, spec_content_from_label, in_some_pane, is_subscription, no_duplicates,
    retime_streams, spec_first_kline, spec_retimed};
use crate::dashboard::pane::{PaneState, PaneSettings, spec_default_settings};

verus! {

/// The panes of one layout, in a fixed order, and the distinct streams they
/// subscribe to.
pub struct Dashboard {
    pub panes: Vec<PaneState>,
    pub layout_lock: bool,
    pub pane_streams: Vec<StreamType>,
}

/// Index `i` holds the first pane with identifier `id`.
pub open spec fn is_first_with_id(s: Seq<PaneState>, id: u128, i: int) -> bool {
    &&& 0 <= i < s.len()
    &&& s[i].id == id
    &&& forall|j: int| 0 <= j < i ==> (#[trigger] s[j]).id != id
}

/// Index of the first pane with identifier `id`, if there is one.
pub open spec fn spec_find(s: Seq<PaneState>, id: u128) -> Option<int> {
    if exists|i: int| is_first_with_id(s, id, i) {
        Some(choose|i: int| is_first_with_id(s, id, i))
    } else {
        None
    }
}

/// The first pane with an identifier is found at its index, and no pane
/// has it when none is found.
proof fn lemma_find_unique(s: Seq<PaneState>, id: u128, i: int)
    requires
        is_first_with_id(s, id, i),
    ensures
        spec_find(s, id) == Some(i),
{
    let k = choose|k: int| is_first_with_id(s, id, k);
    if k < i {
        assert(s[k].id != id);
    } else if i < k {
        assert(s[i].id != id);
    }
}

/// A pane with identifier `id` at index `j` means some index is the first
/// with it.
proof fn lemma_first_exists(s: Seq<PaneState>, id: u128, j: int)
    requires
        0 <= j < s.len(),
        s[j].id == id,
    ensures
        exists|i: int| is_first_with_id(s, id, i),
    decreases j,
{
    if exists|k: int| 0 <= k < j && (#[trigger] s[k]).id == id {
        let k = choose|k: int| 0 <= k < j && (#[trigger] s[k]).id == id;
        lemma_first_exists(s, id, k);
    } else {
        assert(is_first_with_id(s, id, j));
    }
}

/// When no index is the first with `id`, no pane has it.
proof fn lemma_find_none(s: Seq<PaneState>, id: u128)
    requires
        spec_find(s, id) is None,
    ensures
        forall|j: int| 0 <= j < s.len() ==> (#[trigger] s[j]).id != id,
{
    assert forall|j: int| 0 <= j < s.len() implies (#[trigger] s[j]).id != id by {
        if s[j].id == id {
            lemma_first_exists(s, id, j);
        }
    }
}

/// A pane with other settings.
pub open spec fn with_settings(p: PaneState, settings: PaneSettings) -> PaneState {
    PaneState { settings, ..p }
}

/// A pane showing other content.
pub open spec fn with_content(p: PaneState, content: Option<ContentKind>) -> PaneState {
    PaneState { content, ..p }
}

/// Whether a pane's chart is drawn on a price grid (footprint or heatmap),
/// whose step follows the tick multiplier.
pub open spec fn is_tick_chart(content: Option<ContentKind>) -> bool {
    content == Some(ContentKind::Footprint) || content == Some(ContentKind::Heatmap)
}

/// Whether a pane's chart filters trades by size (heatmap or time and sales).
pub open spec fn filters_size(content: Option<ContentKind>) -> bool {
    content == Some(ContentKind::Heatmap) || content == Some(ContentKind::TimeAndSales)
}

/// Where a new trade-size filter goes.
#[derive(Debug, Clone, Copy, PartialEq, Eq, Structural)]
pub enum FilterTarget {
    /// The pane at this index; its chart applies the filter.
    Chart(usize),
    /// The pane at this index records the filter, but its chart has none.
    NoChart(usize),
    /// No pane has the identifier.
    NoPane,
}

/// Fetches made for one pane: their results go to that pane only (klines
/// through `insert_klines_vec`, a tick size through `set_min_tick_size`).
#[derive(Debug, Clone)]
pub struct PaneFetches {
    pub pane_id: u128,
    pub requests: Vec<FetchRequest>,
}

/// Which panes an incoming update or fetch result goes to.
#[derive(Debug, Clone, Copy, PartialEq, Eq, Structural)]
pub enum PaneTarget {
    /// Every pane subscribed to the stream.
    Subscribed(StreamType),
    /// Candlestick and footprint panes subscribed to the stream, when it is
    /// a kline stream: they are rebuilt from fetched klines.
    KlineCharts(StreamType),
    /// Footprint and heatmap panes subscribed to the stream: they take a
    /// fetched minimum tick size.
    TickCharts(StreamType),
    /// Candlestick and footprint panes with this identifier, for a kline
    /// stream: they take klines fetched for that pane.
    KlineChartsOf(u128, StreamType),
}

/// Whether a chart is built from klines (candlestick or footprint).
pub open spec fn is_kline_chart(content: Option<ContentKind>) -> bool {
    content == Some(ContentKind::Candlestick) || content == Some(ContentKind::Footprint)
}

/// Whether a pane is one the target names.
pub open spec fn targets(t: PaneTarget, p: PaneState) -> bool {
    match t {
        PaneTarget::Subscribed(s) => p.stream@.contains(s),
        PaneTarget::KlineCharts(s) => p.stream@.contains(s) && s is Kline && is_kline_chart(p.content),
        PaneTarget::TickCharts(s) => p.stream@.contains(s) && is_tick_chart(p.content),
        PaneTarget::KlineChartsOf(id, s) => p.id == id && s is Kline && is_kline_chart(p.content),
    }
}

/// Indices of the panes the target names, in order.
pub open spec fn spec_select(s: Seq<PaneState>, t: PaneTarget) -> Seq<usize>
    decreases s.len(),
{
    if s.len() == 0 {
        Seq::empty()
    } else {
        spec_select(s.drop_last(), t) + if targets(t, s.last()) {
            seq![(s.len() - 1) as usize]
        } else {
            Seq::<usize>::empty()
        }
    }
}

/// Whether one pane is named by a target.
fn pane_targeted(p: &PaneState, t: PaneTarget) -> (res: bool)
    ensures
        res == targets(t, *p),
{
    match t {
        PaneTarget::Subscribed(s) => p.matches_stream(&s),
        PaneTarget::KlineCharts(s) => {
            let kline = match s {
                StreamType::Kline { .. } => true,
                _ => false,
            };
            let chart = match p.content {
                Some(ContentKind::Candlestick) | Some(ContentKind::Footprint) => true,
                _ => false,
            };
            kline && chart && p.matches_stream(&s)
        },
        PaneTarget::TickCharts(s) => {
            let chart = match p.content {
                Some(ContentKind::Footprint) | Some(ContentKind::Heatmap) => true,
                _ => false,
            };
            chart && p.matches_stream(&s)
        },
        PaneTarget::KlineChartsOf(id, s) => {
            let kline = match s {
                StreamType::Kline { .. } => true,
                _ => false,
            };
            let chart = match p.content {
                Some(ContentKind::Candlestick) | Some(ContentKind::Footprint) => true,
                _ => false,
            };
            p.id == id && kline && chart
        },
    }
}

/// A target's selection holds exactly the indices of the panes it names,
/// each once, in increasing order: an update reaches every pane subscribed
/// to its stream and no other.
pub proof fn lemma_select_exact(s: Seq<PaneState>, t: PaneTarget)
    requires
        s.len() <= usize::MAX,
    ensures
        forall|k: int| 0 <= k < spec_select(s, t).len() ==> (spec_select(s, t)[k] as int) < s.len()
            && targets(t, s[spec_select(s, t)[k] as int]),
        forall|i: int| 0 <= i < s.len() && targets(t, #[trigger] s[i]) ==> spec_select(s, t).contains(i as usize),
        forall|a: int, b: int| 0 <= a < b < spec_select(s, t).len() ==> spec_select(s, t)[a] < spec_select(s, t)[b],
    decreases s.len(),
{
    if s.len() > 0 {
        let prefix = s.drop_last();
        lemma_select_exact(prefix, t);
        let sel = spec_select(s, t);
        let head = spec_select(prefix, t);
        let last: usize = (s.len() - 1) as usize;
        let tail: Seq<usize> = if targets(t, s.last()) { seq![last] } else { Seq::<usize>::empty() };
        assert(sel == head + tail);
        assert forall|k: int| 0 <= k < sel.len() implies (sel[k] as int) < s.len() && targets(t, s[sel[k] as int]) by {
            if k < head.len() {
                assert(sel[k] == head[k]);
                assert(prefix[head[k] as int] == s[head[k] as int]);
            } else {
                assert(sel[k] == last);
            }
        }
        assert forall|i: int| 0 <= i < s.len() && targets(t, #[trigger] s[i]) implies sel.contains(i as usize) by {
            if i < s.len() - 1 {
                assert(prefix[i] == s[i]);
                assert(targets(t, prefix[i]));
                let k = choose|k: int| 0 <= k < head.len() && head[k] == i as usize;
                assert(sel[k] == head[k]);
            } else {
                assert(sel[head.len() as int] == last);
            }
        }
        assert forall|a: int, b: int| 0 <= a < b < sel.len() implies sel[a] < sel[b] by {
            if b < head.len() {
                assert(sel[a] == head[a] && sel[b] == head[b]);
            } else {
                assert(sel[b] == last);
                assert(sel[a] == head[a]);
            }
        }
    }
}

/// No pane is named by a subscription target exactly when no pane is
/// subscribed to the stream: an update fails only for a stream that no pane
/// shows any more.
pub proof fn lemma_unrouted_iff_unsubscribed(s: Seq<PaneState>, stream: StreamType)
    requires
        s.len() <= usize::MAX,
    ensures
        spec_select(s, PaneTarget::Subscribed(stream)).len() == 0 <==> !subscribed_somewhere(s, stream),
{
    let t = PaneTarget::Subscribed(stream);
    lemma_select_exact(s, t);
    if subscribed_somewhere(s, stream) {
        let i = choose|i: int| 0 <= i < s.len() && (#[trigger] s[i]).stream@.contains(stream);
        assert(targets(t, s[i]));
        assert(spec_select(s, t).contains(i as usize));
    }
    if spec_select(s, t).len() > 0 {
        let i = spec_select(s, t)[0] as int;
        assert(targets(t, s[i]));
        assert(s[i].stream@.contains(stream));
    }
}

/// Every stream opened for a layout (as `layout_changed` computes them) has
/// a pane that its updates are delivered to.
pub proof fn lemma_opened_streams_are_routed(panes: Seq<PaneState>, opened: Seq<StreamType>, s: StreamType)
    requires
        panes.len() <= usize::MAX,
        forall|t: StreamType| opened.contains(t) <==> (is_subscription(t) && subscribed_somewhere(panes, t)),
        opened.contains(s),
    ensures
        spec_select(panes, PaneTarget::Subscribed(s)).len() > 0,
{
    assert(opened.contains(s));
    assert(is_subscription(s) && subscribed_somewhere(panes, s));
    lemma_unrouted_iff_unsubscribed(panes, s);
}

/// Whether a stream is present in some pane.
pub open spec fn subscribed_somewhere(s: Seq<PaneState>, stream: StreamType) -> bool {
    exists|i: int| 0 <= i < s.len() && (#[trigger] s[i]).stream@.contains(stream)
}

/// A copy of a list of streams.
fn copy_streams(v: &Vec<StreamType>) -> (r: Vec<StreamType>)
    ensures
        r@ == v@,
{
    let mut r: Vec<StreamType> = Vec::new();
    let mut i: usize = 0;
    while i < v.len()
        invariant
            0 <= i <= v@.len(),
            r@ == v@.take(i as int),
        decreases v@.len() - i,
    {
        r.push(v[i]);
        assert(v@.take(i as int + 1) =~= v@.take(i as int).push(v@[i as int]));
        i += 1;
    }
    assert(v@.take(v@.len() as int) =~= v@);
    r
}

/// The streams of a pane moved to a timeframe: a candlestick or footprint
/// pane (`charted`) moves only its first kline stream, any other pane all
/// of them.
pub open spec fn spec_retimed_streams(s: Seq<StreamType>, tf: Timeframe, charted: bool) -> Seq<StreamType> {
    if charted {
        match spec_first_kline(s, 0) {
            Some(k) => s.update(k, spec_retimed(s[k], tf)),
            None => s,
        }
    } else {
        Seq::new(s.len(), |k: int| spec_retimed(s[k], tf))
    }
}

/// `q` is pane `p` after its timeframe was set to `tf`.
pub open spec fn retimed_pane(p: PaneState, q: PaneState, tf: Timeframe) -> bool {
    &&& q.id == p.id
    &&& q.show_modal == p.show_modal
    &&& q.content == p.content
    &&& q.settings == PaneSettings { selected_timeframe: Some(tf), ..p.settings }
    &&& q.stream@ == spec_retimed_streams(p.stream@, tf, is_kline_chart(p.content))
}

/// A timeframe change stops at a pane with the identifier that shows
/// candlesticks or a footprint and has a kline stream.
pub open spec fn stops_timeframe(p: PaneState, id: u128) -> bool {
    p.id == id && is_kline_chart(p.content) && spec_first_kline(p.stream@, 0) is Some
}

/// Index `i` holds the first pane where a timeframe change stops.
pub open spec fn is_first_stop(s: Seq<PaneState>, id: u128, i: int) -> bool {
    &&& 0 <= i < s.len()
    &&& stops_timeframe(s[i], id)
    &&& forall|j: int| 0 <= j < i ==> !stops_timeframe(#[trigger] s[j], id)
}

/// Where a timeframe change for the panes with identifier `id` stops, if it
/// does.
pub open spec fn spec_timeframe_stop(s: Seq<PaneState>, id: u128) -> Option<int> {
    if exists|i: int| is_first_stop(s, id, i) {
        Some(choose|i: int| is_first_stop(s, id, i))
    } else {
        None
    }
}

/// The first kline stream found is a kline stream inside the list.
proof fn lemma_first_kline_in(s: Seq<StreamType>, from: int)
    requires
        0 <= from,
    ensures
        match spec_first_kline(s, from) {
            Some(k) => from <= k < s.len() && s[k] is Kline,
            None => true,
        },
    decreases s.len() - from,
{
    if from < s.len() && !(s[from] is Kline) {
        lemma_first_kline_in(s, from + 1);
    }
}

proof fn lemma_stop_unique(s: Seq<PaneState>, id: u128, i: int)
    requires
        is_first_stop(s, id, i),
    ensures
        spec_timeframe_stop(s, id) == Some(i),
{
    let k = choose|k: int| is_first_stop(s, id, k);
    if k < i {
        assert(!stops_timeframe(s[k], id));
    } else if i < k {
        assert(!stops_timeframe(s[i], id));
    }
}

impl Dashboard {
    /// The default layout: five starter panes with the given identifiers,
    /// unlocked, with no stream opened.
    pub fn empty(ids: [u128; 5]) -> (d: Self)
        ensures
            d.panes@.len() == 5,
            forall|i: int| 0 <= i < 5 ==> {
                &&& (#[trigger] d.panes@[i]).id == ids[i]
                &&& !d.panes@[i].show_modal
                &&& d.panes@[i].stream@.len() == 0
                &&& d.panes@[i].content is None
                &&& d.panes@[i].settings == spec_default_settings()
            },
            !d.layout_lock,
            d.pane_streams@.len() == 0,
    {
        let mut panes: Vec<PaneState> = Vec::new();
        let mut i: usize = 0;
        while i < 5
            invariant
                0 <= i <= 5,
                panes@.len() == i,
                forall|k: int| 0 <= k < i ==> {
                    &&& (#[trigger] panes@[k]).id == ids[k]
                    &&& !panes@[k].show_modal
                    &&& panes@[k].stream@.len() == 0
                    &&& panes@[k].content is None
                    &&& panes@[k].settings == spec_default_settings()
                },
            decreases 5 - i,
        {
            panes.push(PaneState::new(ids[i], Vec::new(), PaneSettings::default()));
            i += 1;
        }
        Dashboard { panes, layout_lock: false, pane_streams: Vec::new() }
    }

    /// A dashboard of the given panes, unlocked and with no stream opened yet.
    pub fn from_config(panes: Vec<PaneState>) -> (d: Self)
        ensures
            d.panes@ == panes@,
            !d.layout_lock,
            d.pane_streams@.len() == 0,
    {
        Dashboard { panes, layout_lock: false, pane_streams: Vec::new() }
    }

    /// Index of the first pane with identifier `id`.
    pub fn find_pane(&self, id: u128) -> (r: Option<usize>)
        ensures
            match r {
                Some(i) => spec_find(self.panes@, id) == Some(i as int),
                None => spec_find(self.panes@, id) is None,
            },
    {
        let mut i: usize = 0;
        while i < self.panes.len()
            invariant
                0 <= i <= self.panes@.len(),
                forall|j: int| 0 <= j < i ==> (#[trigger] self.panes@[j]).id != id,
            decreases self.panes@.len() - i,
        {
            if self.panes[i].id == id {
                proof { lemma_find_unique(self.panes@, id, i as int); }
                return Some(i);
            }
            i += 1;
        }
        assert(!exists|k: int| is_first_with_id(self.panes@, id, k));
        None
    }

    /// Records the ticker chosen on a starter pane.
    pub fn select_ticker(&mut self, id: u128, ticker: Ticker) -> (r: Result<(), Error>)
        ensures
            match spec_find(old(self).panes@, id) {
                Some(i) => r is Ok && final(self).panes@ == old(self).panes@.update(i, with_settings(
                    old(self).panes@[i], PaneSettings { selected_ticker: Some(ticker), ..old(self).panes@[i].settings })),
                None => (r matches Err(Error::UnknownError(m)) && m@ == "No pane found"@)
                    && final(self).panes@ == old(self).panes@,
            },
            final(self).layout_lock == old(self).layout_lock,
            final(self).pane_streams@ == old(self).pane_streams@,
    {
        proof { reveal_strlit("No pane found"); }
        match self.find_pane(id) {
            Some(i) => {
                self.panes[i].settings.selected_ticker = Some(ticker);
                Ok(())
            },
            None => Err(Error::UnknownError(owned("No pane found"))),
        }
    }

    /// Records the exchange chosen on a starter pane.
    pub fn select_exchange(&mut self, id: u128, exchange: Exchange) -> (r: Result<(), Error>)
        ensures
            match spec_find(old(self).panes@, id) {
                Some(i) => r is Ok && final(self).panes@ == old(self).panes@.update(i, with_settings(
                    old(self).panes@[i], PaneSettings { selected_exchange: Some(exchange), ..old(self).panes@[i].settings })),
                None => (r matches Err(Error::UnknownError(m)) && m@ == "No pane found"@)
                    && final(self).panes@ == old(self).panes@,
            },
            final(self).layout_lock == old(self).layout_lock,
            final(self).pane_streams@ == old(self).pane_streams@,
    {
        proof { reveal_strlit("No pane found"); }
        match self.find_pane(id) {
            Some(i) => {
                self.panes[i].settings.selected_exchange = Some(exchange);
                Ok(())
            },
            None => Err(Error::UnknownError(owned("No pane found"))),
        }
    }

    /// Records that the minimum tick size of a pane's instrument is known.
    pub fn set_min_tick_size(&mut self, id: u128) -> (r: Result<(), Error>)
        ensures
            match spec_find(old(self).panes@, id) {
                Some(i) => r is Ok && final(self).panes@ == old(self).panes@.update(i, with_settings(
                    old(self).panes@[i], PaneSettings { has_min_tick_size: true, ..old(self).panes@[i].settings })),
                None => (r matches Err(Error::UnknownError(m)) && m@ == "No pane found"@)
                    && final(self).panes@ == old(self).panes@,
            },
            final(self).layout_lock == old(self).layout_lock,
            final(self).pane_streams@ == old(self).pane_streams@,
    {
        proof { reveal_strlit("No pane found"); }
        match self.find_pane(id) {
            Some(i) => {
                self.panes[i].settings.has_min_tick_size = true;
                Ok(())
            },
            None => Err(Error::UnknownError(owned("No pane found"))),
        }
    }

    /// Closes the settings dialog of every pane with identifier `id`.
    pub fn hide_modal(&mut self, id: u128)
        ensures
            final(self).panes@.len() == old(self).panes@.len(),
            forall|i: int| 0 <= i < old(self).panes@.len() ==> #[trigger] final(self).panes@[i] == if old(self).panes@[i].id == id {
                PaneState { show_modal: false, ..old(self).panes@[i] }
            } else {
                old(self).panes@[i]
            },
            final(self).layout_lock == old(self).layout_lock,
            final(self).pane_streams@ == old(self).pane_streams@,
    {
        let ghost initial = self.panes@;
        let mut i: usize = 0;
        while i < self.panes.len()
            invariant
                0 <= i <= self.panes@.len(),
                self.panes@.len() == initial.len(),
                initial == old(self).panes@,
                self.layout_lock == old(self).layout_lock,
                self.pane_streams@ == old(self).pane_streams@,
                forall|k: int| 0 <= k < i ==> #[trigger] self.panes@[k] == if initial[k].id == id {
                    PaneState { show_modal: false, ..initial[k] }
                } else {
                    initial[k]
                },
                forall|k: int| i <= k < initial.len() ==> #[trigger] self.panes@[k] == initial[k],
            decreases self.panes@.len() - i,
        {
            if self.panes[i].id == id {
                self.panes[i].show_modal = false;
            }
            i += 1;
        }
    }

    /// Opens the settings dialog of the pane at an index (an index past the
    /// last pane changes nothing).
    pub fn show_modal(&mut self, index: usize)
        ensures
            index < old(self).panes@.len() ==> final(self).panes@ == old(self).panes@.update(
                index as int, PaneState { show_modal: true, ..old(self).panes@[index as int] }),
            index >= old(self).panes@.len() ==> final(self).panes@ == old(self).panes@,
            final(self).layout_lock == old(self).layout_lock,
            final(self).pane_streams@ == old(self).pane_streams@,
    {
        if index < self.panes.len() {
            self.panes[index].show_modal = true;
        }
    }

    /// Sets what the first pane with identifier `id` shows.
    pub fn set_pane_content(&mut self, id: u128, content: Option<ContentKind>) -> (r: Result<(), &'static str>)
        ensures
            match spec_find(old(self).panes@, id) {
                Some(i) => r is Ok && final(self).panes@ == old(self).panes@.update(i, with_content(old(self).panes@[i], content)),
                None => (r matches Err(m) && m@ == "No pane found"@) && final(self).panes@ == old(self).panes@,
            },
            final(self).layout_lock == old(self).layout_lock,
            final(self).pane_streams@ == old(self).pane_streams@,
    {
        proof { reveal_strlit("No pane found"); }
        match self.find_pane(id) {
            Some(i) => {
                self.panes[i].content = content;
                Ok(())
            },
            None => Err("No pane found"),
        }
    }

    /// Sets the streams of the first pane with identifier `id`.
    pub fn set_pane_stream(&mut self, id: u128, stream: Vec<StreamType>) -> (r: Result<(), &'static str>)
        ensures
            match spec_find(old(self).panes@, id) {
                Some(i) => r is Ok
                    && final(self).panes@.len() == old(self).panes@.len()
                    && final(self).panes@[i].stream@ == stream@
                    && final(self).panes@[i].id == old(self).panes@[i].id
                    && final(self).panes@[i].show_modal == old(self).panes@[i].show_modal
                    && final(self).panes@[i].content == old(self).panes@[i].content
                    && final(self).panes@[i].settings == old(self).panes@[i].settings
                    && forall|j: int| 0 <= j < old(self).panes@.len() && j != i ==> #[trigger] final(self).panes@[j] == old(self).panes@[j],
                None => (r matches Err(m) && m@ == "No pane found"@) && final(self).panes@ == old(self).panes@,
            },
            final(self).layout_lock == old(self).layout_lock,
            final(self).pane_streams@ == old(self).pane_streams@,
    {
        proof { reveal_strlit("No pane found"); }
        match self.find_pane(id) {
            Some(i) => {
                self.panes[i].stream = stream;
                Ok(())
            },
            None => Err("No pane found"),
        }
    }

    /// Sets the tick multiplier of the first pane with identifier `id` and
    /// says which pane's price grid is to be redrawn: one that shows a
    /// footprint or heatmap chart and knows its minimum tick size.
    pub fn set_pane_ticksize(&mut self, id: u128, tick_multiply: TickMultiplier) -> (r: Result<usize, Error>)
        ensures
            match spec_find(old(self).panes@, id) {
                Some(i) => {
                    &&& final(self).panes@ == old(self).panes@.update(i, with_settings(
                        old(self).panes@[i], PaneSettings { tick_multiply: Some(tick_multiply), ..old(self).panes@[i].settings }))
                    &&& match r {
                        Ok(k) => k == i && old(self).panes@[i].settings.has_min_tick_size
                            && is_tick_chart(old(self).panes@[i].content),
                        Err(e) => e matches Error::UnknownError(m) && if old(self).panes@[i].settings.has_min_tick_size {
                            !is_tick_chart(old(self).panes@[i].content) && m@ == "No chart found to change ticksize"@
                        } else {
                            m@ == "No min tick size found"@
                        },
                    }
                },
                None => r matches Err(Error::UnknownError(m)) && m@ == "No pane found to change ticksize"@
                    && final(self).panes@ == old(self).panes@,
            },
            final(self).layout_lock == old(self).layout_lock,
            final(self).pane_streams@ == old(self).pane_streams@,
    {
        proof {
            reveal_strlit("No chart found to change ticksize");
            reveal_strlit("No min tick size found");
            reveal_strlit("No pane found to change ticksize");
        }
        match self.find_pane(id) {
            Some(i) => {
                self.panes[i].settings.tick_multiply = Some(tick_multiply);
                if self.panes[i].settings.has_min_tick_size {
                    match self.panes[i].content {
                        Some(ContentKind::Footprint) | Some(ContentKind::Heatmap) => Ok(i),
                        _ => Err(Error::UnknownError(owned("No chart found to change ticksize"))),
                    }
                } else {
                    Err(Error::UnknownError(owned("No min tick size found")))
                }
            },
            None => Err(Error::UnknownError(owned("No pane found to change ticksize"))),
        }
    }

    /// Where a trade-size filter chosen on the pane with identifier `id`
    /// goes.
    pub fn size_filter_target(&self, id: u128) -> (r: FilterTarget)
        ensures
            match spec_find(self.panes@, id) {
                Some(i) => if filters_size(self.panes@[i].content) {
                    r == FilterTarget::Chart(i as usize)
                } else {
                    r == FilterTarget::NoChart(i as usize)
                },
                None => r == FilterTarget::NoPane,
            },
    {
        match self.find_pane(id) {
            Some(i) => match self.panes[i].content {
                Some(ContentKind::Heatmap) | Some(ContentKind::TimeAndSales) => FilterTarget::Chart(i),
                _ => FilterTarget::NoChart(i),
            },
            None => FilterTarget::NoPane,
        }
    }

    /// Puts a fresh starter pane with identifier `id` at an index.
    pub fn replace_new_pane(&mut self, index: usize, id: u128)
        ensures
            index < old(self).panes@.len() ==> final(self).panes@.len() == old(self).panes@.len()
                && final(self).panes@[index as int].id == id
                && !final(self).panes@[index as int].show_modal
                && final(self).panes@[index as int].stream@.len() == 0
                && final(self).panes@[index as int].content is None
                && final(self).panes@[index as int].settings == spec_default_settings()
                && forall|j: int| 0 <= j < old(self).panes@.len() && j != index ==> #[trigger] final(self).panes@[j] == old(self).panes@[j],
            index >= old(self).panes@.len() ==> final(self).panes@ == old(self).panes@,
            final(self).layout_lock == old(self).layout_lock,
            final(self).pane_streams@ == old(self).pane_streams@,
    {
        if index < self.panes.len() {
            self.panes.set(index, PaneState::new(id, Vec::new(), PaneSettings::default()));
        }
    }

    /// Indices of the panes a target names, in order.
    pub fn select(&self, t: PaneTarget) -> (v: Vec<usize>)
        ensures
            v@ == spec_select(self.panes@, t),
    {
        let mut v: Vec<usize> = Vec::new();
        let mut i: usize = 0;
        while i < self.panes.len()
            invariant
                0 <= i <= self.panes@.len(),
                v@ == spec_select(self.panes@.take(i as int), t),
            decreases self.panes@.len() - i,
        {
            let ghost before = self.panes@.take(i as int);
            let ghost after = self.panes@.take(i as int + 1);
            assert(after.drop_last() =~= before);
            assert(after.last() == self.panes@[i as int]);
            if pane_targeted(&self.panes[i], t) {
                v.push(i);
            }
            assert(v@ =~= spec_select(after, t));
            i += 1;
        }
        assert(self.panes@.take(self.panes@.len() as int) =~= self.panes@);
        v
    }

    /// The distinct subscriptions of all panes, in order of first appearance.
    #[verifier::spinoff_prover]
    fn distinct_streams(&self) -> (v: Vec<StreamType>)
        ensures
            no_duplicates(v@),
            forall|s: StreamType| v@.contains(s) <==> (is_subscription(s) && subscribed_somewhere(self.panes@, s)),
    {
        let mut lists: Vec<Vec<StreamType>> = Vec::new();
        let mut i: usize = 0;
        while i < self.panes.len()
            invariant
                0 <= i <= self.panes@.len(),
                lists@.len() == i,
                forall|k: int| 0 <= k < i ==> (#[trigger] lists@[k])@ == self.panes@[k].stream@,
            decreases self.panes@.len() - i,
        {
            lists.push(copy_streams(&self.panes[i].stream));
            i += 1;
        }
        let v = all_diff_streams(&lists);
        assert forall|s: StreamType| in_some_pane(lists@, s) <==> subscribed_somewhere(self.panes@, s) by {
            if in_some_pane(lists@, s) {
                let k = choose|k: int| 0 <= k < lists@.len() && (#[trigger] lists@[k])@.contains(s);
                assert(self.panes@[k].stream@.contains(s));
            }
            if subscribed_somewhere(self.panes@, s) {
                let k = choose|k: int| 0 <= k < self.panes@.len() && (#[trigger] self.panes@[k]).stream@.contains(s);
                assert(lists@[k]@.contains(s));
            }
        }
        v
    }

    /// Recomputes the streams to open, the distinct subscriptions of all
    /// panes in order of first appearance, records them and returns them.
    pub fn get_all_diff_streams(&mut self) -> (v: Vec<StreamType>)
        ensures
            final(self).panes@ == old(self).panes@,
            final(self).layout_lock == old(self).layout_lock,
            final(self).pane_streams@ == v@,
            no_duplicates(v@),
            forall|s: StreamType| v@.contains(s) <==> (is_subscription(s) && subscribed_somewhere(old(self).panes@, s)),
    {
        let v = self.distinct_streams();
        self.pane_streams = copy_streams(&v);
        v
    }

    /// Recomputes the streams to open after the layout changed.
    pub fn layout_changed(&mut self)
        ensures
            final(self).panes@ == old(self).panes@,
            final(self).layout_lock == old(self).layout_lock,
            no_duplicates(final(self).pane_streams@),
            forall|s: StreamType| final(self).pane_streams@.contains(s) <==> (is_subscription(s) && subscribed_somewhere(old(self).panes@, s)),
    {
        let _ = self.get_all_diff_streams();
    }

    /// The panes that receive fetched klines of a stream: candlestick and
    /// footprint panes subscribed to it; an error when there is none.
    pub fn find_and_insert_klines(&self, stream_type: &StreamType) -> (r: Result<Vec<usize>, &'static str>)
        ensures
            spec_select(self.panes@, PaneTarget::KlineCharts(*stream_type)).len() > 0 ==>
                (r matches Ok(v) && v@ == spec_select(self.panes@, PaneTarget::KlineCharts(*stream_type))),
            spec_select(self.panes@, PaneTarget::KlineCharts(*stream_type)).len() == 0 ==> (r matches Err(m) && m@ == "No matching pane found for the stream"@),
    {
        let v = self.select(PaneTarget::KlineCharts(*stream_type));
        if v.len() > 0 {
            Ok(v)
        } else {
            proof { reveal_strlit("No matching pane found for the stream"); }
            Err("No matching pane found for the stream")
        }
    }

    /// The panes with identifier `pane_id` that take klines fetched for them.
    pub fn insert_klines_vec(&self, stream_type: &StreamType, pane_id: u128) -> (v: Vec<usize>)
        ensures
            v@ == spec_select(self.panes@, PaneTarget::KlineChartsOf(pane_id, *stream_type)),
    {
        self.select(PaneTarget::KlineChartsOf(pane_id, *stream_type))
    }

    /// Records a fetched minimum tick size on the footprint and heatmap
    /// panes subscribed to a stream and returns their indices; an error when
    /// there is none.
    #[verifier::spinoff_prover]
    pub fn find_and_insert_ticksizes(&mut self, stream_type: &StreamType) -> (r: Result<Vec<usize>, &'static str>)
        ensures
            final(self).panes@.len() == old(self).panes@.len(),
            forall|i: int| 0 <= i < old(self).panes@.len() ==> #[trigger] final(self).panes@[i] == if targets(PaneTarget::TickCharts(*stream_type), old(self).panes@[i]) {
                with_settings(old(self).panes@[i], PaneSettings { has_min_tick_size: true, ..old(self).panes@[i].settings })
            } else {
                old(self).panes@[i]
            },
            spec_select(old(self).panes@, PaneTarget::TickCharts(*stream_type)).len() > 0 ==>
                (r matches Ok(v) && v@ == spec_select(old(self).panes@, PaneTarget::TickCharts(*stream_type))),
            spec_select(old(self).panes@, PaneTarget::TickCharts(*stream_type)).len() == 0 ==> (r matches Err(m) && m@ == "No matching pane found for the stream"@),
            final(self).layout_lock == old(self).layout_lock,
            final(self).pane_streams@ == old(self).pane_streams@,
    {
        let t = PaneTarget::TickCharts(*stream_type);
        let v = self.select(t);
        let ghost initial = self.panes@;
        let mut i: usize = 0;
        while i < self.panes.len()
            invariant
                0 <= i <= self.panes@.len(),
                self.panes@.len() == initial.len(),
                initial == old(self).panes@,
                self.layout_lock == old(self).layout_lock,
                self.pane_streams@ == old(self).pane_streams@,
                forall|k: int| 0 <= k < i ==> #[trigger] self.panes@[k] == if targets(t, initial[k]) {
                    with_settings(initial[k], PaneSettings { has_min_tick_size: true, ..initial[k].settings })
                } else {
                    initial[k]
                },
                forall|k: int| i <= k < initial.len() ==> #[trigger] self.panes@[k] == initial[k],
            decreases self.panes@.len() - i,
        {
            if pane_targeted(&self.panes[i], t) {
                self.panes[i].settings.has_min_tick_size = true;
            }
            i += 1;
        }
        if v.len() > 0 {
            Ok(v)
        } else {
            proof { reveal_strlit("No matching pane found for the stream"); }
            Err("No matching pane found for the stream")
        }
    }

    /// The panes that receive a new kline of a stream. When none is
    /// subscribed any more, the streams to open are recomputed and an error
    /// is returned.
    pub fn update_latest_klines(&mut self, stream_type: &StreamType) -> (r: Result<Vec<usize>, &'static str>)
        ensures
            final(self).panes@ == old(self).panes@,
            final(self).layout_lock == old(self).layout_lock,
            spec_select(old(self).panes@, PaneTarget::Subscribed(*stream_type)).len() > 0 ==>
                (r matches Ok(v) && v@ == spec_select(old(self).panes@, PaneTarget::Subscribed(*stream_type)))
                && final(self).pane_streams@ == old(self).pane_streams@,
            spec_select(old(self).panes@, PaneTarget::Subscribed(*stream_type)).len() == 0 ==> (r matches Err(m) && m@ == "No matching pane found for the stream"@)
                && no_duplicates(final(self).pane_streams@)
                && forall|s: StreamType| final(self).pane_streams@.contains(s) <==> (is_subscription(s) && subscribed_somewhere(old(self).panes@, s)),
    {
        let v = self.select(PaneTarget::Subscribed(*stream_type));
        if v.len() > 0 {
            Ok(v)
        } else {
            let _ = self.get_all_diff_streams();
            proof { reveal_strlit("No matching pane found for the stream"); }
            Err("No matching pane found for the stream")
        }
    }

    /// The panes that receive an order-book update and the trades before it.
    /// When none is subscribed any more, the streams to open are recomputed
    /// and an error is returned.
    pub fn update_depth_and_trades(&mut self, stream_type: StreamType) -> (r: Result<Vec<usize>, &'static str>)
        ensures
            final(self).panes@ == old(self).panes@,
            final(self).layout_lock == old(self).layout_lock,
            spec_select(old(self).panes@, PaneTarget::Subscribed(stream_type)).len() > 0 ==>
                (r matches Ok(v) && v@ == spec_select(old(self).panes@, PaneTarget::Subscribed(stream_type)))
                && final(self).pane_streams@ == old(self).pane_streams@,
            spec_select(old(self).panes@, PaneTarget::Subscribed(stream_type)).len() == 0 ==> (r matches Err(m) && m@ == "No matching pane found for the stream"@)
                && no_duplicates(final(self).pane_streams@)
                && forall|s: StreamType| final(self).pane_streams@.contains(s) <==> (is_subscription(s) && subscribed_somewhere(old(self).panes@, s)),
    {
        self.update_latest_klines(&stream_type)
    }

    /// Moves the panes with identifier `id` to a timeframe, in order, until
    /// one that shows candlesticks or a footprint had a kline stream moved;
    /// that stream is returned, so that its klines can be fetched again.
    #[verifier::spinoff_prover]
    pub fn set_pane_timeframe(&mut self, id: u128, tf: Timeframe) -> (r: Result<StreamType, Error>)
        ensures
            final(self).panes@.len() == old(self).panes@.len(),
            forall|j: int| 0 <= j < old(self).panes@.len() ==> if old(self).panes@[j].id == id && match spec_timeframe_stop(old(self).panes@, id) {
                Some(i) => j <= i,
                None => true,
            } {
                retimed_pane(old(self).panes@[j], #[trigger] final(self).panes@[j], tf)
            } else {
                final(self).panes@[j] == old(self).panes@[j]
            },
            match spec_timeframe_stop(old(self).panes@, id) {
                Some(i) => r matches Ok(st) && match spec_first_kline(old(self).panes@[i].stream@, 0) {
                    Some(k) => st == spec_retimed(old(self).panes@[i].stream@[k], tf),
                    None => false,
                },
                None => r matches Err(Error::UnknownError(m)) && m@ == "No pane found to change tiemframe"@,
            },
            final(self).layout_lock == old(self).layout_lock,
            final(self).pane_streams@ == old(self).pane_streams@,
    {
        let ghost initial = self.panes@;
        let mut i: usize = 0;
        while i < self.panes.len()
            invariant
                0 <= i <= self.panes@.len(),
                self.panes@.len() == initial.len(),
                initial == old(self).panes@,
                self.layout_lock == old(self).layout_lock,
                self.pane_streams@ == old(self).pane_streams@,
                forall|k: int| 0 <= k < i ==> !stops_timeframe(#[trigger] initial[k], id),
                forall|k: int| 0 <= k < i ==> if initial[k].id == id {
                    retimed_pane(initial[k], #[trigger] self.panes@[k], tf)
                } else {
                    self.panes@[k] == initial[k]
                },
                forall|k: int| i <= k < initial.len() ==> #[trigger] self.panes@[k] == initial[k],
            decreases self.panes@.len() - i,
        {
            if self.panes[i].id == id {
                let charted = match self.panes[i].content {
                    Some(ContentKind::Candlestick) | Some(ContentKind::Footprint) => true,
                    _ => false,
                };
                self.panes[i].settings.selected_timeframe = Some(tf);
                let moved = retime_streams(&mut self.panes[i].stream, tf, charted);
                let ghost p = initial[i as int];
                let ghost q = self.panes@[i as int];
                if !charted {
                    assert(q.stream@ =~= spec_retimed_streams(p.stream@, tf, false));
                }
                assert(retimed_pane(p, q, tf));
                match moved {
                    Some(st) => {
                        proof {
                            assert(stops_timeframe(p, id));
                            assert(is_first_stop(initial, id, i as int));
                            lemma_stop_unique(initial, id, i as int);
                        }
                        return Ok(st);
                    },
                    None => {},
                }
            }
            i += 1;
        }
        assert(!exists|k: int| is_first_stop(initial, id, k));
        proof { reveal_strlit("No pane found to change tiemframe"); }
        Err(Error::UnknownError(owned("No pane found to change tiemframe")))
    }

    /// Adds the real subscriptions among `streams` that are not open yet to
    /// the streams to open.
    #[verifier::spinoff_prover]
    fn add_pane_streams(&mut self, streams: &Vec<StreamType>)
        ensures
            final(self).panes@ == old(self).panes@,
            final(self).layout_lock == old(self).layout_lock,
            no_duplicates(old(self).pane_streams@) ==> no_duplicates(final(self).pane_streams@),
            forall|s: StreamType| #[trigger] final(self).pane_streams@.contains(s) <==> (
                old(self).pane_streams@.contains(s) || (is_subscription(s) && streams@.contains(s))),
    {
        let mut j: usize = 0;
        assert(streams@.take(0) =~= Seq::<StreamType>::empty());
        while j < streams.len()
            invariant
                0 <= j <= streams@.len(),
                self.panes@ == old(self).panes@,
                self.layout_lock == old(self).layout_lock,
                no_duplicates(old(self).pane_streams@) ==> no_duplicates(self.pane_streams@),
                forall|s: StreamType| #[trigger] self.pane_streams@.contains(s) <==> (
                    old(self).pane_streams@.contains(s) || (is_subscription(s) && streams@.take(j as int).contains(s))),
            decreases streams@.len() - j,
        {
            let s = streams[j];
            let present = stream_matches(&self.pane_streams, s);
            let ghost prev = self.pane_streams@;
            let subscription = match s {
                StreamType::NoStream => false,
                _ => true,
            };
            if subscription && !present {
                self.pane_streams.push(s);
                assert(self.pane_streams@ =~= prev.push(s));
                assert forall|a: int, b: int| no_duplicates(prev) && 0 <= a < b < self.pane_streams@.len()
                    implies self.pane_streams@[a] != self.pane_streams@[b] by {
                    if b == prev.len() {
                        assert(prev[a] == self.pane_streams@[a]);
                        if prev[a] == s {
                            assert(prev.contains(s));
                        }
                    }
                }
            }
            let ghost cur = streams@.take(j as int);
            let ghost nxt = streams@.take(j as int + 1);
            assert(nxt =~= cur.push(s));
            assert forall|t: StreamType| #[trigger] self.pane_streams@.contains(t) <==> (
                old(self).pane_streams@.contains(t) || (is_subscription(t) && nxt.contains(t))) by {
                lemma_contains_push(cur, s, t);
                lemma_contains_push(prev, s, t);
                if subscription && !present {
                    assert(self.pane_streams@ =~= prev.push(s));
                } else {
                    assert(self.pane_streams@ =~= prev);
                }
            }
            j += 1;
        }
        assert(streams@.take(streams@.len() as int) =~= streams@);
    }

    /// A content chosen on a pane's starter screen: the pane with
    /// identifier `pane_id` shows it and subscribes to `pane_stream`, whose
    /// subscriptions join the streams to open, and the fetches the content
    /// needs are returned, addressed to that pane. A label that names no content changes nothing.
    #[verifier::spinoff_prover]
    pub fn pane_content_selected(&mut self, content: &str, pane_id: u128, pane_stream: Vec<StreamType>) -> (r: Option<PaneFetches>)
        ensures
            final(self).layout_lock == old(self).layout_lock,
            match spec_content_from_label(content@) {
                None => r is None && final(self).panes@ == old(self).panes@
                    && final(self).pane_streams@ == old(self).pane_streams@,
                Some(kind) => {
                    &&& r matches Some(f) && f.pane_id == pane_id && f.requests@ == spec_content_fetches(kind, pane_stream@)
                    &&& final(self).panes@.len() == old(self).panes@.len()
                    &&& match spec_find(old(self).panes@, pane_id) {
                        Some(i) => {
                            &&& final(self).panes@[i].content == Some(kind)
                            &&& final(self).panes@[i].stream@ == pane_stream@
                            &&& final(self).panes@[i].id == old(self).panes@[i].id
                            &&& final(self).panes@[i].show_modal == old(self).panes@[i].show_modal
                            &&& final(self).panes@[i].settings == old(self).panes@[i].settings
                            &&& forall|j: int| 0 <= j < old(self).panes@.len() && j != i ==> #[trigger] final(self).panes@[j] == old(self).panes@[j]
                        },
                        None => final(self).panes@ == old(self).panes@,
                    }
                    &&& no_duplicates(old(self).pane_streams@) ==> no_duplicates(final(self).pane_streams@)
                    &&& forall|s: StreamType| #[trigger] final(self).pane_streams@.contains(s) <==> (
                        old(self).pane_streams@.contains(s) || (is_subscription(s) && pane_stream@.contains(s)))
                },
            },
    {
        let kind = match ContentKind::from_label(content) {
            Some(k) => k,
            None => return None,
        };
        let plan = content_fetch_plan(kind, &pane_stream);
        self.add_pane_streams(&pane_stream);
        let _ = self.set_pane_content(pane_id, Some(kind));
        let ghost mid = self.panes@;
        let _ = self.set_pane_stream(pane_id, pane_stream);
        proof {
            if let Some(i) = spec_find(old(self).panes@, pane_id) {
                assert(is_first_with_id(old(self).panes@, pane_id, i));
                assert(is_first_with_id(mid, pane_id, i));
                lemma_find_unique(mid, pane_id, i);
            } else {
                lemma_find_none(old(self).panes@, pane_id);
                assert(!exists|k: int| is_first_with_id(mid, pane_id, k));
            }
        }
        Some(PaneFetches { pane_id, requests: plan })
    }

    /// A timeframe chosen on a pane: the pane's streams move to it and, when
    /// a chart's kline stream moved, the streams to open are recomputed,
    /// that stream's klines are to be fetched and a notice says so.
    #[verifier::spinoff_prover]
    pub fn timeframe_selected(&mut self, pane_id: u128, tf: Timeframe) -> (r: Result<(PaneFetches, Notification), Error>)
        ensures
            final(self).layout_lock == old(self).layout_lock,
            final(self).panes@.len() == old(self).panes@.len(),
            forall|j: int| 0 <= j < old(self).panes@.len() ==> if old(self).panes@[j].id == pane_id && match spec_timeframe_stop(old(self).panes@, pane_id) {
                Some(i) => j <= i,
                None => true,
            } {
                retimed_pane(old(self).panes@[j], #[trigger] final(self).panes@[j], tf)
            } else {
                final(self).panes@[j] == old(self).panes@[j]
            },
            match spec_timeframe_stop(old(self).panes@, pane_id) {
                Some(i) => match spec_first_kline(old(self).panes@[i].stream@, 0) {
                    Some(k) => match old(self).panes@[i].stream@[k] {
                        StreamType::Kline { exchange, ticker, .. } =>
                            (r matches Ok((f, notice)) && f.pane_id == pane_id && f.requests@ == seq![FetchRequest::Klines { exchange, ticker, timeframe: tf }]
                                && (notice matches Notification::Info(t) && t@ == "Fetching for klines..."@))
                            && no_duplicates(final(self).pane_streams@)
                            && forall|s: StreamType| final(self).pane_streams@.contains(s) <==> (is_subscription(s) && subscribed_somewhere(final(self).panes@, s)),
                        _ => false,
                    },
                    None => false,
                },
                None => (r matches Err(Error::UnknownError(m)) && m@ == "No pane found to change tiemframe"@)
                    && final(self).pane_streams@ == old(self).pane_streams@,
            },
    {
        proof {
            reveal_strlit("No pane found to change tiemframe");
            if let Some(i) = spec_timeframe_stop(old(self).panes@, pane_id) {
                assert(is_first_stop(old(self).panes@, pane_id, i));
                lemma_first_kline_in(old(self).panes@[i].stream@, 0);
            }
        }
        match self.set_pane_timeframe(pane_id, tf) {
            Ok(StreamType::Kline { exchange, ticker, timeframe }) => {
                let _ = self.get_all_diff_streams();
                let requests = vec![FetchRequest::Klines { exchange, ticker, timeframe }];
                Ok((PaneFetches { pane_id, requests }, Notification::Info(owned("Fetching for klines..."))))
            },
            Ok(_) => Err(Error::UnknownError(owned("No pane found to change tiemframe"))),
            Err(e) => Err(e),
        }
    }
}

} // verus!
