use vstd::prelude::*;
use std::collections::VecDeque;
use crate::market::FeedLatency;
use crate::charts::div_trunc;

verus! {

/// Sum of the order-book latencies of a run of measurements.
pub open spec fn spec_depth_sum(s: Seq<FeedLatency>) -> int
    decreases s.len(),
{
    if s.len() == 0 {
        0
    } else {
        spec_depth_sum(s.drop_last()) + s.last().depth_latency
    }
}

/// Sum of the trade latencies present in a run of measurements.
pub open spec fn spec_trade_sum(s: Seq<FeedLatency>) -> int
    decreases s.len(),
{
    if s.len() == 0 {
        0
    } else {
        spec_trade_sum(s.drop_last()) + match s.last().trade_latency {
            Some(t) => t as int,
            None => 0,
        }
    }
}

/// Number of measurements that carry a trade latency.
pub open spec fn spec_trade_count(s: Seq<FeedLatency>) -> int
    decreases s.len(),
{
    if s.len() == 0 {
        0
    } else {
        spec_trade_count(s.drop_last()) + if s.last().trade_latency is Some { 1int } else { 0int }
    }
}

/// Every running total of both latency sums fits in an `i64`.
pub open spec fn latency_sums_fit(s: Seq<FeedLatency>) -> bool {
    forall|k: int| 0 <= k <= s.len() ==> {
        &&& i64::MIN <= #[trigger] spec_depth_sum(s.take(k)) <= i64::MAX
        &&& i64::MIN <= spec_trade_sum(s.take(k)) <= i64::MAX
    }
}

/// At most this many measurements are kept.
pub open spec fn latency_cache_limit() -> int {
    100
}

/// The measurements kept after trimming: the newest hundred.
pub open spec fn spec_trimmed(s: Seq<FeedLatency>) -> Seq<FeedLatency> {
    if s.len() > latency_cache_limit() {
        s.skip(s.len() - latency_cache_limit())
    } else {
        s
    }
}

/// The averaged (order-book, trade) latency shown in the status bar, when
/// both kinds of measurement are present.
pub open spec fn spec_average_latency(s: Seq<FeedLatency>) -> Option<(u32, u32)> {
    if s.len() > 0 && spec_trade_count(s) > 0 {
        Some((
            div_trunc(spec_depth_sum(s), s.len() as int) as u32,
            div_trunc(spec_trade_sum(s), spec_trade_count(s)) as u32,
        ))
    } else {
        None
    }
}

/// Rolling feed-latency measurements and their last averages.
pub struct LatencyMonitor {
    pub exchange_latency: Option<(u32, u32)>,
    pub feed_latency_cache: VecDeque<FeedLatency>,
}

impl LatencyMonitor {
    /// No measurement and no average yet.
    pub fn new() -> (m: LatencyMonitor)
        ensures
            m.exchange_latency is None,
            m.feed_latency_cache@.len() == 0,
    {
        LatencyMonitor { exchange_latency: None, feed_latency_cache: VecDeque::new() }
    }

    /// Recomputes the averages over the kept measurements (keeping the last
    /// averages when either kind is missing), then drops the oldest
    /// measurements beyond the newest hundred.
    pub fn update_exchange_latency(&mut self)
        requires
            latency_sums_fit(old(self).feed_latency_cache@),
            old(self).feed_latency_cache@.len() <= i64::MAX,
        ensures
            final(self).exchange_latency == match spec_average_latency(old(self).feed_latency_cache@) {
                Some(avg) => Some(avg),
                None => old(self).exchange_latency,
            },
            final(self).feed_latency_cache@ == spec_trimmed(old(self).feed_latency_cache@),
    {
        let mut depth_sum: i64 = 0;
        let mut depth_count: i64 = 0;
        let mut trade_sum: i64 = 0;
        let mut trade_count: i64 = 0;
        let n = self.feed_latency_cache.len();
        let ghost s = self.feed_latency_cache@;
        let mut i: usize = 0;
        assert(s.take(0) =~= Seq::<FeedLatency>::empty());
        while i < n
            invariant
                s == self.feed_latency_cache@,
                n == s.len(),
                n <= i64::MAX,
                latency_sums_fit(s),
                0 <= i <= n,
                depth_sum == spec_depth_sum(s.take(i as int)),
                depth_count == i,
                trade_sum == spec_trade_sum(s.take(i as int)),
                trade_count == spec_trade_count(s.take(i as int)),
                0 <= trade_count <= i,
            decreases n - i,
        {
            let f = self.feed_latency_cache[i];
            assert(s.take(i as int + 1).drop_last() =~= s.take(i as int));
            assert(s.take(i as int + 1).last() == f);
            assert(i64::MIN <= spec_depth_sum(s.take(i as int + 1)) <= i64::MAX);
            depth_sum = depth_sum + f.depth_latency;
            depth_count = depth_count + 1;
            match f.trade_latency {
                Some(t) => {
                    trade_sum = trade_sum + t;
                    trade_count = trade_count + 1;
                },
                None => {},
            }
            i += 1;
        }
        assert(s.take(n as int) =~= s);
        if depth_count > 0 && trade_count > 0 {
            let avg_depth = depth_sum / depth_count;
            let avg_trade = trade_sum / trade_count;
            assert(avg_depth == div_trunc(depth_sum as int, depth_count as int));
            assert(avg_trade == div_trunc(trade_sum as int, trade_count as int));
            self.exchange_latency = Some((avg_depth as u32, avg_trade as u32));
        }
        let ghost before = self.feed_latency_cache@;
        let ghost averaged = self.exchange_latency;
        while self.feed_latency_cache.len() > 100
            invariant
                before == s,
                self.exchange_latency == averaged,
                self.feed_latency_cache@.len() >= 100 ==> self.feed_latency_cache@ == s.skip(s.len() - self.feed_latency_cache@.len()),
                s.len() <= 100 ==> self.feed_latency_cache@ == s,
                s.len() > 100 ==> self.feed_latency_cache@.len() >= 100,
                self.feed_latency_cache@.len() <= s.len(),
            decreases self.feed_latency_cache@.len(),
        {
            let ghost cur = self.feed_latency_cache@;
            self.feed_latency_cache.pop_front();
            assert(self.feed_latency_cache@ =~= s.skip(s.len() - self.feed_latency_cache@.len()));
        }
    }
}

/// Order-book latency totals add up over consecutive runs of measurements.
pub proof fn lemma_depth_sum_adds(s: Seq<FeedLatency>, t: Seq<FeedLatency>)
    ensures
        spec_depth_sum(s + t) == spec_depth_sum(s) + spec_depth_sum(t),
    decreases t.len(),
{
    if t.len() == 0 {
        assert(s + t =~= s);
    } else {
        lemma_depth_sum_adds(s, t.drop_last());
        assert((s + t).drop_last() =~= s + t.drop_last());
    }
}

/// Trade latency totals and counts add up over consecutive runs of
/// measurements.
pub proof fn lemma_trade_totals_add(s: Seq<FeedLatency>, t: Seq<FeedLatency>)
    ensures
        spec_trade_sum(s + t) == spec_trade_sum(s) + spec_trade_sum(t),
        spec_trade_count(s + t) == spec_trade_count(s) + spec_trade_count(t),
    decreases t.len(),
{
    if t.len() == 0 {
        assert(s + t =~= s);
    } else {
        lemma_trade_totals_add(s, t.drop_last());
        assert((s + t).drop_last() =~= s + t.drop_last());
    }
}

/// A single measurement contributes its order-book latency to the
/// order-book total whether or not it carries a trade latency, and its
/// trade latency, if any, to the trade total and count.
pub proof fn lemma_single_measurement(f: FeedLatency)
    ensures
        spec_depth_sum(seq![f]) == f.depth_latency,
        spec_trade_sum(seq![f]) == match f.trade_latency { Some(t) => t as int, None => 0 },
        spec_trade_count(seq![f]) == if f.trade_latency is Some { 1int } else { 0int },
{
    let one = seq![f];
    assert(one.drop_last() =~= Seq::<FeedLatency>::empty());
    assert(one.last() == f);
    assert(spec_depth_sum(one.drop_last()) == 0);
    assert(spec_trade_sum(one.drop_last()) == 0);
    assert(spec_trade_count(one.drop_last()) == 0);
}

/// Order-book totals only depend on the order-book latencies.
proof fn lemma_depth_sum_same(s: Seq<FeedLatency>, t: Seq<FeedLatency>)
    requires
        s.len() == t.len(),
        forall|i: int| 0 <= i < s.len() ==> (#[trigger] s[i]).depth_latency == t[i].depth_latency,
    ensures
        spec_depth_sum(s) == spec_depth_sum(t),
    decreases s.len(),
{
    if s.len() > 0 {
        lemma_depth_sum_same(s.drop_last(), t.drop_last());
    }
}

/// The order-book average is taken over every kept measurement: two caches
/// with the same order-book latencies show the same order-book average,
/// whichever of their measurements carry a trade latency.
pub proof fn lemma_depth_average_ignores_trades(s: Seq<FeedLatency>, t: Seq<FeedLatency>)
    requires
        s.len() == t.len(),
        forall|i: int| 0 <= i < s.len() ==> (#[trigger] s[i]).depth_latency == t[i].depth_latency,
        spec_trade_count(s) > 0,
        spec_trade_count(t) > 0,
    ensures
        spec_average_latency(s) matches Some((a, _)) && spec_average_latency(t) matches Some((b, _)) && a == b,
{
    lemma_depth_sum_same(s, t);
}

/// Order-book total of measurements that all have order-book latency `d`.
proof fn lemma_depth_sum_constant(s: Seq<FeedLatency>, d: i64)
    requires
        forall|i: int| 0 <= i < s.len() ==> (#[trigger] s[i]).depth_latency == d,
    ensures
        spec_depth_sum(s) == d * s.len(),
    decreases s.len(),
{
    if s.len() > 0 {
        lemma_depth_sum_constant(s.drop_last(), d);
        assert(d * (s.len() - 1) + d == d * s.len()) by (nonlinear_arith);
    }
}

/// Trade total of measurements that all carry trade latency `d`.
proof fn lemma_trade_sum_constant(s: Seq<FeedLatency>, d: i64)
    requires
        forall|i: int| 0 <= i < s.len() ==> (#[trigger] s[i]).trade_latency == Some(d),
    ensures
        spec_trade_sum(s) == d * s.len(),
        spec_trade_count(s) == s.len(),
    decreases s.len(),
{
    if s.len() > 0 {
        lemma_trade_sum_constant(s.drop_last(), d);
        assert(d * (s.len() - 1) + d == d * s.len()) by (nonlinear_arith);
    }
}

/// Truncated division of a multiple by its factor gives the other factor.
proof fn lemma_div_trunc_multiple(d: int, n: int)
    requires
        n > 0,
    ensures
        div_trunc(d * n, n) == d,
{
    if d >= 0 {
        assert(d * n >= 0) by (nonlinear_arith) requires d >= 0, n > 0;
        assert((d * n) / n == d) by (nonlinear_arith) requires n > 0;
    } else {
        assert(d * n < 0) by (nonlinear_arith) requires d < 0, n > 0;
        assert(((-d) * n) / n == -d) by (nonlinear_arith) requires n > 0;
        assert(-(d * n) == (-d) * n) by (nonlinear_arith);
    }
}

/// Averages of equal values are those values: when every kept measurement
/// has order-book latency `d` and trade latency `t`, the status bar shows
/// `(d, t)`.
pub proof fn lemma_average_of_equal_values(s: Seq<FeedLatency>, d: i64, t: i64)
    requires
        s.len() > 0,
        forall|i: int| 0 <= i < s.len() ==> (#[trigger] s[i]).depth_latency == d,
        forall|i: int| 0 <= i < s.len() ==> (#[trigger] s[i]).trade_latency == Some(t),
    ensures
        spec_average_latency(s) == Some((d as u32, t as u32)),
{
    lemma_depth_sum_constant(s, d);
    lemma_trade_sum_constant(s, t);
    lemma_div_trunc_multiple(d as int, s.len() as int);
    lemma_div_trunc_multiple(t as int, s.len() as int);
}

/// Trimming keeps the newest hundred measurements, in order: the kept run
/// is the last `min(len, 100)` measurements.
pub proof fn lemma_trimmed_keeps_newest(s: Seq<FeedLatency>)
    ensures
        spec_trimmed(s).len() == if s.len() > 100 { 100 } else { s.len() },
        forall|i: int| 0 <= i < spec_trimmed(s).len() ==>
            #[trigger] spec_trimmed(s)[i] == s[s.len() - spec_trimmed(s).len() + i],
{
}

} // verus!
