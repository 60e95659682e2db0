use vstd::prelude::*;
use std::collections::BTreeMap;
use vstd::std_specs::btree::{spec_btree_map_iter, increasing_seq};
use vstd::std_specs::iter::IteratorSpec;
use vstd::std_specs::cmp::OrdSpec;
use crate::charts::{round_to_step, spec_round_to_step};

verus! {

broadcast use {vstd::std_specs::btree::group_btree_axioms, vstd::laws_cmp::group_laws_cmp};

/// Keys listed in increasing map order are strictly increasing integers.
proof fn lemma_increasing_keys(keys: Seq<i64>)
    requires
        increasing_seq(keys),
    ensures
        forall|i: int, j: int| 0 <= i < j < keys.len() ==> keys[i] < keys[j],
{
    assert(vstd::laws_cmp::obeys_cmp::<i64>());
    assert forall|i: int, j: int| 0 <= i < j < keys.len() implies keys[i] < keys[j] by {
        assert(keys[i].cmp_spec(&keys[j]) is Less);
    }
}

/// The keys of a time-keyed map, oldest first.
pub fn ordered_keys<V>(m: &BTreeMap<i64, V>) -> (ks: Vec<i64>)
    ensures
        forall|i: int, j: int| 0 <= i < j < ks@.len() ==> ks@[i] < ks@[j],
        forall|k: i64| m@.contains_key(k) <==> ks@.contains(k),
{
    let mut ks: Vec<i64> = Vec::new();
    assert(vstd::laws_cmp::obeys_cmp::<i64>());
    let ghost sp = spec_btree_map_iter(m).remaining();
    for kv in it: m.iter()
        invariant
            sp == spec_btree_map_iter(m).remaining(),
            it.seq() == sp,
            ks@.len() == it.index(),
            forall|i: int| 0 <= i < it.index() ==> ks@[i] == *sp[i].0,
    {
        let (k, _) = kv;
        ks.push(*k);
    }
    let ghost keys = sp.map_values(|kv: (&i64, &V)| *kv.0);
    assert(increasing_seq(keys));
    assert(ks@ =~= keys);
    proof { lemma_increasing_keys(keys); }
    assert forall|k: i64| m@.contains_key(k) <==> ks@.contains(k) by {
        if m@.contains_key(k) {
            assert(sp.contains((&k, &m@[k])));
            let i = choose|i: int| 0 <= i < sp.len() && sp[i] == (&k, &m@[k]);
            assert(ks@[i] == k);
        }
        if ks@.contains(k) {
            let i = choose|i: int| 0 <= i < ks@.len() && ks@[i] == k;
            assert(m@.contains_key(*sp[i].0));
        }
    }
    ks
}


/// `newer` keeps only entries of `older`, and every entry it dropped is
/// older than every entry it kept.
pub open spec fn drops_only_oldest<V>(older: Map<i64, V>, newer: Map<i64, V>) -> bool {
    &&& newer.submap_of(older)
    &&& forall|gone: i64, kept: i64|
        older.contains_key(gone) && !newer.contains_key(gone) && newer.contains_key(kept) ==> gone < kept
}

/// Drops the oldest entries of a time-keyed map until `keep` remain.
pub fn keep_newest<V>(m: &mut BTreeMap<i64, V>, keep: usize)
    requires
        keep <= old(m)@.len(),
    ensures
        final(m)@.len() == keep,
        drops_only_oldest(old(m)@, final(m)@),
{
    let ks = ordered_keys(m);
    let ghost start = m@;
    proof {
        lemma_keys_cover(start, ks@);
    }
    let excess = ks.len() - keep;
    let mut i: usize = 0;
    assert forall|k: i64| start.contains_key(k) implies (m@.contains_key(k) <==> (exists|j: int| 0 <= j < ks@.len() && ks@[j] == k)) by {
        assert(ks@.contains(k));
    }
    while i < excess
        invariant
            0 <= i <= excess,
            excess + keep == ks@.len(),
            ks@.len() == start.len(),
            forall|a: int, b: int| 0 <= a < b < ks@.len() ==> ks@[a] < ks@[b],
            forall|k: i64| start.contains_key(k) <==> ks@.contains(k),
            m@.len() == start.len() - i,
            m@.submap_of(start),
            forall|k: i64| start.contains_key(k) ==> (m@.contains_key(k) <==> (exists|j: int| i <= j < ks@.len() && ks@[j] == k)),
        decreases excess - i,
    {
        let k = ks[i];
        let ghost before = m@;
        assert(ks@.contains(k));
        assert(start.contains_key(k));
        assert(exists|j: int| i <= j < ks@.len() && ks@[j] == k) by {
            assert(ks@[i as int] == k);
        }
        assert(before.contains_key(k));
        m.remove(&k);
        assert(m@ == before.remove(k));
        assert forall|t: i64| start.contains_key(t) implies (m@.contains_key(t) <==> (exists|j: int| i + 1 <= j < ks@.len() && ks@[j] == t)) by {
            if m@.contains_key(t) {
                let j = choose|j: int| i <= j < ks@.len() && ks@[j] == t;
                assert(j != i);
            }
            if exists|j: int| i + 1 <= j < ks@.len() && ks@[j] == t {
                let j = choose|j: int| i + 1 <= j < ks@.len() && ks@[j] == t;
                assert(ks@[i as int] < ks@[j]);
                assert(before.contains_key(t));
            }
        }
        i += 1;
    }
    assert forall|gone: i64, kept: i64|
        start.contains_key(gone) && !m@.contains_key(gone) && m@.contains_key(kept) implies gone < kept by {
        assert(ks@.contains(gone));
        let g = choose|j: int| 0 <= j < ks@.len() && ks@[j] == gone;
        assert(start.contains_key(kept));
        let h = choose|j: int| excess <= j < ks@.len() && ks@[j] == kept;
        if g >= excess {
            assert(exists|j: int| excess <= j < ks@.len() && ks@[j] == gone);
        }
        assert(g < h);
    }
}

/// Every key of the map is one of the listed keys and the other way round,
/// and there are as many of them as entries.
proof fn lemma_keys_cover<V>(m: Map<i64, V>, ks: Seq<i64>)
    requires
        m.dom().finite(),
        forall|a: int, b: int| 0 <= a < b < ks.len() ==> ks[a] < ks[b],
        forall|k: i64| m.contains_key(k) <==> ks.contains(k),
    ensures
        ks.len() == m.len(),
{
    assert(ks.no_duplicates());
    ks.unique_seq_to_set();
    assert(ks.to_set() =~= m.dom());
}

/// Frames the heatmap keeps at most before trimming.
pub open spec fn heatmap_frame_limit() -> int {
    3600
}

/// Frames the heatmap keeps after trimming.
pub open spec fn heatmap_frame_floor() -> int {
    3000
}

/// Stores a heatmap frame under its time and, once more than 3600 frames are
/// held, drops the oldest until 3000 remain.
pub fn insert_and_trim<V>(m: &mut BTreeMap<i64, V>, time: i64, frame: V)
    ensures
        old(m)@.insert(time, frame).len() <= heatmap_frame_limit() ==> final(m)@ == old(m)@.insert(time, frame),
        old(m)@.insert(time, frame).len() > heatmap_frame_limit() ==> {
            &&& final(m)@.len() == heatmap_frame_floor()
            &&& drops_only_oldest(old(m)@.insert(time, frame), final(m)@)
        },
{
    m.insert(time, frame);
    if m.len() > 3600 {
        keep_newest(m, 3000);
    }
}


/// Start (ms) of the footprint candle that a time falls in: the time rounded
/// toward zero to a whole number of `timeframe` minutes.
pub fn footprint_bucket(time: i64, timeframe: u16) -> (r: i64)
    requires
        timeframe > 0,
    ensures
        r == spec_round_to_step(time as int, 60_000 * timeframe as int),
{
    let aggregate_time: i64 = 1000 * 60 * timeframe as i64;
    round_to_step(time, aggregate_time)
}

/// Start (ms) of the 100 ms heatmap frame that a time falls in.
pub fn heatmap_bucket(time: i64) -> (r: i64)
    ensures
        r == spec_round_to_step(time as int, 100),
{
    round_to_step(time, 100)
}

/// Adds an entry under `key` unless the key is already present.
pub fn insert_if_absent<V>(m: &mut BTreeMap<i64, V>, key: i64, value: V)
    ensures
        old(m)@.contains_key(key) ==> final(m)@ == old(m)@,
        !old(m)@.contains_key(key) ==> final(m)@ == old(m)@.insert(key, value),
{
    if !m.contains_key(&key) {
        m.insert(key, value);
    }
}

/// Appends the incoming items and keeps only the newest `limit` of all.
pub fn append_keep_last<T>(buf: &mut Vec<T>, incoming: Vec<T>, limit: usize)
    ensures
        (old(buf)@ + incoming@).len() > limit ==> final(buf)@ == (old(buf)@ + incoming@).skip((old(buf)@ + incoming@).len() - limit),
        (old(buf)@ + incoming@).len() <= limit ==> final(buf)@ == old(buf)@ + incoming@,
{
    let mut incoming = incoming;
    let ghost all = old(buf)@ + incoming@;
    buf.append(&mut incoming);
    assert(buf@ =~= all);
    if buf.len() > limit {
        let drain_to = buf.len() - limit;
        let tail = buf.split_off(drain_to);
        *buf = tail;
    }
}

/// Trades the time-and-sales list holds at most.
pub open spec fn recent_trades_limit() -> int {
    2000
}

/// Appends a batch of trades to the time-and-sales list, keeping the newest 2000.
pub fn push_recent_trades<T>(buf: &mut Vec<T>, incoming: Vec<T>)
    ensures
        (old(buf)@ + incoming@).len() > recent_trades_limit() ==> final(buf)@ == (old(buf)@ + incoming@).skip((old(buf)@ + incoming@).len() - recent_trades_limit()),
        (old(buf)@ + incoming@).len() <= recent_trades_limit() ==> final(buf)@ == old(buf)@ + incoming@,
{
    append_keep_last(buf, incoming, 2000)
}

/// How many depth levels the heatmap shows after a vertical zoom step, or
/// `None` when the latest frame has no bids or no asks. The depth of the
/// latest frame is the larger side, counted as 0 when it does not fit an
/// `i32`. Zooming out (`shrinking` false) adds `change` levels up to that
/// depth, zooming in removes `change` levels down to 10; nothing changes when
/// the bound is already reached.
pub open spec fn spec_depth_levels(y: int, change: int, shrinking: bool, bids_len: int, asks_len: int) -> Option<int> {
    let longest = if bids_len >= asks_len { bids_len } else { asks_len };
    let max_len = if longest <= i32::MAX { longest } else { 0 };
    if bids_len == 0 || asks_len == 0 || max_len == 0 {
        None
    } else if !shrinking {
        if y < max_len {
            Some(if y + change <= max_len { y + change } else { max_len })
        } else {
            Some(y)
        }
    } else {
        if y > 10 {
            Some(if y - change >= 10 { y - change } else { 10 })
        } else {
            Some(y)
        }
    }
}

/// One vertical zoom step of the heatmap's order-book depth.
pub fn rescale_depth_levels(y: i32, change: i32, shrinking: bool, bids_len: usize, asks_len: usize) -> (r: Option<i32>)
    requires
        !shrinking ==> i32::MIN <= y + change <= i32::MAX,
        shrinking ==> i32::MIN <= y - change <= i32::MAX,
    ensures
        r == match spec_depth_levels(y as int, change as int, shrinking, bids_len as int, asks_len as int) {
            Some(v) => Some(v as i32),
            None => None::<i32>,
        },
{
    let longest = if bids_len >= asks_len { bids_len } else { asks_len };
    let max_len: i32 = if longest <= 2147483647 { longest as i32 } else { 0 };
    if bids_len == 0 || asks_len == 0 || max_len == 0 {
        return None;
    }
    if !shrinking {
        if y < max_len {
            let grown = y + change;
            Some(if grown <= max_len { grown } else { max_len })
        } else {
            Some(y)
        }
    } else {
        if y > 10 {
            let shrunk = y - change;
            Some(if shrunk >= 10 { shrunk } else { 10 })
        } else {
            Some(y)
        }
    }
}

/// Seconds and nanoseconds of a millisecond timestamp, as the trade list
/// splits it for display.
pub fn trade_time_parts(time: i64) -> (r: (i64, u32))
    requires
        time >= 0 || time % 1000 == 0,
    ensures
        r.0 == time / 1000,
        r.1 == (time % 1000) * 1_000_000,
{
    let secs = time / 1000;
    let millis = (time % 1000) as u32;
    (secs, millis * 1_000_000)
}

} // verus!
