use vstd::prelude::*;

pub mod candlesticks;

verus! {

/// Rust's integer `/` for a positive divisor: the quotient rounded toward zero.
pub open spec fn div_trunc(a: int, b: int) -> int {
    if a >= 0 {
        a / b
    } else {
        -((-a) / b)
    }
}

/// The label step chosen from `steps` (largest first) for a visible span
/// `duration`: the first step that still leaves at least `labels` labels;
/// when none does, the last step not longer than the span if `track_within`
/// holds, and otherwise `fallback`.
pub open spec fn select_step(
    steps: Seq<i64>,
    duration: int,
    labels: int,
    fallback: i64,
    track_within: bool,
) -> i64
    decreases steps.len(),
{
    if steps.len() == 0 {
        fallback
    } else if div_trunc(duration, steps[0] as int) >= labels {
        steps[0]
    } else {
        select_step(
            steps.drop_first(),
            duration,
            labels,
            if track_within && steps[0] <= duration { steps[0] } else { fallback },
            track_within,
        )
    }
}

/// Every step of the table is a positive number of milliseconds.
pub open spec fn all_positive(steps: Seq<i64>) -> bool {
    forall|i: int| 0 <= i < steps.len() ==> steps[i] > 0
}

/// Scans a step table as the axis code does and returns the chosen step.
pub fn pick_step(steps: &Vec<i64>, duration: i64, labels: i64, track_within: bool) -> (r: i64)
    requires
        steps@.len() > 0,
        all_positive(steps@),
    ensures
        r == select_step(steps@, duration as int, labels as int, steps@[0], track_within),
{
    let mut selected = steps[0];
    let mut i: usize = 0;
    assert(steps@.skip(0) =~= steps@);
    while i < steps.len()
        invariant
            0 <= i <= steps@.len(),
            all_positive(steps@),
            select_step(steps@, duration as int, labels as int, steps@[0], track_within)
                == select_step(steps@.skip(i as int), duration as int, labels as int, selected, track_within),
        decreases steps@.len() - i,
    {
        let step = steps[i];
        assert(steps@.skip(i as int)[0] == step);
        assert(steps@.skip(i as int).drop_first() =~= steps@.skip(i as int + 1));
        let quotient = duration / step;
        assert(quotient == div_trunc(duration as int, step as int));
        if quotient >= labels {
            return step;
        }
        if track_within && step <= duration {
            selected = step;
        }
        i += 1;
    }
    assert(steps@.skip(i as int).len() == 0);
    selected
}


/// X-axis label steps (ms) for one-minute candles, largest first.
pub open spec fn spec_m1_steps() -> Seq<i64> {
    seq![43_200_000, 10_800_000, 3_600_000, 1_800_000, 900_000, 600_000, 300_000, 120_000, 60_000]
}

/// X-axis label steps (ms) for three-minute candles, largest first.
pub open spec fn spec_m3_steps() -> Seq<i64> {
    seq![86_400_000, 43_200_000, 10_800_000, 7_200_000, 3_600_000, 1_800_000, 900_000, 540_000, 180_000]
}

/// X-axis label steps (ms) for five-minute and longer candles, largest first.
pub open spec fn spec_m5_steps() -> Seq<i64> {
    seq![86_400_000, 43_200_000, 28_800_000, 14_400_000, 7_200_000, 3_600_000, 1_800_000, 900_000, 300_000]
}

/// X-axis label steps (ms) of the tick-by-tick heatmap, largest first.
pub open spec fn spec_heatmap_steps() -> Seq<i64> {
    seq![60_000, 30_000, 15_000, 10_000, 5_000, 2_000, 1_000, 500]
}

/// The step table used for a candle length given in minutes.
pub open spec fn spec_steps_for_minutes(minutes: int) -> Seq<i64> {
    if minutes == 1 {
        spec_m1_steps()
    } else if minutes == 3 {
        spec_m3_steps()
    } else if minutes == 5 {
        spec_m5_steps()
    } else if minutes == 15 {
        spec_m5_steps().take(7)
    } else if minutes == 30 {
        spec_m5_steps().take(6)
    } else {
        spec_m1_steps()
    }
}

/// The step chosen for a candle chart of `minutes`-long candles.
pub open spec fn spec_candle_step(minutes: int, duration: int, labels: int) -> i64 {
    let steps = spec_steps_for_minutes(minutes);
    select_step(steps, duration, labels, steps[0], true)
}

/// The step chosen for the axis: candle tables when a timeframe is given,
/// the heatmap table otherwise.
pub open spec fn spec_time_step(duration: int, labels: int, timeframe: Option<u16>) -> i64 {
    match timeframe {
        Some(tf) => spec_candle_step(tf as int, duration, labels),
        None => select_step(spec_heatmap_steps(), duration, labels, 60_000, false),
    }
}

/// The first label time: `earliest` rounded toward zero to a multiple of `step`.
pub open spec fn spec_round_to_step(earliest: int, step: int) -> int {
    div_trunc(earliest, step) * step
}

/// Executable copy of a step table for candles of `minutes` minutes.
pub fn steps_for_minutes(minutes: i64) -> (v: Vec<i64>)
    ensures
        v@ == spec_steps_for_minutes(minutes as int),
        v@.len() > 0,
        all_positive(v@),
{
    let m1: Vec<i64> = vec![
        1000 * 60 * 720, 1000 * 60 * 180, 1000 * 60 * 60, 1000 * 60 * 30, 1000 * 60 * 15,
        1000 * 60 * 10, 1000 * 60 * 5, 1000 * 60 * 2, 60 * 1000,
    ];
    let m3: Vec<i64> = vec![
        1000 * 60 * 1440, 1000 * 60 * 720, 1000 * 60 * 180, 1000 * 60 * 120, 1000 * 60 * 60,
        1000 * 60 * 30, 1000 * 60 * 15, 1000 * 60 * 9, 1000 * 60 * 3,
    ];
    let m5: Vec<i64> = vec![
        1000 * 60 * 1440, 1000 * 60 * 720, 1000 * 60 * 480, 1000 * 60 * 240, 1000 * 60 * 120,
        1000 * 60 * 60, 1000 * 60 * 30, 1000 * 60 * 15, 1000 * 60 * 5,
    ];
    assert(m1@ =~= spec_m1_steps());
    assert(m3@ =~= spec_m3_steps());
    assert(m5@ =~= spec_m5_steps());
    if minutes == 1 {
        m1
    } else if minutes == 3 {
        m3
    } else if minutes == 5 {
        m5
    } else if minutes == 15 {
        let mut v = m5;
        v.truncate(7);
        assert(v@ =~= spec_m5_steps().take(7));
        v
    } else if minutes == 30 {
        let mut v = m5;
        v.truncate(6);
        assert(v@ =~= spec_m5_steps().take(6));
        v
    } else {
        m1
    }
}

/// Executable copy of the heatmap step table.
pub fn heatmap_steps() -> (v: Vec<i64>)
    ensures
        v@ == spec_heatmap_steps(),
        all_positive(v@),
{
    let v: Vec<i64> = vec![60 * 1000, 30 * 1000, 15 * 1000, 10 * 1000, 5 * 1000, 2 * 1000, 1000, 500];
    assert(v@ =~= spec_heatmap_steps());
    v
}

/// Rounds `earliest` toward zero to a multiple of the positive `step`.
pub fn round_to_step(earliest: i64, step: i64) -> (r: i64)
    requires
        step > 0,
    ensures
        r == spec_round_to_step(earliest as int, step as int),
{
    let q = earliest / step;
    assert(q == div_trunc(earliest as int, step as int));
    proof {
        lemma_round_bounds(earliest as int, step as int);
    }
    q * step
}

/// The magnitude of the rounded value never exceeds that of the input.
proof fn lemma_round_bounds(e: int, s: int)
    requires
        s > 0,
    ensures
        e >= 0 ==> 0 <= spec_round_to_step(e, s) <= e,
        e < 0 ==> e <= spec_round_to_step(e, s) <= 0,
{
    if e >= 0 {
        assert(0 <= (e / s) * s <= e) by (nonlinear_arith)
            requires e >= 0, s > 0;
    } else {
        let n = -e;
        assert(0 <= (n / s) * s <= n) by (nonlinear_arith)
            requires n > 0, s > 0;
        assert(spec_round_to_step(e, s) == -((n / s) * s)) by (nonlinear_arith)
            requires n == -e, s > 0, e < 0;
    }
}

/// Chooses the x-axis label step (ms) and the first label time for the
/// visible span `earliest..latest`: candle tables when `timeframe` (minutes)
/// is given, the sub-minute heatmap table otherwise.
pub fn calculate_time_step(earliest: i64, latest: i64, labels_can_fit: i32, timeframe: Option<u16>) -> (r: (i64, i64))
    requires
        i64::MIN <= latest - earliest <= i64::MAX,
    ensures
        r.0 == spec_time_step(latest - earliest, labels_can_fit as int, timeframe),
        r.0 > 0,
        r.1 == spec_round_to_step(earliest as int, r.0 as int),
{
    let duration = latest - earliest;
    let labels = labels_can_fit as i64;
    let selected_step = match timeframe {
        Some(tf) => {
            let steps = steps_for_minutes(tf as i64);
            let s = pick_step(&steps, duration, labels, true);
            proof { lemma_select_step_member(steps@, duration as int, labels as int, steps@[0], true); }
            s
        },
        None => {
            let steps = heatmap_steps();
            let s = pick_step(&steps, duration, labels, false);
            proof { lemma_select_step_member(steps@, duration as int, labels as int, steps@[0], false); }
            s
        },
    };
    let rounded_earliest = round_to_step(earliest, selected_step);
    (selected_step, rounded_earliest)
}

/// Number of axis labels `start, start + step, ...` that do not pass `end`.
pub open spec fn spec_label_count(start: int, end: int, step: int) -> int {
    if start > end {
        0
    } else {
        (end - start) / step + 1
    }
}

/// The label times of an axis: `start`, `start + step`, ... up to `end`
/// inclusive, in increasing order.
pub fn label_times(start: i64, end: i64, step: i64) -> (v: Vec<i64>)
    requires
        step > 0,
        end + step <= i64::MAX,
    ensures
        v@.len() == spec_label_count(start as int, end as int, step as int),
        forall|k: int| 0 <= k < v@.len() ==> #[trigger] v@[k] == start + k * step,
{
    let mut v: Vec<i64> = Vec::new();
    let mut time = start;
    assert(start + 0 * step == start);
    while time <= end
        invariant
            step > 0,
            end + step <= i64::MAX,
            time == start + v@.len() * step,
            v@.len() > 0 ==> time <= end + step,
            v@.len() > 0 ==> start <= end,
            forall|k: int| 0 <= k < v@.len() ==> #[trigger] v@[k] == start + k * step,
        decreases end + step - time,
    {
        v.push(time);
        proof {
            assert(time + step == start + (v@.len() as int) * step) by (nonlinear_arith)
                requires time == start + (v@.len() - 1) * step;
        }
        time = time + step;
    }
    proof {
        if v@.len() > 0 {
            let n = v@.len() as int;
            let (s0, e0, st, t0) = (start as int, end as int, step as int, time as int);
            assert(n - 1 == (e0 - s0) / st) by (nonlinear_arith)
                requires
                    t0 == s0 + n * st,
                    t0 > e0,
                    t0 <= e0 + st,
                    st > 0,
                    s0 <= e0;
        } else {
            assert(start > end);
        }
    }
    v
}

/// The first label time is a whole multiple of the step, lies on the same
/// side of zero as `earliest`, and is less than one step away from it.
pub proof fn lemma_round_to_step(earliest: int, step: int)
    requires
        step > 0,
    ensures
        spec_round_to_step(earliest, step) % step == 0,
        earliest >= 0 ==> spec_round_to_step(earliest, step) <= earliest < spec_round_to_step(earliest, step) + step,
        earliest < 0 ==> spec_round_to_step(earliest, step) - step < earliest <= spec_round_to_step(earliest, step),
{
    let r = spec_round_to_step(earliest, step);
    if earliest >= 0 {
        let q = earliest / step;
        assert(r == q * step);
        assert(earliest == q * step + earliest % step) by (nonlinear_arith)
            requires step > 0, q == earliest / step;
        vstd::arithmetic::div_mod::lemma_mod_multiples_basic(q, step);
    } else {
        let n = -earliest;
        let q = n / step;
        assert(r == (-q) * step) by (nonlinear_arith)
            requires r == div_trunc(earliest, step) * step, div_trunc(earliest, step) == -q;
        assert(n == q * step + n % step) by (nonlinear_arith)
            requires step > 0, q == n / step;
        assert(r == -(q * step)) by (nonlinear_arith)
            requires r == (-q) * step;
        vstd::arithmetic::div_mod::lemma_mod_multiples_basic(-q, step);
    }
}

/// The chosen step is the fallback or one of the table's steps.
pub proof fn lemma_select_step_member(
    steps: Seq<i64>,
    duration: int,
    labels: int,
    fallback: i64,
    track_within: bool,
)
    ensures
        select_step(steps, duration, labels, fallback, track_within) == fallback
            || steps.contains(select_step(steps, duration, labels, fallback, track_within)),
    decreases steps.len(),
{
    if steps.len() > 0 {
        let next_fb = if track_within && steps[0] <= duration { steps[0] } else { fallback };
        lemma_select_step_member(steps.drop_first(), duration, labels, next_fb, track_within);
        let r = select_step(steps.drop_first(), duration, labels, next_fb, track_within);
        if steps.drop_first().contains(r) {
            let k = choose|k: int| 0 <= k < steps.drop_first().len() && steps.drop_first()[k] == r;
            assert(steps[k + 1] == r);
        }
        assert(steps[0] == steps[0]);
    }
}

} // verus!
