use vstd::prelude::*;
use crate::charts::{pick_step, round_to_step, steps_for_minutes, spec_candle_step, spec_round_to_step, lemma_select_step_member};

verus! {

/// Chooses the x-axis label step (ms) and the first label time for a candle
/// chart whose candles last `timeframe` minutes.
pub fn calculate_time_step(earliest: i64, latest: i64, labels_can_fit: i32, timeframe: i16) -> (r: (i64, i64))
    requires
        i64::MIN <= latest - earliest <= i64::MAX,
    ensures
        r.0 == spec_candle_step(timeframe as int, latest - earliest, labels_can_fit as int),
        r.0 > 0,
        r.1 == spec_round_to_step(earliest as int, r.0 as int),
{
    let duration = latest - earliest;
    let steps = steps_for_minutes(timeframe as i64);
    let selected_step = pick_step(&steps, duration, labels_can_fit as i64, true);
    proof {
        lemma_select_step_member(steps@, duration as int, labels_can_fit as int, steps@[0], true);
    }
    let rounded_earliest = round_to_step(earliest, selected_step);
    (selected_step, rounded_earliest)
}

} // verus!
