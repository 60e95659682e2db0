use std::collections::BTreeMap;
use iced_trade::charts::{calculate_time_step, label_times, round_to_step};
use iced_trade::charts::candlesticks;
use iced_trade::series::{
    append_keep_last, footprint_bucket, heatmap_bucket, insert_and_trim, insert_if_absent, keep_newest, ordered_keys,
    push_recent_trades, trade_time_parts,
};

#[test]
fn candle_step_first_fitting() {
    assert_eq!(calculate_time_step(0, 3_600_000, 4, Some(1)), (900_000, 0));
    assert_eq!(candlesticks::calculate_time_step(0, 3_600_000, 4, 1), (900_000, 0));
}

#[test]
fn candle_step_falls_back_to_last_within_span() {
    assert_eq!(calculate_time_step(0, 1_000_000, 1000, Some(5)), (300_000, 0));
    assert_eq!(candlesticks::calculate_time_step(0, 1_000_000, 1000, 5), (300_000, 0));
}

#[test]
fn candle_step_falls_back_to_first_step() {
    assert_eq!(calculate_time_step(0, 1_000_000, 1000, Some(15)), (86_400_000, 0));
    assert_eq!(calculate_time_step(0, 10_000, 1000, Some(7)), (43_200_000, 0));
}

#[test]
fn heatmap_step_and_rounding() {
    assert_eq!(calculate_time_step(1_000, 61_000, 4, None), (15_000, 0));
    assert_eq!(calculate_time_step(-70_000, 0, 4, None), (15_000, -60_000));
    assert_eq!(calculate_time_step(0, 100, 4, None), (60_000, 0));
    assert_eq!(calculate_time_step(125_250, 130_250, 10, None), (500, 125_000));
}

#[test]
fn rounding_is_toward_zero() {
    assert_eq!(round_to_step(1_234_567, 60_000), 1_200_000);
    assert_eq!(round_to_step(-1_234_567, 60_000), -1_200_000);
    assert_eq!(round_to_step(59_999, 60_000), 0);
}

#[test]
fn label_times_cover_span() {
    assert_eq!(label_times(0, 2_000, 500), vec![0, 500, 1_000, 1_500, 2_000]);
    assert_eq!(label_times(0, 1_999, 500), vec![0, 500, 1_000, 1_500]);
    assert_eq!(label_times(5, 4, 1), Vec::<i64>::new());
}

#[test]
fn footprint_and_heatmap_buckets() {
    assert_eq!(footprint_bucket(1_700_000_123_456, 5), 1_700_000_100_000);
    assert_eq!(footprint_bucket(59_999, 1), 0);
    assert_eq!(heatmap_bucket(1_234_567), 1_234_500);
}

#[test]
fn heatmap_keeps_newest_three_thousand() {
    let mut m: BTreeMap<i64, u32> = BTreeMap::new();
    for t in 0..3600i64 {
        insert_and_trim(&mut m, t * 100, t as u32);
    }
    assert_eq!(m.len(), 3600);
    insert_and_trim(&mut m, 3600 * 100, 3600);
    assert_eq!(m.len(), 3000);
    assert_eq!(*m.keys().next().unwrap(), 601 * 100);
    assert_eq!(*m.keys().last().unwrap(), 3600 * 100);
}

#[test]
fn keep_newest_drops_oldest() {
    let mut m: BTreeMap<i64, &str> = BTreeMap::new();
    m.insert(30, "c");
    m.insert(-5, "a");
    m.insert(10, "b");
    assert_eq!(ordered_keys(&m), vec![-5, 10, 30]);
    keep_newest(&mut m, 2);
    assert_eq!(ordered_keys(&m), vec![10, 30]);
}

#[test]
fn insert_if_absent_keeps_existing() {
    let mut m: BTreeMap<i64, &str> = BTreeMap::new();
    insert_if_absent(&mut m, 1, "first");
    insert_if_absent(&mut m, 1, "second");
    assert_eq!(m.get(&1), Some(&"first"));
}

#[test]
fn recent_trades_keep_last_two_thousand() {
    let mut buf: Vec<u32> = (0..1990).collect();
    push_recent_trades(&mut buf, (1990..2010).collect());
    assert_eq!(buf.len(), 2000);
    assert_eq!(buf[0], 10);
    assert_eq!(buf[1999], 2009);
    let mut small = vec![1, 2];
    append_keep_last(&mut small, vec![3], 5);
    assert_eq!(small, vec![1, 2, 3]);
}

#[test]
fn trade_time_split() {
    assert_eq!(trade_time_parts(1_700_000_123_456), (1_700_000_123, 456_000_000));
    assert_eq!(trade_time_parts(-3_000), (-3, 0));
}
