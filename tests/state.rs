use venko::Stream;

fn schedule(start_ts: i64, cliff_ts: i64, end_ts: i64, initial_amount: u64) -> Stream {
    let mut stream = Stream::default();
    stream.start_ts = start_ts;
    stream.cliff_ts = cliff_ts;
    stream.end_ts = end_ts;
    stream.initial_amount = initial_amount;
    stream
}

#[test]
fn test_linear_unlock_not_started() {
    let release = &mut Stream::default();
    release.start_ts = 100_000;
    release.end_ts = 200_000;
    release.initial_amount = 1_000_000;
    let amt = release.total_released(90_000).unwrap();
    assert_eq!(amt, 0);
}

#[test]
fn test_linear_unlock_finished() {
    let release = &mut Stream::default();
    release.start_ts = 100_000;
    release.end_ts = 200_000;
    release.initial_amount = 1_000_000;
    let amt = release.total_released(290_000).unwrap();
    assert_eq!(amt, 1_000_000);
}

#[test]
fn test_linear_unlock_halfway() {
    let release = &mut Stream::default();
    release.start_ts = 100_000;
    release.end_ts = 200_000;
    release.initial_amount = 1_000_000;
    let amt = release.total_released(150_000).unwrap();
    assert_eq!(amt, 500_000);
}

#[test]
fn quarter_of_the_way() {
    let stream = schedule(100_000, 100_000, 200_000, 1_000_000);
    assert_eq!(stream.total_released(125_000), Some(250_000));
}

#[test]
fn share_is_rounded_down() {
    let stream = schedule(0, 0, 3, 10);
    assert_eq!(stream.total_released(1), Some(3));
    assert_eq!(stream.total_released(2), Some(6));
    assert_eq!(stream.total_released(3), Some(10));
}

#[test]
fn released_never_decreases_and_stays_bounded() {
    let stream = schedule(100_000, 120_000, 200_000, 1_000_000);
    let mut last = 0u64;
    let mut now = 0i64;
    while now <= 300_000 {
        let r = stream.total_released(now).unwrap();
        assert!(r >= last);
        assert!(r <= 1_000_000);
        last = r;
        now += 7_919;
    }
}

#[test]
fn nothing_released_up_to_the_cliff() {
    let stream = schedule(100_000, 150_000, 200_000, 1_000_000);
    assert_eq!(stream.total_released(100_001), Some(0));
    assert_eq!(stream.total_released(150_000), Some(0));
    assert_eq!(stream.total_released(150_001), Some(500_010));
}

#[test]
fn everything_released_from_the_end_on() {
    let stream = schedule(100_000, 100_000, 200_000, 1_000_000);
    assert_eq!(stream.total_released(200_000), Some(1_000_000));
    assert_eq!(stream.total_released(i64::MAX), Some(1_000_000));
}

#[test]
fn cliff_at_the_end_releases_nothing_at_the_end() {
    let stream = schedule(100_000, 200_000, 200_000, 1_000_000);
    assert_eq!(stream.total_released(200_000), Some(0));
    assert_eq!(stream.total_released(200_001), Some(1_000_000));
}

#[test]
fn same_instant_gives_same_amount() {
    let stream = schedule(100_000, 100_000, 200_000, 1_000_000);
    assert_eq!(stream.total_released(133_333), stream.total_released(133_333));
    assert_eq!(stream.total_released(133_333), Some(333_330));
}

#[test]
fn negative_start_has_no_value_in_the_linear_part() {
    let stream = schedule(-100, -100, 100, 1_000);
    assert_eq!(stream.total_released(-100), Some(0));
    assert_eq!(stream.total_released(0), None);
    assert_eq!(stream.total_released(100), Some(1_000));
}

#[test]
fn largest_amount_does_not_overflow() {
    let stream = schedule(0, 0, i64::MAX, u64::MAX);
    assert_eq!(stream.total_released(i64::MAX - 1), Some(u64::MAX - 3));
    assert_eq!(stream.total_released(1), Some(2));
}

#[test]
fn outstanding_subtracts_redeemed() {
    let mut stream = schedule(100_000, 100_000, 200_000, 1_000_000);
    stream.redeemed_amount = 200_000;
    assert_eq!(stream.outstanding_released(150_000), Some(300_000));
    assert_eq!(stream.outstanding_released(110_000), None);
}

#[test]
fn available_is_capped_by_balance() {
    let mut stream = schedule(100_000, 100_000, 200_000, 1_000_000);
    stream.redeemed_amount = 200_000;
    assert_eq!(stream.available_for_withdrawal(150_000, 1_000_000), Some(300_000));
    assert_eq!(stream.available_for_withdrawal(150_000, 50_000), Some(50_000));
    assert_eq!(stream.available_for_withdrawal(110_000, 1_000_000), None);
}
