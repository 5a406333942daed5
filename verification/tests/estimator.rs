use httpstime_rs::estimator::{phase_estimate, Estimator, Narrowing, OffsetBounds};
use httpstime_rs::instant::Instant;
use httpstime_rs::sample::ProbeSample;

fn sample(send: i64, receive: i64, server_reported: i64) -> ProbeSample {
    ProbeSample::new(
        Instant::from_millis(send),
        Instant::from_millis(receive),
        Instant::from_millis(server_reported),
    )
    .unwrap()
}

#[test]
fn bounds_start_widest() {
    let e = Estimator::new();
    assert_eq!(e.bounds(), OffsetBounds { low: i64::MIN, high: i64::MAX });
    assert_eq!(OffsetBounds::widest(), OffsetBounds { low: i64::MIN, high: i64::MAX });
}

#[test]
fn width_is_high_less_low() {
    assert_eq!(OffsetBounds { low: -510, high: -492 }.width(), 18);
    assert_eq!(OffsetBounds { low: 5, high: 2 }.width(), -3);
    assert_eq!(OffsetBounds::widest().width(), 18_446_744_073_709_551_615);
}

#[test]
fn first_sample_sets_both_bounds() {
    let mut e = Estimator::new();
    let r = e.update(sample(1_700_000_000_123, 1_700_000_000_133, 1_700_000_000_000));
    assert_eq!(r.narrowing, Narrowing::RaisedLow);
    assert_eq!(r.bounds, OffsetBounds { low: -877, high: 133 });
    assert_eq!(e.bounds(), OffsetBounds { low: -877, high: 133 });
    // floor((-877 + 133) / 2) - floor(10 / 2) = -372 - 5 = -377, which is 623 in the second.
    assert_eq!(r.dt, 623);
}

#[test]
fn sample_that_raises_low_only() {
    let mut e = Estimator::new();
    e.update(sample(10_123, 10_133, 10_000));
    // lower candidate -800 > -877, upper candidate 210 is not below 133
    let r = e.update(sample(10_200, 10_210, 10_000));
    assert_eq!(r.narrowing, Narrowing::RaisedLow);
    assert_eq!(r.bounds, OffsetBounds { low: -800, high: 133 });
}

#[test]
fn sample_that_lowers_high_only() {
    let mut e = Estimator::new();
    e.update(sample(10_123, 10_133, 10_000));
    // lower candidate -950 is not above -877, upper candidate 60 < 133
    let r = e.update(sample(10_050, 10_060, 10_000));
    assert_eq!(r.narrowing, Narrowing::LoweredHigh);
    assert_eq!(r.bounds, OffsetBounds { low: -877, high: 60 });
}

#[test]
fn sample_that_tells_nothing_new() {
    let mut e = Estimator::new();
    e.update(sample(10_123, 10_133, 10_000));
    // lower candidate -900, upper candidate 150
    let r = e.update(sample(10_100, 10_150, 10_000));
    assert_eq!(r.narrowing, Narrowing::Uninformative);
    assert_eq!(r.bounds, OffsetBounds { low: -877, high: 133 });
    assert_eq!(e.bounds(), OffsetBounds { low: -877, high: 133 });
    // floor(-744 / 2) - floor(50 / 2) = -372 - 25 = -397
    assert_eq!(r.dt, 603);
}

#[test]
fn sample_with_equal_candidates_tells_nothing_new() {
    let mut e = Estimator::new();
    e.update(sample(10_123, 10_133, 10_000));
    let r = e.update(sample(10_123, 10_133, 10_000));
    assert_eq!(r.narrowing, Narrowing::Uninformative);
    assert_eq!(r.bounds, OffsetBounds { low: -877, high: 133 });
}

#[test]
fn contradicting_samples_cross_the_bounds() {
    let mut e = Estimator::new();
    e.update(sample(10_123, 10_133, 10_000));
    // the server's clock stepped: lower candidate 4000, upper candidate 5010
    let r = e.update(sample(20_000, 20_010, 15_000));
    assert_eq!(r.narrowing, Narrowing::RaisedLow);
    assert_eq!(r.bounds, OffsetBounds { low: 4000, high: 133 });
    assert!(r.bounds.low > r.bounds.high);
    assert_eq!(r.bounds.width(), -3867);
}

#[test]
fn bounds_never_widen_over_a_run_of_samples() {
    let samples: Vec<ProbeSample> = vec![
        sample(10_123, 10_133, 10_000),
        sample(10_900, 10_950, 10_000),
        sample(11_050, 11_060, 11_000),
        sample(20_000, 20_500, 19_000),
        sample(12_300, 12_305, 12_000),
        sample(13_999, 14_004, 13_000),
        sample(15_001, 15_020, 15_000),
        sample(9_000, 9_001, 30_000),
        sample(16_500, 16_600, 16_000),
    ];
    let mut e = Estimator::new();
    let mut before = e.bounds();
    for s in samples {
        let r = e.update(s);
        assert!(r.bounds.low >= before.low);
        assert!(r.bounds.high <= before.high);
        assert_eq!(r.bounds.low, before.low.max(s.lower_candidate()));
        assert_eq!(r.bounds.high, before.high.min(s.upper_candidate()));
        assert!(0 <= r.dt && r.dt < 1000);
        before = r.bounds;
    }
}

#[test]
fn phase_estimate_rounds_both_halves_down() {
    // floor((-3 + 0) / 2) = -2, floor(1 / 2) = 0
    assert_eq!(phase_estimate(OffsetBounds { low: -3, high: 0 }, 1), 998);
    // floor(7 / 2) = 3, floor(3 / 2) = 1
    assert_eq!(phase_estimate(OffsetBounds { low: 3, high: 4 }, 3), 2);
    // floor(-7 / 2) = -4, floor(-3 / 2) = -2
    assert_eq!(phase_estimate(OffsetBounds { low: -4, high: -3 }, -3), 998);
    assert_eq!(phase_estimate(OffsetBounds { low: -510, high: -492 }, 10), 494);
    assert_eq!(phase_estimate(OffsetBounds { low: 490, high: 508 }, 10), 494);
}

#[test]
fn phase_estimate_is_reduced_from_above_too() {
    assert_eq!(phase_estimate(OffsetBounds { low: 5000, high: 5400 }, 0), 200);
    assert_eq!(phase_estimate(OffsetBounds { low: 1000, high: 1000 }, 0), 0);
}

#[test]
fn phase_estimate_of_the_widest_bounds() {
    // floor((MIN + MAX) / 2) = floor(-1 / 2) = -1
    assert_eq!(phase_estimate(OffsetBounds::widest(), 0), 999);
    assert_eq!(phase_estimate(OffsetBounds { low: i64::MAX, high: i64::MAX }, i64::MIN), 711);
}

#[test]
fn well_behaved_samples_keep_low_below_high() {
    // True offset 0, round trips of 20 ms, the server's stamp up to 5 ms
    // off the middle of the round trip, probes paced by the estimate.
    let jitter: [i64; 8] = [3, -5, 1, 5, -2, 4, -4, 0];
    let mut e = Estimator::new();
    let mut t: i64 = 1_700_000_000_123;
    for k in 0..8 {
        let send = t;
        let receive = send + 20;
        let stamped = send + 10 + jitter[k];
        let reported = stamped.div_euclid(1000) * 1000;
        let r = e.update(sample(send, receive, reported));
        let now = Instant::from_millis(receive);
        t = receive + httpstime_rs::scheduler::next_delay(r.dt, now);
    }
    let b = e.bounds();
    assert_eq!(b, OffsetBounds { low: -18, high: 10 });
    assert!(b.low <= b.high);
    assert!(b.low <= 0 && 0 <= b.high);
    assert!(b.width() <= 50);
}

#[test]
fn narrowing_letters() {
    assert_eq!(Narrowing::RaisedLow.letter(), "B");
    assert_eq!(Narrowing::LoweredHigh.letter(), "A");
    assert_eq!(Narrowing::Uninformative.letter(), "C");
}
