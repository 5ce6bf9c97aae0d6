use vsock_latency::driver::Driver;

#[test]
fn warmup_half_is_discarded() {
    let mut driver = Driver::new(10);
    for round in 0..20u64 {
        driver.record_round(1_000 + round);
    }
    assert!(driver.is_done());
    assert_eq!(driver.rounds_done, 20);
    assert_eq!(driver.recorded, 10);
}

#[test]
fn short_run_reports_no_progress() {
    let mut driver = Driver::new(10);
    assert_eq!(driver.period, 0);
    for _ in 0..20u64 {
        assert!(driver.progress_percent().is_none());
        driver.record_round(5);
    }
    assert!(driver.progress_percent().is_none());
}

#[test]
fn progress_is_due_every_period() {
    let mut driver = Driver::new(100);
    assert_eq!(driver.period, 2);
    assert_eq!(driver.progress_percent(), Some(0));
    driver.record_round(7);
    assert_eq!(driver.progress_percent(), None);
    driver.record_round(7);
    assert_eq!(driver.progress_percent(), Some(1));
}

#[test]
fn histogram_receives_the_measured_samples() {
    let mut driver = Driver::new(2);
    driver.record_round(10);
    driver.record_round(20);
    driver.record_round(1_000_000);
    driver.record_round(1_000_000);
    assert_eq!(driver.recorded, 2);
    let histogram = driver.into_histogram();
    let (quantile, _, upper) = histogram.summary().last().unwrap();
    assert_eq!(quantile, 1.0);
    // Both measured samples are one million; an empty histogram's
    // quantile bounds would all be zero.
    assert!(upper > 1_000_000);
}
