use std::time::Instant;

use vsock_latency::driver::Driver;
use vsock_latency::transfer::{recv_exact, send_exact, SimOutcome, TransferEvent};

/// A full run against a loopback-style peer that echoes every payload at
/// once: four measured rounds of eight bytes each, every sample a
/// non-negative duration, and exactly four samples recorded.
#[test]
fn loopback_run_records_one_sample_per_measured_round() {
    let n_rounds: usize = 4;
    let n_bytes: usize = 8;
    let mut driver = Driver::new(n_rounds);
    while !driver.is_done() {
        let start = Instant::now();
        let echo_out = vec![TransferEvent::Transferred(n_bytes)];
        match send_exact(n_bytes, &echo_out) {
            SimOutcome::Completed { calls } => assert_eq!(calls, 1),
            other => panic!("send failed: {:?}", other),
        }
        let echo_back = vec![TransferEvent::Transferred(n_bytes)];
        match recv_exact(n_bytes, &echo_back) {
            SimOutcome::Completed { calls } => assert_eq!(calls, 1),
            other => panic!("receive failed: {:?}", other),
        }
        let elapsed = Instant::now().duration_since(start);
        let sample = elapsed.as_secs() * 1_000_000_000u64 + elapsed.subsec_nanos() as u64;
        driver.record_round(sample);
    }
    assert_eq!(driver.rounds_done, 2 * n_rounds);
    assert_eq!(driver.recorded, n_rounds);
}
