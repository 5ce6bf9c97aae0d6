use vsock_latency::transfer::{
    recv_exact, send_exact, validate_len, SimOutcome, TransferError, TransferEvent,
};

#[test]
fn send_completes_over_partial_steps() {
    let script = vec![
        TransferEvent::Transferred(3),
        TransferEvent::Transferred(4),
        TransferEvent::Transferred(3),
    ];
    match send_exact(10, &script) {
        SimOutcome::Completed { calls } => assert_eq!(calls, 3),
        other => panic!("unexpected outcome: {:?}", other),
    }
}

#[test]
fn recv_completes_over_partial_steps() {
    let script = vec![
        TransferEvent::Transferred(1),
        TransferEvent::Transferred(1),
        TransferEvent::Transferred(6),
    ];
    match recv_exact(8, &script) {
        SimOutcome::Completed { calls } => assert_eq!(calls, 3),
        other => panic!("unexpected outcome: {:?}", other),
    }
}

#[test]
fn interruptions_are_transparent() {
    let plain = vec![TransferEvent::Transferred(5), TransferEvent::Transferred(5)];
    let interrupted = vec![
        TransferEvent::Interrupted,
        TransferEvent::Transferred(5),
        TransferEvent::Interrupted,
        TransferEvent::Transferred(5),
    ];
    let plain_calls = match send_exact(10, &plain) {
        SimOutcome::Completed { calls } => calls,
        other => panic!("unexpected outcome: {:?}", other),
    };
    match send_exact(10, &interrupted) {
        SimOutcome::Completed { calls } => assert_eq!(calls, 2 * plain_calls),
        other => panic!("unexpected outcome: {:?}", other),
    }
}

#[test]
fn recv_interruptions_are_transparent() {
    let interrupted = vec![
        TransferEvent::Interrupted,
        TransferEvent::Transferred(4),
        TransferEvent::Interrupted,
        TransferEvent::Transferred(4),
    ];
    match recv_exact(8, &interrupted) {
        SimOutcome::Completed { calls } => assert_eq!(calls, 4),
        other => panic!("unexpected outcome: {:?}", other),
    }
}

#[test]
fn zero_byte_read_is_peer_closed() {
    let script = vec![TransferEvent::Transferred(3), TransferEvent::Transferred(0)];
    match recv_exact(10, &script) {
        SimOutcome::Failed { calls, error } => {
            assert_eq!(calls, 2);
            assert!(matches!(error, TransferError::PeerClosedEarly));
        }
        other => panic!("unexpected outcome: {:?}", other),
    }
}

#[test]
fn zero_byte_send_just_retries() {
    let script = vec![
        TransferEvent::Transferred(0),
        TransferEvent::Transferred(0),
        TransferEvent::Transferred(10),
    ];
    match send_exact(10, &script) {
        SimOutcome::Completed { calls } => assert_eq!(calls, 3),
        other => panic!("unexpected outcome: {:?}", other),
    }
}

#[test]
fn transport_failure_carries_cause() {
    let script = vec![
        TransferEvent::Transferred(2),
        TransferEvent::Failed(String::from("connection reset")),
    ];
    match send_exact(5, &script) {
        SimOutcome::Failed { calls, error } => {
            assert_eq!(calls, 2);
            match error {
                TransferError::Transport(cause) => assert_eq!(cause, "connection reset"),
                other => panic!("unexpected error: {:?}", other),
            }
        }
        other => panic!("unexpected outcome: {:?}", other),
    }
}

#[test]
fn starved_script_reports_shortfall() {
    let script = vec![TransferEvent::Transferred(4)];
    match recv_exact(10, &script) {
        SimOutcome::OutOfEvents { transferred, calls } => {
            assert_eq!(transferred, 4);
            assert_eq!(calls, 1);
        }
        other => panic!("unexpected outcome: {:?}", other),
    }
}

#[test]
fn oversized_report_is_clamped_to_remaining() {
    let script = vec![TransferEvent::Transferred(100)];
    match send_exact(5, &script) {
        SimOutcome::Completed { calls } => assert_eq!(calls, 1),
        other => panic!("unexpected outcome: {:?}", other),
    }
}

#[test]
fn zero_length_transfer_needs_no_calls() {
    let script = vec![TransferEvent::Failed(String::from("never reached"))];
    match send_exact(0, &script) {
        SimOutcome::Completed { calls } => assert_eq!(calls, 0),
        other => panic!("unexpected outcome: {:?}", other),
    }
}

#[test]
fn lengths_that_fit_validate() {
    assert!(matches!(validate_len(0), Ok(0)));
    assert!(matches!(validate_len(8), Ok(8)));
    assert!(matches!(validate_len(65536), Ok(65536)));
}
