use vsock_latency::connect::{backoff_delay, ConnectManager, MAX_CONNECTION_ATTEMPTS};

#[test]
fn fresh_cycle_has_no_history() {
    let manager = ConnectManager::new();
    assert_eq!(manager.attempts_failed, 0);
    assert_eq!(manager.waited_secs, 0);
    assert!(manager.last_error.is_none());
    assert!(manager.can_attempt());
}

#[test]
fn backoff_doubles_from_one_second() {
    let expected: [u64; 5] = [1, 2, 4, 8, 16];
    for (attempt, want) in expected.iter().enumerate() {
        assert_eq!(backoff_delay(attempt), *want);
    }
}

#[test]
fn exhausted_cycle_waited_the_exponential_series() {
    let mut manager = ConnectManager::new();
    let mut delays: Vec<u64> = Vec::new();
    while manager.can_attempt() {
        let attempt = manager.attempts_failed;
        delays.push(manager.fail_attempt(format!("attempt {} refused", attempt)));
    }
    assert_eq!(delays, vec![1, 2, 4, 8, 16]);
    assert_eq!(manager.attempts_failed, MAX_CONNECTION_ATTEMPTS);
    assert_eq!(manager.waited_secs, 1 + 2 + 4 + 8 + 16);
    assert_eq!(manager.into_error(), "attempt 4 refused");
}

#[test]
fn partial_cycle_keeps_its_budget() {
    let mut manager = ConnectManager::new();
    manager.fail_attempt(String::from("first refusal"));
    manager.fail_attempt(String::from("second refusal"));
    assert_eq!(manager.attempts_failed, 2);
    assert_eq!(manager.waited_secs, 3);
    assert!(manager.can_attempt());
    assert_eq!(manager.last_error.as_deref(), Some("second refusal"));
}
