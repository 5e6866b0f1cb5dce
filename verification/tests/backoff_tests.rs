use rconlogger::backoff::{next_delay, RetryState};

#[test]
fn delays_follow_step_table() {
    // step_count 10, step_increment 30, max_delay 300:
    // attempts 1..=9 wait nothing, attempts 10..=19 wait 30 seconds,
    // and from attempt 100 on the delay is capped at 300 seconds.
    for attempt in 1..10 {
        assert_eq!(next_delay(attempt, 10, 30, 300), 0);
    }
    for attempt in 10..20 {
        assert_eq!(next_delay(attempt, 10, 30, 300), 30);
    }
    assert_eq!(next_delay(20, 10, 30, 300), 60);
    assert_eq!(next_delay(99, 10, 30, 300), 270);
    for attempt in [100, 101, 110, 1000, 1_000_000] {
        assert_eq!(next_delay(attempt, 10, 30, 300), 300);
    }
}

#[test]
fn delay_is_monotonic_and_bounded() {
    let mut previous = 0;
    for attempt in 1..2000 {
        let delay = next_delay(attempt, 7, 13, 100);
        assert!(delay >= previous);
        assert!(delay <= 100);
        previous = delay;
    }
}

#[test]
fn zero_increment_never_waits() {
    for attempt in 1..100 {
        assert_eq!(next_delay(attempt, 3, 0, 300), 0);
    }
}

#[test]
fn cap_smaller_than_increment_wins() {
    assert_eq!(next_delay(10, 10, 30, 25), 25);
    assert_eq!(next_delay(9, 10, 30, 25), 0);
    assert_eq!(next_delay(100, 10, 30, 25), 25);
}

#[test]
fn retry_state_counts_and_resets() {
    let mut retry = RetryState::new();
    assert_eq!(retry.attempt, 1);
    assert_eq!(retry.delay, 0);

    for _ in 0..12 {
        retry.record_failure(10, 30, 300);
    }
    assert_eq!(retry.attempt, 13);
    assert_eq!(retry.delay, 30);

    retry.reset();
    assert_eq!(retry.attempt, 1);
    assert_eq!(retry.delay, 0);
}
