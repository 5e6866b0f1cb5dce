use rconlogger::worker::{
    Action, Event, LifecycleState, TargetConfig, Worker, RECONNECT_SETTLE_MS,
};

fn test_config() -> TargetConfig {
    TargetConfig {
        address: String::from("127.0.0.1:47200"),
        identity: String::from("127.0.0.1:47200"),
        poll_interval_ms: 10000,
        max_retry_delay_s: 300,
        retry_step_count: 10,
        retry_step_increment_s: 30,
        connect_only_once: false,
    }
}

/// Target unreachable for the first 12 connect attempts, then up: the
/// twelve failures are waited out with delays 0 x 9 then 30 x 3, and
/// polling starts at the configured interval.
#[test]
fn twelve_failures_then_connects_and_polls() {
    let mut worker = Worker::new(test_config());
    assert!(matches!(worker.start(), Action::Connect { delay_s: 0 }));

    let mut delays = Vec::new();
    for _ in 0..12 {
        match worker.step(Event::ConnectFailed) {
            Action::Connect { delay_s } => delays.push(delay_s),
            other => panic!("expected a connect order, got {:?}", other),
        }
    }
    assert_eq!(delays, vec![0, 0, 0, 0, 0, 0, 0, 0, 0, 30, 30, 30]);

    let action = worker.step(Event::ConnectSucceeded);
    assert_eq!(action, Action::Fetch { generation: 1, delay_ms: 0 });
    assert_eq!(worker.state, LifecycleState::Connected { generation: 1 });

    // The poll cycle: fetch, emit, then the next fetch at the
    // configured interval.
    assert_eq!(worker.step(Event::FetchSucceeded), Action::Emit);
    assert_eq!(
        worker.step(Event::SinkSucceeded),
        Action::Fetch { generation: 1, delay_ms: 10000 }
    );
}

/// After any successful (re)connect the retry state is a clean slate,
/// however long the failure streak was.
#[test]
fn reconnect_resets_retry_state() {
    let mut worker = Worker::new(test_config());
    worker.start();
    for _ in 0..137 {
        worker.step(Event::ConnectFailed);
    }
    assert_eq!(worker.retry.attempt, 138);
    assert_eq!(worker.retry.delay, 300);

    worker.step(Event::ConnectSucceeded);
    assert_eq!(worker.retry.attempt, 1);
    assert_eq!(worker.retry.delay, 0);
}

/// A fetch failure always discards the handle and forces a full
/// reconnect; the next fetch is ordered on a strictly newer handle.
#[test]
fn fetch_failure_discards_handle() {
    let mut worker = Worker::new(test_config());
    worker.start();
    worker.step(Event::ConnectSucceeded);
    assert_eq!(worker.state, LifecycleState::Connected { generation: 1 });

    let action = worker.step(Event::FetchFailed);
    assert_eq!(action, Action::Connect { delay_s: 0 });
    assert_eq!(worker.state, LifecycleState::Reconnecting);
    assert_eq!(worker.retry.attempt, 1);
    assert_eq!(worker.retry.delay, 0);

    // The reconnect settles briefly, then fetches on the new handle.
    let action = worker.step(Event::ConnectSucceeded);
    assert_eq!(
        action,
        Action::Fetch { generation: 2, delay_ms: RECONNECT_SETTLE_MS }
    );
    assert_eq!(worker.state, LifecycleState::Connected { generation: 2 });
}

/// A sink failure during emit changes nothing about the connection and
/// never stops subsequent polling.
#[test]
fn sink_failure_leaves_connection_and_polling() {
    let mut worker = Worker::new(test_config());
    worker.start();
    worker.step(Event::ConnectSucceeded);

    for _ in 0..3 {
        assert_eq!(worker.step(Event::FetchSucceeded), Action::Emit);
        let state_before = worker.state;
        let retry_before = worker.retry;
        let action = worker.step(Event::SinkFailed);
        assert_eq!(worker.state, state_before);
        assert_eq!(worker.retry, retry_before);
        assert_eq!(action, Action::Fetch { generation: 1, delay_ms: 10000 });
    }
}

/// Two targets make independent progress: one target's dead network
/// path never delays or stalls the other's polling.
#[test]
fn two_targets_progress_independently() {
    let mut blocked = Worker::new(test_config());
    let mut healthy = Worker::new(TargetConfig {
        address: String::from("0.0.0.0:47201"),
        identity: String::from("0.0.0.0:47201"),
        poll_interval_ms: 500,
        max_retry_delay_s: 300,
        retry_step_count: 10,
        retry_step_increment_s: 30,
        connect_only_once: false,
    });
    blocked.start();
    healthy.start();
    healthy.step(Event::ConnectSucceeded);

    for _ in 0..50 {
        // The blocked target keeps failing to connect...
        let action = blocked.step(Event::ConnectFailed);
        assert!(matches!(action, Action::Connect { .. }));

        // ...while the healthy one polls at its own cadence.
        assert_eq!(healthy.step(Event::FetchSucceeded), Action::Emit);
        assert_eq!(
            healthy.step(Event::SinkSucceeded),
            Action::Fetch { generation: 1, delay_ms: 500 }
        );
    }
    assert_eq!(healthy.state, LifecycleState::Connected { generation: 1 });
    assert_eq!(blocked.state, LifecycleState::Connecting);
}
