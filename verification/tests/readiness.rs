use transactions::blockchain::sidecar::{
    AttemptRecord, ConnectionAttempt, ConnectionDecision, ConnectionGate, RetryTimeouts,
    WaitResult, resolve_timeouts, wait_for_connection,
};

fn timeouts(main_ms: u64, connection_ms: u64, retry_ms: u64) -> RetryTimeouts {
    RetryTimeouts { main_ms, connection_ms, retry_ms }
}

fn failure(spent_ms: u64) -> AttemptRecord {
    AttemptRecord { outcome: ConnectionAttempt::Failure, spent_ms }
}

fn success(spent_ms: u64) -> AttemptRecord {
    AttemptRecord { outcome: ConnectionAttempt::Success, spent_ms }
}

#[test]
fn absent_budgets_resolve_to_the_defaults() {
    let resolved = resolve_timeouts((None, None, None));
    assert_eq!(resolved, timeouts(30_000, 5_000, 500));
}

#[test]
fn given_budgets_are_kept() {
    let resolved = resolve_timeouts((Some(1_000), Some(100), Some(50)));
    assert_eq!(resolved, timeouts(1_000, 100, 50));
    let mixed = resolve_timeouts((Some(2_000), None, Some(10)));
    assert_eq!(mixed, timeouts(2_000, 5_000, 10));
}

#[test]
fn failures_then_a_success_connect_under_the_deadline() {
    // Two failed attempts with their backoffs, then an answer: all inside
    // the outer budget.
    let attempts = vec![failure(100), failure(100), success(100)];
    let result = wait_for_connection(timeouts(1_000, 100, 50), &attempts);
    assert_eq!(result, WaitResult::Connected { elapsed_ms: 400 });
}

#[test]
fn an_immediate_answer_connects_at_once() {
    let attempts = vec![success(3)];
    let result = wait_for_connection(timeouts(30_000, 5_000, 500), &attempts);
    assert_eq!(result, WaitResult::Connected { elapsed_ms: 3 });
}

#[test]
fn a_dead_endpoint_fails_exactly_at_the_deadline() {
    // Each attempt burns its full connection budget; the wait must end at
    // the outer deadline itself, not beyond it.
    let attempts = vec![failure(300), failure(300), failure(300), failure(300)];
    let result = wait_for_connection(timeouts(1_000, 300, 50), &attempts);
    assert_eq!(result, WaitResult::TimedOut { elapsed_ms: 1_000 });
}

#[test]
fn the_deadline_interrupts_a_late_answer() {
    // The second attempt would succeed, but the outer deadline strikes
    // during it.
    let attempts = vec![failure(600), success(600)];
    let result = wait_for_connection(timeouts(1_000, 700, 50), &attempts);
    assert_eq!(result, WaitResult::TimedOut { elapsed_ms: 1_000 });
}

#[test]
fn an_exhausted_script_leaves_the_wait_pending() {
    let attempts = vec![failure(100)];
    let result = wait_for_connection(timeouts(1_000, 100, 50), &attempts);
    assert_eq!(result, WaitResult::Pending { elapsed_ms: 150 });
    let none: Vec<AttemptRecord> = vec![];
    assert_eq!(
        wait_for_connection(timeouts(1_000, 100, 50), &none),
        WaitResult::Pending { elapsed_ms: 0 }
    );
}

#[test]
fn the_gate_decides_one_attempt_at_a_time() {
    let mut gate = ConnectionGate::new(timeouts(1_000, 100, 50));
    assert_eq!(gate.note_attempt(ConnectionAttempt::Failure, 100), ConnectionDecision::RetryAfterBackoff);
    assert_eq!(gate.elapsed_ms, 150);
    assert_eq!(gate.note_attempt(ConnectionAttempt::Success, 100), ConnectionDecision::Connected);
    assert_eq!(gate.elapsed_ms, 250);
    let mut expiring = ConnectionGate::new(timeouts(120, 100, 50));
    assert_eq!(expiring.note_attempt(ConnectionAttempt::Failure, 100), ConnectionDecision::RetryAfterBackoff);
    // The backoff alone would cross the deadline: the next attempt, of any
    // outcome, times out.
    assert_eq!(expiring.elapsed_ms, 120);
    assert_eq!(expiring.note_attempt(ConnectionAttempt::Success, 0), ConnectionDecision::TimedOut);
}
