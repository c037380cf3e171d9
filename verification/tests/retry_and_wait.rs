use benchscale::backend::timeout_utils::{
    backoff_error, backoff_step, deadline_error, deadline_step, retry_step, ConditionStep,
    RetryStep,
};
use std::time::Duration;

/// Runs attempts until `retry_step` stops the loop; returns the outcome and
/// the number of attempts.
fn run_retry(max_attempts: usize, mut attempt_ok: impl FnMut(usize) -> bool) -> (bool, usize) {
    let mut attempt = 1;
    loop {
        let ok = attempt_ok(attempt);
        match retry_step(attempt, max_attempts, ok) {
            RetryStep::Return => return (true, attempt),
            RetryStep::Fail => return (false, attempt),
            RetryStep::Retry => attempt += 1,
        }
    }
}

fn run_backoff_wait(max_attempts: usize, mut met: impl FnMut(usize) -> bool) -> (ConditionStep, usize) {
    let mut attempt = 1;
    loop {
        let step = backoff_step(attempt, max_attempts, met(attempt));
        if step != ConditionStep::Wait {
            return (step, attempt);
        }
        attempt += 1;
    }
}

#[test]
fn test_retry_with_backoff_success_first_try() {
    assert_eq!(run_retry(5, |_| true), (true, 1));
}

#[test]
fn test_retry_with_backoff_success_after_retries() {
    assert_eq!(run_retry(5, |n| n >= 3), (true, 3));
}

#[test]
fn test_retry_with_backoff_exhaustion() {
    assert_eq!(run_retry(3, |_| false), (false, 3));
}

#[test]
fn test_wait_for_condition_success() {
    let mut checks = 0;
    loop {
        checks += 1;
        match deadline_step(checks >= 3, false) {
            ConditionStep::Met => break,
            ConditionStep::GiveUp => panic!("gave up"),
            ConditionStep::Wait => {}
        }
    }
    assert!(checks >= 3);
}

#[test]
fn test_wait_for_condition_timeout() {
    assert_eq!(deadline_step(false, true), ConditionStep::GiveUp);
    let err_msg = deadline_error(Duration::from_millis(100), 10).to_string();
    assert!(err_msg.contains("Condition not met"));
    assert_eq!(err_msg, "Condition not met after 100ms (10 attempts)");
}

#[test]
fn test_wait_for_condition_immediate_success() {
    assert_eq!(deadline_step(true, false), ConditionStep::Met);
    assert_eq!(deadline_step(true, true), ConditionStep::Met);
}

#[test]
fn test_wait_for_condition_backoff_success() {
    let (step, attempts) = run_backoff_wait(5, |n| n >= 3);
    assert_eq!(step, ConditionStep::Met);
    assert!(attempts >= 3);
}

#[test]
fn test_wait_for_condition_backoff_exhaustion() {
    let (step, attempts) = run_backoff_wait(3, |_| false);
    assert_eq!(step, ConditionStep::GiveUp);
    assert_eq!(attempts, 3);
    let err_msg = backoff_error(3).to_string();
    assert!(err_msg.contains("Condition not met"));
    assert_eq!(err_msg, "Condition not met after 3 attempts");
    assert_eq!(backoff_error(0).to_string(), "Condition not met (0 attempts configured)");
}
