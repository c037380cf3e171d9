//! The decisions of retrying and waiting: when an attempt ends the retry
//! loop, when a condition check ends the wait, and the errors they give.
//! The delays themselves, which grow by a fractional factor, and the
//! sleeping happen outside.
use vstd::prelude::*;
use std::time::Duration;
use crate::error::Error;
use crate::time::{debug_duration, duration_debug};
use crate::text::{decimal, owned, push_decimal, push_str};

verus! {

/// What a retry loop does after an attempt.
#[derive(Debug, Clone, Copy, PartialEq, Eq, Structural)]
pub enum RetryStep {
    /// The attempt succeeded: return its result.
    Return,
    /// The last attempt failed: return its error.
    Fail,
    /// Sleep the current delay, then try again.
    Retry,
}

/// Decides what follows attempt `attempt` (counted from 1) of
/// `max_attempts`: success returns, the last failure fails, any other
/// failure retries.
pub fn retry_step(attempt: usize, max_attempts: usize, succeeded: bool) -> (r: RetryStep)
    ensures
        r == (if succeeded {
            RetryStep::Return
        } else if attempt == max_attempts {
            RetryStep::Fail
        } else {
            RetryStep::Retry
        }),
{
    if succeeded {
        RetryStep::Return
    } else if attempt == max_attempts {
        RetryStep::Fail
    } else {
        RetryStep::Retry
    }
}

/// What waiting for a condition does after a check.
#[derive(Debug, Clone, Copy, PartialEq, Eq, Structural)]
pub enum ConditionStep {
    /// The condition holds: done.
    Met,
    /// The time or the attempts are up: give up.
    GiveUp,
    /// Wait, then check again.
    Wait,
}

/// Decides what follows a check when waiting until a deadline.
pub fn deadline_step(met: bool, deadline_reached: bool) -> (r: ConditionStep)
    ensures
        r == (if met {
            ConditionStep::Met
        } else if deadline_reached {
            ConditionStep::GiveUp
        } else {
            ConditionStep::Wait
        }),
{
    if met {
        ConditionStep::Met
    } else if deadline_reached {
        ConditionStep::GiveUp
    } else {
        ConditionStep::Wait
    }
}

/// Decides what follows check `attempt` (counted from 1) of
/// `max_attempts` when waiting with backoff.
pub fn backoff_step(attempt: usize, max_attempts: usize, met: bool) -> (r: ConditionStep)
    ensures
        r == (if met {
            ConditionStep::Met
        } else if attempt == max_attempts {
            ConditionStep::GiveUp
        } else {
            ConditionStep::Wait
        }),
{
    if met {
        ConditionStep::Met
    } else if attempt == max_attempts {
        ConditionStep::GiveUp
    } else {
        ConditionStep::Wait
    }
}

/// The error of a deadline wait that ran out after `attempts` checks.
pub fn deadline_error(timeout: Duration, attempts: u64) -> (r: Error)
    ensures
        r matches Error::Backend(m) && m@ == "Condition not met after "@ + duration_debug(timeout) + " ("@
            + decimal(attempts as nat) + " attempts)"@,
{
    let mut m = owned("Condition not met after ");
    let t = debug_duration(timeout);
    push_str(&mut m, t.as_str());
    push_str(&mut m, " (");
    push_decimal(&mut m, attempts);
    push_str(&mut m, " attempts)");
    Error::Backend(m)
}

/// The error of a backoff wait whose attempts ran out.
pub fn backoff_error(max_attempts: u64) -> (r: Error)
    ensures
        max_attempts == 0 ==> (r matches Error::Backend(m) && m@ == "Condition not met (0 attempts configured)"@),
        max_attempts > 0 ==> (r matches Error::Backend(m) && m@ == "Condition not met after "@ + decimal(
            max_attempts as nat,
        ) + " attempts"@),
{
    if max_attempts == 0 {
        return Error::Backend(owned("Condition not met (0 attempts configured)"));
    }
    let mut m = owned("Condition not met after ");
    push_decimal(&mut m, max_attempts);
    push_str(&mut m, " attempts");
    Error::Backend(m)
}

} // verus!
