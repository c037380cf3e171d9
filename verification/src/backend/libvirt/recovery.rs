//! Recovery of the libvirt host: which actions to take for a health
//! report, and when to retry or give up. Restarting the network, sleeping
//! and re-checking happen outside, which hands each result back here.
use vstd::prelude::*;
use std::time::Duration;
use crate::backend::libvirt::health_check::{HealthStatus, same_report, state_summary};
use crate::text::{decimal, join, owned, push_decimal, push_str, views, join_strings};
use crate::time::{duration_from_secs, duration_of_secs};

verus! {

/// Recovery settings: attempts and the delay between them.
pub struct LibvirtRecovery {
    max_attempts: u32,
    retry_delay: Duration,
}

/// The result of a recovery.
#[derive(Debug, Clone)]
pub struct RecoveryResult {
    /// Whether the host ended up healthy.
    pub success: bool,
    /// The actions taken, in order.
    pub actions_taken: Vec<RecoveryAction>,
    /// The last health report.
    pub final_health: HealthStatus,
    /// Why recovery failed, when it did.
    pub error: Option<String>,
}

/// One recovery action.
#[derive(Debug, Clone, Copy, PartialEq, Eq, Structural)]
pub enum RecoveryAction {
    /// An orphaned dnsmasq process was cleaned up.
    KilledOrphanedProcess(u32),
    /// libvirtd was restarted.
    RestartedLibvirtd,
    /// The default network was reinitialized.
    ReinitializedNetwork,
    /// The host was given time to settle.
    WaitedForStabilization,
}

/// What the outside does next for a recovery.
#[derive(Debug, Clone, Copy, PartialEq, Eq, Structural)]
pub enum RecoveryStep {
    /// Wait the retry delay, then start the next attempt.
    RetryAfterDelay,
    /// Start the next attempt at once.
    NextAttempt,
    /// Recovery is over; the result is final.
    Finish,
}

impl LibvirtRecovery {
    /// The attempts allowed.
    pub closed spec fn attempts(&self) -> u32 {
        self.max_attempts
    }

    /// The delay between attempts.
    pub closed spec fn delay(&self) -> Duration {
        self.retry_delay
    }

    /// Three attempts, 2 s apart.
    pub fn new() -> (r: Self)
        ensures
            r.attempts() == 3,
            r.delay() == duration_of_secs(2),
    {
        LibvirtRecovery { max_attempts: 3, retry_delay: duration_from_secs(2) }
    }

    /// The same recovery with other retry settings.
    pub fn with_retries(self, max_attempts: u32, retry_delay: Duration) -> (r: Self)
        ensures
            r.attempts() == max_attempts,
            r.delay() == retry_delay,
    {
        LibvirtRecovery { max_attempts, retry_delay }
    }

    /// The attempts allowed.
    pub fn max_attempts(&self) -> (r: u32)
        ensures
            r == self.attempts(),
    {
        self.max_attempts
    }

    /// The delay between attempts.
    pub fn retry_delay(&self) -> (r: Duration)
        ensures
            r == self.delay(),
    {
        self.retry_delay
    }

    /// A fresh result for a recovery that starts from `health`.
    pub fn start(&self, health: &HealthStatus) -> (r: RecoveryResult)
        ensures
            !r.success,
            r.actions_taken@.len() == 0,
            same_report(r.final_health, *health),
            r.error is None,
    {
        RecoveryResult { success: false, actions_taken: Vec::new(), final_health: health.duplicate(), error: None }
    }

    /// Whether an attempt can act at all: not without libvirtd, which
    /// cannot be restarted without privileges.
    pub fn precheck(&self, health: &HealthStatus) -> (r: Result<(), String>)
        ensures
            health.libvirtd_active ==> r is Ok,
            !health.libvirtd_active ==> (r matches Err(m)
                && m@ == "libvirtd service is not active. Please run: sudo systemctl start libvirtd"@),
    {
        if !health.libvirtd_active {
            return Err(owned("libvirtd service is not active. Please run: sudo systemctl start libvirtd"));
        }
        Ok(())
    }

    /// Whether the network is restarted to clear orphaned processes.
    pub fn needs_orphan_cleanup(&self, health: &HealthStatus) -> (r: bool)
        ensures
            r == (health.orphaned_processes@.len() > 0),
    {
        health.orphaned_processes.len() > 0
    }

    /// Records a network restart made to clear orphans: when it worked, the
    /// restart, the wait for the host to settle, and each orphan cleaned.
    pub fn record_orphan_cleanup(&self, health: &HealthStatus, restarted: bool, result: &mut RecoveryResult)
        ensures
            restarted ==> final(result).actions_taken@ == old(result).actions_taken@
                + seq![RecoveryAction::ReinitializedNetwork, RecoveryAction::WaitedForStabilization]
                + health.orphaned_processes@.map_values(|p: u32| RecoveryAction::KilledOrphanedProcess(p)),
            !restarted ==> final(result).actions_taken@ == old(result).actions_taken@,
            final(result).success == old(result).success,
            final(result).final_health == old(result).final_health,
            final(result).error == old(result).error,
    {
        if restarted {
            result.actions_taken.push(RecoveryAction::ReinitializedNetwork);
            result.actions_taken.push(RecoveryAction::WaitedForStabilization);
            let ghost base = result.actions_taken@;
            let mut i: usize = 0;
            while i < health.orphaned_processes.len()
                invariant
                    i <= health.orphaned_processes.len(),
                    result.actions_taken@ == base + health.orphaned_processes@.take(i as int).map_values(
                        |p: u32| RecoveryAction::KilledOrphanedProcess(p),
                    ),
                    result.success == old(result).success,
                    result.final_health == old(result).final_health,
                    result.error == old(result).error,
                decreases health.orphaned_processes.len() - i,
            {
                result.actions_taken.push(RecoveryAction::KilledOrphanedProcess(health.orphaned_processes[i]));
                proof {
                    assert(health.orphaned_processes@.take(i + 1).map_values(
                        |p: u32| RecoveryAction::KilledOrphanedProcess(p),
                    ) =~= health.orphaned_processes@.take(i as int).map_values(
                        |p: u32| RecoveryAction::KilledOrphanedProcess(p),
                    ).push(RecoveryAction::KilledOrphanedProcess(health.orphaned_processes@[i as int])));
                }
                i = i + 1;
            }
            proof {
                assert(health.orphaned_processes@.take(health.orphaned_processes@.len() as int)
                    =~= health.orphaned_processes@);
                assert(old(result).actions_taken@.push(RecoveryAction::ReinitializedNetwork).push(
                    RecoveryAction::WaitedForStabilization,
                ) =~= old(result).actions_taken@ + seq![
                    RecoveryAction::ReinitializedNetwork,
                    RecoveryAction::WaitedForStabilization,
                ]);
            }
        }
    }

    /// Whether the default network is reinitialized because it is down.
    pub fn needs_network_reinit(&self, health: &HealthStatus) -> (r: bool)
        ensures
            r == !health.network_active,
    {
        !health.network_active
    }

    /// Records a reinitialization of the default network: the action, when
    /// it worked.
    pub fn record_network_reinit(&self, restarted: bool, result: &mut RecoveryResult)
        ensures
            restarted ==> final(result).actions_taken@ == old(result).actions_taken@.push(
                RecoveryAction::ReinitializedNetwork,
            ),
            !restarted ==> final(result).actions_taken@ == old(result).actions_taken@,
            final(result).success == old(result).success,
            final(result).final_health == old(result).final_health,
            final(result).error == old(result).error,
    {
        if restarted {
            result.actions_taken.push(RecoveryAction::ReinitializedNetwork);
        }
    }

    /// Takes a failed attempt: its error is recorded, and the recovery
    /// retries after the delay unless this was the last attempt.
    pub fn attempt_failed(&self, attempt: u32, error: &str, result: &mut RecoveryResult) -> (r: RecoveryStep)
        ensures
            final(result).error matches Some(m) && m@ == "Attempt "@ + decimal(attempt as nat) + ": "@
                + error@,
            r == (if attempt < self.attempts() {
                RecoveryStep::RetryAfterDelay
            } else {
                RecoveryStep::Finish
            }),
            final(result).success == old(result).success,
            final(result).actions_taken == old(result).actions_taken,
            final(result).final_health == old(result).final_health,
    {
        let mut m = owned("Attempt ");
        push_decimal(&mut m, attempt as u64);
        push_str(&mut m, ": ");
        push_str(&mut m, error);
        result.error = Some(m);
        if attempt < self.max_attempts {
            RecoveryStep::RetryAfterDelay
        } else {
            RecoveryStep::Finish
        }
    }

    /// Takes the health report that follows a completed attempt: healthy
    /// ends the recovery successfully; otherwise the next attempt starts,
    /// or, after the last one, the recovery gives up.
    pub fn attempt_checked(&self, attempt: u32, health: HealthStatus, result: &mut RecoveryResult) -> (r: RecoveryStep)
        ensures
            final(result).final_health == health,
            final(result).actions_taken == old(result).actions_taken,
            health.overall is Healthy ==> final(result).success && r == RecoveryStep::Finish
                && final(result).error == old(result).error,
            !(health.overall is Healthy) && attempt < self.attempts() ==> r == RecoveryStep::NextAttempt
                && final(result).success == old(result).success && final(result).error
                == old(result).error,
            !(health.overall is Healthy) && attempt >= self.attempts() ==> r == RecoveryStep::Finish
                && final(result).success == old(result).success && (final(result).error matches Some(m)
                && m@ == "Failed after "@ + decimal(self.attempts() as nat) + " attempts. Final state: "@
                + state_summary(health.overall)),
    {
        result.final_health = health;
        if result.final_health.is_healthy() {
            result.success = true;
            return RecoveryStep::Finish;
        }
        if attempt < self.max_attempts {
            return RecoveryStep::NextAttempt;
        }
        self.give_up(result);
        RecoveryStep::Finish
    }

    /// Ends a recovery that ran out of attempts, recording why.
    pub fn give_up(&self, result: &mut RecoveryResult)
        ensures
            final(result).error matches Some(m) && m@ == "Failed after "@ + decimal(self.attempts() as nat)
                + " attempts. Final state: "@ + state_summary(old(result).final_health.overall),
            final(result).success == old(result).success,
            final(result).actions_taken == old(result).actions_taken,
            final(result).final_health == old(result).final_health,
    {
        let mut m = owned("Failed after ");
        push_decimal(&mut m, self.max_attempts as u64);
        push_str(&mut m, " attempts. Final state: ");
        let s = result.final_health.summary();
        push_str(&mut m, s.as_str());
        result.error = Some(m);
    }
}

impl Default for LibvirtRecovery {
    fn default() -> (r: Self)
        ensures
            r.attempts() == 3,
            r.delay() == duration_of_secs(2),
    {
        LibvirtRecovery::new()
    }
}

/// How an action reads in a summary.
pub open spec fn action_text(a: RecoveryAction) -> Seq<char> {
    match a {
        RecoveryAction::KilledOrphanedProcess(pid) => "killed PID "@ + decimal(pid as nat),
        RecoveryAction::RestartedLibvirtd => "restarted libvirtd"@,
        RecoveryAction::ReinitializedNetwork => "reinitialized network"@,
        RecoveryAction::WaitedForStabilization => "waited for stabilization"@,
    }
}

/// The actions, each as it reads, separated by `, `.
pub open spec fn actions_text(actions: Seq<RecoveryAction>) -> Seq<char> {
    join(actions.map_values(|a: RecoveryAction| action_text(a)), ", "@)
}

/// The one-line summary of a recovery.
pub open spec fn recovery_summary(r: RecoveryResult) -> Seq<char> {
    if r.success {
        "Recovery successful. "@ + decimal(r.actions_taken@.len()) + " action(s) taken: "@
            + actions_text(r.actions_taken@)
    } else {
        "Recovery failed. "@ + decimal(r.actions_taken@.len()) + " action(s) attempted. Error: "@
            + match r.error {
            Some(e) => e@,
            None => "Unknown"@,
        }
    }
}

fn action_string(a: RecoveryAction) -> (r: String)
    ensures
        r@ == action_text(a),
{
    match a {
        RecoveryAction::KilledOrphanedProcess(pid) => {
            let mut s = owned("killed PID ");
            push_decimal(&mut s, pid as u64);
            s
        },
        RecoveryAction::RestartedLibvirtd => owned("restarted libvirtd"),
        RecoveryAction::ReinitializedNetwork => owned("reinitialized network"),
        RecoveryAction::WaitedForStabilization => owned("waited for stabilization"),
    }
}

impl RecoveryResult {
    /// The actions taken, separated by `, `.
    pub fn actions_summary(&self) -> (r: String)
        ensures
            r@ == actions_text(self.actions_taken@),
    {
        let mut parts: Vec<String> = Vec::new();
        let mut i: usize = 0;
        while i < self.actions_taken.len()
            invariant
                i <= self.actions_taken.len(),
                views(parts@) == self.actions_taken@.take(i as int).map_values(|a: RecoveryAction| action_text(a)),
            decreases self.actions_taken.len() - i,
        {
            let s = action_string(self.actions_taken[i]);
            let ghost before = views(parts@);
            parts.push(s);
            proof {
                assert(views(parts@) =~= before.push(s@));
                assert(self.actions_taken@.take(i + 1).map_values(|a: RecoveryAction| action_text(a))
                    =~= self.actions_taken@.take(i as int).map_values(|a: RecoveryAction| action_text(a)).push(
                    action_text(self.actions_taken@[i as int]),
                ));
            }
            i = i + 1;
        }
        proof {
            assert(self.actions_taken@.take(self.actions_taken@.len() as int) =~= self.actions_taken@);
        }
        join_strings(&parts, ", ")
    }

    /// A one-line summary of the recovery.
    pub fn summary(&self) -> (r: String)
        ensures
            r@ == recovery_summary(*self),
    {
        if self.success {
            let mut m = owned("Recovery successful. ");
            push_decimal(&mut m, self.actions_taken.len() as u64);
            push_str(&mut m, " action(s) taken: ");
            let a = self.actions_summary();
            push_str(&mut m, a.as_str());
            m
        } else {
            let mut m = owned("Recovery failed. ");
            push_decimal(&mut m, self.actions_taken.len() as u64);
            push_str(&mut m, " action(s) attempted. Error: ");
            match &self.error {
                Some(e) => push_str(&mut m, e.as_str()),
                None => push_str(&mut m, "Unknown"),
            }
            m
        }
    }
}

} // verus!
