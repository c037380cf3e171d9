//! VM health from the serial console log and the VM's address.
use vstd::prelude::*;
use std::time::Duration;
use crate::backend::serial_console::{
    boot_complete, boot_time_in, error_lines, extract_errors,
    is_boot_complete, parse_boot_time_ms,
};
use crate::error::Error;
use crate::text::{chars_of, join, join_strings, lines_of, owned, push_decimal, push_str, str_eq, views};
use crate::time::{duration_from_secs, duration_of_secs, elapsed_since, instant_now};

verus! {

/// VM health status.
#[derive(Debug, Clone, Copy, PartialEq, Eq, Structural)]
pub enum HealthStatus {
    /// Healthy and operational.
    Healthy,
    /// Still booting.
    Booting,
    /// Unhealthy.
    Unhealthy,
    /// Not known.
    Unknown,
}

/// The result of a health check.
#[derive(Debug, Clone)]
pub struct HealthCheck {
    /// Overall status.
    pub status: HealthStatus,
    /// The boot logger reported completion.
    pub boot_complete: bool,
    /// Boot time in milliseconds, when reported.
    pub boot_time_ms: Option<u64>,
    /// The VM has a usable address.
    pub network_reachable: bool,
    /// How long the check took.
    pub check_duration: Duration,
    /// Error lines from the log.
    pub errors: Vec<String>,
}

impl HealthCheck {
    /// A result with the given status and nothing else known.
    pub fn new(status: HealthStatus) -> (r: Self)
        ensures
            r.status == status,
            !r.boot_complete,
            r.boot_time_ms is None,
            !r.network_reachable,
            r.check_duration == duration_of_secs(0),
            r.errors@.len() == 0,
    {
        HealthCheck {
            status,
            boot_complete: false,
            boot_time_ms: None,
            network_reachable: false,
            check_duration: duration_from_secs(0),
            errors: Vec::new(),
        }
    }

    /// Whether the VM is healthy.
    pub fn is_healthy(&self) -> (r: bool)
        ensures
            r == (self.status == HealthStatus::Healthy),
    {
        self.status == HealthStatus::Healthy
    }

    /// Whether the VM is ready for use: booted and reachable.
    pub fn is_ready(&self) -> (r: bool)
        ensures
            r == (self.boot_complete && self.network_reachable),
    {
        self.boot_complete && self.network_reachable
    }
}

/// A VM is taken to be reachable once it has an address other than
/// `0.0.0.0`.
pub open spec fn reachable_address(ip: Seq<char>) -> bool {
    ip.len() > 0 && ip != "0.0.0.0"@
}

/// The status a check derives: healthy when booted, reachable and free of
/// errors; unhealthy when booted with errors; booting until the boot
/// completes; unknown otherwise.
pub open spec fn health_of(booted: bool, reachable: bool, has_errors: bool) -> HealthStatus {
    if booted && reachable && !has_errors {
        HealthStatus::Healthy
    } else if booted && has_errors {
        HealthStatus::Unhealthy
    } else if !booted {
        HealthStatus::Booting
    } else {
        HealthStatus::Unknown
    }
}

/// VM health monitor: how often to check and how long a boot may take.
pub struct HealthMonitor {
    check_interval: Duration,
    boot_timeout: Duration,
}

/// What waiting for a healthy VM does after one check.
#[derive(Debug, Clone)]
pub enum HealthWait {
    /// The VM is healthy: done, with the check.
    Ready(HealthCheck),
    /// The VM is unhealthy: give up with this error.
    Unhealthy(Error),
    /// Check again after the interval.
    Retry,
}

impl HealthMonitor {
    /// A monitor checking every 5 s with a 5 minute boot timeout.
    pub fn new() -> (r: Self)
        ensures
            r.check_interval() == duration_of_secs(5),
            r.boot_timeout() == duration_of_secs(300),
    {
        HealthMonitor { check_interval: duration_from_secs(5), boot_timeout: duration_from_secs(300) }
    }

    /// A monitor with the given interval and boot timeout.
    pub fn with_timeouts(check_interval: Duration, boot_timeout: Duration) -> (r: Self)
        ensures
            r.check_interval() == check_interval,
            r.boot_timeout() == boot_timeout,
    {
        HealthMonitor { check_interval, boot_timeout }
    }

    /// The check interval.
    pub closed spec fn check_interval_spec(&self) -> Duration {
        self.check_interval
    }

    /// The boot timeout.
    pub closed spec fn boot_timeout_spec(&self) -> Duration {
        self.boot_timeout
    }

    /// The check interval.
    #[verifier::when_used_as_spec(check_interval_spec)]
    pub fn check_interval(&self) -> (r: Duration)
        ensures
            r == self.check_interval_spec(),
    {
        self.check_interval
    }

    /// The boot timeout.
    #[verifier::when_used_as_spec(boot_timeout_spec)]
    pub fn boot_timeout(&self) -> (r: Duration)
        ensures
            r == self.boot_timeout_spec(),
    {
        self.boot_timeout
    }

    /// Checks a VM's health from its serial console log and address.
    pub fn check_vm_health(&self, serial_log_content: &str, ip_address: &str) -> (r: HealthCheck)
        ensures
            r.boot_complete == boot_complete(serial_log_content@),
            match boot_time_in(lines_of(serial_log_content@)) {
                Some(v) => r.boot_time_ms == Some(v as u64),
                None => r.boot_time_ms is None,
            },
            r.network_reachable == reachable_address(ip_address@),
            views(r.errors@) == error_lines(lines_of(serial_log_content@)),
            r.status == health_of(r.boot_complete, r.network_reachable, r.errors@.len() > 0),
    {
        let start = instant_now();
        let boot_complete = is_boot_complete(serial_log_content);
        let boot_time_ms = parse_boot_time_ms(serial_log_content);
        let errors = extract_errors(serial_log_content);
        let network_reachable = !ip_address.is_empty() && !str_eq(ip_address, "0.0.0.0");
        let has_errors = errors.len() > 0;
        let status = if boot_complete && network_reachable && !has_errors {
            HealthStatus::Healthy
        } else if boot_complete && has_errors {
            HealthStatus::Unhealthy
        } else if !boot_complete {
            HealthStatus::Booting
        } else {
            HealthStatus::Unknown
        };
        let check_duration = elapsed_since(&start);
        HealthCheck { status, boot_complete, boot_time_ms, network_reachable, check_duration, errors }
    }

    /// What waiting for a healthy VM does with one check's result: a
    /// healthy VM is done, an unhealthy one fails with its errors joined by
    /// `, `, anything else is checked again.
    pub fn wait_step(health: HealthCheck) -> (r: HealthWait)
        ensures
            health.status == HealthStatus::Healthy ==> r == HealthWait::Ready(health),
            health.status == HealthStatus::Unhealthy ==> (r matches HealthWait::Unhealthy(
                Error::Backend(m),
            ) && m@ == "VM is unhealthy: "@ + join(views(health.errors@), ", "@)),
            health.status != HealthStatus::Healthy && health.status != HealthStatus::Unhealthy
                ==> r is Retry,
    {
        if health.is_healthy() {
            HealthWait::Ready(health)
        } else if health.status == HealthStatus::Unhealthy {
            let mut m = owned("VM is unhealthy: ");
            let j = join_strings(&health.errors, ", ");
            push_str(&mut m, j.as_str());
            HealthWait::Unhealthy(Error::Backend(m))
        } else {
            HealthWait::Retry
        }
    }

    /// The error of a boot that took longer than the timeout.
    pub fn timeout_error(timeout_secs: u64) -> (r: Error)
        ensures
            r matches Error::Backend(m) && m@ == "Timeout waiting for VM to become healthy ("@
                + crate::text::decimal(timeout_secs as nat) + "s)"@,
    {
        let mut m = owned("Timeout waiting for VM to become healthy (");
        push_decimal(&mut m, timeout_secs);
        push_str(&mut m, "s)");
        Error::Backend(m)
    }
}

impl Default for HealthMonitor {
    fn default() -> (r: Self)
        ensures
            r.check_interval() == duration_of_secs(5),
            r.boot_timeout() == duration_of_secs(300),
    {
        HealthMonitor::new()
    }
}

} // verus!
