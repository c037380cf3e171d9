//! Monitoring configuration: health checks, senescence detection and DHCP
//! IP re-discovery.
use vstd::prelude::*;
use std::time::Duration;
use crate::error::Error;
use crate::text::owned;
use crate::time::{duration_of_secs, duration_from_secs};

verus! {

/// Monitoring configuration for VM health checks and senescence detection.
#[derive(Debug, Clone, PartialEq, Eq)]
pub struct MonitoringConfig {
    /// Health check interval in seconds (default 10).
    pub check_interval_secs: u64,
    /// Consecutive failures before a VM is declared failed (default 10).
    pub max_failures: u32,
    /// Seconds without progress before a VM counts as stalled (default 120).
    pub stall_threshold_secs: u64,
    /// Health checks between DHCP lease re-checks (default 10).
    pub ip_rediscovery_interval: u32,
    /// Whether IP re-discovery runs at all (default true).
    pub enable_ip_rediscovery: bool,
}

fn default_check_interval() -> (r: u64)
    ensures
        r == 10,
{
    10
}

fn default_max_failures() -> (r: u32)
    ensures
        r == 10,
{
    10
}

fn default_stall_threshold() -> (r: u64)
    ensures
        r == 120,
{
    120
}

fn default_ip_rediscovery_interval() -> (r: u32)
    ensures
        r == 10,
{
    10
}

fn default_enable_ip_rediscovery() -> (r: bool)
    ensures
        r,
{
    true
}

/// The default monitoring settings.
pub open spec fn default_monitoring() -> MonitoringConfig {
    MonitoringConfig {
        check_interval_secs: 10,
        max_failures: 10,
        stall_threshold_secs: 120,
        ip_rediscovery_interval: 10,
        enable_ip_rediscovery: true,
    }
}

impl Default for MonitoringConfig {
    fn default() -> (r: Self)
        ensures
            r == default_monitoring(),
    {
        MonitoringConfig {
            check_interval_secs: default_check_interval(),
            max_failures: default_max_failures(),
            stall_threshold_secs: default_stall_threshold(),
            ip_rediscovery_interval: default_ip_rediscovery_interval(),
            enable_ip_rediscovery: default_enable_ip_rediscovery(),
        }
    }
}

/// The first problem [`MonitoringConfig::validate`] reports, if any.
pub open spec fn monitoring_problem(c: MonitoringConfig) -> Option<Seq<char>> {
    if c.check_interval_secs == 0 {
        Some("check_interval_secs must be > 0"@)
    } else if c.max_failures == 0 {
        Some("max_failures must be > 0"@)
    } else if c.stall_threshold_secs == 0 {
        Some("stall_threshold_secs must be > 0"@)
    } else if c.ip_rediscovery_interval == 0 {
        Some("ip_rediscovery_interval must be > 0"@)
    } else if c.check_interval_secs > 300 {
        Some("check_interval_secs > 5min is unreasonably long"@)
    } else if c.max_failures > 3600 {
        Some("max_failures > 3600 is unreasonably large"@)
    } else {
        None
    }
}

impl MonitoringConfig {
    /// Check interval as a span.
    pub fn check_interval(&self) -> (d: Duration)
        ensures
            d == duration_of_secs(self.check_interval_secs),
    {
        duration_from_secs(self.check_interval_secs)
    }

    /// Stall threshold as a span.
    pub fn stall_threshold(&self) -> (d: Duration)
        ensures
            d == duration_of_secs(self.stall_threshold_secs),
    {
        duration_from_secs(self.stall_threshold_secs)
    }

    /// Total failure tolerance: `max_failures` checks of `check_interval`.
    pub fn failure_tolerance(&self) -> (d: Duration)
        requires
            self.check_interval_secs * self.max_failures <= u64::MAX,
        ensures
            d == duration_of_secs((self.check_interval_secs * self.max_failures) as u64),
    {
        duration_from_secs(self.check_interval_secs * (self.max_failures as u64))
    }

    /// Real time between IP re-discoveries: `ip_rediscovery_interval` checks
    /// of `check_interval`.
    pub fn ip_rediscovery_duration(&self) -> (d: Duration)
        requires
            self.check_interval_secs * self.ip_rediscovery_interval <= u64::MAX,
        ensures
            d == duration_of_secs((self.check_interval_secs * self.ip_rediscovery_interval) as u64),
    {
        duration_from_secs(self.check_interval_secs * (self.ip_rediscovery_interval as u64))
    }

    /// Settings for quick VMs: 10 failures of 10 s checks (100 s).
    pub fn for_quick_vms() -> (r: Self)
        ensures
            r == (MonitoringConfig { max_failures: 10, ..default_monitoring() }),
    {
        MonitoringConfig { max_failures: 10, ..Default::default() }
    }

    /// Settings for desktop builds: 60 failures (10 min), 3 min stall
    /// threshold.
    pub fn for_desktop_builds() -> (r: Self)
        ensures
            r == (MonitoringConfig {
                max_failures: 60,
                stall_threshold_secs: 180,
                ..default_monitoring()
            }),
    {
        MonitoringConfig { max_failures: 60, stall_threshold_secs: 180, ..Default::default() }
    }

    /// Settings for cloud-init with package downloads: 180 failures (30 min),
    /// 5 min stall threshold.
    pub fn for_cloud_init_packages() -> (r: Self)
        ensures
            r == (MonitoringConfig {
                max_failures: 180,
                stall_threshold_secs: 300,
                ..default_monitoring()
            }),
    {
        MonitoringConfig { max_failures: 180, stall_threshold_secs: 300, ..Default::default() }
    }

    /// Validates the settings: every interval and count positive, checks at
    /// most 5 minutes apart, at most 3600 tolerated failures.
    pub fn validate(&self) -> (r: Result<(), Error>)
        ensures
            match monitoring_problem(*self) {
                None => r is Ok,
                Some(m) => r matches Err(Error::Other(e)) && e@ == m,
            },
    {
        let m = if self.check_interval_secs == 0 {
            "check_interval_secs must be > 0"
        } else if self.max_failures == 0 {
            "max_failures must be > 0"
        } else if self.stall_threshold_secs == 0 {
            "stall_threshold_secs must be > 0"
        } else if self.ip_rediscovery_interval == 0 {
            "ip_rediscovery_interval must be > 0"
        } else if self.check_interval_secs > 300 {
            "check_interval_secs > 5min is unreasonably long"
        } else if self.max_failures > 3600 {
            "max_failures > 3600 is unreasonably large"
        } else {
            return Ok(());
        };
        Err(Error::Other(owned(m)))
    }
}

} // verus!
