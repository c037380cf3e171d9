//! Timeout configuration for every benchScale operation.
use vstd::prelude::*;
use std::time::Duration;
use crate::error::Error;
use crate::text::{owned, parse_unsigned, parse_unsigned_chars, chars_of};
use crate::time::{duration_of_secs, duration_from_secs};

verus! {

/// Timeout configuration (all values in seconds).
#[derive(Debug, Clone, PartialEq, Eq)]
pub struct TimeoutConfig {
    /// Cloud-init completion timeout (default 1800 s).
    pub cloud_init_secs: u64,
    /// DHCP IP discovery timeout (default 60 s).
    pub dhcp_discovery_secs: u64,
    /// VM boot timeout (default 600 s).
    pub vm_boot_secs: u64,
    /// SSH connection timeout (default 30 s).
    pub ssh_connection_secs: u64,
    /// Network ping timeout (default 5 s).
    pub ping_timeout_secs: u64,
    /// Post-boot step timeout (default 600 s).
    pub post_boot_step_secs: u64,
    /// VM reboot timeout (default 600 s).
    pub reboot_timeout_secs: u64,
}

fn default_cloud_init_timeout() -> (r: u64)
    ensures
        r == 1800,
{
    1800
}

fn default_dhcp_discovery_timeout() -> (r: u64)
    ensures
        r == 60,
{
    60
}

fn default_vm_boot_timeout() -> (r: u64)
    ensures
        r == 600,
{
    600
}

fn default_ssh_timeout() -> (r: u64)
    ensures
        r == 30,
{
    30
}

fn default_ping_timeout() -> (r: u64)
    ensures
        r == 5,
{
    5
}

fn default_post_boot_step_timeout() -> (r: u64)
    ensures
        r == 600,
{
    600
}

fn default_reboot_timeout() -> (r: u64)
    ensures
        r == 600,
{
    600
}

/// The default timeouts.
pub open spec fn default_timeouts() -> TimeoutConfig {
    TimeoutConfig {
        cloud_init_secs: 1800,
        dhcp_discovery_secs: 60,
        vm_boot_secs: 600,
        ssh_connection_secs: 30,
        ping_timeout_secs: 5,
        post_boot_step_secs: 600,
        reboot_timeout_secs: 600,
    }
}

impl Default for TimeoutConfig {
    fn default() -> (r: Self)
        ensures
            r == default_timeouts(),
    {
        TimeoutConfig {
            cloud_init_secs: default_cloud_init_timeout(),
            dhcp_discovery_secs: default_dhcp_discovery_timeout(),
            vm_boot_secs: default_vm_boot_timeout(),
            ssh_connection_secs: default_ssh_timeout(),
            ping_timeout_secs: default_ping_timeout(),
            post_boot_step_secs: default_post_boot_step_timeout(),
            reboot_timeout_secs: default_reboot_timeout(),
        }
    }
}

/// Raw values of the `BENCHSCALE_*_TIMEOUT` environment variables, as read
/// by the caller (`None` when a variable is unset).
#[derive(Debug, Clone, Default)]
pub struct TimeoutEnv {
    /// `BENCHSCALE_CLOUD_INIT_TIMEOUT`
    pub cloud_init: Option<String>,
    /// `BENCHSCALE_DHCP_DISCOVERY_TIMEOUT`
    pub dhcp_discovery: Option<String>,
    /// `BENCHSCALE_VM_BOOT_TIMEOUT`
    pub vm_boot: Option<String>,
    /// `BENCHSCALE_SSH_TIMEOUT`
    pub ssh: Option<String>,
    /// `BENCHSCALE_PING_TIMEOUT`
    pub ping: Option<String>,
    /// `BENCHSCALE_POST_BOOT_STEP_TIMEOUT`
    pub post_boot_step: Option<String>,
    /// `BENCHSCALE_REBOOT_TIMEOUT`
    pub reboot: Option<String>,
}

/// The value after an override: the parsed number when the variable is set
/// and parses as a `u64`, the current value otherwise.
pub open spec fn overridden(current: u64, var: Option<String>) -> u64 {
    match var {
        Some(s) => match parse_unsigned(s@, u64::MAX as nat) {
            Some(v) => v as u64,
            None => current,
        },
        None => current,
    }
}

fn override_value(current: u64, var: &Option<String>) -> (r: u64)
    ensures
        r == overridden(current, *var),
{
    match var {
        Some(s) => {
            let cs = chars_of(s.as_str());
            match parse_unsigned_chars(cs.as_slice(), u64::MAX) {
                Some(v) => v,
                None => current,
            }
        },
        None => current,
    }
}

/// The first problem [`TimeoutConfig::validate`] reports, if any.
pub open spec fn timeout_problem(c: TimeoutConfig) -> Option<Seq<char>> {
    if c.cloud_init_secs == 0 {
        Some("cloud_init_secs must be > 0"@)
    } else if c.dhcp_discovery_secs == 0 {
        Some("dhcp_discovery_secs must be > 0"@)
    } else if c.vm_boot_secs == 0 {
        Some("vm_boot_secs must be > 0"@)
    } else if c.ssh_connection_secs == 0 {
        Some("ssh_connection_secs must be > 0"@)
    } else if c.ping_timeout_secs == 0 {
        Some("ping_timeout_secs must be > 0"@)
    } else if c.post_boot_step_secs == 0 {
        Some("post_boot_step_secs must be > 0"@)
    } else if c.reboot_timeout_secs == 0 {
        Some("reboot_timeout_secs must be > 0"@)
    } else if c.cloud_init_secs > 86400 {
        Some("cloud_init_secs exceeds 24 hours"@)
    } else if c.dhcp_discovery_secs > 86400 {
        Some("dhcp_discovery_secs exceeds 24 hours"@)
    } else if c.vm_boot_secs > 86400 {
        Some("vm_boot_secs exceeds 24 hours"@)
    } else if c.ssh_connection_secs > 86400 {
        Some("ssh_connection_secs exceeds 24 hours"@)
    } else if c.ping_timeout_secs > 86400 {
        Some("ping_timeout_secs exceeds 24 hours"@)
    } else if c.post_boot_step_secs > 86400 {
        Some("post_boot_step_secs exceeds 24 hours"@)
    } else if c.reboot_timeout_secs > 86400 {
        Some("reboot_timeout_secs exceeds 24 hours"@)
    } else {
        None
    }
}

/// Largest accepted value of any timeout: 24 hours.
pub const MAX_TIMEOUT: u64 = 86400;

impl TimeoutConfig {
    /// Cloud-init timeout as a span.
    pub fn cloud_init(&self) -> (d: Duration)
        ensures
            d == duration_of_secs(self.cloud_init_secs),
    {
        duration_from_secs(self.cloud_init_secs)
    }

    /// DHCP discovery timeout as a span.
    pub fn dhcp_discovery(&self) -> (d: Duration)
        ensures
            d == duration_of_secs(self.dhcp_discovery_secs),
    {
        duration_from_secs(self.dhcp_discovery_secs)
    }

    /// VM boot timeout as a span.
    pub fn vm_boot(&self) -> (d: Duration)
        ensures
            d == duration_of_secs(self.vm_boot_secs),
    {
        duration_from_secs(self.vm_boot_secs)
    }

    /// SSH connection timeout as a span.
    pub fn ssh_connection(&self) -> (d: Duration)
        ensures
            d == duration_of_secs(self.ssh_connection_secs),
    {
        duration_from_secs(self.ssh_connection_secs)
    }

    /// Ping timeout as a span.
    pub fn ping_timeout(&self) -> (d: Duration)
        ensures
            d == duration_of_secs(self.ping_timeout_secs),
    {
        duration_from_secs(self.ping_timeout_secs)
    }

    /// Post-boot step timeout as a span.
    pub fn post_boot_step(&self) -> (d: Duration)
        ensures
            d == duration_of_secs(self.post_boot_step_secs),
    {
        duration_from_secs(self.post_boot_step_secs)
    }

    /// Reboot timeout as a span.
    pub fn reboot_timeout(&self) -> (d: Duration)
        ensures
            d == duration_of_secs(self.reboot_timeout_secs),
    {
        duration_from_secs(self.reboot_timeout_secs)
    }

    /// Applies the `BENCHSCALE_*_TIMEOUT` overrides: every variable that is
    /// set and parses as a `u64` replaces its timeout; the others leave it.
    pub fn apply_env_overrides(&mut self, env: &TimeoutEnv)
        ensures
            final(self).cloud_init_secs == overridden(old(self).cloud_init_secs, env.cloud_init),
            final(self).dhcp_discovery_secs == overridden(
                old(self).dhcp_discovery_secs,
                env.dhcp_discovery,
            ),
            final(self).vm_boot_secs == overridden(old(self).vm_boot_secs, env.vm_boot),
            final(self).ssh_connection_secs == overridden(old(self).ssh_connection_secs, env.ssh),
            final(self).ping_timeout_secs == overridden(old(self).ping_timeout_secs, env.ping),
            final(self).post_boot_step_secs == overridden(
                old(self).post_boot_step_secs,
                env.post_boot_step,
            ),
            final(self).reboot_timeout_secs == overridden(old(self).reboot_timeout_secs, env.reboot),
    {
        self.cloud_init_secs = override_value(self.cloud_init_secs, &env.cloud_init);
        self.dhcp_discovery_secs = override_value(self.dhcp_discovery_secs, &env.dhcp_discovery);
        self.vm_boot_secs = override_value(self.vm_boot_secs, &env.vm_boot);
        self.ssh_connection_secs = override_value(self.ssh_connection_secs, &env.ssh);
        self.ping_timeout_secs = override_value(self.ping_timeout_secs, &env.ping);
        self.post_boot_step_secs = override_value(self.post_boot_step_secs, &env.post_boot_step);
        self.reboot_timeout_secs = override_value(self.reboot_timeout_secs, &env.reboot);
    }

    /// Validates the timeouts: each must be positive and none may exceed
    /// 24 hours.
    pub fn validate(&self) -> (r: Result<(), Error>)
        ensures
            match timeout_problem(*self) {
                None => r is Ok,
                Some(m) => r matches Err(Error::Other(e)) && e@ == m,
            },
    {
        let m = if self.cloud_init_secs == 0 {
            "cloud_init_secs must be > 0"
        } else if self.dhcp_discovery_secs == 0 {
            "dhcp_discovery_secs must be > 0"
        } else if self.vm_boot_secs == 0 {
            "vm_boot_secs must be > 0"
        } else if self.ssh_connection_secs == 0 {
            "ssh_connection_secs must be > 0"
        } else if self.ping_timeout_secs == 0 {
            "ping_timeout_secs must be > 0"
        } else if self.post_boot_step_secs == 0 {
            "post_boot_step_secs must be > 0"
        } else if self.reboot_timeout_secs == 0 {
            "reboot_timeout_secs must be > 0"
        } else if self.cloud_init_secs > MAX_TIMEOUT {
            "cloud_init_secs exceeds 24 hours"
        } else if self.dhcp_discovery_secs > MAX_TIMEOUT {
            "dhcp_discovery_secs exceeds 24 hours"
        } else if self.vm_boot_secs > MAX_TIMEOUT {
            "vm_boot_secs exceeds 24 hours"
        } else if self.ssh_connection_secs > MAX_TIMEOUT {
            "ssh_connection_secs exceeds 24 hours"
        } else if self.ping_timeout_secs > MAX_TIMEOUT {
            "ping_timeout_secs exceeds 24 hours"
        } else if self.post_boot_step_secs > MAX_TIMEOUT {
            "post_boot_step_secs exceeds 24 hours"
        } else if self.reboot_timeout_secs > MAX_TIMEOUT {
            "reboot_timeout_secs exceeds 24 hours"
        } else {
            return Ok(());
        };
        Err(Error::Other(owned(m)))
    }
}

} // verus!
