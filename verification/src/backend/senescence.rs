//! VM senescence monitoring: the state a monitor keeps for one VM and the
//! decisions of each health check. The probes themselves (TCP connect, SSH,
//! `cloud-init status`) and the timer run outside; each step here takes
//! their results and returns what to do next.
use vstd::prelude::*;
use std::time::Duration;
use crate::config::MonitoringConfig;
use crate::error::Error;
use crate::time::{debug_duration, duration_debug};
use crate::text::{owned, push_str, str_eq, views};

verus! {

/// VM health status.
#[derive(Debug, Clone, Copy, PartialEq, Eq, Structural)]
pub enum HealthStatus {
    /// The VM is healthy and responding.
    Healthy,
    /// The VM is running but not responding to checks.
    Degraded,
    /// The VM appears hung.
    Stalled,
    /// The VM has failed.
    Failed,
    /// Not known yet (initial state).
    Unknown,
}

/// Cloud-init status values from `cloud-init status --format=json`.
#[derive(Debug, Clone, PartialEq, Eq)]
pub enum CloudInitStatus {
    /// Cloud-init is still running modules.
    Running,
    /// All modules finished successfully.
    Done,
    /// Cloud-init reported an error state.
    Error,
    /// Cloud-init is disabled on this instance.
    Disabled,
    /// A status word this library does not know.
    Unknown(String),
}

/// The status a status word stands for.
pub open spec fn status_of_word(s: Seq<char>) -> CloudInitStatus {
    if s == "running"@ {
        CloudInitStatus::Running
    } else if s == "done"@ {
        CloudInitStatus::Done
    } else if s == "error"@ {
        CloudInitStatus::Error
    } else if s == "disabled"@ {
        CloudInitStatus::Disabled
    } else {
        CloudInitStatus::Unknown(arbitrary())
    }
}

/// The word a status is written as.
pub open spec fn status_word(s: CloudInitStatus) -> Seq<char> {
    match s {
        CloudInitStatus::Running => "running"@,
        CloudInitStatus::Done => "done"@,
        CloudInitStatus::Error => "error"@,
        CloudInitStatus::Disabled => "disabled"@,
        CloudInitStatus::Unknown(w) => w@,
    }
}

impl CloudInitStatus {
    /// The status a status word stands for; an unknown word is kept.
    pub fn from_status_str(s: &str) -> (r: Self)
        ensures
            match status_of_word(s@) {
                CloudInitStatus::Unknown(_) => r matches CloudInitStatus::Unknown(w) && w@ == s@,
                known => r == known,
            },
    {
        if str_eq(s, "running") {
            CloudInitStatus::Running
        } else if str_eq(s, "done") {
            CloudInitStatus::Done
        } else if str_eq(s, "error") {
            CloudInitStatus::Error
        } else if str_eq(s, "disabled") {
            CloudInitStatus::Disabled
        } else {
            CloudInitStatus::Unknown(owned(s))
        }
    }

    /// The word the status is written as.
    pub fn display_string(&self) -> (r: String)
        ensures
            r@ == status_word(*self),
    {
        match self {
            CloudInitStatus::Running => owned("running"),
            CloudInitStatus::Done => owned("done"),
            CloudInitStatus::Error => owned("error"),
            CloudInitStatus::Disabled => owned("disabled"),
            CloudInitStatus::Unknown(w) => w.clone(),
        }
    }

    /// Whether cloud-init has finished.
    pub fn is_done(&self) -> (r: bool)
        ensures
            r == (*self is Done),
    {
        match self {
            CloudInitStatus::Done => true,
            _ => false,
        }
    }
}

/// Cloud-init progress as last reported by the guest.
#[derive(Debug, Clone)]
pub struct CloudInitProgress {
    /// Current status.
    pub status: CloudInitStatus,
    /// Detailed stage information.
    pub detail: Option<String>,
    /// Errors reported.
    pub errors: Vec<String>,
}

/// `r` is the status the word `w` stands for, an unknown word kept.
pub open spec fn is_status_of(r: CloudInitStatus, w: Seq<char>) -> bool {
    match status_of_word(w) {
        CloudInitStatus::Unknown(_) => r matches CloudInitStatus::Unknown(x) && x@ == w,
        known => r == known,
    }
}

/// A text that may be absent, as characters.
pub open spec fn opt_text(o: Option<String>) -> Option<Seq<char>> {
    match o {
        Some(s) => Some(s@),
        None => None,
    }
}

/// The progress cloud-init reports: its status word (`unknown` when it
/// gives none), its detail, and its error messages.
pub fn cloud_init_progress(status: Option<String>, detail: Option<String>, errors: Vec<String>) -> (r: CloudInitProgress)
    ensures
        is_status_of(r.status, match status {
            Some(w) => w@,
            None => "unknown"@,
        }),
        r.detail == detail,
        r.errors == errors,
{
    let word = match status {
        Some(w) => w,
        None => owned("unknown"),
    };
    CloudInitProgress { status: CloudInitStatus::from_status_str(word.as_str()), detail, errors }
}

/// The fields of the JSON object `cloud-init status --format=json` prints,
/// as `serde_json` reads them: the `status` and `detail` strings (absent
/// when missing or not strings), and the `errors` array with each entry's
/// string (absent when it is not one) when `errors` is an array; or the
/// text of the parse error.
pub uninterp spec fn cloud_init_status_json(
    text: Seq<char>,
) -> Result<(Option<Seq<char>>, Option<Seq<char>>, Option<Seq<Option<Seq<char>>>>), Seq<char>>;

/// Reads the status object with `serde_json::from_str` into a
/// `serde_json::Value` and picks its fields.
///
/// Trusted: the outcome depends on the text alone, named by
/// [`cloud_init_status_json`].
#[verifier::external_body]
fn parse_status_json(text: &str) -> (r: Result<(Option<String>, Option<String>, Option<Vec<Option<String>>>), String>)
    ensures
        match cloud_init_status_json(text@) {
            Ok(f) => r matches Ok(g) && opt_text(g.0) == f.0 && opt_text(g.1) == f.1 && match f.2 {
                Some(es) => g.2 matches Some(v) && v@.map_values(|e: Option<String>| opt_text(e)) == es,
                None => g.2 is None,
            },
            Err(e) => r matches Err(m) && m@ == e,
        },
{
    let v: serde_json::Value = serde_json::from_str(text).map_err(|e| e.to_string())?;
    let text_of = |x: &serde_json::Value| x.as_str().map(String::from);
    let errors = v["errors"].as_array().map(|a| a.iter().map(text_of).collect());
    Ok((text_of(&v["status"]), text_of(&v["detail"]), errors))
}

/// The texts among the entries of an error list, in order; none without a
/// list.
pub open spec fn present_texts(es: Option<Seq<Option<Seq<char>>>>) -> Seq<Seq<char>> {
    match es {
        Some(s) => texts_of(s),
        None => Seq::empty(),
    }
}

/// The entries that are texts, in order.
pub open spec fn texts_of(s: Seq<Option<Seq<char>>>) -> Seq<Seq<char>>
    decreases s.len(),
{
    if s.len() == 0 {
        Seq::empty()
    } else {
        match s.last() {
            Some(t) => texts_of(s.drop_last()).push(t),
            None => texts_of(s.drop_last()),
        }
    }
}

fn present_strings(es: Option<Vec<Option<String>>>) -> (r: Vec<String>)
    ensures
        views(r@) == present_texts(match es {
            Some(v) => Some(v@.map_values(|e: Option<String>| opt_text(e))),
            None => None,
        }),
{
    let mut out: Vec<String> = Vec::new();
    match es {
        None => {
            proof {
                assert(views(out@) =~= Seq::<Seq<char>>::empty());
            }
            out
        },
        Some(v) => {
            let ghost s = v@.map_values(|e: Option<String>| opt_text(e));
            let mut i: usize = 0;
            proof {
                assert(s.take(0) =~= Seq::<Option<Seq<char>>>::empty());
                assert(views(out@) =~= Seq::<Seq<char>>::empty());
            }
            while i < v.len()
                invariant
                    i <= v.len(),
                    s == v@.map_values(|e: Option<String>| opt_text(e)),
                    views(out@) == texts_of(s.take(i as int)),
                decreases v.len() - i,
            {
                proof {
                    assert(s.take(i + 1).drop_last() =~= s.take(i as int));
                    assert(s.take(i + 1).last() == opt_text(v@[i as int]));
                }
                match &v[i] {
                    Some(t) => {
                        let ghost before = views(out@);
                        out.push(t.clone());
                        proof {
                            assert(views(out@) =~= before.push(t@));
                        }
                    },
                    None => {},
                }
                i = i + 1;
            }
            proof {
                assert(s.take(v@.len() as int) =~= s);
            }
            out
        },
    }
}

/// The progress a `cloud-init status --format=json` output reports, or a
/// monitoring error when it is no JSON.
pub fn cloud_init_progress_from_json(stdout: &str) -> (r: Result<CloudInitProgress, Error>)
    ensures
        match cloud_init_status_json(stdout@) {
            Ok(f) => r matches Ok(p) && is_status_of(p.status, match f.0 {
                Some(w) => w,
                None => "unknown"@,
            }) && opt_text(p.detail) == f.1 && views(p.errors@) == present_texts(f.2),
            Err(e) => r matches Err(Error::Monitoring(m)) && m@ == "Failed to parse cloud-init status JSON: "@ + e,
        },
{
    match parse_status_json(stdout) {
        Ok((status, detail, errors)) => {
            proof {
                if detail is Some {
                    assert(opt_text(detail) == Some(detail->0@));
                }
            }
            let errs = present_strings(errors);
            Ok(cloud_init_progress(status, detail, errs))
        },
        Err(e) => {
            let mut m = owned("Failed to parse cloud-init status JSON: ");
            push_str(&mut m, e.as_str());
            Err(Error::Monitoring(m))
        },
    }
}

/// What a monitor knows of one VM.
#[derive(Debug, Clone)]
pub struct SenescenceMetrics {
    /// IP address being monitored.
    pub ip_address: String,
    /// VM name.
    pub vm_name: String,
    /// MAC address, for DHCP lease tracking.
    pub mac_address: Option<String>,
    /// Overall health.
    pub health: HealthStatus,
    /// The VM answered the last reachability probe.
    pub ping_ok: bool,
    /// SSH was accessible at the last check.
    pub ssh_ok: bool,
    /// Cloud-init progress, once read.
    pub cloud_init: Option<CloudInitProgress>,
    /// Time since monitoring started.
    pub uptime: Duration,
    /// Seconds of checks without cloud-init finishing since it last did.
    pub time_since_healthy_secs: u64,
    /// Consecutive failed checks.
    pub consecutive_failures: u32,
    /// Health checks performed.
    pub check_count: u32,
}

/// The settings a monitor checks by.
#[derive(Debug, Clone, PartialEq, Eq)]
pub struct MonitorSettings {
    /// Seconds between checks.
    pub check_interval_secs: u64,
    /// Seconds without progress before the VM counts as stalled.
    pub stall_threshold_secs: u64,
    /// Consecutive unreachable checks tolerated before the VM has failed.
    pub max_failures: u32,
    /// Checks between DHCP lease re-checks; never zero.
    pub ip_rediscovery_interval: u32,
    /// SSH private key to authenticate with.
    pub ssh_identity: Option<String>,
}

impl MonitorSettings {
    /// Settings taken from a monitoring configuration.
    pub fn from_config(config: &MonitoringConfig) -> (r: Self)
        ensures
            r.check_interval_secs == config.check_interval_secs,
            r.stall_threshold_secs == config.stall_threshold_secs,
            r.max_failures == config.max_failures,
            r.ip_rediscovery_interval == config.ip_rediscovery_interval,
            r.ssh_identity is None,
    {
        MonitorSettings {
            check_interval_secs: config.check_interval_secs,
            stall_threshold_secs: config.stall_threshold_secs,
            max_failures: config.max_failures,
            ip_rediscovery_interval: config.ip_rediscovery_interval,
            ssh_identity: None,
        }
    }

    /// The settings of a monitor built without a configuration: checks
    /// every 10 s, stalled after 2 minutes, failed after 10 unreachable
    /// checks, leases re-checked every 10 checks.
    pub fn standard() -> (r: Self)
        ensures
            r.check_interval_secs == 10,
            r.stall_threshold_secs == 120,
            r.max_failures == 10,
            r.ip_rediscovery_interval == 10,
            r.ssh_identity is None,
    {
        MonitorSettings {
            check_interval_secs: 10,
            stall_threshold_secs: 120,
            max_failures: 10,
            ip_rediscovery_interval: 10,
            ssh_identity: None,
        }
    }

    /// The same settings with another failure limit.
    pub fn with_max_failures(self, max_failures: u32) -> (r: Self)
        ensures
            r == (MonitorSettings { max_failures, ..self }),
    {
        MonitorSettings { max_failures, ..self }
    }

    /// The same settings with an SSH private key.
    pub fn with_ssh_identity(self, path: String) -> (r: Self)
        ensures
            r == (MonitorSettings { ssh_identity: Some(path), ..self }),
    {
        MonitorSettings { ssh_identity: Some(path), ..self }
    }

    /// The arguments of an `ssh` call to `username@ip`: no host-key checks,
    /// a 3 s connect timeout, batch mode, and the key when one is set.
    pub fn ssh_args(&self, ip: &str, username: &str) -> (r: Vec<String>)
        ensures
            r@.len() == 9 + if self.ssh_identity is Some { 2int } else { 0 },
            r@[0]@ == "-o"@ && r@[1]@ == "StrictHostKeyChecking=no"@,
            r@[2]@ == "-o"@ && r@[3]@ == "UserKnownHostsFile=/dev/null"@,
            r@[4]@ == "-o"@ && r@[5]@ == "ConnectTimeout=3"@,
            r@[6]@ == "-o"@ && r@[7]@ == "BatchMode=yes"@,
            match self.ssh_identity {
                Some(k) => r@[8]@ == "-i"@ && r@[9]@ == k@,
                None => true,
            },
            r@.last()@ == username@ + "@"@ + ip@,
    {
        let mut args: Vec<String> = Vec::new();
        args.push(owned("-o"));
        args.push(owned("StrictHostKeyChecking=no"));
        args.push(owned("-o"));
        args.push(owned("UserKnownHostsFile=/dev/null"));
        args.push(owned("-o"));
        args.push(owned("ConnectTimeout=3"));
        args.push(owned("-o"));
        args.push(owned("BatchMode=yes"));
        match &self.ssh_identity {
            Some(k) => {
                args.push(owned("-i"));
                args.push(k.clone());
            },
            None => {},
        }
        let mut target = owned(username);
        push_str(&mut target, "@");
        push_str(&mut target, ip);
        args.push(target);
        args
    }
}

/// The metrics of a VM before its first check.
pub open spec fn is_initial(m: SenescenceMetrics) -> bool {
    &&& m.health == HealthStatus::Unknown
    &&& !m.ping_ok
    &&& !m.ssh_ok
    &&& m.cloud_init is None
    &&& m.time_since_healthy_secs == 0
    &&& m.consecutive_failures == 0
    &&& m.check_count == 0
}

impl SenescenceMetrics {
    /// The metrics of a VM before its first check.
    pub fn initial(vm_name: String, ip_address: String, mac_address: Option<String>, zero: Duration) -> (r: Self)
        ensures
            is_initial(r),
            r.vm_name == vm_name,
            r.ip_address == ip_address,
            r.mac_address == mac_address,
            r.uptime == zero,
    {
        SenescenceMetrics {
            ip_address,
            vm_name,
            mac_address,
            health: HealthStatus::Unknown,
            ping_ok: false,
            ssh_ok: false,
            cloud_init: None,
            uptime: zero,
            time_since_healthy_secs: 0,
            consecutive_failures: 0,
            check_count: 0,
        }
    }

    /// Whether the VM counts as healthy: healthy, or not checked yet.
    pub fn is_healthy(&self) -> (r: bool)
        ensures
            r == (self.health == HealthStatus::Healthy || self.health == HealthStatus::Unknown),
    {
        self.health == HealthStatus::Healthy || self.health == HealthStatus::Unknown
    }

    /// Whether the VM appears stalled.
    pub fn is_stalled(&self) -> (r: bool)
        ensures
            r == (self.health == HealthStatus::Stalled),
    {
        self.health == HealthStatus::Stalled
    }
}

/// What one check decides from the probe results: the health, the
/// consecutive failures, and the seconds since cloud-init was last seen
/// finished.
///
/// Reachable over SSH with cloud-init done: healthy, counters reset.
/// With cloud-init errors: failed, one more failure. Still running: the
/// check interval is added to the time since healthy, stalled once that
/// exceeds the threshold. No cloud-init report yet: degraded. Reachable
/// but no SSH: one more failure, degraded after more than 5, else unknown.
/// Unreachable: one more failure, failed after more than `max_failures`,
/// else degraded.
pub open spec fn derive(
    m: SenescenceMetrics,
    ping_ok: bool,
    ssh_ok: bool,
    interval: u64,
    threshold: u64,
    max_failures: u32,
) -> (HealthStatus, int, int) {
    let f = m.consecutive_failures as int;
    let t = m.time_since_healthy_secs as int;
    if ssh_ok && ping_ok {
        match m.cloud_init {
            Some(ci) => if ci.status is Done {
                (HealthStatus::Healthy, 0, 0)
            } else if ci.errors@.len() > 0 {
                (HealthStatus::Failed, f + 1, t)
            } else {
                let t2 = t + interval;
                (
                    if t2 > threshold {
                        HealthStatus::Stalled
                    } else {
                        HealthStatus::Healthy
                    },
                    f,
                    t2,
                )
            },
            None => (HealthStatus::Degraded, f, t),
        }
    } else if ping_ok {
        (
            if f + 1 > 5 {
                HealthStatus::Degraded
            } else {
                HealthStatus::Unknown
            },
            f + 1,
            t,
        )
    } else {
        (
            if f + 1 > max_failures {
                HealthStatus::Failed
            } else {
                HealthStatus::Degraded
            },
            f + 1,
            t,
        )
    }
}

/// The counters [`derive`] gives fit their types.
pub open spec fn derive_fits(
    m: SenescenceMetrics,
    ping_ok: bool,
    ssh_ok: bool,
    interval: u64,
    threshold: u64,
    max_failures: u32,
) -> bool {
    let d = derive(m, ping_ok, ssh_ok, interval, threshold, max_failures);
    d.1 <= u32::MAX && d.2 <= u64::MAX
}

/// Derives the health from the probe results, updating the failure count
/// and the time since healthy as [`derive`] says.
pub fn derive_health(
    metrics: &mut SenescenceMetrics,
    ping_ok: bool,
    ssh_ok: bool,
    check_interval_secs: u64,
    stall_threshold_secs: u64,
    max_failures: u32,
) -> (r: HealthStatus)
    requires
        derive_fits(*old(metrics), ping_ok, ssh_ok, check_interval_secs, stall_threshold_secs, max_failures),
    ensures
        ({
            let d = derive(*old(metrics), ping_ok, ssh_ok, check_interval_secs, stall_threshold_secs, max_failures);
            &&& r == d.0
            &&& final(metrics).consecutive_failures == d.1
            &&& final(metrics).time_since_healthy_secs == d.2
        }),
        final(metrics).health == old(metrics).health,
        final(metrics).cloud_init == old(metrics).cloud_init,
        final(metrics).ip_address == old(metrics).ip_address,
        final(metrics).vm_name == old(metrics).vm_name,
        final(metrics).mac_address == old(metrics).mac_address,
        final(metrics).ping_ok == old(metrics).ping_ok,
        final(metrics).ssh_ok == old(metrics).ssh_ok,
        final(metrics).uptime == old(metrics).uptime,
        final(metrics).check_count == old(metrics).check_count,
{
    if ssh_ok && ping_ok {
        match &metrics.cloud_init {
            Some(ci) => {
                if ci.status.is_done() {
                    metrics.consecutive_failures = 0;
                    metrics.time_since_healthy_secs = 0;
                    HealthStatus::Healthy
                } else if ci.errors.len() > 0 {
                    metrics.consecutive_failures = metrics.consecutive_failures + 1;
                    HealthStatus::Failed
                } else {
                    metrics.time_since_healthy_secs = metrics.time_since_healthy_secs
                        + check_interval_secs;
                    if metrics.time_since_healthy_secs > stall_threshold_secs {
                        HealthStatus::Stalled
                    } else {
                        HealthStatus::Healthy
                    }
                }
            },
            None => HealthStatus::Degraded,
        }
    } else if ping_ok {
        metrics.consecutive_failures = metrics.consecutive_failures + 1;
        if metrics.consecutive_failures > 5 {
            HealthStatus::Degraded
        } else {
            HealthStatus::Unknown
        }
    } else {
        metrics.consecutive_failures = metrics.consecutive_failures + 1;
        if metrics.consecutive_failures > max_failures {
            HealthStatus::Failed
        } else {
            HealthStatus::Degraded
        }
    }
}

/// Starts a check: counts it, and returns the MAC address to look the
/// VM's lease up by when this is a re-discovery check (every
/// `ip_rediscovery_interval`-th) and the MAC is known.
pub fn begin_check(metrics: &mut SenescenceMetrics, settings: &MonitorSettings) -> (r: Option<String>)
    requires
        old(metrics).check_count < u32::MAX,
        settings.ip_rediscovery_interval > 0,
    ensures
        *final(metrics) == (SenescenceMetrics { check_count: (old(metrics).check_count + 1) as u32, ..*old(metrics) }),
        match r {
            Some(mac) => final(metrics).check_count % settings.ip_rediscovery_interval == 0
                && old(metrics).mac_address == Some(mac),
            None => final(metrics).check_count % settings.ip_rediscovery_interval != 0
                || old(metrics).mac_address is None,
        },
{
    metrics.check_count = metrics.check_count + 1;
    if metrics.check_count % settings.ip_rediscovery_interval == 0 {
        match &metrics.mac_address {
            Some(mac) => Some(mac.clone()),
            None => None,
        }
    } else {
        None
    }
}

/// Takes the result of a lease re-discovery: a new address replaces the
/// monitored one and clears the failure count; the same address, or no
/// answer, changes nothing.
pub fn apply_rediscovery(metrics: &mut SenescenceMetrics, found: Option<String>)
    ensures
        match found {
            Some(ip) => if ip@ != old(metrics).ip_address@ {
                *final(metrics) == (SenescenceMetrics { ip_address: ip, consecutive_failures: 0, ..*old(metrics) })
            } else {
                *final(metrics) == *old(metrics)
            },
            None => *final(metrics) == *old(metrics),
        },
{
    match found {
        Some(ip) => {
            if !str_eq(ip.as_str(), metrics.ip_address.as_str()) {
                metrics.ip_address = ip;
                metrics.consecutive_failures = 0;
            }
        },
        None => {},
    }
}

/// Whether SSH is probed: only when the VM answered the reachability probe.
pub fn should_check_ssh(ping_ok: bool) -> (r: bool)
    ensures
        r == ping_ok,
{
    ping_ok
}

/// Finishes a check with the probe results: records them, keeps a fresh
/// cloud-init report when SSH worked, and sets the health [`derive`] gives.
pub fn complete_check(
    metrics: &mut SenescenceMetrics,
    settings: &MonitorSettings,
    uptime: Duration,
    ping_ok: bool,
    ssh_ok: bool,
    progress: Option<CloudInitProgress>,
) -> (r: HealthStatus)
    requires
        derive_fits(
            SenescenceMetrics {
                ping_ok,
                ssh_ok,
                uptime,
                cloud_init: if ssh_ok && progress is Some { progress } else { old(metrics).cloud_init },
                ..*old(metrics)
            },
            ping_ok,
            ssh_ok,
            settings.check_interval_secs,
            settings.stall_threshold_secs,
            settings.max_failures,
        ),
    ensures
        ({
            let mid = SenescenceMetrics {
                ping_ok,
                ssh_ok,
                uptime,
                cloud_init: if ssh_ok && progress is Some { progress } else { old(metrics).cloud_init },
                ..*old(metrics)
            };
            let d = derive(mid, ping_ok, ssh_ok, settings.check_interval_secs, settings.stall_threshold_secs, settings.max_failures);
            &&& r == d.0
            &&& *final(metrics) == (SenescenceMetrics {
                health: d.0,
                consecutive_failures: d.1 as u32,
                time_since_healthy_secs: d.2 as u64,
                ..mid
            })
        }),
{
    metrics.uptime = uptime;
    metrics.ping_ok = ping_ok;
    metrics.ssh_ok = ssh_ok;
    if ssh_ok {
        match progress {
            Some(p) => {
                metrics.cloud_init = Some(p);
            },
            None => {},
        }
    }
    let h = derive_health(
        metrics,
        ping_ok,
        ssh_ok,
        settings.check_interval_secs,
        settings.stall_threshold_secs,
        settings.max_failures,
    );
    metrics.health = h;
    h
}

/// Only a finished cloud-init run clears the failure count: every other
/// outcome of a check keeps or raises it.
pub proof fn law_failures_reset_only_when_done(
    m: SenescenceMetrics,
    ping_ok: bool,
    ssh_ok: bool,
    interval: u64,
    threshold: u64,
    max_failures: u32,
)
    ensures
        ({
            let d = derive(m, ping_ok, ssh_ok, interval, threshold, max_failures);
            d.1 < m.consecutive_failures ==> (ssh_ok && ping_ok && d.0 == HealthStatus::Healthy
                && (m.cloud_init matches Some(ci) && ci.status is Done))
        }),
{
}

/// An unreachable VM is declared failed exactly when its failure count
/// passes the limit.
pub proof fn law_unreachable_fails_past_limit(
    m: SenescenceMetrics,
    ssh_ok: bool,
    interval: u64,
    threshold: u64,
    max_failures: u32,
)
    ensures
        ({
            let d = derive(m, false, ssh_ok, interval, threshold, max_failures);
            &&& d.1 == m.consecutive_failures + 1
            &&& (d.0 == HealthStatus::Failed <==> m.consecutive_failures + 1 > max_failures)
            &&& (d.0 != HealthStatus::Failed ==> d.0 == HealthStatus::Degraded)
        }),
{
}

/// What waiting for a healthy VM does after a tick.
#[derive(Debug, Clone, Copy, PartialEq, Eq, Structural)]
pub enum HealthyWait {
    /// The VM is healthy: stop waiting.
    Ready,
    /// The VM failed its checks: give up with an error.
    Failed,
    /// The time is up: give up with an error.
    TimedOut,
    /// Keep waiting.
    Continue,
}

/// Decides what waiting for a healthy VM does after a tick.
pub fn healthy_wait_step(health: HealthStatus, timed_out: bool) -> (r: HealthyWait)
    ensures
        r == (if health == HealthStatus::Healthy {
            HealthyWait::Ready
        } else if health == HealthStatus::Failed {
            HealthyWait::Failed
        } else if timed_out {
            HealthyWait::TimedOut
        } else {
            HealthyWait::Continue
        }),
{
    match health {
        HealthStatus::Healthy => HealthyWait::Ready,
        HealthStatus::Failed => HealthyWait::Failed,
        _ => if timed_out {
            HealthyWait::TimedOut
        } else {
            HealthyWait::Continue
        },
    }
}

/// What waiting for cloud-init does after a tick.
#[derive(Debug, Clone, Copy, PartialEq, Eq, Structural)]
pub enum CloudInitWait {
    /// Cloud-init finished: stop waiting, successfully.
    Done,
    /// Cloud-init reported errors: give up with an error.
    CloudInitFailed,
    /// The VM failed its checks: give up with an error.
    VmFailed,
    /// The time is up: stop waiting; the VM keeps running.
    TimedOut,
    /// Keep waiting.
    Continue,
}

/// Decides what waiting for cloud-init does after a tick.
pub fn cloud_init_wait_step(metrics: &SenescenceMetrics, timed_out: bool) -> (r: CloudInitWait)
    ensures
        r == (match metrics.cloud_init {
            Some(ci) if ci.status is Done => CloudInitWait::Done,
            Some(ci) if ci.errors@.len() > 0 => CloudInitWait::CloudInitFailed,
            _ => if metrics.health == HealthStatus::Failed {
                CloudInitWait::VmFailed
            } else if timed_out {
                CloudInitWait::TimedOut
            } else {
                CloudInitWait::Continue
            },
        }),
{
    match &metrics.cloud_init {
        Some(ci) => {
            if ci.status.is_done() {
                return CloudInitWait::Done;
            }
            if ci.errors.len() > 0 {
                return CloudInitWait::CloudInitFailed;
            }
        },
        None => {},
    }
    if metrics.health == HealthStatus::Failed {
        CloudInitWait::VmFailed
    } else if timed_out {
        CloudInitWait::TimedOut
    } else {
        CloudInitWait::Continue
    }
}

/// The error of a VM that failed its health checks.
pub fn failed_health_error(vm_name: &str) -> (r: Error)
    ensures
        r matches Error::Monitoring(m) && m@ == "VM "@ + vm_name@ + " failed health checks"@,
{
    let mut m = owned("VM ");
    push_str(&mut m, vm_name);
    push_str(&mut m, " failed health checks");
    Error::Monitoring(m)
}

/// The error of a VM that failed while cloud-init ran.
pub fn failed_during_cloud_init_error(vm_name: &str) -> (r: Error)
    ensures
        r matches Error::Monitoring(m) && m@ == "VM "@ + vm_name@ + " failed during cloud-init"@,
{
    let mut m = owned("VM ");
    push_str(&mut m, vm_name);
    push_str(&mut m, " failed during cloud-init");
    Error::Monitoring(m)
}

/// The debug form of a list of strings (`{:?}` of `[String]`): the items
/// quoted and escaped, in brackets, separated by `, `.
pub uninterp spec fn string_list_debug(items: Seq<Seq<char>>) -> Seq<char>;


/// Formats a list of strings with `{:?}`.
///
/// Trusted: the text is std's `Debug` output for the slice, which depends
/// on the items alone, named by [`string_list_debug`].
#[verifier::external_body]
pub(crate) fn debug_string_list(items: &[String]) -> (r: String)
    ensures
        r@ == string_list_debug(views(items@)),
{
    format!("{:?}", items)
}


/// The error of cloud-init reporting errors on a VM, listing them.
pub fn cloud_init_failed_error(vm_name: &str, errors: &[String]) -> (r: Error)
    ensures
        r matches Error::Monitoring(m)
            && m@ == "Cloud-init failed on VM "@ + vm_name@ + ": "@ + string_list_debug(views(errors@)),
{
    let mut m = owned("Cloud-init failed on VM ");
    push_str(&mut m, vm_name);
    push_str(&mut m, ": ");
    let listed = debug_string_list(errors);
    push_str(&mut m, listed.as_str());
    Error::Monitoring(m)
}

/// The error of a VM that did not become healthy within `timeout`.
pub fn healthy_timeout_error(vm_name: &str, timeout: Duration) -> (r: Error)
    ensures
        r matches Error::Monitoring(m)
            && m@ == "Timeout waiting for VM "@ + vm_name@ + " to become healthy after "@ + duration_debug(timeout),
{
    let mut m = owned("Timeout waiting for VM ");
    push_str(&mut m, vm_name);
    push_str(&mut m, " to become healthy after ");
    let t = debug_duration(timeout);
    push_str(&mut m, t.as_str());
    Error::Monitoring(m)
}


/// A VM that answers ping and SSH but whose unfinished cloud-init run
/// reports errors has failed, whatever its counters and thresholds, and the
/// check counts as one more failure.
pub proof fn law_cloud_init_errors_mean_failure(
    m: SenescenceMetrics,
    interval: u64,
    threshold: u64,
    max_failures: u32,
)
    requires
        m.cloud_init matches Some(ci) && !(ci.status is Done) && ci.errors@.len() > 0,
    ensures
        derive(m, true, true, interval, threshold, max_failures).0 == HealthStatus::Failed,
        derive(m, true, true, interval, threshold, max_failures).1 == m.consecutive_failures + 1,
{
}

} // verus!
