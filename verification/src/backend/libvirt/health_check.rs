//! Health of the libvirt host: the libvirtd service, the default network
//! and its DHCP service. The probes run outside; this module turns their
//! results into a health report with its issues and overall state.
use vstd::prelude::*;
use std::time::SystemTime;
use crate::text::{chars_of, decimal, owned, push_decimal, push_str, string_from_chars, trim, trim_chars};

verus! {

/// Checks the libvirt host's health.
pub struct LibvirtHealthCheck {
    verbose: bool,
}

/// Overall health of the libvirt host.
#[derive(Debug, Clone, PartialEq, Eq)]
pub enum HealthState {
    /// Fully operational.
    Healthy,
    /// Working, with a non-critical issue.
    Degraded(String),
    /// Cannot function properly.
    Unhealthy(String),
}

/// A health report with its diagnostics.
#[derive(Debug, Clone)]
pub struct HealthStatus {
    /// Overall state.
    pub overall: HealthState,
    /// When the check ran.
    pub checked_at: SystemTime,
    /// The libvirtd service is active.
    pub libvirtd_active: bool,
    /// Orphaned dnsmasq processes found.
    pub orphaned_processes: Vec<u32>,
    /// The default network is active.
    pub network_active: bool,
    /// DHCP leases can be queried.
    pub dhcp_functional: bool,
    /// The issues found, in the order of the checks.
    pub issues: Vec<String>,
}

/// What asking systemd for the libvirtd service's state gave.
#[derive(Debug, Clone, PartialEq, Eq)]
pub enum ServiceProbe {
    /// The command ran and printed this.
    Output(String),
    /// The command could not run, for this reason.
    Failed(String),
}

/// What looking up the default network gave.
#[derive(Debug, Clone, PartialEq, Eq)]
pub enum NetworkProbe {
    /// No connection to libvirt, for this reason.
    ConnectFailed(String),
    /// No network of that name.
    NotFound,
    /// Its state could not be read, for this reason.
    QueryFailed(String),
    /// Whether it is active.
    Active(bool),
}

/// What querying the default network's DHCP leases gave.
#[derive(Debug, Clone, PartialEq, Eq)]
pub enum DhcpProbe {
    /// No connection to libvirt, for this reason.
    ConnectFailed(String),
    /// No network of that name.
    NotFound,
    /// The lease query failed.
    LeaseQueryFailed,
    /// The leases were read.
    LeasesRead,
}

/// Whether libvirtd is active, and the issue to report if not.
pub open spec fn libvirtd_outcome(p: ServiceProbe) -> (bool, Option<Seq<char>>) {
    match p {
        ServiceProbe::Output(out) => if trim(out@) == "active"@ {
            (true, None)
        } else {
            (false, Some("libvirtd service is not active (status: "@ + trim(out@) + ")"@))
        },
        ServiceProbe::Failed(e) => (false, Some("Failed to check libvirtd status: "@ + e@)),
    }
}

/// Whether the default network is active, and the issue to report if not.
pub open spec fn network_outcome(p: NetworkProbe) -> (bool, Option<Seq<char>>) {
    match p {
        NetworkProbe::ConnectFailed(e) => (false, Some("Failed to check network status: "@ + e@)),
        NetworkProbe::NotFound => (false, Some("Default libvirt network is not active"@)),
        NetworkProbe::QueryFailed(e) => (false, Some("Failed to check network status: "@ + e@)),
        NetworkProbe::Active(a) => if a {
            (true, None)
        } else {
            (false, Some("Default libvirt network is not active"@))
        },
    }
}

/// Whether DHCP works, and the issue to report if not.
pub open spec fn dhcp_outcome(p: DhcpProbe) -> (bool, Option<Seq<char>>) {
    match p {
        DhcpProbe::ConnectFailed(e) => (false, Some("Failed to check DHCP functionality: "@ + e@)),
        DhcpProbe::NotFound => (false, Some("DHCP lease query failed"@)),
        DhcpProbe::LeaseQueryFailed => (false, Some("DHCP lease query failed"@)),
        DhcpProbe::LeasesRead => (true, None),
    }
}

/// The issues list after one more check reported `issue`.
pub open spec fn with_issue(issues: Seq<Seq<char>>, issue: Option<Seq<char>>) -> Seq<Seq<char>> {
    match issue {
        Some(i) => issues.push(i),
        None => issues,
    }
}

/// The view of a list of issue strings.
pub open spec fn issue_views(v: Seq<String>) -> Seq<Seq<char>> {
    v.map_values(|s: String| s@)
}

fn push_issue(issues: &mut Vec<String>, issue: String)
    ensures
        issue_views(final(issues)@) == issue_views(old(issues)@).push(issue@),
{
    issues.push(issue);
    proof {
        assert(issue_views(issues@) =~= issue_views(old(issues)@).push(issue@));
    }
}

/// The overall state a report's checks give: unhealthy without libvirtd
/// or the default network, degraded with orphaned processes or without
/// DHCP, healthy otherwise.
pub open spec fn overall_matches(
    overall: HealthState,
    libvirtd_active: bool,
    orphans: nat,
    network_active: bool,
    dhcp_functional: bool,
) -> bool {
    if !libvirtd_active {
        overall matches HealthState::Unhealthy(m) && m@ == "libvirtd service is not active"@
    } else if !network_active {
        overall matches HealthState::Unhealthy(m) && m@ == "Default network is not active"@
    } else if orphans > 0 {
        overall matches HealthState::Degraded(m) && m@ == decimal(orphans)
            + " orphaned dnsmasq process(es) detected"@
    } else if !dhcp_functional {
        overall matches HealthState::Degraded(m) && m@ == "DHCP functionality compromised"@
    } else {
        overall is Healthy
    }
}

impl LibvirtHealthCheck {
    /// Whether detailed diagnostics are on.
    pub closed spec fn is_verbose(&self) -> bool {
        self.verbose
    }

    /// A checker without detailed diagnostics.
    pub fn new() -> (r: Self)
        ensures
            !r.is_verbose(),
    {
        LibvirtHealthCheck { verbose: false }
    }

    /// The same checker with detailed diagnostics.
    pub fn with_verbose(self) -> (r: Self)
        ensures
            r.is_verbose(),
    {
        LibvirtHealthCheck { verbose: true }
    }

    /// Whether libvirtd is active, from what `systemctl is-active
    /// libvirtd` gave; an inactive service adds an issue.
    pub fn libvirtd_active_from(&self, probe: &ServiceProbe, issues: &mut Vec<String>) -> (r: bool)
        ensures
            r == libvirtd_outcome(*probe).0,
            issue_views(final(issues)@) == with_issue(issue_views(old(issues)@), libvirtd_outcome(*probe).1),
    {
        match probe {
            ServiceProbe::Output(out) => {
                let cs = chars_of(out.as_str());
                let t = trim_chars(cs.as_slice());
                let ts = string_from_chars(t.as_slice());
                if crate::text::str_eq(ts.as_str(), "active") {
                    true
                } else {
                    let mut m = owned("libvirtd service is not active (status: ");
                    push_str(&mut m, ts.as_str());
                    push_str(&mut m, ")");
                    push_issue(issues, m);
                    false
                }
            },
            ServiceProbe::Failed(e) => {
                let mut m = owned("Failed to check libvirtd status: ");
                push_str(&mut m, e.as_str());
                push_issue(issues, m);
                false
            },
        }
    }

    /// Orphaned dnsmasq processes. Detection is off: a daemonized dnsmasq
    /// that libvirt manages looks orphaned by its parent, so none are
    /// reported.
    pub fn find_orphaned_dnsmasq(&self, issues: &mut Vec<String>) -> (r: Vec<u32>)
        ensures
            r@.len() == 0,
            final(issues)@ == old(issues)@,
    {
        Vec::new()
    }

    /// Whether the default network is active, from the lookup's result;
    /// otherwise an issue is added.
    pub fn network_active_from(&self, probe: &NetworkProbe, issues: &mut Vec<String>) -> (r: bool)
        ensures
            r == network_outcome(*probe).0,
            issue_views(final(issues)@) == with_issue(issue_views(old(issues)@), network_outcome(*probe).1),
    {
        match probe {
            NetworkProbe::ConnectFailed(e) => {
                let mut m = owned("Failed to check network status: ");
                push_str(&mut m, e.as_str());
                push_issue(issues, m);
                false
            },
            NetworkProbe::NotFound => {
                push_issue(issues, owned("Default libvirt network is not active"));
                false
            },
            NetworkProbe::QueryFailed(e) => {
                let mut m = owned("Failed to check network status: ");
                push_str(&mut m, e.as_str());
                push_issue(issues, m);
                false
            },
            NetworkProbe::Active(a) => {
                if !*a {
                    push_issue(issues, owned("Default libvirt network is not active"));
                }
                *a
            },
        }
    }

    /// Whether DHCP works, from the lease query's result; otherwise an
    /// issue is added.
    pub fn dhcp_functional_from(&self, probe: &DhcpProbe, issues: &mut Vec<String>) -> (r: bool)
        ensures
            r == dhcp_outcome(*probe).0,
            issue_views(final(issues)@) == with_issue(issue_views(old(issues)@), dhcp_outcome(*probe).1),
    {
        match probe {
            DhcpProbe::ConnectFailed(e) => {
                let mut m = owned("Failed to check DHCP functionality: ");
                push_str(&mut m, e.as_str());
                push_issue(issues, m);
                false
            },
            DhcpProbe::NotFound => {
                push_issue(issues, owned("DHCP lease query failed"));
                false
            },
            DhcpProbe::LeaseQueryFailed => {
                push_issue(issues, owned("DHCP lease query failed"));
                false
            },
            DhcpProbe::LeasesRead => true,
        }
    }

    /// The overall state a report's checks give.
    pub fn determine_overall_health(&self, status: &HealthStatus) -> (r: HealthState)
        ensures
            overall_matches(
                r,
                status.libvirtd_active,
                status.orphaned_processes@.len(),
                status.network_active,
                status.dhcp_functional,
            ),
    {
        if !status.libvirtd_active {
            return HealthState::Unhealthy(owned("libvirtd service is not active"));
        }
        if !status.network_active {
            return HealthState::Unhealthy(owned("Default network is not active"));
        }
        if status.orphaned_processes.len() > 0 {
            let mut m = String::new();
            push_decimal(&mut m, status.orphaned_processes.len() as u64);
            push_str(&mut m, " orphaned dnsmasq process(es) detected");
            proof {
                assert(m@ =~= decimal(status.orphaned_processes@.len()) + " orphaned dnsmasq process(es) detected"@);
            }
            return HealthState::Degraded(m);
        }
        if !status.dhcp_functional {
            return HealthState::Degraded(owned("DHCP functionality compromised"));
        }
        HealthState::Healthy
    }

    /// The health report from the three probes' results, taken at
    /// `checked_at`: each check in turn, its issue if any, then the overall
    /// state.
    pub fn check(
        &self,
        checked_at: SystemTime,
        libvirtd: &ServiceProbe,
        network: &NetworkProbe,
        dhcp: &DhcpProbe,
    ) -> (r: HealthStatus)
        ensures
            r.checked_at == checked_at,
            r.libvirtd_active == libvirtd_outcome(*libvirtd).0,
            r.orphaned_processes@.len() == 0,
            r.network_active == network_outcome(*network).0,
            r.dhcp_functional == dhcp_outcome(*dhcp).0,
            issue_views(r.issues@) == with_issue(
                with_issue(with_issue(Seq::empty(), libvirtd_outcome(*libvirtd).1), network_outcome(*network).1),
                dhcp_outcome(*dhcp).1,
            ),
            overall_matches(r.overall, r.libvirtd_active, 0, r.network_active, r.dhcp_functional),
    {
        let mut issues: Vec<String> = Vec::new();
        proof {
            assert(issue_views(issues@) =~= Seq::<Seq<char>>::empty());
        }
        let libvirtd_active = self.libvirtd_active_from(libvirtd, &mut issues);
        let orphaned_processes = self.find_orphaned_dnsmasq(&mut issues);
        let network_active = self.network_active_from(network, &mut issues);
        let dhcp_functional = self.dhcp_functional_from(dhcp, &mut issues);
        let mut status = HealthStatus {
            overall: HealthState::Healthy,
            checked_at,
            libvirtd_active,
            orphaned_processes,
            network_active,
            dhcp_functional,
            issues,
        };
        status.overall = self.determine_overall_health(&status);
        status
    }
}

impl Default for LibvirtHealthCheck {
    fn default() -> (r: Self)
        ensures
            !r.is_verbose(),
    {
        LibvirtHealthCheck::new()
    }
}

/// The one-line summary of a state.
pub open spec fn state_summary(s: HealthState) -> Seq<char> {
    match s {
        HealthState::Healthy => "All systems operational"@,
        HealthState::Degraded(r) => "System degraded: "@ + r@,
        HealthState::Unhealthy(r) => "System unhealthy: "@ + r@,
    }
}

/// Two reports say the same: every field holds the same value.
pub open spec fn same_report(a: HealthStatus, b: HealthStatus) -> bool {
    &&& a.overall == b.overall
    &&& a.checked_at == b.checked_at
    &&& a.libvirtd_active == b.libvirtd_active
    &&& a.orphaned_processes@ == b.orphaned_processes@
    &&& a.network_active == b.network_active
    &&& a.dhcp_functional == b.dhcp_functional
    &&& a.issues@ == b.issues@
}

impl HealthState {
    /// A copy of the state.
    pub fn duplicate(&self) -> (r: Self)
        ensures
            r == *self,
    {
        match self {
            HealthState::Healthy => HealthState::Healthy,
            HealthState::Degraded(m) => HealthState::Degraded(m.clone()),
            HealthState::Unhealthy(m) => HealthState::Unhealthy(m.clone()),
        }
    }
}

impl HealthStatus {
    /// A copy of the report.
    pub fn duplicate(&self) -> (r: Self)
        ensures
            same_report(r, *self),
    {
        let orphaned_processes = self.orphaned_processes.clone();
        let issues = self.issues.clone();
        proof {
            assert(orphaned_processes@ =~= self.orphaned_processes@);
            assert(issues@ =~= self.issues@);
        }
        HealthStatus {
            overall: self.overall.duplicate(),
            checked_at: self.checked_at.clone(),
            libvirtd_active: self.libvirtd_active,
            orphaned_processes,
            network_active: self.network_active,
            dhcp_functional: self.dhcp_functional,
            issues,
        }
    }

    /// No critical or non-critical issue.
    pub fn is_healthy(&self) -> (r: bool)
        ensures
            r == (self.overall is Healthy),
    {
        match self.overall {
            HealthState::Healthy => true,
            _ => false,
        }
    }

    /// Working, with a non-critical issue.
    pub fn is_degraded(&self) -> (r: bool)
        ensures
            r == (self.overall is Degraded),
    {
        match self.overall {
            HealthState::Degraded(_) => true,
            _ => false,
        }
    }

    /// A critical failure.
    pub fn is_unhealthy(&self) -> (r: bool)
        ensures
            r == (self.overall is Unhealthy),
    {
        match self.overall {
            HealthState::Unhealthy(_) => true,
            _ => false,
        }
    }

    /// A one-line summary of the state.
    pub fn summary(&self) -> (r: String)
        ensures
            r@ == state_summary(self.overall),
    {
        match &self.overall {
            HealthState::Healthy => owned("All systems operational"),
            HealthState::Degraded(reason) => {
                let mut m = owned("System degraded: ");
                push_str(&mut m, reason.as_str());
                m
            },
            HealthState::Unhealthy(reason) => {
                let mut m = owned("System unhealthy: ");
                push_str(&mut m, reason.as_str());
                m
            },
        }
    }
}

} // verus!
