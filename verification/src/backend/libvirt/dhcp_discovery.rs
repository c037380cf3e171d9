//! Finding a VM's DHCP address by its MAC address in libvirt's lease
//! database. Querying libvirt and sleeping happen outside; this module
//! reads the leases and decides, attempt by attempt, what comes next.
use vstd::prelude::*;
use crate::error::Error;
use crate::text::{before_first, before_first_chars, chars_of, decimal, owned, push_decimal, push_str, str_eq, string_from_chars};

verus! {

/// A DHCP lease.
#[derive(Debug, Clone)]
pub struct DhcpLease {
    /// MAC address of the VM.
    pub mac_address: String,
    /// IP address assigned.
    pub ip_address: String,
    /// Host name (may be empty early in boot).
    pub hostname: String,
    /// Network name.
    pub network: String,
}

/// How long to look for a lease, and where.
#[derive(Debug, Clone, Copy)]
pub struct DiscoveryConfig {
    /// Longest wait for the lease, in seconds.
    pub max_wait_secs: u64,
    /// Seconds between lease queries; never zero.
    pub retry_interval_secs: u64,
    /// Network to query.
    pub network_name: &'static str,
}

impl Default for DiscoveryConfig {
    fn default() -> (r: Self)
        ensures
            r.max_wait_secs == 60,
            r.retry_interval_secs == 2,
            r.network_name@ == "default"@,
    {
        DiscoveryConfig { max_wait_secs: 60, retry_interval_secs: 2, network_name: "default" }
    }
}

impl DiscoveryConfig {
    /// The number of lease queries: the whole retry intervals in the
    /// longest wait.
    pub fn max_attempts(&self) -> (r: u64)
        requires
            self.retry_interval_secs > 0,
        ensures
            r == self.max_wait_secs / self.retry_interval_secs,
    {
        self.max_wait_secs / self.retry_interval_secs
    }
}

/// The lease a raw libvirt lease record stands for: IPv4 leases only, the
/// address without its prefix length.
pub open spec fn lease_of(
    mac: Seq<char>,
    ip_raw: Seq<char>,
    hostname: Seq<char>,
    is_ipv4: bool,
    network: Seq<char>,
) -> Option<(Seq<char>, Seq<char>, Seq<char>, Seq<char>)> {
    if is_ipv4 {
        Some((mac, before_first(ip_raw, "/"@), hostname, network))
    } else {
        None
    }
}

impl DhcpLease {
    /// The lease a raw libvirt lease record stands for, or `None` for a
    /// lease that is not IPv4.
    pub fn from_record(mac: &str, ip_raw: &str, hostname: &str, is_ipv4: bool, network: &str) -> (r: Option<Self>)
        ensures
            match lease_of(mac@, ip_raw@, hostname@, is_ipv4, network@) {
                Some(l) => r matches Some(d) && d.mac_address@ == l.0 && d.ip_address@ == l.1
                    && d.hostname@ == l.2 && d.network@ == l.3,
                None => r is None,
            },
    {
        if !is_ipv4 {
            return None;
        }
        let ip = chars_of(ip_raw);
        let slash = chars_of("/");
        let addr = before_first_chars(ip.as_slice(), slash.as_slice());
        Some(DhcpLease {
            mac_address: owned(mac),
            ip_address: string_from_chars(addr.as_slice()),
            hostname: owned(hostname),
            network: owned(network),
        })
    }
}

/// The address of the first lease for `mac`, if any.
pub open spec fn lease_ip_for(leases: Seq<DhcpLease>, mac: Seq<char>) -> Option<Seq<char>>
    decreases leases.len(),
{
    if leases.len() == 0 {
        None
    } else if leases[0].mac_address@ == mac {
        Some(leases[0].ip_address@)
    } else {
        lease_ip_for(leases.drop_first(), mac)
    }
}

/// The address of the first lease for `mac`.
pub fn find_lease_ip(leases: &[DhcpLease], mac: &str) -> (r: Option<String>)
    ensures
        match lease_ip_for(leases@, mac@) {
            Some(ip) => r matches Some(s) && s@ == ip,
            None => r is None,
        },
{
    let mut i: usize = 0;
    proof {
        assert(leases@.skip(0) =~= leases@);
    }
    while i < leases.len()
        invariant
            i <= leases.len(),
            lease_ip_for(leases@, mac@) == lease_ip_for(leases@.skip(i as int), mac@),
        decreases leases.len() - i,
    {
        proof {
            assert(leases@.skip(i as int)[0] == leases@[i as int]);
            assert(leases@.skip(i as int).drop_first() =~= leases@.skip(i + 1));
        }
        if str_eq(leases[i].mac_address.as_str(), mac) {
            return Some(leases[i].ip_address.clone());
        }
        i = i + 1;
    }
    None
}

/// What discovery does after an attempt.
#[derive(Debug, Clone, PartialEq, Eq)]
pub enum DiscoveryStep {
    /// The lease was found: this is the VM's address.
    Found(String),
    /// Sleep the retry interval, then query again.
    Retry,
    /// The attempts are used up.
    GiveUp,
}

/// Decides what follows attempt `attempt` (counted from 1) of
/// `max_attempts`, given the leases that the query returned, or `None`
/// when the query failed.
pub fn discovery_step(attempt: u64, max_attempts: u64, leases: Option<&[DhcpLease]>, mac: &str) -> (r: DiscoveryStep)
    ensures
        match leases {
            Some(ls) => match lease_ip_for(ls@, mac@) {
                Some(ip) => r matches DiscoveryStep::Found(s) && s@ == ip,
                None => r == (if attempt < max_attempts {
                    DiscoveryStep::Retry
                } else {
                    DiscoveryStep::GiveUp
                }),
            },
            None => r == (if attempt < max_attempts {
                DiscoveryStep::Retry
            } else {
                DiscoveryStep::GiveUp
            }),
        },
{
    match leases {
        Some(ls) => match find_lease_ip(ls, mac) {
            Some(ip) => return DiscoveryStep::Found(ip),
            None => {},
        },
        None => {},
    }
    if attempt < max_attempts {
        DiscoveryStep::Retry
    } else {
        DiscoveryStep::GiveUp
    }
}

/// The message of a discovery that found no lease.
pub open spec fn timeout_message(mac: Seq<char>, max_wait_secs: u64, attempts: u64) -> Seq<char> {
    "Timeout: Could not discover DHCP IP for MAC "@ + mac + " after "@ + decimal(max_wait_secs as nat)
        + "s ("@ + decimal(attempts as nat)
        + " attempts). VM may not have started or DHCP server may not be responding."@
}

/// The error of a discovery that found no lease.
pub fn discovery_timeout_error(mac: &str, config: &DiscoveryConfig, attempts: u64) -> (r: Error)
    ensures
        r matches Error::Backend(m) && m@ == timeout_message(mac@, config.max_wait_secs, attempts),
{
    let mut m = owned("Timeout: Could not discover DHCP IP for MAC ");
    push_str(&mut m, mac);
    push_str(&mut m, " after ");
    push_decimal(&mut m, config.max_wait_secs);
    push_str(&mut m, "s (");
    push_decimal(&mut m, attempts);
    push_str(&mut m, " attempts). VM may not have started or DHCP server may not be responding.");
    Error::Backend(m)
}

} // verus!
