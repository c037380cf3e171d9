//! Network configuration: libvirt network, DHCP discovery, SSH port.
use vstd::prelude::*;
use std::time::Duration;
use crate::backend::ip_pool::{ip_network_parse, parse_ip_network};
use crate::capabilities::NetworkCapabilities;
use crate::error::Error;
use crate::text::{chars_of, contains_seq, decimal, decimal_string, owned, str_contains, str_eq};
use crate::time::{duration_of_secs, duration_from_secs};

verus! {

/// An IP address: IPv4 as its 32-bit value, IPv6 as its 128-bit value.
#[derive(Debug, Clone, Copy, PartialEq, Eq)]
pub enum IpAddress {
    /// An IPv4 address.
    V4(u32),
    /// An IPv6 address.
    V6(u128),
}

/// What `str::parse::<std::net::IpAddr>` yields. A text without `/` is an
/// address exactly when `ipnetwork` reads it as a network without a prefix,
/// since `ipnetwork` parses the address part with std's parser and gives a
/// bare address its full-length prefix.
pub open spec fn ip_address_parse(text: Seq<char>) -> Option<IpAddress> {
    if contains_seq(text, seq!['/']) {
        None
    } else {
        match ip_network_parse(text) {
            Ok(n) => if n.0 {
                Some(IpAddress::V4(n.1 as u32))
            } else {
                Some(IpAddress::V6(n.1))
            },
            Err(_) => None,
        }
    }
}

impl IpAddress {
    /// Parses an IPv4 or IPv6 address.
    pub fn parse(text: &str) -> (r: Option<IpAddress>)
        ensures
            r == ip_address_parse(text@),
    {
        let cs = chars_of(text);
        if str_contains(cs.as_slice(), "/") {
            proof {
                reveal_strlit("/");
                assert("/"@ =~= seq!['/']);
            }
            return None;
        }
        proof {
            reveal_strlit("/");
            assert("/"@ =~= seq!['/']);
        }
        match parse_ip_network(text) {
            Ok(n) => if n.0 {
                Some(IpAddress::V4(n.1 as u32))
            } else {
                Some(IpAddress::V6(n.1))
            },
            Err(_) => None,
        }
    }

    /// Whether this is an IPv4 address.
    pub fn is_ipv4(&self) -> (r: bool)
        ensures
            r == (*self is V4),
    {
        match self {
            IpAddress::V4(_) => true,
            IpAddress::V6(_) => false,
        }
    }
}

/// DHCP range configuration.
#[derive(Debug, Clone, PartialEq, Eq)]
pub struct DhcpRange {
    /// Start IP address.
    pub start: IpAddress,
    /// End IP address.
    pub end: IpAddress,
    /// Network mask (e.g. "255.255.255.0" or "24").
    pub netmask: String,
}

/// Network configuration for VM connectivity and discovery.
#[derive(Debug, Clone, PartialEq, Eq)]
pub struct NetworkConfig {
    /// Libvirt network name (default "default").
    pub network_name: String,
    /// DHCP range (discovered when unset).
    pub dhcp_range: Option<DhcpRange>,
    /// DNS servers (empty: network defaults).
    pub dns_servers: Vec<IpAddress>,
    /// SSH port (default 22).
    pub ssh_port: u16,
    /// Network interface (discovered when unset).
    pub interface: Option<String>,
    /// Whether MAC-based DHCP discovery runs (default true).
    pub enable_dhcp_discovery: bool,
    /// DHCP discovery timeout in seconds (default 60).
    pub dhcp_discovery_timeout_secs: u64,
}

fn default_network_name() -> (r: String)
    ensures
        r@ == "default"@,
{
    owned("default")
}

fn default_ssh_port() -> (r: u16)
    ensures
        r == 22,
{
    22
}

fn default_enable_dhcp_discovery() -> (r: bool)
    ensures
        r,
{
    true
}

fn default_dhcp_timeout() -> (r: u64)
    ensures
        r == 60,
{
    60
}

/// A network configuration holds the default settings.
pub open spec fn is_default_network(c: NetworkConfig) -> bool {
    &&& c.network_name@ == "default"@
    &&& c.dhcp_range is None
    &&& c.dns_servers@.len() == 0
    &&& c.ssh_port == 22
    &&& c.interface is None
    &&& c.enable_dhcp_discovery
    &&& c.dhcp_discovery_timeout_secs == 60
}

impl Default for NetworkConfig {
    fn default() -> (r: Self)
        ensures
            is_default_network(r),
    {
        NetworkConfig {
            network_name: default_network_name(),
            dhcp_range: None,
            dns_servers: Vec::new(),
            ssh_port: default_ssh_port(),
            interface: None,
            enable_dhcp_discovery: default_enable_dhcp_discovery(),
            dhcp_discovery_timeout_secs: default_dhcp_timeout(),
        }
    }
}

/// The UTF-8 length of a text in bytes, as `str::len` reports it.
pub open spec fn byte_len(s: Seq<char>) -> usize {
    vstd::utf8::encode_utf8(s).len() as usize
}

/// A DHCP range's start and end are of different families.
pub open spec fn mixed_family(r: DhcpRange) -> bool {
    (r.start is V4) != (r.end is V4)
}

/// The first problem [`NetworkConfig::validate`] reports, if any.
pub open spec fn network_problem(c: NetworkConfig) -> Option<Seq<char>> {
    if c.network_name@.len() == 0 {
        Some("network_name cannot be empty"@)
    } else if byte_len(c.network_name@) > 255 {
        Some("network_name exceeds 255 characters"@)
    } else if c.ssh_port == 0 {
        Some("ssh_port cannot be 0"@)
    } else if c.dhcp_discovery_timeout_secs == 0 {
        Some("dhcp_discovery_timeout_secs must be > 0"@)
    } else if c.dhcp_discovery_timeout_secs > 600 {
        Some("dhcp_discovery_timeout_secs > 10min is unreasonably long"@)
    } else if c.dhcp_range matches Some(r) && mixed_family(r) {
        Some("DHCP range start and end must be same address family"@)
    } else if c.dhcp_range matches Some(r) && r.netmask@.len() == 0 {
        Some("DHCP range netmask cannot be empty"@)
    } else if c.dns_servers@.len() > 10 {
        Some("More than 10 DNS servers is unreasonable"@)
    } else {
        None
    }
}

/// The DHCP range a merge takes from discovered capabilities: the parsed
/// pool start and end with the netmask length as text, when both parse.
pub open spec fn discovered_range(caps: NetworkCapabilities) -> Option<(IpAddress, IpAddress)> {
    match (ip_address_parse(caps.ip_pool_start@), ip_address_parse(caps.ip_pool_end@)) {
        (Some(s), Some(e)) => Some((s, e)),
        _ => None,
    }
}

/// `new` is `old` merged with `caps`: a `default` network name gives way
/// to another discovered one, an unset DHCP range is the discovered pool
/// (with the discovered mask length) where both ends parse, an unset
/// interface is the discovered one, and the rest stays.
pub open spec fn network_merged(old: NetworkConfig, caps: NetworkCapabilities, new: NetworkConfig) -> bool {
    &&& (old.network_name@ == "default"@ && caps.default_network@ != "default"@)
        ==> new.network_name == caps.default_network
    &&& !(old.network_name@ == "default"@ && caps.default_network@ != "default"@)
        ==> new.network_name == old.network_name
    &&& old.dhcp_range is Some ==> new.dhcp_range == old.dhcp_range
    &&& old.dhcp_range is None ==> (match discovered_range(caps) {
        Some(p) => new.dhcp_range matches Some(r) && r.start == p.0 && r.end == p.1
            && r.netmask@ == decimal(caps.netmask_bits as nat),
        None => new.dhcp_range is None,
    })
    &&& new.interface == (match old.interface {
        Some(i) => Some(i),
        None => Some(caps.default_interface),
    })
    &&& new.dns_servers == old.dns_servers
    &&& new.ssh_port == old.ssh_port
    &&& new.enable_dhcp_discovery == old.enable_dhcp_discovery
    &&& new.dhcp_discovery_timeout_secs == old.dhcp_discovery_timeout_secs
}

impl NetworkConfig {
    /// DHCP discovery timeout as a span.
    pub fn dhcp_discovery_timeout(&self) -> (d: Duration)
        ensures
            d == duration_of_secs(self.dhcp_discovery_timeout_secs),
    {
        duration_from_secs(self.dhcp_discovery_timeout_secs)
    }

    /// Validates the settings: a network name of 1 to 255 bytes, a non-zero
    /// SSH port, a DHCP timeout of 1 to 600 s, a DHCP range of one address
    /// family with a netmask, and at most 10 DNS servers.
    pub fn validate(&self) -> (r: Result<(), Error>)
        ensures
            match network_problem(*self) {
                None => r is Ok,
                Some(m) => r matches Err(Error::Other(e)) && e@ == m,
            },
    {
        let name_len = self.network_name.as_str().len();
        let m = if self.network_name.as_str().is_empty() {
            "network_name cannot be empty"
        } else if name_len > 255 {
            "network_name exceeds 255 characters"
        } else if self.ssh_port == 0 {
            "ssh_port cannot be 0"
        } else if self.dhcp_discovery_timeout_secs == 0 {
            "dhcp_discovery_timeout_secs must be > 0"
        } else if self.dhcp_discovery_timeout_secs > 600 {
            "dhcp_discovery_timeout_secs > 10min is unreasonably long"
        } else {
            let range_problem = match &self.dhcp_range {
                Some(range) => {
                    if range.start.is_ipv4() != range.end.is_ipv4() {
                        Some("DHCP range start and end must be same address family")
                    } else if range.netmask.as_str().is_empty() {
                        Some("DHCP range netmask cannot be empty")
                    } else {
                        None
                    }
                },
                None => None,
            };
            match range_problem {
                Some(p) => p,
                None => {
                    if self.dns_servers.len() > 10 {
                        "More than 10 DNS servers is unreasonable"
                    } else {
                        return Ok(());
                    }
                },
            }
        };
        Err(Error::Other(owned(m)))
    }

    /// DHCP discovery is needed: enabled and no range configured.
    pub fn should_discover_dhcp(&self) -> (r: bool)
        ensures
            r == (self.enable_dhcp_discovery && self.dhcp_range is None),
    {
        self.enable_dhcp_discovery && self.dhcp_range.is_none()
    }

    /// The interface still has to be discovered.
    pub fn should_discover_interface(&self) -> (r: bool)
        ensures
            r == self.interface is None,
    {
        self.interface.is_none()
    }

    /// Fills unset values from discovered capabilities; explicit settings
    /// win. The network name is replaced only while it is `default` and the
    /// capabilities name another network.
    pub fn merge_with_capabilities(&mut self, capabilities: &NetworkCapabilities)
        ensures
            network_merged(*old(self), *capabilities, *final(self)),
    {
        if str_eq(self.network_name.as_str(), "default") && !str_eq(
            capabilities.default_network.as_str(),
            "default",
        ) {
            self.network_name = capabilities.default_network.clone();
        }
        if self.dhcp_range.is_none() {
            let start = IpAddress::parse(capabilities.ip_pool_start.as_str());
            let end = IpAddress::parse(capabilities.ip_pool_end.as_str());
            if let (Some(s), Some(e)) = (start, end) {
                self.dhcp_range = Some(
                    DhcpRange {
                        start: s,
                        end: e,
                        netmask: decimal_string(capabilities.netmask_bits as u64),
                    },
                );
            }
        }
        if self.interface.is_none() {
            self.interface = Some(capabilities.default_interface.clone());
        }
    }
}

} // verus!
