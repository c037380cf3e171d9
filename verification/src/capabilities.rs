//! Runtime capabilities: the network, storage and virtualization settings
//! of the host, discovered at run time with fixed fallbacks.
//!
//! The queries themselves (running `virsh`, reading the environment) are the
//! caller's; this module turns their answers into capabilities.
use vstd::prelude::*;
use crate::error::Error;
use crate::path::{join_path, path_join};
use crate::text::{owned, push_str, push_char, push_decimal, chars_of, string_from_chars, contains_seq, lines_of, lines_chars, seqs_of, split_second, split_second_chars, before_first, before_first_chars, contains_chars, decimal, rsplit_once, rsplit_once_chars, parse_unsigned, parse_unsigned_chars, str_eq, trim, trim_chars};

verus! {

/// Network configuration capabilities.
#[derive(Debug, Clone)]
pub struct NetworkCapabilities {
    /// Default libvirt network name (e.g. "default").
    pub default_network: String,
    /// Network gateway IP address.
    pub gateway: String,
    /// Network subnet in CIDR notation (e.g. "192.168.122.0/24").
    pub subnet: String,
    /// Network prefix for IP allocation (e.g. "192.168.122").
    pub prefix: String,
    /// Netmask bits (e.g. 24 for /24).
    pub netmask_bits: u8,
    /// IP pool start (for deterministic allocation).
    pub ip_pool_start: String,
    /// IP pool end (for deterministic allocation).
    pub ip_pool_end: String,
    /// Default network interface name in VMs (e.g. "enp1s0").
    pub default_interface: String,
}

/// Storage and filesystem capabilities (paths as text).
#[derive(Debug, Clone)]
pub struct StorageCapabilities {
    /// Libvirt images directory.
    pub images_dir: String,
    /// Temporary directory for working files.
    pub temp_dir: String,
    /// Cloud-init working directory.
    pub cloud_init_dir: String,
}

/// Virtualization capabilities.
#[derive(Debug, Clone)]
pub struct VirtCapabilities {
    /// Libvirt connection URI.
    pub uri: String,
    /// Default OS variant for virt-install.
    pub default_os_variant: String,
    /// SSH port.
    pub ssh_port: u16,
    /// VNC base port.
    pub vnc_base_port: u16,
}

/// Complete system capabilities.
#[derive(Debug, Clone)]
pub struct SystemCapabilities {
    /// Network configuration capabilities.
    pub network: NetworkCapabilities,
    /// Storage and filesystem capabilities.
    pub storage: StorageCapabilities,
    /// Virtualization capabilities.
    pub virtualization: VirtCapabilities,
}

/// The opening of an element tag: `<element `.
pub open spec fn element_open(element: Seq<char>) -> Seq<char> {
    seq!['<'] + element + seq![' ']
}

/// The start of an attribute: `attr="`.
pub open spec fn attr_open(attr: Seq<char>) -> Seq<char> {
    attr + seq!['=', '"']
}

/// A line mentions both the element's opening and the attribute.
pub open spec fn line_has(line: Seq<char>, es: Seq<char>, ap: Seq<char>) -> bool {
    contains_seq(line, es) && contains_seq(line, ap)
}

/// `i` is the first of `ls` that mentions both patterns.
pub open spec fn is_first_line_with(ls: Seq<Seq<char>>, es: Seq<char>, ap: Seq<char>, i: int) -> bool {
    0 <= i < ls.len() && line_has(ls[i], es, ap) && forall|j: int|
        0 <= j < i ==> !line_has(#[trigger] ls[j], es, ap)
}

/// The value of attribute `attr` on the first line of `xml` that holds
/// both `<element ` and `attr="`: the text after the first `attr="`, up to
/// the next `attr="` or the next `"`, whichever comes first.
pub open spec fn xml_attr_value(xml: Seq<char>, element: Seq<char>, attr: Seq<char>) -> Option<
    Seq<char>,
> {
    let ls = lines_of(xml);
    let es = element_open(element);
    let ap = attr_open(attr);
    if exists|i: int| is_first_line_with(ls, es, ap, i) {
        let i = choose|i: int| is_first_line_with(ls, es, ap, i);
        match split_second(ls[i], ap) {
            Some(piece) => Some(before_first(piece, seq!['"'])),
            None => None,
        }
    } else {
        None
    }
}

proof fn lemma_first_line_unique(ls: Seq<Seq<char>>, es: Seq<char>, ap: Seq<char>, i: int, k: int)
    requires
        is_first_line_with(ls, es, ap, i),
        is_first_line_with(ls, es, ap, k),
    ensures
        i == k,
{
    if i < k {
        assert(!line_has(ls[i], es, ap));
    } else if k < i {
        assert(!line_has(ls[k], es, ap));
    }
}

/// CIDR prefix length of a dotted netmask; unknown masks count as /24.
pub open spec fn netmask_bits_of(netmask: Seq<char>) -> u8 {
    if netmask == "255.255.0.0"@ {
        16
    } else if netmask == "255.0.0.0"@ {
        8
    } else if netmask == "255.255.255.128"@ {
        25
    } else if netmask == "255.255.255.192"@ {
        26
    } else if netmask == "255.255.255.224"@ {
        27
    } else if netmask == "255.255.255.240"@ {
        28
    } else if netmask == "255.255.255.248"@ {
        29
    } else if netmask == "255.255.255.252"@ {
        30
    } else {
        24
    }
}

/// The part of a gateway address before its last dot.
pub open spec fn gateway_prefix(gateway: Seq<char>) -> Option<Seq<char>> {
    match rsplit_once(gateway, '.') {
        Some(p) => Some(p.0),
        None => None,
    }
}

/// The capabilities built from a gateway, a network prefix, a netmask
/// length, a network name and an interface name.
pub open spec fn network_caps_fields(
    c: NetworkCapabilities,
    network: Seq<char>,
    gateway: Seq<char>,
    prefix: Seq<char>,
    bits: u8,
    interface: Seq<char>,
) -> bool {
    &&& c.default_network@ == network
    &&& c.gateway@ == gateway
    &&& c.subnet@ == prefix + ".0/"@ + decimal(bits as nat)
    &&& c.prefix@ == prefix
    &&& c.netmask_bits == bits
    &&& c.ip_pool_start@ == prefix + ".10"@
    &&& c.ip_pool_end@ == prefix + ".250"@
    &&& c.default_interface@ == interface
}

/// An optional text, or the fallback when absent.
pub open spec fn or_default(v: Option<String>, fallback: Seq<char>) -> Seq<char> {
    match v {
        Some(s) => s@,
        None => fallback,
    }
}

fn or_default_exec(v: &Option<String>, fallback: &str) -> (r: String)
    ensures
        r@ == or_default(*v, fallback@),
{
    match v {
        Some(s) => s.clone(),
        None => owned(fallback),
    }
}

/// A port number from an optional text: the parsed `u16`, or the fallback
/// when absent or unparsable.
pub open spec fn port_or(v: Option<String>, fallback: u16) -> u16 {
    match v {
        Some(s) => match parse_unsigned(s@, 65535) {
            Some(p) => p as u16,
            None => fallback,
        },
        None => fallback,
    }
}

fn port_or_exec(v: &Option<String>, fallback: u16) -> (r: u16)
    ensures
        r == port_or(*v, fallback),
{
    match v {
        Some(s) => {
            let cs = chars_of(s.as_str());
            match parse_unsigned_chars(cs.as_slice(), 65535) {
                Some(p) => p as u16,
                None => fallback,
            }
        },
        None => fallback,
    }
}

fn build_network_caps(
    network: String,
    gateway: String,
    prefix: &[char],
    bits: u8,
    interface: String,
) -> (c: NetworkCapabilities)
    ensures
        network_caps_fields(c, network@, gateway@, prefix@, bits, interface@),
{
    let prefix_s = string_from_chars(prefix);
    let mut subnet = string_from_chars(prefix);
    push_str(&mut subnet, ".0/");
    push_decimal(&mut subnet, bits as u64);
    let mut start = string_from_chars(prefix);
    push_str(&mut start, ".10");
    let mut end = string_from_chars(prefix);
    push_str(&mut end, ".250");
    NetworkCapabilities {
        default_network: network,
        gateway,
        subnet,
        prefix: prefix_s,
        netmask_bits: bits,
        ip_pool_start: start,
        ip_pool_end: end,
        default_interface: interface,
    }
}

impl NetworkCapabilities {
    /// The standard libvirt default network: 192.168.122.0/24, gateway .1,
    /// pool .10 to .250, interface `enp1s0`.
    pub fn default_libvirt() -> (r: Self)
        ensures
            r.default_network@ == "default"@,
            r.gateway@ == "192.168.122.1"@,
            r.subnet@ == "192.168.122.0/24"@,
            r.prefix@ == "192.168.122"@,
            r.netmask_bits == 24,
            r.ip_pool_start@ == "192.168.122.10"@,
            r.ip_pool_end@ == "192.168.122.250"@,
            r.default_interface@ == "enp1s0"@,
    {
        NetworkCapabilities {
            default_network: owned("default"),
            gateway: owned("192.168.122.1"),
            subnet: owned("192.168.122.0/24"),
            prefix: owned("192.168.122"),
            netmask_bits: 24,
            ip_pool_start: owned("192.168.122.10"),
            ip_pool_end: owned("192.168.122.250"),
            default_interface: owned("enp1s0"),
        }
    }

    /// Extracts an attribute value from the first line of `xml` that holds
    /// both `<element ` and `attr="`.
    pub fn extract_xml_attr(xml: &str, element: &str, attr: &str) -> (r: Option<String>)
        ensures
            match xml_attr_value(xml@, element@, attr@) {
                Some(v) => r matches Some(s) && s@ == v,
                None => r is None,
            },
    {
        let mut es = owned("<");
        push_str(&mut es, element);
        push_char(&mut es, ' ');
        let mut ap = owned(attr);
        push_char(&mut ap, '=');
        push_char(&mut ap, '"');
        let ghost gs = element_open(element@);
        let ghost ga = attr_open(attr@);
        proof {
            reveal_strlit("<");
            assert(es@ =~= gs);
            assert(ap@ =~= ga);
        }
        let esc = chars_of(es.as_str());
        let apc = chars_of(ap.as_str());
        let xc = chars_of(xml);
        let lines = lines_chars(xc.as_slice());
        let ghost ls = lines_of(xml@);
        let mut i: usize = 0;
        while i < lines.len()
            invariant
                seqs_of(lines@) == ls,
                ls == lines_of(xml@),
                esc@ == gs,
                apc@ == ga,
                gs == element_open(element@),
                ga == attr_open(attr@),
                i <= lines.len(),
                forall|j: int| 0 <= j < i ==> !line_has(#[trigger] ls[j], gs, ga),
            decreases lines.len() - i,
        {
            let line = &lines[i];
            proof {
                assert(ls[i as int] == line@);
            }
            if contains_chars(line.as_slice(), esc.as_slice()) && contains_chars(
                line.as_slice(),
                apc.as_slice(),
            ) {
                proof {
                    assert(is_first_line_with(ls, gs, ga, i as int));
                    let k = choose|k: int| is_first_line_with(ls, gs, ga, k);
                    lemma_first_line_unique(ls, gs, ga, i as int, k);
                }
                let piece = split_second_chars(line.as_slice(), apc.as_slice());
                return match piece {
                    Some(p) => {
                        let q: [char; 1] = ['"'];
                        let v = before_first_chars(p.as_slice(), &q);
                        proof {
                            assert(q@ =~= seq!['"']);
                        }
                        Some(string_from_chars(v.as_slice()))
                    },
                    None => None,
                };
            }
            i = i + 1;
        }
        proof {
            assert forall|k: int| !is_first_line_with(ls, gs, ga, k) by {
                if 0 <= k < ls.len() {
                    assert(!line_has(ls[k], gs, ga));
                }
            }
        }
        None
    }

    /// CIDR prefix length of a dotted netmask; unknown masks give 24.
    pub fn netmask_to_cidr(netmask: &str) -> (r: u8)
        ensures
            r == netmask_bits_of(netmask@),
    {
        if str_eq(netmask, "255.255.0.0") {
            16
        } else if str_eq(netmask, "255.0.0.0") {
            8
        } else if str_eq(netmask, "255.255.255.128") {
            25
        } else if str_eq(netmask, "255.255.255.192") {
            26
        } else if str_eq(netmask, "255.255.255.224") {
            27
        } else if str_eq(netmask, "255.255.255.240") {
            28
        } else if str_eq(netmask, "255.255.255.248") {
            29
        } else if str_eq(netmask, "255.255.255.252") {
            30
        } else {
            24
        }
    }

    /// Capabilities from the XML of libvirt's default network
    /// (`virsh net-dumpxml default`): the gateway and netmask of its `<ip>`
    /// element (192.168.122.1 and 255.255.255.0 when missing), the prefix
    /// before the gateway's last dot (192.168.122 when it has none), and a
    /// pool from `.10` to `.250` that avoids libvirt's DHCP edges.
    pub fn from_libvirt_xml(xml: &str) -> (r: Self)
        ensures
            ({
                let gateway = match xml_attr_value(xml@, "ip"@, "address"@) {
                    Some(g) => g,
                    None => "192.168.122.1"@,
                };
                let netmask = match xml_attr_value(xml@, "ip"@, "netmask"@) {
                    Some(m) => m,
                    None => "255.255.255.0"@,
                };
                let prefix = match gateway_prefix(gateway) {
                    Some(p) => p,
                    None => "192.168.122"@,
                };
                network_caps_fields(
                    r,
                    "default"@,
                    gateway,
                    prefix,
                    netmask_bits_of(netmask),
                    "enp1s0"@,
                )
            }),
    {
        let gateway = match Self::extract_xml_attr(xml, "ip", "address") {
            Some(g) => g,
            None => owned("192.168.122.1"),
        };
        let netmask = match Self::extract_xml_attr(xml, "ip", "netmask") {
            Some(m) => m,
            None => owned("255.255.255.0"),
        };
        let bits = Self::netmask_to_cidr(netmask.as_str());
        let gc = chars_of(gateway.as_str());
        let prefix = match rsplit_once_chars(gc.as_slice(), '.') {
            Some(p) => p.0,
            None => chars_of("192.168.122"),
        };
        build_network_caps(owned("default"), gateway, prefix.as_slice(), bits, owned("enp1s0"))
    }

    /// Capabilities from the `BENCHSCALE_GATEWAY`, `BENCHSCALE_NETMASK`,
    /// `BENCHSCALE_NETWORK` and `BENCHSCALE_INTERFACE` values read by the
    /// caller. Fails without a gateway, or with one that has no dot.
    pub fn from_env_values(
        gateway: Option<String>,
        netmask: Option<String>,
        network: Option<String>,
        interface: Option<String>,
    ) -> (r: Result<Self, Error>)
        ensures
            match gateway {
                None => r matches Err(Error::Backend(m)) && m@ == "No BENCHSCALE_GATEWAY"@,
                Some(g) => match gateway_prefix(g@) {
                    None => r matches Err(Error::Backend(m)) && m@ == "Invalid gateway format"@,
                    Some(p) => r matches Ok(c) && network_caps_fields(
                        c,
                        or_default(network, "default"@),
                        g@,
                        p,
                        port_or_bits(netmask),
                        or_default(interface, "enp1s0"@),
                    ),
                },
            },
    {
        let g = match gateway {
            Some(g) => g,
            None => return Err(Error::Backend(owned("No BENCHSCALE_GATEWAY"))),
        };
        let gc = chars_of(g.as_str());
        let prefix = match rsplit_once_chars(gc.as_slice(), '.') {
            Some(p) => p.0,
            None => return Err(Error::Backend(owned("Invalid gateway format"))),
        };
        let bits: u8 = match &netmask {
            Some(s) => {
                let cs = chars_of(s.as_str());
                match parse_unsigned_chars(cs.as_slice(), 255) {
                    Some(v) => v as u8,
                    None => 24,
                }
            },
            None => 24,
        };
        let net = or_default_exec(&network, "default");
        let iface = or_default_exec(&interface, "enp1s0");
        Ok(build_network_caps(net, g, prefix.as_slice(), bits, iface))
    }
}

/// The netmask length from `BENCHSCALE_NETMASK`: the parsed `u8`, or 24
/// when unset or unparsable.
pub open spec fn port_or_bits(v: Option<String>) -> u8 {
    match v {
        Some(s) => match parse_unsigned(s@, 255) {
            Some(b) => b as u8,
            None => 24,
        },
        None => 24,
    }
}

/// The path inside the first line of a storage-pool XML that holds both
/// `<path>` and `</path>`: the text after `<path>` up to `</path>`, trimmed.
pub open spec fn pool_path_of(xml: Seq<char>) -> Option<Seq<char>> {
    let ls = lines_of(xml);
    let o = "<path>"@;
    let c = "</path>"@;
    if exists|i: int| is_first_line_with(ls, o, c, i) {
        let i = choose|i: int| is_first_line_with(ls, o, c, i);
        match split_second(ls[i], o) {
            Some(piece) => Some(trim(before_first(piece, c))),
            None => None,
        }
    } else {
        None
    }
}

impl StorageCapabilities {
    /// Capabilities from a discovered images directory and temporary
    /// directory; cloud-init files go to `benchscale-cloud-init` inside the
    /// temporary directory.
    pub fn from_dirs(images_dir: String, temp_dir: String) -> (r: Self)
        ensures
            r.images_dir@ == images_dir@,
            r.temp_dir@ == temp_dir@,
            r.cloud_init_dir@ == path_join(temp_dir@, "benchscale-cloud-init"@),
    {
        let cloud_init_dir = join_path(temp_dir.as_str(), "benchscale-cloud-init");
        StorageCapabilities { images_dir, temp_dir, cloud_init_dir }
    }

    /// The images directory, from what the caller found in order:
    /// `LIBVIRT_IMAGES_DIR` when that directory exists, else the path of
    /// libvirt's default pool, else `libvirt/images` under `XDG_DATA_HOME`
    /// when that exists, else `/var/lib/libvirt/images`.
    pub fn choose_images_dir(
        env_dir: Option<String>,
        env_dir_exists: bool,
        pool_dir: Option<String>,
        xdg_images_dir: Option<String>,
        xdg_images_dir_exists: bool,
    ) -> (r: String)
        ensures
            r@ == (match (env_dir, pool_dir, xdg_images_dir) {
                (Some(e), _, _) if env_dir_exists => e@,
                (_, Some(p), _) => p@,
                (_, _, Some(x)) if xdg_images_dir_exists => x@,
                _ => "/var/lib/libvirt/images"@,
            }),
    {
        if let Some(e) = env_dir {
            if env_dir_exists {
                return e;
            }
        }
        if let Some(p) = pool_dir {
            return p;
        }
        if let Some(x) = xdg_images_dir {
            if xdg_images_dir_exists {
                return x;
            }
        }
        owned("/var/lib/libvirt/images")
    }

    /// The temporary directory: `XDG_RUNTIME_DIR` when set and existing,
    /// else the system's.
    pub fn choose_temp_dir(xdg_runtime_dir: Option<String>, exists: bool, system_temp: String) -> (r: String)
        ensures
            r@ == (match xdg_runtime_dir {
                Some(x) if exists => x@,
                _ => system_temp@,
            }),
    {
        match xdg_runtime_dir {
            Some(x) => if exists {
                x
            } else {
                system_temp
            },
            None => system_temp,
        }
    }

    /// The storage path in the XML of libvirt's default pool
    /// (`virsh pool-dumpxml default`), if it names one.
    pub fn pool_path_from_xml(xml: &str) -> (r: Option<String>)
        ensures
            match pool_path_of(xml@) {
                Some(p) => r matches Some(s) && s@ == p,
                None => r is None,
            },
    {
        let o = chars_of("<path>");
        let c = chars_of("</path>");
        let ghost go = "<path>"@;
        let ghost gc = "</path>"@;
        let xc = chars_of(xml);
        let lines = lines_chars(xc.as_slice());
        let ghost ls = lines_of(xml@);
        let mut i: usize = 0;
        while i < lines.len()
            invariant
                seqs_of(lines@) == ls,
                ls == lines_of(xml@),
                o@ == go,
                c@ == gc,
                go == "<path>"@,
                gc == "</path>"@,
                i <= lines.len(),
                forall|j: int| 0 <= j < i ==> !line_has(#[trigger] ls[j], go, gc),
            decreases lines.len() - i,
        {
            let line = &lines[i];
            proof {
                assert(ls[i as int] == line@);
            }
            if contains_chars(line.as_slice(), o.as_slice()) && contains_chars(
                line.as_slice(),
                c.as_slice(),
            ) {
                proof {
                    assert(is_first_line_with(ls, go, gc, i as int));
                    let k = choose|k: int| is_first_line_with(ls, go, gc, k);
                    lemma_first_line_unique(ls, go, gc, i as int, k);
                }
                return match split_second_chars(line.as_slice(), o.as_slice()) {
                    Some(p) => {
                        let v = before_first_chars(p.as_slice(), c.as_slice());
                        let t = trim_chars(v.as_slice());
                        Some(string_from_chars(t.as_slice()))
                    },
                    None => None,
                };
            }
            i = i + 1;
        }
        proof {
            assert forall|k: int| !is_first_line_with(ls, go, gc, k) by {
                if 0 <= k < ls.len() {
                    assert(!line_has(ls[k], go, gc));
                }
            }
        }
        None
    }
}

impl VirtCapabilities {
    /// Capabilities from the values of `LIBVIRT_URI`,
    /// `BENCHSCALE_LIBVIRT_URI`, `BENCHSCALE_OS_VARIANT`,
    /// `BENCHSCALE_SSH_PORT` and `BENCHSCALE_VNC_BASE_PORT` read by the
    /// caller, with the defaults `qemu:///system`, `ubuntu22.04`, 22 and 5900.
    pub fn from_env_values(
        libvirt_uri: Option<String>,
        benchscale_uri: Option<String>,
        os_variant: Option<String>,
        ssh_port: Option<String>,
        vnc_base_port: Option<String>,
    ) -> (r: Self)
        ensures
            r.uri@ == (match libvirt_uri {
                Some(u) => u@,
                None => or_default(benchscale_uri, "qemu:///system"@),
            }),
            r.default_os_variant@ == or_default(os_variant, "ubuntu22.04"@),
            r.ssh_port == port_or(ssh_port, 22),
            r.vnc_base_port == port_or(vnc_base_port, 5900),
    {
        let uri = match libvirt_uri {
            Some(u) => u,
            None => or_default_exec(&benchscale_uri, "qemu:///system"),
        };
        VirtCapabilities {
            uri,
            default_os_variant: or_default_exec(&os_variant, "ubuntu22.04"),
            ssh_port: port_or_exec(&ssh_port, 22),
            vnc_base_port: port_or_exec(&vnc_base_port, 5900),
        }
    }
}

} // verus!
