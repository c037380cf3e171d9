//! IP pool management: deterministic IPv4 allocation for VMs.
//!
//! Each VM gets an address from a fixed range that no other live VM holds,
//! without relying on DHCP timing. Addresses are handed out in cyclic order
//! starting from a remembered candidate, so released addresses are reused
//! only after the rest of the range has been tried.
use vstd::prelude::*;
use std::collections::HashSet;
use crate::error::Error;
use crate::text::{decimal, push_decimal, push_str, owned, ipv4_parse, parse_ipv4};

verus! {

broadcast use vstd::std_specs::hash::group_hash_axioms;

/// An IPv4 address, held as its 32-bit big-endian value.
#[derive(Debug, Clone, Copy, PartialEq, Eq, Hash)]
pub struct Ipv4Addr {
    bits: u32,
}

impl View for Ipv4Addr {
    type V = u32;

    closed spec fn view(&self) -> u32 {
        self.bits
    }
}

/// The 32-bit value of the address `a.b.c.d`.
pub open spec fn ipv4_bits(a: u8, b: u8, c: u8, d: u8) -> u32 {
    (a as int * 16777216 + b as int * 65536 + c as int * 256 + d as int) as u32
}

/// The `i`-th octet (most significant first) of `bits`.
pub open spec fn octet(bits: u32, i: int) -> u8 {
    if i == 0 {
        (bits / 16777216) as u8
    } else if i == 1 {
        ((bits / 65536) % 256) as u8
    } else if i == 2 {
        ((bits / 256) % 256) as u8
    } else {
        (bits % 256) as u8
    }
}

/// Dotted-decimal text of an address (`Display` of `std::net::Ipv4Addr`).
pub open spec fn ipv4_text(bits: u32) -> Seq<char> {
    decimal(octet(bits, 0) as nat) + seq!['.'] + decimal(octet(bits, 1) as nat) + seq!['.']
        + decimal(octet(bits, 2) as nat) + seq!['.'] + decimal(octet(bits, 3) as nat)
}

impl Ipv4Addr {
    /// The address `a.b.c.d`.
    pub fn new(a: u8, b: u8, c: u8, d: u8) -> (r: Ipv4Addr)
        ensures
            r@ == ipv4_bits(a, b, c, d),
    {
        let bits: u32 = (a as u32) * 16777216 + (b as u32) * 65536 + (c as u32) * 256 + (d as u32);
        Ipv4Addr { bits }
    }

    /// The address with the given 32-bit value.
    pub fn from_bits(bits: u32) -> (r: Ipv4Addr)
        ensures
            r@ == bits,
    {
        Ipv4Addr { bits }
    }

    /// The address's 32-bit value.
    pub fn to_bits(&self) -> (r: u32)
        ensures
            r == self@,
    {
        self.bits
    }

    /// The four octets, most significant first.
    pub fn octets(&self) -> (r: [u8; 4])
        ensures
            r@ == seq![octet(self@, 0), octet(self@, 1), octet(self@, 2), octet(self@, 3)],
    {
        let b = self.bits;
        [(b / 16777216) as u8, ((b / 65536) % 256) as u8, ((b / 256) % 256) as u8, (b % 256) as u8]
    }

    /// Dotted-decimal text of the address.
    pub fn to_string(&self) -> (r: String)
        ensures
            r@ == ipv4_text(self@),
    {
        let o = self.octets();
        let mut s = String::new();
        push_decimal(&mut s, o[0] as u64);
        push_str(&mut s, ".");
        push_decimal(&mut s, o[1] as u64);
        push_str(&mut s, ".");
        push_decimal(&mut s, o[2] as u64);
        push_str(&mut s, ".");
        push_decimal(&mut s, o[3] as u64);
        proof {
            reveal_strlit(".");
            assert(s@ =~= ipv4_text(self@));
        }
        s
    }

    /// Parses dotted-decimal text as `str::parse::<std::net::Ipv4Addr>` does.
    pub fn parse(text: &str) -> (r: Option<Ipv4Addr>)
        ensures
            match ipv4_parse(text@) {
                Some(bits) => r matches Some(a) && a@ == bits,
                None => r is None,
            },
    {
        match parse_ipv4(text) {
            Some(bits) => Some(Ipv4Addr { bits }),
            None => None,
        }
    }
}

/// The text of std's address parse error.
pub open spec fn addr_parse_error_text() -> Seq<char> {
    "invalid IPv4 address syntax"@
}

/// What `ipnetwork::IpNetwork::from_str` gives for a CIDR text:
/// `Ok((is_v4, addr, prefix))`, where `addr` is the address as written in
/// the text (not masked to the network) as an integer (`u32::from` of an IPv4 address, `u128::from` of an IPv6 one), or
/// the text of the parse error.
pub uninterp spec fn ip_network_parse(text: Seq<char>) -> Result<(bool, u128, u8), Seq<char>>;

/// Parses a CIDR network with `ipnetwork::IpNetwork::from_str`.
///
/// Trusted: the result is the crate's parse of the same text, reduced to
/// plain values; an IPv4 network's address fits in 32 bits and its prefix
/// is at most 32 (the crate refuses longer prefixes when it builds an
/// `Ipv4Network`). A text that is neither an IPv4 nor an IPv6 network is
/// refused with `invalid address: ` followed by the text.
#[verifier::external_body]
pub(crate) fn parse_ip_network(text: &str) -> (r: Result<(bool, u128, u8), String>)
    ensures
        match r {
            Ok(t) => ip_network_parse(text@) == Ok::<(bool, u128, u8), Seq<char>>(t) && (t.0 ==> t.1
                <= u32::MAX && t.2 <= 32),
            Err(m) => ip_network_parse(text@) == Err::<(bool, u128, u8), Seq<char>>(m@) && m@
                == "invalid address: "@ + text@,
        },
{
    match text.parse::<ipnetwork::IpNetwork>() {
        Ok(ipnetwork::IpNetwork::V4(n)) => Ok((true, u32::from(n.ip()) as u128, n.prefix())),
        Ok(ipnetwork::IpNetwork::V6(n)) => Ok((false, u128::from(n.ip()), n.prefix())),
        Err(e) => Err(e.to_string()),
    }
}

/// The network mask of an IPv4 prefix length, as `ipnetwork` computes it.
pub open spec fn v4_mask(prefix: u8) -> u32 {
    (!(0xffff_ffffu64 >> prefix)) as u32
}

/// Whether an IPv4 network `addr/prefix` contains `ip`
/// (`ipnetwork::Ipv4Network::contains`).
pub open spec fn v4_contains(addr: u32, prefix: u8, ip: u32) -> bool {
    (ip & v4_mask(prefix)) == (addr & v4_mask(prefix))
}

/// Whether a parsed network (see [`ip_network_parse`]) contains the IPv4
/// address `ip` (`ipnetwork::IpNetwork::contains`): an IPv6 network never
/// contains an IPv4 address.
pub open spec fn network_contains(net: (bool, u128, u8), ip: u32) -> bool {
    net.0 && v4_contains(net.1 as u32, net.2, ip)
}

fn network_contains_exec(net: (bool, u128, u8), ip: u32) -> (r: bool)
    requires
        net.0 ==> net.1 <= u32::MAX && net.2 <= 32,
    ensures
        r == network_contains(net, ip),
{
    if !net.0 {
        return false;
    }
    let mask: u32 = (!(0xffff_ffffu64 >> net.2)) as u32;
    let addr: u32 = net.1 as u32;
    (ip & mask) == (addr & mask)
}

/// The abstract state of a pool.
pub struct IpPoolView {
    /// Addresses currently handed out.
    pub allocated: Set<u32>,
    /// Where the next search for a free address starts.
    pub next_candidate: u32,
    /// The network's CIDR text.
    pub network: Seq<char>,
    /// First allocatable address.
    pub range_start: u32,
    /// Last allocatable address.
    pub range_end: u32,
}

/// IP address pool manager.
///
/// Hands out addresses of `range_start..=range_end` so that no two live
/// holders share one.
pub struct IpPool {
    allocated: HashSet<u32>,
    next_candidate: u32,
    network: String,
    range_start: u32,
    range_end: u32,
}

impl View for IpPool {
    type V = IpPoolView;

    closed spec fn view(&self) -> IpPoolView {
        IpPoolView {
            allocated: self.allocated@,
            next_candidate: self.next_candidate,
            network: self.network@,
            range_start: self.range_start,
            range_end: self.range_end,
        }
    }
}

impl IpPoolView {
    /// The pool's invariant: a non-empty range, and every allocated address
    /// lies in it.
    pub open spec fn wf(self) -> bool {
        &&& self.range_start <= self.range_end
        &&& self.allocated.finite()
        &&& forall|ip: u32| #[trigger]
            self.allocated.contains(ip) ==> self.range_start <= ip <= self.range_end
    }

    /// Number of addresses in the range.
    pub open spec fn size(self) -> nat {
        (self.range_end - self.range_start + 1) as nat
    }

    /// `ip` lies in the allocatable range.
    pub open spec fn in_range(self, ip: u32) -> bool {
        self.range_start <= ip <= self.range_end
    }

    /// Where a search starts: the remembered candidate, or the start of the
    /// range when the candidate has left it.
    pub open spec fn search_start(self) -> u32 {
        if self.next_candidate < self.range_start || self.next_candidate > self.range_end {
            self.range_start
        } else {
            self.next_candidate
        }
    }

    /// The `k`-th address a search visits: the range walked cyclically from
    /// [`search_start`](Self::search_start).
    pub open spec fn candidate(self, k: nat) -> u32 {
        let s = self.search_start();
        if s + k <= self.range_end {
            (s + k) as u32
        } else {
            (self.range_start + (s + k - self.range_end - 1)) as u32
        }
    }

    /// `k` is the position of the first free address a search visits.
    pub open spec fn first_free_at(self, k: nat) -> bool {
        &&& k < self.size()
        &&& !self.allocated.contains(self.candidate(k))
        &&& forall|j: nat| j < k ==> #[trigger] self.allocated.contains(self.candidate(j))
    }

    /// Every address of the range is allocated.
    pub open spec fn exhausted(self) -> bool {
        forall|ip: u32| self.in_range(ip) ==> #[trigger] self.allocated.contains(ip)
    }

    /// The candidate that follows a just-allocated address.
    pub open spec fn after(self, ip: u32) -> u32 {
        if ip as int + 1 > self.range_end {
            self.range_start
        } else {
            (ip + 1) as u32
        }
    }
}

/// Message of the error for a range whose start lies after its end.
pub open spec fn invalid_range_msg(start: u32, end: u32) -> Seq<char> {
    "Invalid IP range: start ("@ + ipv4_text(start) + ") > end ("@ + ipv4_text(end) + ")"@
}

/// Message of the error for an unparsable CIDR text.
pub open spec fn invalid_cidr_msg(cidr: Seq<char>, err: Seq<char>) -> Seq<char> {
    "Invalid CIDR '"@ + cidr + "': "@ + err
}

/// Message of the error for a range start outside the network.
pub open spec fn start_outside_msg(start: u32, cidr: Seq<char>) -> Seq<char> {
    "Range start "@ + ipv4_text(start) + " is outside network "@ + cidr
}

/// Message of the error for a range end outside the network.
pub open spec fn end_outside_msg(end: u32, cidr: Seq<char>) -> Seq<char> {
    "Range end "@ + ipv4_text(end) + " is outside network "@ + cidr
}

/// Message of the error for a pool with no free address.
pub open spec fn exhausted_msg(count: nat, start: u32, end: u32) -> Seq<char> {
    "IP pool exhausted: all "@ + decimal(count) + " addresses in range "@ + ipv4_text(start)
        + "-"@ + ipv4_text(end) + " are allocated"@
}

/// Message of the error for a requested address outside the range.
pub open spec fn outside_range_msg(ip: u32, start: u32, end: u32) -> Seq<char> {
    "IP "@ + ipv4_text(ip) + " is outside allocatable range "@ + ipv4_text(start) + "-"@
        + ipv4_text(end)
}

/// Message of the error for a requested address that is already taken.
pub open spec fn already_allocated_msg(ip: u32) -> Seq<char> {
    "IP "@ + ipv4_text(ip) + " is already allocated"@
}

/// Message of the error for an unparsable start address.
pub open spec fn invalid_start_msg(text: Seq<char>, err: Seq<char>) -> Seq<char> {
    "Invalid start IP '"@ + text + "': "@ + err
}

/// Message of the error for an unparsable end address.
pub open spec fn invalid_end_msg(text: Seq<char>, err: Seq<char>) -> Seq<char> {
    "Invalid end IP '"@ + text + "': "@ + err
}

/// The /24 network text `a.b.c.0/24` around an address.
pub open spec fn slash24_text(bits: u32) -> Seq<char> {
    decimal(octet(bits, 0) as nat) + seq!['.'] + decimal(octet(bits, 1) as nat) + seq!['.']
        + decimal(octet(bits, 2) as nat) + ".0/24"@
}

/// What [`IpPool::new`] yields for given inputs.
pub open spec fn new_outcome(cidr: Seq<char>, start: u32, end: u32) -> Result<IpPoolView, Seq<char>> {
    if start > end {
        Err(invalid_range_msg(start, end))
    } else {
        match ip_network_parse(cidr) {
            Err(e) => Err(invalid_cidr_msg(cidr, e)),
            Ok(net) => if !network_contains(net, start) {
                Err(start_outside_msg(start, cidr))
            } else if !network_contains(net, end) {
                Err(end_outside_msg(end, cidr))
            } else {
                Ok(
                    IpPoolView {
                        allocated: Set::empty(),
                        next_candidate: start,
                        network: cidr,
                        range_start: start,
                        range_end: end,
                    },
                )
            },
        }
    }
}

fn ipv4_text_exec(bits: u32) -> (r: String)
    ensures
        r@ == ipv4_text(bits),
{
    Ipv4Addr::from_bits(bits).to_string()
}

impl IpPool {
    /// The pool's invariant.
    pub open spec fn wf(&self) -> bool {
        self@.wf()
    }

    /// Create a new IP pool over `range_start..=range_end` of the network
    /// `network_cidr`.
    ///
    /// Fails when the range is reversed, the CIDR text does not parse, or
    /// either end of the range lies outside the network.
    pub fn new(network_cidr: String, range_start: Ipv4Addr, range_end: Ipv4Addr) -> (r: Result<
        IpPool,
        Error,
    >)
        ensures
            match new_outcome(network_cidr@, range_start@, range_end@) {
                Ok(v) => r matches Ok(p) && p@ == v && p.wf(),
                Err(m) => r matches Err(e) && e == Error::Backend(e->Backend_0) && e.message() == m,
            },
    {
        let start = range_start.bits;
        let end = range_end.bits;
        if start > end {
            let mut m = owned("Invalid IP range: start (");
            push_str(&mut m, &ipv4_text_exec(start));
            push_str(&mut m, ") > end (");
            push_str(&mut m, &ipv4_text_exec(end));
            push_str(&mut m, ")");
            proof {
                assert(m@ =~= invalid_range_msg(start, end));
            }
            return Err(Error::Backend(m));
        }
        let net = match parse_ip_network(network_cidr.as_str()) {
            Ok(net) => net,
            Err(e) => {
                let mut m = owned("Invalid CIDR '");
                push_str(&mut m, network_cidr.as_str());
                push_str(&mut m, "': ");
                push_str(&mut m, e.as_str());
                proof {
                    assert(m@ =~= invalid_cidr_msg(network_cidr@, e@));
                }
                return Err(Error::Backend(m));
            },
        };
        if !network_contains_exec(net, start) {
            let mut m = owned("Range start ");
            push_str(&mut m, &ipv4_text_exec(start));
            push_str(&mut m, " is outside network ");
            push_str(&mut m, network_cidr.as_str());
            proof {
                assert(m@ =~= start_outside_msg(start, network_cidr@));
            }
            return Err(Error::Backend(m));
        }
        if !network_contains_exec(net, end) {
            let mut m = owned("Range end ");
            push_str(&mut m, &ipv4_text_exec(end));
            push_str(&mut m, " is outside network ");
            push_str(&mut m, network_cidr.as_str());
            proof {
                assert(m@ =~= end_outside_msg(end, network_cidr@));
            }
            return Err(Error::Backend(m));
        }
        let pool = IpPool {
            allocated: HashSet::new(),
            next_candidate: start,
            network: network_cidr,
            range_start: start,
            range_end: end,
        };
        proof {
            assert(pool@.allocated =~= Set::<u32>::empty());
        }
        Ok(pool)
    }

    /// Create a new IP pool from textual start and end addresses; the
    /// network is the /24 around the start address.
    pub fn from_range(start_ip: &str, end_ip: &str) -> (r: Result<IpPool, Error>)
        ensures
            match ipv4_parse(start_ip@) {
                None => r matches Err(Error::Backend(m)) && m@ == invalid_start_msg(
                    start_ip@,
                    addr_parse_error_text(),
                ),
                Some(s) => match ipv4_parse(end_ip@) {
                    None => r matches Err(Error::Backend(m)) && m@ == invalid_end_msg(
                        end_ip@,
                        addr_parse_error_text(),
                    ),
                    Some(t) => match new_outcome(slash24_text(s), s, t) {
                        Ok(v) => r matches Ok(p) && p@ == v && p.wf(),
                        Err(msg) => r matches Err(Error::Backend(m)) && m@ == msg,
                    },
                },
            },
    {
        let start = match parse_ipv4(start_ip) {
            Some(b) => b,
            None => {
                let mut m = owned("Invalid start IP '");
                push_str(&mut m, start_ip);
                push_str(&mut m, "': ");
                push_str(&mut m, "invalid IPv4 address syntax");
                proof {
                    assert(m@ =~= invalid_start_msg(start_ip@, addr_parse_error_text()));
                }
                return Err(Error::Backend(m));
            },
        };
        let end = match parse_ipv4(end_ip) {
            Some(b) => b,
            None => {
                let mut m = owned("Invalid end IP '");
                push_str(&mut m, end_ip);
                push_str(&mut m, "': ");
                push_str(&mut m, "invalid IPv4 address syntax");
                proof {
                    assert(m@ =~= invalid_end_msg(end_ip@, addr_parse_error_text()));
                }
                return Err(Error::Backend(m));
            },
        };
        let o = Ipv4Addr::from_bits(start).octets();
        let mut cidr = String::new();
        push_decimal(&mut cidr, o[0] as u64);
        push_str(&mut cidr, ".");
        push_decimal(&mut cidr, o[1] as u64);
        push_str(&mut cidr, ".");
        push_decimal(&mut cidr, o[2] as u64);
        push_str(&mut cidr, ".0/24");
        proof {
            reveal_strlit(".");
            assert(cidr@ =~= slash24_text(start));
        }
        Self::new(cidr, Ipv4Addr::from_bits(start), Ipv4Addr::from_bits(end))
    }

    /// The pool for libvirt's default network: 192.168.122.10 through
    /// 192.168.122.250 of 192.168.122.0/24.
    pub fn default_libvirt() -> (r: IpPool)
        ensures
            r.wf(),
            r@.allocated == Set::<u32>::empty(),
            r@.network == "192.168.122.0/24"@,
            r@.range_start == ipv4_bits(192, 168, 122, 10),
            r@.range_end == ipv4_bits(192, 168, 122, 250),
            r@.next_candidate == r@.range_start,
    {
        let start = Ipv4Addr::new(192, 168, 122, 10).bits;
        let end = Ipv4Addr::new(192, 168, 122, 250).bits;
        let pool = IpPool {
            allocated: HashSet::new(),
            next_candidate: start,
            network: owned("192.168.122.0/24"),
            range_start: start,
            range_end: end,
        };
        proof {
            assert(pool@.allocated =~= Set::<u32>::empty());
        }
        pool
    }

    /// Allocate the next available IP address.
    ///
    /// The search walks the range cyclically from the remembered candidate
    /// and takes the first free address; afterwards the candidate is the
    /// address that follows it. Fails when every address is allocated.
    pub fn allocate(&mut self) -> (r: Result<Ipv4Addr, Error>)
        requires
            old(self).wf(),
            !(old(self)@.range_start == 0 && old(self)@.range_end == u32::MAX),
        ensures
            final(self).wf(),
            match r {
                Ok(ip) => {
                    &&& (exists|k: nat| #[trigger] old(self)@.first_free_at(k) && ip@ == old(
                        self,
                    )@.candidate(k))
                    &&& final(self)@ == (IpPoolView {
                        allocated: old(self)@.allocated.insert(ip@),
                        next_candidate: old(self)@.after(ip@),
                        ..old(self)@
                    })
                },
                Err(e) => {
                    &&& old(self)@.exhausted()
                    &&& final(self)@ == old(self)@
                    &&& e == Error::Backend(e->Backend_0)
                    &&& e.message() == exhausted_msg(
                        old(self)@.allocated.len(),
                        old(self)@.range_start,
                        old(self)@.range_end,
                    )
                },
            },
    {
        let ghost v = self@;
        let start = self.range_start;
        let end = self.range_end;
        let mut start_ip = self.next_candidate;
        if start_ip < start || start_ip > end {
            start_ip = start;
        }
        let pool_size = Self::range_size(start, end);
        let mut checked: usize = 0;
        let mut current: u32 = start_ip;
        while checked < pool_size
            invariant
                self@ == v,
                old(self)@ == v,
                v.wf(),
                start == v.range_start,
                end == v.range_end,
                start_ip == v.search_start(),
                pool_size as nat == v.size(),
                checked <= pool_size,
                start <= current <= end,
                checked < pool_size ==> v.candidate(checked as nat) == current,
                forall|j: nat| j < checked ==> #[trigger] v.allocated.contains(v.candidate(j)),
            decreases pool_size - checked,
        {
            if !self.allocated.contains(&current) {
                self.allocated.insert(current);
                self.next_candidate = if current == end {
                    start
                } else {
                    current + 1
                };
                proof {
                    assert(v.first_free_at(checked as nat));
                }
                return Ok(Ipv4Addr { bits: current });
            }
            proof {
                if checked + 1 < pool_size {
                    let s = v.search_start();
                    if s + checked <= end {
                        assert(current == s + checked);
                    } else {
                        assert(current == start + (s + checked - end - 1));
                        assert(current < end);
                    }
                }
            }
            current = if current == end {
                start
            } else {
                current + 1
            };
            checked = checked + 1;
        }
        proof {
            lemma_candidates_cover(v);
            assert forall|ip: u32| v.in_range(ip) implies #[trigger] v.allocated.contains(ip) by {
                let k = choose|k: nat| k < v.size() && v.candidate(k) == ip;
                assert(v.allocated.contains(v.candidate(k)));
            }
        }
        let mut m = owned("IP pool exhausted: all ");
        push_decimal(&mut m, self.allocated.len() as u64);
        push_str(&mut m, " addresses in range ");
        push_str(&mut m, &ipv4_text_exec(start));
        push_str(&mut m, "-");
        push_str(&mut m, &ipv4_text_exec(end));
        push_str(&mut m, " are allocated");
        proof {
            assert(m@ =~= exhausted_msg(v.allocated.len(), start, end));
        }
        Err(Error::Backend(m))
    }

    /// Allocate a specific IP address.
    ///
    /// Fails when the address lies outside the range or is already taken;
    /// the search candidate is left as it was.
    pub fn allocate_specific(&mut self, ip: Ipv4Addr) -> (r: Result<Ipv4Addr, Error>)
        requires
            old(self).wf(),
        ensures
            final(self).wf(),
            !old(self)@.in_range(ip@) ==> (r matches Err(Error::Backend(m)) && m@
                == outside_range_msg(ip@, old(self)@.range_start, old(self)@.range_end)),
            !old(self)@.in_range(ip@) ==> final(self)@ == old(self)@,
            old(self)@.in_range(ip@) && old(self)@.allocated.contains(ip@) ==> (r matches Err(
                Error::Backend(m),
            ) && m@ == already_allocated_msg(ip@)),
            old(self)@.in_range(ip@) && old(self)@.allocated.contains(ip@) ==> final(self)@ == old(
                self,
            )@,
            old(self)@.in_range(ip@) && !old(self)@.allocated.contains(ip@) ==> (r matches Ok(a)
                && a == ip),
            old(self)@.in_range(ip@) && !old(self)@.allocated.contains(ip@) ==> final(self)@ == (
            IpPoolView { allocated: old(self)@.allocated.insert(ip@), ..old(self)@ }),
    {
        let b = ip.bits;
        if b < self.range_start || b > self.range_end {
            let mut m = owned("IP ");
            push_str(&mut m, &ipv4_text_exec(b));
            push_str(&mut m, " is outside allocatable range ");
            push_str(&mut m, &ipv4_text_exec(self.range_start));
            push_str(&mut m, "-");
            push_str(&mut m, &ipv4_text_exec(self.range_end));
            proof {
                assert(m@ =~= outside_range_msg(b, self.range_start, self.range_end));
            }
            return Err(Error::Backend(m));
        }
        if self.allocated.contains(&b) {
            let mut m = owned("IP ");
            push_str(&mut m, &ipv4_text_exec(b));
            push_str(&mut m, " is already allocated");
            proof {
                assert(m@ =~= already_allocated_msg(b));
            }
            return Err(Error::Backend(m));
        }
        self.allocated.insert(b);
        Ok(ip)
    }

    /// Release an IP address back to the pool; releasing an address that is
    /// not allocated changes nothing but the search candidate.
    ///
    /// When the address lies before the search candidate, the next search
    /// starts there.
    pub fn release(&mut self, ip: Ipv4Addr)
        requires
            old(self).wf(),
        ensures
            final(self).wf(),
            final(self)@ == (IpPoolView {
                allocated: old(self)@.allocated.remove(ip@),
                next_candidate: if ip@ < old(self)@.next_candidate {
                    ip@
                } else {
                    old(self)@.next_candidate
                },
                ..old(self)@
            }),
    {
        self.allocated.remove(&ip.bits);
        if ip.bits < self.next_candidate {
            self.next_candidate = ip.bits;
        }
    }

    /// The number of currently allocated addresses.
    pub fn allocated_count(&self) -> (r: usize)
        requires
            self.wf(),
        ensures
            r == self@.allocated.len(),
    {
        self.allocated.len()
    }

    /// The total number of addresses in the range.
    pub fn capacity(&self) -> (r: usize)
        requires
            self.wf(),
            !(self@.range_start == 0 && self@.range_end == u32::MAX),
        ensures
            r == self@.size(),
    {
        Self::range_size(self.range_start, self.range_end)
    }

    /// The number of addresses not currently allocated.
    pub fn available_count(&self) -> (r: usize)
        requires
            self.wf(),
            !(self@.range_start == 0 && self@.range_end == u32::MAX),
        ensures
            r == self@.size() - self@.allocated.len(),
    {
        proof {
            lemma_allocated_within_size(self@);
        }
        Self::range_size(self.range_start, self.range_end) - self.allocated.len()
    }

    /// Whether an address is currently allocated.
    pub fn is_allocated(&self, ip: Ipv4Addr) -> (r: bool)
        ensures
            r == self@.allocated.contains(ip@),
    {
        self.allocated.contains(&ip.bits)
    }

    /// The network's CIDR text.
    pub fn network(&self) -> (r: String)
        ensures
            r@ == self@.network,
    {
        self.network.clone()
    }

    /// First allocatable address.
    pub fn range_start(&self) -> (r: Ipv4Addr)
        ensures
            r@ == self@.range_start,
    {
        Ipv4Addr { bits: self.range_start }
    }

    /// Last allocatable address.
    pub fn range_end(&self) -> (r: Ipv4Addr)
        ensures
            r@ == self@.range_end,
    {
        Ipv4Addr { bits: self.range_end }
    }

    /// Size of the inclusive range `start..=end`.
    fn range_size(start: u32, end: u32) -> (r: usize)
        requires
            start <= end,
            !(start == 0 && end == u32::MAX),
        ensures
            r == end - start + 1,
    {
        (end - start + 1) as usize
    }
}

/// Every address of the range is visited by some step of a search.
proof fn lemma_candidates_cover(v: IpPoolView)
    requires
        v.wf(),
    ensures
        forall|ip: u32| v.in_range(ip) ==> (exists|k: nat| k < v.size() && #[trigger] v.candidate(k) == ip),
{
    assert forall|ip: u32| v.in_range(ip) implies (exists|k: nat| k < v.size() && #[trigger] v.candidate(k) == ip) by {
        let s = v.search_start();
        if ip >= s {
            let k = (ip - s) as nat;
            assert(v.candidate(k) == ip);
        } else {
            let k = (v.range_end - s + 1 + ip - v.range_start) as nat;
            assert(v.candidate(k) == ip);
        }
    }
}

/// Every step of a search visits an address of the range.
proof fn lemma_candidate_in_range(v: IpPoolView, k: nat)
    requires
        v.wf(),
        k < v.size(),
    ensures
        v.in_range(v.candidate(k)),
{
}

/// The allocated set never outgrows the range.
proof fn lemma_allocated_within_size(v: IpPoolView)
    requires
        v.wf(),
    ensures
        v.allocated.len() <= v.size(),
{
    let range = Set::new(|ip: u32| v.range_start <= ip <= v.range_end);
    lemma_range_set_len(v.range_start, v.range_end);
    assert(v.allocated.subset_of(range));
    vstd::set_lib::lemma_len_subset(v.allocated, range);
}

/// The set of addresses `lo..=hi` is finite with `hi - lo + 1` members.
proof fn lemma_range_set_len(lo: u32, hi: u32)
    requires
        lo <= hi,
    ensures
        Set::new(|ip: u32| lo <= ip <= hi).finite(),
        Set::new(|ip: u32| lo <= ip <= hi).len() == hi - lo + 1,
    decreases hi - lo,
{
    let s = Set::new(|ip: u32| lo <= ip <= hi);
    if lo == hi {
        assert(s =~= Set::empty().insert(lo));
    } else {
        let t = Set::new(|ip: u32| lo <= ip <= (hi - 1) as u32);
        lemma_range_set_len(lo, (hi - 1) as u32);
        assert(s =~= t.insert(hi));
    }
}

/// Some free address exists at or before search position `k`, so a first
/// free position exists.
proof fn lemma_first_free_exists(v: IpPoolView, k: nat)
    requires
        v.wf(),
        k < v.size(),
        !v.allocated.contains(v.candidate(k)),
    ensures
        exists|j: nat| j <= k && #[trigger] v.first_free_at(j),
    decreases k,
{
    if forall|j: nat| j < k ==> #[trigger] v.allocated.contains(v.candidate(j)) {
        assert(v.first_free_at(k));
    } else {
        let j = choose|j: nat| j < k && !#[trigger] v.allocated.contains(v.candidate(j));
        lemma_first_free_exists(v, j);
    }
}

/// Allocation fails exactly when the pool is exhausted: a search finds a
/// free address if and only if some address of the range is unallocated.
pub proof fn law_allocation_possible_iff_not_exhausted(v: IpPoolView)
    requires
        v.wf(),
    ensures
        (exists|k: nat| #[trigger] v.first_free_at(k)) <==> !v.exhausted(),
{
    if !v.exhausted() {
        let ip = choose|ip: u32| v.in_range(ip) && !#[trigger] v.allocated.contains(ip);
        lemma_candidates_cover(v);
        let k = choose|k: nat| k < v.size() && #[trigger] v.candidate(k) == ip;
        lemma_first_free_exists(v, k);
    }
    if exists|k: nat| #[trigger] v.first_free_at(k) {
        let k = choose|k: nat| #[trigger] v.first_free_at(k);
        lemma_candidate_in_range(v, k);
        assert(v.in_range(v.candidate(k)) && !v.allocated.contains(v.candidate(k)));
    }
}

/// An allocated address is fresh: it lies in the range and no live holder
/// had it, so two holders never share an address.
pub proof fn law_allocated_address_is_fresh(v: IpPoolView, k: nat)
    requires
        v.wf(),
        v.first_free_at(k),
    ensures
        v.in_range(v.candidate(k)),
        !v.allocated.contains(v.candidate(k)),
        v.allocated.insert(v.candidate(k)).len() == v.allocated.len() + 1,
{
    lemma_candidate_in_range(v, k);
}

/// What [`IpPool::release`] does to the abstract state.
pub open spec fn released(v: IpPoolView, ip: u32) -> IpPoolView {
    IpPoolView {
        allocated: v.allocated.remove(ip),
        next_candidate: if ip < v.next_candidate {
            ip
        } else {
            v.next_candidate
        },
        ..v
    }
}

/// Releasing is idempotent: releasing an address twice leaves the pool as
/// releasing it once, and afterwards the address is free.
pub proof fn law_release_idempotent(v: IpPoolView, ip: u32)
    ensures
        released(released(v, ip), ip) == released(v, ip),
        !released(v, ip).allocated.contains(ip),
{
    assert(released(released(v, ip), ip).allocated =~= released(v, ip).allocated);
}

/// Allocated and available addresses always add up to the capacity.
pub proof fn law_counts_add_up(v: IpPoolView)
    requires
        v.wf(),
    ensures
        v.allocated.len() <= v.size(),
        v.allocated.len() + (v.size() - v.allocated.len()) == v.size(),
{
    lemma_allocated_within_size(v);
}


/// A released address is handed out again: when every other address of
/// the range is taken, the next allocation after releasing `ip` yields
/// `ip`.
pub proof fn law_released_address_is_reused(v: IpPoolView, ip: u32)
    requires
        v.wf(),
        v.exhausted(),
        v.allocated.contains(ip),
    ensures
        exists|k: nat| #[trigger] released(v, ip).first_free_at(k),
        forall|k: nat| #[trigger] released(v, ip).first_free_at(k) ==> released(v, ip).candidate(k) == ip,
{
    let w = released(v, ip);
    assert(w.wf());
    assert(w.in_range(ip) && !w.allocated.contains(ip));
    assert(!w.exhausted());
    law_allocation_possible_iff_not_exhausted(w);
    assert forall|k: nat| #[trigger] w.first_free_at(k) implies w.candidate(k) == ip by {
        lemma_candidate_in_range(w, k);
        let c = w.candidate(k);
        if c != ip {
            assert(v.in_range(c));
            assert(v.allocated.contains(c));
            assert(w.allocated.contains(c));
        }
    }
}

} // verus!
