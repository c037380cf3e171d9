//! Provisioning state of a VM: its stable MAC address, the metadata of a
//! desktop VM found over DHCP, and giving back a pool address.
use vstd::prelude::*;
use std::collections::hash_map::DefaultHasher;
use std::hash::{Hash, Hasher};
use vstd::std_specs::hash::DefaultHasherAdditionalSpecFns;
use crate::backend::ip_pool::{IpPool, Ipv4Addr, released};
use crate::text::{hex_padded, ipv4_parse, owned, push_hex_padded, push_str, views};

verus! {

/// The hasher's state after hashing the string `s` into it
/// (`<str as Hash>::hash`).
pub uninterp spec fn str_hash_writes(state: Seq<Seq<u8>>, s: Seq<char>) -> Seq<Seq<u8>>;

/// Hashes a string into a `DefaultHasher` (`<str as Hash>::hash`).
///
/// Trusted: the hasher's new state is a function of its old state and the
/// string alone, named by [`str_hash_writes`]; std does not document what
/// the writes are.
#[verifier::external_body]
fn hash_str(h: &mut DefaultHasher, s: &str)
    ensures
        final(h)@ == str_hash_writes(old(h)@, s@),
{
    s.hash(h);
}

/// The hash of a VM name with a fresh `DefaultHasher`.
pub open spec fn name_hash(name: Seq<char>) -> u64 {
    DefaultHasher::spec_finish(str_hash_writes(Seq::empty(), name))
}

/// The QEMU-style MAC address for a hash: prefix `52:54:00`, then the
/// hash's bits 16..24, 8..16 and 0..8 as two hex digits each.
pub open spec fn mac_from_hash(h: u64) -> Seq<char> {
    "52:54:00:"@ + hex_padded(((h >> 16u64) & 0xffu64) as nat, 2) + ":"@ + hex_padded(
        ((h >> 8u64) & 0xffu64) as nat,
        2,
    ) + ":"@ + hex_padded((h & 0xffu64) as nat, 2)
}

/// The stable MAC address of a VM, derived from its name.
pub fn qemu_mac_from_vm_name(name: &str) -> (r: String)
    ensures
        r@ == mac_from_hash(name_hash(name@)),
{
    let mut h = DefaultHasher::new();
    hash_str(&mut h, name);
    let hash: u64 = h.finish();
    let mut s = owned("52:54:00:");
    push_hex_padded(&mut s, (hash >> 16u64) & 0xffu64, 2);
    push_str(&mut s, ":");
    push_hex_padded(&mut s, (hash >> 8u64) & 0xffu64, 2);
    push_str(&mut s, ":");
    push_hex_padded(&mut s, hash & 0xffu64, 2);
    s
}

/// The metadata recorded on a desktop VM once DHCP discovery finished:
/// its MAC address and that it is in DHCP mode.
pub fn desktop_dhcp_node_metadata(mac_address: &str) -> (r: Vec<(String, String)>)
    ensures
        r@.len() == 2,
        r@[0].0@ == "mac_address"@ && r@[0].1@ == mac_address@,
        r@[1].0@ == "dhcp_mode"@ && r@[1].1@ == "true"@,
{
    let mut v: Vec<(String, String)> = Vec::new();
    v.push((owned("mac_address"), owned(mac_address)));
    v.push((owned("dhcp_mode"), owned("true")));
    v
}

/// Gives an address back to the pool when it came from the pool and reads
/// as an IPv4 address; otherwise the pool is left alone.
pub fn release_pool_ip_if_needed(from_pool: bool, allocated_ip: &str, pool: &mut IpPool)
    requires
        old(pool).wf(),
    ensures
        final(pool).wf(),
        match (from_pool, ipv4_parse(allocated_ip@)) {
            (true, Some(bits)) => final(pool)@ == released(old(pool)@, bits),
            _ => final(pool)@ == old(pool)@,
        },
{
    if !from_pool {
        return;
    }
    match Ipv4Addr::parse(allocated_ip) {
        Some(ip) => pool.release(ip),
        None => {},
    }
}

} // verus!
