//! The decisions of provisioning and removing libvirt VMs: where a VM's
//! files go, which address it gets, which tools run with which arguments,
//! what a finished VM reports, and when the host is fit to build on.
//! Running the tools, talking to libvirt and waiting happen outside.
use vstd::prelude::*;
use crate::backend::{NodeInfo, NodeStatus};
use crate::backend::gpu_lifecycle::{AttachMode, VfioPassthrough};
use crate::backend::ip_pool::{IpPool, IpPoolView, Ipv4Addr, ipv4_text};
use crate::backend::libvirt::dhcp_discovery::DhcpLease;
use crate::backend::libvirt::health_check::{HealthState, HealthStatus};
use crate::backend::libvirt::recovery::{RecoveryResult, recovery_summary};
use crate::capabilities::NetworkCapabilities;
use crate::cloud_init::{NetworkConfig as StaticNetwork, address_with_prefix, default_nameservers};
use std::time::Duration;
use crate::error::Error;
use crate::time::{debug_duration, duration_debug};
use crate::path::{join_path, parent_dir, path_join, path_parent};
use crate::text::{
    chars_of, contains_seq, decimal, owned, push_decimal, push_str, str_contains, str_eq,
    string_from_chars, trim, trim_chars, views,
};

verus! {

/// The disk image of a VM in the images directory: `<name>.qcow2`.
pub open spec fn vm_disk_path(images_dir: Seq<char>, name: Seq<char>) -> Seq<char> {
    path_join(images_dir, name + ".qcow2"@)
}

/// The cloud-init ISO of a VM in the images directory: `<name>-cidata.iso`.
pub open spec fn vm_iso_path(images_dir: Seq<char>, name: Seq<char>) -> Seq<char> {
    path_join(images_dir, name + "-cidata.iso"@)
}

/// The disk image of a VM.
pub fn disk_path_for(images_dir: &str, name: &str) -> (r: String)
    ensures
        r@ == vm_disk_path(images_dir@, name@),
{
    let mut f = owned(name);
    push_str(&mut f, ".qcow2");
    join_path(images_dir, f.as_str())
}

/// The cloud-init ISO of a VM.
pub fn iso_path_for(images_dir: &str, name: &str) -> (r: String)
    ensures
        r@ == vm_iso_path(images_dir@, name@),
{
    let mut f = owned(name);
    push_str(&mut f, "-cidata.iso");
    join_path(images_dir, f.as_str())
}

/// The address a new VM gets: the requested one, or a fresh one from the
/// pool; the flag says whether it came from the pool and must be given
/// back if the VM fails or takes another address.
pub fn choose_vm_ip(static_ip: Option<String>, pool: &mut IpPool) -> (r: Result<(String, bool), Error>)
    requires
        old(pool).wf(),
        old(pool)@.range_end < u32::MAX,
    ensures
        final(pool).wf(),
        match static_ip {
            Some(ip) => r == Ok::<(String, bool), Error>((ip, false)) && final(pool)@ == old(pool)@,
            None => match r {
                Ok(p) => p.1 && exists|bits: u32| #[trigger] ipv4_text(bits) == p.0@
                    && final(pool)@.allocated == old(pool)@.allocated.insert(bits)
                    && !old(pool)@.allocated.contains(bits),
                Err(_) => old(pool)@.exhausted() && final(pool)@ == old(pool)@,
            },
        },
{
    match static_ip {
        Some(ip) => Ok((ip, false)),
        None => {
            let ghost before = pool@;
            match pool.allocate() {
                Ok(addr) => {
                    proof {
                        let k = choose|k: nat| #[trigger] before.first_free_at(k) && addr@ == before.candidate(k);
                        crate::backend::ip_pool::law_allocated_address_is_fresh(before, k);
                    }
                    let text = addr.to_string();
                    proof {
                        assert(ipv4_text(addr@) == text@);
                    }
                    Ok((text, true))
                },
                Err(e) => Err(e),
            }
        },
    }
}

/// The `cp` arguments that copy a base image to a VM's disk.
pub fn disk_copy_args(base_image: &str, disk_path: &str) -> (r: Vec<String>)
    ensures
        views(r@) == seq![base_image@, disk_path@],
{
    let mut v: Vec<String> = Vec::new();
    v.push(owned(base_image));
    v.push(owned(disk_path));
    proof {
        assert(views(v@) =~= seq![base_image@, disk_path@]);
    }
    v
}

/// The `qemu-img` arguments that resize a disk to `size_gb` gigabytes.
pub fn disk_resize_args(disk_path: &str, size_gb: u32) -> (r: Vec<String>)
    ensures
        views(r@) == seq!["resize"@, disk_path@, decimal(size_gb as nat) + "G"@],
{
    let mut v: Vec<String> = Vec::new();
    v.push(owned("resize"));
    v.push(owned(disk_path));
    let mut size = String::new();
    push_decimal(&mut size, size_gb as u64);
    push_str(&mut size, "G");
    proof {
        assert(size@ =~= decimal(size_gb as nat) + "G"@);
    }
    v.push(size);
    proof {
        assert(views(v@) =~= seq!["resize"@, disk_path@, decimal(size_gb as nat) + "G"@]);
    }
    v
}

/// The `qemu-img` arguments that create a copy-on-write disk on a template.
pub fn template_overlay_args(template_path: &str, disk_path: &str) -> (r: Vec<String>)
    ensures
        views(r@) == seq!["create"@, "-f"@, "qcow2"@, "-F"@, "qcow2"@, "-b"@, template_path@, disk_path@],
{
    let mut v: Vec<String> = Vec::new();
    v.push(owned("create"));
    v.push(owned("-f"));
    v.push(owned("qcow2"));
    v.push(owned("-F"));
    v.push(owned("qcow2"));
    v.push(owned("-b"));
    v.push(owned(template_path));
    v.push(owned(disk_path));
    proof {
        assert(views(v@) =~= seq!["create"@, "-f"@, "qcow2"@, "-F"@, "qcow2"@, "-b"@, template_path@, disk_path@]);
    }
    v
}

/// The positions of the cold-attached devices and of the others, each in
/// order.
pub open spec fn attach_split(devs: Seq<VfioPassthrough>) -> (Seq<usize>, Seq<usize>)
    decreases devs.len(),
{
    if devs.len() == 0 {
        (Seq::empty(), Seq::empty())
    } else {
        let rest = attach_split(devs.drop_last());
        let i = (devs.len() - 1) as usize;
        if devs.last().attach_mode == AttachMode::Cold {
            (rest.0.push(i), rest.1)
        } else {
            (rest.0, rest.1.push(i))
        }
    }
}

/// Splits the passthrough devices into those attached before boot and
/// those attached after it, by position.
pub fn partition_by_attach(devs: &[VfioPassthrough]) -> (r: (Vec<usize>, Vec<usize>))
    ensures
        r.0@ == attach_split(devs@).0,
        r.1@ == attach_split(devs@).1,
{
    let mut cold: Vec<usize> = Vec::new();
    let mut hot: Vec<usize> = Vec::new();
    let mut i: usize = 0;
    while i < devs.len()
        invariant
            i <= devs.len(),
            cold@ == attach_split(devs@.take(i as int)).0,
            hot@ == attach_split(devs@.take(i as int)).1,
        decreases devs.len() - i,
    {
        proof {
            assert(devs@.take(i + 1).drop_last() =~= devs@.take(i as int));
            assert(devs@.take(i + 1).last() == devs@[i as int]);
        }
        if devs[i].attach_mode == AttachMode::Cold {
            cold.push(i);
        } else {
            hot.push(i);
        }
        i = i + 1;
    }
    proof {
        assert(devs@.take(devs@.len() as int) =~= devs@);
    }
    (cold, hot)
}

/// The static network a VM's cloud-init gets for its address: none for a
/// DHCP VM, else the address with the network's prefix length on the
/// default interface, through the network's gateway.
pub fn static_network_for(allocated_ip: &str, caps: &NetworkCapabilities) -> (r: Option<StaticNetwork>)
    ensures
        allocated_ip@ == "dhcp"@ ==> r is None,
        allocated_ip@ != "dhcp"@ ==> (r matches Some(n) && n.interface@ == caps.default_interface@
            && n.address@ == address_with_prefix(allocated_ip@, caps.netmask_bits) && n.gateway@
            == caps.gateway@ && views(n.nameservers@) == default_nameservers() && n.renderer is None),
{
    if str_eq(allocated_ip, "dhcp") {
        return None;
    }
    let mut address = owned(allocated_ip);
    push_str(&mut address, "/");
    push_decimal(&mut address, caps.netmask_bits as u64);
    Some(StaticNetwork::new(caps.default_interface.as_str(), address.as_str(), caps.gateway.as_str()))
}

/// The cloud-init meta-data of a VM: its name as instance ID and host name.
pub fn instance_meta_data(name: &str) -> (r: String)
    ensures
        r@ == "instance-id: "@ + name@ + "\nlocal-hostname: "@ + name@ + "\n"@,
{
    let mut s = owned("instance-id: ");
    push_str(&mut s, name);
    push_str(&mut s, "\nlocal-hostname: ");
    push_str(&mut s, name);
    push_str(&mut s, "\n");
    s
}

/// A running VM on the default network, named `name` throughout.
pub open spec fn is_running_vm(n: NodeInfo, name: Seq<char>, ip: Seq<char>) -> bool {
    &&& n.id@ == name
    &&& n.name@ == name
    &&& n.container_id@ == name
    &&& n.ip_address@ == ip
    &&& n.network@ == "default"@
    &&& n.status == NodeStatus::Running
}

fn running_vm(name: &str, ip: String, metadata: Vec<(String, String)>) -> (r: NodeInfo)
    ensures
        is_running_vm(r, name@, ip@),
        r.metadata == metadata,
{
    NodeInfo {
        id: owned(name),
        name: owned(name),
        container_id: owned(name),
        ip_address: ip,
        network: owned("default"),
        status: NodeStatus::Running,
        metadata,
    }
}

/// What a desktop VM reports once its DHCP address is known: its MAC
/// address, DHCP mode and cloud-init ISO as metadata.
pub fn desktop_node_info(name: &str, ip: String, mac_address: &str, iso_path: &str) -> (r: NodeInfo)
    ensures
        is_running_vm(r, name@, ip@),
        r.metadata@.len() == 3,
        r.metadata@[0].0@ == "mac_address"@ && r.metadata@[0].1@ == mac_address@,
        r.metadata@[1].0@ == "dhcp_mode"@ && r.metadata@[1].1@ == "true"@,
        r.metadata@[2].0@ == "iso_path"@ && r.metadata@[2].1@ == iso_path@,
{
    let mut meta: Vec<(String, String)> = Vec::new();
    meta.push((owned("mac_address"), owned(mac_address)));
    meta.push((owned("dhcp_mode"), owned("true")));
    meta.push((owned("iso_path"), owned(iso_path)));
    running_vm(name, ip, meta)
}

/// What a VM made from a template reports: no metadata.
pub fn template_node_info(name: &str, ip: String) -> (r: NodeInfo)
    ensures
        is_running_vm(r, name@, ip@),
        r.metadata@.len() == 0,
{
    running_vm(name, ip, Vec::new())
}

/// Where intermediate snapshots of VMs made from a template are kept:
/// `intermediates` beside the template's directory, or `/tmp` when the
/// template path has no grandparent.
pub open spec fn intermediates_dir_of(template_path: Seq<char>) -> Seq<char> {
    match path_parent(template_path) {
        Some(p) => match path_parent(p) {
            Some(g) => path_join(g, "intermediates"@),
            None => "/tmp"@,
        },
        None => "/tmp"@,
    }
}

/// The directory intermediate snapshots of a template's VMs go to.
pub fn intermediates_dir(template_path: &str) -> (r: String)
    ensures
        r@ == intermediates_dir_of(template_path@),
{
    match parent_dir(template_path) {
        Some(p) => match parent_dir(p.as_str()) {
            Some(g) => join_path(g.as_str(), "intermediates"),
            None => owned("/tmp"),
        },
        None => owned("/tmp"),
    }
}

/// The file an intermediate snapshot of a template VM is saved as.
pub fn intermediate_file_name(name: &str, timestamp: &str) -> (r: String)
    ensures
        r@ == name@ + "-intermediate-"@ + timestamp@ + ".qcow2"@,
{
    let mut s = owned(name);
    push_str(&mut s, "-intermediate-");
    push_str(&mut s, timestamp);
    push_str(&mut s, ".qcow2");
    s
}

/// The address of the first lease whose host name mentions the VM.
pub open spec fn lease_ip_for_vm(leases: Seq<DhcpLease>, vm_name: Seq<char>) -> Option<Seq<char>>
    decreases leases.len(),
{
    if leases.len() == 0 {
        None
    } else if contains_seq(leases[0].hostname@, vm_name) {
        Some(leases[0].ip_address@)
    } else {
        lease_ip_for_vm(leases.drop_first(), vm_name)
    }
}

/// The address of the first lease whose host name mentions the VM.
pub fn ip_from_leases_matching_vm(leases: &[DhcpLease], vm_name: &str) -> (r: Option<String>)
    ensures
        match lease_ip_for_vm(leases@, vm_name@) {
            Some(ip) => r matches Some(s) && s@ == ip,
            None => r is None,
        },
{
    let mut i: usize = 0;
    proof {
        assert(leases@.skip(0) =~= leases@);
    }
    while i < leases.len()
        invariant
            i <= leases.len(),
            lease_ip_for_vm(leases@, vm_name@) == lease_ip_for_vm(leases@.skip(i as int), vm_name@),
        decreases leases.len() - i,
    {
        proof {
            assert(leases@.skip(i as int)[0] == leases@[i as int]);
            assert(leases@.skip(i as int).drop_first() =~= leases@.skip(i + 1));
        }
        let h = chars_of(leases[i].hostname.as_str());
        if str_contains(h.as_slice(), vm_name) {
            return Some(leases[i].ip_address.clone());
        }
        i = i + 1;
    }
    None
}

/// The first IPv4 address among a domain's interface addresses, each
/// given with whether it is IPv4.
pub open spec fn first_ipv4_of(addrs: Seq<(bool, String)>) -> Option<Seq<char>>
    decreases addrs.len(),
{
    if addrs.len() == 0 {
        None
    } else if addrs[0].0 {
        Some(addrs[0].1@)
    } else {
        first_ipv4_of(addrs.drop_first())
    }
}

/// The first IPv4 address among a domain's interface addresses.
pub fn first_ipv4(addrs: &[(bool, String)]) -> (r: Option<String>)
    ensures
        match first_ipv4_of(addrs@) {
            Some(ip) => r matches Some(s) && s@ == ip,
            None => r is None,
        },
{
    let mut i: usize = 0;
    proof {
        assert(addrs@.skip(0) =~= addrs@);
    }
    while i < addrs.len()
        invariant
            i <= addrs.len(),
            first_ipv4_of(addrs@) == first_ipv4_of(addrs@.skip(i as int)),
        decreases addrs.len() - i,
    {
        proof {
            assert(addrs@.skip(i as int)[0] == addrs@[i as int]);
            assert(addrs@.skip(i as int).drop_first() =~= addrs@.skip(i + 1));
        }
        if addrs[i].0 {
            return Some(addrs[i].1.clone());
        }
        i = i + 1;
    }
    None
}

/// The interface name a VM reported for its default route: the trimmed
/// output, when it is non-empty and shorter than 20 bytes.
pub open spec fn reported_interface(output: Seq<char>) -> Option<Seq<char>> {
    let t = trim(output);
    if t.len() > 0 && crate::config::network::byte_len(t) < 20 {
        Some(t)
    } else {
        None
    }
}

/// The VM's interface: the one it reported, else the network's default.
pub fn interface_or_default(output: Option<&str>, caps: &NetworkCapabilities) -> (r: String)
    ensures
        r@ == match output {
            Some(o) => match reported_interface(o@) {
                Some(i) => i,
                None => caps.default_interface@,
            },
            None => caps.default_interface@,
        },
{
    match output {
        Some(o) => {
            let cs = chars_of(o);
            let t = string_from_chars(trim_chars(cs.as_slice()).as_slice());
            if !t.as_str().is_empty() && t.as_str().len() < 20 {
                t
            } else {
                caps.default_interface.clone()
            }
        },
        None => caps.default_interface.clone(),
    }
}

/// What the host's health asks of a build about to start.
#[derive(Debug, Clone, Copy, PartialEq, Eq, Structural)]
pub enum HealthGate {
    /// Go ahead (healthy, or degraded but working).
    Proceed,
    /// Recover first.
    Recover,
}

/// What the host's health asks of a build: an unhealthy host is recovered
/// first; a healthy or degraded one is built on.
pub fn health_gate(health: &HealthStatus) -> (r: HealthGate)
    ensures
        r == (if health.overall is Unhealthy {
            HealthGate::Recover
        } else {
            HealthGate::Proceed
        }),
{
    match health.overall {
        HealthState::Unhealthy(_) => HealthGate::Recover,
        _ => HealthGate::Proceed,
    }
}

/// Whether a build may go on after a recovery: only when it succeeded.
pub fn after_recovery(result: &RecoveryResult) -> (r: Result<(), Error>)
    ensures
        result.success ==> r is Ok,
        !result.success ==> (r matches Err(Error::Backend(m)) && m@ == "Infrastructure recovery failed: "@
            + recovery_summary(*result) + ". System cannot function."@),
{
    if result.success {
        Ok(())
    } else {
        let mut m = owned("Infrastructure recovery failed: ");
        let s = result.summary();
        push_str(&mut m, s.as_str());
        push_str(&mut m, ". System cannot function.");
        Err(Error::Backend(m))
    }
}

/// The error when a VM got no address within `timeout`, after `attempts`
/// lookups.
pub fn ip_timeout_error(vm_name: &str, timeout: Duration, attempts: u64) -> (r: Error)
    ensures
        r matches Error::Backend(m) && m@ == "Timeout waiting for VM '"@ + vm_name@ + "' IP assignment after "@
            + duration_debug(timeout) + " ("@ + decimal(attempts as nat) + " attempts)"@,
{
    let mut m = owned("Timeout waiting for VM '");
    push_str(&mut m, vm_name);
    push_str(&mut m, "' IP assignment after ");
    let t = debug_duration(timeout);
    push_str(&mut m, t.as_str());
    push_str(&mut m, " (");
    push_decimal(&mut m, attempts);
    push_str(&mut m, " attempts)");
    Error::Backend(m)
}

/// Whether an address a VM reports can be used: not empty and not
/// `0.0.0.0`.
pub fn usable_ip(ip: &str) -> (r: bool)
    ensures
        r == (ip@.len() > 0 && ip@ != "0.0.0.0"@),
{
    let cs = chars_of(ip);
    cs.len() > 0 && !str_eq(ip, "0.0.0.0")
}

/// The error when a VM reported no usable address in time.
pub fn wait_ip_timeout_error(name: &str) -> (r: Error)
    ensures
        r matches Error::Backend(m) && m@ == "Timeout waiting for IP for VM "@ + name@,
{
    let mut m = owned("Timeout waiting for IP for VM ");
    push_str(&mut m, name);
    Error::Backend(m)
}

/// Whether the SSH probe command answered: exit code 0 and `SSH ready`
/// in its output.
pub fn ssh_ready(exit_code: i32, stdout: &str) -> (r: bool)
    ensures
        r == (exit_code == 0 && contains_seq(stdout@, "SSH ready"@)),
{
    let cs = chars_of(stdout);
    exit_code == 0 && str_contains(cs.as_slice(), "SSH ready")
}

/// The next wait between SSH probes: twice the last, at most 30 s.
pub fn ssh_backoff_next_secs(secs: u64) -> (r: u64)
    ensures
        r == (if secs * 2 < 30 { secs * 2 } else { 30 }),
{
    if secs < 15 {
        secs * 2
    } else {
        30
    }
}

/// The error when SSH did not come up in time, with the last failure.
pub fn ssh_wait_timeout_error(ip: &str, timeout_secs: u64, last_error: &str) -> (r: Error)
    ensures
        r matches Error::Backend(m) && m@ == "Timeout waiting for SSH on "@ + ip@ + " after "@
            + decimal(timeout_secs as nat) + "s. Last error: "@ + last_error@,
{
    let mut m = owned("Timeout waiting for SSH on ");
    push_str(&mut m, ip);
    push_str(&mut m, " after ");
    push_decimal(&mut m, timeout_secs);
    push_str(&mut m, "s. Last error: ");
    push_str(&mut m, last_error);
    Error::Backend(m)
}

/// What one `cloud-init status --wait` probe over SSH reported.
#[derive(Debug, Clone, Copy, PartialEq, Eq, Structural)]
pub enum CloudInitProbe {
    /// Cloud-init has finished.
    Done,
    /// Cloud-init is still running.
    Running,
    /// Cloud-init reported an error or a degraded run; waiting goes on.
    Troubled,
    /// Nothing the wait can use.
    Unclear,
}

/// The reading of a probe: done or running only with exit code 0, an error
/// or degraded status whatever the exit code.
pub open spec fn cloud_init_probe_of(exit_code: i32, stdout: Seq<char>) -> CloudInitProbe {
    if exit_code == 0 && contains_seq(stdout, "status: done"@) {
        CloudInitProbe::Done
    } else if exit_code == 0 && contains_seq(stdout, "status: running"@) {
        CloudInitProbe::Running
    } else if contains_seq(stdout, "status: error"@) || contains_seq(stdout, "status: degraded"@) {
        CloudInitProbe::Troubled
    } else {
        CloudInitProbe::Unclear
    }
}

/// Reads a cloud-init probe's exit code and output.
pub fn cloud_init_probe(exit_code: i32, stdout: &str) -> (r: CloudInitProbe)
    ensures
        r == cloud_init_probe_of(exit_code, stdout@),
{
    let cs = chars_of(stdout);
    if exit_code == 0 && str_contains(cs.as_slice(), "status: done") {
        CloudInitProbe::Done
    } else if exit_code == 0 && str_contains(cs.as_slice(), "status: running") {
        CloudInitProbe::Running
    } else if str_contains(cs.as_slice(), "status: error") || str_contains(cs.as_slice(), "status: degraded") {
        CloudInitProbe::Troubled
    } else {
        CloudInitProbe::Unclear
    }
}

/// What a probe puts on record as the last failure, if anything.
pub fn cloud_init_probe_note(probe: CloudInitProbe, stdout: &str) -> (r: Option<String>)
    ensures
        match probe {
            CloudInitProbe::Running => r matches Some(s) && s@ == "Cloud-init still running"@,
            CloudInitProbe::Troubled => r matches Some(s) && s@ == "Cloud-init error: "@ + stdout@,
            _ => r is None,
        },
{
    match probe {
        CloudInitProbe::Running => Some(owned("Cloud-init still running")),
        CloudInitProbe::Troubled => {
            let mut s = owned("Cloud-init error: ");
            push_str(&mut s, stdout);
            Some(s)
        },
        _ => None,
    }
}

/// The error when cloud-init did not finish in time, with the last failure.
pub fn cloud_init_timeout_error(node_id: &str, timeout_secs: u64, last_error: &str) -> (r: Error)
    ensures
        r matches Error::Backend(m) && m@ == "Timeout waiting for cloud-init on "@ + node_id@
            + " after "@ + decimal(timeout_secs as nat) + "s. Last error: "@ + last_error@,
{
    let mut m = owned("Timeout waiting for cloud-init on ");
    push_str(&mut m, node_id);
    push_str(&mut m, " after ");
    push_decimal(&mut m, timeout_secs);
    push_str(&mut m, "s. Last error: ");
    push_str(&mut m, last_error);
    Error::Backend(m)
}


/// A domain's address is the first of its interface addresses marked
/// IPv4: there is none exactly when no address is marked IPv4, and one
/// found is marked IPv4 and comes before every other address so marked.
pub proof fn law_first_ipv4_is_first_marked(addrs: Seq<(bool, String)>)
    ensures
        first_ipv4_of(addrs) is None <==> forall|i: int| 0 <= i < addrs.len() ==> !(#[trigger] addrs[i]).0,
        first_ipv4_of(addrs) matches Some(a) ==> exists|i: int|
            0 <= i < addrs.len() && (#[trigger] addrs[i]).0 && addrs[i].1@ == a
                && forall|j: int| 0 <= j < i ==> !addrs[j].0,
    decreases addrs.len(),
{
    if addrs.len() > 0 {
        let tail = addrs.drop_first();
        law_first_ipv4_is_first_marked(tail);
        if addrs[0].0 {
            assert(addrs[0].0);
        } else {
            assert forall|i: int| 0 <= i < tail.len() implies #[trigger] tail[i] == addrs[i + 1] by {}
            if first_ipv4_of(tail) is None {
                assert forall|i: int| 0 <= i < addrs.len() implies !(#[trigger] addrs[i]).0 by {
                    if i > 0 {
                        assert(tail[i - 1] == addrs[i]);
                    }
                }
            } else {
                let a = first_ipv4_of(tail)->0;
                let i = choose|i: int|
                    0 <= i < tail.len() && (#[trigger] tail[i]).0 && tail[i].1@ == a
                        && forall|j: int| 0 <= j < i ==> !tail[j].0;
                assert(addrs[i + 1] == tail[i]);
                assert forall|j: int| 0 <= j < i + 1 implies !addrs[j].0 by {
                    if j > 0 {
                        assert(tail[j - 1] == addrs[j]);
                    }
                }
                assert(tail[i].0);
            }
        }
    }
}

} // verus!
