//! What the libvirt backend's node and network operations compute: the
//! network definition for a subnet, a node's settings from its
//! environment, and the records it reports of domains.
use vstd::prelude::*;
use crate::backend::{ExecResult, NetworkInfo, NodeInfo, NodeStatus};
use crate::backend::vm_utils::{memory_size, parse_memory};
use crate::error::Error;
use crate::path::{join_path, path_join};
use crate::text::{
    chars_of, owned, parse_unsigned, parse_unsigned_chars, push_str, remove_char, replace_all,
    replace_str, str_eq, without_char,
};

verus! {

/// The gateway of a `/24` subnet written `a.b.c.0/24`: its `/24` replaced
/// by `.1`.
pub open spec fn gateway_of(subnet: Seq<char>) -> Seq<char> {
    replace_all(subnet, "/24"@, ".1"@)
}

/// The first DHCP address of a `/24` subnet: its `/24` replaced by `.100`.
pub open spec fn dhcp_start_of(subnet: Seq<char>) -> Seq<char> {
    replace_all(subnet, "/24"@, ".100"@)
}

/// The last DHCP address of a `/24` subnet: its `/24` replaced by `.254`.
pub open spec fn dhcp_end_of(subnet: Seq<char>) -> Seq<char> {
    replace_all(subnet, "/24"@, ".254"@)
}

/// The libvirt definition of a NAT network: bridge `virbr-` and the name
/// without hyphens, the gateway with a `/24` mask, and DHCP from `.100` to
/// `.254`.
pub open spec fn network_xml_text(name: Seq<char>, subnet: Seq<char>) -> Seq<char> {
    "<network>\n  <name>"@ + name + "</name>\n  <forward mode='nat'/>\n  <bridge name='virbr-"@
        + without_char(name, '-') + "' stp='on' delay='0'/>\n  <ip address='"@ + gateway_of(subnet)
        + "' netmask='255.255.255.0'>\n    <dhcp>\n      <range start='"@ + dhcp_start_of(subnet)
        + "' end='"@ + dhcp_end_of(subnet) + "'/>\n    </dhcp>\n  </ip>\n</network>"@
}

fn subnet_with(subnet: &str, last: &str) -> (r: String)
    ensures
        r@ == replace_all(subnet@, "/24"@, last@),
{
    proof {
        reveal_strlit("/24");
    }
    replace_str(subnet, "/24", last)
}

/// The libvirt definition of the NAT network `name` on `subnet`.
pub fn network_xml(name: &str, subnet: &str) -> (r: String)
    ensures
        r@ == network_xml_text(name@, subnet@),
{
    let mut s = owned("<network>\n  <name>");
    push_str(&mut s, name);
    push_str(&mut s, "</name>\n  <forward mode='nat'/>\n  <bridge name='virbr-");
    let bridge = remove_char(name, '-');
    push_str(&mut s, bridge.as_str());
    push_str(&mut s, "' stp='on' delay='0'/>\n  <ip address='");
    let gateway = subnet_with(subnet, ".1");
    push_str(&mut s, gateway.as_str());
    push_str(&mut s, "' netmask='255.255.255.0'>\n    <dhcp>\n      <range start='");
    let start = subnet_with(subnet, ".100");
    push_str(&mut s, start.as_str());
    push_str(&mut s, "' end='");
    let end = subnet_with(subnet, ".254");
    push_str(&mut s, end.as_str());
    push_str(&mut s, "'/>\n    </dhcp>\n  </ip>\n</network>");
    s
}

/// What the backend reports of the network `name` with libvirt ID `id`:
/// the subnet as given and its gateway.
pub fn network_info(name: &str, id: String, subnet: &str) -> (r: NetworkInfo)
    ensures
        r.name@ == name@,
        r.id == id,
        r.subnet@ == subnet@,
        r.gateway@ == gateway_of(subnet@),
{
    NetworkInfo { name: owned(name), id, subnet: owned(subnet), gateway: subnet_with(subnet, ".1") }
}

/// The value the environment gives `key`: that of its first entry.
pub open spec fn env_value(env: Seq<(String, String)>, key: Seq<char>) -> Option<Seq<char>>
    decreases env.len(),
{
    if env.len() == 0 {
        None
    } else if env[0].0@ == key {
        Some(env[0].1@)
    } else {
        env_value(env.drop_first(), key)
    }
}

fn env_lookup<'a>(env: &'a [(String, String)], key: &str) -> (r: Option<&'a String>)
    ensures
        match env_value(env@, key@) {
            Some(v) => r matches Some(s) && s@ == v,
            None => r is None,
        },
{
    let mut i: usize = 0;
    proof {
        assert(env@.skip(0) =~= env@);
    }
    while i < env.len()
        invariant
            i <= env.len(),
            env_value(env@, key@) == env_value(env@.skip(i as int), key@),
        decreases env.len() - i,
    {
        proof {
            assert(env@.skip(i as int)[0] == env@[i as int]);
            assert(env@.skip(i as int).drop_first() =~= env@.skip(i + 1));
        }
        if str_eq(env[i].0.as_str(), key) {
            return Some(&env[i].1);
        }
        i = i + 1;
    }
    None
}

/// A node's memory in MB: its `MEMORY` setting where that reads as a size,
/// else 2048.
pub open spec fn node_memory(env: Seq<(String, String)>) -> nat {
    match env_value(env, "MEMORY"@) {
        Some(m) => match memory_size(m) {
            Some(mb) => mb,
            None => 2048,
        },
        None => 2048,
    }
}

/// A node's virtual CPUs: its `VCPUS` setting where that reads as a `u32`,
/// else 2.
pub open spec fn node_vcpus(env: Seq<(String, String)>) -> nat {
    match env_value(env, "VCPUS"@) {
        Some(v) => match parse_unsigned(v, 0xffff_ffff) {
            Some(n) => n,
            None => 2,
        },
        None => 2,
    }
}

/// A node's serial log: its `SERIAL_LOG` setting, else `<name>-serial.log`
/// in the temporary directory.
pub open spec fn node_serial_log(name: Seq<char>, env: Seq<(String, String)>, temp_dir: Seq<char>) -> Seq<char> {
    match env_value(env, "SERIAL_LOG"@) {
        Some(p) => p,
        None => path_join(temp_dir, name + "-serial.log"@),
    }
}

/// The size and console of a new VM.
#[derive(Debug, Clone, PartialEq, Eq)]
pub struct NodeSettings {
    /// Memory in MB.
    pub memory_mb: u32,
    /// Virtual CPUs.
    pub vcpus: u32,
    /// Where the serial console is logged.
    pub serial_log: String,
}

/// The settings of the VM `name` from its environment entries.
pub fn node_settings(name: &str, env: &[(String, String)], temp_dir: &str) -> (r: NodeSettings)
    ensures
        r.memory_mb == node_memory(env@),
        r.vcpus == node_vcpus(env@),
        r.serial_log@ == node_serial_log(name@, env@, temp_dir@),
{
    let memory_mb = match env_lookup(env, "MEMORY") {
        Some(m) => match parse_memory(m.as_str()) {
            Some(mb) => mb,
            None => 2048,
        },
        None => 2048,
    };
    let vcpus = match env_lookup(env, "VCPUS") {
        Some(v) => {
            let cs = chars_of(v.as_str());
            match parse_unsigned_chars(cs.as_slice(), 0xffff_ffff) {
                Some(n) => n as u32,
                None => 2,
            }
        },
        None => 2,
    };
    let serial_log = match env_lookup(env, "SERIAL_LOG") {
        Some(p) => p.clone(),
        None => {
            let mut f = owned(name);
            push_str(&mut f, "-serial.log");
            join_path(temp_dir, f.as_str())
        },
    };
    NodeSettings { memory_mb, vcpus, serial_log }
}

/// A domain as a node: its UUID as ID, running or stopped, address and
/// network not known.
pub open spec fn is_domain_node(n: NodeInfo, uuid: Seq<char>, name: Seq<char>, is_active: bool) -> bool {
    &&& n.id@ == uuid
    &&& n.name@ == name
    &&& n.container_id@ == uuid
    &&& n.ip_address@ == "unknown"@
    &&& n.network@ == "default"@
    &&& n.status == (if is_active {
        NodeStatus::Running
    } else {
        NodeStatus::Stopped
    })
    &&& n.metadata@.len() == 0
}

/// What the backend reports of an existing domain.
pub fn domain_node_info(uuid: &str, name: String, is_active: bool) -> (r: NodeInfo)
    ensures
        is_domain_node(r, uuid@, name@, is_active),
{
    NodeInfo {
        id: owned(uuid),
        name,
        container_id: owned(uuid),
        ip_address: owned("unknown"),
        network: owned("default"),
        status: if is_active {
            NodeStatus::Running
        } else {
            NodeStatus::Stopped
        },
        metadata: Vec::new(),
    }
}

/// What the backend reports of a VM it has just created and started: its
/// serial log and disk overlay as metadata.
pub fn created_node_info(
    uuid: &str,
    name: &str,
    ip: String,
    network: &str,
    serial_log: &str,
    overlay_path: &str,
) -> (r: NodeInfo)
    ensures
        r.id@ == uuid@,
        r.name@ == name@,
        r.container_id@ == uuid@,
        r.ip_address == ip,
        r.network@ == network@,
        r.status == NodeStatus::Running,
        r.metadata@.len() == 2,
        r.metadata@[0].0@ == "serial_log"@ && r.metadata@[0].1@ == serial_log@,
        r.metadata@[1].0@ == "disk_overlay"@ && r.metadata@[1].1@ == overlay_path@,
{
    let mut metadata: Vec<(String, String)> = Vec::new();
    metadata.push((owned("serial_log"), owned(serial_log)));
    metadata.push((owned("disk_overlay"), owned(overlay_path)));
    NodeInfo {
        id: owned(uuid),
        name: owned(name),
        container_id: owned(uuid),
        ip_address: ip,
        network: owned(network),
        status: NodeStatus::Running,
        metadata,
    }
}

/// The error for a domain found neither by UUID nor by name.
pub fn domain_lookup_error(id_or_name: &str, uuid_error: &str, name_error: &str) -> (r: Error)
    ensures
        r matches Error::Backend(m) && m@ == "Failed to find domain '"@ + id_or_name@
            + "': UUID lookup failed ("@ + uuid_error@ + "), name lookup failed ("@ + name_error@
            + ")"@,
{
    let mut s = owned("Failed to find domain '");
    push_str(&mut s, id_or_name);
    push_str(&mut s, "': UUID lookup failed (");
    push_str(&mut s, uuid_error);
    push_str(&mut s, "), name lookup failed (");
    push_str(&mut s, name_error);
    push_str(&mut s, ")");
    Error::Backend(s)
}

/// The result of a command run over SSH.
pub fn ssh_exec_result(exit_code: i32, stdout: String, stderr: String) -> (r: ExecResult)
    ensures
        r.exit_code == exit_code as i64,
        r.stdout == stdout,
        r.stderr == stderr,
{
    ExecResult { exit_code: exit_code as i64, stdout, stderr }
}

} // verus!
