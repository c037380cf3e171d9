use benchscale::backend::libvirt::backend_impl::{
    created_node_info, domain_lookup_error, domain_node_info,
    network_info, network_xml, node_settings, ssh_exec_result,
};
use benchscale::backend::libvirt::provision::{
    cloud_init_probe, cloud_init_probe_note, cloud_init_timeout_error, intermediates_dir,
    CloudInitProbe,
};
use benchscale::backend::vm_utils::parse_memory;
use benchscale::backend::NodeStatus;
use benchscale::error::Error;
use benchscale::text::{remove_char, replace_str};

fn env(pairs: &[(&str, &str)]) -> Vec<(String, String)> {
    pairs.iter().map(|(k, v)| (k.to_string(), v.to_string())).collect()
}

#[test]
fn replacing_text_matches_str_replace() {
    assert_eq!(replace_str("10.0.5.0/24", "/24", ".1"), "10.0.5.0.1");
    assert_eq!(replace_str("a/24b/24", "/24", "!"), "a!b!");
    assert_eq!(replace_str("aaa", "aa", "b"), "ba");
    assert_eq!(replace_str("10.0.5.0/16", "/24", ".1"), "10.0.5.0/16");
    assert_eq!(remove_char("lab-net-1", '-'), "labnet1");
}

#[test]
fn nat_network_definition_for_a_subnet() {
    assert_eq!(
        network_xml("lab-net", "10.0.5.0/24"),
        "<network>\n  <name>lab-net</name>\n  <forward mode='nat'/>\n  <bridge name='virbr-labnet' stp='on' delay='0'/>\n  <ip address='10.0.5.0.1' netmask='255.255.255.0'>\n    <dhcp>\n      <range start='10.0.5.0.100' end='10.0.5.0.254'/>\n    </dhcp>\n  </ip>\n</network>"
    );
}

#[test]
fn network_info_reports_the_gateway() {
    let info = network_info("lab", "uuid-1".to_string(), "192.168.50/24");
    assert_eq!(info.name, "lab");
    assert_eq!(info.id, "uuid-1");
    assert_eq!(info.subnet, "192.168.50/24");
    assert_eq!(info.gateway, "192.168.50.1");
}

#[test]
fn node_settings_default_without_environment() {
    let s = node_settings("vm1", &[], "/tmp");
    assert_eq!(s.memory_mb, 2048);
    assert_eq!(s.vcpus, 2);
    assert_eq!(s.serial_log, "/tmp/vm1-serial.log");
}

#[test]
fn node_settings_follow_the_environment() {
    let e = env(&[("MEMORY", "4G"), ("VCPUS", "8"), ("SERIAL_LOG", "/var/log/vm1.log")]);
    let s = node_settings("vm1", &e, "/tmp");
    assert_eq!(s.memory_mb, 4096);
    assert_eq!(s.vcpus, 8);
    assert_eq!(s.serial_log, "/var/log/vm1.log");
}

#[test]
fn unreadable_node_settings_fall_back() {
    let e = env(&[("MEMORY", "lots"), ("VCPUS", "many")]);
    let s = node_settings("vm2", &e, "/tmp/");
    assert_eq!(s.memory_mb, 2048);
    assert_eq!(s.vcpus, 2);
    assert_eq!(s.serial_log, "/tmp/vm2-serial.log");
}

#[test]
fn oversized_memory_settings_are_caught() {
    assert_eq!(parse_memory("4194304G"), None);
    assert_eq!(parse_memory("4194303G"), Some(4294966272));
    assert_eq!(parse_memory("4096"), Some(4096));
    assert_eq!(node_settings("vm", &env(&[("MEMORY", "9999999G")]), "/tmp").memory_mb, 2048);
}

#[test]
fn domains_are_reported_as_nodes() {
    let running = domain_node_info("uuid-9", "vm9".to_string(), true);
    assert_eq!(running.id, "uuid-9");
    assert_eq!(running.container_id, "uuid-9");
    assert_eq!(running.name, "vm9");
    assert_eq!(running.ip_address, "unknown");
    assert_eq!(running.network, "default");
    assert_eq!(running.status, NodeStatus::Running);
    assert!(running.metadata.is_empty());
    assert_eq!(domain_node_info("u", "v".to_string(), false).status, NodeStatus::Stopped);
}

#[test]
fn created_nodes_record_their_files() {
    let n = created_node_info("uuid-1", "vm1", "10.0.0.5".to_string(), "lab", "/tmp/vm1-serial.log", "/o/vm1.qcow2");
    assert_eq!(n.id, "uuid-1");
    assert_eq!(n.ip_address, "10.0.0.5");
    assert_eq!(n.network, "lab");
    assert_eq!(n.status, NodeStatus::Running);
    assert_eq!(
        n.metadata,
        vec![
            ("serial_log".to_string(), "/tmp/vm1-serial.log".to_string()),
            ("disk_overlay".to_string(), "/o/vm1.qcow2".to_string()),
        ]
    );
}

#[test]
fn failed_domain_lookups_name_both_attempts() {
    let e = domain_lookup_error("vm-x", "bad uuid", "no domain");
    assert!(matches!(&e, Error::Backend(_)));
    assert_eq!(
        e.to_string(),
        "Failed to find domain 'vm-x': UUID lookup failed (bad uuid), name lookup failed (no domain)"
    );
}

#[test]
fn ssh_results_keep_their_exit_code() {
    let r = ssh_exec_result(3, "out".to_string(), "err".to_string());
    assert_eq!(r.exit_code, 3);
    assert_eq!(r.stdout, "out");
    assert_eq!(r.stderr, "err");
}

#[test]
fn cloud_init_probes_are_read_from_status_output() {
    assert_eq!(cloud_init_probe(0, "status: done\n"), CloudInitProbe::Done);
    assert_eq!(cloud_init_probe(0, "status: running"), CloudInitProbe::Running);
    assert_eq!(cloud_init_probe(1, "status: done"), CloudInitProbe::Unclear);
    assert_eq!(cloud_init_probe(2, "status: error"), CloudInitProbe::Troubled);
    assert_eq!(cloud_init_probe(0, "status: degraded done"), CloudInitProbe::Troubled);
    assert_eq!(cloud_init_probe(0, ""), CloudInitProbe::Unclear);
}

#[test]
fn cloud_init_probes_leave_notes() {
    assert_eq!(cloud_init_probe_note(CloudInitProbe::Running, "x").as_deref(), Some("Cloud-init still running"));
    assert_eq!(
        cloud_init_probe_note(CloudInitProbe::Troubled, "status: error").as_deref(),
        Some("Cloud-init error: status: error")
    );
    assert_eq!(cloud_init_probe_note(CloudInitProbe::Unclear, "x"), None);
    assert_eq!(cloud_init_probe_note(CloudInitProbe::Done, "x"), None);
    assert_eq!(
        cloud_init_timeout_error("vm1", 600, "SSH not ready").to_string(),
        "Timeout waiting for cloud-init on vm1 after 600s. Last error: SSH not ready"
    );
}

#[test]
fn intermediates_sit_beside_the_template_directory() {
    assert_eq!(intermediates_dir("/srv/images/templates/ubuntu.qcow2"), "/srv/images/intermediates");
    assert_eq!(intermediates_dir("templates/ubuntu.qcow2"), "intermediates");
    assert_eq!(intermediates_dir("ubuntu.qcow2"), "/tmp");
    assert_eq!(intermediates_dir("/"), "/tmp");
}
