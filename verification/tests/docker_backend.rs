use benchscale::backend::docker::{
    container_command, container_status, env_assignments, exec_exit_code,
    network_info_from_inspect, node_info_from_container, node_name_from, tc_netem_args,
};
use benchscale::backend::{get_image, NodeStatus};

#[test]
fn container_names_lose_leading_slashes() {
    assert_eq!(node_name_from("/web-1"), "web-1");
    assert_eq!(node_name_from("//x/y"), "x/y");
    assert_eq!(node_name_from("plain"), "plain");
    assert_eq!(node_name_from(""), "");
}

#[test]
fn container_status_follows_running_flag() {
    assert_eq!(container_status(Some(true)), NodeStatus::Running);
    assert_eq!(container_status(Some(false)), NodeStatus::Stopped);
    assert_eq!(container_status(None), NodeStatus::Stopped);
}

#[test]
fn node_info_from_inspection() {
    let node = node_info_from_container(
        Some("abc123".to_string()),
        Some("/node-a".to_string()),
        Some(true),
        Some(("labnet".to_string(), Some("172.18.0.2".to_string()))),
    );
    assert_eq!(node.id, "abc123");
    assert_eq!(node.container_id, "abc123");
    assert_eq!(node.name, "node-a");
    assert_eq!(node.status, NodeStatus::Running);
    assert_eq!(node.network, "labnet");
    assert_eq!(node.ip_address, "172.18.0.2");
    assert!(node.metadata.is_empty());

    let bare = node_info_from_container(None, None, None, None);
    assert_eq!(bare.id, "");
    assert_eq!(bare.network, "unknown");
    assert_eq!(bare.ip_address, "unknown");
    assert_eq!(bare.status, NodeStatus::Stopped);
}

#[test]
fn network_info_falls_back_to_request() {
    let n = network_info_from_inspect(
        "lab",
        Some("id1".to_string()),
        "10.1.0.0/24",
        Some((Some("10.1.0.0/24".to_string()), Some("10.1.0.1".to_string()))),
    );
    assert_eq!(n.subnet, "10.1.0.0/24");
    assert_eq!(n.gateway, "10.1.0.1");
    let n = network_info_from_inspect("lab", None, "10.2.0.0/24", None);
    assert_eq!(n.id, "");
    assert_eq!(n.subnet, "10.2.0.0/24");
    assert_eq!(n.gateway, "unknown");
}

#[test]
fn environment_and_command() {
    let env = env_assignments(&[("A".to_string(), "1".to_string()), ("B".to_string(), "x=y".to_string())]);
    assert_eq!(env, vec!["A=1".to_string(), "B=x=y".to_string()]);
    assert_eq!(container_command(), vec!["/bin/sh", "-c", "sleep infinity"]);
}

#[test]
fn traffic_shaping_arguments() {
    assert_eq!(tc_netem_args(None, None, None), None);
    let args = tc_netem_args(Some(50), Some("1.5"), Some(1000)).unwrap();
    assert_eq!(
        args,
        vec![
            "tc", "qdisc", "add", "dev", "eth0", "root", "netem", "delay", "50ms", "loss", "1.5%",
            "rate", "1000kbit"
        ]
    );
    let only_rate = tc_netem_args(None, None, Some(64)).unwrap();
    assert_eq!(only_rate.len(), 9);
    assert_eq!(only_rate[8], "64kbit");
}

#[test]
fn exit_code_defaults_to_failure() {
    assert_eq!(exec_exit_code(Some(0)), 0);
    assert_eq!(exec_exit_code(None), 1);
}

#[test]
fn hardened_images_replace_known_bases() {
    assert_eq!(get_image(true, "ubuntu"), "docker.io/dockerhardened/ubuntu:latest");
    assert_eq!(get_image(true, "fedora"), "fedora");
    assert_eq!(get_image(false, "ubuntu"), "ubuntu");
}
