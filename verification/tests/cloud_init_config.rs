use benchscale::cloud_init::{
    derive_username, desktop_cloud_init, minimal_cloud_init, rustdesk_cloud_init, CloudInit,
    NetworkConfig,
};
use std::collections::hash_map::DefaultHasher;
use std::hash::{Hash, Hasher};

fn filtered_lowercase(name: &str) -> String {
    name.chars()
        .filter(|c| c.is_alphanumeric())
        .collect::<String>()
        .to_lowercase()
}

#[test]
fn cloud_init_tests_test_username_derivation() {
    let name = "web-01";
    assert_eq!(filtered_lowercase(name), "web01");
    assert_eq!(derive_username(name), "web01");

    let name = "rustdesk-20251228-115834";
    assert_eq!(filtered_lowercase(name), "rustdesk20251228115834");
    assert_eq!(derive_username(name), "rustdesk20251228115834");

    let name = "db_primary-01";
    assert_eq!(filtered_lowercase(name), "dbprimary01");
    assert_eq!(derive_username(name), "dbprimary01");
}

fn hash_of(name: &str) -> u64 {
    let mut hasher = DefaultHasher::new();
    name.hash(&mut hasher);
    hasher.finish()
}

#[test]
fn cloud_init_tests_test_password_deterministic() {
    let name = "web-01";
    let hash1 = hash_of(name);
    let hash2 = hash_of(name);
    assert_eq!(hash1, hash2, "Password hash should be deterministic");
}

#[test]
fn test_cloud_init_user_creation() {
    let cloud_init = CloudInit::builder()
        .add_derived_user("web-01", "ssh-rsa AAAAB3test...")
        .build();
    assert_eq!(cloud_init.users.len(), 1);
    assert_eq!(cloud_init.users[0].name, "web01");
    assert!(cloud_init.users[0].groups.contains(&"sudo".to_string()));
    assert!(cloud_init.runcmd.len() > 0, "Should have password set command");
}

#[test]
fn test_cloud_init_multiple_users() {
    let cloud_init = CloudInit::builder()
        .add_derived_user("web-01", "ssh-rsa key1")
        .add_derived_user("db-01", "ssh-rsa key2")
        .build();
    assert_eq!(cloud_init.users.len(), 2);
    assert_eq!(cloud_init.users[0].name, "web01");
    assert_eq!(cloud_init.users[1].name, "db01");
    assert_eq!(cloud_init.runcmd.len(), 2, "Should have two password set commands");
}

#[test]
fn test_cloud_init_builder() {
    let cloud_init = CloudInit::builder()
        .add_user("testuser", "ssh-rsa AAAAB3...")
        .package("vim")
        .package("curl")
        .cmd("echo 'Setup complete'")
        .package_update(true)
        .build();
    assert_eq!(cloud_init.users.len(), 1);
    assert_eq!(cloud_init.users[0].name, "testuser");
    assert_eq!(cloud_init.packages.len(), 2);
    assert_eq!(cloud_init.runcmd.len(), 1);
    assert_eq!(cloud_init.package_update, Some(true));
}

#[test]
fn tests_test_username_derivation() {
    let name = "web-01";
    assert_eq!(filtered_lowercase(name), "web01");
    assert_eq!(derive_username(name), "web01");
}

#[test]
fn tests_test_password_deterministic() {
    let name = "web-01";
    assert_eq!(hash_of(name), hash_of(name), "Password hash should be deterministic");
}

#[test]
fn test_derived_user() {
    let cloud_init = CloudInit::builder()
        .add_derived_user("web-01", "ssh-rsa AAAAB3...")
        .build();
    assert_eq!(cloud_init.users.len(), 1);
    assert_eq!(cloud_init.users[0].name, "web01");
    assert!(cloud_init.users[0].groups.contains(&"sudo".to_string()));
    assert!(cloud_init.runcmd.len() > 0, "Should have password set command");
}

#[test]
fn derived_user_password_command_names_the_user() {
    let cloud_init = CloudInit::builder()
        .add_derived_user("Web-01", "ssh-rsa key")
        .build();
    assert_eq!(cloud_init.users[0].name, "web01");
    assert!(cloud_init.runcmd[0].contains("web01"));
    assert_eq!(cloud_init.users[0].ssh_authorized_keys, vec!["ssh-rsa key".to_string()]);
}

#[test]
fn test_network_config_creation() {
    let net_config = NetworkConfig::new("enp1s0", "192.168.122.10/24", "192.168.122.1");
    assert_eq!(net_config.interface, "enp1s0");
    assert_eq!(net_config.address, "192.168.122.10/24");
    assert_eq!(net_config.gateway, "192.168.122.1");
    assert_eq!(net_config.nameservers, vec!["8.8.8.8", "8.8.4.4"]);
}

#[test]
fn test_network_config_custom_dns() {
    let net_config = NetworkConfig::new("eth0", "10.0.0.5/24", "10.0.0.1")
        .with_nameservers(vec!["1.1.1.1".to_string(), "1.0.0.1".to_string()]);
    assert_eq!(net_config.nameservers, vec!["1.1.1.1", "1.0.0.1"]);
}

#[test]
fn test_network_config_yaml_generation() {
    let net_config = NetworkConfig::new("enp1s0", "192.168.122.10/24", "192.168.122.1");
    let yaml = net_config.to_network_config_yaml();
    assert!(yaml.contains("version: 2"));
    assert!(yaml.contains("ethernets:"));
    assert!(yaml.contains("enp1s0:"));
    assert!(yaml.contains("addresses:"));
    assert!(yaml.contains("- 192.168.122.10/24"));
    assert!(yaml.contains("gateway4: 192.168.122.1"));
    assert!(yaml.contains("nameservers:"));
    assert!(yaml.contains("8.8.8.8"));
    assert!(yaml.contains("8.8.4.4"));
}

#[test]
fn test_cloud_init_with_static_ip() {
    let cloud_init = CloudInit::builder()
        .add_user("testuser", "ssh-rsa AAAAB3...")
        .static_ip("enp1s0", "192.168.122.50", 24, "192.168.122.1")
        .build();
    assert!(cloud_init.network_config.is_some());
    let net_config = cloud_init.network_config.as_ref().unwrap();
    assert_eq!(net_config.interface, "enp1s0");
    assert_eq!(net_config.address, "192.168.122.50/24");
    assert_eq!(net_config.gateway, "192.168.122.1");
}

#[test]
fn test_cloud_init_with_static_ip_custom_dns() {
    let cloud_init = CloudInit::builder()
        .add_user("testuser", "ssh-rsa AAAAB3...")
        .static_ip_with_dns("eth0", "10.0.0.10", 24, "10.0.0.1", vec!["1.1.1.1".to_string()])
        .build();
    assert!(cloud_init.network_config.is_some());
    let net_config = cloud_init.network_config.as_ref().unwrap();
    assert_eq!(net_config.interface, "eth0");
    assert_eq!(net_config.address, "10.0.0.10/24");
    assert_eq!(net_config.gateway, "10.0.0.1");
    assert_eq!(net_config.nameservers, vec!["1.1.1.1"]);
}

#[test]
fn test_network_config_yaml_format_valid() {
    let net_config = NetworkConfig::new("enp1s0", "192.168.122.100/24", "192.168.122.1");
    let yaml = net_config.to_network_config_yaml();
    let _parsed: serde_yaml::Value =
        serde_yaml::from_str(&yaml).expect("Generated YAML should be valid");
    assert!(yaml.lines().count() >= 6, "YAML should have at least 6 lines");
}

#[test]
fn test_minimal_cloud_init() {
    let ci = minimal_cloud_init("test-vm", "ssh-rsa AAAA...");
    assert!(ci.runcmd.iter().any(|cmd| cmd.contains("test-vm")));
    assert_eq!(ci.users.len(), 1);
    assert_eq!(ci.users[0].name, "ubuntu");
}

#[test]
fn test_desktop_cloud_init() {
    let ci = desktop_cloud_init("desktop-vm", "ssh-rsa AAAA...");
    assert!(ci.runcmd.iter().any(|cmd| cmd.contains("desktop-vm")));
    assert!(ci.packages.iter().any(|p| p == "ubuntu-desktop-minimal"));
    assert!(ci.packages.iter().any(|p| p == "pipewire"));
}

#[test]
fn test_rustdesk_cloud_init() {
    let ci = rustdesk_cloud_init("rustdesk-vm", "ssh-rsa AAAA...");
    assert!(ci.runcmd.iter().any(|cmd| cmd.contains("rustdesk-vm")));
    assert!(ci.packages.iter().any(|p| p == "ubuntu-desktop-minimal"));
}

#[test]
fn builder_noninteractive_apt_and_files() {
    let ci = CloudInit::builder()
        .with_noninteractive_apt()
        .write_file("/etc/motd", "hello")
        .package_upgrade(false)
        .build();
    assert!(ci.apt.is_some());
    assert_eq!(ci.write_files.len(), 1);
    assert_eq!(ci.write_files[0].path, "/etc/motd");
    assert_eq!(ci.write_files[0].content, "hello");
    assert_eq!(ci.package_upgrade, Some(false));
}

#[test]
fn user_data_starts_with_cloud_config_header() {
    let doc = benchscale::cloud_init::user_data_document("users: []\n");
    assert_eq!(doc, "#cloud-config\nusers: []\n");
}
