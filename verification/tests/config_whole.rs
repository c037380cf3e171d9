use benchscale::capabilities::{
    NetworkCapabilities, StorageCapabilities, SystemCapabilities, VirtCapabilities,
};
use benchscale::config::{
    BenchScaleConfig, DhcpRange, IpAddress, MonitoringConfig, NetworkConfig, StorageConfig,
    TimeoutConfig,
};
use std::time::Duration;

fn ip(text: &str) -> IpAddress {
    IpAddress::parse(text).unwrap()
}

// ---- network ----

#[test]
fn network_test_default_config_is_valid() {
    let config = NetworkConfig::default();
    assert!(config.validate().is_ok());
}

#[test]
fn network_test_default_values() {
    let config = NetworkConfig::default();
    assert_eq!(config.network_name, "default");
    assert_eq!(config.ssh_port, 22);
    assert_eq!(config.dhcp_discovery_timeout_secs, 60);
    assert!(config.enable_dhcp_discovery);
    assert!(config.dhcp_range.is_none());
    assert!(config.interface.is_none());
    assert!(config.dns_servers.is_empty());
}

#[test]
fn test_dhcp_timeout_conversion() {
    let config = NetworkConfig::default();
    assert_eq!(config.dhcp_discovery_timeout(), Duration::from_secs(60));
}

#[test]
fn network_test_custom_values() {
    let config = NetworkConfig {
        network_name: "vmnet".to_string(),
        ssh_port: 2222,
        dhcp_discovery_timeout_secs: 120,
        ..Default::default()
    };
    assert_eq!(config.network_name, "vmnet");
    assert_eq!(config.ssh_port, 2222);
    assert!(config.validate().is_ok());
}

#[test]
fn test_validation_rejects_empty_network_name() {
    let config = NetworkConfig {
        network_name: String::new(),
        ..Default::default()
    };
    assert!(config.validate().is_err());
}

#[test]
fn test_validation_rejects_zero_ssh_port() {
    let config = NetworkConfig {
        ssh_port: 0,
        ..Default::default()
    };
    assert!(config.validate().is_err());
}

#[test]
fn test_validation_rejects_zero_dhcp_timeout() {
    let config = NetworkConfig {
        dhcp_discovery_timeout_secs: 0,
        ..Default::default()
    };
    assert!(config.validate().is_err());
}

#[test]
fn test_validation_rejects_excessive_dhcp_timeout() {
    let config = NetworkConfig {
        dhcp_discovery_timeout_secs: 1000,
        ..Default::default()
    };
    assert!(config.validate().is_err());
}

#[test]
fn test_dhcp_range_validation() {
    let config = NetworkConfig {
        dhcp_range: Some(DhcpRange {
            start: ip("192.168.122.10"),
            end: ip("192.168.122.100"),
            netmask: "255.255.255.0".to_string(),
        }),
        ..Default::default()
    };
    assert!(config.validate().is_ok());
}

#[test]
fn test_dhcp_range_mixed_address_family_rejected() {
    let config = NetworkConfig {
        dhcp_range: Some(DhcpRange {
            start: ip("192.168.122.10"),
            end: ip("::1"),
            netmask: "255.255.255.0".to_string(),
        }),
        ..Default::default()
    };
    assert!(config.validate().is_err());
}

#[test]
fn test_should_discover_dhcp() {
    let config = NetworkConfig::default();
    assert!(config.should_discover_dhcp());

    let config = NetworkConfig {
        enable_dhcp_discovery: false,
        ..Default::default()
    };
    assert!(!config.should_discover_dhcp());

    let config = NetworkConfig {
        dhcp_range: Some(DhcpRange {
            start: ip("192.168.122.10"),
            end: ip("192.168.122.100"),
            netmask: "255.255.255.0".to_string(),
        }),
        ..Default::default()
    };
    assert!(!config.should_discover_dhcp());
}

#[test]
fn test_should_discover_interface() {
    let config = NetworkConfig::default();
    assert!(config.should_discover_interface());

    let config = NetworkConfig {
        interface: Some("virbr0".to_string()),
        ..Default::default()
    };
    assert!(!config.should_discover_interface());
}

#[test]
fn test_dns_servers() {
    let config = NetworkConfig {
        dns_servers: vec![ip("8.8.8.8"), ip("8.8.4.4")],
        ..Default::default()
    };
    assert!(config.validate().is_ok());
    assert_eq!(config.dns_servers.len(), 2);
}

#[test]
fn test_validation_rejects_too_many_dns_servers() {
    let config = NetworkConfig {
        dns_servers: (0..15).map(|i| ip(&format!("192.168.1.{}", i))).collect(),
        ..Default::default()
    };
    assert!(config.validate().is_err());
}

#[test]
fn test_evolution_22_dhcp_discovery() {
    let config = NetworkConfig::default();
    assert!(config.enable_dhcp_discovery);
    assert_eq!(config.dhcp_discovery_timeout_secs, 60);
}

#[test]
fn ip_address_parse_accepts_both_families_and_rejects_networks() {
    assert_eq!(IpAddress::parse("10.0.0.1"), Some(IpAddress::V4(0x0a00_0001)));
    assert_eq!(IpAddress::parse("::1"), Some(IpAddress::V6(1)));
    assert_eq!(IpAddress::parse("10.0.0.0/8"), None);
    assert_eq!(IpAddress::parse("not-an-ip"), None);
    assert!(ip("1.2.3.4").is_ipv4());
    assert!(!ip("fe80::1").is_ipv4());
}

// ---- whole configuration ----

#[test]
fn mod_test_default_config_is_valid() {
    let config = BenchScaleConfig::default();
    assert!(config.validate().is_ok());
}

#[test]
fn mod_test_default_values() {
    let config = BenchScaleConfig::default();
    assert_eq!(config.timeouts.cloud_init_secs, 1800);
    assert_eq!(config.monitoring.max_failures, 10);
}

#[test]
fn test_custom_configuration() {
    let config = BenchScaleConfig {
        timeouts: TimeoutConfig {
            cloud_init_secs: 7200,
            ..Default::default()
        },
        monitoring: MonitoringConfig {
            max_failures: 180,
            ..Default::default()
        },
        ..Default::default()
    };
    assert!(config.validate().is_ok());
    assert_eq!(config.timeouts.cloud_init_secs, 7200);
    assert_eq!(config.monitoring.max_failures, 180);
}

#[test]
fn test_evolution_21_cloud_init_config() {
    let config = BenchScaleConfig {
        timeouts: TimeoutConfig {
            cloud_init_secs: 1800,
            ..Default::default()
        },
        monitoring: MonitoringConfig::for_cloud_init_packages(),
        ..Default::default()
    };
    assert!(config.validate().is_ok());
    assert_eq!(config.monitoring.failure_tolerance().as_secs(), 1800);
}

#[test]
fn test_evolution_22_ip_tracking_config() {
    let config = BenchScaleConfig::default();
    assert!(config.monitoring.enable_ip_rediscovery);
    assert_eq!(config.monitoring.ip_rediscovery_interval, 10);
}

#[test]
fn test_phase_2c_network_config() {
    let config = BenchScaleConfig::default();
    assert_eq!(config.network.network_name, "default");
    assert_eq!(config.network.ssh_port, 22);
    assert!(config.network.enable_dhcp_discovery);
    assert!(config.validate().is_ok());
}

#[test]
fn test_phase_2c_storage_config() {
    let config = BenchScaleConfig::default();
    assert_eq!(config.storage.max_disk_size_gb, 100);
    assert_eq!(config.storage.min_free_space_gb, 10);
    assert!(config.storage.enable_cow);
    assert!(config.validate().is_ok());
}

#[test]
fn whole_config_validation_reports_the_failing_section() {
    let config = BenchScaleConfig {
        network: NetworkConfig {
            ssh_port: 0,
            ..Default::default()
        },
        ..Default::default()
    };
    assert!(config.validate().is_err());

    let config = BenchScaleConfig {
        storage: StorageConfig {
            max_disk_size_gb: 0,
            ..Default::default()
        },
        ..Default::default()
    };
    assert!(config.validate().is_err());

    let config = BenchScaleConfig {
        timeouts: TimeoutConfig {
            cloud_init_secs: 0,
            ..Default::default()
        },
        ..Default::default()
    };
    let e = config.validate().unwrap_err();
    assert!(e.to_string().starts_with("Invalid timeout config"), "{}", e.to_string());
}

fn sample_capabilities() -> SystemCapabilities {
    SystemCapabilities {
        network: NetworkCapabilities {
            default_network: "virbr0".to_string(),
            gateway: "192.168.100.1".to_string(),
            subnet: "192.168.100.0/24".to_string(),
            prefix: "192.168.100".to_string(),
            netmask_bits: 24,
            ip_pool_start: "192.168.100.10".to_string(),
            ip_pool_end: "192.168.100.250".to_string(),
            default_interface: "eth0".to_string(),
        },
        storage: StorageCapabilities {
            images_dir: "/custom/libvirt/images".to_string(),
            temp_dir: "/tmp".to_string(),
            cloud_init_dir: "/tmp/cloud-init".to_string(),
        },
        virtualization: VirtCapabilities {
            uri: "qemu:///system".to_string(),
            default_os_variant: "ubuntu24.04".to_string(),
            ssh_port: 22,
            vnc_base_port: 5900,
        },
    }
}

#[test]
fn test_phase_3a_merge_with_capabilities() {
    let capabilities = sample_capabilities();
    let mut config = BenchScaleConfig::default();
    assert_eq!(config.network.network_name, "default");
    assert!(config.network.interface.is_none());
    assert!(config.storage.vm_images_dir.is_none());

    config.merge_with_capabilities(&capabilities);

    assert_eq!(config.network.network_name, "virbr0");
    assert_eq!(config.network.interface, Some("eth0".to_string()));
    assert_eq!(config.storage.vm_images_dir, Some("/custom/libvirt/images".to_string()));
    assert_eq!(config.storage.cloud_init_dir, Some("/tmp/cloud-init".to_string()));
}

#[test]
fn test_phase_3a_explicit_config_takes_priority() {
    let capabilities = sample_capabilities();
    let mut config = BenchScaleConfig {
        network: NetworkConfig {
            network_name: "production".to_string(),
            interface: Some("enp0s3".to_string()),
            ..Default::default()
        },
        storage: StorageConfig {
            vm_images_dir: Some("/my/custom/path".to_string()),
            ..Default::default()
        },
        ..Default::default()
    };

    config.merge_with_capabilities(&capabilities);

    assert_eq!(config.network.network_name, "production");
    assert_eq!(config.network.interface, Some("enp0s3".to_string()));
    assert_eq!(config.storage.vm_images_dir, Some("/my/custom/path".to_string()));
}

#[test]
fn merge_twice_changes_nothing_more() {
    let capabilities = sample_capabilities();
    let mut once = BenchScaleConfig::default();
    once.merge_with_capabilities(&capabilities);
    let mut twice = once.clone();
    twice.merge_with_capabilities(&capabilities);
    assert_eq!(once, twice);
}

// A partial document fills every unnamed setting with its default, so each
// of these configurations is the default one with a single field changed.

#[test]
fn test_validation_catches_invalid_timeout() {
    let mut config = BenchScaleConfig::default();
    config.timeouts.cloud_init_secs = 0;
    assert!(config.validate().is_err());
}

#[test]
fn test_validation_catches_invalid_monitoring() {
    let mut config = BenchScaleConfig::default();
    config.monitoring.max_failures = 0;
    assert!(config.validate().is_err());
}

#[test]
fn test_validation_catches_invalid_network() {
    let mut config = BenchScaleConfig::default();
    config.network.ssh_port = 0;
    assert!(config.validate().is_err());
}

#[test]
fn test_validation_catches_invalid_storage() {
    let mut config = BenchScaleConfig::default();
    config.storage.max_disk_size_gb = 0;
    assert!(config.validate().is_err());
}

#[test]
fn images_dir_is_chosen_in_order() {
    let s = |t: &str| Some(t.to_string());
    assert_eq!(StorageCapabilities::choose_images_dir(s("/env"), true, s("/pool"), s("/xdg"), true), "/env");
    assert_eq!(StorageCapabilities::choose_images_dir(s("/env"), false, s("/pool"), s("/xdg"), true), "/pool");
    assert_eq!(StorageCapabilities::choose_images_dir(None, false, None, s("/xdg"), true), "/xdg");
    assert_eq!(StorageCapabilities::choose_images_dir(None, false, None, s("/xdg"), false), "/var/lib/libvirt/images");
    assert_eq!(StorageCapabilities::choose_temp_dir(s("/run/user/1000"), true, "/tmp".to_string()), "/run/user/1000");
    assert_eq!(StorageCapabilities::choose_temp_dir(s("/run/user/1000"), false, "/tmp".to_string()), "/tmp");
}
