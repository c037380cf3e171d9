use benchscale::config::{MonitoringConfig, StorageConfig, TimeoutConfig};
use std::time::Duration;

// ---- timeouts ----

#[test]
fn timeouts_test_default_config_is_valid() {
    let config = TimeoutConfig::default();
    assert!(config.validate().is_ok());
}

#[test]
fn timeouts_test_default_values() {
    let config = TimeoutConfig::default();
    assert_eq!(config.cloud_init_secs, 1800);
    assert_eq!(config.dhcp_discovery_secs, 60);
    assert_eq!(config.vm_boot_secs, 600);
    assert_eq!(config.ssh_connection_secs, 30);
    assert_eq!(config.ping_timeout_secs, 5);
    assert_eq!(config.post_boot_step_secs, 600);
    assert_eq!(config.reboot_timeout_secs, 600);
}

#[test]
fn timeouts_test_duration_conversions() {
    let config = TimeoutConfig::default();
    assert_eq!(config.cloud_init(), Duration::from_secs(1800));
    assert_eq!(config.dhcp_discovery(), Duration::from_secs(60));
    assert_eq!(config.vm_boot(), Duration::from_secs(600));
    assert_eq!(config.ssh_connection(), Duration::from_secs(30));
    assert_eq!(config.ping_timeout(), Duration::from_secs(5));
    assert_eq!(config.post_boot_step(), Duration::from_secs(600));
    assert_eq!(config.reboot_timeout(), Duration::from_secs(600));
}

#[test]
fn timeouts_test_custom_values() {
    let config = TimeoutConfig {
        cloud_init_secs: 3600,
        ..Default::default()
    };
    assert_eq!(config.cloud_init_secs, 3600);
    assert_eq!(config.dhcp_discovery_secs, 60);
    assert!(config.validate().is_ok());
}

#[test]
fn test_validation_rejects_zero() {
    let config = TimeoutConfig {
        cloud_init_secs: 0,
        ..Default::default()
    };
    assert!(config.validate().is_err());
}

#[test]
fn test_validation_rejects_excessive() {
    let config = TimeoutConfig {
        cloud_init_secs: 100000,
        ..Default::default()
    };
    assert!(config.validate().is_err());
}

// ---- monitoring ----

#[test]
fn monitoring_test_default_config_is_valid() {
    let config = MonitoringConfig::default();
    assert!(config.validate().is_ok());
}

#[test]
fn monitoring_test_default_values() {
    let config = MonitoringConfig::default();
    assert_eq!(config.check_interval_secs, 10);
    assert_eq!(config.max_failures, 10);
    assert_eq!(config.stall_threshold_secs, 120);
    assert_eq!(config.ip_rediscovery_interval, 10);
    assert!(config.enable_ip_rediscovery);
}

#[test]
fn monitoring_test_duration_conversions() {
    let config = MonitoringConfig::default();
    assert_eq!(config.check_interval(), Duration::from_secs(10));
    assert_eq!(config.stall_threshold(), Duration::from_secs(120));
}

#[test]
fn test_failure_tolerance_calculation() {
    let config = MonitoringConfig::default();
    assert_eq!(config.failure_tolerance(), Duration::from_secs(100));

    let config = MonitoringConfig {
        max_failures: 180,
        ..Default::default()
    };
    assert_eq!(config.failure_tolerance(), Duration::from_secs(1800));
}

#[test]
fn test_ip_rediscovery_duration_calculation() {
    let config = MonitoringConfig::default();
    assert_eq!(config.ip_rediscovery_duration(), Duration::from_secs(100));
}

#[test]
fn test_for_quick_vms() {
    let config = MonitoringConfig::for_quick_vms();
    assert_eq!(config.max_failures, 10);
    assert_eq!(config.failure_tolerance(), Duration::from_secs(100));
}

#[test]
fn test_for_desktop_builds() {
    let config = MonitoringConfig::for_desktop_builds();
    assert_eq!(config.max_failures, 60);
    assert_eq!(config.failure_tolerance(), Duration::from_secs(600));
    assert_eq!(config.stall_threshold_secs, 180);
}

#[test]
fn test_for_cloud_init_packages() {
    let config = MonitoringConfig::for_cloud_init_packages();
    assert_eq!(config.max_failures, 180);
    assert_eq!(config.failure_tolerance(), Duration::from_secs(1800));
    assert_eq!(config.stall_threshold_secs, 300);
}

#[test]
fn test_validation_rejects_zero_check_interval() {
    let config = MonitoringConfig {
        check_interval_secs: 0,
        ..Default::default()
    };
    assert!(config.validate().is_err());
}

#[test]
fn test_validation_rejects_zero_max_failures() {
    let config = MonitoringConfig {
        max_failures: 0,
        ..Default::default()
    };
    assert!(config.validate().is_err());
}

#[test]
fn test_validation_rejects_excessive_check_interval() {
    let config = MonitoringConfig {
        check_interval_secs: 600,
        ..Default::default()
    };
    assert!(config.validate().is_err());
}

#[test]
fn test_evolution_21_cloud_init_tolerance() {
    let config = MonitoringConfig::for_cloud_init_packages();
    assert_eq!(config.failure_tolerance().as_secs(), 1800);
}

#[test]
fn test_evolution_22_ip_rediscovery() {
    let config = MonitoringConfig::default();
    assert!(config.enable_ip_rediscovery);
    assert_eq!(config.ip_rediscovery_duration().as_secs(), 100);
}

// ---- storage ----

fn s(v: &str) -> String {
    v.to_string()
}

#[test]
fn storage_test_default_config_is_valid() {
    let config = StorageConfig::default();
    assert!(config.validate().is_ok());
}

#[test]
fn storage_test_default_values() {
    let config = StorageConfig::default();
    assert_eq!(config.max_disk_size_gb, 100);
    assert_eq!(config.min_free_space_gb, 10);
    assert!(config.enable_cow);
    assert!(config.vm_images_dir.is_none());
    assert!(config.base_images_dir.is_none());
    assert!(config.intermediate_dir.is_none());
    assert!(config.cloud_init_dir.is_none());
}

#[test]
fn storage_test_custom_values() {
    let config = StorageConfig {
        vm_images_dir: Some(s("/custom/path")),
        max_disk_size_gb: 200,
        min_free_space_gb: 20,
        enable_cow: false,
        ..Default::default()
    };
    assert!(config.validate().is_ok());
    assert_eq!(config.max_disk_size_gb, 200);
    assert_eq!(config.min_free_space_gb, 20);
    assert!(!config.enable_cow);
}

#[test]
fn test_validation_rejects_zero_max_disk_size() {
    let config = StorageConfig {
        max_disk_size_gb: 0,
        ..Default::default()
    };
    assert!(config.validate().is_err());
}

#[test]
fn test_validation_rejects_excessive_max_disk_size() {
    let config = StorageConfig {
        max_disk_size_gb: 20000,
        ..Default::default()
    };
    assert!(config.validate().is_err());
}

#[test]
fn test_validation_rejects_zero_min_free_space() {
    let config = StorageConfig {
        min_free_space_gb: 0,
        ..Default::default()
    };
    assert!(config.validate().is_err());
}

#[test]
fn test_validation_rejects_min_free_space_exceeding_max() {
    let config = StorageConfig {
        max_disk_size_gb: 50,
        min_free_space_gb: 100,
        ..Default::default()
    };
    assert!(config.validate().is_err());
}

#[test]
fn test_validation_rejects_relative_paths() {
    let config = StorageConfig {
        vm_images_dir: Some(s("relative/path")),
        ..Default::default()
    };
    assert!(config.validate().is_err());
}

#[test]
fn test_should_discover_vm_images_dir() {
    let config = StorageConfig::default();
    assert!(config.should_discover_vm_images_dir());

    let config = StorageConfig {
        vm_images_dir: Some(s("/custom/path")),
        ..Default::default()
    };
    assert!(!config.should_discover_vm_images_dir());
}

#[test]
fn test_vm_images_dir_or_default() {
    let config = StorageConfig::default();
    assert_eq!(config.vm_images_dir_or_default(), s("/var/lib/libvirt/images"));

    let config = StorageConfig {
        vm_images_dir: Some(s("/custom/path")),
        ..Default::default()
    };
    assert_eq!(config.vm_images_dir_or_default(), s("/custom/path"));
}

#[test]
fn test_base_images_dir_or_default() {
    let config = StorageConfig {
        vm_images_dir: Some(s("/var/lib/libvirt/images")),
        ..Default::default()
    };
    assert_eq!(config.base_images_dir_or_default(), s("/var/lib/libvirt/images"));

    let config = StorageConfig {
        base_images_dir: Some(s("/custom/base")),
        ..Default::default()
    };
    assert_eq!(config.base_images_dir_or_default(), s("/custom/base"));
}

#[test]
fn test_intermediate_dir_or_default() {
    let config = StorageConfig::default();
    assert_eq!(
        config.intermediate_dir_or_default(),
        s("/var/lib/libvirt/images/intermediate")
    );

    let config = StorageConfig {
        intermediate_dir: Some(s("/custom/intermediate")),
        ..Default::default()
    };
    assert_eq!(config.intermediate_dir_or_default(), s("/custom/intermediate"));
}

#[test]
fn test_cloud_init_dir_or_default() {
    let config = StorageConfig::default();
    assert_eq!(config.cloud_init_dir_or_default(), s("/tmp"));

    let config = StorageConfig {
        cloud_init_dir: Some(s("/custom/cloud-init")),
        ..Default::default()
    };
    assert_eq!(config.cloud_init_dir_or_default(), s("/custom/cloud-init"));
}

#[test]
fn test_cow_enabled_by_default() {
    let config = StorageConfig::default();
    assert!(config.enable_cow);
}

#[test]
fn storage_paths_with_explicit_dirs_validate() {
    let config = StorageConfig {
        vm_images_dir: Some(s("/var/lib/libvirt/images")),
        base_images_dir: Some(s("/mnt/base-images")),
        max_disk_size_gb: 150,
        ..Default::default()
    };
    assert!(config.validate().is_ok());
}

#[test]
fn every_timeout_is_capped_at_a_day() {
    let mut c = TimeoutConfig::default();
    c.dhcp_discovery_secs = 100000;
    assert!(c.validate().is_err());
    let mut c = TimeoutConfig::default();
    c.ssh_connection_secs = 86401;
    assert!(c.validate().is_err());
    let mut c = TimeoutConfig::default();
    c.ping_timeout_secs = 86401;
    assert!(c.validate().is_err());
    let mut c = TimeoutConfig::default();
    c.ping_timeout_secs = 86400;
    assert!(c.validate().is_ok());
}
