use benchscale::backend::cidata_iso::{cut_image, trim_trailing_zeros};
use benchscale::backend::cleanup::VmCleanup;
use benchscale::backend::lab::{parse_qemu_process, vnc_port_fits};
use benchscale::backend::health::{HealthCheck, HealthMonitor, HealthStatus};
use benchscale::backend::libvirt::health_check::{
    DhcpProbe, HealthState, HealthStatus as HostHealth, LibvirtHealthCheck, NetworkProbe,
    ServiceProbe,
};
use benchscale::backend::libvirt::recovery::{RecoveryAction, RecoveryResult};
use benchscale::backend::libvirt::vm_guard::{preserve_requested, VmGuard};
use benchscale::backend::libvirt::vm_state::qemu_mac_from_vm_name;
use benchscale::backend::qga::{decode_base64, GuestExecResult, QgaClient};
use benchscale::backend::serial_console::{
    analyze_log, extract_errors, is_boot_complete, parse_boot_time_ms,
};
use benchscale::capabilities::NetworkCapabilities;
use benchscale::config::StorageConfig;
use std::time::{Duration, SystemTime};

const SAMPLE_LOG: &str = r#"[2025-12-27 10:23:45] [Info] BiomeOS Init Starting
[2025-12-27 10:23:45] [Info] Filesystem: rootfs mounted (rw)
[2025-12-27 10:23:46] [Info] Network: eth0 configured (10.42.0.10/24)
[2025-12-27 10:23:47] [Warn] Optional service skipped
[2025-12-27 10:23:48] [Info] Primal: Songbird started (PID 234)
[2025-12-27 10:23:49] [Success] BiomeOS Init Complete (178ms)"#;

// ---- serial console ----

#[test]
fn test_is_boot_complete() {
    assert!(is_boot_complete(SAMPLE_LOG));
    assert!(!is_boot_complete("[Info] BiomeOS Init Starting"));
}

#[test]
fn test_parse_boot_time() {
    assert_eq!(parse_boot_time_ms(SAMPLE_LOG), Some(178));
    assert_eq!(parse_boot_time_ms("[Info] Starting..."), None);
}

#[test]
fn test_analyze_log() {
    let stats = analyze_log(SAMPLE_LOG);
    assert_eq!(stats.info_count, 4);
    assert_eq!(stats.warn_count, 1);
    assert_eq!(stats.error_count, 0);
    assert_eq!(stats.success_count, 1);
}

#[test]
fn test_extract_errors() {
    let log_with_error = "[Error] Something failed\n[Info] Normal log";
    let errors = extract_errors(log_with_error);
    assert_eq!(errors.len(), 1);
    assert!(errors[0].contains("Something failed"));
}

// ---- health monitor ----

const HEALTHY_LOG: &str = r"[2025-12-27 10:23:45] [Info] BiomeOS Init Starting
[2025-12-27 10:23:49] [Success] BiomeOS Init Complete (178ms)";

const UNHEALTHY_LOG: &str = r"[2025-12-27 10:23:45] [Info] BiomeOS Init Starting
[2025-12-27 10:23:46] [Error] Failed to mount filesystem
[2025-12-27 10:23:49] [Success] BiomeOS Init Complete (178ms)";

const BOOTING_LOG: &str = r"[2025-12-27 10:23:45] [Info] BiomeOS Init Starting
[2025-12-27 10:23:46] [Info] Loading kernel modules...";

#[test]
fn test_healthy_vm() {
    let monitor = HealthMonitor::new();
    let health = monitor.check_vm_health(HEALTHY_LOG, "10.0.0.10");
    assert_eq!(health.status, HealthStatus::Healthy);
    assert!(health.boot_complete);
    assert!(health.network_reachable);
    assert!(health.is_healthy());
    assert!(health.is_ready());
    assert_eq!(health.boot_time_ms, Some(178));
}

#[test]
fn test_unhealthy_vm() {
    let monitor = HealthMonitor::new();
    let health = monitor.check_vm_health(UNHEALTHY_LOG, "10.0.0.10");
    assert_eq!(health.status, HealthStatus::Unhealthy);
    assert!(health.boot_complete);
    assert!(!health.is_healthy());
    assert_eq!(health.errors.len(), 1);
}

#[test]
fn test_booting_vm() {
    let monitor = HealthMonitor::new();
    let health = monitor.check_vm_health(BOOTING_LOG, "10.0.0.10");
    assert_eq!(health.status, HealthStatus::Booting);
    assert!(!health.boot_complete);
    assert!(!health.is_ready());
}

#[test]
fn test_no_network() {
    let monitor = HealthMonitor::new();
    let health = monitor.check_vm_health(HEALTHY_LOG, "");
    assert!(!health.network_reachable);
    assert!(!health.is_ready());
}

#[test]
fn test_health_check_creation() {
    let health = HealthCheck::new(HealthStatus::Healthy);
    assert_eq!(health.status, HealthStatus::Healthy);
    assert!(!health.boot_complete);
}

#[test]
fn test_monitor_timeouts() {
    let monitor = HealthMonitor::with_timeouts(Duration::from_secs(2), Duration::from_secs(60));
    assert_eq!(monitor.check_interval(), Duration::from_secs(2));
    assert_eq!(monitor.boot_timeout(), Duration::from_secs(60));
}

#[test]
fn health_monitor_timeout_error_names_the_seconds() {
    let e = HealthMonitor::timeout_error(90);
    assert!(e.to_string().contains("90"), "{}", e.to_string());
}

// ---- guest agent ----

#[test]
fn socket_path_from_vm_name() {
    let client = QgaClient::for_vm("lithoSpore-validation");
    assert_eq!(
        client.socket_path(),
        "/var/lib/libvirt/qemu/channel/target/lithoSpore-validation.org.qemu.guest_agent.0"
    );
}

#[test]
fn custom_socket_path() {
    let client = QgaClient::from_socket("/tmp/test.sock");
    assert_eq!(client.socket_path(), "/tmp/test.sock");
}

#[test]
fn timeout_builder() {
    let client = QgaClient::for_vm("test").with_timeout(Duration::from_secs(30));
    assert_eq!(client.timeout(), Duration::from_secs(30));
}

#[test]
fn guest_output_is_decoded_from_base64() {
    assert_eq!(decode_base64("aGVsbG8="), Some("hello".to_string()));
    assert_eq!(decode_base64("!!!"), None);
    let r = GuestExecResult::from_status_fields(7, Some(true), Some(0), Some("b2s="), None);
    assert_eq!(r.pid, 7);
    assert!(r.exited);
    assert_eq!(r.exit_code, Some(0));
    assert_eq!(r.stdout, Some("ok".to_string()));
    assert_eq!(r.stderr, None);
}

// ---- capabilities ----

#[test]
fn test_netmask_conversion() {
    assert_eq!(NetworkCapabilities::netmask_to_cidr("255.255.255.0"), 24);
    assert_eq!(NetworkCapabilities::netmask_to_cidr("255.255.0.0"), 16);
    assert_eq!(NetworkCapabilities::netmask_to_cidr("255.0.0.0"), 8);
}

#[test]
fn test_xml_attr_extraction() {
    let xml = r#"<ip address="192.168.122.1" netmask="255.255.255.0">"#;
    assert_eq!(
        NetworkCapabilities::extract_xml_attr(xml, "ip", "address"),
        Some("192.168.122.1".to_string())
    );
    assert_eq!(
        NetworkCapabilities::extract_xml_attr(xml, "ip", "netmask"),
        Some("255.255.255.0".to_string())
    );
}

// ---- cidata image ----

#[test]
fn trim_trailing_zeros_rounds_to_sector() {
    let mut data = vec![0u8; 8192];
    data[100] = 0xFF;
    assert_eq!(trim_trailing_zeros(&data), 2048);
    data[4000] = 0xFF;
    assert_eq!(trim_trailing_zeros(&data), 4096);
}

#[test]
fn trimmed_image_keeps_whole_sectors() {
    let mut data = vec![0u8; 8192];
    data[5000] = 1;
    let cut = cut_image(data).unwrap();
    assert_eq!(cut.len(), 6144);
    assert_eq!(trim_trailing_zeros(&vec![0u8; 4096]), 2048);
}

// ---- cleanup ----

#[test]
fn test_cleanup_creation() {
    let expected = StorageConfig::default().vm_images_dir_or_default();
    let cleanup = VmCleanup::new(&expected);
    assert_eq!(cleanup.image_dir(), expected);
}

#[test]
fn cleanup_matches_prefix_only() {
    let cleanup = VmCleanup::new("/images");
    let names = vec!["test-a".to_string(), "prod-b".to_string(), "test-c".to_string()];
    assert_eq!(
        cleanup.cleanup_matching("test-", &names),
        vec!["test-a".to_string(), "test-c".to_string()]
    );
    assert_eq!(cleanup.disk_path("vm1"), "/images/vm1.qcow2");
}

// ---- host health and recovery ----

fn healthy_host() -> HostHealth {
    HostHealth {
        overall: HealthState::Healthy,
        checked_at: SystemTime::now(),
        libvirtd_active: true,
        orphaned_processes: Vec::new(),
        network_active: true,
        dhcp_functional: true,
        issues: Vec::new(),
    }
}

#[test]
fn test_health_state_methods() {
    let healthy = healthy_host();
    assert!(healthy.is_healthy());
    assert!(!healthy.is_degraded());
    assert!(!healthy.is_unhealthy());

    let degraded = HostHealth {
        overall: HealthState::Degraded("test".to_string()),
        ..healthy.clone()
    };
    assert!(!degraded.is_healthy());
    assert!(degraded.is_degraded());
    assert!(!degraded.is_unhealthy());
}

#[test]
fn host_check_collects_issues_in_order() {
    let checker = LibvirtHealthCheck::new();
    let now = SystemTime::now();
    let status = checker.check(
        now,
        &ServiceProbe::Output("inactive".to_string()),
        &NetworkProbe::NotFound,
        &DhcpProbe::LeasesRead,
    );
    assert!(!status.libvirtd_active);
    assert!(!status.network_active);
    assert!(status.dhcp_functional);
    assert_eq!(status.issues.len(), 2);
    assert!(status.is_unhealthy());

    let status = checker.check(
        now,
        &ServiceProbe::Output("active".to_string()),
        &NetworkProbe::Active(true),
        &DhcpProbe::LeasesRead,
    );
    assert!(status.is_healthy());
    assert!(status.issues.is_empty());
}

#[test]
fn test_recovery_result_summary() {
    let result = RecoveryResult {
        success: true,
        actions_taken: vec![
            RecoveryAction::KilledOrphanedProcess(1234),
            RecoveryAction::RestartedLibvirtd,
        ],
        final_health: healthy_host(),
        error: None,
    };
    let summary = result.summary();
    assert!(summary.contains("successful"));
    assert!(summary.contains("killed PID 1234"));
}

// ---- VM guard ----

#[test]
fn test_vm_guard_preserve() {
    let guard = VmGuard::new("build-vm".to_string(), "/var/lib/libvirt/images".to_string());
    assert!(guard.cleans_on_drop(None));
    let guard = guard.preserve();
    assert!(guard.keeps_on_drop());
    assert!(!guard.cleans_on_drop(None));
    assert_eq!(guard.vm_name(), "build-vm");
}

#[test]
fn vm_guard_paths_and_preserve_setting() {
    let mut guard = VmGuard::new("vm".to_string(), "/images".to_string());
    assert_eq!(guard.disk_path(), "/images/vm.qcow2");
    assert_eq!(guard.seed_iso_path(), "/images/vm-seed.iso");
    assert!(!guard.cleans_on_drop(Some("TRUE")));
    assert!(!guard.cleans_on_drop(Some("1")));
    assert!(guard.cleans_on_drop(Some("0")));
    assert!(preserve_requested(Some("True")));
    assert!(!preserve_requested(Some("yes")));
    assert!(!preserve_requested(None));
    guard.mark_cleaned();
    assert!(!guard.cleans_on_drop(None));
}

// ---- VM state ----

#[test]
fn qemu_mac_from_name_is_deterministic() {
    let a = qemu_mac_from_vm_name("bench-vm");
    let b = qemu_mac_from_vm_name("bench-vm");
    assert_eq!(a, b);
    assert!(a.starts_with("52:54:00:"));
}

#[test]
fn qemu_mac_from_distinct_names_differs() {
    let a = qemu_mac_from_vm_name("vm-a");
    let b = qemu_mac_from_vm_name("vm-b");
    assert_ne!(a, b);
}

#[test]
fn guest_command_timeout_message() {
    let e = benchscale::backend::qga::exec_timeout_error(42, Duration::from_secs(3)).to_string();
    assert_eq!(e, "QGA command (pid 42) did not exit within 3s");
}

#[test]
fn qemu_process_lines() {
    let line = "libvirt+  4242  3.0  1.5 123 456 ? Sl 10:00 1:00 /usr/bin/qemu-system-x86_64 -name guest=vm1,debug-threads=on -vnc 127.0.0.1:3,password=on";
    assert!(vnc_port_fits(line));
    let p = parse_qemu_process(line).unwrap();
    assert_eq!(p.pid, 4242);
    assert_eq!(p.vm_name, "vm1");
    assert_eq!(p.vnc_port, Some(5903));
    assert!(!vnc_port_fits("x -vnc 127.0.0.1:65000"));
}

// The image is formatted in memory; writing it to a file adds nothing the
// assertions look at.

#[test]
fn generate_nocloud_iso_creates_valid_file() {
    let user_data = b"#cloud-config\npackages:\n  - curl\n";
    let meta_data = b"instance-id: test\nlocal-hostname: test\n";
    let bytes = benchscale::backend::cidata_iso::nocloud_image(user_data, meta_data).unwrap();
    assert!(bytes.len() >= 2048, "ISO too small: {} bytes", bytes.len());
    assert_eq!(&bytes[32769..32774], b"CD001", "Missing ISO9660 signature");
    assert_eq!(bytes.len() % 2048, 0);
}

#[test]
fn generate_nocloud_iso_volume_id_cidata() {
    let bytes = benchscale::backend::cidata_iso::nocloud_image(b"test", b"test").unwrap();
    let vol_id_region = &bytes[32808..32840];
    let vol_id = std::str::from_utf8(vol_id_region).unwrap_or("").trim();
    assert!(vol_id.starts_with("cidata"), "Volume ID should be 'cidata', got '{}'", vol_id);
}

#[test]
fn a_closing_ms_before_the_opening_parenthesis_gives_no_boot_time() {
    assert_eq!(parse_boot_time_ms("x ms) BiomeOS Init Complete (1"), None);
    assert_eq!(
        parse_boot_time_ms("x ms) BiomeOS Init Complete (1\nBiomeOS Init Complete (42ms)"),
        Some(42)
    );
}

#[test]
fn health_check_accepts_a_garbled_completion_line() {
    let monitor = HealthMonitor::new();
    let h = monitor.check_vm_health("x ms) BiomeOS Init Complete (1", "10.0.0.10");
    assert!(h.boot_complete);
    assert_eq!(h.boot_time_ms, None);
    assert_eq!(h.status, HealthStatus::Healthy);
}

#[test]
fn cleanup_by_prefix_returns_only_the_cleaned_vms() {
    let names = vec!["lab-a".to_string(), "lab-b".to_string(), "lab-c".to_string()];
    assert_eq!(VmCleanup::cleaned_names(&names, &[true, false, true]), vec!["lab-a", "lab-c"]);
    assert!(VmCleanup::cleaned_names(&names, &[false, false, false]).is_empty());
}

#[test]
fn agent_replies_with_an_error_member_fail() {
    let e = benchscale::backend::qga::reply_outcome("guest-ping", Some("{\"class\":\"GenericError\"}")).unwrap_err();
    assert_eq!(e.to_string(), "QGA guest-ping error: {\"class\":\"GenericError\"}");
    assert!(benchscale::backend::qga::reply_outcome("guest-ping", None).is_ok());
}
