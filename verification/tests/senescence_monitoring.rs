use benchscale::backend::senescence::{cloud_init_progress, cloud_init_progress_from_json};
use benchscale::backend::senescence::{
    apply_rediscovery, begin_check, cloud_init_failed_error, cloud_init_wait_step,
    complete_check, derive_health, failed_health_error, healthy_timeout_error,
    healthy_wait_step, CloudInitProgress, CloudInitStatus, CloudInitWait, HealthStatus,
    HealthyWait, MonitorSettings, SenescenceMetrics,
};
use benchscale::config::MonitoringConfig;
use std::time::Duration;

fn fresh(name: &str, ip: &str, mac: Option<&str>) -> SenescenceMetrics {
    SenescenceMetrics::initial(
        name.to_string(),
        ip.to_string(),
        mac.map(|m| m.to_string()),
        Duration::from_secs(0),
    )
}

fn progress(status: &str, errors: Vec<&str>) -> CloudInitProgress {
    CloudInitProgress {
        status: CloudInitStatus::from_status_str(status),
        detail: None,
        errors: errors.into_iter().map(|e| e.to_string()).collect(),
    }
}

fn check_creation() {
    let metrics = fresh("test-vm", "192.168.1.100", None);
    assert_eq!(metrics.vm_name, "test-vm");
    assert_eq!(metrics.ip_address, "192.168.1.100");
    assert_eq!(metrics.mac_address, None);
    assert_eq!(metrics.health, HealthStatus::Unknown);
    assert!(!metrics.ping_ok);
    assert!(!metrics.ssh_ok);
    assert_eq!(metrics.check_count, 0);
}

fn check_with_mac() {
    let metrics = fresh("test-vm", "192.168.1.100", Some("52:54:00:12:34:56"));
    assert_eq!(metrics.vm_name, "test-vm");
    assert_eq!(metrics.ip_address, "192.168.1.100");
    assert_eq!(metrics.mac_address, Some("52:54:00:12:34:56".to_string()));
    assert_eq!(metrics.check_count, 0);
}

fn check_transitions() {
    let metrics = fresh("test-vm", "192.168.1.100", None);
    assert!(metrics.is_healthy());
    assert!(!metrics.is_stalled());
}

fn check_from_config() {
    let mut cfg = MonitoringConfig::for_cloud_init_packages();
    cfg.check_interval_secs = 5;
    cfg.ip_rediscovery_interval = 4;
    let settings = MonitorSettings::from_config(&cfg);
    assert_eq!(settings.check_interval_secs, 5);
    assert_eq!(settings.ip_rediscovery_interval, 4);
    assert_eq!(settings.max_failures, 180);
    assert_eq!(settings.stall_threshold_secs, 300);
    let m = fresh("vm", "10.0.0.5", Some("52:54:00:00:00:01"));
    assert_eq!(m.vm_name, "vm");
    assert_eq!(m.ip_address, "10.0.0.5");
    assert_eq!(m.mac_address.as_deref(), Some("52:54:00:00:00:01"));
}

fn check_max_failures() {
    let settings = MonitorSettings::standard().with_max_failures(42);
    assert_eq!(settings.max_failures, 42);
    let m = fresh("v", "192.168.1.1", None);
    assert_eq!(m.consecutive_failures, 0);
}

fn check_fails_fast() {
    let mut m = fresh("bad", "192.0.2.1", None);
    m.health = HealthStatus::Failed;
    assert_eq!(healthy_wait_step(m.health, false), HealthyWait::Failed);
    let msg = failed_health_error(&m.vm_name).to_string();
    assert!(msg.contains("failed health") || msg.contains("bad"));
}

fn check_cloud_init_done() {
    let mut m = fresh("ok", "192.0.2.2", None);
    m.cloud_init = Some(progress("done", vec![]));
    assert_eq!(cloud_init_wait_step(&m, false), CloudInitWait::Done);
    assert_eq!(cloud_init_wait_step(&m, true), CloudInitWait::Done);
}

fn check_cloud_init_errors() {
    let mut m = fresh("e", "192.0.2.3", None);
    m.cloud_init = Some(progress("running", vec!["boom"]));
    assert_eq!(cloud_init_wait_step(&m, false), CloudInitWait::CloudInitFailed);
    let errors = m.cloud_init.as_ref().unwrap().errors.clone();
    let msg = cloud_init_failed_error(&m.vm_name, &errors).to_string();
    assert!(msg.contains("Cloud-init failed"));
    assert_eq!(msg, "Cloud-init failed on VM e: [\"boom\"]");
}

#[test]
fn senescence_test_senescence_monitor_creation() {
    check_creation();
}

#[test]
fn senescence_test_senescence_monitor_with_mac() {
    check_with_mac();
}

#[test]
fn senescence_test_health_status_transitions() {
    check_transitions();
}

#[test]
fn senescence_test_from_config_applies_monitoring_config() {
    check_from_config();
}

#[test]
fn senescence_test_with_max_failures_overrides_default() {
    check_max_failures();
}

#[test]
fn senescence_test_wait_for_healthy_fails_fast_on_failed_status() {
    check_fails_fast();
}

#[test]
fn senescence_test_wait_for_cloud_init_reports_done() {
    check_cloud_init_done();
}

#[test]
fn senescence_test_wait_for_cloud_init_errors_on_cloud_init_errors() {
    check_cloud_init_errors();
}

#[test]
fn mod_test_senescence_monitor_creation() {
    check_creation();
}

#[test]
fn mod_test_senescence_monitor_with_mac() {
    check_with_mac();
}

#[test]
fn mod_test_health_status_transitions() {
    check_transitions();
}

#[test]
fn mod_test_from_config_applies_monitoring_config() {
    check_from_config();
}

#[test]
fn mod_test_with_max_failures_overrides_default() {
    check_max_failures();
}

#[test]
fn mod_test_wait_for_healthy_fails_fast_on_failed_status() {
    check_fails_fast();
}

#[test]
fn mod_test_wait_for_cloud_init_reports_done() {
    check_cloud_init_done();
}

#[test]
fn mod_test_wait_for_cloud_init_errors_on_cloud_init_errors() {
    check_cloud_init_errors();
}

// ---- the check cycle ----

#[test]
fn unreachable_vm_fails_after_the_limit() {
    let settings = MonitorSettings::standard().with_max_failures(2);
    let mut m = fresh("vm", "10.0.0.2", None);
    let h1 = complete_check(&mut m, &settings, Duration::from_secs(1), false, false, None);
    assert_eq!(h1, HealthStatus::Degraded);
    let h2 = complete_check(&mut m, &settings, Duration::from_secs(2), false, false, None);
    assert_eq!(h2, HealthStatus::Degraded);
    let h3 = complete_check(&mut m, &settings, Duration::from_secs(3), false, false, None);
    assert_eq!(h3, HealthStatus::Failed);
    assert_eq!(m.health, HealthStatus::Failed);
    assert_eq!(m.consecutive_failures, 3);
}

#[test]
fn finished_cloud_init_resets_failures() {
    let settings = MonitorSettings::standard();
    let mut m = fresh("vm", "10.0.0.2", None);
    complete_check(&mut m, &settings, Duration::from_secs(1), false, false, None);
    assert_eq!(m.consecutive_failures, 1);
    let h = complete_check(
        &mut m,
        &settings,
        Duration::from_secs(2),
        true,
        true,
        Some(progress("done", vec![])),
    );
    assert_eq!(h, HealthStatus::Healthy);
    assert_eq!(m.consecutive_failures, 0);
    assert_eq!(m.time_since_healthy_secs, 0);
}

#[test]
fn running_cloud_init_stalls_past_threshold() {
    let mut m = fresh("vm", "10.0.0.2", None);
    m.cloud_init = Some(progress("running", vec![]));
    let h = derive_health(&mut m, true, true, 10, 15, 10);
    assert_eq!(h, HealthStatus::Healthy);
    assert_eq!(m.time_since_healthy_secs, 10);
    let h = derive_health(&mut m, true, true, 10, 15, 10);
    assert_eq!(h, HealthStatus::Stalled);
    assert_eq!(m.time_since_healthy_secs, 20);
}

#[test]
fn rediscovery_every_nth_check_with_known_mac() {
    let settings = MonitorSettings { ip_rediscovery_interval: 2, ..MonitorSettings::standard() };
    let mut m = fresh("vm", "10.0.0.2", Some("52:54:00:00:00:09"));
    assert_eq!(begin_check(&mut m, &settings), None);
    assert_eq!(begin_check(&mut m, &settings), Some("52:54:00:00:00:09".to_string()));
    m.consecutive_failures = 4;
    apply_rediscovery(&mut m, Some("10.0.0.3".to_string()));
    assert_eq!(m.ip_address, "10.0.0.3");
    assert_eq!(m.consecutive_failures, 0);
    m.consecutive_failures = 2;
    apply_rediscovery(&mut m, Some("10.0.0.3".to_string()));
    assert_eq!(m.consecutive_failures, 2);
}

#[test]
fn ssh_arguments_carry_identity_and_target() {
    let settings = MonitorSettings::standard().with_ssh_identity("/keys/id".to_string());
    let args = settings.ssh_args("10.0.0.2", "ubuntu");
    assert_eq!(args.len(), 11);
    assert_eq!(args[8], "-i");
    assert_eq!(args[9], "/keys/id");
    assert_eq!(args[10], "ubuntu@10.0.0.2");
    let plain = MonitorSettings::standard().ssh_args("10.0.0.2", "ubuntu");
    assert_eq!(plain.len(), 9);
}

#[test]
fn cloud_init_status_words() {
    assert_eq!(CloudInitStatus::from_status_str("done"), CloudInitStatus::Done);
    assert_eq!(
        CloudInitStatus::from_status_str("weird"),
        CloudInitStatus::Unknown("weird".to_string())
    );
    assert_eq!(CloudInitStatus::Running.display_string(), "running");
    assert!(CloudInitStatus::Done.is_done());
}

#[test]
fn healthy_wait_times_out_only_while_not_decided() {
    assert_eq!(healthy_wait_step(HealthStatus::Healthy, true), HealthyWait::Ready);
    assert_eq!(healthy_wait_step(HealthStatus::Degraded, true), HealthyWait::TimedOut);
    assert_eq!(healthy_wait_step(HealthStatus::Degraded, false), HealthyWait::Continue);
    let e = healthy_timeout_error("vm", Duration::from_millis(50)).to_string();
    assert_eq!(e, "Timeout waiting for VM vm to become healthy after 50ms");
}

#[test]
fn cloud_init_status_json_is_read_into_progress() {
    let p = cloud_init_progress_from_json(r#"{"status": "running", "detail": "modules-config", "errors": ["a", 3, "b"]}"#).unwrap();
    assert_eq!(p.status, CloudInitStatus::Running);
    assert_eq!(p.detail.as_deref(), Some("modules-config"));
    assert_eq!(p.errors, vec!["a".to_string(), "b".to_string()]);
    let p = cloud_init_progress_from_json("{}").unwrap();
    assert_eq!(p.status, CloudInitStatus::Unknown("unknown".to_string()));
    assert!(p.detail.is_none());
    assert!(p.errors.is_empty());
    assert!(cloud_init_progress_from_json("not json").unwrap_err().to_string().starts_with("Failed to parse cloud-init status JSON: "));
    let q = cloud_init_progress(None, None, vec![]);
    assert_eq!(q.status, CloudInitStatus::Unknown("unknown".to_string()));
}
