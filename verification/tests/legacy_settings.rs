use benchscale::config_legacy::{
    Config, DockerConfig, LabConfig, LegacyEnv, LibvirtConfig, NetworkConfig, SshConfig,
};
use std::time::Duration;

fn clean_env() -> LegacyEnv {
    LegacyEnv {
        temp_dir: "/tmp".to_string(),
        home_dir: Some("/home/tester".to_string()),
        ..Default::default()
    }
}

#[test]
fn test_default_config() {
    let config = Config::from_env(&clean_env());
    assert_eq!(config.libvirt.ssh.port, 22);
    assert!(!config.docker.use_hardened_images);
}

#[test]
fn test_config_from_env() {
    let env = LegacyEnv { ssh_port: Some("2222".to_string()), ..clean_env() };
    let config = Config::from_env(&env);
    assert_eq!(config.libvirt.ssh.port, 2222);
}

#[test]
fn test_ssh_timeout_conversion() {
    let config = Config::from_env(&clean_env());
    assert_eq!(config.ssh_timeout(), Duration::from_secs(30));
}

#[test]
fn test_image_pull_timeout_conversion() {
    let config = Config::from_env(&clean_env());
    assert!(config.image_pull_timeout().as_secs() > 0);
}

#[test]
fn test_network_timeout_conversion() {
    let config = Config::from_env(&clean_env());
    assert!(config.network_timeout().as_secs() > 0);
}

#[test]
fn test_lab_create_timeout_conversion() {
    let config = Config::from_env(&clean_env());
    assert!(config.lab_create_timeout().as_secs() > 0);
}

#[test]
fn test_docker_config_defaults() {
    let config = DockerConfig::from_env_values(&clean_env());
    assert!(config.image_pull_timeout_secs > 0);
}

#[test]
fn test_libvirt_config_defaults() {
    let config = LibvirtConfig::from_env_values(&clean_env());
    assert!(!config.uri.is_empty());
    assert!(!config.overlay_dir.is_empty());
}

#[test]
fn test_ssh_config_defaults() {
    let config = SshConfig::from_env_values(&clean_env());
    assert!(config.port > 0);
    assert!(!config.default_user.is_empty());
    assert!(config.timeout_secs > 0);
}

#[test]
fn test_network_config_defaults() {
    let config = NetworkConfig::from_env_values(&clean_env());
    assert!(!config.default_subnet.is_empty());
    assert!(config.timeout_secs > 0);
}

#[test]
fn test_lab_config_defaults() {
    let config = LabConfig::from_env_values(&clean_env());
    assert!(!config.state_dir.is_empty());
    assert!(config.create_timeout_secs > 0);
}

#[test]
fn test_env_var_ssh_port() {
    let env = LegacyEnv { ssh_port: Some("2222".to_string()), ..clean_env() };
    assert_eq!(Config::from_env(&env).libvirt.ssh.port, 2222);
}

#[test]
fn test_env_var_docker_hardened() {
    let env = LegacyEnv { use_hardened: Some("true".to_string()), ..clean_env() };
    assert!(Config::from_env(&env).docker.use_hardened_images);
}

#[test]
fn test_env_var_libvirt_uri() {
    let env = LegacyEnv {
        libvirt_uri: Some("qemu+ssh://host/system".to_string()),
        ..clean_env()
    };
    assert_eq!(Config::from_env(&env).libvirt.uri, "qemu+ssh://host/system");
}

#[test]
fn test_config_cloning() {
    let config1 = Config::from_env(&clean_env());
    let config2 = config1.clone();
    assert_eq!(config1.libvirt.ssh.port, config2.libvirt.ssh.port);
    assert_eq!(config1.docker.use_hardened_images, config2.docker.use_hardened_images);
}

#[test]
fn unreadable_numbers_fall_back_to_defaults() {
    let env = LegacyEnv {
        ssh_port: Some("70000".to_string()),
        use_hardened: Some("yes".to_string()),
        ..clean_env()
    };
    let config = Config::from_env(&env);
    assert_eq!(config.libvirt.ssh.port, 22);
    assert!(!config.docker.use_hardened_images);
}

#[test]
fn template_directories_searched_in_order() {
    let c = benchscale::config_legacy::template_dir_candidates(Some("/opt/ar"));
    assert_eq!(c[0], "/opt/ar/images/templates");
    assert_eq!(c.len(), 6);
    assert_eq!(c[1], "../primalTools/agentReagents/images/templates");
    let c = benchscale::config_legacy::template_dir_candidates(None);
    assert_eq!(c.len(), 5);
    assert_eq!(c[4], "./agentReagents/images/templates");
}

#[test]
fn legacy_libvirt_settings_carry_over() {
    let mut lc = LibvirtConfig::from_env_values(&clean_env());
    lc.base_image_path = "/srv/images/base.qcow2".to_string();
    lc.template_dir = Some("/srv/templates".to_string());
    let c = benchscale::config::BenchScaleConfig::from_libvirt_legacy(&lc, false);
    assert_eq!(c.timeouts.vm_boot_secs, 180);
    assert_eq!(c.timeouts.ssh_connection_secs, 30);
    assert_eq!(c.network.ssh_port, 22);
    assert_eq!(c.storage.intermediate_dir, Some("/srv/templates".to_string()));
    assert_eq!(c.storage.vm_images_dir, Some("/srv/images".to_string()));
    let d = benchscale::config::BenchScaleConfig::from_libvirt_legacy(&lc, true);
    assert_eq!(d.storage.vm_images_dir, Some("/srv/images/base.qcow2".to_string()));
}
