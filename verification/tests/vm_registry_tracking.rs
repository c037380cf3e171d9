use benchscale::backend::libvirt::vm_registry::{VmRegistry, VmRegistryEntry, VmStatus};

fn entry(name: &str, at: u64, pid: u32, status: VmStatus) -> VmRegistryEntry {
    VmRegistryEntry {
        name: name.to_string(),
        created_at: at,
        static_ip: None,
        creator_pid: pid,
        status,
        updated_at: at,
    }
}

#[test]
fn test_registry_create_and_load() {
    let path = "/tmp/registry.json";
    let mut registry = VmRegistry::new(path);
    registry.register("test-vm".to_string(), None, 1000, 42);

    let loaded = VmRegistry::from_entries(path, registry.list_all());
    assert_eq!(loaded.len(), 1);
    assert!(loaded.get("test-vm").is_some());
    assert_eq!(loaded.path(), path);
}

#[test]
fn test_orphan_detection() {
    let mut registry = VmRegistry::new("/tmp/registry.json");
    let current_pid = 4242;
    registry.register("current-vm".to_string(), None, 1000, current_pid);
    registry.insert_entry(entry("orphan-vm", 1000, 999999, VmStatus::Building));

    let orphans = registry.find_orphans(&[current_pid]);
    assert_eq!(orphans.len(), 1);
    assert_eq!(orphans[0].name, "orphan-vm");
}

#[test]
fn test_stale_detection() {
    let now = 1_700_000_000u64;
    let old_time = now - 7200;
    let mut registry = VmRegistry::new("/tmp/registry.json");
    registry.insert_entry(entry("stale-vm", old_time, 1, VmStatus::Building));
    registry.insert_entry(entry("fresh-vm", now - 10, 1, VmStatus::Building));
    registry.insert_entry(entry("done-vm", old_time, 1, VmStatus::Completed));

    let stale_vms = registry.find_stale(3600, now);
    assert_eq!(stale_vms.len(), 1);
    assert_eq!(stale_vms[0].name, "stale-vm");
}

#[test]
fn register_then_lookup_and_status_updates() {
    let mut registry = VmRegistry::new("/tmp/r.json");
    registry.register("a".to_string(), Some("10.0.0.5".to_string()), 5, 7);
    let e = registry.get("a").unwrap();
    assert_eq!(e.status, VmStatus::Creating);
    assert_eq!(e.static_ip, Some("10.0.0.5".to_string()));
    assert!(registry.update_status("a", VmStatus::Running, 9));
    let e = registry.get("a").unwrap();
    assert_eq!(e.status, VmStatus::Running);
    assert_eq!(e.updated_at, 9);
    assert!(!registry.update_status("missing", VmStatus::Failed, 9));
    assert!(registry.unregister("a"));
    assert!(!registry.unregister("a"));
    assert_eq!(registry.len(), 0);
}

#[test]
fn re_registering_replaces_the_entry() {
    let mut registry = VmRegistry::new("/tmp/r.json");
    registry.register("a".to_string(), None, 5, 7);
    registry.register("a".to_string(), None, 8, 9);
    assert_eq!(registry.len(), 1);
    assert_eq!(registry.get("a").unwrap().creator_pid, 9);
    registry.clear();
    assert_eq!(registry.len(), 0);
}

#[test]
fn default_registry_path_uses_cache_dir() {
    assert_eq!(
        VmRegistry::default_path(Some("/home/u/.cache")),
        "/home/u/.cache/benchscale/vm_registry.json"
    );
    assert_eq!(VmRegistry::default_path(None), "/tmp/benchscale/vm_registry.json");
}

#[test]
fn unregistering_keeps_the_other_vms() {
    let mut registry = VmRegistry::new("/tmp/r.json");
    registry.register("a".to_string(), None, 5, 7);
    registry.register("b".to_string(), Some("10.0.0.9".to_string()), 6, 8);
    registry.register("c".to_string(), None, 7, 9);
    assert!(registry.unregister("b"));
    assert!(registry.get("b").is_none());
    assert_eq!(registry.get("a").unwrap().creator_pid, 7);
    assert_eq!(registry.get("c").unwrap().created_at, 7);
    assert_eq!(registry.len(), 2);
}
