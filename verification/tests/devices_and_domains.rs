use benchscale::backend::gpu_lifecycle::{
    device_not_found_error, iommu_group_from, reset_methods_from, sysfs_hex_id, AttachMode, PciDevice,
    SysfsGpuLifecycle, SysfsWrite, VfioPassthrough,
};
use benchscale::backend::libvirt::provision::{disk_path_for, iso_path_for};
use benchscale::backend::vm_utils::{
    generate_desktop_domain_xml, generate_domain_xml, parse_memory, DesktopDomainConfig,
    DiskManager,
};
use benchscale::config_legacy::PciPassthroughDevice;

fn device(bdf: &str) -> PciDevice {
    PciDevice {
        bdf: bdf.to_string(),
        iommu_group: None,
        vendor_id: 0x10de,
        device_id: 0x1db1,
        driver: None,
        reset_methods: vec![],
    }
}

// ---- PCI devices and VFIO passthrough ----

#[test]
fn test_pci_device_display() {
    let dev = PciDevice {
        bdf: "0000:02:00.0".to_string(),
        iommu_group: Some(69),
        vendor_id: 0x10de,
        device_id: 0x1db1,
        driver: Some("nvidia".to_string()),
        reset_methods: vec!["flr".to_string(), "pm".to_string()],
    };
    let s = dev.display_string();
    assert!(s.contains("0000:02:00.0"));
    assert!(s.contains("10de:1db1"));
    assert!(s.contains("nvidia"));
    assert!(s.contains("69"));
}

#[test]
fn test_pci_device_supports_flr() {
    let dev_with_flr = PciDevice {
        reset_methods: vec!["flr".to_string(), "bus".to_string()],
        ..device("0000:02:00.0")
    };
    assert!(dev_with_flr.supports_flr());

    let dev_without_flr = PciDevice {
        reset_methods: vec!["bus".to_string()],
        ..device("0000:02:00.0")
    };
    assert!(!dev_without_flr.supports_flr());
}

#[test]
fn test_pci_device_sysfs_path() {
    let dev = PciDevice {
        vendor_id: 0,
        device_id: 0,
        ..device("0000:4d:00.0")
    };
    assert_eq!(dev.sysfs_path(), "/sys/bus/pci/devices/0000:4d:00.0");
}

#[test]
fn pci_address_parts_are_read_as_hex() {
    assert_eq!(device("0000:4d:00.0").parse_bdf(), Some((0, 0x4d, 0, 0)));
    assert_eq!(device("0001:0a:1f.7").parse_bdf(), Some((1, 0x0a, 0x1f, 7)));
    assert_eq!(device("garbage").parse_bdf(), None);
}

#[test]
fn test_vfio_passthrough_xml_managed() {
    let pt = VfioPassthrough {
        device: PciDevice {
            iommu_group: Some(69),
            ..device("0000:02:00.0")
        },
        managed: true,
        rom_bar: true,
        attach_mode: AttachMode::Cold,
        qemu_properties: Vec::new(),
    };
    let xml = pt.to_libvirt_xml().unwrap();
    assert!(xml.contains("managed='yes'"));
    assert!(!xml.contains("rom bar"));
}

#[test]
fn test_vfio_passthrough_xml_unmanaged_no_rom() {
    let pt = VfioPassthrough {
        device: device("0000:4d:00.0"),
        managed: false,
        rom_bar: false,
        attach_mode: AttachMode::HotUnmanaged,
        qemu_properties: Vec::new(),
    };
    let xml = pt.to_libvirt_xml().unwrap();
    assert!(xml.contains("managed='no'"));
    assert!(xml.contains("rom bar='off'"));
}

#[test]
fn vfio_xml_refused_for_malformed_address() {
    let pt = VfioPassthrough {
        device: device("not-a-bdf"),
        managed: true,
        rom_bar: true,
        attach_mode: AttachMode::Cold,
        qemu_properties: Vec::new(),
    };
    assert!(pt.to_libvirt_xml().is_none());
}

#[test]
fn test_vfio_from_legacy() {
    let legacy = PciPassthroughDevice {
        bdf: "0000:02:00.0".to_string(),
        no_flr: true,
    };
    let pt = VfioPassthrough::from_legacy(&legacy);
    assert!(!pt.managed);
    assert_eq!(pt.attach_mode, AttachMode::HotUnmanaged);
    assert_eq!(pt.device.bdf, "0000:02:00.0");

    let legacy = PciPassthroughDevice {
        bdf: "0000:03:00.0".to_string(),
        no_flr: false,
    };
    let pt = VfioPassthrough::from_legacy(&legacy);
    assert!(pt.managed);
    assert_eq!(pt.attach_mode, AttachMode::Cold);
}

#[test]
fn attach_mode_defaults_to_cold() {
    assert_eq!(AttachMode::default(), AttachMode::Cold);
}

// ---- memory sizes and domain XML ----

#[test]
fn test_parse_memory() {
    assert_eq!(parse_memory("2G"), Some(2048));
    assert_eq!(parse_memory("512M"), Some(512));
    assert_eq!(parse_memory("2048"), Some(2048));
    assert_eq!(parse_memory("4g"), Some(4096));
    assert_eq!(parse_memory("  1G  "), Some(1024));
    assert_eq!(parse_memory("invalid"), None);
}

#[test]
fn test_generate_domain_xml() {
    let xml = generate_domain_xml(
        "test-vm",
        "/tmp/disk.qcow2",
        2048,
        2,
        "test-net",
        "/tmp/serial.log",
    );
    assert!(xml.contains("<name>test-vm</name>"));
    assert!(xml.contains("<memory unit='MiB'>2048</memory>"));
    assert!(xml.contains("<vcpu>2</vcpu>"));
    assert!(xml.contains("source file='/tmp/disk.qcow2'"));
    assert!(xml.contains("source network='test-net'"));
    assert!(xml.contains("source path='/tmp/serial.log'"));
}

#[test]
fn test_generate_desktop_domain_xml_basic() {
    let config = DesktopDomainConfig {
        name: "desktop-vm",
        disk_path: "/tmp/disk.qcow2",
        cdrom_path: None,
        memory_mb: 4096,
        vcpus: 4,
        network: "default",
        mac_address: None,
        pci_devices: &[],
        emulator: None,
    };
    let xml = generate_desktop_domain_xml(&config);
    assert!(xml.contains("<name>desktop-vm</name>"));
    assert!(xml.contains("<memory unit='MiB'>4096</memory>"));
    assert!(xml.contains("<vcpu>4</vcpu>"));
    assert!(xml.contains("type='vnc'"));
    assert!(!xml.contains("device='cdrom'"));
    assert!(!xml.contains("<mac"));
}

#[test]
fn test_generate_desktop_domain_xml_with_cdrom_and_mac() {
    let config = DesktopDomainConfig {
        name: "test-vm",
        disk_path: "/tmp/disk.qcow2",
        cdrom_path: Some("/tmp/cidata.iso"),
        memory_mb: 2048,
        vcpus: 2,
        network: "default",
        mac_address: Some("52:54:00:ab:cd:ef"),
        pci_devices: &[],
        emulator: None,
    };
    let xml = generate_desktop_domain_xml(&config);
    assert!(xml.contains("device='cdrom'"));
    assert!(xml.contains("/tmp/cidata.iso"));
    assert!(xml.contains("52:54:00:ab:cd:ef"));
}

#[test]
fn test_generate_desktop_domain_xml_filters_by_attach_mode() {
    let devices = vec![
        VfioPassthrough {
            device: device("0000:02:00.0"),
            managed: true,
            rom_bar: true,
            attach_mode: AttachMode::Cold,
            qemu_properties: Vec::new(),
        },
        VfioPassthrough {
            device: device("0000:4d:00.0"),
            managed: false,
            rom_bar: false,
            attach_mode: AttachMode::HotUnmanaged,
            qemu_properties: Vec::new(),
        },
    ];
    let config = DesktopDomainConfig {
        name: "gpu-vm",
        disk_path: "/tmp/disk.qcow2",
        cdrom_path: None,
        memory_mb: 8192,
        vcpus: 8,
        network: "default",
        mac_address: None,
        pci_devices: &devices,
        emulator: None,
    };
    let xml = generate_desktop_domain_xml(&config);
    assert!(xml.contains("0x02"), "cold-attach device should be in XML");
    assert!(!xml.contains("0x4d"), "hot-attach device should NOT be in XML");
}

#[test]
fn test_qemu_commandline_injection() {
    let devices = vec![VfioPassthrough {
        device: device("0000:02:00.0"),
        managed: false,
        rom_bar: false,
        attach_mode: AttachMode::Cold,
        qemu_properties: vec![("x-no-mmap".to_string(), "on".to_string())],
    }];
    let config = DesktopDomainConfig {
        name: "qemu-props-vm",
        disk_path: "/tmp/disk.qcow2",
        cdrom_path: None,
        memory_mb: 8192,
        vcpus: 4,
        network: "default",
        mac_address: None,
        pci_devices: &devices,
        emulator: None,
    };
    let xml = generate_desktop_domain_xml(&config);
    assert!(xml.contains("xmlns:qemu="), "should have QEMU namespace");
    assert!(xml.contains("<qemu:commandline>"), "should have commandline block");
    assert!(xml.contains("x-no-mmap=on"), "should inject QEMU property");
}

#[test]
fn test_no_qemu_commandline_without_properties() {
    let config = DesktopDomainConfig {
        name: "no-props",
        disk_path: "/tmp/disk.qcow2",
        cdrom_path: None,
        memory_mb: 2048,
        vcpus: 2,
        network: "default",
        mac_address: None,
        pci_devices: &[],
        emulator: None,
    };
    let xml = generate_desktop_domain_xml(&config);
    assert!(!xml.contains("xmlns:qemu"));
    assert!(!xml.contains("<qemu:commandline>"));
}

#[test]
fn test_custom_emulator_path() {
    let config = DesktopDomainConfig {
        name: "custom-emu",
        disk_path: "/tmp/disk.qcow2",
        cdrom_path: None,
        memory_mb: 2048,
        vcpus: 2,
        network: "default",
        mac_address: None,
        pci_devices: &[],
        emulator: Some("/usr/local/bin/qemu-system-x86_64"),
    };
    let xml = generate_desktop_domain_xml(&config);
    assert!(xml.contains("/usr/local/bin/qemu-system-x86_64"));
}

#[test]
fn disk_manager_overlay_paths_and_arguments() {
    let dm = DiskManager::new("/var/lib/overlays");
    assert_eq!(dm.overlay_dir(), "/var/lib/overlays");
    assert_eq!(dm.overlay_path("vm1"), "/var/lib/overlays/vm1.qcow2");
    let args = dm.overlay_create_args("/base/ubuntu.qcow2", "vm1");
    assert_eq!(args[0], "create");
    assert!(args.iter().any(|a| a == "/base/ubuntu.qcow2"));
    assert_eq!(args.last().unwrap(), "/var/lib/overlays/vm1.qcow2");
}

// ---- display and virt-install conventions ----

#[test]
fn test_vnc_graphics_argument() {
    let vnc_config = "vnc,listen=0.0.0.0";
    assert!(vnc_config.contains("vnc"));
    assert!(vnc_config.contains("listen=0.0.0.0"));
    assert!(!vnc_config.contains("none"));
}

#[test]
fn test_display_method_selection() {
    struct DisplayConfig {
        method: String,
        needs_gui: bool,
    }
    let desktop_vm = DisplayConfig { method: "vnc".to_string(), needs_gui: true };
    let server_vm = DisplayConfig { method: "none".to_string(), needs_gui: false };
    assert_eq!(desktop_vm.method, "vnc");
    assert!(desktop_vm.needs_gui);
    assert_eq!(server_vm.method, "none");
    assert!(!server_vm.needs_gui);
}

#[test]
fn test_vnc_port_range() {
    let vnc_display_0 = 5900;
    let vnc_display_99 = 5999;
    assert!(vnc_display_0 >= 5900);
    assert!(vnc_display_99 <= 5999);
}

#[test]
fn test_graphics_options() {
    let options = vec![
        ("vnc,listen=0.0.0.0", true, "VNC for remote access"),
        ("none", false, "Headless server"),
        ("spice", true, "Spice for better performance"),
    ];
    for (config, has_display, description) in options {
        if has_display {
            assert!(!config.contains("none"), "{} should have display", description);
        } else {
            assert_eq!(config, "none", "{} should be headless", description);
        }
    }
}

#[test]
fn test_vnc_listen_addresses() {
    struct VncConfig {
        listen: String,
        accessible_from: &'static str,
    }
    let configs = vec![
        VncConfig { listen: "0.0.0.0".to_string(), accessible_from: "anywhere" },
        VncConfig { listen: "127.0.0.1".to_string(), accessible_from: "localhost only" },
    ];
    for config in configs {
        if config.listen == "0.0.0.0" {
            assert_eq!(config.accessible_from, "anywhere");
        } else if config.listen == "127.0.0.1" {
            assert_eq!(config.accessible_from, "localhost only");
        }
    }
}

#[test]
fn test_virt_install_graphics_arg() {
    let desktop_args = vec!["--name", "test-vm", "--graphics", "vnc,listen=0.0.0.0"];
    let headless_args = vec!["--name", "test-vm", "--graphics", "none"];
    assert!(desktop_args.contains(&"--graphics"));
    let graphics_idx = desktop_args.iter().position(|&x| x == "--graphics").unwrap();
    assert!(desktop_args[graphics_idx + 1].contains("vnc"));
    assert!(headless_args.contains(&"--graphics"));
    let graphics_idx = headless_args.iter().position(|&x| x == "--graphics").unwrap();
    assert_eq!(headless_args[graphics_idx + 1], "none");
}

#[test]
fn test_vnc_vs_other_displays() {
    struct DisplayMethod {
        name: &'static str,
        remote_access: bool,
        requires_x11: bool,
        libvirt_auto: bool,
    }
    let methods = vec![
        DisplayMethod { name: "VNC", remote_access: true, requires_x11: false, libvirt_auto: true },
        DisplayMethod { name: "GTK", remote_access: false, requires_x11: true, libvirt_auto: false },
        DisplayMethod { name: "SDL", remote_access: false, requires_x11: false, libvirt_auto: false },
    ];
    let vnc = methods.iter().find(|m| m.name == "VNC").unwrap();
    assert!(vnc.remote_access);
    assert!(!vnc.requires_x11);
    assert!(vnc.libvirt_auto);
}

#[test]
fn test_display_config_validation() {
    fn validate_display_for_vm_type(vm_type: &str) -> String {
        match vm_type {
            "desktop" => "vnc,listen=0.0.0.0",
            "server" => "none",
            "development" => "vnc,listen=127.0.0.1",
            _ => "none",
        }
        .to_string()
    }
    assert_eq!(validate_display_for_vm_type("desktop"), "vnc,listen=0.0.0.0");
    assert_eq!(validate_display_for_vm_type("server"), "none");
    assert_eq!(validate_display_for_vm_type("development"), "vnc,listen=127.0.0.1");
    assert_eq!(validate_display_for_vm_type("unknown"), "none");
}

#[test]
fn test_virsh_vncdisplay_command() {
    let vm_name = "test-vm";
    let command = format!("virsh vncdisplay {}", vm_name);
    assert!(command.contains("virsh"));
    assert!(command.contains("vncdisplay"));
    assert!(command.contains(vm_name));
}

#[test]
fn test_vnc_display_parsing() {
    let vnc_outputs = vec![(":0", 5900), (":1", 5901), (":99", 5999), ("127.0.0.1:0", 5900)];
    for (output, expected_port) in vnc_outputs {
        if output.starts_with(':') {
            let display_num: u16 = output[1..].parse().unwrap();
            let port = 5900 + display_num;
            assert_eq!(port, expected_port);
        }
    }
}

const SYSTEM_IMAGES: &str = "/var/lib/libvirt/images";

#[test]
fn test_virt_install_command_structure() {
    let disk_main = format!("path={},format=qcow2", disk_path_for(SYSTEM_IMAGES, "test"));
    let disk_cidata = format!("path={},device=cdrom", iso_path_for(SYSTEM_IMAGES, "test"));
    let command_args = vec![
        "virt-install".to_string(),
        "--name".to_string(),
        "test-vm".to_string(),
        "--memory".to_string(),
        "2048".to_string(),
        "--vcpus".to_string(),
        "2".to_string(),
        "--disk".to_string(),
        disk_main,
        "--disk".to_string(),
        disk_cidata,
        "--os-variant".to_string(),
        "ubuntu22.04".to_string(),
        "--network".to_string(),
        "network=default".to_string(),
        "--graphics".to_string(),
        "vnc,listen=0.0.0.0".to_string(),
        "--noautoconsole".to_string(),
        "--import".to_string(),
    ];
    assert!(command_args.iter().any(|s| s == "virt-install"));
    assert!(command_args.iter().any(|s| s == "--name"));
    assert!(command_args.iter().any(|s| s == "--graphics"));
    assert!(command_args.iter().any(|s| s == "--network"));
    assert!(command_args.iter().any(|s| s == "--import"));
    let graphics_idx = command_args.iter().position(|x| x == "--graphics").unwrap();
    assert!(command_args[graphics_idx + 1].contains("vnc"));
}

#[test]
fn test_cloud_init_iso_attachment() {
    let disk_main = format!("path={},format=qcow2", disk_path_for(SYSTEM_IMAGES, "vm"));
    let disk_cidata = format!("path={},device=cdrom", iso_path_for(SYSTEM_IMAGES, "vm"));
    let disk_args = vec!["--disk", disk_main.as_str(), "--disk", disk_cidata.as_str()];
    assert!(disk_args.iter().any(|arg| arg.contains(".qcow2")));
    assert!(disk_args.iter().any(|arg| arg.contains("cidata.iso")));
    assert!(disk_args.iter().any(|arg| arg.contains("device=cdrom")));
}

#[test]
fn sysfs_ids_and_reset_methods() {
    assert_eq!(sysfs_hex_id("/sys/x/vendor", "0x10de\n").unwrap(), 0x10de);
    assert_eq!(sysfs_hex_id("/sys/x/device", "1db1").unwrap(), 0x1db1);
    let e = sysfs_hex_id("/sys/x/vendor", "0xzz").unwrap_err().to_string();
    assert_eq!(e, "Invalid hex in /sys/x/vendor: invalid digit found in string");
    let e = sysfs_hex_id("/sys/x/vendor", "0x12345").unwrap_err().to_string();
    assert!(e.starts_with("Invalid hex in /sys/x/vendor: "));
    assert_eq!(reset_methods_from("flr bus\n"), vec!["flr".to_string(), "bus".to_string()]);
    assert!(reset_methods_from("").is_empty());
    assert_eq!(
        device_not_found_error("0000:01:00.0").to_string(),
        "PCI device 0000:01:00.0 not found in sysfs"
    );
}

#[test]
fn iommu_group_numbers() {
    assert_eq!(iommu_group_from("0000:02:00.0", Some("69")).unwrap(), 69);
    assert_eq!(
        iommu_group_from("0000:02:00.0", None).unwrap_err().to_string(),
        "Invalid IOMMU group path for 0000:02:00.0"
    );
    assert_eq!(
        iommu_group_from("0000:02:00.0", Some("x1")).unwrap_err().to_string(),
        "Invalid IOMMU group number for 0000:02:00.0: invalid digit found in string"
    );
}

fn write(path: &str, value: &str, only_if_present: bool) -> SysfsWrite {
    SysfsWrite { path: path.to_string(), value: value.to_string(), only_if_present }
}

#[test]
fn binding_unbinds_the_current_driver_first() {
    let mut dev = device("0000:01:00.0");
    dev.driver = Some("nvidia".to_string());
    let writes = SysfsGpuLifecycle.bind_vfio_writes(&dev);
    assert_eq!(
        writes,
        vec![
            write("/sys/bus/pci/drivers/nvidia/unbind", "0000:01:00.0", true),
            write("/sys/bus/pci/devices/0000:01:00.0/driver_override", "vfio-pci", false),
            write("/sys/bus/pci/drivers_probe", "0000:01:00.0", false),
        ]
    );
}

#[test]
fn binding_a_driverless_device_sets_the_override_and_probes() {
    let dev = device("0000:02:00.0");
    let writes = SysfsGpuLifecycle.bind_vfio_writes(&dev);
    assert_eq!(
        writes,
        vec![
            write("/sys/bus/pci/devices/0000:02:00.0/driver_override", "vfio-pci", false),
            write("/sys/bus/pci/drivers_probe", "0000:02:00.0", false),
        ]
    );
}

#[test]
fn binding_a_device_on_vfio_writes_nothing() {
    let mut dev = device("0000:01:00.0");
    dev.driver = Some("vfio-pci".to_string());
    assert!(SysfsGpuLifecycle.bind_vfio_writes(&dev).is_empty());
}

#[test]
fn unbinding_clears_the_override() {
    let dev = device("0000:01:00.1");
    let writes = SysfsGpuLifecycle.unbind_vfio_writes(&dev);
    assert_eq!(
        writes,
        vec![
            write("/sys/bus/pci/drivers/vfio-pci/unbind", "0000:01:00.1", true),
            write("/sys/bus/pci/devices/0000:01:00.1/driver_override", "", false),
            write("/sys/bus/pci/drivers_probe", "0000:01:00.1", false),
        ]
    );
}

#[test]
fn sysfs_locations_of_iommu_groups() {
    assert_eq!(
        SysfsGpuLifecycle.iommu_group_link("0000:01:00.0"),
        "/sys/bus/pci/devices/0000:01:00.0/iommu_group"
    );
    assert_eq!(SysfsGpuLifecycle.group_devices_dir(14), "/sys/kernel/iommu_groups/14/devices");
}
