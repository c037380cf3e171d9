//! VM disk overlays, memory sizes and libvirt domain XML.
use vstd::prelude::*;
use crate::backend::gpu_lifecycle::{AttachMode, VfioPassthrough, hostdev_xml};
use crate::path::path_join;
use crate::text::{
    chars_of, copy_range, decimal, join, join_strings, owned, parse_unsigned, parse_unsigned_chars,
    push_decimal, push_str, trim, trim_chars, views,
};
use crate::path::join_path;

verus! {

/// Copy-on-write disk overlays kept in one directory.
pub struct DiskManager {
    overlay_dir: String,
}

impl View for DiskManager {
    type V = Seq<char>;

    /// The overlay directory.
    closed spec fn view(&self) -> Seq<char> {
        self.overlay_dir@
    }
}

/// Where the overlay of a VM lives: `<name>.qcow2` in the overlay directory.
pub open spec fn overlay_path_of(dir: Seq<char>, vm_name: Seq<char>) -> Seq<char> {
    path_join(dir, vm_name + ".qcow2"@)
}

impl DiskManager {
    /// A manager for overlays in `overlay_dir`.
    pub fn new(overlay_dir: &str) -> (r: Self)
        ensures
            r@ == overlay_dir@,
    {
        DiskManager { overlay_dir: owned(overlay_dir) }
    }

    /// The overlay directory.
    pub fn overlay_dir(&self) -> (r: &str)
        ensures
            r@ == self@,
    {
        self.overlay_dir.as_str()
    }

    /// The overlay file of a VM.
    pub fn overlay_path(&self, vm_name: &str) -> (r: String)
        ensures
            r@ == overlay_path_of(self@, vm_name@),
    {
        let mut file = owned(vm_name);
        push_str(&mut file, ".qcow2");
        join_path(self.overlay_dir.as_str(), file.as_str())
    }

    /// The `qemu-img` arguments that create a VM's overlay on a base image:
    /// `create -f qcow2 -b <base> -F qcow2 <overlay>`.
    pub fn overlay_create_args(&self, base_image: &str, vm_name: &str) -> (r: Vec<String>)
        ensures
            views(r@) == seq![
                "create"@,
                "-f"@,
                "qcow2"@,
                "-b"@,
                base_image@,
                "-F"@,
                "qcow2"@,
                overlay_path_of(self@, vm_name@),
            ],
    {
        let mut v: Vec<String> = Vec::new();
        v.push(owned("create"));
        v.push(owned("-f"));
        v.push(owned("qcow2"));
        v.push(owned("-b"));
        v.push(owned(base_image));
        v.push(owned("-F"));
        v.push(owned("qcow2"));
        v.push(self.overlay_path(vm_name));
        proof {
            assert(views(v@) =~= seq![
                "create"@,
                "-f"@,
                "qcow2"@,
                "-b"@,
                base_image@,
                "-F"@,
                "qcow2"@,
                overlay_path_of(self@, vm_name@),
            ]);
        }
        v
    }
}

/// `c` is `u` or its lower-case form (the suffixes `parse_memory` accepts).
pub open spec fn is_unit(c: char, upper: char, lower: char) -> bool {
    c == upper || c == lower
}

/// The megabytes a memory size stands for: after trimming whitespace, a
/// number with a `G`/`g` suffix counts gigabytes of 1024 MB, one with an
/// `M`/`m` suffix or none counts megabytes; the number is what
/// `str::parse::<u32>` accepts. Upper-casing the text first, as the size
/// is read, changes only ASCII letters here: no other character turns into
/// a digit, `+`, `G` or `M`. A size whose megabytes do not fit in `u32`
/// stands for none.
pub open spec fn memory_size(text: Seq<char>) -> Option<nat> {
    let t = trim(text);
    if t.len() > 0 && is_unit(t.last(), 'G', 'g') {
        match parse_unsigned(t.drop_last(), 0xffff_ffff) {
            Some(n) => if n * 1024 <= 0xffff_ffff {
                Some(n * 1024)
            } else {
                None
            },
            None => None,
        }
    } else if t.len() > 0 && is_unit(t.last(), 'M', 'm') {
        parse_unsigned(t.drop_last(), 0xffff_ffff)
    } else {
        parse_unsigned(t, 0xffff_ffff)
    }
}

/// Parses a memory size such as `2G`, `512M` or `2048` into megabytes;
/// `None` for a text that is no size, or a size too large for `u32`.
pub fn parse_memory(mem_str: &str) -> (r: Option<u32>)
    ensures
        match memory_size(mem_str@) {
            Some(mb) => r == Some(mb as u32),
            None => r is None,
        },
{
    let cs = chars_of(mem_str);
    let t = trim_chars(cs.as_slice());
    let n = t.len();
    if n > 0 && (t[n - 1] == 'G' || t[n - 1] == 'g') {
        let body = copy_range(t.as_slice(), 0, n - 1);
        proof {
            assert(body@ =~= t@.drop_last());
        }
        match parse_unsigned_chars(body.as_slice(), 0xffff_ffff) {
            Some(v) => if v <= 0xffff_ffff / 1024 {
                Some((v * 1024) as u32)
            } else {
                None
            },
            None => None,
        }
    } else if n > 0 && (t[n - 1] == 'M' || t[n - 1] == 'm') {
        let body = copy_range(t.as_slice(), 0, n - 1);
        proof {
            assert(body@ =~= t@.drop_last());
        }
        match parse_unsigned_chars(body.as_slice(), 0xffff_ffff) {
            Some(v) => Some(v as u32),
            None => None,
        }
    } else {
        match parse_unsigned_chars(t.as_slice(), 0xffff_ffff) {
            Some(v) => Some(v as u32),
            None => None,
        }
    }
}

/// The `<hostdev>` elements of the devices whose address is well formed,
/// in order.
pub open spec fn hostdev_lines(devs: Seq<VfioPassthrough>) -> Seq<Seq<char>>
    decreases devs.len(),
{
    if devs.len() == 0 {
        Seq::empty()
    } else {
        let rest = hostdev_lines(devs.drop_last());
        match hostdev_xml(devs.last()) {
            Some(x) => rest.push(x),
            None => rest,
        }
    }
}

/// The `<hostdev>` elements of the cold-attached devices whose address is
/// well formed, in order.
pub open spec fn cold_hostdev_lines(devs: Seq<VfioPassthrough>) -> Seq<Seq<char>>
    decreases devs.len(),
{
    if devs.len() == 0 {
        Seq::empty()
    } else {
        let rest = cold_hostdev_lines(devs.drop_last());
        if devs.last().attach_mode == AttachMode::Cold {
            match hostdev_xml(devs.last()) {
                Some(x) => rest.push(x),
                None => rest,
            }
        } else {
            rest
        }
    }
}

/// The number of cold-attached devices.
pub open spec fn cold_count(devs: Seq<VfioPassthrough>) -> nat
    decreases devs.len(),
{
    if devs.len() == 0 {
        0
    } else {
        cold_count(devs.drop_last()) + if devs.last().attach_mode == AttachMode::Cold {
            1nat
        } else {
            0nat
        }
    }
}

/// The two `<qemu:arg>` lines that set one property on the `idx`-th
/// cold-attached host device.
pub open spec fn qemu_arg(idx: nat, key: Seq<char>, value: Seq<char>) -> Seq<char> {
    "  <qemu:arg value='-set'/>\n  <qemu:arg value='device.hostdev"@ + decimal(idx) + "."@ + key
        + "="@ + value + "'/>"@
}

/// The `<qemu:arg>` entries for the properties of one device.
pub open spec fn device_qemu_args(idx: nat, props: Seq<(String, String)>) -> Seq<Seq<char>> {
    props.map_values(|p: (String, String)| qemu_arg(idx, p.0@, p.1@))
}

/// The `<qemu:arg>` entries for the properties of all cold-attached
/// devices, numbered among the cold-attached devices.
pub open spec fn qemu_arg_lines(devs: Seq<VfioPassthrough>) -> Seq<Seq<char>>
    decreases devs.len(),
{
    if devs.len() == 0 {
        Seq::empty()
    } else {
        let rest = qemu_arg_lines(devs.drop_last());
        if devs.last().attach_mode == AttachMode::Cold {
            rest + device_qemu_args(cold_count(devs.drop_last()), devs.last().qemu_properties@)
        } else {
            rest
        }
    }
}

/// The host-device section: the elements on lines of their own, or nothing.
pub open spec fn hostdev_section(lines: Seq<Seq<char>>) -> Seq<char> {
    let j = join(lines, "\n"@);
    if j.len() == 0 {
        Seq::empty()
    } else {
        "\n"@ + j
    }
}

/// From `<os>` to the opening `<devices>` tag, shared by both domain kinds.
pub open spec fn os_block() -> Seq<char> {
    "</vcpu>\n  <os>\n    <type arch='x86_64'>hvm</type>\n    <boot dev='hd'/>\n  </os>\n  <features>\n    <acpi/>\n    <apic/>\n  </features>\n  <clock offset='utc'/>\n  <on_poweroff>destroy</on_poweroff>\n  <on_reboot>restart</on_reboot>\n  <on_crash>destroy</on_crash>\n  <devices>\n"@
}

fn os_block_str() -> (r: &'static str)
    ensures
        r@ == os_block(),
{
    "</vcpu>\n  <os>\n    <type arch='x86_64'>hvm</type>\n    <boot dev='hd'/>\n  </os>\n  <features>\n    <acpi/>\n    <apic/>\n  </features>\n  <clock offset='utc'/>\n  <on_poweroff>destroy</on_poweroff>\n  <on_reboot>restart</on_reboot>\n  <on_crash>destroy</on_crash>\n  <devices>\n"
}

/// The domain XML of a headless VM: a virtio disk, a virtio network
/// interface, the serial console logged to a file, no graphics, and the
/// given host devices.
pub open spec fn domain_xml(
    name: Seq<char>,
    disk: Seq<char>,
    memory_mb: u32,
    vcpus: u32,
    network: Seq<char>,
    serial_log: Seq<char>,
    devs: Seq<VfioPassthrough>,
) -> Seq<char> {
    "<domain type='kvm'>\n  <name>"@ + name + "</name>\n  <memory unit='MiB'>"@ + decimal(
        memory_mb as nat,
    ) + "</memory>\n  <vcpu>"@ + decimal(vcpus as nat) + os_block()
        + "    <disk type='file' device='disk'>\n      <driver name='qemu' type='qcow2'/>\n      <source file='"@
        + disk
        + "'/>\n      <target dev='vda' bus='virtio'/>\n    </disk>\n    <interface type='network'>\n      <source network='"@
        + network
        + "'/>\n      <model type='virtio'/>\n    </interface>\n    <serial type='file'>\n      <source path='"@
        + serial_log
        + "'/>\n      <target type='isa-serial' port='0'/>\n    </serial>\n    <console type='file'>\n      <source path='"@
        + serial_log
        + "'/>\n      <target type='serial' port='0'/>\n    </console>\n    <graphics type='none'/>"@
        + hostdev_section(hostdev_lines(devs)) + "\n  </devices>\n</domain>"@
}

fn collect_hostdevs(devs: &[VfioPassthrough], cold_only: bool) -> (r: Vec<String>)
    ensures
        cold_only ==> views(r@) == cold_hostdev_lines(devs@),
        !cold_only ==> views(r@) == hostdev_lines(devs@),
{
    let mut out: Vec<String> = Vec::new();
    let mut i: usize = 0;
    while i < devs.len()
        invariant
            i <= devs.len(),
            cold_only ==> views(out@) == cold_hostdev_lines(devs@.take(i as int)),
            !cold_only ==> views(out@) == hostdev_lines(devs@.take(i as int)),
        decreases devs.len() - i,
    {
        proof {
            assert(devs@.take(i + 1).drop_last() =~= devs@.take(i as int));
            assert(devs@.take(i + 1).last() == devs@[i as int]);
        }
        let d = &devs[i];
        let take = !cold_only || d.attach_mode == AttachMode::Cold;
        if take {
            match d.to_libvirt_xml() {
                Some(x) => {
                    let ghost before = views(out@);
                    out.push(x);
                    proof {
                        assert(views(out@) =~= before.push(x@));
                    }
                },
                None => {},
            }
        }
        i = i + 1;
    }
    proof {
        assert(devs@.take(devs@.len() as int) =~= devs@);
    }
    out
}

fn push_hostdev_section(s: &mut String, lines: &Vec<String>)
    ensures
        final(s)@ == old(s)@ + hostdev_section(views(lines@)),
{
    let j = join_strings(lines, "\n");
    if j.as_str().is_empty() {
        proof {
            assert(old(s)@ + Seq::<char>::empty() =~= old(s)@);
        }
    } else {
        push_str(s, "\n");
        push_str(s, j.as_str());
        proof {
            assert(old(s)@ + "\n"@ + j@ =~= old(s)@ + ("\n"@ + j@));
        }
    }
}

/// The domain XML of a headless VM with optional PCI passthrough devices;
/// devices whose address is not well formed are left out.
pub fn generate_domain_xml_with_pci(
    name: &str,
    disk_path: &str,
    memory_mb: u32,
    vcpus: u32,
    network: &str,
    serial_log: &str,
    pci_devices: &[VfioPassthrough],
) -> (r: String)
    ensures
        r@ == domain_xml(name@, disk_path@, memory_mb, vcpus, network@, serial_log@, pci_devices@),
{
    let lines = collect_hostdevs(pci_devices, false);
    let mut s = owned("<domain type='kvm'>\n  <name>");
    push_str(&mut s, name);
    push_str(&mut s, "</name>\n  <memory unit='MiB'>");
    push_decimal(&mut s, memory_mb as u64);
    push_str(&mut s, "</memory>\n  <vcpu>");
    push_decimal(&mut s, vcpus as u64);
    push_str(&mut s, os_block_str());
    push_str(
        &mut s,
        "    <disk type='file' device='disk'>\n      <driver name='qemu' type='qcow2'/>\n      <source file='",
    );
    push_str(&mut s, disk_path);
    push_str(
        &mut s,
        "'/>\n      <target dev='vda' bus='virtio'/>\n    </disk>\n    <interface type='network'>\n      <source network='",
    );
    push_str(&mut s, network);
    push_str(
        &mut s,
        "'/>\n      <model type='virtio'/>\n    </interface>\n    <serial type='file'>\n      <source path='",
    );
    push_str(&mut s, serial_log);
    push_str(
        &mut s,
        "'/>\n      <target type='isa-serial' port='0'/>\n    </serial>\n    <console type='file'>\n      <source path='",
    );
    push_str(&mut s, serial_log);
    push_str(
        &mut s,
        "'/>\n      <target type='serial' port='0'/>\n    </console>\n    <graphics type='none'/>",
    );
    push_hostdev_section(&mut s, &lines);
    push_str(&mut s, "\n  </devices>\n</domain>");
    s
}

/// The domain XML of a headless VM without host devices.
pub fn generate_domain_xml(
    name: &str,
    disk_path: &str,
    memory_mb: u32,
    vcpus: u32,
    network: &str,
    serial_log: &str,
) -> (r: String)
    ensures
        r@ == domain_xml(name@, disk_path@, memory_mb, vcpus, network@, serial_log@, Seq::empty()),
{
    let none: Vec<VfioPassthrough> = Vec::new();
    generate_domain_xml_with_pci(name, disk_path, memory_mb, vcpus, network, serial_log, none.as_slice())
}


/// What a desktop VM's domain XML is made from.
pub struct DesktopDomainConfig<'a> {
    /// VM name.
    pub name: &'a str,
    /// The primary qcow2 disk image.
    pub disk_path: &'a str,
    /// A cloud-init ISO to attach as CD-ROM.
    pub cdrom_path: Option<&'a str>,
    /// Memory in MiB.
    pub memory_mb: u32,
    /// Number of virtual CPUs.
    pub vcpus: u32,
    /// Libvirt network name.
    pub network: &'a str,
    /// MAC address of the network interface.
    pub mac_address: Option<&'a str>,
    /// PCI devices for passthrough; only cold-attached ones enter the XML.
    pub pci_devices: &'a [VfioPassthrough],
    /// QEMU emulator binary (default `/usr/bin/qemu-system-x86_64`).
    pub emulator: Option<&'a str>,
}

/// The CD-ROM element for a cloud-init ISO.
pub open spec fn cdrom_xml(path: Option<&str>) -> Seq<char> {
    match path {
        Some(p) => "\n    <disk type='file' device='cdrom'>\n      <driver name='qemu' type='raw'/>\n      <source file='"@
            + p@ + "'/>\n      <target dev='sda' bus='sata'/>\n      <readonly/>\n    </disk>"@,
        None => Seq::empty(),
    }
}

/// The MAC element of the network interface.
pub open spec fn mac_xml(mac: Option<&str>) -> Seq<char> {
    match mac {
        Some(m) => "\n      <mac address='"@ + m@ + "'/>"@,
        None => Seq::empty(),
    }
}

/// The QEMU namespace attribute, present exactly when there are arguments.
pub open spec fn qemu_xmlns(args: Seq<Seq<char>>) -> Seq<char> {
    if args.len() == 0 {
        Seq::empty()
    } else {
        " xmlns:qemu='http://libvirt.org/schemas/domain/qemu/1.0'"@
    }
}

/// The `<qemu:commandline>` block holding the arguments, if any.
pub open spec fn qemu_commandline(args: Seq<Seq<char>>) -> Seq<char> {
    if args.len() == 0 {
        Seq::empty()
    } else {
        "\n<qemu:commandline>\n"@ + join(args, "\n"@) + "\n</qemu:commandline>"@
    }
}

/// The emulator binary: the configured one, else the system QEMU.
pub open spec fn emulator_of(e: Option<&str>) -> Seq<char> {
    match e {
        Some(p) => p@,
        None => "/usr/bin/qemu-system-x86_64"@,
    }
}

/// The domain XML of a desktop VM: VNC graphics on all addresses, a
/// virtio video card, the optional CD-ROM and MAC address, the
/// cold-attached host devices, and the QEMU properties of those devices
/// passed as `-set device.hostdevN.key=value`.
pub open spec fn desktop_domain_xml(c: DesktopDomainConfig) -> Seq<char> {
    let args = qemu_arg_lines(c.pci_devices@);
    "<domain type='kvm'"@ + qemu_xmlns(args) + ">\n  <name>"@ + c.name@
        + "</name>\n  <memory unit='MiB'>"@ + decimal(c.memory_mb as nat) + "</memory>\n  <vcpu>"@
        + decimal(c.vcpus as nat) + os_block() + "    <emulator>"@ + emulator_of(c.emulator)
        + "</emulator>\n    <disk type='file' device='disk'>\n      <driver name='qemu' type='qcow2'/>\n      <source file='"@
        + c.disk_path@ + "'/>\n      <target dev='vda' bus='virtio'/>\n    </disk>"@ + cdrom_xml(
        c.cdrom_path,
    ) + "\n    <interface type='network'>\n      <source network='"@ + c.network@ + "'/>"@
        + mac_xml(c.mac_address)
        + "\n      <model type='virtio'/>\n    </interface>\n    <graphics type='vnc' port='-1' autoport='yes' listen='0.0.0.0'/>\n    <video>\n      <model type='virtio'/>\n    </video>"@
        + hostdev_section(cold_hostdev_lines(c.pci_devices@)) + "\n  </devices>"@
        + qemu_commandline(args) + "\n</domain>"@
}

fn qemu_arg_string(idx: u64, key: &str, value: &str) -> (r: String)
    ensures
        r@ == qemu_arg(idx as nat, key@, value@),
{
    let mut s = owned("  <qemu:arg value='-set'/>\n  <qemu:arg value='device.hostdev");
    push_decimal(&mut s, idx);
    push_str(&mut s, ".");
    push_str(&mut s, key);
    push_str(&mut s, "=");
    push_str(&mut s, value);
    push_str(&mut s, "'/>");
    s
}

proof fn lemma_cold_count_bound(devs: Seq<VfioPassthrough>)
    ensures
        cold_count(devs) <= devs.len(),
    decreases devs.len(),
{
    if devs.len() > 0 {
        lemma_cold_count_bound(devs.drop_last());
    }
}

fn collect_qemu_args(devs: &[VfioPassthrough]) -> (r: Vec<String>)
    ensures
        views(r@) == qemu_arg_lines(devs@),
{
    let mut out: Vec<String> = Vec::new();
    let mut cold: u64 = 0;
    let mut i: usize = 0;
    while i < devs.len()
        invariant
            i <= devs.len(),
            views(out@) == qemu_arg_lines(devs@.take(i as int)),
            cold as nat == cold_count(devs@.take(i as int)),
        decreases devs.len() - i,
    {
        proof {
            assert(devs@.take(i + 1).drop_last() =~= devs@.take(i as int));
            assert(devs@.take(i + 1).last() == devs@[i as int]);
            lemma_cold_count_bound(devs@.take(i as int));
        }
        let d = &devs[i];
        if d.attach_mode == AttachMode::Cold {
            let ghost before = views(out@);
            let props = &d.qemu_properties;
            let mut j: usize = 0;
            while j < props.len()
                invariant
                    j <= props.len(),
                    views(out@) == before + device_qemu_args(cold as nat, props@.take(j as int)),
                decreases props.len() - j,
            {
                let a = qemu_arg_string(cold, props[j].0.as_str(), props[j].1.as_str());
                let ghost mid = views(out@);
                out.push(a);
                proof {
                    assert(views(out@) =~= mid.push(a@));
                    assert(device_qemu_args(cold as nat, props@.take(j + 1)) =~= device_qemu_args(
                        cold as nat,
                        props@.take(j as int),
                    ).push(qemu_arg(cold as nat, props@[j as int].0@, props@[j as int].1@)));
                    assert(views(out@) =~= before + device_qemu_args(
                        cold as nat,
                        props@.take(j + 1),
                    ));
                }
                j = j + 1;
            }
            proof {
                assert(props@.take(props@.len() as int) =~= props@);
            }
            cold = cold + 1;
        }
        i = i + 1;
    }
    proof {
        assert(devs@.take(devs@.len() as int) =~= devs@);
    }
    out
}

/// The domain XML of a desktop VM with VNC graphics; devices attached
/// after boot are left out of it.
pub fn generate_desktop_domain_xml(config: &DesktopDomainConfig) -> (r: String)
    ensures
        r@ == desktop_domain_xml(*config),
{
    let hostdevs = collect_hostdevs(config.pci_devices, true);
    let args = collect_qemu_args(config.pci_devices);
    let ghost argv = views(args@);
    let mut s = owned("<domain type='kvm'");
    if args.len() > 0 {
        push_str(&mut s, " xmlns:qemu='http://libvirt.org/schemas/domain/qemu/1.0'");
    } else {
        proof {
            assert(s@ + Seq::<char>::empty() =~= s@);
        }
    }
    push_str(&mut s, ">\n  <name>");
    push_str(&mut s, config.name);
    push_str(&mut s, "</name>\n  <memory unit='MiB'>");
    push_decimal(&mut s, config.memory_mb as u64);
    push_str(&mut s, "</memory>\n  <vcpu>");
    push_decimal(&mut s, config.vcpus as u64);
    push_str(&mut s, os_block_str());
    push_str(&mut s, "    <emulator>");
    match config.emulator {
        Some(e) => push_str(&mut s, e),
        None => push_str(&mut s, "/usr/bin/qemu-system-x86_64"),
    }
    push_str(
        &mut s,
        "</emulator>\n    <disk type='file' device='disk'>\n      <driver name='qemu' type='qcow2'/>\n      <source file='",
    );
    push_str(&mut s, config.disk_path);
    push_str(&mut s, "'/>\n      <target dev='vda' bus='virtio'/>\n    </disk>");
    match config.cdrom_path {
        Some(p) => {
            let ghost before = s@;
            push_str(
                &mut s,
                "\n    <disk type='file' device='cdrom'>\n      <driver name='qemu' type='raw'/>\n      <source file='",
            );
            push_str(&mut s, p);
            push_str(&mut s, "'/>\n      <target dev='sda' bus='sata'/>\n      <readonly/>\n    </disk>");
            proof {
                assert(s@ =~= before + cdrom_xml(config.cdrom_path));
            }
        },
        None => {
            proof {
                assert(s@ + Seq::<char>::empty() =~= s@);
            }
        },
    }
    push_str(&mut s, "\n    <interface type='network'>\n      <source network='");
    push_str(&mut s, config.network);
    push_str(&mut s, "'/>");
    match config.mac_address {
        Some(m) => {
            let ghost before = s@;
            push_str(&mut s, "\n      <mac address='");
            push_str(&mut s, m);
            push_str(&mut s, "'/>");
            proof {
                assert(s@ =~= before + mac_xml(config.mac_address));
            }
        },
        None => {
            proof {
                assert(s@ + Seq::<char>::empty() =~= s@);
            }
        },
    }
    push_str(
        &mut s,
        "\n      <model type='virtio'/>\n    </interface>\n    <graphics type='vnc' port='-1' autoport='yes' listen='0.0.0.0'/>\n    <video>\n      <model type='virtio'/>\n    </video>",
    );
    push_hostdev_section(&mut s, &hostdevs);
    push_str(&mut s, "\n  </devices>");
    if args.len() > 0 {
        let ghost before = s@;
        push_str(&mut s, "\n<qemu:commandline>\n");
        let j = join_strings(&args, "\n");
        push_str(&mut s, j.as_str());
        push_str(&mut s, "\n</qemu:commandline>");
        proof {
            assert(s@ =~= before + qemu_commandline(argv));
        }
    } else {
        proof {
            assert(s@ + Seq::<char>::empty() =~= s@);
        }
    }
    push_str(&mut s, "\n</domain>");
    s
}

} // verus!
