//! PCI devices for VFIO passthrough: addresses, reset support and the
//! libvirt `<hostdev>` element that attaches one to a domain.
use vstd::prelude::*;
use crate::config_legacy::PciPassthroughDevice;
use crate::error::Error;
use crate::text::{
    chars_of, copy_range, decimal, hex_padded, owned, parse_hex, parse_hex_chars, push_decimal,
    push_hex_padded, push_str, split_chars, split_on, str_eq, seqs_of, string_from_chars, trim,
    trim_chars, words_chars, words_of, parse_unsigned, parse_unsigned_chars,
};

verus! {

/// A PCI device on the host.
#[derive(Debug, Clone, PartialEq, Eq)]
pub struct PciDevice {
    /// Bus/device/function in `DDDD:BB:SS.F` form.
    pub bdf: String,
    /// IOMMU group number.
    pub iommu_group: Option<u32>,
    /// PCI vendor ID (e.g. 0x10de for NVIDIA).
    pub vendor_id: u16,
    /// PCI device ID.
    pub device_id: u16,
    /// Currently bound driver, if any.
    pub driver: Option<String>,
    /// Reset methods the device supports.
    pub reset_methods: Vec<String>,
}

/// The (domain, bus, slot, function) numbers of a `DDDD:BB:SS.F` address:
/// three `:`-separated hex fields, the last of which is two `.`-separated
/// hex fields, each within its type's range.
pub open spec fn bdf_fields(bdf: Seq<char>) -> Option<(u16, u8, u8, u8)> {
    let parts = split_on(bdf, ':');
    if parts.len() != 3 {
        None
    } else {
        let sf = split_on(parts[2], '.');
        if sf.len() != 2 {
            None
        } else {
            match (
                parse_hex(parts[0], 0xffff),
                parse_hex(parts[1], 0xff),
                parse_hex(sf[0], 0xff),
                parse_hex(sf[1], 0xff),
            ) {
                (Some(d), Some(b), Some(s), Some(f)) => Some((d as u16, b as u8, s as u8, f as u8)),
                _ => None,
            }
        }
    }
}

/// The device lists a reset method that resets the function alone.
pub open spec fn has_flr(methods: Seq<String>) -> bool {
    exists|i: int| 0 <= i < methods.len() && (#[trigger] methods[i]@ == "flr"@ || methods[i]@ == "pm"@)
}

/// The one-line description of a device: address, `[vendor:device]` in
/// four-digit hex, driver and IOMMU group.
pub open spec fn pci_display(d: PciDevice) -> Seq<char> {
    d.bdf@ + " ["@ + hex_padded(d.vendor_id as nat, 4) + ":"@ + hex_padded(d.device_id as nat, 4)
        + "] driver="@ + (match d.driver {
        Some(s) => s@,
        None => "(none)"@,
    }) + " iommu="@ + (match d.iommu_group {
        Some(g) => decimal(g as nat),
        None => "(unknown)"@,
    })
}

fn any_flr(methods: &Vec<String>) -> (r: bool)
    ensures
        r == has_flr(methods@),
{
    let mut i: usize = 0;
    while i < methods.len()
        invariant
            i <= methods.len(),
            forall|j: int| 0 <= j < i ==> !(#[trigger] methods@[j]@ == "flr"@ || methods@[j]@ == "pm"@),
        decreases methods.len() - i,
    {
        if str_eq(methods[i].as_str(), "flr") || str_eq(methods[i].as_str(), "pm") {
            return true;
        }
        i = i + 1;
    }
    false
}

impl PciDevice {
    /// The device's directory under `/sys/bus/pci/devices`.
    pub fn sysfs_path(&self) -> (r: String)
        ensures
            r@ == "/sys/bus/pci/devices/"@ + self.bdf@,
    {
        let mut s = owned("/sys/bus/pci/devices/");
        push_str(&mut s, self.bdf.as_str());
        s
    }

    /// The (domain, bus, slot, function) numbers of the address, when it
    /// is well formed.
    pub fn parse_bdf(&self) -> (r: Option<(u16, u8, u8, u8)>)
        ensures
            r == bdf_fields(self.bdf@),
    {
        let cs = chars_of(self.bdf.as_str());
        let parts = split_chars(cs.as_slice(), ':');
        proof {
            assert(seqs_of(parts@).len() == parts@.len());
        }
        if parts.len() != 3 {
            return None;
        }
        let sf = split_chars(parts[2].as_slice(), '.');
        proof {
            assert(seqs_of(parts@)[2] == parts@[2]@);
            assert(seqs_of(sf@).len() == sf@.len());
        }
        if sf.len() != 2 {
            return None;
        }
        proof {
            assert(seqs_of(parts@)[0] == parts@[0]@);
            assert(seqs_of(parts@)[1] == parts@[1]@);
            assert(seqs_of(sf@)[0] == sf@[0]@);
            assert(seqs_of(sf@)[1] == sf@[1]@);
        }
        let d = parse_hex_chars(parts[0].as_slice(), 0xffff);
        let b = parse_hex_chars(parts[1].as_slice(), 0xff);
        let s = parse_hex_chars(sf[0].as_slice(), 0xff);
        let f = parse_hex_chars(sf[1].as_slice(), 0xff);
        match (d, b, s, f) {
            (Some(d), Some(b), Some(s), Some(f)) => Some((d as u16, b as u8, s as u8, f as u8)),
            _ => None,
        }
    }

    /// Whether the device can be reset on its own (`flr` or `pm` listed
    /// among its reset methods).
    pub fn supports_flr(&self) -> (r: bool)
        ensures
            r == has_flr(self.reset_methods@),
    {
        any_flr(&self.reset_methods)
    }

    /// The one-line description of the device.
    pub fn display_string(&self) -> (r: String)
        ensures
            r@ == pci_display(*self),
    {
        let mut s = owned(self.bdf.as_str());
        push_str(&mut s, " [");
        push_hex_padded(&mut s, self.vendor_id as u64, 4);
        push_str(&mut s, ":");
        push_hex_padded(&mut s, self.device_id as u64, 4);
        push_str(&mut s, "] driver=");
        match &self.driver {
            Some(d) => push_str(&mut s, d.as_str()),
            None => push_str(&mut s, "(none)"),
        }
        push_str(&mut s, " iommu=");
        match self.iommu_group {
            Some(g) => push_decimal(&mut s, g as u64),
            None => push_str(&mut s, "(unknown)"),
        }
        s
    }
}

/// Operations on a host's PCI devices for VFIO passthrough.
pub trait GpuLifecycle {
    /// Binds a device to the `vfio-pci` driver.
    fn bind_vfio(&self, device: &PciDevice) -> Result<(), Error>;

    /// Unbinds a device from `vfio-pci`, letting its own driver re-probe.
    fn unbind_vfio(&self, device: &PciDevice) -> Result<(), Error>;

    /// Sets a device's driver override.
    fn set_driver_override(&self, device: &PciDevice, driver: &str) -> Result<(), Error>;

    /// The IOMMU group of the device at `bdf`.
    fn discover_iommu_group(&self, bdf: &str) -> Result<u32, Error>;

    /// The devices of an IOMMU group.
    fn group_devices(&self, iommu_group: u32) -> Result<Vec<PciDevice>, Error>;

    /// Whether the device supports a function-level reset.
    fn supports_flr(&self, device: &PciDevice) -> (r: bool)
        ensures
            r == has_flr(device.reset_methods@),
    {
        device.supports_flr()
    }

    /// Reads a device's identity and state from the host.
    fn probe_device(&self, bdf: &str) -> Result<PciDevice, Error>;
}

/// One write to a sysfs attribute.
#[derive(Debug, Clone, PartialEq, Eq)]
pub struct SysfsWrite {
    /// The attribute's path.
    pub path: String,
    /// What is written to it.
    pub value: String,
    /// The write is skipped when the attribute does not exist.
    pub only_if_present: bool,
}

/// A write as plain values: path, value, and whether it is skipped when
/// the attribute is absent.
pub open spec fn write_view(w: SysfsWrite) -> (Seq<char>, Seq<char>, bool) {
    (w.path@, w.value@, w.only_if_present)
}

/// Setting a device's `driver_override` attribute.
pub open spec fn override_write(d: PciDevice, driver: Seq<char>) -> (Seq<char>, Seq<char>, bool) {
    ("/sys/bus/pci/devices/"@ + d.bdf@ + "/driver_override"@, driver, false)
}

/// Asking the kernel to probe drivers for a device.
pub open spec fn probe_write(d: PciDevice) -> (Seq<char>, Seq<char>, bool) {
    ("/sys/bus/pci/drivers_probe"@, d.bdf@, false)
}

/// The writes that bind a device to `vfio-pci`: none when it is bound there
/// already; else an unbind from its current driver (where it has one and
/// that driver's `unbind` exists), the override, and a probe.
pub open spec fn bind_writes(d: PciDevice) -> Seq<(Seq<char>, Seq<char>, bool)> {
    match d.driver {
        Some(drv) => if drv@ == "vfio-pci"@ {
            Seq::empty()
        } else {
            seq![
                ("/sys/bus/pci/drivers/"@ + drv@ + "/unbind"@, d.bdf@, true),
                override_write(d, "vfio-pci"@),
                probe_write(d),
            ]
        },
        None => seq![override_write(d, "vfio-pci"@), probe_write(d)],
    }
}

/// The writes that hand a device back to its own driver: an unbind from
/// `vfio-pci` (where that `unbind` exists), an empty override, and a probe.
pub open spec fn unbind_writes(d: PciDevice) -> Seq<(Seq<char>, Seq<char>, bool)> {
    seq![
        ("/sys/bus/pci/drivers/vfio-pci/unbind"@, d.bdf@, true),
        override_write(d, ""@),
        probe_write(d),
    ]
}

/// [`GpuLifecycle`] on the host's sysfs: what it writes and where it looks.
#[derive(Debug, Clone, Copy, PartialEq, Eq, Structural)]
pub struct SysfsGpuLifecycle;

impl SysfsGpuLifecycle {
    /// The write that sets `device`'s driver override to `driver`.
    pub fn driver_override_write(&self, device: &PciDevice, driver: &str) -> (r: SysfsWrite)
        ensures
            write_view(r) == override_write(*device, driver@),
    {
        let mut path = device.sysfs_path();
        push_str(&mut path, "/driver_override");
        SysfsWrite { path, value: owned(driver), only_if_present: false }
    }

    fn probe_write(&self, device: &PciDevice) -> (r: SysfsWrite)
        ensures
            write_view(r) == probe_write(*device),
    {
        SysfsWrite {
            path: owned("/sys/bus/pci/drivers_probe"),
            value: owned(device.bdf.as_str()),
            only_if_present: false,
        }
    }

    /// The writes, in order, that bind `device` to `vfio-pci`.
    pub fn bind_vfio_writes(&self, device: &PciDevice) -> (r: Vec<SysfsWrite>)
        ensures
            r@.map_values(|w: SysfsWrite| write_view(w)) == bind_writes(*device),
    {
        let mut r: Vec<SysfsWrite> = Vec::new();
        match &device.driver {
            Some(drv) => {
                if str_eq(drv.as_str(), "vfio-pci") {
                    proof {
                        assert(r@.map_values(|w: SysfsWrite| write_view(w)) =~= bind_writes(*device));
                    }
                    return r;
                }
                let mut path = owned("/sys/bus/pci/drivers/");
                push_str(&mut path, drv.as_str());
                push_str(&mut path, "/unbind");
                r.push(SysfsWrite { path, value: owned(device.bdf.as_str()), only_if_present: true });
            },
            None => {},
        }
        r.push(self.driver_override_write(device, "vfio-pci"));
        r.push(self.probe_write(device));
        proof {
            assert(r@.map_values(|w: SysfsWrite| write_view(w)) =~= bind_writes(*device));
        }
        r
    }

    /// The writes, in order, that unbind `device` from `vfio-pci`.
    pub fn unbind_vfio_writes(&self, device: &PciDevice) -> (r: Vec<SysfsWrite>)
        ensures
            r@.map_values(|w: SysfsWrite| write_view(w)) == unbind_writes(*device),
    {
        let mut r: Vec<SysfsWrite> = Vec::new();
        r.push(SysfsWrite {
            path: owned("/sys/bus/pci/drivers/vfio-pci/unbind"),
            value: owned(device.bdf.as_str()),
            only_if_present: true,
        });
        r.push(self.driver_override_write(device, ""));
        r.push(self.probe_write(device));
        proof {
            assert(r@.map_values(|w: SysfsWrite| write_view(w)) =~= unbind_writes(*device));
        }
        r
    }

    /// The `iommu_group` link of the device at `bdf`.
    pub fn iommu_group_link(&self, bdf: &str) -> (r: String)
        ensures
            r@ == "/sys/bus/pci/devices/"@ + bdf@ + "/iommu_group"@,
    {
        let mut s = owned("/sys/bus/pci/devices/");
        push_str(&mut s, bdf);
        push_str(&mut s, "/iommu_group");
        s
    }

    /// The directory listing the devices of an IOMMU group.
    pub fn group_devices_dir(&self, iommu_group: u32) -> (r: String)
        ensures
            r@ == "/sys/kernel/iommu_groups/"@ + decimal(iommu_group as nat) + "/devices"@,
    {
        let mut s = owned("/sys/kernel/iommu_groups/");
        push_decimal(&mut s, iommu_group as u64);
        push_str(&mut s, "/devices");
        s
    }
}

/// How a PCI device is attached to a VM.
#[derive(Debug, Clone, Copy, PartialEq, Eq, Structural)]
pub enum AttachMode {
    /// `<hostdev>` in the domain XML before boot.
    Cold,
    /// Attached after boot with `managed='yes'`: libvirt binds the driver.
    HotManaged,
    /// Attached after boot with `managed='no'`: no reset on detach.
    HotUnmanaged,
}

impl Default for AttachMode {
    fn default() -> (r: Self)
        ensures
            r == AttachMode::Cold,
    {
        AttachMode::Cold
    }
}

/// VFIO passthrough settings for one PCI device.
#[derive(Debug, Clone, PartialEq, Eq)]
pub struct VfioPassthrough {
    /// The device.
    pub device: PciDevice,
    /// Whether libvirt manages the driver binding (`managed='yes'`).
    pub managed: bool,
    /// Whether the ROM BAR stays enabled.
    pub rom_bar: bool,
    /// How the device is attached.
    pub attach_mode: AttachMode,
    /// QEMU device properties as (key, value) pairs, each key at most once.
    pub qemu_properties: Vec<(String, String)>,
}

/// No key occurs twice among the properties.
pub open spec fn distinct_keys(props: Seq<(String, String)>) -> bool {
    forall|i: int, j: int| 0 <= i < j < props.len() ==> #[trigger] props[i].0@ != #[trigger] props[j].0@
}

/// The `<hostdev>` element for a passthrough device, when its address is
/// well formed.
pub open spec fn hostdev_xml(d: VfioPassthrough) -> Option<Seq<char>> {
    match bdf_fields(d.device.bdf@) {
        None => None,
        Some(f) => Some(
            "    <hostdev mode='subsystem' type='pci' managed='"@ + (if d.managed {
                "yes"@
            } else {
                "no"@
            }) + "'>\n      <source>\n        <address domain='0x"@ + hex_padded(f.0 as nat, 4)
                + "' bus='0x"@ + hex_padded(f.1 as nat, 2) + "' slot='0x"@ + hex_padded(
                f.2 as nat,
                2,
            ) + "' function='0x"@ + hex_padded(f.3 as nat, 0) + "'/>\n      </source>"@ + (if d.rom_bar {
                ""@
            } else {
                "\n      <rom bar='off'/>"@
            }) + "\n    </hostdev>"@,
        ),
    }
}

/// The passthrough settings a legacy device entry stands for: a device
/// that must not be reset is attached after boot, unmanaged.
pub open spec fn from_legacy_spec(legacy: PciPassthroughDevice, r: VfioPassthrough) -> bool {
    &&& r.device.bdf@ == legacy.bdf@
    &&& r.device.iommu_group is None
    &&& r.device.vendor_id == 0
    &&& r.device.device_id == 0
    &&& r.device.driver is None
    &&& r.device.reset_methods@.len() == 0
    &&& r.managed == !legacy.no_flr
    &&& r.rom_bar
    &&& r.attach_mode == (if legacy.no_flr {
        AttachMode::HotUnmanaged
    } else {
        AttachMode::Cold
    })
    &&& r.qemu_properties@.len() == 0
}

impl VfioPassthrough {
    /// The libvirt `<hostdev>` element for this device, or `None` when its
    /// address is not well formed.
    pub fn to_libvirt_xml(&self) -> (r: Option<String>)
        ensures
            match hostdev_xml(*self) {
                Some(x) => r matches Some(s) && s@ == x,
                None => r is None,
            },
    {
        let f = match self.device.parse_bdf() {
            Some(f) => f,
            None => return None,
        };
        let managed = if self.managed {
            "yes"
        } else {
            "no"
        };
        let rom = if self.rom_bar {
            ""
        } else {
            "\n      <rom bar='off'/>"
        };
        let mut s = owned("    <hostdev mode='subsystem' type='pci' managed='");
        push_str(&mut s, managed);
        push_str(&mut s, "'>\n      <source>\n        <address domain='0x");
        push_hex_padded(&mut s, f.0 as u64, 4);
        push_str(&mut s, "' bus='0x");
        push_hex_padded(&mut s, f.1 as u64, 2);
        push_str(&mut s, "' slot='0x");
        push_hex_padded(&mut s, f.2 as u64, 2);
        push_str(&mut s, "' function='0x");
        push_hex_padded(&mut s, f.3 as u64, 0);
        push_str(&mut s, "'/>\n      </source>");
        push_str(&mut s, rom);
        push_str(&mut s, "\n    </hostdev>");
        Some(s)
    }

    /// The passthrough settings for a legacy device entry.
    pub fn from_legacy(legacy: &PciPassthroughDevice) -> (r: Self)
        ensures
            from_legacy_spec(*legacy, r),
            distinct_keys(r.qemu_properties@),
    {
        let attach_mode = if legacy.no_flr {
            AttachMode::HotUnmanaged
        } else {
            AttachMode::Cold
        };
        VfioPassthrough {
            device: PciDevice {
                bdf: legacy.bdf.clone(),
                iommu_group: None,
                vendor_id: 0,
                device_id: 0,
                driver: None,
                reset_methods: Vec::new(),
            },
            managed: !legacy.no_flr,
            rom_bar: true,
            attach_mode,
            qemu_properties: Vec::new(),
        }
    }
}


/// A sysfs value without its leading `0x` prefixes
/// (`trim_start_matches("0x")`).
pub open spec fn strip_hex_prefixes(s: Seq<char>) -> Seq<char>
    decreases s.len(),
{
    if s.len() >= 2 && s[0] == '0' && s[1] == 'x' {
        strip_hex_prefixes(s.skip(2))
    } else {
        s
    }
}

/// The text of the error `u16::from_str_radix(_, 16)` reports for a text
/// it rejects.
pub uninterp spec fn hex_u16_error_text(text: Seq<char>) -> Seq<char>;

/// The message of the error `u16::from_str_radix(text, 16)` reports.
///
/// Trusted: the message depends on the text alone, named by
/// [`hex_u16_error_text`]; it is only asked for a rejected text.
#[verifier::external_body]
fn hex_u16_error(text: &str) -> (r: String)
    ensures
        r@ == hex_u16_error_text(text@),
{
    match u16::from_str_radix(text, 16) {
        Err(e) => e.to_string(),
        Ok(_) => String::new(),
    }
}

fn strip_prefixes(cs: &Vec<char>) -> (r: Vec<char>)
    ensures
        r@ == strip_hex_prefixes(cs@),
{
    let mut i: usize = 0;
    proof {
        assert(cs@.skip(0) =~= cs@);
    }
    while 2 <= cs.len() - i && cs[i] == '0' && cs[i + 1] == 'x'
        invariant
            i <= cs.len(),
            strip_hex_prefixes(cs@.skip(i as int)) == strip_hex_prefixes(cs@),
        decreases cs.len() - i,
    {
        proof {
            assert(cs@.skip(i as int).skip(2) =~= cs@.skip(i + 2));
        }
        i = i + 2;
    }
    proof {
        assert(cs@.subrange(i as int, cs@.len() as int) =~= cs@.skip(i as int));
    }
    copy_range(cs.as_slice(), i, cs.len())
}

/// Reads a vendor or device id from its sysfs file's content: the trimmed
/// text without `0x`, read as hexadecimal; a text that does not read gives
/// an error naming the file.
pub fn sysfs_hex_id(path: &str, content: &str) -> (r: Result<u16, Error>)
    ensures
        ({
            let body = strip_hex_prefixes(trim(content@));
            match parse_hex(body, 0xffff) {
                Some(v) => r == Ok::<u16, Error>(v as u16),
                None => r matches Err(Error::Backend(m)) && m@ == "Invalid hex in "@ + path@ + ": "@
                    + hex_u16_error_text(body),
            }
        }),
{
    let cs = chars_of(content);
    let t = trim_chars(cs.as_slice());
    let body = strip_prefixes(&t);
    match parse_hex_chars(body.as_slice(), 0xffff) {
        Some(v) => Ok(v as u16),
        None => {
            let text = string_from_chars(body.as_slice());
            let mut m = owned("Invalid hex in ");
            push_str(&mut m, path);
            push_str(&mut m, ": ");
            let reason = hex_u16_error(text.as_str());
            push_str(&mut m, reason.as_str());
            Err(Error::Backend(m))
        },
    }
}

/// The reset methods a device lists in its `reset_method` file: the
/// whitespace-separated words.
pub fn reset_methods_from(content: &str) -> (r: Vec<String>)
    ensures
        r@.len() == words_of(content@).len(),
        forall|i: int| 0 <= i < r@.len() ==> #[trigger] r@[i]@ == words_of(content@)[i],
{
    let cs = chars_of(content);
    let ws = words_chars(cs.as_slice());
    let mut out: Vec<String> = Vec::new();
    let mut i: usize = 0;
    while i < ws.len()
        invariant
            i <= ws.len(),
            seqs_of(ws@) == words_of(content@),
            cs@ == content@,
            out@.len() == i,
            forall|k: int| 0 <= k < i ==> #[trigger] out@[k]@ == words_of(content@)[k],
        decreases ws.len() - i,
    {
        out.push(string_from_chars(ws[i].as_slice()));
        proof {
            assert(seqs_of(ws@)[i as int] == ws@[i as int]@);
        }
        i = i + 1;
    }
    out
}

/// The error for a device that sysfs does not list.
pub fn device_not_found_error(bdf: &str) -> (r: Error)
    ensures
        r matches Error::Backend(m) && m@ == "PCI device "@ + bdf@ + " not found in sysfs"@,
{
    let mut m = owned("PCI device ");
    push_str(&mut m, bdf);
    push_str(&mut m, " not found in sysfs");
    Error::Backend(m)
}

/// The text of the error `str::parse::<u32>` reports for a text it
/// rejects.
pub uninterp spec fn u32_parse_error_text(text: Seq<char>) -> Seq<char>;

/// The message of the error `str::parse::<u32>` reports.
///
/// Trusted: the message depends on the text alone, named by
/// [`u32_parse_error_text`]; it is only asked for a rejected text.
#[verifier::external_body]
fn u32_parse_error(text: &str) -> (r: String)
    ensures
        r@ == u32_parse_error_text(text@),
{
    match text.parse::<u32>() {
        Err(e) => e.to_string(),
        Ok(_) => String::new(),
    }
}

/// The IOMMU group of a device from the last component of its
/// `iommu_group` link (`None` when that is not text).
pub fn iommu_group_from(bdf: &str, link_name: Option<&str>) -> (r: Result<u32, Error>)
    ensures
        match link_name {
            None => r matches Err(Error::Backend(m)) && m@ == "Invalid IOMMU group path for "@ + bdf@,
            Some(n) => match parse_unsigned(n@, u32::MAX as nat) {
                Some(v) => r == Ok::<u32, Error>(v as u32),
                None => r matches Err(Error::Backend(m)) && m@ == "Invalid IOMMU group number for "@ + bdf@
                    + ": "@ + u32_parse_error_text(n@),
            },
        },
{
    match link_name {
        None => {
            let mut m = owned("Invalid IOMMU group path for ");
            push_str(&mut m, bdf);
            Err(Error::Backend(m))
        },
        Some(n) => {
            let cs = chars_of(n);
            match parse_unsigned_chars(cs.as_slice(), u32::MAX as u64) {
                Some(v) => Ok(v as u32),
                None => {
                    let mut m = owned("Invalid IOMMU group number for ");
                    push_str(&mut m, bdf);
                    push_str(&mut m, ": ");
                    let reason = u32_parse_error(n);
                    push_str(&mut m, reason.as_str());
                    Err(Error::Backend(m))
                },
            }
        },
    }
}

} // verus!
