# benchscale

Lab infrastructure for benchmarking: VMs on libvirt and containers on
Docker, their networks, cloud-init seeds, address pools, health monitoring
and cleanup.

## Layout

- `src/` is the library, written in Verus. Its functions carry contracts
  that Verus proves, apart from the small trusted wrappers described below: the address pool and its laws, the VM and
  template registries, configuration validation and merging, cloud-init
  documents, libvirt domain and network definitions, PCI passthrough,
  the senescence monitor's decisions, lab hygiene plans, and the parsing
  of what the host reports (QEMU process lines, DHCP leases, sysfs
  values, guest-agent replies).
- `app/` is the runtime around it: libvirt and Docker connections, SSH,
  files, processes and timers. It performs the work the library plans
  and hands the results back to it.
- `tests/` exercises the library on concrete values.

Calls into outside crates and std functions that the library needs (CIDR
parsing, base64, ISO 9660 formatting, JSON reading, a few std string and
time functions) go through small trusted wrappers marked
`#[verifier::external_body]`; Verus believes their contracts, which are
stated next to them, without proof.
