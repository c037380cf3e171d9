//! The libvirt backend's checks, recovery, registry and VM state rules.
use vstd::prelude::*;

pub mod health_check;
pub mod recovery;
pub mod vm_registry;
pub mod vm_state;
pub mod dhcp_discovery;
pub mod boot_diagnostics;
pub mod provision;
pub mod vm_guard;
pub mod templates;
pub mod backend_impl;

verus! {
}
