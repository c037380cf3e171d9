//! The state and decisions of a VM guard: a VM that is removed again when
//! its build does not finish, unless it was preserved. Destroying the
//! domain, deleting the files and keeping the registry happen outside.
use vstd::prelude::*;
use crate::backend::libvirt::provision::vm_disk_path;
use crate::cloud_init::{lowercase, to_lowercase};
use crate::path::{join_path, path_join};
use crate::text::{owned, push_str, str_eq};

verus! {

/// The seed ISO a guard removes with its VM: `<name>-seed.iso` in the
/// images directory.
pub open spec fn vm_seed_iso_path(images_dir: Seq<char>, name: Seq<char>) -> Seq<char> {
    path_join(images_dir, name + "-seed.iso"@)
}

/// Whether the value of the `PRESERVE_VM_ON_FAILURE` setting asks to keep
/// VMs: `1`, or `true` in any case.
pub open spec fn preserve_requested_by(value: Option<Seq<char>>) -> bool {
    match value {
        Some(v) => v == "1"@ || lowercase(v) == "true"@,
        None => false,
    }
}

/// A guarded VM: its name, the images directory its files live in, and
/// whether it is kept when the guard goes away.
pub struct VmGuard {
    vm_name: String,
    keep_on_drop: bool,
    images_dir: String,
}

impl VmGuard {
    /// The guarded VM's name.
    pub closed spec fn name_view(&self) -> Seq<char> {
        self.vm_name@
    }

    /// The images directory of the guarded VM.
    pub closed spec fn images_dir_view(&self) -> Seq<char> {
        self.images_dir@
    }

    /// Whether the VM is kept when the guard goes away.
    pub closed spec fn kept(&self) -> bool {
        self.keep_on_drop
    }

    /// Starts guarding a VM: it will be removed unless preserved.
    pub fn new(vm_name: String, images_dir: String) -> (r: Self)
        ensures
            r.name_view() == vm_name@,
            r.images_dir_view() == images_dir@,
            !r.kept(),
    {
        VmGuard { vm_name, keep_on_drop: false, images_dir }
    }

    /// Keeps the VM when the guard goes away (a finished build).
    pub fn preserve(self) -> (r: Self)
        ensures
            r.name_view() == self.name_view(),
            r.images_dir_view() == self.images_dir_view(),
            r.kept(),
    {
        VmGuard { keep_on_drop: true, ..self }
    }

    /// Records that the VM was removed explicitly, so that nothing is done
    /// when the guard goes away.
    pub fn mark_cleaned(&mut self)
        ensures
            final(self).name_view() == old(self).name_view(),
            final(self).images_dir_view() == old(self).images_dir_view(),
            final(self).kept(),
    {
        self.keep_on_drop = true;
    }

    /// The guarded VM's name.
    pub fn vm_name(&self) -> (r: &str)
        ensures
            r@ == self.name_view(),
    {
        self.vm_name.as_str()
    }

    /// Whether the VM is kept when the guard goes away.
    pub fn keeps_on_drop(&self) -> (r: bool)
        ensures
            r == self.kept(),
    {
        self.keep_on_drop
    }

    /// The disk image removed with the VM.
    pub fn disk_path(&self) -> (r: String)
        ensures
            r@ == vm_disk_path(self.images_dir_view(), self.name_view()),
    {
        let mut f = owned(self.vm_name.as_str());
        push_str(&mut f, ".qcow2");
        join_path(self.images_dir.as_str(), f.as_str())
    }

    /// The seed ISO removed with the VM.
    pub fn seed_iso_path(&self) -> (r: String)
        ensures
            r@ == vm_seed_iso_path(self.images_dir_view(), self.name_view()),
    {
        let mut f = owned(self.vm_name.as_str());
        push_str(&mut f, "-seed.iso");
        join_path(self.images_dir.as_str(), f.as_str())
    }

    /// Whether the guard removes the VM when it goes away, given the value
    /// of the `PRESERVE_VM_ON_FAILURE` setting: only when the VM was
    /// neither preserved nor asked to be kept by that setting.
    pub fn cleans_on_drop(&self, preserve_setting: Option<&str>) -> (r: bool)
        ensures
            r == (!self.kept() && !preserve_requested_by(
                match preserve_setting {
                    Some(v) => Some(v@),
                    None => None,
                },
            )),
    {
        !preserve_requested(preserve_setting) && !self.keep_on_drop
    }
}

/// Whether the value of the `PRESERVE_VM_ON_FAILURE` setting asks to keep
/// VMs.
pub fn preserve_requested(value: Option<&str>) -> (r: bool)
    ensures
        r == preserve_requested_by(
            match value {
                Some(v) => Some(v@),
                None => None,
            },
        ),
{
    match value {
        Some(v) => {
            if str_eq(v, "1") {
                return true;
            }
            let lower = to_lowercase(v);
            str_eq(lower.as_str(), "true")
        },
        None => false,
    }
}

} // verus!
