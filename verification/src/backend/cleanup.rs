//! Cleanup of VMs and their files. Stopping and undefining domains and
//! removing files happen outside; this module decides which VMs and files
//! a cleanup covers and where each VM's files are.
use vstd::prelude::*;
use crate::config::StorageConfig;
use crate::config::storage::{default_storage, vm_images_dir_of};
use crate::path::{join_path, path_join};
use crate::text::{
    chars_of, contains_seq, owned, push_str, rsplit_once, rsplit_once_chars, starts_with_chars,
    starts_with_seq, str_contains, str_eq, string_from_chars, views,
};

verus! {

/// Cleanup of VMs whose disks live in one images directory.
pub struct VmCleanup {
    image_dir: String,
}

/// The disk image of a VM: `<name>.qcow2` in the images directory.
pub open spec fn disk_path_of(dir: Seq<char>, vm: Seq<char>) -> Seq<char> {
    path_join(dir, vm + ".qcow2"@)
}

/// The cloud-init ISO of a VM: `<name>-cidata.iso` in the images directory.
pub open spec fn cidata_path_of(dir: Seq<char>, vm: Seq<char>) -> Seq<char> {
    path_join(dir, vm + "-cidata.iso"@)
}

/// The names that start with `prefix`, in order.
pub open spec fn names_with_prefix(names: Seq<Seq<char>>, prefix: Seq<char>) -> Seq<Seq<char>>
    decreases names.len(),
{
    if names.len() == 0 {
        Seq::empty()
    } else {
        let rest = names_with_prefix(names.drop_last(), prefix);
        if starts_with_seq(names.last(), prefix) {
            rest.push(names.last())
        } else {
            rest
        }
    }
}

/// The stem of a file name with a `qcow2` extension (`Path::extension`
/// and `Path::file_stem`: split at the last dot, unless the only dot
/// starts the name).
pub open spec fn qcow2_stem(file_name: Seq<char>) -> Option<Seq<char>> {
    match rsplit_once(file_name, '.') {
        Some(p) => if p.0.len() > 0 && p.1 == "qcow2"@ {
            Some(p.0)
        } else {
            None
        },
        None => None,
    }
}

/// A disk file that belongs to no VM: a `qcow2` file whose stem is no
/// VM's name and does not look like a base image (`cloudimg` or `base` in
/// it).
pub open spec fn is_orphaned_disk(file_name: Seq<char>, vms: Seq<Seq<char>>) -> bool {
    match qcow2_stem(file_name) {
        Some(stem) => !contains_seq(stem, "cloudimg"@) && !contains_seq(stem, "base"@) && !vms.contains(
            stem,
        ),
        None => false,
    }
}

/// The orphaned disk files among `files`, in order.
pub open spec fn orphaned_disks(files: Seq<Seq<char>>, vms: Seq<Seq<char>>) -> Seq<Seq<char>>
    decreases files.len(),
{
    if files.len() == 0 {
        Seq::empty()
    } else {
        let rest = orphaned_disks(files.drop_last(), vms);
        if is_orphaned_disk(files.last(), vms) {
            rest.push(files.last())
        } else {
            rest
        }
    }
}

fn contains_name(names: &[String], n: &[char]) -> (r: bool)
    ensures
        r == views(names@).contains(n@),
{
    let mut i: usize = 0;
    while i < names.len()
        invariant
            i <= names.len(),
            forall|j: int| 0 <= j < i ==> names@[j]@ != n@,
        decreases names.len() - i,
    {
        let c = chars_of(names[i].as_str());
        if crate::text::chars_eq(c.as_slice(), n) {
            proof {
                assert(views(names@)[i as int] == n@);
            }
            return true;
        }
        i = i + 1;
    }
    proof {
        if views(names@).contains(n@) {
            let k = choose|k: int| 0 <= k < views(names@).len() && views(names@)[k] == n@;
            assert(names@[k]@ == n@);
        }
    }
    false
}

/// Whether a file in the images directory is a disk that belongs to no VM.
pub fn orphaned_disk(file_name: &str, vm_names: &[String]) -> (r: bool)
    ensures
        r == is_orphaned_disk(file_name@, views(vm_names@)),
{
    let cs = chars_of(file_name);
    match rsplit_once_chars(cs.as_slice(), '.') {
        Some((stem, ext)) => {
            if stem.len() == 0 {
                return false;
            }
            let q = chars_of("qcow2");
            if !crate::text::chars_eq(ext.as_slice(), q.as_slice()) {
                return false;
            }
            if str_contains(stem.as_slice(), "cloudimg") || str_contains(stem.as_slice(), "base") {
                return false;
            }
            !contains_name(vm_names, stem.as_slice())
        },
        None => false,
    }
}

/// The names whose cleanup succeeded, in order.
pub open spec fn succeeded_names(names: Seq<Seq<char>>, ok: Seq<bool>) -> Seq<Seq<char>>
    decreases names.len(),
{
    if names.len() == 0 || ok.len() == 0 {
        Seq::empty()
    } else if ok.last() {
        succeeded_names(names.drop_last(), ok.drop_last()).push(names.last())
    } else {
        succeeded_names(names.drop_last(), ok.drop_last())
    }
}

/// What an emergency cleanup covers: every VM, then every orphaned disk.
pub struct EmergencyPlan {
    /// The VMs to clean up, in order.
    pub vms: Vec<String>,
    /// The orphaned disk files to remove, in order.
    pub orphaned_disks: Vec<String>,
}

impl VmCleanup {
    /// The images directory.
    pub closed spec fn dir(&self) -> Seq<char> {
        self.image_dir@
    }

    /// Cleanup of VMs whose disks live in `image_dir`.
    pub fn new(image_dir: &str) -> (r: Self)
        ensures
            r.dir() == image_dir@,
    {
        VmCleanup { image_dir: owned(image_dir) }
    }

    /// The images directory.
    pub fn image_dir(&self) -> (r: &str)
        ensures
            r@ == self.dir(),
    {
        self.image_dir.as_str()
    }

    /// The disk image of a VM.
    pub fn disk_path(&self, vm_name: &str) -> (r: String)
        ensures
            r@ == disk_path_of(self.dir(), vm_name@),
    {
        let mut f = owned(vm_name);
        push_str(&mut f, ".qcow2");
        join_path(self.image_dir.as_str(), f.as_str())
    }

    /// The cloud-init ISO of a VM.
    pub fn cidata_path(&self, vm_name: &str) -> (r: String)
        ensures
            r@ == cidata_path_of(self.dir(), vm_name@),
    {
        let mut f = owned(vm_name);
        push_str(&mut f, "-cidata.iso");
        join_path(self.image_dir.as_str(), f.as_str())
    }

    /// Whether a failed destroy is expected and not worth a warning: the
    /// domain was not running or is already gone.
    pub fn destroy_error_is_expected(message: &str) -> (r: bool)
        ensures
            r == (contains_seq(message@, "domain is not running"@) || contains_seq(
                message@,
                "failed to get domain"@,
            )),
    {
        let cs = chars_of(message);
        str_contains(cs.as_slice(), "domain is not running") || str_contains(cs.as_slice(), "failed to get domain")
    }

    /// Whether a failed lookup or undefine is expected and not worth a
    /// warning: the domain does not exist.
    pub fn missing_domain_is_expected(no_domain: bool, message: &str) -> (r: bool)
        ensures
            r == (no_domain || contains_seq(message@, "failed to get domain"@)),
    {
        let cs = chars_of(message);
        no_domain || str_contains(cs.as_slice(), "failed to get domain")
    }

    /// The VMs a cleanup by prefix covers: the domains whose names start
    /// with `prefix`, in order.
    pub fn cleanup_matching(&self, prefix: &str, domain_names: &[String]) -> (r: Vec<String>)
        ensures
            views(r@) == names_with_prefix(views(domain_names@), prefix@),
    {
        let p = chars_of(prefix);
        let mut out: Vec<String> = Vec::new();
        let mut i: usize = 0;
        while i < domain_names.len()
            invariant
                i <= domain_names.len(),
                views(out@) == names_with_prefix(views(domain_names@).take(i as int), prefix@),
                p@ == prefix@,
            decreases domain_names.len() - i,
        {
            proof {
                assert(views(domain_names@).take(i + 1).drop_last() =~= views(domain_names@).take(i as int));
                assert(views(domain_names@).take(i + 1).last() == domain_names@[i as int]@);
            }
            let c = chars_of(domain_names[i].as_str());
            let ghost t = views(domain_names@).take(i + 1);
            proof {
                assert(names_with_prefix(t, prefix@) == if starts_with_seq(t.last(), prefix@) {
                    names_with_prefix(t.drop_last(), prefix@).push(t.last())
                } else {
                    names_with_prefix(t.drop_last(), prefix@)
                });
            }
            let sw = starts_with_chars(c.as_slice(), p.as_slice());
            proof {
                assert(c@ == t.last());
                assert(sw == starts_with_seq(t.last(), prefix@));
            }
            if sw {
                let ghost before = views(out@);
                out.push(domain_names[i].clone());
                proof {
                    assert(views(out@) =~= before.push(domain_names@[i as int]@));
                    assert(views(out@) == names_with_prefix(t, prefix@));
                }
            } else {
                assert(views(out@) == names_with_prefix(t, prefix@));
            }
            i = i + 1;
        }
        proof {
            assert(views(domain_names@).take(domain_names@.len() as int) =~= views(domain_names@));
        }
        out
    }

    /// What a cleanup by prefix returns: of the VMs it covered, in order,
    /// those whose own cleanup succeeded (`succeeded[i]` for
    /// `matching[i]`). A failed cleanup only drops its name.
    pub fn cleaned_names(matching: &[String], succeeded: &[bool]) -> (r: Vec<String>)
        requires
            matching@.len() == succeeded@.len(),
        ensures
            views(r@) == succeeded_names(views(matching@), succeeded@),
    {
        let mut out: Vec<String> = Vec::new();
        let mut i: usize = 0;
        proof {
            assert(views(matching@).take(0) =~= Seq::<Seq<char>>::empty());
        }
        while i < matching.len()
            invariant
                i <= matching.len(),
                matching@.len() == succeeded@.len(),
                views(out@) == succeeded_names(views(matching@).take(i as int), succeeded@.take(i as int)),
            decreases matching.len() - i,
        {
            let ghost t = views(matching@).take(i + 1);
            let ghost k = succeeded@.take(i + 1);
            proof {
                assert(t.drop_last() =~= views(matching@).take(i as int));
                assert(k.drop_last() =~= succeeded@.take(i as int));
                assert(t.last() == matching@[i as int]@);
                assert(k.last() == succeeded@[i as int]);
            }
            if succeeded[i] {
                let ghost before = views(out@);
                out.push(matching[i].clone());
                proof {
                    assert(views(out@) =~= before.push(matching@[i as int]@));
                }
            }
            i = i + 1;
        }
        proof {
            assert(views(matching@).take(matching@.len() as int) =~= views(matching@));
            assert(succeeded@.take(succeeded@.len() as int) =~= succeeded@);
        }
        out
    }

    /// What an emergency cleanup covers: every domain, then the orphaned
    /// disks among the files of the images directory (as full paths).
    pub fn emergency_cleanup(&self, domain_names: &[String], files: &[String]) -> (r: EmergencyPlan)
        ensures
            views(r.vms@) == views(domain_names@),
            views(r.orphaned_disks@) == orphaned_disks(views(files@), views(domain_names@)).map_values(
                |f: Seq<char>| path_join(self.dir(), f),
            ),
    {
        let mut vms: Vec<String> = Vec::new();
        let mut i: usize = 0;
        while i < domain_names.len()
            invariant
                i <= domain_names.len(),
                views(vms@) == views(domain_names@).take(i as int),
            decreases domain_names.len() - i,
        {
            let ghost before = views(vms@);
            vms.push(domain_names[i].clone());
            proof {
                assert(views(vms@) =~= before.push(domain_names@[i as int]@));
                assert(views(domain_names@).take(i + 1) =~= views(domain_names@).take(i as int).push(
                    domain_names@[i as int]@,
                ));
            }
            i = i + 1;
        }
        proof {
            assert(views(domain_names@).take(domain_names@.len() as int) =~= views(domain_names@));
        }
        let mut disks: Vec<String> = Vec::new();
        let mut j: usize = 0;
        while j < files.len()
            invariant
                j <= files.len(),
                views(disks@) == orphaned_disks(views(files@).take(j as int), views(domain_names@)).map_values(
                    |f: Seq<char>| path_join(self.dir(), f),
                ),
            decreases files.len() - j,
        {
            proof {
                assert(views(files@).take(j + 1).drop_last() =~= views(files@).take(j as int));
                assert(views(files@).take(j + 1).last() == files@[j as int]@);
            }
            if orphaned_disk(files[j].as_str(), domain_names) {
                let ghost before = views(disks@);
                let p = join_path(self.image_dir.as_str(), files[j].as_str());
                disks.push(p);
                proof {
                    assert(views(disks@) =~= before.push(p@));
                    assert(orphaned_disks(views(files@).take(j + 1), views(domain_names@)) =~= orphaned_disks(
                        views(files@).take(j as int),
                        views(domain_names@),
                    ).push(files@[j as int]@));
                    assert(views(disks@) =~= orphaned_disks(views(files@).take(j + 1), views(domain_names@)).map_values(
                        |f: Seq<char>| path_join(self.dir(), f),
                    ));
                }
            }
            j = j + 1;
        }
        proof {
            assert(views(files@).take(files@.len() as int) =~= views(files@));
        }
        EmergencyPlan { vms, orphaned_disks: disks }
    }
}

impl Default for VmCleanup {
    fn default() -> (r: Self)
        ensures
            r.dir() == vm_images_dir_of(default_storage()),
    {
        let dir = StorageConfig::default().vm_images_dir_or_default();
        VmCleanup::new(dir.as_str())
    }
}


/// A disk counts as orphaned only when it is a `qcow2` file named after no
/// VM and not a base image: a file whose stem holds `cloudimg` or `base`,
/// or names a VM, or that is no `qcow2` file, is never removed as orphaned.
pub proof fn law_orphaned_disks_spare_base_images_and_vms(file_name: Seq<char>, vms: Seq<Seq<char>>)
    ensures
        is_orphaned_disk(file_name, vms) ==> (qcow2_stem(file_name) matches Some(stem)
            && !contains_seq(stem, "cloudimg"@) && !contains_seq(stem, "base"@) && !vms.contains(stem)),
        qcow2_stem(file_name) matches Some(stem) && (contains_seq(stem, "cloudimg"@) || contains_seq(
            stem,
            "base"@,
        )) ==> !is_orphaned_disk(file_name, vms),
{
}

} // verus!
