//! Storage configuration: VM disk images, base images, intermediate saves.
//!
//! Paths are held as text; they are Unix paths.
use vstd::prelude::*;
use crate::capabilities::StorageCapabilities;
use crate::error::Error;
use crate::path::{is_absolute, path_is_absolute, path_join, join_path};
use crate::text::owned;

verus! {

/// Storage configuration for VM disks and images.
#[derive(Debug, Clone, PartialEq, Eq)]
pub struct StorageConfig {
    /// VM disk images directory (discovered when unset).
    pub vm_images_dir: Option<String>,
    /// Base images directory (falls back to `vm_images_dir`).
    pub base_images_dir: Option<String>,
    /// Intermediate saves directory (falls back to `vm_images_dir/intermediate`).
    pub intermediate_dir: Option<String>,
    /// Cloud-init ISO directory (falls back to `/tmp`).
    pub cloud_init_dir: Option<String>,
    /// Maximum disk size in GB (default 100).
    pub max_disk_size_gb: u64,
    /// Minimum free space in GB (default 10).
    pub min_free_space_gb: u64,
    /// Whether copy-on-write qcow2 disks are used (default true).
    pub enable_cow: bool,
}

fn default_max_disk_size() -> (r: u64)
    ensures
        r == 100,
{
    100
}

fn default_min_free_space() -> (r: u64)
    ensures
        r == 10,
{
    10
}

fn default_enable_cow() -> (r: bool)
    ensures
        r,
{
    true
}

/// The default storage settings.
pub open spec fn default_storage() -> StorageConfig {
    StorageConfig {
        vm_images_dir: None,
        base_images_dir: None,
        intermediate_dir: None,
        cloud_init_dir: None,
        max_disk_size_gb: 100,
        min_free_space_gb: 10,
        enable_cow: true,
    }
}

impl Default for StorageConfig {
    fn default() -> (r: Self)
        ensures
            r == default_storage(),
    {
        StorageConfig {
            vm_images_dir: None,
            base_images_dir: None,
            intermediate_dir: None,
            cloud_init_dir: None,
            max_disk_size_gb: default_max_disk_size(),
            min_free_space_gb: default_min_free_space(),
            enable_cow: default_enable_cow(),
        }
    }
}

/// The text of an optional path, if it is set.
pub open spec fn opt_view(p: Option<String>) -> Option<Seq<char>> {
    match p {
        Some(s) => Some(s@),
        None => None,
    }
}

/// An optional path that is set but not absolute.
pub open spec fn relative(p: Option<String>) -> bool {
    p matches Some(s) && !is_absolute(s@)
}

/// The first problem [`StorageConfig::validate`] reports, if any.
pub open spec fn storage_problem(c: StorageConfig) -> Option<Seq<char>> {
    if c.max_disk_size_gb == 0 {
        Some("max_disk_size_gb must be > 0"@)
    } else if c.max_disk_size_gb > 10000 {
        Some("max_disk_size_gb > 10TB is unreasonably large"@)
    } else if c.min_free_space_gb == 0 {
        Some("min_free_space_gb must be > 0"@)
    } else if c.min_free_space_gb > c.max_disk_size_gb {
        Some("min_free_space_gb cannot exceed max_disk_size_gb"@)
    } else if relative(c.vm_images_dir) {
        Some("vm_images_dir must be an absolute path"@)
    } else if relative(c.base_images_dir) {
        Some("base_images_dir must be an absolute path"@)
    } else if relative(c.intermediate_dir) {
        Some("intermediate_dir must be an absolute path"@)
    } else if relative(c.cloud_init_dir) {
        Some("cloud_init_dir must be an absolute path"@)
    } else {
        None
    }
}

/// Standard libvirt images directory.
pub open spec fn default_images_dir() -> Seq<char> {
    "/var/lib/libvirt/images"@
}

/// The directory that [`StorageConfig::vm_images_dir_or_default`] yields.
pub open spec fn vm_images_dir_of(c: StorageConfig) -> Seq<char> {
    match c.vm_images_dir {
        Some(p) => p@,
        None => default_images_dir(),
    }
}

fn is_relative(p: &Option<String>) -> (r: bool)
    ensures
        r == relative(*p),
{
    match p {
        Some(s) => !path_is_absolute(s.as_str()),
        None => false,
    }
}

pub(crate) fn clone_opt(p: &Option<String>) -> (r: Option<String>)
    ensures
        r == *p,
{
    match p {
        Some(s) => Some(s.clone()),
        None => None,
    }
}

/// The images directory after a merge: the explicit one, else the
/// discovered one.
pub open spec fn merged_images_dir(c: StorageConfig, caps: StorageCapabilities) -> String {
    match c.vm_images_dir {
        Some(p) => p,
        None => caps.images_dir,
    }
}

/// `new` is `old` merged with `caps`: the images directory is the
/// explicit or the discovered one, the base directory falls back to it, the
/// intermediate directory to its `intermediate` subdirectory, the cloud-init
/// directory to the discovered one, and the limits stay.
pub open spec fn storage_merged(old: StorageConfig, caps: StorageCapabilities, new: StorageConfig) -> bool {
    &&& new.vm_images_dir == Some(merged_images_dir(old, caps))
    &&& new.base_images_dir == (match old.base_images_dir {
        Some(p) => Some(p),
        None => Some(merged_images_dir(old, caps)),
    })
    &&& new.cloud_init_dir == (match old.cloud_init_dir {
        Some(p) => Some(p),
        None => Some(caps.cloud_init_dir),
    })
    &&& old.intermediate_dir is Some ==> new.intermediate_dir == old.intermediate_dir
    &&& old.intermediate_dir is None ==> (new.intermediate_dir matches Some(d)
        && d@ == path_join(merged_images_dir(old, caps)@, "intermediate"@))
    &&& new.max_disk_size_gb == old.max_disk_size_gb
    &&& new.min_free_space_gb == old.min_free_space_gb
    &&& new.enable_cow == old.enable_cow
}

impl StorageConfig {
    /// Validates the settings: disk size in 1..=10000 GB, free space in
    /// 1..=max disk size, and every set directory absolute.
    pub fn validate(&self) -> (r: Result<(), Error>)
        ensures
            match storage_problem(*self) {
                None => r is Ok,
                Some(m) => r matches Err(Error::Other(e)) && e@ == m,
            },
    {
        let m = if self.max_disk_size_gb == 0 {
            "max_disk_size_gb must be > 0"
        } else if self.max_disk_size_gb > 10000 {
            "max_disk_size_gb > 10TB is unreasonably large"
        } else if self.min_free_space_gb == 0 {
            "min_free_space_gb must be > 0"
        } else if self.min_free_space_gb > self.max_disk_size_gb {
            "min_free_space_gb cannot exceed max_disk_size_gb"
        } else if is_relative(&self.vm_images_dir) {
            "vm_images_dir must be an absolute path"
        } else if is_relative(&self.base_images_dir) {
            "base_images_dir must be an absolute path"
        } else if is_relative(&self.intermediate_dir) {
            "intermediate_dir must be an absolute path"
        } else if is_relative(&self.cloud_init_dir) {
            "cloud_init_dir must be an absolute path"
        } else {
            return Ok(());
        };
        Err(Error::Other(owned(m)))
    }

    /// Whether the images directory still has to be discovered.
    pub fn should_discover_vm_images_dir(&self) -> (r: bool)
        ensures
            r == self.vm_images_dir is None,
    {
        self.vm_images_dir.is_none()
    }

    /// The images directory, or `/var/lib/libvirt/images`.
    pub fn vm_images_dir_or_default(&self) -> (r: String)
        ensures
            r@ == vm_images_dir_of(*self),
    {
        match &self.vm_images_dir {
            Some(p) => p.clone(),
            None => owned("/var/lib/libvirt/images"),
        }
    }

    /// The base images directory, else the images directory, else
    /// `/var/lib/libvirt/images`.
    pub fn base_images_dir_or_default(&self) -> (r: String)
        ensures
            r@ == (match self.base_images_dir {
                Some(p) => p@,
                None => vm_images_dir_of(*self),
            }),
    {
        match &self.base_images_dir {
            Some(p) => p.clone(),
            None => self.vm_images_dir_or_default(),
        }
    }

    /// The intermediate directory, else `intermediate` inside the images
    /// directory.
    pub fn intermediate_dir_or_default(&self) -> (r: String)
        ensures
            r@ == (match self.intermediate_dir {
                Some(p) => p@,
                None => path_join(vm_images_dir_of(*self), "intermediate"@),
            }),
    {
        match &self.intermediate_dir {
            Some(p) => p.clone(),
            None => join_path(self.vm_images_dir_or_default().as_str(), "intermediate"),
        }
    }

    /// The cloud-init directory, or `/tmp`.
    pub fn cloud_init_dir_or_default(&self) -> (r: String)
        ensures
            r@ == (match self.cloud_init_dir {
                Some(p) => p@,
                None => "/tmp"@,
            }),
    {
        match &self.cloud_init_dir {
            Some(p) => p.clone(),
            None => owned("/tmp"),
        }
    }

    /// Fills unset directories from discovered capabilities; explicit
    /// settings win. The base directory falls back to the images directory,
    /// and the intermediate directory to `intermediate` inside it.
    pub fn merge_with_capabilities(&mut self, capabilities: &StorageCapabilities)
        ensures
            storage_merged(*old(self), *capabilities, *final(self)),
    {
        if self.vm_images_dir.is_none() {
            self.vm_images_dir = Some(capabilities.images_dir.clone());
        }
        if self.base_images_dir.is_none() {
            self.base_images_dir = clone_opt(&self.vm_images_dir);
        }
        if self.intermediate_dir.is_none() {
            if let Some(images_dir) = &self.vm_images_dir {
                self.intermediate_dir = Some(join_path(images_dir.as_str(), "intermediate"));
            }
        }
        if self.cloud_init_dir.is_none() {
            self.cloud_init_dir = Some(capabilities.cloud_init_dir.clone());
        }
    }
}

} // verus!
