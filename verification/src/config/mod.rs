//! Configuration: timeouts, monitoring, network and storage settings, and
//! the top-level configuration that holds them.
use vstd::prelude::*;

pub mod timeouts;
pub mod monitoring;
pub mod storage;
pub mod network;

pub use timeouts::TimeoutConfig;
pub use monitoring::MonitoringConfig;
pub use storage::StorageConfig;
pub use network::{DhcpRange, NetworkConfig, IpAddress};

use crate::capabilities::SystemCapabilities;
use crate::config_legacy::LibvirtConfig;
use crate::path::{parent_dir, path_parent};
use crate::error::Error;
use crate::text::{owned, push_str};
use timeouts::{default_timeouts, timeout_problem};
use monitoring::{default_monitoring, monitoring_problem};
use storage::{clone_opt, default_storage, merged_images_dir, storage_merged, storage_problem};
use network::{discovered_range, is_default_network, network_merged, network_problem};

verus! {

/// The top-level configuration: one section per concern.
#[derive(Debug, Clone, PartialEq, Eq)]
pub struct BenchScaleConfig {
    /// Timeout settings.
    pub timeouts: TimeoutConfig,
    /// Monitoring settings.
    pub monitoring: MonitoringConfig,
    /// Network settings.
    pub network: NetworkConfig,
    /// Storage settings.
    pub storage: StorageConfig,
}

/// A configuration whose every section holds its defaults.
pub open spec fn is_default_config(c: BenchScaleConfig) -> bool {
    &&& c.timeouts == default_timeouts()
    &&& c.monitoring == default_monitoring()
    &&& is_default_network(c.network)
    &&& c.storage == default_storage()
}

impl Default for BenchScaleConfig {
    fn default() -> (r: Self)
        ensures
            is_default_config(r),
    {
        BenchScaleConfig {
            timeouts: TimeoutConfig::default(),
            monitoring: MonitoringConfig::default(),
            network: NetworkConfig::default(),
            storage: StorageConfig::default(),
        }
    }
}

/// The message [`BenchScaleConfig::validate`] reports, if any: the first
/// section with a problem, in the order timeouts, monitoring, network,
/// storage, with the section named before the section's own message.
pub open spec fn config_problem(c: BenchScaleConfig) -> Option<Seq<char>> {
    match timeout_problem(c.timeouts) {
        Some(m) => Some("Invalid timeout config: "@ + m),
        None => match monitoring_problem(c.monitoring) {
            Some(m) => Some("Invalid monitoring config: "@ + m),
            None => match network_problem(c.network) {
                Some(m) => Some("Invalid network config: "@ + m),
                None => match storage_problem(c.storage) {
                    Some(m) => Some("Invalid storage config: "@ + m),
                    None => None,
                },
            },
        },
    }
}

/// `prefix` followed by the message of `e`, as an [`Error::Other`].
fn prefixed(prefix: &str, e: Error) -> (r: Error)
    ensures
        r matches Error::Other(m) && m@ == prefix@ + e.message(),
{
    let mut s = owned(prefix);
    let msg = e.to_string();
    push_str(&mut s, msg.as_str());
    Error::Other(s)
}

/// `new` is `old` merged with `caps`: timeouts and monitoring stay, the
/// network and storage sections are merged with theirs.
pub open spec fn config_merged(old: BenchScaleConfig, caps: SystemCapabilities, new: BenchScaleConfig) -> bool {
    &&& new.timeouts == old.timeouts
    &&& new.monitoring == old.monitoring
    &&& network_merged(old.network, caps.network, new.network)
    &&& storage_merged(old.storage, caps.storage, new.storage)
}

/// The images directory a legacy configuration implies: its base image
/// path when that is a directory, else the path's parent, else
/// `/var/lib/libvirt/images`.
pub open spec fn legacy_images_dir(base_image_path: Seq<char>, base_is_dir: bool) -> Seq<char> {
    if base_is_dir {
        base_image_path
    } else {
        match path_parent(base_image_path) {
            Some(q) => q,
            None => "/var/lib/libvirt/images"@,
        }
    }
}

impl BenchScaleConfig {
    /// The storage settings.
    pub fn storage(&self) -> (r: &StorageConfig)
        ensures
            *r == self.storage,
    {
        &self.storage
    }

    /// The configuration a legacy libvirt configuration stands for: the
    /// defaults, with its IP and SSH timeouts as the boot and SSH timeouts,
    /// its SSH port, its template directory as the intermediate directory,
    /// and the images directory it implies. `base_is_dir` tells whether the
    /// base image path is a directory on the host.
    pub fn from_libvirt_legacy(lc: &LibvirtConfig, base_is_dir: bool) -> (r: Self)
        ensures
            r.timeouts == (TimeoutConfig {
                vm_boot_secs: lc.vm_ip_timeout_secs,
                ssh_connection_secs: lc.ssh.timeout_secs,
                ..default_timeouts()
            }),
            r.monitoring == default_monitoring(),
            is_default_network(NetworkConfig { ssh_port: 22, ..r.network }),
            r.network.ssh_port == lc.ssh.port,
            r.storage.intermediate_dir == lc.template_dir,
            r.storage.vm_images_dir matches Some(d) && d@ == legacy_images_dir(lc.base_image_path@, base_is_dir),
            r.storage.base_images_dir is None,
            r.storage.cloud_init_dir is None,
            r.storage.max_disk_size_gb == default_storage().max_disk_size_gb,
            r.storage.min_free_space_gb == default_storage().min_free_space_gb,
            r.storage.enable_cow == default_storage().enable_cow,
    {
        let mut bench = BenchScaleConfig::default();
        bench.timeouts.vm_boot_secs = lc.vm_ip_timeout_secs;
        bench.timeouts.ssh_connection_secs = lc.ssh.timeout_secs;
        bench.network.ssh_port = lc.ssh.port;
        bench.storage.intermediate_dir = clone_opt(&lc.template_dir);
        let vm_images = if base_is_dir {
            lc.base_image_path.clone()
        } else {
            match parent_dir(lc.base_image_path.as_str()) {
                Some(q) => q,
                None => owned("/var/lib/libvirt/images"),
            }
        };
        bench.storage.vm_images_dir = Some(vm_images);
        bench
    }

    /// Validates every section, reporting the first problem found with the
    /// section's name before it.
    pub fn validate(&self) -> (r: Result<(), Error>)
        ensures
            match config_problem(*self) {
                None => r is Ok,
                Some(m) => r matches Err(Error::Other(e)) && e@ == m,
            },
    {
        if let Err(e) = self.timeouts.validate() {
            return Err(prefixed("Invalid timeout config: ", e));
        }
        if let Err(e) = self.monitoring.validate() {
            return Err(prefixed("Invalid monitoring config: ", e));
        }
        if let Err(e) = self.network.validate() {
            return Err(prefixed("Invalid network config: ", e));
        }
        if let Err(e) = self.storage.validate() {
            return Err(prefixed("Invalid storage config: ", e));
        }
        Ok(())
    }

    /// Fills the network and storage settings that are unset from discovered
    /// capabilities; explicit settings win, timeouts and monitoring stay.
    pub fn merge_with_capabilities(&mut self, capabilities: &SystemCapabilities)
        ensures
            config_merged(*old(self), *capabilities, *final(self)),
    {
        self.network.merge_with_capabilities(&capabilities.network);
        self.storage.merge_with_capabilities(&capabilities.storage);
    }
}

/// The default configuration passes validation.
pub proof fn law_default_config_is_valid(c: BenchScaleConfig)
    requires
        is_default_config(c),
    ensures
        config_problem(c) is None,
{
    reveal_strlit("default");
    assert(vstd::utf8::is_ascii_chars("default"@));
    vstd::utf8::is_ascii_chars_encode_utf8("default"@);
}


/// Merging with the same capabilities a second time changes nothing: every
/// setting the first merge filled is explicit by then.
pub proof fn law_merge_is_idempotent(
    c: BenchScaleConfig,
    caps: SystemCapabilities,
    once: BenchScaleConfig,
    twice: BenchScaleConfig,
)
    requires
        config_merged(c, caps, once),
        config_merged(once, caps, twice),
    ensures
        twice == once,
{
    assert(twice.network == once.network);
    assert(twice.storage == once.storage);
}

} // verus!
