//! Backends that run lab nodes (containers and VMs), and what they report.
use vstd::prelude::*;
use crate::text::{owned, str_eq};

pub mod ip_pool;
pub mod gpu_lifecycle;
pub mod vm_utils;
pub mod senescence;
pub mod serial_console;
pub mod health;
pub mod libvirt;
pub mod cleanup;
pub mod lab;
pub mod qga;
pub mod cidata_iso;
pub mod timeout_utils;
pub mod docker;
pub mod ssh;

verus! {

/// A running container or VM.
#[derive(Debug, Clone)]
pub struct NodeInfo {
    /// Node identifier.
    pub id: String,
    /// Node name.
    pub name: String,
    /// Container or VM ID.
    pub container_id: String,
    /// IP address.
    pub ip_address: String,
    /// Network name.
    pub network: String,
    /// Current status.
    pub status: NodeStatus,
    /// Further metadata as (key, value) pairs, each key at most once.
    pub metadata: Vec<(String, String)>,
}

/// Node status.
#[derive(Debug, Clone, Copy, PartialEq, Eq, Structural)]
pub enum NodeStatus {
    /// Starting.
    Starting,
    /// Running.
    Running,
    /// Stopped.
    Stopped,
    /// Failed.
    Failed,
}

/// A network.
#[derive(Debug, Clone)]
pub struct NetworkInfo {
    /// Network name.
    pub name: String,
    /// Network ID.
    pub id: String,
    /// Subnet in CIDR notation.
    pub subnet: String,
    /// Gateway address.
    pub gateway: String,
}

/// The result of a command run on a node.
#[derive(Debug, Clone)]
pub struct ExecResult {
    /// Exit code.
    pub exit_code: i64,
    /// Standard output.
    pub stdout: String,
    /// Standard error.
    pub stderr: String,
}

impl ExecResult {
    /// Whether the command succeeded (exit code 0).
    pub fn success(&self) -> (r: bool)
        ensures
            r == (self.exit_code == 0),
    {
        self.exit_code == 0
    }
}

/// The image a node runs: with hardened images on, the hardened variant
/// of `ubuntu`, `alpine` or `debian`; otherwise the image as named.
pub open spec fn image_for(use_hardened: bool, base: Seq<char>) -> Seq<char> {
    if use_hardened && base == "ubuntu"@ {
        "docker.io/dockerhardened/ubuntu:latest"@
    } else if use_hardened && base == "alpine"@ {
        "docker.io/dockerhardened/alpine:latest"@
    } else if use_hardened && base == "debian"@ {
        "docker.io/dockerhardened/debian:latest"@
    } else {
        base
    }
}

/// The image a node runs, given whether hardened images are used.
pub fn get_image(use_hardened: bool, base_image: &str) -> (r: String)
    ensures
        r@ == image_for(use_hardened, base_image@),
{
    if use_hardened {
        if str_eq(base_image, "ubuntu") {
            owned("docker.io/dockerhardened/ubuntu:latest")
        } else if str_eq(base_image, "alpine") {
            owned("docker.io/dockerhardened/alpine:latest")
        } else if str_eq(base_image, "debian") {
            owned("docker.io/dockerhardened/debian:latest")
        } else {
            owned(base_image)
        }
    } else {
        owned(base_image)
    }
}

} // verus!
