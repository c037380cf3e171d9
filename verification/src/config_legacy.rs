//! The older configuration: Docker, libvirt, SSH, network and lab settings
//! with defaults taken from `BENCHSCALE_*` environment variables. The
//! caller reads the variables and the directories they fall back on; this
//! module decides the values.
use vstd::prelude::*;
use std::time::Duration;
use crate::path::{join_path, path_join};
use crate::text::{chars_of, owned, parse_unsigned, parse_unsigned_chars, str_eq, views};
use crate::time::{duration_from_secs, duration_of_secs};

verus! {

/// A PCI device to pass through, as the older configuration names it.
#[derive(Debug, Clone, PartialEq, Eq)]
pub struct PciPassthroughDevice {
    /// Bus/device/function address, e.g. `0000:02:00.0`.
    pub bdf: String,
    /// The device must not see a function-level reset (warm hand-off).
    pub no_flr: bool,
}

/// The whole older configuration.
#[derive(Debug, Clone)]
pub struct Config {
    /// Docker settings.
    pub docker: DockerConfig,
    /// Libvirt settings.
    pub libvirt: LibvirtConfig,
    /// Network settings.
    pub network: NetworkConfig,
    /// Lab settings.
    pub lab: LabConfig,
}

/// Docker backend settings.
#[derive(Debug, Clone)]
pub struct DockerConfig {
    /// Use hardened images.
    pub use_hardened_images: bool,
    /// Image pull timeout in seconds.
    pub image_pull_timeout_secs: u64,
}

/// Libvirt backend settings.
#[derive(Debug, Clone)]
pub struct LibvirtConfig {
    /// Connection URI.
    pub uri: String,
    /// Base image directory.
    pub base_image_path: String,
    /// Overlay directory for copy-on-write disks.
    pub overlay_dir: String,
    /// VM IP acquisition timeout in seconds.
    pub vm_ip_timeout_secs: u64,
    /// Template directory.
    pub template_dir: Option<String>,
    /// SSH settings.
    pub ssh: SshConfig,
}

/// SSH settings for VM access.
#[derive(Debug, Clone)]
pub struct SshConfig {
    /// SSH port.
    pub port: u16,
    /// Connection timeout in seconds.
    pub timeout_secs: u64,
    /// Private key.
    pub key_path: Option<String>,
    /// Default user.
    pub default_user: String,
}

/// Network settings.
#[derive(Debug, Clone)]
pub struct NetworkConfig {
    /// Subnet for new networks.
    pub default_subnet: String,
    /// Network creation timeout in seconds.
    pub timeout_secs: u64,
}

/// Lab settings.
#[derive(Debug, Clone)]
pub struct LabConfig {
    /// Lab state directory.
    pub state_dir: String,
    /// Lab creation timeout in seconds.
    pub create_timeout_secs: u64,
    /// Whether failed labs are cleaned up.
    pub auto_cleanup: bool,
}

/// The `BENCHSCALE_*` variables and the directories the defaults fall back
/// on, as the caller read them.
#[derive(Debug, Clone, Default)]
pub struct LegacyEnv {
    /// `BENCHSCALE_USE_HARDENED`
    pub use_hardened: Option<String>,
    /// `BENCHSCALE_IMAGE_TIMEOUT`
    pub image_timeout: Option<String>,
    /// `BENCHSCALE_LIBVIRT_URI`
    pub libvirt_uri: Option<String>,
    /// `BENCHSCALE_BASE_IMAGE_PATH`
    pub base_image_path: Option<String>,
    /// `BENCHSCALE_OVERLAY_DIR`
    pub overlay_dir: Option<String>,
    /// `BENCHSCALE_VM_IP_TIMEOUT`
    pub vm_ip_timeout: Option<String>,
    /// The template directory: `BENCHSCALE_TEMPLATE_DIR`, else one found.
    pub template_dir: Option<String>,
    /// `BENCHSCALE_SSH_PORT`
    pub ssh_port: Option<String>,
    /// `BENCHSCALE_SSH_TIMEOUT`
    pub ssh_timeout: Option<String>,
    /// `BENCHSCALE_SSH_KEY`
    pub ssh_key: Option<String>,
    /// `BENCHSCALE_SSH_USER`
    pub ssh_user: Option<String>,
    /// `BENCHSCALE_DEFAULT_SUBNET`
    pub default_subnet: Option<String>,
    /// `BENCHSCALE_NETWORK_TIMEOUT`
    pub network_timeout: Option<String>,
    /// `BENCHSCALE_STATE_DIR`
    pub state_dir: Option<String>,
    /// `BENCHSCALE_LAB_TIMEOUT`
    pub lab_timeout: Option<String>,
    /// `BENCHSCALE_AUTO_CLEANUP`
    pub auto_cleanup: Option<String>,
    /// The system's temporary directory.
    pub temp_dir: String,
    /// The user's home directory, if known.
    pub home_dir: Option<String>,
}

/// A number setting: the variable read as a number no larger than `max`,
/// else the default.
pub open spec fn number_or(var: Option<String>, max: nat, default: nat) -> nat {
    match var {
        Some(s) => match parse_unsigned(s@, max) {
            Some(v) => v,
            None => default,
        },
        None => default,
    }
}

/// A flag setting: the variable when it reads `true` or `false`
/// (`bool::from_str`), else the default.
pub open spec fn flag_or(var: Option<String>, default: bool) -> bool {
    match var {
        Some(s) => if s@ == "true"@ {
            true
        } else if s@ == "false"@ {
            false
        } else {
            default
        },
        None => default,
    }
}

/// A text setting: the variable when set, else the default.
pub open spec fn text_or(var: Option<String>, default: Seq<char>) -> Seq<char> {
    match var {
        Some(s) => s@,
        None => default,
    }
}

fn number_setting(var: &Option<String>, max: u64, default: u64) -> (r: u64)
    requires
        default <= max,
    ensures
        r == number_or(*var, max as nat, default as nat),
{
    match var {
        Some(s) => {
            let cs = chars_of(s.as_str());
            match parse_unsigned_chars(cs.as_slice(), max) {
                Some(v) => v,
                None => default,
            }
        },
        None => default,
    }
}

fn flag_setting(var: &Option<String>, default: bool) -> (r: bool)
    ensures
        r == flag_or(*var, default),
{
    match var {
        Some(s) => if str_eq(s.as_str(), "true") {
            true
        } else if str_eq(s.as_str(), "false") {
            false
        } else {
            default
        },
        None => default,
    }
}

fn text_setting(var: &Option<String>, default: &str) -> (r: String)
    ensures
        r@ == text_or(*var, default@),
{
    match var {
        Some(s) => s.clone(),
        None => owned(default),
    }
}

impl DockerConfig {
    /// The Docker settings the environment gives: no hardened images and a
    /// 300 s pull timeout unless set.
    pub fn from_env_values(env: &LegacyEnv) -> (r: Self)
        ensures
            r.use_hardened_images == flag_or(env.use_hardened, false),
            r.image_pull_timeout_secs == number_or(env.image_timeout, u64::MAX as nat, 300),
    {
        DockerConfig {
            use_hardened_images: flag_setting(&env.use_hardened, false),
            image_pull_timeout_secs: number_setting(&env.image_timeout, u64::MAX, 300),
        }
    }
}

impl SshConfig {
    /// The SSH settings the environment gives: port 22, a 30 s timeout and
    /// user `benchscale` unless set.
    pub fn from_env_values(env: &LegacyEnv) -> (r: Self)
        ensures
            r.port == number_or(env.ssh_port, 0xffff, 22),
            r.timeout_secs == number_or(env.ssh_timeout, u64::MAX as nat, 30),
            r.key_path == env.ssh_key,
            r.default_user@ == text_or(env.ssh_user, "benchscale"@),
    {
        SshConfig {
            port: number_setting(&env.ssh_port, 0xffff, 22) as u16,
            timeout_secs: number_setting(&env.ssh_timeout, u64::MAX, 30),
            key_path: env.ssh_key.clone(),
            default_user: text_setting(&env.ssh_user, "benchscale"),
        }
    }
}

impl LibvirtConfig {
    /// The libvirt settings the environment gives: the system URI, the
    /// libvirt images directory, `benchscale/overlays` in the temporary
    /// directory and a 180 s IP timeout unless set.
    pub fn from_env_values(env: &LegacyEnv) -> (r: Self)
        ensures
            r.uri@ == text_or(env.libvirt_uri, "qemu:///system"@),
            r.base_image_path@ == text_or(env.base_image_path, "/var/lib/libvirt/images"@),
            r.overlay_dir@ == text_or(env.overlay_dir, path_join(env.temp_dir@, "benchscale/overlays"@)),
            r.vm_ip_timeout_secs == number_or(env.vm_ip_timeout, u64::MAX as nat, 180),
            r.template_dir == env.template_dir,
            r.ssh.port == number_or(env.ssh_port, 0xffff, 22),
            r.ssh.timeout_secs == number_or(env.ssh_timeout, u64::MAX as nat, 30),
            r.ssh.key_path == env.ssh_key,
            r.ssh.default_user@ == text_or(env.ssh_user, "benchscale"@),
    {
        let overlay_dir = match &env.overlay_dir {
            Some(d) => d.clone(),
            None => join_path(env.temp_dir.as_str(), "benchscale/overlays"),
        };
        LibvirtConfig {
            uri: text_setting(&env.libvirt_uri, "qemu:///system"),
            base_image_path: text_setting(&env.base_image_path, "/var/lib/libvirt/images"),
            overlay_dir,
            vm_ip_timeout_secs: number_setting(&env.vm_ip_timeout, u64::MAX, 180),
            template_dir: env.template_dir.clone(),
            ssh: SshConfig::from_env_values(env),
        }
    }
}

impl NetworkConfig {
    /// The network settings the environment gives: subnet `10.100.0.0/24`
    /// and a 60 s timeout unless set.
    pub fn from_env_values(env: &LegacyEnv) -> (r: Self)
        ensures
            r.default_subnet@ == text_or(env.default_subnet, "10.100.0.0/24"@),
            r.timeout_secs == number_or(env.network_timeout, u64::MAX as nat, 60),
    {
        NetworkConfig {
            default_subnet: text_setting(&env.default_subnet, "10.100.0.0/24"),
            timeout_secs: number_setting(&env.network_timeout, u64::MAX, 60),
        }
    }
}

impl LabConfig {
    /// The lab settings the environment gives: `.benchscale/labs` in the
    /// home directory (or `/tmp`), a 300 s timeout and cleanup on unless
    /// set.
    pub fn from_env_values(env: &LegacyEnv) -> (r: Self)
        ensures
            r.state_dir@ == text_or(env.state_dir, path_join(text_or(env.home_dir, "/tmp"@), ".benchscale/labs"@)),
            r.create_timeout_secs == number_or(env.lab_timeout, u64::MAX as nat, 300),
            r.auto_cleanup == flag_or(env.auto_cleanup, true),
    {
        let state_dir = match &env.state_dir {
            Some(d) => d.clone(),
            None => {
                let home = text_setting(&env.home_dir, "/tmp");
                join_path(home.as_str(), ".benchscale/labs")
            },
        };
        LabConfig {
            state_dir,
            create_timeout_secs: number_setting(&env.lab_timeout, u64::MAX, 300),
            auto_cleanup: flag_setting(&env.auto_cleanup, true),
        }
    }
}

impl Config {
    /// The configuration the environment gives: each section's settings
    /// from the variables that are set, its defaults for the rest.
    pub fn from_env(env: &LegacyEnv) -> (r: Self)
        ensures
            r.docker.use_hardened_images == flag_or(env.use_hardened, false),
            r.docker.image_pull_timeout_secs == number_or(env.image_timeout, u64::MAX as nat, 300),
            r.libvirt.uri@ == text_or(env.libvirt_uri, "qemu:///system"@),
            r.libvirt.base_image_path@ == text_or(env.base_image_path, "/var/lib/libvirt/images"@),
            r.libvirt.overlay_dir@ == text_or(env.overlay_dir, path_join(env.temp_dir@, "benchscale/overlays"@)),
            r.libvirt.vm_ip_timeout_secs == number_or(env.vm_ip_timeout, u64::MAX as nat, 180),
            r.libvirt.template_dir == env.template_dir,
            r.libvirt.ssh.port == number_or(env.ssh_port, 0xffff, 22),
            r.libvirt.ssh.timeout_secs == number_or(env.ssh_timeout, u64::MAX as nat, 30),
            r.libvirt.ssh.key_path == env.ssh_key,
            r.libvirt.ssh.default_user@ == text_or(env.ssh_user, "benchscale"@),
            r.network.default_subnet@ == text_or(env.default_subnet, "10.100.0.0/24"@),
            r.network.timeout_secs == number_or(env.network_timeout, u64::MAX as nat, 60),
            r.lab.state_dir@ == text_or(env.state_dir, path_join(text_or(env.home_dir, "/tmp"@), ".benchscale/labs"@)),
            r.lab.create_timeout_secs == number_or(env.lab_timeout, u64::MAX as nat, 300),
            r.lab.auto_cleanup == flag_or(env.auto_cleanup, true),
    {
        Config {
            docker: DockerConfig::from_env_values(env),
            libvirt: LibvirtConfig::from_env_values(env),
            network: NetworkConfig::from_env_values(env),
            lab: LabConfig::from_env_values(env),
        }
    }

    /// The SSH timeout.
    pub fn ssh_timeout(&self) -> (r: Duration)
        ensures
            r == duration_of_secs(self.libvirt.ssh.timeout_secs),
    {
        duration_from_secs(self.libvirt.ssh.timeout_secs)
    }

    /// The image pull timeout.
    pub fn image_pull_timeout(&self) -> (r: Duration)
        ensures
            r == duration_of_secs(self.docker.image_pull_timeout_secs),
    {
        duration_from_secs(self.docker.image_pull_timeout_secs)
    }

    /// The network creation timeout.
    pub fn network_timeout(&self) -> (r: Duration)
        ensures
            r == duration_of_secs(self.network.timeout_secs),
    {
        duration_from_secs(self.network.timeout_secs)
    }

    /// The lab creation timeout.
    pub fn lab_create_timeout(&self) -> (r: Duration)
        ensures
            r == duration_of_secs(self.lab.create_timeout_secs),
    {
        duration_from_secs(self.lab.create_timeout_secs)
    }

    /// The VM IP acquisition timeout.
    pub fn vm_ip_timeout(&self) -> (r: Duration)
        ensures
            r == duration_of_secs(self.libvirt.vm_ip_timeout_secs),
    {
        duration_from_secs(self.libvirt.vm_ip_timeout_secs)
    }
}


/// Where agentReagents templates are looked for when
/// `BENCHSCALE_TEMPLATE_DIR` is unset, in order: `images/templates` under
/// `AGENTREAGENTS_PATH` when that is set, then the usual places next to
/// this project.
pub open spec fn template_dir_candidates_spec(agentreagents_path: Option<Seq<char>>) -> Seq<Seq<char>> {
    let relative = seq![
        "../primalTools/agentReagents/images/templates"@,
        "../../primalTools/agentReagents/images/templates"@,
        "../agentReagents/images/templates"@,
        "../../agentReagents/images/templates"@,
        "./agentReagents/images/templates"@,
    ];
    match agentreagents_path {
        Some(base) => seq![path_join(base, "images/templates"@)] + relative,
        None => relative,
    }
}

/// The directories searched for templates, in order; the first that
/// exists is used.
pub fn template_dir_candidates(agentreagents_path: Option<&str>) -> (r: Vec<String>)
    ensures
        views(r@) == template_dir_candidates_spec(match agentreagents_path {
            Some(p) => Some(p@),
            None => None,
        }),
{
    let mut v: Vec<String> = Vec::new();
    if let Some(base) = agentreagents_path {
        v.push(join_path(base, "images/templates"));
    }
    let ghost first = views(v@);
    v.push(owned("../primalTools/agentReagents/images/templates"));
    v.push(owned("../../primalTools/agentReagents/images/templates"));
    v.push(owned("../agentReagents/images/templates"));
    v.push(owned("../../agentReagents/images/templates"));
    v.push(owned("./agentReagents/images/templates"));
    proof {
        assert(views(v@) =~= first + seq![
            "../primalTools/agentReagents/images/templates"@,
            "../../primalTools/agentReagents/images/templates"@,
            "../agentReagents/images/templates"@,
            "../../agentReagents/images/templates"@,
            "./agentReagents/images/templates"@,
        ]);
        match agentreagents_path {
            Some(p) => assert(first =~= seq![path_join(p@, "images/templates"@)]),
            None => assert(first =~= Seq::<Seq<char>>::empty()),
        }
    }
    v
}

} // verus!
