//! Cloud-init configuration for VM provisioning: a builder for the
//! `#cloud-config` user data and the network-config v2 document of a
//! static address. Writing the user data as YAML happens outside.
use vstd::prelude::*;
use crate::text::{decimal, join, join_strings, owned, push_decimal, push_str, views};

verus! {

/// Cloud-init configuration of a VM.
#[derive(Debug, Clone)]
pub struct CloudInit {
    /// Users to create.
    pub users: Vec<CloudInitUser>,
    /// Packages to install.
    pub packages: Vec<String>,
    /// Commands to run.
    pub runcmd: Vec<String>,
    /// Whether packages are updated on first boot.
    pub package_update: Option<bool>,
    /// Whether packages are upgraded on first boot.
    pub package_upgrade: Option<bool>,
    /// Files to write.
    pub write_files: Vec<CloudInitFile>,
    /// Static network configuration.
    pub network_config: Option<NetworkConfig>,
    /// Apt configuration.
    pub apt: Option<AptConfig>,
    /// Boot commands, run first, as root.
    pub bootcmd: Vec<String>,
}

/// Apt configuration.
#[derive(Debug, Clone)]
pub struct AptConfig {
    /// Raw apt configuration directives.
    pub conf: Option<String>,
}

/// A user to create.
#[derive(Debug, Clone)]
pub struct CloudInitUser {
    /// User name.
    pub name: String,
    /// Groups to add the user to.
    pub groups: Vec<String>,
    /// Sudo rule.
    pub sudo: Option<String>,
    /// Login shell.
    pub shell: Option<String>,
    /// Whether password login is locked.
    pub lock_passwd: Option<bool>,
    /// Hashed password.
    pub passwd: Option<String>,
    /// SSH public keys.
    pub ssh_authorized_keys: Vec<String>,
}

/// A file to write.
#[derive(Debug, Clone)]
pub struct CloudInitFile {
    /// Path on the VM.
    pub path: String,
    /// Content.
    pub content: String,
    /// Permissions in octal, e.g. `0644`.
    pub permissions: Option<String>,
    /// Owner, e.g. `root:root`.
    pub owner: Option<String>,
}

/// Static network configuration (cloud-init network-config v2).
#[derive(Debug, Clone)]
pub struct NetworkConfig {
    /// Interface name, e.g. `enp1s0`.
    pub interface: String,
    /// Address with prefix length, e.g. `192.168.122.10/24`.
    pub address: String,
    /// Gateway address.
    pub gateway: String,
    /// DNS servers.
    pub nameservers: Vec<String>,
    /// Network renderer, or the distribution's default.
    pub renderer: Option<String>,
}

/// The DNS servers a static configuration uses unless told otherwise.
pub open spec fn default_nameservers() -> Seq<Seq<char>> {
    seq!["8.8.8.8"@, "8.8.4.4"@]
}

/// The network-config v2 document of a static configuration.
pub open spec fn network_yaml(c: NetworkConfig) -> Seq<char> {
    "version: 2\n"@ + (match c.renderer {
        Some(r) => "renderer: "@ + r@ + "\n"@,
        None => Seq::empty(),
    }) + "ethernets:\n  "@ + c.interface@ + ":\n    addresses:\n      - "@ + c.address@
        + "\n    gateway4: "@ + c.gateway@ + "\n    nameservers:\n      addresses: ["@ + join(
        views(c.nameservers@),
        ", "@,
    ) + "]\n"@
}

impl NetworkConfig {
    /// A static configuration with the default DNS servers and renderer.
    pub fn new(interface: &str, address: &str, gateway: &str) -> (r: Self)
        ensures
            r.interface@ == interface@,
            r.address@ == address@,
            r.gateway@ == gateway@,
            views(r.nameservers@) == default_nameservers(),
            r.renderer is None,
    {
        let mut ns: Vec<String> = Vec::new();
        ns.push(owned("8.8.8.8"));
        ns.push(owned("8.8.4.4"));
        proof {
            assert(views(ns@) =~= default_nameservers());
        }
        NetworkConfig {
            interface: owned(interface),
            address: owned(address),
            gateway: owned(gateway),
            nameservers: ns,
            renderer: None,
        }
    }

    /// The same configuration with other DNS servers.
    pub fn with_nameservers(self, nameservers: Vec<String>) -> (r: Self)
        ensures
            r == (NetworkConfig { nameservers, ..self }),
    {
        NetworkConfig { nameservers, ..self }
    }

    /// The same configuration with another renderer.
    pub fn with_renderer(self, renderer: Option<String>) -> (r: Self)
        ensures
            r == (NetworkConfig { renderer, ..self }),
    {
        NetworkConfig { renderer, ..self }
    }

    /// The network-config v2 document.
    pub fn to_network_config_yaml(&self) -> (r: String)
        ensures
            r@ == network_yaml(*self),
    {
        let mut s = owned("version: 2\n");
        match &self.renderer {
            Some(r) => {
                let ghost before = s@;
                push_str(&mut s, "renderer: ");
                push_str(&mut s, r.as_str());
                push_str(&mut s, "\n");
                proof {
                    assert(s@ =~= before + ("renderer: "@ + r@ + "\n"@));
                }
            },
            None => {
                proof {
                    assert(s@ + Seq::<char>::empty() =~= s@);
                }
            },
        }
        push_str(&mut s, "ethernets:\n  ");
        push_str(&mut s, self.interface.as_str());
        push_str(&mut s, ":\n    addresses:\n      - ");
        push_str(&mut s, self.address.as_str());
        push_str(&mut s, "\n    gateway4: ");
        push_str(&mut s, self.gateway.as_str());
        push_str(&mut s, "\n    nameservers:\n      addresses: [");
        let j = join_strings(&self.nameservers, ", ");
        push_str(&mut s, j.as_str());
        push_str(&mut s, "]\n");
        s
    }
}

/// A configuration with nothing in it.
pub open spec fn is_empty_config(c: CloudInit) -> bool {
    &&& c.users@.len() == 0
    &&& c.packages@.len() == 0
    &&& c.runcmd@.len() == 0
    &&& c.package_update is None
    &&& c.package_upgrade is None
    &&& c.write_files@.len() == 0
    &&& c.network_config is None
    &&& c.apt is None
    &&& c.bootcmd@.len() == 0
}

impl CloudInit {
    /// An empty configuration.
    pub fn new() -> (r: Self)
        ensures
            is_empty_config(r),
    {
        CloudInit {
            users: Vec::new(),
            packages: Vec::new(),
            runcmd: Vec::new(),
            package_update: None,
            package_upgrade: None,
            write_files: Vec::new(),
            network_config: None,
            apt: None,
            bootcmd: Vec::new(),
        }
    }

    /// A builder that starts from an empty configuration.
    pub fn builder() -> (r: CloudInitBuilder)
        ensures
            is_empty_config(r@),
    {
        CloudInitBuilder::new()
    }
}

impl Default for CloudInit {
    fn default() -> (r: Self)
        ensures
            is_empty_config(r),
    {
        CloudInit::new()
    }
}

/// A builder of cloud-init configurations.
pub struct CloudInitBuilder {
    config: CloudInit,
}

impl View for CloudInitBuilder {
    type V = CloudInit;

    /// The configuration built so far.
    closed spec fn view(&self) -> CloudInit {
        self.config
    }
}

/// The configurations agree on every field but users and commands.
pub open spec fn same_but_users(a: CloudInit, b: CloudInit) -> bool {
    &&& a.packages == b.packages
    &&& a.package_update == b.package_update
    &&& a.package_upgrade == b.package_upgrade
    &&& a.write_files == b.write_files
    &&& a.network_config == b.network_config
    &&& a.apt == b.apt
    &&& a.bootcmd == b.bootcmd
}

/// A sudo-capable user with bash, an unlocked password and one SSH key.
pub open spec fn is_standard_user(u: CloudInitUser, name: Seq<char>, key: Seq<char>) -> bool {
    &&& u.name@ == name
    &&& views(u.groups@) == seq!["users"@, "admin"@, "sudo"@]
    &&& u.sudo matches Some(s) && s@ == "ALL=(ALL) NOPASSWD:ALL"@
    &&& u.shell matches Some(s) && s@ == "/bin/bash"@
    &&& u.lock_passwd == Some(false)
    &&& u.passwd is None
    &&& views(u.ssh_authorized_keys@) == seq![key]
}

fn standard_user(name: String, key: String) -> (r: CloudInitUser)
    ensures
        is_standard_user(r, name@, key@),
{
    let mut groups: Vec<String> = Vec::new();
    groups.push(owned("users"));
    groups.push(owned("admin"));
    groups.push(owned("sudo"));
    let mut keys: Vec<String> = Vec::new();
    let ghost k = key@;
    keys.push(key);
    proof {
        assert(views(groups@) =~= seq!["users"@, "admin"@, "sudo"@]);
        assert(views(keys@) =~= seq![k]);
    }
    CloudInitUser {
        name,
        groups,
        sudo: Some(owned("ALL=(ALL) NOPASSWD:ALL")),
        shell: Some(owned("/bin/bash")),
        lock_passwd: Some(false),
        passwd: None,
        ssh_authorized_keys: keys,
    }
}

/// Whether `c` is a letter or digit (`char::is_alphanumeric`).
pub uninterp spec fn is_alphanumeric_char(c: char) -> bool;

/// Whether a character is a letter or digit (`char::is_alphanumeric`).
///
/// Trusted: the answer depends on the character alone, by Unicode's
/// tables, named by [`is_alphanumeric_char`].
#[verifier::external_body]
fn char_is_alphanumeric(c: char) -> (r: bool)
    ensures
        r == is_alphanumeric_char(c),
{
    c.is_alphanumeric()
}

/// The lower-case form of a text (`str::to_lowercase`).
pub uninterp spec fn lowercase(s: Seq<char>) -> Seq<char>;

/// The lower-case form of a text (`str::to_lowercase`).
///
/// Trusted: the result depends on the text alone, by Unicode's case
/// mappings, named by [`lowercase`].
#[verifier::external_body]
pub(crate) fn to_lowercase(s: &str) -> (r: String)
    ensures
        r@ == lowercase(s@),
{
    s.to_lowercase()
}

/// The letters and digits of a text, in order.
pub open spec fn alphanumerics(s: Seq<char>) -> Seq<char>
    decreases s.len(),
{
    if s.len() == 0 {
        Seq::empty()
    } else if is_alphanumeric_char(s.last()) {
        alphanumerics(s.drop_last()).push(s.last())
    } else {
        alphanumerics(s.drop_last())
    }
}

/// The user name derived from a deployment name: its letters and digits,
/// lower-cased (`web-01` gives `web01`).
pub open spec fn derived_username(deployment: Seq<char>) -> Seq<char> {
    lowercase(alphanumerics(deployment))
}

/// The user name derived from a deployment name.
pub fn derive_username(deployment: &str) -> (r: String)
    ensures
        r@ == derived_username(deployment@),
{
    let cs = crate::text::chars_of(deployment);
    let mut kept = String::new();
    let mut i: usize = 0;
    while i < cs.len()
        invariant
            i <= cs.len(),
            cs@ == deployment@,
            kept@ == alphanumerics(cs@.take(i as int)),
        decreases cs.len() - i,
    {
        proof {
            assert(cs@.take(i + 1).drop_last() =~= cs@.take(i as int));
            assert(cs@.take(i + 1).last() == cs@[i as int]);
        }
        if char_is_alphanumeric(cs[i]) {
            crate::text::push_char(&mut kept, cs[i]);
        }
        i = i + 1;
    }
    proof {
        assert(cs@.take(cs@.len() as int) =~= cs@);
    }
    to_lowercase(kept.as_str())
}

/// The password every derived user gets.
pub open spec fn derived_password() -> Seq<char> {
    "iontest123"@
}

/// The command that sets a derived user's password.
pub open spec fn chpasswd_command(user: Seq<char>) -> Seq<char> {
    "echo '"@ + user + ":"@ + derived_password() + "' | chpasswd"@
}

/// The apt directives for non-interactive installs.
pub open spec fn noninteractive_apt_conf() -> Seq<char> {
    "APT::Install-Recommends \"false\";\nAPT::Get::Assume-Yes \"true\";\nDpkg::Options:: \"--force-confdef\";\nDpkg::Options:: \"--force-confold\";\n"@
}

/// The boot commands that keep package installs from prompting or
/// stalling, in order.
pub open spec fn noninteractive_bootcmds() -> Seq<Seq<char>> {
    seq!["mkdir -p /etc/needrestart/conf.d"@, "printf '%s\\n' '$nrconf{restart} = \"a\";' > /etc/needrestart/conf.d/no-prompt.conf"@, "export DEBIAN_FRONTEND=noninteractive"@, "export NEEDRESTART_MODE=a"@, "export NEEDRESTART_SUSPEND=1"@, "echo 'path-exclude=/usr/share/man/*' >> /etc/dpkg/dpkg.cfg.d/01_nodoc"@, "rm -f /var/lib/man-db/auto-update"@, "if dpkg -l | grep -q '^ii.*needrestart'; then apt-get remove --purge -y needrestart && apt-get autoremove -y; fi"@]
}

/// The boot command that pre-caches packages from a local mirror.
pub open spec fn mirror_bootcmd(url: Seq<char>) -> Seq<char> {
    "# Mise en place: Pre-cache packages from local server\nmkdir -p /var/cache/apt/archives/partial\ncd /var/cache/apt/archives\n# Download pre-built packages from agentReagents\nwget -q -r -np -nH --cut-dirs=2 -R \"index.html*\" "@ + url + "/apt-cache/archives/ 2>/dev/null || true\n# apt will use these cached files automatically!"@
}

/// A static address with its prefix length, e.g. `192.168.122.10/24`.
pub open spec fn address_with_prefix(ip: Seq<char>, cidr: u8) -> Seq<char> {
    ip + "/"@ + decimal(cidr as nat)
}

fn address_string(ip: &str, cidr: u8) -> (r: String)
    ensures
        r@ == address_with_prefix(ip@, cidr),
{
    let mut s = owned(ip);
    push_str(&mut s, "/");
    push_decimal(&mut s, cidr as u64);
    s
}

impl CloudInitBuilder {
    /// A builder that starts from an empty configuration.
    pub fn new() -> (r: Self)
        ensures
            is_empty_config(r@),
    {
        CloudInitBuilder { config: CloudInit::new() }
    }

    /// Adds a user.
    pub fn user(self, user: CloudInitUser) -> (r: Self)
        ensures
            r@.users@ == self@.users@.push(user),
            r@.runcmd == self@.runcmd,
            same_but_users(r@, self@),
    {
        let mut c = self.config;
        c.users.push(user);
        CloudInitBuilder { config: c }
    }

    /// Adds a sudo-capable user with bash and one SSH key.
    pub fn add_user(self, name: &str, ssh_key: &str) -> (r: Self)
        ensures
            r@.users@.len() == self@.users@.len() + 1,
            r@.users@.drop_last() == self@.users@,
            is_standard_user(r@.users@.last(), name@, ssh_key@),
            r@.runcmd == self@.runcmd,
            same_but_users(r@, self@),
    {
        let u = standard_user(owned(name), owned(ssh_key));
        let mut c = self.config;
        c.users.push(u);
        proof {
            assert(c.users@.drop_last() =~= self@.users@);
        }
        CloudInitBuilder { config: c }
    }

    /// Adds a user named after a deployment (its letters and digits,
    /// lower-cased), with the derived password set by a command.
    pub fn add_derived_user(self, deployment_name: &str, ssh_key: &str) -> (r: Self)
        ensures
            r@.users@.len() == self@.users@.len() + 1,
            r@.users@.drop_last() == self@.users@,
            is_standard_user(r@.users@.last(), derived_username(deployment_name@), ssh_key@),
            views(r@.runcmd@) == views(self@.runcmd@).push(chpasswd_command(derived_username(deployment_name@))),
            same_but_users(r@, self@),
    {
        let username = derive_username(deployment_name);
        let mut cmd = owned("echo '");
        push_str(&mut cmd, username.as_str());
        push_str(&mut cmd, ":");
        push_str(&mut cmd, "iontest123");
        push_str(&mut cmd, "' | chpasswd");
        let u = standard_user(username, owned(ssh_key));
        let mut c = self.config;
        c.users.push(u);
        let ghost cv = cmd@;
        c.runcmd.push(cmd);
        proof {
            assert(c.users@.drop_last() =~= self@.users@);
            assert(views(c.runcmd@) =~= views(self@.runcmd@).push(cv));
        }
        CloudInitBuilder { config: c }
    }

    /// Adds packages to install.
    pub fn packages(self, packages: Vec<String>) -> (r: Self)
        ensures
            r@.packages@ == self@.packages@ + packages@,
            r@.users == self@.users && r@.runcmd == self@.runcmd && r@.bootcmd == self@.bootcmd,
    {
        let mut c = self.config;
        let mut i: usize = 0;
        while i < packages.len()
            invariant
                i <= packages.len(),
                c.packages@ == self@.packages@ + packages@.take(i as int),
                c.users == self@.users && c.runcmd == self@.runcmd && c.bootcmd == self@.bootcmd,
            decreases packages.len() - i,
        {
            c.packages.push(packages[i].clone());
            proof {
                assert(packages@.take(i + 1) =~= packages@.take(i as int).push(packages@[i as int]));
            }
            i = i + 1;
        }
        proof {
            assert(packages@.take(packages@.len() as int) =~= packages@);
        }
        CloudInitBuilder { config: c }
    }

    /// Adds one package.
    pub fn package(self, package: &str) -> (r: Self)
        ensures
            views(r@.packages@) == views(self@.packages@).push(package@),
            r@.users == self@.users && r@.runcmd == self@.runcmd && r@.bootcmd == self@.bootcmd,
    {
        let mut c = self.config;
        c.packages.push(owned(package));
        proof {
            assert(views(c.packages@) =~= views(self@.packages@).push(package@));
        }
        CloudInitBuilder { config: c }
    }

    /// Adds commands to run.
    pub fn runcmd(self, commands: Vec<String>) -> (r: Self)
        ensures
            r@.runcmd@ == self@.runcmd@ + commands@,
            r@.users == self@.users && r@.packages == self@.packages && r@.bootcmd == self@.bootcmd,
    {
        let mut c = self.config;
        let mut i: usize = 0;
        while i < commands.len()
            invariant
                i <= commands.len(),
                c.runcmd@ == self@.runcmd@ + commands@.take(i as int),
                c.users == self@.users && c.packages == self@.packages && c.bootcmd == self@.bootcmd,
            decreases commands.len() - i,
        {
            c.runcmd.push(commands[i].clone());
            proof {
                assert(commands@.take(i + 1) =~= commands@.take(i as int).push(commands@[i as int]));
            }
            i = i + 1;
        }
        proof {
            assert(commands@.take(commands@.len() as int) =~= commands@);
        }
        CloudInitBuilder { config: c }
    }

    /// Adds one command to run.
    pub fn cmd(self, command: &str) -> (r: Self)
        ensures
            views(r@.runcmd@) == views(self@.runcmd@).push(command@),
            r@.users == self@.users && r@.packages == self@.packages && r@.bootcmd == self@.bootcmd,
    {
        let mut c = self.config;
        c.runcmd.push(owned(command));
        proof {
            assert(views(c.runcmd@) =~= views(self@.runcmd@).push(command@));
        }
        CloudInitBuilder { config: c }
    }

    /// Configures apt for non-interactive installs and adds the boot
    /// commands that keep installs from prompting or stalling.
    pub fn with_noninteractive_apt(self) -> (r: Self)
        ensures
            r@.apt matches Some(a) && a.conf matches Some(t) && t@ == noninteractive_apt_conf(),
            views(r@.bootcmd@) == views(self@.bootcmd@) + noninteractive_bootcmds(),
            r@.users == self@.users && r@.packages == self@.packages && r@.runcmd == self@.runcmd,
    {
        let mut c = self.config;
        c.apt = Some(AptConfig { conf: Some(owned("APT::Install-Recommends \"false\";\nAPT::Get::Assume-Yes \"true\";\nDpkg::Options:: \"--force-confdef\";\nDpkg::Options:: \"--force-confold\";\n")) });
        let ghost b0 = views(c.bootcmd@);
        c.bootcmd.push(owned("mkdir -p /etc/needrestart/conf.d"));
        c.bootcmd.push(owned("printf '%s\\n' '$nrconf{restart} = \"a\";' > /etc/needrestart/conf.d/no-prompt.conf"));
        c.bootcmd.push(owned("export DEBIAN_FRONTEND=noninteractive"));
        c.bootcmd.push(owned("export NEEDRESTART_MODE=a"));
        c.bootcmd.push(owned("export NEEDRESTART_SUSPEND=1"));
        c.bootcmd.push(owned("echo 'path-exclude=/usr/share/man/*' >> /etc/dpkg/dpkg.cfg.d/01_nodoc"));
        c.bootcmd.push(owned("rm -f /var/lib/man-db/auto-update"));
        c.bootcmd.push(owned("if dpkg -l | grep -q '^ii.*needrestart'; then apt-get remove --purge -y needrestart && apt-get autoremove -y; fi"));
        proof {
            assert(views(c.bootcmd@) =~= b0 + noninteractive_bootcmds());
        }
        CloudInitBuilder { config: c }
    }

    /// Adds the boot commands that pre-cache packages from a local mirror.
    pub fn with_local_mirror(self, mirror_url: &str) -> (r: Self)
        ensures
            views(r@.bootcmd@) == views(self@.bootcmd@).push(mirror_bootcmd(mirror_url@)).push(
                "# Internet sources remain as fallback for dependencies"@,
            ),
            r@.users == self@.users && r@.packages == self@.packages && r@.runcmd == self@.runcmd,
    {
        let mut c = self.config;
        let ghost b0 = views(c.bootcmd@);
        let mut m = owned("# Mise en place: Pre-cache packages from local server\nmkdir -p /var/cache/apt/archives/partial\ncd /var/cache/apt/archives\n# Download pre-built packages from agentReagents\nwget -q -r -np -nH --cut-dirs=2 -R \"index.html*\" ");
        push_str(&mut m, mirror_url);
        push_str(&mut m, "/apt-cache/archives/ 2>/dev/null || true\n# apt will use these cached files automatically!");
        let ghost mv = m@;
        c.bootcmd.push(m);
        c.bootcmd.push(owned("# Internet sources remain as fallback for dependencies"));
        proof {
            assert(views(c.bootcmd@) =~= b0.push(mv).push("# Internet sources remain as fallback for dependencies"@));
        }
        CloudInitBuilder { config: c }
    }

    /// Sets whether packages are updated on first boot.
    pub fn package_update(self, enabled: bool) -> (r: Self)
        ensures
            r@ == (CloudInit { package_update: Some(enabled), ..self@ }),
    {
        CloudInitBuilder { config: CloudInit { package_update: Some(enabled), ..self.config } }
    }

    /// Sets whether packages are upgraded on first boot.
    pub fn package_upgrade(self, enabled: bool) -> (r: Self)
        ensures
            r@ == (CloudInit { package_upgrade: Some(enabled), ..self@ }),
    {
        CloudInitBuilder { config: CloudInit { package_upgrade: Some(enabled), ..self.config } }
    }

    /// Adds a file to write, with default permissions and owner.
    pub fn write_file(self, path: &str, content: &str) -> (r: Self)
        ensures
            r@.write_files@.len() == self@.write_files@.len() + 1,
            r@.write_files@.drop_last() == self@.write_files@,
            r@.write_files@.last().path@ == path@,
            r@.write_files@.last().content@ == content@,
            r@.write_files@.last().permissions is None,
            r@.write_files@.last().owner is None,
            r@.users == self@.users && r@.packages == self@.packages && r@.runcmd == self@.runcmd,
    {
        let mut c = self.config;
        c.write_files.push(CloudInitFile { path: owned(path), content: owned(content), permissions: None, owner: None });
        proof {
            assert(c.write_files@.drop_last() =~= self@.write_files@);
        }
        CloudInitBuilder { config: c }
    }

    /// Sets a static address `ip/cidr` on `interface` with the default DNS
    /// servers.
    pub fn static_ip(self, interface: &str, ip: &str, cidr: u8, gateway: &str) -> (r: Self)
        ensures
            r@.network_config matches Some(n) && n.interface@ == interface@ && n.address@
                == address_with_prefix(ip@, cidr) && n.gateway@ == gateway@ && views(n.nameservers@)
                == default_nameservers() && n.renderer is None,
            r@.users == self@.users && r@.packages == self@.packages && r@.runcmd == self@.runcmd,
    {
        let address = address_string(ip, cidr);
        let n = NetworkConfig::new(interface, address.as_str(), gateway);
        CloudInitBuilder { config: CloudInit { network_config: Some(n), ..self.config } }
    }

    /// Sets a static address `ip/cidr` on `interface` with the given DNS
    /// servers.
    pub fn static_ip_with_dns(self, interface: &str, ip: &str, cidr: u8, gateway: &str, nameservers: Vec<String>) -> (r: Self)
        ensures
            r@.network_config matches Some(n) && n.interface@ == interface@ && n.address@
                == address_with_prefix(ip@, cidr) && n.gateway@ == gateway@ && n.nameservers == nameservers
                && n.renderer is None,
            r@.users == self@.users && r@.packages == self@.packages && r@.runcmd == self@.runcmd,
    {
        let address = address_string(ip, cidr);
        let n = NetworkConfig::new(interface, address.as_str(), gateway).with_nameservers(nameservers);
        CloudInitBuilder { config: CloudInit { network_config: Some(n), ..self.config } }
    }

    /// The configuration.
    pub fn build(self) -> (r: CloudInit)
        ensures
            r == self@,
    {
        self.config
    }
}

impl Default for CloudInitBuilder {
    fn default() -> (r: Self)
        ensures
            is_empty_config(r@),
    {
        CloudInitBuilder::new()
    }
}

/// The command that sets a VM's host name.
pub open spec fn hostname_command(hostname: Seq<char>) -> Seq<char> {
    "hostnamectl set-hostname "@ + hostname
}

fn hostname_cmd(hostname: &str) -> (r: String)
    ensures
        r@ == hostname_command(hostname@),
{
    let mut c = owned("hostnamectl set-hostname ");
    push_str(&mut c, hostname);
    c
}

/// The smallest configuration for building images: the standard `ubuntu`
/// user with one key, and the host name set by a command.
pub fn minimal_cloud_init(hostname: &str, ssh_key: &str) -> (r: CloudInit)
    ensures
        r.users@.len() == 1,
        is_standard_user(r.users@[0], "ubuntu"@, ssh_key@),
        views(r.runcmd@) == seq![hostname_command(hostname@)],
        r.packages@.len() == 0,
{
    let mut ci = CloudInit::builder().add_user("ubuntu", ssh_key).build();
    ci.runcmd.push(hostname_cmd(hostname));
    proof {
        assert(views(ci.runcmd@) =~= seq![hostname_command(hostname@)]);
    }
    ci
}

/// The packages of a desktop VM.
pub open spec fn desktop_packages() -> Seq<Seq<char>> {
    seq!["ubuntu-desktop-minimal"@, "pipewire"@, "wireplumber"@]
}

/// A desktop VM's configuration: the minimal one plus a minimal desktop and
/// the PipeWire audio stack.
pub fn desktop_cloud_init(hostname: &str, ssh_key: &str) -> (r: CloudInit)
    ensures
        r.users@.len() == 1,
        is_standard_user(r.users@[0], "ubuntu"@, ssh_key@),
        views(r.runcmd@) == seq![hostname_command(hostname@)],
        views(r.packages@) == desktop_packages(),
{
    let mut ci = minimal_cloud_init(hostname, ssh_key);
    ci.packages.push(owned("ubuntu-desktop-minimal"));
    ci.packages.push(owned("pipewire"));
    ci.packages.push(owned("wireplumber"));
    proof {
        assert(views(ci.packages@) =~= desktop_packages());
    }
    ci
}

/// A RustDesk VM's configuration: that of a desktop VM (RustDesk itself is
/// installed afterwards).
pub fn rustdesk_cloud_init(hostname: &str, ssh_key: &str) -> (r: CloudInit)
    ensures
        r.users@.len() == 1,
        is_standard_user(r.users@[0], "ubuntu"@, ssh_key@),
        views(r.runcmd@) == seq![hostname_command(hostname@)],
        views(r.packages@) == desktop_packages(),
{
    desktop_cloud_init(hostname, ssh_key)
}


/// The user-data document of a cloud-init configuration: the
/// `#cloud-config` header line, then the configuration's YAML.
pub fn user_data_document(yaml: &str) -> (r: String)
    ensures
        r@ == "#cloud-config\n"@ + yaml@,
{
    let mut d = owned("#cloud-config\n");
    push_str(&mut d, yaml);
    d
}

} // verus!
