use vstd::prelude::*;

use crate::error::Result;

verus! {

/// The whole configuration: feature toggles and the parameters that every
/// other part reads. Built once and never changed afterwards.
#[derive(Debug, Clone)]
pub struct Config {
    /// Features that can be toggled on/off
    pub features: Features,
    /// Namespace configuration
    pub namespaces: Namespaces,
    /// Mount configuration
    pub mounts: Mounts,
    /// Security settings, kept for configuration compatibility
    pub security: Security,
    /// PTY configuration
    pub pty: Pty,
}

#[derive(Debug, Clone)]
pub struct Features {
    /// Enable OverlayFS support
    pub overlayfs: bool,
    /// Enable user namespace
    pub user_namespace: bool,
    /// Enable mount namespace
    pub mount_namespace: bool,
    /// Enable PID namespace
    pub pid_namespace: bool,
    /// Enable UTS namespace (hostname isolation)
    pub uts_namespace: bool,
    /// Enable network namespace
    pub network_namespace: bool,
    /// Enable PTY allocation
    pub pty_enabled: bool,
    /// Enable death signal (SIGKILL on parent death)
    pub parent_death_signal: bool,
    /// Enable NO_NEW_PRIVS security flag
    pub no_new_privs: bool,
}

#[derive(Debug, Clone)]
pub struct Namespaces {
    /// Custom hostname for the container (if UTS namespace is enabled)
    pub hostname: Option<String>,
    /// Custom domain name for the container
    pub domainname: Option<String>,
}

#[derive(Debug, Clone)]
pub struct Mounts {
    /// Mount /proc inside container
    pub mount_proc: bool,
    /// Mount /sys inside container
    pub mount_sys: bool,
    /// Mount /dev inside container
    pub mount_dev: bool,
    /// Mount /tmp as tmpfs inside container
    pub mount_tmp: bool,
    /// Make root mount private (MS_PRIVATE)
    pub make_root_private: bool,
    /// Mount /sys as read-only
    pub sys_readonly: bool,
    /// Additional bind mounts, applied in this order
    pub bind_mounts: Vec<BindMount>,
}

#[derive(Debug, Clone)]
pub struct BindMount {
    /// Source path on host
    pub source: String,
    /// Destination path in container, taken relative to the new root
    pub destination: String,
    /// Mount as read-only
    pub readonly: bool,
    /// Recursive bind mount
    pub recursive: bool,
}

#[derive(Debug, Clone)]
pub struct Security {
    /// Enable AppArmor profile (if available)
    pub apparmor_enabled: bool,
    /// AppArmor profile name
    pub apparmor_profile: Option<String>,
    /// Drop all capabilities except specified ones
    pub drop_capabilities: bool,
    /// List of capabilities to keep (e.g., "CAP_NET_ADMIN")
    pub keep_capabilities: Vec<String>,
}

#[derive(Debug, Clone)]
pub struct Pty {
    /// Default terminal rows (if stdin is not a TTY)
    pub default_rows: u16,
    /// Default terminal columns (if stdin is not a TTY)
    pub default_cols: u16,
}

pub const DEFAULT_ROWS: u16 = 24;

pub const DEFAULT_COLS: u16 = 80;

impl Features {
    /// Every feature on, but the network namespace.
    pub open spec fn is_default(&self) -> bool {
        &&& self.overlayfs
        &&& self.user_namespace
        &&& self.mount_namespace
        &&& self.pid_namespace
        &&& self.uts_namespace
        &&& !self.network_namespace
        &&& self.pty_enabled
        &&& self.parent_death_signal
        &&& self.no_new_privs
    }
}

impl Namespaces {
    pub open spec fn is_default(&self) -> bool {
        self.hostname.is_none() && self.domainname.is_none()
    }
}

impl Mounts {
    /// Every basic mount on, root made private, /sys read-only, no bind mounts.
    pub open spec fn is_default(&self) -> bool {
        &&& self.mount_proc
        &&& self.mount_sys
        &&& self.mount_dev
        &&& self.mount_tmp
        &&& self.make_root_private
        &&& self.sys_readonly
        &&& self.bind_mounts@.len() == 0
    }
}

impl Security {
    pub open spec fn is_default(&self) -> bool {
        &&& !self.apparmor_enabled
        &&& self.apparmor_profile.is_none()
        &&& !self.drop_capabilities
        &&& self.keep_capabilities@.len() == 0
    }
}

impl Pty {
    /// A 24 x 80 terminal.
    pub open spec fn is_default(&self) -> bool {
        self.default_rows == DEFAULT_ROWS && self.default_cols == DEFAULT_COLS
    }
}

impl Config {
    pub open spec fn is_default(&self) -> bool {
        &&& self.features.is_default()
        &&& self.namespaces.is_default()
        &&& self.mounts.is_default()
        &&& self.security.is_default()
        &&& self.pty.is_default()
    }
}

impl Default for Config {
    fn default() -> (r: Self)
        ensures
            r.is_default(),
    {
        Config {
            features: Features::default(),
            namespaces: Namespaces::default(),
            mounts: Mounts::default(),
            security: Security::default(),
            pty: Pty::default(),
        }
    }
}

impl Default for Features {
    fn default() -> (r: Self)
        ensures
            r.is_default(),
    {
        Features {
            overlayfs: true,
            user_namespace: true,
            mount_namespace: true,
            pid_namespace: true,
            uts_namespace: true,
            network_namespace: false,
            pty_enabled: true,
            parent_death_signal: true,
            no_new_privs: true,
        }
    }
}

impl Default for Namespaces {
    fn default() -> (r: Self)
        ensures
            r.is_default(),
    {
        Namespaces { hostname: None, domainname: None }
    }
}

impl Default for Mounts {
    fn default() -> (r: Self)
        ensures
            r.is_default(),
    {
        Mounts {
            mount_proc: true,
            mount_sys: true,
            mount_dev: true,
            mount_tmp: true,
            make_root_private: true,
            sys_readonly: true,
            bind_mounts: Vec::new(),
        }
    }
}

impl Default for Security {
    fn default() -> (r: Self)
        ensures
            r.is_default(),
    {
        Security {
            apparmor_enabled: false,
            apparmor_profile: None,
            drop_capabilities: false,
            keep_capabilities: Vec::new(),
        }
    }
}

impl Default for Pty {
    fn default() -> (r: Self)
        ensures
            r.is_default(),
    {
        Pty { default_rows: DEFAULT_ROWS, default_cols: DEFAULT_COLS }
    }
}

/// The value a bind mount's `recursive` flag takes when the file leaves it out.
pub fn default_true() -> (r: bool)
    ensures
        r,
{
    true
}

impl Config {
    /// The configuration to run with: the one read from the configuration
    /// file when a file was named (`from_file` is then what reading and
    /// parsing it gave), else the defaults.
    pub fn load_or_default(from_file: Option<Result<Config>>) -> (r: Result<Config>)
        ensures
            match from_file {
                Some(loaded) => r == loaded,
                None => r is Ok && r->Ok_0.is_default(),
            },
    {
        match from_file {
            Some(loaded) => loaded,
            None => Ok(Config::default()),
        }
    }
}

} // verus!
