use vstd::prelude::*;

use crate::config::Config;
use crate::steps::{append_steps, push_step, views, Action, CloneSet, ErrorKind, MountFlags, OnFailure, Op, Step};
use crate::text::{decimal, decimal_string};

verus! {

/// The one line of a uid_map or gid_map that maps `id` outside to 0 inside.
pub open spec fn id_map_line(id: u32) -> Seq<char> {
    "0 "@ + decimal(id as nat) + " 1\n"@
}

pub open spec fn namespace_error() -> OnFailure {
    OnFailure::Abort(ErrorKind::Namespace)
}

pub open spec fn user_only() -> CloneSet {
    CloneSet { user: true, mount: false, pid: false, uts: false, net: false }
}

pub open spec fn mount_only() -> CloneSet {
    CloneSet { user: false, mount: true, pid: false, uts: false, net: false }
}

/// `MS_REC | MS_PRIVATE`
pub open spec fn private_flags() -> MountFlags {
    MountFlags { bind: false, recursive: true, readonly: false, private: true }
}

/// Relies on nix::unistd::getuid: the real user id of this process.
#[verifier::external_body]
fn current_uid() -> (r: u32) {
    nix::unistd::getuid().as_raw()
}

/// Relies on nix::unistd::getgid: the real group id of this process.
#[verifier::external_body]
fn current_gid() -> (r: u32) {
    nix::unistd::getgid().as_raw()
}

/// Namespace manager for setting up Linux namespaces: the configuration and
/// the user and group ids the process had before any namespace change.
pub struct NamespaceManager {
    pub config: Config,
    pub outer_uid: u32,
    pub outer_gid: u32,
}

impl NamespaceManager {
    /// Nothing when the user namespace is off or the process already runs
    /// as root; else a new user namespace, the uid map, `deny` into
    /// setgroups, and then the gid map.
    pub open spec fn user_namespace_steps(&self) -> Seq<(Action, OnFailure)> {
        if !self.config.features.user_namespace || self.outer_uid == 0 {
            seq![]
        } else {
            seq![
                (Action::Unshare(user_only()), namespace_error()),
                (
                    Action::WriteProcFile {
                        path: "/proc/self/uid_map"@,
                        content: id_map_line(self.outer_uid),
                    },
                    namespace_error(),
                ),
                (
                    Action::WriteProcFile { path: "/proc/self/setgroups"@, content: "deny\n"@ },
                    namespace_error(),
                ),
                (
                    Action::WriteProcFile {
                        path: "/proc/self/gid_map"@,
                        content: id_map_line(self.outer_gid),
                    },
                    namespace_error(),
                ),
            ]
        }
    }

    /// The PID, UTS and network namespaces that the configuration enables.
    pub open spec fn other_namespaces(&self) -> CloneSet {
        CloneSet {
            user: false,
            mount: false,
            pid: self.config.features.pid_namespace,
            uts: self.config.features.uts_namespace,
            net: self.config.features.network_namespace,
        }
    }

    /// The hostname, then the domain name when one is configured; only the
    /// first is fatal when it fails.
    pub open spec fn hostname_steps(&self, hostname: Seq<char>) -> Seq<(Action, OnFailure)> {
        seq![(Action::SetHostname(hostname), namespace_error())] + match self.config.namespaces.domainname {
            Some(d) => seq![(Action::SetDomainname(d@), OnFailure::Warn)],
            None => seq![],
        }
    }

    /// One unshare of the enabled PID, UTS and network namespaces, if any;
    /// with UTS, the configured hostname (else `rootbox`).
    pub open spec fn namespaces_steps(&self) -> Seq<(Action, OnFailure)> {
        let f = self.config.features;
        (if f.pid_namespace || f.uts_namespace || f.network_namespace {
            seq![(Action::Unshare(self.other_namespaces()), namespace_error())]
        } else {
            seq![]
        }) + (if f.uts_namespace {
            self.hostname_steps(
                match self.config.namespaces.hostname {
                    Some(h) => h@,
                    None => "rootbox"@,
                },
            )
        } else {
            seq![]
        })
    }

    /// A new mount namespace, with the root made recursively private when
    /// configured.
    pub open spec fn mount_namespace_steps(&self) -> Seq<(Action, OnFailure)> {
        if !self.config.features.mount_namespace {
            seq![]
        } else {
            seq![(Action::Unshare(mount_only()), namespace_error())] + if self.config.mounts.make_root_private {
                seq![
                    (
                        Action::Mount {
                            source: None,
                            target: "/"@,
                            fstype: None,
                            flags: private_flags(),
                            data: None,
                        },
                        OnFailure::Abort(ErrorKind::Mount),
                    ),
                ]
            } else {
                seq![]
            }
        }
    }

    pub open spec fn parent_death_signal_steps(&self) -> Seq<(Action, OnFailure)> {
        if self.config.features.parent_death_signal {
            seq![(Action::ParentDeathSignal, OnFailure::Warn)]
        } else {
            seq![]
        }
    }

    pub open spec fn no_new_privs_steps(&self) -> Seq<(Action, OnFailure)> {
        if self.config.features.no_new_privs {
            seq![(Action::NoNewPrivs, namespace_error())]
        } else {
            seq![]
        }
    }

    /// Captures the ids of the current process; to be called before any
    /// namespace change.
    pub fn new(config: Config) -> (r: Self)
        ensures
            r.config == config,
    {
        let uid = current_uid();
        let gid = current_gid();
        NamespaceManager::with_ids(config, uid, gid)
    }

    /// A manager for a process whose ids outside any new namespace are
    /// `outer_uid` and `outer_gid`.
    pub fn with_ids(config: Config, outer_uid: u32, outer_gid: u32) -> (r: Self)
        ensures
            r.config == config,
            r.outer_uid == outer_uid,
            r.outer_gid == outer_gid,
    {
        NamespaceManager { config, outer_uid, outer_gid }
    }

    fn map_line(id: u32) -> (r: String)
        ensures
            r@ == id_map_line(id),
    {
        String::from_str("0 ").concat(decimal_string(id).as_str()).concat(" 1\n")
    }

    /// The steps of the user namespace with its uid and gid maps.
    pub fn setup_user_namespace(&self) -> (r: Vec<Step>)
        ensures
            views(r@) == self.user_namespace_steps(),
    {
        let mut steps: Vec<Step> = Vec::new();
        if !self.config.features.user_namespace || self.outer_uid == 0 {
            assert(views(steps@) =~= self.user_namespace_steps());
            return steps;
        }
        let user = CloneSet { user: true, mount: false, pid: false, uts: false, net: false };
        push_step(
            &mut steps,
            Step::new(
                Op::Unshare(user),
                OnFailure::Abort(ErrorKind::Namespace),
                "Failed to unshare user namespace",
            ),
        );
        push_step(&mut steps, self.setup_uid_map());
        append_steps(&mut steps, self.setup_gid_map());
        assert(views(steps@) =~= self.user_namespace_steps());
        steps
    }

    fn setup_uid_map(&self) -> (r: Step)
        ensures
            r@ == (
                Action::WriteProcFile {
                    path: "/proc/self/uid_map"@,
                    content: id_map_line(self.outer_uid),
                },
                namespace_error(),
            ),
    {
        let op = Op::WriteProcFile {
            path: String::from_str("/proc/self/uid_map"),
            content: NamespaceManager::map_line(self.outer_uid),
        };
        Step::new(op, OnFailure::Abort(ErrorKind::Namespace), "Failed to write uid_map")
    }

    /// `deny` into setgroups, which must come before the gid map.
    fn setup_gid_map(&self) -> (r: Vec<Step>)
        ensures
            views(r@) == seq![
                (
                    Action::WriteProcFile { path: "/proc/self/setgroups"@, content: "deny\n"@ },
                    namespace_error(),
                ),
                (
                    Action::WriteProcFile {
                        path: "/proc/self/gid_map"@,
                        content: id_map_line(self.outer_gid),
                    },
                    namespace_error(),
                ),
            ],
    {
        let mut steps: Vec<Step> = Vec::new();
        let deny = Op::WriteProcFile {
            path: String::from_str("/proc/self/setgroups"),
            content: String::from_str("deny\n"),
        };
        push_step(
            &mut steps,
            Step::new(deny, OnFailure::Abort(ErrorKind::Namespace), "Failed to write setgroups"),
        );
        let map = Op::WriteProcFile {
            path: String::from_str("/proc/self/gid_map"),
            content: NamespaceManager::map_line(self.outer_gid),
        };
        push_step(
            &mut steps,
            Step::new(map, OnFailure::Abort(ErrorKind::Namespace), "Failed to write gid_map"),
        );
        assert(views(steps@) =~= seq![
            (
                Action::WriteProcFile { path: "/proc/self/setgroups"@, content: "deny\n"@ },
                namespace_error(),
            ),
            (
                Action::WriteProcFile {
                    path: "/proc/self/gid_map"@,
                    content: id_map_line(self.outer_gid),
                },
                namespace_error(),
            ),
        ]);
        steps
    }

    /// The steps of the PID, UTS and network namespaces and the hostname.
    pub fn setup_namespaces(&self) -> (r: Vec<Step>)
        ensures
            views(r@) == self.namespaces_steps(),
    {
        let f = &self.config.features;
        let mut steps: Vec<Step> = Vec::new();
        if f.pid_namespace || f.uts_namespace || f.network_namespace {
            let set = CloneSet {
                user: false,
                mount: false,
                pid: f.pid_namespace,
                uts: f.uts_namespace,
                net: f.network_namespace,
            };
            push_step(
                &mut steps,
                Step::new(
                    Op::Unshare(set),
                    OnFailure::Abort(ErrorKind::Namespace),
                    "Failed to unshare namespaces",
                ),
            );
        }
        if f.uts_namespace {
            let more = match &self.config.namespaces.hostname {
                Some(h) => self.set_hostname(h.as_str()),
                None => self.set_hostname("rootbox"),
            };
            append_steps(&mut steps, more);
        }
        assert(views(steps@) =~= self.namespaces_steps());
        steps
    }

    /// The steps of the mount namespace.
    pub fn setup_mount_namespace(&self) -> (r: Vec<Step>)
        ensures
            views(r@) == self.mount_namespace_steps(),
    {
        let mut steps: Vec<Step> = Vec::new();
        if !self.config.features.mount_namespace {
            assert(views(steps@) =~= self.mount_namespace_steps());
            return steps;
        }
        let mount = CloneSet { user: false, mount: true, pid: false, uts: false, net: false };
        push_step(
            &mut steps,
            Step::new(
                Op::Unshare(mount),
                OnFailure::Abort(ErrorKind::Namespace),
                "Failed to unshare mount namespace",
            ),
        );
        if self.config.mounts.make_root_private {
            let op = Op::Mount {
                source: None,
                target: String::from_str("/"),
                fstype: None,
                flags: MountFlags { bind: false, recursive: true, readonly: false, private: true },
                data: None,
            };
            push_step(
                &mut steps,
                Step::new(op, OnFailure::Abort(ErrorKind::Mount), "Failed to make root private"),
            );
        }
        assert(views(steps@) =~= self.mount_namespace_steps());
        steps
    }

    /// The hostname and, best-effort, the configured domain name.
    fn set_hostname(&self, hostname: &str) -> (r: Vec<Step>)
        ensures
            views(r@) == self.hostname_steps(hostname@),
    {
        let mut steps: Vec<Step> = Vec::new();
        push_step(
            &mut steps,
            Step::new(
                Op::SetHostname(String::from_str(hostname)),
                OnFailure::Abort(ErrorKind::Namespace),
                "Failed to set hostname",
            ),
        );
        match &self.config.namespaces.domainname {
            Some(d) => {
                push_step(
                    &mut steps,
                    Step::new(Op::SetDomainname(d.clone()), OnFailure::Warn, "Failed to set domainname"),
                );
            },
            None => {},
        }
        assert(views(steps@) =~= self.hostname_steps(hostname@));
        steps
    }

    /// The parent-death signal, best-effort; nothing when disabled.
    pub fn setup_parent_death_signal(&self) -> (r: Vec<Step>)
        ensures
            views(r@) == self.parent_death_signal_steps(),
    {
        let mut steps: Vec<Step> = Vec::new();
        if self.config.features.parent_death_signal {
            push_step(
                &mut steps,
                Step::new(Op::ParentDeathSignal, OnFailure::Warn, "Failed to set parent death signal"),
            );
        }
        assert(views(steps@) =~= self.parent_death_signal_steps());
        steps
    }

    /// NO_NEW_PRIVS; nothing when disabled.
    pub fn set_no_new_privs(&self) -> (r: Vec<Step>)
        ensures
            views(r@) == self.no_new_privs_steps(),
    {
        let mut steps: Vec<Step> = Vec::new();
        if self.config.features.no_new_privs {
            push_step(
                &mut steps,
                Step::new(
                    Op::NoNewPrivs,
                    OnFailure::Abort(ErrorKind::Namespace),
                    "Failed to set NO_NEW_PRIVS",
                ),
            );
        }
        assert(views(steps@) =~= self.no_new_privs_steps());
        steps
    }
}

} // verus!
