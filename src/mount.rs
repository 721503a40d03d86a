use vstd::prelude::*;

use crate::config::{BindMount, Config, Mounts};
use crate::steps::{
    append_steps, push_step, views, Action, ErrorKind, MountFlags, OnFailure, Op,
    Step,
};
use crate::text::{join_path, path_join, strip_leading_slashes, strip_root};

verus! {

pub open spec fn str_opt_view(o: Option<&str>) -> Option<Seq<char>> {
    match o {
        Some(s) => Some(s@),
        None => None,
    }
}

/// A mount with no flags.
pub open spec fn no_flags() -> MountFlags {
    MountFlags { bind: false, recursive: false, readonly: false, private: false }
}

/// `MS_BIND`, with `MS_REC` and `MS_RDONLY` as asked.
pub open spec fn bind_flags(recursive: bool, readonly: bool) -> MountFlags {
    MountFlags { bind: true, recursive, readonly, private: false }
}

pub open spec fn mount_error() -> OnFailure {
    OnFailure::Abort(ErrorKind::Mount)
}

/// Create `dir` under `root` if it is missing, then mount `source` there.
pub open spec fn mount_under(
    root: Seq<char>,
    dir: Seq<char>,
    source: Seq<char>,
    fstype: Option<Seq<char>>,
    flags: MountFlags,
) -> Seq<(Action, OnFailure)> {
    let target = path_join(root, dir);
    seq![
        (Action::EnsureDir(target), mount_error()),
        (Action::Mount { source: Some(source), target, fstype, flags, data: None }, mount_error()),
    ]
}

/// Where a bind mount lands: its destination taken relative to the new root.
pub open spec fn bind_target(root: Seq<char>, b: BindMount) -> Seq<char> {
    path_join(root, strip_leading_slashes(b.destination@))
}

pub open spec fn bind_mount_steps(root: Seq<char>, b: BindMount) -> Seq<(Action, OnFailure)> {
    let target = bind_target(root, b);
    seq![
        (Action::EnsureDir(target), mount_error()),
        (
            Action::Mount {
                source: Some(b.source@),
                target,
                fstype: None,
                flags: bind_flags(b.recursive, b.readonly),
                data: None,
            },
            mount_error(),
        ),
    ]
}

/// The bind mounts, in the order they are configured.
pub open spec fn bind_mounts_steps(root: Seq<char>, bs: Seq<BindMount>) -> Seq<(Action, OnFailure)>
    decreases bs.len(),
{
    if bs.len() == 0 {
        seq![]
    } else {
        bind_mounts_steps(root, bs.drop_last()) + bind_mount_steps(root, bs.last())
    }
}

/// /proc, /sys, /dev and /tmp as enabled, then the bind mounts.
pub open spec fn basic_mounts_steps(m: Mounts, root: Seq<char>) -> Seq<(Action, OnFailure)> {
    (if m.mount_proc {
        mount_under(root, "proc"@, "proc"@, Some("proc"@), no_flags())
    } else {
        seq![]
    }) + (if m.mount_sys {
        mount_under(root, "sys"@, "/sys"@, None, bind_flags(true, m.sys_readonly))
    } else {
        seq![]
    }) + (if m.mount_dev {
        mount_under(root, "dev"@, "/dev"@, None, bind_flags(true, false))
    } else {
        seq![]
    }) + (if m.mount_tmp {
        mount_under(root, "tmp"@, "tmpfs"@, Some("tmpfs"@), no_flags())
    } else {
        seq![]
    }) + bind_mounts_steps(root, m.bind_mounts@)
}

/// Change root, then change directory to the new `/`.
pub open spec fn chroot_steps(root: Seq<char>) -> Seq<(Action, OnFailure)> {
    seq![
        (Action::Chroot(root), OnFailure::Abort(ErrorKind::Chroot)),
        (Action::Chdir("/"@), OnFailure::Abort(ErrorKind::Chroot)),
    ]
}

/// Mount manager for handling filesystem operations
pub struct MountManager {
    pub config: Config,
}

impl MountManager {
    pub fn new(config: Config) -> (r: Self)
        ensures
            r.config == config,
    {
        MountManager { config }
    }

    /// Appends to `steps`: create `dir` under `root`, then mount there.
    fn mount_under(
        &self,
        steps: &mut Vec<Step>,
        root: &str,
        dir: &str,
        source: &str,
        fstype: Option<&str>,
        flags: MountFlags,
        context: &str,
    )
        ensures
            views(final(steps)@) == views(old(steps)@) + mount_under(
                root@,
                dir@,
                source@,
                str_opt_view(fstype),
                flags,
            ),
    {
        let target = join_path(root, dir);
        let ghost t = target@;
        push_step(steps, self.ensure_dir(target.clone()));
        let fs = match fstype {
            Some(f) => Some(String::from_str(f)),
            None => None,
        };
        let op = Op::Mount {
            source: Some(String::from_str(source)),
            target,
            fstype: fs,
            flags,
            data: None,
        };
        push_step(steps, Step::new(op, OnFailure::Abort(ErrorKind::Mount), context));
        assert(views(final(steps)@) =~= views(old(steps)@) + mount_under(
            root@,
            dir@,
            source@,
            str_opt_view(fstype),
            flags,
        ));
    }

    /// The steps that mount /proc, /sys, /dev and /tmp under `new_root` as
    /// the configuration enables them, each on a directory created if
    /// missing, followed by the configured bind mounts in their order.
    pub fn setup_basic_mounts(&self, new_root: &str) -> (r: Vec<Step>)
        ensures
            views(r@) == basic_mounts_steps(self.config.mounts, new_root@),
    {
        let mut steps: Vec<Step> = Vec::new();
        let plain = MountFlags { bind: false, recursive: false, readonly: false, private: false };
        let m = &self.config.mounts;
        let ghost root = new_root@;
        if m.mount_proc {
            self.mount_under(&mut steps, new_root, "proc", "proc", Some("proc"), plain, "Failed to mount proc");
        }
        if m.mount_sys {
            let sys = MountFlags { bind: true, recursive: true, readonly: m.sys_readonly, private: false };
            self.mount_under(&mut steps, new_root, "sys", "/sys", None, sys, "Failed to mount sys");
        }
        if m.mount_dev {
            let dev = MountFlags { bind: true, recursive: true, readonly: false, private: false };
            self.mount_under(&mut steps, new_root, "dev", "/dev", None, dev, "Failed to mount dev");
        }
        if m.mount_tmp {
            self.mount_under(&mut steps, new_root, "tmp", "tmpfs", Some("tmpfs"), plain, "Failed to mount tmpfs");
        }
        let ghost prefix = views(steps@);
        let n = m.bind_mounts.len();
        let mut i: usize = 0;
        assert(m.bind_mounts@.take(0) =~= Seq::<BindMount>::empty());
        assert(prefix =~= prefix + bind_mounts_steps(root, m.bind_mounts@.take(0)));
        while i < n
            invariant
                i <= n,
                n == m.bind_mounts@.len(),
                root == new_root@,
                views(steps@) == prefix + bind_mounts_steps(root, m.bind_mounts@.take(i as int)),
            decreases n - i,
        {
            let more = self.setup_bind_mount(new_root, &m.bind_mounts[i]);
            append_steps(&mut steps, more);
            assert(m.bind_mounts@.take(i + 1).drop_last() =~= m.bind_mounts@.take(i as int));
            assert(m.bind_mounts@.take(i + 1).last() == m.bind_mounts@[i as int]);
            assert(bind_mounts_steps(root, m.bind_mounts@.take(i + 1)) == bind_mounts_steps(
                root,
                m.bind_mounts@.take(i as int),
            ) + bind_mount_steps(root, m.bind_mounts@[i as int]));
            assert(prefix + bind_mounts_steps(root, m.bind_mounts@.take(i + 1)) =~= prefix
                + bind_mounts_steps(root, m.bind_mounts@.take(i as int)) + bind_mount_steps(
                root,
                m.bind_mounts@[i as int],
            ));
            i += 1;
        }
        assert(m.bind_mounts@.take(n as int) =~= m.bind_mounts@);
        assert(views(steps@) =~= basic_mounts_steps(self.config.mounts, root));
        steps
    }

    /// The steps of one bind mount: create its destination under the new
    /// root if missing, then bind the source there.
    pub fn setup_bind_mount(&self, new_root: &str, bind_mount: &BindMount) -> (r: Vec<Step>)
        ensures
            views(r@) == bind_mount_steps(new_root@, *bind_mount),
    {
        let rel = strip_root(bind_mount.destination.as_str());
        let dest = join_path(new_root, rel);
        let mut steps: Vec<Step> = Vec::new();
        push_step(&mut steps, self.ensure_dir(dest.clone()));
        let flags = MountFlags {
            bind: true,
            recursive: bind_mount.recursive,
            readonly: bind_mount.readonly,
            private: false,
        };
        let op = Op::Mount {
            source: Some(bind_mount.source.clone()),
            target: dest,
            fstype: None,
            flags,
            data: None,
        };
        push_step(&mut steps, Step::new(op, OnFailure::Abort(ErrorKind::Mount), "Failed to bind mount"));
        assert(views(steps@) =~= bind_mount_steps(new_root@, *bind_mount));
        steps
    }

    /// The step that makes sure a directory exists.
    fn ensure_dir(&self, path: String) -> (r: Step)
        ensures
            r@ == (Action::EnsureDir(path@), mount_error()),
    {
        Step::new(Op::EnsureDir(path), OnFailure::Abort(ErrorKind::Mount), "Failed to create directory")
    }

    /// The steps that change root to `new_root` and then the working
    /// directory to `/`; a failure of either is a chroot error.
    pub fn chroot(&self, new_root: &str) -> (r: Vec<Step>)
        ensures
            views(r@) == chroot_steps(new_root@),
    {
        let mut steps: Vec<Step> = Vec::new();
        let to_root = Step::new(
            Op::Chroot(String::from_str(new_root)),
            OnFailure::Abort(ErrorKind::Chroot),
            "Failed to chroot",
        );
        push_step(&mut steps, to_root);
        let to_slash = Step::new(
            Op::Chdir(String::from_str("/")),
            OnFailure::Abort(ErrorKind::Chroot),
            "Failed to chdir to /",
        );
        push_step(&mut steps, to_slash);
        assert(views(steps@) =~= chroot_steps(new_root@));
        steps
    }
}

} // verus!
