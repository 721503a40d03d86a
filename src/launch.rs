use vstd::prelude::*;

use crate::error::{Result, RootboxError};
use crate::config::Mounts;
use crate::mount::{basic_mounts_steps, chroot_steps, MountManager};
use crate::namespace::{mount_only, user_only, NamespaceManager};
use crate::overlay::OverlayFsManager;
use crate::pty::{pty_error, slave_steps, PtyManager};
use crate::steps::{append_steps, push_step, strings_view, views, Action, ErrorKind, OnFailure, Op, Step};
use crate::text::contains_char;

verus! {

/// The steps of a launch on each side of the fork.
pub struct LaunchPlan {
    /// in the supervisor, before the fork
    pub before_fork: Vec<Step>,
    /// in the supervisor, after the fork
    pub parent: Vec<Step>,
    /// in the contained process, after the fork
    pub child: Vec<Step>,
}

/// Where the supervisor's part of a launch failed.
#[derive(Debug, Clone, Copy, PartialEq, Eq, Structural)]
pub enum FailedAt {
    /// a step before the fork
    BeforeFork,
    /// the fork itself
    Fork,
    /// the parent step at this index
    Parent(usize),
}

/// The index of the first parent step that releases what the launch holds
/// (the PTY, the host terminal, the overlay's scratch directories).
pub const RELEASE_FROM: usize = 4;

/// The first parent step still to run, best-effort, after a failure at
/// `at`: the releasing steps, or those of them after the failed one.
pub open spec fn recovery_start(at: FailedAt, len: int) -> int {
    let start = match at {
        FailedAt::Parent(i) => if i + 1 > RELEASE_FROM {
            i + 1
        } else {
            RELEASE_FROM as int
        },
        _ => RELEASE_FROM as int,
    };
    if start > len {
        len
    } else {
        start
    }
}

/// The same operations, each best-effort.
pub open spec fn warn_all(s: Seq<(Action, OnFailure)>) -> Seq<(Action, OnFailure)> {
    s.map_values(|p: (Action, OnFailure)| (p.0, OnFailure::Warn))
}

/// After a failure in the supervisor: close the PTY, restore the host
/// terminal, and release the overlay's scratch directories, all
/// best-effort, so that the first error is the one reported.
pub open spec fn abort_steps(overlay: Option<OverlayFsManager>) -> Seq<(Action, OnFailure)> {
    seq![(Action::ClosePty, OnFailure::Warn), (Action::RestoreTerminal, OnFailure::Warn)]
        + match overlay {
        Some(o) => warn_all(o.cleanup_steps()),
        None => seq![],
    }
}

/// The steps of `steps`, each made best-effort.
pub fn best_effort(steps: Vec<Step>) -> (r: Vec<Step>)
    ensures
        views(r@) == warn_all(views(steps@)),
{
    let ghost all = views(steps@);
    let mut rest = steps;
    let mut out: Vec<Step> = Vec::new();
    assert(warn_all(all) =~= views(out@) + warn_all(views(rest@)));
    while rest.len() > 0
        invariant
            warn_all(all) == views(out@) + warn_all(views(rest@)),
        decreases rest@.len(),
    {
        let ghost before = rest@;
        let s = rest.remove(0);
        assert(before =~= seq![s] + rest@);
        let w = Step { op: s.op, on_failure: OnFailure::Warn, context: s.context };
        let ghost prev = out@;
        out.push(w);
        assert(views(out@) =~= views(prev).push(w@));
        assert(warn_all(views(before)) =~= seq![w@] + warn_all(views(rest@)));
        assert(warn_all(all) =~= views(out@) + warn_all(views(rest@)));
    }
    assert(warn_all(views(rest@)) =~= Seq::<(Action, OnFailure)>::empty());
    assert(views(out@) =~= warn_all(all));
    out
}

/// Parent-death signal, then the user namespace, then the other namespaces.
pub open spec fn before_fork_steps(ns: NamespaceManager) -> Seq<(Action, OnFailure)> {
    ns.parent_death_signal_steps() + ns.user_namespace_steps() + ns.namespaces_steps()
}

/// The supervisor's side: close the slave, raw mode, proxy until the child
/// is gone, reap it, close the PTY, restore the terminal, and release the
/// overlay's scratch directories.
pub open spec fn parent_steps(slave_fd: i32, overlay: Option<OverlayFsManager>) -> Seq<(Action, OnFailure)> {
    seq![
        (Action::Close(slave_fd), OnFailure::Warn),
        (Action::SetRawMode, pty_error()),
        (Action::ProxyIo, OnFailure::Warn),
        (Action::WaitChild, OnFailure::Abort(ErrorKind::Process)),
        (Action::ClosePty, OnFailure::Warn),
        (Action::RestoreTerminal, pty_error()),
    ] + match overlay {
        Some(o) => o.cleanup_steps(),
        None => seq![],
    }
}

pub open spec fn exec_step(command: Seq<char>, args: Seq<Seq<char>>) -> (Action, OnFailure) {
    (Action::Exec { command, args }, OnFailure::Abort(ErrorKind::Exec))
}

/// The contained process's side: close the master, the mount namespace,
/// the overlay mount, the basic and bind mounts, chroot, the slave as
/// terminal, NO_NEW_PRIVS, and last the command itself.
pub open spec fn child_steps(
    ns: NamespaceManager,
    mounts: Mounts,
    final_root: Seq<char>,
    overlay: Option<OverlayFsManager>,
    master_fd: i32,
    slave_fd: i32,
    command: Seq<char>,
    args: Seq<Seq<char>>,
) -> Seq<(Action, OnFailure)> {
    seq![(Action::Close(master_fd), OnFailure::Warn)] + ns.mount_namespace_steps() + match overlay {
        Some(o) => o.setup_steps(),
        None => seq![],
    } + basic_mounts_steps(mounts, final_root) + chroot_steps(final_root) + slave_steps(slave_fd)
        + ns.no_new_privs_steps() + seq![exec_step(command, args)]
}

/// The launch of `command` with `args` in `final_root`, given the PTY pair
/// already opened (`master_fd`, `slave_fd`) and, in overlay mode, the
/// overlay to mount.
pub fn container_plan(
    ns: &NamespaceManager,
    mounts: &MountManager,
    pty: &PtyManager,
    final_root: &str,
    overlay: &Option<OverlayFsManager>,
    master_fd: i32,
    slave_fd: i32,
    command: &String,
    args: &Vec<String>,
) -> (r: LaunchPlan)
    requires
        overlay matches Some(o) ==> final_root@ == o.temp_merged@,
    ensures
        views(r.before_fork@) == before_fork_steps(*ns),
        views(r.parent@) == parent_steps(slave_fd, *overlay),
        views(r.child@) == child_steps(
            *ns,
            mounts.config.mounts,
            final_root@,
            *overlay,
            master_fd,
            slave_fd,
            command@,
            strings_view(args@),
        ),
{
    let mut before_fork = ns.setup_parent_death_signal();
    append_steps(&mut before_fork, ns.setup_user_namespace());
    append_steps(&mut before_fork, ns.setup_namespaces());

    let mut parent: Vec<Step> = Vec::new();
    push_step(&mut parent, Step::new(Op::Close(slave_fd), OnFailure::Warn, "Failed to close slave fd"));
    push_step(&mut parent, Step::new(Op::SetRawMode, OnFailure::Abort(ErrorKind::Pty), "Failed to set raw mode"));
    push_step(&mut parent, Step::new(Op::ProxyIo, OnFailure::Warn, "I/O loop ended"));
    push_step(
        &mut parent,
        Step::new(Op::WaitChild, OnFailure::Abort(ErrorKind::Process), "Failed to wait for child"),
    );
    push_step(&mut parent, Step::new(Op::ClosePty, OnFailure::Warn, "Failed to close PTY"));
    push_step(
        &mut parent,
        Step::new(Op::RestoreTerminal, OnFailure::Abort(ErrorKind::Pty), "Failed to restore terminal"),
    );
    match overlay {
        Some(o) => append_steps(&mut parent, o.cleanup()),
        None => {},
    }
    assert(views(parent@) =~= parent_steps(slave_fd, *overlay));

    let mut child: Vec<Step> = Vec::new();
    push_step(&mut child, Step::new(Op::Close(master_fd), OnFailure::Warn, "Failed to close master fd"));
    append_steps(&mut child, ns.setup_mount_namespace());
    match overlay {
        Some(o) => append_steps(&mut child, o.setup()),
        None => {},
    }
    append_steps(&mut child, mounts.setup_basic_mounts(final_root));
    append_steps(&mut child, mounts.chroot(final_root));
    append_steps(&mut child, pty.setup_slave(slave_fd));
    append_steps(&mut child, ns.set_no_new_privs());
    let exec = Op::Exec { command: command.clone(), args: args.clone() };
    push_step(&mut child, Step::new(exec, OnFailure::Abort(ErrorKind::Exec), "Failed to execute"));
    assert(views(child@) =~= child_steps(
        *ns,
        mounts.config.mounts,
        final_root@,
        *overlay,
        master_fd,
        slave_fd,
        command@,
        strings_view(args@),
    ));
    LaunchPlan { before_fork, parent, child }
}

impl LaunchPlan {
    /// What the supervisor runs, best-effort, after its part failed at
    /// `at`: the parent's releasing steps that have not run yet, so that the
    /// terminal is restored and the scratch directories are released once,
    /// and the first error stays the one reported.
    pub fn recovery(self, at: FailedAt) -> (r: Vec<Step>)
        ensures
            views(r@) == warn_all(
                views(self.parent@).subrange(
                    recovery_start(at, self.parent@.len() as int),
                    self.parent@.len() as int,
                ),
            ),
    {
        let mut parent = self.parent;
        let len = parent.len();
        let start: usize = match at {
            FailedAt::Parent(i) => if i >= RELEASE_FROM && i < len {
                i + 1
            } else if i >= len {
                len
            } else {
                RELEASE_FROM
            },
            _ => RELEASE_FROM,
        };
        let start = if start > len {
            len
        } else {
            start
        };
        let ghost all = parent@;
        let rest = parent.split_off(start);
        assert(views(rest@) =~= views(all).subrange(start as int, len as int));
        best_effort(rest)
    }
}

/// After a failure before the fork, or of the fork, the recovery is to
/// close the PTY, restore the host terminal and release the overlay's
/// scratch directories.
pub proof fn lemma_recovery_before_fork(slave_fd: i32, overlay: Option<OverlayFsManager>)
    ensures
        ({
            let p = parent_steps(slave_fd, overlay);
            &&& warn_all(p.subrange(recovery_start(FailedAt::BeforeFork, p.len() as int), p.len() as int))
                == abort_steps(overlay)
            &&& warn_all(p.subrange(recovery_start(FailedAt::Fork, p.len() as int), p.len() as int))
                == abort_steps(overlay)
        }),
{
    let p = parent_steps(slave_fd, overlay);
    let rest = match overlay {
        Some(o) => o.cleanup_steps(),
        None => seq![],
    };
    assert(p.subrange(4, p.len() as int) =~= seq![
        (Action::ClosePty, OnFailure::Warn),
        (Action::RestoreTerminal, pty_error()),
    ] + rest);
    assert(warn_all(p.subrange(4, p.len() as int)) =~= abort_steps(overlay));
}

/// The best-effort removal of the overlay's scratch directories, for a
/// failure before the launch plan exists (the PTY could not be opened).
pub fn release_scratch(overlay: &Option<OverlayFsManager>) -> (r: Vec<Step>)
    ensures
        views(r@) == match overlay {
            Some(o) => warn_all(o.cleanup_steps()),
            None => seq![],
        },
{
    match overlay {
        Some(o) => best_effort(o.cleanup()),
        None => {
            let v: Vec<Step> = Vec::new();
            assert(views(v@) =~= Seq::<(Action, OnFailure)>::empty());
            v
        },
    }
}

/// Every feature toggle of the configuration on.
pub open spec fn all_features_on(ns: NamespaceManager) -> bool {
    let f = ns.config.features;
    &&& f.overlayfs
    &&& f.user_namespace
    &&& f.mount_namespace
    &&& f.pid_namespace
    &&& f.uts_namespace
    &&& f.network_namespace
    &&& f.pty_enabled
    &&& f.parent_death_signal
    &&& f.no_new_privs
}

/// With every feature on and an unprivileged caller, the launch runs in
/// this order: before the fork, the parent-death signal, the user
/// namespace, then one unshare of the PID, UTS and network namespaces;
/// after the fork, in the child, the mount namespace, the overlay mount if
/// any, the basic mounts, chroot, and, last, NO_NEW_PRIVS and the command.
pub proof fn lemma_launch_order(
    ns: NamespaceManager,
    mounts: Mounts,
    final_root: Seq<char>,
    overlay: Option<OverlayFsManager>,
    master_fd: i32,
    slave_fd: i32,
    command: Seq<char>,
    args: Seq<Seq<char>>,
)
    requires
        all_features_on(ns),
        ns.outer_uid != 0,
        overlay matches Some(o) ==> final_root == o.temp_merged@,
    ensures
        ({
            let pre = before_fork_steps(ns);
            &&& pre.len() >= 7
            &&& pre[0] == (Action::ParentDeathSignal, OnFailure::Warn)
            &&& pre[1].0 == Action::Unshare(user_only())
            &&& pre[5].0 == Action::Unshare(
                crate::steps::CloneSet { user: false, mount: false, pid: true, uts: true, net: true },
            )
        }),
        ({
            let c = child_steps(ns, mounts, final_root, overlay, master_fd, slave_fd, command, args);
            let m = ns.mount_namespace_steps().len() as int;
            let o = match overlay {
                Some(ov) => ov.setup_steps(),
                None => seq![],
            };
            let b = basic_mounts_steps(mounts, final_root);
            let k = 1 + m + o.len() + b.len();
            &&& m >= 1
            &&& c[1].0 == Action::Unshare(mount_only())
            &&& c.subrange(1 + m, 1 + m + o.len()) == o
            &&& overlay is Some ==> (o.len() == 1 && (c[1 + m].0 matches Action::Mount {
                target,
                fstype,
                ..
            } && target == final_root && fstype == Some("overlay"@)))
            &&& c.subrange(1 + m + o.len(), k) == b
            &&& c[k].0 == Action::Chroot(final_root)
            &&& c.len() >= k + 2
            &&& c[c.len() - 2].0 == Action::NoNewPrivs
            &&& c[c.len() - 1] == exec_step(command, args)
        }),
{
    let c = child_steps(ns, mounts, final_root, overlay, master_fd, slave_fd, command, args);
    let o = match overlay {
        Some(ov) => ov.setup_steps(),
        None => seq![],
    };
    let head = seq![(Action::Close(master_fd), OnFailure::Warn)] + ns.mount_namespace_steps();
    let b = basic_mounts_steps(mounts, final_root);
    let tail = chroot_steps(final_root) + slave_steps(slave_fd) + ns.no_new_privs_steps() + seq![
        exec_step(command, args),
    ];
    assert(c =~= head + o + b + tail);
    let h = head.len() as int;
    let k = h + o.len() + b.len();
    assert(c.subrange(h, h + o.len()) =~= o);
    assert(c.subrange(h + o.len(), k) =~= b);
    assert(c[k] == tail[0]);
}

/// On the supervisor's side the proxy loop ends before the child is
/// reaped, and the PTY is closed before the host terminal is restored.
pub proof fn lemma_parent_order(slave_fd: i32, overlay: Option<OverlayFsManager>)
    ensures
        ({
            let p = parent_steps(slave_fd, overlay);
            &&& p.len() >= 6
            &&& p[1].0 == Action::SetRawMode
            &&& p[2].0 == Action::ProxyIo
            &&& p[3].0 == Action::WaitChild
            &&& p[4].0 == Action::ClosePty
            &&& p[5].0 == Action::RestoreTerminal
        }),
{
}

/// The argument vector of the command: the command itself, then its
/// arguments. None of them may hold a NUL character.
pub fn command_argv(command: &str, args: &Vec<String>) -> (r: Result<Vec<String>>)
    ensures
        match r {
            Ok(argv) => {
                &&& !command@.contains('\0')
                &&& forall|i: int| 0 <= i < args@.len() ==> !(#[trigger] args@[i])@.contains('\0')
                &&& strings_view(argv@) == seq![command@] + strings_view(args@)
            },
            Err(e) => {
                &&& e is ExecError
                &&& (command@.contains('\0') || exists|i: int|
                    0 <= i < args@.len() && (#[trigger] args@[i])@.contains('\0'))
            },
        },
{
    if contains_char(command, '\0') {
        return Err(RootboxError::ExecError(String::from_str("Invalid command: NUL byte")));
    }
    let mut argv: Vec<String> = Vec::new();
    argv.push(String::from_str(command));
    let n = args.len();
    let mut i: usize = 0;
    while i < n
        invariant
            i <= n,
            n == args@.len(),
            !command@.contains('\0'),
            forall|j: int| 0 <= j < i ==> !(#[trigger] args@[j])@.contains('\0'),
            strings_view(argv@) == seq![command@] + strings_view(args@.take(i as int)),
        decreases n - i,
    {
        if contains_char(args[i].as_str(), '\0') {
            return Err(RootboxError::ExecError(String::from_str("Invalid argument: NUL byte")));
        }
        let a = args[i].clone();
        assert(a@ == args@[i as int]@);
        let ghost prev = argv@;
        argv.push(a);
        assert(strings_view(argv@) =~= strings_view(prev).push(args@[i as int]@));
        assert(strings_view(args@.take(i + 1)) =~= strings_view(args@.take(i as int)).push(
            args@[i as int]@,
        ));
        assert(strings_view(argv@) =~= seq![command@] + strings_view(args@.take(i + 1)));
        i += 1;
    }
    assert(args@.take(n as int) =~= args@);
    Ok(argv)
}

/// Enter mode runs in the root directory itself, which must exist
/// (`root_exists` tells whether it does).
pub fn run_enter(root_dir: &str, root_exists: bool) -> (r: Result<()>)
    ensures
        root_exists <==> r is Ok,
        r is Err ==> r->Err_0 is PathError,
{
    if !root_exists {
        let m = String::from_str("Root directory does not exist: ").concat(root_dir);
        return Err(RootboxError::PathError(m));
    }
    Ok(())
}

/// Every extra layer has an entry in `exist`, and that entry is true.
pub open spec fn layers_present(extra_layers: Option<Vec<String>>, exist: Seq<bool>) -> bool {
    forall|i: int| 0 <= i < extras_count(extra_layers) ==> #[trigger] marked(exist, i)
}

/// `exist` has an entry at `i`, and it is true.
pub open spec fn marked(exist: Seq<bool>, i: int) -> bool {
    0 <= i < exist.len() && exist[i]
}

pub open spec fn extras_count(extra_layers: Option<Vec<String>>) -> int {
    match extra_layers {
        Some(v) => v@.len() as int,
        None => 0,
    }
}

/// Overlay mode needs the root directory and every extra layer to exist
/// (`layers_exist[i]` tells whether the i-th extra layer does; a layer
/// without an entry there counts as missing).
pub fn run_overlay(
    root_dir: &str,
    root_exists: bool,
    extra_layers: &Option<Vec<String>>,
    layers_exist: &Vec<bool>,
) -> (r: Result<()>)
    ensures
        (root_exists && layers_present(*extra_layers, layers_exist@)) <==> r is Ok,
        r is Err ==> r->Err_0 is PathError,
{
    if !root_exists {
        let m = String::from_str("Root directory does not exist: ").concat(root_dir);
        return Err(RootboxError::PathError(m));
    }
    match extra_layers {
        Some(layers) => {
            let n = layers.len();
            let mut i: usize = 0;
            while i < n
                invariant
                    i <= n,
                    n == layers@.len(),
                    forall|j: int| 0 <= j < i ==> #[trigger] marked(layers_exist@, j),
                    root_exists,
                    *extra_layers == Some(*layers),
                decreases n - i,
            {
                if i >= layers_exist.len() || !layers_exist[i] {
                    assert(!marked(layers_exist@, i as int));
                    let m = String::from_str("Extra lowerdir layer does not exist: ").concat(
                        layers[i].as_str(),
                    );
                    return Err(RootboxError::PathError(m));
                }
                i += 1;
            }
        },
        None => {},
    }
    Ok(())
}

} // verus!
