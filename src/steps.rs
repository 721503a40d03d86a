use vstd::prelude::*;

use crate::error::{Result, RootboxError};

verus! {

/// Which error a failed step is reported as.
#[derive(Debug, Clone, Copy, PartialEq, Eq, Structural)]
pub enum ErrorKind {
    Namespace,
    Mount,
    OverlayFs,
    Pty,
    Chroot,
    Exec,
    Process,
}

/// What a failure of a step means for the launch: best-effort steps only
/// warn, the others abort with an error of the given kind.
#[derive(Debug, Clone, Copy, PartialEq, Eq, Structural)]
pub enum OnFailure {
    Warn,
    Abort(ErrorKind),
}

/// Flags of a mount call (MS_BIND, MS_REC, MS_RDONLY, MS_PRIVATE).
#[derive(Debug, Clone, Copy, PartialEq, Eq, Structural)]
pub struct MountFlags {
    pub bind: bool,
    pub recursive: bool,
    pub readonly: bool,
    pub private: bool,
}

/// The namespaces that one `unshare` call creates.
#[derive(Debug, Clone, Copy, PartialEq, Eq, Structural)]
pub struct CloneSet {
    pub user: bool,
    pub mount: bool,
    pub pid: bool,
    pub uts: bool,
    pub net: bool,
}

/// One operation on the kernel or on the host terminal.
#[derive(Debug, Clone)]
pub enum Op {
    /// prctl(PR_SET_PDEATHSIG, SIGKILL)
    ParentDeathSignal,
    /// unshare with the given namespaces
    Unshare(CloneSet),
    /// write `content` into the file `path` under /proc
    WriteProcFile { path: String, content: String },
    SetHostname(String),
    SetDomainname(String),
    /// create the directory and its parents if it does not exist
    EnsureDir(String),
    Mount {
        source: Option<String>,
        target: String,
        fstype: Option<String>,
        flags: MountFlags,
        data: Option<String>,
    },
    Chroot(String),
    Chdir(String),
    /// setsid
    NewSession,
    /// dup2(fd, onto)
    Dup2 { fd: i32, onto: i32 },
    Close(i32),
    /// ioctl(0, TIOCSCTTY)
    SetControllingTerminal,
    /// prctl(PR_SET_NO_NEW_PRIVS, 1)
    NoNewPrivs,
    /// execve(command, [command, args...])
    Exec { command: String, args: Vec<String> },
    /// put the host terminal into raw mode
    SetRawMode,
    /// proxy bytes between the host terminal and the PTY master
    ProxyIo,
    /// waitpid on the contained process
    WaitChild,
    /// close whatever PTY descriptors are still open
    ClosePty,
    /// put the captured attributes back on the host terminal
    RestoreTerminal,
    /// remove a directory with all it holds
    RemoveDirAll(String),
}

/// What an [`Op`] does, over plain mathematical values.
pub enum Action {
    ParentDeathSignal,
    Unshare(CloneSet),
    WriteProcFile { path: Seq<char>, content: Seq<char> },
    SetHostname(Seq<char>),
    SetDomainname(Seq<char>),
    EnsureDir(Seq<char>),
    Mount {
        source: Option<Seq<char>>,
        target: Seq<char>,
        fstype: Option<Seq<char>>,
        flags: MountFlags,
        data: Option<Seq<char>>,
    },
    Chroot(Seq<char>),
    Chdir(Seq<char>),
    NewSession,
    Dup2 { fd: i32, onto: i32 },
    Close(i32),
    SetControllingTerminal,
    NoNewPrivs,
    Exec { command: Seq<char>, args: Seq<Seq<char>> },
    SetRawMode,
    ProxyIo,
    WaitChild,
    ClosePty,
    RestoreTerminal,
    RemoveDirAll(Seq<char>),
}

pub open spec fn opt_view(o: Option<String>) -> Option<Seq<char>> {
    match o {
        Some(s) => Some(s@),
        None => None,
    }
}

pub open spec fn strings_view(v: Seq<String>) -> Seq<Seq<char>> {
    v.map_values(|s: String| s@)
}

impl View for Op {
    type V = Action;

    open spec fn view(&self) -> Action {
        match self {
            Op::ParentDeathSignal => Action::ParentDeathSignal,
            Op::Unshare(set) => Action::Unshare(*set),
            Op::WriteProcFile { path, content } => Action::WriteProcFile {
                path: path@,
                content: content@,
            },
            Op::SetHostname(n) => Action::SetHostname(n@),
            Op::SetDomainname(n) => Action::SetDomainname(n@),
            Op::EnsureDir(p) => Action::EnsureDir(p@),
            Op::Mount { source, target, fstype, flags, data } => Action::Mount {
                source: opt_view(*source),
                target: target@,
                fstype: opt_view(*fstype),
                flags: *flags,
                data: opt_view(*data),
            },
            Op::Chroot(p) => Action::Chroot(p@),
            Op::Chdir(p) => Action::Chdir(p@),
            Op::NewSession => Action::NewSession,
            Op::Dup2 { fd, onto } => Action::Dup2 { fd: *fd, onto: *onto },
            Op::Close(fd) => Action::Close(*fd),
            Op::SetControllingTerminal => Action::SetControllingTerminal,
            Op::NoNewPrivs => Action::NoNewPrivs,
            Op::Exec { command, args } => Action::Exec {
                command: command@,
                args: strings_view(args@),
            },
            Op::SetRawMode => Action::SetRawMode,
            Op::ProxyIo => Action::ProxyIo,
            Op::WaitChild => Action::WaitChild,
            Op::ClosePty => Action::ClosePty,
            Op::RestoreTerminal => Action::RestoreTerminal,
            Op::RemoveDirAll(p) => Action::RemoveDirAll(p@),
        }
    }
}

/// A step of a launch: the operation, what its failure means, and the
/// words that an error message about it starts with.
#[derive(Debug, Clone)]
pub struct Step {
    pub op: Op,
    pub on_failure: OnFailure,
    pub context: String,
}

impl View for Step {
    type V = (Action, OnFailure);

    open spec fn view(&self) -> (Action, OnFailure) {
        (self.op@, self.on_failure)
    }
}

/// The operations of a sequence of steps, with what failure means for each.
pub open spec fn views(steps: Seq<Step>) -> Seq<(Action, OnFailure)> {
    steps.map_values(|s: Step| s@)
}

pub open spec fn kind_of(e: RootboxError) -> Option<ErrorKind> {
    match e {
        RootboxError::NamespaceError(_) => Some(ErrorKind::Namespace),
        RootboxError::MountError(_) => Some(ErrorKind::Mount),
        RootboxError::OverlayFsError(_) => Some(ErrorKind::OverlayFs),
        RootboxError::PtyError(_) => Some(ErrorKind::Pty),
        RootboxError::ChrootError(_) => Some(ErrorKind::Chroot),
        RootboxError::ExecError(_) => Some(ErrorKind::Exec),
        RootboxError::ProcessError(_) => Some(ErrorKind::Process),
        _ => None,
    }
}

impl ErrorKind {
    /// The error of this kind with the message `m`.
    pub fn error(self, m: String) -> (r: RootboxError)
        ensures
            kind_of(r) == Some(self),
            r.detail() == m@,
    {
        match self {
            ErrorKind::Namespace => RootboxError::NamespaceError(m),
            ErrorKind::Mount => RootboxError::MountError(m),
            ErrorKind::OverlayFs => RootboxError::OverlayFsError(m),
            ErrorKind::Pty => RootboxError::PtyError(m),
            ErrorKind::Chroot => RootboxError::ChrootError(m),
            ErrorKind::Exec => RootboxError::ExecError(m),
            ErrorKind::Process => RootboxError::ProcessError(m),
        }
    }
}

impl Step {
    pub fn new(op: Op, on_failure: OnFailure, context: &str) -> (r: Step)
        ensures
            r@ == (op@, on_failure),
            r.context@ == context@,
    {
        Step { op, on_failure, context: String::from_str(context) }
    }

    /// What the launch makes of this step's outcome (`Err` holds the
    /// system's words for the failure): a best-effort step never stops it,
    /// any other failing step stops it with an error of the step's kind.
    pub fn judge(&self, outcome: core::result::Result<(), String>) -> (r: Result<()>)
        ensures
            match outcome {
                Ok(_) => r is Ok,
                Err(e) => match self.on_failure {
                    OnFailure::Warn => r is Ok,
                    OnFailure::Abort(kind) => {
                        &&& r is Err
                        &&& kind_of(r->Err_0) == Some(kind)
                        &&& r->Err_0.detail() == self.context@ + ": "@ + e@
                    },
                },
            },
    {
        match outcome {
            Ok(()) => Ok(()),
            Err(e) => match self.on_failure {
                OnFailure::Warn => Ok(()),
                OnFailure::Abort(kind) => {
                    let m = self.context.clone().concat(": ").concat(e.as_str());
                    Err(kind.error(m))
                },
            },
        }
    }
}

/// Appends `s` to the plan `v`.
pub fn push_step(v: &mut Vec<Step>, s: Step)
    ensures
        views(final(v)@) == views(old(v)@).push(s@),
{
    let ghost sv = s@;
    v.push(s);
    assert(views(final(v)@) =~= views(old(v)@).push(sv));
}

/// Appends the plan `w` to the plan `v`.
pub fn append_steps(v: &mut Vec<Step>, w: Vec<Step>)
    ensures
        views(final(v)@) == views(old(v)@) + views(w@),
{
    let mut w = w;
    let ghost wv = w@;
    v.append(&mut w);
    assert(views(final(v)@) =~= views(old(v)@) + views(wv));
}

} // verus!
