use vstd::prelude::*;

use crate::config::Config;
use crate::error::{Result, RootboxError};
use crate::steps::{push_step, views, Action, ErrorKind, OnFailure, Op, Step};

verus! {

/// The terminal attributes of nix, carried through unchanged.
#[verifier::external_type_specification]
#[verifier::external_body]
pub struct ExTermios(nix::sys::termios::Termios);

/// The raw-mode attributes that cfmakeraw makes from `t`; they depend on
/// `t` alone.
pub uninterp spec fn raw_of(t: nix::sys::termios::Termios) -> nix::sys::termios::Termios;

/// Relies on nix::sys::termios::cfmakeraw: input character by character,
/// no echo, no special input or output processing.
#[verifier::external_body]
fn make_raw(t: nix::sys::termios::Termios) -> (r: nix::sys::termios::Termios)
    ensures
        r == raw_of(t),
{
    let mut t = t;
    nix::sys::termios::cfmakeraw(&mut t);
    t
}

/// A terminal size in character cells.
#[derive(Debug, Clone, Copy, PartialEq, Eq, Structural)]
pub struct WindowSize {
    pub rows: u16,
    pub cols: u16,
}

/// The size the PTY is opened with: the host terminal's own when stdin is
/// a terminal whose size could be read, else the configured default.
pub open spec fn window_size_for(config: Config, stdin_is_tty: bool, queried: Option<WindowSize>) -> WindowSize {
    match queried {
        Some(ws) if stdin_is_tty => ws,
        _ => WindowSize { rows: config.pty.default_rows, cols: config.pty.default_cols },
    }
}

pub open spec fn pty_error() -> OnFailure {
    OnFailure::Abort(ErrorKind::Pty)
}

/// In the child after chroot: a new session, the slave on fds 0, 1 and 2,
/// the slave's own fd closed unless it is one of those, and, best-effort,
/// the slave as controlling terminal.
pub open spec fn slave_steps(slave_fd: i32) -> Seq<(Action, OnFailure)> {
    seq![
        (Action::NewSession, pty_error()),
        (Action::Dup2 { fd: slave_fd, onto: 0 }, pty_error()),
        (Action::Dup2 { fd: slave_fd, onto: 1 }, pty_error()),
        (Action::Dup2 { fd: slave_fd, onto: 2 }, pty_error()),
    ] + (if slave_fd > 2 {
        seq![(Action::Close(slave_fd), pty_error())]
    } else {
        seq![]
    }) + seq![(Action::SetControllingTerminal, OnFailure::Warn)]
}

/// PTY manager for pseudo-terminal handling: the two ends while they are
/// open and the host terminal's attributes captured at the start.
pub struct PtyManager {
    pub config: Config,
    pub master_fd: Option<i32>,
    pub slave_fd: Option<i32>,
    pub original_termios: Option<nix::sys::termios::Termios>,
}

impl PtyManager {
    /// The descriptors that a close releases: the master, then the slave,
    /// each if still open.
    pub open spec fn open_fds(&self) -> Seq<i32> {
        (match self.master_fd {
            Some(m) => seq![m],
            None => seq![],
        }) + match self.slave_fd {
            Some(s) => seq![s],
            None => seq![],
        }
    }

    /// The manager after a close: both ends gone, nothing else changed.
    pub open spec fn closed(&self) -> PtyManager {
        PtyManager { master_fd: None, slave_fd: None, ..*self }
    }

    /// The attributes to put back on the host terminal, if any.
    pub open spec fn spec_restore(&self, stdin_is_tty: bool) -> Option<nix::sys::termios::Termios> {
        if stdin_is_tty {
            self.original_termios
        } else {
            None
        }
    }

    pub fn new(config: Config) -> (r: Self)
        ensures
            r.config == config,
            r.master_fd.is_none(),
            r.slave_fd.is_none(),
            r.original_termios.is_none(),
    {
        PtyManager { config, master_fd: None, slave_fd: None, original_termios: None }
    }

    /// Prepares opening a PTY pair and returns the size to open it with.
    /// `stdin_is_tty` tells whether the host's stdin is a terminal,
    /// `attrs` holds its attributes when they could be read, and `queried`
    /// its size when that could be read. The attributes are kept, to be
    /// given to the slave and later put back, only when stdin is a
    /// terminal. Fails, changing nothing, when the PTY is disabled.
    pub fn setup_pty(
        &mut self,
        stdin_is_tty: bool,
        attrs: Option<nix::sys::termios::Termios>,
        queried: Option<WindowSize>,
    ) -> (r: Result<WindowSize>)
        ensures
            !old(self).config.features.pty_enabled ==> {
                &&& r matches Err(RootboxError::PtyError(_))
                &&& *final(self) == *old(self)
            },
            old(self).config.features.pty_enabled ==> {
                &&& r == Ok::<WindowSize, RootboxError>(
                    window_size_for(old(self).config, stdin_is_tty, queried),
                )
                &&& final(self).original_termios == if stdin_is_tty {
                    attrs
                } else {
                    None
                }
                &&& final(self).config == old(self).config
                &&& final(self).master_fd == old(self).master_fd
                &&& final(self).slave_fd == old(self).slave_fd
            },
    {
        if !self.config.features.pty_enabled {
            return Err(RootboxError::PtyError(String::from_str("PTY disabled in config")));
        }
        if stdin_is_tty {
            self.original_termios = attrs;
        } else {
            self.original_termios = None;
        }
        Ok(self.get_window_size(stdin_is_tty, queried))
    }

    /// The host terminal's size if it could be read, else the default.
    fn get_window_size(&self, stdin_is_tty: bool, queried: Option<WindowSize>) -> (r: WindowSize)
        ensures
            r == window_size_for(self.config, stdin_is_tty, queried),
    {
        match queried {
            Some(ws) if stdin_is_tty => ws,
            _ => WindowSize { rows: self.config.pty.default_rows, cols: self.config.pty.default_cols },
        }
    }

    /// Records the pair that was opened and hands it back.
    pub fn set_pair(&mut self, master: i32, slave: i32) -> (r: (i32, i32))
        ensures
            r == (master, slave),
            *final(self) == (PtyManager {
                master_fd: Some(master),
                slave_fd: Some(slave),
                ..*old(self)
            }),
    {
        self.master_fd = Some(master);
        self.slave_fd = Some(slave);
        (master, slave)
    }

    /// The steps that make the slave the child's terminal.
    pub fn setup_slave(&self, slave_fd: i32) -> (r: Vec<Step>)
        ensures
            views(r@) == slave_steps(slave_fd),
    {
        let mut steps: Vec<Step> = Vec::new();
        push_step(&mut steps, Step::new(Op::NewSession, OnFailure::Abort(ErrorKind::Pty), "Failed to create session"));
        push_step(
            &mut steps,
            Step::new(Op::Dup2 { fd: slave_fd, onto: 0 }, OnFailure::Abort(ErrorKind::Pty), "Failed to dup2 stdin"),
        );
        push_step(
            &mut steps,
            Step::new(Op::Dup2 { fd: slave_fd, onto: 1 }, OnFailure::Abort(ErrorKind::Pty), "Failed to dup2 stdout"),
        );
        push_step(
            &mut steps,
            Step::new(Op::Dup2 { fd: slave_fd, onto: 2 }, OnFailure::Abort(ErrorKind::Pty), "Failed to dup2 stderr"),
        );
        if slave_fd > 2 {
            push_step(
                &mut steps,
                Step::new(Op::Close(slave_fd), OnFailure::Abort(ErrorKind::Pty), "Failed to close slave fd"),
            );
        }
        push_step(
            &mut steps,
            Step::new(Op::SetControllingTerminal, OnFailure::Warn, "Failed to set controlling terminal"),
        );
        assert(views(steps@) =~= slave_steps(slave_fd));
        steps
    }

    /// The attributes that put the host terminal into raw mode, made from
    /// `current`, what the terminal has now, when stdin is a terminal;
    /// nothing otherwise.
    pub fn set_raw_mode(
        &self,
        stdin_is_tty: bool,
        current: Option<nix::sys::termios::Termios>,
    ) -> (r: Option<nix::sys::termios::Termios>)
        ensures
            r.is_some() == (stdin_is_tty && current.is_some()),
            r matches Some(t) ==> current matches Some(c) && t == raw_of(c),
    {
        if !stdin_is_tty {
            return None;
        }
        match current {
            Some(t) => Some(make_raw(t)),
            None => None,
        }
    }

    /// The attributes to put back on the host terminal: those captured at
    /// the start, when stdin is still a terminal; nothing otherwise.
    pub fn restore_terminal(&self, stdin_is_tty: bool) -> (r: Option<&nix::sys::termios::Termios>)
        ensures
            match r {
                Some(t) => self.spec_restore(stdin_is_tty) == Some(*t),
                None => self.spec_restore(stdin_is_tty).is_none(),
            },
    {
        if stdin_is_tty {
            self.original_termios.as_ref()
        } else {
            None
        }
    }

    /// Forgets both ends and returns those that were still open, to be
    /// closed: the master, then the slave.
    pub fn close(&mut self) -> (r: Vec<i32>)
        ensures
            r@ == old(self).open_fds(),
            *final(self) == old(self).closed(),
    {
        let mut fds: Vec<i32> = Vec::new();
        match self.master_fd.take() {
            Some(m) => fds.push(m),
            None => {},
        }
        match self.slave_fd.take() {
            Some(s) => fds.push(s),
            None => {},
        }
        assert(fds@ =~= old(self).open_fds());
        fds
    }
}

/// Closing twice: the second close finds nothing open and changes nothing.
pub proof fn lemma_close_twice(p: PtyManager)
    ensures
        p.closed().open_fds() == Seq::<i32>::empty(),
        p.closed().closed() == p.closed(),
{
    assert(p.closed().open_fds() =~= Seq::<i32>::empty());
}

/// What is put back on the host terminal at the end is what was captured
/// when the PTY was prepared: `p` is the manager as `setup_pty` left it,
/// then the pair is recorded and later closed, and neither touches the
/// captured attributes. When stdin is not a terminal nothing is put back.
pub proof fn lemma_restore_is_capture(
    p: PtyManager,
    stdin_is_tty: bool,
    attrs: Option<nix::sys::termios::Termios>,
    master: i32,
    slave: i32,
)
    requires
        p.original_termios == (if stdin_is_tty {
            attrs
        } else {
            None
        }),
    ensures
        (PtyManager { master_fd: Some(master), slave_fd: Some(slave), ..p }).closed().spec_restore(
            stdin_is_tty,
        ) == (if stdin_is_tty {
            attrs
        } else {
            None
        }),
{
}

/// Which of the two descriptors of the proxy loop was read.
#[derive(Debug, Clone, Copy, PartialEq, Eq, Structural)]
pub enum Side {
    Stdin,
    Master,
}

/// What waiting for either descriptor to become readable gave.
#[derive(Debug, Clone, Copy, PartialEq, Eq, Structural)]
pub enum SelectOutcome {
    Ready,
    Interrupted,
    Failed,
}

/// What a read gave: a count of bytes (0 at end of file), or an error.
#[derive(Debug, Clone, Copy, PartialEq, Eq, Structural)]
pub enum ReadOutcome {
    Bytes(usize),
    Interrupted,
    /// EIO: on the master, the child has gone
    Eio,
    Failed,
}

/// What the proxy loop does next.
#[derive(Debug, Clone, Copy, PartialEq, Eq, Structural)]
pub enum IoDecision {
    /// wait again
    Retry,
    /// go on to the ready descriptors
    Proceed,
    /// write the `n` bytes read to the other side
    Forward(usize),
    /// the write went through: go on
    Continue,
    /// the loop ends normally
    Stop,
    /// the loop ends, with a warning
    StopWarn,
}

/// After waiting: interrupted waits are retried, a failed one ends the loop.
pub fn io_after_select(o: SelectOutcome) -> (r: IoDecision)
    ensures
        r == match o {
            SelectOutcome::Ready => IoDecision::Proceed,
            SelectOutcome::Interrupted => IoDecision::Retry,
            SelectOutcome::Failed => IoDecision::StopWarn,
        },
{
    match o {
        SelectOutcome::Ready => IoDecision::Proceed,
        SelectOutcome::Interrupted => IoDecision::Retry,
        SelectOutcome::Failed => IoDecision::StopWarn,
    }
}

/// After a read: bytes are forwarded; end of file, or EIO on the master
/// (the child has exited), ends the loop cleanly; an interrupted read is
/// retried; any other error ends the loop with a warning.
pub fn io_after_read(side: Side, o: ReadOutcome) -> (r: IoDecision)
    ensures
        r == match o {
            ReadOutcome::Bytes(n) => if n == 0 {
                IoDecision::Stop
            } else {
                IoDecision::Forward(n)
            },
            ReadOutcome::Interrupted => IoDecision::Retry,
            ReadOutcome::Eio => if side == Side::Master {
                IoDecision::Stop
            } else {
                IoDecision::StopWarn
            },
            ReadOutcome::Failed => IoDecision::StopWarn,
        },
{
    match o {
        ReadOutcome::Bytes(n) => if n == 0 {
            IoDecision::Stop
        } else {
            IoDecision::Forward(n)
        },
        ReadOutcome::Interrupted => IoDecision::Retry,
        ReadOutcome::Eio => match side {
            Side::Master => IoDecision::Stop,
            Side::Stdin => IoDecision::StopWarn,
        },
        ReadOutcome::Failed => IoDecision::StopWarn,
    }
}

/// After a write of `wanted` bytes: a short or failed write ends the loop,
/// as a broken pipe.
pub fn io_after_write(wanted: usize, written: isize) -> (r: IoDecision)
    ensures
        r == if written >= 0 && written as int == wanted as int {
            IoDecision::Continue
        } else {
            IoDecision::StopWarn
        },
{
    if written >= 0 && written as usize == wanted {
        IoDecision::Continue
    } else {
        IoDecision::StopWarn
    }
}

} // verus!
