use nix::sys::termios::{tcgetattr, LocalFlags};
use rootbox::config::Config;
use rootbox::error::RootboxError;
use rootbox::pty::{
    io_after_read, io_after_select, io_after_write, IoDecision, PtyManager, ReadOutcome,
    SelectOutcome, Side, WindowSize,
};
use rootbox::steps::{OnFailure, Op};

#[test]
fn test_pty_manager_creation() {
    let config = Config::default();
    let manager = PtyManager::new(config);
    assert!(manager.master_fd.is_none());
}

#[test]
fn non_tty_uses_default_size_and_skips_terminal_changes() {
    let mut pty = PtyManager::new(Config::default());
    let size = pty.setup_pty(false, None, None).unwrap();
    assert_eq!(size, WindowSize { rows: 24, cols: 80 });
    assert!(pty.original_termios.is_none());
    assert!(pty.set_raw_mode(false, None).is_none());
    assert!(pty.restore_terminal(false).is_none());
}

#[test]
fn tty_size_is_used_when_known() {
    let mut pty = PtyManager::new(Config::default());
    let size = pty.setup_pty(true, None, Some(WindowSize { rows: 50, cols: 132 })).unwrap();
    assert_eq!(size, WindowSize { rows: 50, cols: 132 });
    let size = pty.setup_pty(true, None, None).unwrap();
    assert_eq!(size, WindowSize { rows: 24, cols: 80 });
    let size = pty.setup_pty(false, None, Some(WindowSize { rows: 50, cols: 132 })).unwrap();
    assert_eq!(size, WindowSize { rows: 24, cols: 80 });
    assert!(pty.set_raw_mode(true, None).is_none());
}

#[test]
fn disabled_pty_is_an_error() {
    let mut config = Config::default();
    config.features.pty_enabled = false;
    let mut pty = PtyManager::new(config);
    assert!(matches!(pty.setup_pty(false, None, None), Err(RootboxError::PtyError(_))));
}

#[test]
fn close_twice_is_a_no_op() {
    let mut pty = PtyManager::new(Config::default());
    assert_eq!(pty.set_pair(5, 6), (5, 6));
    assert_eq!(pty.close(), vec![5, 6]);
    assert!(pty.master_fd.is_none() && pty.slave_fd.is_none());
    assert!(pty.close().is_empty());
}

#[test]
fn slave_becomes_stdio_and_terminal() {
    let pty = PtyManager::new(Config::default());
    let steps = pty.setup_slave(7);
    assert_eq!(steps.len(), 6);
    assert!(matches!(steps[0].op, Op::NewSession));
    assert!(matches!(steps[1].op, Op::Dup2 { fd: 7, onto: 0 }));
    assert!(matches!(steps[2].op, Op::Dup2 { fd: 7, onto: 1 }));
    assert!(matches!(steps[3].op, Op::Dup2 { fd: 7, onto: 2 }));
    assert!(matches!(steps[4].op, Op::Close(7)));
    assert!(matches!(steps[5].op, Op::SetControllingTerminal));
    assert_eq!(steps[5].on_failure, OnFailure::Warn);
    let steps = pty.setup_slave(2);
    assert_eq!(steps.len(), 5);
    assert!(matches!(steps[4].op, Op::SetControllingTerminal));
}

#[test]
fn child_exit_ends_io_loop() {
    assert_eq!(io_after_read(Side::Master, ReadOutcome::Bytes(2)), IoDecision::Forward(2));
    assert_eq!(io_after_write(2, 2), IoDecision::Continue);
    assert_eq!(io_after_read(Side::Master, ReadOutcome::Eio), IoDecision::Stop);
    assert_eq!(io_after_read(Side::Master, ReadOutcome::Bytes(0)), IoDecision::Stop);
}

#[test]
fn io_loop_decisions() {
    assert_eq!(io_after_select(SelectOutcome::Ready), IoDecision::Proceed);
    assert_eq!(io_after_select(SelectOutcome::Interrupted), IoDecision::Retry);
    assert_eq!(io_after_select(SelectOutcome::Failed), IoDecision::StopWarn);
    assert_eq!(io_after_read(Side::Stdin, ReadOutcome::Bytes(0)), IoDecision::Stop);
    assert_eq!(io_after_read(Side::Stdin, ReadOutcome::Interrupted), IoDecision::Retry);
    assert_eq!(io_after_read(Side::Stdin, ReadOutcome::Eio), IoDecision::StopWarn);
    assert_eq!(io_after_read(Side::Master, ReadOutcome::Failed), IoDecision::StopWarn);
    assert_eq!(io_after_write(4096, 100), IoDecision::StopWarn);
    assert_eq!(io_after_write(3, -1), IoDecision::StopWarn);
}

#[test]
fn raw_mode_turns_echo_off() {
    let opened = match nix::pty::openpty(None, None) {
        Ok(p) => p,
        Err(_) => return,
    };
    let current = match tcgetattr(&opened.slave) {
        Ok(t) => t,
        Err(_) => return,
    };
    let pty = PtyManager::new(Config::default());
    let raw = pty.set_raw_mode(true, Some(current.clone())).unwrap();
    assert!(!raw.local_flags.contains(LocalFlags::ECHO));
    assert!(!raw.local_flags.contains(LocalFlags::ICANON));
    assert!(!raw.local_flags.contains(LocalFlags::ISIG));
    assert!(pty.set_raw_mode(false, Some(current)).is_none());
}
