//! Container-like isolation from Linux namespaces, OverlayFS, bind mounts,
//! chroot and a pseudo-terminal.
//!
//! The library decides, in verified code, every step of a launch and the
//! order in which the steps run; a small driver performs the system calls
//! that each step names and reports back how they went.
pub mod config;
pub mod error;
pub mod launch;
pub mod mount;
pub mod namespace;
pub mod overlay;
pub mod pty;
pub mod steps;
pub mod text;
