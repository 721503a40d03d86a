use vstd::prelude::*;

verus! {

/// The kinds of failure that a launch can end with, each with its message.
#[derive(Debug, Clone)]
pub enum RootboxError {
    ConfigError(String),
    NamespaceError(String),
    MountError(String),
    OverlayFsError(String),
    PtyError(String),
    ChrootError(String),
    ExecError(String),
    IoError(String),
    SyscallError(String),
    PathError(String),
    ProcessError(String),
}

pub type Result<T> = core::result::Result<T, RootboxError>;

impl RootboxError {
    /// The text carried by the error, whatever its kind.
    pub open spec fn detail(&self) -> Seq<char> {
        match self {
            RootboxError::ConfigError(m) => m@,
            RootboxError::NamespaceError(m) => m@,
            RootboxError::MountError(m) => m@,
            RootboxError::OverlayFsError(m) => m@,
            RootboxError::PtyError(m) => m@,
            RootboxError::ChrootError(m) => m@,
            RootboxError::ExecError(m) => m@,
            RootboxError::IoError(m) => m@,
            RootboxError::SyscallError(m) => m@,
            RootboxError::PathError(m) => m@,
            RootboxError::ProcessError(m) => m@,
        }
    }

    /// The heading that the one-line message of each kind starts with.
    pub open spec fn spec_heading(&self) -> Seq<char> {
        match self {
            RootboxError::ConfigError(_) => "Configuration error: "@,
            RootboxError::NamespaceError(_) => "Failed to create namespace: "@,
            RootboxError::MountError(_) => "Failed to setup mount: "@,
            RootboxError::OverlayFsError(_) => "Failed to setup overlayfs: "@,
            RootboxError::PtyError(_) => "Failed to setup PTY: "@,
            RootboxError::ChrootError(_) => "Failed to chroot: "@,
            RootboxError::ExecError(_) => "Failed to execute command: "@,
            RootboxError::IoError(_) => "I/O error: "@,
            RootboxError::SyscallError(_) => "System call error: "@,
            RootboxError::PathError(_) => "Invalid path: "@,
            RootboxError::ProcessError(_) => "Process error: "@,
        }
    }

    fn heading(&self) -> (r: &'static str)
        ensures
            r@ == self.spec_heading(),
    {
        match self {
            RootboxError::ConfigError(_) => "Configuration error: ",
            RootboxError::NamespaceError(_) => "Failed to create namespace: ",
            RootboxError::MountError(_) => "Failed to setup mount: ",
            RootboxError::OverlayFsError(_) => "Failed to setup overlayfs: ",
            RootboxError::PtyError(_) => "Failed to setup PTY: ",
            RootboxError::ChrootError(_) => "Failed to chroot: ",
            RootboxError::ExecError(_) => "Failed to execute command: ",
            RootboxError::IoError(_) => "I/O error: ",
            RootboxError::SyscallError(_) => "System call error: ",
            RootboxError::PathError(_) => "Invalid path: ",
            RootboxError::ProcessError(_) => "Process error: ",
        }
    }

    fn text(&self) -> (r: &String)
        ensures
            r@ == self.detail(),
    {
        match self {
            RootboxError::ConfigError(m) => m,
            RootboxError::NamespaceError(m) => m,
            RootboxError::MountError(m) => m,
            RootboxError::OverlayFsError(m) => m,
            RootboxError::PtyError(m) => m,
            RootboxError::ChrootError(m) => m,
            RootboxError::ExecError(m) => m,
            RootboxError::IoError(m) => m,
            RootboxError::SyscallError(m) => m,
            RootboxError::PathError(m) => m,
            RootboxError::ProcessError(m) => m,
        }
    }

    /// The one-line, classified message shown to the user.
    pub fn message(&self) -> (r: String)
        ensures
            r@ == self.spec_heading() + self.detail(),
    {
        let head = String::from_str(self.heading());
        head.concat(self.text().as_str())
    }
}

} // verus!
