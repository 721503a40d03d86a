use rootbox::config::{default_true, BindMount, Config};
use rootbox::error::RootboxError;

#[test]
fn test_default_config() {
    let config = Config::default();
    assert!(config.features.overlayfs);
    assert!(config.features.user_namespace);
    assert!(config.mounts.mount_proc);
}

#[test]
fn default_config_matches_documented_values() {
    let config = Config::default();
    let f = &config.features;
    assert!(f.overlayfs && f.user_namespace && f.mount_namespace && f.pid_namespace);
    assert!(f.uts_namespace && f.pty_enabled && f.parent_death_signal && f.no_new_privs);
    assert!(!f.network_namespace);
    assert_eq!(config.pty.default_rows, 24);
    assert_eq!(config.pty.default_cols, 80);
    assert!(config.namespaces.hostname.is_none());
    assert!(config.namespaces.domainname.is_none());
    assert!(config.mounts.sys_readonly && config.mounts.make_root_private);
    assert!(config.mounts.bind_mounts.is_empty());
    assert!(!config.security.apparmor_enabled);
    assert!(config.security.keep_capabilities.is_empty());
}

#[test]
fn bind_mount_recursive_defaults_on() {
    assert!(default_true());
    let b = BindMount {
        source: "/host/x".to_string(),
        destination: "/data/y".to_string(),
        readonly: false,
        recursive: default_true(),
    };
    assert!(b.recursive);
}

#[test]
fn load_without_file_gives_defaults() {
    let config = Config::load_or_default(None).unwrap();
    assert_eq!(config.pty.default_rows, 24);
    assert!(!config.features.network_namespace);
}

#[test]
fn load_with_file_gives_what_was_read() {
    let mut read = Config::default();
    read.pty.default_rows = 50;
    let config = Config::load_or_default(Some(Ok(read))).unwrap();
    assert_eq!(config.pty.default_rows, 50);
    let failed = Config::load_or_default(Some(Err(RootboxError::ConfigError("bad".to_string()))));
    assert!(matches!(failed, Err(RootboxError::ConfigError(_))));
}

#[test]
fn error_messages_are_classified() {
    let e = RootboxError::MountError("Failed to mount proc: EPERM".to_string());
    assert_eq!(e.message(), "Failed to setup mount: Failed to mount proc: EPERM");
    assert_eq!(RootboxError::PathError("x".to_string()).message(), "Invalid path: x");
    assert_eq!(
        RootboxError::NamespaceError("y".to_string()).message(),
        "Failed to create namespace: y"
    );
    assert_eq!(RootboxError::ExecError("z".to_string()).message(), "Failed to execute command: z");
    assert_eq!(RootboxError::ProcessError("w".to_string()).message(), "Process error: w");
}
