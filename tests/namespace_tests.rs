use rootbox::config::Config;
use rootbox::namespace::NamespaceManager;
use rootbox::steps::{ErrorKind, OnFailure, Op};

#[test]
fn test_namespace_manager_creation() {
    let config = Config::default();
    let manager = NamespaceManager::new(config);
    assert!(manager.outer_uid != 0 || manager.outer_uid == 0);
}

#[test]
fn uid_and_gid_maps_for_unprivileged_user() {
    let ns = NamespaceManager::with_ids(Config::default(), 1000, 1000);
    let steps = ns.setup_user_namespace();
    assert_eq!(steps.len(), 4);
    match &steps[0].op {
        Op::Unshare(set) => assert!(set.user && !set.mount && !set.pid && !set.uts && !set.net),
        _ => panic!("expected unshare"),
    }
    assert!(matches!(&steps[1].op,
        Op::WriteProcFile { path, content } if path == "/proc/self/uid_map" && content == "0 1000 1\n"));
    assert!(matches!(&steps[2].op,
        Op::WriteProcFile { path, content } if path == "/proc/self/setgroups" && content == "deny\n"));
    assert!(matches!(&steps[3].op,
        Op::WriteProcFile { path, content } if path == "/proc/self/gid_map" && content == "0 1000 1\n"));
    for s in &steps {
        assert_eq!(s.on_failure, OnFailure::Abort(ErrorKind::Namespace));
    }
}

#[test]
fn distinct_uid_and_gid_are_written_apart() {
    let ns = NamespaceManager::with_ids(Config::default(), 4294967295, 7);
    let steps = ns.setup_user_namespace();
    assert!(matches!(&steps[1].op, Op::WriteProcFile { content, .. } if content == "0 4294967295 1\n"));
    assert!(matches!(&steps[3].op, Op::WriteProcFile { content, .. } if content == "0 7 1\n"));
}

#[test]
fn root_skips_user_namespace_but_not_others() {
    let ns = NamespaceManager::with_ids(Config::default(), 0, 0);
    assert!(ns.setup_user_namespace().is_empty());
    let steps = ns.setup_namespaces();
    assert_eq!(steps.len(), 2);
    match &steps[0].op {
        Op::Unshare(set) => assert!(set.pid && set.uts && !set.net && !set.user && !set.mount),
        _ => panic!("expected unshare"),
    }
    assert!(matches!(&steps[1].op, Op::SetHostname(h) if h == "rootbox"));
}

#[test]
fn user_namespace_disabled_gives_nothing() {
    let mut config = Config::default();
    config.features.user_namespace = false;
    let ns = NamespaceManager::with_ids(config, 1000, 1000);
    assert!(ns.setup_user_namespace().is_empty());
}

#[test]
fn hostname_and_domainname() {
    let mut config = Config::default();
    config.namespaces.hostname = Some("box".to_string());
    config.namespaces.domainname = Some("example.org".to_string());
    config.features.network_namespace = true;
    let ns = NamespaceManager::with_ids(config, 1000, 1000);
    let steps = ns.setup_namespaces();
    assert_eq!(steps.len(), 3);
    match &steps[0].op {
        Op::Unshare(set) => assert!(set.pid && set.uts && set.net),
        _ => panic!("expected unshare"),
    }
    assert!(matches!(&steps[1].op, Op::SetHostname(h) if h == "box"));
    assert!(matches!(&steps[2].op, Op::SetDomainname(d) if d == "example.org"));
    assert_eq!(steps[2].on_failure, OnFailure::Warn);
}

#[test]
fn no_namespaces_enabled_gives_nothing() {
    let mut config = Config::default();
    config.features.pid_namespace = false;
    config.features.uts_namespace = false;
    config.features.network_namespace = false;
    let ns = NamespaceManager::with_ids(config, 1000, 1000);
    assert!(ns.setup_namespaces().is_empty());
}

#[test]
fn mount_namespace_with_private_root() {
    let ns = NamespaceManager::with_ids(Config::default(), 1000, 1000);
    let steps = ns.setup_mount_namespace();
    assert_eq!(steps.len(), 2);
    match &steps[0].op {
        Op::Unshare(set) => assert!(set.mount && !set.user),
        _ => panic!("expected unshare"),
    }
    match &steps[1].op {
        Op::Mount { source, target, fstype, flags, .. } => {
            assert!(source.is_none() && fstype.is_none());
            assert_eq!(target, "/");
            assert!(flags.recursive && flags.private && !flags.bind);
        }
        _ => panic!("expected a mount"),
    }
    let mut config = Config::default();
    config.mounts.make_root_private = false;
    let steps = NamespaceManager::with_ids(config, 1000, 1000).setup_mount_namespace();
    assert_eq!(steps.len(), 1);
    let mut config = Config::default();
    config.features.mount_namespace = false;
    assert!(NamespaceManager::with_ids(config, 1000, 1000).setup_mount_namespace().is_empty());
}

#[test]
fn disabled_death_signal_and_no_new_privs_do_nothing() {
    let mut config = Config::default();
    config.features.parent_death_signal = false;
    config.features.no_new_privs = false;
    let ns = NamespaceManager::with_ids(config, 1000, 1000);
    assert!(ns.setup_parent_death_signal().is_empty());
    assert!(ns.set_no_new_privs().is_empty());
    let ns = NamespaceManager::with_ids(Config::default(), 1000, 1000);
    let p = ns.setup_parent_death_signal();
    assert_eq!(p.len(), 1);
    assert!(matches!(p[0].op, Op::ParentDeathSignal));
    assert_eq!(p[0].on_failure, OnFailure::Warn);
    let n = ns.set_no_new_privs();
    assert!(matches!(n[0].op, Op::NoNewPrivs));
    assert_eq!(n[0].on_failure, OnFailure::Abort(ErrorKind::Namespace));
}
