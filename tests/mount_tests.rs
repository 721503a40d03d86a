use rootbox::config::{BindMount, Config};
use rootbox::mount::MountManager;
use rootbox::overlay::{OverlayFsManager, UpperDir};
use rootbox::steps::{ErrorKind, OnFailure, Op, Step};

fn mount_target(s: &Step) -> Option<String> {
    match &s.op {
        Op::Mount { target, .. } => Some(target.clone()),
        _ => None,
    }
}

#[test]
fn test_mount_manager_creation() {
    let config = Config::default();
    let manager = MountManager::new(config);
    assert!(manager.config.mounts.mount_proc);
}

#[test]
fn basic_mounts_with_defaults() {
    let manager = MountManager::new(Config::default());
    let steps = manager.setup_basic_mounts("/tmp/r");
    assert_eq!(steps.len(), 8);
    assert!(matches!(&steps[0].op, Op::EnsureDir(p) if p == "/tmp/r/proc"));
    match &steps[1].op {
        Op::Mount { source, target, fstype, flags, data } => {
            assert_eq!(source.as_deref(), Some("proc"));
            assert_eq!(target, "/tmp/r/proc");
            assert_eq!(fstype.as_deref(), Some("proc"));
            assert!(!flags.bind && !flags.recursive && !flags.readonly);
            assert!(data.is_none());
        }
        _ => panic!("expected a mount"),
    }
    match &steps[3].op {
        Op::Mount { source, target, fstype, flags, .. } => {
            assert_eq!(source.as_deref(), Some("/sys"));
            assert_eq!(target, "/tmp/r/sys");
            assert!(fstype.is_none());
            assert!(flags.bind && flags.recursive && flags.readonly);
        }
        _ => panic!("expected a mount"),
    }
    match &steps[5].op {
        Op::Mount { source, flags, .. } => {
            assert_eq!(source.as_deref(), Some("/dev"));
            assert!(flags.bind && flags.recursive && !flags.readonly);
        }
        _ => panic!("expected a mount"),
    }
    assert_eq!(mount_target(&steps[7]).as_deref(), Some("/tmp/r/tmp"));
    for s in &steps {
        assert_eq!(s.on_failure, OnFailure::Abort(ErrorKind::Mount));
    }
}

#[test]
fn bind_mount_resolves_under_new_root() {
    let mut config = Config::default();
    config.mounts.mount_proc = false;
    config.mounts.mount_sys = false;
    config.mounts.mount_dev = false;
    config.mounts.mount_tmp = false;
    config.mounts.bind_mounts.push(BindMount {
        source: "/host/x".to_string(),
        destination: "/data/y".to_string(),
        readonly: false,
        recursive: true,
    });
    let steps = MountManager::new(config).setup_basic_mounts("/tmp/r");
    assert_eq!(steps.len(), 2);
    assert!(matches!(&steps[0].op, Op::EnsureDir(p) if p == "/tmp/r/data/y"));
    match &steps[1].op {
        Op::Mount { source, target, fstype, flags, .. } => {
            assert_eq!(source.as_deref(), Some("/host/x"));
            assert_eq!(target, "/tmp/r/data/y");
            assert!(fstype.is_none());
            assert!(flags.bind && flags.recursive && !flags.readonly);
        }
        _ => panic!("expected a mount"),
    }
}

#[test]
fn bind_mounts_keep_order_and_flags() {
    let mut config = Config::default();
    config.mounts.mount_proc = false;
    config.mounts.mount_sys = false;
    config.mounts.mount_dev = false;
    config.mounts.mount_tmp = false;
    config.mounts.bind_mounts.push(BindMount {
        source: "/a".to_string(),
        destination: "//x".to_string(),
        readonly: true,
        recursive: false,
    });
    config.mounts.bind_mounts.push(BindMount {
        source: "/b".to_string(),
        destination: "rel/z".to_string(),
        readonly: false,
        recursive: true,
    });
    let steps = MountManager::new(config).setup_basic_mounts("/root/");
    assert_eq!(steps.len(), 4);
    assert_eq!(mount_target(&steps[1]).as_deref(), Some("/root/x"));
    assert_eq!(mount_target(&steps[3]).as_deref(), Some("/root/rel/z"));
    match &steps[1].op {
        Op::Mount { flags, .. } => assert!(flags.bind && !flags.recursive && flags.readonly),
        _ => panic!("expected a mount"),
    }
}

#[test]
fn chroot_then_chdir() {
    let steps = MountManager::new(Config::default()).chroot("/tmp/r");
    assert_eq!(steps.len(), 2);
    assert!(matches!(&steps[0].op, Op::Chroot(p) if p == "/tmp/r"));
    assert!(matches!(&steps[1].op, Op::Chdir(p) if p == "/"));
    assert_eq!(steps[1].on_failure, OnFailure::Abort(ErrorKind::Chroot));
}

fn overlay(extras: Option<Vec<String>>, persist: Option<String>) -> OverlayFsManager {
    let upper = if OverlayFsManager::needs_temp_upper(&persist) {
        Some("/tmp/up".to_string())
    } else {
        None
    };
    OverlayFsManager::new(
        "/img".to_string(),
        extras,
        persist,
        upper,
        "/tmp/work".to_string(),
        "/tmp/merged".to_string(),
    )
}

#[test]
fn overlay_lowerdir_puts_image_last() {
    let o = overlay(Some(vec!["A".to_string(), "B".to_string()]), None);
    let lower = o.lowerdir_option();
    assert!(lower.starts_with("B:A:/img"));
    assert_eq!(lower, "B:A:/img");
    assert_eq!(lower.split(':').count(), 3);
    assert_eq!(lower.split(':').last(), Some("/img"));
}

#[test]
fn overlay_mount_options() {
    let o = overlay(Some(vec!["A".to_string()]), None);
    let steps = o.setup();
    assert_eq!(steps.len(), 1);
    match &steps[0].op {
        Op::Mount { source, target, fstype, flags, data } => {
            assert_eq!(source.as_deref(), Some("overlay"));
            assert_eq!(target, "/tmp/merged");
            assert_eq!(fstype.as_deref(), Some("overlay"));
            assert!(!flags.bind && !flags.recursive && !flags.readonly && !flags.private);
            assert_eq!(
                data.as_deref(),
                Some("lowerdir=A:/img,upperdir=/tmp/up,workdir=/tmp/work")
            );
        }
        _ => panic!("expected a mount"),
    }
    assert_eq!(steps[0].on_failure, OnFailure::Abort(ErrorKind::OverlayFs));
    assert_eq!(o.get_final_root(), "/tmp/merged");
}

#[test]
fn empty_extras_same_as_none() {
    let a = overlay(Some(vec![]), None);
    let b = overlay(None, None);
    assert_eq!(a.lowerdir_option(), "/img");
    assert_eq!(a.lowerdir_option(), b.lowerdir_option());
    match (&a.setup()[0].op, &b.setup()[0].op) {
        (Op::Mount { data: x, .. }, Op::Mount { data: y, .. }) => assert_eq!(x, y),
        _ => panic!("expected mounts"),
    }
}

#[test]
fn persistent_upper_is_kept() {
    let o = overlay(None, Some("/persist".to_string()));
    assert!(matches!(&o.upper, UpperDir::Persistent(p) if p == "/persist"));
    assert!(!OverlayFsManager::needs_temp_upper(&Some("/persist".to_string())));
    match &o.setup()[0].op {
        Op::Mount { data, .. } => assert_eq!(
            data.as_deref(),
            Some("lowerdir=/img,upperdir=/persist,workdir=/tmp/work")
        ),
        _ => panic!("expected a mount"),
    }
    let steps = o.cleanup();
    assert_eq!(steps.len(), 2);
    assert!(matches!(&steps[0].op, Op::RemoveDirAll(p) if p == "/tmp/work"));
    assert!(matches!(&steps[1].op, Op::RemoveDirAll(p) if p == "/tmp/merged"));
}

#[test]
fn ephemeral_upper_is_removed() {
    let o = overlay(None, None);
    assert!(matches!(&o.upper, UpperDir::Ephemeral(p) if p == "/tmp/up"));
    let steps = o.cleanup();
    assert_eq!(steps.len(), 3);
    assert!(matches!(&steps[0].op, Op::RemoveDirAll(p) if p == "/tmp/up"));
    assert!(matches!(&steps[1].op, Op::RemoveDirAll(p) if p == "/tmp/work"));
    assert!(matches!(&steps[2].op, Op::RemoveDirAll(p) if p == "/tmp/merged"));
}

#[test]
fn lowerdir_has_one_entry_per_layer() {
    let o = overlay(Some(vec!["/l1".to_string(), "/l2".to_string(), "/l3".to_string()]), None);
    let lower = o.lowerdir_option();
    assert_eq!(lower, "/l3:/l2:/l1:/img");
    assert_eq!(lower.matches(':').count(), 3);
}

#[test]
fn single_bind_mount_target() {
    let manager = MountManager::new(Config::default());
    let b = BindMount {
        source: "/host/x".to_string(),
        destination: "/data/y".to_string(),
        readonly: true,
        recursive: false,
    };
    let steps = manager.setup_bind_mount("/tmp/r", &b);
    assert_eq!(steps.len(), 2);
    assert!(matches!(&steps[0].op, Op::EnsureDir(p) if p == "/tmp/r/data/y"));
    match &steps[1].op {
        Op::Mount { source, target, flags, .. } => {
            assert_eq!(source.as_deref(), Some("/host/x"));
            assert_eq!(target, "/tmp/r/data/y");
            assert!(flags.bind && !flags.recursive && flags.readonly);
        }
        _ => panic!("expected a mount"),
    }
}
