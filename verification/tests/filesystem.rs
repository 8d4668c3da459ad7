use lazytree::filesystem::backend::OverlayBackend;
use lazytree::filesystem::cmd::{path_str, with_privilege_fallback};
use lazytree::filesystem::registry::{auto_order, auto_order_on, lookup, lookup_on, platform_plugins, platform_plugins_on, registered, registered_on};
use lazytree::filesystem::{
    auto_backend_order, doctor_host_issues, doctor_host_issues_on, mount_session, mount_session_on, HostOs, overlayfs, umount_force,
    umount_with_backend, unionfs, MountAction, MountProcedure, MountError, MountEvent, MountRequest, MountedSession,
    UmountAction, UmountError, UmountEvent,
};
use lazytree::metadata::FilesystemBackendKind as K;

fn req(preferred: K, last: Option<K>, needs_sudo: Option<bool>) -> MountRequest {
    MountRequest {
        lowerdir: "/r/base".to_string(),
        upperdir: "/s/fs/upper".to_string(),
        workdir: "/s/fs/work".to_string(),
        merged: "/s/fs/root".to_string(),
        preferred,
        last_working: last,
        needs_sudo,
    }
}

fn strs(v: &[&str]) -> Vec<String> {
    v.iter().map(|s| s.to_string()).collect()
}

#[test]
fn auto_order_prefers_last_working() {
    assert_eq!(auto_backend_order(None), vec![K::KernelOverlayfs, K::FuseOverlayfs]);
    assert_eq!(auto_backend_order(Some(K::FuseOverlayfs)), vec![K::FuseOverlayfs, K::KernelOverlayfs]);
    assert_eq!(
        auto_order(Some(K::UnionfsFuse)),
        vec![K::UnionfsFuse, K::KernelOverlayfs, K::FuseOverlayfs]
    );
    assert_eq!(auto_backend_order(Some(K::Auto)), vec![K::KernelOverlayfs, K::FuseOverlayfs]);
}

#[test]
fn kernel_and_fuse_command_lines() {
    let r = req(K::Auto, None, None);
    let k = overlayfs::try_kernel(&r);
    assert_eq!(
        k.unprivileged,
        strs(&["mount", "-t", "overlay", "overlay", "-o", "lowerdir=/r/base,upperdir=/s/fs/upper,workdir=/s/fs/work", "/s/fs/root"])
    );
    assert_eq!(k.privileged[0], "sudo");
    assert_eq!(k.privileged[1], "-n");
    assert!(!k.capture_privileged);
    let f = overlayfs::try_fuse(&r, 1000, 100);
    assert_eq!(
        f.unprivileged,
        strs(&["fuse-overlayfs", "-o", "lowerdir=/r/base,upperdir=/s/fs/upper,workdir=/s/fs/work", "/s/fs/root"])
    );
    assert!(f.privileged.contains(&"lowerdir=/r/base,upperdir=/s/fs/upper,workdir=/s/fs/work,allow_other,uid=1000,gid=100".to_string()));
    assert!(f.capture_privileged);
}

#[test]
fn unionfs_command_lines() {
    let r = req(K::UnionfsFuse, None, None);
    let c = unionfs::try_mount(&r, 7, 8, "unionfs");
    assert_eq!(
        c.unprivileged,
        strs(&["unionfs", "-o", "cow,use_ino", "/s/fs/upper=RW:/r/base=RO", "/s/fs/root"])
    );
    assert_eq!(
        c.privileged,
        strs(&["sudo", "-n", "unionfs", "-o", "cow,use_ino,allow_other,uid=7,gid=8", "/s/fs/upper=RW:/r/base=RO", "/s/fs/root"])
    );
    assert_eq!(unionfs::resolve_binary_candidates(), vec!["unionfs-fuse", "unionfs"]);
}

#[test]
fn auto_mount_falls_back_to_fuse() {
    let mut p = mount_session(req(K::Auto, None, None), 1, 1);
    assert!(matches!(p.step(MountEvent::Begin), MountAction::Run { backend: K::KernelOverlayfs, privileged: false }));
    assert!(matches!(
        p.step(MountEvent::Ran { started: true, success: false, stderr: String::new() }),
        MountAction::Run { backend: K::KernelOverlayfs, privileged: true }
    ));
    assert!(matches!(
        p.step(MountEvent::Ran { started: true, success: false, stderr: "no".to_string() }),
        MountAction::Run { backend: K::FuseOverlayfs, privileged: false }
    ));
    match p.step(MountEvent::Ran { started: true, success: true, stderr: String::new() }) {
        MountAction::Mounted(m) => assert_eq!(m, MountedSession { backend: K::FuseOverlayfs, used_sudo: false }),
        other => panic!("unexpected {:?}", other),
    }
}

#[test]
fn needs_sudo_goes_straight_to_privileged() {
    let mut p = mount_session(req(K::FuseOverlayfs, None, Some(true)), 1, 1);
    assert!(matches!(p.step(MountEvent::Begin), MountAction::Run { backend: K::FuseOverlayfs, privileged: true }));
    match p.step(MountEvent::Ran { started: true, success: true, stderr: String::new() }) {
        MountAction::Mounted(m) => assert!(m.used_sudo),
        other => panic!("unexpected {:?}", other),
    }
}

#[test]
fn failed_mount_reports_last_error() {
    let mut p = mount_session(req(K::FuseOverlayfs, None, Some(true)), 1, 1);
    p.step(MountEvent::Begin);
    match p.step(MountEvent::Ran { started: true, success: false, stderr: "fuse: bad".to_string() }) {
        MountAction::Failed(MountError::FuseMountFailed(e)) => assert_eq!(e, "fuse: bad"),
        other => panic!("unexpected {:?}", other),
    }
    let mut q = mount_session(req(K::UnionfsFuse, None, None), 1, 1);
    assert!(matches!(q.step(MountEvent::Begin), MountAction::ResolveUnionfsBinary));
    assert!(matches!(q.step(MountEvent::UnionfsBinary(None)), MountAction::Failed(MountError::UnionfsNotFound)));
    let mut k = mount_session(req(K::KernelOverlayfs, None, Some(true)), 1, 1);
    k.step(MountEvent::Begin);
    assert!(matches!(
        k.step(MountEvent::Ran { started: false, success: false, stderr: String::new() }),
        MountAction::Failed(MountError::CouldNotRun(K::KernelOverlayfs))
    ));
}

#[test]
fn umount_tries_fuse_tools_then_umount() {
    let p = umount_with_backend("/m", Some(K::FuseOverlayfs));
    assert_eq!(
        p.attempts,
        vec![
            strs(&["fusermount3", "-u", "/m"]),
            strs(&["sudo", "-n", "fusermount3", "-u", "/m"]),
            strs(&["fusermount", "-u", "/m"]),
            strs(&["sudo", "-n", "fusermount", "-u", "/m"]),
            strs(&["umount", "/m"]),
            strs(&["sudo", "-n", "umount", "-l", "/m"]),
        ]
    );
    let k = umount_with_backend("/m", Some(K::KernelOverlayfs));
    assert_eq!(k.attempts, vec![strs(&["umount", "/m"]), strs(&["sudo", "-n", "umount", "-l", "/m"])]);
    let o = overlayfs::umount_with_backend("/m", None);
    assert_eq!(o.attempts.len(), 4);
}

#[test]
fn umount_skips_unmounted_and_reports_still_mounted() {
    let mut p = umount_with_backend("/m", Some(K::KernelOverlayfs));
    assert_eq!(p.step(UmountEvent::Begin), UmountAction::CheckMounted);
    assert_eq!(p.step(UmountEvent::Mounted(false)), UmountAction::Succeeded);

    let mut q = umount_with_backend("/m", Some(K::KernelOverlayfs));
    q.step(UmountEvent::Begin);
    assert_eq!(q.step(UmountEvent::Mounted(true)), UmountAction::Run(0));
    assert_eq!(q.step(UmountEvent::Ran(false)), UmountAction::Run(1));
    assert_eq!(q.step(UmountEvent::Ran(false)), UmountAction::CheckMounted);
    assert_eq!(q.step(UmountEvent::Mounted(true)), UmountAction::Failed(UmountError::StillMounted));

    let mut r = umount_with_backend("/m", None);
    r.step(UmountEvent::Begin);
    assert_eq!(r.step(UmountEvent::MountCheckFailed), UmountAction::Failed(UmountError::MountCheckFailed));
}

#[test]
fn forced_umount_always_runs_tools_and_never_fails_on_mount() {
    let mut p = umount_force("/m", Some(K::KernelOverlayfs));
    assert_eq!(p.step(UmountEvent::Begin), UmountAction::Run(0));
    assert_eq!(p.step(UmountEvent::Ran(false)), UmountAction::Run(1));
    assert_eq!(p.step(UmountEvent::Ran(false)), UmountAction::CheckMounted);
    assert_eq!(p.step(UmountEvent::Mounted(true)), UmountAction::Succeeded);
}

#[test]
fn forced_umount_runs_tools_for_every_backend() {
    let a = umount_force("/m", Some(K::Auto));
    assert_eq!(a.attempts.len(), 6);
    assert_eq!(a.attempts[0], strs(&["fusermount3", "-u", "/m"]));
    assert_eq!(a.attempts[5], strs(&["sudo", "-n", "umount", "-l", "/m"]));
    let o = overlayfs::umount_force("/m", Some(K::Auto));
    assert_eq!(o.attempts.len(), 4);
    let u = overlayfs::umount_force("/m", Some(K::UnionfsFuse));
    assert_eq!(u.attempts[0], strs(&["fusermount3", "-u", "/m"]));
    assert_eq!(u.attempts.len(), 4);
    assert!(umount_with_backend("/m", Some(K::Auto)).attempts.is_empty());
    assert!(overlayfs::umount_with_backend("/m", Some(K::UnionfsFuse)).attempts.is_empty());
    for k in [K::Auto, K::KernelOverlayfs, K::FuseOverlayfs, K::UnionfsFuse] {
        assert!(umount_force("/m", Some(k)).attempts.len() >= 2);
        assert!(overlayfs::umount_force("/m", Some(k)).attempts.len() >= 2);
    }
}

#[test]
fn registry_lists_plugins() {
    let kinds: Vec<K> = registered().iter().map(|b| b.kind()).collect();
    assert_eq!(kinds, vec![K::KernelOverlayfs, K::FuseOverlayfs, K::UnionfsFuse]);
    let plats: Vec<K> = platform_plugins().iter().map(|b| b.kind()).collect();
    assert_eq!(plats, vec![K::KernelOverlayfs, K::FuseOverlayfs]);
    assert!(lookup(K::Auto).is_none());
    assert_eq!(lookup(K::UnionfsFuse).unwrap().kind(), K::UnionfsFuse);
}

#[test]
fn host_issues_text() {
    assert!(doctor_host_issues(true, true).is_empty());
    let v = doctor_host_issues(false, false);
    assert_eq!(v.len(), 2);
    assert_eq!(v[0].1, "fuse_overlayfs_missing");
    assert_eq!(v[1].0, "info");
    assert_eq!(v[1].1, "sudo_n_unavailable");
}

#[test]
fn privilege_fallback_order() {
    let r: Result<bool, String> = with_privilege_fallback(None, || Ok(()), || Err("x".to_string()));
    assert_eq!(r, Ok(false));
    let r: Result<bool, String> = with_privilege_fallback(None, || Err("u".to_string()), || Ok(()));
    assert_eq!(r, Ok(true));
    let r: Result<bool, String> = with_privilege_fallback(Some(true), || Ok(()), || Err("p".to_string()));
    assert_eq!(r, Err("p".to_string()));
    assert_eq!(path_str("/a b"), "/a b");
}

#[test]
fn remaining_mount_errors() {
    let mut k = mount_session(req(K::KernelOverlayfs, None, Some(true)), 1, 1);
    k.step(MountEvent::Begin);
    assert!(matches!(
        k.step(MountEvent::Ran { started: true, success: false, stderr: "x".to_string() }),
        MountAction::Failed(MountError::KernelMountFailed)
    ));
    let mut u = mount_session(req(K::UnionfsFuse, None, Some(true)), 1, 1);
    u.step(MountEvent::Begin);
    assert!(matches!(u.step(MountEvent::UnionfsBinary(Some("unionfs".to_string()))), MountAction::Run { backend: K::UnionfsFuse, privileged: true }));
    match u.step(MountEvent::Ran { started: true, success: false, stderr: "denied".to_string() }) {
        MountAction::Failed(MountError::UnionfsMountFailed(e)) => assert_eq!(e, "denied"),
        other => panic!("unexpected {:?}", other),
    }
    let mut none = MountProcedure::new(req(K::Auto, None, None), 1, 1, Vec::new());
    assert!(matches!(none.step(MountEvent::Begin), MountAction::Failed(MountError::NoBackend)));
}

#[test]
fn backends_follow_the_os() {
    assert_eq!(auto_order_on(HostOs::MacOs, Some(K::FuseOverlayfs)), vec![K::UnionfsFuse]);
    assert_eq!(auto_order_on(HostOs::Linux, None), vec![K::KernelOverlayfs, K::FuseOverlayfs]);
    assert!(auto_order_on(HostOs::Other, None).is_empty());
    let mac: Vec<K> = registered_on(HostOs::MacOs).iter().map(|b| b.kind()).collect();
    assert_eq!(mac, vec![K::UnionfsFuse]);
    assert!(platform_plugins_on(HostOs::Other).is_empty());
    assert!(lookup_on(HostOs::MacOs, K::FuseOverlayfs).is_none());
    assert_eq!(lookup_on(HostOs::MacOs, K::UnionfsFuse).unwrap().kind(), K::UnionfsFuse);
    assert_eq!(registered_on(HostOs::Linux).len(), 3);
    let p = mount_session_on(HostOs::MacOs, req(K::Auto, None, None), 1, 1);
    assert_eq!(p.order, vec![K::UnionfsFuse]);
    let v = doctor_host_issues_on(HostOs::MacOs, false, false, true);
    assert_eq!(v.len(), 1);
    assert_eq!(v[0].1, "unionfs_fuse_missing");
    assert_eq!(doctor_host_issues_on(HostOs::Linux, false, false, false), doctor_host_issues(false, false));
}
