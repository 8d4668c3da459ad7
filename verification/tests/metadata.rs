use lazytree::metadata::{
    load_config, path_join_exec, remember_mount_success, ConfigFile, FilesystemBackendKind as K,
    Paths, PathsError,
};
use lazytree::semantic::{SemanticPaths, ENV_SESSION_CACHE, ENV_SHARED_CACHE};

#[test]
fn home_resolution_order() {
    let p = Paths::resolve(Some("/x".to_string()), Some("/e".to_string()), Some("/u".to_string())).unwrap();
    assert_eq!(p.home, "/x");
    assert_eq!(Paths::resolve(None, Some("/e".to_string()), Some("/u".to_string())).unwrap().home, "/e");
    assert_eq!(Paths::resolve(None, None, Some("/u".to_string())).unwrap().home, "/u/.lazytree");
    assert!(matches!(Paths::resolve(None, None, None), Err(PathsError::HomeNotSet)));
}

#[test]
fn home_layout_paths() {
    let p = Paths { home: "/h".to_string() };
    assert_eq!(p.config_path(), "/h/config.json");
    assert_eq!(p.repositories_dir(), "/h/repositories");
    assert_eq!(p.sessions_dir(), "/h/sessions");
    assert_eq!(p.locks_dir(), "/h/locks");
    assert_eq!(p.session_name_claim_dir(), "/h/sessions/.names");
    assert_eq!(p.repo_dir("repo_1"), "/h/repositories/repo_1");
    assert_eq!(p.session_dir("session_1"), "/h/sessions/session_1");
    assert_eq!(p.ensure_layout(), vec!["/h/repositories", "/h/sessions", "/h/locks"]);
}

#[test]
fn path_join_like_pathbuf() {
    assert_eq!(path_join_exec("/a", "b"), "/a/b");
    assert_eq!(path_join_exec("/a/", "b"), "/a/b");
    assert_eq!(path_join_exec("", "b"), "b");
    assert_eq!(path_join_exec("/a", "/b"), "/b");
}

#[test]
fn config_defaults_and_hints() {
    let d = load_config(None);
    assert_eq!(d.version, 1);
    assert_eq!(d.filesystem_backend, K::Auto);
    assert_eq!(d.last_working_backend, None);
    let stored = ConfigFile { version: 1, filesystem_backend: K::FuseOverlayfs, last_working_backend: None, mount_needs_sudo: None };
    assert_eq!(load_config(Some(stored)).filesystem_backend, K::FuseOverlayfs);
    let c = remember_mount_success(&d, K::FuseOverlayfs, true).unwrap();
    assert_eq!(c.last_working_backend, Some(K::FuseOverlayfs));
    assert_eq!(c.mount_needs_sudo, Some(true));
    assert!(remember_mount_success(&c, K::FuseOverlayfs, true).is_none());
    assert!(remember_mount_success(&d, K::Auto, false).is_none());
    assert_eq!(K::UnionfsFuse.as_config_str(), "unionfs_fuse");
    assert_eq!(K::KernelOverlayfs.debug_name(), "KernelOverlayfs");
    assert_eq!(ConfigFile::default().mount_needs_sudo, None);
}

#[test]
fn semantic_cache_paths() {
    let s = SemanticPaths::for_session("/h/repositories/r", "/h/sessions/s");
    assert_eq!(s.shared, "/h/repositories/r/semantic/shared");
    assert_eq!(s.session_writable, "/h/sessions/s/semantic/writable");
    assert_eq!(s.ensure_roots(), vec![s.shared.clone(), s.session_writable.clone()]);
    assert_eq!(
        s.ensure(),
        vec![
            "/h/repositories/r/semantic/shared".to_string(),
            "/h/sessions/s/semantic/writable".to_string(),
            "/h/repositories/r/semantic/shared/cargo-home".to_string(),
            "/h/sessions/s/semantic/writable/caches".to_string(),
        ]
    );
    let env = s.env_pairs();
    assert_eq!(env[0], (ENV_SHARED_CACHE, s.shared.clone()));
    assert_eq!(env[1], (ENV_SESSION_CACHE, s.session_writable.clone()));
    assert_eq!(env[2], ("CARGO_HOME", "/h/repositories/r/semantic/shared/cargo-home".to_string()));
}

#[test]
fn remembered_backend_goes_first_next_time() {
    let c = remember_mount_success(&load_config(None), K::FuseOverlayfs, true).unwrap();
    assert_eq!(lazytree::filesystem::auto_backend_order(c.last_working_backend)[0], K::FuseOverlayfs);
    let k = remember_mount_success(&c, K::KernelOverlayfs, false).unwrap();
    assert_eq!(lazytree::filesystem::auto_backend_order(k.last_working_backend)[0], K::KernelOverlayfs);
    assert_eq!(k.mount_needs_sudo, Some(false));
}
