use lazytree::metadata::FilesystemBackendKind as K;
use lazytree::runtime::{
    canonical_dir, canonical_script_text, copy_args, promote_session_target_to_shared,
    seed_session_target_from_shared, ExecHost, ExecOptions, LocalRuntimeBackend, RuntimeBackend,
    RuntimeError,
};
use lazytree::semantic::SemanticPaths;
use lazytree::session::{FilesystemMeta, LayerState, RuntimeMeta, Session};

fn session(state: &str, lifecycle: &str) -> Session {
    Session {
        version: 1,
        id: "session_1".to_string(),
        name: "eng".to_string(),
        repository_id: "repo_1".to_string(),
        base_revision: "b".to_string(),
        branch: "lazytree/eng".to_string(),
        filesystem: FilesystemMeta { backend: K::KernelOverlayfs, state: state.to_string() },
        git: LayerState { state: "ready".to_string() },
        semantic: LayerState { state: "inherited".to_string() },
        runtime: RuntimeMeta { backend: "local".to_string(), state: "none".to_string() },
        created_at: "t".to_string(),
        updated_at: "t".to_string(),
        session_dir: "/h/sessions/session_1".to_string(),
        lifecycle: lifecycle.to_string(),
    }
}

fn semantic() -> SemanticPaths {
    SemanticPaths::for_session("/h/repositories/repo_1", "/h/sessions/session_1")
}

fn argv(v: &[&str]) -> Vec<String> {
    v.iter().map(|s| s.to_string()).collect()
}

#[test]
fn exec_options_default_to_canonical() {
    assert!(ExecOptions::default().canonical);
}

#[test]
fn plain_run_in_session_root() {
    let host = ExecHost { root_is_dir: true, canonical_supported: false, lazytree_home: None, home: Some("/u".to_string()) };
    let p = LocalRuntimeBackend.exec(&session("mounted", "ready"), &semantic(), &argv(&["cargo", "check"]), &ExecOptions { canonical: true }, &host).unwrap();
    assert_eq!(p.program, "cargo");
    assert_eq!(p.args, argv(&["check"]));
    assert_eq!(p.cwd.as_deref(), Some("/h/sessions/session_1/fs/root"));
    assert_eq!(
        p.env,
        vec![
            ("LAZYTREE_SHARED_CACHE".to_string(), "/h/repositories/repo_1/semantic/shared".to_string()),
            ("LAZYTREE_SESSION_CACHE".to_string(), "/h/sessions/session_1/semantic/writable".to_string()),
            ("CARGO_HOME".to_string(), "/h/repositories/repo_1/semantic/shared/cargo-home".to_string()),
            ("LAZYTREE_SESSION_ROOT".to_string(), "/h/sessions/session_1/fs/root".to_string()),
            ("LAZYTREE_SESSION_NAME".to_string(), "eng".to_string()),
            ("CARGO_TARGET_DIR".to_string(), "/h/sessions/session_1/semantic/writable/target".to_string()),
        ]
    );
    assert_eq!(p.create_dirs[2], "/h/sessions/session_1/semantic/writable/target");
}

#[test]
fn canonical_run_binds_fixed_paths() {
    let host = ExecHost { root_is_dir: true, canonical_supported: true, lazytree_home: Some("/lt".to_string()), home: None };
    let p = LocalRuntimeBackend.exec(&session("mounted", "ready"), &semantic(), &argv(&["echo", "it's"]), &ExecOptions { canonical: true }, &host).unwrap();
    assert_eq!(p.program, "unshare");
    assert_eq!(&p.args[..5], &argv(&["--user", "--map-root-user", "--mount", "bash", "-c"])[..]);
    assert_eq!(
        p.args[5],
        "set -euo pipefail\nmount --bind '/h/sessions/session_1/fs/root' '/lt/canonical/workspace'\nmount --bind '/h/sessions/session_1/semantic/writable/target' '/lt/canonical/target'\ncd '/lt/canonical/workspace'\nexec 'echo' 'it'\"'\"'s'\n"
    );
    assert!(p.cwd.is_none());
    let n = p.env.len();
    assert_eq!(p.env[n - 3], ("PWD".to_string(), "/lt/canonical/workspace".to_string()));
    assert_eq!(p.env[n - 2], ("CARGO_TARGET_DIR".to_string(), "/lt/canonical/target".to_string()));
    assert_eq!(p.env[n - 1], ("LAZYTREE_CANONICAL_ROOT".to_string(), "/lt/canonical/workspace".to_string()));
}

#[test]
fn canonical_paths_shared_by_sessions() {
    let host = ExecHost { root_is_dir: true, canonical_supported: true, lazytree_home: None, home: Some("/u".to_string()) };
    let mut other = session("mounted", "ready");
    other.session_dir = "/h/sessions/session_2".to_string();
    let a = LocalRuntimeBackend.exec(&session("mounted", "ready"), &semantic(), &argv(&["x"]), &ExecOptions { canonical: true }, &host).unwrap();
    let b = LocalRuntimeBackend.exec(&other, &semantic(), &argv(&["x"]), &ExecOptions { canonical: true }, &host).unwrap();
    assert_eq!(a.env[5..9], b.env[5..9]);
    assert_ne!(a.env[3], b.env[3]);
}

#[test]
fn exec_refusals() {
    let host = ExecHost { root_is_dir: false, canonical_supported: false, lazytree_home: None, home: None };
    let o = ExecOptions { canonical: false };
    assert!(matches!(LocalRuntimeBackend.exec(&session("mounted", "ready"), &semantic(), &Vec::new(), &o, &host), Err(RuntimeError::EmptyCommand)));
    assert!(matches!(LocalRuntimeBackend.exec(&session("mounted", "archived"), &semantic(), &argv(&["a"]), &o, &host), Err(RuntimeError::NotActive(_))));
    assert!(matches!(LocalRuntimeBackend.exec(&session("unmounted", "ready"), &semantic(), &argv(&["a"]), &o, &host), Err(RuntimeError::NotActive(_))));
    match LocalRuntimeBackend.exec(&session("mounted", "ready"), &semantic(), &argv(&["a"]), &o, &host) {
        Err(RuntimeError::RootMissing(p)) => assert_eq!(p, "/h/sessions/session_1/fs/root"),
        other => panic!("unexpected {:?}", other),
    }
}

#[test]
fn canonical_dir_fallbacks() {
    assert_eq!(canonical_dir(Some("/lt"), Some("/u")), "/lt/canonical");
    assert_eq!(canonical_dir(None, Some("/u")), "/u/.lazytree/canonical");
    assert_eq!(canonical_dir(None, None), "/tmp/lazytree-canonical/canonical");
    assert_eq!(canonical_script_text("/r", "/t", "/w", "/g", &Vec::new()), "set -euo pipefail\nmount --bind '/r' '/w'\nmount --bind '/t' '/g'\ncd '/w'\nexec\n");
}

#[test]
fn target_seed_copies() {
    let sem = semantic();
    let p = promote_session_target_to_shared(&sem, true).unwrap();
    assert_eq!(copy_args(&p), argv(&["-a", "--reflink=auto", "/h/sessions/session_1/semantic/writable/target", "/h/repositories/repo_1/semantic/shared/target-seed"]));
    assert!(matches!(promote_session_target_to_shared(&sem, false), Err(RuntimeError::NoSessionTarget(_))));
    let s = seed_session_target_from_shared(&sem, true).unwrap();
    assert_eq!(s.dst, "/h/sessions/session_1/semantic/writable/target");
    assert!(seed_session_target_from_shared(&sem, false).is_none());
}
