use lazytree::filesystem::MountedSession;
use lazytree::metadata::{ConfigFile, FilesystemBackendKind as K, Paths};
use lazytree::repository::{Repository, RepositoryError, RepositoryStore};
use lazytree::runtime::{ExecHost, ExecOptions, RuntimeError};
use lazytree::session::{
    archived_record_at, count_unexported, diff_text, dir_stats, ensure_active_fs, git_porcelain,
    needs_change_check, new_session_id, publish_result, record_create_timings, rev_list_args, take_last_create_timings,
    validate_name, CreateFailure, CreateTimings, FilesystemMeta, LayerState, RuntimeMeta, Session, SessionError,
    SessionStore, StatEntry, StatusFacts,
};

fn repo(id: &str, source: &str) -> Repository {
    Repository {
        version: 1,
        id: id.to_string(),
        source_path: source.to_string(),
        base_path: format!("/h/repositories/{id}/base"),
        base_commit: "c0ffee".to_string(),
        object_store: format!("/h/repositories/{id}/base/.git/objects"),
        created_at: "2024-01-01T00:00:00Z".to_string(),
        state: "ready".to_string(),
    }
}

fn session(name: &str, id: &str, state: &str, lifecycle: &str) -> Session {
    Session {
        version: 1,
        id: id.to_string(),
        name: name.to_string(),
        repository_id: "repo_1".to_string(),
        base_revision: "c0ffee".to_string(),
        branch: format!("lazytree/{name}"),
        filesystem: FilesystemMeta { backend: K::FuseOverlayfs, state: state.to_string() },
        git: LayerState { state: "ready".to_string() },
        semantic: LayerState { state: "inherited".to_string() },
        runtime: RuntimeMeta { backend: "local".to_string(), state: "none".to_string() },
        created_at: "2024-01-01T00:00:00Z".to_string(),
        updated_at: "2024-01-01T00:00:00Z".to_string(),
        session_dir: format!("/h/sessions/{id}"),
        lifecycle: lifecycle.to_string(),
    }
}

fn store() -> SessionStore {
    let paths = Paths { home: "/h".to_string() };
    SessionStore::new(paths.clone(), RepositoryStore::new(paths))
}

fn cfg() -> ConfigFile {
    ConfigFile { version: 1, filesystem_backend: K::Auto, last_working_backend: Some(K::FuseOverlayfs), mount_needs_sudo: Some(false) }
}

#[test]
fn session_names_are_checked() {
    assert!(matches!(validate_name(""), Err(SessionError::EmptyName)));
    assert!(matches!(validate_name("a/b"), Err(SessionError::InvalidName)));
    assert!(matches!(validate_name("a\0b"), Err(SessionError::InvalidName)));
    assert!(validate_name("ticket-a").is_ok());
}

#[test]
fn create_plans_the_layout() {
    let st = store();
    let repos = vec![repo("repo_1", "/src/r")];
    let p = st.create(&Vec::new(), "ticket-a", false, &repos, None, None, None, &cfg()).unwrap();
    assert!(p.id.starts_with("session_"));
    assert_eq!(p.id.len(), 20);
    assert_eq!(p.session_dir, format!("/h/sessions/{}", p.id));
    assert_eq!(p.upper, format!("/h/sessions/{}/fs/upper", p.id));
    assert_eq!(p.work, format!("/h/sessions/{}/fs/work", p.id));
    assert_eq!(p.root, format!("/h/sessions/{}/fs/root", p.id));
    assert_eq!(p.git_dir, format!("/h/sessions/{}/git", p.id));
    assert_eq!(p.semantic.shared, "/h/repositories/repo_1/semantic/shared");
    assert_eq!(p.branch, "lazytree/ticket-a");
    assert_eq!(p.base_revision, "c0ffee");
    assert_eq!(p.preferred, K::Auto);
    assert_eq!(p.last_working, Some(K::FuseOverlayfs));
    let m = p.mount_request();
    assert_eq!(m.lowerdir, "/h/repositories/repo_1/base");
    assert_eq!(m.merged, p.root);
    let g = p.git_setup();
    assert_eq!(g.work_tree, p.root);
    assert_eq!(g.seed_commit.as_deref(), Some("c0ffee"));
    let from = st.create(&Vec::new(), "b", false, &repos, Some("/src/r"), None, Some("main"), &cfg()).unwrap();
    assert_eq!(from.base_revision, "main");
    let dirs = p.dirs();
    assert_eq!(dirs.len(), 9);
    assert_eq!(dirs[7], "/h/repositories/repo_1/semantic/shared/cargo-home");
    assert_eq!(dirs[8], format!("/h/sessions/{}/semantic/writable/caches", p.id));
    assert_eq!(p.repo_source, "/src/r");
    assert_eq!(g.user_name, None);
}

#[test]
fn create_plan_takes_the_source_identity() {
    let st = store();
    let repos = vec![repo("repo_1", "/src/r")];
    let mut p = st.create(&Vec::new(), "ticket-a", false, &repos, None, None, None, &cfg()).unwrap();
    let branch = p.branch.clone();
    p.with_identity(Some("test".to_string()), Some("test@lazytree.dev".to_string()));
    assert_eq!(p.branch, branch);
    let g = p.git_setup();
    assert_eq!(g.user_name.as_deref(), Some("test"));
    assert_eq!(g.user_email.as_deref(), Some("test@lazytree.dev"));
    p.with_identity(None, Some("e@x".to_string()));
    let g = p.git_setup();
    assert_eq!(g.user_name, None);
    assert_eq!(g.user_email.as_deref(), Some("e@x"));
}

#[test]
fn create_refusals() {
    let st = store();
    let one = vec![repo("repo_1", "/src/r")];
    let two = vec![repo("repo_1", "/src/r"), repo("repo_2", "/src/q")];
    let existing = vec![session("taken", "session_a", "mounted", "ready")];
    assert!(matches!(st.create(&existing, "taken", false, &one, None, None, None, &cfg()), Err(SessionError::NameExists(_))));
    assert!(matches!(st.create(&Vec::new(), "claimed", true, &one, None, None, None, &cfg()), Err(SessionError::NameExists(_))));
    assert!(matches!(st.create(&Vec::new(), "x", false, &Vec::new(), None, None, None, &cfg()), Err(SessionError::NoRepositories)));
    assert!(matches!(st.create(&Vec::new(), "x", false, &two, None, None, None, &cfg()), Err(SessionError::MultipleRepositories)));
    assert!(matches!(
        st.create(&Vec::new(), "x", false, &two, Some("nope"), None, None, &cfg()),
        Err(SessionError::Repository(RepositoryError::NotFound(_)))
    ));
    let p = st.create(&Vec::new(), "x", false, &two, Some("repo_2"), None, None, &cfg()).unwrap();
    assert_eq!(p.repo_id, "repo_2");
}

#[test]
fn new_sessions_get_distinct_roots() {
    let st = store();
    let repos = vec![repo("repo_1", "/src/r")];
    let a = st.create(&Vec::new(), "a", false, &repos, None, None, None, &cfg()).unwrap();
    let b = st.create(&Vec::new(), "b", false, &repos, None, None, None, &cfg()).unwrap();
    assert_ne!(a.id, b.id);
    assert_ne!(a.root, b.root);
    assert_ne!(a.upper, b.upper);
    assert!(new_session_id().starts_with("session_"));
}

#[test]
fn session_record_of_a_plan() {
    let st = store();
    let repos = vec![repo("repo_1", "/src/r")];
    let p = st.create(&Vec::new(), "t", false, &repos, None, None, None, &cfg()).unwrap();
    let s = p.session_record_at(&MountedSession { backend: K::KernelOverlayfs, used_sudo: true }, "2024-05-01T00:00:00Z");
    assert_eq!(s.filesystem.backend, K::KernelOverlayfs);
    assert_eq!(s.filesystem.state, "mounted");
    assert_eq!(s.git.state, "ready");
    assert_eq!(s.semantic.state, "inherited");
    assert_eq!(s.runtime.backend, "local");
    assert_eq!(s.lifecycle, "ready");
    assert_eq!(s.created_at, "2024-05-01T00:00:00Z");
    assert_eq!(s.root_path(), p.root);
    let now = p.session_record(&MountedSession { backend: K::KernelOverlayfs, used_sudo: false });
    assert_eq!(now.created_at, now.updated_at);
    assert!(now.created_at.ends_with('Z'));
    let c = st.cleanup_failed_create(&p);
    assert_eq!(c.name_claim, "/h/sessions/.names/t");
    let m = st.undo_failed_create(&p, &CreateFailure::Mount);
    assert_eq!(m.unmounts.len(), 1);
    assert!(m.unmounts[0].force);
    assert_eq!(m.unmounts[0].attempts[0], vec!["fusermount3", "-u", p.root.as_str()]);
    assert_eq!(m.cleanup.session_dir, p.session_dir);
    assert_eq!(m.cleanup.name_claim, st.name_claim_path("t"));
    let g = st.undo_failed_create(&p, &CreateFailure::GitSetup(K::KernelOverlayfs));
    assert_eq!(g.unmounts.len(), 2);
    assert!(!g.unmounts[0].force && g.unmounts[0].check_first);
    assert_eq!(g.unmounts[0].attempts, vec![vec!["umount", p.root.as_str()], vec!["sudo", "-n", "umount", "-l", p.root.as_str()]]);
    assert!(g.unmounts[1].force);
    assert_eq!(g.cleanup.root, p.root);
}

#[test]
fn list_sorts_by_name_and_get_prefers_names() {
    let st = store();
    let sessions = st.list(vec![
        session("b", "session_1", "mounted", "ready"),
        session("a", "b", "mounted", "ready"),
    ]);
    assert_eq!(sessions[0].name, "a");
    assert_eq!(st.get(&sessions, "b").unwrap(), 1);
    assert_eq!(st.get(&sessions, "session_1").unwrap(), 1);
    assert!(matches!(st.get(&sessions, "zzz"), Err(SessionError::NotFound(_))));
}

#[test]
fn destroy_keeps_unsaved_work_unless_forced() {
    let st = store();
    let sessions = vec![session("eng-1", "session_1", "mounted", "ready")];
    match st.destroy(&sessions, "eng-1", false, true, 2) {
        Err(SessionError::Unsaved(m)) => assert_eq!(
            m,
            "workspace has uncommitted changes and commits that have not been exported\nUse:\n  lazytree diff eng-1\n  lazytree archive eng-1\n  lazytree destroy eng-1 --force"
        ),
        other => panic!("unexpected {:?}", other),
    }
    match st.destroy(&sessions, "eng-1", false, false, 1) {
        Err(SessionError::Unsaved(m)) => assert!(m.starts_with("workspace has commits that have not been exported\n")),
        other => panic!("unexpected {:?}", other),
    }
    let p = st.destroy(&sessions, "eng-1", true, true, 2).unwrap();
    assert!(p.force);
    assert_eq!(p.root, "/h/sessions/session_1/fs/root");
    assert_eq!(p.name_claim, "/h/sessions/.names/eng-1");
    assert!(st.destroy(&sessions, "eng-1", false, false, 0).is_ok());
    let archived = vec![session("old", "session_2", "archived", "archived")];
    assert!(!needs_change_check(&archived[0], false));
    assert!(st.destroy(&archived, "old", false, true, 3).is_ok());
}

#[test]
fn archive_checks_and_publishes() {
    let st = store();
    let repos = vec![repo("repo_1", "/src/r")];
    let sessions = vec![
        session("eng-1", "session_1", "mounted", "ready"),
        session("gone", "session_2", "archived", "archived"),
        session("down", "session_3", "unmounted", "ready"),
    ];
    let p = st.archive(&sessions, "eng-1", true, &repos, None).unwrap();
    assert_eq!(
        p.push_args,
        vec!["--git-dir", "/h/sessions/session_1/git", "push", "/src/r", "HEAD:refs/heads/lazytree/eng-1"]
    );
    assert_eq!(p.reset_layers.len(), 3);
    assert_eq!(p.reset_layers[2], "/h/sessions/session_1/fs/root");
    assert_eq!(p.reset_caches, vec!["/h/sessions/session_1/runtime", "/h/sessions/session_1/semantic/writable"]);
    assert!(matches!(st.archive(&sessions, "gone", true, &repos, None), Err(SessionError::AlreadyArchived(_))));
    assert!(matches!(st.archive(&sessions, "down", true, &repos, None), Err(SessionError::NotActive(_))));
    assert!(matches!(st.archive(&sessions, "eng-1", false, &repos, None), Err(SessionError::NotMounted(_))));
    assert!(matches!(st.archive(&sessions, "eng-1", true, &Vec::new(), None), Err(SessionError::Repository(_))));
    let a = archived_record_at(&sessions[0], "2024-02-02T00:00:00Z");
    assert_eq!(a.lifecycle, "archived");
    assert_eq!(a.filesystem.state, "archived");
    assert_eq!(a.git.state, "published");
    assert_eq!(a.semantic.state, "none");
    assert_eq!(a.updated_at, "2024-02-02T00:00:00Z");
    assert_eq!(a.name, "eng-1");
    assert!(matches!(publish_result(false, " denied\n", "/src/r"), Err(SessionError::PublishFailed { .. })));
    assert!(publish_result(true, "", "/src/r").is_ok());
}

#[test]
fn status_reports_facts() {
    let st = store();
    let sessions = vec![session("eng-1", "session_1", "mounted", "ready")];
    let facts = StatusFacts { root_exists: true, head_exists: false, dirty: true, unexported_commits: 4, upper_files: 3, upper_bytes: 10 };
    let s = st.status(&sessions, "eng-1", &facts).unwrap();
    assert!(s.dirty);
    assert_eq!(s.unexported_commits, 0);
    assert_eq!(s.upper_files, 3);
    assert_eq!(s.root, "/h/sessions/session_1/fs/root");
    assert_eq!(s.shared_cache, "/h/repositories/repo_1/semantic/shared");
    assert_eq!(s.session_cache, "/h/sessions/session_1/semantic/writable");
    assert!(s.age_seconds > 0);
    assert_eq!(st.status_at(&sessions, "eng-1", &facts, Some(42)).unwrap().age_seconds, 42);
    assert_eq!(st.status_at(&sessions, "eng-1", &facts, None).unwrap().age_seconds, 0);
    assert!(matches!(st.status_at(&sessions, "nope", &facts, Some(1)), Err(SessionError::NotFound(_))));
}

#[test]
fn exec_plans_through_the_store() {
    let st = store();
    let sessions = vec![session("eng-1", "session_1", "mounted", "ready")];
    let host = ExecHost { root_is_dir: true, canonical_supported: false, lazytree_home: None, home: None };
    let p = st.exec(&sessions, "eng-1", &vec!["cargo".to_string(), "check".to_string()], &host).unwrap();
    assert_eq!(p.program, "cargo");
    assert_eq!(p.cwd.as_deref(), Some("/h/sessions/session_1/fs/root"));
    let opts = ExecOptions { canonical: false };
    assert!(matches!(
        st.exec_with(&sessions, "eng-1", &Vec::new(), &opts, &host),
        Err(SessionError::Runtime(RuntimeError::EmptyCommand))
    ));
    let c = st.cache_promote(&sessions, "eng-1", true).unwrap();
    assert_eq!(c.src, "/h/sessions/session_1/semantic/writable/target");
    assert_eq!(c.dst, "/h/repositories/repo_1/semantic/shared/target-seed");
    assert!(st.cache_seed(&sessions, "eng-1", false).unwrap().is_none());
    let two = vec![session("eng-1", "session_1", "mounted", "ready"), session("eng-2", "session_2", "mounted", "ready")];
    let promoted = st.cache_promote(&two, "eng-1", true).unwrap();
    let seeded = st.cache_seed(&two, "eng-2", true).unwrap().unwrap();
    assert_eq!(seeded.src, promoted.dst);
    assert_eq!(seeded.dst, "/h/sessions/session_2/semantic/writable/target");
    assert_eq!(st.diff(&sessions, "eng-1", true).unwrap(), "/h/sessions/session_1/fs/root");
}

#[test]
fn git_output_helpers() {
    assert_eq!(count_unexported(true, " 3\n", "").unwrap(), 3);
    assert!(matches!(count_unexported(true, "x", ""), Err(SessionError::BadRevisionCount)));
    assert!(matches!(count_unexported(false, "", "err"), Err(SessionError::GitFailed { .. })));
    assert_eq!(git_porcelain(true, " M a\n", "").unwrap(), " M a\n");
    let s = session("n", "session_9", "mounted", "ready");
    assert_eq!(rev_list_args(&s), vec!["--git-dir", "/h/sessions/session_9/git", "rev-list", "--count", "c0ffee..HEAD"]);
    assert_eq!(diff_text(true, "d1", "", true, "d2").unwrap(), "d1\n# staged\nd2");
    assert_eq!(diff_text(true, "d1", "", true, "").unwrap(), "d1");
    assert!(matches!(diff_text(false, "", "bad\n", true, ""), Err(SessionError::GitFailed { .. })));
    assert!(matches!(ensure_active_fs(&s, false), Err(SessionError::NotMounted(_))));
}

#[test]
fn upper_stats_and_timings() {
    let tree = StatEntry {
        is_file: false,
        is_dir: true,
        len: 0,
        children: vec![
            StatEntry { is_file: true, is_dir: false, len: 5, children: Vec::new() },
            StatEntry {
                is_file: false,
                is_dir: true,
                len: 0,
                children: vec![StatEntry { is_file: true, is_dir: false, len: 7, children: Vec::new() }],
            },
        ],
    };
    assert_eq!(dir_stats(&Some(tree)), (2, 12));
    assert_eq!(dir_stats(&None), (0, 0));
    let mut slot = Some(CreateTimings::new(3, 4));
    let t = take_last_create_timings(&mut slot).unwrap();
    assert_eq!(t.total_ms, 7);
    assert!(slot.is_none());
    assert!(take_last_create_timings(&mut slot).is_none());
    record_create_timings(&mut slot, 10, 25);
    let t = take_last_create_timings(&mut slot).unwrap();
    assert_eq!((t.filesystem_ms, t.git_ms, t.total_ms), (10, 25, 35));
    assert!(take_last_create_timings(&mut slot).is_none());
}
