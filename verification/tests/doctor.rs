use lazytree::doctor::{
    count_stale_mappings, has_json_extension, issue, mapping_roots, run_doctor, unmounted_record_at,
    CursorCheck, DoctorFacts, HooksFile, RepoCheck, SessionCheck, SessionDirEntry,
};
use lazytree::filesystem::HostOs;
use lazytree::metadata::{FilesystemBackendKind as K, Paths};
use lazytree::repository::Repository;
use lazytree::session::{FilesystemMeta, LayerState, RuntimeMeta, Session};

fn repo(id: &str) -> Repository {
    Repository {
        version: 1,
        id: id.to_string(),
        source_path: "/src".to_string(),
        base_path: "/h/r/base".to_string(),
        base_commit: "c".to_string(),
        object_store: "/h/r/base/.git/objects".to_string(),
        created_at: "t".to_string(),
        state: "ready".to_string(),
    }
}

fn session(name: &str, state: &str, repo_id: &str) -> Session {
    Session {
        version: 1,
        id: format!("session_{name}"),
        name: name.to_string(),
        repository_id: repo_id.to_string(),
        base_revision: "c".to_string(),
        branch: format!("lazytree/{name}"),
        filesystem: FilesystemMeta { backend: K::FuseOverlayfs, state: state.to_string() },
        git: LayerState { state: "ready".to_string() },
        semantic: LayerState { state: "inherited".to_string() },
        runtime: RuntimeMeta { backend: "local".to_string(), state: "none".to_string() },
        created_at: "t".to_string(),
        updated_at: "t".to_string(),
        session_dir: format!("/h/sessions/session_{name}"),
        lifecycle: "ready".to_string(),
    }
}

fn check(s: Session, mounted: bool, head: bool) -> SessionCheck {
    SessionCheck { session: s, dir_is_dir: true, mounted, head_exists: head, repo_canonical: None }
}

fn codes(f: &DoctorFacts) -> Vec<String> {
    run_doctor(&Paths { home: "/h".to_string() }, f).report.issues.iter().map(|i| i.code.clone()).collect()
}

fn healthy() -> DoctorFacts {
    DoctorFacts {
        repos: vec![RepoCheck { repo: repo("repo_1"), base_is_dir: true, objects_is_dir: true }],
        sessions: vec![check(session("a", "mounted", "repo_1"), true, true)],
        session_dir_entries: vec![SessionDirEntry { path: "/h/sessions/.names".to_string(), file_name: ".names".to_string(), is_dir: true, has_metadata: false }],
        cursor: None,
        os: HostOs::Linux,
        fuse_ok: true,
        unionfs_ok: true,
        sudo_ok: true,
    }
}

#[test]
fn healthy_home_is_ok() {
    let out = run_doctor(&Paths { home: "/h".to_string() }, &healthy());
    assert!(out.report.ok);
    assert_eq!(out.report.issues.len(), 1);
    assert_eq!(out.report.issues[0].code, "lazytree_home");
    assert_eq!(out.report.issues[0].message, "LAZYTREE_HOME=/h");
    assert!(out.mark_unmounted.is_empty());
}

#[test]
fn stale_mount_is_marked_and_repaired() {
    let mut f = healthy();
    f.sessions = vec![check(session("a", "mounted", "repo_1"), false, true)];
    let out = run_doctor(&Paths { home: "/h".to_string() }, &f);
    assert!(out.report.ok);
    assert_eq!(out.report.issues[0].code, "stale_mount_metadata");
    assert_eq!(out.report.issues[0].message, "session a metadata says mounted but mount is absent; marking unmounted");
    assert_eq!(out.mark_unmounted, vec![0]);
    let fixed = unmounted_record_at(&f.sessions[0].session, "now");
    assert_eq!(fixed.filesystem.state, "unmounted");
    assert_eq!(fixed.updated_at, "now");
    f.sessions = vec![check(fixed, false, true)];
    assert_eq!(codes(&f), vec!["lazytree_home".to_string()]);
}

#[test]
fn doctor_errors() {
    let mut f = healthy();
    f.repos[0].base_is_dir = false;
    f.repos[0].objects_is_dir = false;
    f.sessions = vec![
        SessionCheck { session: session("gone", "mounted", "repo_1"), dir_is_dir: false, mounted: false, head_exists: false, repo_canonical: None },
        check(session("b", "unmounted", "repo_x"), true, false),
    ];
    f.session_dir_entries.push(SessionDirEntry { path: "/h/sessions/orphan".to_string(), file_name: "orphan".to_string(), is_dir: true, has_metadata: false });
    f.fuse_ok = false;
    let out = run_doctor(&Paths { home: "/h".to_string() }, &f);
    assert!(!out.report.ok);
    let c: Vec<String> = out.report.issues.iter().map(|i| i.code.clone()).collect();
    assert_eq!(
        c,
        vec![
            "missing_repo_base",
            "missing_object_store",
            "missing_session_dir",
            "unexpected_mount",
            "missing_git_dir",
            "missing_repository",
            "orphan_session_dir",
            "fuse_overlayfs_missing",
            "lazytree_home",
        ]
    );
    assert_eq!(out.report.issues[5].message, "session b references missing repository repo_x");
    assert!(out.mark_unmounted.is_empty());
}

#[test]
fn cursor_findings() {
    let mut f = healthy();
    f.cursor = Some(CursorCheck {
        hooks_path: "/p/.cursor/hooks.json".to_string(),
        hooks: HooksFile::Text("{}".to_string()),
        skill_is_file: false,
        mappings: Some(("/p/.cursor/lazytree-sessions".to_string(), 2)),
    });
    let out = run_doctor(&Paths { home: "/h".to_string() }, &f);
    let msgs: Vec<String> = out.report.issues.iter().map(|i| i.message.clone()).collect();
    assert_eq!(msgs[0], ".cursor/hooks.json exists but does not reference LazyTree hooks (/p/.cursor/hooks.json)");
    assert_eq!(out.report.issues[1].code, "cursor_skill_missing");
    assert_eq!(msgs[2], "2 Cursor LazyTree mapping(s) under /p/.cursor/lazytree-sessions point at missing roots");
    f.cursor = Some(CursorCheck {
        hooks_path: "/p/h".to_string(),
        hooks: HooksFile::Text("run lazytree-session-start".to_string()),
        skill_is_file: true,
        mappings: Some(("/m".to_string(), 0)),
    });
    assert_eq!(codes(&f), vec!["lazytree_home".to_string()]);
    f.cursor = Some(CursorCheck { hooks_path: "/p/h".to_string(), hooks: HooksFile::Unreadable("denied".to_string()), skill_is_file: true, mappings: None });
    let out = run_doctor(&Paths { home: "/h".to_string() }, &f);
    assert_eq!(out.report.issues[0].message, "cannot read /p/h: denied");
}

#[test]
fn mapping_helpers() {
    let roots = mapping_roots(&vec!["{\"root\": \"/x\"}".to_string(), "{\"root\": 3}".to_string(), "not json".to_string()]);
    assert_eq!(roots, vec![Some("/x".to_string()), None, None]);
    assert_eq!(count_stale_mappings(&vec![Some(false), None, Some(true), Some(false)]), 2);
    assert!(has_json_extension("conv-1.json"));
    assert!(!has_json_extension(".json"));
    assert!(!has_json_extension("a.txt"));
    let i = issue("warn", "c", "m".to_string());
    assert_eq!((i.severity.as_str(), i.code.as_str(), i.message.as_str()), ("warn", "c", "m"));
}

#[test]
fn host_findings_follow_the_os() {
    let mut f = healthy();
    f.fuse_ok = false;
    f.os = HostOs::MacOs;
    assert_eq!(codes(&f), vec!["lazytree_home".to_string()]);
    f.unionfs_ok = false;
    f.sudo_ok = false;
    assert_eq!(codes(&f), vec!["unionfs_fuse_missing".to_string(), "sudo_n_unavailable".to_string(), "lazytree_home".to_string()]);
    f.os = HostOs::Other;
    let out = run_doctor(&Paths { home: "/h".to_string() }, &f);
    assert!(!out.report.ok);
    assert_eq!(out.report.issues[0].code, "unsupported_os");
    assert_eq!(out.report.issues.last().unwrap().code, "lazytree_home");
}
