use lazytree::git::{
    config_read_args, config_value, gitdir_pointer_body, looks_like_full_oid, resolve_commit, seed_matches_short, session_config_body,
    GitAction, GitError, GitEvent, GitProcedure, GitSetup,
};

const OID: &str = "0123456789abcdef0123456789ABCDEF01234567";

fn setup(base: &str, seed_index: Option<&str>, seed_commit: Option<&str>) -> GitSetup {
    GitSetup {
        git_dir: "/s/git".to_string(),
        work_tree: "/s/fs/root".to_string(),
        branch: "lazytree/t".to_string(),
        base_revision: base.to_string(),
        object_store: "/r/base/.git/objects".to_string(),
        seed_index: seed_index.map(|s| s.to_string()),
        seed_commit: seed_commit.map(|s| s.to_string()),
        user_name: None,
        user_email: None,
    }
}

fn prepared(abs: &str, seed_is_file: bool) -> GitEvent {
    GitEvent::Prepared {
        object_store_is_dir: true,
        abs_objects: Some(abs.to_string()),
        seed_index_is_file: seed_is_file,
    }
}

fn ok_git(stdout: &str) -> GitEvent {
    GitEvent::GitRan { success: true, stdout: stdout.to_string(), stderr: String::new() }
}

fn strs(v: &[&str]) -> Vec<String> {
    v.iter().map(|s| s.to_string()).collect()
}

#[test]
fn oid_shapes() {
    assert!(looks_like_full_oid(OID));
    assert!(!looks_like_full_oid("main"));
    assert!(!looks_like_full_oid("0123456789abcdef0123456789abcdef0123456g"));
    assert!(seed_matches_short("abcdef", "abc"));
    assert!(seed_matches_short("abc", "abcdef"));
    assert!(!seed_matches_short("abd", "abcdef"));
}

#[test]
fn fast_path_writes_files_and_runs_no_git() {
    let mut p = GitProcedure::new(setup(OID, Some("/r/seed.index"), Some(OID)));
    assert!(matches!(p.step(GitEvent::Begin), GitAction::Prepare));
    match p.step(prepared("/abs/objects", true)) {
        GitAction::WriteFile { path, contents } => {
            assert_eq!(path, "/s/git/objects/info/alternates");
            assert_eq!(contents, "/abs/objects\n");
        }
        other => panic!("unexpected {:?}", other),
    }
    match p.step(GitEvent::Done) {
        GitAction::WriteFile { path, contents } => {
            assert_eq!(path, "/s/git/refs/heads/lazytree/t");
            assert_eq!(contents, format!("{OID}\n"));
        }
        other => panic!("unexpected {:?}", other),
    }
    match p.step(GitEvent::Done) {
        GitAction::WriteFile { path, contents } => {
            assert_eq!(path, "/s/git/HEAD");
            assert_eq!(contents, "ref: refs/heads/lazytree/t\n");
        }
        other => panic!("unexpected {:?}", other),
    }
    match p.step(GitEvent::Done) {
        GitAction::CopyIndex { src, dst } => {
            assert_eq!(src, "/r/seed.index");
            assert_eq!(dst, "/s/git/index");
        }
        other => panic!("unexpected {:?}", other),
    }
    assert!(matches!(p.step(GitEvent::Done), GitAction::WriteConfig));
    assert!(matches!(p.step(GitEvent::Done), GitAction::WritePointer));
    assert!(matches!(p.step(GitEvent::Done), GitAction::Finished));
}

#[test]
fn slow_path_resolves_and_reads_tree() {
    let mut p = GitProcedure::new(setup("main", None, None));
    p.step(GitEvent::Begin);
    assert!(matches!(p.step(prepared("/abs/objects", false)), GitAction::WriteFile { .. }));
    match p.step(GitEvent::Done) {
        GitAction::RunGit(args) => assert_eq!(args, strs(&["init", "--quiet"])),
        other => panic!("unexpected {:?}", other),
    }
    assert!(matches!(p.step(ok_git("")), GitAction::WriteFile { .. }));
    match p.step(GitEvent::Done) {
        GitAction::RunGit(args) => assert_eq!(args, strs(&["rev-parse", "--verify", "main"])),
        other => panic!("unexpected {:?}", other),
    }
    match p.step(ok_git("  cafe\n")) {
        GitAction::RunGit(args) => assert_eq!(args, strs(&["update-ref", "refs/heads/lazytree/t", "cafe"])),
        other => panic!("unexpected {:?}", other),
    }
    match p.step(ok_git("")) {
        GitAction::RunGit(args) => assert_eq!(args, strs(&["symbolic-ref", "HEAD", "refs/heads/lazytree/t"])),
        other => panic!("unexpected {:?}", other),
    }
    match p.step(ok_git("")) {
        GitAction::RunGit(args) => assert_eq!(args, strs(&["rev-parse", "--verify", "cafe^{tree}"])),
        other => panic!("unexpected {:?}", other),
    }
    match p.step(ok_git("beef\n")) {
        GitAction::RunGit(args) => assert_eq!(args, strs(&["read-tree", "beef"])),
        other => panic!("unexpected {:?}", other),
    }
    assert!(matches!(p.step(ok_git("")), GitAction::WriteConfig));
}

#[test]
fn slow_path_copies_seed_for_abbreviated_commit() {
    let mut p = GitProcedure::new(setup("main", Some("/seed"), Some("cafe")));
    p.step(GitEvent::Begin);
    p.step(prepared("/o", true));
    p.step(GitEvent::Done);
    p.step(ok_git(""));
    p.step(GitEvent::Done);
    p.step(ok_git("cafebabe\n"));
    p.step(ok_git(""));
    match p.step(ok_git("")) {
        GitAction::CopyIndex { src, .. } => assert_eq!(src, "/seed"),
        other => panic!("unexpected {:?}", other),
    }
}

#[test]
fn git_setup_failures() {
    let mut p = GitProcedure::new(setup("main", None, None));
    p.step(GitEvent::Begin);
    match p.step(GitEvent::Prepared { object_store_is_dir: false, abs_objects: None, seed_index_is_file: false }) {
        GitAction::Failed(GitError::ObjectStoreMissing(s)) => assert_eq!(s, "/r/base/.git/objects"),
        other => panic!("unexpected {:?}", other),
    }
    let mut q = GitProcedure::new(setup("main", None, None));
    q.step(GitEvent::Begin);
    assert!(matches!(
        q.step(GitEvent::Prepared { object_store_is_dir: true, abs_objects: None, seed_index_is_file: false }),
        GitAction::Failed(GitError::Canonicalize(_))
    ));
    let mut r = GitProcedure::new(setup("main", None, None));
    r.step(GitEvent::Begin);
    r.step(prepared("/o", false));
    r.step(GitEvent::Done);
    match r.step(GitEvent::GitRan { success: false, stdout: String::new(), stderr: " boom \n".to_string() }) {
        GitAction::Failed(GitError::GitFailed { args, stderr }) => {
            assert_eq!(args, strs(&["init", "--quiet"]));
            assert_eq!(stderr, "boom");
        }
        other => panic!("unexpected {:?}", other),
    }
    let mut s = GitProcedure::new(setup("main", None, None));
    s.step(GitEvent::Begin);
    s.step(prepared("/o", false));
    match s.step(GitEvent::IoFailed("disk full".to_string())) {
        GitAction::Failed(GitError::Io(m)) => assert_eq!(m, "disk full"),
        other => panic!("unexpected {:?}", other),
    }
}

#[test]
fn config_and_pointer_bodies() {
    assert_eq!(
        session_config_body("/w", None, None),
        "[core]\n\trepositoryformatversion = 0\n\tfilemode = true\n\tbare = false\n\tlogallrefupdates = true\n\tworktree = /w\n"
    );
    assert_eq!(
        session_config_body("/w", Some("a"), Some("a@b")),
        "[core]\n\trepositoryformatversion = 0\n\tfilemode = true\n\tbare = false\n\tlogallrefupdates = true\n\tworktree = /w\n[user]\n\tname = a\n\temail = a@b\n"
    );
    assert!(session_config_body("/w", None, Some("e")).ends_with("[user]\n\temail = e\n"));
    assert_eq!(gitdir_pointer_body("/s/git"), "gitdir: /s/git\n");
}

#[test]
fn resolve_commit_trims_output() {
    assert_eq!(resolve_commit("HEAD", true, "abc\n", "").unwrap(), "abc");
    match resolve_commit("nope", false, "", "fatal: bad\n") {
        Err(GitError::GitFailed { args, stderr }) => {
            assert_eq!(args, strs(&["rev-parse", "--verify", "nope"]));
            assert_eq!(stderr, "fatal: bad");
        }
        other => panic!("unexpected {:?}", other),
    }
}

#[test]
fn source_identity_is_read_from_git_config() {
    assert_eq!(config_read_args("/src/r", "user.name"), vec!["-C", "/src/r", "config", "user.name"]);
    assert_eq!(config_value(true, "test\n").as_deref(), Some("test"));
    assert_eq!(config_value(true, "  Ada Lovelace \n").as_deref(), Some("Ada Lovelace"));
    assert_eq!(config_value(true, "\n"), None);
    assert_eq!(config_value(false, "test\n"), None);
}
