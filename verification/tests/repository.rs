use lazytree::metadata::Paths;
use lazytree::repository::{
    check_admission, check_source, ensure_clean_git_repo, git_rev_parse, new_repository_id, repo_base_path,
    text_contains, Repository, RepositoryError, RepositoryStore, SourceFacts,
};

fn facts(is_dir: bool, inside: bool, status_ok: bool, clean: bool, head_ok: bool) -> SourceFacts {
    SourceFacts {
        is_dir,
        inside_work_tree: inside,
        status_ok,
        porcelain_empty: clean,
        head_ok,
        head_stdout: "abc123\n".to_string(),
    }
}

#[test]
fn registration_refuses_unclean_sources() {
    let st = store();
    let ok = facts(true, true, true, true, true);
    assert_eq!(check_admission("/src/r", &ok).unwrap(), "abc123");
    let r = st.register("repo_1", "/src/r", &ok, true).unwrap();
    assert_eq!(r.base_commit, "abc123");
    assert_eq!(r.source_path, "/src/r");
    assert!(matches!(st.register("repo_1", "/src/r", &ok, false), Err(RepositoryError::MissingObjectStore)));
    assert!(matches!(
        st.register("repo_1", "/src/r", &facts(false, true, true, true, true), true),
        Err(RepositoryError::NotADirectory(p)) if p == "/src/r"
    ));
    assert!(matches!(
        st.register("repo_1", "/src/r", &facts(true, false, true, true, true), true),
        Err(RepositoryError::NotGitRepository(_))
    ));
    assert!(matches!(
        st.register("repo_1", "/src/r", &facts(true, true, false, true, true), true),
        Err(RepositoryError::StatusFailed(_))
    ));
    assert!(matches!(
        st.register("repo_1", "/src/r", &facts(true, true, true, false, true), true),
        Err(RepositoryError::Uncommitted)
    ));
    assert!(matches!(
        check_admission("/src/r", &facts(true, true, true, true, false)),
        Err(RepositoryError::RevParseFailed(x)) if x == "HEAD"
    ));
}

fn repo(id: &str, source: &str) -> Repository {
    Repository {
        version: 1,
        id: id.to_string(),
        source_path: source.to_string(),
        base_path: format!("/h/repositories/{id}/base"),
        base_commit: "c".to_string(),
        object_store: String::new(),
        created_at: "t".to_string(),
        state: "ready".to_string(),
    }
}

fn store() -> RepositoryStore {
    RepositoryStore::new(Paths { home: "/h".to_string() })
}

#[test]
fn register_record() {
    let st = store();
    let r = st.add_at("repo_1", "/src/r", "abc", "2024-01-01T00:00:00Z", true).unwrap();
    assert_eq!(r.base_path, "/h/repositories/repo_1/base");
    assert_eq!(r.object_store, "/h/repositories/repo_1/base/.git/objects");
    assert_eq!(r.state, "ready");
    assert_eq!(r.created_at, "2024-01-01T00:00:00Z");
    assert_eq!(repo_base_path(&r), r.base_path);
    assert!(matches!(st.add("repo_1", "/src/r", "abc", false), Err(RepositoryError::MissingObjectStore)));
    assert!(st.add("repo_2", "/src/q", "abc", true).unwrap().created_at.ends_with('Z'));
    assert_eq!(st.layout("repo_1"), ("/h/repositories/repo_1".to_string(), "/h/repositories/repo_1/base".to_string(), "/h/repositories/repo_1/git-objects".to_string()));
}

#[test]
fn repository_ids() {
    let id = new_repository_id();
    assert_eq!(id.len(), 17);
    assert!(id.starts_with("repo_"));
    assert!(id[5..].chars().all(|c| c.is_ascii_hexdigit() && !c.is_ascii_uppercase()));
    assert_ne!(new_repository_id(), id);
}

#[test]
fn lookup_by_id_path_or_canonical_path() {
    let st = store();
    let repos = st.list(vec![repo("repo_b", "/src/b"), repo("repo_a", "/src/a")]);
    assert_eq!(repos[0].id, "repo_a");
    assert_eq!(st.get(&repos, "repo_b", None).unwrap(), 1);
    assert_eq!(st.get(&repos, "/src/a", None).unwrap(), 0);
    assert_eq!(st.get(&repos, "./b", Some("/src/b")).unwrap(), 1);
    assert!(matches!(st.get(&repos, "nope", None), Err(RepositoryError::NotFound(_))));
}

#[test]
fn removal_refused_while_sessions_use_it() {
    let st = store();
    let r = repo("repo_a", "/src/a");
    let metas = vec!["{\"repository_id\": \"repo_b\"}".to_string(), "{\"repository_id\": \"repo_a\"}".to_string()];
    assert!(matches!(st.remove(&r, &metas, false), Err(RepositoryError::HasSessions(_))));
    assert_eq!(st.remove(&r, &metas, true).unwrap(), "/h/repositories/repo_a");
    assert_eq!(st.remove(&r, &vec![], false).unwrap(), "/h/repositories/repo_a");
    assert!(text_contains("abcdef", "cde"));
    assert!(!text_contains("abc", "abcd"));
    assert!(text_contains("abc", ""));
}

#[test]
fn registration_checks() {
    assert!(matches!(check_source("/f", false), Err(RepositoryError::NotADirectory(_))));
    assert!(check_source("/d", true).is_ok());
    assert!(matches!(ensure_clean_git_repo("/p", false, true, true), Err(RepositoryError::NotGitRepository(_))));
    assert!(matches!(ensure_clean_git_repo("/p", true, false, true), Err(RepositoryError::StatusFailed(_))));
    assert!(matches!(ensure_clean_git_repo("/p", true, true, false), Err(RepositoryError::Uncommitted)));
    assert!(ensure_clean_git_repo("/p", true, true, true).is_ok());
    assert_eq!(git_rev_parse("HEAD", true, "deadbeef\n").unwrap(), "deadbeef");
    assert!(matches!(git_rev_parse("HEAD", false, ""), Err(RepositoryError::RevParseFailed(_))));
}
