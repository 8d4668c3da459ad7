//! Registered repositories.
use vstd::prelude::*;
use crate::metadata::{Paths, path_join, path_join_exec};
use crate::text::{Keyed, chars_of, owned, concat2, sort_by_key, sorted_by_key, trimmed, trim_str};
use crate::fsmonitor::chars_eq;

verus! {

/// A registered repository (`metadata.json` in its directory).
#[derive(Debug)]
pub struct Repository {
    pub version: u32,
    pub id: String,
    pub source_path: String,
    pub base_path: String,
    pub base_commit: String,
    pub object_store: String,
    /// RFC 3339 UTC timestamp.
    pub created_at: String,
    pub state: String,
}

impl Clone for Repository {
    fn clone(&self) -> (r: Self)
        ensures
            r == *self,
    {
        Repository {
            version: self.version,
            id: self.id.clone(),
            source_path: self.source_path.clone(),
            base_path: self.base_path.clone(),
            base_commit: self.base_commit.clone(),
            object_store: self.object_store.clone(),
            created_at: self.created_at.clone(),
            state: self.state.clone(),
        }
    }
}

impl Keyed for Repository {
    open spec fn key(&self) -> Seq<char> {
        self.id@
    }

    fn key_chars(&self) -> (k: Vec<char>) {
        chars_of(self.id.as_str())
    }
}

/// Why a repository operation was refused.
#[derive(Debug)]
pub enum RepositoryError {
    /// The source path is not a directory.
    NotADirectory(String),
    /// The source path is not inside a Git work tree.
    NotGitRepository(String),
    /// `git status` failed in the source.
    StatusFailed(String),
    /// The source has uncommitted changes.
    Uncommitted,
    /// `git rev-parse` of this revision failed.
    RevParseFailed(String),
    /// The registered copy has no `.git/objects`.
    MissingObjectStore,
    /// No repository has this id or source path.
    NotFound(String),
    /// Sessions still refer to the repository.
    HasSessions(String),
}

/// Registry of repositories under the LazyTree home.
#[derive(Debug)]
pub struct RepositoryStore {
    pub paths: Paths,
}

impl Clone for RepositoryStore {
    fn clone(&self) -> (r: Self)
        ensures
            r.paths.home == self.paths.home,
    {
        RepositoryStore { paths: Paths { home: self.paths.home.clone() } }
    }
}

fn str_eq(a: &str, b: &str) -> (r: bool)
    ensures
        r == (a@ == b@),
{
    let x = chars_of(a);
    let y = chars_of(b);
    chars_eq(&x, &y)
}

/// Whether `text` contains `pat` as a substring.
pub open spec fn contains_text(text: Seq<char>, pat: Seq<char>) -> bool {
    exists|i: int| 0 <= i <= text.len() - pat.len() && #[trigger] text.subrange(i, i + pat.len()) == pat
}

/// Whether `p` occurs in `t` at position `i`.
fn matches_at(t: &Vec<char>, p: &Vec<char>, i: usize) -> (b: bool)
    requires
        i + p@.len() <= t@.len(),
    ensures
        b == (t@.subrange(i as int, i + p@.len()) == p@),
{
    let n = t.len();
    let mut j: usize = 0;
    while j < p.len()
        invariant
            n == t@.len(),
            i + p@.len() <= t@.len(),
            j <= p@.len(),
            t@.subrange(i as int, i + j) == p@.take(j as int),
        decreases p.len() - j,
    {
        if t[i + j] != p[j] {
            assert(t@.subrange(i as int, i + p@.len())[j as int] == t@[i + j]);
            return false;
        }
        assert(t@.subrange(i as int, i + j + 1) =~= t@.subrange(i as int, i + j).push(t@[i + j]));
        assert(p@.take(j + 1) =~= p@.take(j as int).push(p@[j as int]));
        j = j + 1;
    }
    assert(p@.take(j as int) =~= p@);
    true
}

/// Substring search.
pub fn text_contains(text: &str, pat: &str) -> (b: bool)
    ensures
        b == contains_text(text@, pat@),
{
    let t = chars_of(text);
    let p = chars_of(pat);
    if p.len() > t.len() {
        return false;
    }
    let n = t.len() - p.len();
    let mut i: usize = 0;
    loop
        invariant
            p@.len() <= t@.len(),
            n == t@.len() - p@.len(),
            i <= n,
            t@ == text@,
            p@ == pat@,
            forall|k: int| 0 <= k < i ==> #[trigger] t@.subrange(k, k + p@.len()) != p@,
        decreases n - i,
    {
        if matches_at(&t, &p, i) {
            return true;
        }
        if i == n {
            return false;
        }
        i = i + 1;
    }
}

/// The text of an optional string slice.
pub open spec fn opt_str(o: Option<&str>) -> Option<Seq<char>> {
    match o {
        Some(s) => Some(s@),
        None => None,
    }
}

/// No repository has `key` as id or source path.
pub open spec fn no_direct_match(repos: Seq<Repository>, key: Seq<char>) -> bool {
    forall|j: int| 0 <= j < repos.len() ==> repos[j].id@ != key && repos[j].source_path@ != key
}

/// `get` picks position `i`: the first repository whose id or source path is
/// `key`, else (when none is) the first whose source path is `canonical`.
pub open spec fn picks(repos: Seq<Repository>, key: Seq<char>, canonical: Option<Seq<char>>, i: int) -> bool {
    &&& 0 <= i < repos.len()
    &&& {
        ||| (repos[i].id@ == key || repos[i].source_path@ == key)
            && forall|j: int| 0 <= j < i ==> repos[j].id@ != key && repos[j].source_path@ != key
        ||| no_direct_match(repos, key) && canonical_pick(repos, canonical, i)
    }
}

/// `i` is the first position whose source path is `canonical`.
pub open spec fn canonical_pick(repos: Seq<Repository>, canonical: Option<Seq<char>>, i: int) -> bool {
    match canonical {
        Some(c) => repos[i].source_path@ == c && forall|j: int| 0 <= j < i ==> repos[j].source_path@ != c,
        None => false,
    }
}

/// Nothing matches `key` (nor `canonical`, when given).
pub open spec fn none_matches(repos: Seq<Repository>, key: Seq<char>, canonical: Option<Seq<char>>) -> bool {
    no_direct_match(repos, key) && match canonical {
        Some(c) => forall|j: int| 0 <= j < repos.len() ==> repos[j].source_path@ != c,
        None => true,
    }
}

/// `repo` is the record of `source` registered under `id` in the home
/// `home` at commit `base_commit` (its creation time aside).
pub open spec fn registered(repo: Repository, home: Seq<char>, id: Seq<char>, source: Seq<char>, base_commit: Seq<char>) -> bool {
    &&& repo.version == 1
    &&& repo.id@ == id
    &&& repo.source_path@ == source
    &&& repo.base_path@ == path_join(path_join(path_join(home, "repositories"@), id), "base"@)
    &&& repo.base_commit@ == base_commit
    &&& repo.object_store@ == path_join(path_join(repo.base_path@, ".git"@), "objects"@)
    &&& repo.state@ == "ready"@
}

impl RepositoryStore {
    pub fn new(paths: Paths) -> (s: Self)
        ensures
            s.paths == paths,
    {
        RepositoryStore { paths }
    }

    /// The repositories found on disk, ordered by id.
    pub fn list(&self, found: Vec<Repository>) -> (r: Vec<Repository>)
        ensures
            sorted_by_key(r@),
            r@.to_multiset() == found@.to_multiset(),
    {
        sort_by_key(found)
    }

    /// Position of the repository `id_or_path` names in `repos`: the first
    /// whose id or source path is that text, else the first whose source path
    /// is `canonical` (the text canonicalized as a path, when it is one).
    pub fn get(&self, repos: &Vec<Repository>, id_or_path: &str, canonical: Option<&str>) -> (r: Result<usize, RepositoryError>)
        ensures
            r matches Ok(i) ==> picks(repos@, id_or_path@, opt_str(canonical), i as int),
            r is Err <==> none_matches(repos@, id_or_path@, opt_str(canonical)),
            r matches Err(e) ==> e matches RepositoryError::NotFound(k) && k@ == id_or_path@,
    {
        let mut i: usize = 0;
        while i < repos.len()
            invariant
                i <= repos@.len(),
                forall|j: int| 0 <= j < i ==> repos@[j].id@ != id_or_path@ && repos@[j].source_path@ != id_or_path@,
            decreases repos.len() - i,
        {
            if str_eq(repos[i].id.as_str(), id_or_path) || str_eq(repos[i].source_path.as_str(), id_or_path) {
                return Ok(i);
            }
            i = i + 1;
        }
        if let Some(c) = canonical {
            let mut k: usize = 0;
            while k < repos.len()
                invariant
                    k <= repos@.len(),
                    canonical == Some(c),
                    forall|j: int| 0 <= j < repos@.len() ==> repos@[j].id@ != id_or_path@ && repos@[j].source_path@ != id_or_path@,
                    forall|j: int| 0 <= j < k ==> repos@[j].source_path@ != c@,
                decreases repos.len() - k,
            {
                if str_eq(repos[k].source_path.as_str(), c) {
                    return Ok(k);
                }
                k = k + 1;
            }
        }
        Err(RepositoryError::NotFound(owned(id_or_path)))
    }

    /// Where a repository registered under `id` lives: its directory, the
    /// base copy, and the directory reserved for its own object store.
    pub fn layout(&self, id: &str) -> (l: (String, String, String))
        ensures
            l.0@ == path_join(path_join(self.paths.home@, "repositories"@), id@),
            l.1@ == path_join(l.0@, "base"@),
            l.2@ == path_join(l.0@, "git-objects"@),
    {
        let repo_dir = self.paths.repo_dir(id);
        let base = path_join_exec(repo_dir.as_str(), "base");
        let objects = path_join_exec(repo_dir.as_str(), "git-objects");
        (repo_dir, base, objects)
    }

    /// The record of a newly registered repository copied from the
    /// canonical `source` whose `HEAD` is `base_commit`, under id `id`,
    /// created now; refused when the copy has no `.git/objects` directory
    /// (`object_store_is_dir`).
    pub fn add(&self, id: &str, source: &str, base_commit: &str, object_store_is_dir: bool) -> (r: Result<Repository, RepositoryError>)
        ensures
            r is Ok <==> object_store_is_dir,
            !object_store_is_dir ==> r matches Err(RepositoryError::MissingObjectStore),
            r matches Ok(repo) ==> registered(repo, self.paths.home@, id@, source@, base_commit@),
            r matches Ok(repo) ==> repo.created_at@.len() > 0 && repo.created_at@.last() == 'Z',
    {
        let now = crate::util::timestamp_now();
        self.add_at(id, source, base_commit, now.as_str(), object_store_is_dir)
    }

    /// Registers the canonical `source`, copied under id `id`, from what
    /// `facts` found of it before the copy and whether the copy has a
    /// `.git/objects` directory: refused, with the error `check_admission` gives, when
    /// the source is not a clean Git work tree with a `HEAD`; refused when
    /// the copy has no object store; else the record, based at `HEAD`.
    pub fn register(&self, id: &str, source: &str, facts: &SourceFacts, object_store_is_dir: bool) -> (r: Result<Repository, RepositoryError>)
        ensures
            r is Ok <==> admissible(*facts) && object_store_is_dir,
            !admissible(*facts) ==> (r matches Err(e) && refusal(e, source@, *facts)),
            admissible(*facts) && !object_store_is_dir ==> r matches Err(RepositoryError::MissingObjectStore),
            r matches Ok(repo) ==> registered(repo, self.paths.home@, id@, source@, trimmed(facts.head_stdout@)),
    {
        let base_commit = match check_admission(source, facts) {
            Ok(c) => c,
            Err(e) => return Err(e),
        };
        self.add(id, source, base_commit.as_str(), object_store_is_dir)
    }

    /// `add`, created at `created_at`.
    pub fn add_at(&self, id: &str, source: &str, base_commit: &str, created_at: &str, object_store_is_dir: bool) -> (r: Result<Repository, RepositoryError>)
        ensures
            r is Ok <==> object_store_is_dir,
            !object_store_is_dir ==> r matches Err(RepositoryError::MissingObjectStore),
            r matches Ok(repo) ==> registered(repo, self.paths.home@, id@, source@, base_commit@) && repo.created_at@ == created_at@,
    {
        if !object_store_is_dir {
            return Err(RepositoryError::MissingObjectStore);
        }
        let repo_dir = self.paths.repo_dir(id);
        let base_path = path_join_exec(repo_dir.as_str(), "base");
        let git = path_join_exec(base_path.as_str(), ".git");
        let object_store = path_join_exec(git.as_str(), "objects");
        Ok(Repository {
            version: 1,
            id: owned(id),
            source_path: owned(source),
            base_path,
            base_commit: owned(base_commit),
            object_store,
            created_at: owned(created_at),
            state: owned("ready"),
        })
    }

    /// Refuses removal while some session record (`session_metadata`, the raw
    /// text of each) mentions the repository id, unless `force`; otherwise
    /// gives the directory to delete.
    pub fn remove(&self, repo: &Repository, session_metadata: &Vec<String>, force: bool) -> (r: Result<String, RepositoryError>)
        ensures
            r is Err <==> !force && exists|i: int| 0 <= i < session_metadata@.len() && contains_text(#[trigger] session_metadata@[i]@, repo.id@),
            r matches Ok(d) ==> d@ == path_join(path_join(self.paths.home@, "repositories"@), repo.id@),
            r matches Err(e) ==> e matches RepositoryError::HasSessions(k) && k@ == repo.id@,
    {
        if !force {
            let mut i: usize = 0;
            while i < session_metadata.len()
                invariant
                    i <= session_metadata@.len(),
                    !force,
                    forall|j: int| 0 <= j < i ==> !contains_text(#[trigger] session_metadata@[j]@, repo.id@),
                decreases session_metadata.len() - i,
            {
                let found = text_contains(session_metadata[i].as_str(), repo.id.as_str());
                assert(found == contains_text(session_metadata@[i as int]@, repo.id@));
                if found {
                    return Err(RepositoryError::HasSessions(repo.id.clone()));
                }
                i = i + 1;
            }
        }
        Ok(self.paths.repo_dir(repo.id.as_str()))
    }
}

/// A fresh repository id: `repo_` and twelve random hex characters.
pub fn new_repository_id() -> (s: String)
    ensures
        exists|b: Seq<u8>| b.len() == 6 && s@ == "repo_"@ + crate::util::hex_of(b),
{
    let suffix = crate::util::short_id();
    concat2("repo_", suffix.as_str())
}

/// What the disk and `git` show of a source offered for registration.
#[derive(Debug)]
pub struct SourceFacts {
    /// The canonical source is a directory.
    pub is_dir: bool,
    /// `git rev-parse --is-inside-work-tree` succeeded in it.
    pub inside_work_tree: bool,
    /// `git status --porcelain` succeeded, and printed nothing.
    pub status_ok: bool,
    pub porcelain_empty: bool,
    /// `git rev-parse HEAD` succeeded, and what it printed.
    pub head_ok: bool,
    pub head_stdout: String,
}

/// The source can be registered: a clean Git work tree with a `HEAD`.
pub open spec fn admissible(f: SourceFacts) -> bool {
    f.is_dir && f.inside_work_tree && f.status_ok && f.porcelain_empty && f.head_ok
}

/// `e` is the error registration of `source` gives for `f`: the first of
/// the checks, in order, that fails.
pub open spec fn refusal(e: RepositoryError, source: Seq<char>, f: SourceFacts) -> bool {
    if !f.is_dir {
        e matches RepositoryError::NotADirectory(p) && p@ == source
    } else if !f.inside_work_tree {
        e matches RepositoryError::NotGitRepository(p) && p@ == source
    } else if !f.status_ok {
        e matches RepositoryError::StatusFailed(p) && p@ == source
    } else if !f.porcelain_empty {
        e is Uncommitted
    } else if !f.head_ok {
        e matches RepositoryError::RevParseFailed(x) && x@ == "HEAD"@
    } else {
        false
    }
}

/// Whether the canonical `source` may be registered (asked before it is
/// copied): a directory holding a clean Git work tree, whose `HEAD` commit is
/// returned.
pub fn check_admission(source: &str, facts: &SourceFacts) -> (r: Result<String, RepositoryError>)
    ensures
        r is Ok <==> admissible(*facts),
        r matches Err(e) ==> refusal(e, source@, *facts),
        r matches Ok(c) ==> c@ == trimmed(facts.head_stdout@),
{
    if let Err(e) = check_source(source, facts.is_dir) {
        return Err(e);
    }
    if let Err(e) = ensure_clean_git_repo(source, facts.inside_work_tree, facts.status_ok, facts.porcelain_empty) {
        return Err(e);
    }
    let r = git_rev_parse("HEAD", facts.head_ok, facts.head_stdout.as_str());
    proof {
        reveal_strlit("HEAD");
    }
    r
}

/// Registration needs a clean Git work tree: `inside_work_tree` from
/// `git rev-parse --is-inside-work-tree`, `status_ok` and `porcelain` from
/// `git status --porcelain`.
pub fn ensure_clean_git_repo(path: &str, inside_work_tree: bool, status_ok: bool, porcelain_empty: bool) -> (r: Result<(), RepositoryError>)
    ensures
        r is Ok <==> inside_work_tree && status_ok && porcelain_empty,
        !inside_work_tree ==> (r matches Err(RepositoryError::NotGitRepository(p)) && p@ == path@),
        inside_work_tree && !status_ok ==> (r matches Err(RepositoryError::StatusFailed(p)) && p@ == path@),
        inside_work_tree && status_ok && !porcelain_empty ==> r matches Err(RepositoryError::Uncommitted),
{
    if !inside_work_tree {
        return Err(RepositoryError::NotGitRepository(owned(path)));
    }
    if !status_ok {
        return Err(RepositoryError::StatusFailed(owned(path)));
    }
    if !porcelain_empty {
        return Err(RepositoryError::Uncommitted);
    }
    Ok(())
}

/// The registered base copy of `repo`.
pub fn repo_base_path(repo: &Repository) -> (p: String)
    ensures
        p@ == repo.base_path@,
{
    repo.base_path.clone()
}

/// Registration needs the canonical source to be a directory.
pub fn check_source(source: &str, is_dir: bool) -> (r: Result<(), RepositoryError>)
    ensures
        r is Ok <==> is_dir,
        !is_dir ==> (r matches Err(RepositoryError::NotADirectory(p)) && p@ == source@),
{
    if is_dir {
        Ok(())
    } else {
        Err(RepositoryError::NotADirectory(owned(source)))
    }
}

/// The commit `git rev-parse <rev>` printed: its output trimmed, or the
/// failure.
pub fn git_rev_parse(rev: &str, success: bool, stdout: &str) -> (r: Result<String, RepositoryError>)
    ensures
        r is Ok <==> success,
        r matches Ok(c) ==> c@ == trimmed(stdout@),
        !success ==> (r matches Err(RepositoryError::RevParseFailed(x)) && x@ == rev@),
{
    if !success {
        return Err(RepositoryError::RevParseFailed(owned(rev)));
    }
    Ok(trim_str(stdout))
}

} // verus!
