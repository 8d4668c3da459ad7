//! Sessions: records, lifecycle decisions and status.
use vstd::prelude::*;
use crate::metadata::{FilesystemBackendKind, Paths, ConfigFile, path_join, path_join_exec};
use crate::repository::{Repository, RepositoryStore, RepositoryError, picks, none_matches, opt_str};
use crate::filesystem::{MountRequest, MountedSession, UmountProcedure, UmountPhase, umount_attempts_spec, fuse_backend, forced_fuse_backend, umount_force, umount_with_backend};
use crate::git::GitSetup;
use crate::util::{short_id, hex_of, hex_digit, timestamp_now, seconds_since};
use crate::semantic::SemanticPaths;
use crate::runtime::{RuntimeError, RuntimeBackend, LocalRuntimeBackend, ExecPlan, ExecOptions, ExecHost, CopyPlan, planned_run, session_target};
use crate::text::{Keyed, chars_of, owned, push_str, concat2, trim, trimmed, trim_str, parse_u64, parse_u64_spec, sort_by_key, sorted_by_key};
use crate::fsmonitor::chars_eq;

verus! {

/// Filesystem layer state of a session.
#[derive(Debug)]
pub struct FilesystemMeta {
    pub backend: FilesystemBackendKind,
    pub state: String,
}

/// State of a session layer (`ready`, `published`, `inherited`, `none`, …).
#[derive(Debug)]
pub struct LayerState {
    pub state: String,
}

/// Runtime layer of a session.
#[derive(Debug)]
pub struct RuntimeMeta {
    pub backend: String,
    pub state: String,
}

/// A session record (`metadata.json` in its directory).
#[derive(Debug)]
pub struct Session {
    pub version: u32,
    pub id: String,
    pub name: String,
    pub repository_id: String,
    pub base_revision: String,
    pub branch: String,
    pub filesystem: FilesystemMeta,
    pub git: LayerState,
    pub semantic: LayerState,
    pub runtime: RuntimeMeta,
    /// RFC 3339 UTC timestamps.
    pub created_at: String,
    pub updated_at: String,
    /// Absolute path to the session directory under the LazyTree home.
    pub session_dir: String,
    pub lifecycle: String,
}

impl Clone for FilesystemMeta {
    fn clone(&self) -> (r: Self)
        ensures
            r == *self,
    {
        FilesystemMeta { backend: self.backend, state: self.state.clone() }
    }
}

impl Clone for LayerState {
    fn clone(&self) -> (r: Self)
        ensures
            r == *self,
    {
        LayerState { state: self.state.clone() }
    }
}

impl Clone for RuntimeMeta {
    fn clone(&self) -> (r: Self)
        ensures
            r == *self,
    {
        RuntimeMeta { backend: self.backend.clone(), state: self.state.clone() }
    }
}

impl Clone for Session {
    fn clone(&self) -> (r: Self)
        ensures
            r == *self,
    {
        Session {
            version: self.version,
            id: self.id.clone(),
            name: self.name.clone(),
            repository_id: self.repository_id.clone(),
            base_revision: self.base_revision.clone(),
            branch: self.branch.clone(),
            filesystem: self.filesystem.clone(),
            git: self.git.clone(),
            semantic: self.semantic.clone(),
            runtime: self.runtime.clone(),
            created_at: self.created_at.clone(),
            updated_at: self.updated_at.clone(),
            session_dir: self.session_dir.clone(),
            lifecycle: self.lifecycle.clone(),
        }
    }
}

impl Session {
    /// The merged (writable) root of the session.
    pub fn root_path(&self) -> (p: String)
        ensures
            p@ == path_join(path_join(self.session_dir@, "fs"@), "root"@),
    {
        let fs = path_join_exec(self.session_dir.as_str(), "fs");
        path_join_exec(fs.as_str(), "root")
    }

    /// The session's overlay upper layer.
    pub fn upper_path(&self) -> (p: String)
        ensures
            p@ == path_join(path_join(self.session_dir@, "fs"@), "upper"@),
    {
        let fs = path_join_exec(self.session_dir.as_str(), "fs");
        path_join_exec(fs.as_str(), "upper")
    }

    /// The session's private Git directory.
    pub fn git_dir(&self) -> (p: String)
        ensures
            p@ == path_join(self.session_dir@, "git"@),
    {
        path_join_exec(self.session_dir.as_str(), "git")
    }

    /// The session was archived.
    pub open spec fn is_archived(self) -> bool {
        self.lifecycle@ == "archived"@
    }

    /// The session's filesystem is recorded as mounted.
    pub open spec fn recorded_mounted(self) -> bool {
        self.filesystem.state@ == "mounted"@
    }
}

fn str_eq(a: &str, b: &str) -> (r: bool)
    ensures
        r == (a@ == b@),
{
    let x = chars_of(a);
    let y = chars_of(b);
    chars_eq(&x, &y)
}

/// Why a session operation was refused.
#[derive(Debug)]
pub enum SessionError {
    /// The session name is empty.
    EmptyName,
    /// The session name contains `/` or NUL.
    InvalidName,
    /// A session (or a reservation) with this name exists.
    NameExists(String),
    /// No repository is registered.
    NoRepositories,
    /// Several repositories are registered and none was chosen.
    MultipleRepositories,
    /// No session has this name or id.
    NotFound(String),
    /// The session was archived already.
    AlreadyArchived(String),
    /// The session is archived or its filesystem is not recorded as mounted.
    NotActive(String),
    /// The session's root is not a mount point.
    NotMounted(String),
    /// The workspace has changes that would be lost (message for the user).
    Unsaved(String),
    /// `git rev-list --count` did not print a count.
    BadRevisionCount,
    /// The repository could not be found.
    Repository(RepositoryError),
    /// A `git` command failed (which one, and its trimmed stderr).
    GitFailed { command: String, stderr: String },
    /// The command cannot run in the session.
    Runtime(RuntimeError),
    /// Publishing the branch to the source repository failed.
    PublishFailed { source: String, stderr: String },
}

/// Whether `name` may name a session: not empty, no `/`, no NUL.
pub open spec fn valid_name(name: Seq<char>) -> bool {
    name.len() > 0 && !name.contains('/') && !name.contains('\0')
}

/// Checks a session name.
pub fn validate_name(name: &str) -> (r: Result<(), SessionError>)
    ensures
        r is Ok <==> valid_name(name@),
        name@.len() == 0 ==> r matches Err(SessionError::EmptyName),
        name@.len() > 0 && !valid_name(name@) ==> r matches Err(SessionError::InvalidName),
{
    let cs = chars_of(name);
    if cs.len() == 0 {
        return Err(SessionError::EmptyName);
    }
    let mut i: usize = 0;
    while i < cs.len()
        invariant
            i <= cs@.len(),
            cs@ == name@,
            forall|j: int| 0 <= j < i ==> cs@[j] != '/' && cs@[j] != '\0',
        decreases cs.len() - i,
    {
        if cs[i] == '/' || cs[i] == '\0' {
            assert(name@.contains(cs@[i as int]));
            return Err(SessionError::InvalidName);
        }
        i = i + 1;
    }
    Ok(())
}

/// Position of the first session named `name` in `sessions`.
pub fn find_by_name(sessions: &Vec<Session>, name: &str) -> (r: Option<usize>)
    ensures
        r matches Some(i) ==> i < sessions@.len() && sessions@[i as int].name@ == name@ && forall|j: int| 0 <= j < i ==> sessions@[j].name@ != name@,
        r is None ==> forall|j: int| 0 <= j < sessions@.len() ==> sessions@[j].name@ != name@,
{
    let mut i: usize = 0;
    while i < sessions.len()
        invariant
            i <= sessions@.len(),
            forall|j: int| 0 <= j < i ==> sessions@[j].name@ != name@,
        decreases sessions.len() - i,
    {
        if str_eq(sessions[i].name.as_str(), name) {
            return Some(i);
        }
        i = i + 1;
    }
    None
}

/// Position of the session `name_or_id` names: the first with that name,
/// else the first with that id.
pub fn find_session(sessions: &Vec<Session>, name_or_id: &str) -> (r: Result<usize, SessionError>)
    ensures
        r matches Ok(i) ==> i < sessions@.len() && (
            (sessions@[i as int].name@ == name_or_id@ && forall|j: int| 0 <= j < i ==> sessions@[j].name@ != name_or_id@)
            || ((forall|j: int| 0 <= j < sessions@.len() ==> sessions@[j].name@ != name_or_id@)
                && sessions@[i as int].id@ == name_or_id@ && forall|j: int| 0 <= j < i ==> sessions@[j].id@ != name_or_id@)),
        r is Err ==> forall|j: int| 0 <= j < sessions@.len() ==> sessions@[j].name@ != name_or_id@ && sessions@[j].id@ != name_or_id@,
        r matches Err(e) ==> e matches SessionError::NotFound(k) && k@ == name_or_id@,
{
    match find_by_name(sessions, name_or_id) {
        Some(i) => Ok(i),
        None => {
            let mut i: usize = 0;
            while i < sessions.len()
                invariant
                    i <= sessions@.len(),
                    forall|j: int| 0 <= j < sessions@.len() ==> sessions@[j].name@ != name_or_id@,
                    forall|j: int| 0 <= j < i ==> sessions@[j].id@ != name_or_id@,
                decreases sessions.len() - i,
            {
                if str_eq(sessions[i].id.as_str(), name_or_id) {
                    return Ok(i);
                }
                i = i + 1;
            }
            Err(SessionError::NotFound(owned(name_or_id)))
        },
    }
}

impl Keyed for Session {
    open spec fn key(&self) -> Seq<char> {
        self.name@
    }

    fn key_chars(&self) -> (k: Vec<char>) {
        chars_of(self.name.as_str())
    }
}

/// Duration of the phases of the last `create` (milliseconds).
#[derive(Clone, Copy, Debug, PartialEq, Eq, Structural)]
pub struct CreateTimings {
    pub filesystem_ms: u64,
    pub git_ms: u64,
    pub total_ms: u64,
}

impl CreateTimings {
    /// Timings whose total is the sum of the phases.
    pub fn new(filesystem_ms: u64, git_ms: u64) -> (t: Self)
        requires
            filesystem_ms + git_ms <= u64::MAX,
        ensures
            t.filesystem_ms == filesystem_ms,
            t.git_ms == git_ms,
            t.total_ms == filesystem_ms + git_ms,
    {
        CreateTimings { filesystem_ms, git_ms, total_ms: filesystem_ms + git_ms }
    }
}

/// Records the timings of a `create` that just finished in `slot`: the two
/// phases and their sum.
pub fn record_create_timings(slot: &mut Option<CreateTimings>, filesystem_ms: u64, git_ms: u64)
    requires
        filesystem_ms + git_ms <= u64::MAX,
    ensures
        *final(slot) matches Some(t) && t.filesystem_ms == filesystem_ms && t.git_ms == git_ms
            && t.total_ms == filesystem_ms + git_ms,
{
    *slot = Some(CreateTimings::new(filesystem_ms, git_ms));
}

/// Takes the timings recorded by the last `create`, leaving none behind.
pub fn take_last_create_timings(slot: &mut Option<CreateTimings>) -> (t: Option<CreateTimings>)
    ensures
        t == *old(slot),
        *final(slot) is None,
{
    let t = *slot;
    *slot = None;
    t
}

/// Session summary for `lazytree status`.
#[derive(Debug)]
pub struct SessionStatus {
    pub id: String,
    pub name: String,
    pub branch: String,
    pub dirty: bool,
    pub unexported_commits: u64,
    pub filesystem_state: String,
    pub filesystem_backend: FilesystemBackendKind,
    pub git_state: String,
    pub semantic_state: String,
    pub runtime_state: String,
    pub lifecycle: String,
    pub upper_files: u64,
    pub filesystem_bytes_written: u64,
    pub root: String,
    pub shared_cache: String,
    pub session_cache: String,
    pub age_seconds: i64,
}

/// What `status` learns from the disk and `git` about the session it reports.
#[derive(Debug)]
pub struct StatusFacts {
    /// Whether the session root exists.
    pub root_exists: bool,
    /// Whether the session Git directory has a `HEAD`.
    pub head_exists: bool,
    /// Whether the work tree has changes (`git status --porcelain` not
    /// empty); asked only when `status_needs_porcelain` says so.
    pub dirty: bool,
    /// Commits on the session branch since the base; asked only when the
    /// session Git directory has a `HEAD`.
    pub unexported_commits: u64,
    /// Files and bytes under the upper layer.
    pub upper_files: u64,
    pub upper_bytes: u64,
}

/// Whether `status` asks Git for uncommitted changes: the root exists and
/// the filesystem is recorded as mounted.
pub fn status_needs_porcelain(session: &Session, root_exists: bool) -> (b: bool)
    ensures
        b == (root_exists && session.recorded_mounted()),
{
    root_exists && str_eq(session.filesystem.state.as_str(), "mounted")
}

/// The active-workspace check of `diff`, `archive` and `exec`: the session
/// is not archived, its filesystem is recorded as mounted, and its root is
/// a mount point (`root_mounted`).
pub fn ensure_active_fs(session: &Session, root_mounted: bool) -> (r: Result<(), SessionError>)
    ensures
        r is Ok <==> !session.is_archived() && session.recorded_mounted() && root_mounted,
        (session.is_archived() || !session.recorded_mounted()) ==> (r matches Err(SessionError::NotActive(n)) && n@ == session.name@),
        (!session.is_archived() && session.recorded_mounted() && !root_mounted) ==> (r matches Err(SessionError::NotMounted(n)) && n@ == session.name@),
{
    if str_eq(session.lifecycle.as_str(), "archived") || !str_eq(session.filesystem.state.as_str(), "mounted") {
        return Err(SessionError::NotActive(owned(session.name.as_str())));
    }
    if !root_mounted {
        return Err(SessionError::NotMounted(owned(session.name.as_str())));
    }
    Ok(())
}

/// The output of `git status --porcelain` in a work tree, or its failure.
pub fn git_porcelain(success: bool, stdout: &str, stderr: &str) -> (r: Result<String, SessionError>)
    ensures
        r is Ok <==> success,
        r matches Ok(o) ==> o@ == stdout@,
        r matches Err(e) ==> e matches SessionError::GitFailed { command, stderr: m }
            && command@ == "status"@ && m@ == trimmed(stderr@),
{
    if !success {
        return Err(SessionError::GitFailed { command: owned("status"), stderr: trim_str(stderr) });
    }
    Ok(owned(stdout))
}

/// The arguments of `git rev-list --count <base>..HEAD` in the session's
/// Git directory.
pub fn rev_list_args(session: &Session) -> (v: Vec<String>)
    ensures
        v.deep_view() == seq![
            "--git-dir"@,
            path_join(session.session_dir@, "git"@),
            "rev-list"@,
            "--count"@,
            session.base_revision@ + "..HEAD"@,
        ],
{
    let v = vec![
        owned("--git-dir"),
        session.git_dir(),
        owned("rev-list"),
        owned("--count"),
        concat2(session.base_revision.as_str(), "..HEAD"),
    ];
    assert(v.deep_view() =~= seq![
        "--git-dir"@,
        path_join(session.session_dir@, "git"@),
        "rev-list"@,
        "--count"@,
        session.base_revision@ + "..HEAD"@,
    ]);
    v
}

/// Commits the session has that the base does not, from the output of
/// `git rev-list --count`: its trimmed output as a number.
pub fn count_unexported(success: bool, stdout: &str, stderr: &str) -> (r: Result<u64, SessionError>)
    ensures
        !success ==> (r matches Err(SessionError::GitFailed { command, stderr: m }) && command@ == "rev-list"@ && m@ == trimmed(stderr@)),
        success ==> match parse_u64_spec(trimmed(stdout@)) {
            Some(n) => r == Ok::<u64, SessionError>(n),
            None => r matches Err(SessionError::BadRevisionCount),
        },
{
    if !success {
        return Err(SessionError::GitFailed { command: owned("rev-list"), stderr: trim_str(stderr) });
    }
    let cs = chars_of(stdout);
    let t = trim(&cs);
    match parse_u64(&t) {
        Some(n) => Ok(n),
        None => Err(SessionError::BadRevisionCount),
    }
}

/// The explanation `destroy` gives when the workspace would lose work.
pub open spec fn unsaved_message(name: Seq<char>, dirty: bool, unexported: bool) -> Seq<char> {
    "workspace has "@
        + (if dirty { "uncommitted changes"@ } else { Seq::empty() })
        + (if dirty && unexported { " and "@ } else { Seq::empty() })
        + (if unexported { "commits that have not been exported"@ } else { Seq::empty() })
        + "\nUse:\n  lazytree diff "@ + name
        + "\n  lazytree archive "@ + name
        + "\n  lazytree destroy "@ + name + " --force"@
}

fn unsaved_message_text(name: &str, dirty: bool, unexported: bool) -> (s: String)
    ensures
        s@ == unsaved_message(name@, dirty, unexported),
{
    let mut s = owned("workspace has ");
    if dirty {
        push_str(&mut s, "uncommitted changes");
    }
    if dirty && unexported {
        push_str(&mut s, " and ");
    }
    if unexported {
        push_str(&mut s, "commits that have not been exported");
    }
    push_str(&mut s, "\nUse:\n  lazytree diff ");
    push_str(&mut s, name);
    push_str(&mut s, "\n  lazytree archive ");
    push_str(&mut s, name);
    push_str(&mut s, "\n  lazytree destroy ");
    push_str(&mut s, name);
    push_str(&mut s, " --force");
    assert(s@ =~= unsaved_message(name@, dirty, unexported));
    s
}

/// `destroy` looks for unsaved work: not forced, not archived, and the
/// filesystem recorded as mounted.
pub open spec fn checks_for_unsaved(s: Session, force: bool) -> bool {
    !force && !s.is_archived() && s.recorded_mounted()
}

/// Whether `destroy` must look for unsaved work first.
pub fn needs_change_check(session: &Session, force: bool) -> (b: bool)
    ensures
        b == checks_for_unsaved(*session, force),
{
    !force && !str_eq(session.lifecycle.as_str(), "archived") && str_eq(session.filesystem.state.as_str(), "mounted")
}

/// What `destroy` does once it is allowed.
#[derive(Debug)]
pub struct DestroyPlan {
    /// The session's merged root, to unmount.
    pub root: String,
    pub backend: FilesystemBackendKind,
    /// Always run the unmount tools (`--force`); otherwise unmount only
    /// when the root is a mount point.
    pub force: bool,
    /// The session directory to remove.
    pub session_dir: String,
    /// The name reservation to release.
    pub name_claim: String,
}

/// What a failed `create` leaves to undo.
#[derive(Debug)]
pub struct CleanupPlan {
    /// The root to unmount forcibly (whatever backend mounted it).
    pub root: String,
    pub session_dir: String,
    pub name_claim: String,
}

/// The step of a `create` that failed once its directories and name
/// reservation were written.
#[derive(Debug)]
pub enum CreateFailure {
    /// Mounting the session failed.
    Mount,
    /// Setting up its Git directory failed; the session was mounted with
    /// this backend.
    GitSetup(FilesystemBackendKind),
}

/// How to undo a failed `create`, in order: the unmounts to run (each to
/// its end, whatever it reports), then removing the session directory, then
/// releasing the name.
#[derive(Debug)]
pub struct CreateUndo {
    pub unmounts: Vec<UmountProcedure>,
    pub cleanup: CleanupPlan,
}

/// `p` is the unmount `umount_with_backend` starts for `root` mounted with
/// `backend`.
pub open spec fn plain_unmount(p: UmountProcedure, root: Seq<char>, backend: Option<FilesystemBackendKind>) -> bool {
    &&& p.attempts.deep_view() == umount_attempts_spec(backend, root, true, |b| fuse_backend(b))
    &&& p.check_first && p.check_last && !p.force
    &&& p.phase == UmountPhase::Start
}

/// `p` is the unmount `umount_force` starts for `root` mounted with
/// `backend`.
pub open spec fn forced_unmount(p: UmountProcedure, root: Seq<char>, backend: Option<FilesystemBackendKind>) -> bool {
    &&& p.attempts.deep_view() == umount_attempts_spec(backend, root, true, |b| forced_fuse_backend(b))
    &&& !p.check_first && p.check_last && p.force
    &&& p.phase == UmountPhase::Start
}

/// The reservation of the session name `name` under the home `home`.
pub open spec fn name_claim_of(home: Seq<char>, name: Seq<char>) -> Seq<char> {
    path_join(path_join(path_join(home, "sessions"@), ".names"@), name)
}

/// Unexported commits are counted whenever the session's Git directory has
/// a `HEAD`, whatever the filesystem state and whether or not the root
/// exists; without a `HEAD` none are reported. Uncommitted changes are
/// reported only for a workspace whose root exists and is recorded as
/// mounted.
pub proof fn status_counts_commits_whenever_head_exists(st: SessionStatus, s: Session, home: Seq<char>, facts: StatusFacts)
    requires
        reports(st, s, home, facts),
    ensures
        facts.head_exists ==> st.unexported_commits == facts.unexported_commits,
        !facts.head_exists ==> st.unexported_commits == 0,
        st.dirty ==> facts.dirty && facts.root_exists && s.filesystem.state@ == "mounted"@,
        facts.dirty && facts.root_exists && s.filesystem.state@ == "mounted"@ ==> st.dirty,
        st.name@ == s.name@ && st.id@ == s.id@ && st.branch@ == s.branch@,
        st.filesystem_state@ == s.filesystem.state@ && st.lifecycle@ == s.lifecycle@,
        st.upper_files == facts.upper_files && st.filesystem_bytes_written == facts.upper_bytes,
        st.root@ == path_join(path_join(s.session_dir@, "fs"@), "root"@),
{
}

/// `destroy` looks for unsaved work only in a workspace recorded as
/// mounted, not archived, and not forced: a session whose filesystem is not
/// recorded as mounted is destroyed whatever its uncommitted changes or
/// unexported commits.
pub proof fn only_mounted_workspaces_are_checked(s: Session, force: bool)
    ensures
        checks_for_unsaved(s, force) ==> s.filesystem.state@ == "mounted"@ && !force && s.lifecycle@ != "archived"@,
        s.filesystem.state@ == "mounted"@ && !force && s.lifecycle@ != "archived"@ ==> checks_for_unsaved(s, force),
        s.filesystem.state@ != "mounted"@ ==> !checks_for_unsaved(s, force),
{
}

/// The store of sessions under the LazyTree home.
#[derive(Debug)]
pub struct SessionStore {
    pub paths: Paths,
    pub repos: RepositoryStore,
}

impl SessionStore {
    pub fn new(paths: Paths, repos: RepositoryStore) -> (s: Self)
        ensures
            s.paths == paths,
            s.repos == repos,
    {
        SessionStore { paths, repos }
    }

    /// The reservation file of a session name.
    pub fn name_claim_path(&self, name: &str) -> (p: String)
        ensures
            p@ == path_join(path_join(path_join(self.paths.home@, "sessions"@), ".names"@), name@),
    {
        let dir = self.paths.session_name_claim_dir();
        path_join_exec(dir.as_str(), name)
    }

    /// The session records found on disk, ordered by name.
    pub fn list(&self, found: Vec<Session>) -> (r: Vec<Session>)
        ensures
            sorted_by_key(r@),
            r@.to_multiset() == found@.to_multiset(),
    {
        sort_by_key(found)
    }

    /// Position of the session `name_or_id` names: the first with that
    /// name, else the first with that id.
    pub fn get(&self, sessions: &Vec<Session>, name_or_id: &str) -> (r: Result<usize, SessionError>)
        ensures
            r matches Ok(i) ==> i < sessions@.len() && session_lookup(sessions@, name_or_id@) == Some(i as int),
            r is Err <==> session_lookup(sessions@, name_or_id@) is None,
            r matches Err(e) ==> (e matches SessionError::NotFound(k) && k@ == name_or_id@),
    {
        lookup(sessions, name_or_id)
    }

    /// The cache roots of `session`.
    pub fn semantic_paths(&self, session: &Session) -> (p: SemanticPaths)
        ensures
            p.shared@ == path_join(path_join(path_join(self.paths.home@, "repositories"@), session.repository_id@), "semantic/shared"@),
            p.session_writable@ == path_join(session.session_dir@, "semantic/writable"@),
    {
        let repo_dir = self.paths.repo_dir(session.repository_id.as_str());
        SemanticPaths::for_session(repo_dir.as_str(), session.session_dir.as_str())
    }
}

/// The name (`by_name`) or the id of a session.
pub open spec fn session_key(s: Session, by_name: bool) -> Seq<char> {
    if by_name { s.name@ } else { s.id@ }
}

/// `i` is the first position whose name (or id) is `key`.
pub open spec fn first_at(sessions: Seq<Session>, key: Seq<char>, by_name: bool, i: int) -> bool {
    &&& 0 <= i < sessions.len()
    &&& session_key(sessions[i], by_name) == key
    &&& forall|j: int| 0 <= j < i ==> session_key(#[trigger] sessions[j], by_name) != key
}

/// The first position whose name (or id) is `key`.
pub open spec fn first_with(sessions: Seq<Session>, key: Seq<char>, by_name: bool) -> Option<int> {
    if exists|i: int| first_at(sessions, key, by_name, i) {
        Some(choose|i: int| first_at(sessions, key, by_name, i))
    } else {
        None
    }
}

/// The session `key` names: the first with that name, else the first with
/// that id.
pub open spec fn session_lookup(sessions: Seq<Session>, key: Seq<char>) -> Option<int> {
    match first_with(sessions, key, true) {
        Some(i) => Some(i),
        None => first_with(sessions, key, false),
    }
}

proof fn lemma_first_with(sessions: Seq<Session>, key: Seq<char>, by_name: bool, i: int)
    requires
        first_at(sessions, key, by_name, i),
    ensures
        first_with(sessions, key, by_name) == Some(i),
{
    let k = choose|k: int| first_at(sessions, key, by_name, k);
    assert(first_at(sessions, key, by_name, k));
    if k < i {
        assert(session_key(sessions[k], by_name) != key);
    } else if i < k {
        assert(session_key(sessions[i], by_name) != key);
    }
}

proof fn lemma_first_with_none(sessions: Seq<Session>, key: Seq<char>, by_name: bool)
    requires
        forall|j: int| 0 <= j < sessions.len() ==> session_key(#[trigger] sessions[j], by_name) != key,
    ensures
        first_with(sessions, key, by_name) is None,
{
    if exists|i: int| first_at(sessions, key, by_name, i) {
        let k = choose|k: int| first_at(sessions, key, by_name, k);
        assert(session_key(sessions[k], by_name) == key);
    }
}

/// Finds the session `name_or_id` names.
fn lookup(sessions: &Vec<Session>, name_or_id: &str) -> (r: Result<usize, SessionError>)
    ensures
        r matches Ok(i) ==> i < sessions@.len() && session_lookup(sessions@, name_or_id@) == Some(i as int),
        r is Err ==> session_lookup(sessions@, name_or_id@) is None,
        r matches Err(e) ==> (e matches SessionError::NotFound(k) && k@ == name_or_id@),
{
    let r = find_session(sessions, name_or_id);
    proof {
        match r {
            Ok(i) => {
                if sessions@[i as int].name@ == name_or_id@ && forall|j: int| 0 <= j < i ==> sessions@[j].name@ != name_or_id@ {
                    assert forall|j: int| 0 <= j < i implies session_key(#[trigger] sessions@[j], true) != name_or_id@ by {}
                    lemma_first_with(sessions@, name_or_id@, true, i as int);
                } else {
                    assert forall|j: int| 0 <= j < sessions@.len() implies session_key(#[trigger] sessions@[j], true) != name_or_id@ by {}
                    lemma_first_with_none(sessions@, name_or_id@, true);
                    assert forall|j: int| 0 <= j < i implies session_key(#[trigger] sessions@[j], false) != name_or_id@ by {}
                    lemma_first_with(sessions@, name_or_id@, false, i as int);
                }
            },
            Err(_) => {
                assert forall|j: int| 0 <= j < sessions@.len() implies session_key(#[trigger] sessions@[j], true) != name_or_id@ by {}
                assert forall|j: int| 0 <= j < sessions@.len() implies session_key(#[trigger] sessions@[j], false) != name_or_id@ by {}
                lemma_first_with_none(sessions@, name_or_id@, true);
                lemma_first_with_none(sessions@, name_or_id@, false);
            },
        }
    }
    r
}

/// The shared cache of a session's repository under the home `home`.
pub open spec fn shared_cache_of(home: Seq<char>, s: Session) -> Seq<char> {
    path_join(path_join(path_join(home, "repositories"@), s.repository_id@), "semantic/shared"@)
}

/// The session's writable cache.
pub open spec fn session_cache_of(s: Session) -> Seq<char> {
    path_join(s.session_dir@, "semantic/writable"@)
}

/// `st` reports session `s` with what `facts` found: changes count only when
/// the root exists and is recorded as mounted, commits only when the Git
/// directory has a `HEAD`. (Its age is stated by `status_at`.)
pub open spec fn reports(st: SessionStatus, s: Session, home: Seq<char>, facts: StatusFacts) -> bool {
    &&& st.id@ == s.id@
    &&& st.name@ == s.name@
    &&& st.branch@ == s.branch@
    &&& st.dirty == (facts.root_exists && s.recorded_mounted() && facts.dirty)
    &&& st.unexported_commits == (if facts.head_exists { facts.unexported_commits } else { 0 })
    &&& st.filesystem_state@ == s.filesystem.state@
    &&& st.filesystem_backend == s.filesystem.backend
    &&& st.git_state@ == s.git.state@
    &&& st.semantic_state@ == s.semantic.state@
    &&& st.runtime_state@ == s.runtime.state@
    &&& st.lifecycle@ == s.lifecycle@
    &&& st.upper_files == facts.upper_files
    &&& st.filesystem_bytes_written == facts.upper_bytes
    &&& st.root@ == path_join(path_join(s.session_dir@, "fs"@), "root"@)
    &&& st.shared_cache@ == shared_cache_of(home, s)
    &&& st.session_cache@ == session_cache_of(s)
}

/// What `archive` does once allowed.
#[derive(Debug)]
pub struct ArchivePlan {
    /// Arguments of the `git` run that publishes the branch to the source.
    pub push_args: Vec<String>,
    /// The source repository published to.
    pub source: String,
    /// The root to unmount, and the backend that mounted it.
    pub root: String,
    pub backend: FilesystemBackendKind,
    /// The filesystem layers, emptied (removed and created again) after
    /// unmounting, before the Git directory goes.
    pub reset_layers: Vec<String>,
    /// The runtime directory and writable cache, emptied after the Git
    /// directory is gone.
    pub reset_caches: Vec<String>,
    /// The session Git directory, removed.
    pub git_dir: String,
}

/// Everything a new session is made of, decided before anything is written.
#[derive(Debug)]
pub struct CreatePlan {
    pub id: String,
    pub name: String,
    pub session_dir: String,
    pub upper: String,
    pub work: String,
    pub root: String,
    pub git_dir: String,
    pub runtime_dir: String,
    pub semantic: SemanticPaths,
    pub repo_id: String,
    /// The registered source checkout, whose Git identity the session takes.
    pub repo_source: String,
    pub repo_base_path: String,
    pub repo_base_commit: String,
    pub object_store: String,
    pub seed_index: Option<String>,
    pub base_revision: String,
    pub branch: String,
    pub preferred: FilesystemBackendKind,
    pub last_working: Option<FilesystemBackendKind>,
    pub needs_sudo: Option<bool>,
    /// `user.name` of the source checkout, once it has been read.
    pub user_name: Option<String>,
    /// `user.email` of the source checkout, once it has been read.
    pub user_email: Option<String>,
}

impl CreatePlan {
    /// The directories to create, in order: the layers, the Git and runtime
    /// directories, and the semantic cache roots with their `cargo-home` and
    /// `caches` subdirectories.
    pub fn dirs(&self) -> (v: Vec<String>)
        ensures
            v.deep_view() == seq![self.upper@, self.work@, self.root@, self.git_dir@, self.runtime_dir@]
                + self.semantic.ensure_spec(),
    {
        let mut v = vec![
            owned(self.upper.as_str()),
            owned(self.work.as_str()),
            owned(self.root.as_str()),
            owned(self.git_dir.as_str()),
            owned(self.runtime_dir.as_str()),
        ];
        let mut cache = self.semantic.ensure();
        let ghost head = v.deep_view();
        assert(head =~= seq![self.upper@, self.work@, self.root@, self.git_dir@, self.runtime_dir@]);
        let ghost tail = cache.deep_view();
        v.append(&mut cache);
        assert(v.deep_view() =~= head + tail);
        v
    }

    /// The plan with the Git identity read from the source checkout; nothing
    /// else changes.
    pub fn with_identity(&mut self, user_name: Option<String>, user_email: Option<String>)
        ensures
            final(self).user_name == user_name,
            final(self).user_email == user_email,
            *final(self) == (CreatePlan { user_name, user_email, ..*old(self) }),
    {
        self.user_name = user_name;
        self.user_email = user_email;
    }

    /// The mount of the session's layers over the repository base.
    pub fn mount_request(&self) -> (m: MountRequest)
        ensures
            m.lowerdir@ == self.repo_base_path@,
            m.upperdir@ == self.upper@,
            m.workdir@ == self.work@,
            m.merged@ == self.root@,
            m.preferred == self.preferred,
            m.last_working == self.last_working,
            m.needs_sudo == self.needs_sudo,
    {
        MountRequest {
            lowerdir: owned(self.repo_base_path.as_str()),
            upperdir: owned(self.upper.as_str()),
            workdir: owned(self.work.as_str()),
            merged: owned(self.root.as_str()),
            preferred: self.preferred,
            last_working: self.last_working,
            needs_sudo: self.needs_sudo,
        }
    }

    /// The Git setup of the session: its branch at the base revision over
    /// the repository's objects, seeded for the registered base commit.
    pub fn git_setup(&self) -> (g: GitSetup)
        ensures
            g.git_dir@ == self.git_dir@,
            g.work_tree@ == self.root@,
            g.branch@ == self.branch@,
            g.base_revision@ == self.base_revision@,
            g.object_store@ == self.object_store@,
            g.seed_index == self.seed_index,
            g.seed_commit matches Some(c) && c@ == self.repo_base_commit@,
            g.user_name == self.user_name,
            g.user_email == self.user_email,
    {
        GitSetup {
            git_dir: owned(self.git_dir.as_str()),
            work_tree: owned(self.root.as_str()),
            branch: owned(self.branch.as_str()),
            base_revision: owned(self.base_revision.as_str()),
            object_store: owned(self.object_store.as_str()),
            seed_index: self.seed_index.clone(),
            seed_commit: Some(owned(self.repo_base_commit.as_str())),
            user_name: self.user_name.clone(),
            user_email: self.user_email.clone(),
        }
    }

    /// The record of the new session, mounted by `mounted`, created now.
    pub fn session_record(&self, mounted: &MountedSession) -> (s: Session)
        ensures
            records(s, *self, *mounted),
            s.created_at@ == s.updated_at@,
            s.created_at@.len() > 0 && s.created_at@.last() == 'Z',
    {
        let now = timestamp_now();
        self.session_record_at(mounted, now.as_str())
    }

    /// The record of the new session, mounted by `mounted`, created `now`.
    pub fn session_record_at(&self, mounted: &MountedSession, now: &str) -> (s: Session)
        ensures
            records(s, *self, *mounted),
            s.created_at@ == now@,
            s.updated_at@ == now@,
    {
        Session {
            version: 1,
            id: owned(self.id.as_str()),
            name: owned(self.name.as_str()),
            repository_id: owned(self.repo_id.as_str()),
            base_revision: owned(self.base_revision.as_str()),
            branch: owned(self.branch.as_str()),
            filesystem: FilesystemMeta { backend: mounted.backend, state: owned("mounted") },
            git: LayerState { state: owned("ready") },
            semantic: LayerState { state: owned("inherited") },
            runtime: RuntimeMeta { backend: owned("local"), state: owned("none") },
            created_at: owned(now),
            updated_at: owned(now),
            session_dir: owned(self.session_dir.as_str()),
            lifecycle: owned("ready"),
        }
    }
}

/// `s` is the record of the session `p` planned, mounted by `mounted`
/// (timestamps aside): ready, filesystem mounted, Git ready, caches
/// inherited, local runtime idle.
pub open spec fn records(s: Session, p: CreatePlan, mounted: MountedSession) -> bool {
    &&& s.version == 1
    &&& s.id@ == p.id@
    &&& s.name@ == p.name@
    &&& s.repository_id@ == p.repo_id@
    &&& s.base_revision@ == p.base_revision@
    &&& s.branch@ == p.branch@
    &&& s.filesystem.backend == mounted.backend
    &&& s.filesystem.state@ == "mounted"@
    &&& s.git.state@ == "ready"@
    &&& s.semantic.state@ == "inherited"@
    &&& s.runtime.backend@ == "local"@
    &&& s.runtime.state@ == "none"@
    &&& s.session_dir@ == p.session_dir@
    &&& s.lifecycle@ == "ready"@
}

/// The outcome of publishing the branch (`git push`) to `source`.
pub fn publish_result(success: bool, stderr: &str, source: &str) -> (r: Result<(), SessionError>)
    ensures
        r is Ok <==> success,
        !success ==> (r matches Err(SessionError::PublishFailed { source: s, stderr: m }) && s@ == source@ && m@ == trimmed(stderr@)),
{
    if success {
        Ok(())
    } else {
        Err(SessionError::PublishFailed { source: owned(source), stderr: trim_str(stderr) })
    }
}

/// The record of `session` once archived now.
pub fn archived_record(session: &Session) -> (s: Session)
    ensures
        s == archived_record_spec(*session, s),
        s.filesystem.state@ == "archived"@,
        s.git.state@ == "published"@,
        s.semantic.state@ == "none"@,
        s.runtime.state@ == "none"@,
        s.lifecycle@ == "archived"@,
        s.updated_at@.len() > 0 && s.updated_at@.last() == 'Z',
{
    let now = timestamp_now();
    archived_record_at(session, now.as_str())
}

/// `session` archived: the layers' states and the lifecycle taken from `a`
/// (which the contracts pin), everything else kept.
pub open spec fn archived_record_spec(session: Session, a: Session) -> Session {
    Session {
        filesystem: FilesystemMeta { state: a.filesystem.state, ..session.filesystem },
        git: a.git,
        semantic: a.semantic,
        runtime: RuntimeMeta { state: a.runtime.state, ..session.runtime },
        updated_at: a.updated_at,
        lifecycle: a.lifecycle,
        ..session
    }
}

/// The record of `session` once archived at `now`: layers dropped, branch
/// published.
pub fn archived_record_at(session: &Session, now: &str) -> (s: Session)
    ensures
        s == archived_record_spec(*session, s),
        s.filesystem.state@ == "archived"@,
        s.git.state@ == "published"@,
        s.semantic.state@ == "none"@,
        s.runtime.state@ == "none"@,
        s.lifecycle@ == "archived"@,
        s.updated_at@ == now@,
{
    let mut s = session.clone();
    s.filesystem.state = owned("archived");
    s.git.state = owned("published");
    s.semantic.state = owned("none");
    s.runtime.state = owned("none");
    s.lifecycle = owned("archived");
    s.updated_at = owned(now);
    s
}

/// The text `diff` prints: `git diff HEAD`, then the staged changes (`git
/// diff --cached`) under a `# staged` line when that run succeeded and
/// printed anything.
pub fn diff_text(head_ok: bool, head_stdout: &str, head_stderr: &str, staged_ok: bool, staged_stdout: &str) -> (r: Result<String, SessionError>)
    ensures
        r is Ok <==> head_ok,
        !head_ok ==> (r matches Err(SessionError::GitFailed { command, stderr }) && command@ == "diff"@ && stderr@ == trimmed(head_stderr@)),
        r matches Ok(t) ==> t@ == head_stdout@ + (if staged_ok && staged_stdout@.len() > 0 {
            "\n# staged\n"@ + staged_stdout@
        } else {
            Seq::empty()
        }),
{
    if !head_ok {
        return Err(SessionError::GitFailed { command: owned("diff"), stderr: trim_str(head_stderr) });
    }
    let mut text = owned(head_stdout);
    let staged = chars_of(staged_stdout);
    if staged_ok && staged.len() > 0 {
        push_str(&mut text, "\n# staged\n");
        push_str(&mut text, staged_stdout);
        assert(text@ =~= head_stdout@ + ("\n# staged\n"@ + staged_stdout@));
    } else {
        assert(text@ =~= head_stdout@ + Seq::<char>::empty());
    }
    Ok(text)
}

/// The filesystem layers `archive` empties.
pub open spec fn archive_reset_layers(s: Session) -> Seq<Seq<char>> {
    let fs = path_join(s.session_dir@, "fs"@);
    seq![path_join(fs, "upper"@), path_join(fs, "work"@), path_join(fs, "root"@)]
}

/// The other directories `archive` empties: the runtime directory and the
/// session's writable cache.
pub open spec fn archive_reset_caches(s: Session) -> Seq<Seq<char>> {
    seq![
        path_join(s.session_dir@, "runtime"@),
        path_join(path_join(s.session_dir@, "semantic"@), "writable"@),
    ]
}

impl SessionStore {
    /// The status of the session `name_or_id` names, from what `facts`
    /// found about it; its age is the time since its creation, read from the
    /// clock (0 when the record's time does not parse).
    pub fn status(&self, sessions: &Vec<Session>, name_or_id: &str, facts: &StatusFacts) -> (r: Result<SessionStatus, SessionError>)
        ensures
            match session_lookup(sessions@, name_or_id@) {
                Some(i) => r matches Ok(st) && reports(st, sessions@[i], self.paths.home@, *facts),
                None => r matches Err(SessionError::NotFound(k)) && k@ == name_or_id@,
            },
    {
        let i = match lookup(sessions, name_or_id) {
            Ok(i) => i,
            Err(e) => return Err(e),
        };
        let age = seconds_since(sessions[i].created_at.as_str());
        self.status_at(sessions, name_or_id, facts, age)
    }

    /// `status`, with `elapsed` the whole seconds since the session's
    /// creation time (none when that time does not parse): the age is
    /// `elapsed`, else 0.
    pub fn status_at(&self, sessions: &Vec<Session>, name_or_id: &str, facts: &StatusFacts, elapsed: Option<i64>) -> (r: Result<SessionStatus, SessionError>)
        ensures
            match session_lookup(sessions@, name_or_id@) {
                Some(i) => r matches Ok(st) && reports(st, sessions@[i], self.paths.home@, *facts)
                    && st.age_seconds == (match elapsed { Some(a) => a, None => 0 }),
                None => r matches Err(SessionError::NotFound(k)) && k@ == name_or_id@,
            },
    {
        let i = match lookup(sessions, name_or_id) {
            Ok(i) => i,
            Err(e) => return Err(e),
        };
        let session = &sessions[i];
        let semantic = self.semantic_paths(session);
        let dirty = status_needs_porcelain(session, facts.root_exists) && facts.dirty;
        let unexported = if facts.head_exists { facts.unexported_commits } else { 0 };
        let age = match elapsed {
            Some(a) => a,
            None => 0,
        };
        Ok(SessionStatus {
            id: owned(session.id.as_str()),
            name: owned(session.name.as_str()),
            branch: owned(session.branch.as_str()),
            dirty,
            unexported_commits: unexported,
            filesystem_state: owned(session.filesystem.state.as_str()),
            filesystem_backend: session.filesystem.backend,
            git_state: owned(session.git.state.as_str()),
            semantic_state: owned(session.semantic.state.as_str()),
            runtime_state: owned(session.runtime.state.as_str()),
            lifecycle: owned(session.lifecycle.as_str()),
            upper_files: facts.upper_files,
            filesystem_bytes_written: facts.upper_bytes,
            root: session.root_path(),
            shared_cache: semantic.shared,
            session_cache: semantic.session_writable,
            age_seconds: age,
        })
    }

    /// What to start for `argv` in the session `name_or_id` names, run the
    /// canonical way when the host supports it.
    pub fn exec(&self, sessions: &Vec<Session>, name_or_id: &str, argv: &Vec<String>, host: &ExecHost) -> (r: Result<ExecPlan, SessionError>)
        ensures
            match session_lookup(sessions@, name_or_id@) {
                Some(i) => exec_outcome(r, sessions@[i], self.paths.home@, argv.deep_view(), ExecOptions { canonical: true }, *host),
                None => r matches Err(SessionError::NotFound(k)) && k@ == name_or_id@,
            },
    {
        let opts = ExecOptions::default();
        self.exec_with(sessions, name_or_id, argv, &opts, host)
    }

    /// What to start for `argv` in the session `name_or_id` names.
    pub fn exec_with(&self, sessions: &Vec<Session>, name_or_id: &str, argv: &Vec<String>, opts: &ExecOptions, host: &ExecHost) -> (r: Result<ExecPlan, SessionError>)
        ensures
            match session_lookup(sessions@, name_or_id@) {
                Some(i) => exec_outcome(r, sessions@[i], self.paths.home@, argv.deep_view(), *opts, *host),
                None => r matches Err(SessionError::NotFound(k)) && k@ == name_or_id@,
            },
    {
        let i = match lookup(sessions, name_or_id) {
            Ok(i) => i,
            Err(e) => return Err(e),
        };
        let session = &sessions[i];
        let semantic = self.semantic_paths(session);
        match LocalRuntimeBackend.exec(session, &semantic, argv, opts, host) {
            Ok(p) => Ok(p),
            Err(e) => Err(SessionError::Runtime(e)),
        }
    }

    /// Promotes the target directory of the session `name_or_id` names to
    /// the repository's shared seed; `src_is_dir` says whether the session
    /// has a target directory.
    pub fn cache_promote(&self, sessions: &Vec<Session>, name_or_id: &str, src_is_dir: bool) -> (r: Result<CopyPlan, SessionError>)
        ensures
            match session_lookup(sessions@, name_or_id@) {
                Some(i) => {
                    &&& r is Ok <==> src_is_dir
                    &&& r matches Ok(p) ==> p.src@ == session_target(session_cache_of(sessions@[i]))
                        && p.dst@ == target_seed_of(self.paths.home@, sessions@[i])
                    &&& r matches Err(e) ==> (e matches SessionError::Runtime(RuntimeError::NoSessionTarget(p))
                        && p@ == session_target(session_cache_of(sessions@[i])))
                },
                None => r matches Err(SessionError::NotFound(k)) && k@ == name_or_id@,
            },
    {
        let i = match lookup(sessions, name_or_id) {
            Ok(i) => i,
            Err(e) => return Err(e),
        };
        let semantic = self.semantic_paths(&sessions[i]);
        match crate::runtime::promote_session_target_to_shared(&semantic, src_is_dir) {
            Ok(p) => Ok(p),
            Err(e) => Err(SessionError::Runtime(e)),
        }
    }

    /// Seeds the target directory of the session `name_or_id` names from the
    /// shared seed, when there is one (`src_is_dir`).
    pub fn cache_seed(&self, sessions: &Vec<Session>, name_or_id: &str, src_is_dir: bool) -> (r: Result<Option<CopyPlan>, SessionError>)
        ensures
            match session_lookup(sessions@, name_or_id@) {
                Some(i) => r matches Ok(o) && (o is Some <==> src_is_dir) && (o matches Some(p) ==>
                    p.src@ == target_seed_of(self.paths.home@, sessions@[i])
                    && p.dst@ == session_target(session_cache_of(sessions@[i]))),
                None => r matches Err(SessionError::NotFound(k)) && k@ == name_or_id@,
            },
    {
        let i = match lookup(sessions, name_or_id) {
            Ok(i) => i,
            Err(e) => return Err(e),
        };
        let semantic = self.semantic_paths(&sessions[i]);
        Ok(crate::runtime::seed_session_target_from_shared(&semantic, src_is_dir))
    }

    /// The work tree `diff` runs `git diff` in: the root of the session
    /// `name_or_id` names, when it is an active mounted workspace
    /// (`root_mounted`: whether that root is a mount point).
    pub fn diff(&self, sessions: &Vec<Session>, name_or_id: &str, root_mounted: bool) -> (r: Result<String, SessionError>)
        ensures
            match session_lookup(sessions@, name_or_id@) {
                Some(i) => {
                    &&& r is Ok <==> !sessions@[i].is_archived() && sessions@[i].recorded_mounted() && root_mounted
                    &&& r matches Ok(root) ==> root@ == path_join(path_join(sessions@[i].session_dir@, "fs"@), "root"@)
                    &&& (sessions@[i].is_archived() || !sessions@[i].recorded_mounted()) ==> (r matches Err(SessionError::NotActive(_)))
                    &&& (!sessions@[i].is_archived() && sessions@[i].recorded_mounted() && !root_mounted) ==> (r matches Err(SessionError::NotMounted(_)))
                },
                None => r matches Err(SessionError::NotFound(k)) && k@ == name_or_id@,
            },
    {
        let i = match lookup(sessions, name_or_id) {
            Ok(i) => i,
            Err(e) => return Err(e),
        };
        let session = &sessions[i];
        if let Err(e) = ensure_active_fs(session, root_mounted) {
            return Err(e);
        }
        Ok(session.root_path())
    }

    /// Checks that the session `name_or_id` names can be archived, and what
    /// archiving does: publish the branch to its repository's source, unmount,
    /// empty the layers, remove the Git directory. `root_mounted` says whether
    /// its root is a mount point; the repository is looked up in `repos` by
    /// the session's repository id (`repo_canonical`: that id canonicalized as
    /// a path, when it is one).
    pub fn archive(&self, sessions: &Vec<Session>, name_or_id: &str, root_mounted: bool, repos: &Vec<Repository>, repo_canonical: Option<&str>) -> (r: Result<ArchivePlan, SessionError>)
        ensures
            match session_lookup(sessions@, name_or_id@) {
                Some(i) => archive_outcome(r, sessions@[i], root_mounted, repos@, opt_str(repo_canonical)),
                None => r matches Err(SessionError::NotFound(k)) && k@ == name_or_id@,
            },
    {
        let i = match lookup(sessions, name_or_id) {
            Ok(i) => i,
            Err(e) => return Err(e),
        };
        let session = &sessions[i];
        if str_eq(session.lifecycle.as_str(), "archived") {
            return Err(SessionError::AlreadyArchived(owned(session.name.as_str())));
        }
        if let Err(e) = ensure_active_fs(session, root_mounted) {
            return Err(e);
        }
        let k = match self.repos.get(repos, session.repository_id.as_str(), repo_canonical) {
            Ok(k) => k,
            Err(e) => return Err(SessionError::Repository(e)),
        };
        let repo = &repos[k];
        let dest = concat2("HEAD:refs/heads/", session.branch.as_str());
        let push_args = vec![
            owned("--git-dir"),
            session.git_dir(),
            owned("push"),
            owned(repo.source_path.as_str()),
            dest,
        ];
        let fs = path_join_exec(session.session_dir.as_str(), "fs");
        let semantic = path_join_exec(session.session_dir.as_str(), "semantic");
        let reset_layers = vec![
            path_join_exec(fs.as_str(), "upper"),
            path_join_exec(fs.as_str(), "work"),
            path_join_exec(fs.as_str(), "root"),
        ];
        let reset_caches = vec![
            path_join_exec(session.session_dir.as_str(), "runtime"),
            path_join_exec(semantic.as_str(), "writable"),
        ];
        let plan = ArchivePlan {
            push_args,
            source: owned(repo.source_path.as_str()),
            root: session.root_path(),
            backend: session.filesystem.backend,
            reset_layers,
            reset_caches,
            git_dir: session.git_dir(),
        };
        proof {
            assert(plan.reset_layers.deep_view() =~= archive_reset_layers(*session));
            assert(plan.reset_caches.deep_view() =~= archive_reset_caches(*session));
            assert(plan.push_args.deep_view() =~= seq![
                "--git-dir"@,
                path_join(session.session_dir@, "git"@),
                "push"@,
                repos@[k as int].source_path@,
                "HEAD:refs/heads/"@ + session.branch@,
            ]);
        }
        Ok(plan)
    }

    /// Checks that the session `name_or_id` names may be destroyed, and how:
    /// unless forced or archived, a mounted workspace with uncommitted
    /// changes (`dirty`) or unexported commits (`unexported`, both asked
    /// only when `needs_change_check` says so) is kept.
    pub fn destroy(&self, sessions: &Vec<Session>, name_or_id: &str, force: bool, dirty: bool, unexported: u64) -> (r: Result<DestroyPlan, SessionError>)
        ensures
            match session_lookup(sessions@, name_or_id@) {
                Some(i) => {
                    let s = sessions@[i];
                    let keep = checks_for_unsaved(s, force) && (dirty || unexported > 0);
                    &&& r is Ok <==> !keep
                    &&& keep ==> (r matches Err(SessionError::Unsaved(m)) && m@ == unsaved_message(s.name@, dirty, unexported > 0))
                    &&& r matches Ok(p) ==> {
                        &&& p.root@ == path_join(path_join(s.session_dir@, "fs"@), "root"@)
                        &&& p.backend == s.filesystem.backend
                        &&& p.force == force
                        &&& p.session_dir@ == s.session_dir@
                        &&& p.name_claim@ == path_join(path_join(path_join(self.paths.home@, "sessions"@), ".names"@), s.name@)
                    }
                },
                None => r matches Err(SessionError::NotFound(k)) && k@ == name_or_id@,
            },
    {
        let i = match lookup(sessions, name_or_id) {
            Ok(i) => i,
            Err(e) => return Err(e),
        };
        let session = &sessions[i];
        if needs_change_check(session, force) && (dirty || unexported > 0) {
            return Err(SessionError::Unsaved(unsaved_message_text(session.name.as_str(), dirty, unexported > 0)));
        }
        Ok(DestroyPlan {
            root: session.root_path(),
            backend: session.filesystem.backend,
            force,
            session_dir: owned(session.session_dir.as_str()),
            name_claim: self.name_claim_path(session.name.as_str()),
        })
    }

    /// How to undo `create` of `plan` after `failure`: when the mount
    /// failed, a forced unmount of the root (whatever may have been left
    /// mounted); when the Git setup failed, first the normal unmount with the
    /// backend that mounted it, then the forced one. Then in both cases the
    /// session directory is removed and the name released.
    pub fn undo_failed_create(&self, plan: &CreatePlan, failure: &CreateFailure) -> (u: CreateUndo)
        ensures
            u.cleanup.root@ == plan.root@,
            u.cleanup.session_dir@ == plan.session_dir@,
            u.cleanup.name_claim@ == name_claim_of(self.paths.home@, plan.name@),
            match *failure {
                CreateFailure::Mount => u.unmounts@.len() == 1
                    && forced_unmount(u.unmounts@[0], plan.root@, None),
                CreateFailure::GitSetup(b) => u.unmounts@.len() == 2
                    && plain_unmount(u.unmounts@[0], plan.root@, Some(b))
                    && forced_unmount(u.unmounts@[1], plan.root@, None),
            },
            u.unmounts@.last().attempts@.len() >= 2,
    {
        let cleanup = self.cleanup_failed_create(plan);
        let forced = umount_force(plan.root.as_str(), None);
        let mut unmounts: Vec<UmountProcedure> = Vec::new();
        match failure {
            CreateFailure::Mount => {},
            CreateFailure::GitSetup(b) => {
                unmounts.push(umount_with_backend(plan.root.as_str(), Some(*b)));
            },
        }
        unmounts.push(forced);
        CreateUndo { unmounts, cleanup }
    }

    /// What undoing a failed `create` removes: a forced unmount of its root,
    /// its directory, its name reservation.
    pub fn cleanup_failed_create(&self, plan: &CreatePlan) -> (c: CleanupPlan)
        ensures
            c.root@ == plan.root@,
            c.session_dir@ == plan.session_dir@,
            c.name_claim@ == path_join(path_join(path_join(self.paths.home@, "sessions"@), ".names"@), plan.name@),
    {
        CleanupPlan {
            root: owned(plan.root.as_str()),
            session_dir: owned(plan.session_dir.as_str()),
            name_claim: self.name_claim_path(plan.name.as_str()),
        }
    }
}

/// The shared seed of the target directory of session `s`'s repository.
pub open spec fn target_seed_of(home: Seq<char>, s: Session) -> Seq<char> {
    path_join(shared_cache_of(home, s), "target-seed"@)
}

/// Promoting then seeding hands a target from one session to another: for
/// two sessions `a` and `b` of one repository, `cache_promote` of `a`
/// copies `a`'s target to the very seed that `cache_seed` of `b` copies
/// into `b`'s target.
pub proof fn promote_then_seed_copies_the_target(home: Seq<char>, a: Session, b: Session)
    requires
        a.repository_id@ == b.repository_id@,
    ensures
        target_seed_of(home, a) == target_seed_of(home, b),
{
}

/// `r` is what running `argv` in session `s` (under the home `home`) gives.
pub open spec fn exec_outcome(r: Result<ExecPlan, SessionError>, s: Session, home: Seq<char>, argv: Seq<Seq<char>>, opts: ExecOptions, host: ExecHost) -> bool {
    &&& r is Ok <==> argv.len() > 0 && crate::runtime::active(s) && host.root_is_dir
    &&& argv.len() == 0 ==> (r matches Err(SessionError::Runtime(RuntimeError::EmptyCommand)))
    &&& argv.len() > 0 && !crate::runtime::active(s) ==> (r matches Err(SessionError::Runtime(RuntimeError::NotActive(n))) && n@ == s.name@)
    &&& argv.len() > 0 && crate::runtime::active(s) && !host.root_is_dir ==> (r matches Err(SessionError::Runtime(RuntimeError::RootMissing(p)))
        && p@ == path_join(path_join(s.session_dir@, "fs"@), "root"@))
    &&& r matches Ok(p) ==> p@ == planned_run(s, shared_cache_of(home, s), session_cache_of(s), argv, opts, host)
}

/// `r` is what archiving session `s` gives.
pub open spec fn archive_outcome(r: Result<ArchivePlan, SessionError>, s: Session, root_mounted: bool, repos: Seq<Repository>, canonical: Option<Seq<char>>) -> bool {
    &&& s.is_archived() ==> (r matches Err(SessionError::AlreadyArchived(n)) && n@ == s.name@)
    &&& !s.is_archived() && !s.recorded_mounted() ==> (r matches Err(SessionError::NotActive(_)))
    &&& !s.is_archived() && s.recorded_mounted() && !root_mounted ==> (r matches Err(SessionError::NotMounted(_)))
    &&& !s.is_archived() && s.recorded_mounted() && root_mounted && none_matches(repos, s.repository_id@, canonical)
        ==> (r matches Err(SessionError::Repository(RepositoryError::NotFound(_))))
    &&& r is Ok <==> !s.is_archived() && s.recorded_mounted() && root_mounted && !none_matches(repos, s.repository_id@, canonical)
    &&& r matches Ok(p) ==> exists|k: int| #[trigger] picks(repos, s.repository_id@, canonical, k) && {
        &&& p.push_args.deep_view() == seq![
            "--git-dir"@,
            path_join(s.session_dir@, "git"@),
            "push"@,
            repos[k].source_path@,
            "HEAD:refs/heads/"@ + s.branch@,
        ]
        &&& p.source@ == repos[k].source_path@
    }
    &&& r matches Ok(p) ==> {
        &&& p.root@ == path_join(path_join(s.session_dir@, "fs"@), "root"@)
        &&& p.backend == s.filesystem.backend
        &&& p.reset_layers.deep_view() == archive_reset_layers(s)
        &&& p.reset_caches.deep_view() == archive_reset_caches(s)
        &&& p.git_dir@ == path_join(s.session_dir@, "git"@)
    }
}

/// A fresh session id: `session_` and twelve random hex characters.
pub fn new_session_id() -> (s: String)
    ensures
        exists|b: Seq<u8>| b.len() == 6 && s@ == "session_"@ + hex_of(b),
{
    let suffix = short_id();
    concat2("session_", suffix.as_str())
}

/// `p` lays out session `p.id` named `name` under the home `home` over
/// `repo`, at `from` (else the repository's base commit), with the mount
/// preferences of `cfg`.
pub open spec fn plans(p: CreatePlan, home: Seq<char>, name: Seq<char>, repo: Repository, from: Option<Seq<char>>, cfg: ConfigFile) -> bool {
    let dir = path_join(path_join(home, "sessions"@), p.id@);
    let fs = path_join(dir, "fs"@);
    &&& exists|b: Seq<u8>| b.len() == 6 && p.id@ == "session_"@ + hex_of(b)
    &&& p.name@ == name
    &&& p.session_dir@ == dir
    &&& p.upper@ == path_join(fs, "upper"@)
    &&& p.work@ == path_join(fs, "work"@)
    &&& p.root@ == path_join(fs, "root"@)
    &&& p.git_dir@ == path_join(dir, "git"@)
    &&& p.runtime_dir@ == path_join(dir, "runtime"@)
    &&& p.semantic.shared@ == path_join(path_join(path_join(home, "repositories"@), repo.id@), "semantic/shared"@)
    &&& p.semantic.session_writable@ == path_join(dir, "semantic/writable"@)
    &&& p.repo_id@ == repo.id@
    &&& p.repo_source@ == repo.source_path@
    &&& p.repo_base_path@ == repo.base_path@
    &&& p.repo_base_commit@ == repo.base_commit@
    &&& p.object_store@ == repo.object_store@
    &&& p.seed_index is None
    &&& p.base_revision@ == (match from { Some(f) => f, None => repo.base_commit@ })
    &&& p.branch@ == "lazytree/"@ + name
    &&& p.preferred == cfg.filesystem_backend
    &&& p.last_working == cfg.last_working_backend
    &&& p.needs_sudo == cfg.mount_needs_sudo
    &&& p.user_name is None
    &&& p.user_email is None
}

impl SessionStore {
    /// Decides everything about a new session named `name` before anything
    /// is written: the name must be valid and neither used by a session in
    /// `sessions` nor reserved (`name_claimed`); the repository is
    /// `repo_ref` looked up in `repos` (`repo_ref_canonical`: it
    /// canonicalized as a path, when it is one), or the only registered one.
    pub fn create(
        &self,
        sessions: &Vec<Session>,
        name: &str,
        name_claimed: bool,
        repos: &Vec<Repository>,
        repo_ref: Option<&str>,
        repo_ref_canonical: Option<&str>,
        from: Option<&str>,
        cfg: &ConfigFile,
    ) -> (r: Result<CreatePlan, SessionError>)
        ensures
            name@.len() == 0 ==> r matches Err(SessionError::EmptyName),
            name@.len() > 0 && !valid_name(name@) ==> r matches Err(SessionError::InvalidName),
            valid_name(name@) && (name_claimed || exists|j: int| 0 <= j < sessions@.len() && #[trigger] sessions@[j].name@ == name@)
                ==> (r matches Err(SessionError::NameExists(n)) && n@ == name@),
            r is Ok <==> valid_name(name@) && !name_claimed
                && (forall|j: int| 0 <= j < sessions@.len() ==> #[trigger] sessions@[j].name@ != name@)
                && match repo_ref {
                    Some(rr) => !none_matches(repos@, rr@, opt_str(repo_ref_canonical)),
                    None => repos@.len() == 1,
                },
            valid_name(name@) && !name_claimed && (forall|j: int| 0 <= j < sessions@.len() ==> #[trigger] sessions@[j].name@ != name@) && repo_ref is None ==> {
                &&& repos@.len() == 0 ==> (r matches Err(SessionError::NoRepositories))
                &&& repos@.len() > 1 ==> (r matches Err(SessionError::MultipleRepositories))
            },
            r matches Ok(p) ==> exists|k: int| 0 <= k < repos@.len()
                && (match repo_ref {
                    Some(rr) => picks(repos@, rr@, opt_str(repo_ref_canonical), k),
                    None => k == 0,
                })
                && #[trigger] plans(p, self.paths.home@, name@, repos@[k], opt_str(from), *cfg),
    {
        if let Err(e) = validate_name(name) {
            return Err(e);
        }
        if name_claimed || find_by_name(sessions, name).is_some() {
            return Err(SessionError::NameExists(owned(name)));
        }
        let k: usize = match repo_ref {
            Some(rr) => match self.repos.get(repos, rr, repo_ref_canonical) {
                Ok(k) => k,
                Err(e) => return Err(SessionError::Repository(e)),
            },
            None => {
                if repos.len() == 0 {
                    return Err(SessionError::NoRepositories);
                }
                if repos.len() > 1 {
                    return Err(SessionError::MultipleRepositories);
                }
                0
            },
        };
        let repo = &repos[k];
        let id = new_session_id();
        let session_dir = self.paths.session_dir(id.as_str());
        let fs = path_join_exec(session_dir.as_str(), "fs");
        let repo_dir = self.paths.repo_dir(repo.id.as_str());
        let base_revision = match from {
            Some(f) => owned(f),
            None => owned(repo.base_commit.as_str()),
        };
        let plan = CreatePlan {
            upper: path_join_exec(fs.as_str(), "upper"),
            work: path_join_exec(fs.as_str(), "work"),
            root: path_join_exec(fs.as_str(), "root"),
            git_dir: path_join_exec(session_dir.as_str(), "git"),
            runtime_dir: path_join_exec(session_dir.as_str(), "runtime"),
            semantic: SemanticPaths::for_session(repo_dir.as_str(), session_dir.as_str()),
            id,
            name: owned(name),
            session_dir,
            repo_id: owned(repo.id.as_str()),
            repo_source: owned(repo.source_path.as_str()),
            repo_base_path: owned(repo.base_path.as_str()),
            repo_base_commit: owned(repo.base_commit.as_str()),
            object_store: owned(repo.object_store.as_str()),
            seed_index: None,
            base_revision,
            branch: concat2("lazytree/", name),
            preferred: cfg.filesystem_backend,
            last_working: cfg.last_working_backend,
            needs_sudo: cfg.mount_needs_sudo,
            user_name: None,
            user_email: None,
        };
        assert(plans(plan, self.paths.home@, name@, repos@[k as int], opt_str(from), *cfg));
        Ok(plan)
    }
}

proof fn lemma_join_distinct(base: Seq<char>, a: Seq<char>, b: Seq<char>)
    requires
        a != b,
        a.len() > 0 && a[0] != '/',
        b.len() > 0 && b[0] != '/',
    ensures
        path_join(base, a) != path_join(base, b),
        path_join(base, a).len() > 0 && path_join(base, a).last() == a.last(),
{
    let pre = if base.len() == 0 || base.last() == '/' { base } else { base + seq!['/'] };
    assert(path_join(base, a) =~= pre + a);
    assert(path_join(base, b) =~= pre + b);
    if a.len() == b.len() {
        assert(exists|i: int| 0 <= i < a.len() && a[i] != b[i]) by {
            if !(exists|i: int| 0 <= i < a.len() && a[i] != b[i]) {
                assert(a =~= b);
            }
        }
        let i = choose|i: int| 0 <= i < a.len() && a[i] != b[i];
        assert((pre + a)[pre.len() + i] == a[i]);
        assert((pre + b)[pre.len() + i] == b[i]);
    } else {
        assert((pre + a).len() != (pre + b).len());
    }
}

proof fn lemma_join_suffix_distinct(x: Seq<char>, y: Seq<char>, c: Seq<char>)
    requires
        x != y,
        x.len() > 0 && x.last() != '/',
        y.len() > 0 && y.last() != '/',
        c.len() > 0 && c[0] != '/',
    ensures
        path_join(x, c) != path_join(y, c),
        path_join(x, c).last() == c.last(),
        path_join(y, c).last() == c.last(),
{
    assert(path_join(x, c) =~= x + (seq!['/'] + c));
    assert(path_join(y, c) =~= y + (seq!['/'] + c));
    if x.len() == y.len() {
        assert(exists|i: int| 0 <= i < x.len() && x[i] != y[i]) by {
            if !(exists|i: int| 0 <= i < x.len() && x[i] != y[i]) {
                assert(x =~= y);
            }
        }
        let i = choose|i: int| 0 <= i < x.len() && x[i] != y[i];
        assert((x + (seq!['/'] + c))[i] == x[i]);
        assert((y + (seq!['/'] + c))[i] == y[i]);
    } else {
        assert((x + (seq!['/'] + c)).len() != (y + (seq!['/'] + c)).len());
    }
}

proof fn lemma_session_id_shape(b: Seq<u8>)
    requires
        b.len() == 6,
    ensures
        ("session_"@ + hex_of(b)).len() > 0,
        ("session_"@ + hex_of(b))[0] == 's',
        ("session_"@ + hex_of(b)).last() != '/',
{
    reveal_strlit("session_");
    let h = hex_of(b);
    let d = (b.last() % 16) as nat;
    assert(h.last() == hex_digit(d));
    let c = hex_digit(d);
    assert(c != '/') by {
        if d < 10 {
            assert(((48 + d) as u8) as u32 == 48 + d);
            assert(c as u32 == 48 + d);
        } else {
            assert(((87 + d) as u8) as u32 == 87 + d);
            assert(c as u32 == 87 + d);
        }
        assert('/' as u32 == 47);
    }
    assert(("session_"@ + h).last() == h.last());
}

/// Two sessions with different ids share no directory: their session
/// directories, layers, roots, Git directories, runtime directories and
/// writable caches all differ.
pub proof fn sessions_do_not_share_directories(
    p1: CreatePlan, p2: CreatePlan, home: Seq<char>,
    n1: Seq<char>, n2: Seq<char>, r1: Repository, r2: Repository,
    f1: Option<Seq<char>>, f2: Option<Seq<char>>, c1: ConfigFile, c2: ConfigFile,
)
    requires
        plans(p1, home, n1, r1, f1, c1),
        plans(p2, home, n2, r2, f2, c2),
        p1.id@ != p2.id@,
    ensures
        p1.session_dir@ != p2.session_dir@,
        p1.upper@ != p2.upper@,
        p1.work@ != p2.work@,
        p1.root@ != p2.root@,
        p1.git_dir@ != p2.git_dir@,
        p1.runtime_dir@ != p2.runtime_dir@,
        p1.semantic.session_writable@ != p2.semantic.session_writable@,
{
    let b1 = choose|b: Seq<u8>| b.len() == 6 && p1.id@ == "session_"@ + hex_of(b);
    let b2 = choose|b: Seq<u8>| b.len() == 6 && p2.id@ == "session_"@ + hex_of(b);
    lemma_session_id_shape(b1);
    lemma_session_id_shape(b2);
    let base = path_join(home, "sessions"@);
    lemma_join_distinct(base, p1.id@, p2.id@);
    let d1 = p1.session_dir@;
    let d2 = p2.session_dir@;
    reveal_strlit("fs");
    reveal_strlit("git");
    reveal_strlit("runtime");
    reveal_strlit("semantic/writable");
    reveal_strlit("upper");
    reveal_strlit("work");
    reveal_strlit("root");
    lemma_join_suffix_distinct(d1, d2, "fs"@);
    lemma_join_suffix_distinct(d1, d2, "git"@);
    lemma_join_suffix_distinct(d1, d2, "runtime"@);
    lemma_join_suffix_distinct(d1, d2, "semantic/writable"@);
    let fs1 = path_join(d1, "fs"@);
    let fs2 = path_join(d2, "fs"@);
    lemma_join_suffix_distinct(fs1, fs2, "upper"@);
    lemma_join_suffix_distinct(fs1, fs2, "work"@);
    lemma_join_suffix_distinct(fs1, fs2, "root"@);
}

/// An archived session is left alone: `archive` refuses it, `destroy`
/// removes it without looking for unsaved work, and nothing runs in it.
pub proof fn archived_session_is_inert(s: Session)
    requires
        s.is_archived(),
    ensures
        forall|r: Result<ArchivePlan, SessionError>, m: bool, repos: Seq<Repository>, c: Option<Seq<char>>|
            #[trigger] archive_outcome(r, s, m, repos, c) ==> (r matches Err(SessionError::AlreadyArchived(n)) && n@ == s.name@),
        !crate::runtime::active(s),
        forall|force: bool| !#[trigger] checks_for_unsaved(s, force),
{
}

/// A file-system node under a session's upper layer, as the caller found
/// it: a file with its length, a directory with its entries, or anything
/// else.
#[derive(Debug)]
pub struct StatEntry {
    pub is_file: bool,
    pub is_dir: bool,
    pub len: u64,
    pub children: Vec<StatEntry>,
}

/// Files and bytes under one node.
pub open spec fn entry_totals(e: StatEntry) -> (nat, nat)
    decreases e, 0int,
{
    if e.is_file {
        (1, e.len as nat)
    } else if e.is_dir {
        forest_totals(e.children@)
    } else {
        (0, 0)
    }
}

/// Files and bytes under a list of nodes.
pub open spec fn forest_totals(es: Seq<StatEntry>) -> (nat, nat)
    decreases es, 1int,
{
    if es.len() == 0 {
        (0, 0)
    } else {
        let a = entry_totals(es[0]);
        let b = forest_totals(es.drop_first());
        (a.0 + b.0, a.1 + b.1)
    }
}

fn stat_entry(e: &StatEntry, files: &mut u64, bytes: &mut u64)
    requires
        *old(files) + entry_totals(*e).0 <= u64::MAX,
        *old(bytes) + entry_totals(*e).1 <= u64::MAX,
    ensures
        *final(files) == *old(files) + entry_totals(*e).0,
        *final(bytes) == *old(bytes) + entry_totals(*e).1,
    decreases e, 0int,
{
    if e.is_file {
        *files = *files + 1;
        *bytes = *bytes + e.len;
    } else if e.is_dir {
        proof {
            assert(decreases_to!(e => e.children));
        }
        stat_forest(&e.children, files, bytes);
    }
}

fn stat_forest(es: &Vec<StatEntry>, files: &mut u64, bytes: &mut u64)
    requires
        *old(files) + forest_totals(es@).0 <= u64::MAX,
        *old(bytes) + forest_totals(es@).1 <= u64::MAX,
    ensures
        *final(files) == *old(files) + forest_totals(es@).0,
        *final(bytes) == *old(bytes) + forest_totals(es@).1,
    decreases es, 1int,
{
    let ghost f0 = *files;
    let ghost b0 = *bytes;
    let mut i: usize = 0;
    assert(es@.skip(0) =~= es@);
    while i < es.len()
        invariant
            i <= es@.len(),
            f0 + forest_totals(es@).0 <= u64::MAX,
            b0 + forest_totals(es@).1 <= u64::MAX,
            *files + forest_totals(es@.skip(i as int)).0 == f0 + forest_totals(es@).0,
            *bytes + forest_totals(es@.skip(i as int)).1 == b0 + forest_totals(es@).1,
        decreases es.len() - i,
    {
        proof {
            assert(es@.skip(i as int).drop_first() =~= es@.skip(i + 1));
            assert(es@.skip(i as int)[0] == es@[i as int]);
            assert(decreases_to!(es => es@[i as int]));
        }
        stat_entry(&es[i], files, bytes);
        i = i + 1;
    }
    assert(es@.skip(i as int) =~= Seq::<StatEntry>::empty());
}

/// Files and bytes under the upper layer (`None` when it does not exist).
pub fn dir_stats(upper: &Option<StatEntry>) -> (r: (u64, u64))
    requires
        upper matches Some(e) ==> entry_totals(*e).0 <= u64::MAX && entry_totals(*e).1 <= u64::MAX,
    ensures
        r == match upper {
            Some(e) => (entry_totals(*e).0 as u64, entry_totals(*e).1 as u64),
            None => (0u64, 0u64),
        },
{
    let mut files: u64 = 0;
    let mut bytes: u64 = 0;
    if let Some(e) = upper {
        stat_entry(e, &mut files, &mut bytes);
    }
    (files, bytes)
}

} // verus!
