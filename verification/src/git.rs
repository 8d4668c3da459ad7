//! Session-local Git metadata sharing the registered repository's objects.
//!
//! Setting up a session's Git directory alternates file work and `git` runs
//! with decisions; [`GitProcedure`] holds the decisions: the caller performs
//! each [`GitAction`] and answers with a [`GitEvent`].
use vstd::prelude::*;
use crate::metadata::{path_join, path_join_exec};
use crate::text::{chars_of, owned, concat2, concat3, push_str, trimmed, trim_str};
use crate::fsmonitor::{chars_eq, starts_with_chars};

verus! {

/// What a session's Git setup needs.
#[derive(Debug)]
pub struct GitSetup {
    pub git_dir: String,
    pub work_tree: String,
    pub branch: String,
    pub base_revision: String,
    pub object_store: String,
    /// Optional prebuilt index matching `base_revision`'s tree, copied into the
    /// session Git directory when the resolved commit is the seed's commit.
    pub seed_index: Option<String>,
    /// Commit the seed index was built for (usually the registered base).
    pub seed_commit: Option<String>,
    pub user_name: Option<String>,
    pub user_email: Option<String>,
}

/// Arguments of the `git` run that reads `key` from the configuration of
/// the checkout at `repo`.
pub fn config_read_args(repo: &str, key: &str) -> (v: Vec<String>)
    ensures
        v.deep_view() == seq!["-C"@, repo@, "config"@, key@],
{
    let v = vec![owned("-C"), owned(repo), owned("config"), owned(key)];
    assert(v.deep_view() =~= seq!["-C"@, repo@, "config"@, key@]);
    v
}

/// The value a `git config <key>` run reports: its trimmed output when it
/// succeeded with a non-blank one, else none (the key is unset).
pub fn config_value(success: bool, stdout: &str) -> (r: Option<String>)
    ensures
        r matches Some(v) ==> v@ == trimmed(stdout@),
        r is Some <==> success && trimmed(stdout@).len() > 0,
{
    if !success {
        return None;
    }
    let t = trim_str(stdout);
    let n = chars_of(t.as_str()).len();
    if n == 0 {
        None
    } else {
        Some(t)
    }
}

impl Clone for GitSetup {
    fn clone(&self) -> (r: Self)
        ensures
            r == *self,
    {
        GitSetup {
            git_dir: self.git_dir.clone(),
            work_tree: self.work_tree.clone(),
            branch: self.branch.clone(),
            base_revision: self.base_revision.clone(),
            object_store: self.object_store.clone(),
            seed_index: self.seed_index.clone(),
            seed_commit: self.seed_commit.clone(),
            user_name: self.user_name.clone(),
            user_email: self.user_email.clone(),
        }
    }
}

/// An ASCII hexadecimal digit.
pub open spec fn is_hex_char(c: char) -> bool {
    ('0' <= c && c <= '9') || ('a' <= c && c <= 'f') || ('A' <= c && c <= 'F')
}

/// Forty hexadecimal digits: a full object id.
pub open spec fn full_oid(s: Seq<char>) -> bool {
    s.len() == 40 && forall|i: int| 0 <= i < 40 ==> is_hex_char(#[trigger] s[i])
}

/// One of the two is a prefix of the other.
pub open spec fn prefix_related(seed: Seq<char>, base: Seq<char>) -> bool {
    base.is_prefix_of(seed) || seed.is_prefix_of(base)
}

/// Whether the text is a full (40 hex digit) object id.
pub fn looks_like_full_oid(s: &str) -> (b: bool)
    ensures
        b == full_oid(s@),
{
    let cs = chars_of(s);
    if cs.len() != 40 {
        return false;
    }
    let mut i: usize = 0;
    while i < 40
        invariant
            cs@ == s@,
            cs@.len() == 40,
            i <= 40,
            forall|j: int| 0 <= j < i ==> is_hex_char(#[trigger] cs@[j]),
        decreases 40 - i,
    {
        let c = cs[i];
        if !(('0' <= c && c <= '9') || ('a' <= c && c <= 'f') || ('A' <= c && c <= 'F')) {
            return false;
        }
        i = i + 1;
    }
    true
}

/// Whether `seed` and `base` abbreviate one another.
pub fn seed_matches_short(seed: &str, base: &str) -> (b: bool)
    ensures
        b == prefix_related(seed@, base@),
{
    let s = chars_of(seed);
    let t = chars_of(base);
    let r = starts_with_chars(&s, &t) || starts_with_chars(&t, &s);
    proof {
        assert(t@.is_prefix_of(s@) <==> (s@.len() >= t@.len() && s@.take(t@.len() as int) == t@));
        assert(s@.is_prefix_of(t@) <==> (t@.len() >= s@.len() && t@.take(s@.len() as int) == s@));
    }
    r
}

/// Whether the seed index can serve for the commit `base`: it exists as a
/// file, and its commit is `base` or abbreviates it (or the reverse).
pub open spec fn seed_usable(cfg: GitSetup, seed_is_file: bool, base: Seq<char>) -> bool {
    &&& cfg.seed_index is Some
    &&& seed_is_file
    &&& cfg.seed_commit matches Some(c) && (c@ == base || prefix_related(c@, base))
}

/// The fast path: a full object id as base and a usable seed index for it,
/// so that no `git` process runs.
pub open spec fn fast_path(cfg: GitSetup, seed_is_file: bool) -> bool {
    full_oid(cfg.base_revision@) && seed_usable(cfg, seed_is_file, cfg.base_revision@)
}

/// `git_dir/objects/info/alternates`.
pub open spec fn alternates_path(git_dir: Seq<char>) -> Seq<char> {
    path_join(git_dir, "objects/info/alternates"@)
}

/// `refs/heads/<branch>`.
pub open spec fn branch_ref(branch: Seq<char>) -> Seq<char> {
    "refs/heads/"@ + branch
}

/// The session configuration written to `git_dir/config`, for the absolute
/// work tree `work_tree`.
pub open spec fn session_config_spec(work_tree: Seq<char>, user_name: Option<Seq<char>>, user_email: Option<Seq<char>>) -> Seq<char> {
    "[core]\n\trepositoryformatversion = 0\n\tfilemode = true\n\tbare = false\n\tlogallrefupdates = true\n\tworktree = "@
        + work_tree + "\n"@ + (if user_name is Some || user_email is Some {
        "[user]\n"@ + (match user_name {
            Some(n) => "\tname = "@ + n + "\n"@,
            None => Seq::empty(),
        }) + (match user_email {
            Some(e) => "\temail = "@ + e + "\n"@,
            None => Seq::empty(),
        })
    } else {
        Seq::empty()
    })
}

/// The session configuration body for the absolute work tree `work_tree`.
pub fn session_config_body(work_tree: &str, user_name: Option<&str>, user_email: Option<&str>) -> (s: String)
    ensures
        s@ == session_config_spec(
            work_tree@,
            match user_name { Some(n) => Some(n@), None => None },
            match user_email { Some(e) => Some(e@), None => None },
        ),
{
    let mut body = owned("[core]\n\trepositoryformatversion = 0\n\tfilemode = true\n\tbare = false\n\tlogallrefupdates = true\n\tworktree = ");
    push_str(&mut body, work_tree);
    push_str(&mut body, "\n");
    let ghost core = body@;
    if user_name.is_some() || user_email.is_some() {
        push_str(&mut body, "[user]\n");
        let ghost u = body@;
        if let Some(n) = user_name {
            push_str(&mut body, "\tname = ");
            push_str(&mut body, n);
            push_str(&mut body, "\n");
        }
        let ghost un = body@;
        if let Some(e) = user_email {
            push_str(&mut body, "\temail = ");
            push_str(&mut body, e);
            push_str(&mut body, "\n");
        }
        proof {
            let nv = match user_name { Some(n) => "\tname = "@ + n@ + "\n"@, None => Seq::<char>::empty() };
            let ev = match user_email { Some(e) => "\temail = "@ + e@ + "\n"@, None => Seq::<char>::empty() };
            assert(un =~= u + nv);
            assert(body@ =~= un + ev);
            assert(body@ =~= core + ("[user]\n"@ + nv + ev));
        }
    } else {
        assert(body@ =~= core + Seq::<char>::empty());
    }
    body
}

/// The `.git` file in the work tree pointing at the absolute Git directory.
pub fn gitdir_pointer_body(abs_git_dir: &str) -> (s: String)
    ensures
        s@ == "gitdir: "@ + abs_git_dir@ + "\n"@,
{
    concat3("gitdir: ", abs_git_dir, "\n")
}

/// Why the Git setup failed.
#[derive(Debug)]
pub enum GitError {
    /// The shared object store is not a directory.
    ObjectStoreMissing(String),
    /// The object store could not be canonicalized.
    Canonicalize(String),
    /// A file operation failed (its message).
    Io(String),
    /// `git` with these arguments exited unsuccessfully (trimmed stderr).
    GitFailed { args: Vec<String>, stderr: String },
}

/// Where a Git setup stands.
#[derive(Clone, Copy, Debug, PartialEq, Eq, Structural)]
pub enum GitPhase {
    Start,
    Preparing,
    FastAlternates,
    FastBranchRef,
    FastHead,
    FastIndex,
    SlowAlternates,
    Init,
    SlowAlternatesAgain,
    Resolving,
    UpdateRef,
    SymbolicRef,
    SeedIndex,
    TreeParse,
    ReadTree,
    Config,
    Pointer,
    Finished,
}

/// What the caller must do next.
#[derive(Debug)]
pub enum GitAction {
    /// Create `git_dir`, `git_dir/objects/info` and `git_dir/refs/heads`,
    /// then report whether the object store is a directory, its canonical
    /// path, and whether the seed index is a file.
    Prepare,
    /// Write `contents` to `path`, creating its parent directories.
    WriteFile { path: String, contents: String },
    /// Run `git --git-dir <git_dir>` with these arguments.
    RunGit(Vec<String>),
    /// Copy the seed index to `dst` (a reflink where possible).
    CopyIndex { src: String, dst: String },
    /// Write `git_dir/config` with `session_config_body`, for the work tree
    /// canonicalized (or as given when that fails).
    WriteConfig,
    /// Replace the work tree's `.git` with `gitdir_pointer_body` of the
    /// canonical Git directory.
    WritePointer,
    /// The session's Git metadata is ready.
    Finished,
    Failed(GitError),
}

/// What the caller observed.
#[derive(Debug)]
pub enum GitEvent {
    Begin,
    Prepared { object_store_is_dir: bool, abs_objects: Option<String>, seed_index_is_file: bool },
    /// The last file action succeeded.
    Done,
    /// The last action could not be carried out (its message).
    IoFailed(String),
    GitRan { success: bool, stdout: String, stderr: String },
}

/// An action with its text taken by value.
pub enum GitActionView {
    Prepare,
    WriteFile(Seq<char>, Seq<char>),
    RunGit(Seq<Seq<char>>),
    CopyIndex(Seq<char>, Seq<char>),
    WriteConfig,
    WritePointer,
    Finished,
    ObjectStoreMissing(Seq<char>),
    Canonicalize(Seq<char>),
    Io(Seq<char>),
    GitFailed(Seq<Seq<char>>, Seq<char>),
}

impl GitAction {
    pub open spec fn view(&self) -> GitActionView {
        match self {
            GitAction::Prepare => GitActionView::Prepare,
            GitAction::WriteFile { path, contents } => GitActionView::WriteFile(path@, contents@),
            GitAction::RunGit(args) => GitActionView::RunGit(args.deep_view()),
            GitAction::CopyIndex { src, dst } => GitActionView::CopyIndex(src@, dst@),
            GitAction::WriteConfig => GitActionView::WriteConfig,
            GitAction::WritePointer => GitActionView::WritePointer,
            GitAction::Finished => GitActionView::Finished,
            GitAction::Failed(GitError::ObjectStoreMissing(p)) => GitActionView::ObjectStoreMissing(p@),
            GitAction::Failed(GitError::Canonicalize(p)) => GitActionView::Canonicalize(p@),
            GitAction::Failed(GitError::Io(m)) => GitActionView::Io(m@),
            GitAction::Failed(GitError::GitFailed { args, stderr }) => GitActionView::GitFailed(args.deep_view(), stderr@),
        }
    }
}

/// The state of a setup beyond its configuration, taken by value.
pub struct GitState {
    pub phase: GitPhase,
    pub seed_is_file: bool,
    pub abs_objects: Seq<char>,
    pub base: Seq<char>,
    pub running: Seq<Seq<char>>,
}

/// A session Git setup in progress.
#[derive(Debug)]
pub struct GitProcedure {
    pub cfg: GitSetup,
    pub phase: GitPhase,
    pub seed_is_file: bool,
    /// Canonical path of the object store, once known.
    pub abs_objects: String,
    /// The commit the branch starts at, once known.
    pub base: String,
    /// Arguments of the `git` command in flight.
    pub running: Vec<String>,
}

/// The arguments of `git update-ref refs/heads/<branch> <base>`.
pub open spec fn update_ref_args(branch: Seq<char>, base: Seq<char>) -> Seq<Seq<char>> {
    seq!["update-ref"@, branch_ref(branch), base]
}

/// The arguments of `git symbolic-ref HEAD refs/heads/<branch>`.
pub open spec fn symbolic_ref_args(branch: Seq<char>) -> Seq<Seq<char>> {
    seq!["symbolic-ref"@, "HEAD"@, branch_ref(branch)]
}

/// The arguments of `git rev-parse --verify <rev>`.
pub open spec fn rev_parse_args(rev: Seq<char>) -> Seq<Seq<char>> {
    seq!["rev-parse"@, "--verify"@, rev]
}

impl GitProcedure {
    pub open spec fn state(self) -> GitState {
        GitState {
            phase: self.phase,
            seed_is_file: self.seed_is_file,
            abs_objects: self.abs_objects@,
            base: self.base@,
            running: self.running.deep_view(),
        }
    }

    /// The fast-path phases are entered only when the fast path applies.
    pub open spec fn well_formed(self) -> bool {
        (self.phase is FastAlternates || self.phase is FastBranchRef || self.phase is FastHead
            || self.phase is FastIndex) ==> fast_path(self.cfg, self.seed_is_file)
    }

    /// Whether `event` answers the last action.
    pub open spec fn accepts(self, event: GitEvent) -> bool {
        &&& self.well_formed()
        &&& match self.phase {
            GitPhase::Start => event is Begin,
            GitPhase::Preparing => event is Prepared,
            GitPhase::FastAlternates | GitPhase::FastBranchRef | GitPhase::FastHead | GitPhase::FastIndex
            | GitPhase::SlowAlternates | GitPhase::SlowAlternatesAgain | GitPhase::SeedIndex | GitPhase::Config
            | GitPhase::Pointer => event is Done || event is IoFailed,
            GitPhase::Init | GitPhase::Resolving | GitPhase::UpdateRef | GitPhase::SymbolicRef | GitPhase::TreeParse
            | GitPhase::ReadTree => event is GitRan || event is IoFailed,
            GitPhase::Finished => false,
        }
    }

    /// The next state and action after `event`, given `st` (this procedure's
    /// state).
    pub open spec fn next_spec(self, st: GitState, event: GitEvent) -> (GitState, GitActionView) {
        let cfg = self.cfg;
        let fin = GitState { phase: GitPhase::Finished, ..st };
        match event {
            GitEvent::IoFailed(m) => (fin, GitActionView::Io(m@)),
            GitEvent::Begin => (GitState { phase: GitPhase::Preparing, ..st }, GitActionView::Prepare),
            GitEvent::Prepared { object_store_is_dir, abs_objects, seed_index_is_file } => {
                if !object_store_is_dir {
                    (fin, GitActionView::ObjectStoreMissing(cfg.object_store@))
                } else {
                    match abs_objects {
                        None => (fin, GitActionView::Canonicalize(cfg.object_store@)),
                        Some(a) => (
                            GitState {
                                phase: if fast_path(cfg, seed_index_is_file) {
                                    GitPhase::FastAlternates
                                } else {
                                    GitPhase::SlowAlternates
                                },
                                seed_is_file: seed_index_is_file,
                                abs_objects: a@,
                                ..st
                            },
                            GitActionView::WriteFile(alternates_path(cfg.git_dir@), a@ + "\n"@),
                        ),
                    }
                }
            },
            GitEvent::Done => match st.phase {
                GitPhase::FastAlternates => (
                    GitState { phase: GitPhase::FastBranchRef, ..st },
                    GitActionView::WriteFile(
                        path_join(path_join(cfg.git_dir@, "refs/heads"@), cfg.branch@),
                        cfg.base_revision@ + "\n"@,
                    ),
                ),
                GitPhase::FastBranchRef => (
                    GitState { phase: GitPhase::FastHead, ..st },
                    GitActionView::WriteFile(
                        path_join(cfg.git_dir@, "HEAD"@),
                        "ref: "@ + branch_ref(cfg.branch@) + "\n"@,
                    ),
                ),
                GitPhase::FastHead => (
                    GitState { phase: GitPhase::FastIndex, ..st },
                    GitActionView::CopyIndex(cfg.seed_index->0@, path_join(cfg.git_dir@, "index"@)),
                ),
                GitPhase::SlowAlternates => (
                    GitState { phase: GitPhase::Init, running: seq!["init"@, "--quiet"@], ..st },
                    GitActionView::RunGit(seq!["init"@, "--quiet"@]),
                ),
                GitPhase::SlowAlternatesAgain => if full_oid(cfg.base_revision@) {
                    (
                        GitState {
                            phase: GitPhase::UpdateRef,
                            base: cfg.base_revision@,
                            running: update_ref_args(cfg.branch@, cfg.base_revision@),
                            ..st
                        },
                        GitActionView::RunGit(update_ref_args(cfg.branch@, cfg.base_revision@)),
                    )
                } else {
                    (
                        GitState {
                            phase: GitPhase::Resolving,
                            running: rev_parse_args(cfg.base_revision@),
                            ..st
                        },
                        GitActionView::RunGit(rev_parse_args(cfg.base_revision@)),
                    )
                },
                GitPhase::FastIndex | GitPhase::SeedIndex => (
                    GitState { phase: GitPhase::Config, ..st },
                    GitActionView::WriteConfig,
                ),
                GitPhase::Config => (GitState { phase: GitPhase::Pointer, ..st }, GitActionView::WritePointer),
                _ => (fin, GitActionView::Finished),
            },
            GitEvent::GitRan { success, stdout, stderr } => if !success {
                (fin, GitActionView::GitFailed(st.running, trimmed(stderr@)))
            } else {
                match st.phase {
                    GitPhase::Init => (
                        GitState { phase: GitPhase::SlowAlternatesAgain, ..st },
                        GitActionView::WriteFile(alternates_path(cfg.git_dir@), st.abs_objects + "\n"@),
                    ),
                    GitPhase::Resolving => (
                        GitState {
                            phase: GitPhase::UpdateRef,
                            base: trimmed(stdout@),
                            running: update_ref_args(cfg.branch@, trimmed(stdout@)),
                            ..st
                        },
                        GitActionView::RunGit(update_ref_args(cfg.branch@, trimmed(stdout@))),
                    ),
                    GitPhase::UpdateRef => (
                        GitState { phase: GitPhase::SymbolicRef, running: symbolic_ref_args(cfg.branch@), ..st },
                        GitActionView::RunGit(symbolic_ref_args(cfg.branch@)),
                    ),
                    GitPhase::SymbolicRef => if seed_usable(cfg, st.seed_is_file, st.base) {
                        (
                            GitState { phase: GitPhase::SeedIndex, ..st },
                            GitActionView::CopyIndex(cfg.seed_index->0@, path_join(cfg.git_dir@, "index"@)),
                        )
                    } else {
                        (
                            GitState { phase: GitPhase::TreeParse, running: rev_parse_args(st.base + "^{tree}"@), ..st },
                            GitActionView::RunGit(rev_parse_args(st.base + "^{tree}"@)),
                        )
                    },
                    GitPhase::TreeParse => (
                        GitState { phase: GitPhase::ReadTree, running: seq!["read-tree"@, trimmed(stdout@)], ..st },
                        GitActionView::RunGit(seq!["read-tree"@, trimmed(stdout@)]),
                    ),
                    _ => (GitState { phase: GitPhase::Config, ..st }, GitActionView::WriteConfig),
                }
            },
        }
    }

    /// A setup of `cfg` that has not started.
    pub fn new(cfg: GitSetup) -> (p: Self)
        ensures
            p.cfg == cfg,
            p.phase == GitPhase::Start,
            p.running@.len() == 0,
            p.well_formed(),
    {
        GitProcedure {
            cfg,
            phase: GitPhase::Start,
            seed_is_file: false,
            abs_objects: String::new(),
            base: String::new(),
            running: Vec::new(),
        }
    }

    fn fast(&self, seed_is_file: bool) -> (b: bool)
        ensures
            b == fast_path(self.cfg, seed_is_file),
    {
        looks_like_full_oid(self.cfg.base_revision.as_str()) && self.usable(seed_is_file, self.cfg.base_revision.as_str())
    }

    fn usable(&self, seed_is_file: bool, base: &str) -> (b: bool)
        ensures
            b == seed_usable(self.cfg, seed_is_file, base@),
    {
        if self.cfg.seed_index.is_none() || !seed_is_file {
            return false;
        }
        match &self.cfg.seed_commit {
            Some(c) => {
                let x = chars_of(c.as_str());
                let y = chars_of(base);
                chars_eq(&x, &y) || seed_matches_short(c.as_str(), base)
            },
            None => false,
        }
    }

    fn run(&mut self, args: Vec<String>) -> (a: GitAction)
        ensures
            final(self).cfg == old(self).cfg,
            final(self).phase == old(self).phase,
            final(self).seed_is_file == old(self).seed_is_file,
            final(self).abs_objects == old(self).abs_objects,
            final(self).base == old(self).base,
            final(self).running.deep_view() == args.deep_view(),
            a@ == GitActionView::RunGit(args.deep_view()),
    {
        self.running = clone_args(&args);
        GitAction::RunGit(args)
    }

    /// Advances the setup on `event` and returns the next action.
    pub fn step(&mut self, event: GitEvent) -> (a: GitAction)
        requires
            old(self).accepts(event),
        ensures
            final(self).cfg == old(self).cfg,
            final(self).well_formed(),
            (final(self).state(), a@) == old(self).next_spec(old(self).state(), event),
    {
        let ghost st0 = self.state();
        match event {
            GitEvent::IoFailed(m) => {
                self.phase = GitPhase::Finished;
                let a = GitAction::Failed(GitError::Io(m));
                assert(self.state() == GitState { phase: GitPhase::Finished, ..st0 });
                assert(a@ == GitActionView::Io(m@));
                a
            },
            GitEvent::Begin => {
                self.phase = GitPhase::Preparing;
                GitAction::Prepare
            },
            GitEvent::Prepared { object_store_is_dir, abs_objects, seed_index_is_file } => {
                if !object_store_is_dir {
                    self.phase = GitPhase::Finished;
                    return GitAction::Failed(GitError::ObjectStoreMissing(self.cfg.object_store.clone()));
                }
                match abs_objects {
                    None => {
                        self.phase = GitPhase::Finished;
                        GitAction::Failed(GitError::Canonicalize(self.cfg.object_store.clone()))
                    },
                    Some(a) => {
                        let fast = self.fast(seed_index_is_file);
                        self.phase = if fast { GitPhase::FastAlternates } else { GitPhase::SlowAlternates };
                        self.seed_is_file = seed_index_is_file;
                        let contents = concat2(a.as_str(), "\n");
                        self.abs_objects = a;
                        GitAction::WriteFile {
                            path: path_join_exec(self.cfg.git_dir.as_str(), "objects/info/alternates"),
                            contents,
                        }
                    },
                }
            },
            GitEvent::Done => match self.phase {
                GitPhase::FastAlternates => {
                    self.phase = GitPhase::FastBranchRef;
                    let heads = path_join_exec(self.cfg.git_dir.as_str(), "refs/heads");
                    GitAction::WriteFile {
                        path: path_join_exec(heads.as_str(), self.cfg.branch.as_str()),
                        contents: concat2(self.cfg.base_revision.as_str(), "\n"),
                    }
                },
                GitPhase::FastBranchRef => {
                    self.phase = GitPhase::FastHead;
                    let r = head_ref(self.cfg.branch.as_str());
                    let contents = concat3("ref: ", r.as_str(), "\n");
                    GitAction::WriteFile { path: path_join_exec(self.cfg.git_dir.as_str(), "HEAD"), contents }
                },
                GitPhase::FastHead => {
                    self.phase = GitPhase::FastIndex;
                    let src = match &self.cfg.seed_index {
                        Some(s) => owned(s.as_str()),
                        None => String::new(),
                    };
                    GitAction::CopyIndex { src, dst: path_join_exec(self.cfg.git_dir.as_str(), "index") }
                },
                GitPhase::SlowAlternates => {
                    self.phase = GitPhase::Init;
                    let args = vec![owned("init"), owned("--quiet")];
                    proof {
                        assert(args.deep_view() =~= seq!["init"@, "--quiet"@]);
                    }
                    self.run(args)
                },
                GitPhase::SlowAlternatesAgain => {
                    if looks_like_full_oid(self.cfg.base_revision.as_str()) {
                        self.phase = GitPhase::UpdateRef;
                        self.base = self.cfg.base_revision.clone();
                        let args = update_ref_cmd(self.cfg.branch.as_str(), self.cfg.base_revision.as_str());
                        self.run(args)
                    } else {
                        self.phase = GitPhase::Resolving;
                        let args = rev_parse_cmd(self.cfg.base_revision.as_str());
                        self.run(args)
                    }
                },
                GitPhase::FastIndex | GitPhase::SeedIndex => {
                    self.phase = GitPhase::Config;
                    GitAction::WriteConfig
                },
                GitPhase::Config => {
                    self.phase = GitPhase::Pointer;
                    GitAction::WritePointer
                },
                _ => {
                    self.phase = GitPhase::Finished;
                    GitAction::Finished
                },
            },
            GitEvent::GitRan { success, stdout, stderr } => {
                if !success {
                    self.phase = GitPhase::Finished;
                    return GitAction::Failed(
                        GitError::GitFailed { args: clone_args(&self.running), stderr: trim_str(stderr.as_str()) },
                    );
                }
                match self.phase {
                    GitPhase::Init => {
                        self.phase = GitPhase::SlowAlternatesAgain;
                        GitAction::WriteFile {
                            path: path_join_exec(self.cfg.git_dir.as_str(), "objects/info/alternates"),
                            contents: concat2(self.abs_objects.as_str(), "\n"),
                        }
                    },
                    GitPhase::Resolving => {
                        self.phase = GitPhase::UpdateRef;
                        let base = trim_str(stdout.as_str());
                        let args = update_ref_cmd(self.cfg.branch.as_str(), base.as_str());
                        self.base = base;
                        self.run(args)
                    },
                    GitPhase::UpdateRef => {
                        self.phase = GitPhase::SymbolicRef;
                        let args = symbolic_ref_cmd(self.cfg.branch.as_str());
                        self.run(args)
                    },
                    GitPhase::SymbolicRef => {
                        let base = self.base.clone();
                        if self.usable(self.seed_is_file, base.as_str()) {
                            self.phase = GitPhase::SeedIndex;
                            let src = match &self.cfg.seed_index {
                                Some(s) => owned(s.as_str()),
                                None => String::new(),
                            };
                            GitAction::CopyIndex { src, dst: path_join_exec(self.cfg.git_dir.as_str(), "index") }
                        } else {
                            self.phase = GitPhase::TreeParse;
                            let rev = concat2(base.as_str(), "^{tree}");
                            let args = rev_parse_cmd(rev.as_str());
                            self.run(args)
                        }
                    },
                    GitPhase::TreeParse => {
                        self.phase = GitPhase::ReadTree;
                        let tree = trim_str(stdout.as_str());
                        let args = vec![owned("read-tree"), tree];
                        proof {
                            assert(args.deep_view() =~= seq!["read-tree"@, trimmed(stdout@)]);
                        }
                        self.run(args)
                    },
                    _ => {
                        self.phase = GitPhase::Config;
                        GitAction::WriteConfig
                    },
                }
            },
        }
    }
}

/// `refs/heads/<branch>`.
fn head_ref(branch: &str) -> (r: String)
    ensures
        r@ == branch_ref(branch@),
{
    concat2("refs/heads/", branch)
}

fn update_ref_cmd(branch: &str, base: &str) -> (v: Vec<String>)
    ensures
        v.deep_view() == update_ref_args(branch@, base@),
{
    let v = vec![owned("update-ref"), head_ref(branch), owned(base)];
    assert(v.deep_view() =~= update_ref_args(branch@, base@));
    v
}

fn symbolic_ref_cmd(branch: &str) -> (v: Vec<String>)
    ensures
        v.deep_view() == symbolic_ref_args(branch@),
{
    let v = vec![owned("symbolic-ref"), owned("HEAD"), head_ref(branch)];
    assert(v.deep_view() =~= symbolic_ref_args(branch@));
    v
}

fn rev_parse_cmd(rev: &str) -> (v: Vec<String>)
    ensures
        v.deep_view() == rev_parse_args(rev@),
{
    let v = vec![owned("rev-parse"), owned("--verify"), owned(rev)];
    assert(v.deep_view() =~= rev_parse_args(rev@));
    v
}

fn clone_args(args: &Vec<String>) -> (r: Vec<String>)
    ensures
        r.deep_view() == args.deep_view(),
{
    let mut r: Vec<String> = Vec::new();
    let mut i: usize = 0;
    while i < args.len()
        invariant
            i <= args@.len(),
            r@.len() == i,
            forall|k: int| 0 <= k < i ==> #[trigger] r@[k]@ == args@[k]@,
        decreases args.len() - i,
    {
        r.push(owned(args[i].as_str()));
        i = i + 1;
    }
    assert(r.deep_view() =~= args.deep_view());
    r
}

/// The commit `rev` names, from the output of `git rev-parse --verify <rev>`:
/// its standard output trimmed, or the failure.
pub fn resolve_commit(rev: &str, success: bool, stdout: &str, stderr: &str) -> (r: Result<String, GitError>)
    ensures
        r is Ok <==> success,
        r matches Ok(c) ==> c@ == trimmed(stdout@),
        r matches Err(e) ==> e matches GitError::GitFailed { args, stderr: m }
            && args.deep_view() == rev_parse_args(rev@) && m@ == trimmed(stderr@),
{
    if !success {
        return Err(GitError::GitFailed { args: rev_parse_cmd(rev), stderr: trim_str(stderr) });
    }
    Ok(trim_str(stdout))
}

/// On the fast path (a full object id as base and a usable seed index for
/// it) no `git` process runs: from the report of the preparation on, no step
/// of the fast path asks for a `git` command.
pub proof fn fast_path_runs_no_git(p: GitProcedure, e: GitEvent)
    requires
        p.accepts(e),
        p.phase is Preparing ==> (e matches GitEvent::Prepared { seed_index_is_file, .. } && fast_path(p.cfg, seed_index_is_file)),
        p.phase is Preparing || p.phase is FastAlternates || p.phase is FastBranchRef || p.phase is FastHead
            || p.phase is FastIndex || p.phase is Config || p.phase is Pointer,
    ensures
        !(p.next_spec(p.state(), e).1 is RunGit),
        p.phase is Preparing && p.next_spec(p.state(), e).1 is WriteFile ==> p.next_spec(p.state(), e).0.phase is FastAlternates,
{
}

/// The session branch exists at the base commit before `HEAD` is pointed at
/// it, whatever the form of the base revision: the setup enters
/// `update-ref` only by running `update-ref refs/heads/<branch> <base>` with
/// the base it settled on (the full object id it was given, or what
/// `rev-parse` resolved); `symbolic-ref HEAD` runs only once that
/// `update-ref` succeeded; the index is built, and the configuration
/// written, only after that (or, on the fast path, after the branch's ref
/// file was written with the base and then `HEAD`).
pub proof fn branch_is_set_before_head(p: GitProcedure, e: GitEvent)
    requires
        p.accepts(e),
    ensures
        p.next_spec(p.state(), e).0.phase == GitPhase::UpdateRef ==> {
            &&& p.next_spec(p.state(), e).1 == GitActionView::RunGit(
                update_ref_args(p.cfg.branch@, p.next_spec(p.state(), e).0.base))
            &&& (p.phase == GitPhase::SlowAlternatesAgain && p.next_spec(p.state(), e).0.base == p.cfg.base_revision@)
                || (p.phase == GitPhase::Resolving && e is GitRan)
        },
        p.next_spec(p.state(), e).0.phase == GitPhase::SymbolicRef ==> (p.phase == GitPhase::UpdateRef
            && (e matches GitEvent::GitRan { success, .. } && success)),
        p.next_spec(p.state(), e).1 == GitActionView::RunGit(symbolic_ref_args(p.cfg.branch@))
            ==> p.next_spec(p.state(), e).0.phase == GitPhase::SymbolicRef,
        p.next_spec(p.state(), e).0.phase == GitPhase::SeedIndex || p.next_spec(p.state(), e).0.phase == GitPhase::TreeParse
            ==> p.phase == GitPhase::SymbolicRef,
        p.next_spec(p.state(), e).0.phase == GitPhase::ReadTree ==> p.phase == GitPhase::TreeParse,
        p.next_spec(p.state(), e).0.phase == GitPhase::Config ==> (p.phase == GitPhase::FastIndex
            || p.phase == GitPhase::SeedIndex || p.phase == GitPhase::ReadTree),
        p.next_spec(p.state(), e).0.phase == GitPhase::FastBranchRef ==> (p.phase == GitPhase::FastAlternates
            && p.next_spec(p.state(), e).1 == GitActionView::WriteFile(
                path_join(path_join(p.cfg.git_dir@, "refs/heads"@), p.cfg.branch@),
                p.cfg.base_revision@ + "\n"@,
            )),
        p.next_spec(p.state(), e).0.phase == GitPhase::FastHead ==> p.phase == GitPhase::FastBranchRef,
        p.next_spec(p.state(), e).0.phase == GitPhase::FastIndex ==> p.phase == GitPhase::FastHead,
{
    reveal_strlit("symbolic-ref");
    reveal_strlit("update-ref");
    reveal_strlit("rev-parse");
    reveal_strlit("read-tree");
    reveal_strlit("init");
    assert("symbolic-ref"@[0] != "update-ref"@[0]);
    assert("symbolic-ref"@[0] != "rev-parse"@[0]);
    assert("symbolic-ref"@[0] != "read-tree"@[0]);
    assert("symbolic-ref"@[0] != "init"@[0]);
}

/// The index is built from the base the branch was set to: once
/// `update-ref` runs, the base no longer changes; a base resolved by
/// `rev-parse` is its trimmed output; the slow index is `read-tree` of the
/// trimmed output of `rev-parse <base>^{tree}`; the seed index is copied
/// only when there is one, it is a file and its commit is recorded; `HEAD`
/// names the configured branch; and the setup finishes only after the
/// configuration and then the `.git` pointer were written.
pub proof fn index_is_built_from_the_base(p: GitProcedure, e: GitEvent)
    requires
        p.accepts(e),
    ensures
        (p.phase == GitPhase::UpdateRef || p.phase == GitPhase::SymbolicRef || p.phase == GitPhase::SeedIndex
            || p.phase == GitPhase::TreeParse || p.phase == GitPhase::ReadTree || p.phase == GitPhase::Config
            || p.phase == GitPhase::Pointer) ==> p.next_spec(p.state(), e).0.base == p.base@,
        p.phase == GitPhase::Resolving && p.next_spec(p.state(), e).0.phase == GitPhase::UpdateRef
            ==> (e matches GitEvent::GitRan { stdout, .. } && p.next_spec(p.state(), e).0.base == trimmed(stdout@)),
        p.next_spec(p.state(), e).0.phase == GitPhase::SymbolicRef
            ==> p.next_spec(p.state(), e).1 == GitActionView::RunGit(symbolic_ref_args(p.cfg.branch@)),
        p.next_spec(p.state(), e).0.phase == GitPhase::TreeParse
            ==> p.next_spec(p.state(), e).1 == GitActionView::RunGit(rev_parse_args(p.base@ + "^{tree}"@)),
        p.next_spec(p.state(), e).0.phase == GitPhase::ReadTree
            ==> (e matches GitEvent::GitRan { stdout, .. }
                && p.next_spec(p.state(), e).1 == GitActionView::RunGit(seq!["read-tree"@, trimmed(stdout@)])),
        p.next_spec(p.state(), e).1 is CopyIndex ==> {
            &&& p.cfg.seed_index is Some
            &&& p.cfg.seed_commit is Some
            &&& p.seed_is_file
            &&& p.next_spec(p.state(), e).1 == GitActionView::CopyIndex(
                p.cfg.seed_index->0@, path_join(p.cfg.git_dir@, "index"@))
        },
        p.next_spec(p.state(), e).0.phase == GitPhase::Pointer
            ==> p.phase == GitPhase::Config && p.next_spec(p.state(), e).1 == GitActionView::WritePointer,
        p.next_spec(p.state(), e).1 is Finished ==> p.phase == GitPhase::Pointer && e is Done,
{
}

/// A `git` command that fails ends the setup, reporting that command's
/// arguments and its trimmed standard error.
pub proof fn failed_git_ends_setup(p: GitProcedure, stdout: String, stderr: String)
    requires
        p.accepts(GitEvent::GitRan { success: false, stdout, stderr }),
    ensures
        p.next_spec(p.state(), GitEvent::GitRan { success: false, stdout, stderr }).0.phase is Finished,
        p.next_spec(p.state(), GitEvent::GitRan { success: false, stdout, stderr }).1
            == GitActionView::GitFailed(p.running.deep_view(), trimmed(stderr@)),
{
}

} // verus!
