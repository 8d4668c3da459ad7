//! Shared and per-session semantic cache directories.
use vstd::prelude::*;
use crate::metadata::{path_join, path_join_exec};
use crate::text::owned;

verus! {

/// Environment variable naming the repository-wide shared cache.
pub const ENV_SHARED_CACHE: &'static str = "LAZYTREE_SHARED_CACHE";
/// Environment variable naming the session's writable cache.
pub const ENV_SESSION_CACHE: &'static str = "LAZYTREE_SESSION_CACHE";

/// Cache roots of one session.
#[derive(Debug)]
pub struct SemanticPaths {
    pub shared: String,
    pub session_writable: String,
}

impl Clone for SemanticPaths {
    fn clone(&self) -> (r: Self)
        ensures
            r == *self,
    {
        SemanticPaths { shared: self.shared.clone(), session_writable: self.session_writable.clone() }
    }
}

impl SemanticPaths {
    /// `repo_dir/semantic/shared` and `session_dir/semantic/writable`.
    pub fn for_session(repo_dir: &str, session_dir: &str) -> (p: Self)
        ensures
            p.shared@ == path_join(repo_dir@, "semantic/shared"@),
            p.session_writable@ == path_join(session_dir@, "semantic/writable"@),
    {
        SemanticPaths {
            shared: path_join_exec(repo_dir, "semantic/shared"),
            session_writable: path_join_exec(session_dir, "semantic/writable"),
        }
    }

    /// The two cache roots alone (`ensure` adds their subdirectories).
    pub fn ensure_roots(&self) -> (v: Vec<String>)
        ensures
            v@.len() == 2,
            v@[0]@ == self.shared@,
            v@[1]@ == self.session_writable@,
    {
        vec![self.shared.clone(), self.session_writable.clone()]
    }

    /// Directories a session's caches need, in order: both roots, the shared
    /// Cargo home and the session's `caches` directory.
    pub open spec fn ensure_spec(&self) -> Seq<Seq<char>> {
        seq![
            self.shared@,
            self.session_writable@,
            path_join(self.shared@, "cargo-home"@),
            path_join(self.session_writable@, "caches"@),
        ]
    }

    /// Directories to create so that a session's caches are in place (made
    /// at create and again at status).
    pub fn ensure(&self) -> (v: Vec<String>)
        ensures
            v.deep_view() == self.ensure_spec(),
    {
        let v = vec![
            self.shared.clone(),
            self.session_writable.clone(),
            self.cargo_home(),
            path_join_exec(self.session_writable.as_str(), "caches"),
        ];
        assert(v.deep_view() =~= self.ensure_spec());
        v
    }

    /// The session's build target directory (what `cache promote` copies).
    pub fn target_dir(&self) -> (p: String)
        ensures
            p@ == path_join(self.session_writable@, "target"@),
    {
        path_join_exec(self.session_writable.as_str(), "target")
    }

    /// The repository's shared target seed (what `cache seed` copies).
    pub fn target_seed_dir(&self) -> (p: String)
        ensures
            p@ == path_join(self.shared@, "target-seed"@),
    {
        path_join_exec(self.shared.as_str(), "target-seed")
    }

    /// The shared Cargo home under the shared cache.
    pub fn cargo_home(&self) -> (p: String)
        ensures
            p@ == path_join(self.shared@, "cargo-home"@),
    {
        path_join_exec(self.shared.as_str(), "cargo-home")
    }

    /// Environment for commands run in the session: the two cache roots and
    /// `CARGO_HOME` (the caller creates the Cargo home directory).
    pub fn env_pairs(&self) -> (v: Vec<(&'static str, String)>)
        ensures
            v@.len() == 3,
            v@[0].0@ == ENV_SHARED_CACHE@ && v@[0].1@ == self.shared@,
            v@[1].0@ == ENV_SESSION_CACHE@ && v@[1].1@ == self.session_writable@,
            v@[2].0@ == "CARGO_HOME"@ && v@[2].1@ == path_join(self.shared@, "cargo-home"@),
    {
        let cargo_home = self.cargo_home();
        vec![
            (ENV_SHARED_CACHE, self.shared.clone()),
            (ENV_SESSION_CACHE, self.session_writable.clone()),
            ("CARGO_HOME", cargo_home),
        ]
    }
}

} // verus!
