//! The command line of `lazytree`, as plain values.
use vstd::prelude::*;
use crate::session::Session;
use crate::text::{chars_of, owned};
use crate::fsmonitor::chars_eq;

verus! {

/// COW development workspaces for parallel coding agents.
#[derive(Debug)]
pub struct Cli {
    /// Override LazyTree home directory (default: ~/.lazytree or $LAZYTREE_HOME).
    pub home: Option<String>,
    pub command: Commands,
}

/// The subcommands.
#[derive(Debug)]
pub enum Commands {
    /// Manage registered repositories.
    Repo { command: RepoCommands },
    /// Create a new COW workspace session.
    Create { name: String, repo: Option<String>, from: Option<String>, json: bool },
    /// List sessions.
    List { json: bool },
    /// Print the merged root path for a session.
    Path { session: String },
    /// Show session status.
    Status { session: String, json: bool },
    /// Show session diff (work tree and staged).
    Diff { session: String },
    /// Publish the branch to the source repository and drop the ephemeral
    /// workspace state.
    Archive { session: String, json: bool },
    /// Check metadata against reality.
    Doctor { json: bool },
    /// Destroy a session.
    Destroy { session: String, force: bool },
    /// Run a command in the session root with the semantic cache environment.
    Exec { session: String, command: Vec<String> },
    /// Share a session's build target through the repository's seed.
    Cache { command: CacheCommands },
    /// Cursor IDE integration.
    Cursor { command: CursorCommands },
}

/// The cache subcommands.
#[derive(Debug)]
pub enum CacheCommands {
    /// Copy the session's build target to the repository's shared seed.
    Promote { session: String },
    /// Copy the repository's shared seed into the session's build target.
    Seed { session: String },
}

/// The Cursor subcommands.
#[derive(Debug)]
pub enum CursorCommands {
    /// Install the LazyTree hooks and skill into a project (default: the
    /// current directory).
    Setup { target: Option<String> },
    /// Open a session root in the IDE.
    Open { session: String, json: bool, dry_run: bool },
    /// Create (or reuse) a session and write its mapping for the project.
    Bootstrap {
        name: Option<String>,
        repo: Option<String>,
        session_id: Option<String>,
        project: Option<String>,
        json: bool,
    },
}

/// The repository subcommands.
#[derive(Debug)]
pub enum RepoCommands {
    /// Register a clean Git repository.
    Add { path: String, json: bool },
    /// List registered repositories.
    List { json: bool },
    /// Remove a registered repository (fails while sessions use it).
    Remove { repo: String, force: bool },
}

/// The state `lazytree list` shows: `archived` for an archived session,
/// else its filesystem state.
pub open spec fn listed_state_spec(s: Session) -> Seq<char> {
    if s.lifecycle@ == "archived"@ { "archived"@ } else { s.filesystem.state@ }
}

/// The state `lazytree list` shows for a session.
pub fn listed_state(s: &Session) -> (r: String)
    ensures
        r@ == listed_state_spec(*s),
{
    let l = chars_of(s.lifecycle.as_str());
    let a = chars_of("archived");
    if chars_eq(&l, &a) {
        owned("archived")
    } else {
        owned(s.filesystem.state.as_str())
    }
}

/// The process exit status for a command's exit code (its low byte).
pub fn exit_status(code: i32) -> (b: u8)
    ensures
        b == code as u8,
{
    code as u8
}

} // verus!
