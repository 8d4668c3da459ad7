//! Running commands in a session, optionally under canonical paths.
//!
//! Build and LSP caches fingerprint absolute workspace paths, and parallel
//! sessions have different merged roots. A canonical run happens in a private
//! mount namespace (`unshare --user --map-root-user --mount`) where the
//! session root and its target directory are bind-mounted onto fixed paths
//! under `<LAZYTREE_HOME>/canonical`. The functions here decide what to run;
//! the caller creates the directories and spawns the process.
use vstd::prelude::*;
use crate::metadata::{path_join, path_join_exec};
use crate::semantic::{SemanticPaths, ENV_SHARED_CACHE, ENV_SESSION_CACHE};
use crate::session::Session;
use crate::text::{chars_of, owned, push_char, push_str};
use crate::util::{shell_quote, shell_quoted};
use crate::fsmonitor::chars_eq;

verus! {

/// How `lazytree exec` runs its command.
#[derive(Clone, Copy, Debug)]
pub struct ExecOptions {
    /// Run under the canonical paths when the host supports it.
    pub canonical: bool,
}

impl Default for ExecOptions {
    fn default() -> (o: Self)
        ensures
            o.canonical,
    {
        ExecOptions { canonical: true }
    }
}

/// Why a command could not be run in a session.
#[derive(Debug)]
pub enum RuntimeError {
    /// No command was given.
    EmptyCommand,
    /// The session is archived or not mounted (its name).
    NotActive(String),
    /// The session root is not a directory (its path).
    RootMissing(String),
    /// The session has no target directory to promote (its path).
    NoSessionTarget(String),
}

/// A process to start.
#[derive(Debug)]
pub struct ExecPlan {
    /// Directories to create first, in order.
    pub create_dirs: Vec<String>,
    pub program: String,
    pub args: Vec<String>,
    /// Working directory; `None` keeps the caller's.
    pub cwd: Option<String>,
    /// Environment variables to set, in order (a later one overrides).
    pub env: Vec<(String, String)>,
}

/// What the host offers a run, as the caller found it.
#[derive(Debug)]
pub struct ExecHost {
    /// Whether the session's root is a directory.
    pub root_is_dir: bool,
    /// Whether `unshare --user --map-root-user --mount true` succeeds.
    pub canonical_supported: bool,
    /// The values of `LAZYTREE_HOME` and `HOME`.
    pub lazytree_home: Option<String>,
    pub home: Option<String>,
}

/// A session is active when it is not archived and its filesystem is
/// recorded as mounted.
pub open spec fn active(s: Session) -> bool {
    s.lifecycle@ != "archived"@ && s.filesystem.state@ == "mounted"@
}

/// Whether the session is active.
pub fn is_active(s: &Session) -> (b: bool)
    ensures
        b == active(*s),
{
    let l = chars_of(s.lifecycle.as_str());
    let f = chars_of(s.filesystem.state.as_str());
    let archived = chars_of("archived");
    let mounted = chars_of("mounted");
    !chars_eq(&l, &archived) && chars_eq(&f, &mounted)
}

/// Where canonical paths live: `LAZYTREE_HOME`, else `$HOME/.lazytree`, else
/// `/tmp/lazytree-canonical`, then `canonical` below it.
pub open spec fn canonical_dir_spec(lazytree_home: Option<Seq<char>>, home: Option<Seq<char>>) -> Seq<char> {
    let base = match lazytree_home {
        Some(h) => h,
        None => match home {
            Some(h) => path_join(h, ".lazytree"@),
            None => "/tmp/lazytree-canonical"@,
        },
    };
    path_join(base, "canonical"@)
}

/// The canonical directory for the given `LAZYTREE_HOME` and `HOME` values.
pub fn canonical_dir(lazytree_home: Option<&str>, home: Option<&str>) -> (d: String)
    ensures
        d@ == canonical_dir_spec(
            match lazytree_home { Some(h) => Some(h@), None => None },
            match home { Some(h) => Some(h@), None => None },
        ),
{
    let base = match lazytree_home {
        Some(h) => owned(h),
        None => match home {
            Some(h) => path_join_exec(h, ".lazytree"),
            None => owned("/tmp/lazytree-canonical"),
        },
    };
    path_join_exec(base.as_str(), "canonical")
}

/// ` 'a1' 'a2' …`: each word single-quoted after a space.
pub open spec fn quoted_words(argv: Seq<Seq<char>>) -> Seq<char>
    decreases argv.len(),
{
    if argv.len() == 0 {
        seq![]
    } else {
        quoted_words(argv.drop_last()) + seq![' '] + shell_quoted(argv.last())
    }
}

/// The script `bash -c` runs in the namespace: bind the session root and
/// target directory onto the canonical ones, enter the workspace, exec.
pub open spec fn canonical_script(root: Seq<char>, target: Seq<char>, ws: Seq<char>, tg: Seq<char>, argv: Seq<Seq<char>>) -> Seq<char> {
    "set -euo pipefail\n"@
        + "mount --bind "@ + shell_quoted(root) + " "@ + shell_quoted(ws) + "\n"@
        + "mount --bind "@ + shell_quoted(target) + " "@ + shell_quoted(tg) + "\n"@
        + "cd "@ + shell_quoted(ws) + "\n"@
        + "exec"@ + quoted_words(argv) + "\n"@
}

fn push_quoted_line(out: &mut String, head: &str, a: &str, b: &str)
    ensures
        final(out)@ == old(out)@ + head@ + shell_quoted(a@) + " "@ + shell_quoted(b@) + "\n"@,
{
    push_str(out, head);
    let qa = shell_quote(a);
    push_str(out, qa.as_str());
    push_str(out, " ");
    let qb = shell_quote(b);
    push_str(out, qb.as_str());
    push_str(out, "\n");
}

/// The namespace script for a canonical run.
pub fn canonical_script_text(root: &str, target: &str, ws: &str, tg: &str, argv: &Vec<String>) -> (s: String)
    ensures
        s@ == canonical_script(root@, target@, ws@, tg@, argv.deep_view()),
{
    let mut s = owned("set -euo pipefail\n");
    push_quoted_line(&mut s, "mount --bind ", root, ws);
    push_quoted_line(&mut s, "mount --bind ", target, tg);
    push_str(&mut s, "cd ");
    let q = shell_quote(ws);
    push_str(&mut s, q.as_str());
    push_str(&mut s, "\n");
    push_str(&mut s, "exec");
    let ghost prefix = s@;
    let mut i: usize = 0;
    while i < argv.len()
        invariant
            i <= argv@.len(),
            s@ == prefix + quoted_words(argv.deep_view().take(i as int)),
        decreases argv.len() - i,
    {
        push_char(&mut s, ' ');
        let q = shell_quote(argv[i].as_str());
        push_str(&mut s, q.as_str());
        proof {
            let t = argv.deep_view().take(i + 1);
            assert(t.drop_last() =~= argv.deep_view().take(i as int));
            assert(t.last() == argv@[i as int]@);
        }
        i = i + 1;
    }
    assert(argv.deep_view().take(i as int) =~= argv.deep_view());
    push_str(&mut s, "\n");
    s
}

/// The target directory of a session run: `session_writable/target`.
pub open spec fn session_target(writable: Seq<char>) -> Seq<char> {
    path_join(writable, "target"@)
}

/// The environment every run gets: the cache roots, `CARGO_HOME`, the
/// session root and name, and `CARGO_TARGET_DIR`.
pub open spec fn common_env(name: Seq<char>, shared: Seq<char>, writable: Seq<char>, root: Seq<char>, target: Seq<char>) -> Seq<(Seq<char>, Seq<char>)> {
    seq![
        (ENV_SHARED_CACHE@, shared),
        (ENV_SESSION_CACHE@, writable),
        ("CARGO_HOME"@, path_join(shared, "cargo-home"@)),
        ("LAZYTREE_SESSION_ROOT"@, root),
        ("LAZYTREE_SESSION_NAME"@, name),
        ("CARGO_TARGET_DIR"@, target),
    ]
}

/// An environment list taken by value.
pub open spec fn env_view(env: Seq<(String, String)>) -> Seq<(Seq<char>, Seq<char>)> {
    env.map_values(|p: (String, String)| (p.0@, p.1@))
}

fn common_env_exec(session: &Session, semantic: &SemanticPaths, root: &str, target: &str) -> (v: Vec<(String, String)>)
    ensures
        env_view(v@) == common_env(session.name@, semantic.shared@, semantic.session_writable@, root@, target@),
{
    let v = vec![
        (owned(ENV_SHARED_CACHE), owned(semantic.shared.as_str())),
        (owned(ENV_SESSION_CACHE), owned(semantic.session_writable.as_str())),
        (owned("CARGO_HOME"), semantic.cargo_home()),
        (owned("LAZYTREE_SESSION_ROOT"), owned(root)),
        (owned("LAZYTREE_SESSION_NAME"), owned(session.name.as_str())),
        (owned("CARGO_TARGET_DIR"), owned(target)),
    ];
    assert(env_view(v@) =~= common_env(session.name@, semantic.shared@, semantic.session_writable@, root@, target@));
    v
}

/// Arguments of `argv` after the program.
fn tail_args(argv: &Vec<String>) -> (v: Vec<String>)
    requires
        argv@.len() > 0,
    ensures
        v.deep_view() == argv.deep_view().drop_first(),
{
    let mut v: Vec<String> = Vec::new();
    let mut i: usize = 1;
    while i < argv.len()
        invariant
            1 <= i <= argv@.len(),
            v@.len() == i - 1,
            forall|k: int| 0 <= k < i - 1 ==> #[trigger] v@[k]@ == argv@[k + 1]@,
        decreases argv.len() - i,
    {
        v.push(owned(argv[i].as_str()));
        i = i + 1;
    }
    assert(v.deep_view() =~= argv.deep_view().drop_first());
    v
}

/// The plain run: `argv` itself in the session root.
pub open spec fn plain_plan(session: Session, shared: Seq<char>, writable: Seq<char>, argv: Seq<Seq<char>>) -> (Seq<Seq<char>>, Seq<char>, Seq<Seq<char>>, Option<Seq<char>>, Seq<(Seq<char>, Seq<char>)>) {
    let root = session_root(session);
    let target = session_target(writable);
    (
        seq![shared, writable, target, path_join(shared, "cargo-home"@)],
        argv[0],
        argv.drop_first(),
        Some(root),
        common_env(session.name@, shared, writable, root, target),
    )
}

/// The canonical run: `unshare … bash -c <script>` with the canonical
/// workspace and target directories under `canon`.
pub open spec fn canonical_plan(session: Session, shared: Seq<char>, writable: Seq<char>, argv: Seq<Seq<char>>, canon: Seq<char>) -> (Seq<Seq<char>>, Seq<char>, Seq<Seq<char>>, Option<Seq<char>>, Seq<(Seq<char>, Seq<char>)>) {
    let root = session_root(session);
    let target = session_target(writable);
    let ws = path_join(canon, "workspace"@);
    let tg = path_join(canon, "target"@);
    (
        seq![shared, writable, target, path_join(shared, "cargo-home"@), canon, ws, tg],
        "unshare"@,
        seq!["--user"@, "--map-root-user"@, "--mount"@, "bash"@, "-c"@, canonical_script(root, target, ws, tg, argv)],
        None,
        common_env(session.name@, shared, writable, root, tg) + seq![
            ("PWD"@, ws),
            ("CARGO_TARGET_DIR"@, tg),
            ("LAZYTREE_CANONICAL_ROOT"@, ws),
        ],
    )
}

/// The session's merged root.
pub open spec fn session_root(session: Session) -> Seq<char> {
    path_join(path_join(session.session_dir@, "fs"@), "root"@)
}

/// The run chosen for a session: canonical when asked for and supported,
/// else plain.
pub open spec fn planned_run(session: Session, shared: Seq<char>, writable: Seq<char>, argv: Seq<Seq<char>>, opts: ExecOptions, host: ExecHost) -> (Seq<Seq<char>>, Seq<char>, Seq<Seq<char>>, Option<Seq<char>>, Seq<(Seq<char>, Seq<char>)>) {
    if opts.canonical && host.canonical_supported {
        canonical_plan(session, shared, writable, argv, canonical_dir_spec(
            match host.lazytree_home { Some(h) => Some(h@), None => None },
            match host.home { Some(h) => Some(h@), None => None },
        ))
    } else {
        plain_plan(session, shared, writable, argv)
    }
}

impl ExecPlan {
    /// The plan taken by value.
    pub open spec fn view(&self) -> (Seq<Seq<char>>, Seq<char>, Seq<Seq<char>>, Option<Seq<char>>, Seq<(Seq<char>, Seq<char>)>) {
        (
            self.create_dirs.deep_view(),
            self.program@,
            self.args.deep_view(),
            match self.cwd { Some(c) => Some(c@), None => None },
            env_view(self.env@),
        )
    }
}

/// A runtime that decides how commands run in a session.
pub trait RuntimeBackend {
    /// What to start for `argv` in `session`, or why it cannot run.
    fn exec(&self, session: &Session, semantic: &SemanticPaths, argv: &Vec<String>, opts: &ExecOptions, host: &ExecHost) -> (r: Result<ExecPlan, RuntimeError>);
}

/// Runs commands on this machine.
#[derive(Clone, Copy, Debug, Default)]
pub struct LocalRuntimeBackend;

impl RuntimeBackend for LocalRuntimeBackend {
    /// Refuses an empty command, an inactive session and a missing root (in
    /// that order); otherwise the canonical run when asked for and supported,
    /// else the plain run.
    fn exec(&self, session: &Session, semantic: &SemanticPaths, argv: &Vec<String>, opts: &ExecOptions, host: &ExecHost) -> (r: Result<ExecPlan, RuntimeError>)
        ensures
            argv@.len() == 0 ==> r matches Err(RuntimeError::EmptyCommand),
            argv@.len() > 0 && !active(*session) ==> (r matches Err(RuntimeError::NotActive(n)) && n@ == session.name@),
            argv@.len() > 0 && active(*session) && !host.root_is_dir ==> (r matches Err(RuntimeError::RootMissing(p)) && p@ == session_root(*session)),
            r is Ok <==> argv@.len() > 0 && active(*session) && host.root_is_dir,
            r matches Ok(p) ==> p@ == planned_run(*session, semantic.shared@, semantic.session_writable@, argv.deep_view(), *opts, *host),
    {
        if argv.len() == 0 {
            return Err(RuntimeError::EmptyCommand);
        }
        if !is_active(session) {
            return Err(RuntimeError::NotActive(owned(session.name.as_str())));
        }
        let root = session.root_path();
        if !host.root_is_dir {
            return Err(RuntimeError::RootMissing(root));
        }
        let target = path_join_exec(semantic.session_writable.as_str(), "target");
        let cargo_home = semantic.cargo_home();
        if opts.canonical && host.canonical_supported {
            let lh = match &host.lazytree_home { Some(h) => Some(h.as_str()), None => None };
            let hh = match &host.home { Some(h) => Some(h.as_str()), None => None };
            let canon = canonical_dir(lh, hh);
            let ws = path_join_exec(canon.as_str(), "workspace");
            let tg = path_join_exec(canon.as_str(), "target");
            let script = canonical_script_text(root.as_str(), target.as_str(), ws.as_str(), tg.as_str(), argv);
            let mut env = common_env_exec(session, semantic, root.as_str(), tg.as_str());
            env.push((owned("PWD"), owned(ws.as_str())));
            env.push((owned("CARGO_TARGET_DIR"), owned(tg.as_str())));
            env.push((owned("LAZYTREE_CANONICAL_ROOT"), owned(ws.as_str())));
            let create_dirs = vec![
                owned(semantic.shared.as_str()),
                owned(semantic.session_writable.as_str()),
                target,
                cargo_home,
                owned(canon.as_str()),
                owned(ws.as_str()),
                owned(tg.as_str()),
            ];
            let args = vec![
                owned("--user"),
                owned("--map-root-user"),
                owned("--mount"),
                owned("bash"),
                owned("-c"),
                script,
            ];
            let plan = ExecPlan { create_dirs, program: owned("unshare"), args, cwd: None, env };
            proof {
                let cp = canonical_plan(*session, semantic.shared@, semantic.session_writable@, argv.deep_view(), canon@);
                assert(plan.create_dirs.deep_view() =~= cp.0);
                assert(plan.args.deep_view() =~= cp.2);
                assert(env_view(plan.env@) =~= cp.4);
            }
            Ok(plan)
        } else {
            let create_dirs = vec![
                owned(semantic.shared.as_str()),
                owned(semantic.session_writable.as_str()),
                owned(target.as_str()),
                cargo_home,
            ];
            let env = common_env_exec(session, semantic, root.as_str(), target.as_str());
            let plan = ExecPlan {
                create_dirs,
                program: owned(argv[0].as_str()),
                args: tail_args(argv),
                cwd: Some(root),
                env,
            };
            proof {
                let pp = plain_plan(*session, semantic.shared@, semantic.session_writable@, argv.deep_view());
                assert(plan.create_dirs.deep_view() =~= pp.0);
            }
            Ok(plan)
        }
    }
}

/// A tree copy: `cp -a --reflink=auto <src> <dst>` after removing `dst`.
#[derive(Debug)]
pub struct CopyPlan {
    pub src: String,
    pub dst: String,
}

/// The arguments of `cp` for a tree copy.
pub fn copy_args(plan: &CopyPlan) -> (v: Vec<String>)
    ensures
        v.deep_view() == seq!["-a"@, "--reflink=auto"@, plan.src@, plan.dst@],
{
    let v = vec![owned("-a"), owned("--reflink=auto"), owned(plan.src.as_str()), owned(plan.dst.as_str())];
    assert(v.deep_view() =~= seq!["-a"@, "--reflink=auto"@, plan.src@, plan.dst@]);
    v
}

/// Promotes the session's target directory to the shared seed
/// (`shared/target-seed`); refused when the session has no target
/// directory (`src_is_dir`, whether `session_writable/target` is one).
pub fn promote_session_target_to_shared(semantic: &SemanticPaths, src_is_dir: bool) -> (r: Result<CopyPlan, RuntimeError>)
    ensures
        r is Ok <==> src_is_dir,
        r matches Ok(p) ==> p.src@ == session_target(semantic.session_writable@) && p.dst@ == path_join(semantic.shared@, "target-seed"@),
        r matches Err(e) ==> e matches RuntimeError::NoSessionTarget(p) && p@ == session_target(semantic.session_writable@),
{
    let src = path_join_exec(semantic.session_writable.as_str(), "target");
    if !src_is_dir {
        return Err(RuntimeError::NoSessionTarget(src));
    }
    Ok(CopyPlan { src, dst: path_join_exec(semantic.shared.as_str(), "target-seed") })
}

/// Seeds the session's target directory from the shared seed; `None` (no
/// seeding) when there is no seed (`src_is_dir`, whether
/// `shared/target-seed` is a directory).
pub fn seed_session_target_from_shared(semantic: &SemanticPaths, src_is_dir: bool) -> (r: Option<CopyPlan>)
    ensures
        r is Some <==> src_is_dir,
        r matches Some(p) ==> p.src@ == path_join(semantic.shared@, "target-seed"@) && p.dst@ == session_target(semantic.session_writable@),
{
    if !src_is_dir {
        return None;
    }
    Some(CopyPlan {
        src: path_join_exec(semantic.shared.as_str(), "target-seed"),
        dst: path_join_exec(semantic.session_writable.as_str(), "target"),
    })
}

/// All canonical runs on a host see the same workspace and target paths,
/// whatever the session: the build's view of paths (`PWD`,
/// `CARGO_TARGET_DIR`, `LAZYTREE_CANONICAL_ROOT`) is identical, while each
/// run still names its own session root.
pub proof fn canonical_paths_are_shared(
    s1: Session, s2: Session,
    shared1: Seq<char>, writable1: Seq<char>, shared2: Seq<char>, writable2: Seq<char>,
    argv1: Seq<Seq<char>>, argv2: Seq<Seq<char>>, opts: ExecOptions, host: ExecHost,
)
    requires
        opts.canonical,
        host.canonical_supported,
    ensures
        planned_run(s1, shared1, writable1, argv1, opts, host).4.subrange(5, 9)
            == planned_run(s2, shared2, writable2, argv2, opts, host).4.subrange(5, 9),
        planned_run(s1, shared1, writable1, argv1, opts, host).4[3].1 == session_root(s1),
        planned_run(s2, shared2, writable2, argv2, opts, host).4[3].1 == session_root(s2),
        planned_run(s1, shared1, writable1, argv1, opts, host).3 is None,
{
    let p1 = planned_run(s1, shared1, writable1, argv1, opts, host);
    let p2 = planned_run(s2, shared2, writable2, argv2, opts, host);
    assert(p1.4.subrange(5, 9) =~= p2.4.subrange(5, 9));
}

} // verus!
