//! Consistency checks for `lazytree doctor`.
//!
//! The caller looks at the disk (directories, mount points, files) and
//! hands over what it found; [`run_doctor`] turns that into the report and
//! says which session records to rewrite as unmounted.
use vstd::prelude::*;
use crate::metadata::{Paths, FilesystemBackendKind};
use crate::repository::{Repository, RepositoryStore, contains_text, text_contains, none_matches, opt_str};
use crate::session::{Session, FilesystemMeta};
use crate::text::{owned, concat2, push_str, u64_to_decimal, decimal};
use crate::filesystem::{doctor_host_issues_on, host_issues_on, host_issues_spec, HostOs};
use crate::fsmonitor::chars_eq;
use crate::text::chars_of;

verus! {

/// The outcome of `lazytree doctor`.
#[derive(Debug)]
pub struct DoctorReport {
    /// No issue has severity `error`.
    pub ok: bool,
    pub issues: Vec<DoctorIssue>,
}

/// One finding.
#[derive(Debug)]
pub struct DoctorIssue {
    /// `error`, `warn` or `info`.
    pub severity: String,
    pub code: String,
    pub message: String,
}

/// An issue taken by value: severity, code, message.
pub type IssueView = (Seq<char>, Seq<char>, Seq<char>);

impl DoctorIssue {
    pub open spec fn view(&self) -> IssueView {
        (self.severity@, self.code@, self.message@)
    }
}

/// The issues of a report taken by value.
pub open spec fn issues_view(v: Seq<DoctorIssue>) -> Seq<IssueView> {
    v.map_values(|i: DoctorIssue| i@)
}

/// An issue with the given severity, code and message.
pub fn issue(severity: &str, code: &str, message: String) -> (i: DoctorIssue)
    ensures
        i@ == (severity@, code@, message@),
{
    DoctorIssue { severity: owned(severity), code: owned(code), message }
}

/// What the disk shows of a registered repository.
#[derive(Debug)]
pub struct RepoCheck {
    pub repo: Repository,
    pub base_is_dir: bool,
    pub objects_is_dir: bool,
}

/// What the disk shows of a session.
#[derive(Debug)]
pub struct SessionCheck {
    pub session: Session,
    /// Whether the session directory is a directory.
    pub dir_is_dir: bool,
    /// Whether the session root is a mount point.
    pub mounted: bool,
    /// Whether `git/HEAD` exists in the session directory.
    pub head_exists: bool,
    /// The session's repository id canonicalized as a path, when it is one.
    pub repo_canonical: Option<String>,
}

/// An entry of the sessions directory.
#[derive(Debug)]
pub struct SessionDirEntry {
    pub path: String,
    pub file_name: String,
    pub is_dir: bool,
    pub has_metadata: bool,
}

/// The `.cursor/hooks.json` of the working directory.
#[derive(Debug)]
pub enum HooksFile {
    /// Not a file.
    Absent,
    /// Its text.
    Text(String),
    /// It could not be read (the error).
    Unreadable(String),
}

/// What the working directory shows of the Cursor integration.
#[derive(Debug)]
pub struct CursorCheck {
    pub hooks_path: String,
    pub hooks: HooksFile,
    /// Whether `.cursor/skills/lazytree-session/SKILL.md` is a file.
    pub skill_is_file: bool,
    /// `.cursor/lazytree-sessions`, when it is a directory, and how many of
    /// its mappings point at a root that is not a directory.
    pub mappings: Option<(String, u64)>,
}

/// Everything `run_doctor` is told.
#[derive(Debug)]
pub struct DoctorFacts {
    /// Registered repositories, in listing order.
    pub repos: Vec<RepoCheck>,
    /// Sessions, in listing order.
    pub sessions: Vec<SessionCheck>,
    /// Entries of the sessions directory.
    pub session_dir_entries: Vec<SessionDirEntry>,
    /// The Cursor integration of the working directory, when it is known.
    pub cursor: Option<CursorCheck>,
    /// The operating system.
    pub os: HostOs,
    /// Whether `fuse-overlayfs --help` succeeds (looked at on Linux), a
    /// unionfs-fuse binary is found (looked at on macOS), and `sudo -n true`
    /// succeeds.
    pub fuse_ok: bool,
    pub unionfs_ok: bool,
    pub sudo_ok: bool,
}

/// The findings about one repository.
pub open spec fn repo_issues(c: RepoCheck) -> Seq<IssueView> {
    (if c.base_is_dir {
        seq![]
    } else {
        seq![("error"@, "missing_repo_base"@, "repository "@ + c.repo.id@ + " base missing: "@ + c.repo.base_path@)]
    }) + (if c.objects_is_dir {
        seq![]
    } else {
        seq![("error"@, "missing_object_store"@, "repository "@ + c.repo.id@ + " object store missing: "@ + c.repo.object_store@)]
    })
}

/// Whether the doctor rewrites the session as unmounted: its record says
/// mounted and its root is not a mount point.
pub open spec fn stale_mount(c: SessionCheck) -> bool {
    c.dir_is_dir && c.session.filesystem.state@ == "mounted"@ && !c.mounted
}

/// The findings about one session, given the repositories.
pub open spec fn session_issues(c: SessionCheck, repos: Seq<Repository>) -> Seq<IssueView> {
    let s = c.session;
    if !c.dir_is_dir {
        seq![("error"@, "missing_session_dir"@, "session "@ + s.name@ + " directory missing"@)]
    } else {
        let fs_state = if stale_mount(c) { "unmounted"@ } else { s.filesystem.state@ };
        (if stale_mount(c) {
            seq![("warn"@, "stale_mount_metadata"@, "session "@ + s.name@ + " metadata says mounted but mount is absent; marking unmounted"@)]
        } else if s.filesystem.state@ == "unmounted"@ && c.mounted {
            seq![("warn"@, "unexpected_mount"@, "session "@ + s.name@ + " metadata says unmounted but mount is present"@)]
        } else {
            seq![]
        }) + (if s.git.state@ == "ready"@ && !c.head_exists && fs_state != "archived"@ && s.lifecycle@ != "archived"@ {
            seq![("error"@, "missing_git_dir"@, "session "@ + s.name@ + " missing Git metadata"@)]
        } else {
            seq![]
        }) + (if none_matches(repos, s.repository_id@, opt_str_owned(c.repo_canonical)) {
            seq![("error"@, "missing_repository"@, "session "@ + s.name@ + " references missing repository "@ + s.repository_id@)]
        } else {
            seq![]
        })
    }
}

/// The text of an optional owned string.
pub open spec fn opt_str_owned(o: Option<String>) -> Option<Seq<char>> {
    match o {
        Some(s) => Some(s@),
        None => None,
    }
}

/// The finding about one entry of the sessions directory.
pub open spec fn entry_issues(e: SessionDirEntry) -> Seq<IssueView> {
    if e.file_name@ != ".names"@ && e.is_dir && !e.has_metadata {
        seq![("warn"@, "orphan_session_dir"@, "session directory without metadata: "@ + e.path@
            + " (incomplete create? try destroy --force or remove the dir)"@)]
    } else {
        seq![]
    }
}

/// The findings about the Cursor integration.
pub open spec fn cursor_issues(c: CursorCheck) -> Seq<IssueView> {
    (match c.hooks {
        HooksFile::Absent => seq![],
        HooksFile::Text(t) => (if contains_text(t@, "lazytree-session-start"@) {
            seq![]
        } else {
            seq![("info"@, "cursor_hooks_unrelated"@, ".cursor/hooks.json exists but does not reference LazyTree hooks ("@ + c.hooks_path@ + ")"@)]
        }) + (if c.skill_is_file { seq![] } else { seq![skill_missing()] }),
        HooksFile::Unreadable(e) => seq![("warn"@, "cursor_hooks_unreadable"@, "cannot read "@ + c.hooks_path@ + ": "@ + e@)]
            + (if c.skill_is_file { seq![] } else { seq![skill_missing()] }),
    }) + (match c.mappings {
        Some((dir, stale)) => if stale > 0 {
            seq![("warn"@, "cursor_stale_mappings"@, decimal(stale as nat) + " Cursor LazyTree mapping(s) under "@ + dir@ + " point at missing roots"@)]
        } else {
            seq![]
        },
        None => seq![],
    })
}

/// The finding when the hooks are present but the skill is not.
pub open spec fn skill_missing() -> IssueView {
    ("info"@, "cursor_skill_missing"@, "LazyTree hooks present but skill .cursor/skills/lazytree-session/SKILL.md is missing"@)
}

/// Concatenation of the findings for each element.
pub open spec fn all_repo_issues(cs: Seq<RepoCheck>) -> Seq<IssueView>
    decreases cs.len(),
{
    if cs.len() == 0 { seq![] } else { all_repo_issues(cs.drop_last()) + repo_issues(cs.last()) }
}

/// Concatenation of the findings for each session.
pub open spec fn all_session_issues(cs: Seq<SessionCheck>, repos: Seq<Repository>) -> Seq<IssueView>
    decreases cs.len(),
{
    if cs.len() == 0 { seq![] } else { all_session_issues(cs.drop_last(), repos) + session_issues(cs.last(), repos) }
}

/// Concatenation of the findings for each directory entry.
pub open spec fn all_entry_issues(es: Seq<SessionDirEntry>) -> Seq<IssueView>
    decreases es.len(),
{
    if es.len() == 0 { seq![] } else { all_entry_issues(es.drop_last()) + entry_issues(es.last()) }
}

/// Every finding of `lazytree doctor`, in the order it reports them:
/// repositories, sessions, orphan directories, Cursor, host, home.
pub open spec fn doctor_issues(f: DoctorFacts, home: Seq<char>) -> Seq<IssueView> {
    let repos = f.repos@.map_values(|c: RepoCheck| c.repo);
    all_repo_issues(f.repos@) + all_session_issues(f.sessions@, repos) + all_entry_issues(f.session_dir_entries@)
        + (match f.cursor { Some(c) => cursor_issues(c), None => seq![] })
        + host_issues_on(f.os, f.fuse_ok, f.unionfs_ok, f.sudo_ok)
        + seq![("info"@, "lazytree_home"@, "LAZYTREE_HOME="@ + home)]
}

/// The report and the sessions (positions in the facts) whose records must
/// be rewritten as unmounted.
#[derive(Debug)]
pub struct DoctorOutcome {
    pub report: DoctorReport,
    pub mark_unmounted: Vec<usize>,
}

fn push_all(out: &mut Vec<DoctorIssue>, more: Vec<DoctorIssue>)
    ensures
        issues_view(final(out)@) == issues_view(old(out)@) + issues_view(more@),
{
    let mut more = more;
    let ghost m = more@;
    out.append(&mut more);
    assert(issues_view(out@) =~= issues_view(old(out)@) + issues_view(m));
}

fn one(severity: &str, code: &str, message: String) -> (v: Vec<DoctorIssue>)
    ensures
        issues_view(v@) == seq![(severity@, code@, message@)],
{
    let v = vec![issue(severity, code, message)];
    assert(issues_view(v@) =~= seq![(severity@, code@, message@)]);
    v
}

fn none() -> (v: Vec<DoctorIssue>)
    ensures
        issues_view(v@) == Seq::<IssueView>::empty(),
{
    let v: Vec<DoctorIssue> = Vec::new();
    assert(issues_view(v@) =~= Seq::<IssueView>::empty());
    v
}

fn text4(a: &str, b: &str, c: &str, d: &str) -> (r: String)
    ensures
        r@ == a@ + b@ + c@ + d@,
{
    let mut r = owned(a);
    push_str(&mut r, b);
    push_str(&mut r, c);
    push_str(&mut r, d);
    r
}

fn repo_issues_exec(c: &RepoCheck) -> (v: Vec<DoctorIssue>)
    ensures
        issues_view(v@) == repo_issues(*c),
{
    let mut v = none();
    if !c.base_is_dir {
        let m = text4("repository ", c.repo.id.as_str(), " base missing: ", c.repo.base_path.as_str());
        push_all(&mut v, one("error", "missing_repo_base", m));
    }
    if !c.objects_is_dir {
        let m = text4("repository ", c.repo.id.as_str(), " object store missing: ", c.repo.object_store.as_str());
        push_all(&mut v, one("error", "missing_object_store", m));
    }
    assert(issues_view(v@) =~= repo_issues(*c));
    v
}

fn str_eq(a: &str, b: &str) -> (r: bool)
    ensures
        r == (a@ == b@),
{
    let x = chars_of(a);
    let y = chars_of(b);
    chars_eq(&x, &y)
}

fn session_issues_exec(c: &SessionCheck, store: &RepositoryStore, repos: &Vec<Repository>) -> (v: Vec<DoctorIssue>)
    ensures
        issues_view(v@) == session_issues(*c, repos@),
{
    let s = &c.session;
    if !c.dir_is_dir {
        let m = concat2("session ", s.name.as_str());
        let m = concat2(m.as_str(), " directory missing");
        return one("error", "missing_session_dir", m);
    }
    let mut v = none();
    let stale = str_eq(s.filesystem.state.as_str(), "mounted") && !c.mounted;
    if stale {
        let m = concat2("session ", s.name.as_str());
        let m = concat2(m.as_str(), " metadata says mounted but mount is absent; marking unmounted");
        push_all(&mut v, one("warn", "stale_mount_metadata", m));
    } else if str_eq(s.filesystem.state.as_str(), "unmounted") && c.mounted {
        let m = concat2("session ", s.name.as_str());
        let m = concat2(m.as_str(), " metadata says unmounted but mount is present");
        push_all(&mut v, one("warn", "unexpected_mount", m));
    }
    let ghost first = issues_view(v@);
    let fs_archived = !stale && str_eq(s.filesystem.state.as_str(), "archived");
    if str_eq(s.git.state.as_str(), "ready") && !c.head_exists && !fs_archived && !str_eq(s.lifecycle.as_str(), "archived") {
        let m = concat2("session ", s.name.as_str());
        let m = concat2(m.as_str(), " missing Git metadata");
        push_all(&mut v, one("error", "missing_git_dir", m));
    }
    let ghost second = issues_view(v@);
    let canonical = match &c.repo_canonical {
        Some(x) => Some(x.as_str()),
        None => None,
    };
    if store.get(repos, s.repository_id.as_str(), canonical).is_err() {
        let m = text4("session ", s.name.as_str(), " references missing repository ", s.repository_id.as_str());
        push_all(&mut v, one("error", "missing_repository", m));
    }
    proof {
        assert(opt_str(canonical) == opt_str_owned(c.repo_canonical));
        let fs_state = if stale_mount(*c) { "unmounted"@ } else { s.filesystem.state@ };
        reveal_strlit("unmounted");
        reveal_strlit("archived");
        assert(stale == stale_mount(*c));
        assert("unmounted"@.len() != "archived"@.len());
        assert(fs_archived == (fs_state == "archived"@));
        assert(issues_view(v@) =~= session_issues(*c, repos@));
    }
    v
}

fn entry_issues_exec(e: &SessionDirEntry) -> (v: Vec<DoctorIssue>)
    ensures
        issues_view(v@) == entry_issues(*e),
{
    if !str_eq(e.file_name.as_str(), ".names") && e.is_dir && !e.has_metadata {
        let m = concat2("session directory without metadata: ", e.path.as_str());
        let m = concat2(m.as_str(), " (incomplete create? try destroy --force or remove the dir)");
        one("warn", "orphan_session_dir", m)
    } else {
        none()
    }
}

fn cursor_issues_exec(c: &CursorCheck) -> (v: Vec<DoctorIssue>)
    ensures
        issues_view(v@) == cursor_issues(*c),
{
    let mut v = none();
    let hooks_present = match &c.hooks {
        HooksFile::Absent => false,
        HooksFile::Text(t) => {
            if !text_contains(t.as_str(), "lazytree-session-start") {
                let m = concat2(".cursor/hooks.json exists but does not reference LazyTree hooks (", c.hooks_path.as_str());
                let m = concat2(m.as_str(), ")");
                push_all(&mut v, one("info", "cursor_hooks_unrelated", m));
            }
            true
        },
        HooksFile::Unreadable(e) => {
            let m = text4("cannot read ", c.hooks_path.as_str(), ": ", e.as_str());
            push_all(&mut v, one("warn", "cursor_hooks_unreadable", m));
            true
        },
    };
    if hooks_present && !c.skill_is_file {
        push_all(&mut v, one("info", "cursor_skill_missing", owned("LazyTree hooks present but skill .cursor/skills/lazytree-session/SKILL.md is missing")));
    }
    let ghost mid = issues_view(v@);
    match &c.mappings {
        Some((dir, stale)) => {
            if *stale > 0 {
                let n = u64_to_decimal(*stale);
                let m = text4(n.as_str(), " Cursor LazyTree mapping(s) under ", dir.as_str(), " point at missing roots");
                push_all(&mut v, one("warn", "cursor_stale_mappings", m));
            }
        },
        None => {},
    }
    assert(issues_view(v@) =~= cursor_issues(*c));
    v
}

/// Builds the `lazytree doctor` report for the home `paths` from what the
/// caller found, and lists the sessions whose record says mounted while
/// their root is not a mount point (to rewrite as unmounted).
pub fn run_doctor(paths: &Paths, facts: &DoctorFacts) -> (o: DoctorOutcome)
    ensures
        issues_view(o.report.issues@) == doctor_issues(*facts, paths.home@),
        o.report.ok <==> forall|i: int| 0 <= i < o.report.issues@.len() ==> (#[trigger] o.report.issues@[i]).severity@ != "error"@,
        forall|k: int| 0 <= k < o.mark_unmounted@.len() ==> o.mark_unmounted@[k] < facts.sessions@.len()
            && stale_mount(facts.sessions@[o.mark_unmounted@[k] as int]),
        forall|j: int| 0 <= j < facts.sessions@.len() && stale_mount(#[trigger] facts.sessions@[j]) ==> o.mark_unmounted@.contains(j as usize),
{
    let store = RepositoryStore::new(Paths { home: owned(paths.home.as_str()) });
    let mut repos: Vec<Repository> = Vec::new();
    let mut issues = none();
    let mut i: usize = 0;
    while i < facts.repos.len()
        invariant
            i <= facts.repos@.len(),
            repos@ == facts.repos@.take(i as int).map_values(|c: RepoCheck| c.repo),
            issues_view(issues@) == all_repo_issues(facts.repos@.take(i as int)),
        decreases facts.repos.len() - i,
    {
        let c = &facts.repos[i];
        repos.push(c.repo.clone());
        push_all(&mut issues, repo_issues_exec(c));
        proof {
            assert(facts.repos@.take(i + 1).drop_last() =~= facts.repos@.take(i as int));
            assert(repos@ =~= facts.repos@.take(i + 1).map_values(|c: RepoCheck| c.repo));
        }
        i = i + 1;
    }
    assert(facts.repos@.take(i as int) =~= facts.repos@);
    let ghost after_repos = issues_view(issues@);
    let mut marks: Vec<usize> = Vec::new();
    let mut j: usize = 0;
    while j < facts.sessions.len()
        invariant
            j <= facts.sessions@.len(),
            repos@ == facts.repos@.map_values(|c: RepoCheck| c.repo),
            issues_view(issues@) == after_repos + all_session_issues(facts.sessions@.take(j as int), repos@),
            forall|k: int| 0 <= k < marks@.len() ==> marks@[k] < j && stale_mount(facts.sessions@[marks@[k] as int]),
            forall|q: int| 0 <= q < j && stale_mount(#[trigger] facts.sessions@[q]) ==> marks@.contains(q as usize),
        decreases facts.sessions.len() - j,
    {
        let c = &facts.sessions[j];
        push_all(&mut issues, session_issues_exec(c, &store, &repos));
        let ghost old_marks = marks@;
        if c.dir_is_dir && str_eq(c.session.filesystem.state.as_str(), "mounted") && !c.mounted {
            marks.push(j);
            assert(marks@[marks@.len() - 1] == j);
        }
        proof {
            assert forall|q: int| 0 <= q < j + 1 && stale_mount(#[trigger] facts.sessions@[q]) implies marks@.contains(q as usize) by {
                if q < j {
                    assert(old_marks.contains(q as usize));
                    let m = choose|m: int| 0 <= m < old_marks.len() && old_marks[m] == q as usize;
                    assert(marks@[m] == q as usize);
                } else {
                    assert(marks@[marks@.len() - 1] == j);
                }
            }
            assert(facts.sessions@.take(j + 1).drop_last() =~= facts.sessions@.take(j as int));
            assert(issues_view(issues@) =~= after_repos + all_session_issues(facts.sessions@.take(j + 1), repos@));
        }
        j = j + 1;
    }
    assert(facts.sessions@.take(j as int) =~= facts.sessions@);
    let ghost after_sessions = issues_view(issues@);
    let mut k: usize = 0;
    while k < facts.session_dir_entries.len()
        invariant
            k <= facts.session_dir_entries@.len(),
            issues_view(issues@) == after_sessions + all_entry_issues(facts.session_dir_entries@.take(k as int)),
        decreases facts.session_dir_entries.len() - k,
    {
        push_all(&mut issues, entry_issues_exec(&facts.session_dir_entries[k]));
        proof {
            assert(facts.session_dir_entries@.take(k + 1).drop_last() =~= facts.session_dir_entries@.take(k as int));
            assert(issues_view(issues@) =~= after_sessions + all_entry_issues(facts.session_dir_entries@.take(k + 1)));
        }
        k = k + 1;
    }
    assert(facts.session_dir_entries@.take(k as int) =~= facts.session_dir_entries@);
    match &facts.cursor {
        Some(c) => push_all(&mut issues, cursor_issues_exec(c)),
        None => {},
    }
    let ghost before_host = issues_view(issues@);
    let host = doctor_host_issues_on(facts.os, facts.fuse_ok, facts.unionfs_ok, facts.sudo_ok);
    let mut h: usize = 0;
    while h < host.len()
        invariant
            h <= host@.len(),
            issues_view(issues@) == before_host + host@.take(h as int).map_values(|t: (String, String, String)| (t.0@, t.1@, t.2@)),
        decreases host.len() - h,
    {
        let t = &host[h];
        push_all(&mut issues, one(t.0.as_str(), t.1.as_str(), owned(t.2.as_str())));
        proof {
            assert(issues_view(issues@) =~= before_host + host@.take(h + 1).map_values(|t: (String, String, String)| (t.0@, t.1@, t.2@)));
        }
        h = h + 1;
    }
    assert(host@.take(h as int) =~= host@);
    push_all(&mut issues, one("info", "lazytree_home", concat2("LAZYTREE_HOME=", paths.home.as_str())));
    assert(issues_view(issues@) =~= doctor_issues(*facts, paths.home@));
    let mut ok = true;
    let mut q: usize = 0;
    while q < issues.len()
        invariant
            q <= issues@.len(),
            ok <==> forall|x: int| 0 <= x < q ==> (#[trigger] issues@[x]).severity@ != "error"@,
        decreases issues.len() - q,
    {
        if str_eq(issues[q].severity.as_str(), "error") {
            ok = false;
        }
        q = q + 1;
    }
    DoctorOutcome { report: DoctorReport { ok, issues }, mark_unmounted: marks }
}

/// The record the doctor writes for a session whose mount is gone: the
/// filesystem marked unmounted now, the rest unchanged.
pub fn unmounted_record(session: &Session) -> (s: Session)
    ensures
        s == (Session {
            filesystem: FilesystemMeta { state: s.filesystem.state, ..session.filesystem },
            updated_at: s.updated_at,
            ..*session
        }),
        s.filesystem.state@ == "unmounted"@,
        s.updated_at@.len() > 0 && s.updated_at@.last() == 'Z',
{
    let now = crate::util::timestamp_now();
    unmounted_record_at(session, now.as_str())
}

/// The record the doctor writes for a session whose mount is gone: the
/// filesystem marked unmounted at `now`, the rest unchanged.
pub fn unmounted_record_at(session: &Session, now: &str) -> (s: Session)
    ensures
        s == (Session {
            filesystem: FilesystemMeta { state: s.filesystem.state, ..session.filesystem },
            updated_at: s.updated_at,
            ..*session
        }),
        s.filesystem.state@ == "unmounted"@,
        s.updated_at@ == now@,
{
    let mut s = session.clone();
    s.filesystem.state = owned("unmounted");
    s.updated_at = owned(now);
    s
}

/// The `"root"` string member of the JSON text `raw`, when `raw` is a JSON
/// object with such a member (what `serde_json` parses it to).
pub uninterp spec fn json_root_field(raw: Seq<char>) -> Option<Seq<char>>;

/// `serde_json::from_str::<serde_json::Value>` on `raw`, then the `"root"`
/// member when it is a string. Claimed: the result is `json_root_field` of
/// the text; what that is for a given text is left to `serde_json`.
#[verifier::external_body]
pub(crate) fn parse_mapping_root(raw: &str) -> (r: Option<String>)
    ensures
        opt_str_owned(r) == json_root_field(raw@),
{
    match serde_json::from_str::<serde_json::Value>(raw) {
        Ok(v) => match v.get("root") {
            Some(serde_json::Value::String(s)) => Some(s.clone()),
            _ => None,
        },
        Err(_) => None,
    }
}

/// The root each Cursor session mapping (the raw text of each mapping file)
/// names.
pub fn mapping_roots(raws: &Vec<String>) -> (v: Vec<Option<String>>)
    ensures
        v@.len() == raws@.len(),
        forall|i: int| 0 <= i < raws@.len() ==> opt_str_owned(#[trigger] v@[i]) == json_root_field(raws@[i]@),
{
    let mut v: Vec<Option<String>> = Vec::new();
    let mut i: usize = 0;
    while i < raws.len()
        invariant
            i <= raws@.len(),
            v@.len() == i,
            forall|k: int| 0 <= k < i ==> opt_str_owned(#[trigger] v@[k]) == json_root_field(raws@[k]@),
        decreases raws.len() - i,
    {
        v.push(parse_mapping_root(raws[i].as_str()));
        i = i + 1;
    }
    v
}

/// How many of the mappings name a root that is not a directory.
pub open spec fn stale_count(present: Seq<Option<bool>>) -> nat
    decreases present.len(),
{
    if present.len() == 0 {
        0
    } else {
        stale_count(present.drop_last()) + if present.last() == Some(false) { 1nat } else { 0nat }
    }
}

/// Counts the mappings whose root is missing: for each mapping, `None` when
/// it names no root, else whether the root is a directory.
pub fn count_stale_mappings(present: &Vec<Option<bool>>) -> (n: u64)
    ensures
        n == stale_count(present@),
{
    let mut n: u64 = 0;
    let mut i: usize = 0;
    while i < present.len()
        invariant
            i <= present@.len(),
            n == stale_count(present@.take(i as int)),
            n <= i,
        decreases present.len() - i,
    {
        assert(present@.take(i + 1).drop_last() =~= present@.take(i as int));
        if present[i] == Some(false) {
            n = n + 1;
        }
        i = i + 1;
    }
    assert(present@.take(i as int) =~= present@);
    n
}

/// Whether a file name has the extension `json` (`Path::extension`: the
/// text after the last `.`, unless that `.` starts the name).
pub open spec fn json_extension(name: Seq<char>) -> bool {
    name.len() > 5 && name.subrange(name.len() - 5, name.len() as int) == ".json"@
}

/// Whether a mapping file name ends in `.json` with something before it.
pub fn has_json_extension(name: &str) -> (b: bool)
    ensures
        b == json_extension(name@),
{
    let cs = chars_of(name);
    let n = cs.len();
    if n <= 5 {
        return false;
    }
    let ok = cs[n - 5] == '.' && cs[n - 4] == 'j' && cs[n - 3] == 's' && cs[n - 2] == 'o' && cs[n - 1] == 'n';
    proof {
        reveal_strlit(".json");
        if ok {
            assert(cs@.subrange(n - 5, n as int) =~= ".json"@);
        } else {
            if cs@.subrange(n - 5, n as int) == ".json"@ {
                assert(cs@.subrange(n - 5, n as int)[0] == cs@[n - 5]);
                assert(cs@.subrange(n - 5, n as int)[1] == cs@[n - 4]);
                assert(cs@.subrange(n - 5, n as int)[2] == cs@[n - 3]);
                assert(cs@.subrange(n - 5, n as int)[3] == cs@[n - 2]);
                assert(cs@.subrange(n - 5, n as int)[4] == cs@[n - 1]);
            }
        }
    }
    ok
}

/// No finding in `v` has the code `lazytree_home`.
pub open spec fn without_home_code(v: Seq<IssueView>) -> bool {
    forall|i: int| 0 <= i < v.len() ==> (#[trigger] v[i]).1 != "lazytree_home"@
}

proof fn lemma_concat_without_home(a: Seq<IssueView>, b: Seq<IssueView>)
    requires
        without_home_code(a),
        without_home_code(b),
    ensures
        without_home_code(a + b),
{
    assert forall|i: int| 0 <= i < (a + b).len() implies (#[trigger] (a + b)[i]).1 != "lazytree_home"@ by {
        if i < a.len() {
            assert((a + b)[i] == a[i]);
        } else {
            assert((a + b)[i] == b[i - a.len()]);
        }
    }
}

proof fn lemma_codes_differ()
    ensures
        "missing_repo_base"@ != "lazytree_home"@,
        "missing_object_store"@ != "lazytree_home"@,
        "missing_session_dir"@ != "lazytree_home"@,
        "stale_mount_metadata"@ != "lazytree_home"@,
        "unexpected_mount"@ != "lazytree_home"@,
        "missing_git_dir"@ != "lazytree_home"@,
        "missing_repository"@ != "lazytree_home"@,
        "orphan_session_dir"@ != "lazytree_home"@,
        "cursor_hooks_unrelated"@ != "lazytree_home"@,
        "cursor_skill_missing"@ != "lazytree_home"@,
        "cursor_hooks_unreadable"@ != "lazytree_home"@,
        "cursor_stale_mappings"@ != "lazytree_home"@,
        "fuse_overlayfs_missing"@ != "lazytree_home"@,
        "sudo_n_unavailable"@ != "lazytree_home"@,
        "unionfs_fuse_missing"@ != "lazytree_home"@,
        "unsupported_os"@ != "lazytree_home"@,
{
    reveal_strlit("lazytree_home");
    reveal_strlit("missing_repo_base");
    assert("missing_repo_base"@[0] != "lazytree_home"@[0]);
    reveal_strlit("missing_object_store");
    assert("missing_object_store"@[0] != "lazytree_home"@[0]);
    reveal_strlit("missing_session_dir");
    assert("missing_session_dir"@[0] != "lazytree_home"@[0]);
    reveal_strlit("stale_mount_metadata");
    assert("stale_mount_metadata"@[0] != "lazytree_home"@[0]);
    reveal_strlit("unexpected_mount");
    assert("unexpected_mount"@[0] != "lazytree_home"@[0]);
    reveal_strlit("missing_git_dir");
    assert("missing_git_dir"@[0] != "lazytree_home"@[0]);
    reveal_strlit("missing_repository");
    assert("missing_repository"@[0] != "lazytree_home"@[0]);
    reveal_strlit("orphan_session_dir");
    assert("orphan_session_dir"@[0] != "lazytree_home"@[0]);
    reveal_strlit("cursor_hooks_unrelated");
    assert("cursor_hooks_unrelated"@[0] != "lazytree_home"@[0]);
    reveal_strlit("cursor_skill_missing");
    assert("cursor_skill_missing"@[0] != "lazytree_home"@[0]);
    reveal_strlit("cursor_hooks_unreadable");
    assert("cursor_hooks_unreadable"@[0] != "lazytree_home"@[0]);
    reveal_strlit("cursor_stale_mappings");
    assert("cursor_stale_mappings"@[0] != "lazytree_home"@[0]);
    reveal_strlit("fuse_overlayfs_missing");
    assert("fuse_overlayfs_missing"@[0] != "lazytree_home"@[0]);
    reveal_strlit("sudo_n_unavailable");
    assert("sudo_n_unavailable"@[0] != "lazytree_home"@[0]);
    reveal_strlit("unionfs_fuse_missing");
    assert("unionfs_fuse_missing"@[0] != "lazytree_home"@[0]);
    reveal_strlit("unsupported_os");
    assert("unsupported_os"@[0] != "lazytree_home"@[0]);
}

proof fn lemma_repo_issues_without_home(cs: Seq<RepoCheck>)
    ensures
        without_home_code(all_repo_issues(cs)),
    decreases cs.len(),
{
    lemma_codes_differ();
    if cs.len() > 0 {
        lemma_repo_issues_without_home(cs.drop_last());
        lemma_concat_without_home(all_repo_issues(cs.drop_last()), repo_issues(cs.last()));
    }
}

proof fn lemma_session_issues_without_home(cs: Seq<SessionCheck>, repos: Seq<Repository>)
    ensures
        without_home_code(all_session_issues(cs, repos)),
    decreases cs.len(),
{
    lemma_codes_differ();
    if cs.len() > 0 {
        lemma_session_issues_without_home(cs.drop_last(), repos);
        let c = cs.last();
        let v = session_issues(c, repos);
        assert(without_home_code(v)) by {
            assert forall|i: int| 0 <= i < v.len() implies (#[trigger] v[i]).1 != "lazytree_home"@ by {
                let s = c.session;
                if c.dir_is_dir {
                    let fs_state = if stale_mount(c) { "unmounted"@ } else { s.filesystem.state@ };
                    let a = if stale_mount(c) {
                        seq![("warn"@, "stale_mount_metadata"@, "session "@ + s.name@ + " metadata says mounted but mount is absent; marking unmounted"@)]
                    } else if s.filesystem.state@ == "unmounted"@ && c.mounted {
                        seq![("warn"@, "unexpected_mount"@, "session "@ + s.name@ + " metadata says unmounted but mount is present"@)]
                    } else {
                        seq![]
                    };
                    let b = if s.git.state@ == "ready"@ && !c.head_exists && fs_state != "archived"@ && s.lifecycle@ != "archived"@ {
                        seq![("error"@, "missing_git_dir"@, "session "@ + s.name@ + " missing Git metadata"@)]
                    } else {
                        seq![]
                    };
                    let d = if none_matches(repos, s.repository_id@, opt_str_owned(c.repo_canonical)) {
                        seq![("error"@, "missing_repository"@, "session "@ + s.name@ + " references missing repository "@ + s.repository_id@)]
                    } else {
                        seq![]
                    };
                    assert(v == a + b + d);
                    lemma_concat_without_home(a, b);
                    lemma_concat_without_home(a + b, d);
                }
            }
        }
        lemma_concat_without_home(all_session_issues(cs.drop_last(), repos), v);
    }
}

proof fn lemma_entry_issues_without_home(es: Seq<SessionDirEntry>)
    ensures
        without_home_code(all_entry_issues(es)),
    decreases es.len(),
{
    lemma_codes_differ();
    if es.len() > 0 {
        lemma_entry_issues_without_home(es.drop_last());
        lemma_concat_without_home(all_entry_issues(es.drop_last()), entry_issues(es.last()));
    }
}

proof fn lemma_cursor_issues_without_home(c: CursorCheck)
    ensures
        without_home_code(cursor_issues(c)),
{
    lemma_codes_differ();
    let a = match c.hooks {
        HooksFile::Absent => seq![],
        HooksFile::Text(t) => (if contains_text(t@, "lazytree-session-start"@) {
            seq![]
        } else {
            seq![("info"@, "cursor_hooks_unrelated"@, ".cursor/hooks.json exists but does not reference LazyTree hooks ("@ + c.hooks_path@ + ")"@)]
        }) + (if c.skill_is_file { seq![] } else { seq![skill_missing()] }),
        HooksFile::Unreadable(e) => seq![("warn"@, "cursor_hooks_unreadable"@, "cannot read "@ + c.hooks_path@ + ": "@ + e@)]
            + (if c.skill_is_file { seq![] } else { seq![skill_missing()] }),
    };
    let b: Seq<IssueView> = match c.mappings {
        Some((dir, stale)) => if stale > 0 {
            seq![("warn"@, "cursor_stale_mappings"@, decimal(stale as nat) + " Cursor LazyTree mapping(s) under "@ + dir@ + " point at missing roots"@)]
        } else {
            seq![]
        },
        None => seq![],
    };
    assert(without_home_code(a)) by {
        match c.hooks {
            HooksFile::Absent => {},
            HooksFile::Text(t) => {
                let x: Seq<IssueView> = if contains_text(t@, "lazytree-session-start"@) {
                    seq![]
                } else {
                    seq![("info"@, "cursor_hooks_unrelated"@, ".cursor/hooks.json exists but does not reference LazyTree hooks ("@ + c.hooks_path@ + ")"@)]
                };
                let y: Seq<IssueView> = if c.skill_is_file { seq![] } else { seq![skill_missing()] };
                lemma_concat_without_home(x, y);
            },
            HooksFile::Unreadable(e) => {
                let x: Seq<IssueView> = seq![("warn"@, "cursor_hooks_unreadable"@, "cannot read "@ + c.hooks_path@ + ": "@ + e@)];
                let y: Seq<IssueView> = if c.skill_is_file { seq![] } else { seq![skill_missing()] };
                lemma_concat_without_home(x, y);
            },
        }
    }
    assert(cursor_issues(c) == a + b);
    lemma_concat_without_home(a, b);
}

/// `lazytree doctor` reports its home exactly once, as its last finding:
/// no other finding has the code `lazytree_home`.
pub proof fn doctor_reports_home_once(f: DoctorFacts, home: Seq<char>)
    ensures
        doctor_issues(f, home).len() >= 1,
        doctor_issues(f, home).last() == ("info"@, "lazytree_home"@, "LAZYTREE_HOME="@ + home),
        without_home_code(doctor_issues(f, home).drop_last()),
{
    lemma_codes_differ();
    let repos = f.repos@.map_values(|c: RepoCheck| c.repo);
    let r = all_repo_issues(f.repos@);
    let s = all_session_issues(f.sessions@, repos);
    let e = all_entry_issues(f.session_dir_entries@);
    let c: Seq<IssueView> = match f.cursor { Some(c) => cursor_issues(c), None => seq![] };
    let h = host_issues_on(f.os, f.fuse_ok, f.unionfs_ok, f.sudo_ok);
    lemma_repo_issues_without_home(f.repos@);
    lemma_session_issues_without_home(f.sessions@, repos);
    lemma_entry_issues_without_home(f.session_dir_entries@);
    if let Some(cc) = f.cursor {
        lemma_cursor_issues_without_home(cc);
    }
    lemma_concat_without_home(r, s);
    lemma_concat_without_home(r + s, e);
    lemma_concat_without_home(r + s + e, c);
    lemma_concat_without_home(r + s + e + c, h);
    let last = seq![("info"@, "lazytree_home"@, "LAZYTREE_HOME="@ + home)];
    assert(doctor_issues(f, home) == r + s + e + c + h + last);
    assert(doctor_issues(f, home).drop_last() =~= r + s + e + c + h);
}

proof fn lemma_session_issue_in_all(cs: Seq<SessionCheck>, repos: Seq<Repository>, j: int, x: IssueView)
    requires
        0 <= j < cs.len(),
        session_issues(cs[j], repos).contains(x),
    ensures
        all_session_issues(cs, repos).contains(x),
    decreases cs.len(),
{
    let a = all_session_issues(cs.drop_last(), repos);
    let b = session_issues(cs.last(), repos);
    assert(all_session_issues(cs, repos) == a + b);
    if j == cs.len() - 1 {
        let k = choose|k: int| 0 <= k < b.len() && b[k] == x;
        assert((a + b)[a.len() + k] == x);
    } else {
        assert(cs.drop_last()[j] == cs[j]);
        lemma_session_issue_in_all(cs.drop_last(), repos, j, x);
        let k = choose|k: int| 0 <= k < a.len() && a[k] == x;
        assert((a + b)[k] == x);
    }
}

/// The finding for a session whose Git metadata is missing.
pub open spec fn missing_git_dir_issue(name: Seq<char>) -> IssueView {
    ("error"@, "missing_git_dir"@, "session "@ + name + " missing Git metadata"@)
}

/// A session whose directory exists, whose Git layer is ready, which is not
/// archived (by lifecycle or filesystem state) and whose Git directory has
/// no `HEAD` is reported with the error `missing_git_dir`, whatever its
/// root's mount status; so the report is not ok.
pub proof fn missing_git_dir_is_reported(f: DoctorFacts, home: Seq<char>, j: int)
    requires
        0 <= j < f.sessions@.len(),
        f.sessions@[j].dir_is_dir,
        f.sessions@[j].session.git.state@ == "ready"@,
        !f.sessions@[j].head_exists,
        f.sessions@[j].session.lifecycle@ != "archived"@,
        f.sessions@[j].session.filesystem.state@ != "archived"@,
    ensures
        session_issues(f.sessions@[j], f.repos@.map_values(|c: RepoCheck| c.repo)).contains(
            missing_git_dir_issue(f.sessions@[j].session.name@)),
        doctor_issues(f, home).contains(missing_git_dir_issue(f.sessions@[j].session.name@)),
        exists|k: int| 0 <= k < doctor_issues(f, home).len() && (#[trigger] doctor_issues(f, home)[k]).0 == "error"@,
{
    reveal_strlit("unmounted");
    reveal_strlit("archived");
    assert("unmounted"@ != "archived"@) by {
        assert("unmounted"@[0] != "archived"@[0]);
    }
    let repos = f.repos@.map_values(|c: RepoCheck| c.repo);
    let c = f.sessions@[j];
    let s = c.session;
    let x = missing_git_dir_issue(s.name@);
    let fs_state = if stale_mount(c) { "unmounted"@ } else { s.filesystem.state@ };
    assert(fs_state != "archived"@);
    let a: Seq<IssueView> = if stale_mount(c) {
        seq![("warn"@, "stale_mount_metadata"@, "session "@ + s.name@ + " metadata says mounted but mount is absent; marking unmounted"@)]
    } else if s.filesystem.state@ == "unmounted"@ && c.mounted {
        seq![("warn"@, "unexpected_mount"@, "session "@ + s.name@ + " metadata says unmounted but mount is present"@)]
    } else {
        seq![]
    };
    let d: Seq<IssueView> = if none_matches(repos, s.repository_id@, opt_str_owned(c.repo_canonical)) {
        seq![("error"@, "missing_repository"@, "session "@ + s.name@ + " references missing repository "@ + s.repository_id@)]
    } else {
        seq![]
    };
    let v = session_issues(c, repos);
    assert(v == a + seq![x] + d);
    assert(v[a.len() as int] == x);
    assert(v.contains(x));
    lemma_session_issue_in_all(f.sessions@, repos, j, x);
    let r = all_repo_issues(f.repos@);
    let sa = all_session_issues(f.sessions@, repos);
    let e = all_entry_issues(f.session_dir_entries@);
    let cu: Seq<IssueView> = match f.cursor { Some(cc) => cursor_issues(cc), None => seq![] };
    let h = host_issues_on(f.os, f.fuse_ok, f.unionfs_ok, f.sudo_ok);
    let last = seq![("info"@, "lazytree_home"@, "LAZYTREE_HOME="@ + home)];
    let all = doctor_issues(f, home);
    assert(all == r + sa + e + cu + h + last);
    let k = choose|k: int| 0 <= k < sa.len() && sa[k] == x;
    assert(all[r.len() + k] == x);
    assert(all.contains(x));
    assert(all[r.len() + k].0 == "error"@);
}

/// Some finding in `v` has the code `code`.
pub open spec fn has_code(v: Seq<IssueView>, code: Seq<char>) -> bool {
    exists|k: int| 0 <= k < v.len() && (#[trigger] v[k]).1 == code
}

proof fn lemma_has_code_concat(a: Seq<IssueView>, b: Seq<IssueView>, code: Seq<char>)
    ensures
        has_code(a + b, code) <==> has_code(a, code) || has_code(b, code),
{
    if has_code(a + b, code) {
        let k = choose|k: int| 0 <= k < (a + b).len() && (#[trigger] (a + b)[k]).1 == code;
        if k < a.len() {
            assert(a[k] == (a + b)[k]);
        } else {
            assert(b[k - a.len()] == (a + b)[k]);
        }
    }
    if has_code(a, code) {
        let k = choose|k: int| 0 <= k < a.len() && (#[trigger] a[k]).1 == code;
        assert((a + b)[k] == a[k]);
    }
    if has_code(b, code) {
        let k = choose|k: int| 0 <= k < b.len() && (#[trigger] b[k]).1 == code;
        assert((a + b)[a.len() + k] == b[k]);
    }
}

proof fn lemma_has_code_one(x: IssueView, code: Seq<char>)
    ensures
        has_code(seq![x], code) <==> x.1 == code,
        !has_code(Seq::<IssueView>::empty(), code),
{
    if x.1 == code {
        assert(seq![x][0] == x);
    }
}

/// What the doctor finds about one session: a session whose directory is
/// missing gets that single error; otherwise it is warned about exactly
/// when its record says mounted but the root is not (`stale_mount_metadata`)
/// or says unmounted but the root is (`unexpected_mount`), an error
/// `missing_git_dir` exactly when its Git layer is ready, not archived, and
/// its Git directory has no `HEAD` (whatever the mount status), and an error
/// `missing_repository` exactly when its repository is not registered.
pub proof fn session_findings(c: SessionCheck, repos: Seq<Repository>)
    ensures
        !c.dir_is_dir ==> session_issues(c, repos)
            == seq![("error"@, "missing_session_dir"@, "session "@ + c.session.name@ + " directory missing"@)],
        c.dir_is_dir ==> (has_code(session_issues(c, repos), "stale_mount_metadata"@)
            <==> c.session.filesystem.state@ == "mounted"@ && !c.mounted),
        c.dir_is_dir ==> (has_code(session_issues(c, repos), "unexpected_mount"@)
            <==> c.session.filesystem.state@ == "unmounted"@ && c.mounted),
        c.dir_is_dir ==> (has_code(session_issues(c, repos), "missing_git_dir"@)
            <==> c.session.git.state@ == "ready"@ && !c.head_exists && c.session.lifecycle@ != "archived"@
                && c.session.filesystem.state@ != "archived"@),
        c.dir_is_dir ==> (has_code(session_issues(c, repos), "missing_repository"@)
            <==> none_matches(repos, c.session.repository_id@, opt_str_owned(c.repo_canonical))),
{
    reveal_strlit("unmounted");
    reveal_strlit("mounted");
    reveal_strlit("archived");
    reveal_strlit("stale_mount_metadata");
    reveal_strlit("unexpected_mount");
    reveal_strlit("missing_git_dir");
    reveal_strlit("missing_repository");
    assert("unmounted"@[0] != "archived"@[0]);
    assert("unmounted"@[0] != "mounted"@[0]);
    assert("mounted"@[0] != "archived"@[0]);
    assert("stale_mount_metadata"@[0] != "unexpected_mount"@[0]);
    assert("stale_mount_metadata"@[0] != "missing_git_dir"@[0]);
    assert("stale_mount_metadata"@[0] != "missing_repository"@[0]);
    assert("unexpected_mount"@[0] != "missing_git_dir"@[0]);
    assert("unexpected_mount"@[0] != "missing_repository"@[0]);
    assert("missing_git_dir"@[8] != "missing_repository"@[8]);
    if c.dir_is_dir {
        let s = c.session;
        let fs_state = if stale_mount(c) { "unmounted"@ } else { s.filesystem.state@ };
        let x1 = ("warn"@, "stale_mount_metadata"@, "session "@ + s.name@ + " metadata says mounted but mount is absent; marking unmounted"@);
        let x2 = ("warn"@, "unexpected_mount"@, "session "@ + s.name@ + " metadata says unmounted but mount is present"@);
        let x3 = ("error"@, "missing_git_dir"@, "session "@ + s.name@ + " missing Git metadata"@);
        let x4 = ("error"@, "missing_repository"@, "session "@ + s.name@ + " references missing repository "@ + s.repository_id@);
        let a: Seq<IssueView> = if stale_mount(c) { seq![x1] } else if s.filesystem.state@ == "unmounted"@ && c.mounted { seq![x2] } else { seq![] };
        let b: Seq<IssueView> = if s.git.state@ == "ready"@ && !c.head_exists && fs_state != "archived"@ && s.lifecycle@ != "archived"@ { seq![x3] } else { seq![] };
        let d: Seq<IssueView> = if none_matches(repos, s.repository_id@, opt_str_owned(c.repo_canonical)) { seq![x4] } else { seq![] };
        assert(session_issues(c, repos) == a + b + d);
        let codes = seq!["stale_mount_metadata"@, "unexpected_mount"@, "missing_git_dir"@, "missing_repository"@];
        assert forall|i: int| 0 <= i < 4 implies
            (has_code(a + b + d, #[trigger] codes[i]) <==> has_code(a, codes[i]) || has_code(b, codes[i]) || has_code(d, codes[i])) by {
            lemma_has_code_concat(a + b, d, codes[i]);
            lemma_has_code_concat(a, b, codes[i]);
        }
        assert forall|i: int| 0 <= i < 4 implies {
            &&& (has_code(seq![x1], #[trigger] codes[i]) <==> x1.1 == codes[i])
            &&& (has_code(seq![x2], codes[i]) <==> x2.1 == codes[i])
            &&& (has_code(seq![x3], codes[i]) <==> x3.1 == codes[i])
            &&& (has_code(seq![x4], codes[i]) <==> x4.1 == codes[i])
            &&& !has_code(Seq::<IssueView>::empty(), codes[i])
        } by {
            lemma_has_code_one(x1, codes[i]);
            lemma_has_code_one(x2, codes[i]);
            lemma_has_code_one(x3, codes[i]);
            lemma_has_code_one(x4, codes[i]);
        }
        assert(codes[0] == "stale_mount_metadata"@);
        assert(codes[1] == "unexpected_mount"@);
        assert(codes[2] == "missing_git_dir"@);
        assert(codes[3] == "missing_repository"@);
    }
}

/// Once the doctor has rewritten a session whose mount is gone as
/// unmounted, the next run no longer warns about it; its other findings stay
/// the same.
pub proof fn doctor_repair_is_stable(c: SessionCheck, fixed: SessionCheck, repos: Seq<Repository>)
    requires
        stale_mount(c),
        fixed.session == (Session {
            filesystem: FilesystemMeta { state: fixed.session.filesystem.state, ..c.session.filesystem },
            updated_at: fixed.session.updated_at,
            ..c.session
        }),
        fixed.session.filesystem.state@ == "unmounted"@,
        fixed.dir_is_dir == c.dir_is_dir,
        fixed.mounted == c.mounted,
        fixed.head_exists == c.head_exists,
        fixed.repo_canonical == c.repo_canonical,
    ensures
        !stale_mount(fixed),
        session_issues(c, repos).len() >= 1,
        session_issues(c, repos)[0].1 == "stale_mount_metadata"@,
        session_issues(fixed, repos) == session_issues(c, repos).drop_first(),
{
    reveal_strlit("unmounted");
    reveal_strlit("mounted");
    assert("unmounted"@ != "mounted"@) by {
        assert("unmounted"@[0] != "mounted"@[0]);
    }
    let s = c.session;
    let first = seq![("warn"@, "stale_mount_metadata"@, "session "@ + s.name@ + " metadata says mounted but mount is absent; marking unmounted"@)];
    let rest = session_issues(fixed, repos);
    assert(session_issues(c, repos) == first + rest);
    assert((first + rest).drop_first() =~= rest);
}

} // verus!
