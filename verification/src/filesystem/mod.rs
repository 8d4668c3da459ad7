//! Overlay-shaped copy-on-write mounts: backend order, mount and unmount
//! procedures, and host capability findings.
//!
//! The procedures are step functions: the caller performs each action they
//! return (run a command, look at the mount table) and feeds the outcome back.
pub mod backend;
pub mod cmd;
pub mod detect;
pub mod plugins;
pub mod registry;
pub mod overlayfs;
pub mod unionfs;

use vstd::prelude::*;
use crate::metadata::FilesystemBackendKind;
use crate::text::{owned, concat2, u64_to_decimal, decimal};

verus! {

/// Where a session's layers live.
#[derive(Clone, Debug)]
pub struct MountRequest {
    pub lowerdir: String,
    pub upperdir: String,
    pub workdir: String,
    pub merged: String,
    pub preferred: FilesystemBackendKind,
    /// Hint from prior successful mounts (Auto mode tries this first).
    pub last_working: Option<FilesystemBackendKind>,
    /// When `Some(true)`, skip unprivileged mount attempts and use `sudo -n` directly.
    pub needs_sudo: Option<bool>,
}

/// Outcome of a successful mount.
#[derive(Clone, Copy, Debug, PartialEq, Eq, Structural)]
pub struct MountedSession {
    pub backend: FilesystemBackendKind,
    /// Whether the successful mount used `sudo -n`.
    pub used_sudo: bool,
}

/// The operating system the mounts happen on.
#[derive(Clone, Copy, Debug, PartialEq, Eq, Structural)]
pub enum HostOs {
    Linux,
    MacOs,
    /// Any other: no backend is available.
    Other,
}

/// The order in which Auto tries backends on `os`: on macOS unionfs-fuse
/// alone, on Linux `auto_order_spec`, elsewhere none.
pub open spec fn auto_order_on_spec(os: HostOs, last: Option<FilesystemBackendKind>) -> Seq<FilesystemBackendKind> {
    match os {
        HostOs::Linux => auto_order_spec(last),
        HostOs::MacOs => seq![FilesystemBackendKind::UnionfsFuse],
        HostOs::Other => seq![],
    }
}

/// Backends for Auto on `os`.
pub fn auto_backend_order_on(os: HostOs, last: Option<FilesystemBackendKind>) -> (v: Vec<FilesystemBackendKind>)
    ensures
        v@ == auto_order_on_spec(os, last),
{
    match os {
        HostOs::Linux => auto_backend_order(last),
        HostOs::MacOs => vec![FilesystemBackendKind::UnionfsFuse],
        HostOs::Other => Vec::new(),
    }
}

/// The Linux order in which Auto tries backends.
pub open spec fn auto_order_spec(last: Option<FilesystemBackendKind>) -> Seq<FilesystemBackendKind> {
    match last {
        Some(FilesystemBackendKind::FuseOverlayfs) => seq![
            FilesystemBackendKind::FuseOverlayfs,
            FilesystemBackendKind::KernelOverlayfs,
        ],
        Some(FilesystemBackendKind::KernelOverlayfs) => seq![
            FilesystemBackendKind::KernelOverlayfs,
            FilesystemBackendKind::FuseOverlayfs,
        ],
        Some(FilesystemBackendKind::UnionfsFuse) => seq![
            FilesystemBackendKind::UnionfsFuse,
            FilesystemBackendKind::KernelOverlayfs,
            FilesystemBackendKind::FuseOverlayfs,
        ],
        _ => seq![FilesystemBackendKind::KernelOverlayfs, FilesystemBackendKind::FuseOverlayfs],
    }
}

/// Backends for Auto, the last one that worked first; kernel OverlayFS is
/// preferred over fuse-overlayfs otherwise.
pub fn auto_backend_order(last: Option<FilesystemBackendKind>) -> (v: Vec<FilesystemBackendKind>)
    ensures
        v@ == auto_order_spec(last),
{
    match last {
        Some(FilesystemBackendKind::FuseOverlayfs) => vec![
            FilesystemBackendKind::FuseOverlayfs,
            FilesystemBackendKind::KernelOverlayfs,
        ],
        Some(FilesystemBackendKind::KernelOverlayfs) => vec![
            FilesystemBackendKind::KernelOverlayfs,
            FilesystemBackendKind::FuseOverlayfs,
        ],
        Some(FilesystemBackendKind::UnionfsFuse) => vec![
            FilesystemBackendKind::UnionfsFuse,
            FilesystemBackendKind::KernelOverlayfs,
            FilesystemBackendKind::FuseOverlayfs,
        ],
        _ => vec![FilesystemBackendKind::KernelOverlayfs, FilesystemBackendKind::FuseOverlayfs],
    }
}

/// Auto never tries `Auto` itself or the same backend twice, always tries
/// both OverlayFS backends, and tries the last backend that worked first.
pub proof fn auto_order_is_well_formed(last: Option<FilesystemBackendKind>)
    ensures
        auto_order_spec(last).len() >= 2,
        !auto_order_spec(last).contains(FilesystemBackendKind::Auto),
        auto_order_spec(last).contains(FilesystemBackendKind::KernelOverlayfs),
        auto_order_spec(last).contains(FilesystemBackendKind::FuseOverlayfs),
        forall|i: int, j: int|
            0 <= i < j < auto_order_spec(last).len() ==> auto_order_spec(last)[i]
                != auto_order_spec(last)[j],
        last matches Some(k) ==> (k != FilesystemBackendKind::Auto ==> auto_order_spec(last)[0]
            == k),
{
    let o = auto_order_spec(last);
    assert(o.contains(FilesystemBackendKind::KernelOverlayfs)) by {
        if o[0] == FilesystemBackendKind::KernelOverlayfs {
        } else if o[1] == FilesystemBackendKind::KernelOverlayfs {
        } else {
            assert(o[2] == FilesystemBackendKind::KernelOverlayfs);
        }
    }
    assert(o.contains(FilesystemBackendKind::FuseOverlayfs)) by {
        if o[0] == FilesystemBackendKind::FuseOverlayfs {
        } else if o[1] == FilesystemBackendKind::FuseOverlayfs {
        } else {
            assert(o[2] == FilesystemBackendKind::FuseOverlayfs);
        }
    }
}

// ----------------------------------------------------------------------------
// Unmount

/// The command lines an unmount tries, in order.
pub open spec fn umount_attempts_spec(
    backend: Option<FilesystemBackendKind>,
    path: Seq<char>,
    with_plain_fusermount: bool,
    fuse_kinds: spec_fn(Option<FilesystemBackendKind>) -> bool,
) -> Seq<Seq<Seq<char>>> {
    let fuse = fuse_kinds(backend);
    let kernel = backend == Some(FilesystemBackendKind::KernelOverlayfs);
    let fuse_part = if fuse {
        seq![
            seq!["fusermount3"@, "-u"@, path],
            seq!["sudo"@, "-n"@, "fusermount3"@, "-u"@, path],
        ] + if with_plain_fusermount {
            seq![seq!["fusermount"@, "-u"@, path], seq!["sudo"@, "-n"@, "fusermount"@, "-u"@, path]]
        } else {
            seq![]
        }
    } else {
        seq![]
    };
    let umount_part = if kernel || fuse {
        seq![seq!["umount"@, path], seq!["sudo"@, "-n"@, "umount"@, "-l"@, path]]
    } else {
        seq![]
    };
    fuse_part + umount_part
}

/// Backends whose mounts are FUSE mounts (an unknown backend counts as one).
pub open spec fn fuse_backend(backend: Option<FilesystemBackendKind>) -> bool {
    backend == Some(FilesystemBackendKind::FuseOverlayfs) || backend == Some(
        FilesystemBackendKind::UnionfsFuse,
    ) || backend is None
}

/// Backends a forced unmount treats as FUSE mounts: every one but the kernel
/// driver (`Auto` counts too), so that a forced unmount always has tools to
/// run.
pub open spec fn forced_fuse_backend(backend: Option<FilesystemBackendKind>) -> bool {
    backend != Some(FilesystemBackendKind::KernelOverlayfs)
}

/// Every forced unmount runs at least `umount` and `sudo -n umount -l` on
/// the path, whatever backend the session records.
pub proof fn every_forced_unmount_runs_a_tool(backend: Option<FilesystemBackendKind>, path: Seq<char>, with_plain_fusermount: bool)
    ensures
        umount_attempts_spec(backend, path, with_plain_fusermount, |b| forced_fuse_backend(b)).len() >= 2,
{
    let f = |b: Option<FilesystemBackendKind>| forced_fuse_backend(b);
    assert(f(backend) || backend == Some(FilesystemBackendKind::KernelOverlayfs));
}

/// Why an unmount failed.
#[derive(Clone, Copy, Debug, PartialEq, Eq, Structural)]
pub enum UmountError {
    /// The mount table could not be read.
    MountCheckFailed,
    /// Every tool failed and the path is still mounted.
    StillMounted,
}

/// Where an unmount procedure stands.
#[derive(Clone, Copy, Debug, PartialEq, Eq, Structural)]
pub enum UmountPhase {
    Start,
    InitialCheck,
    Trying(usize),
    FinalCheck,
    Finished,
}

/// What the caller does next.
#[derive(Clone, Copy, Debug, PartialEq, Eq, Structural)]
pub enum UmountAction {
    /// Look whether the path is a mount point (report `Mounted` or `MountCheckFailed`).
    CheckMounted,
    /// Run `attempts[i]` with null stdio (report `Ran`).
    Run(usize),
    /// The unmount is over and the path is unmounted (or, when forced, left as it is).
    Succeeded,
    /// The unmount is over and failed.
    Failed(UmountError),
}

/// What the caller observed.
#[derive(Clone, Copy, Debug, PartialEq, Eq, Structural)]
pub enum UmountEvent {
    Begin,
    Mounted(bool),
    MountCheckFailed,
    /// The command ran and exited successfully (`true`), or failed or could not start.
    Ran(bool),
}

/// An unmount in progress.
#[derive(Clone, Debug)]
pub struct UmountProcedure {
    pub attempts: Vec<Vec<String>>,
    /// Skip the work when the path is not mounted to begin with.
    pub check_first: bool,
    /// After every tool failed, look again before giving up.
    pub check_last: bool,
    /// Best effort: never report `StillMounted`.
    pub force: bool,
    pub phase: UmountPhase,
}

impl UmountProcedure {
    /// Phase and action once attempts before `k` have failed.
    pub open spec fn from_attempt(self, k: int) -> (UmountPhase, UmountAction) {
        if k < self.attempts.len() {
            (UmountPhase::Trying(k as usize), UmountAction::Run(k as usize))
        } else if self.check_last {
            (UmountPhase::FinalCheck, UmountAction::CheckMounted)
        } else if self.force {
            (UmountPhase::Finished, UmountAction::Succeeded)
        } else {
            (UmountPhase::Finished, UmountAction::Failed(UmountError::StillMounted))
        }
    }

    /// Whether `event` answers the last action.
    pub open spec fn accepts(self, event: UmountEvent) -> bool {
        match self.phase {
            UmountPhase::Start => event == UmountEvent::Begin,
            UmountPhase::InitialCheck | UmountPhase::FinalCheck => event is Mounted || event
                is MountCheckFailed,
            UmountPhase::Trying(k) => event is Ran && k < self.attempts.len(),
            UmountPhase::Finished => false,
        }
    }

    /// The transition taken on `event`.
    pub open spec fn step_spec(self, event: UmountEvent) -> (UmountPhase, UmountAction) {
        match (self.phase, event) {
            (UmountPhase::Start, _) => if self.check_first {
                (UmountPhase::InitialCheck, UmountAction::CheckMounted)
            } else {
                self.from_attempt(0)
            },
            (UmountPhase::InitialCheck, UmountEvent::Mounted(true)) => self.from_attempt(0),
            (UmountPhase::InitialCheck, UmountEvent::Mounted(false)) => (
                UmountPhase::Finished,
                UmountAction::Succeeded,
            ),
            (UmountPhase::FinalCheck, UmountEvent::Mounted(false)) => (
                UmountPhase::Finished,
                UmountAction::Succeeded,
            ),
            (UmountPhase::FinalCheck, UmountEvent::Mounted(true)) => if self.force {
                (UmountPhase::Finished, UmountAction::Succeeded)
            } else {
                (UmountPhase::Finished, UmountAction::Failed(UmountError::StillMounted))
            },
            (_, UmountEvent::MountCheckFailed) => (
                UmountPhase::Finished,
                UmountAction::Failed(UmountError::MountCheckFailed),
            ),
            (UmountPhase::Trying(_), UmountEvent::Ran(true)) => (
                UmountPhase::Finished,
                UmountAction::Succeeded,
            ),
            (UmountPhase::Trying(k), UmountEvent::Ran(false)) => self.from_attempt(k + 1),
            _ => (self.phase, UmountAction::Failed(UmountError::StillMounted)),
        }
    }

    fn from_attempt_exec(&self, k: usize) -> (r: (UmountPhase, UmountAction))
        ensures
            r == self.from_attempt(k as int),
    {
        if k < self.attempts.len() {
            (UmountPhase::Trying(k), UmountAction::Run(k))
        } else if self.check_last {
            (UmountPhase::FinalCheck, UmountAction::CheckMounted)
        } else if self.force {
            (UmountPhase::Finished, UmountAction::Succeeded)
        } else {
            (UmountPhase::Finished, UmountAction::Failed(UmountError::StillMounted))
        }
    }

    /// Advances the procedure on `event` and returns the next action.
    pub fn step(&mut self, event: UmountEvent) -> (a: UmountAction)
        requires
            old(self).accepts(event),
        ensures
            (final(self).phase, a) == old(self).step_spec(event),
            final(self).attempts == old(self).attempts,
            final(self).check_first == old(self).check_first,
            final(self).check_last == old(self).check_last,
            final(self).force == old(self).force,
    {
        let (p, a) = match (self.phase, event) {
            (UmountPhase::Start, _) => if self.check_first {
                (UmountPhase::InitialCheck, UmountAction::CheckMounted)
            } else {
                self.from_attempt_exec(0)
            },
            (UmountPhase::InitialCheck, UmountEvent::Mounted(true)) => self.from_attempt_exec(0),
            (UmountPhase::InitialCheck, UmountEvent::Mounted(false)) => (
                UmountPhase::Finished,
                UmountAction::Succeeded,
            ),
            (UmountPhase::FinalCheck, UmountEvent::Mounted(false)) => (
                UmountPhase::Finished,
                UmountAction::Succeeded,
            ),
            (UmountPhase::FinalCheck, UmountEvent::Mounted(true)) => if self.force {
                (UmountPhase::Finished, UmountAction::Succeeded)
            } else {
                (UmountPhase::Finished, UmountAction::Failed(UmountError::StillMounted))
            },
            (_, UmountEvent::MountCheckFailed) => (
                UmountPhase::Finished,
                UmountAction::Failed(UmountError::MountCheckFailed),
            ),
            (UmountPhase::Trying(_), UmountEvent::Ran(true)) => (
                UmountPhase::Finished,
                UmountAction::Succeeded,
            ),
            (UmountPhase::Trying(k), UmountEvent::Ran(false)) => self.from_attempt_exec(k + 1),
            _ => (self.phase, UmountAction::Failed(UmountError::StillMounted)),
        };
        self.phase = p;
        a
    }
}

fn argv2(a: &str, b: &str, path: &str) -> (v: Vec<String>)
    ensures
        v.deep_view() == seq![a@, b@, path@],
{
    let v = vec![owned(a), owned(b), owned(path)];
    assert(v.deep_view() =~= seq![a@, b@, path@]);
    v
}

fn sudo_argv2(a: &str, b: &str, path: &str) -> (v: Vec<String>)
    ensures
        v.deep_view() == seq!["sudo"@, "-n"@, a@, b@, path@],
{
    let v = vec![owned("sudo"), owned("-n"), owned(a), owned(b), owned(path)];
    assert(v.deep_view() =~= seq!["sudo"@, "-n"@, a@, b@, path@]);
    v
}

/// The attempts of an unmount of `path`.
pub fn umount_attempts(
    backend: Option<FilesystemBackendKind>,
    path: &str,
    with_plain_fusermount: bool,
    fuse: bool,
) -> (v: Vec<Vec<String>>)
    ensures
        v.deep_view() == umount_attempts_spec(
            backend,
            path@,
            with_plain_fusermount,
            |b: Option<FilesystemBackendKind>| fuse,
        ),
{
    let kernel = match backend {
        Some(FilesystemBackendKind::KernelOverlayfs) => true,
        _ => false,
    };
    let mut v: Vec<Vec<String>> = Vec::new();
    if fuse {
        v.push(argv2("fusermount3", "-u", path));
        v.push(sudo_argv2("fusermount3", "-u", path));
        if with_plain_fusermount {
            v.push(argv2("fusermount", "-u", path));
            v.push(sudo_argv2("fusermount", "-u", path));
        }
    }
    if kernel || fuse {
        let u = vec![owned("umount"), owned(path)];
        assert(u.deep_view() =~= seq!["umount"@, path@]);
        v.push(u);
        let s = vec![owned("sudo"), owned("-n"), owned("umount"), owned("-l"), owned(path)];
        assert(s.deep_view() =~= seq!["sudo"@, "-n"@, "umount"@, "-l"@, path@]);
        v.push(s);
    }
    assert(v.deep_view() =~= umount_attempts_spec(
        backend,
        path@,
        with_plain_fusermount,
        |b: Option<FilesystemBackendKind>| fuse,
    ));
    v
}

/// Unmount `path` if it is mounted: FUSE tools first for FUSE backends, then
/// `umount`; succeeds when the path ends up unmounted.
pub fn umount_with_backend(path: &str, backend: Option<FilesystemBackendKind>) -> (p: UmountProcedure)
    ensures
        p.attempts.deep_view() == umount_attempts_spec(backend, path@, true, |b| fuse_backend(b)),
        p.check_first,
        p.check_last,
        !p.force,
        p.phase == UmountPhase::Start,
{
    let fuse = match backend {
        Some(FilesystemBackendKind::FuseOverlayfs) | Some(FilesystemBackendKind::UnionfsFuse) | None => true,
        _ => false,
    };
    let attempts = umount_attempts(backend, path, true, fuse);
    proof {
        assert(umount_attempts_spec(backend, path@, true, |b: Option<FilesystemBackendKind>| fuse)
            == umount_attempts_spec(backend, path@, true, |b| fuse_backend(b)));
    }
    UmountProcedure {
        attempts,
        check_first: true,
        check_last: true,
        force: false,
        phase: UmountPhase::Start,
    }
}

/// Always invoke the unmount tools (for `destroy --force`) even when mount
/// detection is inconclusive (every backend but the kernel driver, `Auto`
/// included, gets the FUSE tools first); succeeds even if the path stays
/// mounted.
pub fn umount_force(path: &str, backend: Option<FilesystemBackendKind>) -> (p: UmountProcedure)
    ensures
        p.attempts.deep_view() == umount_attempts_spec(backend, path@, true, |b| forced_fuse_backend(b)),
        p.attempts@.len() >= 2,
        !p.check_first,
        p.check_last,
        p.force,
        p.phase == UmountPhase::Start,
{
    let fuse = match backend {
        Some(FilesystemBackendKind::KernelOverlayfs) => false,
        _ => true,
    };
    let attempts = umount_attempts(backend, path, true, fuse);
    proof {
        assert(umount_attempts_spec(backend, path@, true, |b: Option<FilesystemBackendKind>| fuse)
            == umount_attempts_spec(backend, path@, true, |b| forced_fuse_backend(b)));
        every_forced_unmount_runs_a_tool(backend, path@, true);
        assert(attempts@.len() == attempts.deep_view().len());
    }
    UmountProcedure {
        attempts,
        check_first: false,
        check_last: true,
        force: true,
        phase: UmountPhase::Start,
    }
}

/// A forced unmount never fails because the path stays mounted; it can only
/// fail when the mount table cannot be read.
pub proof fn forced_umount_never_reports_still_mounted(p: UmountProcedure, e: UmountEvent)
    requires
        p.force,
        p.accepts(e),
    ensures
        p.step_spec(e).1 != UmountAction::Failed(UmountError::StillMounted),
{
}

/// A successful tool run ends the unmount with success; a path found
/// unmounted at the first check is left alone and reported unmounted.
pub proof fn umount_success_cases(p: UmountProcedure, k: usize)
    ensures
        p.phase == UmountPhase::Trying(k) ==> p.step_spec(UmountEvent::Ran(true)) == (
            UmountPhase::Finished,
            UmountAction::Succeeded,
        ),
        p.phase == UmountPhase::InitialCheck ==> p.step_spec(UmountEvent::Mounted(false)) == (
            UmountPhase::Finished,
            UmountAction::Succeeded,
        ),
{
}

/// Tools are tried one after another: a failed attempt leads only to the
/// next one, never back to an earlier one.
pub proof fn umount_attempts_advance(p: UmountProcedure, k: usize)
    requires
        p.phase == UmountPhase::Trying(k),
        k < p.attempts.len(),
    ensures
        p.step_spec(UmountEvent::Ran(false)).0 matches UmountPhase::Trying(j) ==> j == k + 1,
{
}

// ----------------------------------------------------------------------------
// Mount

/// The two command lines of one backend: without privileges, then with `sudo -n`.
#[derive(Clone, Debug)]
pub struct BackendCommands {
    pub unprivileged: Vec<String>,
    pub privileged: Vec<String>,
    /// Whether the privileged run's stderr is captured for the error message.
    pub capture_privileged: bool,
}

/// Why a mount failed.
#[derive(Debug)]
pub enum MountError {
    /// Neither `unionfs-fuse` nor `unionfs` was found.
    UnionfsNotFound,
    /// The privileged command of this backend could not be started.
    CouldNotRun(FilesystemBackendKind),
    /// `sudo -n mount -t overlay` failed.
    KernelMountFailed,
    /// `sudo -n fuse-overlayfs` failed with this stderr.
    FuseMountFailed(String),
    /// `sudo -n unionfs-fuse` failed with this stderr.
    UnionfsMountFailed(String),
    /// There was no backend to try.
    NoBackend,
}

impl Clone for MountError {
    fn clone(&self) -> (r: Self)
        ensures
            r == *self,
    {
        match self {
            MountError::UnionfsNotFound => MountError::UnionfsNotFound,
            MountError::CouldNotRun(k) => MountError::CouldNotRun(*k),
            MountError::KernelMountFailed => MountError::KernelMountFailed,
            MountError::FuseMountFailed(s) => MountError::FuseMountFailed(s.clone()),
            MountError::UnionfsMountFailed(s) => MountError::UnionfsMountFailed(s.clone()),
            MountError::NoBackend => MountError::NoBackend,
        }
    }
}

/// Where a mount procedure stands (the index is into its backend order).
#[derive(Clone, Copy, Debug, PartialEq, Eq, Structural)]
pub enum MountPhase {
    Start,
    ResolvingBinary(usize),
    Unprivileged(usize),
    Privileged(usize),
    Finished,
}

/// What the caller does next.
#[derive(Clone, Debug)]
pub enum MountAction {
    /// Probe for the unionfs-fuse binary (report `UnionfsBinary`).
    ResolveUnionfsBinary,
    /// Run this backend's unprivileged or privileged command (report `Ran`).
    Run { backend: FilesystemBackendKind, privileged: bool },
    /// The session is mounted.
    Mounted(MountedSession),
    /// Every backend failed; this is the last error.
    Failed(MountError),
}

/// What the caller observed.
#[derive(Clone, Debug)]
pub enum MountEvent {
    Begin,
    UnionfsBinary(Option<String>),
    /// `started` is false when the command could not be spawned.
    Ran { started: bool, success: bool, stderr: String },
}

/// A mount in progress.
#[derive(Clone, Debug)]
pub struct MountProcedure {
    pub req: MountRequest,
    pub uid: u32,
    pub gid: u32,
    /// Backends to try, in order.
    pub order: Vec<FilesystemBackendKind>,
    pub phase: MountPhase,
    pub last_error: Option<MountError>,
    pub unionfs_bin: Option<String>,
}

/// The error a failed privileged mount of `kind` reports.
pub open spec fn failure_for(kind: FilesystemBackendKind, stderr: String) -> MountError {
    match kind {
        FilesystemBackendKind::FuseOverlayfs => MountError::FuseMountFailed(stderr),
        FilesystemBackendKind::UnionfsFuse => MountError::UnionfsMountFailed(stderr),
        _ => MountError::KernelMountFailed,
    }
}

impl MountProcedure {
    /// A procedure that has not started yet, for `req` as the user `uid:gid`.
    pub open spec fn fresh(self, req: MountRequest, uid: u32, gid: u32) -> bool {
        &&& self.req == req
        &&& self.uid == uid
        &&& self.gid == gid
        &&& self.phase == MountPhase::Start
        &&& self.last_error is None
        &&& self.unionfs_bin is None
    }

    /// No backend in the order is `Auto`.
    pub open spec fn well_formed(self) -> bool {
        forall|i: int| 0 <= i < self.order.len() ==> self.order@[i] != FilesystemBackendKind::Auto
    }

    /// Phase and action to begin backend `i` (binary known where needed).
    pub open spec fn start_spec(self, i: int) -> (MountPhase, MountAction) {
        if self.req.needs_sudo == Some(true) {
            (
                MountPhase::Privileged(i as usize),
                MountAction::Run { backend: self.order@[i], privileged: true },
            )
        } else {
            (
                MountPhase::Unprivileged(i as usize),
                MountAction::Run { backend: self.order@[i], privileged: false },
            )
        }
    }

    /// Phase and action to move on to backend `i`.
    pub open spec fn enter_spec(self, i: int) -> (MountPhase, MountAction) {
        if i >= self.order.len() {
            (
                MountPhase::Finished,
                MountAction::Failed(
                    match self.last_error {
                        Some(e) => e,
                        None => MountError::NoBackend,
                    },
                ),
            )
        } else if self.order@[i] == FilesystemBackendKind::UnionfsFuse && self.unionfs_bin is None {
            (MountPhase::ResolvingBinary(i as usize), MountAction::ResolveUnionfsBinary)
        } else {
            self.start_spec(i)
        }
    }

    /// Whether `event` answers the last action.
    pub open spec fn accepts(self, event: MountEvent) -> bool {
        &&& self.well_formed()
        &&& match self.phase {
            MountPhase::Start => event is Begin,
            MountPhase::ResolvingBinary(i) => event is UnionfsBinary && i < self.order.len(),
            MountPhase::Unprivileged(i) | MountPhase::Privileged(i) => event is Ran && i
                < self.order.len(),
            MountPhase::Finished => false,
        }
    }

    /// The state (`phase`, `last_error`, `unionfs_bin`) and action after `event`.
    pub open spec fn step_spec(self, event: MountEvent) -> (MountProcedure, MountAction) {
        match (self.phase, event) {
            (MountPhase::ResolvingBinary(i), MountEvent::UnionfsBinary(None)) => {
                let s = MountProcedure { last_error: Some(MountError::UnionfsNotFound), ..self };
                let (p, a) = s.enter_spec(i + 1);
                (MountProcedure { phase: p, ..s }, a)
            },
            (MountPhase::ResolvingBinary(i), MountEvent::UnionfsBinary(Some(b))) => {
                let s = MountProcedure { unionfs_bin: Some(b), ..self };
                let (p, a) = s.start_spec(i as int);
                (MountProcedure { phase: p, ..s }, a)
            },
            (MountPhase::Unprivileged(i), MountEvent::Ran { started, success, stderr }) => {
                if started && success {
                    (
                        MountProcedure { phase: MountPhase::Finished, ..self },
                        MountAction::Mounted(
                            MountedSession { backend: self.order@[i as int], used_sudo: false },
                        ),
                    )
                } else {
                    (
                        MountProcedure { phase: MountPhase::Privileged(i), ..self },
                        MountAction::Run { backend: self.order@[i as int], privileged: true },
                    )
                }
            },
            (MountPhase::Privileged(i), MountEvent::Ran { started, success, stderr }) => {
                if started && success {
                    (
                        MountProcedure { phase: MountPhase::Finished, ..self },
                        MountAction::Mounted(
                            MountedSession { backend: self.order@[i as int], used_sudo: true },
                        ),
                    )
                } else {
                    let e = if !started {
                        MountError::CouldNotRun(self.order@[i as int])
                    } else {
                        failure_for(self.order@[i as int], stderr)
                    };
                    let s = MountProcedure { last_error: Some(e), ..self };
                    let (p, a) = s.enter_spec(i + 1);
                    (MountProcedure { phase: p, ..s }, a)
                }
            },
            _ => {
                let (p, a) = self.enter_spec(0);
                (MountProcedure { phase: p, ..self }, a)
            },
        }
    }

    /// A procedure over `order`.
    pub fn new(req: MountRequest, uid: u32, gid: u32, order: Vec<FilesystemBackendKind>) -> (p: Self)
        ensures
            p.fresh(req, uid, gid),
            p.order == order,
    {
        MountProcedure {
            req,
            uid,
            gid,
            order,
            phase: MountPhase::Start,
            last_error: None,
            unionfs_bin: None,
        }
    }

    fn start(&self, i: usize) -> (r: (MountPhase, MountAction))
        requires
            i < self.order.len(),
        ensures
            r == self.start_spec(i as int),
    {
        let k = self.order[i];
        if self.req.needs_sudo == Some(true) {
            (MountPhase::Privileged(i), MountAction::Run { backend: k, privileged: true })
        } else {
            (MountPhase::Unprivileged(i), MountAction::Run { backend: k, privileged: false })
        }
    }

    fn enter(&self, i: usize) -> (r: (MountPhase, MountAction))
        ensures
            r == self.enter_spec(i as int),
    {
        if i >= self.order.len() {
            let e = match &self.last_error {
                Some(e) => e.clone(),
                None => MountError::NoBackend,
            };
            (MountPhase::Finished, MountAction::Failed(e))
        } else if self.order[i] == FilesystemBackendKind::UnionfsFuse && self.unionfs_bin.is_none() {
            (MountPhase::ResolvingBinary(i), MountAction::ResolveUnionfsBinary)
        } else {
            self.start(i)
        }
    }

    /// Advances the procedure on `event` and returns the next action.
    pub fn step(&mut self, event: MountEvent) -> (a: MountAction)
        requires
            old(self).accepts(event),
        ensures
            (*final(self), a) == old(self).step_spec(event),
    {
        match (self.phase, event) {
            (MountPhase::ResolvingBinary(i), MountEvent::UnionfsBinary(None)) => {
                self.last_error = Some(MountError::UnionfsNotFound);
                let (p, a) = self.enter(i + 1);
                self.phase = p;
                a
            },
            (MountPhase::ResolvingBinary(i), MountEvent::UnionfsBinary(Some(b))) => {
                self.unionfs_bin = Some(b);
                let (p, a) = self.start(i);
                self.phase = p;
                a
            },
            (MountPhase::Unprivileged(i), MountEvent::Ran { started, success, stderr }) => {
                let k = self.order[i];
                if started && success {
                    self.phase = MountPhase::Finished;
                    MountAction::Mounted(MountedSession { backend: k, used_sudo: false })
                } else {
                    self.phase = MountPhase::Privileged(i);
                    MountAction::Run { backend: k, privileged: true }
                }
            },
            (MountPhase::Privileged(i), MountEvent::Ran { started, success, stderr }) => {
                let k = self.order[i];
                if started && success {
                    self.phase = MountPhase::Finished;
                    MountAction::Mounted(MountedSession { backend: k, used_sudo: true })
                } else {
                    let e = if !started {
                        MountError::CouldNotRun(k)
                    } else {
                        match k {
                            FilesystemBackendKind::FuseOverlayfs => MountError::FuseMountFailed(stderr),
                            FilesystemBackendKind::UnionfsFuse => MountError::UnionfsMountFailed(stderr),
                            _ => MountError::KernelMountFailed,
                        }
                    };
                    self.last_error = Some(e);
                    let (p, a) = self.enter(i + 1);
                    self.phase = p;
                    a
                }
            },
            _ => {
                let (p, a) = self.enter(0);
                self.phase = p;
                a
            },
        }
    }

    /// The command lines of backend `kind` for this request (`try_backend`).
    pub fn backend_commands(&self, kind: FilesystemBackendKind) -> (c: BackendCommands)
        requires
            kind != FilesystemBackendKind::Auto,
            kind == FilesystemBackendKind::UnionfsFuse ==> self.unionfs_bin is Some,
        ensures
            kind == FilesystemBackendKind::KernelOverlayfs ==> (c.unprivileged.deep_view(), c.privileged.deep_view()) == overlayfs::kernel_commands_spec(self.req),
            kind == FilesystemBackendKind::FuseOverlayfs ==> (c.unprivileged.deep_view(), c.privileged.deep_view()) == overlayfs::fuse_commands_spec(self.req, self.uid, self.gid),
            kind == FilesystemBackendKind::UnionfsFuse ==> (c.unprivileged.deep_view(), c.privileged.deep_view()) == unionfs::unionfs_commands_spec(self.req, self.uid, self.gid, self.unionfs_bin->0@),
            c.capture_privileged == (kind != FilesystemBackendKind::KernelOverlayfs),
    {
        match kind {
            FilesystemBackendKind::KernelOverlayfs => overlayfs::try_kernel(&self.req),
            FilesystemBackendKind::FuseOverlayfs => overlayfs::try_fuse(&self.req, self.uid, self.gid),
            _ => {
                let bin = self.unionfs_bin.as_ref().unwrap();
                unionfs::try_mount(&self.req, self.uid, self.gid, bin.as_str())
            },
        }
    }
}

/// Mounts `req`: the preferred backend alone, or for Auto every backend of
/// `auto_backend_order` until one mounts (the last error is reported when
/// none does).
pub fn mount_session(req: MountRequest, uid: u32, gid: u32) -> (p: MountProcedure)
    ensures
        p.fresh(req, uid, gid),
        p.order@ == (if req.preferred == FilesystemBackendKind::Auto {
            auto_order_spec(req.last_working)
        } else {
            seq![req.preferred]
        }),
        p.well_formed(),
{
    let order = if req.preferred == FilesystemBackendKind::Auto {
        auto_backend_order(req.last_working)
    } else {
        vec![req.preferred]
    };
    proof {
        auto_order_is_well_formed(req.last_working);
        if req.preferred == FilesystemBackendKind::Auto {
            assert forall|i: int| 0 <= i < order@.len() implies order@[i] != FilesystemBackendKind::Auto by {
                if order@[i] == FilesystemBackendKind::Auto {
                    assert(order@.contains(FilesystemBackendKind::Auto));
                }
            }
        }
    }
    MountProcedure::new(req, uid, gid, order)
}

/// `mount_session` on `os`: for Auto, the backends `os` has.
pub fn mount_session_on(os: HostOs, req: MountRequest, uid: u32, gid: u32) -> (p: MountProcedure)
    ensures
        p.fresh(req, uid, gid),
        p.order@ == (if req.preferred == FilesystemBackendKind::Auto {
            auto_order_on_spec(os, req.last_working)
        } else {
            seq![req.preferred]
        }),
        p.well_formed(),
{
    let order = if req.preferred == FilesystemBackendKind::Auto {
        auto_backend_order_on(os, req.last_working)
    } else {
        vec![req.preferred]
    };
    proof {
        auto_order_is_well_formed(req.last_working);
        if req.preferred == FilesystemBackendKind::Auto {
            assert forall|i: int| 0 <= i < order@.len() implies order@[i] != FilesystemBackendKind::Auto by {
                if os == HostOs::Linux && order@[i] == FilesystemBackendKind::Auto {
                    assert(order@.contains(FilesystemBackendKind::Auto));
                }
            }
        }
    }
    MountProcedure::new(req, uid, gid, order)
}

/// With `needs_sudo == Some(true)` every command a mount runs is the
/// privileged one; a mount that succeeds without privileges reports
/// `used_sudo == false`, and every mount reports the backend it ran.
pub proof fn mount_respects_needs_sudo(p: MountProcedure, e: MountEvent)
    requires
        p.accepts(e),
    ensures
        p.req.needs_sudo == Some(true) ==> (p.step_spec(e).1 matches MountAction::Run { privileged, .. } ==> privileged),
        p.step_spec(e).1 matches MountAction::Mounted(m) ==> m.backend != FilesystemBackendKind::Auto && p.order@.contains(m.backend),
        p.step_spec(e).1 matches MountAction::Mounted(m) ==> (m.used_sudo <==> p.phase is Privileged),
{
    match p.phase {
        MountPhase::Unprivileged(i) => { assert(p.order@[i as int] == p.order@[i as int]); },
        MountPhase::Privileged(i) => { assert(p.order@[i as int] == p.order@[i as int]); },
        _ => {},
    }
}

/// Every backend, unionfs-fuse included, is first run without privileges
/// unless the request asks for `sudo -n` from the start: a run a step asks
/// for is of the backend the procedure has moved to; it is unprivileged
/// exactly when `needs_sudo` is not `Some(true)` and the step begins that
/// backend; a privileged run otherwise follows only a failed unprivileged
/// run of the same backend.
pub proof fn unprivileged_run_comes_first(p: MountProcedure, e: MountEvent)
    requires
        p.accepts(e),
    ensures
        match p.step_spec(e).1 {
            MountAction::Run { backend, privileged } => {
                &&& (match p.step_spec(e).0.phase {
                    MountPhase::Unprivileged(j) => !privileged && backend == p.order@[j as int],
                    MountPhase::Privileged(j) => privileged && backend == p.order@[j as int],
                    _ => false,
                })
                &&& !privileged ==> p.req.needs_sudo != Some(true)
                &&& privileged && p.req.needs_sudo != Some(true) ==> (
                    p.phase == MountPhase::Unprivileged(p.step_spec(e).0.phase->Privileged_0)
                    && (e matches MountEvent::Ran { started, success, .. } && !(started && success))
                )
            },
            _ => true,
        },
{
}

/// `q` and `a` begin backend `j` of `p`'s order: the unionfs-fuse binary is
/// looked for first when it is that backend and no binary is known yet;
/// otherwise the backend is run, with `sudo -n` exactly when the request
/// asks for it from the start.
pub open spec fn begins_backend(p: MountProcedure, q: MountProcedure, a: MountAction, j: int) -> bool {
    &&& 0 <= j < p.order.len()
    &&& if p.order@[j] == FilesystemBackendKind::UnionfsFuse && p.unionfs_bin is None {
        a is ResolveUnionfsBinary && q.phase == MountPhase::ResolvingBinary(j as usize)
    } else {
        &&& a == (MountAction::Run { backend: p.order@[j], privileged: p.req.needs_sudo == Some(true) })
        &&& q.phase == (if p.req.needs_sudo == Some(true) {
            MountPhase::Privileged(j as usize)
        } else {
            MountPhase::Unprivileged(j as usize)
        })
    }
}

/// `q` and `a` move on to backend `j` of `p`'s order, or, past the last
/// one, give up with the last error.
pub open spec fn moves_on(p: MountProcedure, q: MountProcedure, a: MountAction, j: int) -> bool {
    if j >= p.order.len() {
        q.phase == MountPhase::Finished && q.last_error is Some && a == MountAction::Failed(q.last_error->0)
    } else {
        begins_backend(p, q, a, j)
    }
}

/// How a mount proceeds through its backends: it begins with the first
/// (none: it fails with `NoBackend`); a found unionfs-fuse binary is kept
/// and the backend run; a missing one is recorded as the error and the
/// next backend begun; a run that started and succeeded mounts that
/// backend, reporting `sudo` exactly for the privileged run; a failed
/// unprivileged run is retried with `sudo -n`; a failed privileged run is
/// recorded as the error (the backend could not run, or its own failure with
/// the command's stderr) and the next backend begun, or the mount fails with
/// that error after the last.
pub proof fn mount_tries_backends_in_order(p: MountProcedure, e: MountEvent)
    requires
        p.accepts(e),
    ensures
        ({
            let q = p.step_spec(e).0;
            let a = p.step_spec(e).1;
            &&& q.order == p.order && q.req == p.req
            &&& match (p.phase, e) {
                (MountPhase::Start, _) => if p.order.len() == 0 {
                    q.phase == MountPhase::Finished && (a == match p.last_error {
                        Some(x) => MountAction::Failed(x),
                        None => MountAction::Failed(MountError::NoBackend),
                    })
                } else {
                    begins_backend(p, q, a, 0)
                },
                (MountPhase::ResolvingBinary(i), MountEvent::UnionfsBinary(Some(b))) => {
                    &&& q.unionfs_bin == Some(b)
                    &&& a == (MountAction::Run { backend: p.order@[i as int], privileged: p.req.needs_sudo == Some(true) })
                    &&& q.phase == (if p.req.needs_sudo == Some(true) { MountPhase::Privileged(i) } else { MountPhase::Unprivileged(i) })
                },
                (MountPhase::ResolvingBinary(i), MountEvent::UnionfsBinary(None)) => {
                    &&& q.last_error == Some(MountError::UnionfsNotFound)
                    &&& moves_on(p, q, a, i + 1)
                },
                (MountPhase::Unprivileged(i), MountEvent::Ran { started, success, stderr }) => if started && success {
                    q.phase == MountPhase::Finished
                        && a == MountAction::Mounted(MountedSession { backend: p.order@[i as int], used_sudo: false })
                } else {
                    q.phase == MountPhase::Privileged(i) && q.last_error == p.last_error
                        && a == (MountAction::Run { backend: p.order@[i as int], privileged: true })
                },
                (MountPhase::Privileged(i), MountEvent::Ran { started, success, stderr }) => if started && success {
                    q.phase == MountPhase::Finished
                        && a == MountAction::Mounted(MountedSession { backend: p.order@[i as int], used_sudo: true })
                } else {
                    &&& !started ==> q.last_error == Some(MountError::CouldNotRun(p.order@[i as int]))
                    &&& started ==> q.last_error == Some(match p.order@[i as int] {
                        FilesystemBackendKind::FuseOverlayfs => MountError::FuseMountFailed(stderr),
                        FilesystemBackendKind::UnionfsFuse => MountError::UnionfsMountFailed(stderr),
                        _ => MountError::KernelMountFailed,
                    })
                    &&& moves_on(p, q, a, i + 1)
                },
                _ => true,
            }
        }),
{
}

/// After a mount with backend `b` is remembered, the next Auto mount tries
/// `b` first, and asks for `sudo -n` from the start exactly when that mount
/// needed it.
pub proof fn remembered_backend_is_tried_first(cfg: crate::metadata::ConfigFile, b: FilesystemBackendKind, used_sudo: bool)
    requires
        b != FilesystemBackendKind::Auto,
    ensures
        auto_order_spec(crate::metadata::remembered(cfg, b, used_sudo).last_working_backend)[0] == b,
        crate::metadata::remembered(cfg, b, used_sudo).mount_needs_sudo == Some(used_sudo),
{
    auto_order_is_well_formed(Some(b));
}

/// Host capability findings for `lazytree doctor` (Linux), given whether
/// `fuse-overlayfs --help` and `sudo -n true` succeeded.
pub open spec fn host_issues_spec(fuse_ok: bool, sudo_ok: bool) -> Seq<(Seq<char>, Seq<char>, Seq<char>)> {
    (if fuse_ok {
        seq![]
    } else {
        seq![(
            "warn"@,
            "fuse_overlayfs_missing"@,
            "fuse-overlayfs not found on PATH; session mounts may fail without kernel OverlayFS"@,
        )]
    }) + (if sudo_ok {
        seq![]
    } else {
        seq![(
            "info"@,
            "sudo_n_unavailable"@,
            "passwordless sudo (-n) unavailable; privileged fuse/overlay mounts will not work in locked-down VMs"@,
        )]
    })
}

/// Host capability findings for `lazytree doctor` on `os`, given whether
/// `fuse-overlayfs --help` (Linux), a unionfs-fuse binary (macOS) and
/// `sudo -n true` were found to work.
pub open spec fn host_issues_on(os: HostOs, fuse_ok: bool, unionfs_ok: bool, sudo_ok: bool) -> Seq<(Seq<char>, Seq<char>, Seq<char>)> {
    let platform: Seq<(Seq<char>, Seq<char>, Seq<char>)> = match os {
        HostOs::Linux => host_issues_spec(fuse_ok, true),
        HostOs::MacOs => if unionfs_ok {
            seq![]
        } else {
            seq![(
                "warn"@,
                "unionfs_fuse_missing"@,
                "unionfs-fuse (or unionfs) not found on PATH; install via Homebrew and ensure macFUSE or Fuse-T is available"@,
            )]
        },
        HostOs::Other => seq![(
            "error"@,
            "unsupported_os"@,
            "LazyTree COW mounts are only supported on Linux and macOS"@,
        )],
    };
    platform + host_issues_spec(true, sudo_ok)
}

/// Host capability findings on `os` (severity, code, message).
pub fn doctor_host_issues_on(os: HostOs, fuse_ok: bool, unionfs_ok: bool, sudo_ok: bool) -> (v: Vec<(String, String, String)>)
    ensures
        v@.map_values(|t: (String, String, String)| (t.0@, t.1@, t.2@)) == host_issues_on(os, fuse_ok, unionfs_ok, sudo_ok),
{
    let mut v: Vec<(String, String, String)> = match os {
        HostOs::Linux => doctor_host_issues(fuse_ok, true),
        HostOs::MacOs => if unionfs_ok {
            Vec::new()
        } else {
            vec![(
                owned("warn"),
                owned("unionfs_fuse_missing"),
                owned("unionfs-fuse (or unionfs) not found on PATH; install via Homebrew and ensure macFUSE or Fuse-T is available"),
            )]
        },
        HostOs::Other => vec![(
            owned("error"),
            owned("unsupported_os"),
            owned("LazyTree COW mounts are only supported on Linux and macOS"),
        )],
    };
    let ghost head = v@.map_values(|t: (String, String, String)| (t.0@, t.1@, t.2@));
    let mut tail = doctor_host_issues(true, sudo_ok);
    let ghost tail_v = tail@.map_values(|t: (String, String, String)| (t.0@, t.1@, t.2@));
    v.append(&mut tail);
    assert(v@.map_values(|t: (String, String, String)| (t.0@, t.1@, t.2@)) =~= head + tail_v);
    assert(head =~= match os {
        HostOs::Linux => host_issues_spec(fuse_ok, true),
        HostOs::MacOs => if unionfs_ok {
            seq![]
        } else {
            seq![(
                "warn"@,
                "unionfs_fuse_missing"@,
                "unionfs-fuse (or unionfs) not found on PATH; install via Homebrew and ensure macFUSE or Fuse-T is available"@,
            )]
        },
        HostOs::Other => seq![(
            "error"@,
            "unsupported_os"@,
            "LazyTree COW mounts are only supported on Linux and macOS"@,
        )],
    });
    v
}

/// Host capability findings (severity, code, message).
pub fn doctor_host_issues(fuse_ok: bool, sudo_ok: bool) -> (v: Vec<(String, String, String)>)
    ensures
        v@.map_values(|t: (String, String, String)| (t.0@, t.1@, t.2@)) == host_issues_spec(fuse_ok, sudo_ok),
{
    let mut v: Vec<(String, String, String)> = Vec::new();
    if !fuse_ok {
        v.push((
            owned("warn"),
            owned("fuse_overlayfs_missing"),
            owned("fuse-overlayfs not found on PATH; session mounts may fail without kernel OverlayFS"),
        ));
    }
    if !sudo_ok {
        v.push((
            owned("info"),
            owned("sudo_n_unavailable"),
            owned("passwordless sudo (-n) unavailable; privileged fuse/overlay mounts will not work in locked-down VMs"),
        ));
    }
    assert(v@.map_values(|t: (String, String, String)| (t.0@, t.1@, t.2@)) =~= host_issues_spec(fuse_ok, sudo_ok));
    v
}

} // verus!
