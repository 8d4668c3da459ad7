//! Kernel OverlayFS and fuse-overlayfs command lines (Linux), and the
//! OverlayFS-only mount and unmount procedures.
use vstd::prelude::*;
use crate::metadata::FilesystemBackendKind;
use crate::text::{owned, decimal, u64_to_decimal};
use super::{BackendCommands, MountProcedure, UmountProcedure, UmountPhase, forced_fuse_backend, umount_attempts, umount_attempts_spec};

pub use super::{MountRequest, MountedSession};

verus! {

/// `lowerdir=…,upperdir=…,workdir=…` for an overlay mount.
pub open spec fn overlay_options(req: MountRequest) -> Seq<char> {
    "lowerdir="@ + req.lowerdir@ + ",upperdir="@ + req.upperdir@ + ",workdir="@ + req.workdir@
}

/// Overlay options plus what a privileged FUSE mount needs so the invoking
/// user can use it.
pub open spec fn fuse_privileged_options(req: MountRequest, uid: u32, gid: u32) -> Seq<char> {
    overlay_options(req) + ",allow_other,uid="@ + decimal(uid as nat) + ",gid="@ + decimal(
        gid as nat,
    )
}

/// Builds the overlay option string.
pub fn overlay_options_exec(req: &MountRequest) -> (s: String)
    ensures
        s@ == overlay_options(*req),
{
    let mut s = owned("lowerdir=");
    s.append(req.lowerdir.as_str());
    s.append(",upperdir=");
    s.append(req.upperdir.as_str());
    s.append(",workdir=");
    s.append(req.workdir.as_str());
    s
}

/// Builds the privileged fuse-overlayfs option string.
pub fn fuse_privileged_options_exec(req: &MountRequest, uid: u32, gid: u32) -> (s: String)
    ensures
        s@ == fuse_privileged_options(*req, uid, gid),
{
    let mut s = overlay_options_exec(req);
    s.append(",allow_other,uid=");
    let u = u64_to_decimal(uid as u64);
    s.append(u.as_str());
    s.append(",gid=");
    let g = u64_to_decimal(gid as u64);
    s.append(g.as_str());
    s
}

/// `mount -t overlay overlay -o OPTS MERGED`, first as the user, then under `sudo -n`.
pub open spec fn kernel_commands_spec(req: MountRequest) -> (Seq<Seq<char>>, Seq<Seq<char>>) {
    (
        seq!["mount"@, "-t"@, "overlay"@, "overlay"@, "-o"@, overlay_options(req), req.merged@],
        seq![
            "sudo"@,
            "-n"@,
            "mount"@,
            "-t"@,
            "overlay"@,
            "overlay"@,
            "-o"@,
            overlay_options(req),
            req.merged@,
        ],
    )
}

/// `fuse-overlayfs -o OPTS MERGED`, then `sudo -n fuse-overlayfs` with the
/// privileged options.
pub open spec fn fuse_commands_spec(req: MountRequest, uid: u32, gid: u32) -> (
    Seq<Seq<char>>,
    Seq<Seq<char>>,
) {
    (
        seq!["fuse-overlayfs"@, "-o"@, overlay_options(req), req.merged@],
        seq![
            "sudo"@,
            "-n"@,
            "fuse-overlayfs"@,
            "-o"@,
            fuse_privileged_options(req, uid, gid),
            req.merged@,
        ],
    )
}

/// Command lines of a kernel OverlayFS mount.
pub fn try_kernel(req: &MountRequest) -> (c: BackendCommands)
    ensures
        (c.unprivileged.deep_view(), c.privileged.deep_view()) == kernel_commands_spec(*req),
        !c.capture_privileged,
{
    let opts = overlay_options_exec(req);
    let unprivileged = vec![
        owned("mount"),
        owned("-t"),
        owned("overlay"),
        owned("overlay"),
        owned("-o"),
        opts.clone(),
        req.merged.clone(),
    ];
    let privileged = vec![
        owned("sudo"),
        owned("-n"),
        owned("mount"),
        owned("-t"),
        owned("overlay"),
        owned("overlay"),
        owned("-o"),
        opts,
        req.merged.clone(),
    ];
    assert(unprivileged.deep_view() =~= kernel_commands_spec(*req).0);
    assert(privileged.deep_view() =~= kernel_commands_spec(*req).1);
    BackendCommands { unprivileged, privileged, capture_privileged: false }
}

/// Command lines of a fuse-overlayfs mount.
pub fn try_fuse(req: &MountRequest, uid: u32, gid: u32) -> (c: BackendCommands)
    ensures
        (c.unprivileged.deep_view(), c.privileged.deep_view()) == fuse_commands_spec(
            *req,
            uid,
            gid,
        ),
        c.capture_privileged,
{
    let opts = overlay_options_exec(req);
    let popts = fuse_privileged_options_exec(req, uid, gid);
    let unprivileged = vec![owned("fuse-overlayfs"), owned("-o"), opts, req.merged.clone()];
    let privileged = vec![
        owned("sudo"),
        owned("-n"),
        owned("fuse-overlayfs"),
        owned("-o"),
        popts,
        req.merged.clone(),
    ];
    assert(unprivileged.deep_view() =~= fuse_commands_spec(*req, uid, gid).0);
    assert(privileged.deep_view() =~= fuse_commands_spec(*req, uid, gid).1);
    BackendCommands { unprivileged, privileged, capture_privileged: true }
}

/// OverlayFS-only Auto order: the last backend that worked, then the other.
pub open spec fn overlay_auto_order(last: Option<FilesystemBackendKind>) -> Seq<FilesystemBackendKind> {
    if last == Some(FilesystemBackendKind::FuseOverlayfs) {
        seq![FilesystemBackendKind::FuseOverlayfs, FilesystemBackendKind::KernelOverlayfs]
    } else {
        seq![FilesystemBackendKind::KernelOverlayfs, FilesystemBackendKind::FuseOverlayfs]
    }
}

/// An OverlayFS-only mount: the preferred backend, or for Auto both
/// OverlayFS backends in `overlay_auto_order`.
pub fn mount_session(req: MountRequest, uid: u32, gid: u32) -> (p: MountProcedure)
    ensures
        p.order@ == (if req.preferred == FilesystemBackendKind::Auto {
            overlay_auto_order(req.last_working)
        } else {
            seq![req.preferred]
        }),
        p.fresh(req, uid, gid),
{
    let order = if req.preferred == FilesystemBackendKind::Auto {
        if req.last_working == Some(FilesystemBackendKind::FuseOverlayfs) {
            vec![FilesystemBackendKind::FuseOverlayfs, FilesystemBackendKind::KernelOverlayfs]
        } else {
            vec![FilesystemBackendKind::KernelOverlayfs, FilesystemBackendKind::FuseOverlayfs]
        }
    } else {
        vec![req.preferred]
    };
    MountProcedure::new(req, uid, gid, order)
}

/// Backends unmounted with `fusermount3` here (an unknown one counts).
pub open spec fn overlay_fuse_backend(b: Option<FilesystemBackendKind>) -> bool {
    b == Some(FilesystemBackendKind::FuseOverlayfs) || b is None
}

/// OverlayFS-only unmount: `fusermount3 -u` (plain, then `sudo -n`) for
/// fuse-overlayfs, then `umount` / `sudo -n umount -l`.
pub fn umount_with_backend(path: &str, backend: Option<FilesystemBackendKind>) -> (p: UmountProcedure)
    ensures
        p.attempts.deep_view() == umount_attempts_spec(backend, path@, false, |b| overlay_fuse_backend(b)),
        p.check_first,
        p.check_last,
        !p.force,
        p.phase == UmountPhase::Start,
{
    let fuse = match backend {
        Some(FilesystemBackendKind::FuseOverlayfs) | None => true,
        _ => false,
    };
    let attempts = umount_attempts(backend, path, false, fuse);
    proof {
        assert(umount_attempts_spec(backend, path@, false, |b: Option<FilesystemBackendKind>| fuse)
            == umount_attempts_spec(backend, path@, false, |b| overlay_fuse_backend(b)));
    }
    UmountProcedure { attempts, check_first: true, check_last: true, force: false, phase: UmountPhase::Start }
}

/// Forced OverlayFS-only unmount (tools always run; never fails for a path
/// that stays mounted).
pub fn umount_force(path: &str, backend: Option<FilesystemBackendKind>) -> (p: UmountProcedure)
    ensures
        p.attempts.deep_view() == umount_attempts_spec(backend, path@, false, |b| forced_fuse_backend(b)),
        p.attempts@.len() >= 2,
        !p.check_first,
        p.check_last,
        p.force,
        p.phase == UmountPhase::Start,
{
    let fuse = match backend {
        Some(FilesystemBackendKind::KernelOverlayfs) => false,
        _ => true,
    };
    let attempts = umount_attempts(backend, path, false, fuse);
    proof {
        assert(umount_attempts_spec(backend, path@, false, |b: Option<FilesystemBackendKind>| fuse)
            == umount_attempts_spec(backend, path@, false, |b| forced_fuse_backend(b)));
        super::every_forced_unmount_runs_a_tool(backend, path@, false);
        assert(attempts@.len() == attempts.deep_view().len());
    }
    UmountProcedure { attempts, check_first: false, check_last: true, force: true, phase: UmountPhase::Start }
}

/// True if `target` is a mount point according to the mountinfo text.
pub fn is_mounted(target: &str, mountinfo: &str) -> (b: bool)
    requires
        super::detect::mountinfo_decodable(mountinfo@),
    ensures
        b == super::detect::listed_as_mount_point(mountinfo@, target@),
{
    super::detect::is_mounted(target, mountinfo)
}

} // verus!
