//! fuse-overlayfs plugin (Linux).
use vstd::prelude::*;
use crate::metadata::FilesystemBackendKind;
use crate::filesystem::{BackendCommands, MountRequest, UmountProcedure, UmountPhase, umount_attempts, umount_attempts_spec, fuse_backend};
use crate::filesystem::backend::{BackendProbe, OverlayBackend};
use crate::filesystem::overlayfs::{try_fuse, fuse_commands_spec};

verus! {

/// The fuse-overlayfs backend.
pub struct FuseOverlayFs;

impl OverlayBackend for FuseOverlayFs {
    open spec fn kind_spec(&self) -> FilesystemBackendKind {
        FilesystemBackendKind::FuseOverlayfs
    }

    open spec fn needs_binary(&self) -> bool {
        false
    }

    fn kind(&self) -> (k: FilesystemBackendKind) {
        FilesystemBackendKind::FuseOverlayfs
    }

    fn supported_on_host(&self) -> (b: bool)
        ensures
            b,
    {
        true
    }

    fn mount_commands(&self, req: &MountRequest, uid: u32, gid: u32, binary: Option<&str>) -> (c: Option<BackendCommands>)
        ensures
            c matches Some(c) && (c.unprivileged.deep_view(), c.privileged.deep_view()) == fuse_commands_spec(*req, uid, gid),
    {
        Some(try_fuse(req, uid, gid))
    }

    fn unmount(&self, path: &str, force: bool) -> (p: UmountProcedure)
        ensures
            p.attempts.deep_view() == umount_attempts_spec(Some(FilesystemBackendKind::FuseOverlayfs), path@, true, |b| fuse_backend(b)),
    {
        let attempts = umount_attempts(Some(FilesystemBackendKind::FuseOverlayfs), path, true, true);
        proof {
            assert(umount_attempts_spec(Some(FilesystemBackendKind::FuseOverlayfs), path@, true, |b: Option<FilesystemBackendKind>| true)
                == umount_attempts_spec(Some(FilesystemBackendKind::FuseOverlayfs), path@, true, |b| fuse_backend(b)));
        }
        UmountProcedure { attempts, check_first: false, check_last: false, force, phase: UmountPhase::Start }
    }

    fn probe_binaries(&self) -> (v: Vec<&'static str>)
        ensures
            v@.len() == 1 && v@[0]@ == "fuse-overlayfs"@,
    {
        vec!["fuse-overlayfs"]
    }

    fn doctor_probes(&self, binary_found: bool) -> (v: Vec<BackendProbe>)
        ensures
            !binary_found ==> v@.len() == 1 && v@[0].severity@ == "warn"@ && v@[0].code@ == "fuse_overlayfs_missing"@
                && v@[0].message@ == "fuse-overlayfs not found on PATH; session mounts may fail without kernel OverlayFS"@,
    {
        if binary_found {
            Vec::new()
        } else {
            vec![BackendProbe {
                severity: "warn",
                code: "fuse_overlayfs_missing",
                message: "fuse-overlayfs not found on PATH; session mounts may fail without kernel OverlayFS",
            }]
        }
    }
}

} // verus!
