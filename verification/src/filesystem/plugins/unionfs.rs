//! unionfs-fuse plugin (macOS primary; usable on Linux for testing).
use vstd::prelude::*;
use crate::metadata::FilesystemBackendKind;
use crate::filesystem::{BackendCommands, MountRequest, UmountProcedure, UmountPhase, umount_attempts, umount_attempts_spec, fuse_backend};
use crate::filesystem::backend::{BackendProbe, OverlayBackend};
use crate::filesystem::unionfs::{try_mount, unionfs_commands_spec};

verus! {

/// The unionfs-fuse backend.
pub struct UnionfsFuse;

impl OverlayBackend for UnionfsFuse {
    open spec fn kind_spec(&self) -> FilesystemBackendKind {
        FilesystemBackendKind::UnionfsFuse
    }

    open spec fn needs_binary(&self) -> bool {
        true
    }

    fn kind(&self) -> (k: FilesystemBackendKind) {
        FilesystemBackendKind::UnionfsFuse
    }

    fn supported_on_host(&self) -> (b: bool)
        ensures
            b,
    {
        // Available wherever the binary exists; the registry decides platform priority.
        true
    }

    fn mount_commands(&self, req: &MountRequest, uid: u32, gid: u32, binary: Option<&str>) -> (c: Option<BackendCommands>)
        ensures
            binary matches Some(b) ==> (c matches Some(c) && (c.unprivileged.deep_view(), c.privileged.deep_view()) == unionfs_commands_spec(*req, uid, gid, b@)),
    {
        match binary {
            Some(b) => Some(try_mount(req, uid, gid, b)),
            None => None,
        }
    }

    fn unmount(&self, path: &str, force: bool) -> (p: UmountProcedure)
        ensures
            p.attempts.deep_view() == umount_attempts_spec(Some(FilesystemBackendKind::UnionfsFuse), path@, true, |b| fuse_backend(b)),
    {
        let attempts = umount_attempts(Some(FilesystemBackendKind::UnionfsFuse), path, true, true);
        proof {
            assert(umount_attempts_spec(Some(FilesystemBackendKind::UnionfsFuse), path@, true, |b: Option<FilesystemBackendKind>| true)
                == umount_attempts_spec(Some(FilesystemBackendKind::UnionfsFuse), path@, true, |b| fuse_backend(b)));
        }
        UmountProcedure { attempts, check_first: false, check_last: false, force, phase: UmountPhase::Start }
    }

    fn probe_binaries(&self) -> (v: Vec<&'static str>)
        ensures
            v@.len() == 2 && v@[0]@ == "unionfs-fuse"@ && v@[1]@ == "unionfs"@,
    {
        vec!["unionfs-fuse", "unionfs"]
    }

    fn doctor_probes(&self, binary_found: bool) -> (v: Vec<BackendProbe>)
        ensures
            !binary_found ==> v@.len() == 1 && v@[0].severity@ == "warn"@ && v@[0].code@ == "unionfs_fuse_missing"@
                && v@[0].message@ == "unionfs-fuse (or unionfs) not found on PATH; install via Homebrew and ensure macFUSE or Fuse-T is available"@,
    {
        if binary_found {
            Vec::new()
        } else {
            vec![BackendProbe {
                severity: "warn",
                code: "unionfs_fuse_missing",
                message: "unionfs-fuse (or unionfs) not found on PATH; install via Homebrew and ensure macFUSE or Fuse-T is available",
            }]
        }
    }
}

} // verus!
