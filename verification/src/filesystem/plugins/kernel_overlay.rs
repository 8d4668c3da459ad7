//! Kernel OverlayFS plugin (Linux).
use vstd::prelude::*;
use crate::metadata::FilesystemBackendKind;
use crate::filesystem::{BackendCommands, MountRequest, UmountProcedure, UmountPhase, umount_attempts, umount_attempts_spec, fuse_backend};
use crate::filesystem::backend::{BackendProbe, OverlayBackend};
use crate::filesystem::overlayfs::{try_kernel, kernel_commands_spec};

verus! {

/// The kernel OverlayFS backend.
pub struct KernelOverlayFs;

impl OverlayBackend for KernelOverlayFs {
    open spec fn kind_spec(&self) -> FilesystemBackendKind {
        FilesystemBackendKind::KernelOverlayfs
    }

    open spec fn needs_binary(&self) -> bool {
        false
    }

    fn kind(&self) -> (k: FilesystemBackendKind) {
        FilesystemBackendKind::KernelOverlayfs
    }

    fn supported_on_host(&self) -> (b: bool)
        ensures
            b,
    {
        true
    }

    fn mount_commands(&self, req: &MountRequest, uid: u32, gid: u32, binary: Option<&str>) -> (c: Option<BackendCommands>)
        ensures
            c matches Some(c) && (c.unprivileged.deep_view(), c.privileged.deep_view()) == kernel_commands_spec(*req),
    {
        Some(try_kernel(req))
    }

    fn unmount(&self, path: &str, force: bool) -> (p: UmountProcedure)
        ensures
            p.attempts.deep_view() == umount_attempts_spec(Some(FilesystemBackendKind::KernelOverlayfs), path@, true, |b| fuse_backend(b)),
    {
        let attempts = umount_attempts(Some(FilesystemBackendKind::KernelOverlayfs), path, true, false);
        proof {
            assert(umount_attempts_spec(Some(FilesystemBackendKind::KernelOverlayfs), path@, true, |b: Option<FilesystemBackendKind>| false)
                == umount_attempts_spec(Some(FilesystemBackendKind::KernelOverlayfs), path@, true, |b| fuse_backend(b)));
        }
        UmountProcedure { attempts, check_first: false, check_last: false, force, phase: UmountPhase::Start }
    }

    fn probe_binaries(&self) -> (v: Vec<&'static str>)
        ensures
            v@.len() == 0,
    {
        Vec::new()
    }

    fn doctor_probes(&self, binary_found: bool) -> (v: Vec<BackendProbe>)
        ensures
            v@.len() == 0,
    {
        Vec::new()
    }
}

} // verus!
