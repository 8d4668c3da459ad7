//! Overlay filesystem backend plugin contract.
use vstd::prelude::*;
use crate::metadata::FilesystemBackendKind;
use super::{BackendCommands, MountRequest, UmountProcedure};

verus! {

/// One host/doctor finding contributed by a backend plugin.
#[derive(Clone, Debug)]
pub struct BackendProbe {
    pub severity: &'static str,
    pub code: &'static str,
    pub message: &'static str,
}

/// Strategy object for a single copy-on-write mount implementation.
pub trait OverlayBackend {
    /// The kind this plugin implements.
    spec fn kind_spec(&self) -> FilesystemBackendKind;

    fn kind(&self) -> (k: FilesystemBackendKind)
        ensures
            k == self.kind_spec(),
            k != FilesystemBackendKind::Auto,
    ;

    /// Whether this backend is compiled/enabled for the current OS.
    fn supported_on_host(&self) -> bool;

    /// The unprivileged and privileged command lines mounting `req`
    /// (`binary`: the resolved tool, where the backend needs one); `None`
    /// when the backend's binary is missing.
    fn mount_commands(&self, req: &MountRequest, uid: u32, gid: u32, binary: Option<&str>) -> (c: Option<BackendCommands>)
        ensures
            self.needs_binary() ==> (c is None <==> binary is None),
            !self.needs_binary() ==> c is Some,
    ;

    /// Whether mounting needs a binary found on `PATH` first.
    spec fn needs_binary(&self) -> bool;

    /// Unmount `path` (no mount-table checks); `force` means best effort.
    fn unmount(&self, path: &str, force: bool) -> (p: UmountProcedure)
        ensures
            !p.check_first,
            !p.check_last,
            p.force == force,
            p.phase == super::UmountPhase::Start,
    ;

    /// Binaries whose presence on `PATH` the doctor checks.
    fn probe_binaries(&self) -> Vec<&'static str>;

    /// Doctor notes given whether one of `probe_binaries` was found.
    fn doctor_probes(&self, binary_found: bool) -> (v: Vec<BackendProbe>)
        ensures
            binary_found ==> v@.len() == 0,
    ;
}

} // verus!
