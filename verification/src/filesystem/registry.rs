//! Platform registry: which overlay plugins exist on this host, and the Auto order.
use vstd::prelude::*;
use crate::metadata::FilesystemBackendKind;
use super::backend::{BackendProbe, OverlayBackend};
use super::plugins::{FuseOverlayFs, KernelOverlayFs, UnionfsFuse};
use super::{BackendCommands, MountRequest, UmountProcedure, umount_attempts_spec, fuse_backend};
use super::overlayfs::{kernel_commands_spec, fuse_commands_spec};
use super::unionfs::unionfs_commands_spec;

verus! {

/// A plugin compiled into this build.
pub enum RegisteredBackend {
    Kernel(KernelOverlayFs),
    Fuse(FuseOverlayFs),
    Unionfs(UnionfsFuse),
}

impl OverlayBackend for RegisteredBackend {
    open spec fn kind_spec(&self) -> FilesystemBackendKind {
        match self {
            RegisteredBackend::Kernel(_) => FilesystemBackendKind::KernelOverlayfs,
            RegisteredBackend::Fuse(_) => FilesystemBackendKind::FuseOverlayfs,
            RegisteredBackend::Unionfs(_) => FilesystemBackendKind::UnionfsFuse,
        }
    }

    open spec fn needs_binary(&self) -> bool {
        self is Unionfs
    }

    fn kind(&self) -> (k: FilesystemBackendKind) {
        match self {
            RegisteredBackend::Kernel(b) => b.kind(),
            RegisteredBackend::Fuse(b) => b.kind(),
            RegisteredBackend::Unionfs(b) => b.kind(),
        }
    }

    fn supported_on_host(&self) -> (b: bool)
        ensures
            b,
    {
        match self {
            RegisteredBackend::Kernel(b) => b.supported_on_host(),
            RegisteredBackend::Fuse(b) => b.supported_on_host(),
            RegisteredBackend::Unionfs(b) => b.supported_on_host(),
        }
    }

    fn mount_commands(&self, req: &MountRequest, uid: u32, gid: u32, binary: Option<&str>) -> (c: Option<BackendCommands>)
        ensures
            self is Kernel ==> (c matches Some(c) && (c.unprivileged.deep_view(), c.privileged.deep_view()) == kernel_commands_spec(*req)),
            self is Fuse ==> (c matches Some(c) && (c.unprivileged.deep_view(), c.privileged.deep_view()) == fuse_commands_spec(*req, uid, gid)),
            self is Unionfs ==> (binary matches Some(b) ==> (c matches Some(c) && (c.unprivileged.deep_view(), c.privileged.deep_view()) == unionfs_commands_spec(*req, uid, gid, b@))),
    {
        match self {
            RegisteredBackend::Kernel(b) => b.mount_commands(req, uid, gid, binary),
            RegisteredBackend::Fuse(b) => b.mount_commands(req, uid, gid, binary),
            RegisteredBackend::Unionfs(b) => b.mount_commands(req, uid, gid, binary),
        }
    }

    fn unmount(&self, path: &str, force: bool) -> (p: UmountProcedure)
        ensures
            p.attempts.deep_view() == umount_attempts_spec(Some(self.kind_spec()), path@, true, |b| fuse_backend(b)),
    {
        match self {
            RegisteredBackend::Kernel(b) => b.unmount(path, force),
            RegisteredBackend::Fuse(b) => b.unmount(path, force),
            RegisteredBackend::Unionfs(b) => b.unmount(path, force),
        }
    }

    fn probe_binaries(&self) -> (v: Vec<&'static str>)
        ensures
            self is Kernel ==> v@.len() == 0,
            self is Fuse ==> v@.len() == 1 && v@[0]@ == "fuse-overlayfs"@,
            self is Unionfs ==> v@.len() == 2 && v@[0]@ == "unionfs-fuse"@ && v@[1]@ == "unionfs"@,
    {
        match self {
            RegisteredBackend::Kernel(b) => b.probe_binaries(),
            RegisteredBackend::Fuse(b) => b.probe_binaries(),
            RegisteredBackend::Unionfs(b) => b.probe_binaries(),
        }
    }

    fn doctor_probes(&self, binary_found: bool) -> (v: Vec<BackendProbe>)
        ensures
            self is Kernel ==> v@.len() == 0,
            self is Fuse && !binary_found ==> v@.len() == 1 && v@[0].code@ == "fuse_overlayfs_missing"@,
            self is Unionfs && !binary_found ==> v@.len() == 1 && v@[0].code@ == "unionfs_fuse_missing"@,
    {
        match self {
            RegisteredBackend::Kernel(b) => b.doctor_probes(binary_found),
            RegisteredBackend::Fuse(b) => b.doctor_probes(binary_found),
            RegisteredBackend::Unionfs(b) => b.doctor_probes(binary_found),
        }
    }
}

/// Kinds of the given plugins, in order.
pub open spec fn kinds_of(v: Seq<RegisteredBackend>) -> Seq<FilesystemBackendKind> {
    v.map_values(|b: RegisteredBackend| b.kind_spec())
}

/// All backends compiled into this (Linux) build that the orchestrator may select.
pub fn registered() -> (v: Vec<RegisteredBackend>)
    ensures
        kinds_of(v@) == seq![
            FilesystemBackendKind::KernelOverlayfs,
            FilesystemBackendKind::FuseOverlayfs,
            FilesystemBackendKind::UnionfsFuse,
        ],
{
    let v = vec![
        RegisteredBackend::Kernel(KernelOverlayFs),
        RegisteredBackend::Fuse(FuseOverlayFs),
        RegisteredBackend::Unionfs(UnionfsFuse),
    ];
    assert(kinds_of(v@) =~= seq![
        FilesystemBackendKind::KernelOverlayfs,
        FilesystemBackendKind::FuseOverlayfs,
        FilesystemBackendKind::UnionfsFuse,
    ]);
    v
}

/// The registered plugin implementing `kind`, if any.
pub fn lookup(kind: FilesystemBackendKind) -> (r: Option<RegisteredBackend>)
    ensures
        r matches Some(b) ==> b.kind_spec() == kind,
        r is None <==> kind == FilesystemBackendKind::Auto,
{
    match kind {
        FilesystemBackendKind::KernelOverlayfs => Some(RegisteredBackend::Kernel(KernelOverlayFs)),
        FilesystemBackendKind::FuseOverlayfs => Some(RegisteredBackend::Fuse(FuseOverlayFs)),
        FilesystemBackendKind::UnionfsFuse => Some(RegisteredBackend::Unionfs(UnionfsFuse)),
        FilesystemBackendKind::Auto => None,
    }
}

/// Ordered candidates for Auto (and for an explicit preference falling through).
pub fn auto_order(last_working: Option<FilesystemBackendKind>) -> (v: Vec<FilesystemBackendKind>)
    ensures
        v@ == super::auto_order_spec(last_working),
{
    super::auto_backend_order(last_working)
}

/// Plugins that take part in Auto and doctor on this OS (Linux: the two
/// OverlayFS backends; unionfs-fuse is optional there).
pub fn platform_plugins() -> (v: Vec<RegisteredBackend>)
    ensures
        kinds_of(v@) == seq![FilesystemBackendKind::KernelOverlayfs, FilesystemBackendKind::FuseOverlayfs],
{
    let v = vec![RegisteredBackend::Kernel(KernelOverlayFs), RegisteredBackend::Fuse(FuseOverlayFs)];
    assert(kinds_of(v@) =~= seq![FilesystemBackendKind::KernelOverlayfs, FilesystemBackendKind::FuseOverlayfs]);
    v
}

/// All backends a build for `os` may select: on Linux the three, on macOS
/// unionfs-fuse alone, elsewhere none.
pub fn registered_on(os: super::HostOs) -> (v: Vec<RegisteredBackend>)
    ensures
        kinds_of(v@) == (match os {
            super::HostOs::Linux => seq![
                FilesystemBackendKind::KernelOverlayfs,
                FilesystemBackendKind::FuseOverlayfs,
                FilesystemBackendKind::UnionfsFuse,
            ],
            super::HostOs::MacOs => seq![FilesystemBackendKind::UnionfsFuse],
            super::HostOs::Other => Seq::<FilesystemBackendKind>::empty(),
        }),
{
    match os {
        super::HostOs::Linux => registered(),
        super::HostOs::MacOs => {
            let v = vec![RegisteredBackend::Unionfs(UnionfsFuse)];
            assert(kinds_of(v@) =~= seq![FilesystemBackendKind::UnionfsFuse]);
            v
        },
        super::HostOs::Other => {
            let v: Vec<RegisteredBackend> = Vec::new();
            assert(kinds_of(v@) =~= Seq::<FilesystemBackendKind>::empty());
            v
        },
    }
}

/// The plugin a build for `os` has for `kind`, if any.
pub fn lookup_on(os: super::HostOs, kind: FilesystemBackendKind) -> (r: Option<RegisteredBackend>)
    ensures
        r matches Some(b) ==> b.kind_spec() == kind,
        r is Some <==> (match os {
            super::HostOs::Linux => kind != FilesystemBackendKind::Auto,
            super::HostOs::MacOs => kind == FilesystemBackendKind::UnionfsFuse,
            super::HostOs::Other => false,
        }),
{
    match os {
        super::HostOs::Linux => lookup(kind),
        super::HostOs::MacOs => match kind {
            FilesystemBackendKind::UnionfsFuse => Some(RegisteredBackend::Unionfs(UnionfsFuse)),
            _ => None,
        },
        super::HostOs::Other => None,
    }
}

/// Ordered candidates for Auto on `os`.
pub fn auto_order_on(os: super::HostOs, last_working: Option<FilesystemBackendKind>) -> (v: Vec<FilesystemBackendKind>)
    ensures
        v@ == super::auto_order_on_spec(os, last_working),
{
    super::auto_backend_order_on(os, last_working)
}

/// Plugins that take part in Auto and doctor on `os`: on Linux the two
/// OverlayFS backends, on macOS unionfs-fuse, elsewhere none.
pub fn platform_plugins_on(os: super::HostOs) -> (v: Vec<RegisteredBackend>)
    ensures
        kinds_of(v@) == (match os {
            super::HostOs::Linux => seq![FilesystemBackendKind::KernelOverlayfs, FilesystemBackendKind::FuseOverlayfs],
            super::HostOs::MacOs => seq![FilesystemBackendKind::UnionfsFuse],
            super::HostOs::Other => Seq::<FilesystemBackendKind>::empty(),
        }),
{
    match os {
        super::HostOs::Linux => platform_plugins(),
        super::HostOs::MacOs => {
            let v = vec![RegisteredBackend::Unionfs(UnionfsFuse)];
            assert(kinds_of(v@) =~= seq![FilesystemBackendKind::UnionfsFuse]);
            v
        },
        super::HostOs::Other => {
            let v: Vec<RegisteredBackend> = Vec::new();
            assert(kinds_of(v@) =~= Seq::<FilesystemBackendKind>::empty());
            v
        },
    }
}

} // verus!
