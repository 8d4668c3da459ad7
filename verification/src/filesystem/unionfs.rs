//! unionfs-fuse command lines (read-only lower + writable upper, merged).
use vstd::prelude::*;
use crate::text::{owned, decimal, u64_to_decimal};
use super::{BackendCommands, MountRequest};

verus! {

/// The binary names to probe for unionfs-fuse.
pub fn resolve_binary_candidates() -> (v: Vec<&'static str>)
    ensures
        v@.len() == 2,
        v@[0]@ == "unionfs-fuse"@,
        v@[1]@ == "unionfs"@,
{
    vec!["unionfs-fuse", "unionfs"]
}

/// `UPPER=RW:LOWER=RO`: the leftmost writable branch receives writes.
pub open spec fn unionfs_branches(req: MountRequest) -> Seq<char> {
    req.upperdir@ + "=RW:"@ + req.lowerdir@ + "=RO"@
}

/// Options of a privileged unionfs-fuse mount.
pub open spec fn unionfs_privileged_options(uid: u32, gid: u32) -> Seq<char> {
    "cow,use_ino,allow_other,uid="@ + decimal(uid as nat) + ",gid="@ + decimal(gid as nat)
}

/// `BIN -o cow,use_ino BRANCHES MERGED`, then the same under `sudo -n` with
/// the privileged options.
pub open spec fn unionfs_commands_spec(req: MountRequest, uid: u32, gid: u32, bin: Seq<char>) -> (
    Seq<Seq<char>>,
    Seq<Seq<char>>,
) {
    (
        seq![bin, "-o"@, "cow,use_ino"@, unionfs_branches(req), req.merged@],
        seq![
            "sudo"@,
            "-n"@,
            bin,
            "-o"@,
            unionfs_privileged_options(uid, gid),
            unionfs_branches(req),
            req.merged@,
        ],
    )
}

/// Command lines of a unionfs-fuse mount with binary `bin`.
pub fn try_mount(req: &MountRequest, uid: u32, gid: u32, bin: &str) -> (c: BackendCommands)
    ensures
        (c.unprivileged.deep_view(), c.privileged.deep_view()) == unionfs_commands_spec(
            *req,
            uid,
            gid,
            bin@,
        ),
        c.capture_privileged,
{
    let mut branches = req.upperdir.clone();
    branches.append("=RW:");
    branches.append(req.lowerdir.as_str());
    branches.append("=RO");
    let mut popts = owned("cow,use_ino,allow_other,uid=");
    let u = u64_to_decimal(uid as u64);
    popts.append(u.as_str());
    popts.append(",gid=");
    let g = u64_to_decimal(gid as u64);
    popts.append(g.as_str());
    let unprivileged = vec![
        owned(bin),
        owned("-o"),
        owned("cow,use_ino"),
        branches.clone(),
        req.merged.clone(),
    ];
    let privileged = vec![
        owned("sudo"),
        owned("-n"),
        owned(bin),
        owned("-o"),
        popts,
        branches,
        req.merged.clone(),
    ];
    assert(unprivileged.deep_view() =~= unionfs_commands_spec(*req, uid, gid, bin@).0);
    assert(privileged.deep_view() =~= unionfs_commands_spec(*req, uid, gid, bin@).1);
    BackendCommands { unprivileged, privileged, capture_privileged: true }
}

} // verus!
