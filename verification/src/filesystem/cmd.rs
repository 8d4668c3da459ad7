//! Privilege fallback shared by the overlay backends.
use vstd::prelude::*;

verus! {

/// A path as text (the path is held as text already; this is a copy).
pub fn path_str(p: &str) -> (s: String)
    ensures
        s@ == p@,
{
    crate::text::owned(p)
}

/// What a privileged attempt's outcome makes of the whole mount: success
/// with `sudo`, or its error.
pub open spec fn privileged_outcome<E>(p: Result<(), E>) -> Result<bool, E> {
    match p {
        Ok(()) => Ok(true),
        Err(e) => Err(e),
    }
}

/// Tries an unprivileged mount first (unless `needs_sudo` is `Some(true)`),
/// then the privileged one. Returns whether the successful attempt used sudo.
pub fn with_privilege_fallback<E, U, P>(needs_sudo: Option<bool>, unprivileged: U, privileged: P) -> (r: Result<bool, E>)
    where
        U: FnOnce() -> Result<(), E>,
        P: FnOnce() -> Result<(), E>,
    requires
        call_requires(unprivileged, ()),
        call_requires(privileged, ()),
    ensures
        needs_sudo == Some(true) ==> exists|p: Result<(), E>|
            call_ensures(privileged, (), p) && r == privileged_outcome(p),
        needs_sudo != Some(true) ==> exists|u: Result<(), E>|
            #![trigger call_ensures(unprivileged, (), u)]
            call_ensures(unprivileged, (), u) && (u is Ok ==> r == Ok::<bool, E>(false)) && (u is Err
                ==> exists|p: Result<(), E>|
                call_ensures(privileged, (), p) && r == privileged_outcome(p)),
{
    let skip_unprivileged = match needs_sudo {
        Some(true) => true,
        _ => false,
    };
    if !skip_unprivileged {
        let u = unprivileged();
        assert(call_ensures(unprivileged, (), u));
        if u.is_ok() {
            return Ok(false);
        }
        let p = privileged();
        assert(call_ensures(privileged, (), p));
        let r = match p {
            Ok(()) => Ok(true),
            Err(e) => Err(e),
        };
        assert(r == privileged_outcome(p));
        return r;
    }
    let p = privileged();
    assert(call_ensures(privileged, (), p));
    let r = match p {
        Ok(()) => Ok(true),
        Err(e) => Err(e),
    };
    assert(r == privileged_outcome(p));
    r
}

} // verus!
