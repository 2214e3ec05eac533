//! The open flags of the host that a write may carry through to the host.
use vstd::prelude::*;

verus! {

/// Reads `nix::libc::O_SYNC`. The value is the platform's and is not
/// stated here.
#[verifier::external_body]
pub(crate) fn libc_o_sync() -> (r: i32) {
    nix::libc::O_SYNC
}

/// Reads `nix::libc::O_DSYNC`. The value is the platform's and is not
/// stated here.
#[verifier::external_body]
pub(crate) fn libc_o_dsync() -> (r: i32) {
    nix::libc::O_DSYNC
}

/// The synchronisation flags among `flags` that a file is opened with:
/// the bits of `O_SYNC | O_DSYNC` that `flags` sets, or nothing where it
/// sets none of them.
pub open spec fn sync_request(flags: i32, o_sync: i32, o_dsync: i32) -> Option<i32> {
    if flags & (o_sync | o_dsync) != 0 {
        Some(flags & (o_sync | o_dsync))
    } else {
        None
    }
}

pub fn sync_flags(flags: i32, o_sync: i32, o_dsync: i32) -> (r: Option<i32>)
    ensures
        r == sync_request(flags, o_sync, o_dsync),
{
    let mask = o_sync | o_dsync;
    if flags & mask != 0 {
        Some(flags & mask)
    } else {
        None
    }
}

} // verus!
