//! Values that the host's C library defines.
//!
//! Nothing in this file is proved: each function hands out one constant of
//! `libc`. Their numbers differ from one target to the next, so only the
//! failure address, which is the same everywhere, has a contract.

use vstd::prelude::*;

verus! {

/// `libc::PROT_READ`: pages may be read. The number is the target's own.
#[verifier::external_body]
pub(crate) fn prot_read() -> (flag: libc::c_int) {
    libc::PROT_READ
}

/// `libc::PROT_WRITE`: pages may be written. The number is the target's own.
#[verifier::external_body]
pub(crate) fn prot_write() -> (flag: libc::c_int) {
    libc::PROT_WRITE
}

/// `libc::MAP_SHARED`: stores reach every process that maps the same
/// object. The number is the target's own.
#[verifier::external_body]
pub(crate) fn map_shared() -> (flag: libc::c_int) {
    libc::MAP_SHARED
}

/// `libc::MAP_ANON`: the mapping has no file behind it. The number is the
/// target's own.
#[verifier::external_body]
pub(crate) fn map_anon() -> (flag: libc::c_int) {
    libc::MAP_ANON
}

/// `libc::O_RDWR`: open for reading and writing. The number is the target's
/// own.
#[verifier::external_body]
pub(crate) fn open_read_write() -> (flag: libc::c_int) {
    libc::O_RDWR
}

/// `libc::O_SYNC`: writes complete before the call returns. The number is
/// the target's own.
#[verifier::external_body]
pub(crate) fn open_sync() -> (flag: libc::c_int) {
    libc::O_SYNC
}

/// `libc::MAP_FAILED`, the address that `mmap` returns when it fails, as a
/// number. `libc` defines it as the pointer with every bit set, so the
/// number is the largest address.
#[verifier::external_body]
pub(crate) fn map_failed() -> (address: usize)
    ensures
        address == usize::MAX,
{
    libc::MAP_FAILED as usize
}

} // verus!
