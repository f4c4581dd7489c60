//! What the caller is asked to do for the library, as plain values.

use vstd::prelude::*;
use crate::os;
use crate::page::is_page_size;
use crate::page::PageSize;

verus! {

/// The flag values of the host that the constructors combine.
#[derive(Clone, Copy, Debug, PartialEq, Eq)]
pub struct Flags {
    /// Protection: pages may be read.
    pub read: libc::c_int,
    /// Protection: pages may be written.
    pub write: libc::c_int,
    /// Mapping: stores are shared with other processes.
    pub shared: libc::c_int,
    /// Mapping: no file stands behind it.
    pub anonymous: libc::c_int,
    /// Opening: for reading and writing.
    pub read_write: libc::c_int,
    /// Opening: writes are synchronous.
    pub sync: libc::c_int,
}

impl Flags {
    /// The values of the target this crate is built for. They differ between
    /// targets, so nothing is promised of them.
    pub(crate) fn host() -> Flags {
        Flags {
            read: os::prot_read(),
            write: os::prot_write(),
            shared: os::map_shared(),
            anonymous: os::map_anon(),
            read_write: os::open_read_write(),
            sync: os::open_sync(),
        }
    }
}

/// Whether the platform can map memory at all. Chosen once; every
/// constructor asks it before anything else.
#[derive(Clone, Copy, Debug)]
pub enum Capability {
    /// No mapping primitive: every constructor answers with nothing, and
    /// no call is asked for.
    Unavailable,
    /// Memory is mapped in pages of the given size.
    Available { page: PageSize, flags: Flags },
}

impl Capability {
    /// The capability of a host that reports `raw` as its page size, with
    /// the host's own flag values.
    pub fn with_page_size(raw: libc::c_long) -> (cap: Capability)
        ensures
            cap is Available <==> is_page_size(raw as int),
            cap is Available ==> cap->page@ == raw,
    {
        match PageSize::new(raw) {
            Some(page) => Capability::Available { page, flags: Flags::host() },
            None => Capability::Unavailable,
        }
    }
}

/// A mapping to ask for: the arguments of `mmap`, without the address
/// hint, which is always null.
#[derive(Clone, Copy, Debug, PartialEq, Eq)]
pub struct MapRequest {
    /// Bytes to map.
    pub length: usize,
    /// Access rights, as the host numbers them.
    pub protection: libc::c_int,
    /// Sharing and backing, as the host numbers them.
    pub flags: libc::c_int,
    /// The descriptor to map from, or -1 for none.
    pub descriptor: libc::c_int,
    /// Where the window starts in what is mapped: a whole number of pages.
    pub offset: libc::off_t,
    /// How far behind the start of the window the value lies.
    pub delta: usize,
    /// Whether `descriptor` is to be closed once the mapping was tried.
    pub close_descriptor: bool,
}

/// A window to hand back: the arguments of `munmap`.
#[derive(Clone, Copy, Debug, PartialEq, Eq)]
pub struct UnmapRequest {
    /// Start of the window.
    pub base: usize,
    /// Bytes to unmap.
    pub length: usize,
}

/// A file to open: the arguments of `open`.
#[derive(Clone, Copy, Debug, PartialEq, Eq)]
pub struct OpenRequest {
    /// The path, with the zero byte that ends it.
    pub path: [u8; 9],
    /// How to open it, as the host numbers it.
    pub flags: libc::c_int,
}

/// The path of the device that exposes physical memory, as C reads it.
pub open spec fn device_path() -> Seq<u8> {
    seq![47u8, 100u8, 101u8, 118u8, 47u8, 109u8, 101u8, 109u8, 0u8]
}

} // verus!
