//! The mapped region: how it comes to be, where its value lies, and how it
//! is released.

use core::marker::PhantomData;
use vstd::prelude::*;
use vstd::layout::size_of;
use crate::os;
use crate::page::page_delta;
use crate::page::page_floor;
use crate::page::PageSize;
use crate::request::device_path;
use crate::request::Capability;
use crate::request::MapRequest;
use crate::request::OpenRequest;
use crate::request::UnmapRequest;

verus! {

/// The address of a region, lent out for as long as the region is
/// borrowed. The region keeps the duty to release the mapping.
pub struct RawPtr<'a, T> {
    /// The address of the value.
    pub ptr: usize,
    _lifetime: PhantomData<&'a mut T>,
}

impl<'a, T> View for RawPtr<'a, T> {
    type V = int;

    /// The address that was lent out.
    closed spec fn view(&self) -> int {
        self.ptr as int
    }
}

/// One mapping of the operating system that holds one value of type `T`.
///
/// The region is the address of the value. Address zero says that no
/// mapping is owned: it was released already.
pub struct MemoryMap<T> {
    ptr: usize,
    _value: PhantomData<T>,
}

impl<T> View for MemoryMap<T> {
    type V = int;

    /// The address of the value, zero when nothing is mapped.
    closed spec fn view(&self) -> int {
        self.ptr as int
    }
}

impl<T> MemoryMap<T> {
    /// The request that maps a `T` lying `offset` bytes into `descriptor`:
    /// the window starts at the page that holds `offset`. Without the
    /// capability there is none.
    pub open spec fn window(
        cap: Capability,
        offset: int,
        descriptor: libc::c_int,
        protection: libc::c_int,
        flags: libc::c_int,
    ) -> Option<MapRequest> {
        match cap {
            Capability::Unavailable => None,
            Capability::Available { page, .. } => Some(
                MapRequest {
                    length: size_of::<T>() as usize,
                    protection,
                    flags,
                    descriptor,
                    offset: page_floor(offset, page@) as libc::off_t,
                    delta: page_delta(offset, page@) as usize,
                    close_descriptor: false,
                },
            ),
        }
    }

    /// The request that maps a `T` lying `offset` bytes into physical
    /// memory, once opening the device has returned `descriptor`: none if
    /// that is the failure value -1; else a readable, writable and shared
    /// window, after which the descriptor is closed.
    pub open spec fn device_window(cap: Capability, offset: int, descriptor: libc::c_int) -> Option<
        MapRequest,
    > {
        if descriptor == -1 {
            None
        } else {
            match Self::window(
                cap,
                offset,
                descriptor,
                cap->flags.read | cap->flags.write,
                cap->flags.shared,
            ) {
                Some(plain) => Some(MapRequest { close_descriptor: true, ..plain }),
                None => None,
            }
        }
    }

    /// The window to unmap when a region at `address` is released.
    pub open spec fn released(address: int, page: int) -> Option<UnmapRequest> {
        if address == 0 {
            None
        } else {
            Some(
                UnmapRequest {
                    base: page_floor(address, page) as usize,
                    length: size_of::<T>() as usize,
                },
            )
        }
    }

    /// Whether the region owns a mapping.
    pub open spec fn is_mapped(&self) -> bool {
        self@ != 0
    }

    /// Plans the mapping of a `T` that lies `offset` bytes into `fd`.
    ///
    /// `prot` and `flags` go to the operating system as they are. The
    /// length asked for is the size of `T`, not a whole number of pages.
    pub fn open_file_raw(
        cap: &Capability,
        offset: libc::off_t,
        fd: libc::c_int,
        prot: libc::c_int,
        flags: libc::c_int,
    ) -> (request: Option<MapRequest>)
        ensures
            request == Self::window(*cap, offset as int, fd, prot, flags),
    {
        match cap {
            Capability::Unavailable => None,
            Capability::Available { page, .. } => Some(
                MapRequest {
                    length: core::mem::size_of::<T>(),
                    protection: prot,
                    flags,
                    descriptor: fd,
                    offset: page.floor_offset(offset),
                    delta: page.delta(offset),
                    close_descriptor: false,
                },
            ),
        }
    }

    /// Plans an anonymous mapping: readable, writable and shared, with no
    /// file behind it.
    pub fn anonymous(cap: &Capability) -> (request: Option<MapRequest>)
        ensures
            request == Self::window(
                *cap,
                0,
                -1i32,
                cap->flags.read | cap->flags.write,
                cap->flags.anonymous | cap->flags.shared,
            ),
    {
        match cap {
            Capability::Unavailable => None,
            Capability::Available { flags, .. } => Self::open_file_raw(
                cap,
                0,
                -1,
                flags.read | flags.write,
                flags.anonymous | flags.shared,
            ),
        }
    }

    /// First step towards a mapping of physical memory: the device to open,
    /// for reading and writing, synchronously.
    pub fn dev_mem_open(cap: &Capability) -> (request: Option<OpenRequest>)
        ensures
            request is Some <==> cap is Available,
            request is Some ==> request.unwrap().path@ == device_path()
                && request.unwrap().flags == cap->flags.read_write | cap->flags.sync,
    {
        match cap {
            Capability::Unavailable => None,
            Capability::Available { flags, .. } => Some(
                OpenRequest {
                    path: [47u8, 100u8, 101u8, 118u8, 47u8, 109u8, 101u8, 109u8, 0u8],
                    flags: flags.read_write | flags.sync,
                },
            ),
        }
    }

    /// Second step towards a mapping of physical memory, given what opening
    /// the device returned: nothing if it failed, else a shared mapping of
    /// the `T` at `offset`, after which the descriptor is closed.
    pub fn dev_mem(cap: &Capability, offset: libc::off_t, fd: libc::c_int) -> (request: Option<
        MapRequest,
    >)
        ensures
            request == Self::device_window(*cap, offset as int, fd),
    {
        if fd == -1 {
            return None;
        }
        match cap {
            Capability::Unavailable => None,
            Capability::Available { flags, .. } => {
                match Self::open_file_raw(cap, offset, fd, flags.read | flags.write, flags.shared) {
                    Some(plain) => Some(MapRequest { close_descriptor: true, ..plain }),
                    None => None,
                }
            },
        }
    }

    /// Takes the address that the mapping call returned. On failure there
    /// is no region; else the region lies `request.delta` bytes into the
    /// window, where the caller's offset is.
    pub fn complete(request: &MapRequest, raw: usize) -> (region: Option<MemoryMap<T>>)
        ensures
            region is Some <==> raw != usize::MAX && raw + request.delta <= usize::MAX,
            region is Some ==> region.unwrap()@ == raw + request.delta,
    {
        if raw == os::map_failed() {
            return None;
        }
        match raw.checked_add(request.delta) {
            Some(address) => Some(MemoryMap { ptr: address, _value: PhantomData }),
            None => None,
        }
    }

    /// The address of the value, zero when nothing is mapped.
    pub fn address(&self) -> (address: usize)
        ensures
            address == self@,
    {
        self.ptr
    }

    /// Lends the address out. The region stays the owner.
    pub fn as_ref<'a>(&'a mut self) -> (view: RawPtr<'a, T>)
        ensures
            view@ == old(self)@,
            final(self)@ == old(self)@,
    {
        RawPtr { ptr: self.ptr, _lifetime: PhantomData }
    }

    /// The value to store after `current` was loaded: what `cb` makes of
    /// it. The load and the store are two accesses, and nothing keeps
    /// others from storing in between.
    pub fn read_and_write<F: FnOnce(T) -> T>(&mut self, current: T, cb: F) -> (new: T)
        requires
            cb.requires((current,)),
        ensures
            cb.ensures((current,), new),
            final(self)@ == old(self)@,
    {
        cb(current)
    }

    /// Gives the mapping up. A region that owns none asks for nothing;
    /// else the window to unmap starts at the page that holds the address.
    /// Afterwards the region owns nothing, so a second release is idle.
    pub fn release(&mut self, page: &PageSize) -> (request: Option<UnmapRequest>)
        ensures
            request == Self::released(old(self)@, page@),
            final(self)@ == 0,
    {
        if self.ptr == 0 {
            return None;
        }
        let base: usize = page.floor_address(self.ptr);
        self.ptr = 0;
        Some(UnmapRequest { base, length: core::mem::size_of::<T>() })
    }
}

} // verus!
