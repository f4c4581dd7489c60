//! What holds of windows and releases, whatever the offsets and addresses.

use vstd::prelude::*;
use vstd::arithmetic::div_mod::lemma_fundamental_div_mod;
use vstd::arithmetic::div_mod::lemma_fundamental_div_mod_converse;
use vstd::arithmetic::div_mod::lemma_mod_add_multiples_vanish;
use vstd::arithmetic::power::lemma_pow_positive;
use vstd::arithmetic::power::pow;
use vstd::arithmetic::power2::is_pow2;
use vstd::arithmetic::power2::is_pow2_equiv;
use vstd::arithmetic::power2::lemma2_to64;
use vstd::arithmetic::power2::lemma2_to64_rest;
use vstd::arithmetic::power2::pow2;
use crate::map::MemoryMap;
use crate::page::is_page_size;
use crate::page::lemma_floor_fits;
use crate::page::lemma_pow2_divides;
use crate::page::lemma_pow2_positive;
use crate::page::page_delta;
use crate::page::page_floor;
use crate::request::Capability;
use crate::request::UnmapRequest;

verus! {

/// The number of addresses is a power of two.
proof fn lemma_address_range_is_pow2()
    ensures
        is_pow2(usize::MAX + 1),
{
    lemma2_to64();
    lemma2_to64_rest();
    lemma_pow_positive(2, 32);
    lemma_pow_positive(2, 64);
    assert(pow(2, 32) == pow2(32));
    assert(pow(2, 64) == pow2(64));
    is_pow2_equiv(0x1_0000_0000);
    is_pow2_equiv(0x1_0000_0000_0000_0000);
    assert(usize::MAX + 1 == 0x1_0000_0000 || usize::MAX + 1 == 0x1_0000_0000_0000_0000);
}

/// A window that starts on a page boundary has room for every position
/// within its first page: the address of the value is an address.
pub proof fn law_aligned_window_fits(raw: usize, delta: int, page: int)
    requires
        is_page_size(page),
        raw as int % page == 0,
        0 <= delta < page,
    ensures
        raw + delta <= usize::MAX,
{
    lemma_pow2_positive(page);
    lemma_address_range_is_pow2();
    let all: int = usize::MAX + 1;
    lemma_pow2_divides(page, all);
    lemma_fundamental_div_mod(all, page);
    lemma_fundamental_div_mod(raw as int, page);
    let pages = all / page;
    let at = raw as int / page;
    assert(at < pages) by (nonlinear_arith)
        requires
            page > 0,
            page * at < page * pages,
    ;
    assert(page * at <= page * (pages - 1)) by (nonlinear_arith)
        requires
            page > 0,
            at <= pages - 1,
    ;
    assert(page * (pages - 1) == page * pages - page) by (nonlinear_arith);
}

/// Moving the offset on by one page moves the window by exactly one page
/// and leaves the value at the same place within it, `k` modulo the page
/// size.
pub proof fn law_next_page<T>(
    cap: Capability,
    k: int,
    descriptor: libc::c_int,
    protection: libc::c_int,
    flags: libc::c_int,
)
    requires
        cap is Available,
        is_page_size(cap->page@),
        i64::MIN <= k,
        k + cap->page@ <= i64::MAX,
    ensures
        MemoryMap::<T>::window(cap, k, descriptor, protection, flags) is Some,
        MemoryMap::<T>::window(cap, k + cap->page@, descriptor, protection, flags) is Some,
        ({
            let here = MemoryMap::<T>::window(cap, k, descriptor, protection, flags).unwrap();
            let next = MemoryMap::<T>::window(
                cap,
                k + cap->page@,
                descriptor,
                protection,
                flags,
            ).unwrap();
            &&& next.offset == here.offset + cap->page@
            &&& here.offset as int % cap->page@ == 0
            &&& here.delta == k % cap->page@
            &&& next.delta == here.delta
            &&& here.offset + here.delta == k
        }),
{
    let page = cap->page@;
    lemma_pow2_positive(page);
    lemma_floor_fits(k, page);
    lemma_floor_fits(k + page, page);
    lemma_mod_add_multiples_vanish(k, page);
    lemma_fundamental_div_mod(k, page);
    let at = k / page;
    assert(page * at == at * page) by (nonlinear_arith);
    lemma_fundamental_div_mod_converse(page_floor(k, page), page, at, 0);
}

/// Releasing a region unmaps exactly the window that was mapped for it:
/// the base that is derived from the address of the value is the address
/// that the mapping call returned, and the length is the one asked for.
pub proof fn law_release_unmaps_window<T>(
    cap: Capability,
    offset: int,
    descriptor: libc::c_int,
    protection: libc::c_int,
    flags: libc::c_int,
    raw: usize,
)
    requires
        cap is Available,
        is_page_size(cap->page@),
        i64::MIN <= offset <= i64::MAX,
        raw != 0,
        raw as int % cap->page@ == 0,
    ensures
        MemoryMap::<T>::window(cap, offset, descriptor, protection, flags) is Some,
        ({
            let asked = MemoryMap::<T>::window(cap, offset, descriptor, protection, flags).unwrap();
            &&& raw + asked.delta <= usize::MAX
            &&& MemoryMap::<T>::released(raw + asked.delta, cap->page@) == Some(
                UnmapRequest { base: raw, length: asked.length },
            )
        }),
{
    let page = cap->page@;
    lemma_pow2_positive(page);
    lemma_floor_fits(offset, page);
    let delta = page_delta(offset, page);
    law_aligned_window_fits(raw, delta, page);
    lemma_fundamental_div_mod(raw as int, page);
    let at = raw as int / page;
    assert(page * at == at * page) by (nonlinear_arith);
    lemma_fundamental_div_mod_converse(raw + delta, page, at, delta);
}

/// Releasing a region that owns no mapping asks for nothing, whatever the
/// page size.
pub proof fn law_release_of_nothing_is_idle<T>(page: int)
    ensures
        MemoryMap::<T>::released(0, page) is None,
{
}

} // verus!
