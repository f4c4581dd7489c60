//! Page arithmetic: rounding byte positions down to the page that holds them.

use vstd::prelude::*;
use vstd::arithmetic::power::lemma_pow_positive;
use vstd::arithmetic::power::pow;
use vstd::arithmetic::power2::is_pow2;
use vstd::arithmetic::power2::is_pow2_equiv;
use vstd::arithmetic::power2::lemma2_to64_rest;
use vstd::arithmetic::power2::pow2;
use vstd::arithmetic::div_mod::lemma_fundamental_div_mod;
use vstd::arithmetic::div_mod::lemma_mod_multiples_vanish;
use vstd::arithmetic::div_mod::lemma_small_mod;

verus! {

/// Start of the page that holds position `at`: `at` rounded down to a
/// multiple of `page`. Positions may be negative.
pub open spec fn page_floor(at: int, page: int) -> int
    recommends
        page > 0,
{
    at - at % page
}

/// Distance of position `at` from the start of its page.
pub open spec fn page_delta(at: int, page: int) -> int
    recommends
        page > 0,
{
    at % page
}

/// What a page size must be: a power of two that both an address and a
/// file offset can hold.
pub open spec fn is_page_size(bytes: int) -> bool {
    is_pow2(bytes) && bytes <= usize::MAX && bytes <= i64::MAX
}

/// A page size that is known to be usable.
#[derive(Clone, Copy, Debug)]
pub struct PageSize {
    bytes: usize,
}

impl View for PageSize {
    type V = int;

    closed spec fn view(&self) -> int {
        self.bytes as int
    }
}

impl PageSize {
    #[verifier::type_invariant]
    spec fn valid(&self) -> bool {
        is_page_size(self.bytes as int)
    }

    /// Takes the size that the system reports, if it is a page size.
    pub fn new(raw: libc::c_long) -> (r: Option<PageSize>)
        ensures
            r is Some <==> is_page_size(raw as int),
            r is Some ==> r.unwrap()@ == raw,
    {
        if raw <= 0 {
            proof {
                reveal(is_pow2);
            }
            return None;
        }
        if raw as u64 > usize::MAX as u64 {
            return None;
        }
        let mut rest: i64 = raw;
        while rest % 2 == 0
            invariant
                0 < rest <= raw,
                is_pow2(rest as int) == is_pow2(raw as int),
            decreases rest,
        {
            proof {
                reveal(is_pow2);
            }
            rest = rest / 2;
        }
        proof {
            reveal(is_pow2);
        }
        if rest == 1 {
            Some(PageSize { bytes: raw as usize })
        } else {
            None
        }
    }

    /// The size in bytes.
    pub fn bytes(&self) -> (n: usize)
        ensures
            n == self@,
            is_page_size(self@),
    {
        proof {
            use_type_invariant(self);
        }
        self.bytes
    }

    /// Start of the page that holds `address`.
    pub fn floor_address(&self, address: usize) -> (base: usize)
        ensures
            base == page_floor(address as int, self@),
    {
        proof {
            use_type_invariant(self);
            lemma_pow2_positive(self@);
            lemma_fundamental_div_mod(address as int, self@);
        }
        address - address % self.bytes
    }

    /// Distance of `offset` from the start of its page.
    pub fn delta(&self, offset: libc::off_t) -> (d: usize)
        ensures
            d == page_delta(offset as int, self@),
    {
        proof {
            use_type_invariant(self);
            lemma_floor_fits(offset as int, self@);
        }
        let rem: i64 = offset.checked_rem_euclid(self.bytes as i64).unwrap();
        rem as usize
    }

    /// Start of the page that holds `offset`.
    pub fn floor_offset(&self, offset: libc::off_t) -> (aligned: libc::off_t)
        ensures
            aligned == page_floor(offset as int, self@),
    {
        proof {
            use_type_invariant(self);
            lemma_floor_fits(offset as int, self@);
        }
        let rem: i64 = offset.checked_rem_euclid(self.bytes as i64).unwrap();
        offset - rem
    }
}

/// A power of two is positive.
pub proof fn lemma_pow2_positive(n: int)
    requires
        is_pow2(n),
    ensures
        n > 0,
{
    reveal(is_pow2);
}

/// Of two powers of two the smaller divides the larger.
pub proof fn lemma_pow2_divides(small: int, large: int)
    requires
        is_pow2(small),
        is_pow2(large),
        small <= large,
    ensures
        large % small == 0,
    decreases large,
{
    reveal(is_pow2);
    if small == large {
        lemma_fundamental_div_mod(large, small);
        assert(large % small == 0) by (nonlinear_arith)
            requires
                small == large,
                small > 0,
        ;
    } else if small == 1 {
        assert(large % 1 == 0);
    } else {
        // both are even, and halving keeps their order
        lemma_pow2_divides(small / 2, large / 2);
        let s = small / 2;
        let l = large / 2;
        lemma_fundamental_div_mod(l, s);
        let q = l / s;
        assert(l == s * q);
        assert(large == small * q) by (nonlinear_arith)
            requires
                large == 2 * l,
                small == 2 * s,
                l == s * q,
        ;
        lemma_mod_multiples_vanish(q, 0, small);
        assert(small * q == q * small) by (nonlinear_arith);
        lemma_small_mod(0, small as nat);
    }
}

/// The number of negative offsets is a power of two.
proof fn lemma_offset_range_is_pow2()
    ensures
        is_pow2(0x8000_0000_0000_0000),
{
    lemma2_to64_rest();
    lemma_pow_positive(2, 63);
    assert(pow(2, 63) == pow2(63));
    is_pow2_equiv(0x8000_0000_0000_0000);
}

/// Rounding an offset down to its page never leaves the range of offsets.
pub proof fn lemma_floor_fits(offset: int, page: int)
    requires
        is_page_size(page),
        i64::MIN <= offset <= i64::MAX,
    ensures
        i64::MIN <= page_floor(offset, page) <= offset,
        0 <= page_delta(offset, page) < page,
{
    lemma_pow2_positive(page);
    lemma_fundamental_div_mod(offset, page);
    lemma_offset_range_is_pow2();
    lemma_pow2_divides(page, 0x8000_0000_0000_0000);
    // the lowest offset is itself the start of a page
    let low: int = -0x8000_0000_0000_0000;
    lemma_fundamental_div_mod(0x8000_0000_0000_0000, page);
    let pages = 0x8000_0000_0000_0000int / page;
    let q = offset / page;
    assert(q >= -pages) by (nonlinear_arith)
        requires
            page > 0,
            page * pages == 0x8000_0000_0000_0000,
            page * q + offset % page == offset,
            0 <= offset % page < page,
            offset >= -0x8000_0000_0000_0000,
    ;
    assert(page * q >= page * (-pages)) by (nonlinear_arith)
        requires
            page > 0,
            q >= -pages,
    ;
    assert(page * (-pages) == -(page * pages)) by (nonlinear_arith);
}

} // verus!
