//! Address arithmetic for the heap.
use vstd::prelude::*;

verus! {

/// `addr` rounded up to the next multiple of `align`.
pub open spec fn align_up_spec(addr: int, align: int) -> int {
    if addr % align == 0 {
        addr
    } else {
        addr - addr % align + align
    }
}

/// Align `addr` upwards to a multiple of `align`.
pub fn align_up(addr: usize, align: usize) -> (r: usize)
    requires
        align > 0,
        align_up_spec(addr as int, align as int) <= usize::MAX,
    ensures
        r as int == align_up_spec(addr as int, align as int),
        r % align == 0,
        addr <= r < addr + align,
{
    let remainder = addr % align;
    if remainder == 0 {
        addr
    } else {
        proof {
            vstd::arithmetic::div_mod::lemma_fundamental_div_mod(addr as int, align as int);
            vstd::arithmetic::div_mod::lemma_mod_multiples_basic((addr / align + 1) as int, align as int);
            assert(addr - remainder + align == (addr / align + 1) * align) by (nonlinear_arith)
                requires
                    addr == align * (addr / align) + remainder,
            ;
        }
        addr - remainder + align
    }
}

} // verus!
