//! Linear congruential pseudo-random numbers and a random pick of a line.
use vstd::prelude::*;

verus! {

/// Multiplier of the generator.
pub const LCG_A: u64 = 1664525;

/// Increment of the generator.
pub const LCG_C: u64 = 1013904223;

/// Modulus of the generator, 2^32.
pub const LCG_M: u64 = 0x1_0000_0000;

/// The generator's successor of `seed`.
pub open spec fn lcg(seed: int) -> int {
    (LCG_A * seed + LCG_C) % (LCG_M as int)
}

/// Next value of the generator: `(1664525 * seed + 1013904223) mod 2^32`.
pub fn random(seed: usize) -> (r: usize)
    ensures
        r as int == lcg(seed as int),
{
    let s = seed as u64;
    let x = LCG_A.wrapping_mul(s).wrapping_add(LCG_C);
    proof {
        let big: int = 0x1_0000_0000_0000_0000;
        let n: int = LCG_M as int;
        let prod: int = LCG_A * s;
        assert(n * n == big);
        assert(LCG_A.wrapping_mul(s) as int == prod % big);
        assert(x as int == (prod % big + LCG_C) % big) by {
            vstd::arithmetic::div_mod::lemma_mod_bound(prod, big);
            let w = prod % big;
            if w + LCG_C >= big {
                vstd::arithmetic::div_mod::lemma_mod_add_multiples_vanish(w + LCG_C - big, big);
                vstd::arithmetic::div_mod::lemma_small_mod((w + LCG_C - big) as nat, big as nat);
            } else {
                vstd::arithmetic::div_mod::lemma_small_mod((w + LCG_C) as nat, big as nat);
            }
        }
        vstd::arithmetic::div_mod::lemma_add_mod_noop(prod, LCG_C as int, big);
        vstd::arithmetic::div_mod::lemma_small_mod(LCG_C as nat, big as nat);
        assert(x as int == (prod + LCG_C) % big);
        vstd::arithmetic::div_mod::lemma_mod_mod(prod + LCG_C, n, n);
    }
    (x % LCG_M) as usize
}

/// A line picked from `lines` by the generator's successor of `seed`, or
/// `None` when there are no lines.
pub fn random_bible_line(lines: &Vec<&'static str>, seed: usize) -> (r: Option<&'static str>)
    ensures
        lines@.len() == 0 ==> r is None,
        lines@.len() > 0 ==> r == Some(lines@[lcg(seed as int) % lines@.len() as int]),
{
    if lines.len() == 0 {
        return None;
    }
    let index = random(seed) % lines.len();
    Some(lines[index])
}

} // verus!
