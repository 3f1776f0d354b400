//! Integer helpers for drawing.
use vstd::prelude::*;

verus! {

/// `r` is the integer square root of `n`: the largest value whose square
/// does not exceed `n`.
pub open spec fn is_isqrt(n: int, r: int) -> bool {
    r >= 0 && r * r <= n < (r + 1) * (r + 1)
}

proof fn lemma_step_above(n: int, x: int)
    requires
        n >= 0,
        x > 0,
    ensures
        ((x + n / x) / 2 + 1) * ((x + n / x) / 2 + 1) > n,
{
    let q = n / x;
    let y = (x + q) / 2;
    vstd::arithmetic::div_mod::lemma_fundamental_div_mod(n, x);
    vstd::arithmetic::div_mod::lemma_mod_bound(n, x);
    vstd::arithmetic::div_mod::lemma_div_pos_is_pos(n, x);
    assert(n < x * (q + 1)) by (nonlinear_arith)
        requires
            n == x * q + n % x,
            n % x < x,
    ;
    assert(x + q <= 2 * y + 1);
    assert(x * (q + 1) <= x * (2 * y + 2 - x)) by (nonlinear_arith)
        requires
            x > 0,
            q + 1 <= 2 * y + 2 - x,
    ;
    assert((y + 1) * (y + 1) - x * (2 * y + 2 - x) == (y + 1 - x) * (y + 1 - x)) by (
    nonlinear_arith);
    assert((y + 1 - x) * (y + 1 - x) >= 0) by (nonlinear_arith);
}

proof fn lemma_step_stops(n: int, x: int)
    requires
        n >= 0,
        x > 0,
        (x + n / x) / 2 >= x,
    ensures
        x * x <= n,
{
    let q = n / x;
    vstd::arithmetic::div_mod::lemma_fundamental_div_mod(n, x);
    vstd::arithmetic::div_mod::lemma_mod_bound(n, x);
    assert(q >= x);
    assert(x * x <= x * q) by (nonlinear_arith)
        requires
            x > 0,
            q >= x,
    ;
}

/// Integer square root by Newton's method; 0 for a negative argument.
pub fn isqrt(n: i32) -> (r: i32)
    ensures
        n < 0 ==> r == 0,
        n >= 0 ==> is_isqrt(n as int, r as int),
{
    if n < 0 {
        return 0;
    }
    let mut x = n;
    let mut y = x / 2 + x % 2;
    proof {
        assert((y + 1) * (y + 1) > n) by (nonlinear_arith)
            requires
                y == n / 2 + n % 2,
                n >= 0,
        ;
        assert((x + 1) * (x + 1) > n) by (nonlinear_arith)
            requires
                x == n,
                n >= 0,
        ;
    }
    while y < x
        invariant
            n >= 0,
            0 <= y,
            0 <= x <= n,
            (x + 1) * (x + 1) > n,
            (y + 1) * (y + 1) > n,
            x == n || y == (x + n / x) / 2,
            x == n ==> y == n / 2 + n % 2,
        decreases x,
    {
        x = y;
        if x == 0 {
            // Only reached for n == 0, where the loop does not run.
            proof {
                assert(n == 0) by (nonlinear_arith)
                    requires
                        x == 0,
                        y == x,
                        n >= 0,
                        (y + 1) * (y + 1) > n,
                ;
            }
            y = 0;
        } else {
            proof {
                lemma_step_above(n as int, x as int);
                vstd::arithmetic::div_mod::lemma_div_pos_is_pos(n as int, x as int);
                vstd::arithmetic::div_mod::lemma_div_is_ordered_by_denominator(n as int, 1, x as int);
            }
            let t: i64 = (x as i64 + (n / x) as i64) / 2;
            y = t as i32;
        }
    }
    proof {
        if x == n {
            assert(x * x <= n) by (nonlinear_arith)
                requires
                    y >= x,
                    y == n / 2 + n % 2,
                    x == n,
                    n >= 0,
            ;
        } else if x > 0 {
            lemma_step_stops(n as int, x as int);
        }
    }
    x
}

} // verus!
