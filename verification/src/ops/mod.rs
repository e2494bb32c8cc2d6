//! Launch planning, one module per kernel family.

use vstd::prelude::*;

pub mod argmax;
pub mod attention;
pub mod dflash2;
pub mod elementwise;
pub mod gemma4;
pub mod gemma4_build;
pub mod gemma4_tilelang;
pub mod glm52;
pub mod k3;
pub mod k3_tilelang;
pub mod linear;
pub mod norm;
pub mod qwen35;
pub mod sampling;

verus! {

/// `a / b` rounded up.
pub open spec fn ceil_div(a: int, b: int) -> int {
    (a + b - 1) / b
}

/// Whether `a` is a whole number of `b`; only zero is one of nothing.
pub open spec fn is_multiple(a: usize, b: usize) -> bool {
    if b == 0 {
        a == 0
    } else {
        a % b == 0
    }
}

/// `a / b` rounded up.
pub fn div_ceil(a: usize, b: usize) -> (r: usize)
    requires
        b > 0,
    ensures
        r == ceil_div(a as int, b as int),
{
    if a == 0 {
        assert((0 + b - 1) / b as int == 0) by (nonlinear_arith)
            requires
                b > 0,
        ;
        0
    } else {
        proof {
            lemma_ceil_div(a as int, b as int);
            assert((a - 1) / b as int <= a - 1) by (nonlinear_arith)
                requires
                    a >= 1,
                    b > 0,
            ;
        }
        (a - 1) / b + 1
    }
}

proof fn lemma_ceil_div(a: int, b: int)
    requires
        a >= 1,
        b > 0,
    ensures
        ceil_div(a, b) == (a - 1) / b + 1,
{
    assert((a - 1 + b) / b == (a - 1) / b + 1) by {
        vstd::arithmetic::div_mod::lemma_add_mod_noop(a - 1, b, b);
        vstd::arithmetic::div_mod::lemma_div_plus_one(a - 1, b);
    }
    assert(a - 1 + b == a + b - 1);
}

/// Rounding up covers: `b` times the quotient reaches `a`, and one block
/// fewer does not.
pub proof fn law_ceil_div_covers(a: int, b: int)
    requires
        a >= 0,
        b > 0,
    ensures
        ceil_div(a, b) >= 0,
        ceil_div(a, b) * b >= a,
        a > 0 ==> (ceil_div(a, b) - 1) * b < a,
{
    let q = ceil_div(a, b);
    vstd::arithmetic::div_mod::lemma_fundamental_div_mod(a + b - 1, b);
    let r = (a + b - 1) % b;
    assert(a + b - 1 == b * q + r && 0 <= r < b);
    assert(q * b == b * q) by (nonlinear_arith);
    assert((q - 1) * b == b * q - b) by (nonlinear_arith);
    assert(q >= 0) by (nonlinear_arith)
        requires
            a + b - 1 == b * q + r,
            0 <= r < b,
            a >= 0,
            b > 0,
    ;
}

/// A number is a multiple of another exactly when some whole number of times
/// the other is it; zero alone is a multiple of zero.
pub proof fn law_multiples_are_whole_counts(a: usize, b: usize, k: int)
    ensures
        a == k * b ==> is_multiple(a, b),
        is_multiple(a, b) ==> a == (if b == 0 {
            0
        } else {
            a as int / b as int
        }) * b,
{
    if b != 0 {
        if a == k * b {
            vstd::arithmetic::div_mod::lemma_mod_multiples_basic(k, b as int);
        }
        vstd::arithmetic::div_mod::lemma_fundamental_div_mod(a as int, b as int);
        assert(b * (a as int / b as int) == (a as int / b as int) * b) by (nonlinear_arith);
    } else {
        assert(k * b == 0) by (nonlinear_arith)
            requires
                b == 0,
        ;
    }
}

} // verus!
