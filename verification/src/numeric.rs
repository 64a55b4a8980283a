//! Integer helpers shared by the modules: truncating division and clamping,
//! stated over mathematical integers.

use vstd::prelude::*;

verus! {

/// Division that rounds toward zero, as Rust's `/` on signed integers does.
pub open spec fn trunc_div(a: int, b: int) -> int {
    if b == 0 {
        0
    } else {
        let q = (if a < 0 { -a } else { a }) / (if b < 0 { -b } else { b });
        if (a < 0) != (b < 0) { -q } else { q }
    }
}

/// `v` limited to the closed range `[lo, hi]`.
pub open spec fn clamp_int(v: int, lo: int, hi: int) -> int {
    if v < lo { lo } else if v > hi { hi } else { v }
}

/// A quotient of naturals is no larger than the dividend.
proof fn lemma_quotient_bounded(a: int, b: int)
    requires
        a >= 0,
        b >= 1,
    ensures
        0 <= a / b <= a,
        b >= 2 ==> a / b <= a / 2,
{
    assert(0 <= a / b <= a) by (nonlinear_arith)
        requires
            a >= 0,
            b >= 1,
    ;
    assert(b >= 2 ==> a / b <= a / 2) by (nonlinear_arith)
        requires
            a >= 0,
            b >= 1,
    ;
}

/// Division rounding toward zero by a positive divisor keeps the sign of
/// the dividend and does not grow its size.
pub proof fn lemma_trunc_div_shrinks(a: int, b: int)
    requires
        b >= 1,
    ensures
        a >= 0 ==> 0 <= trunc_div(a, b) <= a,
        a < 0 ==> a <= trunc_div(a, b) <= 0,
{
    lemma_quotient_bounded(if a < 0 { -a } else { a }, b);
}

/// Dividing a value of size at most `m` by `b`, rounding toward zero, gives
/// a quotient of size at most `m / b`, and quotient times divisor lies
/// between zero and the dividend.
pub proof fn lemma_trunc_div_bound(a: int, b: int, m: int)
    requires
        b >= 1,
        -m <= a <= m,
    ensures
        -(m / b) <= trunc_div(a, b) <= m / b,
        a >= 0 ==> 0 <= trunc_div(a, b) * b <= a,
        a < 0 ==> a <= trunc_div(a, b) * b <= 0,
{
    let na = if a < 0 { -a } else { a };
    assert(na / b <= m / b) by (nonlinear_arith)
        requires
            0 <= na <= m,
            b >= 1,
    ;
    assert(0 <= (na / b) * b <= na) by (nonlinear_arith)
        requires
            0 <= na,
            b >= 1,
    ;
    assert(0 <= na / b) by (nonlinear_arith)
        requires
            0 <= na,
            b >= 1,
    ;
    if a < 0 {
        assert(trunc_div(a, b) == -(na / b));
        assert(trunc_div(a, b) * b == -((na / b) * b)) by (nonlinear_arith)
            requires
                trunc_div(a, b) == -(na / b),
        ;
    }
}

/// Signed division rounding toward zero.
pub fn div_i32(a: i32, b: i32) -> (q: i32)
    requires
        b != 0,
        !(a == i32::MIN && b == -1),
    ensures
        q == trunc_div(a as int, b as int),
{
    proof {
        lemma_quotient_bounded(if a < 0 { -a } else { a as int }, if b < 0 { -b } else { b as int });
    }
    match a.checked_div(b) {
        Some(q) => q,
        None => 0,
    }
}

/// `v` limited to `[lo, hi]`; `lo <= hi` as `Ord::clamp` demands.
pub fn clamp_i32(v: i32, lo: i32, hi: i32) -> (r: i32)
    requires
        lo <= hi,
    ensures
        r == clamp_int(v as int, lo as int, hi as int),
{
    if v < lo {
        lo
    } else if v > hi {
        hi
    } else {
        v
    }
}

} // verus!
