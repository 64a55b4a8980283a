//! Experience table shown by the heads-up display.

use vstd::prelude::*;

verus! {

/// Experience needed to leave each level: entry `i` is the experience at
/// which a hero of level `i + 1` reaches level `i + 2`.
pub const XP_THRESHOLDS: [u32; 50] = [
    2000, 4620, 8040, 12489, 18258, 25712, 35309, 47622, 63364, 83419, 108879, 141086, 181683,
    231075, 313656, 424067, 571190, 766569, 1025154, 1366227, 1814568, 2401895, 3168651, 4166200,
    5459523, 7130496, 9281874, 12042092, 15571031, 20066900, 25774405, 32994399, 42095202,
    53525811, 67831218, 85670061, 107834823, 135274799, 169122009, 210720231, 261657253,
    323800420, 399335440, 490808349, 601170414, 733825617, 892680222, 1082908612, 1310707109,
    1583495809,
];

/// The highest level a hero reaches.
pub const MAX_PLAYER_LEVEL: u8 = 50;

/// Each entry of the experience table is above the one before it.
pub proof fn lemma_xp_thresholds_increase()
    ensures
        forall|i: int| 0 <= i < 49 ==> #[trigger] XP_THRESHOLDS@[i] < XP_THRESHOLDS@[i + 1],
{
}


/// The half-width of a disc of radius `r` on the row `dy` from its centre:
/// the largest `w` with `w * w <= r * r - dy * dy`, and 0 on rows at or past
/// the radius.
pub fn circle_half_width(r: i32, dy: i32) -> (w: i32)
    requires
        dy != i32::MIN,
    ensures
        (if dy >= 0 { dy as int } else { -dy }) >= r ==> w == 0,
        (if dy >= 0 { dy as int } else { -dy }) < r ==> 0 <= w && w * w <= r * r - dy * dy < (w + 1) * (w + 1),
{
    let ady = if dy >= 0 { dy } else { -dy };
    if ady >= r {
        return 0;
    }
    assert(0 <= r * r <= i32::MAX * i32::MAX) by (nonlinear_arith)
        requires
            0 < r <= i32::MAX,
    ;
    assert(0 <= dy * dy <= i32::MAX * i32::MAX) by (nonlinear_arith)
        requires
            i32::MIN < dy <= i32::MAX,
    ;
    let rr: i64 = (r as i64) * (r as i64);
    let dd: i64 = (dy as i64) * (dy as i64);
    assert(dd < rr) by (nonlinear_arith)
        requires
            0 <= ady < r,
            dd == dy * dy,
            rr == r * r,
            ady == dy || ady == -dy,
    ;
    let n: i64 = rr - dd;
    let mut lo: i64 = 0;
    let mut hi: i64 = r as i64;
    assert(n < (hi + 1) * (hi + 1)) by (nonlinear_arith)
        requires
            n <= rr,
            rr == r * r,
            hi == r,
            r >= 1,
    ;
    while lo < hi
        invariant
            0 <= lo <= hi <= r,
            lo * lo <= n,
            n < (hi + 1) * (hi + 1),
            n == r * r - dy * dy,
            r <= i32::MAX,
        decreases hi - lo,
    {
        let mid: i64 = lo + (hi - lo + 1) / 2;
        assert(mid * mid <= r * r) by (nonlinear_arith)
            requires
                0 <= mid <= r,
        ;
        assert(r * r <= i32::MAX * i32::MAX) by (nonlinear_arith)
            requires
                0 <= r <= i32::MAX,
        ;
        if mid * mid <= n {
            lo = mid;
        } else {
            hi = mid - 1;
        }
    }
    lo as i32
}

} // verus!
