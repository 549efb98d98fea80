//! Easing curves over fixed-point normalized time.
//!
//! Normalized time and progress are both expressed in thousandths: `0` is the
//! start of a transition and [`UNIT`] is its end.
use vstd::prelude::*;

verus! {

/// Fixed-point representation of 1.0 for normalized time and progress.
pub const UNIT: u32 = 1000;

/// The shape of an easing curve.
#[derive(Clone, Copy, Debug, PartialEq, Eq, Structural)]
pub enum EasingType {
    EaseInOut,
    EaseIn,
    EaseOut,
    Linear,
}

/// Progress reached at normalized time `t` (both in thousandths), with the
/// quotients rounded down.
pub open spec fn ease_spec(kind: EasingType, t: int) -> int {
    let u = UNIT as int;
    match kind {
        EasingType::Linear => t,
        EasingType::EaseIn => t * t / u,
        EasingType::EaseOut => u - (u - t) * (u - t) / u,
        EasingType::EaseInOut => if 2 * t < u {
            2 * t * t / u
        } else {
            u - 2 * (u - t) * (u - t) / u
        },
    }
}

/// Every curve maps `[0, UNIT]` into `[0, UNIT]`.
pub proof fn lemma_ease_in_range(kind: EasingType, t: int)
    requires
        0 <= t <= UNIT,
    ensures
        0 <= ease_spec(kind, t) <= UNIT,
{
    let u = UNIT as int;
    assert(0 <= t * t <= u * u) by (nonlinear_arith)
        requires 0 <= t <= u;
    assert(0 <= (u - t) * (u - t) <= u * u) by (nonlinear_arith)
        requires 0 <= t <= u;
    assert(t * t / u <= u) by (nonlinear_arith)
        requires 0 <= t * t <= u * u, u > 0;
    assert((u - t) * (u - t) / u <= u) by (nonlinear_arith)
        requires 0 <= (u - t) * (u - t) <= u * u, u > 0;
    if 2 * t < u {
        assert(2 * t * t <= u * u) by (nonlinear_arith)
            requires 0 <= 2 * t < u, 0 <= t;
        assert(0 <= 2 * t * t / u <= u) by (nonlinear_arith)
            requires 0 <= 2 * t * t <= u * u, u > 0;
    } else {
        assert(0 <= 2 * (u - t) * (u - t) <= u * u) by (nonlinear_arith)
            requires u <= 2 * t, t <= u;
        assert(0 <= 2 * (u - t) * (u - t) / u <= u) by (nonlinear_arith)
            requires 0 <= 2 * (u - t) * (u - t) <= u * u, u > 0;
    }
}

/// Maps normalized time `t` to normalized progress under the curve `kind`.
pub fn ease(kind: EasingType, t: u32) -> (p: u32)
    requires
        t <= UNIT,
    ensures
        p == ease_spec(kind, t as int),
        p <= UNIT,
{
    proof {
        lemma_ease_in_range(kind, t as int);
    }
    let u: u64 = UNIT as u64;
    let t64: u64 = t as u64;
    let rest: u64 = u - t64;
    assert(t64 * t64 <= u * u) by (nonlinear_arith)
        requires t64 <= u;
    assert(rest * rest <= u * u) by (nonlinear_arith)
        requires rest <= u;
    let p: u64 = match kind {
        EasingType::Linear => t64,
        EasingType::EaseIn => t64 * t64 / u,
        EasingType::EaseOut => u - rest * rest / u,
        EasingType::EaseInOut => {
            if 2 * t64 < u {
                2 * t64 * t64 / u
            } else {
                u - 2 * rest * rest / u
            }
        },
    };
    p as u32
}

/// Value between `start` and `end` reached at progress `p` (in thousandths),
/// the offset from `start` rounded toward `start`.
pub open spec fn interpolate(start: int, end: int, p: int) -> int {
    if start <= end {
        start + (end - start) * p / (UNIT as int)
    } else {
        start - (start - end) * p / (UNIT as int)
    }
}

/// An interpolated value never leaves the interval between its two ends.
pub proof fn lemma_interpolate_between(start: int, end: int, p: int)
    requires
        0 <= p <= UNIT,
    ensures
        start <= end ==> start <= interpolate(start, end, p) <= end,
        end < start ==> end <= interpolate(start, end, p) <= start,
        p == UNIT ==> interpolate(start, end, p) == end,
        p == 0 ==> interpolate(start, end, p) == start,
{
    let u = UNIT as int;
    let d = if start <= end { end - start } else { start - end };
    assert(0 <= d * p / u <= d) by (nonlinear_arith)
        requires 0 <= d, 0 <= p <= u, u > 0;
    assert(d * u / u == d) by (nonlinear_arith)
        requires u > 0;
}

/// The value between `start` and `end` at progress `p` (in thousandths).
pub fn interpolate_value(start: i32, end: i32, p: u32) -> (r: i32)
    requires
        p <= UNIT,
    ensures
        r == interpolate(start as int, end as int, p as int),
{
    proof {
        lemma_interpolate_between(start as int, end as int, p as int);
    }
    let u: u64 = UNIT as u64;
    if start <= end {
        let d: u64 = (end as i64 - start as i64) as u64;
        assert(d * (p as u64) <= d * u) by (nonlinear_arith)
            requires p <= u;
        let off: u64 = d * (p as u64) / u;
        (start as i64 + off as i64) as i32
    } else {
        let d: u64 = (start as i64 - end as i64) as u64;
        assert(d * (p as u64) <= d * u) by (nonlinear_arith)
            requires p <= u;
        let off: u64 = d * (p as u64) / u;
        (start as i64 - off as i64) as i32
    }
}

} // verus!
