//! Two-point linear interpolation of samples.
use vstd::prelude::*;

verus! {

/// The value at fraction `t / d` of the way from `y0` to `y1`, rounded toward `y0`.
pub open spec fn lerp(y0: i64, y1: i64, t: int, d: int) -> int {
    if y0 <= y1 {
        y0 + (y1 - y0) * t / d
    } else {
        y0 - (y0 - y1) * t / d
    }
}

/// `lerp` taken on each component of two samples.
pub open spec fn lerp_sample(y0: Seq<i64>, y1: Seq<i64>, t: int, d: int) -> Seq<i64> {
    Seq::new(y0.len(), |k: int| lerp(y0[k], y1[k], t, d) as i64)
}

/// The distance between two values.
pub open spec fn distance(a: i64, b: i64) -> int {
    if a <= b {
        b - a
    } else {
        a - b
    }
}

/// An interpolated value lies between its two ends, and grows with `t`.
pub proof fn lemma_lerp_bounds(y0: i64, y1: i64, t: int, d: int)
    requires
        0 <= t <= d,
        0 < d,
    ensures
        y0 <= y1 ==> y0 <= lerp(y0, y1, t, d) <= y1,
        y1 < y0 ==> y1 <= lerp(y0, y1, t, d) <= y0,
        t == 0 ==> lerp(y0, y1, t, d) == y0,
        t == d ==> lerp(y0, y1, t, d) == y1,
{
    let w: int = if y0 <= y1 { y1 - y0 } else { y0 - y1 };
    assert(0 <= w * t <= w * d) by (nonlinear_arith)
        requires 0 <= t <= d, 0 <= w;
    assert(w * d / d == w) by (nonlinear_arith)
        requires 0 < d;
    vstd::arithmetic::div_mod::lemma_div_is_ordered(w * t, w * d, d);
    vstd::arithmetic::div_mod::lemma_div_is_ordered(0, w * t, d);
    if t == 0 {
        assert(w * t == 0);
    }
}

/// An interpolated value never decreases as `t` grows, when `y0 <= y1`.
pub proof fn lemma_lerp_monotone(y0: i64, y1: i64, t1: int, t2: int, d: int)
    requires
        y0 <= y1,
        0 <= t1 <= t2 <= d,
        0 < d,
    ensures
        lerp(y0, y1, t1, d) <= lerp(y0, y1, t2, d),
{
    let w: int = y1 - y0;
    assert(w * t1 <= w * t2) by (nonlinear_arith)
        requires t1 <= t2, 0 <= w;
    vstd::arithmetic::div_mod::lemma_div_is_ordered(w * t1, w * t2, d);
}

/// Interpolates one component: the value at `t / d` of the way from `y0` to
/// `y1`, rounded toward `y0`.
pub fn lerp_value(y0: i64, y1: i64, t: u64, d: u64) -> (r: i64)
    requires
        t < d,
    ensures
        r == lerp(y0, y1, t as int, d as int),
{
    proof {
        lemma_lerp_bounds(y0, y1, t as int, d as int);
    }
    if y0 <= y1 {
        let w: u128 = (y1 as i128 - y0 as i128) as u128;
        assert(w * (t as u128) <= 0xffff_ffff_ffff_ffffu128 * 0xffff_ffff_ffff_ffffu128) by (nonlinear_arith)
            requires w <= 0xffff_ffff_ffff_ffffu128, t <= 0xffff_ffff_ffff_ffffu64;
        let q: u128 = w * (t as u128) / (d as u128);
        (y0 as i128 + q as i128) as i64
    } else {
        let w: u128 = (y0 as i128 - y1 as i128) as u128;
        assert(w * (t as u128) <= 0xffff_ffff_ffff_ffffu128 * 0xffff_ffff_ffff_ffffu128) by (nonlinear_arith)
            requires w <= 0xffff_ffff_ffff_ffffu128, t <= 0xffff_ffff_ffff_ffffu64;
        let q: u128 = w * (t as u128) / (d as u128);
        (y0 as i128 - q as i128) as i64
    }
}

/// Interpolates two samples component by component.
pub fn lerp_array<const N: usize>(y0: &[i64; N], y1: &[i64; N], t: u64, d: u64) -> (r: [i64; N])
    requires
        t < d,
    ensures
        r@ == lerp_sample(y0@, y1@, t as int, d as int),
{
    let mut r: [i64; N] = *y0;
    let mut k: usize = 0;
    while k < N
        invariant
            k <= N,
            r@.len() == N,
            y0@.len() == N,
            y1@.len() == N,
            t < d,
            forall|j: int| 0 <= j < k ==> r@[j] == lerp(y0@[j], y1@[j], t as int, d as int) as i64,
        decreases N - k,
    {
        let v = lerp_value(y0[k], y1[k], t, d);
        r[k] = v;
        k = k + 1;
    }
    assert(r@ =~= lerp_sample(y0@, y1@, t as int, d as int));
    r
}

} // verus!
