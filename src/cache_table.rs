//! A cache that tabulates the function on a uniform grid over a bounded
//! domain and interpolates between grid points.
use vstd::prelude::*;

use core::ops::Range;

use crate::interp::{lerp_array, lerp_sample};
use crate::{same_curve, Curve, SaturationMut, INFINITY, NEG_INFINITY};

verus! {

/// The largest number of grid intervals a table holds.
pub const MAX_RESOLUTION: usize = 65534;

/// The position of grid point `i` of `r` intervals over `[start, end]`,
/// rounded toward `start`.
pub open spec fn grid_point(start: i64, end: i64, r: int, i: int) -> int {
    if r == 0 {
        start as int
    } else {
        start + (end - start) * i / r
    }
}

/// The width of one grid interval, rounded down: zero where there are no
/// intervals.
pub open spec fn grid_step(start: i64, end: i64, r: int) -> int {
    if r == 0 {
        0
    } else if start <= end {
        (end - start) / r
    } else {
        (start - end) / r
    }
}

/// Whether the domain is bounded around zero, which it is only at the
/// largest resolution, where it reaches `MAX_RESOLUTION` steps each way.
pub open spec fn is_capped(start: i64, end: i64, r: int) -> bool {
    r >= MAX_RESOLUTION && MAX_RESOLUTION * grid_step(start, end, r) < INFINITY
}

/// The requested interval: `[start, end]`, or the single point `start`
/// where the request is inverted.
pub open spec fn request_end(start: i64, end: i64) -> i64 {
    if end < start {
        start
    } else {
        end
    }
}

/// The lower bound that the resolution allows.
pub open spec fn cap_low(start: i64, end: i64, r: int) -> int {
    if is_capped(start, end, r) {
        -(MAX_RESOLUTION * grid_step(start, end, r))
    } else {
        NEG_INFINITY as int
    }
}

/// The upper bound that the resolution allows.
pub open spec fn cap_high(start: i64, end: i64, r: int) -> int {
    if is_capped(start, end, r) {
        MAX_RESOLUTION * grid_step(start, end, r)
    } else {
        INFINITY as int
    }
}

/// The lower end of the tabulated domain for a requested `[start, end]`:
/// the request cut to the bounds that the resolution allows, and kept within
/// the request where those bounds miss it.
pub open spec fn domain_start(start: i64, end: i64, r: int) -> i64 {
    let b = request_end(start, end);
    let lo: int = if start < cap_low(start, end, r) { cap_low(start, end, r) } else { start as int };
    (if lo > b { b as int } else { lo }) as i64
}

/// The upper end of the tabulated domain for a requested `[start, end]`:
/// never below its lower end, nor beyond the request.
pub open spec fn domain_end(start: i64, end: i64, r: int) -> i64 {
    let b = request_end(start, end);
    let hi: int = if b > cap_high(start, end, r) { cap_high(start, end, r) } else { b as int };
    let a = domain_start(start, end, r);
    (if hi < a { a as int } else { hi }) as i64
}

/// The answer of a table of `f` over `[start, end]` with `r` intervals, at
/// `x`: the value at the nearer end beyond either end, else the two-point
/// interpolation of the values at the grid points around `x`.
pub open spec fn grid_answer<const N: usize, Y: Curve<N>>(f: Y, start: i64, end: i64, r: int, x: i64) -> Seq<i64> {
    if x < start {
        f.curve(start)@
    } else if end < x {
        f.curve(end)@
    } else if start == end {
        f.curve(start)@
    } else {
        let num = r * (x - start);
        let den = end - start;
        let i0 = num / den;
        let y0 = f.curve(grid_point(start, end, r, i0) as i64);
        if num % den == 0 {
            y0@
        } else {
            lerp_sample(y0@, f.curve(grid_point(start, end, r, i0 + 1) as i64)@, num % den, den)
        }
    }
}

/// The state of `f` after calls at the first `n` grid points, in order.
pub open spec fn after_grid<const N: usize, Y: Curve<N>>(f: Y, start: i64, end: i64, r: int, n: nat) -> Y
    decreases n,
{
    if n == 0 {
        f
    } else {
        after_grid(f, start, end, r, (n - 1) as nat).next(grid_point(start, end, r, n - 1) as i64)
    }
}

/// The state of `f` after a fill: one call at each end of the domain, then
/// one at each of the `r + 1` grid points, in order.
pub open spec fn after_fill<const N: usize, Y: Curve<N>>(f: Y, start: i64, end: i64, r: int) -> Y {
    after_grid(f.next(start).next(end), start, end, r, (r + 1) as nat)
}

/// Two functions with the same outputs give the same answers.
pub proof fn lemma_grid_answer_same<const N: usize, Y: Curve<N>>(f: Y, g: Y, start: i64, end: i64, r: int, x: i64)
    requires
        same_curve(f, g),
    ensures
        grid_answer(f, start, end, r, x) == grid_answer(g, start, end, r, x),
{
    let num = r * (x - start);
    let den = end - start;
    let i0 = num / den;
    assert(f.curve(start) == g.curve(start));
    assert(f.curve(end) == g.curve(end));
    assert(f.curve(grid_point(start, end, r, i0) as i64) == g.curve(grid_point(start, end, r, i0) as i64));
    assert(f.curve(grid_point(start, end, r, i0 + 1) as i64) == g.curve(grid_point(start, end, r, i0 + 1) as i64));
}

/// Whether each output of `f` never decreases as its input grows.
pub open spec fn nondecreasing<const N: usize, Y: Curve<N>>(f: Y) -> bool {
    forall|a: i64, b: i64, k: int|
        a <= b && 0 <= k < N ==> #[trigger] f.curve(a)@[k] <= #[trigger] f.curve(b)@[k]
}

proof fn lemma_grid_point_monotone(start: i64, end: i64, r: int, i: int, j: int)
    requires
        start <= end,
        0 <= i <= j <= r,
    ensures
        grid_point(start, end, r, i) <= grid_point(start, end, r, j),
{
    if r > 0 {
        let w: int = end - start;
        assert(w * i <= w * j) by (nonlinear_arith)
            requires i <= j, 0 <= w;
        vstd::arithmetic::div_mod::lemma_div_is_ordered(w * i, w * j, r);
    }
}

/// The grid cell of `x`: the grid point below it, at most the last one, and
/// one more grid point above it unless `x` lies on a grid point.
proof fn lemma_grid_cell(start: i64, end: i64, r: int, x: i64)
    requires
        start < end,
        start <= x <= end,
        0 <= r,
    ensures
        ({
            let num = r * (x - start);
            let den = end - start;
            &&& 0 <= num / den <= r
            &&& 0 <= num % den < den
            &&& num % den != 0 ==> num / den < r
        }),
{
    let num = r * (x - start);
    let den: int = end - start;
    let off: int = x - start;
    assert(0 <= num <= r * den) by (nonlinear_arith)
        requires num == r * off, 0 <= off <= den, 0 <= r;
    vstd::arithmetic::div_mod::lemma_fundamental_div_mod(num, den);
    vstd::arithmetic::div_mod::lemma_mod_bound(num, den);
    assert(r * den / den == r) by (nonlinear_arith)
        requires 0 < den;
    vstd::arithmetic::div_mod::lemma_div_is_ordered(num, r * den, den);
    vstd::arithmetic::div_mod::lemma_div_is_ordered(0, num, den);
    if num % den != 0 {
        let i0 = num / den;
        let t = num % den;
        assert(i0 < r) by (nonlinear_arith)
            requires num == den * i0 + t, 0 < t, num <= r * den, 0 < den;
    }
}

proof fn lemma_grid_boundary_at<const N: usize, Y: Curve<N>>(f: Y, start: i64, end: i64, r: int, x: i64)
    requires
        start <= end,
        0 < r,
    ensures
        end <= x ==> grid_answer(f, start, end, r, x) == f.curve(end)@,
        x <= start ==> grid_answer(f, start, end, r, x) == f.curve(start)@,
{
    if start < end && x == end {
        let den: int = end - start;
        assert(r * den / den == r && r * den % den == 0) by (nonlinear_arith)
            requires 0 < den;
        lemma_grid_point(start, end, r, r);
    }
    if start < end && x == start {
        assert(r * (x - start) == 0);
        lemma_grid_point(start, end, r, 0);
    }
}

proof fn lemma_grid_answer_bounds<const N: usize, Y: Curve<N>>(f: Y, start: i64, end: i64, r: int, x: i64, k: int)
    requires
        start < end,
        start <= x <= end,
        0 <= r,
        0 <= k < N,
    ensures
        ({
            let num = r * (x - start);
            let den = end - start;
            let i0 = num / den;
            let i1 = if num % den == 0 { i0 } else { i0 + 1 };
            let lo = f.curve(grid_point(start, end, r, i0) as i64)@[k];
            let hi = f.curve(grid_point(start, end, r, i1) as i64)@[k];
            lo <= hi ==> lo <= grid_answer(f, start, end, r, x)[k] <= hi
        }),
{
    let num = r * (x - start);
    let den: int = end - start;
    lemma_grid_cell(start, end, r, x);
    if num % den != 0 {
        let i0 = num / den;
        let y0 = f.curve(grid_point(start, end, r, i0) as i64);
        let y1 = f.curve(grid_point(start, end, r, i0 + 1) as i64);
        crate::interp::lemma_lerp_bounds(y0@[k], y1@[k], num % den, den);
    }
}

proof fn lemma_grid_monotone_at<const N: usize, Y: Curve<N>>(
    f: Y,
    start: i64,
    end: i64,
    r: int,
    x1: i64,
    x2: i64,
    k: int,
)
    requires
        nondecreasing(f),
        start <= end,
        0 <= r,
        x1 <= x2,
        0 <= k < N,
    ensures
        grid_answer(f, start, end, r, x1)[k] <= grid_answer(f, start, end, r, x2)[k],
{
    let a1 = grid_answer(f, start, end, r, x1);
    let a2 = grid_answer(f, start, end, r, x2);
    if start == end {
        return;
    }
    let den: int = end - start;
    if start <= x1 <= end {
        lemma_grid_cell(start, end, r, x1);
        let n1 = r * (x1 - start);
        let i0 = n1 / den;
        let j0 = if n1 % den == 0 { i0 } else { i0 + 1 };
        lemma_grid_point_monotone(start, end, r, i0, j0);
        lemma_grid_point(start, end, r, i0);
        lemma_grid_point(start, end, r, j0);
        let p0 = grid_point(start, end, r, i0) as i64;
        let q0 = grid_point(start, end, r, j0) as i64;
        assert(f.curve(p0)@[k] <= f.curve(q0)@[k]);
        lemma_grid_answer_bounds(f, start, end, r, x1, k);
        assert(f.curve(start)@[k] <= f.curve(p0)@[k]);
        if x2 > end {
            assert(f.curve(q0)@[k] <= f.curve(end)@[k]);
        } else {
            lemma_grid_cell(start, end, r, x2);
            let n2 = r * (x2 - start);
            assert(n1 <= n2) by (nonlinear_arith)
                requires n1 == r * (x1 - start), n2 == r * (x2 - start), x1 <= x2, 0 <= r;
            vstd::arithmetic::div_mod::lemma_div_is_ordered(n1, n2, den);
            let i2 = n2 / den;
            let j2 = if n2 % den == 0 { i2 } else { i2 + 1 };
            lemma_grid_point_monotone(start, end, r, i2, j2);
            let p2 = grid_point(start, end, r, i2) as i64;
            let q2 = grid_point(start, end, r, j2) as i64;
            lemma_grid_point(start, end, r, i2);
            lemma_grid_point(start, end, r, j2);
            assert(f.curve(p2)@[k] <= f.curve(q2)@[k]);
            lemma_grid_answer_bounds(f, start, end, r, x2, k);
            if i0 == i2 {
                vstd::arithmetic::div_mod::lemma_fundamental_div_mod(n1, den);
                vstd::arithmetic::div_mod::lemma_fundamental_div_mod(n2, den);
                if n1 % den != 0 {
                    assert(n1 % den <= n2 % den);
                    crate::interp::lemma_lerp_monotone(
                        f.curve(p0)@[k],
                        f.curve(q0)@[k],
                        n1 % den,
                        n2 % den,
                        den,
                    );
                    crate::interp::lemma_lerp_bounds(f.curve(p0)@[k], f.curve(q0)@[k], n1 % den, den);
                    crate::interp::lemma_lerp_bounds(f.curve(p0)@[k], f.curve(q0)@[k], n2 % den, den);
                    assert(a1[k] <= a2[k]);
                } else {
                    assert(a1[k] == f.curve(p0)@[k]);
                    assert(a1[k] <= a2[k]);
                }
            } else {
                assert(j0 <= i2);
                lemma_grid_point_monotone(start, end, r, j0, i2);
                assert(f.curve(q0)@[k] <= f.curve(p2)@[k]);
                assert(a1[k] <= a2[k]);
            }
        }
    } else if x1 < start {
        if x2 < start {
        } else if x2 > end {
            assert(f.curve(start)@[k] <= f.curve(end)@[k]);
        } else {
            lemma_grid_cell(start, end, r, x2);
            let n2 = r * (x2 - start);
            let i2 = n2 / den;
            let j2 = if n2 % den == 0 { i2 } else { i2 + 1 };
            lemma_grid_point_monotone(start, end, r, i2, j2);
            lemma_grid_point(start, end, r, i2);
            lemma_grid_point(start, end, r, j2);
            let p2 = grid_point(start, end, r, i2) as i64;
            let q2 = grid_point(start, end, r, j2) as i64;
            assert(f.curve(p2)@[k] <= f.curve(q2)@[k]);
            assert(f.curve(start)@[k] <= f.curve(p2)@[k]);
            lemma_grid_answer_bounds(f, start, end, r, x2, k);
        }
    }
}

/// The tabulated values and the two boundary samples of a table.
struct TableCurve<const N: usize> {
    infinity: [[i64; N]; 2],
    curve: Vec<[i64; N]>,
    start: i64,
    end: i64,
}

/// Whether `t` holds the values of `f` at the grid points, and `b` its values
/// at the ends of the domain.
pub open spec fn tabulates<const N: usize, Y: Curve<N>>(
    t: Seq<[i64; N]>,
    b: [[i64; N]; 2],
    start: i64,
    end: i64,
    r: int,
    f: Y,
) -> bool {
    &&& t.len() == r + 1
    &&& b[0] == f.curve(start)
    &&& b[1] == f.curve(end)
    &&& forall|i: int| 0 <= i <= r ==> #[trigger] t[i] == f.curve(grid_point(start, end, r, i) as i64)
}

proof fn lemma_grid_point(start: i64, end: i64, r: int, i: int)
    requires
        start <= end,
        0 <= i <= r,
    ensures
        start <= grid_point(start, end, r, i) <= end,
        i == 0 ==> grid_point(start, end, r, i) == start,
        i == r && r > 0 ==> grid_point(start, end, r, i) == end,
{
    if r > 0 {
        let w: int = end - start;
        assert(0 <= w * i <= w * r) by (nonlinear_arith)
            requires 0 <= i <= r, 0 <= w;
        assert(w * r / r == w) by (nonlinear_arith)
            requires 0 < r;
        vstd::arithmetic::div_mod::lemma_div_is_ordered(w * i, w * r, r);
        vstd::arithmetic::div_mod::lemma_div_is_ordered(0, w * i, r);
        if i == 0 {
            assert(w * i == 0);
        }
    }
}

impl<const N: usize> TableCurve<N> {
    /// The width of one grid interval.
    fn dx(start: i64, end: i64, resolution: usize) -> (r: u64)
        ensures
            r == grid_step(start, end, resolution as int),
    {
        if resolution == 0 {
            return 0;
        }
        let w: u128 = if start <= end {
            (end as i128 - start as i128) as u128
        } else {
            (start as i128 - end as i128) as u128
        };
        (w / resolution as u128) as u64
    }

    /// `MAX_RESOLUTION` steps of `dx`, where that is finite.
    fn max(dx: u64) -> (r: Option<i64>)
        ensures
            r is Some <==> MAX_RESOLUTION * dx < INFINITY,
            r matches Some(m) ==> m == MAX_RESOLUTION * dx,
    {
        assert(MAX_RESOLUTION as u128 * dx as u128 <= 0x1_0000u128 * 0xffff_ffff_ffff_ffffu128) by (nonlinear_arith)
            requires dx <= 0xffff_ffff_ffff_ffffu64;
        let m: u128 = MAX_RESOLUTION as u128 * dx as u128;
        if m < INFINITY as u128 {
            Some(m as i64)
        } else {
            None
        }
    }

    /// The widest domain that the table may cover.
    fn inf(start: i64, end: i64, resolution: usize) -> (r: (i64, i64))
        ensures
            is_capped(start, end, resolution as int) ==> r.0 == -(MAX_RESOLUTION * grid_step(
                start,
                end,
                resolution as int,
            )) && r.1 == MAX_RESOLUTION * grid_step(start, end, resolution as int),
            !is_capped(start, end, resolution as int) ==> r.0 == NEG_INFINITY && r.1 == INFINITY,
    {
        if resolution >= MAX_RESOLUTION {
            let dx = Self::dx(start, end, resolution);
            match Self::max(dx) {
                Some(m) => {
                    return (-m, m);
                },
                None => {},
            }
        }
        (NEG_INFINITY, INFINITY)
    }

    /// A table for `func` over the requested `range`, with its boundary
    /// taken and its grid not yet filled.
    fn new_in<Y: Curve<N>>(func: &mut Y, range: Range<i64>, resolution: usize, storage: Vec<[i64; N]>) -> (r: Self)
        ensures
            r.start == domain_start(range.start, range.end, resolution as int),
            r.end == domain_end(range.start, range.end, resolution as int),
            r.start <= r.end,
            r.curve@.len() == 0,
            r.infinity[0] == old(func).curve(r.start),
            r.infinity[1] == old(func).curve(r.end),
            *final(func) == old(func).next(r.start).next(r.end),
            forall|z: i64| #[trigger] final(func).curve(z) == old(func).curve(z),
    {
        let (neg_inf, inf) = Self::inf(range.start, range.end, resolution);
        let b = if range.end < range.start {
            range.start
        } else {
            range.end
        };
        let lo = if range.start < neg_inf {
            neg_inf
        } else {
            range.start
        };
        let x_min = if lo > b {
            b
        } else {
            lo
        };
        let hi = if b > inf {
            inf
        } else {
            b
        };
        let x_max = if hi < x_min {
            x_min
        } else {
            hi
        };
        let ghost f0 = *func;
        let lo_y = func.eval(x_min);
        let ghost f1 = *func;
        let hi_y = func.eval(x_max);
        assert forall|z: i64| #[trigger] func.curve(z) == f0.curve(z) by {
            assert(func.curve(z) == f1.curve(z));
            assert(f1.curve(z) == f0.curve(z));
        }
        let mut curve = storage;
        curve.clear();
        TableCurve { infinity: [lo_y, hi_y], curve, start: x_min, end: x_max }
    }

    /// Drops the tabulated values.
    fn reset(&mut self)
        ensures
            final(self).curve@.len() == 0,
            final(self).infinity == old(self).infinity,
            final(self).start == old(self).start,
            final(self).end == old(self).end,
    {
        self.curve.clear();
    }

    /// Whether the grid is filled.
    fn is_set(&self, resolution: usize) -> (r: bool)
        requires
            resolution <= MAX_RESOLUTION,
        ensures
            r == (self.curve@.len() == resolution + 1),
    {
        self.curve.len() == resolution + 1
    }

    /// Takes the boundary anew and fills the grid from `func`.
    fn refresh<Y: Curve<N>>(&mut self, func: &mut Y, resolution: usize)
        requires
            old(self).start <= old(self).end,
            resolution <= MAX_RESOLUTION,
        ensures
            final(self).start == old(self).start,
            final(self).end == old(self).end,
            tabulates(final(self).curve@, final(self).infinity, final(self).start, final(self).end, resolution as int, *final(func)),
            same_curve(*final(func), *old(func)),
            *final(func) == after_fill(*old(func), old(self).start, old(self).end, resolution as int),
    {
        self.reset();
        let ghost f0 = *func;
        let start = self.start;
        let end = self.end;
        let lo_y = func.eval(start);
        let ghost f1 = *func;
        let hi_y = func.eval(end);
        self.infinity = [lo_y, hi_y];
        let mut i: usize = 0;
        while i <= resolution
            invariant
                start == self.start,
                end == self.end,
                start <= end,
                resolution <= MAX_RESOLUTION,
                i <= resolution + 1,
                self.curve@.len() == i,
                self.infinity[0] == f0.curve(start),
                self.infinity[1] == f0.curve(end),
                forall|z: i64| #[trigger] func.curve(z) == f0.curve(z),
                *func == after_grid(f0.next(start).next(end), start, end, resolution as int, i as nat),
                forall|j: int| 0 <= j < i ==> #[trigger] self.curve@[j] == f0.curve(
                    grid_point(start, end, resolution as int, j) as i64,
                ),
            decreases resolution + 1 - i,
        {
            proof {
                lemma_grid_point(start, end, resolution as int, i as int);
            }
            let x: i64 = if resolution == 0 {
                start
            } else {
                let w: u128 = (end as i128 - start as i128) as u128;
                assert(w * (i as u128) <= 0xffff_ffff_ffff_ffffu128 * 0x1_0000u128) by (nonlinear_arith)
                    requires w <= 0xffff_ffff_ffff_ffffu128, i <= 0x1_0000usize;
                (start as i128 + (w * i as u128 / resolution as u128) as i128) as i64
            };
            assert(x == grid_point(start, end, resolution as int, i as int));
            let ghost g = *func;
            let y = func.eval(x);
            assert(g.curve(x) == f0.curve(x));
            assert forall|z: i64| #[trigger] func.curve(z) == f0.curve(z) by {
                assert(func.curve(z) == g.curve(z));
                assert(g.curve(z) == f0.curve(z));
            }
            self.curve.push(y);
            i = i + 1;
        }
        assert(f1.curve(end) == f0.curve(end));
        assert forall|j: int| 0 <= j <= resolution implies #[trigger] self.curve@[j] == func.curve(
            grid_point(start, end, resolution as int, j) as i64,
        ) by {
            assert(func.curve(grid_point(start, end, resolution as int, j) as i64) == f0.curve(
                grid_point(start, end, resolution as int, j) as i64,
            ));
        }
    }
}


/// A cache of `func` tabulated on a uniform grid, filled at the first query
/// and again at the first query after each change of the function.
pub struct CacheTable<const N: usize, Y: Curve<N>> {
    func: Y,
    resolution: usize,
    curve: TableCurve<N>,
}

impl<const N: usize, Y: Curve<N>> CacheTable<N, Y> {
    /// The wrapped function.
    pub closed spec fn wrapped(&self) -> Y {
        self.func
    }

    /// The number of grid intervals.
    pub closed spec fn resolution(&self) -> int {
        self.resolution as int
    }

    /// The lower end of the tabulated domain.
    pub closed spec fn start(&self) -> i64 {
        self.curve.start
    }

    /// The upper end of the tabulated domain.
    pub closed spec fn end(&self) -> i64 {
        self.curve.end
    }

    /// The tabulated values, one per grid point, or none.
    pub closed spec fn table(&self) -> Seq<[i64; N]> {
        self.curve.curve@
    }

    /// The outputs at the two ends of the domain.
    pub closed spec fn boundary(&self) -> [[i64; N]; 2] {
        self.curve.infinity
    }

    /// Whether the grid must be filled before the next answer.
    pub open spec fn is_dirty(&self) -> bool {
        self.table().len() != self.resolution() + 1
    }

    /// The domain is ordered, the resolution within its cap, and a filled
    /// table holds the function's own values.
    pub open spec fn wf(&self) -> bool {
        &&& self.start() <= self.end()
        &&& 0 <= self.resolution() <= MAX_RESOLUTION
        &&& !self.is_dirty() ==> tabulates(
            self.table(),
            self.boundary(),
            self.start(),
            self.end(),
            self.resolution(),
            self.wrapped(),
        )
    }

    /// A cache of `func` over `range` with `resolution` grid intervals, at
    /// most `MAX_RESOLUTION`. The domain is `range` cut to the bound that the
    /// resolution allows, and never leaves `range`; an inverted range becomes
    /// the single point at its start. The boundary is taken now, by one call
    /// at each end; the grid at the first query.
    pub fn new(func: Y, range: Range<i64>, resolution: usize) -> (r: Self)
        ensures
            r.wf(),
            r.is_dirty(),
            r.resolution() == if resolution < MAX_RESOLUTION { resolution as int } else { MAX_RESOLUTION as int },
            r.start() == domain_start(range.start, range.end, r.resolution()),
            r.end() == domain_end(range.start, range.end, r.resolution()),
            range.start <= r.start() <= r.end() <= request_end(range.start, range.end),
            r.boundary()[0] == func.curve(r.start()),
            r.boundary()[1] == func.curve(r.end()),
            same_curve(r.wrapped(), func),
            r.wrapped() == func.next(r.start()).next(r.end()),
    {
        Self::new_in(func, range, resolution, Vec::new())
    }

    /// As `new`, keeping the table in `storage`, whose contents are dropped.
    pub fn new_in(func: Y, range: Range<i64>, resolution: usize, storage: Vec<[i64; N]>) -> (r: Self)
        ensures
            r.wf(),
            r.is_dirty(),
            r.resolution() == if resolution < MAX_RESOLUTION { resolution as int } else { MAX_RESOLUTION as int },
            r.start() == domain_start(range.start, range.end, r.resolution()),
            r.end() == domain_end(range.start, range.end, r.resolution()),
            range.start <= r.start() <= r.end() <= request_end(range.start, range.end),
            r.boundary()[0] == func.curve(r.start()),
            r.boundary()[1] == func.curve(r.end()),
            same_curve(r.wrapped(), func),
            r.wrapped() == func.next(r.start()).next(r.end()),
    {
        let resolution = if resolution < MAX_RESOLUTION {
            resolution
        } else {
            MAX_RESOLUTION
        };
        let mut func = func;
        let curve = TableCurve::new_in(&mut func, range, resolution, storage);
        CacheTable { func, resolution, curve }
    }

    /// The wrapped function.
    pub fn func(&self) -> (r: &Y)
        ensures
            *r == self.wrapped(),
    {
        &self.func
    }

    /// The wrapped function, for change: the table is dropped, and filled
    /// anew with the boundary at the next query.
    pub fn func_mut(&mut self) -> (r: &mut Y)
        ensures
            *r == old(self).wrapped(),
            final(self).wrapped() == *final(r),
            final(self).is_dirty(),
            old(self).wf() ==> final(self).wf(),
            final(self).resolution() == old(self).resolution(),
            final(self).start() == old(self).start(),
            final(self).end() == old(self).end(),
    {
        self.curve.reset();
        &mut self.func
    }

    /// Drops the table and takes the boundary anew.
    pub fn reset(&mut self)
        requires
            old(self).wf(),
        ensures
            final(self).wf(),
            final(self).is_dirty(),
            final(self).resolution() == old(self).resolution(),
            final(self).start() == old(self).start(),
            final(self).end() == old(self).end(),
            final(self).table().len() == 0,
            final(self).boundary()[0] == old(self).wrapped().curve(old(self).start()),
            final(self).boundary()[1] == old(self).wrapped().curve(old(self).end()),
            same_curve(final(self).wrapped(), old(self).wrapped()),
            final(self).wrapped() == old(self).wrapped().next(old(self).start()).next(old(self).end()),
    {
        self.curve.reset();
        let ghost f0 = self.func;
        let lo = self.func.eval(self.curve.start);
        let ghost f1 = self.func;
        let hi = self.func.eval(self.curve.end);
        self.curve.infinity = [lo, hi];
        assert(f1.curve(self.curve.end) == f0.curve(self.curve.end));
        assert forall|z: i64| #[trigger] self.func.curve(z) == f0.curve(z) by {
            assert(self.func.curve(z) == f1.curve(z));
            assert(f1.curve(z) == f0.curve(z));
        }
    }

    /// Whether `x` lies in the domain of a filled table.
    fn is_bounded(&self, x: i64) -> (r: bool)
        requires
            self.wf(),
        ensures
            r == (!self.is_dirty() && self.start() <= x <= self.end()),
    {
        self.curve.is_set(self.resolution) && self.curve.start <= x && x <= self.curve.end
    }

    /// The grid points around `x`, with the offset of `x` past the lower one
    /// and the width of a grid interval, both scaled by the resolution.
    fn index(&self, x: i64) -> (r: Option<(usize, usize, u64, u64)>)
        requires
            self.wf(),
        ensures
            r is Some <==> (!self.is_dirty() && self.start() <= x <= self.end()),
            r matches Some((i0, i1, t, d)) ==> {
                &&& i0 <= i1 <= self.resolution()
                &&& t < d
                &&& (t == 0 <==> i0 == i1)
                &&& (i0 != i1 ==> i1 == i0 + 1)
                &&& (self.start() == self.end() ==> i0 == 0 && i1 == 0)
                &&& (self.start() < self.end() ==> {
                    let num = self.resolution() * (x - self.start());
                    let den = self.end() - self.start();
                    &&& d == den
                    &&& i0 == num / den
                    &&& t == num % den
                })
            },
    {
        if !self.is_bounded(x) {
            return None;
        }
        let start = self.curve.start;
        let end = self.curve.end;
        if start == end {
            return Some((0, 0, 0, 1));
        }
        let r = self.resolution;
        let den: u128 = (end as i128 - start as i128) as u128;
        let off: u128 = (x as i128 - start as i128) as u128;
        assert((r as u128) * off <= 0x1_0000u128 * 0xffff_ffff_ffff_ffffu128) by (nonlinear_arith)
            requires r <= 0x1_0000usize, off <= 0xffff_ffff_ffff_ffffu128;
        let num: u128 = r as u128 * off;
        let i0: u128 = num / den;
        let t: u128 = num % den;
        proof {
            let ghost ni = num as int;
            let ghost di = den as int;
            assert(ni <= r * di) by (nonlinear_arith)
                requires ni == r * off, off <= di, 0 <= r;
            vstd::arithmetic::div_mod::lemma_fundamental_div_mod(ni, di);
            assert(r * di / di == r) by (nonlinear_arith)
                requires 0 < di;
            vstd::arithmetic::div_mod::lemma_div_is_ordered(ni, r * di, di);
            if t != 0 {
                assert(i0 < r) by (nonlinear_arith)
                    requires ni == di * i0 + t, 0 < t, ni <= r * di, 0 < di;
            }
        }
        let i1: u128 = if t == 0 {
            i0
        } else {
            i0 + 1
        };
        Some((i0 as usize, i1 as usize, t as u64, den as u64))
    }

    /// The outputs at `x`.
    ///
    /// A dirty cache first takes its boundary anew and fills its grid, by one
    /// call at each end of the domain and one at each grid point; a clean
    /// cache calls nothing and stays as it is. Below
    /// the domain the answer is the boundary at its start, above it the
    /// boundary at its end; within it, the two-point interpolation of the
    /// grid points around `x`, exact at a grid point.
    pub fn saturate(&mut self, x: i64) -> (r: [i64; N])
        requires
            old(self).wf(),
        ensures
            final(self).wf(),
            !final(self).is_dirty(),
            same_curve(final(self).wrapped(), old(self).wrapped()),
            final(self).resolution() == old(self).resolution(),
            final(self).start() == old(self).start(),
            final(self).end() == old(self).end(),
            !old(self).is_dirty() ==> *final(self) == *old(self),
            final(self).wrapped() == if old(self).is_dirty() {
                after_fill(old(self).wrapped(), old(self).start(), old(self).end(), old(self).resolution())
            } else {
                old(self).wrapped()
            },
            r@ == grid_answer(old(self).wrapped(), old(self).start(), old(self).end(), old(self).resolution(), x),
    {
        let ghost f0 = self.func;
        if !self.curve.is_set(self.resolution) {
            self.curve.refresh(&mut self.func, self.resolution);
        }
        let ghost f1 = self.func;
        let ghost res = self.resolution as int;
        let ghost start = self.curve.start;
        let ghost end = self.curve.end;
        assert(same_curve(f1, f0));
        match self.index(x) {
            Some((i0, i1, p, d)) => {
                let y0 = self.curve.curve[i0];
                assert(y0 == f1.curve(grid_point(start, end, res, i0 as int) as i64));
                assert(y0 == f0.curve(grid_point(start, end, res, i0 as int) as i64));
                proof {
                    if start == end {
                        lemma_grid_point(start, end, res, 0);
                        assert(x == start);
                    }
                }
                if i0 == i1 {
                    return y0;
                }
                let y1 = self.curve.curve[i1];
                assert(y1 == f1.curve(grid_point(start, end, res, i1 as int) as i64));
                assert(y1 == f0.curve(grid_point(start, end, res, i1 as int) as i64));
                lerp_array(&y0, &y1, p, d)
            },
            None => {
                assert(f1.curve(start) == f0.curve(start));
                assert(f1.curve(end) == f0.curve(end));
                if x < self.curve.start {
                    self.curve.infinity[0]
                } else {
                    self.curve.infinity[1]
                }
            },
        }
    }
}

impl<Y: Curve<1>> SaturationMut for CacheTable<1, Y> {
    closed spec fn ready(&self) -> bool {
        self.wf()
    }

    fn saturate_mut(&mut self, x: i64) -> (y: i64)
        ensures
            y == grid_answer(old(self).wrapped(), old(self).start(), old(self).end(), old(self).resolution(), x)[0],
            !old(self).is_dirty() ==> *final(self) == *old(self),
            final(self).wrapped() == if old(self).is_dirty() {
                after_fill(old(self).wrapped(), old(self).start(), old(self).end(), old(self).resolution())
            } else {
                old(self).wrapped()
            },
    {
        let y = self.saturate(x);
        y[0]
    }
}

/// Beyond either end of the domain, and at either end where the grid has
/// intervals, a table answers exactly the function's value at that end,
/// which is the boundary it holds once filled, whatever else it holds. A
/// query answers from the live function, so once the function has been
/// changed this is the new function's value.
pub proof fn lemma_grid_boundary<const N: usize, Y: Curve<N>>(c: CacheTable<N, Y>, x: i64)
    requires
        c.wf(),
        0 < c.resolution(),
    ensures
        c.end() <= x ==> grid_answer(c.wrapped(), c.start(), c.end(), c.resolution(), x)
            == c.wrapped().curve(c.end())@,
        x <= c.start() ==> grid_answer(c.wrapped(), c.start(), c.end(), c.resolution(), x)
            == c.wrapped().curve(c.start())@,
        !c.is_dirty() && c.end() <= x ==> grid_answer(c.wrapped(), c.start(), c.end(), c.resolution(), x)
            == c.boundary()[1]@,
        !c.is_dirty() && x <= c.start() ==> grid_answer(c.wrapped(), c.start(), c.end(), c.resolution(), x)
            == c.boundary()[0]@,
{
    lemma_grid_boundary_at(c.wrapped(), c.start(), c.end(), c.resolution(), x);
}

/// A table of a function whose outputs never decrease answers queries in
/// increasing order with outputs that never decrease: interpolation does not
/// overshoot past either grid point, and the ends hold the extreme values.
pub proof fn lemma_grid_monotone<const N: usize, Y: Curve<N>>(c: CacheTable<N, Y>, x1: i64, x2: i64, k: int)
    requires
        c.wf(),
        nondecreasing(c.wrapped()),
        x1 <= x2,
        0 <= k < N,
    ensures
        grid_answer(c.wrapped(), c.start(), c.end(), c.resolution(), x1)[k]
            <= grid_answer(c.wrapped(), c.start(), c.end(), c.resolution(), x2)[k],
{
    lemma_grid_monotone_at(c.wrapped(), c.start(), c.end(), c.resolution(), x1, x2, k);
}

} // verus!
