//! A cache that samples the function where it is needed, more densely where
//! it bends, and interpolates between samples elsewhere.
use vstd::prelude::*;

use crate::finite::Finite;
use crate::interp::{distance, lerp_array, lerp_sample};
use crate::{is_finite, same_curve, Curve, SaturationMut, INFINITY, NEG_INFINITY};

verus! {

/// Keys in strictly increasing order.
pub open spec fn sorted_keys<const N: usize>(s: Seq<(i64, [i64; N])>) -> bool {
    forall|i: int, j: int| 0 <= i < j < s.len() ==> s[i].0 < s[j].0
}

/// Whether `p` splits the keys of `s` at `x`: those before `p` are at most
/// `x`, those from `p` on are above it.
pub open spec fn splits_at<const N: usize>(s: Seq<(i64, [i64; N])>, x: i64, p: int) -> bool {
    &&& 0 <= p <= s.len()
    &&& forall|i: int| 0 <= i < p ==> s[i].0 <= x
    &&& forall|i: int| p <= i < s.len() ==> x < s[i].0
}

/// The place of `x` among the keys of `s`: how many of them are at most `x`.
pub open spec fn position<const N: usize>(s: Seq<(i64, [i64; N])>, x: i64) -> int {
    choose|p: int| splits_at(s, x, p)
}

/// Whether `s` holds a sample at key `k`.
pub open spec fn has_key<const N: usize>(s: Seq<(i64, [i64; N])>, k: i64) -> bool {
    exists|i: int| 0 <= i < s.len() && s[i].0 == k
}

/// Whether two samples differ by less than `tol` in every component.
pub open spec fn close<const N: usize>(y0: [i64; N], y1: [i64; N], tol: u64) -> bool {
    forall|k: int| 0 <= k < N ==> distance(y0[k], y1[k]) < tol
}

/// The point a third of the way from `nb` to `x`, carried on past `x`, rounded
/// toward `x`.
pub open spec fn probe(x: i64, nb: i64) -> int {
    if nb <= x {
        x + (x - nb) / 3
    } else {
        x - (nb - x) / 3
    }
}

/// Whether a query at `x` is answered from the two samples around it.
pub open spec fn interpolates<const N: usize>(s: Seq<(i64, [i64; N])>, x: i64, tol: u64) -> bool {
    let p = position(s, x);
    0 < p < s.len() && close(s[p - 1].1, s[p].1, tol)
}

/// The answer from the two samples around `x`.
pub open spec fn interpolation<const N: usize>(s: Seq<(i64, [i64; N])>, x: i64) -> Seq<i64> {
    let p = position(s, x);
    lerp_sample(s[p - 1].1@, s[p].1@, x - s[p - 1].0, s[p].0 - s[p - 1].0)
}

/// Whether a query at `x` finds `x` itself as the greatest key.
pub open spec fn hits_last<const N: usize>(s: Seq<(i64, [i64; N])>, x: i64) -> bool {
    let p = position(s, x);
    0 < p == s.len() && s[p - 1].0 == x
}

/// The key nearest to `x` where `x` lies outside all keys of `s`.
pub open spec fn neighbour<const N: usize>(s: Seq<(i64, [i64; N])>, x: i64) -> i64 {
    let p = position(s, x);
    if p == 0 { s[0].0 } else { s[p - 1].0 }
}

/// Whether a query at `x` that evaluates the function also evaluates it at a
/// finite probe point: where `x` lies outside all keys of `s`.
pub open spec fn probes<const N: usize>(s: Seq<(i64, [i64; N])>, x: i64) -> bool {
    let p = position(s, x);
    0 < s.len() && (p == 0 || p == s.len()) && NEG_INFINITY < probe(x, neighbour(s, x)) < INFINITY
}

/// The key that a query at `x` stores a sample at, when it evaluates the
/// function: the probe point where there is one, else `x`.
pub open spec fn stored_key<const N: usize>(s: Seq<(i64, [i64; N])>, x: i64) -> i64 {
    if probes(s, x) {
        probe(x, neighbour(s, x)) as i64
    } else {
        x
    }
}

/// `s` with a sample `v` at key `k`, where it has none there yet.
pub open spec fn insert_sample<const N: usize>(s: Seq<(i64, [i64; N])>, k: i64, v: [i64; N]) -> Seq<(i64, [i64; N])> {
    if has_key(s, k) {
        s
    } else {
        s.insert(position(s, k), (k, v))
    }
}

/// Whether the samples and the boundary are the function's own values.
pub open spec fn agrees<const N: usize, Y: Curve<N>>(s: Seq<(i64, [i64; N])>, b: [[i64; N]; 2], f: Y) -> bool {
    &&& b[0] == f.curve(NEG_INFINITY)
    &&& b[1] == f.curve(INFINITY)
    &&& forall|i: int| 0 <= i < s.len() ==> #[trigger] s[i].1 == f.curve(s[i].0)
}

/// The place of `x` is the one split point.
pub proof fn lemma_position<const N: usize>(s: Seq<(i64, [i64; N])>, x: i64, p: int)
    requires
        splits_at(s, x, p),
    ensures
        position(s, x) == p,
{
    let q = position(s, x);
    assert(splits_at(s, x, q));
    if q < p {
        assert(s[q].0 <= x);
    } else if p < q {
        assert(s[p].0 <= x);
    }
}

/// A value between two neighbouring keys has its place after the lower one.
proof fn lemma_between<const N: usize>(s: Seq<(i64, [i64; N])>, x: i64, i: int)
    requires
        sorted_keys(s),
        0 <= i,
        i + 1 < s.len(),
        s[i].0 <= x < s[i + 1].0,
    ensures
        splits_at(s, x, i + 1),
        position(s, x) == i + 1,
{
    assert(splits_at(s, x, i + 1)) by {
        assert forall|j: int| 0 <= j < i + 1 implies s[j].0 <= x by {
            if j < i {
                assert(s[j].0 < s[i].0);
            }
        }
        assert forall|j: int| i + 1 <= j < s.len() implies x < s[j].0 by {
            if j > i + 1 {
                assert(s[i + 1].0 < s[j].0);
            }
        }
    }
    lemma_position(s, x, i + 1);
}

proof fn lemma_agrees_same<const N: usize, Y: Curve<N>>(s: Seq<(i64, [i64; N])>, b: [[i64; N]; 2], f: Y, g: Y)
    requires
        agrees(s, b, f),
        same_curve(f, g),
    ensures
        agrees(s, b, g),
{
    assert forall|i: int| 0 <= i < s.len() implies #[trigger] s[i].1 == g.curve(s[i].0) by {
        assert(f.curve(s[i].0) == g.curve(s[i].0));
    }
    assert(f.curve(NEG_INFINITY) == g.curve(NEG_INFINITY));
    assert(f.curve(INFINITY) == g.curve(INFINITY));
}

/// After a reset, or once the function has been changed, the first query at
/// any finite `x` neither interpolates nor meets a stored key: it evaluates
/// the live function once, at `x`, and stores its sample there.
pub proof fn lemma_fresh_query<const N: usize, Y: Curve<N>>(c: CacheTree<N, Y>, x: i64)
    requires
        c.live_samples().len() == 0,
    ensures
        !interpolates(c.live_samples(), x, c.tolerance()),
        !hits_last(c.live_samples(), x),
        !probes(c.live_samples(), x),
        stored_key(c.live_samples(), x) == x,
        is_finite(x) ==> c.evaluates(x),
{
    lemma_position(c.live_samples(), x, 0);
}

/// Where the samples around a finite `x` differ by less than the tolerance
/// in every component, a query at `x` is answered by interpolating them,
/// stores nothing, and makes no call of the function beyond those of a dirty
/// cache's boundary.
pub proof fn lemma_reuse<const N: usize, Y: Curve<N>>(c: CacheTree<N, Y>, x: i64, i: int)
    requires
        c.wf(),
        0 <= i,
        i + 1 < c.live_samples().len(),
        c.live_samples()[i].0 <= x < c.live_samples()[i + 1].0,
        close(c.live_samples()[i].1, c.live_samples()[i + 1].1, c.tolerance()),
    ensures
        interpolates(c.live_samples(), x, c.tolerance()),
        !hits_last(c.live_samples(), x),
        !c.evaluates(x),
        position(c.live_samples(), x) == i + 1,
{
    let s = c.live_samples();
    assert(sorted_keys(s));
    lemma_between(s, x, i);
}

/// Where the samples around a finite `x` that is not a key differ by the
/// tolerance or more in some component, a query at `x` calls the function
/// once, at `x`, and stores one more sample, at `x`.
pub proof fn lemma_refinement<const N: usize, Y: Curve<N>>(c: CacheTree<N, Y>, x: i64, i: int, v: [i64; N])
    requires
        c.wf(),
        0 <= i,
        i + 1 < c.live_samples().len(),
        c.live_samples()[i].0 < x < c.live_samples()[i + 1].0,
        !close(c.live_samples()[i].1, c.live_samples()[i + 1].1, c.tolerance()),
    ensures
        !interpolates(c.live_samples(), x, c.tolerance()),
        !hits_last(c.live_samples(), x),
        !probes(c.live_samples(), x),
        c.evaluates(x),
        stored_key(c.live_samples(), x) == x,
        insert_sample(c.live_samples(), x, v).len() == c.live_samples().len() + 1,
{
    let s = c.live_samples();
    assert(sorted_keys(s));
    lemma_between(s, x, i);
    assert(!has_key(s, x)) by {
        if has_key(s, x) {
            let j = choose|j: int| 0 <= j < s.len() && s[j].0 == x;
            assert(splits_at(s, x, i + 1));
            if j <= i {
                assert(s[j].0 <= s[i].0) by {
                    if j < i {
                        assert(s[j].0 < s[i].0);
                    }
                }
            }
        }
    }
}

/// An interpolated answer does not overshoot: each component lies between
/// the values of the two samples around `x`.
pub proof fn lemma_no_overshoot<const N: usize, Y: Curve<N>>(c: CacheTree<N, Y>, x: i64, i: int, k: int)
    requires
        c.wf(),
        0 <= i,
        i + 1 < c.live_samples().len(),
        c.live_samples()[i].0 <= x < c.live_samples()[i + 1].0,
        0 <= k < N,
    ensures
        ({
            let s = c.live_samples();
            &&& s[i].1@[k] <= s[i + 1].1@[k] ==> s[i].1@[k] <= interpolation(s, x)[k] <= s[i + 1].1@[k]
            &&& s[i + 1].1@[k] <= s[i].1@[k] ==> s[i + 1].1@[k] <= interpolation(s, x)[k] <= s[i].1@[k]
        }),
{
    let s = c.live_samples();
    assert(sorted_keys(s));
    lemma_between(s, x, i);
    crate::interp::lemma_lerp_bounds(s[i].1@[k], s[i + 1].1@[k], x - s[i].0, s[i + 1].0 - s[i].0);
}

/// The greatest distance between components of two samples, 0 where `N` is 0.
fn max_delta<const N: usize>(y0: &[i64; N], y1: &[i64; N]) -> (m: u64)
    ensures
        forall|k: int| 0 <= k < N ==> distance(y0[k], y1[k]) <= m,
        N > 0 ==> exists|k: int| 0 <= k < N && distance(y0[k], y1[k]) == m,
{
    let mut m: u64 = 0;
    let mut k: usize = 0;
    while k < N
        invariant
            k <= N,
            y0@.len() == N,
            y1@.len() == N,
            forall|j: int| 0 <= j < k ==> distance(y0[j], y1[j]) <= m,
            k > 0 ==> exists|j: int| 0 <= j < k && distance(y0[j], y1[j]) == m,
        decreases N - k,
    {
        let a = y0[k];
        let b = y1[k];
        let d: u64 = if a <= b {
            (b as i128 - a as i128) as u64
        } else {
            (a as i128 - b as i128) as u64
        };
        assert(d == distance(y0[k as int], y1[k as int]));
        if k == 0 || d > m {
            m = d;
        }
        k = k + 1;
    }
    m
}

/// The tolerance taken from a signed one: its magnitude.
fn magnitude(dy: i64) -> (r: u64)
    ensures
        r == if dy < 0 { -dy } else { dy as int },
{
    if dy < 0 {
        (0i128 - dy as i128) as u64
    } else {
        dy as u64
    }
}

/// A cache of samples of `func` at finite keys, kept in key order.
pub struct CacheTree<const N: usize, Y: Curve<N>> {
    func: Y,
    has_changed: bool,
    infinity: [[i64; N]; 2],
    dy_max: u64,
    curve: Vec<(Finite, [i64; N])>,
}

impl<const N: usize, Y: Curve<N>> CacheTree<N, Y> {
    /// The wrapped function.
    pub closed spec fn wrapped(&self) -> Y {
        self.func
    }

    /// The stored samples in key order, each key with its outputs.
    pub closed spec fn samples(&self) -> Seq<(i64, [i64; N])> {
        self.curve@.map_values(|e: (Finite, [i64; N])| (e.0@, e.1))
    }

    /// The largest difference between two neighbouring samples that is
    /// still bridged by interpolation is just below this.
    pub closed spec fn tolerance(&self) -> u64 {
        self.dy_max
    }

    /// The outputs at the two infinities.
    pub closed spec fn boundary(&self) -> [[i64; N]; 2] {
        self.infinity
    }

    /// Whether the function was handed out for change since the samples
    /// were taken.
    pub closed spec fn is_dirty(&self) -> bool {
        self.has_changed
    }

    /// The samples that the next query works from: none where the cache is dirty.
    pub open spec fn live_samples(&self) -> Seq<(i64, [i64; N])> {
        if self.is_dirty() {
            Seq::empty()
        } else {
            self.samples()
        }
    }

    /// The function that the next query works from: a dirty cache first
    /// takes its boundary anew, by one call at each infinity.
    pub open spec fn live_function(&self) -> Y {
        if self.is_dirty() {
            self.wrapped().next(NEG_INFINITY).next(INFINITY)
        } else {
            self.wrapped()
        }
    }

    /// Whether a query at `x` evaluates the function: at a finite `x` that
    /// is neither interpolated nor the greatest key.
    pub open spec fn evaluates(&self, x: i64) -> bool {
        &&& is_finite(x)
        &&& !interpolates(self.live_samples(), x, self.tolerance())
        &&& !hits_last(self.live_samples(), x)
    }

    /// The samples after a query at `x`.
    pub open spec fn samples_after(&self, x: i64) -> Seq<(i64, [i64; N])> {
        let s = self.live_samples();
        if self.evaluates(x) {
            insert_sample(s, stored_key(s, x), self.wrapped().curve(stored_key(s, x)))
        } else {
            s
        }
    }

    /// The function's state after a query at `x`: no call beyond those of a
    /// dirty cache's boundary, unless the query evaluates; then one call at
    /// `x`, and one more at the probe point where there is one.
    pub open spec fn wrapped_after(&self, x: i64) -> Y {
        let s = self.live_samples();
        if !self.evaluates(x) {
            self.live_function()
        } else if probes(s, x) {
            self.live_function().next(x).next(stored_key(s, x))
        } else {
            self.live_function().next(x)
        }
    }

    /// Keys are ordered, and unless the cache is dirty every stored value is
    /// the function's own.
    pub open spec fn wf(&self) -> bool {
        &&& sorted_keys(self.samples())
        &&& !self.is_dirty() ==> agrees(self.samples(), self.boundary(), self.wrapped())
    }

    /// A cache of `func` with tolerance `|dy|`, holding the outputs at the
    /// two infinities and no samples.
    pub fn new(func: Y, dy: i64) -> (r: Self)
        ensures
            r.wf(),
            !r.is_dirty(),
            r.samples() == Seq::<(i64, [i64; N])>::empty(),
            r.tolerance() == if dy < 0 { -dy } else { dy as int },
            same_curve(r.wrapped(), func),
            r.wrapped() == func.next(NEG_INFINITY).next(INFINITY),
    {
        Self::new_in(func, dy, Vec::new())
    }

    /// As `new`, storing the samples in `storage`, whose contents are dropped.
    pub fn new_in(func: Y, dy: i64, storage: Vec<(Finite, [i64; N])>) -> (r: Self)
        ensures
            r.wf(),
            !r.is_dirty(),
            r.samples() == Seq::<(i64, [i64; N])>::empty(),
            r.tolerance() == if dy < 0 { -dy } else { dy as int },
            same_curve(r.wrapped(), func),
            r.wrapped() == func.next(NEG_INFINITY).next(INFINITY),
    {
        let mut func = func;
        let ghost f0 = func;
        let lo = func.eval(NEG_INFINITY);
        let ghost f1 = func;
        let hi = func.eval(INFINITY);
        assert(lo == f0.curve(NEG_INFINITY));
        assert(f1.curve(NEG_INFINITY) == f0.curve(NEG_INFINITY));
        assert(func.curve(NEG_INFINITY) == f1.curve(NEG_INFINITY));
        assert(func.curve(INFINITY) == f1.curve(INFINITY));
        assert forall|z: i64| #[trigger] func.curve(z) == f0.curve(z) by {
            assert(func.curve(z) == f1.curve(z));
            assert(f1.curve(z) == f0.curve(z));
        }
        let mut curve = storage;
        curve.clear();
        let r = CacheTree { func, has_changed: false, infinity: [lo, hi], dy_max: magnitude(dy), curve };
        assert(r.samples() =~= Seq::<(i64, [i64; N])>::empty());
        r
    }

    /// The wrapped function.
    pub fn func(&self) -> (r: &Y)
        ensures
            *r == self.wrapped(),
    {
        &self.func
    }

    /// The wrapped function, for change: the cache becomes dirty, and drops
    /// its samples at the next query.
    pub fn func_mut(&mut self) -> (r: &mut Y)
        ensures
            *r == old(self).wrapped(),
            final(self).wrapped() == *final(r),
            final(self).is_dirty(),
            final(self).samples() == old(self).samples(),
            final(self).tolerance() == old(self).tolerance(),
            final(self).boundary() == old(self).boundary(),
            old(self).wf() ==> final(self).wf(),
    {
        self.has_changed = true;
        &mut self.func
    }

    /// The number of stored samples.
    pub fn len(&self) -> (r: usize)
        ensures
            r == self.samples().len(),
    {
        self.curve.len()
    }

    /// Drops all samples and takes the outputs at the two infinities anew.
    pub fn reset(&mut self)
        requires
            old(self).wf(),
        ensures
            final(self).wf(),
            final(self).samples() == Seq::<(i64, [i64; N])>::empty(),
            agrees(final(self).samples(), final(self).boundary(), final(self).wrapped()),
            same_curve(final(self).wrapped(), old(self).wrapped()),
            final(self).wrapped() == old(self).wrapped().next(NEG_INFINITY).next(INFINITY),
            final(self).is_dirty() == old(self).is_dirty(),
            final(self).tolerance() == old(self).tolerance(),
    {
        let ghost f0 = self.func;
        self.curve.clear();
        let lo = self.func.eval(NEG_INFINITY);
        let ghost f1 = self.func;
        let hi = self.func.eval(INFINITY);
        self.infinity = [lo, hi];
        assert forall|z: i64| #[trigger] self.func.curve(z) == f0.curve(z) by {
            assert(self.func.curve(z) == f1.curve(z));
            assert(f1.curve(z) == f0.curve(z));
        }
        assert(self.samples() =~= Seq::<(i64, [i64; N])>::empty());
    }

    /// The outputs at `x`.
    ///
    /// A dirty cache first drops its samples and takes its boundary anew. At
    /// an infinity the answer is the boundary. Elsewhere, where the two
    /// samples around `x` differ by less than the tolerance in every
    /// component, the answer interpolates them and the function is not
    /// called. Otherwise the answer is the function's own value at `x`, and a
    /// sample is stored: at a probe point beyond `x` where `x` lies outside
    /// all keys, else at `x`. The function is called only there: once at
    /// `x`, and once more at the probe point where there is one.
    pub fn saturate(&mut self, x: i64) -> (r: [i64; N])
        requires
            old(self).wf(),
        ensures
            final(self).wf(),
            same_curve(final(self).wrapped(), old(self).wrapped()),
            final(self).tolerance() == old(self).tolerance(),
            N == 0 ==> *final(self) == *old(self),
            N > 0 ==> !final(self).is_dirty(),
            N > 0 ==> final(self).samples() == old(self).samples_after(x),
            N > 0 ==> final(self).wrapped() == old(self).wrapped_after(x),
            N > 0 && !is_finite(x) ==> r == old(self).wrapped().curve(x)
                && r == final(self).boundary()[if x < 0 { 0 } else { 1 }],
            N > 0 && is_finite(x) && interpolates(old(self).live_samples(), x, old(self).tolerance())
                ==> r@ == interpolation(old(self).live_samples(), x),
            N > 0 && is_finite(x) && !interpolates(old(self).live_samples(), x, old(self).tolerance())
                ==> r == old(self).wrapped().curve(x),
    {
        if N == 0 {
            let r: [i64; N] = [0i64; N];
            return r;
        }
        let ghost f0 = self.func;
        if self.has_changed {
            self.reset();
            self.has_changed = false;
        }
        let ghost s = self.samples();
        let ghost f1 = self.func;
        assert(s == old(self).live_samples());
        assert(agrees(s, self.infinity, f1));
        assert(same_curve(f1, f0));
        let key = match Finite::new(x) {
            Some(k) => k,
            None => {
                assert(f1.curve(x) == f0.curve(x));
                return if x < 0 {
                    self.infinity[0]
                } else {
                    self.infinity[1]
                };
            },
        };
        let p = self.search(x);
        let len = self.curve.len();
        let mut nb: Option<i64> = None;
        if p > 0 && p < len {
            let x0 = self.curve[p - 1].0.get();
            let x1 = self.curve[p].0.get();
            let y0 = self.curve[p - 1].1;
            let y1 = self.curve[p].1;
            assert(s[p - 1] == (x0, y0));
            assert(s[p as int] == (x1, y1));
            let dx: u64 = (x1 as i128 - x0 as i128) as u64;
            if dx == 0 {
                return y0;
            }
            let m = max_delta(&y0, &y1);
            if m < self.dy_max {
                let r = lerp_array(&y0, &y1, (x as i128 - x0 as i128) as u64, dx);
                return r;
            }
            assert(!close(y0, y1, self.dy_max));
        } else if p == 0 && len > 0 {
            nb = Some(self.curve[0].0.get());
        } else if p == len && len > 0 {
            let x0 = self.curve[p - 1].0.get();
            if x0 == x {
                assert(s[p - 1].1 == f1.curve(x));
                assert(f1.curve(x) == f0.curve(x));
                return self.curve[p - 1].1;
            }
            nb = Some(x0);
        }
        assert(!interpolates(s, x, self.dy_max));
        assert(!hits_last(s, x));
        let y = self.func.eval(x);
        let ghost f2 = self.func;
        assert(f1.curve(x) == f0.curve(x));
        let mut entry: (Finite, [i64; N]) = (key, y);
        match nb {
            Some(n) => {
                let xx: i128 = if n <= x {
                    x as i128 + (x as i128 - n as i128) / 3
                } else {
                    x as i128 - (n as i128 - x as i128) / 3
                };
                assert(xx == probe(x, n));
                if NEG_INFINITY as i128 <= xx && xx <= INFINITY as i128 {
                    match Finite::new(xx as i64) {
                        Some(kk) => {
                            let yy = self.func.eval(xx as i64);
                            assert(f2.curve(xx as i64) == f1.curve(xx as i64));
                            assert(f1.curve(xx as i64) == f0.curve(xx as i64));
                            entry = (kk, yy);
                        },
                        None => {},
                    }
                }
            },
            None => {},
        }
        assert(entry.0@ == stored_key(s, x));
        assert(entry.1 == f0.curve(entry.0@));
        proof {
            lemma_agrees_same(s, self.infinity, f1, self.func);
        }
        self.insert_sorted(entry.0, entry.1);
        proof {
            let t = self.samples();
            assert forall|i: int| 0 <= i < t.len() implies #[trigger] t[i].1 == self.func.curve(t[i].0) by {
                if !has_key(s, entry.0@) {
                    let q = position(s, entry.0@);
                    assert(t == s.insert(q, (entry.0@, entry.1)));
                    if i < q {
                        assert(t[i] == s[i]);
                    } else if i > q {
                        assert(t[i] == s[i - 1]);
                    } else {
                        assert(self.func.curve(entry.0@) == f0.curve(entry.0@));
                    }
                }
            }
            assert forall|z: i64| #[trigger] self.func.curve(z) == f0.curve(z) by {
                assert(self.func.curve(z) == f1.curve(z));
                assert(f1.curve(z) == f0.curve(z));
            }
        }
        y
    }

    /// The place of `x` among the stored keys.
    fn search(&self, x: i64) -> (p: usize)
        requires
            sorted_keys(self.samples()),
        ensures
            splits_at(self.samples(), x, p as int),
            position(self.samples(), x) == p,
    {
        let ghost s = self.samples();
        let mut lo: usize = 0;
        let mut hi: usize = self.curve.len();
        while lo < hi
            invariant
                s == self.samples(),
                s.len() == self.curve.len(),
                sorted_keys(s),
                0 <= lo <= hi <= s.len(),
                forall|i: int| 0 <= i < lo ==> s[i].0 <= x,
                forall|i: int| hi <= i < s.len() ==> x < s[i].0,
            decreases hi - lo,
        {
            let mid = lo + (hi - lo) / 2;
            let k = self.curve[mid].0.get();
            assert(s[mid as int].0 == k);
            if k <= x {
                lo = mid + 1;
            } else {
                hi = mid;
            }
        }
        proof {
            lemma_position(s, x, lo as int);
        }
        lo
    }

    /// Stores the sample `v` at `key`, unless a sample is stored there already.
    fn insert_sorted(&mut self, key: Finite, v: [i64; N])
        requires
            sorted_keys(old(self).samples()),
        ensures
            final(self).samples() == insert_sample(old(self).samples(), key@, v),
            splits_at(old(self).samples(), key@, position(old(self).samples(), key@)),
            sorted_keys(final(self).samples()),
            final(self).func == old(self).func,
            final(self).infinity == old(self).infinity,
            final(self).dy_max == old(self).dy_max,
            final(self).has_changed == old(self).has_changed,
    {
        let ghost s = self.samples();
        let k = key.get();
        let p = self.search(k);
        if p > 0 && self.curve[p - 1].0.get() == k {
            assert(s[p - 1].0 == k);
            assert(has_key(s, k));
        } else {
            assert(!has_key(s, k)) by {
                if has_key(s, k) {
                    let i = choose|i: int| 0 <= i < s.len() && s[i].0 == k;
                    if i < p - 1 {
                        assert(s[i].0 < s[p - 1].0);
                    }
                }
            }
            self.curve.insert(p, (key, v));
            assert(self.samples() =~= s.insert(p as int, (k, v)));
            let ghost t = self.samples();
            assert forall|i: int, j: int| 0 <= i < j < t.len() implies t[i].0 < t[j].0 by {
                if j < p {
                } else if i > p {
                    assert(t[i].0 == s[i - 1].0);
                    assert(t[j].0 == s[j - 1].0);
                } else if i == p {
                    assert(t[j].0 == s[j - 1].0);
                } else {
                    if j == p {
                        assert(s[i].0 <= k);
                        assert(s[i].0 != k);
                    } else {
                        assert(t[j].0 == s[j - 1].0);
                        assert(s[i].0 < s[j - 1].0 || i == j - 1);
                    }
                }
            }
        }
    }
}

impl<Y: Curve<1>> SaturationMut for CacheTree<1, Y> {
    closed spec fn ready(&self) -> bool {
        self.wf()
    }

    fn saturate_mut(&mut self, x: i64) -> (y: i64)
        ensures
            !is_finite(x) ==> y == old(self).wrapped().curve(x)[0],
            is_finite(x) && interpolates(old(self).live_samples(), x, old(self).tolerance())
                ==> y == interpolation(old(self).live_samples(), x)[0],
            is_finite(x) && !interpolates(old(self).live_samples(), x, old(self).tolerance())
                ==> y == old(self).wrapped().curve(x)[0],
            final(self).samples() == old(self).samples_after(x),
            final(self).wrapped() == old(self).wrapped_after(x),
            final(self).tolerance() == old(self).tolerance(),
    {
        let y = self.saturate(x);
        y[0]
    }
}

} // verus!
