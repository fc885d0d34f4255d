use saturation::cache_table::MAX_RESOLUTION;
use saturation::{CacheTable, CacheTree, Curve, Finite, SaturationMut, INFINITY, NEG_INFINITY, ONE};

fn fx(v: f64) -> i64 {
    (v * ONE as f64).round() as i64
}

fn fl(v: i64) -> f64 {
    v as f64 / ONE as f64
}

/// A scalar curve evaluated in floating point, with a gain that can be
/// changed and a count of its evaluations.
struct Counted {
    f: fn(f64) -> f64,
    gain: f64,
    calls: usize,
}

impl Counted {
    fn new(f: fn(f64) -> f64) -> Counted {
        Counted { f, gain: 1.0, calls: 0 }
    }
}

impl Curve<1> for Counted {
    fn curve(&self, x: i64) -> [i64; 1] {
        [fx(self.gain * (self.f)(fl(x)))]
    }

    fn next(&self, _x: i64) -> Self {
        Counted { f: self.f, gain: self.gain, calls: self.calls + 1 }
    }

    fn eval(&mut self, x: i64) -> [i64; 1] {
        self.calls += 1;
        self.curve(x)
    }
}

/// The identity, exactly, on fixed-point values.
struct Identity;

impl Curve<1> for Identity {
    fn curve(&self, x: i64) -> [i64; 1] {
        [x]
    }

    fn next(&self, _x: i64) -> Self {
        Identity
    }

    fn eval(&mut self, x: i64) -> [i64; 1] {
        [x]
    }
}

fn square(x: f64) -> f64 {
    x * x
}

fn sine(x: f64) -> f64 {
    x.sin()
}

fn tanh(x: f64) -> f64 {
    x.tanh()
}

#[test]
fn grid_interpolates_between_grid_points() {
    let mut c = CacheTable::new(Counted::new(square), 0..ONE, 10);
    let [y] = c.saturate(fx(0.25));
    assert!((fl(y) - 0.065).abs() < 1e-6, "{}", fl(y));
    // on a grid point the stored value comes back unchanged
    let [g] = c.saturate(fx(0.5));
    assert!((fl(g) - 0.25).abs() < 1e-6);
}

#[test]
fn grid_fills_once() {
    let mut c = CacheTable::new(Counted::new(square), 0..ONE, 10);
    assert_eq!(c.func().calls, 2);
    c.saturate(fx(0.3));
    assert_eq!(c.func().calls, 2 + 2 + 11);
    c.saturate(fx(0.7));
    c.saturate(fx(-3.0));
    assert_eq!(c.func().calls, 15);
}

#[test]
fn grid_boundary_beyond_domain() {
    let mut c = CacheTable::new(Counted::new(square), 0..ONE, 10);
    let lo = c.saturate(fx(-5.0));
    let hi = c.saturate(fx(5.0));
    let at_end = c.saturate(ONE);
    let at_start = c.saturate(0);
    assert_eq!(lo, [0]);
    assert_eq!(hi, [ONE]);
    assert_eq!(at_end, [ONE]);
    assert_eq!(at_start, [0]);
    assert_eq!(c.saturate(INFINITY), [ONE]);
    assert_eq!(c.saturate(NEG_INFINITY), [0]);
}

#[test]
fn grid_boundary_of_nearer_end_off_zero() {
    // a domain away from zero: below it comes the start's value
    let mut c = CacheTable::new(Identity, ONE..2 * ONE, 10);
    assert_eq!(c.saturate(ONE / 2), [ONE]);
    assert_eq!(c.saturate(3 * ONE), [2 * ONE]);
}

#[test]
fn grid_inverted_domain_is_a_point() {
    let mut c = CacheTable::new(Identity, 2 * ONE..ONE, 10);
    assert_eq!(c.saturate(0), [2 * ONE]);
    assert_eq!(c.saturate(2 * ONE), [2 * ONE]);
    assert_eq!(c.saturate(3 * ONE), [2 * ONE]);
}

#[test]
fn grid_domain_stays_within_request() {
    // a zero-width request keeps its point, even where the cap misses it
    let mut c = CacheTable::new(Identity, -3..-3, 100_000);
    assert_eq!(c.saturate(0), [-3]);
    assert_eq!(c.saturate(-10), [-3]);
    // a request that the cap misses keeps its end nearest the cap
    let mut d = CacheTable::new(Identity, -10 * ONE..-5 * ONE, 100_000);
    assert_eq!(d.saturate(0), [-5 * ONE]);
    assert_eq!(d.saturate(-10 * ONE), [-5 * ONE]);
}

#[test]
fn grid_reset_takes_boundary_and_refills() {
    let mut c = CacheTable::new(Counted::new(square), 0..ONE, 10);
    c.saturate(fx(0.3));
    assert_eq!(c.func().calls, 15);
    c.reset();
    assert_eq!(c.func().calls, 17);
    c.saturate(fx(0.3));
    assert_eq!(c.func().calls, 17 + 13);
}

#[test]
fn grid_resolution_is_capped() {
    // below the cap the whole domain is kept
    let mut c = CacheTable::new(Identity, 0..ONE, 1000);
    assert_eq!(c.saturate(ONE), [ONE]);
    // at the cap the domain is cut to the steps that the cap allows each way
    let mut d = CacheTable::new(Identity, 0..ONE, 100_000);
    let step = ONE / MAX_RESOLUTION as i64;
    let bound = step * MAX_RESOLUTION as i64;
    assert_eq!(d.saturate(ONE), [bound]);
    assert_eq!(d.saturate(bound / 2), [bound / 2]);
}

#[test]
fn grid_exact_linear_interpolation() {
    let mut c = CacheTable::new(Identity, 0..1000, 10);
    for x in 0..=1000 {
        assert_eq!(c.saturate(x), [x]);
    }
}

#[test]
fn grid_monotone_outputs() {
    let mut c = CacheTable::new(Counted::new(tanh), fx(-2.0)..fx(2.0), 64);
    let mut last = i64::MIN;
    for i in -300..=300 {
        let [y] = c.saturate(fx(i as f64 / 100.0));
        assert!(y >= last);
        last = y;
    }
}

#[test]
fn grid_reset_recomputes() {
    let mut c = CacheTable::new(Counted::new(square), 0..ONE, 10);
    let [a] = c.saturate(fx(0.25));
    c.func_mut().gain = 2.0;
    c.reset();
    let [b] = c.saturate(fx(0.25));
    assert!((fl(b) - 2.0 * fl(a)).abs() < 1e-6);
}

#[test]
fn grid_mutation_changes_boundary() {
    let mut c = CacheTable::new(Counted::new(square), 0..ONE, 10);
    assert_eq!(c.saturate(fx(7.0)), [ONE]);
    c.func_mut().gain = 3.0;
    assert_eq!(c.saturate(fx(7.0)), [3 * ONE]);
    assert_eq!(c.saturate(fx(-7.0)), [0]);
}

#[test]
fn grid_saturate_mut_is_first_output() {
    let mut c = CacheTable::new(Counted::new(square), 0..ONE, 10);
    let y = c.saturate_mut(fx(0.25));
    assert!((fl(y) - 0.065).abs() < 1e-6);
}

#[test]
fn tree_reuses_within_tolerance() {
    let mut c = CacheTree::new(Counted::new(sine), fx(0.01));
    assert_eq!(c.func().calls, 2);
    let [a] = c.saturate(fx(0.1));
    assert_eq!(c.func().calls, 3);
    assert!((fl(a) - 0.1f64.sin()).abs() < 1e-9);
    // one neighbour only: x itself is answered, a probe beyond it is stored
    let [b] = c.saturate(fx(0.105));
    assert_eq!(c.func().calls, 5);
    assert!((fl(b) - 0.105f64.sin()).abs() < 1e-9);
    assert_eq!(c.len(), 2);
    // between the two samples, which differ by less than the tolerance
    let [m] = c.saturate(fx(0.103));
    assert_eq!(c.func().calls, 5);
    assert_eq!(c.len(), 2);
    let x0: f64 = 0.1;
    let x1: f64 = 0.105 + 0.005 / 3.0;
    let expected = x0.sin() + (x1.sin() - x0.sin()) * (0.103 - x0) / (x1 - x0);
    assert!((fl(m) - expected).abs() < 1e-6);
}

#[test]
fn tree_refines_where_steep() {
    let mut c = CacheTree::new(Counted::new(sine), fx(0.01));
    c.saturate(fx(0.1));
    c.saturate(fx(0.105));
    c.saturate(fx(3.0));
    assert_eq!(c.len(), 3);
    let calls = c.func().calls;
    let [y] = c.saturate(fx(2.0));
    assert_eq!(c.func().calls, calls + 1);
    assert_eq!(c.len(), 4);
    assert!((fl(y) - 2.0f64.sin()).abs() < 1e-9);
}

#[test]
fn tree_boundary_at_infinities() {
    let mut c = CacheTree::new(Counted::new(tanh), 100);
    let hi = c.saturate(INFINITY);
    let lo = c.saturate(NEG_INFINITY);
    assert_eq!(hi, [ONE]);
    assert_eq!(lo, [-ONE]);
    c.saturate(fx(0.5));
    assert_eq!(c.saturate(INFINITY), [ONE]);
    assert_eq!(c.len(), 1);
}

#[test]
fn tree_stored_key_comes_back() {
    let mut c = CacheTree::new(Counted::new(sine), fx(0.01));
    let a = c.saturate(fx(0.5));
    let calls = c.func().calls;
    let b = c.saturate(fx(0.5));
    assert_eq!(a, b);
    assert_eq!(c.func().calls, calls);
}

#[test]
fn tree_reset_recomputes() {
    let mut c = CacheTree::new(Counted::new(sine), fx(0.01));
    let [a] = c.saturate(fx(0.5));
    c.func_mut().gain = 2.0;
    c.reset();
    assert_eq!(c.len(), 0);
    let [b] = c.saturate(fx(0.5));
    assert!((fl(b) - 2.0 * fl(a)).abs() < 1e-6);
}

#[test]
fn tree_mutation_changes_boundary() {
    let mut c = CacheTree::new(Counted::new(tanh), fx(0.01));
    c.saturate(fx(0.5));
    c.func_mut().gain = -1.0;
    assert_eq!(c.saturate(INFINITY), [-ONE]);
    assert_eq!(c.len(), 0);
}

#[test]
fn tree_no_overshoot() {
    let mut c = CacheTree::new(Counted::new(tanh), fx(0.5));
    c.saturate(fx(0.0));
    c.saturate(fx(0.3));
    let lo = fx(0.0f64.tanh());
    let probe = fx(0.3) + fx(0.3) / 3;
    let hi = fx(fl(probe).tanh());
    for i in 1..40 {
        let [y] = c.saturate(fx(i as f64 / 100.0));
        assert!(lo <= y && y <= hi);
    }
}

/// A curve with no outputs.
struct Empty;

impl Curve<0> for Empty {
    fn curve(&self, _x: i64) -> [i64; 0] {
        []
    }

    fn next(&self, _x: i64) -> Self {
        Empty
    }

    fn eval(&mut self, _x: i64) -> [i64; 0] {
        []
    }
}

#[test]
fn tree_zero_outputs() {
    let mut c = CacheTree::new(Empty, 1);
    assert_eq!(c.saturate(5), []);
    assert_eq!(c.len(), 0);
}

#[test]
fn tree_negative_tolerance_is_its_magnitude() {
    let mut c = CacheTree::new(Counted::new(sine), -fx(0.01));
    c.saturate(fx(0.1));
    c.saturate(fx(0.105));
    let calls = c.func().calls;
    c.saturate(fx(0.103));
    assert_eq!(c.func().calls, calls);
}

#[test]
fn tree_saturate_mut_is_first_output() {
    let mut c = CacheTree::new(Counted::new(tanh), fx(0.01));
    assert_eq!(c.saturate_mut(INFINITY), ONE);
}

#[test]
fn finite_rejects_infinities() {
    assert!(Finite::new(INFINITY).is_none());
    assert!(Finite::new(NEG_INFINITY).is_none());
    assert_eq!(Finite::new(7).map(|k| k.get()), Some(7));
    assert!(Finite::new(-3).unwrap() < Finite::new(2).unwrap());
}
