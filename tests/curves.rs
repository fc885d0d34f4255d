use saturation::{CacheTable, CacheTree, Curve, LinMoid, Saturation, SaturationMut, ONE};

fn fx(v: f64) -> i64 {
    (v * ONE as f64).round() as i64
}

fn fl(v: i64) -> f64 {
    v as f64 / ONE as f64
}

struct Float(fn(f64) -> f64);

impl Curve<1> for Float {
    fn curve(&self, x: i64) -> [i64; 1] {
        [fx((self.0)(fl(x)))]
    }

    fn next(&self, _x: i64) -> Self {
        Float(self.0)
    }

    fn eval(&mut self, x: i64) -> [i64; 1] {
        self.curve(x)
    }
}

fn atanmoid(x: f64) -> f64 {
    let frac_2_pi = std::f64::consts::FRAC_2_PI;
    frac_2_pi * (x / frac_2_pi).atan()
}

fn soft_exp_from(x: f64, start: f64) -> f64 {
    let x = x.max(start);
    x + (start - x).exp() - start.exp()
}

fn soft_exp_to(x: f64, end: f64) -> f64 {
    let x = x.min(end);
    x - (x - end).exp() + (-end).exp()
}

/// Sweeps the curve over [-2, 2] directly and through both caches.
fn sweep(f: fn(f64) -> f64) {
    let mut table = CacheTable::new(Float(f), fx(-2.0)..fx(2.0), 1024);
    let mut tree = CacheTree::new(Float(f), fx(0.001));
    for i in 0..512 {
        let x = -2.0 + 4.0 * i as f64 / 511.0;
        let y = f(x);
        let [a] = table.saturate(fx(x));
        let [b] = tree.saturate(fx(x));
        assert!((fl(a) - y).abs() < 1e-4, "table at {}: {} for {}", x, fl(a), y);
        assert!((fl(b) - y).abs() < 2e-3, "tree at {}: {} for {}", x, fl(b), y);
    }
}

#[test]
fn atanmoid_it_works() {
    sweep(atanmoid);
}

#[test]
fn erfmoid_it_works() {
    sweep(|x| libm::erf(x / std::f64::consts::FRAC_2_SQRT_PI));
}

#[test]
fn linmoid_it_works() {
    let mut m = LinMoid;
    for i in 0..512 {
        let x = -2.0 + 4.0 * i as f64 / 511.0;
        let y = LinMoid.saturate(fx(x));
        assert!((fl(y) - x / (1.0 + x.abs())).abs() < 1e-9);
        assert_eq!(m.saturate_mut(fx(x)), y);
        assert_eq!(m.eval(fx(x)), [y]);
    }
    assert_eq!(LinMoid.saturate(ONE), ONE / 2);
    assert_eq!(LinMoid.saturate(-ONE), -ONE / 2);
    assert_eq!(LinMoid.saturate(0), 0);
    sweep(|x| x / (1.0 + x.abs()));
}

#[test]
fn pythmoid_it_works() {
    sweep(|x| x / (1.0 + x * x).sqrt());
}

#[test]
fn sinh_atanmoid_it_works() {
    sweep(|x| atanmoid(x).atan());
}

#[test]
fn soft_exp_it_works() {
    sweep(|x| soft_exp_from(x, -1.2));
    sweep(|x| if x < 0.0 { soft_exp_from(x, -1.2) } else { soft_exp_to(x, 1.0) });
    sweep(|x| soft_exp_to(x, 1.0));
}

#[test]
fn tanh_it_works() {
    sweep(|x| x.tanh());
}
