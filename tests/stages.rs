use saturation::tubes::{Tube12AU7, Tube12AX7, Tube6550, Tube6DJ8, Tube6L6CG, TubeKT88};
use saturation::{
    Curve, Pentode, PentodeCache, PentodeCalc, PentodeClassA, PentodeFilter, Triode, TriodeCache, TriodeCalc,
    TriodeClassA, TriodeFilter, ONE,
};

fn fx(v: f64) -> i64 {
    (v * ONE as f64).round() as i64
}

fn fl(v: i64) -> f64 {
    v as f64 / ONE as f64
}

/// A smooth stand-in for a plate curve: the plate voltage falls from the
/// supply as the grid voltage rises.
fn plate(v_pp: f64, vg: f64) -> [f64; 2] {
    let t = (vg / 4.0).tanh();
    let vp = v_pp * (0.5 - 0.45 * t);
    let slope = v_pp * 0.45 * (1.0 - t * t) / 4.0;
    [vp, slope]
}

struct TriodeSolver {
    param: TriodeClassA,
    calls: usize,
}

impl Curve<2> for TriodeSolver {
    fn curve(&self, vg: i64) -> [i64; 2] {
        let [vp, a] = plate(fl(self.param.v_pp), fl(vg));
        [fx(vp), fx(a)]
    }

    fn next(&self, _vg: i64) -> Self {
        TriodeSolver { param: self.param, calls: self.calls + 1 }
    }

    fn eval(&mut self, vg: i64) -> [i64; 2] {
        self.calls += 1;
        self.curve(vg)
    }
}

impl<M> TriodeCalc<M> for TriodeSolver {
    fn ready(&self) -> bool {
        true
    }

    fn spec_param(&self) -> TriodeClassA {
        self.param
    }

    fn plate_voltage(&self, vg: i64) -> i64 {
        self.curve(vg)[0]
    }

    fn plate_slope(&self, vg: i64) -> i64 {
        self.curve(vg)[1]
    }

    fn param(&self) -> &TriodeClassA {
        &self.param
    }

    fn param_mut(&mut self) -> &mut TriodeClassA {
        &mut self.param
    }

    fn vp_a(&mut self, vg: i64) -> [i64; 2] {
        self.eval(vg)
    }
}

struct PentodeSolver {
    param: PentodeClassA,
}

impl Curve<2> for PentodeSolver {
    fn curve(&self, vg: i64) -> [i64; 2] {
        let [vp, a] = plate(fl(self.param.v_pp), fl(vg));
        [fx(vp), fx(a)]
    }

    fn next(&self, _vg: i64) -> Self {
        PentodeSolver { param: self.param }
    }

    fn eval(&mut self, vg: i64) -> [i64; 2] {
        self.curve(vg)
    }
}

impl<M> PentodeCalc<M> for PentodeSolver {
    fn ready(&self) -> bool {
        true
    }

    fn spec_param(&self) -> PentodeClassA {
        self.param
    }

    fn plate_voltage(&self, vg: i64) -> i64 {
        self.curve(vg)[0]
    }

    fn plate_slope(&self, vg: i64) -> i64 {
        self.curve(vg)[1]
    }

    fn param(&self) -> &PentodeClassA {
        &self.param
    }

    fn param_mut(&mut self) -> &mut PentodeClassA {
        &mut self.param
    }

    fn vp_a(&mut self, vg: i64) -> [i64; 2] {
        self.eval(vg)
    }
}

/// Filters that pass their input through, recording the last Miller gain.
struct Pass {
    miller: i64,
}

impl<M> TriodeFilter<M> for Pass {
    fn grid(&self, param: TriodeClassA, _rate: i64, x: i64) -> i64 {
        x - param.v_c
    }

    fn output(&self, _rate: i64, y: i64) -> i64 {
        y
    }

    fn with_miller_input(&self, m: i64) -> Self {
        Pass { miller: m }
    }

    fn with_miller_output(&self, m: i64) -> Self {
        Pass { miller: m }
    }

    fn new_input_filter(_r_i: i64) -> Self {
        Pass { miller: 0 }
    }

    fn new_output_filter(_r_p: i64) -> Self {
        Pass { miller: 0 }
    }

    fn update_miller_effect_input(&mut self, miller_effect: i64) {
        self.miller = miller_effect;
    }

    fn update_miller_effect_output(&mut self, miller_effect: i64) {
        self.miller = miller_effect;
    }

    fn vg(&mut self, param: TriodeClassA, _rate: i64, x: i64) -> i64 {
        x - param.v_c
    }

    fn y(&mut self, _rate: i64, y: i64) -> i64 {
        y
    }
}

impl<M> PentodeFilter<M> for Pass {
    fn grid(&self, param: PentodeClassA, _rate: i64, x: i64) -> i64 {
        x - param.v_c
    }

    fn output(&self, _rate: i64, y: i64) -> i64 {
        y
    }

    fn with_miller_input(&self, m: i64) -> Self {
        Pass { miller: m }
    }

    fn with_miller_output(&self, m: i64) -> Self {
        Pass { miller: m }
    }

    fn new_input_filter(_r_i: i64) -> Self {
        Pass { miller: 0 }
    }

    fn new_output_filter(_r_p: i64) -> Self {
        Pass { miller: 0 }
    }

    fn update_miller_effect_input(&mut self, miller_effect: i64) {
        self.miller = miller_effect;
    }

    fn update_miller_effect_output(&mut self, miller_effect: i64) {
        self.miller = miller_effect;
    }

    fn vg(&mut self, param: PentodeClassA, _rate: i64, x: i64) -> i64 {
        x - param.v_c
    }

    fn y(&mut self, _rate: i64, y: i64) -> i64 {
        y
    }
}

fn triode_param() -> TriodeClassA {
    TriodeClassA { r_i: fx(1e3), r_p: fx(47e3), v_pp: fx(24.0), v_c: 0 }
}

fn run_triode<M>(model: M) {
    let rate = fx(8000.0);
    let calc = TriodeCache::new(TriodeSolver { param: triode_param(), calls: 0 }, fx(-20.0)..fx(20.0), 1024);
    let mut t: Triode<M, Pass, Pass, (), _> = Triode::new(calc, model, ());
    assert_eq!(t.miller_effect(), ONE);
    let [vp0, _] = plate(24.0, 0.0);
    assert!((fl(t.offset()) - vp0).abs() < 1e-6);
    let mut last = i64::MAX;
    for i in 0..512 {
        let x = -20.0 + 40.0 * i as f64 / 511.0;
        let y = t.saturate(rate, fx(x));
        let [vp, a] = plate(24.0, x);
        assert!((fl(y) - (vp - vp0)).abs() < 1e-2);
        assert!(y <= last);
        last = y;
        assert!(t.miller_effect() >= ONE);
        assert!((fl(t.miller_effect()) - (1.0 + a)).abs() < 1e-2);
    }
}

fn run_pentode<M>(model: M) {
    let rate = fx(8000.0);
    let param = PentodeClassA { r_i: fx(1e3), r_p: fx(1e3), v_g2: fx(3.3), v_pp: fx(24.0), v_c: 0 };
    let calc = PentodeCache::new(PentodeSolver { param }, fx(-2.0)..fx(50.0), 1024);
    let mut t: Pentode<M, Pass, Pass, (), _> = Pentode::new(calc, model, ());
    assert_eq!(t.miller_effect(), ONE);
    let [vp0, _] = plate(24.0, 0.0);
    for i in 0..512 {
        let x = -2.0 + 52.0 * i as f64 / 511.0;
        let y = t.saturate(rate, fx(x));
        let [vp, _] = plate(24.0, x);
        assert!((fl(y) - (vp - vp0)).abs() < 1e-2);
        assert!(t.miller_effect() >= ONE);
    }
}

#[test]
fn mod_it_works() {
    run_triode(Tube6DJ8);
    run_triode(Tube12AX7);
    run_triode(Tube12AU7);
    run_triode(Tube6L6CG);
    run_triode(Tube6550);
    run_triode(TubeKT88);
    run_pentode(Tube6L6CG);
    run_pentode(Tube6550);
    run_pentode(TubeKT88);
}

#[test]
fn triode_param_change_refills_table() {
    let calc = TriodeCache::new(TriodeSolver { param: triode_param(), calls: 0 }, fx(-20.0)..fx(20.0), 16);
    let mut t: Triode<Tube12AX7, Pass, Pass, (), _> = Triode::new(calc, Tube12AX7, ());
    let rate = fx(8000.0);
    let before = t.saturate(rate, fx(1.0));
    t.param_mut().v_pp = fx(48.0);
    t.calibrate();
    let after = t.saturate(rate, fx(1.0));
    assert!((fl(after) - 2.0 * fl(before)).abs() < 1e-3);
    assert_eq!(t.param().v_pp, fx(48.0));
}

#[test]
fn cathode_param_is_unit() {
    let calc = TriodeCache::new(TriodeSolver { param: triode_param(), calls: 0 }, fx(-20.0)..fx(20.0), 16);
    let mut t: Triode<Tube12AX7, Pass, Pass, (), _> = Triode::new(calc, Tube12AX7, ());
    assert_eq!(*t.param_cathode(), ());
    *t.param_cathode_mut() = ();
}

#[test]
fn stage_without_filters_is_silent_at_zero() {
    let rate = fx(8000.0);
    let calc = TriodeCache::new(TriodeSolver { param: triode_param(), calls: 0 }, fx(-20.0)..fx(20.0), 1024);
    let mut t: Triode<Tube12AX7, (), (), (), _> = Triode::new(calc, Tube12AX7, ());
    assert_eq!(t.saturate(rate, 0), 0);
    let y = t.saturate(rate, fx(2.0));
    // the input is divided by 1k input resistance against 1k grid resistance
    let [vp, _] = plate(24.0, 1.0);
    let [vp0, _] = plate(24.0, 0.0);
    assert!((fl(y) - (vp - vp0)).abs() < 1e-3);
    let calc = PentodeCache::new(
        PentodeSolver { param: PentodeClassA { r_i: fx(1e3), r_p: fx(1e3), v_g2: fx(3.3), v_pp: fx(24.0), v_c: 0 } },
        fx(-2.0)..fx(50.0),
        1024,
    );
    let mut p: Pentode<Tube6550, (), (), (), _> = Pentode::new(calc, Tube6550, ());
    assert_eq!(p.saturate(rate, 0), 0);
}
