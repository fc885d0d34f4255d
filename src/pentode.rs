//! A pentode gain stage: grid filtering, the plate curve, Miller-effect
//! feedback and output filtering, around a plate-voltage calculator.
use vstd::prelude::*;

use core::ops::Range;

use crate::cache_table::{
    domain_start, domain_end, grid_answer, lemma_grid_answer_same, request_end, CacheTable, MAX_RESOLUTION,
};
use crate::triode::{miller_effect_of, miller_gain};
use crate::tubes::{divide_grid, divided_grid, quotient, TubeModel};
use crate::{clamp, saturating_difference, same_curve, Curve, ONE};

verus! {

/// The operating point of a class A pentode stage.
#[derive(Clone, Copy, Debug, PartialEq, Eq, Structural)]
pub struct PentodeClassA {
    /// Input resistor
    pub r_i: i64,
    /// Plate resistor
    pub r_p: i64,
    /// Screen gate voltage
    pub v_g2: i64,
    /// Supply voltage
    pub v_pp: i64,
    /// Cathode voltage
    pub v_c: i64,
}

/// What computes the plate voltage of a pentode stage, and its slope, from
/// the grid voltage.
pub trait PentodeCalc<M> {
    /// Whether the calculator's own invariant holds.
    spec fn ready(&self) -> bool;

    /// The operating point.
    spec fn spec_param(&self) -> PentodeClassA;

    /// The plate voltage at grid voltage `vg`.
    spec fn plate_voltage(&self, vg: i64) -> i64;

    /// The slope of the plate voltage over the grid voltage, at `vg`.
    spec fn plate_slope(&self, vg: i64) -> i64;

    fn reset(&mut self)
        requires
            old(self).ready(),
        ensures
            final(self).ready(),
    {
    }

    fn param(&self) -> (r: &PentodeClassA)
        ensures
            *r == self.spec_param(),
    ;

    fn param_mut(&mut self) -> (r: &mut PentodeClassA)
        ensures
            *r == old(self).spec_param(),
            final(self).spec_param() == *final(r),
            old(self).ready() ==> final(self).ready(),
    ;

    fn vp_a(&mut self, vg: i64) -> (r: [i64; 2])
        requires
            old(self).ready(),
        ensures
            final(self).ready(),
            r[0] == old(self).plate_voltage(vg),
            r[1] == old(self).plate_slope(vg),
            forall|v: i64| #[trigger] final(self).plate_voltage(v) == old(self).plate_voltage(v),
            forall|v: i64| #[trigger] final(self).plate_slope(v) == old(self).plate_slope(v),
    ;
}

/// The filter on the cathode of a pentode stage.
pub trait PentodeCathodeFilter<M>: Sized {
    type Param;

    /// The filter's parameters.
    spec fn spec_param_cathode(&self) -> Self::Param;

    /// The grid voltage seen past the cathode, for input `x`.
    spec fn grid_cathode(&self, param: PentodeClassA, miller_effect: i64, rate: i64, x: i64) -> i64;

    fn new_cathode_filter(param: Self::Param) -> (r: Self)
        ensures
            r.spec_param_cathode() == param,
    ;

    fn param_cathode(&self) -> (r: &Self::Param)
        ensures
            *r == self.spec_param_cathode(),
    ;

    fn param_cathode_mut(&mut self) -> (r: &mut Self::Param)
        ensures
            *r == old(self).spec_param_cathode(),
            final(self).spec_param_cathode() == *final(r),
    ;

    fn vg_cathode(&mut self, param: PentodeClassA, miller_effect: i64, rate: i64, x: i64) -> (r: i64)
        ensures
            r == old(self).grid_cathode(param, miller_effect, rate, x),
    ;
}

/// No cathode filter: the input passes unchanged.
impl<M> PentodeCathodeFilter<M> for () {
    type Param = ();

    open spec fn spec_param_cathode(&self) -> () {
        ()
    }

    open spec fn grid_cathode(&self, param: PentodeClassA, miller_effect: i64, rate: i64, x: i64) -> i64 {
        x
    }

    fn new_cathode_filter(param: ()) -> Self {
    }

    fn param_cathode(&self) -> &() {
        self
    }

    fn param_cathode_mut(&mut self) -> &mut () {
        self
    }

    fn vg_cathode(&mut self, param: PentodeClassA, miller_effect: i64, rate: i64, x: i64) -> i64 {
        x
    }
}

/// The input and output filters of a pentode stage, whose capacitance
/// follows the Miller effect.
pub trait PentodeFilter<M>: Sized {
    /// The grid voltage for input `x`.
    spec fn grid(&self, param: PentodeClassA, rate: i64, x: i64) -> i64;

    /// The output for plate swing `y`.
    spec fn output(&self, rate: i64, y: i64) -> i64;

    /// The filter after it has taken a Miller gain `m` as an input filter.
    spec fn with_miller_input(&self, m: i64) -> Self;

    /// The filter after it has taken a Miller gain `m` as an output filter.
    spec fn with_miller_output(&self, m: i64) -> Self;

    fn new_input_filter(r_i: i64) -> Self;

    fn new_output_filter(r_p: i64) -> Self;

    fn update_miller_effect_input(&mut self, miller_effect: i64)
        ensures
            *final(self) == old(self).with_miller_input(miller_effect),
    ;

    fn update_miller_effect_output(&mut self, miller_effect: i64)
        ensures
            *final(self) == old(self).with_miller_output(miller_effect),
    ;

    fn vg(&mut self, param: PentodeClassA, rate: i64, x: i64) -> (r: i64)
        ensures
            r == old(self).grid(param, rate, x),
    ;

    fn y(&mut self, rate: i64, y: i64) -> (r: i64)
        ensures
            r == old(self).output(rate, y),
    ;
}

/// No filtering: the input reaches the grid through the divider of the
/// input resistor and the tube's grid resistance, less the cathode voltage,
/// and the output is the plate swing itself.
impl<M: TubeModel> PentodeFilter<M> for () {
    open spec fn grid(&self, param: PentodeClassA, rate: i64, x: i64) -> i64 {
        divided_grid(x, M::spec_r_gi(), param.r_i, param.v_c)
    }

    open spec fn output(&self, rate: i64, y: i64) -> i64 {
        y
    }

    open spec fn with_miller_input(&self, m: i64) -> () {
        ()
    }

    open spec fn with_miller_output(&self, m: i64) -> () {
        ()
    }

    fn new_input_filter(r_i: i64) -> Self {
    }

    fn new_output_filter(r_p: i64) -> Self {
    }

    fn update_miller_effect_input(&mut self, miller_effect: i64) {
    }

    fn update_miller_effect_output(&mut self, miller_effect: i64) {
    }

    fn vg(&mut self, param: PentodeClassA, rate: i64, x: i64) -> i64 {
        divide_grid(x, M::r_gi(), param.r_i, param.v_c)
    }

    fn y(&mut self, rate: i64, y: i64) -> i64 {
        y
    }
}

/// A pentode gain stage.
pub struct Pentode<M, FI, FO, FC, C> where
    FI: PentodeFilter<M>,
    FO: PentodeFilter<M>,
    FC: PentodeCathodeFilter<M>,
    C: PentodeCalc<M>,
 {
    calc: C,
    input_filter: FI,
    output_filter: FO,
    cathode_filter: FC,
    miller_effect: i64,
    offset: i64,
    model: M,
}

impl<M, FI, FO, FC, C> Pentode<M, FI, FO, FC, C> where
    FI: PentodeFilter<M>,
    FO: PentodeFilter<M>,
    FC: PentodeCathodeFilter<M>,
    C: PentodeCalc<M>,
 {
    /// The Miller-effect gain now in force.
    pub closed spec fn spec_miller_effect(&self) -> i64 {
        self.miller_effect
    }

    /// The plate voltage at rest, taken off every output.
    pub closed spec fn spec_offset(&self) -> i64 {
        self.offset
    }

    /// The tube model.
    pub closed spec fn spec_model(&self) -> M {
        self.model
    }

    /// The plate-voltage calculator.
    pub closed spec fn spec_calc(&self) -> C {
        self.calc
    }

    /// The cathode filter's parameters.
    pub closed spec fn spec_param_cathode(&self) -> FC::Param {
        self.cathode_filter.spec_param_cathode()
    }

    /// Whether the calculator's invariant holds.
    pub open spec fn ready(&self) -> bool {
        self.spec_calc().ready()
    }

    /// The plate voltage at rest for a calculator: at the grid voltage that
    /// cancels the cathode voltage.
    pub open spec fn rest(calc: C) -> i64 {
        calc.plate_voltage(clamp(0 - calc.spec_param().v_c))
    }

    /// The grid voltage that input `x` gives, through the cathode and input
    /// filters.
    pub closed spec fn grid_voltage(&self, rate: i64, x: i64) -> i64 {
        let p = self.calc.spec_param();
        self.input_filter.grid(p, rate, self.cathode_filter.grid_cathode(p, self.miller_effect, rate, x))
    }

    /// The output for a plate swing `y`, once the output filter has taken
    /// the Miller gain `m`.
    pub closed spec fn output_of(&self, m: i64, rate: i64, y: i64) -> i64 {
        self.output_filter.with_miller_output(m).output(rate, y)
    }

    /// A stage around `calc`, with filters made for its operating point,
    /// a Miller gain of one, and its offset calibrated.
    pub fn new(calc: C, model: M, cathode: FC::Param) -> (r: Self)
        requires
            calc.ready(),
        ensures
            r.ready(),
            r.spec_miller_effect() == ONE,
            r.spec_model() == model,
            r.spec_param_cathode() == cathode,
            r.spec_offset() == Self::rest(calc),
            forall|v: i64| #[trigger] r.spec_calc().plate_voltage(v) == calc.plate_voltage(v),
            forall|v: i64| #[trigger] r.spec_calc().plate_slope(v) == calc.plate_slope(v),
    {
        let param = *calc.param();
        let input_filter = FI::new_input_filter(param.r_i);
        let output_filter = FO::new_output_filter(param.r_p);
        let cathode_filter = FC::new_cathode_filter(cathode);
        let mut pentode = Pentode {
            calc,
            input_filter,
            output_filter,
            cathode_filter,
            miller_effect: ONE,
            offset: 0,
            model,
        };
        pentode.calibrate();
        pentode
    }

    pub fn param(&self) -> (r: &PentodeClassA)
        ensures
            *r == self.spec_calc().spec_param(),
    {
        self.calc.param()
    }

    /// The operating point, for change.
    pub fn param_mut(&mut self) -> (r: &mut PentodeClassA)
        requires
            old(self).ready(),
        ensures
            *r == old(self).spec_calc().spec_param(),
            final(self).spec_calc().spec_param() == *final(r),
            final(self).ready(),
            final(self).spec_miller_effect() == old(self).spec_miller_effect(),
            final(self).spec_offset() == old(self).spec_offset(),
            final(self).spec_model() == old(self).spec_model(),
            final(self).spec_param_cathode() == old(self).spec_param_cathode(),
    {
        self.calc.param_mut()
    }

    pub fn param_cathode(&self) -> (r: &FC::Param)
        ensures
            *r == self.spec_param_cathode(),
    {
        self.cathode_filter.param_cathode()
    }

    /// The cathode filter's parameters, for change.
    pub fn param_cathode_mut(&mut self) -> (r: &mut FC::Param)
        ensures
            *r == old(self).spec_param_cathode(),
            final(self).spec_param_cathode() == *final(r),
            final(self).spec_calc() == old(self).spec_calc(),
            final(self).spec_miller_effect() == old(self).spec_miller_effect(),
            final(self).spec_offset() == old(self).spec_offset(),
            final(self).spec_model() == old(self).spec_model(),
    {
        self.cathode_filter.param_cathode_mut()
    }

    /// Takes as offset the plate voltage at a grid voltage that cancels the
    /// cathode voltage.
    pub fn calibrate(&mut self)
        requires
            old(self).ready(),
        ensures
            final(self).ready(),
            final(self).spec_offset() == Self::rest(old(self).spec_calc()),
            forall|v: i64| #[trigger] final(self).spec_calc().plate_voltage(v) == old(self).spec_calc().plate_voltage(v),
            forall|v: i64| #[trigger] final(self).spec_calc().plate_slope(v) == old(self).spec_calc().plate_slope(v),
            final(self).spec_miller_effect() == old(self).spec_miller_effect(),
            final(self).spec_model() == old(self).spec_model(),
            final(self).spec_param_cathode() == old(self).spec_param_cathode(),
    {
        let v_c = self.calc.param().v_c;
        let vg = saturating_difference(0, v_c);
        let vp_a = self.calc.vp_a(vg);
        self.offset = vp_a[0];
    }

    /// The output for input `x` at sample rate `rate`: the plate swing from
    /// the offset, through the output filter. The Miller gain becomes one
    /// plus the positive part of the plate slope, for the filters' next sample.
    pub fn saturate(&mut self, rate: i64, x: i64) -> (r: i64)
        requires
            old(self).ready(),
        ensures
            final(self).ready(),
            ({
                let vg = old(self).grid_voltage(rate, x);
                let m = miller_gain(old(self).spec_calc().plate_slope(vg));
                &&& final(self).spec_miller_effect() == m
                &&& r == old(self).output_of(m, rate, clamp(old(self).spec_calc().plate_voltage(vg) - old(self).spec_offset()))
            }),
            ONE <= final(self).spec_miller_effect(),
            final(self).spec_offset() == old(self).spec_offset(),
            final(self).spec_model() == old(self).spec_model(),
    {
        let param = *self.calc.param();
        let vg = self.cathode_filter.vg_cathode(param, self.miller_effect, rate, x);
        let vg = self.input_filter.vg(param, rate, vg);
        let vp_a = self.calc.vp_a(vg);
        let y = saturating_difference(vp_a[0], self.offset);
        self.miller_effect = miller_effect_of(vp_a[1]);
        self.input_filter.update_miller_effect_input(self.miller_effect);
        self.output_filter.update_miller_effect_output(self.miller_effect);
        self.output_filter.y(rate, y)
    }

    /// The Miller-effect gain now in force.
    pub fn miller_effect(&self) -> (r: i64)
        ensures
            r == self.spec_miller_effect(),
    {
        self.miller_effect
    }

    /// The plate voltage at rest.
    pub fn offset(&self) -> (r: i64)
        ensures
            r == self.spec_offset(),
    {
        self.offset
    }
}

/// A stage without filters whose offset is calibrated for its calculator
/// answers silence with silence: input zero reaches the grid as the voltage
/// that cancels the cathode voltage, where the plate sits at the offset.
pub proof fn lemma_silence<M: TubeModel, C: PentodeCalc<M>>(t: Pentode<M, (), (), (), C>, rate: i64)
    requires
        t.spec_offset() == Pentode::<M, (), (), (), C>::rest(t.spec_calc()),
    ensures
        ({
            let vg = t.grid_voltage(rate, 0);
            let m = miller_gain(t.spec_calc().plate_slope(vg));
            t.output_of(m, rate, clamp(t.spec_calc().plate_voltage(vg) - t.spec_offset())) == 0
        }),
{
    let p = t.spec_calc().spec_param();
    assert(quotient(0 * M::spec_r_gi(), M::spec_r_gi() + p.r_i) == 0);
    assert(t.grid_voltage(rate, 0) == clamp(0 - p.v_c));
}

/// A plate-voltage calculator served from a table of a direct one, `func`,
/// over a range of grid voltages.
pub struct PentodeCache<Y: Curve<2>> {
    cache: CacheTable<2, Y>,
}

impl<Y: Curve<2>> PentodeCache<Y> {
    /// The table.
    pub closed spec fn table(&self) -> CacheTable<2, Y> {
        self.cache
    }

    /// A table of `func` over the grid voltages in `range`, with
    /// `resolution` intervals.
    pub fn new(func: Y, range: Range<i64>, resolution: usize) -> (r: Self)
        ensures
            r.table().wf(),
            r.table().is_dirty(),
            same_curve(r.table().wrapped(), func),
            r.table().wrapped() == func.next(r.table().start()).next(r.table().end()),
            r.table().resolution() == if resolution < MAX_RESOLUTION {
                resolution as int
            } else {
                MAX_RESOLUTION as int
            },
            r.table().start() == domain_start(range.start, range.end, r.table().resolution()),
            r.table().end() == domain_end(range.start, range.end, r.table().resolution()),
            range.start <= r.table().start() <= r.table().end() <= request_end(range.start, range.end),
    {
        PentodeCache { cache: CacheTable::new(func, range, resolution) }
    }

    /// As `new`, keeping the table in `storage`, whose contents are dropped.
    pub fn new_in(func: Y, range: Range<i64>, resolution: usize, storage: Vec<[i64; 2]>) -> (r: Self)
        ensures
            r.table().wf(),
            r.table().is_dirty(),
            same_curve(r.table().wrapped(), func),
            r.table().wrapped() == func.next(r.table().start()).next(r.table().end()),
            r.table().resolution() == if resolution < MAX_RESOLUTION {
                resolution as int
            } else {
                MAX_RESOLUTION as int
            },
            r.table().start() == domain_start(range.start, range.end, r.table().resolution()),
            r.table().end() == domain_end(range.start, range.end, r.table().resolution()),
            range.start <= r.table().start() <= r.table().end() <= request_end(range.start, range.end),
    {
        PentodeCache { cache: CacheTable::new_in(func, range, resolution, storage) }
    }
}

impl<M, Y: Curve<2> + PentodeCalc<M>> PentodeCalc<M> for PentodeCache<Y> {
    closed spec fn ready(&self) -> bool {
        self.cache.wf()
    }

    /// The operating point of the direct calculator.
    closed spec fn spec_param(&self) -> PentodeClassA {
        self.cache.wrapped().spec_param()
    }

    /// The table's answer.
    closed spec fn plate_voltage(&self, vg: i64) -> i64 {
        grid_answer(self.cache.wrapped(), self.cache.start(), self.cache.end(), self.cache.resolution(), vg)[0]
    }

    /// The table's answer.
    closed spec fn plate_slope(&self, vg: i64) -> i64 {
        grid_answer(self.cache.wrapped(), self.cache.start(), self.cache.end(), self.cache.resolution(), vg)[1]
    }

    fn param(&self) -> &PentodeClassA {
        self.cache.func().param()
    }

    /// The operating point, for change: the table is filled anew at the next
    /// query.
    fn param_mut(&mut self) -> (r: &mut PentodeClassA)
        ensures
            final(self).table().is_dirty(),
    {
        self.cache.func_mut().param_mut()
    }

    fn vp_a(&mut self, vg: i64) -> (r: [i64; 2])
        ensures
            r@ == grid_answer(
                old(self).table().wrapped(),
                old(self).table().start(),
                old(self).table().end(),
                old(self).table().resolution(),
                vg,
            ),
    {
        let ghost f0 = self.cache.wrapped();
        let r = self.cache.saturate(vg);
        proof {
            assert forall|v: i64| #[trigger]
                grid_answer(self.cache.wrapped(), self.cache.start(), self.cache.end(), self.cache.resolution(), v)
                    == grid_answer(f0, self.cache.start(), self.cache.end(), self.cache.resolution(), v) by {
                lemma_grid_answer_same(self.cache.wrapped(), f0, self.cache.start(), self.cache.end(), self.cache.resolution(), v);
            }
        }
        r
    }
}

} // verus!
