//! The algebraic sigmoid `x / (1 + |x|)`.
use vstd::prelude::*;

use crate::{Curve, Saturation, SaturationMut, ONE};

verus! {

/// The algebraic sigmoid `x / (1 + |x|)`, in fixed point, rounded toward zero.
pub open spec fn linmoid(x: i64) -> i64 {
    let m: int = if x < 0 { -x } else { x as int };
    let q: int = m * ONE / (ONE + m);
    (if x < 0 { -q } else { q }) as i64
}

/// Saturation by `x / (1 + |x|)`.
#[derive(Clone, Copy, Debug, PartialEq, Eq, Structural, Default)]
pub struct LinMoid;

impl SaturationMut for LinMoid {
    open spec fn ready(&self) -> bool {
        true
    }

    fn saturate_mut(&mut self, x: i64) -> (y: i64)
        ensures
            y == linmoid(x),
    {
        self.saturate(x)
    }
}

impl Saturation for LinMoid {
    fn saturate(&self, x: i64) -> (y: i64)
        ensures
            y == linmoid(x),
            -ONE < y < ONE,
    {
        let m: u128 = if x < 0 {
            (0i128 - x as i128) as u128
        } else {
            x as u128
        };
        assert(m * (ONE as u128) <= 0x8000_0000_0000_0000u128 * 0x1_0000_0000u128) by (nonlinear_arith)
            requires m <= 0x8000_0000_0000_0000u128;
        let q: u128 = m * (ONE as u128) / (ONE as u128 + m);
        assert(q < ONE) by (nonlinear_arith)
            requires q == m * (ONE as u128) / (ONE as u128 + m), m >= 0;
        if x < 0 {
            -(q as i64)
        } else {
            q as i64
        }
    }
}

impl Curve<1> for LinMoid {
    open spec fn curve(&self, x: i64) -> [i64; 1] {
        [linmoid(x)]
    }

    open spec fn next(&self, x: i64) -> LinMoid {
        *self
    }

    fn eval(&mut self, x: i64) -> (y: [i64; 1]) {
        let v = self.saturate(x);
        [v]
    }
}

} // verus!
