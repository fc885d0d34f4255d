//! Vacuum tube models, named by type, with the one constant that the
//! stages' own grid divider needs. Their other constants, which are
//! floating-point, belong with the plate-current solvers.
use vstd::prelude::*;

use crate::{clamp, INFINITY, NEG_INFINITY};

verus! {

/// A tube type's grid resistance.
pub trait TubeModel {
    /// The internal grid resistance, in fixed-point ohms (`ONE` is one ohm).
    spec fn spec_r_gi() -> i64;

    fn r_gi() -> (r: i64)
        ensures
            r == Self::spec_r_gi(),
    ;
}

/// `a / b` rounded toward zero; for `b` zero, the infinity of the sign of
/// `a`, or zero.
pub open spec fn quotient(a: int, b: int) -> int {
    if b == 0 {
        if a > 0 {
            INFINITY as int
        } else if a < 0 {
            NEG_INFINITY as int
        } else {
            0
        }
    } else {
        let q = (if a < 0 { -a } else { a }) / (if b < 0 { -b } else { b });
        if (a < 0) != (b < 0) {
            -q
        } else {
            q
        }
    }
}

/// The grid voltage for input `x` through the divider of the input resistor
/// `r_i` and the grid resistance `r_gi`, less the cathode voltage `v_c`.
pub open spec fn divided_grid(x: i64, r_gi: i64, r_i: i64, v_c: i64) -> i64 {
    clamp(quotient(x * r_gi, r_gi + r_i) - v_c)
}

/// The grid voltage for input `x` through the divider of `r_i` and `r_gi`,
/// less `v_c`.
pub fn divide_grid(x: i64, r_gi: i64, r_i: i64, v_c: i64) -> (r: i64)
    ensures
        r == divided_grid(x, r_gi, r_i, v_c),
{
    assert(-0x4000_0000_0000_0000_0000_0000_0000_0000 <= (x as int) * (r_gi as int) <= 0x4000_0000_0000_0000_0000_0000_0000_0000) by (nonlinear_arith)
        requires
            -0x8000_0000_0000_0000 <= x <= 0x8000_0000_0000_0000,
            -0x8000_0000_0000_0000 <= r_gi <= 0x8000_0000_0000_0000;
    let num: i128 = x as i128 * r_gi as i128;
    let den: i128 = r_gi as i128 + r_i as i128;
    let q: i128 = if den == 0 {
        if num > 0 {
            INFINITY as i128
        } else if num < 0 {
            NEG_INFINITY as i128
        } else {
            0
        }
    } else {
        let a: u128 = if num < 0 {
            (0 - num) as u128
        } else {
            num as u128
        };
        let b: u128 = if den < 0 {
            (0 - den) as u128
        } else {
            den as u128
        };
        let m: u128 = a / b;
        assert(m <= a) by (nonlinear_arith)
            requires m == a / b, b > 0;
        assert(m <= 0x4000_0000_0000_0000_0000_0000_0000_0000);
        if (num < 0) != (den < 0) {
            0 - m as i128
        } else {
            m as i128
        }
    };
    let v: i128 = q - v_c as i128;
    if v < NEG_INFINITY as i128 {
        NEG_INFINITY
    } else if v > INFINITY as i128 {
        INFINITY
    } else {
        v as i64
    }
}

/// The 6DJ8 triode.
#[derive(Clone, Copy, Debug, PartialEq, Eq, Structural, Default)]
pub struct Tube6DJ8;

impl TubeModel for Tube6DJ8 {
    open spec fn spec_r_gi() -> i64 {
        8589934592000
    }

    fn r_gi() -> i64 {
        8589934592000
    }
}

/// The 12AX7 triode.
#[derive(Clone, Copy, Debug, PartialEq, Eq, Structural, Default)]
pub struct Tube12AX7;

impl TubeModel for Tube12AX7 {
    open spec fn spec_r_gi() -> i64 {
        4294967296000
    }

    fn r_gi() -> i64 {
        4294967296000
    }
}

/// The 12AU7 triode.
#[derive(Clone, Copy, Debug, PartialEq, Eq, Structural, Default)]
pub struct Tube12AU7;

impl TubeModel for Tube12AU7 {
    open spec fn spec_r_gi() -> i64 {
        8589934592000
    }

    fn r_gi() -> i64 {
        8589934592000
    }
}

/// The 6L6CG pentode.
#[derive(Clone, Copy, Debug, PartialEq, Eq, Structural, Default)]
pub struct Tube6L6CG;

impl TubeModel for Tube6L6CG {
    open spec fn spec_r_gi() -> i64 {
        8589934592000
    }

    fn r_gi() -> i64 {
        8589934592000
    }
}

/// The 6550 pentode.
#[derive(Clone, Copy, Debug, PartialEq, Eq, Structural, Default)]
pub struct Tube6550;

impl TubeModel for Tube6550 {
    open spec fn spec_r_gi() -> i64 {
        4294967296000
    }

    fn r_gi() -> i64 {
        4294967296000
    }
}

/// The KT88 pentode.
#[derive(Clone, Copy, Debug, PartialEq, Eq, Structural, Default)]
pub struct TubeKT88;

impl TubeModel for TubeKT88 {
    open spec fn spec_r_gi() -> i64 {
        4294967296000
    }

    fn r_gi() -> i64 {
        4294967296000
    }
}

} // verus!
