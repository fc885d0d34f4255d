//! Memoizing, interpolating caches for expensive transfer curves, and the
//! tube stages that run on them.
//!
//! Values are fixed-point numbers held in `i64`: `ONE` stands for one, and
//! the two extremes `NEG_INFINITY` and `INFINITY` stand for the infinities.
use vstd::prelude::*;

pub mod finite;
pub mod interp;
pub mod cache_tree;
pub mod cache_table;
pub mod triode;
pub mod pentode;
pub mod linmoid;
pub mod curves;
pub mod tubes;
pub mod diodes;
pub mod jfets;

pub use cache_table::CacheTable;
pub use cache_tree::CacheTree;
pub use curves::{ATanMoid, ErfMoid, PythMoid, SinHATanMoid, SoftExp, TanH};
pub use finite::Finite;
pub use linmoid::LinMoid;
pub use pentode::{
    Pentode, PentodeCache, PentodeCalc, PentodeCathodeFilter, PentodeClassA, PentodeFilter,
};
pub use triode::{Triode, TriodeCache, TriodeCalc, TriodeCathodeFilter, TriodeClassA, TriodeFilter};


verus! {

/// Fixed-point value of one.
pub const ONE: i64 = 4294967296;

/// The value that stands for negative infinity.
pub const NEG_INFINITY: i64 = -9223372036854775808;

/// The value that stands for positive infinity.
pub const INFINITY: i64 = 9223372036854775807;

/// Whether `x` is a finite value, that is neither of the two infinities.
pub open spec fn is_finite(x: i64) -> bool {
    NEG_INFINITY < x < INFINITY
}

/// A function that a cache wraps: `N` outputs for each input.
///
/// An implementation may keep state between calls (a solver's last root, say),
/// but the outputs it gives for an input do not change while it is called.
/// Its state after each call is modelled, so that callers can say exactly
/// which calls they make.
pub trait Curve<const N: usize>: Sized {
    /// The outputs of the function at `x`.
    spec fn curve(&self, x: i64) -> [i64; N];

    /// The function's state after one call at `x`.
    spec fn next(&self, x: i64) -> Self;

    /// Evaluates the function at `x`.
    fn eval(&mut self, x: i64) -> (y: [i64; N])
        ensures
            y == old(self).curve(x),
            *final(self) == old(self).next(x),
            forall|z: i64| #[trigger] final(self).curve(z) == old(self).curve(z),
    ;
}

/// Whether two functions give the same outputs everywhere.
pub open spec fn same_curve<const N: usize, Y: Curve<N>>(a: Y, b: Y) -> bool {
    forall|x: i64| #[trigger] a.curve(x) == b.curve(x)
}

/// A saturating curve that may change its state when applied.
pub trait SaturationMut {
    /// Whether the curve's own invariant holds.
    spec fn ready(&self) -> bool;

    fn saturate_mut(&mut self, x: i64) -> (y: i64)
        requires
            old(self).ready(),
        ensures
            final(self).ready(),
    ;
}

/// A saturating curve that is applied without changing.
pub trait Saturation: SaturationMut {
    fn saturate(&self, x: i64) -> (y: i64)
        requires
            self.ready(),
    ;
}

} // verus!

verus! {

/// `v` held in a value, the infinities where it lies beyond them.
pub open spec fn clamp(v: int) -> i64 {
    if v < NEG_INFINITY {
        NEG_INFINITY
    } else if v > INFINITY {
        INFINITY
    } else {
        v as i64
    }
}

/// `a + b`, held at the infinities where it reaches beyond them.
pub fn saturating_sum(a: i64, b: i64) -> (r: i64)
    ensures
        r == clamp(a + b),
{
    let v: i128 = a as i128 + b as i128;
    if v < NEG_INFINITY as i128 {
        NEG_INFINITY
    } else if v > INFINITY as i128 {
        INFINITY
    } else {
        v as i64
    }
}

/// `a - b`, held at the infinities where it reaches beyond them.
pub fn saturating_difference(a: i64, b: i64) -> (r: i64)
    ensures
        r == clamp(a - b),
{
    let v: i128 = a as i128 - b as i128;
    if v < NEG_INFINITY as i128 {
        NEG_INFINITY
    } else if v > INFINITY as i128 {
        INFINITY
    } else {
        v as i64
    }
}

} // verus!
