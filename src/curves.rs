//! Saturation curves whose evaluation needs floating point, and is done
//! outside the verified part of the crate: here they are named only.
use vstd::prelude::*;

verus! {

/// Saturation by the arctangent, `2/π · atan(π/2 · x)`.
#[derive(Clone, Copy, Debug, PartialEq, Eq, Structural, Default)]
pub struct ATanMoid;

/// Saturation by the error function, `erf(√π/2 · x)`.
#[derive(Clone, Copy, Debug, PartialEq, Eq, Structural, Default)]
pub struct ErfMoid;

/// Saturation by `x / √(1 + x²)`.
#[derive(Clone, Copy, Debug, PartialEq, Eq, Structural, Default)]
pub struct PythMoid;

/// Saturation by the arctangent of `ATanMoid`.
#[derive(Clone, Copy, Debug, PartialEq, Eq, Structural, Default)]
pub struct SinHATanMoid;

/// Soft clipping with exponential knees against a range's bounds.
#[derive(Clone, Copy, Debug, PartialEq, Eq, Structural, Default)]
pub struct SoftExp;

/// Saturation by the hyperbolic tangent.
#[derive(Clone, Copy, Debug, PartialEq, Eq, Structural, Default)]
pub struct TanH;

} // verus!
