//! Diode models, named by type. Their constants, which are floating-point,
//! belong with the diode solvers.
use vstd::prelude::*;

verus! {

/// The 1N4148 small-signal diode.
#[derive(Clone, Copy, Debug, PartialEq, Eq, Structural, Default)]
pub struct Diode1N4148;

/// The 1N914 small-signal diode.
#[derive(Clone, Copy, Debug, PartialEq, Eq, Structural, Default)]
pub struct Diode1N914;

/// The 1N4001 rectifier diode.
#[derive(Clone, Copy, Debug, PartialEq, Eq, Structural, Default)]
pub struct Diode1N4001;

/// The 1N34A germanium diode.
#[derive(Clone, Copy, Debug, PartialEq, Eq, Structural, Default)]
pub struct Diode1N34A;

} // verus!
