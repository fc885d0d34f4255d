//! JFET models, named by type. Their constants, which are floating-point,
//! belong with the buffer solver.
use vstd::prelude::*;

verus! {

/// The 2N5458 n-channel JFET.
#[derive(Clone, Copy, Debug, PartialEq, Eq, Structural, Default)]
pub struct JFET2N5458;

} // verus!
