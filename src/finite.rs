use vstd::prelude::*;

use crate::is_finite;

verus! {

/// A value that is known to be finite, usable as an ordered key: keys are
/// ordered as the values they hold.
#[derive(Clone, Copy, Debug, PartialEq, Eq, Structural, Ord)]
pub struct Finite {
    value: i64,
}

impl Finite {
    /// The value held.
    pub closed spec fn view(&self) -> i64 {
        self.value
    }

    #[verifier::type_invariant]
    spec fn inv(&self) -> bool {
        is_finite(self.value)
    }

    /// A key holding `value`, or `None` where `value` is one of the infinities.
    pub fn new(value: i64) -> (r: Option<Finite>)
        ensures
            r is Some <==> is_finite(value),
            r matches Some(k) ==> k@ == value,
    {
        if is_finite_value(value) {
            Some(Finite { value })
        } else {
            None
        }
    }

    /// The value held.
    pub fn get(&self) -> (r: i64)
        ensures
            r == self@,
            is_finite(r),
    {
        proof {
            use_type_invariant(self);
        }
        self.value
    }
}

/// The order of two values.
pub open spec fn order(a: i64, b: i64) -> core::cmp::Ordering {
    if a < b {
        core::cmp::Ordering::Less
    } else if a > b {
        core::cmp::Ordering::Greater
    } else {
        core::cmp::Ordering::Equal
    }
}

impl PartialOrd for Finite {
    fn partial_cmp(&self, other: &Finite) -> (r: Option<core::cmp::Ordering>) {
        if self.value < other.value {
            Some(core::cmp::Ordering::Less)
        } else if self.value > other.value {
            Some(core::cmp::Ordering::Greater)
        } else {
            Some(core::cmp::Ordering::Equal)
        }
    }
}

impl vstd::std_specs::cmp::PartialOrdSpecImpl for Finite {
    open spec fn obeys_partial_cmp_spec() -> bool {
        true
    }

    open spec fn partial_cmp_spec(&self, other: &Finite) -> Option<core::cmp::Ordering> {
        Some(order(self@, other@))
    }
}

/// Whether `x` is finite.
pub fn is_finite_value(x: i64) -> (r: bool)
    ensures
        r == is_finite(x),
{
    crate::NEG_INFINITY < x && x < crate::INFINITY
}

} // verus!
