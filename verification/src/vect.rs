//! Two-dimensional vectors: positions and velocities.

use vstd::prelude::*;
use vstd::std_specs::ops::{AddSpec, SubSpec};
use crate::fixed::{clamp, Fixed, ONE};

verus! {

/// Component-wise sum of two vectors, each component stopped at the limit.
pub open spec fn vect_add(a: (int, int), b: (int, int)) -> (int, int) {
    (clamp(a.0 + b.0), clamp(a.1 + b.1))
}

/// Component-wise difference of two vectors, each component stopped at the limit.
pub open spec fn vect_sub(a: (int, int), b: (int, int)) -> (int, int) {
    (clamp(a.0 - b.0), clamp(a.1 - b.1))
}

/// A horizontal and a vertical component. Its view is the pair of their
/// raw units.
#[derive(Clone, Copy, Debug, PartialEq, Eq, Structural)]
pub struct Vect(pub Fixed, pub Fixed);

impl View for Vect {
    type V = (int, int);

    open spec fn view(&self) -> (int, int) {
        (self.0@, self.1@)
    }
}

impl Vect {
    /// The vector of a whole number of pixels along each axis.
    pub fn from_ints(x: i32, y: i32) -> (r: Vect)
        ensures
            r@ == (x * ONE, y * ONE),
    {
        Vect(Fixed::from_int(x), Fixed::from_int(y))
    }
}

impl vstd::std_specs::ops::AddSpecImpl for Vect {
    open spec fn obeys_add_spec() -> bool {
        true
    }

    open spec fn add_req(self, rhs: Vect) -> bool {
        true
    }

    open spec fn add_spec(self, rhs: Vect) -> Vect {
        Vect(AddSpec::add_spec(self.0, rhs.0), AddSpec::add_spec(self.1, rhs.1))
    }
}

impl core::ops::Add for Vect {
    type Output = Vect;

    /// Component-wise sum.
    fn add(self, rhs: Vect) -> (r: Vect)
        ensures
            r@ == vect_add(self@, rhs@),
    {
        let Vect(x1, y1) = self;
        let Vect(x2, y2) = rhs;
        Vect(x1 + x2, y1 + y2)
    }
}

impl vstd::std_specs::ops::SubSpecImpl for Vect {
    open spec fn obeys_sub_spec() -> bool {
        true
    }

    open spec fn sub_req(self, rhs: Vect) -> bool {
        true
    }

    open spec fn sub_spec(self, rhs: Vect) -> Vect {
        Vect(SubSpec::sub_spec(self.0, rhs.0), SubSpec::sub_spec(self.1, rhs.1))
    }
}

impl core::ops::Sub for Vect {
    type Output = Vect;

    /// Component-wise difference.
    fn sub(self, rhs: Vect) -> (r: Vect)
        ensures
            r@ == vect_sub(self@, rhs@),
    {
        let Vect(x1, y1) = self;
        let Vect(x2, y2) = rhs;
        Vect(x1 - x2, y1 - y2)
    }
}

} // verus!
