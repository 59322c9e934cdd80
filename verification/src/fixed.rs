//! Fixed-point scalars: the numbers every coordinate and velocity is made of.

use vstd::prelude::*;

verus! {

/// Raw units in one pixel: a value carries 24 fractional bits.
pub const ONE: i64 = 16_777_216;

/// Largest magnitude a value can hold, in raw units: two to the 36th pixels.
/// A sum or a difference that would leave `-LIMIT ..= LIMIT` stops at the
/// nearer end.
pub const LIMIT: i64 = 1_152_921_504_606_846_976;

/// The value of `i` brought into `-LIMIT ..= LIMIT`.
pub open spec fn clamp(i: int) -> int {
    if i > LIMIT {
        LIMIT as int
    } else if i < -LIMIT {
        -LIMIT
    } else {
        i
    }
}

/// Integer division that rounds toward zero.
pub open spec fn div_toward_zero(i: int, d: int) -> int
    recommends
        d > 0,
{
    if i >= 0 {
        i / d
    } else {
        -((-i) / d)
    }
}

/// A signed fixed-point number between `-LIMIT` and `LIMIT`. Its view is the
/// number of raw units, `ONE` of which make a pixel.
#[derive(Clone, Copy, Debug, PartialEq, Eq, Structural)]
pub struct Fixed {
    raw: i64,
}

impl View for Fixed {
    type V = int;

    closed spec fn view(&self) -> int {
        self.raw as int
    }
}

impl Fixed {
    #[verifier::type_invariant]
    spec fn in_range(self) -> bool {
        -LIMIT <= self.raw <= LIMIT
    }

    /// The value of `raw` units, stopped at the limit.
    pub fn from_raw(raw: i64) -> (r: Fixed)
        ensures
            r@ == clamp(raw as int),
    {
        if raw > LIMIT {
            Fixed { raw: LIMIT }
        } else if raw < -LIMIT {
            Fixed { raw: -LIMIT }
        } else {
            Fixed { raw }
        }
    }

    /// A whole number of pixels.
    pub fn from_int(pixels: i32) -> (r: Fixed)
        ensures
            r@ == pixels * ONE,
    {
        let wide: i64 = pixels as i64;
        assert(-0x8000_0000 * ONE <= wide * ONE <= 0x8000_0000 * ONE) by (nonlinear_arith)
            requires
                -0x8000_0000 <= wide <= 0x8000_0000,
                ONE > 0,
        ;
        Fixed { raw: wide * ONE }
    }

    /// The number of raw units, always within the limit.
    pub fn raw(self) -> (r: i64)
        ensures
            r == self@,
            -LIMIT <= r <= LIMIT,
    {
        proof {
            use_type_invariant(&self);
        }
        self.raw
    }

    /// Half of the value, rounded toward zero.
    pub fn half(self) -> (r: Fixed)
        ensures
            r@ == div_toward_zero(self@, 2),
    {
        proof {
            use_type_invariant(&self);
        }
        Fixed { raw: self.raw / 2 }
    }
}

/// Two values with the same number of raw units are the same value.
pub proof fn lemma_view_injective(a: Fixed, b: Fixed)
    ensures
        a@ == b@ <==> a == b,
{
}

impl vstd::std_specs::ops::AddSpecImpl for Fixed {
    open spec fn obeys_add_spec() -> bool {
        true
    }

    open spec fn add_req(self, rhs: Fixed) -> bool {
        true
    }

    closed spec fn add_spec(self, rhs: Fixed) -> Fixed {
        Fixed { raw: clamp(self.raw + rhs.raw) as i64 }
    }
}

impl core::ops::Add for Fixed {
    type Output = Fixed;

    /// Sum, stopped at the limit.
    fn add(self, rhs: Fixed) -> (r: Fixed)
        ensures
            r@ == clamp(self@ + rhs@),
    {
        proof {
            use_type_invariant(&self);
            use_type_invariant(&rhs);
        }
        Fixed::from_raw(self.raw + rhs.raw)
    }
}

impl vstd::std_specs::ops::SubSpecImpl for Fixed {
    open spec fn obeys_sub_spec() -> bool {
        true
    }

    open spec fn sub_req(self, rhs: Fixed) -> bool {
        true
    }

    closed spec fn sub_spec(self, rhs: Fixed) -> Fixed {
        Fixed { raw: clamp(self.raw - rhs.raw) as i64 }
    }
}

impl core::ops::Sub for Fixed {
    type Output = Fixed;

    /// Difference, stopped at the limit.
    fn sub(self, rhs: Fixed) -> (r: Fixed)
        ensures
            r@ == clamp(self@ - rhs@),
    {
        proof {
            use_type_invariant(&self);
            use_type_invariant(&rhs);
        }
        Fixed::from_raw(self.raw - rhs.raw)
    }
}

impl vstd::std_specs::ops::NegSpecImpl for Fixed {
    open spec fn obeys_neg_spec() -> bool {
        true
    }

    open spec fn neg_req(self) -> bool {
        true
    }

    closed spec fn neg_spec(self) -> Fixed {
        Fixed { raw: (-self.raw) as i64 }
    }
}

impl core::ops::Neg for Fixed {
    type Output = Fixed;

    /// The value with its sign inverted; always exact.
    fn neg(self) -> (r: Fixed)
        ensures
            r@ == -self@,
    {
        proof {
            use_type_invariant(&self);
        }
        Fixed { raw: -self.raw }
    }
}

} // verus!
