//! The DPI scale: the multiplier that turns logical pixels into native ones.

use vstd::prelude::*;

verus! {

/// The raw value that stands for a scale of exactly one.
pub const UNIT: u32 = 0x1_0000;

/// A non-negative scale factor in 16.16 fixed point: the factor is
/// `raw / 65536`.
#[derive(Clone, Copy, Debug, PartialEq, Eq, Structural)]
pub struct DpiScale {
    pub raw: u32,
}

/// `product / 65536`, rounded toward zero.
pub open spec fn truncated(product: int) -> int {
    if product >= 0 {
        product / (UNIT as int)
    } else {
        -((-product) / (UNIT as int))
    }
}

/// `value` brought into the range of `i32`.
pub open spec fn clamped(value: int) -> int {
    if value < i32::MIN {
        i32::MIN as int
    } else if value > i32::MAX {
        i32::MAX as int
    } else {
        value
    }
}

impl DpiScale {
    pub open spec fn spec_one() -> DpiScale {
        DpiScale { raw: UNIT }
    }

    /// The scale that leaves every length as it is.
    #[verifier::when_used_as_spec(spec_one)]
    pub fn one() -> (scale: DpiScale)
        ensures
            scale == Self::spec_one(),
    {
        DpiScale { raw: UNIT }
    }

    /// The scale `raw / 65536`.
    pub fn from_raw(raw: u32) -> (scale: DpiScale)
        ensures
            scale.raw == raw,
    {
        DpiScale { raw }
    }

    /// The native length of `value` logical pixels: the product with the
    /// factor, rounded toward zero, and kept within `i32`.
    pub open spec fn scaled(&self, value: int) -> int {
        clamped(truncated(value * self.raw))
    }

    /// The native length of `value` logical pixels.
    pub fn apply(&self, value: i64) -> (native: i32)
        ensures
            native == self.scaled(value as int),
    {
        let raw: u128 = self.raw as u128;
        if value >= 0 {
            let magnitude: u128 = value as u128;
            assert(magnitude * raw <= 0x8000_0000_0000_0000 * 0x1_0000_0000) by (nonlinear_arith)
                requires
                    magnitude <= 0x8000_0000_0000_0000,
                    raw <= 0x1_0000_0000,
            ;
            assert(magnitude * raw == value * self.raw) by (nonlinear_arith)
                requires
                    magnitude == value,
                    raw == self.raw,
            ;
            let quotient: u128 = (magnitude * raw) / 0x1_0000;
            if quotient > 0x7FFF_FFFF {
                i32::MAX
            } else {
                quotient as i32
            }
        } else {
            let magnitude: u128 = (-(value as i128)) as u128;
            assert(magnitude * raw <= 0x8000_0000_0000_0000 * 0x1_0000_0000) by (nonlinear_arith)
                requires
                    magnitude <= 0x8000_0000_0000_0000,
                    raw <= 0x1_0000_0000,
            ;
            assert(magnitude * raw == -(value * self.raw)) by (nonlinear_arith)
                requires
                    magnitude == -value,
                    raw == self.raw,
            ;
            assert(value * self.raw <= 0) by (nonlinear_arith)
                requires
                    value < 0,
                    self.raw >= 0,
            ;
            let quotient: u128 = (magnitude * raw) / 0x1_0000;
            if quotient > 0x8000_0000 {
                i32::MIN
            } else {
                (-(quotient as i64)) as i32
            }
        }
    }
}

/// A scale of one changes no length that fits the native integer.
pub proof fn lemma_unit_scale(value: int)
    requires
        i32::MIN <= value <= i32::MAX,
    ensures
        DpiScale::spec_one().scaled(value) == value,
{
}

/// A scale of two doubles a length, as long as the double fits the native
/// integer.
pub proof fn lemma_double_scale(value: int)
    requires
        i32::MIN <= 2 * value <= i32::MAX,
    ensures
        (DpiScale { raw: 0x2_0000 }).scaled(value) == 2 * value,
{
}

} // verus!
