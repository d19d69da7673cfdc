//! Exact screen geometry: fractions with integer numerator and denominator,
//! and the screen size in pixels.
//!
//! Every layout formula of the visualizer is a rational function of integer
//! pixel sizes, so draw primitives carry their coordinates as exact
//! fractions.  Only a rendering shell outside this library turns them into
//! floating-point vertex positions.

use vstd::prelude::*;

verus! {

/// An exact fraction `num / den` of two machine integers.
///
/// The type itself carries no invariant; wherever a coordinate is
/// guaranteed meaningful, contracts state `frac_is(f, n, d)`, which
/// includes `f.den > 0`.
#[derive(Clone, Copy, PartialEq, Eq, Structural, Debug)]
pub struct Frac {
    pub num: i64,
    pub den: i64,
}

/// `f` is a well-formed fraction equal to the rational `n / d`.
pub open spec fn frac_is(f: Frac, n: int, d: int) -> bool {
    &&& d > 0
    &&& f.den > 0
    &&& f.num * d == n * f.den
}

/// Screen size in whole pixels, as delivered by resize events.
#[derive(Clone, Copy, PartialEq, Eq, Structural, Debug)]
pub struct ScreenSize {
    pub w: u32,
    pub h: u32,
}

/// Products of nonnegative numbers are bounded by the products of their bounds.
pub proof fn lemma_mul_le(a: int, b: int, ca: int, cb: int)
    requires
        0 <= a <= ca,
        0 <= b <= cb,
    ensures
        0 <= a * b <= ca * cb,
{
    assert(0 <= a * b <= ca * cb) by (nonlinear_arith)
        requires
            0 <= a <= ca,
            0 <= b <= cb,
    ;
}

} // verus!
