//! Rational pitch ratios.
//!
//! A ratio is a pair of unsigned integers with no implicit reduction.
//! Ordering is defined by cross-multiplication, never by floating-point
//! division, so the mediant construction stays exact.

use vstd::prelude::*;

verus! {

/// A pitch interval `num / den`, kept unreduced.
#[derive(Clone, Copy, PartialEq, Eq, Structural, Debug)]
pub struct Ratio {
    pub num: u32,
    pub den: u32,
}

/// `a < b` by cross-multiplication: `a.num / a.den < b.num / b.den`.
pub open spec fn ratio_lt(a: Ratio, b: Ratio) -> bool {
    a.num * b.den < b.num * a.den
}

/// The mediant `(a.num + b.num) / (a.den + b.den)`, truncated to `u32`.
/// The tree construction keeps every component small enough that the
/// truncation never loses anything.
pub open spec fn median_spec(a: Ratio, b: Ratio) -> Ratio {
    Ratio { num: (a.num + b.num) as u32, den: (a.den + b.den) as u32 }
}

/// The mediant of two ratios: componentwise sum.
pub fn median(left: Ratio, right: Ratio) -> (r: Ratio)
    requires
        left.num + right.num <= u32::MAX,
        left.den + right.den <= u32::MAX,
    ensures
        r == median_spec(left, right),
        r.num == left.num + right.num,
        r.den == left.den + right.den,
{
    Ratio { num: left.num + right.num, den: left.den + right.den }
}

/// The mediant of two positive ratios lies strictly between them.
pub proof fn lemma_median_between(a: Ratio, b: Ratio)
    requires
        a.den >= 1,
        b.den >= 1,
        a.num + b.num <= u32::MAX,
        a.den + b.den <= u32::MAX,
        ratio_lt(a, b),
    ensures
        ratio_lt(a, median_spec(a, b)),
        ratio_lt(median_spec(a, b), b),
{
    let m = median_spec(a, b);
    assert(m.num == a.num + b.num && m.den == a.den + b.den);
    assert(a.num * (a.den + b.den) < (a.num + b.num) * a.den) by (nonlinear_arith)
        requires
            a.num * b.den < b.num * a.den,
    ;
    assert((a.num + b.num) * b.den < b.num * (a.den + b.den)) by (nonlinear_arith)
        requires
            a.num * b.den < b.num * a.den,
    ;
}

} // verus!
