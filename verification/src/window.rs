//! The Hamming taper that scales every tap beside the centre.
//!
//! A tap at distance `offset` from the centre of a kernel of half-width `h` is
//! scaled by `a + b * cos(pi * offset / (h + 1))`, where `a` and `b` are the two
//! coefficients below. They are kept as exact decimal fractions.

use vstd::prelude::*;

verus! {

/// Denominator of the two window coefficients.
pub const WINDOW_SCALE: u32 = 100_000;

/// Numerator of the constant term of the window.
pub const WINDOW_BASE: u32 = 53_836;

/// Numerator of the cosine term of the window.
pub const WINDOW_SWING: u32 = 46_164;

/// The window's weight where the cosine of the tap's angle is `c`.
pub open spec fn weight(c: real) -> real {
    (WINDOW_BASE as real + WINDOW_SWING as real * c) / (WINDOW_SCALE as real)
}

/// The window is a positive scalar, at most one: whatever the angle, its cosine
/// lies between -1 and 1, and the constant term outweighs the cosine term.
pub proof fn lemma_weight_positive(c: real)
    requires
        -1real <= c <= 1real,
    ensures
        0real < weight(c) <= 1real,
{
    let t = WINDOW_BASE as real + WINDOW_SWING as real * c;
    assert(t == 53836real + 46164real * c);
    assert(0real < t / 100000real <= 1real) by (nonlinear_arith)
        requires 0real < t <= 100000real;
}

/// At the centre, where the angle is zero and its cosine one, the weight is one.
pub proof fn lemma_weight_at_center()
    ensures
        weight(1real) == 1real,
{
    let t = WINDOW_BASE as real + WINDOW_SWING as real * 1real;
    assert(t == 100000real);
    assert(t / 100000real == 1real) by (nonlinear_arith)
        requires t == 100000real;
}

/// Scaling by the window keeps the sign of a value.
pub proof fn lemma_weight_keeps_sign(v: real, c: real)
    requires
        -1real <= c <= 1real,
    ensures
        v > 0real <==> v * weight(c) > 0real,
        v < 0real <==> v * weight(c) < 0real,
        v == 0real <==> v * weight(c) == 0real,
{
    lemma_weight_positive(c);
    let w = weight(c);
    assert(v > 0real ==> v * w > 0real) by (nonlinear_arith)
        requires w > 0real;
    assert(v < 0real ==> v * w < 0real) by (nonlinear_arith)
        requires w > 0real;
    assert(v == 0real ==> v * w == 0real) by (nonlinear_arith);
}

} // verus!
