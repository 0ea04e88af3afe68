//! The impulse response of the analytic filter, tap by tap.

use vstd::prelude::*;
use crate::shape::{center, check_shape, shape_verdict, valid_shape, ShapeError};
use crate::tap::Tap;
use crate::window::{lemma_weight_keeps_sign, weight};

verus! {

/// The tap at distance `offset` from the centre of a kernel of the given
/// half-width: a notch tap at an even distance, a quadrature tap at an odd one.
pub open spec fn side_tap(half_width: usize, offset: usize, leading: bool) -> Tap {
    if offset % 2 == 0 {
        Tap::Notch { offset, half_width }
    } else {
        Tap::Quadrature { offset, half_width, leading }
    }
}

/// The tap at index `j` of a kernel whose centre has index `mid`: the centre
/// in the middle, `mid` side taps on either side of it, padding elsewhere.
pub open spec fn tap_about(mid: usize, j: int) -> Tap {
    if j == mid {
        Tap::Center
    } else if mid < j <= mid + mid {
        side_tap(mid, (j - mid) as usize, true)
    } else if 0 <= j < mid {
        side_tap(mid, (mid - j) as usize, false)
    } else {
        Tap::Zero
    }
}

/// The tap at index `j` of an `n`-tap kernel.
pub open spec fn tap_at(n: usize, j: int) -> Tap {
    tap_about(center(n as int) as usize, j)
}

/// The impulse response of an `n`-tap kernel, padded to `m` samples.
pub open spec fn impulse(n: usize, m: usize) -> Seq<Tap> {
    Seq::new(m as nat, |j: int| tap_at(n, j))
}

fn make_side_tap(half_width: usize, offset: usize, leading: bool) -> (tap: Tap)
    ensures
        tap == side_tap(half_width, offset, leading),
{
    if offset % 2 == 0 {
        Tap::Notch { offset, half_width }
    } else {
        Tap::Quadrature { offset, half_width, leading }
    }
}

/// Lays out the impulse response of an `n`-tap analytic filter in a buffer of
/// `m` samples.
pub fn impulse_response(n: usize, m: usize) -> (taps: Vec<Tap>)
    requires
        valid_shape(n as int, m as int),
    ensures
        taps@ == impulse(n, m),
        taps.len() == m,
        forall|j: int| 0 <= j < m ==> (#[trigger] taps@[j]).wf(),
        forall|j: int| n <= j < m ==> #[trigger] taps@[j] == Tap::Zero,
{
    let mid: usize = (n - 1) / 2;
    let mut taps: Vec<Tap> = vec![Tap::Zero; m];
    taps.set(mid, Tap::Center);
    let mut i: usize = 1;
    while i <= mid
        invariant
            mid + mid < m,
            1 <= i <= mid + 1,
            taps.len() == m,
            forall|j: int|
                0 <= j < m ==> #[trigger] taps@[j] == if mid - i < j < mid + i {
                    tap_about(mid, j)
                } else {
                    Tap::Zero
                },
        decreases mid + 1 - i,
    {
        taps.set(mid + i, make_side_tap(mid, i, true));
        taps.set(mid - i, make_side_tap(mid, i, false));
        i += 1;
    }
    assert(taps@ =~= impulse(n, m));
    proof {
        assert forall|j: int| 0 <= j < m implies (#[trigger] taps@[j]).wf() by {
            lemma_taps_wf(n, m, j);
        }
    }
    taps
}

/// Tests the dimensions, and lays out the impulse response where they allow it.
pub fn checked_impulse_response(n: usize, m: usize) -> (r: Result<Vec<Tap>, ShapeError>)
    ensures
        match r {
            Ok(taps) => valid_shape(n as int, m as int) && taps@ == impulse(n, m),
            Err(e) => shape_verdict(n as int, m as int) == Err::<(), ShapeError>(e),
        },
        r is Ok <==> valid_shape(n as int, m as int),
{
    match check_shape(n, m) {
        Ok(()) => Ok(impulse_response(n, m)),
        Err(e) => Err(e),
    }
}

/// Every sample of the response holds a tap whose formula is defined.
pub proof fn lemma_taps_wf(n: usize, m: usize, j: int)
    requires
        valid_shape(n as int, m as int),
        0 <= j < m,
    ensures
        impulse(n, m)[j].wf(),
{
}

/// The response has one sample for each sample of the transform, and the
/// centre tap sits at index `(n - 1) / 2`.
pub proof fn lemma_impulse_len(n: usize, m: usize)
    requires
        valid_shape(n as int, m as int),
    ensures
        impulse(n, m).len() == m,
        impulse(n, m)[center(n as int)] == Tap::Center,
{
}

/// Zero padding: the response is zero from index `n` on, that is outside the
/// `n` samples around the centre, and holds a tap other than zero inside them.
pub proof fn lemma_zero_padding(n: usize, m: usize, j: int)
    requires
        valid_shape(n as int, m as int),
        0 <= j < m,
    ensures
        j >= n <==> impulse(n, m)[j] == Tap::Zero,
        j >= n ==> impulse(n, m)[j].re() == 0real && impulse(n, m)[j].im_pi() == 0real,
{
}

/// Symmetry: the tap `i` samples before the centre is the complex conjugate of
/// the tap `i` samples after it. At an odd distance both are imaginary and
/// opposite, the one after the centre positive; at an even distance both are
/// real, equal and negative. The window has the same angle at both, strictly
/// inside a half turn, so that it scales both by the same positive weight.
pub proof fn lemma_mirror(n: usize, m: usize, i: int)
    requires
        valid_shape(n as int, m as int),
        1 <= i <= center(n as int),
    ensures
        ({
            let after = impulse(n, m)[center(n as int) + i];
            let before = impulse(n, m)[center(n as int) - i];
            &&& before == after.conj()
            &&& after.wf() && before.wf()
            &&& after.re() == before.re()
            &&& after.im_pi() == -before.im_pi()
            &&& after.turn() == before.turn()
            &&& 0real < after.turn() < 1real
            &&& i % 2 == 1 ==> after is Quadrature && after.re() == 0real && after.im_pi()
                > 0real
            &&& i % 2 == 0 ==> after is Notch && after.re() < 0real && after.im_pi() == 0real
        }),
{
    let after = impulse(n, m)[center(n as int) + i];
    after.lemma_wf_value();
}

/// The window keeps the symmetry and the signs. Both taps at distance `i` from
/// the centre have the same window angle; whatever its cosine `c` is, the
/// scaled imaginary parts are opposite and the scaled real parts equal, and
/// each has the sign it had before the window.
pub proof fn lemma_mirror_windowed(n: usize, m: usize, i: int, c: real)
    requires
        valid_shape(n as int, m as int),
        1 <= i <= center(n as int),
        -1real <= c <= 1real,
    ensures
        ({
            let after = impulse(n, m)[center(n as int) + i];
            let before = impulse(n, m)[center(n as int) - i];
            &&& after.scaled_re(c) == before.scaled_re(c)
            &&& after.scaled_im_pi(c) == -before.scaled_im_pi(c)
            &&& i % 2 == 1 ==> after.scaled_re(c) == 0real && after.scaled_im_pi(c) > 0real
            &&& i % 2 == 0 ==> after.scaled_re(c) < 0real && after.scaled_im_pi(c) == 0real
        }),
{
    let after = impulse(n, m)[center(n as int) + i];
    let before = impulse(n, m)[center(n as int) - i];
    lemma_mirror(n, m, i);
    lemma_weight_keeps_sign(after.re(), c);
    lemma_weight_keeps_sign(after.im_pi(), c);
    let w = weight(c);
    let y = before.im_pi();
    assert((-y) * w == -(y * w)) by (nonlinear_arith);
}

} // verus!
