//! One sample of the impulse response, kept as the formula it stands for.

use vstd::prelude::*;
use crate::window::weight;

verus! {

/// What one sample of the impulse response holds.
///
/// A tap beside the centre is named by its distance `offset` from the centre
/// and by the kernel's `half_width`, the number of taps on either side of the
/// centre. Both kinds of such taps are scaled by the window, whose angle is
/// `pi * offset / (half_width + 1)`.
#[derive(Clone, Copy, Debug, PartialEq, Eq, Structural)]
pub enum Tap {
    /// Padding: zero.
    Zero,
    /// The centre: one, which passes the signal through.
    Center,
    /// A real tap at an even distance, `-1 / (half_width - 1)` before the
    /// window. These taps cancel DC and the Nyquist component.
    Notch { offset: usize, half_width: usize },
    /// An imaginary tap at an odd distance, `2 / (pi * offset)` before the
    /// window where it follows the centre (`leading`), and the negative of that
    /// where it precedes the centre. These taps shift the phase by a quarter
    /// turn.
    Quadrature { offset: usize, half_width: usize, leading: bool },
}

impl Tap {
    /// The tap's formula is defined: no divisor is zero, `half_width + 1` fits
    /// a machine word, the tap lies within the kernel, and its kind agrees with
    /// the parity of its distance.
    pub open spec fn wf(self) -> bool {
        match self {
            Tap::Zero => true,
            Tap::Center => true,
            Tap::Notch { offset, half_width } => {
                &&& offset % 2 == 0
                &&& 2 <= offset <= half_width
                &&& half_width < usize::MAX
            },
            Tap::Quadrature { offset, half_width, leading } => {
                &&& offset % 2 == 1
                &&& offset <= half_width
                &&& half_width < usize::MAX
            },
        }
    }

    /// Whether the window scales this tap.
    pub open spec fn windowed(self) -> bool {
        self is Notch || self is Quadrature
    }

    /// Real part, before the window.
    pub open spec fn re(self) -> real {
        match self {
            Tap::Center => 1real,
            Tap::Notch { offset, half_width } => -(1real / ((half_width - 1) as real)),
            _ => 0real,
        }
    }

    /// Imaginary part times pi, before the window.
    pub open spec fn im_pi(self) -> real {
        match self {
            Tap::Quadrature { offset, half_width, leading } => if leading {
                2real / (offset as real)
            } else {
                -(2real / (offset as real))
            },
            _ => 0real,
        }
    }

    /// The angle of the window at this tap, as a fraction of a half turn; zero
    /// where no window applies.
    pub open spec fn turn(self) -> real {
        match self {
            Tap::Notch { offset, half_width } => (offset as real) / ((half_width + 1) as real),
            Tap::Quadrature { offset, half_width, leading } => (offset as real) / ((half_width + 1) as real),
            _ => 0real,
        }
    }

    /// Real part after the window, where the cosine of the window's angle is `c`.
    pub open spec fn scaled_re(self, c: real) -> real {
        if self.windowed() {
            self.re() * weight(c)
        } else {
            self.re()
        }
    }

    /// Imaginary part times pi after the window, where the cosine of the
    /// window's angle is `c`.
    pub open spec fn scaled_im_pi(self, c: real) -> real {
        if self.windowed() {
            self.im_pi() * weight(c)
        } else {
            self.im_pi()
        }
    }

    /// The complex conjugate: the same real part, the opposite imaginary part.
    pub open spec fn conj(self) -> Tap {
        match self {
            Tap::Quadrature { offset, half_width, leading } => Tap::Quadrature {
                offset,
                half_width,
                leading: !leading,
            },
            _ => self,
        }
    }

    /// A well-formed notch tap is real and negative, a well-formed quadrature
    /// tap is imaginary with the sign of its side, and the window's angle at
    /// either lies strictly inside a half turn.
    pub proof fn lemma_wf_value(self)
        requires
            self.wf(),
        ensures
            self is Notch ==> self.re() < 0real && self.im_pi() == 0real,
            self is Quadrature ==> self.re() == 0real && (self.im_pi() > 0real
                <==> self->Quadrature_leading) && self.im_pi() != 0real,
            self.windowed() ==> 0real < self.turn() < 1real,
            self.conj().re() == self.re(),
            self.conj().im_pi() == -self.im_pi(),
            self.conj().turn() == self.turn(),
            self.conj().wf(),
    {
        match self {
            Tap::Notch { offset, half_width } => {
                let d = (half_width - 1) as real;
                let a = offset as real;
                let b = (half_width + 1) as real;
                assert(d >= 1real);
                assert(1real / d > 0real) by (nonlinear_arith)
                    requires
                        d >= 1real,
                ;
                assert(0real < a / b < 1real) by (nonlinear_arith)
                    requires
                        0real < a < b,
                ;
            },
            Tap::Quadrature { offset, half_width, leading } => {
                let a = offset as real;
                let b = (half_width + 1) as real;
                assert(2real / a > 0real) by (nonlinear_arith)
                    requires
                        a >= 1real,
                ;
                assert(0real < a / b < 1real) by (nonlinear_arith)
                    requires
                        0real < a < b,
                ;
            },
            _ => {},
        }
    }
}

} // verus!
