//! Which dimensions a kernel can be built for.

use vstd::prelude::*;

verus! {

/// Why a kernel cannot be built, or applied, with the dimensions given.
#[derive(Clone, Copy, Debug, PartialEq, Eq, Structural)]
pub enum ShapeError {
    /// The tap count is even, so no sample sits at the centre.
    EvenTaps,
    /// The taps do not fit into the transform.
    TapsExceedTransform,
    /// Fewer than three taps leave no room for a tap beside the centre.
    TooFewTaps,
    /// Kernel and signal differ in length.
    LengthMismatch,
}

/// A kernel of `n` taps can be laid out in a transform of `m` samples.
pub open spec fn valid_shape(n: int, m: int) -> bool {
    n % 2 == 1 && 3 <= n <= m
}

/// Index of the centre tap of an `n`-tap kernel.
pub open spec fn center(n: int) -> int {
    (n - 1) / 2
}

/// The first requirement that `n` taps in `m` samples break, if any: oddness
/// is looked at first, then the fit, then the minimum.
pub open spec fn shape_verdict(n: int, m: int) -> Result<(), ShapeError> {
    if n % 2 != 1 {
        Err(ShapeError::EvenTaps)
    } else if n > m {
        Err(ShapeError::TapsExceedTransform)
    } else if n < 3 {
        Err(ShapeError::TooFewTaps)
    } else {
        Ok(())
    }
}

/// Tests the dimensions of a kernel before it is built.
pub fn check_shape(n: usize, m: usize) -> (r: Result<(), ShapeError>)
    ensures
        r == shape_verdict(n as int, m as int),
        r is Ok <==> valid_shape(n as int, m as int),
{
    if n % 2 != 1 {
        Err(ShapeError::EvenTaps)
    } else if n > m {
        Err(ShapeError::TapsExceedTransform)
    } else if n < 3 {
        Err(ShapeError::TooFewTaps)
    } else {
        Ok(())
    }
}

/// Tests that a kernel's frequency response and a signal have one bin each
/// for the other's, as the bin-wise product needs.
pub fn check_lengths(kernel_len: usize, signal_len: usize) -> (r: Result<(), ShapeError>)
    ensures
        r == if kernel_len == signal_len {
            Ok::<(), ShapeError>(())
        } else {
            Err::<(), ShapeError>(ShapeError::LengthMismatch)
        },
{
    if kernel_len == signal_len {
        Ok(())
    } else {
        Err(ShapeError::LengthMismatch)
    }
}

/// The largest odd tap count that fits a transform of `m` samples.
pub open spec fn widest(m: int) -> int {
    if m % 2 == 0 {
        m - 1
    } else {
        m
    }
}

/// The tap count of the widest kernel that a transform of `m` samples holds:
/// `m` itself where it is odd, one less where it is even.
pub fn widest_kernel(m: usize) -> (n: usize)
    requires
        m >= 1,
    ensures
        n == widest(m as int),
{
    if m % 2 == 0 {
        m - 1
    } else {
        m
    }
}

/// The widest kernel is odd and fits; no odd tap count between it and `m` is
/// left out; and it can be laid out as soon as the transform has three samples.
pub proof fn lemma_widest(m: int, k: int)
    requires
        m >= 1,
    ensures
        widest(m) % 2 == 1,
        widest(m) <= m,
        k % 2 == 1 && k <= m ==> k <= widest(m),
        valid_shape(widest(m), m) <==> m >= 3,
{
}

impl ShapeError {
    /// The text that names the requirement that was broken.
    pub open spec fn text(self) -> Seq<char> {
        match self {
            ShapeError::EvenTaps => "n should be odd"@,
            ShapeError::TapsExceedTransform => "n should be less than or equal to m"@,
            ShapeError::TooFewTaps => "n should be at least 3"@,
            ShapeError::LengthMismatch => "kernel and signal should have the same length"@,
        }
    }

    /// A message for the caller to fail with.
    pub fn message(&self) -> (s: String)
        ensures
            s@ == self.text(),
    {
        match self {
            ShapeError::EvenTaps => "n should be odd".to_owned(),
            ShapeError::TapsExceedTransform => "n should be less than or equal to m".to_owned(),
            ShapeError::TooFewTaps => "n should be at least 3".to_owned(),
            ShapeError::LengthMismatch => "kernel and signal should have the same length".to_owned(),
        }
    }
}

} // verus!
