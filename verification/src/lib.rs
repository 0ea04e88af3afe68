//! Layout of an analytic (single-sideband) FIR filter kernel.
//!
//! The kernel combines a pass-through centre sample, a notch that removes DC and
//! the Nyquist component, and a windowed Hilbert transformer. This crate fixes
//! which sample carries which tap and proves the shape of the result; turning
//! taps into numbers and transforming them is left to the caller.

pub mod impulse;
pub mod shape;
pub mod tap;
pub mod window;
