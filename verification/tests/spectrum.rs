use analytic_filter::impulse::impulse_response;
use analytic_filter::tap::Tap;
use analytic_filter::window::{WINDOW_BASE, WINDOW_SCALE, WINDOW_SWING};
use num::complex::Complex;
use rustfft::FftPlanner;
use std::f32::consts::PI;

fn window(offset: usize, half_width: usize) -> f32 {
    let base = WINDOW_BASE as f32 / WINDOW_SCALE as f32;
    let swing = WINDOW_SWING as f32 / WINDOW_SCALE as f32;
    base + swing * (offset as f32 * PI / (half_width + 1) as f32).cos()
}

fn sample(tap: Tap) -> Complex<f32> {
    match tap {
        Tap::Zero => Complex::new(0.0, 0.0),
        Tap::Center => Complex::new(1.0, 0.0),
        Tap::Notch { offset, half_width } => {
            Complex::new(-1.0 / (half_width - 1) as f32, 0.0).scale(window(offset, half_width))
        }
        Tap::Quadrature { offset, half_width, leading } => {
            let im = 2.0 / PI / offset as f32;
            Complex::new(0.0, if leading { im } else { -im }).scale(window(offset, half_width))
        }
    }
}

fn forward(mut buffer: Vec<Complex<f32>>) -> Vec<Complex<f32>> {
    let mut planner = FftPlanner::<f32>::new();
    planner.plan_fft_forward(buffer.len()).process(&mut buffer);
    buffer
}

fn inverse(mut buffer: Vec<Complex<f32>>) -> Vec<Complex<f32>> {
    let mut planner = FftPlanner::<f32>::new();
    planner.plan_fft_inverse(buffer.len()).process(&mut buffer);
    let scale = buffer.len() as f32;
    buffer.iter().map(|x| Complex::new(x.re / scale, x.im / scale)).collect()
}

fn kernel(n: usize, m: usize) -> Vec<Complex<f32>> {
    forward(impulse_response(n, m).into_iter().map(sample).collect())
}

fn sine(cycles: f64, m: usize) -> Vec<Complex<f32>> {
    (0..m)
        .map(|i| {
            let re = (2.0 * std::f64::consts::PI * cycles * (i as f64 / m as f64)).sin() as f32;
            Complex::new(re, 0.0)
        })
        .collect()
}

fn apply(kernel_freq: &[Complex<f32>], signal: Vec<Complex<f32>>) -> Vec<Complex<f32>> {
    assert_eq!(kernel_freq.len(), signal.len());
    let product = forward(signal)
        .iter()
        .zip(kernel_freq.iter())
        .map(|(y, x)| *x * *y)
        .collect();
    inverse(product)
}

fn close(a: f32, b: f32, tolerance: f32) -> bool {
    (a - b).abs() <= tolerance
}

#[test]
fn window_coefficients_are_the_decimal_fractions() {
    assert_eq!(WINDOW_BASE as f32 / WINDOW_SCALE as f32, 0.53836f32);
    assert_eq!(WINDOW_SWING as f32 / WINDOW_SCALE as f32, 0.46164f32);
    assert_eq!(WINDOW_BASE + WINDOW_SWING, WINDOW_SCALE);
}

#[test]
fn window_weight_stays_positive() {
    for half_width in [1usize, 2, 3, 50, 511] {
        for offset in 1..=half_width {
            let k = window(offset, half_width);
            assert!(k > 0.07 && k < 1.0);
        }
    }
}

#[test]
fn five_tap_impulse_has_the_documented_values() {
    let impulse: Vec<Complex<f32>> = impulse_response(5, 8).into_iter().map(sample).collect();
    // window at angle pi/3 is 0.53836 + 0.46164 / 2, at 2 pi / 3 it is 0.53836 - 0.46164 / 2
    let near = 0.76918f32;
    let far = 0.30754f32;
    assert_eq!(impulse[2], Complex::new(1.0, 0.0));
    assert!(close(impulse[3].im, 2.0 / PI * near, 1e-6));
    assert!(close(impulse[1].im, -2.0 / PI * near, 1e-6));
    assert_eq!(impulse[3].re, 0.0);
    assert_eq!(impulse[1].re, 0.0);
    assert!(close(impulse[4].re, -far, 1e-6));
    assert!(close(impulse[0].re, -far, 1e-6));
    assert_eq!(impulse[4].im, 0.0);
    assert_eq!(impulse[0].im, 0.0);
    for j in 5..8 {
        assert_eq!(impulse[j], Complex::new(0.0, 0.0));
    }
}

#[test]
fn kernel_has_one_bin_per_sample() {
    let sizes: [(usize, usize); 4] = [(3, 4), (5, 8), (511, 1024), (1023, 1024)];
    for (n, m) in sizes {
        assert_eq!(kernel(n, m).len(), m);
    }
}

#[test]
fn impulse_tail_is_exactly_zero() {
    let impulse: Vec<Complex<f32>> = impulse_response(101, 256).into_iter().map(sample).collect();
    for j in 101..256 {
        assert_eq!(impulse[j].re, 0.0);
        assert_eq!(impulse[j].im, 0.0);
    }
}

#[test]
fn evaluated_taps_are_symmetric_about_the_centre() {
    let n: usize = 1023;
    let mid = (n - 1) / 2;
    let impulse: Vec<Complex<f32>> = impulse_response(n, 1024).into_iter().map(sample).collect();
    for i in 1..=mid {
        let after = impulse[mid + i];
        let before = impulse[mid - i];
        if i % 2 == 1 {
            assert_eq!(after.im, -before.im);
            assert!(after.im > 0.0);
            assert_eq!(after.re, 0.0);
            assert_eq!(before.re, 0.0);
        } else {
            assert_eq!(after.re, before.re);
            assert!(after.re < 0.0);
            assert_eq!(after.im, 0.0);
            assert_eq!(before.im, 0.0);
        }
    }
}

#[test]
fn forward_then_inverse_returns_the_buffer() {
    let m: usize = 1024;
    let buffer: Vec<Complex<f32>> = (0..m)
        .map(|i| Complex::new(((i * 37 + 11) % 101) as f32 / 50.0 - 1.0, ((i * 53) % 89) as f32 / 44.0 - 1.0))
        .collect();
    let back = inverse(forward(buffer.clone()));
    assert_eq!(back.len(), m);
    for i in 0..m {
        assert!(close(back[i].re, buffer[i].re, 1e-4));
        assert!(close(back[i].im, buffer[i].im, 1e-4));
    }
    let impulse: Vec<Complex<f32>> = impulse_response(1023, m).into_iter().map(sample).collect();
    let back = inverse(forward(impulse.clone()));
    for i in 0..m {
        assert!(close(back[i].re, impulse[i].re, 1e-4));
        assert!(close(back[i].im, impulse[i].im, 1e-4));
    }
}

#[test]
fn three_cycle_sine_becomes_an_analytic_signal() {
    let m: usize = 1024;
    let n: usize = 1023;
    let mid = (n - 1) / 2;
    let out = apply(&kernel(n, m), sine(3.0, m));
    assert_eq!(out.len(), m);
    assert!(close(out[0].re, 0.0, 0.05));
    let inner = &out[64..960];
    let least = inner.iter().map(|x| x.norm()).fold(f32::MAX, f32::min);
    let most = inner.iter().map(|x| x.norm()).fold(0.0f32, f32::max);
    assert!(most - least < 0.01);
    assert!(close(least, 1.0, 0.01));
    // the kernel is centred on `mid`, so the output is the input delayed by `mid`
    // samples, with the quarter-turn shifted copy as its imaginary part
    for i in 0..m {
        let angle = 2.0 * std::f64::consts::PI * 3.0 * ((i + m - mid) as f64 / m as f64);
        assert!(close(out[i].re, angle.sin() as f32, 0.01));
        assert!(close(out[i].im, -angle.cos() as f32, 0.01));
    }
}

#[test]
fn negative_frequencies_are_suppressed() {
    let m: usize = 1024;
    let k = kernel(1023, m);
    for j in 2..m / 2 - 1 {
        assert!(close(k[j].norm(), 2.0, 0.01));
    }
    for j in m / 2 + 2..m - 1 {
        assert!(k[j].norm() < 1e-2);
    }
    // the two bins next to DC and to the Nyquist bin lie in the transition band
    assert!(k[m / 2 + 1].norm() < 0.1);
    assert!(k[m - 1].norm() < 0.1);
    assert!(k[1].norm() > 1.5);
    assert!(k[m / 2 - 1].norm() > 1.5);
    // DC and the Nyquist component are attenuated
    assert!(k[0].norm() < 0.5);
    assert!(k[m / 2].norm() < 0.5);
}

#[test]
fn negative_frequency_sine_component_is_removed() {
    let m: usize = 1024;
    let spectrum = forward(apply(&kernel(1023, m), sine(3.0, m)));
    assert!(close(spectrum[3].norm() / m as f32, 1.0, 0.01));
    assert!(spectrum[m - 3].norm() / (m as f32) < 1e-2);
}
