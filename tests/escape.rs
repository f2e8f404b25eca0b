use mandelbrot::escape::escape_count;
use num::complex::Complex;

fn mandelbrot_count(c: Complex<f64>, max_iterations: u32) -> u32 {
    escape_count(
        Complex::new(0.0, 0.0),
        max_iterations,
        |z: Complex<f64>| z.norm() < 2.0,
        |z: Complex<f64>| z * z + c,
    )
}

#[test]
fn origin_never_escapes() {
    let count = mandelbrot_count(Complex::new(0.0, 0.0), 200);
    assert_eq!(count, 200);
    assert_eq!(count as f64 / 200.0, 1.0);
}

#[test]
fn two_escapes_after_one_step() {
    let count = mandelbrot_count(Complex::new(2.0, 0.0), 200);
    assert_eq!(count, 1);
    assert_eq!(count as f64 / 200.0, 1.0 / 200.0);
}

#[test]
fn one_escapes_after_two_steps() {
    assert_eq!(mandelbrot_count(Complex::new(1.0, 0.0), 200), 2);
}

#[test]
fn minus_one_cycles_inside() {
    assert_eq!(mandelbrot_count(Complex::new(-1.0, 0.0), 200), 200);
}

#[test]
fn far_point_counts_one() {
    assert_eq!(mandelbrot_count(Complex::new(10.0, 10.0), 50), 1);
}

#[test]
fn zero_bound_takes_no_step() {
    assert_eq!(mandelbrot_count(Complex::new(0.0, 0.0), 0), 0);
}

#[test]
fn integer_orbit_counts_steps() {
    let count = escape_count(1u64, 100, |z: u64| z < 1000, |z: u64| z.saturating_mul(3));
    assert_eq!(count, 7);
}
