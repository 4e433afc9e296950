use tracer::color::Color;
use tracer::fuzzy_eq::FuzzyEq;

fn fx(v: f64) -> i64 {
    (v * 4294967296.0).round() as i64
}

fn c3(r: f64, g: f64, b: f64) -> Color {
    Color::new(fx(r), fx(g), fx(b))
}

#[test]
fn color_new() {
    let col = c3(-0.5, 0.4, 1.7);
    assert!(col.red == fx(-0.5));
    assert!(col.green == fx(0.4));
    assert!(col.blue == fx(1.7));
}

#[test]
fn color_addition() {
    let col1 = c3(0.9, 0.6, 0.75);
    let col2 = c3(0.7, 0.1, 0.25);
    assert!(col1.add(&col2).fuzzy_eq(&c3(1.6, 0.7, 1.0)));
}

#[test]
fn color_substraction() {
    let col1 = c3(0.9, 0.6, 0.75);
    let col2 = c3(0.7, 0.1, 0.25);
    assert!(col1.sub(&col2).fuzzy_eq(&c3(0.2, 0.5, 0.5)));
}

#[test]
fn color_scalar_multiplication() {
    let col1 = c3(0.2, 0.3, 0.4);
    assert!(col1.scale(fx(2.0)).fuzzy_eq(&c3(0.4, 0.6, 0.8)));
}

#[test]
fn color_multiplication() {
    let col1 = c3(1.0, 0.2, 0.4);
    let col2 = c3(0.9, 1.0, 0.1);
    assert!(col1.mul(&col2).fuzzy_eq(&c3(0.9, 0.2, 0.04)));
}

#[test]
fn color_clamping() {
    let col1 = c3(1.1, 2.3, -6.4);
    assert!(col1.clamp(fx(0.0), fx(1.0)).fuzzy_eq(&c3(1.0, 1.0, 0.0)));
}
