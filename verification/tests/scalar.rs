use filedialog::config::{Scalar, SIDE_PANE_WIDTH};
use filedialog::window::{
    SIMPLE_MAX_HEIGHT, SIMPLE_MAX_WIDTH, SIMPLE_MIN_HEIGHT, SIMPLE_MIN_WIDTH,
};

fn samples() -> Vec<f32> {
    vec![
        0.0,
        -0.0,
        1.0,
        -1.0,
        0.5,
        200.0,
        200.25,
        700.0,
        -700.0,
        1.0e-40,
        -1.0e-40,
        f32::MIN_POSITIVE,
        f32::MAX,
        f32::MIN,
        f32::EPSILON,
        f32::INFINITY,
        f32::NEG_INFINITY,
        f32::NAN,
        -f32::NAN,
        f32::from_bits(0x7f80_0001),
        f32::from_bits(0xffff_ffff),
    ]
}

#[test]
fn patterns_of_the_named_lengths() {
    assert_eq!(SIDE_PANE_WIDTH, 250.0f32.to_bits());
    assert_eq!(SIMPLE_MIN_WIDTH, 200.0f32.to_bits());
    assert_eq!(SIMPLE_MIN_HEIGHT, 300.0f32.to_bits());
    assert_eq!(SIMPLE_MAX_WIDTH, 700.0f32.to_bits());
    assert_eq!(SIMPLE_MAX_HEIGHT, 500.0f32.to_bits());
}

#[test]
fn is_nan_agrees_with_the_numbers() {
    for a in samples() {
        assert_eq!(Scalar(a.to_bits()).is_nan(), a.is_nan(), "{}", a);
    }
}

#[test]
fn le_agrees_with_the_numbers() {
    for a in samples() {
        for b in samples() {
            assert_eq!(Scalar(a.to_bits()).le(Scalar(b.to_bits())), a <= b, "{} {}", a, b);
        }
    }
}

#[test]
fn larger_agrees_with_the_numbers() {
    for a in samples() {
        for b in samples() {
            let got = f32::from_bits(Scalar(a.to_bits()).larger(Scalar(b.to_bits())).0);
            let want = a.max(b);
            assert!(got == want || (got.is_nan() && want.is_nan()), "{} {}", a, b);
        }
    }
}

#[test]
fn larger_hands_back_one_of_its_operands() {
    let a = Scalar(200.5f32.to_bits());
    let b = Scalar(200.25f32.to_bits());
    assert_eq!(a.larger(b), a);
    assert_eq!(b.larger(a), a);
    let nan = Scalar(f32::NAN.to_bits());
    assert_eq!(nan.larger(b), b);
    assert_eq!(b.larger(nan), b);
    assert!(nan.larger(nan).is_nan());
}
