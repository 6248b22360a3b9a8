use mandelguessr::bounds::{
    is_nan, larger, order_key, smaller, Bounds, CameraBounds, INFINITY_BITS, SIGN_BIT,
};
use mandelguessr::input::{InputState, PixelPoint, Viewport};

fn bounds(lower: f32, upper: f32) -> Bounds {
    Bounds { lower: Some(lower.to_bits()), upper: Some(upper.to_bits()) }
}

fn limit(bounds: &Bounds, value: f32) -> f32 {
    f32::from_bits(bounds.limit_value(value.to_bits()))
}

fn samples() -> Vec<f32> {
    vec![
        f32::NEG_INFINITY,
        f32::MIN,
        -1.0e10,
        -2.5,
        -1.0,
        -0.3,
        -f32::EPSILON,
        -f32::MIN_POSITIVE,
        -1.0e-45,
        -0.0,
        0.0,
        1.0e-45,
        f32::MIN_POSITIVE,
        f32::EPSILON,
        0.1,
        0.3,
        0.5,
        1.0,
        4.5,
        1.0e10,
        f32::MAX,
        f32::INFINITY,
    ]
}

#[test]
fn the_order_key_follows_the_order_of_the_numbers() {
    let values = samples();
    for a in &values {
        for b in &values {
            if a < b {
                assert!(order_key(a.to_bits()) < order_key(b.to_bits()), "{} < {}", a, b);
            }
            if order_key(a.to_bits()) < order_key(b.to_bits()) {
                assert!(a <= b, "{} <= {}", a, b);
            }
        }
    }
    assert_eq!(order_key(0.0f32.to_bits()), 0);
    assert_eq!(order_key((-0.0f32).to_bits()), -1);
    assert_eq!(order_key(1.0f32.to_bits()), 0x3F80_0000);
    assert_eq!(order_key((-1.0f32).to_bits()), -0x3F80_0000 - 1);
    assert_eq!(order_key(u32::MAX), -(0x7FFF_FFFF) - 1);
}

#[test]
fn nan_is_recognised_by_its_bits() {
    assert!(is_nan(f32::NAN.to_bits()));
    assert!(is_nan((-f32::NAN).to_bits()));
    assert!(is_nan(INFINITY_BITS + 1));
    assert!(is_nan(SIGN_BIT + INFINITY_BITS + 1));
    assert!(is_nan(u32::MAX));
    assert!(!is_nan(INFINITY_BITS));
    assert!(!is_nan(f32::NEG_INFINITY.to_bits()));
    for value in samples() {
        assert_eq!(is_nan(value.to_bits()), value.is_nan());
    }
}

#[test]
fn larger_and_smaller_are_max_and_min() {
    let mut values = samples();
    values.push(f32::NAN);
    for a in &values {
        for b in &values {
            let max = f32::from_bits(larger(a.to_bits(), b.to_bits()));
            let min = f32::from_bits(smaller(a.to_bits(), b.to_bits()));
            let (std_max, std_min) = (a.max(*b), a.min(*b));
            assert!(max == std_max || (max.is_nan() && std_max.is_nan()), "max {} {}", a, b);
            assert!(min == std_min || (min.is_nan() && std_min.is_nan()), "min {} {}", a, b);
        }
    }
    assert_eq!(larger(0.0f32.to_bits(), (-0.0f32).to_bits()), 0.0f32.to_bits());
    assert_eq!(smaller(0.0f32.to_bits(), (-0.0f32).to_bits()), (-0.0f32).to_bits());
    assert_eq!(larger(f32::NAN.to_bits(), 2.0f32.to_bits()), 2.0f32.to_bits());
    assert_eq!(smaller(2.0f32.to_bits(), f32::NAN.to_bits()), 2.0f32.to_bits());
}

#[test]
fn limiting_is_max_then_min() {
    let mut values = samples();
    values.push(f32::NAN);
    let ends = [-2.0f32, -0.3, -0.0, 0.0, 0.3, 0.5, 4.5];
    for lower in ends {
        for upper in ends {
            if lower > upper {
                continue;
            }
            let range = bounds(lower, upper);
            for value in &values {
                let got = limit(&range, *value);
                let expected = value.max(lower).min(upper);
                assert!(got == expected, "{} in {}..={}", value, lower, upper);
                if range.proper() {
                    assert!(range.contains(got.to_bits()));
                    assert_eq!(limit(&range, got).to_bits(), got.to_bits());
                }
            }
        }
    }
}

#[test]
fn a_value_beyond_a_bound_stops_at_the_bound() {
    let range = bounds(-0.3, 0.3);
    assert_eq!(limit(&range, 0.5), 0.3);
    assert_eq!(limit(&range, -0.5), -0.3);
    assert_eq!(limit(&range, 0.1), 0.1);
    assert_eq!(limit(&range, 0.3), 0.3);
    assert_eq!(limit(&range, f32::INFINITY), 0.3);
    assert_eq!(limit(&range, f32::NEG_INFINITY), -0.3);
    assert_eq!(limit(&range, f32::NAN), -0.3);
}

#[test]
fn an_open_side_holds_nothing_back() {
    let free = Bounds::unbounded();
    assert_eq!(free, Bounds { lower: None, upper: None });
    assert!(free.proper());
    for value in samples() {
        assert_eq!(limit(&free, value).to_bits(), value.to_bits());
    }
    assert!(limit(&free, f32::NAN).is_nan());
    let floor = Bounds { lower: Some(0.0f32.to_bits()), upper: None };
    assert_eq!(limit(&floor, -3.0), 0.0);
    assert_eq!(limit(&floor, 1.0e30), 1.0e30);
    let ceiling = Bounds { lower: None, upper: Some(4.5f32.to_bits()) };
    assert_eq!(limit(&ceiling, -1.0e30), -1.0e30);
    assert_eq!(limit(&ceiling, 5.0), 4.5);
}

#[test]
fn improper_bounds_are_recognised() {
    assert!(!bounds(0.3, -0.3).proper());
    assert!(!bounds(f32::NAN, 0.3).proper());
    assert!(!bounds(-0.3, f32::NAN).proper());
    assert!(bounds(0.3, 0.3).proper());
    assert!(bounds(-0.0, 0.0).proper());
    assert!(!bounds(0.0, -0.0).proper());
    assert!(!bounds(-0.3, 0.3).contains(f32::NAN.to_bits()));
    assert!(!bounds(-0.3, 0.3).contains(0.5f32.to_bits()));
    assert!(bounds(-0.3, 0.3).contains(0.0f32.to_bits()));
}

#[test]
fn a_zoom_exponent_stays_within_its_bounds_over_many_scrolls() {
    let range = bounds(0.0, 4.5);
    let sensitivity = 0.001f32;
    let mut exponent = 0.0f32;
    let deltas =
        [-120.0f32, -120.0, 240.0, 1.0e9, -53.0, -1.0e9, -3000.0, -3000.0, 8000.0, f32::NAN, 7.0];
    for delta in deltas {
        exponent = limit(&range, exponent - delta * sensitivity);
        assert!((0.0..=4.5).contains(&exponent), "after {}", delta);
    }
}

#[test]
fn a_drag_beyond_the_bounds_leaves_the_centre_on_the_bound() {
    let range = bounds(-0.3, 0.3);
    let viewport = Viewport { width: 800, height: 600 };
    let extent = (1.0f32, 0.75f32);
    let mut center = (0.0f32, 0.0f32);
    let mut input = InputState::new();
    input.on_pointer_button(true);
    assert_eq!(input.on_pointer_move(PixelPoint { x: 400, y: 300 }, viewport), None);
    let step = input.on_pointer_move(PixelPoint { x: 200, y: 300 }, viewport).unwrap();
    let asked = (
        center.0 + step.x as f32 / step.viewport.width as f32 * extent.0,
        center.1 + step.y as f32 / step.viewport.height as f32 * extent.1,
    );
    assert_eq!(asked, (0.5, 0.0));
    center = (limit(&range, asked.0), limit(&range, asked.1));
    assert_eq!(center, (0.3, 0.0));
}

#[test]
fn a_camera_is_limited_coordinate_by_coordinate() {
    let limits =
        CameraBounds { x: bounds(-2.0, 0.5), y: bounds(-1.2, 1.2), exponent: bounds(0.0, 4.5) };
    let center = limits.limit_center((0.75f32.to_bits(), (-3.0f32).to_bits()));
    assert_eq!((f32::from_bits(center.0), f32::from_bits(center.1)), (0.5, -1.2));
    let center = limits.limit_center(((-1.0f32).to_bits(), 1.0f32.to_bits()));
    assert_eq!((f32::from_bits(center.0), f32::from_bits(center.1)), (-1.0, 1.0));
    assert_eq!(f32::from_bits(limits.limit_exponent(5.0f32.to_bits())), 4.5);
    assert_eq!(f32::from_bits(limits.limit_exponent((-0.1f32).to_bits())), 0.0);
    let free = CameraBounds::unbounded();
    assert_eq!(free.limit_center((7, 9)), (7, 9));
    assert_eq!(free.limit_exponent(11), 11);
}
