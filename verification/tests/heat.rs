use nodegrid::heat::{carnot_efficiency, to_absolute, Absolute, Efficiency, Standard, Temperature};

/// The quotient that an efficiency stands for.
fn ratio(e: Efficiency) -> f32 {
    if e.is_zero() {
        0.0
    } else {
        1f32 - f32::from(e.cold) / f32::from(e.hot)
    }
}

#[test]
fn to_absolute_at_the_ends_of_the_scale() {
    assert_eq!(to_absolute(-128), 0);
    assert_eq!(to_absolute(127), 255);
    assert_eq!(to_absolute(i8::MIN), u8::MIN);
    assert_eq!(to_absolute(i8::MAX), u8::MAX);
}

#[test]
fn to_absolute_exact_values() {
    assert_eq!(to_absolute(-127), 1);
    assert_eq!(to_absolute(-1), 127);
    assert_eq!(to_absolute(0), 128);
    assert_eq!(to_absolute(1), 129);
    assert_eq!(to_absolute(100), 228);
    assert_eq!(to_absolute(-100), 28);
}

#[test]
fn to_absolute_is_strictly_increasing() {
    for v in i8::MIN..i8::MAX {
        assert!(to_absolute(v) < to_absolute(v + 1));
        assert_eq!(to_absolute(v) + 1, to_absolute(v + 1));
    }
}

#[test]
fn to_absolute_is_the_shift_by_128() {
    let mut seen = [false; 256];
    for v in i8::MIN..=i8::MAX {
        let a = to_absolute(v);
        assert_eq!(i16::from(a), i16::from(v) + 128);
        assert!(!seen[usize::from(a)]);
        seen[usize::from(a)] = true;
    }
    assert!(seen.iter().all(|s| *s));
}

#[test]
fn the_scales_are_bytes() {
    let stored: Temperature = -3;
    let standard: Standard = stored;
    let absolute: Absolute = to_absolute(standard);
    assert_eq!(absolute, 125);
}

#[test]
fn carnot_efficiency_names_the_hot_and_the_cold_side() {
    assert_eq!(carnot_efficiency(127, -128), Efficiency { hot: 255, cold: 0 });
    assert_eq!(carnot_efficiency(-128, 127), Efficiency { hot: 255, cold: 0 });
    assert_eq!(carnot_efficiency(0, 72), Efficiency { hot: 200, cold: 128 });
    assert_eq!(carnot_efficiency(72, 0), Efficiency { hot: 200, cold: 128 });
    assert_eq!(carnot_efficiency(-28, -78), Efficiency { hot: 100, cold: 50 });
}

#[test]
fn carnot_efficiency_between_equal_readings_is_zero() {
    for v in i8::MIN..=i8::MAX {
        let e = carnot_efficiency(v, v);
        assert!(e.is_zero());
        assert_eq!(e.hot, e.cold);
        assert_eq!(e.hot, to_absolute(v));
        assert_eq!(ratio(e), 0.0);
    }
}

#[test]
fn carnot_efficiency_between_two_lowest_readings_is_zero() {
    let e = carnot_efficiency(-128, -128);
    assert_eq!(e, Efficiency { hot: 0, cold: 0 });
    assert!(e.is_zero());
    assert_eq!(ratio(e), 0.0);
    assert!(!ratio(e).is_nan());
}

#[test]
fn carnot_efficiency_between_the_ends_of_the_scale_is_one() {
    let e = carnot_efficiency(127, -128);
    assert!(!e.is_zero());
    assert_eq!(ratio(e), 1.0);
}

#[test]
fn carnot_efficiency_exact_ratios() {
    assert_eq!(ratio(carnot_efficiency(-28, -78)), 0.5);
    assert_eq!(ratio(carnot_efficiency(72, -78)), 0.75);
    assert_eq!(ratio(carnot_efficiency(0, -128)), 1.0);
    assert_eq!(ratio(carnot_efficiency(0, 72)), 1f32 - 128f32 / 200f32);
}

#[test]
fn carnot_efficiency_is_symmetric() {
    for a in i8::MIN..=i8::MAX {
        for b in [i8::MIN, -100, -1, 0, 1, 100, i8::MAX] {
            assert_eq!(carnot_efficiency(a, b), carnot_efficiency(b, a));
            assert_eq!(ratio(carnot_efficiency(a, b)), ratio(carnot_efficiency(b, a)));
        }
    }
}

#[test]
fn carnot_efficiency_lies_between_zero_and_one() {
    for a in i8::MIN..=i8::MAX {
        for b in i8::MIN..=i8::MAX {
            let e = carnot_efficiency(a, b);
            assert!(e.cold <= e.hot);
            assert_eq!(e.is_zero(), a == b);
            let r = ratio(e);
            assert!((0.0..=1.0).contains(&r));
        }
    }
}

#[test]
fn efficiency_is_a_plain_value() {
    let e = Efficiency { hot: 9, cold: 3 };
    let copy = e;
    assert_eq!(copy, e);
    assert_eq!(e.clone(), e);
    assert!(!e.is_zero());
    assert!(Efficiency { hot: 3, cold: 3 }.is_zero());
    assert_eq!(format!("{:?}", e), "Efficiency { hot: 9, cold: 3 }");
}
