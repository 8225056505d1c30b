use middle_monitor_sdk::rate::Rate;

fn rate(value: f64) -> Rate {
    Rate {
        bits: value.to_bits(),
    }
}

fn samples() -> Vec<f64> {
    let mut values: Vec<f64> = vec![
        0.0,
        -0.0,
        1.0,
        -1.0,
        0.1,
        0.5,
        0.999999,
        1.0 - f64::EPSILON / 2.0,
        1.0 + f64::EPSILON,
        -1.0 - f64::EPSILON,
        2.0,
        -2.0,
        f64::MIN_POSITIVE,
        f64::MIN_POSITIVE / 4.0,
        5e-324,
        -5e-324,
        1e-20,
        1.2e-16,
        f64::MAX,
        f64::MIN,
        f64::INFINITY,
        f64::NEG_INFINITY,
        f64::NAN,
    ];
    for k in 0..60 {
        values.push((2.0f64).powi(-k));
        values.push(1.5 * (2.0f64).powi(-k));
        values.push(-(2.0f64).powi(-k));
    }
    values
}

#[test]
fn comparisons_agree_with_floating_point() {
    for v in samples() {
        let r = rate(v);
        assert_eq!(r.is_below_zero(), v < 0.0, "{}", v);
        assert_eq!(r.is_at_least_one(), v >= 1.0, "{}", v);
        assert_eq!(r.is_at_most_zero(), v <= 0.0, "{}", v);
        assert_eq!(r.is_in_range(), v >= -1.0 && v <= 1.0, "{}", v);
    }
}

#[test]
fn draws_compare_as_fractions_of_2_to_the_53() {
    let mut draw: u64 = 1;
    let mut draws: Vec<u64> = vec![0, 1, 2047, 2048, u64::MAX, u64::MAX / 2, u64::MAX / 2 + 1];
    for _ in 0..300 {
        draw = draw.wrapping_mul(6364136223846793005).wrapping_add(1442695040888963407);
        draws.push(draw);
        draws.push(draw >> 40);
    }
    for v in samples() {
        for d in &draws {
            let fraction = (*d >> 11) as f64 * (1.0 / 9007199254740992.0);
            assert_eq!(rate(v).is_above(*d), fraction < v, "{} {}", v, d);
        }
    }
}

#[test]
fn rate_at_a_draw_does_not_exceed_it() {
    let draw: u64 = 3 << 62;
    assert!(!rate(0.75).is_above(draw));
    assert!(rate(0.75 + f64::EPSILON).is_above(draw));
    assert!(rate(0.75).is_above(draw - 1));
}

#[test]
fn draws_below_an_exceeded_one_are_exceeded() {
    let third = rate(1.0 / 3.0);
    let mut last = true;
    for k in 0..1000u64 {
        let now = third.is_above(k * (u64::MAX / 1000));
        assert!(last || !now);
        last = now;
    }
    assert!(!last);
}
