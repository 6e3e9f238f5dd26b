//! Confidence scores: order, words, decimal places.

use mqo_agent::{Confidence, HIGH_CONF_THRESHOLD, LOW_CONF_THRESHOLD};

fn score(value: f64) -> Confidence {
    Confidence::from_bits(value.to_bits())
}

fn samples() -> Vec<f64> {
    let mut values = vec![
        0.0,
        -0.0,
        0.3,
        0.45,
        0.7,
        0.82,
        1.0,
        -1.0,
        1e-300,
        -1e-300,
        5e-324,
        -5e-324,
        1e15,
        4503599627370496.0,
        9007199254740991.0,
        9007199254740993.0,
        1e16,
        1.2345e18,
        1e300,
        -1e300,
        f64::MAX,
        f64::MIN,
        f64::MIN_POSITIVE,
        f64::INFINITY,
        f64::NEG_INFINITY,
        f64::NAN,
    ];
    let mut state: u64 = 0x2545_F491_4F6C_DD1D;
    for _ in 0..200 {
        state ^= state << 13;
        state ^= state >> 7;
        state ^= state << 17;
        values.push(f64::from_bits(state));
        values.push((state % 2_000_000) as f64 / 1_000_000.0);
    }
    values
}

#[test]
fn thresholds_are_the_documented_numbers() {
    assert_eq!(LOW_CONF_THRESHOLD, 0.45f64.to_bits());
    assert_eq!(HIGH_CONF_THRESHOLD, 0.7f64.to_bits());
}

#[test]
fn order_is_that_of_the_numbers() {
    let values = samples();
    for a in &values {
        for b in &values {
            assert_eq!(score(*a).is_below(score(*b)), a < b, "{} < {}", a, b);
            assert_eq!(score(*a).is_at_least(score(*b)), a >= b, "{} >= {}", a, b);
        }
    }
}

#[test]
fn finite_scores_are_told_apart() {
    for value in samples() {
        assert_eq!(score(value).is_finite(), value.is_finite(), "{}", value);
    }
}

#[test]
fn buckets_follow_the_thresholds() {
    assert_eq!(score(0.30).bucket(), "low");
    assert_eq!(score(0.449999).bucket(), "low");
    assert_eq!(score(-1.0).bucket(), "low");
    assert_eq!(score(f64::NEG_INFINITY).bucket(), "low");
    assert_eq!(score(0.45).bucket(), "medium");
    assert_eq!(score(0.69).bucket(), "medium");
    assert_eq!(score(0.7).bucket(), "high");
    assert_eq!(score(0.82).bucket(), "high");
    assert_eq!(score(f64::INFINITY).bucket(), "high");
    assert_eq!(score(f64::NAN).bucket(), "high");
}

#[test]
fn three_places_are_written_as_by_std() {
    for value in samples() {
        assert_eq!(score(value).shown(), format!("{:.3}", value), "{:e}", value);
        assert_eq!(score(-value).shown(), format!("{:.3}", -value), "{:e}", -value);
    }
    assert_eq!(score(-0.0).shown(), "-0.000");
    assert_eq!(score(-0.0004).shown(), "-0.000");
    assert_eq!(score(-2.5).shown(), "-2.500");
    assert_eq!(score(f64::INFINITY).shown(), "inf");
    assert_eq!(score(f64::NEG_INFINITY).shown(), "-inf");
    assert_eq!(score(f64::NAN).shown(), "NaN");
    assert_eq!(score(-f64::NAN).shown(), "NaN");
    assert_eq!(score(0.82).shown(), "0.820");
    assert_eq!(score(1.0).shown(), "1.000");
    assert_eq!(score(0.45).shown(), "0.450");
}

#[test]
fn ties_go_to_the_even_digit() {
    // Each is a multiple of a sixteenth, half way between two thousandths.
    for value in [0.5625, 0.6875, 0.8125, 0.9375, 1.0625, 1.1875, 0.0625, 0.1875] {
        assert_eq!(score(value).shown(), format!("{:.3}", value));
    }
    assert_eq!(score(0.5625).shown(), "0.562");
    assert_eq!(score(0.6875).shown(), "0.688");
}

#[test]
fn integers_become_the_nearest_double() {
    let mut values: Vec<u64> = vec![0, 1, 2, 3, 10, u64::MAX, u64::MAX - 1, u64::MAX - 1024, u64::MAX - 1025];
    for shift in 0..64 {
        let power = 1u64 << shift;
        values.push(power);
        values.push(power - 1);
        values.push(power.wrapping_add(1));
        values.push(power.wrapping_add(power >> 1));
        values.push(power.wrapping_add(power >> 53));
        values.push(power.wrapping_add((power >> 53).wrapping_mul(3)));
    }
    for n in values {
        assert_eq!(Confidence::from_unsigned(n).bits, (n as f64).to_bits(), "{}", n);
        let signed = n as i64;
        assert_eq!(Confidence::from_signed(signed).bits, (signed as f64).to_bits(), "{}", signed);
    }
    assert_eq!(Confidence::from_signed(i64::MIN).bits, (i64::MIN as f64).to_bits());
}
