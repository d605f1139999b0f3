use weather_rmcp::units::{celsius, fahrenheit_to_celsius, one_decimal, round_to_tenths, temperature_text};

fn degrees(ninths: i64) -> f64 {
    ninths as f64 / 9.0
}

#[test]
fn freezing_point_is_zero_celsius() {
    assert_eq!(celsius(32, "F"), 0);
    assert_eq!(degrees(celsius(32, "F")), 0.0);
}

#[test]
fn boiling_point_is_hundred_celsius() {
    assert_eq!(celsius(212, "F"), 900);
    assert_eq!(degrees(celsius(212, "F")), 100.0);
}

#[test]
fn celsius_reading_passes_through() {
    for x in [-40, -1, 0, 15, 37, 100] {
        assert_eq!(degrees(celsius(x, "C")), x as f64);
    }
}

#[test]
fn other_unit_passes_through() {
    assert_eq!(celsius(7, "K"), 63);
    assert_eq!(celsius(7, ""), 63);
    assert_eq!(celsius(7, "FF"), 63);
}

#[test]
fn minus_forty_is_the_same_in_both_scales() {
    assert_eq!(fahrenheit_to_celsius(-40), -360);
}

#[test]
fn rounding_to_tenths() {
    assert_eq!(round_to_tenths(190), 211);
    assert_eq!(round_to_tenths(-5), -6);
    assert_eq!(round_to_tenths(0), 0);
    assert_eq!(round_to_tenths(4), 4);
}

#[test]
fn one_decimal_texts() {
    assert_eq!(one_decimal(180), "20.0");
    assert_eq!(one_decimal(-5), "-0.6");
    assert_eq!(one_decimal(190), "21.1");
    assert_eq!(one_decimal(-360), "-40.0");
    assert_eq!(one_decimal(0), "0.0");
}

#[test]
fn one_decimal_matches_float_formatting() {
    for f in -60..130 {
        let n = fahrenheit_to_celsius(f);
        let expected = format!("{:.1}", (f as f64 - 32.0) * 5.0 / 9.0);
        assert_eq!(one_decimal(n), expected);
    }
}

#[test]
fn temperature_texts() {
    assert_eq!(temperature_text(-5), "-5");
    assert_eq!(temperature_text(68), "68");
}
