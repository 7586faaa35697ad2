use linux_max6675::temperature::Temperature;

#[test]
fn freezing_point_in_fahrenheit() {
    assert_eq!(Temperature::Celsius(0).to_fahrenheit(), Temperature::Fahrenheit(32_000));
}

#[test]
fn boiling_point_in_fahrenheit() {
    assert_eq!(Temperature::Celsius(100_000).to_fahrenheit(), Temperature::Fahrenheit(212_000));
}

#[test]
fn freezing_point_in_kelvin() {
    assert_eq!(Temperature::Celsius(0).to_kelvin(), Temperature::Kelvin(273_150));
}

#[test]
fn absolute_zero_in_kelvin() {
    assert_eq!(Temperature::Celsius(-273_150).to_kelvin(), Temperature::Kelvin(0));
}

#[test]
fn fahrenheit_rounds_to_nearest_millidegree() {
    // 12.345 °C * 1.8 + 32 = 54.221 °F
    assert_eq!(Temperature::Celsius(12_345).to_fahrenheit(), Temperature::Fahrenheit(54_221));
    // -0.001 °C * 1.8 = -0.0018 -> -0.002, plus 32 °F
    assert_eq!(Temperature::Celsius(-1).to_fahrenheit(), Temperature::Fahrenheit(31_998));
}

#[test]
fn conversions_back_to_celsius() {
    assert_eq!(Temperature::Fahrenheit(212_000).to_celsius(), Temperature::Celsius(100_000));
    assert_eq!(Temperature::Fahrenheit(-40_000).to_celsius(), Temperature::Celsius(-40_000));
    assert_eq!(Temperature::Kelvin(0).to_celsius(), Temperature::Celsius(-273_150));
    assert_eq!(Temperature::Kelvin(300_000).to_fahrenheit(), Temperature::Fahrenheit(80_330));
    assert_eq!(Temperature::Fahrenheit(32_000).to_kelvin(), Temperature::Kelvin(273_150));
}

#[test]
fn same_unit_is_kept() {
    assert_eq!(Temperature::Fahrenheit(1).to_fahrenheit(), Temperature::Fahrenheit(1));
    assert_eq!(Temperature::Kelvin(7).to_kelvin(), Temperature::Kelvin(7));
    assert_eq!(Temperature::Celsius(-5).to_celsius(), Temperature::Celsius(-5));
    assert_eq!(Temperature::Kelvin(7).millidegrees(), 7);
}

#[test]
fn celsius_fahrenheit_celsius_round_trip() {
    for c in (-500_000i64..=2_100_000).step_by(37) {
        let f = Temperature::Celsius(c).to_fahrenheit();
        assert_eq!(f.to_celsius(), Temperature::Celsius(c), "c = {c}");
        let by_float = (f.millidegrees() as f64 / 1000.0 - 32.0) * 5.0 / 9.0;
        assert!((by_float - c as f64 / 1000.0).abs() < 1e-3);
    }
}

#[test]
fn extreme_celsius_round_trip() {
    let c = i64::MAX / 2;
    let f = Temperature::Celsius(c).to_fahrenheit();
    assert_eq!(f.to_celsius(), Temperature::Celsius(c));
    let c = i64::MIN / 2;
    let f = Temperature::Celsius(c).to_fahrenheit();
    assert_eq!(f.to_celsius(), Temperature::Celsius(c));
}

#[test]
fn extreme_values_in_their_own_unit_are_kept() {
    assert_eq!(Temperature::Kelvin(i64::MIN).to_kelvin(), Temperature::Kelvin(i64::MIN));
    assert_eq!(Temperature::Fahrenheit(i64::MAX).to_fahrenheit(), Temperature::Fahrenheit(i64::MAX));
}
