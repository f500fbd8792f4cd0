use weather_utils::humidity::{calculate_absolute_humidity, calculate_saturation_exponent};
use weather_utils::unit::{Celsius, Fahrenheit, TemperatureUnit};
use weather_utils::TemperatureAndRelativeHumidity;

fn reading(value: f64) -> i64 {
    (value * 1e9).round() as i64
}

fn close(a: i64, b: i64, tolerance: i64) -> bool {
    (a as i128 - b as i128).abs() <= tolerance as i128
}

fn exponential(exponent: i64) -> i64 {
    reading((exponent as f64 / 1e9).exp())
}

fn absolute_humidity_of<U: TemperatureUnit>(input: &TemperatureAndRelativeHumidity<U>) -> i64 {
    let exponent = input.saturation_exponent().unwrap();
    input.absolute_humidity(exponential(exponent)).unwrap()
}

#[test]
fn test_absolute_humidity_computation() {
    let celsius = [(21.18, 45.59, 8.43), (2.93, 34.71, 2.06)];
    for (temperature, humidity, expected) in celsius {
        let input =
            TemperatureAndRelativeHumidity::<Celsius>::new(reading(temperature), reading(humidity));
        assert!(close(absolute_humidity_of(&input), reading(expected), reading(0.01)));
    }
    let fahrenheit = [(70.12, 45.59, 8.43), (107.7, 74.91, 42.49)];
    for (temperature, humidity, expected) in fahrenheit {
        let input = TemperatureAndRelativeHumidity::<Fahrenheit>::new(
            reading(temperature),
            reading(humidity),
        );
        assert!(close(absolute_humidity_of(&input), reading(expected), reading(0.01)));
    }
}

#[test]
fn test_saturation_exponent_exact_values() {
    assert_eq!(calculate_saturation_exponent(21_180_000_000), Some(1_413_973_855));
    assert_eq!(calculate_saturation_exponent(2_930_000_000), Some(210_092_521));
    assert_eq!(calculate_saturation_exponent(0), Some(0));
    assert_eq!(calculate_saturation_exponent(-243_499_999_999), Some(i64::MIN));
    assert_eq!(calculate_saturation_exponent(i64::MAX), Some(1_000_000_000));
}

#[test]
fn test_saturation_exponent_has_no_value_at_the_pole() {
    assert_eq!(calculate_saturation_exponent(-243_500_000_000), None);
    let input = TemperatureAndRelativeHumidity::<Celsius>::new(-243_500_000_000, 50_000_000_000);
    assert_eq!(input.saturation_exponent(), None);
}

#[test]
fn test_absolute_humidity_exact_values() {
    assert_eq!(
        calculate_absolute_humidity(21_180_000_000, 45_590_000_000, 4_112_000_000),
        Some(8_437_437_762)
    );
    assert_eq!(
        calculate_absolute_humidity(21_180_000_000, 45_590_000_000, 4_112_264_521),
        Some(8_437_980_534)
    );
    assert_eq!(calculate_absolute_humidity(21_180_000_000, 0, 4_112_264_521), Some(0));
    assert_eq!(calculate_absolute_humidity(21_180_000_000, 45_590_000_000, 0), Some(0));
}

#[test]
fn test_absolute_humidity_has_no_value_at_absolute_zero() {
    assert_eq!(
        calculate_absolute_humidity(-273_150_000_000, 45_590_000_000, 4_112_000_000),
        None
    );
    let input = TemperatureAndRelativeHumidity::<Celsius>::new(-273_150_000_000, 45_590_000_000);
    assert_eq!(input.absolute_humidity(1_000_000_000), None);
}

#[test]
fn test_absolute_humidity_saturates() {
    assert_eq!(calculate_absolute_humidity(i64::MIN, i64::MAX, i64::MAX), Some(-1_000_000_029));
}

#[test]
fn test_absolute_humidity_normalizes_to_celsius() {
    let fahrenheit =
        TemperatureAndRelativeHumidity::<Fahrenheit>::new(70_120_000_000, 45_590_000_000);
    assert_eq!(fahrenheit.temperature.celsius(), 21_177_566_000);
    assert_eq!(fahrenheit.saturation_exponent(), calculate_saturation_exponent(21_177_566_000));
    assert_eq!(fahrenheit.saturation_exponent(), Some(1_413_824_363));
    assert_eq!(
        fahrenheit.absolute_humidity(4_111_649_816),
        calculate_absolute_humidity(21_177_566_000, 45_590_000_000, 4_111_649_816)
    );
    assert_eq!(fahrenheit.absolute_humidity(4_111_649_816), Some(8_436_788_987));
}

#[test]
fn test_temperature_and_relative_humidity_new() {
    let celsius = TemperatureAndRelativeHumidity::<Celsius>::new(21_180_000_000, 45_590_000_000);
    assert_eq!(celsius.relative_humidity, 45_590_000_000);
    assert_eq!(celsius.temperature.value.0, 21_180_000_000);
    let fahrenheit =
        TemperatureAndRelativeHumidity::<Fahrenheit>::new(70_120_000_000, 45_590_000_000);
    assert_eq!(fahrenheit.relative_humidity, 45_590_000_000);
    assert_eq!(fahrenheit.temperature.value.0, 70_120_000_000);
}

#[test]
fn test_temperature_and_relative_humidity_celsius_to_fahrenheit_conversion() {
    let cases = [((21.18, 45.59), (70.12, 45.59)), ((-7.49, 73.19), (18.52, 73.19))];
    for ((t, rh), (expected_t, expected_rh)) in cases {
        let input = TemperatureAndRelativeHumidity::<Celsius>::new(reading(t), reading(rh));
        let expected = TemperatureAndRelativeHumidity::<Fahrenheit>::new(
            reading(expected_t),
            reading(expected_rh),
        );
        let value: TemperatureAndRelativeHumidity<Fahrenheit> = input.into();
        assert!(value == expected);
        assert_eq!(value.relative_humidity, reading(rh));
    }
}

#[test]
fn test_temperature_and_relative_humidity_fahrenheit_to_celsius_conversion() {
    let cases = [((70.12, 45.59), (21.18, 45.59)), ((18.52, 73.19), (-7.49, 73.19))];
    for ((t, rh), (expected_t, expected_rh)) in cases {
        let input = TemperatureAndRelativeHumidity::<Fahrenheit>::new(reading(t), reading(rh));
        let expected = TemperatureAndRelativeHumidity::<Celsius>::new(
            reading(expected_t),
            reading(expected_rh),
        );
        let value: TemperatureAndRelativeHumidity<Celsius> = input.into();
        assert!(value == expected);
        assert_eq!(value.relative_humidity, reading(rh));
    }
}

#[test]
fn test_temperature_and_relative_humidity_conversion_exact_values() {
    let input = TemperatureAndRelativeHumidity::<Celsius>::new(21_180_000_000, 45_590_000_000);
    let value: TemperatureAndRelativeHumidity<Fahrenheit> = input.into();
    assert_eq!(value.temperature.value.0, 70_124_000_000);
    assert_eq!(value.relative_humidity, 45_590_000_000);
    let back: TemperatureAndRelativeHumidity<Celsius> = value.into();
    assert_eq!(back.temperature.value.0, 21_179_788_200);
    assert_eq!(back.relative_humidity, 45_590_000_000);
}

#[test]
fn test_temperature_and_relative_humidity_equality() {
    let a = TemperatureAndRelativeHumidity::<Celsius>::new(21_180_000_000, 45_590_000_000);
    assert!(a == TemperatureAndRelativeHumidity::<Celsius>::new(21_189_000_000, 45_590_000_000));
    assert!(a != TemperatureAndRelativeHumidity::<Celsius>::new(21_191_000_000, 45_590_000_000));
    assert!(a != TemperatureAndRelativeHumidity::<Celsius>::new(21_180_000_000, 45_590_000_001));
}

#[test]
fn test_temperature_and_relative_humidity_same_unit_conversion_changes_nothing() {
    let celsius = TemperatureAndRelativeHumidity::<Celsius>::new(21_180_000_000, 45_590_000_000);
    let again = TemperatureAndRelativeHumidity::<Celsius>::new(
        celsius.temperature.celsius(),
        celsius.relative_humidity,
    );
    assert_eq!(again.temperature.value.0, celsius.temperature.value.0);
    assert_eq!(again.relative_humidity, celsius.relative_humidity);
    let same: TemperatureAndRelativeHumidity<Celsius> = celsius.into();
    assert_eq!(same.temperature.value.0, 21_180_000_000);
    assert_eq!(same.relative_humidity, 45_590_000_000);
    let fahrenheit =
        TemperatureAndRelativeHumidity::<Fahrenheit>::new(70_120_000_000, 45_590_000_000);
    let again = TemperatureAndRelativeHumidity::<Fahrenheit>::new(
        fahrenheit.temperature.fahrenheit(),
        fahrenheit.relative_humidity,
    );
    assert_eq!(again.temperature.value.0, fahrenheit.temperature.value.0);
    assert_eq!(again.relative_humidity, fahrenheit.relative_humidity);
}
