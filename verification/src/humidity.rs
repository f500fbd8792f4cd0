//! Temperature with relative humidity, and the absolute humidity that
//! follows from the two.

use crate::fixed::{add_fixed, checked_div_fixed, mul_fixed, product, quotient, sum};
use crate::temperature::Temperature;
use crate::unit::{Celsius, Fahrenheit, TemperatureUnit, ZERO_CELSIUS_IN_KELVINS};
use vstd::prelude::*;
use vstd::std_specs::convert::FromSpec;

verus! {

/// The saturation vapour pressure at 0 °C, in hPa: 6.112.
pub const SATURATION_PRESSURE_AT_ZERO: i64 = 6_112_000_000;

/// The numerator's factor in the exponent of the saturation pressure: 17.67.
pub const EXPONENT_FACTOR: i64 = 17_670_000_000;

/// The denominator's offset in the exponent of the saturation pressure, in
/// °C: 243.5.
pub const EXPONENT_OFFSET: i64 = 243_500_000_000;

/// What turns vapour pressure over absolute temperature into grams of water
/// per cubic metre: 2.1674.
pub const VAPOUR_DENSITY_FACTOR: i64 = 2_167_400_000;

/// The exponent of the saturation vapour pressure at `t` °C,
/// `(17.67 * t) / (t + 243.5)`, where the denominator is not zero.
pub open spec fn saturation_exponent(t: int) -> Option<i64> {
    let denominator = sum(t, EXPONENT_OFFSET as int);
    if denominator == 0 {
        None
    } else {
        Some(quotient(product(EXPONENT_FACTOR as int, t), denominator) as i64)
    }
}

/// The absolute humidity in g/m³ at `t` °C and `rh` percent of relative
/// humidity, `6.112 * e * rh * 2.1674 / (273.15 + t)`, where `e` is the
/// natural exponential of the saturation exponent and the denominator is not
/// zero.
pub open spec fn absolute_humidity(t: int, rh: int, e: int) -> Option<i64> {
    let numerator = product(
        product(product(SATURATION_PRESSURE_AT_ZERO as int, e), rh),
        VAPOUR_DENSITY_FACTOR as int,
    );
    let denominator = sum(ZERO_CELSIUS_IN_KELVINS as int, t);
    if denominator == 0 {
        None
    } else {
        Some(quotient(numerator, denominator) as i64)
    }
}

/// Computes the number whose natural exponential the absolute humidity at
/// `temperature` °C needs. There is none at -243.5 °C.
pub fn calculate_saturation_exponent(temperature: i64) -> (r: Option<i64>)
    ensures
        r == saturation_exponent(temperature as int),
{
    checked_div_fixed(
        mul_fixed(EXPONENT_FACTOR, temperature),
        add_fixed(temperature, EXPONENT_OFFSET),
    )
}

/// Computes the absolute humidity (in g/m³) at `temperature` °C and
/// `relative_humidity` percent, given as `exponential` the natural
/// exponential of the saturation exponent at that temperature. There is none
/// at -273.15 °C.
pub fn calculate_absolute_humidity(
    temperature: i64,
    relative_humidity: i64,
    exponential: i64,
) -> (r: Option<i64>)
    ensures
        r == absolute_humidity(temperature as int, relative_humidity as int, exponential as int),
{
    let pressure = mul_fixed(SATURATION_PRESSURE_AT_ZERO, exponential);
    let numerator = mul_fixed(mul_fixed(pressure, relative_humidity), VAPOUR_DENSITY_FACTOR);
    checked_div_fixed(numerator, add_fixed(ZERO_CELSIUS_IN_KELVINS, temperature))
}

/// The relative humidity type (in billionths of a percent).
pub type RelativeHumidity = i64;

/// The absolute humidity type (in billionths of a g/m³).
pub type AbsoluteHumidity = i64;

/// The combination of the temperature and the relative humidity.
#[derive(Clone, Copy, Debug, Default)]
pub struct TemperatureAndRelativeHumidity<U: TemperatureUnit> {
    /// The relative humidity (in %).
    pub relative_humidity: RelativeHumidity,
    /// The temperature (either in °C or °F).
    pub temperature: Temperature<U>,
}

impl<U: TemperatureUnit> TemperatureAndRelativeHumidity<U> {
    /// Computes the number whose natural exponential `absolute_humidity`
    /// asks for, from the temperature's Celsius reading.
    pub fn saturation_exponent(&self) -> (r: Option<i64>)
        ensures
            r == saturation_exponent(self.temperature.value.celsius_value() as int),
    {
        calculate_saturation_exponent(self.temperature.celsius())
    }

    /// Computes the absolute humidity value (in g/m³), given as `exponential`
    /// the natural exponential of `saturation_exponent()`.
    pub fn absolute_humidity(&self, exponential: i64) -> (r: Option<AbsoluteHumidity>)
        ensures
            r == absolute_humidity(
                self.temperature.value.celsius_value() as int,
                self.relative_humidity as int,
                exponential as int,
            ),
    {
        calculate_absolute_humidity(
            self.temperature.celsius(),
            self.relative_humidity,
            exponential,
        )
    }
}

impl<U: TemperatureUnit> PartialEq for TemperatureAndRelativeHumidity<U> {
    fn eq(&self, other: &Self) -> (r: bool) {
        self.relative_humidity == other.relative_humidity && self.temperature.eq(
            &other.temperature,
        )
    }
}

impl<U: TemperatureUnit> vstd::std_specs::cmp::PartialEqSpecImpl for TemperatureAndRelativeHumidity<U> {
    open spec fn obeys_eq_spec() -> bool {
        true
    }

    /// Two measurements are equal when their humidities are the same and
    /// their temperatures are equal.
    open spec fn eq_spec(&self, other: &Self) -> bool {
        self.relative_humidity == other.relative_humidity && self.temperature.is_close_to(
            &other.temperature,
        )
    }
}

impl TemperatureAndRelativeHumidity<Celsius> {
    /// Create a combination of Celsius temperature and relative humidity.
    pub fn new(temperature: i64, relative_humidity: i64) -> (r: Self)
        ensures
            r == Self::new_spec(temperature, relative_humidity),
    {
        TemperatureAndRelativeHumidity {
            relative_humidity,
            temperature: Temperature::<Celsius>::new(temperature),
        }
    }

    /// The measurement of `temperature` °C and `relative_humidity` percent.
    pub open spec fn new_spec(temperature: i64, relative_humidity: i64) -> Self {
        TemperatureAndRelativeHumidity {
            relative_humidity,
            temperature: Temperature { value: Celsius(temperature) },
        }
    }
}

impl From<TemperatureAndRelativeHumidity<Fahrenheit>> for TemperatureAndRelativeHumidity<Celsius> {
    fn from(value: TemperatureAndRelativeHumidity<Fahrenheit>) -> (r: Self) {
        Self::new(value.temperature.celsius(), value.relative_humidity)
    }
}

impl vstd::std_specs::convert::FromSpecImpl<TemperatureAndRelativeHumidity<Fahrenheit>> for TemperatureAndRelativeHumidity<Celsius> {
    open spec fn obeys_from_spec() -> bool {
        true
    }

    open spec fn from_spec(value: TemperatureAndRelativeHumidity<Fahrenheit>) -> Self {
        Self::new_spec(value.temperature.value.celsius_value(), value.relative_humidity)
    }
}

impl TemperatureAndRelativeHumidity<Fahrenheit> {
    /// Create a combination of Fahrenheit temperature and relative humidity.
    pub fn new(temperature: i64, relative_humidity: i64) -> (r: Self)
        ensures
            r == Self::new_spec(temperature, relative_humidity),
    {
        TemperatureAndRelativeHumidity {
            relative_humidity,
            temperature: Temperature::<Fahrenheit>::new(temperature),
        }
    }

    /// The measurement of `temperature` °F and `relative_humidity` percent.
    pub open spec fn new_spec(temperature: i64, relative_humidity: i64) -> Self {
        TemperatureAndRelativeHumidity {
            relative_humidity,
            temperature: Temperature { value: Fahrenheit(temperature) },
        }
    }
}

impl From<TemperatureAndRelativeHumidity<Celsius>> for TemperatureAndRelativeHumidity<Fahrenheit> {
    fn from(value: TemperatureAndRelativeHumidity<Celsius>) -> (r: Self) {
        Self::new(value.temperature.fahrenheit(), value.relative_humidity)
    }
}

impl vstd::std_specs::convert::FromSpecImpl<TemperatureAndRelativeHumidity<Celsius>> for TemperatureAndRelativeHumidity<Fahrenheit> {
    open spec fn obeys_from_spec() -> bool {
        true
    }

    open spec fn from_spec(value: TemperatureAndRelativeHumidity<Celsius>) -> Self {
        Self::new_spec(value.temperature.value.fahrenheit_value(), value.relative_humidity)
    }
}

/// Converting a measurement to the unit it already has changes nothing:
/// reading the temperature in its own unit and building the measurement anew
/// gives the very same measurement.
pub proof fn lemma_same_unit_humidity_conversion(
    c: TemperatureAndRelativeHumidity<Celsius>,
    f: TemperatureAndRelativeHumidity<Fahrenheit>,
)
    ensures
        TemperatureAndRelativeHumidity::<Celsius>::new_spec(
            c.temperature.value.celsius_value(),
            c.relative_humidity,
        ) == c,
        TemperatureAndRelativeHumidity::<Fahrenheit>::new_spec(
            f.temperature.value.fahrenheit_value(),
            f.relative_humidity,
        ) == f,
{
}

/// Converting a measurement to the other unit leaves the relative humidity
/// as it is and converts the temperature as a temperature alone is converted.
pub proof fn lemma_humidity_conversion_is_structural(
    c: TemperatureAndRelativeHumidity<Celsius>,
    f: TemperatureAndRelativeHumidity<Fahrenheit>,
)
    ensures
        TemperatureAndRelativeHumidity::<Fahrenheit>::from_spec(c).relative_humidity
            == c.relative_humidity,
        TemperatureAndRelativeHumidity::<Fahrenheit>::from_spec(c).temperature
            == Temperature::<Fahrenheit>::from_spec(c.temperature),
        TemperatureAndRelativeHumidity::<Celsius>::from_spec(f).relative_humidity
            == f.relative_humidity,
        TemperatureAndRelativeHumidity::<Celsius>::from_spec(f).temperature
            == Temperature::<Celsius>::from_spec(f.temperature),
{
}

} // verus!
