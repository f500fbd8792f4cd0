//! Temperature with barometric pressure, and the altitude that follows from
//! the two.

use crate::fixed::{
    add_fixed, checked_div_fixed, difference, div_fixed, mul_fixed, product, quotient, sub_fixed,
    sum, SCALE,
};
use crate::temperature::Temperature;
use crate::unit::{Celsius, Fahrenheit, TemperatureUnit, ZERO_CELSIUS_IN_KELVINS};
use vstd::prelude::*;
use vstd::std_specs::convert::FromSpec;

verus! {

/// The reference pressure at sea level, in hPa: 1013.25.
pub const SEA_LEVEL_PRESSURE: i64 = 1_013_250_000_000;

/// The divisor of the exponent that the pressure ratio is raised to: 5.257.
pub const EXPONENT_DIVISOR: i64 = 5_257_000_000;

/// How fast the air cools with height, in kelvins per metre: 0.0065.
pub const LAPSE_RATE: i64 = 6_500_000;

/// The ratio of the sea-level pressure to the pressure `p`, `1013.25 / p`,
/// where `p` is not zero.
pub open spec fn pressure_ratio(p: int) -> Option<i64> {
    if p == 0 {
        None
    } else {
        Some(quotient(SEA_LEVEL_PRESSURE as int, p) as i64)
    }
}

/// The exponent that the pressure ratio is raised to: `1 / 5.257`.
pub open spec fn pressure_exponent() -> int {
    quotient(SCALE as int, EXPONENT_DIVISOR as int)
}

/// The altitude in metres at `t` °C, `(power - 1) * (t + 273.15) / 0.0065`,
/// where `power` is the pressure ratio raised to the pressure exponent.
pub open spec fn altitude(t: int, power: int) -> int {
    quotient(
        product(difference(power, SCALE as int), sum(t, ZERO_CELSIUS_IN_KELVINS as int)),
        LAPSE_RATE as int,
    )
}

/// Computes the ratio of the sea-level pressure to `barometric_pressure`
/// (in hPa): the base of the power that the altitude needs. There is none
/// for a pressure of zero.
pub fn calculate_pressure_ratio(barometric_pressure: i64) -> (r: Option<i64>)
    ensures
        r == pressure_ratio(barometric_pressure as int),
{
    checked_div_fixed(SEA_LEVEL_PRESSURE, barometric_pressure)
}

/// Computes the exponent of the power that the altitude needs.
pub fn calculate_pressure_exponent() -> (r: i64)
    ensures
        r == pressure_exponent(),
{
    div_fixed(SCALE, EXPONENT_DIVISOR)
}

/// Computes the altitude (in m) at `temperature` °C, given as `power` the
/// pressure ratio raised to the pressure exponent.
pub fn calculate_altitude(temperature: i64, power: i64) -> (r: i64)
    ensures
        r == altitude(temperature as int, power as int),
{
    let excess = sub_fixed(power, SCALE);
    let kelvins = add_fixed(temperature, ZERO_CELSIUS_IN_KELVINS);
    div_fixed(mul_fixed(excess, kelvins), LAPSE_RATE)
}

/// The barometric pressure type (in billionths of a hPa).
pub type BarometricPressure = i64;

/// The altitude type (in billionths of a m).
pub type Altitude = i64;

/// The combination of the temperature and the barometric pressure.
#[derive(Clone, Copy, Debug, Default)]
pub struct TemperatureAndBarometricPressure<U: TemperatureUnit> {
    /// The barometric pressure (in hPa).
    pub barometric_pressure: BarometricPressure,
    /// The temperature (either in °C or °F).
    pub temperature: Temperature<U>,
}

impl<U: TemperatureUnit> TemperatureAndBarometricPressure<U> {
    /// Computes the base of the power that `altitude` asks for: the ratio of
    /// the sea-level pressure to the measured one.
    pub fn pressure_ratio(&self) -> (r: Option<i64>)
        ensures
            r == pressure_ratio(self.barometric_pressure as int),
    {
        calculate_pressure_ratio(self.barometric_pressure)
    }

    /// Compute the altitude (in m), given as `power` the value of
    /// `pressure_ratio()` raised to the pressure exponent.
    pub fn altitude(&self, power: i64) -> (r: Altitude)
        ensures
            r == altitude(self.temperature.value.celsius_value() as int, power as int),
    {
        calculate_altitude(self.temperature.celsius(), power)
    }
}

impl<U: TemperatureUnit> PartialEq for TemperatureAndBarometricPressure<U> {
    fn eq(&self, other: &Self) -> (r: bool) {
        self.barometric_pressure == other.barometric_pressure && self.temperature.eq(
            &other.temperature,
        )
    }
}

impl<U: TemperatureUnit> vstd::std_specs::cmp::PartialEqSpecImpl for TemperatureAndBarometricPressure<U> {
    open spec fn obeys_eq_spec() -> bool {
        true
    }

    /// Two measurements are equal when their pressures are the same and
    /// their temperatures are equal.
    open spec fn eq_spec(&self, other: &Self) -> bool {
        self.barometric_pressure == other.barometric_pressure && self.temperature.is_close_to(
            &other.temperature,
        )
    }
}

impl TemperatureAndBarometricPressure<Celsius> {
    /// Create a combination of Celsius temperature and barometric pressure.
    pub fn new(temperature: i64, barometric_pressure: i64) -> (r: Self)
        ensures
            r == Self::new_spec(temperature, barometric_pressure),
    {
        TemperatureAndBarometricPressure {
            barometric_pressure,
            temperature: Temperature::<Celsius>::new(temperature),
        }
    }

    /// The measurement of `temperature` °C and `barometric_pressure` hPa.
    pub open spec fn new_spec(temperature: i64, barometric_pressure: i64) -> Self {
        TemperatureAndBarometricPressure {
            barometric_pressure,
            temperature: Temperature { value: Celsius(temperature) },
        }
    }
}

impl From<TemperatureAndBarometricPressure<Fahrenheit>> for TemperatureAndBarometricPressure<Celsius> {
    fn from(value: TemperatureAndBarometricPressure<Fahrenheit>) -> (r: Self) {
        Self::new(value.temperature.celsius(), value.barometric_pressure)
    }
}

impl vstd::std_specs::convert::FromSpecImpl<TemperatureAndBarometricPressure<Fahrenheit>> for TemperatureAndBarometricPressure<Celsius> {
    open spec fn obeys_from_spec() -> bool {
        true
    }

    open spec fn from_spec(value: TemperatureAndBarometricPressure<Fahrenheit>) -> Self {
        Self::new_spec(value.temperature.value.celsius_value(), value.barometric_pressure)
    }
}

impl TemperatureAndBarometricPressure<Fahrenheit> {
    /// Create a combination of Fahrenheit temperature and barometric pressure.
    pub fn new(temperature: i64, barometric_pressure: i64) -> (r: Self)
        ensures
            r == Self::new_spec(temperature, barometric_pressure),
    {
        TemperatureAndBarometricPressure {
            barometric_pressure,
            temperature: Temperature::<Fahrenheit>::new(temperature),
        }
    }

    /// The measurement of `temperature` °F and `barometric_pressure` hPa.
    pub open spec fn new_spec(temperature: i64, barometric_pressure: i64) -> Self {
        TemperatureAndBarometricPressure {
            barometric_pressure,
            temperature: Temperature { value: Fahrenheit(temperature) },
        }
    }
}

impl From<TemperatureAndBarometricPressure<Celsius>> for TemperatureAndBarometricPressure<Fahrenheit> {
    fn from(value: TemperatureAndBarometricPressure<Celsius>) -> (r: Self) {
        Self::new(value.temperature.fahrenheit(), value.barometric_pressure)
    }
}

impl vstd::std_specs::convert::FromSpecImpl<TemperatureAndBarometricPressure<Celsius>> for TemperatureAndBarometricPressure<Fahrenheit> {
    open spec fn obeys_from_spec() -> bool {
        true
    }

    open spec fn from_spec(value: TemperatureAndBarometricPressure<Celsius>) -> Self {
        Self::new_spec(value.temperature.value.fahrenheit_value(), value.barometric_pressure)
    }
}

/// At the sea-level reference pressure the pressure ratio is exactly one, and
/// where the power is one the altitude is zero, whatever the temperature.
pub proof fn lemma_sea_level_altitude(t: int)
    ensures
        pressure_ratio(SEA_LEVEL_PRESSURE as int) == Some(SCALE),
        altitude(t, SCALE as int) == 0,
{
    let kelvins = sum(t, ZERO_CELSIUS_IN_KELVINS as int);
    assert(difference(SCALE as int, SCALE as int) == 0);
    assert(0 * kelvins == 0);
    assert(product(0, kelvins) == 0);
}

/// Converting a measurement to the unit it already has changes nothing:
/// reading the temperature in its own unit and building the measurement anew
/// gives the very same measurement.
pub proof fn lemma_same_unit_pressure_conversion(
    c: TemperatureAndBarometricPressure<Celsius>,
    f: TemperatureAndBarometricPressure<Fahrenheit>,
)
    ensures
        TemperatureAndBarometricPressure::<Celsius>::new_spec(
            c.temperature.value.celsius_value(),
            c.barometric_pressure,
        ) == c,
        TemperatureAndBarometricPressure::<Fahrenheit>::new_spec(
            f.temperature.value.fahrenheit_value(),
            f.barometric_pressure,
        ) == f,
{
}

/// Converting a measurement to the other unit leaves the pressure as it is
/// and converts the temperature as a temperature alone is converted.
pub proof fn lemma_pressure_conversion_is_structural(
    c: TemperatureAndBarometricPressure<Celsius>,
    f: TemperatureAndBarometricPressure<Fahrenheit>,
)
    ensures
        TemperatureAndBarometricPressure::<Fahrenheit>::from_spec(c).barometric_pressure
            == c.barometric_pressure,
        TemperatureAndBarometricPressure::<Fahrenheit>::from_spec(c).temperature
            == Temperature::<Fahrenheit>::from_spec(c.temperature),
        TemperatureAndBarometricPressure::<Celsius>::from_spec(f).barometric_pressure
            == f.barometric_pressure,
        TemperatureAndBarometricPressure::<Celsius>::from_spec(f).temperature
            == Temperature::<Celsius>::from_spec(f.temperature),
{
}

} // verus!
