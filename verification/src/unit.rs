//! The temperature units: degrees Celsius and degrees Fahrenheit.

use crate::fixed::{add_fixed, approx_eq, close, difference, mul_fixed, product, sub_fixed, sum};
use vstd::prelude::*;

verus! {

/// One degree Celsius, measured in degrees Fahrenheit: 1.8.
pub const FAHRENHEIT_PER_CELSIUS: i64 = 1_800_000_000;

/// One degree Fahrenheit, measured in degrees Celsius: 0.55555, which is
/// 5/9 cut after five digits and therefore not quite the inverse of 1.8.
pub const CELSIUS_PER_FAHRENHEIT: i64 = 555_550_000;

/// The freezing point of water in degrees Fahrenheit: 32.
pub const FREEZING_POINT: i64 = 32_000_000_000;

/// 0 °C in kelvins: 273.15.
pub const ZERO_CELSIUS_IN_KELVINS: i64 = 273_150_000_000;

/// Two temperatures of one unit that lie no further apart than this, 0.01
/// of a degree, count as equal.
pub const TOLERANCE: i64 = 10_000_000;

/// The Fahrenheit reading of a Celsius reading: `c * 1.8 + 32`.
pub open spec fn celsius_to_fahrenheit(c: int) -> int {
    sum(product(c, FAHRENHEIT_PER_CELSIUS as int), FREEZING_POINT as int)
}

/// The Celsius reading of a Fahrenheit reading: `(f - 32) * 0.55555`.
pub open spec fn fahrenheit_to_celsius(f: int) -> int {
    product(difference(f, FREEZING_POINT as int), CELSIUS_PER_FAHRENHEIT as int)
}

/// Converts a temperature in °C to °F.
pub fn convert_celsius_to_fahrenheit(temperature: i64) -> (r: i64)
    ensures
        r == celsius_to_fahrenheit(temperature as int),
{
    add_fixed(mul_fixed(temperature, FAHRENHEIT_PER_CELSIUS), FREEZING_POINT)
}

/// Converts a temperature in °F to °C.
pub fn convert_fahrenheit_to_celsius(temperature: i64) -> (r: i64)
    ensures
        r == fahrenheit_to_celsius(temperature as int),
{
    mul_fixed(sub_fixed(temperature, FREEZING_POINT), CELSIUS_PER_FAHRENHEIT)
}

/// The ways to read a temperature, whatever unit it is kept in.
pub trait TemperatureUnit {
    /// The temperature in billionths of a degree Celsius.
    spec fn celsius_value(&self) -> i64;

    /// The temperature in billionths of a degree Fahrenheit.
    spec fn fahrenheit_value(&self) -> i64;

    /// Get the temperature in degrees Celsius (°C).
    fn celsius(&self) -> (r: i64)
        ensures
            r == self.celsius_value(),
    ;

    /// Get the temperature in degrees Fahrenheit (°F).
    fn fahrenheit(&self) -> (r: i64)
        ensures
            r == self.fahrenheit_value(),
    ;
}

/// The degrees Celsius temperature unit.
#[derive(Clone, Copy, Debug)]
pub struct Celsius(pub i64);

/// The degrees Fahrenheit temperature unit.
#[derive(Clone, Copy, Debug)]
pub struct Fahrenheit(pub i64);

impl Default for Celsius {
    fn default() -> (r: Self)
        ensures
            r.0 == 0,
    {
        Celsius(0)
    }
}

impl Default for Fahrenheit {
    fn default() -> (r: Self)
        ensures
            r.0 == 0,
    {
        Fahrenheit(0)
    }
}

impl TemperatureUnit for Celsius {
    open spec fn celsius_value(&self) -> i64 {
        self.0
    }

    open spec fn fahrenheit_value(&self) -> i64 {
        celsius_to_fahrenheit(self.0 as int) as i64
    }

    fn celsius(&self) -> (r: i64) {
        self.0
    }

    fn fahrenheit(&self) -> (r: i64) {
        convert_celsius_to_fahrenheit(self.0)
    }
}

impl TemperatureUnit for Fahrenheit {
    open spec fn celsius_value(&self) -> i64 {
        fahrenheit_to_celsius(self.0 as int) as i64
    }

    open spec fn fahrenheit_value(&self) -> i64 {
        self.0
    }

    fn celsius(&self) -> (r: i64) {
        convert_fahrenheit_to_celsius(self.0)
    }

    fn fahrenheit(&self) -> (r: i64) {
        self.0
    }
}

impl From<Fahrenheit> for Celsius {
    fn from(value: Fahrenheit) -> (r: Self) {
        Celsius(convert_fahrenheit_to_celsius(value.0))
    }
}

impl vstd::std_specs::convert::FromSpecImpl<Fahrenheit> for Celsius {
    open spec fn obeys_from_spec() -> bool {
        true
    }

    open spec fn from_spec(value: Fahrenheit) -> Self {
        Celsius(value.celsius_value())
    }
}

impl From<Celsius> for Fahrenheit {
    fn from(value: Celsius) -> (r: Self) {
        Fahrenheit(convert_celsius_to_fahrenheit(value.0))
    }
}

impl vstd::std_specs::convert::FromSpecImpl<Celsius> for Fahrenheit {
    open spec fn obeys_from_spec() -> bool {
        true
    }

    open spec fn from_spec(value: Celsius) -> Self {
        Fahrenheit(value.fahrenheit_value())
    }
}

impl PartialEq for Celsius {
    fn eq(&self, other: &Self) -> (r: bool) {
        approx_eq(self.0, other.0, TOLERANCE)
    }
}

impl vstd::std_specs::cmp::PartialEqSpecImpl for Celsius {
    open spec fn obeys_eq_spec() -> bool {
        true
    }

    open spec fn eq_spec(&self, other: &Self) -> bool {
        close(self.0 as int, other.0 as int, TOLERANCE as int)
    }
}

impl PartialEq for Fahrenheit {
    fn eq(&self, other: &Self) -> (r: bool) {
        approx_eq(self.0, other.0, TOLERANCE)
    }
}

impl vstd::std_specs::cmp::PartialEqSpecImpl for Fahrenheit {
    open spec fn obeys_eq_spec() -> bool {
        true
    }

    open spec fn eq_spec(&self, other: &Self) -> bool {
        close(self.0 as int, other.0 as int, TOLERANCE as int)
    }
}

/// A Celsius reading between -999 and 999 degrees that is taken to
/// Fahrenheit and back comes out within the tolerance of where it started.
pub proof fn lemma_celsius_round_trip(t: int)
    requires
        -999_000_000_000 <= t <= 999_000_000_000,
    ensures
        close(fahrenheit_to_celsius(celsius_to_fahrenheit(t)), t, TOLERANCE as int),
{
}

/// A Fahrenheit reading between -967 and 1031 degrees (no further than 999
/// degrees from the freezing point) that is taken to Celsius and back comes
/// out within the tolerance of where it started.
pub proof fn lemma_fahrenheit_round_trip(t: int)
    requires
        -967_000_000_000 <= t <= 1_031_000_000_000,
    ensures
        close(celsius_to_fahrenheit(fahrenheit_to_celsius(t)), t, TOLERANCE as int),
{
}

/// The constant 0.55555 falls short of 5/9, so a round trip loses one part
/// in a hundred thousand of the reading, and the two roundings lose up to
/// two billionths more. This holds wherever the conversion to Fahrenheit
/// does not saturate.
pub proof fn lemma_round_trip_drift(t: int)
    requires
        -5_000_000_000_000_000_000 <= t <= 5_000_000_000_000_000_000,
    ensures
        t >= 0 ==> t - t / 100_000 - 2 <= fahrenheit_to_celsius(celsius_to_fahrenheit(t)) <= t,
        t <= 0 ==> t <= fahrenheit_to_celsius(celsius_to_fahrenheit(t)) <= t + (-t) / 100_000 + 2,
{
}

/// The two readings of a unit value agree with each other: one is the value
/// kept, the other follows from it by the conversion.
pub proof fn lemma_readings_consistent(c: Celsius, f: Fahrenheit)
    ensures
        c.celsius_value() == c.0,
        c.fahrenheit_value() == celsius_to_fahrenheit(c.celsius_value() as int),
        f.fahrenheit_value() == f.0,
        f.celsius_value() == fahrenheit_to_celsius(f.fahrenheit_value() as int),
{
}

} // verus!
