//! A temperature that remembers the unit it was given in.

use crate::fixed::{approx_eq, close};
use crate::unit::{
    lemma_celsius_round_trip, lemma_fahrenheit_round_trip, Celsius, Fahrenheit, TemperatureUnit,
    TOLERANCE,
};
use vstd::prelude::*;
use vstd::std_specs::cmp::PartialEqSpec;
use vstd::std_specs::convert::FromSpec;

verus! {

/// The temperature (either in °C, or in °F).
#[derive(Clone, Copy, Debug, Default)]
pub struct Temperature<U: TemperatureUnit> {
    pub value: U,
}

impl<U: TemperatureUnit> Temperature<U> {
    /// Two temperatures are close, and `==` holds them equal, when their
    /// Celsius readings lie within the tolerance of each other.
    pub open spec fn is_close_to(&self, other: &Self) -> bool {
        close(
            self.value.celsius_value() as int,
            other.value.celsius_value() as int,
            TOLERANCE as int,
        )
    }

    /// Get the temperature value in degrees Celsius (°C).
    pub fn celsius(&self) -> (r: i64)
        ensures
            r == self.value.celsius_value(),
    {
        self.value.celsius()
    }

    /// Get the temperature value in degrees Fahrenheit (°F).
    pub fn fahrenheit(&self) -> (r: i64)
        ensures
            r == self.value.fahrenheit_value(),
    {
        self.value.fahrenheit()
    }
}

impl<U: TemperatureUnit> PartialEq for Temperature<U> {
    fn eq(&self, other: &Self) -> (r: bool) {
        approx_eq(self.celsius(), other.celsius(), TOLERANCE)
    }
}

impl<U: TemperatureUnit> vstd::std_specs::cmp::PartialEqSpecImpl for Temperature<U> {
    open spec fn obeys_eq_spec() -> bool {
        true
    }

    open spec fn eq_spec(&self, other: &Self) -> bool {
        self.is_close_to(other)
    }
}

impl Temperature<Celsius> {
    /// Create a Celsius temperature.
    pub fn new(value: i64) -> (r: Self)
        ensures
            r == (Temperature { value: Celsius(value) }),
    {
        Temperature { value: Celsius(value) }
    }
}

impl From<Temperature<Fahrenheit>> for Temperature<Celsius> {
    fn from(value: Temperature<Fahrenheit>) -> (r: Self) {
        Temperature { value: Celsius::from(value.value) }
    }
}

impl vstd::std_specs::convert::FromSpecImpl<Temperature<Fahrenheit>> for Temperature<Celsius> {
    open spec fn obeys_from_spec() -> bool {
        true
    }

    open spec fn from_spec(value: Temperature<Fahrenheit>) -> Self {
        Temperature { value: Celsius(value.value.celsius_value()) }
    }
}

impl Temperature<Fahrenheit> {
    /// Create a Fahrenheit temperature.
    pub fn new(value: i64) -> (r: Self)
        ensures
            r == (Temperature { value: Fahrenheit(value) }),
    {
        Temperature { value: Fahrenheit(value) }
    }
}

impl From<Temperature<Celsius>> for Temperature<Fahrenheit> {
    fn from(value: Temperature<Celsius>) -> (r: Self) {
        Temperature { value: Fahrenheit::from(value.value) }
    }
}

impl vstd::std_specs::convert::FromSpecImpl<Temperature<Celsius>> for Temperature<Fahrenheit> {
    open spec fn obeys_from_spec() -> bool {
        true
    }

    open spec fn from_spec(value: Temperature<Celsius>) -> Self {
        Temperature { value: Fahrenheit(value.value.fahrenheit_value()) }
    }
}

/// A temperature between -999 °C and 999 °C that is converted to Fahrenheit
/// and back equals the temperature it started as.
pub proof fn lemma_celsius_temperature_round_trip(t: Temperature<Celsius>)
    requires
        -999_000_000_000 <= t.value.0 <= 999_000_000_000,
    ensures
        Temperature::<Celsius>::from_spec(Temperature::<Fahrenheit>::from_spec(t)).eq_spec(&t),
{
    lemma_celsius_round_trip(t.value.0 as int);
}

/// A temperature between -967 °F and 1031 °F that is converted to Celsius and
/// back equals the temperature it started as.
pub proof fn lemma_fahrenheit_temperature_round_trip(t: Temperature<Fahrenheit>)
    requires
        -967_000_000_000 <= t.value.0 <= 1_031_000_000_000,
    ensures
        Temperature::<Fahrenheit>::from_spec(Temperature::<Celsius>::from_spec(t)).eq_spec(&t),
{
    lemma_fahrenheit_round_trip(t.value.0 as int);
}

} // verus!
