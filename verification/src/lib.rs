//! Weather computations on fixed-point readings.
//!
//! Every quantity is a signed count of billionths of its unit, so that the
//! whole library runs on integer arithmetic alone. Where a formula needs a
//! natural exponential or a real power, the library hands out the arguments
//! and takes the value back as a reading of the same kind.

pub mod fixed;
pub mod humidity;
pub mod pressure;
pub mod temperature;
pub mod unit;

pub use humidity::{AbsoluteHumidity, RelativeHumidity, TemperatureAndRelativeHumidity};
pub use pressure::{Altitude, BarometricPressure, TemperatureAndBarometricPressure};
pub use temperature::Temperature;
