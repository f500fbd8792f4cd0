[package]
name = "weather_utils"
version = "0.1.0"
edition = "2021"
publish = false

[dependencies]
approx = { version = "0.5", default-features = false }
micromath = "2"
