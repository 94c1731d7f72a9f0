//! A day-stepped stochastic model of infection and treatment in a small,
//! fixed population of hosts.
//!
//! All quantities are integers. Durations are counted in thousandths of a
//! day, probabilities and rates in parts per million, elapsed time in
//! billionths of a simulated day.

pub mod clock;
pub mod engine;
pub mod host;
pub mod inoculation;
pub mod params;
pub mod random;
pub mod simulation;
