//! Platform-agnostic driver for the AS5600 digital magnetic position sensor.
//!
//! The crate translates between raw register bytes exchanged with the device
//! and typed domain values (angles, configuration bitfields, magnet status,
//! persistence counters), and enforces the device's one-time and
//! limited-count persistence ("burn") rules.

pub mod bus;
pub mod configuration;
pub mod constants;
pub mod driver;
pub mod error;
pub mod register;
pub mod status;

pub use driver::As5600;
