//! Verified driver logic for the PixArt PAA5100JE / PMW3901 optical flow sensors.
//!
//! The sensor is driven over SPI. Every operation of the driver is a small state
//! machine: it issues a `Command` (a register write, a register read, a motion
//! burst read or a delay), is resumed with the `Reply` that the bus gave, and
//! eventually finishes with a result. The machines decide; whoever owns the bus
//! performs the commands.

pub mod calibration;
pub mod capture;
pub mod frame;
pub mod identity;
pub mod motion;
pub mod protocol;
pub mod register;
pub mod rotation;
pub mod startup;
pub mod types;

pub use types::{Id, MotionDelta, RotationDegrees, SensorError};
