//! Peripheral access layer for a Kinetis K64 class microcontroller.
//!
//! Hardware registers are represented by plain register models; the driver
//! logic that decides what to write is verified against those models.
pub mod bits;
pub mod sim;
pub mod gpio;
pub mod i2c;
pub mod uart;
