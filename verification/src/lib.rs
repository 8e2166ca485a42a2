//! Verified core of a bipedal-robot control runtime.
//!
//! The library covers the logic of the runtime that is worth proving:
//! the bus-servo wire protocol (framing, checksums, synchronous group
//! read/write, unit conversion), gait-phase tracking, action filtering,
//! gamepad button-edge detection with debouncing, latest-value sensor
//! handoff, and the per-tick decisions of the control loop.
//!
//! All physical quantities are carried as fixed-point integers:
//! angles and angular velocities in microradians (`i64`), dimensionless
//! scale factors in thousandths, and time in milliseconds.  Hardware
//! access (serial port, I2C, GPIO, audio, the inference engine) stays
//! outside the library; the functions here compute the exact bytes to
//! send and interpret the bytes received.

pub mod config;
pub mod control;
pub mod controller;
pub mod imu;
pub mod motors;
pub mod peripherals;
pub mod protocol;
pub mod reference_motion;
pub mod rl_utils;
pub mod sensor_channel;
pub mod tenant;
pub mod units;
