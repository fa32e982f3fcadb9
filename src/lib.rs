//! Driver logic for an ADXL345 accelerometer node: wraparound-safe ticks,
//! bit-packed sample encoding, and the sampling state machine.

pub mod time;
pub mod sample;
pub mod buffer;
pub mod adxl345;
pub mod commands;
