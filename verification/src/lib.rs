//! Sequencing logic for a small radio beacon: a noise generator, a
//! frequency-sweep transmitter and a scan indicator that blinks LEDs.
//!
//! Every function here works on plain values. The hardware is driven by the
//! caller, which performs the commands that the workers hand out and reports
//! back how each one ended.

pub mod color;
pub mod indicator;
pub mod led;
pub mod noise;
pub mod scan;
pub mod sweep;
