//! Verified core of a thermal calibration engine.
//!
//! The crate holds the rules of a calibration run and none of its input or
//! output: how serial devices are selected, which frames the two instrument
//! protocols put on the wire and how their replies are read, how a stream of
//! raw bytes becomes sensor samples, and how a run moves through its
//! setpoints. A driver performs what the functions here decide and hands back
//! what the instruments answered.

pub mod acquisition;
pub mod calibrator;
pub mod control;
pub mod control_laws;
pub mod fluke;
pub mod serial;
pub mod text;
pub mod thermistor;
