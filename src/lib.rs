//! Touch input for embedded displays: decoding for a capacitive multi-touch
//! controller (FT6236 family), command encoding for a resistive controller
//! (TSC2007), and a calibrated mapping from raw sensor units to panel pixels.
//!
//! Bus transactions are not performed here: every function of this crate
//! works on the bytes that a transaction sends or receives, so the protocol
//! logic is verified independently of any bus.

pub mod ft6236;
pub mod tsc2007;
pub mod touch_mapper;
