//! Core of a round-trip audio latency meter.
//!
//! A probe tone is emitted on a playback stream and listened for on a capture
//! stream; the elapsed time between emission and detection is the round-trip
//! latency. This crate holds the verified engine: the shared arming state that
//! the two stream callbacks coordinate through, the detector that classifies
//! capture blocks, the transmitter that fills playback blocks, and the latency
//! estimator. Amplitudes are fixed-point integers in milliunits (1000 == an
//! amplitude of 1.0); times are nanoseconds from a monotonic clock, and
//! reported delays are microseconds.

pub mod config;
pub mod detector;
pub mod estimator;
pub mod state;
pub mod transmitter;
