//! Core logic of a small monophonic synthesizer plugin: a parameter store
//! shared between threads, a block-based square-wave synthesis engine, and
//! the lifecycle state machine for an embedded editor window.
//!
//! Values that the host exchanges as floating-point numbers are carried here
//! as exact integers: parameter values as IEEE-754 single-precision bit
//! patterns, frequencies in millihertz, and the oscillator phase as a
//! rational number over a fixed denominator derived from the sample rate.
pub mod engine;
pub mod events;
pub mod gui;
pub mod params;
pub mod ports;
