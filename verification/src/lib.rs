//! Decoding and unit-conversion pipeline for an INA219 current/voltage/power
//! measurement device that reports over a fixed-size binary channel.
//!
//! The library covers the pure core of one polling iteration: deserializing
//! the fixed 8-byte on-wire report, converting raw register values to
//! calibrated fixed-point measurements, and selecting the fields to emit in
//! a stable, deterministic order. Transport, device discovery and output
//! formatting are left to the surrounding program.

pub mod parse;
pub mod pipeline;
pub mod report;
pub mod selection;
