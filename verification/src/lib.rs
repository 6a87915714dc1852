//! A flight-telemetry alerting library.
//!
//! Telemetry samples (altitude, airspeed, bank, pitch) arrive at roughly one
//! per second and are turned into spoken-alert requests: flight-phase
//! transitions, altitude-band crossings, and threshold violations. The
//! signal-processing and decision pipeline lives here, fully verified; the
//! frontend that acquires samples from a simulation host and synthesizes
//! speech is ordinary unverified plumbing around it.
//!
//! All quantities are whole units (feet, knots, degrees, feet per minute) and
//! timestamps are milliseconds, so that every decision the pipeline makes is
//! exact integer arithmetic.

pub mod alert;
pub mod arith;
pub mod config;
pub mod history;
pub mod moving_average;
pub mod phase;
pub mod pipeline;
pub mod sample;
