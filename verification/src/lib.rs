//! Core of a sitting-posture monitor.
//!
//! The library classifies body-landmark frames into posture labels, keeps an
//! append-only log of posture transitions from which per-posture hold
//! durations are derived, and drives the decision side of a resilient
//! stream-client loop.  Landmark coordinates are carried as fixed-point
//! numbers in micro-units (one unit is one millionth), so every rule of the
//! classifier is exact integer arithmetic.

pub mod text;
pub mod postures;
pub mod frame;
pub mod classify;
pub mod store;
pub mod events;
pub mod timestamp;
pub mod client;
