//! A minimal real-time application loop framework: frame pacing, a fixed-step
//! update cadence, and translation of raw platform input events into semantic
//! actions dispatched to a consumer-supplied application.
//!
//! The platform backend (window, renderer, event source, clock) lives outside
//! this crate; the host hands the loop core plain values (event records and
//! microsecond timestamps) and carries out the decisions it returns.

pub mod context;
pub mod input;
pub mod timing;
