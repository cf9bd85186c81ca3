//! Sampling, link-quality and snapshot-publication logic of a water-quality probe.
//!
//! Every item here is verified: the hardware and network edges live in the
//! application around this library and hand it plain values.

pub mod signal;
pub mod cache;
pub mod measurement;
pub mod retry;
pub mod schedule;
pub mod wait;
pub mod report;
pub mod display;
