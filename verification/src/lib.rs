//! Simulated telemetry backend for an acquisition-run control protocol.
//!
//! The crate models the yield statistics of a simulated sequencing run: a
//! [`accumulator::YieldSummary`] advanced by a deterministic, threshold-gated
//! tick rule, a [`store::RunStateStore`] that owns one accumulator per run
//! identifier and hands out consistent snapshots, and the two service
//! front-ends ([`acquisition::Acquisition`] and [`statistics::Statistics`])
//! that translate snapshots into response records.

pub mod accumulator;
pub mod acquisition;
pub mod statistics;
pub mod store;
