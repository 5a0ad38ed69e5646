//! Core of an audio decode-and-playback engine.
//!
//! A media decoder turns a compressed stream held in memory into a sequence
//! of fixed-point samples, with a bounded decode-retry policy, deferred
//! (click-free) seeking and linear fade ramps applied in the per-sample path.
//! A playback orchestrator sequences transport operations against a sink and
//! reports normalized progress. All time quantities are u64 nanosecond
//! counts; all amplitude ratios are rationals held as integer numerator and
//! denominator, so every rule of the engine is stated and proved over plain
//! integers.

pub mod decoder;
pub mod fade;
pub mod media;
pub mod player;
pub mod retry;
pub mod units;
