//! A boundary layer around a streaming audio codec engine: it validates the
//! caller's arguments, runs the engine behind a fault guard, and reports
//! every outcome as a plain return code plus an optional error record.
//!
//! The raw C surface (pointers, null checks on handles, the unwind catch)
//! lives in a thin unverified shell around this crate; everything the shell
//! decides with is computed here, over plain values.

pub mod error;
pub mod utils;
pub mod engine;
pub mod decoder;
pub mod encoder;
