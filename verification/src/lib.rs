//! A serial-telemetry logger core: extracts fixed-arity numeric payloads
//! from marker-tagged lines and appends them, together with operator
//! start/stop markers, to an ordered stream of structured records.
//!
//! The record stream is modeled as a sequence of rows of cells; the laws
//! module states what whole traces of lines and commands do to it.

pub mod control;
pub mod csvout;
pub mod dec;
pub mod extract;
pub mod ingest;
pub mod laws;
pub mod record;
pub mod text;
