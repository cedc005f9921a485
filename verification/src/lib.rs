//! A verified core for a batch ROM-compression tool.
//!
//! The library holds everything the tool decides and computes: format
//! classification, tool resolution, file-set planning, output naming,
//! the per-job and scheduler state machines, cleanup rules, and
//! directory-flattening plans. Filesystem access, process spawning and
//! threading live outside, in the surrounding binary, which feeds this
//! library plain values and carries out the actions it returns.

pub mod archive;
pub mod convert;
pub mod cue_sheet;
pub mod flatten;
pub mod job;
pub mod names;
pub mod plan;
pub mod rom_format;
pub mod search;
