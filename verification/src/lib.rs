//! Read-only decoder for a racing simulator's telemetry feed.
//!
//! The simulator publishes telemetry into a shared memory region and into
//! recorded files with a compatible layout.  This crate parses the versioned
//! binary header of such a region, builds a typed catalog of the variables it
//! declares, selects a torn-read-free snapshot among the rotating buffers,
//! decodes typed values out of a snapshot, extracts the embedded session
//! document, and applies the same decoding to disk-resident recordings.
//!
//! The crate never writes to a region and performs no I/O of its own: callers
//! hand it the region bytes and it hands back decoded values or typed errors.

pub mod errors;
pub mod region;
pub mod header;
pub mod text;
pub mod catalog;
pub mod sample;
pub mod selector;
pub mod session;
pub mod disk;
pub mod wait;
pub mod connection;
pub mod fps;
pub mod simulation;
pub mod broadcast;
