//! Builds the aggregated repository index for a plugin distribution channel.
//!
//! The library merges two inputs: a build-state document recording which
//! plugins were built and when, and one manifest document per plugin holding
//! its publishable metadata. The result is an ordered index of manifest
//! records with all derived fields (timestamps, download links, counters,
//! channel-provenance flags) freshly computed.

pub mod json;
pub mod manifest;
pub mod merge;
pub mod state;
