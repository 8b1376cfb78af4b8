//! Verified core of the MoFA voice applications.
//!
//! The crate holds the decision logic that the applications share: the
//! supervisor that drives an externally managed dataflow on behalf of a user
//! interface, and the catalogues of built-in voices. Everything here works on
//! plain values; threads, queues and the dataflow engine itself belong to the
//! host program that embeds this library.

pub mod dora_integration;
pub mod primespeech;
pub mod tts;
