//! Content-addressed traceability records for production batches.
//!
//! A caller submits five descriptive fields for a batch. The library checks
//! each text field against its byte-length bound, encodes the fields into a
//! canonical byte sequence, hashes that sequence with SHA-256, renders the
//! digest as a 64-character lowercase hex identifier, and records a timestamp
//! under that identifier in a key-value store. A second operation looks the
//! timestamp up again by identifier, with `0` as the not-found sentinel.

pub mod contract;
pub mod digest;
pub mod encode;
pub mod errors;
pub mod hexfmt;
pub mod store;
