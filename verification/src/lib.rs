//! Core of a proxy re-encryption enclave application.
//!
//! The library holds the verified logic of the system: the length-framed
//! transport codec and its partial-I/O engine, the bounded-backoff connect
//! schedule, the key-exchange step, the re-encryption pipeline, and the wire
//! object encoder. Socket calls, HTTP plumbing and argument handling live
//! outside the library and hand it plain values.

pub mod cli;
pub mod connector;
pub mod encoder;
pub mod errors;
pub mod keyexchange;
pub mod models;
pub mod pipeline;
pub mod transport;
pub mod wire;
