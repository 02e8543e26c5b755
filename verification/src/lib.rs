//! A latency probe library for a blockchain transaction-relay endpoint.
//!
//! The library assembles a deterministic, replay-distinct signed transaction
//! payload, wraps it in a JSON-RPC submission envelope, and drives the
//! keep-alive submission protocol: submit, wait, health-check, submit again
//! over one warm connection. All network and file access stays with the
//! caller; the library hands out the payloads and the ordered actions to
//! perform, and consumes the events that come back.

pub mod errors;
pub mod instructions;
pub mod keys;
pub mod payload;
pub mod prober;
