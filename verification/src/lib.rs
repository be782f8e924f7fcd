//! Construction protocol for a secured, message-oriented client transport.
//!
//! A builder owns caller-supplied trust configuration and a connection
//! capability, and assembles — synchronously, without performing any I/O —
//! an establishment attempt paired with an outbound handle. A driver runs
//! the raw connect operation and the secure-channel handshake and reports
//! each outcome to the attempt's verified state machine, which applies the
//! success transformation (wrapping the raw secured stream as the protocol
//! client stream) or the failure transformation (normalizing any failure
//! into the unified error type, preserving the cause).

pub mod addr;
pub mod builder;
pub mod error;
pub mod establish;
pub mod handle;
pub mod trust;
