//! Request handling for an inference gateway: records keyed by a generated
//! identifier are written to a key-value store and published on a message
//! stream. The network clients live with the caller; this crate decides what
//! to send and what to answer.

pub mod record;
pub mod flow;
pub mod laws;
