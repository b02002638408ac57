//! Client-side agent of a distributed job-submission network.
//!
//! The library holds the verified core: the wire codec for the untyped byte
//! envelopes, the message dispatcher with its decode-and-fallback
//! classification, the job lifecycle state machine, and the chain-state
//! synchronization transitions. The surrounding process (receive loop,
//! artifact storage, persistence, timers) performs the effects this library
//! computes.

pub mod chain;
pub mod codec;
pub mod dispatch;
pub mod endpoint;
pub mod laws;
pub mod roundtrip;
pub mod state;
pub mod wire;
