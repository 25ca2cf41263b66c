//! Streaming encode sessions: a verified core that accepts raw RGBA frames one
//! at a time, buffers them in a bounded queue, hands them to a frame writer in
//! order, and tracks the lifecycle of every live session in a registry.
//!
//! Everything here is free of I/O: spawning the encoder process, the writer and
//! diagnostic threads, and blocking on a full queue belong to the caller, which
//! drives the state machines of this crate.
use vstd::prelude::*;

pub mod args;
pub mod encoders;
pub mod error;
pub mod launch;
pub mod laws;
pub mod registry;
pub mod session;
pub mod text;

verus! {

} // verus!
