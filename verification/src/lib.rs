//! Orchestration of the author and subscriber roles of a streaming channel.
//!
//! The protocol engine and the transport live outside this library. What is
//! here are the decisions around them: which link to fetch, which fetched
//! message to hand to the engine, when the signing key has to be changed, and
//! what each operation finally reports. Every operation is a small machine
//! that answers an event with the next action to perform.

pub mod channels;
pub mod utils;
