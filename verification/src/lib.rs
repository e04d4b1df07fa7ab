//! Value marshalling and remote-call boundary for a dynamically-typed host.
//!
//! The library translates between a duck-typed host representation
//! ([`host::HostValue`]) and a closed, strongly-typed tagged value model
//! ([`value::Value`]), and states the decision rules of the synchronous
//! call/callback protocol that wraps procedure invocation.
//!
//! Floating-point payloads cross this boundary as `u64` IEEE 754 bit
//! patterns: the marshalling layer never computes with them, it only moves
//! them, so the bit pattern is the exact datum to preserve.

pub mod dispatch;
pub mod error;
pub mod from_host;
pub mod host;
pub mod laws;
pub mod to_host;
pub mod value;
