//! A transport-agnostic socket engine: one endpoint notation and one event
//! model over connectionless datagrams, connection-oriented streams, and a
//! delay-tolerant transport addressed through a non-standard socket family.
//!
//! The crate holds the engine's decision logic: endpoint parsing and
//! formatting, low-level address construction for the custom transport,
//! socket-parameter resolution, the per-protocol listener and sender state
//! machines, the observer notification bus, and the engine's socket cache.
//! The surrounding runtime (an asynchronous executor and the actual socket
//! syscalls) drives these decisions from outside the crate.

pub mod bpaddr;
pub mod cache;
pub mod constants;
pub mod endpoint;
pub mod engine;
pub mod event;
pub mod ipv6;
pub mod listeners;
pub mod scan;
pub mod senders;
pub mod socket;

