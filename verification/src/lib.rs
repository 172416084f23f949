//! A small event-sourcing engine: aggregates modelled as append-only logs of
//! immutable domain events, reconstructed by replay (optionally from a
//! snapshot), mutated only by deciding new events from commands through a
//! declarative finite-state machine, with reliable downstream delivery of
//! committed events through a transactional outbox relay.

pub use vstd;

pub mod aggregate;
pub mod channel;
pub mod event;
pub mod ids;
pub mod machine;
pub mod ports;
pub mod prescription;
