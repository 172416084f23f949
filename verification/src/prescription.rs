//! The prescription domain: an instantiation of the engine's aggregate,
//! machine, service and outbox abstractions for one sample business entity.

pub mod aggregate;
pub mod command;
pub mod context;
pub mod error;
pub mod event;
pub mod http;
pub mod machine;
pub mod outbox;
pub mod service;
pub mod services;
pub mod sql;
