//! Lifecycle core of a multi-service network server.
//!
//! The crate decides; the embedding program acts. Every operating-system
//! effect of a server process (forking, thread pools, signals, sockets,
//! sleeping, exiting) is returned as a value that describes it, and the
//! outcome of each effect is handed back as an event.

pub mod configuration;
pub mod laws;
pub mod lifecycle;
pub mod server;
pub mod service;
pub mod signal;
