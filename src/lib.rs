//! A small job-submission service: an in-memory job store with an explicit
//! connection state, the two request handlers that work against it, and the
//! state machine that orders startup, serving, draining and shutdown.

pub mod store;
pub mod server;
pub mod lifecycle;
pub mod service;
