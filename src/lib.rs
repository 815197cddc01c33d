//! Client-side synchronisation engine for a two-relation chat backend.
//!
//! The engine keeps a local projection of the remote `user` and `message`
//! relations, resolves message senders to display names, routes user input to
//! remote procedures, and tracks the lifecycle of one connection at a time.
//! It performs no I/O: the host hands it backend events and carries out the
//! actions it returns.
pub mod model;
pub mod users;
pub mod buffer;
pub mod command;
pub mod session;
pub mod laws;
