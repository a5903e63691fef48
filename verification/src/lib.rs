//! Core of a local development file server with live reload.
//!
//! The crate holds the verified logic of the server: validation and
//! resolution of request paths against a server root, the decision which
//! content gets the reload script injected and where, the broadcast bus
//! that fans reload notifications out to attached client sessions, and the
//! per-session state machine. The surrounding program does the actual
//! network and file I/O and drives these functions.

pub mod bus;
pub mod paths;
pub mod serve;
pub mod session;
