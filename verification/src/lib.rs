//! Bounded connection admission with cooperative shutdown.
//!
//! The crate holds the decisions of a network front end: how many
//! connections may be in flight, what the accept loop does next, when the
//! server stops and with which result. Waiting, sockets and tasks belong to
//! the program that drives these types.

pub mod pool;
pub mod error;
pub mod model;
pub mod accept;
pub mod text;
pub mod config;
pub mod handler;
pub mod server;
