//! Verified core of a WebTransport ping-pong client and server.
//!
//! The network side (endpoints, streams, timers, logging) lives outside this
//! crate. The decisions of the conversations, of the client's connect loop and
//! of the server's listen loop and session tasks are here, as functions from
//! an event to the next action, each with an exact contract; the next action
//! names what to do (and, for a connection, where to connect), and the caller
//! performs it and reports the outcome.
mod outside;

pub mod error;
pub mod handler;
pub mod server;
pub mod client;
pub mod web_transport;
