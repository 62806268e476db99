//! The WebTransport side of the library: configuration, the client handle, and
//! the decisions that the client's connect loop and the server's per-session
//! task make.
pub mod common;
pub mod client;
pub mod server;

pub use common::{received_message, WebTransportServerConfig, BUFFER_LENGTH};
pub use client::WebTransportClient;
