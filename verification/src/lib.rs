//! Lifecycle management for a single-use HTTP/3 client.
//!
//! The library decides and the program around it does the I/O.
//!
//! - `trust`, `tls`, `connector` and `setup` settle a run before it touches
//!   the network: trust anchors from a PEM bundle, the TLS settings, the
//!   target of a URI and the address to connect to.
//! - `endpoint`, `connection`, `session` and `stream` are the state machines
//!   of the transport as the client sees it.
//! - `exchange` steps one request and its response over a stream, and
//!   `coordinator` supervises the exchanges and the session's driver and
//!   takes the run down in order.
//! - `message` holds requests and responses, `error` every failure and how it
//!   is classified.

pub mod connection;
pub mod connector;
pub mod coordinator;
pub mod endpoint;
pub mod error;
pub mod exchange;
pub mod message;
pub mod session;
pub mod setup;
pub mod stream;
pub mod tls;
pub mod trust;
