//! Core of a market-data fan-out gateway.
//!
//! The gateway keeps a websocket session to each configured exchange feed,
//! wraps every text frame it reads into an envelope that names the feed, and
//! broadcasts the envelope to every downstream client.
//!
//! This library holds what the gateway decides and computes:
//!
//! - [`envelope`]: the envelope's text, built around the payload as received,
//!   and read back from a frame;
//! - [`json`]: the JSON grammar against which the envelope is shown to be
//!   well formed;
//! - [`descriptor`]: the configuration of one feed;
//! - [`adapter`]: the state machine of the task that owns one upstream
//!   connection;
//! - [`hub`]: the bounded broadcast channel between adapters and sessions;
//! - [`session`]: the state machine of the task that serves one client;
//! - [`fanout`]: what reaches a client, set against what was published.
//!
//! Sockets, tasks and the listener belong to the program around the library.

pub mod adapter;
pub mod descriptor;
pub mod envelope;
pub mod fanout;
pub mod hub;
pub mod json;
pub mod session;
