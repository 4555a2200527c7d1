//! A transport-free core for a chat client that speaks fixed-size frames.
//!
//! The crate decides and the caller performs: every function here works on
//! plain values, and a driver that owns the socket's I/O carries out the
//! reads and writes that the client asks for. [`Client`] is the session: it
//! keeps the settings and the connection handle, conducts the login
//! handshake, frames what is sent, and merges the queue of outgoing commands
//! with the frames that arrive into one stream of [`Message`] events.
//! [`session`] holds the same machine as mathematics, and [`laws`] what was
//! proved of it.

pub mod client;
pub mod codec;
pub mod command;
pub mod error;
pub mod laws;
pub mod session;
pub mod stream;

pub use client::Client;
pub use codec::{Frame, PCK_SIZE};
pub use command::Command;
pub use error::Error;
pub use stream::{Action, Message, Report};
