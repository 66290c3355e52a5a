//! Session logic for secure one-file transfers over magic-wormhole.
//!
//! A [`Pylon`] holds a session's identity (application id, rendezvous and
//! relay endpoints, transit abilities) and two single-item slots: the pending
//! handshake produced by code generation, and the pending inbound transfer
//! offer produced by a file request. The methods here decide every step of
//! the four session operations; the network and file work around them is
//! performed by the caller, which hands each outcome back.
mod builder;
mod error;
mod outside;
mod session;

pub use builder::PylonBuilder;
pub use error::{PylonBuilderError, PylonError};
pub use outside::{default_relay_server, default_rendezvous_server};
pub use session::{finish_connect, relay_hints_for, Abilities, FileName, Outgoing, Pylon};
