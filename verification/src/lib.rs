//! Client-side coordination for a Lavalink audio node.
//!
//! The library keeps the playback state of every guild, decides which
//! command goes out next and takes note of what the server reports. It
//! sends nothing and waits for nothing: every operation that talks to the
//! server returns the [`opcode::Command`] to transmit, and a caller that
//! owns the socket and the timers carries it out.
//!
//! - [`client`] holds the client and its operations, [`builders`] the
//!   settings of a client and the requests to play a track.
//! - [`node`] is the playback state of one guild, [`registry`] the nodes of
//!   all guilds and the set of guilds with a dispatcher, and [`state`] the
//!   mathematical model that the contracts of the operations speak of.
//! - [`reactor`] reacts to the events of the server and schedules
//!   reconnection; [`connection`] is the handle of the socket session.
//! - [`opcode`], [`voice`], [`handshake`] and [`search`] build what is sent:
//!   commands, voice updates, the opening headers and REST requests.
//! - [`laws`] states and proves what holds across operations.

pub mod builders;
pub mod client;
pub mod connection;
pub mod error;
pub mod handshake;
pub mod laws;
pub mod model;
pub mod node;
pub mod opcode;
pub mod reactor;
pub mod registry;
pub mod search;
pub mod shared;
pub mod state;
pub mod text;
pub mod time;
pub mod voice;
