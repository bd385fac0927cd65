//! Verified core of a status/control bot for a single game server.
//!
//! The library holds everything the bot decides and formats: parsing a
//! `host[:port]` address, the shape of a probe result, and the command
//! dispatcher that turns commands and the answers to its requests
//! (configuration reads and writes, a status probe, a process launch)
//! into exactly one textual reply per command. All network, storage and
//! platform work is performed by the surrounding application, which
//! drives the dispatcher state machine with plain values.

pub mod addr;
pub mod dispatch;
pub mod probe;
pub mod surface;
pub mod text;
