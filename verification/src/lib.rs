//! A verified core for a single-threaded, non-blocking HTTP/1.0 static file
//! server.
//!
//! The crate contains the pure, verifiable parts of such a server: the
//! request-line parser, the response builder, the connection table and the
//! per-connection state machine, and the event-dispatch decisions of the
//! reactor.  All operating-system I/O (binding, polling, accepting, reading,
//! writing) is performed by a thin unverified shell that feeds plain values
//! into these functions and carries their decisions out.

use vstd::prelude::*;

pub mod addr;
pub mod error;
pub mod parser;
pub mod response;
pub mod server;
pub mod table;

verus! {

/// The byte value of an ASCII space.
pub const SP: u8 = 32;

/// The byte value of an ASCII carriage return.
pub const CR: u8 = 13;

/// The byte value of an ASCII line feed.
pub const LF: u8 = 10;

} // verus!
