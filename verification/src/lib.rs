//! Verified core of a peer-to-peer chess client.
//!
//! Two processes play against each other by exchanging small JSON bodies
//! over HTTP.  This crate holds everything worth proving about that
//! exchange: the wire grammar and its parser, the move envelope, the
//! one-shot color negotiation, the two-sided draw/rematch consent
//! handshake, the turn-ownership validation of the shared match record,
//! and the request router that ties them together.
//!
//! The rule engine (legal-move generation, check and checkmate detection)
//! and all transport I/O are external collaborators: the library reaches
//! decisions from plain values handed in by the surrounding process and
//! returns plain values describing what to do next.

use vstd::prelude::*;

pub mod board;
pub mod color;
pub mod envelope;
pub mod grammar;
pub mod input;
pub mod laws;
pub mod parse;
pub mod router;
pub mod session;

verus! {

} // verus!
