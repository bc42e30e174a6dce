//! Battleships for two players who talk over a byte stream.
//!
//! Each player runs a [`session::Session`]: it holds the player's own
//! [`board::MyBoard`], what is known of the opponent's ([`board::TheirBoard`])
//! and the opponent's shots so far ([`board::Bombs`]), and it decides whose
//! turn it is. The players exchange two kinds of message, whose bytes
//! [`wire`] encodes and decodes. [`model`] says what a board is drawn as, and
//! [`play`] proves what holds of a session over a whole game.
//!
//! The library does no input or output. Its caller reads the bytes and the
//! clicks, hands them to the session, and writes and draws what comes back.

use vstd::prelude::*;

pub mod model;
pub mod board;
pub mod wire;
pub mod session;
pub mod play;

verus! {

/// Number of rows, and of columns, of every board.
pub const SIZE: usize = 10;

} // verus!
