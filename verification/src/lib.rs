//! Bridge between a synchronous bit-serial measurement indicator protocol and a
//! Modbus TCP register table.
//!
//! The crate holds the device-independent core of the bridge: the 13-nibble
//! frame decoder, the per-bit clock sampling state machine with its tick-based
//! timeouts, the origin-set actuation state machine driven by a Modbus coil,
//! the shared register table, and the dispatch of one Modbus request against
//! that table. Pin levels and ticks enter as plain values; the surrounding
//! firmware drives the pins, the timer and the TCP socket.

use vstd::prelude::*;

pub mod mitutoyo;
pub mod registers;
pub mod server;

verus! {

/// Number of ticks an origin-set actuation holds its output high.
pub const SET_ORIGIN_TIMEOUT: u64 = 10000;

/// Budget, in ticks, for each half of a clock pulse while sampling a bit.
pub const CLOCK_EDGE_TIMEOUT: u64 = 40;

/// Unit identifier this server answers to.
pub const MODBUS_UNIT_ID: u8 = 1;

/// Capacity of each of the four register tables.
pub const REGISTER_COUNT: usize = 8;

} // verus!
