//! Register codec and bus protocol of the MCP795xx, a battery-backed
//! real-time clock and calendar on a serial bus.
//!
//! The chip keeps the time in registers of one byte each, in binary-coded
//! decimal next to a few control flags. This crate packs a [`DateTime`]
//! into those registers and back, builds the two frames that carry them
//! over the bus, and decides the steps of a bus transaction. It performs no
//! input or output: [`Mcp795xx`] hands out what is to be done on the bus
//! and takes in what came of it.
//!
//! - [`bits`]: bit fields of a byte, the model under every register.
//! - [`registers`]: one type per register, with setters that check the
//!   range, getters that never fail, and the laws that tie them together.
//! - [`datetime`]: the time value.
//! - [`frame`]: the write frame and the read frame.
//! - [`driver`]: the transaction as a state machine.
//! - [`calendar`]: conversion to and from the timestamp of `chrono`.
#![allow(non_snake_case)]

pub mod bits;
pub mod calendar;
pub mod datetime;
pub mod driver;
pub mod error;
pub mod frame;
pub mod registers;

pub use datetime::DateTime;
pub use driver::{Action, Event, Mcp795xx, Outcome, Phase, Step};
pub use error::InvalidInput;
