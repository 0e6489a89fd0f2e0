//! A hardware-in-the-loop test stand: the firmware of a remotely controlled
//! "assistant" board and the host-side API that drives it, sharing one wire
//! protocol.
//!
//! The crate models both halves of the stand. [`device`] is the assistant
//! firmware's state machine: interrupt handlers feed bounded queues, and a
//! dispatch loop handles one host command per pass, drains the queues into
//! latest-reading maps, and decides whether the processor may sleep.
//! [`assistant`] is the host's synchronized remote-control API over the
//! same protocol, behind a fail-fast exclusive-access guard and a pin
//! registry that hands each pin out at most once. [`codec`] defines the
//! wire form of the messages and proves that decoding an encoded message
//! always gives the message back. [`conn`] carries frames between the two
//! halves: over an in-memory link for tests, through the in-process
//! firmware model for a full loopback stand, or over a serial port supplied
//! by the surrounding program.

use vstd::prelude::*;

pub mod pin;
pub mod messages;
pub mod codec;
pub mod bounded;
pub mod device;
pub mod mock;
pub mod conn;
pub mod remote_pin;
pub mod assistant;
pub mod test_stand;
pub mod error;

verus! {

} // verus!
