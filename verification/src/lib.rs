//! Verified decision logic of a dual-Ethernet TCP relay board.
//!
//! Two W5500 Ethernet controllers hang off the RP2040's SPI buses. The first
//! interface accepts TCP connections and offers every chunk it receives to a
//! bounded queue, which drops the chunk when it is full; the second interface
//! writes the queued chunks to whatever peer is connected to it.
//! This crate holds the board settings, the bounded message frames and the
//! session state machines that decide what each network task does next.

pub mod board;
pub mod frame;
pub mod queue;
pub mod listener;
pub mod repeater;
pub mod dhcp;
