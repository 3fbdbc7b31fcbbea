//! A command/response client core for text-based device-control protocols
//! spoken over a byte-oriented transport.
//!
//! Devices on such links need a minimum idle interval between commands (the
//! cooldown) and answer within a bounded wait, if they answer at all. The core
//! here is the decision part of that discipline: a deadline timer over a
//! monotonic tick clock, and a client state machine that sequences one command
//! execution — wait out the cooldown, subscribe before transmitting, write,
//! race the reply against a timeout deadline, re-arm the cooldown — one
//! suspension point at a time. The suspensions themselves (the transport, the
//! clock driver, the response source) are capabilities of the surrounding
//! program, which performs each [`client::Action`] and reports each
//! [`client::Event`] back.

pub mod client;
pub mod laws;
pub mod timer;
