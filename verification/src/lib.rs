//! Core of a bridge between a serial smart meter and network consumers.
//!
//! The meter's latest reading and the lifecycle of the sampling task live in
//! [`reader::ReaderData`]; the consumers that want each new reading pushed to
//! them live in [`appdata::AppData`]. Every operation here works on a value
//! that the caller owns or has locked, so each call is one atomic step of the
//! system; threads, sockets and the serial port belong to the caller.
//!
//! - [`status`]: the lifecycle of the sampling task and its transition rules.
//! - [`reader`]: the shared state, the step of the sampling task, the spawn.
//! - [`telegram`]: from the bytes of a readout to a reading.
//! - [`appdata`]: the register of push clients and the signal.
//! - [`endpoints`]: the control operations, routing and request parameters.
//! - [`udp_sender`]: what the push task sends after each wake.
//! - [`history`]: what holds of the shared state over any run of the system.
//! - [`endpoint`], [`error`]: the plain types that the others speak of.

pub mod appdata;
pub mod endpoint;
pub mod endpoints;
pub mod error;
pub mod history;
pub mod reader;
pub mod status;
pub mod telegram;
pub mod udp_sender;
