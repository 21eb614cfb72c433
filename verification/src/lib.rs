//! Capture of a UART byte stream into a timestamped text log.
//!
//! The crate holds the decisions of a capture session: which transport is
//! active, what one poll step asks of the driver, and what is appended to the
//! log for the bytes that a read delivered. Opening devices, reading sockets and
//! writing files are left to the program that drives the session.

pub mod decimal;
mod text;
pub mod record;
pub mod transport;
pub mod session;
pub mod laws;
pub mod selection;
