//! Codec for the Daly battery-management-system wire protocol.
//!
//! The BMS talks in fixed 13-byte frames: a start byte, addresses, a command
//! id, an 8-byte payload and an additive checksum. This crate builds the
//! request frame for each command and decodes the reply bytes into typed
//! values, including the multi-frame replies used for per-cell readings.
//! It performs no I/O: a transport layer writes the request bytes, reads the
//! number of bytes given by the `reply_size` functions, and hands them back
//! to the decoder.

pub mod error;
pub mod frame;
pub mod laws;
pub mod protocol;

pub use error::Error;
