//! Wire protocol of a USB label printer: command encodings, decoding of the
//! fixed-size status report, and the order of the initialization handshake.
//!
//! The library performs no transfers itself. It says which bytes to send and
//! what a received report means; the caller moves the bytes.

pub mod command;
pub mod error;
pub mod fault;
pub mod layout;
pub mod model;
pub mod session;
pub mod status;
