//! Telemetry protocol for Razer USB HID mice.
//!
//! The device is polled with fixed-size 90-byte binary messages: a request is
//! built with a command selector and an XOR checksum, sent over a device node,
//! and the response is validated (status byte, checksum, echoed header) before
//! the battery level or serial number is decoded from it.  This crate holds
//! the message codec, the response validator, the telemetry decoders and the
//! device-node name selection; the actual device I/O (open/write/sleep/read)
//! is left to the caller, which hands the raw response bytes back in.

pub mod devices;
pub mod message;
pub mod telemetry;

pub use message::Message;
pub use message::QueryError;
