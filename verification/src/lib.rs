//! Host-side engine for FIDO U2F security keys reached over a HID transport.
//!
//! The crate holds the decisions of the engine: the register-response
//! record, the request and status-word encoding of the three protocol
//! operations, the table of attached devices, the polling state machine
//! that drives a register or sign operation, and the managers that keep at
//! most one operation running. Moving bytes to and from a device, watching
//! for hot-plug, sleeping and delivering the result are left to the caller,
//! which performs the actions the state machine asks for.

pub mod device;
pub mod error;
pub mod manager;
pub mod platform;
pub mod poll;
pub mod protocol;
pub mod response;
pub mod trace;
