//! The 32-bit SecuGen bridge: line framing of its stdin, the responses it
//! sends, and the wiping of biometric bytes after each round trip.
pub mod ipc;
pub mod responses;
