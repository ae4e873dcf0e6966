//! Gas metering for a Move-style virtual machine, with the hex byte strings of
//! its RPC layer.
//!
//! [`gas`] holds the cost table, the stack effect of the simple instructions
//! and the gas meter that enforces an execution budget. [`bytes`] holds the
//! byte vector that travels as hexadecimal text, and [`hex_codec`] what the
//! hex crates make of such text.

pub mod bytes;
pub mod gas;
pub mod hex_codec;
