//! Encoders that turn protocol values into wire bytes.

pub mod literal;
pub mod net_address;
