//! Wire-format codec for a Bitcoin-style peer-to-peer protocol.
//!
//! The crate serializes protocol primitives and structured messages into a
//! caller-supplied byte sink, honoring protocol-version-gated field presence.
//! Every encoder carries a contract that pins the exact bytes it appends.

pub mod encoding;
pub mod msg;
pub mod protocol;
