//! The capability contract every wire message implements, with its error
//! taxonomy.

use vstd::prelude::*;

verus! {

/// Distinguishes payload encodings. A message may ignore the mode if it is
/// irrelevant to its payload.
#[derive(Clone, Copy, Debug)]
pub struct BtcMessageEncodingType(pub u32);

/// The mode value for the base payload encoding.
pub const BASE_ENCODING: u32 = 1;

/// The mode value for the witness-carrying payload encoding.
pub const WITNESS_ENCODING: u32 = 2;

/// Failure to encode a message.
///
/// `InvalidData` reports a value failing a domain constraint before any byte
/// of it is written; `EncodingError` a sink write rejected for the named
/// context; `InvalidTimestampError` a timestamp lying before the reference
/// epoch; `Unknown` is the catch-all for anything not otherwise classified.
#[derive(Debug)]
pub enum BtcMessageEncodeError {
    InvalidData(String, String),
    EncodingError(String, std::io::Error),
    InvalidTimestampError(String, String),
    Unknown(String, String),
}

/// Failure to decode a message. Decoding is future work, so only a catch-all
/// exists.
#[derive(Debug)]
pub enum BtcMessageDecodeError {
    Unknown(String, String),
}

/// The capability every wire message type implements: serializing (and, in
/// the future, deserializing) its payload against a negotiated protocol
/// version and an encoding mode.
pub trait BtcMessage {
    /// Serializes the message's payload fields in their defined order into
    /// `writer`, validating message-specific constraints before writing. On
    /// failure the sink may already hold a prefix of the payload; callers
    /// must discard it rather than reuse it.
    fn encode(
        &self,
        writer: &mut Vec<u8>,
        protocol_version: u32,
        encoding: BtcMessageEncodingType,
    ) -> Result<(), BtcMessageEncodeError>;

    /// Deserializes a payload from `reader`. Declared for every message, but
    /// no message provides a working implementation yet.
    fn decode(
        &self,
        reader: &[u8],
        protocol_version: u32,
        encoding: BtcMessageEncodingType,
    ) -> Result<(), BtcMessageDecodeError>;
}

} // verus!
