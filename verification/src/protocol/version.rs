//! Protocol-version thresholds that gate optional wire fields.

use vstd::prelude::*;

verus! {

/// Protocol versions strictly above this threshold include the last-seen
/// timestamp when a net address record is written with timestamps enabled.
pub const NET_ADDRESS_TIME_VERSION: u32 = 31402;

/// Protocol versions at or above this threshold carry the trailing
/// relay-preference boolean in the version handshake message.
pub const BIP_0037_VERSION: u32 = 70001;

} // verus!
