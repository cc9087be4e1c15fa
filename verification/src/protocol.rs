//! Protocol data types: capability flags, endpoints, message contract.

pub mod flags;
pub mod msg;
pub mod net_address;
pub mod version;
