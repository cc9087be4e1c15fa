//! A network endpoint as carried inside wire messages.

use crate::protocol::flags::ServiceFlag;
use vstd::prelude::*;

verus! {

/// An IP address, v4 or v6. The variant determines the byte width written on
/// the wire: 4 raw octets for v4, 16 for v6, with no normalization between
/// the families.
#[derive(Clone, Copy, Debug)]
pub enum IpAddr {
    V4([u8; 4]),
    V6([u8; 16]),
}

/// One network endpoint: a last-seen time in seconds relative to the
/// reference epoch (negative values lie before it), the peer's service
/// bitmask, its IP address, and its port in host order.
#[derive(Clone, Copy, Debug)]
pub struct NetAddress {
    pub last_seen_timestamp: i64,
    pub services: ServiceFlag,
    pub ip: IpAddr,
    pub port: u16,
}

impl NetAddress {
    /// The default "unspecified" endpoint: epoch last-seen time, no
    /// services, the all-zero v4 address, port zero.
    pub fn new() -> (r: NetAddress)
        ensures
            r.last_seen_timestamp == 0,
            r.services.0 == 0,
            r.ip == IpAddr::V4([0u8, 0u8, 0u8, 0u8]),
            r.port == 0,
    {
        NetAddress {
            last_seen_timestamp: 0,
            services: ServiceFlag(0),
            ip: IpAddr::V4([0, 0, 0, 0]),
            port: 0,
        }
    }
}

} // verus!
