//! Encoder for one network endpoint record.

use crate::protocol::net_address::{IpAddr, NetAddress};
use crate::protocol::version::NET_ADDRESS_TIME_VERSION;
use vstd::bytes::{spec_u64_to_le_bytes, u64_to_le_bytes};
use vstd::prelude::*;
use vstd::string::StringExecFns;

verus! {

/// Failure to encode a net address record. `EncodingError` carries the
/// logical field being written and the sink's failure;
/// `InvalidTimestampError` reports, for the named field, a last-seen time
/// lying before the reference epoch.
#[derive(Debug)]
pub enum NetAddressEncodeError {
    EncodingError(String, std::io::Error),
    InvalidTimestampError(String, String),
}

/// The port's two wire bytes, big-endian (network byte order), contrasting
/// with the little-endian encoding used everywhere else.
pub open spec fn spec_u16_be_bytes(v: u16) -> Seq<u8> {
    seq![((v >> 8) & 0xff) as u8, (v & 0xff) as u8]
}

/// The raw wire bytes of an IP address: 4 octets for v4, 16 for v6.
pub open spec fn ip_bytes(ip: IpAddr) -> Seq<u8> {
    match ip {
        IpAddr::V4(octets) => octets@,
        IpAddr::V6(octets) => octets@,
    }
}

/// Whether a net address record written under `protocol_version` carries the
/// last-seen timestamp: only when the caller asks for one and the version
/// exceeds the threshold at which timestamps were introduced.
pub open spec fn writes_timestamp(protocol_version: u32, includes_timestamp: bool) -> bool {
    includes_timestamp && protocol_version > NET_ADDRESS_TIME_VERSION
}

/// The wire bytes of a net address record: the optional 8-byte little-endian
/// last-seen time, the 8-byte little-endian service mask, the raw address
/// octets, and the 2-byte big-endian port. Meaningful only when encoding
/// succeeds, i.e. when any timestamp written is at or after the epoch.
pub open spec fn net_address_bytes(
    address: NetAddress,
    protocol_version: u32,
    includes_timestamp: bool,
) -> Seq<u8> {
    (if writes_timestamp(protocol_version, includes_timestamp) {
        spec_u64_to_le_bytes(address.last_seen_timestamp as u64)
    } else {
        Seq::<u8>::empty()
    }) + spec_u64_to_le_bytes(address.services.0) + ip_bytes(address.ip) + spec_u16_be_bytes(
        address.port,
    )
}

fn push_u16_be(writer: &mut Vec<u8>, value: u16)
    ensures
        final(writer)@ == old(writer)@ + spec_u16_be_bytes(value),
{
    writer.push(((value >> 8) & 0xff) as u8);
    writer.push((value & 0xff) as u8);
    assert(writer@ =~= old(writer)@ + spec_u16_be_bytes(value));
}

fn push_ip(writer: &mut Vec<u8>, ip: &IpAddr)
    ensures
        final(writer)@ == old(writer)@ + ip_bytes(*ip),
{
    match ip {
        IpAddr::V4(octets) => {
            let mut i: usize = 0;
            while i < 4
                invariant
                    i <= 4,
                    writer@ == old(writer)@ + octets@.take(i as int),
                decreases 4 - i,
            {
                writer.push(octets[i]);
                i = i + 1;
                assert(writer@ =~= old(writer)@ + octets@.take(i as int));
            }
            assert(octets@.take(4) =~= octets@);
        },
        IpAddr::V6(octets) => {
            let mut i: usize = 0;
            while i < 16
                invariant
                    i <= 16,
                    writer@ == old(writer)@ + octets@.take(i as int),
                decreases 16 - i,
            {
                writer.push(octets[i]);
                i = i + 1;
                assert(writer@ =~= old(writer)@ + octets@.take(i as int));
            }
            assert(octets@.take(16) =~= octets@);
        },
    }
}

/// Encodes one endpoint record. The last-seen timestamp is written first,
/// only under `writes_timestamp`; a pre-epoch timestamp fails before any
/// byte is written. With a byte-vector sink no write can fail, so no
/// `EncodingError` arises.
pub fn encode_net_address(
    writer: &mut Vec<u8>,
    net_address: &NetAddress,
    protocol_version: u32,
    includes_timestamp: bool,
) -> (r: Result<(), NetAddressEncodeError>)
    ensures
        r is Ok <==> (writes_timestamp(protocol_version, includes_timestamp)
            ==> net_address.last_seen_timestamp >= 0),
        r is Ok ==> final(writer)@ == old(writer)@ + net_address_bytes(
            *net_address,
            protocol_version,
            includes_timestamp,
        ),
        r is Err ==> final(writer)@ == old(writer)@,
        r is Err ==> (r matches Err(NetAddressEncodeError::InvalidTimestampError(field, cause))
            && field@ == "last_seen_timestamp"@ && cause@
            == "the last-seen time precedes the reference epoch"@),
{
    if includes_timestamp && protocol_version > NET_ADDRESS_TIME_VERSION {
        if net_address.last_seen_timestamp < 0 {
            return Err(
                NetAddressEncodeError::InvalidTimestampError(
                    String::from_str("last_seen_timestamp"),
                    String::from_str("the last-seen time precedes the reference epoch"),
                ),
            );
        }
        let mut timestamp_bytes = u64_to_le_bytes(net_address.last_seen_timestamp as u64);
        writer.append(&mut timestamp_bytes);
    }
    let mut services_bytes = u64_to_le_bytes(net_address.services.to_u64());
    writer.append(&mut services_bytes);
    push_ip(writer, &net_address.ip);
    push_u16_be(writer, net_address.port);
    assert(writer@ =~= old(writer)@ + net_address_bytes(
        *net_address,
        protocol_version,
        includes_timestamp,
    ));
    Ok(())
}

} // verus!
