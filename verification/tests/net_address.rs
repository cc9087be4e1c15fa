use wire::encoding::net_address::{encode_net_address, NetAddressEncodeError};
use wire::protocol::flags::ServiceFlag;
use wire::protocol::net_address::{IpAddr, NetAddress};

fn sample_v4() -> NetAddress {
    NetAddress {
        last_seen_timestamp: 1,
        services: ServiceFlag(5),
        ip: IpAddr::V4([127, 0, 0, 1]),
        port: 0x1234,
    }
}

#[test]
fn test_encode_net_address_v4_with_timestamp() {
    let mut writer = Vec::new();
    encode_net_address(&mut writer, &sample_v4(), 70015, true).unwrap();
    let expected = vec![
        0x01, 0x00, 0x00, 0x00, 0x00, 0x00, 0x00, 0x00, // last seen, LE
        0x05, 0x00, 0x00, 0x00, 0x00, 0x00, 0x00, 0x00, // services, LE
        127, 0, 0, 1, // raw v4 octets
        0x12, 0x34, // port, big-endian
    ];
    assert_eq!(writer, expected);
}

#[test]
fn test_encode_net_address_v6() {
    let address = NetAddress {
        last_seen_timestamp: 0,
        services: ServiceFlag(0),
        ip: IpAddr::V6([0, 1, 2, 3, 4, 5, 6, 7, 8, 9, 10, 11, 12, 13, 14, 15]),
        port: 1,
    };
    let mut writer = Vec::new();
    encode_net_address(&mut writer, &address, 70015, false).unwrap();
    let mut expected = vec![0u8; 8];
    expected.extend((0u8..16).collect::<Vec<u8>>());
    expected.extend(vec![0x00, 0x01]);
    assert_eq!(writer, expected);
}

#[test]
fn test_timestamp_excluded_by_caller() {
    let mut writer = Vec::new();
    encode_net_address(&mut writer, &sample_v4(), 70015, false).unwrap();
    assert_eq!(writer.len(), 14);
    assert_eq!(writer[0], 0x05);
}

#[test]
fn test_timestamp_excluded_below_version_threshold() {
    let mut writer = Vec::new();
    encode_net_address(&mut writer, &sample_v4(), 31402, true).unwrap();
    assert_eq!(writer.len(), 14);
    let mut writer_above = Vec::new();
    encode_net_address(&mut writer_above, &sample_v4(), 31403, true).unwrap();
    assert_eq!(writer_above.len(), 22);
}

#[test]
fn test_pre_epoch_timestamp_rejected_only_when_written() {
    let mut address = sample_v4();
    address.last_seen_timestamp = -1;

    let mut writer = Vec::new();
    let result = encode_net_address(&mut writer, &address, 70015, true);
    match result {
        Err(NetAddressEncodeError::InvalidTimestampError(field, cause)) => {
            assert_eq!(field, "last_seen_timestamp");
            assert_eq!(cause, "the last-seen time precedes the reference epoch");
        }
        other => panic!("expected an invalid timestamp error, got {:?}", other),
    }
    assert!(writer.is_empty());

    let mut writer = Vec::new();
    encode_net_address(&mut writer, &address, 70015, false).unwrap();
    assert_eq!(writer.len(), 14);
}
