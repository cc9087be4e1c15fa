use wire::msg::version::MsgVersion;
use wire::protocol::flags::{ServiceFlag, SF_NODE_NETWORK, SF_NODE_WITNESS};
use wire::protocol::msg::{BtcMessage, BtcMessageEncodeError, BtcMessageEncodingType};

#[test]
fn test_encode() {
    let msg = MsgVersion::new();
    let mut buffer = Vec::new();

    let protocol_version = 70015;

    msg.encode(&mut buffer, protocol_version, BtcMessageEncodingType(1))
        .unwrap();

    assert_eq!(buffer[0..4], vec![0x7f, 0x11, 0x01, 0x00]);
}

#[test]
fn test_encode_full_default_message() {
    let msg = MsgVersion::new();
    let mut buffer = Vec::new();
    msg.encode(&mut buffer, 70015, BtcMessageEncodingType(1))
        .unwrap();

    // protocol_version, then all-zero services, timestamp, both endpoint
    // records, nonce, user agent length, and last seen block; the trailing
    // relay boolean is true because relaying is not disabled.
    let mut expected = vec![0x7f, 0x11, 0x01, 0x00];
    expected.extend(vec![0u8; 73]);
    expected.push(0x01);
    assert_eq!(buffer, expected);
}

#[test]
fn test_encode_deterministic() {
    let mut msg = MsgVersion::new();
    msg.nonce = 0x0123456789abcdef;
    msg.user_agent = "/wire:0.1.0/".to_string();
    msg.last_seen_block = 812000;
    msg.add_service(ServiceFlag(SF_NODE_NETWORK | SF_NODE_WITNESS));

    let mut first = Vec::new();
    msg.encode(&mut first, 70015, BtcMessageEncodingType(1))
        .unwrap();
    let mut second = Vec::new();
    msg.encode(&mut second, 70015, BtcMessageEncodingType(1))
        .unwrap();
    assert_eq!(first, second);
}

#[test]
fn test_relay_flag_version_gating() {
    let msg = MsgVersion::new();

    let mut below = Vec::new();
    msg.encode(&mut below, 70000, BtcMessageEncodingType(1))
        .unwrap();
    let mut at = Vec::new();
    msg.encode(&mut at, 70001, BtcMessageEncodingType(1))
        .unwrap();
    assert_eq!(below.len() + 1, at.len());
    assert_eq!(*at.last().unwrap(), 0x01);

    let mut disabled = MsgVersion::new();
    disabled.disable_relay_tx = true;
    let mut buffer = Vec::new();
    disabled
        .encode(&mut buffer, 70001, BtcMessageEncodingType(1))
        .unwrap();
    assert_eq!(*buffer.last().unwrap(), 0x00);
}

#[test]
fn test_oversized_user_agent_rejected_before_writing() {
    let mut msg = MsgVersion::new();
    msg.user_agent = "a".repeat(257);
    let mut buffer = Vec::new();
    let result = msg.encode(&mut buffer, 70015, BtcMessageEncodingType(1));
    match result {
        Err(BtcMessageEncodeError::InvalidData(context, reason)) => {
            assert_eq!(context, "MsgVersion");
            assert_eq!(reason, "user agent is too long: len=257, max=256");
        }
        other => panic!("expected invalid data, got {:?}", other),
    }
    assert!(buffer.is_empty());
}

#[test]
fn test_user_agent_at_limit_accepted() {
    let mut msg = MsgVersion::new();
    msg.user_agent = "a".repeat(256);
    let mut buffer = Vec::new();
    msg.encode(&mut buffer, 70015, BtcMessageEncodingType(1))
        .unwrap();
    // 77 fixed bytes, a 3-byte length prefix, and the 256 agent bytes.
    assert_eq!(buffer.len(), 77 + 3 + 256);
}

#[test]
fn test_pre_epoch_message_timestamp() {
    let mut msg = MsgVersion::new();
    msg.timestamp = -1;
    let mut buffer = Vec::new();
    let result = msg.encode(&mut buffer, 70015, BtcMessageEncodingType(1));
    match result {
        Err(BtcMessageEncodeError::InvalidTimestampError(context, cause)) => {
            assert_eq!(context, "MsgVersion");
            assert_eq!(cause, "the timestamp precedes the reference epoch");
        }
        other => panic!("expected an invalid timestamp error, got {:?}", other),
    }
    assert!(buffer.is_empty());
}

#[test]
fn test_pre_epoch_endpoint_timestamp() {
    let mut msg = MsgVersion::new();
    msg.addr_you.last_seen_timestamp = -1;
    let mut buffer = Vec::new();
    let result = msg.encode(&mut buffer, 70015, BtcMessageEncodingType(1));
    match result {
        Err(BtcMessageEncodeError::InvalidTimestampError(context, cause)) => {
            // The inner field name is kept behind the message's own name.
            assert_eq!(context, "MsgVersion.last_seen_timestamp");
            assert_eq!(cause, "the last-seen time precedes the reference epoch");
        }
        other => panic!("expected an invalid timestamp error, got {:?}", other),
    }
    // The three leading fixed fields were already written.
    assert_eq!(buffer.len(), 20);
}

#[test]
fn test_pre_epoch_second_endpoint_timestamp() {
    let mut msg = MsgVersion::new();
    msg.addr_me.last_seen_timestamp = -1;
    let mut buffer = Vec::new();
    let result = msg.encode(&mut buffer, 70015, BtcMessageEncodingType(1));
    match result {
        Err(BtcMessageEncodeError::InvalidTimestampError(context, _)) => {
            assert_eq!(context, "MsgVersion.last_seen_timestamp");
        }
        other => panic!("expected an invalid timestamp error, got {:?}", other),
    }
    // The leading fields and the first endpoint record were already written.
    assert_eq!(buffer.len(), 42);
}

#[test]
fn test_validate_user_agent() {
    assert!(MsgVersion::validate_user_agent(""));
    assert!(MsgVersion::validate_user_agent(&"a".repeat(256)));
    assert!(!MsgVersion::validate_user_agent(&"a".repeat(257)));
}

#[test]
fn test_message_service_helpers() {
    let mut msg = MsgVersion::new();
    assert!(!msg.has_service(ServiceFlag(SF_NODE_NETWORK)));
    msg.add_service(ServiceFlag(SF_NODE_NETWORK));
    assert!(msg.has_service(ServiceFlag(SF_NODE_NETWORK)));
    assert!(!msg.has_service(ServiceFlag(SF_NODE_WITNESS)));
}

#[test]
fn test_decode_stub_accepts_anything() {
    let msg = MsgVersion::new();
    let bytes = [0u8; 4];
    msg.decode(&bytes, 70015, BtcMessageEncodingType(1)).unwrap();
}
