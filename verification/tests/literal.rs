use wire::encoding::literal::EncodeLiteralType::{Bool, String, VariableUint, I32, I64, U32, U64};

#[test]
pub fn test_encode_literals() {
    let str256 = "test".repeat(64);

    let tests = vec![
        (Bool(false), vec![0x00]),
        (Bool(true), vec![0x01]),
        (I32(1), vec![0x01, 0x00, 0x00, 0x00]),
        (U32(256), vec![0x00, 0x01, 0x00, 0x00]),
        (
            I64(65536),
            vec![0x00, 0x00, 0x01, 0x00, 0x00, 0x00, 0x00, 0x00],
        ),
        (
            U64(4294967296),
            vec![0x00, 0x00, 0x00, 0x00, 0x01, 0x00, 0x00, 0x00],
        ),
        (VariableUint(0), vec![0x00]),
        (VariableUint(0xfc), vec![0xfc]),
        (VariableUint(0xfd), vec![0xfd, 0xfd, 0x00]),
        (VariableUint(0xffff), vec![0xfd, 0xff, 0xff]),
        (VariableUint(0x10000), vec![0xfe, 0x00, 0x00, 0x01, 0x00]),
        (VariableUint(0xffffffff), vec![0xfe, 0xff, 0xff, 0xff, 0xff]),
        (
            VariableUint(0x100000000),
            vec![0xff, 0x00, 0x00, 0x00, 0x00, 0x01, 0x00, 0x00, 0x00],
        ),
        (
            VariableUint(0xffffffffffffffff),
            vec![0xff, 0xff, 0xff, 0xff, 0xff, 0xff, 0xff, 0xff, 0xff],
        ),
        (String("".to_string()), vec![0x00]),
        (
            String("Test".to_string()),
            vec![0x04, 0x54, 0x65, 0x73, 0x74],
        ),
        (
            String(str256.clone()),
            vec![vec![0xfd, 0x00, 0x01], Vec::from(str256.clone().as_bytes())].concat(),
        ),
    ];

    for (input, expected) in tests {
        let mut writer = Vec::new();
        wire::encoding::literal::encode_literal(&mut writer, input).unwrap();
        assert_eq!(writer, expected);
    }
}

#[test]
fn test_encode_negative_integers() {
    let mut writer = Vec::new();
    wire::encoding::literal::encode_literal(&mut writer, I32(-1)).unwrap();
    assert_eq!(writer, vec![0xff, 0xff, 0xff, 0xff]);

    let mut writer = Vec::new();
    wire::encoding::literal::encode_literal(&mut writer, I32(-2)).unwrap();
    assert_eq!(writer, vec![0xfe, 0xff, 0xff, 0xff]);

    let mut writer = Vec::new();
    wire::encoding::literal::encode_literal(&mut writer, I64(-1)).unwrap();
    assert_eq!(writer, vec![0xff; 8]);

    let mut writer = Vec::new();
    wire::encoding::literal::encode_literal(&mut writer, I64(i64::MIN)).unwrap();
    assert_eq!(writer, vec![0x00, 0x00, 0x00, 0x00, 0x00, 0x00, 0x00, 0x80]);
}

#[test]
fn test_encode_literals_in_order() {
    let mut writer = Vec::new();
    wire::encoding::literal::encode_literals(
        &mut writer,
        vec![Bool(true), VariableUint(0xfd), U32(1)],
    )
    .unwrap();
    assert_eq!(
        writer,
        vec![0x01, 0xfd, 0xfd, 0x00, 0x01, 0x00, 0x00, 0x00]
    );
}
