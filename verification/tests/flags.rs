use wire::protocol::flags::{
    ServiceFlag, SF_NODE_2X, SF_NODE_BIT5, SF_NODE_BLOOM, SF_NODE_CF, SF_NODE_GET_UTXO,
    SF_NODE_NETWORK, SF_NODE_NETWORK_LIMITED, SF_NODE_WITNESS, SF_NODE_XTHIN,
};

#[test]
fn test_service_flag_format() {
    let tests: Vec<(u64, &str)> = vec![
        (0, "0x0"),
        (SF_NODE_NETWORK, "SFNodeNetwork"),
        (SF_NODE_GET_UTXO, "SFNodeGetUTXO"),
        (SF_NODE_BLOOM, "SFNodeBloom"),
        (SF_NODE_WITNESS, "SFNodeWitness"),
        (SF_NODE_XTHIN, "SFNodeXthin"),
        (SF_NODE_BIT5, "SFNodeBit5"),
        (SF_NODE_CF, "SFNodeCF"),
        (SF_NODE_2X, "SFNode2X"),
        (SF_NODE_NETWORK_LIMITED, "SFNodeNetworkLimited"),
        (0xffffffff, "SFNodeNetwork|SFNodeGetUTXO|SFNodeBloom|SFNodeWitness|SFNodeXthin|SFNodeBit5|SFNodeCF|SFNode2X|SFNodeNetworkLimited|0xfffffb00"),
        (0xfffffb00, "0xfffffb00")
    ];

    for (flag, expected) in tests {
        let sf = ServiceFlag(flag);
        assert_eq!(sf.render(), expected);
    }
}

#[test]
fn test_has_and_add_service() {
    let mut sf = ServiceFlag(0);
    assert!(!sf.has_service(ServiceFlag(SF_NODE_NETWORK)));
    sf.add_service(ServiceFlag(SF_NODE_NETWORK));
    assert!(sf.has_service(ServiceFlag(SF_NODE_NETWORK)));
    sf.add_service(ServiceFlag(SF_NODE_NETWORK));
    assert_eq!(sf.to_u64(), SF_NODE_NETWORK);
    sf.add_service(ServiceFlag(SF_NODE_WITNESS));
    assert_eq!(sf.to_u64(), SF_NODE_NETWORK | SF_NODE_WITNESS);
    assert!(sf.has_service(ServiceFlag(SF_NODE_NETWORK | SF_NODE_WITNESS)));
    assert!(!sf.has_service(ServiceFlag(SF_NODE_BLOOM)));
}
