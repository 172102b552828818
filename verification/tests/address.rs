use chain_registry::Chain;

const ALL: [Chain; 4] = [Chain::Mainnet, Chain::Testnet, Chain::Signet, Chain::Regtest];

fn p2pkh_script() -> bitcoin::Script {
    // OP_DUP OP_HASH160 <20-byte hash> OP_EQUALVERIFY OP_CHECKSIG
    let mut bytes = vec![0x76u8, 0xa9, 0x14];
    bytes.extend_from_slice(&[0x11u8; 20]);
    bytes.push(0x88);
    bytes.push(0xac);
    bitcoin::Script::from(bytes)
}

fn op_return_script() -> bitcoin::Script {
    // OP_RETURN: carries data, matches no standard address pattern.
    bitcoin::Script::from(vec![0x6au8])
}

#[test]
fn address_from_standard_script() {
    for chain in ALL {
        let script = p2pkh_script();
        let address = chain.address_from_script(&script).unwrap();
        assert_eq!(address.network, chain.network());
        // The derived address pays to the same script.
        assert_eq!(address.script_pubkey(), script);
    }
}

#[test]
fn address_from_nonstandard_script_is_a_typed_error() {
    for chain in ALL {
        let err = chain.address_from_script(&op_return_script()).unwrap_err();
        assert_eq!(err.chain, chain);
        assert!(matches!(
            err.source,
            bitcoin::util::address::Error::UnrecognizedScript
        ));
    }
}

#[test]
fn address_from_empty_script_is_a_typed_error() {
    for chain in ALL {
        let err = chain
            .address_from_script(&bitcoin::Script::new())
            .unwrap_err();
        assert_eq!(err.chain, chain);
    }
}

#[test]
fn address_derivation_is_idempotent() {
    for chain in ALL {
        let script = p2pkh_script();
        assert_eq!(
            chain.address_from_script(&script).unwrap(),
            chain.address_from_script(&script).unwrap()
        );
    }
}
