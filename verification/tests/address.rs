use ergo_lib::ergotree_ir::chain::address::AddressEncoderError;
use oracle_core::address::check_prefixes;
use oracle_core::address::network_of;
use oracle_core::address::NetworkPrefix;
use oracle_core::address::SerdeConversionError;

const M: NetworkPrefix = NetworkPrefix::Mainnet;
const T: NetworkPrefix = NetworkPrefix::Testnet;

#[test]
fn no_prefixes_agree() {
    assert_eq!(check_prefixes(&vec![], None), Ok(()));
    assert_eq!(check_prefixes(&vec![], Some(M)), Ok(()));
    assert_eq!(check_prefixes(&vec![], Some(T)), Ok(()));
}

#[test]
fn prefixes_of_one_network_agree() {
    for prefix in [M, T] {
        for n in 1..10 {
            assert_eq!(check_prefixes(&vec![prefix; n], None), Ok(()));
            assert_eq!(check_prefixes(&vec![prefix; n], Some(prefix)), Ok(()));
        }
    }
}

#[test]
fn prefixes_of_two_networks_differ() {
    for n in 2..8 {
        for odd in 0..n {
            let mut prefixes = vec![M; n];
            prefixes[odd] = T;
            assert_eq!(check_prefixes(&prefixes, None), Err(SerdeConversionError::NetworkPrefixesDiffer));
            assert_eq!(check_prefixes(&prefixes, Some(M)), Err(SerdeConversionError::NetworkPrefixesDiffer));
            assert_eq!(check_prefixes(&prefixes, Some(T)), Err(SerdeConversionError::NetworkPrefixesDiffer));
        }
    }
}

#[test]
fn prefixes_of_another_network_than_the_reference_differ() {
    for n in 1..8 {
        assert_eq!(check_prefixes(&vec![M; n], Some(T)), Err(SerdeConversionError::NetworkPrefixesDiffer));
        assert_eq!(check_prefixes(&vec![T; n], Some(M)), Err(SerdeConversionError::NetworkPrefixesDiffer));
    }
}

#[test]
fn network_of_an_address_text() {
    for text in [
        "9enJSWNFnAfksBP9v5LoK2BiR9vUptFKEVWePZCqgrnG9QUuBwj",
        "9fRAWhdxEsTcdb8PhGNrZfwqa65zfkuYHAMmkQLcic1gdLSV5vA",
        "4MQyML64GnzMxZgm",
        "8UApt8czfFVuTgQmMwtsRBZ4nfWquNiSwCWUjMg",
    ] {
        assert_eq!(network_of(text), Ok(M));
    }
    for text in [
        "3WvsT2Gm4EpsM9Pg18PdY6XyhNNMqXDsvJTbbf6ihLvAmSb7u5RN",
        "Ms7smJwLGbUAjuWQ",
        "rbcrmKEYduUvADj9Ts3dSVSG27h54pgrq5fPuwB",
    ] {
        assert_eq!(network_of(text), Ok(T));
    }
}

#[test]
fn network_of_a_text_that_is_no_address() {
    assert_eq!(
        network_of("9fRAWhdxEsTcdb8PhGNrZfwqa65zfkuYHAMmkQLcic1gdLSV5vB"),
        Err(AddressEncoderError::InvalidChecksum)
    );
    assert_eq!(network_of(""), Err(AddressEncoderError::InvalidSize));
    assert_eq!(network_of("2"), Err(AddressEncoderError::InvalidSize));
    match network_of("0OIl") {
        Err(AddressEncoderError::Base58DecodingError(_)) => {}
        other => panic!("{:?}", other),
    }
}

#[test]
fn decoding_error_becomes_the_error_of_the_document() {
    assert_eq!(
        SerdeConversionError::from(AddressEncoderError::InvalidChecksum),
        SerdeConversionError::AddressEncoder(AddressEncoderError::InvalidChecksum)
    );
    assert_eq!(
        SerdeConversionError::from(AddressEncoderError::InvalidAddressType(7)),
        SerdeConversionError::AddressEncoder(AddressEncoderError::InvalidAddressType(7))
    );
    assert_ne!(
        SerdeConversionError::from(AddressEncoderError::InvalidSize),
        SerdeConversionError::NetworkPrefixesDiffer
    );
}
