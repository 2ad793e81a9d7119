use ergo_lib::ergotree_ir::chain::address::Address;
use ergo_lib::ergotree_ir::chain::address::AddressEncoder;
use ergo_lib::ergotree_ir::chain::address::AddressEncoderError;
use oracle_core::address::NetworkPrefix;
use oracle_core::address::SerdeConversionError;
use oracle_core::bootstrap::Addresses;
use oracle_core::bootstrap::AddressesSerde;
use oracle_core::bootstrap::AddressesWithPrefix;
use oracle_core::bootstrap::BootstrapConfig;
use oracle_core::bootstrap::BootstrapConfigSerde;
use oracle_core::bootstrap::NftMintDetails;
use oracle_core::bootstrap::TokenMintDetails;
use oracle_core::bootstrap::TokensToMint;
use oracle_core::contracts::BallotContractParametersSerde;
use oracle_core::contracts::PoolContractParametersSerde;
use oracle_core::contracts::RefreshContractParametersSerde;
use oracle_core::contracts::UpdateContractParametersSerde;

const MAIN_P2PK: &str = "9enJSWNFnAfksBP9v5LoK2BiR9vUptFKEVWePZCqgrnG9QUuBwj";
const MAIN_P2S: &str = "4MQyML64GnzMxZgm";
const MAIN_P2S_LONG: &str = "BxKBaHkvrTvLZrDcZjcsxsF7aSsrN73ijeFZXtbj4CXZHHcvBtqSxQ";
const MAIN_P2SH: &str = "8UApt8czfFVuTgQmMwtsRBZ4nfWquNiSwCWUjMg";
const TEST_P2PK: &str = "3WvsT2Gm4EpsM9Pg18PdY6XyhNNMqXDsvJTbbf6ihLvAmSb7u5RN";
const TEST_P2S: &str = "Ms7smJwLGbUAjuWQ";
const TEST_P2S_LONG: &str = "z4hAm91W246jkuhwyNALoH2RNrgMXZXQYM7zAKceZaawWWNBTYQpcS";
const TEST_P2SH: &str = "rbcrmKEYduUvADj9Ts3dSVSG27h54pgrq5fPuwB";
const BAD_CHECKSUM: &str = "9fRAWhdxEsTcdb8PhGNrZfwqa65zfkuYHAMmkQLcic1gdLSV5vB";

const MAINNET: [&str; 6] = [MAIN_P2S, MAIN_P2S_LONG, MAIN_P2SH, MAIN_P2S, MAIN_P2PK, MAIN_P2SH];
const TESTNET: [&str; 6] = [TEST_P2S, TEST_P2S_LONG, TEST_P2SH, TEST_P2S, TEST_P2PK, TEST_P2SH];

fn address(text: &str) -> Address {
    AddressEncoder::unchecked_parse_address_from_str(text).unwrap()
}

fn nft(name: &str) -> NftMintDetails {
    NftMintDetails { name: name.to_string(), description: format!("the {}", name) }
}

fn tokens(name: &str, quantity: u64) -> TokenMintDetails {
    TokenMintDetails { name: name.to_string(), description: format!("the {}", name), quantity }
}

fn tokens_to_mint() -> TokensToMint {
    TokensToMint {
        pool_nft: nft("pool NFT"),
        refresh_nft: nft("refresh NFT"),
        update_nft: nft("update NFT"),
        oracle_tokens: tokens("oracle token", 15),
        ballot_tokens: tokens("ballot token", 15),
        reward_tokens: tokens("reward token", 100000000),
    }
}

/// A document whose six addresses are these, in the order in which they are decoded.
fn document(texts: [&str; 6]) -> BootstrapConfigSerde {
    BootstrapConfigSerde {
        refresh_contract_parameters: RefreshContractParametersSerde {
            p2s: texts[1].to_string(),
            pool_nft_index: 17,
            oracle_token_id_index: 3,
            min_data_points_index: 13,
            min_data_points: 4,
            buffer_index: 21,
            buffer_length: 4,
            max_deviation_percent_index: 15,
            max_deviation_percent: 5,
            epoch_length_index: 0,
            epoch_length: 30,
        },
        pool_contract_parameters: PoolContractParametersSerde {
            p2s: texts[0].to_string(),
            refresh_nft_index: 2,
            update_nft_index: 3,
        },
        update_contract_parameters: UpdateContractParametersSerde {
            p2s: texts[2].to_string(),
            pool_nft_index: 5,
            ballot_token_index: 9,
            min_votes_index: 13,
            min_votes: 6,
        },
        ballot_contract_parameters: BallotContractParametersSerde {
            p2s: texts[3].to_string(),
            min_storage_rent_index: 0,
            min_storage_rent: 10000000,
            update_nft_index: 6,
        },
        tokens_to_mint: tokens_to_mint(),
        node_ip: "127.0.0.1".to_string(),
        node_port: "9053".to_string(),
        node_api_key: "hello".to_string(),
        addresses: AddressesSerde {
            address_for_oracle_tokens: texts[4].to_string(),
            wallet_address_for_chain_transaction: texts[5].to_string(),
        },
    }
}

#[test]
fn two_addresses_of_one_network() {
    let doc = AddressesSerde {
        address_for_oracle_tokens: MAIN_P2PK.to_string(),
        wallet_address_for_chain_transaction: MAIN_P2S.to_string(),
    };
    assert_eq!(
        AddressesWithPrefix::try_from(doc),
        Ok(AddressesWithPrefix {
            addresses: Addresses {
                address_for_oracle_tokens: address(MAIN_P2PK),
                wallet_address_for_chain_transaction: address(MAIN_P2S),
            },
            prefix: NetworkPrefix::Mainnet,
        })
    );
    let doc = AddressesSerde {
        address_for_oracle_tokens: TEST_P2SH.to_string(),
        wallet_address_for_chain_transaction: TEST_P2PK.to_string(),
    };
    assert_eq!(
        AddressesWithPrefix::try_from(doc),
        Ok(AddressesWithPrefix {
            addresses: Addresses {
                address_for_oracle_tokens: address(TEST_P2SH),
                wallet_address_for_chain_transaction: address(TEST_P2PK),
            },
            prefix: NetworkPrefix::Testnet,
        })
    );
}

#[test]
fn two_addresses_of_two_networks() {
    for (first, second) in [(MAIN_P2PK, TEST_P2PK), (TEST_P2S, MAIN_P2S)] {
        let doc = AddressesSerde {
            address_for_oracle_tokens: first.to_string(),
            wallet_address_for_chain_transaction: second.to_string(),
        };
        assert_eq!(AddressesWithPrefix::try_from(doc), Err(SerdeConversionError::NetworkPrefixesDiffer));
    }
}

#[test]
fn two_addresses_and_one_is_none() {
    for other in [MAIN_P2PK, TEST_P2PK] {
        let doc = AddressesSerde {
            address_for_oracle_tokens: BAD_CHECKSUM.to_string(),
            wallet_address_for_chain_transaction: other.to_string(),
        };
        assert_eq!(
            AddressesWithPrefix::try_from(doc),
            Err(SerdeConversionError::AddressEncoder(AddressEncoderError::InvalidChecksum))
        );
        let doc = AddressesSerde {
            address_for_oracle_tokens: other.to_string(),
            wallet_address_for_chain_transaction: "".to_string(),
        };
        assert_eq!(
            AddressesWithPrefix::try_from(doc),
            Err(SerdeConversionError::AddressEncoder(AddressEncoderError::InvalidSize))
        );
    }
    let doc = AddressesSerde {
        address_for_oracle_tokens: "".to_string(),
        wallet_address_for_chain_transaction: BAD_CHECKSUM.to_string(),
    };
    assert_eq!(
        AddressesWithPrefix::try_from(doc),
        Err(SerdeConversionError::AddressEncoder(AddressEncoderError::InvalidSize))
    );
}

#[test]
fn two_addresses_are_written_out() {
    let addresses = || Addresses {
        address_for_oracle_tokens: address(MAIN_P2PK),
        wallet_address_for_chain_transaction: address(TEST_P2SH),
    };
    let doc = AddressesSerde::from((addresses(), NetworkPrefix::Mainnet));
    assert_eq!(doc.address_for_oracle_tokens, MAIN_P2PK);
    assert_eq!(doc.wallet_address_for_chain_transaction, MAIN_P2SH);
    let doc = AddressesSerde::from((addresses(), NetworkPrefix::Testnet));
    assert_eq!(doc.address_for_oracle_tokens, TEST_P2PK);
    assert_eq!(doc.wallet_address_for_chain_transaction, TEST_P2SH);
    assert_eq!(
        AddressesWithPrefix::try_from(doc),
        Ok(AddressesWithPrefix { addresses: addresses(), prefix: NetworkPrefix::Testnet })
    );
}

#[test]
fn bootstrap_document_validates() {
    for texts in [MAINNET, TESTNET] {
        let config = BootstrapConfig::try_from(document(texts)).unwrap();
        assert_eq!(config.pool_contract_parameters.p2s, address(texts[0]));
        assert_eq!(config.refresh_contract_parameters.p2s, address(texts[1]));
        assert_eq!(config.update_contract_parameters.p2s, address(texts[2]));
        assert_eq!(config.ballot_contract_parameters.p2s, address(texts[3]));
        assert_eq!(config.addresses.address_for_oracle_tokens, address(texts[4]));
        assert_eq!(config.addresses.wallet_address_for_chain_transaction, address(texts[5]));
        assert_eq!(config.tokens_to_mint, tokens_to_mint());
        assert_eq!(config.node_ip, "127.0.0.1");
        assert_eq!(config.node_port, "9053");
        assert_eq!(config.node_api_key, "hello");
        assert_eq!(config.pool_contract_parameters.refresh_nft_index, 2);
        assert_eq!(config.pool_contract_parameters.update_nft_index, 3);
        assert_eq!(config.refresh_contract_parameters.epoch_length, 30);
        assert_eq!(config.refresh_contract_parameters.pool_nft_index, 17);
        assert_eq!(config.update_contract_parameters.min_votes, 6);
        assert_eq!(config.ballot_contract_parameters.min_storage_rent, 10000000);
    }
}

#[test]
fn bootstrap_document_of_two_networks_is_refused() {
    for i in 0..6 {
        let mut texts = MAINNET;
        texts[i] = TEST_P2PK;
        assert_eq!(
            BootstrapConfig::try_from(document(texts)),
            Err(SerdeConversionError::NetworkPrefixesDiffer)
        );
        let mut texts = TESTNET;
        texts[i] = MAIN_P2S;
        assert_eq!(
            BootstrapConfig::try_from(document(texts)),
            Err(SerdeConversionError::NetworkPrefixesDiffer)
        );
    }
}

#[test]
fn bootstrap_document_with_a_malformed_address_is_refused() {
    for i in 0..6 {
        let mut texts = MAINNET;
        texts[i] = BAD_CHECKSUM;
        assert_eq!(
            BootstrapConfig::try_from(document(texts)),
            Err(SerdeConversionError::AddressEncoder(AddressEncoderError::InvalidChecksum))
        );
        // also where another address is of another network
        texts[(i + 1) % 6] = TEST_P2S;
        assert_eq!(
            BootstrapConfig::try_from(document(texts)),
            Err(SerdeConversionError::AddressEncoder(AddressEncoderError::InvalidChecksum))
        );
    }
}

#[test]
fn bootstrap_pool_contract_is_decoded_before_the_refresh_contract() {
    let mut doc = document(MAINNET);
    doc.pool_contract_parameters.p2s = "".to_string();
    doc.refresh_contract_parameters.p2s = BAD_CHECKSUM.to_string();
    assert_eq!(
        BootstrapConfig::try_from(doc),
        Err(SerdeConversionError::AddressEncoder(AddressEncoderError::InvalidSize))
    );
}

#[test]
fn bootstrap_round_trip() {
    for (texts, prefix) in [(MAINNET, NetworkPrefix::Mainnet), (TESTNET, NetworkPrefix::Testnet)] {
        let config = BootstrapConfig::try_from(document(texts)).unwrap();
        let doc = BootstrapConfigSerde::from((config, prefix));
        assert_eq!(doc.pool_contract_parameters.p2s, texts[0]);
        assert_eq!(doc.refresh_contract_parameters.p2s, texts[1]);
        assert_eq!(doc.update_contract_parameters.p2s, texts[2]);
        assert_eq!(doc.ballot_contract_parameters.p2s, texts[3]);
        assert_eq!(doc.addresses.address_for_oracle_tokens, texts[4]);
        assert_eq!(doc.addresses.wallet_address_for_chain_transaction, texts[5]);
        assert_eq!(doc.tokens_to_mint, tokens_to_mint());
        assert_eq!(doc.node_ip, "127.0.0.1");
        assert_eq!(doc.node_port, "9053");
        assert_eq!(doc.node_api_key, "hello");
        assert_eq!(BootstrapConfig::try_from(doc), BootstrapConfig::try_from(document(texts)));
    }
}

#[test]
fn bootstrap_written_out_for_the_other_network() {
    let config = BootstrapConfig::try_from(document(MAINNET)).unwrap();
    let doc = BootstrapConfigSerde::from((config, NetworkPrefix::Testnet));
    assert_eq!(doc.pool_contract_parameters.p2s, TESTNET[0]);
    assert_eq!(doc.refresh_contract_parameters.p2s, TESTNET[1]);
    assert_eq!(doc.update_contract_parameters.p2s, TESTNET[2]);
    assert_eq!(doc.ballot_contract_parameters.p2s, TESTNET[3]);
    assert_eq!(doc.addresses.address_for_oracle_tokens, TESTNET[4]);
    assert_eq!(doc.addresses.wallet_address_for_chain_transaction, TESTNET[5]);
    assert_eq!(BootstrapConfig::try_from(doc), BootstrapConfig::try_from(document(MAINNET)));
}
