use ergo_lib::ergotree_ir::chain::address::Address;
use ergo_lib::ergotree_ir::chain::address::AddressEncoder;
use ergo_lib::ergotree_ir::chain::address::AddressEncoderError;
use oracle_core::address::NetworkPrefix;
use oracle_core::contracts::BallotContractParameters;
use oracle_core::contracts::BallotContractParametersSerde;
use oracle_core::contracts::OracleContractParameters;
use oracle_core::contracts::OracleContractParametersSerde;
use oracle_core::contracts::PoolContractParameters;
use oracle_core::contracts::PoolContractParametersSerde;
use oracle_core::contracts::RefreshContractParameters;
use oracle_core::contracts::RefreshContractParametersSerde;
use oracle_core::contracts::UpdateContractParameters;
use oracle_core::contracts::UpdateContractParametersSerde;

const MAIN_P2S: &str = "BxKBaHkvrTvLZrDcZjcsxsF7aSsrN73ijeFZXtbj4CXZHHcvBtqSxQ";
const TEST_P2S: &str = "z4hAm91W246jkuhwyNALoH2RNrgMXZXQYM7zAKceZaawWWNBTYQpcS";
const MAIN_P2PK: &str = "9enJSWNFnAfksBP9v5LoK2BiR9vUptFKEVWePZCqgrnG9QUuBwj";
const TEST_P2PK: &str = "3WvsT2Gm4EpsM9Pg18PdY6XyhNNMqXDsvJTbbf6ihLvAmSb7u5RN";
const BAD_CHECKSUM: &str = "9fRAWhdxEsTcdb8PhGNrZfwqa65zfkuYHAMmkQLcic1gdLSV5vB";

fn address(text: &str) -> Address {
    AddressEncoder::unchecked_parse_address_from_str(text).unwrap()
}

#[test]
fn oracle_contract_parameters_are_validated() {
    let doc = OracleContractParametersSerde { p2s: MAIN_P2S.to_string(), pool_nft_index: 5 };
    assert_eq!(
        OracleContractParameters::try_from(doc),
        Ok((
            OracleContractParameters { p2s: address(MAIN_P2S), pool_nft_index: 5 },
            NetworkPrefix::Mainnet
        ))
    );
    let doc = OracleContractParametersSerde { p2s: TEST_P2PK.to_string(), pool_nft_index: usize::MAX };
    assert_eq!(
        OracleContractParameters::try_from(doc),
        Ok((
            OracleContractParameters { p2s: address(MAIN_P2PK), pool_nft_index: usize::MAX },
            NetworkPrefix::Testnet
        ))
    );
    let doc = OracleContractParametersSerde { p2s: BAD_CHECKSUM.to_string(), pool_nft_index: 5 };
    assert_eq!(OracleContractParameters::try_from(doc), Err(AddressEncoderError::InvalidChecksum));
}

#[test]
fn oracle_contract_parameters_are_written_out() {
    let parameters = || OracleContractParameters { p2s: address(MAIN_P2S), pool_nft_index: 5 };
    let doc = OracleContractParametersSerde::from((parameters(), NetworkPrefix::Mainnet));
    assert_eq!(doc.p2s, MAIN_P2S);
    assert_eq!(doc.pool_nft_index, 5);
    let doc = OracleContractParametersSerde::from((parameters(), NetworkPrefix::Testnet));
    assert_eq!(doc.p2s, TEST_P2S);
    assert_eq!(doc.pool_nft_index, 5);
}

#[test]
fn pool_contract_parameters_go_round() {
    let doc = PoolContractParametersSerde {
        p2s: TEST_P2S.to_string(),
        refresh_nft_index: 2,
        update_nft_index: 3,
    };
    let expected = || {
        PoolContractParameters { p2s: address(MAIN_P2S), refresh_nft_index: 2, update_nft_index: 3 }
    };
    let (parameters, prefix) = PoolContractParameters::try_from(doc).unwrap();
    assert_eq!(parameters, expected());
    assert_eq!(prefix, NetworkPrefix::Testnet);
    let doc = PoolContractParametersSerde::from((parameters, prefix));
    assert_eq!(doc.p2s, TEST_P2S);
    assert_eq!(doc.refresh_nft_index, 2);
    assert_eq!(doc.update_nft_index, 3);
    assert_eq!(PoolContractParameters::try_from(doc), Ok((expected(), prefix)));
    let doc = PoolContractParametersSerde { p2s: "".to_string(), refresh_nft_index: 2, update_nft_index: 3 };
    assert_eq!(PoolContractParameters::try_from(doc), Err(AddressEncoderError::InvalidSize));
}

#[test]
fn refresh_contract_parameters_go_round() {
    let doc = RefreshContractParametersSerde {
        p2s: MAIN_P2PK.to_string(),
        pool_nft_index: 1,
        oracle_token_id_index: 2,
        min_data_points_index: 3,
        min_data_points: 4,
        buffer_index: 5,
        buffer_length: 6,
        max_deviation_percent_index: 7,
        max_deviation_percent: 8,
        epoch_length_index: 9,
        epoch_length: 10,
    };
    let expected = || {
        RefreshContractParameters {
            p2s: address(MAIN_P2PK),
            pool_nft_index: 1,
            oracle_token_id_index: 2,
            min_data_points_index: 3,
            min_data_points: 4,
            buffer_index: 5,
            buffer_length: 6,
            max_deviation_percent_index: 7,
            max_deviation_percent: 8,
            epoch_length_index: 9,
            epoch_length: 10,
        }
    };
    let (parameters, prefix) = RefreshContractParameters::try_from(doc).unwrap();
    assert_eq!(parameters, expected());
    assert_eq!(prefix, NetworkPrefix::Mainnet);
    let doc = RefreshContractParametersSerde::from((parameters, NetworkPrefix::Testnet));
    assert_eq!(doc.p2s, TEST_P2PK);
    assert_eq!(doc.pool_nft_index, 1);
    assert_eq!(doc.oracle_token_id_index, 2);
    assert_eq!(doc.min_data_points_index, 3);
    assert_eq!(doc.min_data_points, 4);
    assert_eq!(doc.buffer_index, 5);
    assert_eq!(doc.buffer_length, 6);
    assert_eq!(doc.max_deviation_percent_index, 7);
    assert_eq!(doc.max_deviation_percent, 8);
    assert_eq!(doc.epoch_length_index, 9);
    assert_eq!(doc.epoch_length, 10);
    assert_eq!(RefreshContractParameters::try_from(doc), Ok((expected(), NetworkPrefix::Testnet)));
}

#[test]
fn numbers_are_not_checked_beyond_their_type() {
    let doc = RefreshContractParametersSerde {
        p2s: MAIN_P2PK.to_string(),
        pool_nft_index: usize::MAX,
        oracle_token_id_index: 0,
        min_data_points_index: usize::MAX,
        min_data_points: u64::MAX,
        buffer_index: 0,
        buffer_length: 0,
        max_deviation_percent_index: 0,
        max_deviation_percent: u64::MAX,
        epoch_length_index: 0,
        epoch_length: 0,
    };
    let (parameters, _) = RefreshContractParameters::try_from(doc).unwrap();
    assert_eq!(parameters.pool_nft_index, usize::MAX);
    assert_eq!(parameters.min_data_points, u64::MAX);
    assert_eq!(parameters.max_deviation_percent, u64::MAX);
    assert_eq!(parameters.epoch_length, 0);
}

#[test]
fn ballot_contract_parameters_go_round() {
    let doc = BallotContractParametersSerde {
        p2s: MAIN_P2S.to_string(),
        min_storage_rent_index: 0,
        min_storage_rent: 10000000,
        update_nft_index: 6,
    };
    let expected = || {
        BallotContractParameters {
            p2s: address(MAIN_P2S),
            min_storage_rent_index: 0,
            min_storage_rent: 10000000,
            update_nft_index: 6,
        }
    };
    let (parameters, prefix) = BallotContractParameters::try_from(doc).unwrap();
    assert_eq!(parameters, expected());
    assert_eq!(prefix, NetworkPrefix::Mainnet);
    let doc = BallotContractParametersSerde::from((parameters, prefix));
    assert_eq!(doc.p2s, MAIN_P2S);
    assert_eq!(doc.min_storage_rent_index, 0);
    assert_eq!(doc.min_storage_rent, 10000000);
    assert_eq!(doc.update_nft_index, 6);
    assert_eq!(BallotContractParameters::try_from(doc), Ok((expected(), prefix)));
}

#[test]
fn update_contract_parameters_go_round() {
    let doc = UpdateContractParametersSerde {
        p2s: TEST_P2PK.to_string(),
        pool_nft_index: 5,
        ballot_token_index: 9,
        min_votes_index: 13,
        min_votes: 6,
    };
    let expected = || {
        UpdateContractParameters {
            p2s: address(TEST_P2PK),
            pool_nft_index: 5,
            ballot_token_index: 9,
            min_votes_index: 13,
            min_votes: 6,
        }
    };
    let (parameters, prefix) = UpdateContractParameters::try_from(doc).unwrap();
    assert_eq!(parameters, expected());
    assert_eq!(prefix, NetworkPrefix::Testnet);
    let doc = UpdateContractParametersSerde::from((parameters, NetworkPrefix::Mainnet));
    assert_eq!(doc.p2s, MAIN_P2PK);
    assert_eq!(doc.pool_nft_index, 5);
    assert_eq!(doc.ballot_token_index, 9);
    assert_eq!(doc.min_votes_index, 13);
    assert_eq!(doc.min_votes, 6);
    assert_eq!(UpdateContractParameters::try_from(doc), Ok((expected(), NetworkPrefix::Mainnet)));
}
