//! The configuration of a running oracle node, and its validation: every
//! address that the configuration names has to be written for one network.

use crate::address::address_of;
use crate::address::address_to_str;
use crate::address::all_decode;
use crate::address::all_on_network;
use crate::address::check_prefixes;
use crate::address::decodes;
use crate::address::encoded_address;
use crate::address::fails_with;
use crate::address::first_failure;
use crate::address::is_decoded;
use crate::address::lemma_accepted;
use crate::address::lemma_agreement;
use crate::address::lemma_differing_prefixes_rejected;
use crate::address::lemma_malformed_address_rejected;
use crate::address::lemma_rejected_at;
use crate::address::lemma_verdict_with_pair;
use crate::address::parse_network_address;
use crate::address::prefix_of;
use crate::address::verdict;
use crate::address::NetworkPrefix;
use crate::address::SerdeConversionError;
use crate::bootstrap::lemma_addresses_accepted;
use crate::bootstrap::lemma_addresses_rejected;
use crate::bootstrap::Addresses;
use crate::bootstrap::AddressesSerde;
use crate::bootstrap::AddressesSerdeView;
use crate::bootstrap::AddressesWithPrefix;
use crate::contracts::BallotContractParameters;
use crate::contracts::BallotContractParametersSerde;
use crate::contracts::BallotContractParametersSerdeView;
use crate::contracts::OracleContractParameters;
use crate::contracts::OracleContractParametersSerde;
use crate::contracts::OracleContractParametersSerdeView;
use crate::contracts::PoolContractParameters;
use crate::contracts::PoolContractParametersSerde;
use crate::contracts::PoolContractParametersSerdeView;
use crate::contracts::RefreshContractParameters;
use crate::contracts::RefreshContractParametersSerde;
use crate::contracts::RefreshContractParametersSerdeView;
use crate::contracts::UpdateContractParameters;
use crate::contracts::UpdateContractParametersSerde;
use crate::contracts::UpdateContractParametersSerdeView;
use ergo_lib::ergotree_ir::chain::address::Address;
use ergo_lib::ergotree_ir::chain::token::TokenId;
use vstd::prelude::*;

verus! {

/// `ergo_lib`'s `TokenId`: the identifier of a token. It is carried through
/// validation unread.
#[verifier::external_type_specification]
#[verifier::external_body]
pub struct ExTokenId(TokenId);

/// How much the node logs.
#[derive(Debug, Clone, Copy, PartialEq, Eq, Structural)]
pub enum LevelFilter {
    Off,
    Error,
    Warn,
    Info,
    Debug,
    Trace,
}

/// The built-in sources of data points.
#[derive(Debug, Clone, Copy, PartialEq, Eq, Structural)]
pub enum PredefinedDataPointSource {
    NanoErgUsd,
    NanoErgXau,
    NanoAdaUsd,
}

/// The tokens of a pool.
#[derive(Debug, Clone, Copy, PartialEq, Eq)]
pub struct TokenIds {
    pub pool_nft_token_id: TokenId,
    pub refresh_nft_token_id: TokenId,
    pub update_nft_token_id: TokenId,
    pub oracle_token_id: TokenId,
    pub reward_token_id: TokenId,
    pub ballot_token_id: TokenId,
}

/// The vote that a ballot box casts.
#[derive(Debug, PartialEq, Eq)]
pub struct CastBallotBoxVoteParameters {
    pub pool_box_address_hash: String,
    pub reward_token_id: TokenId,
    pub reward_token_quantity: u32,
    pub update_box_creation_height: i32,
}

impl Clone for CastBallotBoxVoteParameters {
    fn clone(&self) -> (copy: CastBallotBoxVoteParameters)
        ensures
            copy.pool_box_address_hash@ == self.pool_box_address_hash@,
            copy.reward_token_id == self.reward_token_id,
            copy.reward_token_quantity == self.reward_token_quantity,
            copy.update_box_creation_height == self.update_box_creation_height,
    {
        CastBallotBoxVoteParameters {
            pool_box_address_hash: self.pool_box_address_hash.clone(),
            reward_token_id: self.reward_token_id,
            reward_token_quantity: self.reward_token_quantity,
            update_box_creation_height: self.update_box_creation_height,
        }
    }
}

/// The validated parameters of the node's ballot box.
#[derive(Debug, PartialEq, Eq)]
pub struct BallotBoxWrapperParameters {
    pub contract_parameters: BallotContractParameters,
    pub vote_parameters: Option<CastBallotBoxVoteParameters>,
    pub ballot_token_owner_address: Address,
}

/// The parameters of the node's ballot box as a document holds them.
#[derive(Debug, Clone)]
pub struct BallotBoxWrapperParametersSerde {
    pub contract_parameters: BallotContractParametersSerde,
    pub vote_parameters: Option<CastBallotBoxVoteParameters>,
    pub ballot_token_owner_address: String,
}

/// What a document says of the node's ballot box.
pub struct BallotBoxWrapperParametersSerdeView {
    pub contract_parameters: BallotContractParametersSerdeView,
    pub vote_parameters: Option<CastBallotBoxVoteParameters>,
    pub ballot_token_owner_address: Seq<char>,
}

impl View for BallotBoxWrapperParametersSerde {
    type V = BallotBoxWrapperParametersSerdeView;

    open spec fn view(&self) -> BallotBoxWrapperParametersSerdeView {
        BallotBoxWrapperParametersSerdeView {
            contract_parameters: self.contract_parameters@,
            vote_parameters: self.vote_parameters,
            ballot_token_owner_address: self.ballot_token_owner_address@,
        }
    }
}

impl BallotBoxWrapperParametersSerdeView {
    /// The parameters that the document stands for, where its texts are addresses.
    pub open spec fn parameters(self) -> BallotBoxWrapperParameters {
        BallotBoxWrapperParameters {
            contract_parameters: self.contract_parameters.parameters(),
            vote_parameters: self.vote_parameters,
            ballot_token_owner_address: address_of(self.ballot_token_owner_address),
        }
    }
}

impl BallotBoxWrapperParameters {
    /// The document that holds these parameters, written for the given network.
    pub open spec fn document(self, prefix: NetworkPrefix) -> BallotBoxWrapperParametersSerdeView {
        BallotBoxWrapperParametersSerdeView {
            contract_parameters: self.contract_parameters.document(prefix),
            vote_parameters: self.vote_parameters,
            ballot_token_owner_address: encoded_address(prefix, self.ballot_token_owner_address),
        }
    }
}

/// The validated configuration of an oracle node. Every address in it was
/// decoded from a text written for one and the same network; the network
/// itself is not kept.
#[derive(Debug, PartialEq, Eq)]
pub struct OracleConfig {
    pub node_ip: String,
    pub node_port: u16,
    pub node_api_key: String,
    pub base_fee: u64,
    pub log_level: Option<LevelFilter>,
    pub core_api_port: u16,
    pub oracle_address: String,
    pub data_point_source: Option<PredefinedDataPointSource>,
    pub data_point_source_custom_script: Option<String>,
    pub oracle_contract_parameters: OracleContractParameters,
    pub pool_contract_parameters: PoolContractParameters,
    pub refresh_contract_parameters: RefreshContractParameters,
    pub update_contract_parameters: UpdateContractParameters,
    pub ballot_parameters: BallotBoxWrapperParameters,
    pub token_ids: TokenIds,
    pub addresses: Addresses,
}

/// The document that an `OracleConfig` is read from and written to.
#[derive(Debug, Clone)]
pub struct OracleConfigSerde {
    pub node_ip: String,
    pub node_port: u16,
    pub node_api_key: String,
    pub base_fee: u64,
    pub log_level: Option<LevelFilter>,
    pub core_api_port: u16,
    pub oracle_address: String,
    pub data_point_source: Option<PredefinedDataPointSource>,
    pub data_point_source_custom_script: Option<String>,
    pub oracle_contract_parameters: OracleContractParametersSerde,
    pub pool_contract_parameters: PoolContractParametersSerde,
    pub refresh_contract_parameters: RefreshContractParametersSerde,
    pub update_contract_parameters: UpdateContractParametersSerde,
    pub ballot_parameters: BallotBoxWrapperParametersSerde,
    pub token_ids: TokenIds,
    pub addresses: AddressesSerde,
}

/// What a validated configuration holds.
pub struct OracleConfigView {
    pub node_ip: Seq<char>,
    pub node_port: u16,
    pub node_api_key: Seq<char>,
    pub base_fee: u64,
    pub log_level: Option<LevelFilter>,
    pub core_api_port: u16,
    pub oracle_address: Seq<char>,
    pub data_point_source: Option<PredefinedDataPointSource>,
    pub data_point_source_custom_script: Option<Seq<char>>,
    pub oracle_contract_parameters: OracleContractParameters,
    pub pool_contract_parameters: PoolContractParameters,
    pub refresh_contract_parameters: RefreshContractParameters,
    pub update_contract_parameters: UpdateContractParameters,
    pub ballot_parameters: BallotBoxWrapperParameters,
    pub token_ids: TokenIds,
    pub addresses: Addresses,
}

/// What a configuration document says.
pub struct OracleConfigSerdeView {
    pub node_ip: Seq<char>,
    pub node_port: u16,
    pub node_api_key: Seq<char>,
    pub base_fee: u64,
    pub log_level: Option<LevelFilter>,
    pub core_api_port: u16,
    pub oracle_address: Seq<char>,
    pub data_point_source: Option<PredefinedDataPointSource>,
    pub data_point_source_custom_script: Option<Seq<char>>,
    pub oracle_contract_parameters: OracleContractParametersSerdeView,
    pub pool_contract_parameters: PoolContractParametersSerdeView,
    pub refresh_contract_parameters: RefreshContractParametersSerdeView,
    pub update_contract_parameters: UpdateContractParametersSerdeView,
    pub ballot_parameters: BallotBoxWrapperParametersSerdeView,
    pub token_ids: TokenIds,
    pub addresses: AddressesSerdeView,
}

impl View for OracleConfig {
    type V = OracleConfigView;

    open spec fn view(&self) -> OracleConfigView {
        OracleConfigView {
            node_ip: self.node_ip@,
            node_port: self.node_port,
            node_api_key: self.node_api_key@,
            base_fee: self.base_fee,
            log_level: self.log_level,
            core_api_port: self.core_api_port,
            oracle_address: self.oracle_address@,
            data_point_source: self.data_point_source,
            data_point_source_custom_script: match self.data_point_source_custom_script {
                Some(script) => Some(script@),
                None => None,
            },
            oracle_contract_parameters: self.oracle_contract_parameters,
            pool_contract_parameters: self.pool_contract_parameters,
            refresh_contract_parameters: self.refresh_contract_parameters,
            update_contract_parameters: self.update_contract_parameters,
            ballot_parameters: self.ballot_parameters,
            token_ids: self.token_ids,
            addresses: self.addresses,
        }
    }
}

impl View for OracleConfigSerde {
    type V = OracleConfigSerdeView;

    open spec fn view(&self) -> OracleConfigSerdeView {
        OracleConfigSerdeView {
            node_ip: self.node_ip@,
            node_port: self.node_port,
            node_api_key: self.node_api_key@,
            base_fee: self.base_fee,
            log_level: self.log_level,
            core_api_port: self.core_api_port,
            oracle_address: self.oracle_address@,
            data_point_source: self.data_point_source,
            data_point_source_custom_script: match self.data_point_source_custom_script {
                Some(script) => Some(script@),
                None => None,
            },
            oracle_contract_parameters: self.oracle_contract_parameters@,
            pool_contract_parameters: self.pool_contract_parameters@,
            refresh_contract_parameters: self.refresh_contract_parameters@,
            update_contract_parameters: self.update_contract_parameters@,
            ballot_parameters: self.ballot_parameters@,
            token_ids: self.token_ids,
            addresses: self.addresses@,
        }
    }
}

impl OracleConfigSerdeView {
    /// The address texts of the document, in the order in which they are
    /// decoded: the oracle, pool, refresh and update contracts, the owner of
    /// the ballot token, the ballot contract, then the two addresses.
    pub open spec fn address_texts(self) -> Seq<Seq<char>> {
        seq![
            self.oracle_contract_parameters.p2s,
            self.pool_contract_parameters.p2s,
            self.refresh_contract_parameters.p2s,
            self.update_contract_parameters.p2s,
            self.ballot_parameters.ballot_token_owner_address,
            self.ballot_parameters.contract_parameters.p2s,
            self.addresses.address_for_oracle_tokens,
            self.addresses.wallet_address_for_chain_transaction,
        ]
    }

    /// The configuration that the document stands for, where every text is
    /// an address: each address decoded, everything else as it is.
    pub open spec fn config(self) -> OracleConfigView {
        OracleConfigView {
            node_ip: self.node_ip,
            node_port: self.node_port,
            node_api_key: self.node_api_key,
            base_fee: self.base_fee,
            log_level: self.log_level,
            core_api_port: self.core_api_port,
            oracle_address: self.oracle_address,
            data_point_source: self.data_point_source,
            data_point_source_custom_script: self.data_point_source_custom_script,
            oracle_contract_parameters: self.oracle_contract_parameters.parameters(),
            pool_contract_parameters: self.pool_contract_parameters.parameters(),
            refresh_contract_parameters: self.refresh_contract_parameters.parameters(),
            update_contract_parameters: self.update_contract_parameters.parameters(),
            ballot_parameters: self.ballot_parameters.parameters(),
            token_ids: self.token_ids,
            addresses: self.addresses.addresses(),
        }
    }

    /// The outcome of validating the document: the configuration, where every
    /// text is an address and all are written for one network; else the error
    /// of the first text that is no address; else that the prefixes differ.
    pub open spec fn validated(self) -> Result<OracleConfigView, SerdeConversionError> {
        match verdict(self.address_texts(), None) {
            Some(e) => Err(e),
            None => Ok(self.config()),
        }
    }
}

impl OracleConfigView {
    /// The document that holds the configuration, every address written for
    /// the given network.
    pub open spec fn document(self, prefix: NetworkPrefix) -> OracleConfigSerdeView {
        OracleConfigSerdeView {
            node_ip: self.node_ip,
            node_port: self.node_port,
            node_api_key: self.node_api_key,
            base_fee: self.base_fee,
            log_level: self.log_level,
            core_api_port: self.core_api_port,
            oracle_address: self.oracle_address,
            data_point_source: self.data_point_source,
            data_point_source_custom_script: self.data_point_source_custom_script,
            oracle_contract_parameters: self.oracle_contract_parameters.document(prefix),
            pool_contract_parameters: self.pool_contract_parameters.document(prefix),
            refresh_contract_parameters: self.refresh_contract_parameters.document(prefix),
            update_contract_parameters: self.update_contract_parameters.document(prefix),
            ballot_parameters: self.ballot_parameters.document(prefix),
            token_ids: self.token_ids,
            addresses: self.addresses.document(prefix),
        }
    }

    /// Every address of the configuration is such that a text decodes to it.
    pub open spec fn decodable(self) -> bool {
        &&& is_decoded(self.oracle_contract_parameters.p2s)
        &&& is_decoded(self.pool_contract_parameters.p2s)
        &&& is_decoded(self.refresh_contract_parameters.p2s)
        &&& is_decoded(self.update_contract_parameters.p2s)
        &&& is_decoded(self.ballot_parameters.ballot_token_owner_address)
        &&& is_decoded(self.ballot_parameters.contract_parameters.p2s)
        &&& self.addresses.decodable()
    }
}

/// Where two address texts of a configuration document decode under
/// different networks, the document is refused because its prefixes differ,
/// whichever the two texts are: validation picks neither network.
pub proof fn lemma_mixed_networks_refused(doc: OracleConfigSerdeView, i: int, j: int)
    requires
        all_decode(doc.address_texts()),
        0 <= i < doc.address_texts().len(),
        0 <= j < doc.address_texts().len(),
        prefix_of(doc.address_texts()[i]) != prefix_of(doc.address_texts()[j]),
    ensures
        doc.validated() == Err::<OracleConfigView, SerdeConversionError>(
            SerdeConversionError::NetworkPrefixesDiffer,
        ),
{
    lemma_differing_prefixes_rejected(doc.address_texts(), None, i, j);
}

/// Where an address text of a configuration document is no address, the
/// document is refused with the decoding error of the first such text. This
/// holds whatever networks the other texts are written for: a disagreement of
/// prefixes is never reported for such a document.
pub proof fn lemma_malformed_address_refused(doc: OracleConfigSerdeView, i: int)
    requires
        0 <= i < doc.address_texts().len(),
        !decodes(doc.address_texts()[i]),
    ensures
        doc.validated() matches Err(SerdeConversionError::AddressEncoder(e)) && fails_with(
            doc.address_texts()[first_failure(doc.address_texts())],
            e,
        ),
        first_failure(doc.address_texts()) <= i,
{
    lemma_malformed_address_rejected(doc.address_texts(), None, i);
}

/// A document whose texts are all addresses of one network is accepted.
pub proof fn lemma_consistent_document_accepted(doc: OracleConfigSerdeView, prefix: NetworkPrefix)
    requires
        all_decode(doc.address_texts()),
        all_on_network(doc.address_texts(), prefix),
    ensures
        doc.validated() == Ok::<OracleConfigView, SerdeConversionError>(doc.config()),
{
    lemma_agreement(doc.address_texts(), prefix);
}

/// Every address of a configuration that came out of validation is one that
/// a text decodes to. So such a configuration, written out for any network,
/// validates to itself again: see `OracleConfigSerde::from`.
pub proof fn lemma_validated_is_decodable(doc: OracleConfigSerdeView)
    requires
        doc.validated() is Ok,
    ensures
        doc.validated()->Ok_0.decodable(),
{
    lemma_accepted(doc.address_texts(), None);
}

impl OracleConfigSerde {
    /// Writes a configuration out, every address encoded for the given
    /// network. Nothing can fail. Where every address of the configuration is
    /// one that a text decodes to, as it is after validation, validating the
    /// document gives the same configuration again: so it does for the
    /// network that the configuration was validated with.
    pub fn from(t: (OracleConfig, NetworkPrefix)) -> (r: OracleConfigSerde)
        ensures
            r@ == t.0@.document(t.1),
            t.0@.decodable() ==> r@.validated() == Ok::<OracleConfigView, SerdeConversionError>(
                t.0@,
            ),
    {
        let c = t.0;
        let network_prefix = t.1;
        let ghost config = c@;
        let oracle_contract_parameters = OracleContractParametersSerde::from(
            (c.oracle_contract_parameters, network_prefix),
        );
        let pool_contract_parameters = PoolContractParametersSerde::from(
            (c.pool_contract_parameters, network_prefix),
        );
        let refresh_contract_parameters = RefreshContractParametersSerde::from(
            (c.refresh_contract_parameters, network_prefix),
        );
        let ballot_parameters = BallotBoxWrapperParametersSerde {
            contract_parameters: BallotContractParametersSerde::from(
                (c.ballot_parameters.contract_parameters, network_prefix),
            ),
            vote_parameters: c.ballot_parameters.vote_parameters,
            ballot_token_owner_address: address_to_str(
                network_prefix,
                &c.ballot_parameters.ballot_token_owner_address,
            ),
        };
        let update_contract_parameters = UpdateContractParametersSerde::from(
            (c.update_contract_parameters, network_prefix),
        );
        let r = OracleConfigSerde {
            node_ip: c.node_ip,
            node_port: c.node_port,
            node_api_key: c.node_api_key,
            base_fee: c.base_fee,
            log_level: c.log_level,
            core_api_port: c.core_api_port,
            oracle_address: c.oracle_address,
            data_point_source: c.data_point_source,
            data_point_source_custom_script: c.data_point_source_custom_script,
            oracle_contract_parameters,
            pool_contract_parameters,
            refresh_contract_parameters,
            update_contract_parameters,
            ballot_parameters,
            token_ids: c.token_ids,
            addresses: AddressesSerde::from((c.addresses, network_prefix)),
        };
        proof {
            if config.decodable() {
                let texts = r@.address_texts();
                lemma_addresses_accepted(texts, r@.addresses);
                lemma_agreement(texts, network_prefix);
            }
        }
        r
    }
}

impl OracleConfig {
    /// Validates a configuration document. Each address text is decoded, in
    /// the order oracle, pool, refresh, update, owner of the ballot token,
    /// ballot, oracle tokens, wallet; the first text that is no address ends
    /// the validation with its error, and nothing of the document is kept.
    /// Only when all are addresses are their networks compared: where any
    /// two differ the document is refused. Every address of a configuration
    /// that comes out is one that a text decodes to, so the configuration can
    /// be written out and validated again: see `OracleConfigSerde::from`.
    pub fn try_from(c: OracleConfigSerde) -> (r: Result<OracleConfig, SerdeConversionError>)
        ensures
            match r {
                Ok(config) => c@.validated() == Ok::<OracleConfigView, SerdeConversionError>(
                    config@,
                ) && config@.decodable(),
                Err(e) => c@.validated() == Err::<OracleConfigView, SerdeConversionError>(e),
            },
    {
        let ghost doc = c@;
        let ghost texts = doc.address_texts();
        let (oracle_contract_parameters, oracle_contract_prefix) =
            match OracleContractParameters::try_from(c.oracle_contract_parameters) {
            Ok(validated) => validated,
            Err(e) => {
                proof {
                    lemma_rejected_at(texts, None, 0, e);
                }
                return Err(SerdeConversionError::from(e));
            },
        };
        let (pool_contract_parameters, pool_contract_prefix) =
            match PoolContractParameters::try_from(c.pool_contract_parameters) {
            Ok(validated) => validated,
            Err(e) => {
                proof {
                    lemma_rejected_at(texts, None, 1, e);
                }
                return Err(SerdeConversionError::from(e));
            },
        };
        let (refresh_contract_parameters, refresh_contract_prefix) =
            match RefreshContractParameters::try_from(c.refresh_contract_parameters) {
            Ok(validated) => validated,
            Err(e) => {
                proof {
                    lemma_rejected_at(texts, None, 2, e);
                }
                return Err(SerdeConversionError::from(e));
            },
        };
        let (update_contract_parameters, update_contract_prefix) =
            match UpdateContractParameters::try_from(c.update_contract_parameters) {
            Ok(validated) => validated,
            Err(e) => {
                proof {
                    lemma_rejected_at(texts, None, 3, e);
                }
                return Err(SerdeConversionError::from(e));
            },
        };
        let (ballot_token_owner_address, network_prefix) = match parse_network_address(
            c.ballot_parameters.ballot_token_owner_address.as_str(),
        ) {
            Ok(decoded) => decoded,
            Err(e) => {
                proof {
                    lemma_rejected_at(texts, None, 4, e);
                }
                return Err(SerdeConversionError::from(e));
            },
        };
        let (ballot_contract_parameters, ballot_contract_prefix) =
            match BallotContractParameters::try_from(c.ballot_parameters.contract_parameters) {
            Ok(validated) => validated,
            Err(e) => {
                proof {
                    lemma_rejected_at(texts, None, 5, e);
                }
                return Err(SerdeConversionError::from(e));
            },
        };
        let ballot_parameters = BallotBoxWrapperParameters {
            contract_parameters: ballot_contract_parameters,
            vote_parameters: c.ballot_parameters.vote_parameters,
            ballot_token_owner_address,
        };
        let addresses_with_prefix = match AddressesWithPrefix::try_from(c.addresses) {
            Ok(validated) => validated,
            Err(e) => {
                proof {
                    lemma_addresses_rejected(texts, doc.addresses, None, e);
                }
                return Err(e);
            },
        };
        let mut prefixes: Vec<NetworkPrefix> = Vec::new();
        prefixes.push(oracle_contract_prefix);
        prefixes.push(pool_contract_prefix);
        prefixes.push(refresh_contract_prefix);
        prefixes.push(update_contract_prefix);
        prefixes.push(network_prefix);
        prefixes.push(ballot_contract_prefix);
        prefixes.push(addresses_with_prefix.prefix);
        proof {
            lemma_addresses_accepted(texts, doc.addresses);
            lemma_verdict_with_pair(texts, prefixes@, None);
            if doc.validated() is Ok {
                lemma_validated_is_decodable(doc);
            }
        }
        match check_prefixes(&prefixes, None) {
            Ok(()) => Ok(
                OracleConfig {
                    node_ip: c.node_ip,
                    node_port: c.node_port,
                    node_api_key: c.node_api_key,
                    base_fee: c.base_fee,
                    log_level: c.log_level,
                    core_api_port: c.core_api_port,
                    oracle_address: c.oracle_address,
                    data_point_source: c.data_point_source,
                    data_point_source_custom_script: c.data_point_source_custom_script,
                    oracle_contract_parameters,
                    pool_contract_parameters,
                    refresh_contract_parameters,
                    update_contract_parameters,
                    ballot_parameters,
                    token_ids: c.token_ids,
                    addresses: addresses_with_prefix.addresses,
                },
            ),
            Err(e) => Err(e),
        }
    }
}

} // verus!
