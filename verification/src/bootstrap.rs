//! The configuration that a pool is created from, and the pair of addresses
//! that every configuration names.

use crate::address::address_of;
use crate::address::address_to_str;
use crate::address::all_decode;
use crate::address::all_on_network;
use crate::address::check_prefixes;
use crate::address::decodes;
use crate::address::encoded_address;
use crate::address::fails_with;
use crate::address::first_failure;
use crate::address::is_decoded;
use crate::address::is_first_failure;
use crate::address::lemma_accepted;
use crate::address::lemma_agreement;
use crate::address::lemma_differing_prefixes_rejected;
use crate::address::lemma_malformed_address_rejected;
use crate::address::lemma_rejected_at;
use crate::address::lemma_verdict_on_addresses;
use crate::address::lemma_verdict_with_pair;
use crate::address::parse_network_address;
use crate::address::prefix_of;
use crate::address::verdict;
use crate::address::NetworkPrefix;
use crate::address::SerdeConversionError;
use crate::contracts::BallotContractParameters;
use crate::contracts::BallotContractParametersSerde;
use crate::contracts::BallotContractParametersSerdeView;
use crate::contracts::PoolContractParameters;
use crate::contracts::PoolContractParametersSerde;
use crate::contracts::PoolContractParametersSerdeView;
use crate::contracts::RefreshContractParameters;
use crate::contracts::RefreshContractParametersSerde;
use crate::contracts::RefreshContractParametersSerdeView;
use crate::contracts::UpdateContractParameters;
use crate::contracts::UpdateContractParametersSerde;
use crate::contracts::UpdateContractParametersSerdeView;
use ergo_lib::ergotree_ir::chain::address::Address;
use vstd::prelude::*;

verus! {

/// The two addresses of a node: where its oracle tokens are held, and the
/// wallet that pays for its transactions.
#[derive(Debug, PartialEq, Eq)]
pub struct Addresses {
    pub address_for_oracle_tokens: Address,
    pub wallet_address_for_chain_transaction: Address,
}

/// The two addresses as a document holds them.
#[derive(Debug, Clone)]
pub struct AddressesSerde {
    pub address_for_oracle_tokens: String,
    pub wallet_address_for_chain_transaction: String,
}

/// What a document says of the two addresses.
pub struct AddressesSerdeView {
    pub address_for_oracle_tokens: Seq<char>,
    pub wallet_address_for_chain_transaction: Seq<char>,
}

/// The two addresses together with the one network both are written for.
#[derive(Debug, PartialEq, Eq)]
pub struct AddressesWithPrefix {
    pub addresses: Addresses,
    pub prefix: NetworkPrefix,
}

impl View for AddressesSerde {
    type V = AddressesSerdeView;

    open spec fn view(&self) -> AddressesSerdeView {
        AddressesSerdeView {
            address_for_oracle_tokens: self.address_for_oracle_tokens@,
            wallet_address_for_chain_transaction: self.wallet_address_for_chain_transaction@,
        }
    }
}

impl AddressesSerdeView {
    /// The address texts, in the order in which they are decoded.
    pub open spec fn address_texts(self) -> Seq<Seq<char>> {
        seq![self.address_for_oracle_tokens, self.wallet_address_for_chain_transaction]
    }

    /// The addresses that the document stands for, where both texts are addresses.
    pub open spec fn addresses(self) -> Addresses {
        Addresses {
            address_for_oracle_tokens: address_of(self.address_for_oracle_tokens),
            wallet_address_for_chain_transaction: address_of(
                self.wallet_address_for_chain_transaction,
            ),
        }
    }

    /// The outcome of validating the document.
    pub open spec fn validated(self) -> Result<AddressesWithPrefix, SerdeConversionError> {
        match verdict(self.address_texts(), None) {
            Some(e) => Err(e),
            None => Ok(
                AddressesWithPrefix {
                    addresses: self.addresses(),
                    prefix: prefix_of(self.address_for_oracle_tokens),
                },
            ),
        }
    }
}

impl Addresses {
    /// The document that holds the two addresses, written for the given network.
    pub open spec fn document(self, prefix: NetworkPrefix) -> AddressesSerdeView {
        AddressesSerdeView {
            address_for_oracle_tokens: encoded_address(prefix, self.address_for_oracle_tokens),
            wallet_address_for_chain_transaction: encoded_address(
                prefix,
                self.wallet_address_for_chain_transaction,
            ),
        }
    }

    /// Both addresses are such that a text decodes to them.
    pub open spec fn decodable(self) -> bool {
        is_decoded(self.address_for_oracle_tokens) && is_decoded(
            self.wallet_address_for_chain_transaction,
        )
    }
}

impl AddressesSerde {
    /// Writes the two addresses out for the given network. Where both came
    /// out of decoding, the document validates to them and to that network.
    pub fn from(t: (Addresses, NetworkPrefix)) -> (r: AddressesSerde)
        ensures
            r@ == t.0.document(t.1),
            t.0.decodable() ==> r@.validated() == Ok::<AddressesWithPrefix, SerdeConversionError>(
                AddressesWithPrefix { addresses: t.0, prefix: t.1 },
            ),
    {
        let addresses = t.0;
        let prefix = t.1;
        let r = AddressesSerde {
            address_for_oracle_tokens: address_to_str(prefix, &addresses.address_for_oracle_tokens),
            wallet_address_for_chain_transaction: address_to_str(
                prefix,
                &addresses.wallet_address_for_chain_transaction,
            ),
        };
        proof {
            if addresses.decodable() {
                lemma_agreement(r@.address_texts(), prefix);
            }
        }
        r
    }
}

impl AddressesWithPrefix {
    /// Decodes both addresses. A text that is no address is reported first;
    /// two addresses written for different networks are refused.
    pub fn try_from(addresses: AddressesSerde) -> (r: Result<
        AddressesWithPrefix,
        SerdeConversionError,
    >)
        ensures
            r == addresses@.validated(),
    {
        let ghost texts = addresses@.address_texts();
        let (oracle_tokens, prefix) = match parse_network_address(
            addresses.address_for_oracle_tokens.as_str(),
        ) {
            Ok(decoded) => decoded,
            Err(e) => {
                proof {
                    lemma_rejected_at(texts, None, 0, e);
                }
                return Err(SerdeConversionError::from(e));
            },
        };
        let (wallet, wallet_prefix) = match parse_network_address(
            addresses.wallet_address_for_chain_transaction.as_str(),
        ) {
            Ok(decoded) => decoded,
            Err(e) => {
                proof {
                    lemma_rejected_at(texts, None, 1, e);
                }
                return Err(SerdeConversionError::from(e));
            },
        };
        let mut prefixes: Vec<NetworkPrefix> = Vec::new();
        prefixes.push(prefix);
        prefixes.push(wallet_prefix);
        proof {
            lemma_verdict_on_addresses(texts, prefixes@, None);
        }
        match check_prefixes(&prefixes, None) {
            Ok(()) => Ok(
                AddressesWithPrefix {
                    addresses: Addresses {
                        address_for_oracle_tokens: oracle_tokens,
                        wallet_address_for_chain_transaction: wallet,
                    },
                    prefix,
                },
            ),
            Err(e) => Err(e),
        }
    }
}

/// What an error of validating the two addresses says of the texts: either
/// one of them is the first text that is no address, or both are addresses
/// of different networks.
pub proof fn lemma_addresses_error(doc: AddressesSerdeView, error: SerdeConversionError)
    requires
        doc.validated() == Err::<AddressesWithPrefix, SerdeConversionError>(error),
    ensures
        match error {
            SerdeConversionError::AddressEncoder(e) => {
                ||| fails_with(doc.address_for_oracle_tokens, e)
                ||| decodes(doc.address_for_oracle_tokens) && fails_with(
                    doc.wallet_address_for_chain_transaction,
                    e,
                )
            },
            SerdeConversionError::NetworkPrefixesDiffer => {
                &&& decodes(doc.address_for_oracle_tokens)
                &&& decodes(doc.wallet_address_for_chain_transaction)
                &&& prefix_of(doc.address_for_oracle_tokens) != prefix_of(
                    doc.wallet_address_for_chain_transaction,
                )
            },
        },
{
    let texts = doc.address_texts();
    if !all_decode(texts) {
        let i = choose|i: int| 0 <= i < texts.len() && !decodes(#[trigger] texts[i]);
        lemma_malformed_address_rejected(texts, None, i);
        // the first text that is no address is one of the two
        if first_failure(texts) == 1 {
            assert(decodes(texts[0]));
        }
    } else {
        if prefix_of(texts[0]) == prefix_of(texts[1]) {
            lemma_agreement(texts, prefix_of(texts[0]));
        } else {
            lemma_differing_prefixes_rejected(texts, None, 0, 1);
        }
    }
}

/// The two addresses stand last in the texts of every document. Where all
/// texts before them are addresses and the two are refused, the document is
/// refused with the same error, whatever network it is held against.
pub proof fn lemma_addresses_rejected(
    texts: Seq<Seq<char>>,
    doc: AddressesSerdeView,
    reference: Option<NetworkPrefix>,
    error: SerdeConversionError,
)
    requires
        texts.len() >= 2,
        texts[texts.len() - 2] == doc.address_for_oracle_tokens,
        texts[texts.len() - 1] == doc.wallet_address_for_chain_transaction,
        forall|j: int| 0 <= j < texts.len() - 2 ==> decodes(#[trigger] texts[j]),
        doc.validated() == Err::<AddressesWithPrefix, SerdeConversionError>(error),
    ensures
        verdict(texts, reference) == Some(error),
{
    let n = texts.len() - 2;
    lemma_addresses_error(doc, error);
    match error {
        SerdeConversionError::AddressEncoder(e) => {
            if decodes(texts[n]) {
                lemma_rejected_at(texts, reference, n + 1, e);
            } else {
                lemma_rejected_at(texts, reference, n, e);
            }
        },
        SerdeConversionError::NetworkPrefixesDiffer => {
            lemma_differing_prefixes_rejected(texts, reference, n, n + 1);
        },
    }
}

/// Where all texts before the two addresses are addresses and the two are
/// accepted, every text of the document is an address, and the last two are
/// written for the network that the validation of the two names.
pub proof fn lemma_addresses_accepted(texts: Seq<Seq<char>>, doc: AddressesSerdeView)
    requires
        texts.len() >= 2,
        texts[texts.len() - 2] == doc.address_for_oracle_tokens,
        texts[texts.len() - 1] == doc.wallet_address_for_chain_transaction,
        forall|j: int| 0 <= j < texts.len() - 2 ==> decodes(#[trigger] texts[j]),
        doc.validated() is Ok,
    ensures
        all_decode(texts),
        prefix_of(texts[texts.len() - 2]) == doc.validated()->Ok_0.prefix,
        prefix_of(texts[texts.len() - 1]) == doc.validated()->Ok_0.prefix,
{
    lemma_accepted(doc.address_texts(), None);
}

/// What a minted non-fungible token is called.
#[derive(Debug, Clone, PartialEq, Eq)]
pub struct NftMintDetails {
    pub name: String,
    pub description: String,
}

/// What a minted token is called, and how many of it are minted.
#[derive(Debug, Clone, PartialEq, Eq)]
pub struct TokenMintDetails {
    pub name: String,
    pub description: String,
    pub quantity: u64,
}

/// The tokens that are minted when a pool is created. Validation hands them
/// on as they are.
#[derive(Debug, Clone, PartialEq, Eq)]
pub struct TokensToMint {
    pub pool_nft: NftMintDetails,
    pub refresh_nft: NftMintDetails,
    pub update_nft: NftMintDetails,
    pub oracle_tokens: TokenMintDetails,
    pub ballot_tokens: TokenMintDetails,
    pub reward_tokens: TokenMintDetails,
}

/// The validated configuration that a pool is created from.
#[derive(Debug, PartialEq, Eq)]
pub struct BootstrapConfig {
    pub refresh_contract_parameters: RefreshContractParameters,
    pub pool_contract_parameters: PoolContractParameters,
    pub update_contract_parameters: UpdateContractParameters,
    pub ballot_contract_parameters: BallotContractParameters,
    pub tokens_to_mint: TokensToMint,
    pub node_ip: String,
    pub node_port: String,
    pub node_api_key: String,
    pub addresses: Addresses,
}

/// The document that a `BootstrapConfig` is read from and written to.
#[derive(Debug, Clone)]
pub struct BootstrapConfigSerde {
    pub refresh_contract_parameters: RefreshContractParametersSerde,
    pub pool_contract_parameters: PoolContractParametersSerde,
    pub update_contract_parameters: UpdateContractParametersSerde,
    pub ballot_contract_parameters: BallotContractParametersSerde,
    pub tokens_to_mint: TokensToMint,
    pub node_ip: String,
    pub node_port: String,
    pub node_api_key: String,
    pub addresses: AddressesSerde,
}

/// What a validated bootstrap configuration holds.
pub struct BootstrapConfigView {
    pub refresh_contract_parameters: RefreshContractParameters,
    pub pool_contract_parameters: PoolContractParameters,
    pub update_contract_parameters: UpdateContractParameters,
    pub ballot_contract_parameters: BallotContractParameters,
    pub tokens_to_mint: TokensToMint,
    pub node_ip: Seq<char>,
    pub node_port: Seq<char>,
    pub node_api_key: Seq<char>,
    pub addresses: Addresses,
}

/// What a bootstrap document says.
pub struct BootstrapConfigSerdeView {
    pub refresh_contract_parameters: RefreshContractParametersSerdeView,
    pub pool_contract_parameters: PoolContractParametersSerdeView,
    pub update_contract_parameters: UpdateContractParametersSerdeView,
    pub ballot_contract_parameters: BallotContractParametersSerdeView,
    pub tokens_to_mint: TokensToMint,
    pub node_ip: Seq<char>,
    pub node_port: Seq<char>,
    pub node_api_key: Seq<char>,
    pub addresses: AddressesSerdeView,
}

impl View for BootstrapConfig {
    type V = BootstrapConfigView;

    open spec fn view(&self) -> BootstrapConfigView {
        BootstrapConfigView {
            refresh_contract_parameters: self.refresh_contract_parameters,
            pool_contract_parameters: self.pool_contract_parameters,
            update_contract_parameters: self.update_contract_parameters,
            ballot_contract_parameters: self.ballot_contract_parameters,
            tokens_to_mint: self.tokens_to_mint,
            node_ip: self.node_ip@,
            node_port: self.node_port@,
            node_api_key: self.node_api_key@,
            addresses: self.addresses,
        }
    }
}

impl View for BootstrapConfigSerde {
    type V = BootstrapConfigSerdeView;

    open spec fn view(&self) -> BootstrapConfigSerdeView {
        BootstrapConfigSerdeView {
            refresh_contract_parameters: self.refresh_contract_parameters@,
            pool_contract_parameters: self.pool_contract_parameters@,
            update_contract_parameters: self.update_contract_parameters@,
            ballot_contract_parameters: self.ballot_contract_parameters@,
            tokens_to_mint: self.tokens_to_mint,
            node_ip: self.node_ip@,
            node_port: self.node_port@,
            node_api_key: self.node_api_key@,
            addresses: self.addresses@,
        }
    }
}

impl BootstrapConfigSerdeView {
    /// The address texts of the document, in the order in which they are decoded.
    pub open spec fn address_texts(self) -> Seq<Seq<char>> {
        seq![
            self.pool_contract_parameters.p2s,
            self.refresh_contract_parameters.p2s,
            self.update_contract_parameters.p2s,
            self.ballot_contract_parameters.p2s,
            self.addresses.address_for_oracle_tokens,
            self.addresses.wallet_address_for_chain_transaction,
        ]
    }

    /// The configuration that the document stands for, where every text is an address.
    pub open spec fn config(self) -> BootstrapConfigView {
        BootstrapConfigView {
            refresh_contract_parameters: self.refresh_contract_parameters.parameters(),
            pool_contract_parameters: self.pool_contract_parameters.parameters(),
            update_contract_parameters: self.update_contract_parameters.parameters(),
            ballot_contract_parameters: self.ballot_contract_parameters.parameters(),
            tokens_to_mint: self.tokens_to_mint,
            node_ip: self.node_ip,
            node_port: self.node_port,
            node_api_key: self.node_api_key,
            addresses: self.addresses.addresses(),
        }
    }

    /// The outcome of validating the document: the configuration, where every
    /// text is an address and all are written for one network.
    pub open spec fn validated(self) -> Result<BootstrapConfigView, SerdeConversionError> {
        match verdict(self.address_texts(), None) {
            Some(e) => Err(e),
            None => Ok(self.config()),
        }
    }
}

impl BootstrapConfigView {
    /// The document that holds the configuration, every address written for
    /// the given network.
    pub open spec fn document(self, prefix: NetworkPrefix) -> BootstrapConfigSerdeView {
        BootstrapConfigSerdeView {
            refresh_contract_parameters: self.refresh_contract_parameters.document(prefix),
            pool_contract_parameters: self.pool_contract_parameters.document(prefix),
            update_contract_parameters: self.update_contract_parameters.document(prefix),
            ballot_contract_parameters: self.ballot_contract_parameters.document(prefix),
            tokens_to_mint: self.tokens_to_mint,
            node_ip: self.node_ip,
            node_port: self.node_port,
            node_api_key: self.node_api_key,
            addresses: self.addresses.document(prefix),
        }
    }

    /// Every address of the configuration is such that a text decodes to it.
    pub open spec fn decodable(self) -> bool {
        &&& is_decoded(self.refresh_contract_parameters.p2s)
        &&& is_decoded(self.pool_contract_parameters.p2s)
        &&& is_decoded(self.update_contract_parameters.p2s)
        &&& is_decoded(self.ballot_contract_parameters.p2s)
        &&& self.addresses.decodable()
    }
}

/// Where two address texts of a bootstrap document decode under different
/// networks, the document is refused because its prefixes differ, whichever
/// the two texts are: validation picks neither network.
pub proof fn lemma_mixed_networks_refused(doc: BootstrapConfigSerdeView, i: int, j: int)
    requires
        all_decode(doc.address_texts()),
        0 <= i < doc.address_texts().len(),
        0 <= j < doc.address_texts().len(),
        prefix_of(doc.address_texts()[i]) != prefix_of(doc.address_texts()[j]),
    ensures
        doc.validated() == Err::<BootstrapConfigView, SerdeConversionError>(
            SerdeConversionError::NetworkPrefixesDiffer,
        ),
{
    lemma_differing_prefixes_rejected(doc.address_texts(), None, i, j);
}

/// Where an address text of a bootstrap document is no address, the document
/// is refused with the decoding error of the first such text. This holds
/// whatever networks the other texts are written for: a disagreement of
/// prefixes is never reported for such a document.
pub proof fn lemma_malformed_address_refused(doc: BootstrapConfigSerdeView, i: int)
    requires
        0 <= i < doc.address_texts().len(),
        !decodes(doc.address_texts()[i]),
    ensures
        doc.validated() matches Err(SerdeConversionError::AddressEncoder(e)) && fails_with(
            doc.address_texts()[first_failure(doc.address_texts())],
            e,
        ),
        first_failure(doc.address_texts()) <= i,
{
    lemma_malformed_address_rejected(doc.address_texts(), None, i);
}

/// A document whose texts are all addresses of one network is accepted.
pub proof fn lemma_consistent_document_accepted(
    doc: BootstrapConfigSerdeView,
    prefix: NetworkPrefix,
)
    requires
        all_decode(doc.address_texts()),
        all_on_network(doc.address_texts(), prefix),
    ensures
        doc.validated() == Ok::<BootstrapConfigView, SerdeConversionError>(doc.config()),
{
    lemma_agreement(doc.address_texts(), prefix);
}

/// Every address of a configuration that came out of validation is one that
/// a text decodes to. So such a configuration, written out for any network,
/// validates to itself again: see `BootstrapConfigSerde::from`.
pub proof fn lemma_validated_is_decodable(doc: BootstrapConfigSerdeView)
    requires
        doc.validated() is Ok,
    ensures
        doc.validated()->Ok_0.decodable(),
{
    lemma_accepted(doc.address_texts(), None);
}

impl BootstrapConfigSerde {
    /// Writes a configuration out, every address encoded for the given
    /// network. Nothing can fail. Where every address of the configuration is
    /// one that a text decodes to, as it is after validation, validating the
    /// document gives the same configuration again: so it does for the
    /// network that the configuration was validated with.
    pub fn from(t: (BootstrapConfig, NetworkPrefix)) -> (r: BootstrapConfigSerde)
        ensures
            r@ == t.0@.document(t.1),
            t.0@.decodable() ==> r@.validated() == Ok::<BootstrapConfigView, SerdeConversionError>(
                t.0@,
            ),
    {
        let c = t.0;
        let prefix = t.1;
        let ghost config = c@;
        let r = BootstrapConfigSerde {
            refresh_contract_parameters: RefreshContractParametersSerde::from(
                (c.refresh_contract_parameters, prefix),
            ),
            pool_contract_parameters: PoolContractParametersSerde::from(
                (c.pool_contract_parameters, prefix),
            ),
            update_contract_parameters: UpdateContractParametersSerde::from(
                (c.update_contract_parameters, prefix),
            ),
            ballot_contract_parameters: BallotContractParametersSerde::from(
                (c.ballot_contract_parameters, prefix),
            ),
            tokens_to_mint: c.tokens_to_mint,
            node_ip: c.node_ip,
            node_port: c.node_port,
            node_api_key: c.node_api_key,
            addresses: AddressesSerde::from((c.addresses, prefix)),
        };
        proof {
            if config.decodable() {
                let texts = r@.address_texts();
                lemma_addresses_accepted(texts, r@.addresses);
                lemma_agreement(texts, prefix);
            }
        }
        r
    }
}

impl BootstrapConfig {
    /// Validates a bootstrap document. Each address text is decoded, in the
    /// order pool, refresh, update, ballot, oracle tokens, wallet; the first
    /// text that is no address ends the validation with its error. Only when
    /// all are addresses are their networks compared: where any two differ
    /// the document is refused. Every address of a configuration that comes
    /// out is one that a text decodes to, so the configuration can be
    /// written out and validated again: see `BootstrapConfigSerde::from`.
    pub fn try_from(c: BootstrapConfigSerde) -> (r: Result<BootstrapConfig, SerdeConversionError>)
        ensures
            match r {
                Ok(config) => c@.validated() == Ok::<BootstrapConfigView, SerdeConversionError>(
                    config@,
                ) && config@.decodable(),
                Err(e) => c@.validated() == Err::<BootstrapConfigView, SerdeConversionError>(e),
            },
    {
        let ghost doc = c@;
        let ghost texts = doc.address_texts();
        let (pool_contract_parameters, pool_contract_prefix) =
            match PoolContractParameters::try_from(c.pool_contract_parameters) {
            Ok(validated) => validated,
            Err(e) => {
                proof {
                    lemma_rejected_at(texts, None, 0, e);
                }
                return Err(SerdeConversionError::from(e));
            },
        };
        let (refresh_contract_parameters, refresh_contract_prefix) =
            match RefreshContractParameters::try_from(c.refresh_contract_parameters) {
            Ok(validated) => validated,
            Err(e) => {
                proof {
                    lemma_rejected_at(texts, None, 1, e);
                }
                return Err(SerdeConversionError::from(e));
            },
        };
        let (update_contract_parameters, update_contract_prefix) =
            match UpdateContractParameters::try_from(c.update_contract_parameters) {
            Ok(validated) => validated,
            Err(e) => {
                proof {
                    lemma_rejected_at(texts, None, 2, e);
                }
                return Err(SerdeConversionError::from(e));
            },
        };
        let (ballot_contract_parameters, ballot_contract_prefix) =
            match BallotContractParameters::try_from(c.ballot_contract_parameters) {
            Ok(validated) => validated,
            Err(e) => {
                proof {
                    lemma_rejected_at(texts, None, 3, e);
                }
                return Err(SerdeConversionError::from(e));
            },
        };
        let AddressesWithPrefix { addresses, prefix } = match AddressesWithPrefix::try_from(
            c.addresses,
        ) {
            Ok(validated) => validated,
            Err(e) => {
                proof {
                    lemma_addresses_rejected(texts, doc.addresses, None, e);
                }
                return Err(e);
            },
        };
        let mut prefixes: Vec<NetworkPrefix> = Vec::new();
        prefixes.push(pool_contract_prefix);
        prefixes.push(refresh_contract_prefix);
        prefixes.push(update_contract_prefix);
        prefixes.push(ballot_contract_prefix);
        prefixes.push(prefix);
        proof {
            lemma_addresses_accepted(texts, doc.addresses);
            lemma_verdict_with_pair(texts, prefixes@, None);
            if doc.validated() is Ok {
                lemma_validated_is_decodable(doc);
            }
        }
        match check_prefixes(&prefixes, None) {
            Ok(()) => Ok(
                BootstrapConfig {
                    pool_contract_parameters,
                    refresh_contract_parameters,
                    update_contract_parameters,
                    ballot_contract_parameters,
                    tokens_to_mint: c.tokens_to_mint,
                    node_ip: c.node_ip,
                    node_port: c.node_port,
                    node_api_key: c.node_api_key,
                    addresses,
                },
            ),
            Err(e) => Err(e),
        }
    }
}

} // verus!
