//! The configuration of a contract update: only the parameters that change
//! are given, and every address has to be written for the network of the pool
//! that exists already.

use crate::address::all_decode;
use crate::address::all_on_network;
use crate::address::check_prefixes;
use crate::address::decodes;
use crate::address::fails_with;
use crate::address::first_failure;
use crate::address::is_first_failure;
use crate::address::lemma_agreement;
use crate::address::lemma_differing_prefixes_rejected;
use crate::address::lemma_foreign_prefix_rejected;
use crate::address::lemma_malformed_address_rejected;
use crate::address::lemma_rejected_at;
use crate::address::lemma_verdict_with_pair;
use crate::address::prefix_of;
use crate::address::verdict;
use crate::address::NetworkPrefix;
use crate::address::SerdeConversionError;
use crate::bootstrap::lemma_addresses_accepted;
use crate::bootstrap::lemma_addresses_rejected;
use crate::bootstrap::Addresses;
use crate::bootstrap::AddressesSerde;
use crate::bootstrap::AddressesSerdeView;
use crate::bootstrap::AddressesWithPrefix;
use crate::bootstrap::NftMintDetails;
use crate::bootstrap::TokenMintDetails;
use crate::contracts::PoolContractParameters;
use crate::contracts::PoolContractParametersSerde;
use crate::contracts::PoolContractParametersSerdeView;
use crate::contracts::RefreshContractParameters;
use crate::contracts::RefreshContractParametersSerde;
use crate::contracts::RefreshContractParametersSerdeView;
use crate::contracts::UpdateContractParameters;
use crate::contracts::UpdateContractParametersSerde;
use crate::contracts::UpdateContractParametersSerdeView;
use ergo_lib::ergotree_ir::chain::address::AddressEncoderError;
use vstd::prelude::*;

verus! {

/// The tokens that an update mints anew. Validation hands them on as they are.
#[derive(Debug, Clone, PartialEq, Eq)]
pub struct UpdateTokensToMint {
    pub pool_nft: Option<NftMintDetails>,
    pub refresh_nft: Option<NftMintDetails>,
    pub update_nft: Option<NftMintDetails>,
    pub oracle_tokens: Option<TokenMintDetails>,
    pub ballot_tokens: Option<TokenMintDetails>,
    pub reward_tokens: Option<TokenMintDetails>,
}

/// The validated configuration of a contract update.
#[derive(Debug, PartialEq, Eq)]
pub struct UpdateBootstrapConfig {
    pub pool_contract_parameters: Option<PoolContractParameters>,
    pub refresh_contract_parameters: Option<RefreshContractParameters>,
    pub update_contract_parameters: Option<UpdateContractParameters>,
    pub tokens_to_mint: UpdateTokensToMint,
    pub addresses: Addresses,
}

/// The document that an `UpdateBootstrapConfig` is read from.
#[derive(Clone)]
pub struct UpdateBootstrapConfigSerde {
    pub pool_contract_parameters: Option<PoolContractParametersSerde>,
    pub refresh_contract_parameters: Option<RefreshContractParametersSerde>,
    pub update_contract_parameters: Option<UpdateContractParametersSerde>,
    pub tokens_to_mint: UpdateTokensToMint,
    pub addresses: AddressesSerde,
}

/// What an update document says.
pub struct UpdateBootstrapConfigSerdeView {
    pub pool_contract_parameters: Option<PoolContractParametersSerdeView>,
    pub refresh_contract_parameters: Option<RefreshContractParametersSerdeView>,
    pub update_contract_parameters: Option<UpdateContractParametersSerdeView>,
    pub tokens_to_mint: UpdateTokensToMint,
    pub addresses: AddressesSerdeView,
}

impl View for UpdateBootstrapConfigSerde {
    type V = UpdateBootstrapConfigSerdeView;

    open spec fn view(&self) -> UpdateBootstrapConfigSerdeView {
        UpdateBootstrapConfigSerdeView {
            pool_contract_parameters: match self.pool_contract_parameters {
                Some(p) => Some(p@),
                None => None,
            },
            refresh_contract_parameters: match self.refresh_contract_parameters {
                Some(p) => Some(p@),
                None => None,
            },
            update_contract_parameters: match self.update_contract_parameters {
                Some(p) => Some(p@),
                None => None,
            },
            tokens_to_mint: self.tokens_to_mint,
            addresses: self.addresses@,
        }
    }
}

impl UpdateBootstrapConfigSerdeView {
    /// The address text of the pool contract, if the document has one.
    pub open spec fn pool_text(self) -> Seq<Seq<char>> {
        match self.pool_contract_parameters {
            Some(p) => seq![p.p2s],
            None => seq![],
        }
    }

    /// The address text of the refresh contract, if the document has one.
    pub open spec fn refresh_text(self) -> Seq<Seq<char>> {
        match self.refresh_contract_parameters {
            Some(p) => seq![p.p2s],
            None => seq![],
        }
    }

    /// The address text of the update contract, if the document has one.
    pub open spec fn update_text(self) -> Seq<Seq<char>> {
        match self.update_contract_parameters {
            Some(p) => seq![p.p2s],
            None => seq![],
        }
    }

    /// The address texts of the contracts that the document gives, in the
    /// order pool, refresh, update.
    pub open spec fn contract_texts(self) -> Seq<Seq<char>> {
        self.pool_text() + self.refresh_text() + self.update_text()
    }

    /// The address texts that the document holds, in the order in which they
    /// are decoded: those of the contracts that are given, then the two
    /// addresses.
    pub open spec fn address_texts(self) -> Seq<Seq<char>> {
        self.contract_texts() + self.addresses.address_texts()
    }

    /// The configuration that the document stands for, where every text is an
    /// address: what the document leaves out stays out.
    pub open spec fn config(self) -> UpdateBootstrapConfig {
        UpdateBootstrapConfig {
            pool_contract_parameters: match self.pool_contract_parameters {
                Some(p) => Some(p.parameters()),
                None => None,
            },
            refresh_contract_parameters: match self.refresh_contract_parameters {
                Some(p) => Some(p.parameters()),
                None => None,
            },
            update_contract_parameters: match self.update_contract_parameters {
                Some(p) => Some(p.parameters()),
                None => None,
            },
            tokens_to_mint: self.tokens_to_mint,
            addresses: self.addresses.addresses(),
        }
    }

    /// The outcome of validating the document against the network of the pool
    /// that exists: the configuration, where every text that the document
    /// holds is an address written for that network.
    pub open spec fn validated(self, existing: NetworkPrefix) -> Result<
        UpdateBootstrapConfig,
        SerdeConversionError,
    > {
        match verdict(self.address_texts(), Some(existing)) {
            Some(e) => Err(e),
            None => Ok(self.config()),
        }
    }
}

/// Where an address text of an update document decodes under another network
/// than that of the pool that exists, the document is refused because the
/// prefixes differ.
pub proof fn lemma_foreign_network_refused(
    doc: UpdateBootstrapConfigSerdeView,
    existing: NetworkPrefix,
    i: int,
)
    requires
        all_decode(doc.address_texts()),
        0 <= i < doc.address_texts().len(),
        prefix_of(doc.address_texts()[i]) != existing,
    ensures
        doc.validated(existing) == Err::<UpdateBootstrapConfig, SerdeConversionError>(
            SerdeConversionError::NetworkPrefixesDiffer,
        ),
{
    lemma_foreign_prefix_rejected(doc.address_texts(), existing, i);
}

/// Where two address texts of an update document decode under different
/// networks, the document is refused because the prefixes differ, whatever
/// the network of the pool that exists.
pub proof fn lemma_mixed_networks_refused(
    doc: UpdateBootstrapConfigSerdeView,
    existing: NetworkPrefix,
    i: int,
    j: int,
)
    requires
        all_decode(doc.address_texts()),
        0 <= i < doc.address_texts().len(),
        0 <= j < doc.address_texts().len(),
        prefix_of(doc.address_texts()[i]) != prefix_of(doc.address_texts()[j]),
    ensures
        doc.validated(existing) == Err::<UpdateBootstrapConfig, SerdeConversionError>(
            SerdeConversionError::NetworkPrefixesDiffer,
        ),
{
    lemma_differing_prefixes_rejected(doc.address_texts(), Some(existing), i, j);
}

/// Where an address text of an update document is no address, the document
/// is refused with the decoding error of the first such text. This holds
/// whatever networks the other texts are written for: a disagreement of
/// prefixes is never reported for such a document.
pub proof fn lemma_malformed_address_refused(
    doc: UpdateBootstrapConfigSerdeView,
    existing: NetworkPrefix,
    i: int,
)
    requires
        0 <= i < doc.address_texts().len(),
        !decodes(doc.address_texts()[i]),
    ensures
        doc.validated(existing) matches Err(SerdeConversionError::AddressEncoder(e)) && fails_with(
            doc.address_texts()[first_failure(doc.address_texts())],
            e,
        ),
        first_failure(doc.address_texts()) <= i,
{
    lemma_malformed_address_rejected(doc.address_texts(), Some(existing), i);
}

/// A document whose texts are all addresses of the network of the pool that
/// exists is accepted.
pub proof fn lemma_consistent_document_accepted(
    doc: UpdateBootstrapConfigSerdeView,
    existing: NetworkPrefix,
)
    requires
        all_decode(doc.address_texts()),
        all_on_network(doc.address_texts(), existing),
    ensures
        doc.validated(existing) == Ok::<UpdateBootstrapConfig, SerdeConversionError>(doc.config()),
{
    lemma_agreement(doc.address_texts(), existing);
}

/// The contracts that an update document gives, validated, and the network
/// of each in the order pool, refresh, update.
struct GivenContracts {
    pool_contract_parameters: Option<PoolContractParameters>,
    refresh_contract_parameters: Option<RefreshContractParameters>,
    update_contract_parameters: Option<UpdateContractParameters>,
    prefixes: Vec<NetworkPrefix>,
}

impl GivenContracts {
    /// The contracts are those of the document, and the networks are those of
    /// its contract texts, one for one.
    spec fn is_of(self, doc: UpdateBootstrapConfigSerdeView) -> bool {
        &&& self.pool_contract_parameters == doc.config().pool_contract_parameters
        &&& self.refresh_contract_parameters == doc.config().refresh_contract_parameters
        &&& self.update_contract_parameters == doc.config().update_contract_parameters
        &&& all_decode(doc.contract_texts())
        &&& self.prefixes@.len() == doc.contract_texts().len()
        &&& forall|j: int|
            0 <= j < self.prefixes@.len() ==> self.prefixes@[j] == prefix_of(
                #[trigger] doc.contract_texts()[j],
            )
    }

    /// Decodes the address of each contract that the document gives, and
    /// stops at the first text that is no address.
    fn decode(
        pool: Option<PoolContractParametersSerde>,
        refresh: Option<RefreshContractParametersSerde>,
        update: Option<UpdateContractParametersSerde>,
        Ghost(doc): Ghost<UpdateBootstrapConfigSerdeView>,
    ) -> (r: Result<GivenContracts, AddressEncoderError>)
        requires
            doc.pool_contract_parameters == (match pool {
                Some(p) => Some(p@),
                None => None,
            }),
            doc.refresh_contract_parameters == (match refresh {
                Some(p) => Some(p@),
                None => None,
            }),
            doc.update_contract_parameters == (match update {
                Some(p) => Some(p@),
                None => None,
            }),
        ensures
            match r {
                Ok(given) => given.is_of(doc),
                Err(e) => exists|k: int|
                    is_first_failure(doc.contract_texts(), k) && fails_with(
                        #[trigger] doc.contract_texts()[k],
                        e,
                    ),
            },
    {
        let ghost texts = doc.contract_texts();
        let mut prefixes: Vec<NetworkPrefix> = Vec::new();
        let pool_contract_parameters = match pool {
            Some(contract) => match PoolContractParameters::try_from(contract) {
                Ok((parameters, prefix)) => {
                    prefixes.push(prefix);
                    Some(parameters)
                },
                Err(e) => {
                    assert(is_first_failure(texts, 0) && fails_with(texts[0], e));
                    return Err(e);
                },
            },
            None => None,
        };
        let ghost a = prefixes@.len() as int;
        let refresh_contract_parameters = match refresh {
            Some(contract) => match RefreshContractParameters::try_from(contract) {
                Ok((parameters, prefix)) => {
                    prefixes.push(prefix);
                    Some(parameters)
                },
                Err(e) => {
                    assert(is_first_failure(texts, a) && fails_with(texts[a], e));
                    return Err(e);
                },
            },
            None => None,
        };
        let ghost b = prefixes@.len() as int;
        let update_contract_parameters = match update {
            Some(contract) => match UpdateContractParameters::try_from(contract) {
                Ok((parameters, prefix)) => {
                    prefixes.push(prefix);
                    Some(parameters)
                },
                Err(e) => {
                    assert(is_first_failure(texts, b) && fails_with(texts[b], e));
                    return Err(e);
                },
            },
            None => None,
        };
        Ok(
            GivenContracts {
                pool_contract_parameters,
                refresh_contract_parameters,
                update_contract_parameters,
                prefixes,
            },
        )
    }
}

impl UpdateBootstrapConfig {
    /// Validates an update document against the network of the existing pool,
    /// which is the second part of the argument. The contracts that the
    /// document gives are decoded in the order pool, refresh, update, then the
    /// two addresses; the first text that is no address ends the validation
    /// with its error. Only then is each network compared with the existing
    /// one.
    pub fn try_from(t: (UpdateBootstrapConfigSerde, NetworkPrefix)) -> (r: Result<
        UpdateBootstrapConfig,
        SerdeConversionError,
    >)
        ensures
            r == t.0@.validated(t.1),
    {
        let c = t.0;
        let existing_network_prefix = t.1;
        let ghost doc = c@;
        let ghost texts = doc.address_texts();
        let ghost n = doc.contract_texts().len() as int;

        let given = match GivenContracts::decode(
            c.pool_contract_parameters,
            c.refresh_contract_parameters,
            c.update_contract_parameters,
            Ghost(doc),
        ) {
            Ok(given) => given,
            Err(e) => {
                proof {
                    let k = choose|k: int|
                        is_first_failure(doc.contract_texts(), k) && fails_with(
                            #[trigger] doc.contract_texts()[k],
                            e,
                        );
                    // the texts of the contracts stand first among those of the document
                    assert forall|j: int| 0 <= j < k implies decodes(#[trigger] texts[j]) by {
                        assert(texts[j] == doc.contract_texts()[j]);
                    }
                    assert(texts[k] == doc.contract_texts()[k]);
                    lemma_rejected_at(texts, Some(existing_network_prefix), k, e);
                }
                return Err(SerdeConversionError::from(e));
            },
        };
        let GivenContracts {
            pool_contract_parameters,
            refresh_contract_parameters,
            update_contract_parameters,
            mut prefixes,
        } = given;
        proof {
            assert forall|j: int| 0 <= j < n implies decodes(#[trigger] texts[j]) && prefixes@[j]
                == prefix_of(texts[j]) by {
                assert(texts[j] == doc.contract_texts()[j]);
            }
            assert(texts[n] == doc.addresses.address_for_oracle_tokens);
            assert(texts[n + 1] == doc.addresses.wallet_address_for_chain_transaction);
        }

        let AddressesWithPrefix { addresses, prefix } = match AddressesWithPrefix::try_from(
            c.addresses,
        ) {
            Ok(validated) => validated,
            Err(e) => {
                proof {
                    lemma_addresses_rejected(
                        texts,
                        doc.addresses,
                        Some(existing_network_prefix),
                        e,
                    );
                }
                return Err(e);
            },
        };
        prefixes.push(prefix);
        proof {
            lemma_addresses_accepted(texts, doc.addresses);
            lemma_verdict_with_pair(texts, prefixes@, Some(existing_network_prefix));
        }
        match check_prefixes(&prefixes, Some(existing_network_prefix)) {
            Ok(()) => Ok(
                UpdateBootstrapConfig {
                    pool_contract_parameters,
                    refresh_contract_parameters,
                    update_contract_parameters,
                    tokens_to_mint: c.tokens_to_mint,
                    addresses,
                },
            ),
            Err(e) => Err(e),
        }
    }
}

} // verus!
