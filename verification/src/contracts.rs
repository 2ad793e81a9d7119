//! The parameters of the five contracts of a pool, as validated values and as
//! the documents they are read from and written to.
//!
//! A document holds the contract's address as text. Validating it decodes the
//! text and recovers the network the address was written for; the numbers are
//! taken over as they are, with no check beyond their type.

use crate::address::address_of;
use crate::address::address_to_str;
use crate::address::decoded_address;
use crate::address::encoded_address;
use crate::address::is_decoded;
use crate::address::parse_network_address;
use crate::address::NetworkPrefix;
use ergo_lib::ergotree_ir::chain::address::Address;
use ergo_lib::ergotree_ir::chain::address::AddressEncoderError;
use vstd::prelude::*;

verus! {

/// The validated parameters of the oracle contract.
#[derive(Debug, PartialEq, Eq)]
pub struct OracleContractParameters {
    pub p2s: Address,
    pub pool_nft_index: usize,
}

/// The parameters of the oracle contract as a document holds them.
#[derive(Debug, Clone)]
pub struct OracleContractParametersSerde {
    pub p2s: String,
    pub pool_nft_index: usize,
}

/// What a document of the oracle contract says: the address as text, and the
/// numbers.
pub struct OracleContractParametersSerdeView {
    pub p2s: Seq<char>,
    pub pool_nft_index: usize,
}

impl View for OracleContractParametersSerde {
    type V = OracleContractParametersSerdeView;

    open spec fn view(&self) -> OracleContractParametersSerdeView {
        OracleContractParametersSerdeView {
            p2s: self.p2s@,
            pool_nft_index: self.pool_nft_index,
        }
    }
}

impl OracleContractParametersSerdeView {
    /// The parameters that the document stands for, where its text is an address.
    pub open spec fn parameters(self) -> OracleContractParameters {
        OracleContractParameters {
            p2s: address_of(self.p2s),
            pool_nft_index: self.pool_nft_index,
        }
    }

    /// The outcome of validating the document: the parameters and the network
    /// of the address, or the reason why the text is no address.
    pub open spec fn validated(self) -> Result<
        (OracleContractParameters, NetworkPrefix),
        AddressEncoderError,
    > {
        match decoded_address(self.p2s) {
            Ok(decoded) => Ok((self.parameters(), decoded.1)),
            Err(e) => Err(e),
        }
    }
}

impl OracleContractParameters {
    /// The document that holds these parameters, written for the given network.
    pub open spec fn document(self, prefix: NetworkPrefix) -> OracleContractParametersSerdeView {
        OracleContractParametersSerdeView {
            p2s: encoded_address(prefix, self.p2s),
            pool_nft_index: self.pool_nft_index,
        }
    }

    /// Validates a document: decodes its address and takes the numbers over.
    pub fn try_from(contract: OracleContractParametersSerde) -> (r: Result<
        (OracleContractParameters, NetworkPrefix),
        AddressEncoderError,
    >)
        ensures
            r == contract@.validated(),
    {
        match parse_network_address(contract.p2s.as_str()) {
            Ok((address, prefix)) => Ok((
                OracleContractParameters {
                    p2s: address,
                    pool_nft_index: contract.pool_nft_index,
                },
                prefix,
            )),
            Err(e) => Err(e),
        }
    }
}

impl OracleContractParametersSerde {
    /// Writes the parameters out, the address encoded for the given network.
    /// Where the address is one that a text decodes to, the document validates
    /// to the same parameters and the same network again.
    pub fn from(t: (OracleContractParameters, NetworkPrefix)) -> (r: OracleContractParametersSerde)
        ensures
            r@ == t.0.document(t.1),
            is_decoded(t.0.p2s) ==> r@.validated() == Ok::<
                (OracleContractParameters, NetworkPrefix),
                AddressEncoderError,
            >(t),
    {
        let p = t.0;
        let prefix = t.1;
        OracleContractParametersSerde {
            p2s: address_to_str(prefix, &p.p2s),
            pool_nft_index: p.pool_nft_index,
        }
    }
}

/// The validated parameters of the pool contract.
#[derive(Debug, PartialEq, Eq)]
pub struct PoolContractParameters {
    pub p2s: Address,
    pub refresh_nft_index: usize,
    pub update_nft_index: usize,
}

/// The parameters of the pool contract as a document holds them.
#[derive(Debug, Clone)]
pub struct PoolContractParametersSerde {
    pub p2s: String,
    pub refresh_nft_index: usize,
    pub update_nft_index: usize,
}

/// What a document of the pool contract says: the address as text, and the
/// numbers.
pub struct PoolContractParametersSerdeView {
    pub p2s: Seq<char>,
    pub refresh_nft_index: usize,
    pub update_nft_index: usize,
}

impl View for PoolContractParametersSerde {
    type V = PoolContractParametersSerdeView;

    open spec fn view(&self) -> PoolContractParametersSerdeView {
        PoolContractParametersSerdeView {
            p2s: self.p2s@,
            refresh_nft_index: self.refresh_nft_index,
            update_nft_index: self.update_nft_index,
        }
    }
}

impl PoolContractParametersSerdeView {
    /// The parameters that the document stands for, where its text is an address.
    pub open spec fn parameters(self) -> PoolContractParameters {
        PoolContractParameters {
            p2s: address_of(self.p2s),
            refresh_nft_index: self.refresh_nft_index,
            update_nft_index: self.update_nft_index,
        }
    }

    /// The outcome of validating the document: the parameters and the network
    /// of the address, or the reason why the text is no address.
    pub open spec fn validated(self) -> Result<
        (PoolContractParameters, NetworkPrefix),
        AddressEncoderError,
    > {
        match decoded_address(self.p2s) {
            Ok(decoded) => Ok((self.parameters(), decoded.1)),
            Err(e) => Err(e),
        }
    }
}

impl PoolContractParameters {
    /// The document that holds these parameters, written for the given network.
    pub open spec fn document(self, prefix: NetworkPrefix) -> PoolContractParametersSerdeView {
        PoolContractParametersSerdeView {
            p2s: encoded_address(prefix, self.p2s),
            refresh_nft_index: self.refresh_nft_index,
            update_nft_index: self.update_nft_index,
        }
    }

    /// Validates a document: decodes its address and takes the numbers over.
    pub fn try_from(contract: PoolContractParametersSerde) -> (r: Result<
        (PoolContractParameters, NetworkPrefix),
        AddressEncoderError,
    >)
        ensures
            r == contract@.validated(),
    {
        match parse_network_address(contract.p2s.as_str()) {
            Ok((address, prefix)) => Ok((
                PoolContractParameters {
                    p2s: address,
                    refresh_nft_index: contract.refresh_nft_index,
                    update_nft_index: contract.update_nft_index,
                },
                prefix,
            )),
            Err(e) => Err(e),
        }
    }
}

impl PoolContractParametersSerde {
    /// Writes the parameters out, the address encoded for the given network.
    /// Where the address is one that a text decodes to, the document validates
    /// to the same parameters and the same network again.
    pub fn from(t: (PoolContractParameters, NetworkPrefix)) -> (r: PoolContractParametersSerde)
        ensures
            r@ == t.0.document(t.1),
            is_decoded(t.0.p2s) ==> r@.validated() == Ok::<
                (PoolContractParameters, NetworkPrefix),
                AddressEncoderError,
            >(t),
    {
        let p = t.0;
        let prefix = t.1;
        PoolContractParametersSerde {
            p2s: address_to_str(prefix, &p.p2s),
            refresh_nft_index: p.refresh_nft_index,
            update_nft_index: p.update_nft_index,
        }
    }
}

/// The validated parameters of the refresh contract.
#[derive(Debug, PartialEq, Eq)]
pub struct RefreshContractParameters {
    pub p2s: Address,
    pub pool_nft_index: usize,
    pub oracle_token_id_index: usize,
    pub min_data_points_index: usize,
    pub min_data_points: u64,
    pub buffer_index: usize,
    pub buffer_length: u64,
    pub max_deviation_percent_index: usize,
    pub max_deviation_percent: u64,
    pub epoch_length_index: usize,
    pub epoch_length: u64,
}

/// The parameters of the refresh contract as a document holds them.
#[derive(Debug, Clone)]
pub struct RefreshContractParametersSerde {
    pub p2s: String,
    pub pool_nft_index: usize,
    pub oracle_token_id_index: usize,
    pub min_data_points_index: usize,
    pub min_data_points: u64,
    pub buffer_index: usize,
    pub buffer_length: u64,
    pub max_deviation_percent_index: usize,
    pub max_deviation_percent: u64,
    pub epoch_length_index: usize,
    pub epoch_length: u64,
}

/// What a document of the refresh contract says: the address as text, and the
/// numbers.
pub struct RefreshContractParametersSerdeView {
    pub p2s: Seq<char>,
    pub pool_nft_index: usize,
    pub oracle_token_id_index: usize,
    pub min_data_points_index: usize,
    pub min_data_points: u64,
    pub buffer_index: usize,
    pub buffer_length: u64,
    pub max_deviation_percent_index: usize,
    pub max_deviation_percent: u64,
    pub epoch_length_index: usize,
    pub epoch_length: u64,
}

impl View for RefreshContractParametersSerde {
    type V = RefreshContractParametersSerdeView;

    open spec fn view(&self) -> RefreshContractParametersSerdeView {
        RefreshContractParametersSerdeView {
            p2s: self.p2s@,
            pool_nft_index: self.pool_nft_index,
            oracle_token_id_index: self.oracle_token_id_index,
            min_data_points_index: self.min_data_points_index,
            min_data_points: self.min_data_points,
            buffer_index: self.buffer_index,
            buffer_length: self.buffer_length,
            max_deviation_percent_index: self.max_deviation_percent_index,
            max_deviation_percent: self.max_deviation_percent,
            epoch_length_index: self.epoch_length_index,
            epoch_length: self.epoch_length,
        }
    }
}

impl RefreshContractParametersSerdeView {
    /// The parameters that the document stands for, where its text is an address.
    pub open spec fn parameters(self) -> RefreshContractParameters {
        RefreshContractParameters {
            p2s: address_of(self.p2s),
            pool_nft_index: self.pool_nft_index,
            oracle_token_id_index: self.oracle_token_id_index,
            min_data_points_index: self.min_data_points_index,
            min_data_points: self.min_data_points,
            buffer_index: self.buffer_index,
            buffer_length: self.buffer_length,
            max_deviation_percent_index: self.max_deviation_percent_index,
            max_deviation_percent: self.max_deviation_percent,
            epoch_length_index: self.epoch_length_index,
            epoch_length: self.epoch_length,
        }
    }

    /// The outcome of validating the document: the parameters and the network
    /// of the address, or the reason why the text is no address.
    pub open spec fn validated(self) -> Result<
        (RefreshContractParameters, NetworkPrefix),
        AddressEncoderError,
    > {
        match decoded_address(self.p2s) {
            Ok(decoded) => Ok((self.parameters(), decoded.1)),
            Err(e) => Err(e),
        }
    }
}

impl RefreshContractParameters {
    /// The document that holds these parameters, written for the given network.
    pub open spec fn document(self, prefix: NetworkPrefix) -> RefreshContractParametersSerdeView {
        RefreshContractParametersSerdeView {
            p2s: encoded_address(prefix, self.p2s),
            pool_nft_index: self.pool_nft_index,
            oracle_token_id_index: self.oracle_token_id_index,
            min_data_points_index: self.min_data_points_index,
            min_data_points: self.min_data_points,
            buffer_index: self.buffer_index,
            buffer_length: self.buffer_length,
            max_deviation_percent_index: self.max_deviation_percent_index,
            max_deviation_percent: self.max_deviation_percent,
            epoch_length_index: self.epoch_length_index,
            epoch_length: self.epoch_length,
        }
    }

    /// Validates a document: decodes its address and takes the numbers over.
    pub fn try_from(contract: RefreshContractParametersSerde) -> (r: Result<
        (RefreshContractParameters, NetworkPrefix),
        AddressEncoderError,
    >)
        ensures
            r == contract@.validated(),
    {
        match parse_network_address(contract.p2s.as_str()) {
            Ok((address, prefix)) => Ok((
                RefreshContractParameters {
                    p2s: address,
                    pool_nft_index: contract.pool_nft_index,
                    oracle_token_id_index: contract.oracle_token_id_index,
                    min_data_points_index: contract.min_data_points_index,
                    min_data_points: contract.min_data_points,
                    buffer_index: contract.buffer_index,
                    buffer_length: contract.buffer_length,
                    max_deviation_percent_index: contract.max_deviation_percent_index,
                    max_deviation_percent: contract.max_deviation_percent,
                    epoch_length_index: contract.epoch_length_index,
                    epoch_length: contract.epoch_length,
                },
                prefix,
            )),
            Err(e) => Err(e),
        }
    }
}

impl RefreshContractParametersSerde {
    /// Writes the parameters out, the address encoded for the given network.
    /// Where the address is one that a text decodes to, the document validates
    /// to the same parameters and the same network again.
    pub fn from(t: (RefreshContractParameters, NetworkPrefix)) -> (r:
        RefreshContractParametersSerde)
        ensures
            r@ == t.0.document(t.1),
            is_decoded(t.0.p2s) ==> r@.validated() == Ok::<
                (RefreshContractParameters, NetworkPrefix),
                AddressEncoderError,
            >(t),
    {
        let p = t.0;
        let prefix = t.1;
        RefreshContractParametersSerde {
            p2s: address_to_str(prefix, &p.p2s),
            pool_nft_index: p.pool_nft_index,
            oracle_token_id_index: p.oracle_token_id_index,
            min_data_points_index: p.min_data_points_index,
            min_data_points: p.min_data_points,
            buffer_index: p.buffer_index,
            buffer_length: p.buffer_length,
            max_deviation_percent_index: p.max_deviation_percent_index,
            max_deviation_percent: p.max_deviation_percent,
            epoch_length_index: p.epoch_length_index,
            epoch_length: p.epoch_length,
        }
    }
}

/// The validated parameters of the ballot contract.
#[derive(Debug, PartialEq, Eq)]
pub struct BallotContractParameters {
    pub p2s: Address,
    pub min_storage_rent_index: usize,
    pub min_storage_rent: u64,
    pub update_nft_index: usize,
}

/// The parameters of the ballot contract as a document holds them.
#[derive(Debug, Clone)]
pub struct BallotContractParametersSerde {
    pub p2s: String,
    pub min_storage_rent_index: usize,
    pub min_storage_rent: u64,
    pub update_nft_index: usize,
}

/// What a document of the ballot contract says: the address as text, and the
/// numbers.
pub struct BallotContractParametersSerdeView {
    pub p2s: Seq<char>,
    pub min_storage_rent_index: usize,
    pub min_storage_rent: u64,
    pub update_nft_index: usize,
}

impl View for BallotContractParametersSerde {
    type V = BallotContractParametersSerdeView;

    open spec fn view(&self) -> BallotContractParametersSerdeView {
        BallotContractParametersSerdeView {
            p2s: self.p2s@,
            min_storage_rent_index: self.min_storage_rent_index,
            min_storage_rent: self.min_storage_rent,
            update_nft_index: self.update_nft_index,
        }
    }
}

impl BallotContractParametersSerdeView {
    /// The parameters that the document stands for, where its text is an address.
    pub open spec fn parameters(self) -> BallotContractParameters {
        BallotContractParameters {
            p2s: address_of(self.p2s),
            min_storage_rent_index: self.min_storage_rent_index,
            min_storage_rent: self.min_storage_rent,
            update_nft_index: self.update_nft_index,
        }
    }

    /// The outcome of validating the document: the parameters and the network
    /// of the address, or the reason why the text is no address.
    pub open spec fn validated(self) -> Result<
        (BallotContractParameters, NetworkPrefix),
        AddressEncoderError,
    > {
        match decoded_address(self.p2s) {
            Ok(decoded) => Ok((self.parameters(), decoded.1)),
            Err(e) => Err(e),
        }
    }
}

impl BallotContractParameters {
    /// The document that holds these parameters, written for the given network.
    pub open spec fn document(self, prefix: NetworkPrefix) -> BallotContractParametersSerdeView {
        BallotContractParametersSerdeView {
            p2s: encoded_address(prefix, self.p2s),
            min_storage_rent_index: self.min_storage_rent_index,
            min_storage_rent: self.min_storage_rent,
            update_nft_index: self.update_nft_index,
        }
    }

    /// Validates a document: decodes its address and takes the numbers over.
    pub fn try_from(contract: BallotContractParametersSerde) -> (r: Result<
        (BallotContractParameters, NetworkPrefix),
        AddressEncoderError,
    >)
        ensures
            r == contract@.validated(),
    {
        match parse_network_address(contract.p2s.as_str()) {
            Ok((address, prefix)) => Ok((
                BallotContractParameters {
                    p2s: address,
                    min_storage_rent_index: contract.min_storage_rent_index,
                    min_storage_rent: contract.min_storage_rent,
                    update_nft_index: contract.update_nft_index,
                },
                prefix,
            )),
            Err(e) => Err(e),
        }
    }
}

impl BallotContractParametersSerde {
    /// Writes the parameters out, the address encoded for the given network.
    /// Where the address is one that a text decodes to, the document validates
    /// to the same parameters and the same network again.
    pub fn from(t: (BallotContractParameters, NetworkPrefix)) -> (r: BallotContractParametersSerde)
        ensures
            r@ == t.0.document(t.1),
            is_decoded(t.0.p2s) ==> r@.validated() == Ok::<
                (BallotContractParameters, NetworkPrefix),
                AddressEncoderError,
            >(t),
    {
        let p = t.0;
        let prefix = t.1;
        BallotContractParametersSerde {
            p2s: address_to_str(prefix, &p.p2s),
            min_storage_rent_index: p.min_storage_rent_index,
            min_storage_rent: p.min_storage_rent,
            update_nft_index: p.update_nft_index,
        }
    }
}

/// The validated parameters of the update contract.
#[derive(Debug, PartialEq, Eq)]
pub struct UpdateContractParameters {
    pub p2s: Address,
    pub pool_nft_index: usize,
    pub ballot_token_index: usize,
    pub min_votes_index: usize,
    pub min_votes: u64,
}

/// The parameters of the update contract as a document holds them.
#[derive(Debug, Clone)]
pub struct UpdateContractParametersSerde {
    pub p2s: String,
    pub pool_nft_index: usize,
    pub ballot_token_index: usize,
    pub min_votes_index: usize,
    pub min_votes: u64,
}

/// What a document of the update contract says: the address as text, and the
/// numbers.
pub struct UpdateContractParametersSerdeView {
    pub p2s: Seq<char>,
    pub pool_nft_index: usize,
    pub ballot_token_index: usize,
    pub min_votes_index: usize,
    pub min_votes: u64,
}

impl View for UpdateContractParametersSerde {
    type V = UpdateContractParametersSerdeView;

    open spec fn view(&self) -> UpdateContractParametersSerdeView {
        UpdateContractParametersSerdeView {
            p2s: self.p2s@,
            pool_nft_index: self.pool_nft_index,
            ballot_token_index: self.ballot_token_index,
            min_votes_index: self.min_votes_index,
            min_votes: self.min_votes,
        }
    }
}

impl UpdateContractParametersSerdeView {
    /// The parameters that the document stands for, where its text is an address.
    pub open spec fn parameters(self) -> UpdateContractParameters {
        UpdateContractParameters {
            p2s: address_of(self.p2s),
            pool_nft_index: self.pool_nft_index,
            ballot_token_index: self.ballot_token_index,
            min_votes_index: self.min_votes_index,
            min_votes: self.min_votes,
        }
    }

    /// The outcome of validating the document: the parameters and the network
    /// of the address, or the reason why the text is no address.
    pub open spec fn validated(self) -> Result<
        (UpdateContractParameters, NetworkPrefix),
        AddressEncoderError,
    > {
        match decoded_address(self.p2s) {
            Ok(decoded) => Ok((self.parameters(), decoded.1)),
            Err(e) => Err(e),
        }
    }
}

impl UpdateContractParameters {
    /// The document that holds these parameters, written for the given network.
    pub open spec fn document(self, prefix: NetworkPrefix) -> UpdateContractParametersSerdeView {
        UpdateContractParametersSerdeView {
            p2s: encoded_address(prefix, self.p2s),
            pool_nft_index: self.pool_nft_index,
            ballot_token_index: self.ballot_token_index,
            min_votes_index: self.min_votes_index,
            min_votes: self.min_votes,
        }
    }

    /// Validates a document: decodes its address and takes the numbers over.
    pub fn try_from(contract: UpdateContractParametersSerde) -> (r: Result<
        (UpdateContractParameters, NetworkPrefix),
        AddressEncoderError,
    >)
        ensures
            r == contract@.validated(),
    {
        match parse_network_address(contract.p2s.as_str()) {
            Ok((address, prefix)) => Ok((
                UpdateContractParameters {
                    p2s: address,
                    pool_nft_index: contract.pool_nft_index,
                    ballot_token_index: contract.ballot_token_index,
                    min_votes_index: contract.min_votes_index,
                    min_votes: contract.min_votes,
                },
                prefix,
            )),
            Err(e) => Err(e),
        }
    }
}

impl UpdateContractParametersSerde {
    /// Writes the parameters out, the address encoded for the given network.
    /// Where the address is one that a text decodes to, the document validates
    /// to the same parameters and the same network again.
    pub fn from(t: (UpdateContractParameters, NetworkPrefix)) -> (r: UpdateContractParametersSerde)
        ensures
            r@ == t.0.document(t.1),
            is_decoded(t.0.p2s) ==> r@.validated() == Ok::<
                (UpdateContractParameters, NetworkPrefix),
                AddressEncoderError,
            >(t),
    {
        let p = t.0;
        let prefix = t.1;
        UpdateContractParametersSerde {
            p2s: address_to_str(prefix, &p.p2s),
            pool_nft_index: p.pool_nft_index,
            ballot_token_index: p.ballot_token_index,
            min_votes_index: p.min_votes_index,
            min_votes: p.min_votes,
        }
    }
}

} // verus!
