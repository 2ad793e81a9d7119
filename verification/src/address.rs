//! Script addresses, the network they are written for, and the consistency
//! rule that every address of one deployment is written for the same network.

use ergo_lib::ergotree_ir::chain::address::Address;
use ergo_lib::ergotree_ir::chain::address::AddressEncoder;
use ergo_lib::ergotree_ir::chain::address::AddressEncoderError;
use ergo_lib::ergotree_ir::chain::address::NetworkPrefix as EncoderPrefix;
use vstd::prelude::*;
use vstd::std_specs::convert::FromSpecImpl;

verus! {

/// `ergo_lib`'s `Address`: a validated script address. Nothing here looks
/// inside one: it is decoded, carried and encoded again.
#[verifier::external_type_specification]
#[verifier::external_body]
pub struct ExAddress(Address);

/// `ergo_lib`'s `AddressEncoderError`: why a text is not an address.
#[verifier::external_type_specification]
#[verifier::external_body]
pub struct ExAddressEncoderError(AddressEncoderError);

/// The network an address is written for. It is part of the address text and
/// is recovered when the text is decoded.
#[derive(Clone, Copy, Debug, PartialEq, Eq, Structural)]
pub enum NetworkPrefix {
    Mainnet,
    Testnet,
}

/// What went wrong when a configuration document was validated.
#[derive(Debug, PartialEq, Eq)]
pub enum SerdeConversionError {
    /// A text of the document is not an address.
    AddressEncoder(AddressEncoderError),
    /// Every text is an address, but not all are written for the same network.
    NetworkPrefixesDiffer,
}

impl From<AddressEncoderError> for SerdeConversionError {
    /// The error of a document with a text that is no address, for this reason.
    fn from(e: AddressEncoderError) -> (r: SerdeConversionError) {
        SerdeConversionError::AddressEncoder(e)
    }
}

impl FromSpecImpl<AddressEncoderError> for SerdeConversionError {
    open spec fn obeys_from_spec() -> bool {
        true
    }

    open spec fn from_spec(e: AddressEncoderError) -> SerdeConversionError {
        SerdeConversionError::AddressEncoder(e)
    }
}

/// What `AddressEncoder::unchecked_parse_network_address_from_str` makes of a
/// text: the address and its network, or the reason why it is none.
pub uninterp spec fn decoded_address(text: Seq<char>) -> Result<
    (Address, NetworkPrefix),
    AddressEncoderError,
>;

/// The text that `AddressEncoder::address_to_str` writes for an address on a
/// network.
pub uninterp spec fn encoded_address(prefix: NetworkPrefix, address: Address) -> Seq<char>;

/// The text is an address.
pub open spec fn decodes(text: Seq<char>) -> bool {
    decoded_address(text) is Ok
}

/// The address that the text stands for.
pub open spec fn address_of(text: Seq<char>) -> Address {
    decoded_address(text)->Ok_0.0
}

/// The network that the text is written for.
pub open spec fn prefix_of(text: Seq<char>) -> NetworkPrefix {
    decoded_address(text)->Ok_0.1
}

/// The text stands for this address on this network.
pub open spec fn decodes_to(text: Seq<char>, address: Address, prefix: NetworkPrefix) -> bool {
    decoded_address(text) == Ok::<(Address, NetworkPrefix), AddressEncoderError>((address, prefix))
}

/// The text is no address, for this reason.
pub open spec fn fails_with(text: Seq<char>, error: AddressEncoderError) -> bool {
    decoded_address(text) == Err::<(Address, NetworkPrefix), AddressEncoderError>(error)
}

/// Some text decodes to this address.
pub open spec fn is_decoded(address: Address) -> bool {
    exists|text: Seq<char>| decodes(text) && #[trigger] address_of(text) == address
}

/// Decodes a text with `AddressEncoder::unchecked_parse_network_address_from_str`
/// and hands out the two parts of the `NetworkAddress` that it returns, or
/// its error. Believed of it, not proved: what comes back depends on the
/// text alone, so it is what `decoded_address` stands for.
#[verifier::external_body]
pub(crate) fn parse_network_address(text: &str) -> (r: Result<
    (Address, NetworkPrefix),
    AddressEncoderError,
>)
    ensures
        r == decoded_address(text@),
{
    match AddressEncoder::unchecked_parse_network_address_from_str(text) {
        Ok(a) => {
            let prefix = match a.network() {
                EncoderPrefix::Mainnet => NetworkPrefix::Mainnet,
                EncoderPrefix::Testnet => NetworkPrefix::Testnet,
            };
            Ok((a.address(), prefix))
        },
        Err(e) => Err(e),
    }
}

/// Encodes an address with `AddressEncoder::address_to_str`, on an encoder
/// made for the given network. Believed of it, not proved: the text depends
/// on the network and the address alone, so it is what `encoded_address`
/// stands for; and an address that some text decodes to is decoded from the
/// text written here again, together with the network it was written for.
/// The encoder writes the network and the kind of address into the first
/// byte, then the content and a checksum, and decoding reads the same parts
/// back; an address that came out of decoding has content enough for the
/// least length that decoding asks for.
#[verifier::external_body]
pub(crate) fn address_to_str(prefix: NetworkPrefix, address: &Address) -> (text: String)
    ensures
        text@ == encoded_address(prefix, *address),
        is_decoded(*address) ==> decodes_to(text@, *address, prefix),
{
    let network = match prefix {
        NetworkPrefix::Mainnet => EncoderPrefix::Mainnet,
        NetworkPrefix::Testnet => EncoderPrefix::Testnet,
    };
    AddressEncoder::new(network).address_to_str(address)
}

/// The network that an address text is written for, or the reason why the
/// text is no address.
pub fn network_of(text: &str) -> (r: Result<NetworkPrefix, AddressEncoderError>)
    ensures
        decodes(text@) ==> r == Ok::<NetworkPrefix, AddressEncoderError>(prefix_of(text@)),
        !decodes(text@) ==> (r matches Err(e) && fails_with(text@, e)),
{
    match parse_network_address(text) {
        Ok((_, prefix)) => Ok(prefix),
        Err(e) => Err(e),
    }
}

/// Every text of the list is an address.
pub open spec fn all_decode(texts: Seq<Seq<char>>) -> bool {
    forall|i: int| 0 <= i < texts.len() ==> decodes(#[trigger] texts[i])
}

/// Text `k` is no address, and every text before it is one.
pub open spec fn is_first_failure(texts: Seq<Seq<char>>, k: int) -> bool {
    &&& 0 <= k < texts.len()
    &&& !decodes(texts[k])
    &&& forall|j: int| 0 <= j < k ==> decodes(#[trigger] texts[j])
}

/// The place of the first text that is no address.
pub open spec fn first_failure(texts: Seq<Seq<char>>) -> int {
    choose|k: int| is_first_failure(texts, k)
}

/// Every text of the list is written for the given network.
pub open spec fn all_on_network(texts: Seq<Seq<char>>, prefix: NetworkPrefix) -> bool {
    forall|i: int| 0 <= i < texts.len() ==> prefix_of(#[trigger] texts[i]) == prefix
}

/// The networks that the texts of the list are written for, one for one.
pub open spec fn prefixes_of(texts: Seq<Seq<char>>) -> Seq<NetworkPrefix> {
    Seq::new(texts.len(), |i: int| prefix_of(texts[i]))
}

/// No two networks of the list differ, and where a network is given as
/// reference, none differs from that.
pub open spec fn agree(prefixes: Seq<NetworkPrefix>, reference: Option<NetworkPrefix>) -> bool {
    &&& forall|i: int, j: int|
        0 <= i < prefixes.len() && 0 <= j < prefixes.len() ==> prefixes[i] == prefixes[j]
    &&& reference matches Some(prefix) ==> forall|i: int|
        0 <= i < prefixes.len() ==> prefixes[i] == prefix
}

/// The verdict on the address texts of a document, taken in the order in which
/// they are decoded, where `reference` is the network that all of them have to
/// be written for, if one is given from outside. A text that is no address is
/// reported before any disagreement: the first such text decides the error.
/// Only where every text is an address are their networks held against each
/// other.
#[verifier::opaque]
pub open spec fn verdict(texts: Seq<Seq<char>>, reference: Option<NetworkPrefix>) -> Option<
    SerdeConversionError,
> {
    if !all_decode(texts) {
        Some(
            SerdeConversionError::AddressEncoder(
                decoded_address(texts[first_failure(texts)])->Err_0,
            ),
        )
    } else if agree(prefixes_of(texts), reference) {
        None
    } else {
        Some(SerdeConversionError::NetworkPrefixesDiffer)
    }
}

/// Holds the networks that were recovered from the addresses of a document
/// against each other, and against the reference where one is given. They
/// pass if no two differ; else the prefixes differ.
pub fn check_prefixes(
    prefixes: &Vec<NetworkPrefix>,
    reference: Option<NetworkPrefix>,
) -> (r: Result<(), SerdeConversionError>)
    ensures
        agree(prefixes@, reference) ==> r == Ok::<(), SerdeConversionError>(()),
        !agree(prefixes@, reference) ==> r == Err::<(), SerdeConversionError>(
            SerdeConversionError::NetworkPrefixesDiffer,
        ),
{
    if prefixes.len() == 0 {
        return Ok(());
    }
    let expected = match reference {
        Some(prefix) => prefix,
        None => prefixes[0],
    };
    let mut i: usize = 0;
    while i < prefixes.len()
        invariant
            i <= prefixes@.len(),
            prefixes@.len() > 0,
            reference matches Some(prefix) ==> expected == prefix,
            reference is None ==> expected == prefixes@[0],
            forall|j: int| 0 <= j < i ==> prefixes@[j] == expected,
        decreases prefixes@.len() - i,
    {
        if prefixes[i] != expected {
            return Err(SerdeConversionError::NetworkPrefixesDiffer);
        }
        i += 1;
    }
    Ok(())
}

/// The first failure is the only place that has all addresses before it and
/// none at it.
pub proof fn lemma_first_failure(texts: Seq<Seq<char>>, k: int)
    requires
        is_first_failure(texts, k),
    ensures
        first_failure(texts) == k,
        !all_decode(texts),
{
    let c = first_failure(texts);
    assert(is_first_failure(texts, c));
    // of two such places the earlier one would hold an address
    if c < k {
        assert(decodes(texts[c]));
    }
    if k < c {
        assert(decodes(texts[k]));
    }
}

/// A list with a text that is no address has a first one.
pub proof fn lemma_first_failure_exists(texts: Seq<Seq<char>>)
    requires
        !all_decode(texts),
    ensures
        is_first_failure(texts, first_failure(texts)),
{
    let i = choose|i: int| 0 <= i < texts.len() && !decodes(#[trigger] texts[i]);
    lemma_least_failure(texts, i);
}

proof fn lemma_least_failure(texts: Seq<Seq<char>>, i: int)
    requires
        0 <= i < texts.len(),
        !decodes(texts[i]),
    ensures
        exists|k: int| is_first_failure(texts, k),
    decreases i,
{
    if forall|j: int| 0 <= j < i ==> decodes(#[trigger] texts[j]) {
        assert(is_first_failure(texts, i));
    } else {
        let j = choose|j: int| 0 <= j < i && !decodes(#[trigger] texts[j]);
        lemma_least_failure(texts, j);
    }
}

/// Where text `k` is the first that is no address, the verdict is its error.
pub proof fn lemma_rejected_at(
    texts: Seq<Seq<char>>,
    reference: Option<NetworkPrefix>,
    k: int,
    error: AddressEncoderError,
)
    requires
        is_first_failure(texts, k),
        fails_with(texts[k], error),
    ensures
        verdict(texts, reference) == Some(SerdeConversionError::AddressEncoder(error)),
{
    reveal(verdict);
    lemma_first_failure(texts, k);
}

/// Where two or more texts of a document decode under different networks,
/// the verdict is that the prefixes differ: none of the networks is picked.
pub proof fn lemma_differing_prefixes_rejected(
    texts: Seq<Seq<char>>,
    reference: Option<NetworkPrefix>,
    i: int,
    j: int,
)
    requires
        all_decode(texts),
        0 <= i < texts.len(),
        0 <= j < texts.len(),
        prefix_of(texts[i]) != prefix_of(texts[j]),
    ensures
        verdict(texts, reference) == Some(SerdeConversionError::NetworkPrefixesDiffer),
{
    reveal(verdict);
    let prefixes = prefixes_of(texts);
    assert(prefixes[i] != prefixes[j]);
}

/// Where every text is an address and one is written for another network
/// than the one that the document is held against, the verdict is that the
/// prefixes differ.
pub proof fn lemma_foreign_prefix_rejected(texts: Seq<Seq<char>>, reference: NetworkPrefix, i: int)
    requires
        all_decode(texts),
        0 <= i < texts.len(),
        prefix_of(texts[i]) != reference,
    ensures
        verdict(texts, Some(reference)) == Some(SerdeConversionError::NetworkPrefixesDiffer),
{
    reveal(verdict);
    let prefixes = prefixes_of(texts);
    assert(prefixes[i] != reference);
}

/// Where a text of a document is no address, the verdict is the decoding
/// error of the first such text, whatever networks the other texts are
/// written for: a disagreement of prefixes is never reported in its place.
pub proof fn lemma_malformed_address_rejected(
    texts: Seq<Seq<char>>,
    reference: Option<NetworkPrefix>,
    i: int,
)
    requires
        0 <= i < texts.len(),
        !decodes(texts[i]),
    ensures
        verdict(texts, reference) matches Some(SerdeConversionError::AddressEncoder(e))
            && is_first_failure(texts, first_failure(texts))
            && first_failure(texts) <= i
            && fails_with(texts[first_failure(texts)], e),
{
    reveal(verdict);
    lemma_first_failure_exists(texts);
    if i < first_failure(texts) {
        assert(decodes(texts[i]));
    }
}

/// A list whose texts are all addresses written for one network passes,
/// alone and held against that network.
pub proof fn lemma_agreement(texts: Seq<Seq<char>>, prefix: NetworkPrefix)
    requires
        all_decode(texts),
        all_on_network(texts, prefix),
    ensures
        agree(prefixes_of(texts), None),
        agree(prefixes_of(texts), Some(prefix)),
        verdict(texts, None) is None,
        verdict(texts, Some(prefix)) is None,
{
    reveal(verdict);
}

/// What it takes to pass: every text is an address, and all are written for
/// one network, which is the given one where one is given.
pub proof fn lemma_accepted(texts: Seq<Seq<char>>, reference: Option<NetworkPrefix>)
    requires
        verdict(texts, reference) is None,
    ensures
        all_decode(texts),
        forall|i: int, j: int|
            0 <= i < texts.len() && 0 <= j < texts.len() ==> prefix_of(#[trigger] texts[i])
                == prefix_of(#[trigger] texts[j]),
        reference matches Some(prefix) ==> all_on_network(texts, prefix),
{
    reveal(verdict);
    let prefixes = prefixes_of(texts);
    assert forall|i: int, j: int| 0 <= i < texts.len() && 0 <= j < texts.len() implies prefix_of(
        #[trigger] texts[i],
    ) == prefix_of(#[trigger] texts[j]) by {
        assert(prefixes[i] == prefixes[j]);
    }
    match reference {
        Some(prefix) => {
            assert forall|i: int| 0 <= i < texts.len() implies prefix_of(#[trigger] texts[i])
                == prefix by {
                assert(prefixes[i] == prefix);
            }
        },
        None => {},
    }
}

/// The verdict on texts that are all addresses is that on the networks they
/// are written for: they pass, or the prefixes differ.
pub proof fn lemma_verdict_on_addresses(
    texts: Seq<Seq<char>>,
    prefixes: Seq<NetworkPrefix>,
    reference: Option<NetworkPrefix>,
)
    requires
        all_decode(texts),
        prefixes.len() == texts.len(),
        forall|i: int| 0 <= i < texts.len() ==> prefixes[i] == prefix_of(#[trigger] texts[i]),
    ensures
        verdict(texts, reference) == (if agree(prefixes, reference) {
            None
        } else {
            Some(SerdeConversionError::NetworkPrefixesDiffer)
        }),
{
    reveal(verdict);
    assert(prefixes =~= prefixes_of(texts));
}

/// The two addresses of a document stand last among its texts, and are
/// known to be written for one network. So the verdict on texts that are all
/// addresses is that on the networks of all but the last.
pub proof fn lemma_verdict_with_pair(
    texts: Seq<Seq<char>>,
    prefixes: Seq<NetworkPrefix>,
    reference: Option<NetworkPrefix>,
)
    requires
        all_decode(texts),
        prefixes.len() >= 1,
        texts.len() == prefixes.len() + 1,
        forall|i: int| 0 <= i < prefixes.len() ==> prefixes[i] == prefix_of(#[trigger] texts[i]),
        prefix_of(texts[texts.len() - 1]) == prefix_of(texts[texts.len() - 2]),
    ensures
        verdict(texts, reference) == (if agree(prefixes, reference) {
            None
        } else {
            Some(SerdeConversionError::NetworkPrefixesDiffer)
        }),
{
    // the networks of all texts: that of the last text is that of the one before
    let all = prefixes.push(prefixes.last());
    lemma_verdict_on_addresses(texts, all, reference);
    if agree(prefixes, reference) {
        assert forall|i: int, j: int| 0 <= i < all.len() && 0 <= j < all.len() implies all[i]
            == all[j] by {
            let a = if i < prefixes.len() { i } else { prefixes.len() - 1 };
            let b = if j < prefixes.len() { j } else { prefixes.len() - 1 };
            assert(all[i] == prefixes[a] && all[j] == prefixes[b]);
        }
        assert(reference matches Some(prefix) ==> all.last() == prefix);
    }
    if agree(all, reference) {
        assert forall|i: int, j: int|
            0 <= i < prefixes.len() && 0 <= j < prefixes.len() implies prefixes[i]
            == prefixes[j] by {
            assert(all[i] == all[j]);
        }
        assert forall|i: int|
            0 <= i < prefixes.len() && reference is Some implies prefixes[i] == reference->0 by {
            assert(all[i] == reference->0);
        }
    }
}

} // verus!
