//! What a lookup at the block explorer is made of, besides the request and
//! the reading of what comes back: the address of the service, and the
//! address of a transaction's record below it.

use crate::address::NetworkPrefix;
use url::ParseError;
use url::Url;
use vstd::prelude::*;
use vstd::std_specs::convert::FromSpecImpl;

verus! {

/// `url`'s `Url`: an address of the explorer service, parsed.
#[verifier::external_type_specification]
#[verifier::external_body]
pub struct ExUrl(Url);

/// `url`'s `ParseError`: why a text is no address of a service.
#[verifier::external_type_specification]
#[verifier::external_body]
pub struct ExParseError(ParseError);

/// `serde_json`'s `Error`: why a text is no record of a transaction. Only the
/// caller that reads the records makes one.
#[verifier::external_type_specification]
#[verifier::external_body]
pub struct ExJsonError(serde_json::Error);

/// `reqwest`'s `Error`: why a request did not come back. Only the caller
/// that sends the requests makes one.
#[verifier::external_type_specification]
#[verifier::external_body]
pub struct ExRequestError(reqwest::Error);

/// The explorer service of the main network.
pub const MAINNET_EXPLORER_API_URL: &'static str = "https://api.ergoplatform.com/api/v1/";

/// The explorer service of the test network.
pub const TESTNET_EXPLORER_API_URL: &'static str = "https://api-testnet.ergoplatform.com/api/v1/";

/// The identifier of a transaction: 32 bytes.
#[derive(Debug, Clone, Copy, PartialEq, Eq, Hash)]
pub struct TxId {
    pub bytes: [u8; 32],
}

/// Why a lookup at the explorer failed.
#[derive(Debug)]
pub enum ExplorerApiError {
    /// The request did not come back.
    RequestError(reqwest::Error),
    /// What came back is no record of a transaction.
    SerdeError(serde_json::Error),
    /// The address of the service, or of the record, is none.
    InvalidExplorerUrl(ParseError),
}

impl From<reqwest::Error> for ExplorerApiError {
    fn from(e: reqwest::Error) -> (r: ExplorerApiError) {
        ExplorerApiError::RequestError(e)
    }
}

impl FromSpecImpl<reqwest::Error> for ExplorerApiError {
    open spec fn obeys_from_spec() -> bool {
        true
    }

    open spec fn from_spec(e: reqwest::Error) -> ExplorerApiError {
        ExplorerApiError::RequestError(e)
    }
}

impl From<serde_json::Error> for ExplorerApiError {
    fn from(e: serde_json::Error) -> (r: ExplorerApiError) {
        ExplorerApiError::SerdeError(e)
    }
}

impl FromSpecImpl<serde_json::Error> for ExplorerApiError {
    open spec fn obeys_from_spec() -> bool {
        true
    }

    open spec fn from_spec(e: serde_json::Error) -> ExplorerApiError {
        ExplorerApiError::SerdeError(e)
    }
}

impl From<ParseError> for ExplorerApiError {
    fn from(e: ParseError) -> (r: ExplorerApiError) {
        ExplorerApiError::InvalidExplorerUrl(e)
    }
}

impl FromSpecImpl<ParseError> for ExplorerApiError {
    open spec fn obeys_from_spec() -> bool {
        true
    }

    open spec fn from_spec(e: ParseError) -> ExplorerApiError {
        ExplorerApiError::InvalidExplorerUrl(e)
    }
}

/// The block explorer, by the address of its service.
pub struct ExplorerApi {
    pub url: Url,
}

/// The digits of base 16, in lower case.
pub const HEX_DIGITS: &'static str = "0123456789abcdef";

/// The digit for a number below sixteen.
pub open spec fn hex_digit(nibble: int) -> char {
    HEX_DIGITS@[nibble]
}

/// Bytes in base 16: two lower-case digits for each, the higher first.
pub open spec fn hex_lower(bytes: Seq<u8>) -> Seq<char> {
    Seq::new(
        2 * bytes.len(),
        |i: int|
            if i % 2 == 0 {
                hex_digit(bytes[i / 2] as int / 16)
            } else {
                hex_digit(bytes[i / 2] as int % 16)
            },
    )
}

/// The place of a transaction's record, as a reference to be read against
/// the address of the service. It begins with no slash: so it is read below
/// a service address that ends in one, as the two fixed ones do, and the
/// record of `<id>` at the service `https://host/api/v1/` is
/// `https://host/api/v1/transactions/<id>`.
pub open spec fn endpoint_of(tx_id: TxId) -> Seq<char> {
    "transactions/"@ + hex_lower(tx_id.bytes@)
}

/// The reference to a transaction's record is `transactions/` and 64 digits.
/// It begins with no slash, so reading it against the address of the service
/// keeps the path of that address and does not put another in its place.
pub proof fn lemma_endpoint_is_relative(tx_id: TxId)
    ensures
        endpoint_of(tx_id).len() == 77,
        endpoint_of(tx_id).subrange(0, 13) == "transactions/"@,
        endpoint_of(tx_id)[0] == 't',
        endpoint_of(tx_id).subrange(13, 77) == hex_lower(tx_id.bytes@),
{
    reveal_strlit("transactions/");
    assert(endpoint_of(tx_id).subrange(0, 13) =~= "transactions/"@);
    assert(endpoint_of(tx_id).subrange(13, 77) =~= hex_lower(tx_id.bytes@));
}

/// What `Url::parse` makes of a text.
pub uninterp spec fn parsed_url(text: Seq<char>) -> Result<Url, ParseError>;

/// What `Url::join` makes of a reference, read against a base.
pub uninterp spec fn joined_url(base: Url, reference: Seq<char>) -> Result<Url, ParseError>;

/// Parses the address of a service with `Url::parse`. Believed of it, not
/// proved: what comes back depends on the text alone, so it is what
/// `parsed_url` stands for.
#[verifier::external_body]
fn parse_url(text: &str) -> (r: Result<Url, ParseError>)
    ensures
        r == parsed_url(text@),
{
    Url::parse(text)
}

/// Reads a reference against a base with `Url::join`. Believed of it, not
/// proved: what comes back depends on the base and the reference alone, so it
/// is what `joined_url` stands for.
#[verifier::external_body]
fn join_url(base: &Url, reference: &str) -> (r: Result<Url, ParseError>)
    ensures
        r == joined_url(*base, reference@),
{
    base.join(reference)
}

/// The digits of one more byte follow those of the bytes before it.
proof fn lemma_hex_lower_push(bytes: Seq<u8>, byte: u8)
    ensures
        hex_lower(bytes.push(byte)) == hex_lower(bytes) + seq![
            hex_digit(byte as int / 16),
            hex_digit(byte as int % 16),
        ],
{
    let longer = hex_lower(bytes.push(byte));
    let joined = hex_lower(bytes) + seq![hex_digit(byte as int / 16), hex_digit(byte as int % 16)];
    assert forall|i: int| 0 <= i < longer.len() implies longer[i] == joined[i] by {
        if i < 2 * bytes.len() {
            assert(bytes.push(byte)[i / 2] == bytes[i / 2]);
        } else {
            assert(bytes.push(byte)[i / 2] == byte);
        }
    }
    assert(longer =~= joined);
}

/// The digit for a number below sixteen, as a text.
fn hex_digit_str(nibble: u8) -> (digit: &'static str)
    requires
        nibble < 16,
    ensures
        digit@ == seq![hex_digit(nibble as int)],
{
    proof {
        reveal_strlit("0123456789abcdef");
    }
    let digit = HEX_DIGITS.substring_ascii(nibble as usize, nibble as usize + 1);
    assert(digit@ =~= seq![hex_digit(nibble as int)]);
    digit
}

impl TxId {
    /// The identifier as text: its 32 bytes in base 16, two lower-case
    /// digits for each.
    pub fn to_hex(&self) -> (text: String)
        ensures
            text@ == hex_lower(self.bytes@),
    {
        let mut text = String::new();
        let mut i: usize = 0;
        assert(hex_lower(self.bytes@.take(0)) =~= Seq::<char>::empty());
        while i < 32
            invariant
                i <= 32,
                text@ == hex_lower(self.bytes@.take(i as int)),
            decreases 32 - i,
        {
            let byte = self.bytes[i];
            text.append(hex_digit_str(byte / 16));
            text.append(hex_digit_str(byte % 16));
            proof {
                lemma_hex_lower_push(self.bytes@.take(i as int), byte);
                assert(self.bytes@.take(i + 1) =~= self.bytes@.take(i as int).push(byte));
            }
            i += 1;
        }
        assert(self.bytes@.take(32) =~= self.bytes@);
        text
    }
}

/// The address of the explorer service of a network. Each network has one,
/// and it is fixed.
pub fn explorer_api_url(network: NetworkPrefix) -> (url: &'static str)
    ensures
        network == NetworkPrefix::Mainnet ==> url@ == MAINNET_EXPLORER_API_URL@,
        network == NetworkPrefix::Testnet ==> url@ == TESTNET_EXPLORER_API_URL@,
{
    match network {
        NetworkPrefix::Mainnet => MAINNET_EXPLORER_API_URL,
        NetworkPrefix::Testnet => TESTNET_EXPLORER_API_URL,
    }
}

impl TxId {
    /// Whether two identifiers are the same, byte for byte.
    pub fn same(&self, other: &TxId) -> (r: bool)
        ensures
            r == (*self == *other),
    {
        let mut i: usize = 0;
        while i < 32
            invariant
                i <= 32,
                forall|j: int| 0 <= j < i ==> self.bytes[j] == other.bytes[j],
            decreases 32 - i,
        {
            if self.bytes[i] != other.bytes[i] {
                return false;
            }
            i += 1;
        }
        assert(self.bytes =~= other.bytes);
        true
    }
}

/// The place of a transaction's record, as a reference to be read against
/// the address of the service: `transactions/` and the identifier in base 16.
pub fn transaction_endpoint(tx_id: &TxId) -> (endpoint: String)
    ensures
        endpoint@ == endpoint_of(*tx_id),
{
    "transactions/".to_owned().concat(tx_id.to_hex().as_str())
}

impl ExplorerApi {
    /// The explorer at the given address. A text that is no address is
    /// refused as an invalid explorer url.
    pub fn new(url: &str) -> (r: Result<ExplorerApi, ExplorerApiError>)
        ensures
            match parsed_url(url@) {
                Ok(parsed) => r matches Ok(api) && api.url == parsed,
                Err(e) => r matches Err(ExplorerApiError::InvalidExplorerUrl(error)) && error == e,
            },
    {
        match parse_url(url) {
            Ok(url) => Ok(ExplorerApi { url }),
            Err(e) => Err(ExplorerApiError::from(e)),
        }
    }

    /// The address of a transaction's record: its endpoint, read against the
    /// address of the service, and so below it where that ends in a slash.
    pub fn transaction_url(&self, tx_id: &TxId) -> (r: Result<Url, ExplorerApiError>)
        ensures
            match joined_url(self.url, endpoint_of(*tx_id)) {
                Ok(joined) => r matches Ok(url) && url == joined,
                Err(e) => r matches Err(ExplorerApiError::InvalidExplorerUrl(error)) && error == e,
            },
    {
        let endpoint = transaction_endpoint(tx_id);
        match join_url(&self.url, endpoint.as_str()) {
            Ok(url) => Ok(url),
            Err(e) => Err(ExplorerApiError::from(e)),
        }
    }
}

} // verus!
