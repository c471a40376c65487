//! What the pipeline asks of the node: the fixed block-fetch
//! configuration, and the account lookup's request and response handling.
//!
//! The node itself lives outside the library; the functions here build the
//! exact requests the pipeline sends and interpret the plain values that
//! come back.

use std::str::FromStr;

use vstd::prelude::*;

verus! {

/// The finality level a node query may ask for.
#[derive(Clone, Copy, Debug, PartialEq, Eq, Structural)]
pub enum Commitment {
    Processed,
    Confirmed,
    Finalized,
}

/// The transaction encodings a block fetch may ask for.
#[derive(Clone, Copy, Debug, PartialEq, Eq, Structural)]
pub enum TxEncoding {
    Base58,
    Base64,
    /// The structured form the decoder expects.
    StructuredJson,
    /// A form the node has already interpreted.
    ParsedJson,
}

/// How much of each transaction a block fetch may ask for.
#[derive(Clone, Copy, Debug, PartialEq, Eq, Structural)]
pub enum TxDetail {
    Full,
    Accounts,
    Signatures,
    NoDetails,
}

/// The account-data encodings an account lookup may ask for.
#[derive(Clone, Copy, Debug, PartialEq, Eq, Structural)]
pub enum AccountEncoding {
    Base58,
    Base64,
    /// The compact encoding the account reader asks for.
    Base64Zstd,
    ParsedJson,
}

/// The configuration of one block fetch.
#[derive(Clone, Copy, Debug, PartialEq, Eq, Structural)]
pub struct BlockFetchConfig {
    pub encoding: TxEncoding,
    pub detail: TxDetail,
    pub include_rewards: bool,
    pub commitment: Commitment,
    pub max_supported_version: u8,
}

/// The configuration every block fetch uses: structured transactions in
/// full detail with rewards, at finalized commitment, up to transaction
/// version zero.
pub fn block_fetch_config() -> (c: BlockFetchConfig)
    ensures
        c.encoding is StructuredJson,
        c.detail is Full,
        c.include_rewards,
        c.commitment is Finalized,
        c.max_supported_version == 0,
{
    BlockFetchConfig {
        encoding: TxEncoding::StructuredJson,
        detail: TxDetail::Full,
        include_rewards: true,
        commitment: Commitment::Finalized,
        max_supported_version: 0,
    }
}

/// How many bytes of account data the account reader requests: a
/// deliberate partial read of the account's data, not the full payload.
pub const ACCOUNT_DATA_SLICE_LENGTH: usize = 20;

/// Current state of one account, as the node reports it.
#[derive(Clone, Debug, PartialEq, Eq)]
pub struct AccountState {
    /// Balance in the chain's base unit.
    pub lamports: u64,
    /// The requested slice of the account's data.
    pub data: Vec<u8>,
    /// The program that owns the account.
    pub owner: String,
    /// Whether the account holds an executable program.
    pub executable: bool,
    /// The epoch at which rent was last charged.
    pub rent_epoch: u64,
}

/// Why an account lookup failed.
#[derive(Clone, Copy, Debug, PartialEq, Eq, Structural)]
pub enum AccountError {
    /// The given public key is not a valid key text.
    InvalidKey,
    /// The node reported no account under the key.
    NotFound,
}

/// One account lookup as the reader sends it: the decoded key and the
/// fixed query parameters.
#[derive(Clone, Debug, PartialEq, Eq)]
pub struct AccountRequest {
    /// The 32 bytes the key text decodes to.
    pub key: Vec<u8>,
    pub encoding: AccountEncoding,
    /// Start of the requested account-data slice.
    pub data_offset: usize,
    /// Length of the requested account-data slice.
    pub data_length: usize,
    pub commitment: Commitment,
}

/// The bytes a public-key text decodes to, when it is a valid key: what
/// the key parser accepts and returns, a function of the text alone.
pub uninterp spec fn pubkey_bytes_of(s: Seq<char>) -> Option<Seq<u8>>;

/// Relies on `solana_pubkey::Pubkey::from_str`: it accepts exactly the
/// texts that decode, in the chain's base-58 alphabet, to a 32-byte key,
/// and the bytes depend on the text alone.
#[verifier::external_body]
fn parse_pubkey(s: &str) -> (r: Option<Vec<u8>>)
    ensures
        match r {
            Some(key) => pubkey_bytes_of(s@) == Some(key@) && key@.len() == 32,
            None => pubkey_bytes_of(s@) is None,
        },
{
    match solana_pubkey::Pubkey::from_str(s) {
        Ok(key) => Some(key.to_bytes().to_vec()),
        Err(_) => None,
    }
}

/// Validates a public-key text and builds the account lookup the reader
/// sends: the decoded key, the compact account-data encoding, the partial
/// data slice from the start, and finalized commitment. A text that is no
/// valid key is rejected.
pub fn prepare_account_request(pubkey: &str) -> (r: Result<AccountRequest, AccountError>)
    ensures
        match r {
            Ok(req) => {
                &&& pubkey_bytes_of(pubkey@) == Some(req.key@)
                &&& req.key@.len() == 32
                &&& req.encoding is Base64Zstd
                &&& req.data_offset == 0
                &&& req.data_length == ACCOUNT_DATA_SLICE_LENGTH
                &&& req.commitment is Finalized
            },
            Err(e) => e is InvalidKey && pubkey_bytes_of(pubkey@) is None,
        },
{
    let key = match parse_pubkey(pubkey) {
        Some(key) => key,
        None => {
            return Err(AccountError::InvalidKey);
        },
    };
    Ok(
        AccountRequest {
            key,
            encoding: AccountEncoding::Base64Zstd,
            data_offset: 0,
            data_length: ACCOUNT_DATA_SLICE_LENGTH,
            commitment: Commitment::Finalized,
        },
    )
}

/// Interprets the node's answer to an account lookup: the account when the
/// node reported one, `NotFound` when it reported none.
pub fn resolve_account_response(response: Option<AccountState>) -> (r: Result<
    AccountState,
    AccountError,
>)
    ensures
        match response {
            Some(account) => r == Ok::<AccountState, AccountError>(account),
            None => r == Err::<AccountState, AccountError>(AccountError::NotFound),
        },
{
    match response {
        Some(account) => Ok(account),
        None => Err(AccountError::NotFound),
    }
}

} // verus!
