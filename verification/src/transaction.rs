//! The domain record and the transaction decoder.
//!
//! The node hands out each transaction in one of several wire encodings. The
//! decoder accepts only the structured form with a raw (uncompiled) message
//! and complete status metadata; every other variant fails closed with a
//! [`DecodeError`]. On success the record's `block_time` is left unset: the
//! store sink stamps it from the enclosing block.

use vstd::prelude::*;

verus! {

/// Signature-count header of a raw message.
#[derive(Clone, Copy, Debug, PartialEq, Eq)]
pub struct MessageHeader {
    pub num_required_signatures: u8,
    pub num_readonly_signed_accounts: u8,
    pub num_readonly_unsigned_accounts: u8,
}

/// One compiled instruction of a raw message, with its account indices and
/// opaque instruction data.
#[derive(Clone, Debug, PartialEq, Eq)]
pub struct CompiledInstruction {
    pub program_id_index: u8,
    pub accounts: Vec<u8>,
    pub data: String,
}

/// One address-table lookup carried by a raw message.
#[derive(Clone, Debug, PartialEq, Eq)]
pub struct AddressTableLookup {
    pub account_key: String,
    pub writable_indexes: Vec<u8>,
    pub readonly_indexes: Vec<u8>,
}

/// A raw (uncompiled, unparsed) transaction message: the only message form
/// the decoder accepts.
#[derive(Clone, Debug, PartialEq, Eq)]
pub struct RawMessage {
    pub header: MessageHeader,
    pub account_keys: Vec<String>,
    pub recent_blockhash: String,
    pub instructions: Vec<CompiledInstruction>,
    pub address_table_lookups: Option<Vec<AddressTableLookup>>,
}

/// The message forms the node can report inside a structured transaction.
#[derive(Clone, Debug, PartialEq, Eq)]
pub enum Message {
    /// The raw account-key and instruction payload.
    Raw(RawMessage),
    /// A message the node has already interpreted; the decoder rejects it.
    Parsed,
}

/// The payload of a structured transaction: its signatures and its message.
#[derive(Clone, Debug, PartialEq, Eq)]
pub struct TxPayload {
    pub signatures: Vec<String>,
    pub message: Message,
}

/// The wire encodings a transaction entry can arrive in.
#[derive(Clone, Debug, PartialEq, Eq)]
pub enum EncodedTx {
    /// The structured form; the only one the decoder accepts.
    Json(TxPayload),
    /// Legacy binary encoding, kept as its undecoded text.
    LegacyBinary(String),
    /// Binary encoding, kept as its undecoded text.
    Binary(String),
    /// An account-list summary without a full transaction.
    Accounts,
}

/// Status metadata of one transaction, as the node reports it.
#[derive(Clone, Debug, PartialEq, Eq)]
pub struct TxMeta {
    /// Whether the node recorded the transaction as failed.
    pub failed: bool,
    /// The fee charged, in the chain's base unit.
    pub fee: u64,
    pub pre_balances: Vec<u64>,
    pub post_balances: Vec<u64>,
}

/// One transaction entry of a block, exactly as received: a wire-encoded
/// transaction and its optional metadata.
#[derive(Clone, Debug, PartialEq, Eq)]
pub struct TxEntry {
    pub transaction: EncodedTx,
    pub meta: Option<TxMeta>,
}

/// The persisted record: created by the decoder, stamped by the store sink,
/// immutable thereafter.
#[derive(Clone, Debug, PartialEq, Eq)]
pub struct Transaction {
    /// Node-assigned identifier; expected unique but not enforced.
    pub signature: String,
    pub message: RawMessage,
    pub meta: TxMeta,
    /// Seconds since the epoch when the block was produced, if the block
    /// carried a timestamp the store's temporal type can hold.
    pub block_time: Option<i64>,
}

/// Why a transaction entry was rejected.
#[derive(Clone, Copy, Debug, PartialEq, Eq, Structural)]
pub enum DecodeError {
    /// The entry carries no status metadata.
    MissingMeta,
    /// The transaction is not in the structured encoding.
    UnsupportedEncoding,
    /// The message is not in the raw form.
    UnsupportedMessage,
}

impl TxEntry {
    /// A decodable entry names at least one signature: the node assigns the
    /// first signature as the record's identifier, so an entry that would
    /// decode but has none is outside the decoder's domain.
    pub open spec fn wf(self) -> bool {
        match self.transaction {
            EncodedTx::Json(tx) => {
                self.meta is Some && tx.message is Raw ==> tx.signatures.len() >= 1
            },
            _ => true,
        }
    }
}

/// What the decoder returns for a given entry: metadata must be present, the
/// encoding structured, the message raw; the record then takes the first
/// signature, the raw message and the metadata, with `block_time` unset.
pub open spec fn decode_spec(entry: TxEntry) -> Result<Transaction, DecodeError> {
    if entry.meta is None {
        Err(DecodeError::MissingMeta)
    } else if !(entry.transaction is Json) {
        Err(DecodeError::UnsupportedEncoding)
    } else if !(entry.transaction->Json_0.message is Raw) {
        Err(DecodeError::UnsupportedMessage)
    } else {
        Ok(Transaction {
            signature: entry.transaction->Json_0.signatures[0],
            message: entry.transaction->Json_0.message->Raw_0,
            meta: entry.meta->0,
            block_time: None,
        })
    }
}

/// Decodes one transaction entry into the domain record, failing closed on
/// any variant other than a structured transaction with a raw message and
/// present metadata.
pub fn decode_transaction(entry: TxEntry) -> (r: Result<Transaction, DecodeError>)
    requires
        entry.wf(),
    ensures
        r == decode_spec(entry),
{
    let TxEntry { transaction, meta } = entry;

    let meta = match meta {
        Some(meta) => meta,
        None => {
            return Err(DecodeError::MissingMeta);
        },
    };

    let payload = match transaction {
        EncodedTx::Json(payload) => payload,
        _ => {
            return Err(DecodeError::UnsupportedEncoding);
        },
    };

    let message = match payload.message {
        Message::Raw(raw) => raw,
        _ => {
            return Err(DecodeError::UnsupportedMessage);
        },
    };

    Ok(Transaction { signature: payload.signatures[0].clone(), message, meta, block_time: None })
}

} // verus!
