//! Canonical records built from the update kinds the feed delivers.
//!
//! Each update kind has one pure formatter. A formatter never panics: on
//! well-formed input it returns the record, on malformed input a typed
//! error, and the caller decides the fallback policy. Binary fields travel
//! as base-58 text, raw account payload bytes as base-64 text.
//!
//! The full encoding of a transaction is delegated to an external encoder;
//! its output arrives here as a ready JSON-like value inside the update,
//! and the formatter overlays the slot and the derived epoch on top of it.

use vstd::prelude::*;
use vstd::string::StrSliceExecFns;
use vstd::string::StringExecFns;
use crate::encode::{b58_of, b64_of, b58_encode, b64_encode};
use crate::filter::CommitmentLevel;
use crate::json::{empty_object, set_field, set_field_rel, JsonValue};

verus! {

/// Slots per epoch: the chain's fixed epoch length.
pub const EPOCH_SIZE: u64 = 432000;

/// The epoch a slot belongs to.
pub open spec fn epoch_of(slot: u64) -> int {
    (slot as int) / (EPOCH_SIZE as int)
}

/// Compute the epoch of a slot.
pub fn epoch_of_slot(slot: u64) -> (r: u64)
    ensures
        r == epoch_of(slot),
{
    slot / EPOCH_SIZE
}

/// Errors raised while an update is turned into a record.
#[derive(Debug, Clone, Copy, PartialEq, Eq)]
pub enum FormatError {
    /// A field the record cannot do without is absent.
    MissingField,
    /// An inner payload could not be decoded.
    DecodeFailure,
}

/// The account payload of an account update.
#[derive(Debug, PartialEq)]
pub struct AccountInfo {
    pub pubkey: Vec<u8>,
    pub lamports: u64,
    pub owner: Vec<u8>,
    pub executable: bool,
    pub rent_epoch: u64,
    pub data: Vec<u8>,
    pub write_version: u64,
    pub txn_signature: Option<Vec<u8>>,
}

/// An account write delivered by the feed.
#[derive(Debug, PartialEq)]
pub struct AccountUpdate {
    pub account: Option<AccountInfo>,
    pub slot: u64,
    pub is_startup: bool,
}

/// A slot advance delivered by the feed; the status is the wire code of a
/// commitment level.
#[derive(Debug, Clone, Copy, PartialEq, Eq)]
pub struct SlotUpdate {
    pub slot: u64,
    pub status: i32,
}

/// The transaction payload of a transaction update: its signature, and the
/// external encoder's output for the whole transaction (`None` when the
/// encoder failed on it).
#[derive(Debug, PartialEq)]
pub struct TransactionInfo {
    pub signature: Vec<u8>,
    pub encoded: Option<JsonValue>,
}

/// A transaction delivered by the feed.
#[derive(Debug, PartialEq)]
pub struct TransactionUpdate {
    pub transaction: Option<TransactionInfo>,
    pub slot: u64,
}

/// Block metadata delivered by the feed. The rewards value is the external
/// converter's output (`None` when absent or when conversion failed).
#[derive(Debug, PartialEq)]
pub struct BlockMetaUpdate {
    pub slot: u64,
    pub blockhash: String,
    pub rewards: Option<JsonValue>,
    pub block_time: Option<i64>,
    pub block_height: Option<u64>,
    pub parent_slot: u64,
    pub parent_blockhash: String,
    pub executed_transaction_count: u64,
    pub entries_count: u64,
}

/// An optional unsigned number rendered as JSON: `null` when absent.
pub open spec fn opt_u64_json(o: Option<u64>) -> JsonValue {
    match o {
        Some(x) => JsonValue::UInt(x),
        None => JsonValue::Null,
    }
}

/// An optional signed number rendered as JSON: `null` when absent.
pub open spec fn opt_i64_json(o: Option<i64>) -> JsonValue {
    match o {
        Some(x) => JsonValue::Int(x),
        None => JsonValue::Null,
    }
}

/// An optional nested value rendered as JSON: `null` when absent.
pub open spec fn opt_value_json(o: Option<JsonValue>) -> JsonValue {
    match o {
        Some(v) => v,
        None => JsonValue::Null,
    }
}

/// The record an account update formats to.
pub open spec fn account_record_matches(v: JsonValue, a: AccountInfo, slot: u64) -> bool {
    v matches JsonValue::Object(fs) && {
        let f = fs@;
        &&& f.len() == 7
        &&& f[0].0@ == "pubkey"@
        &&& (f[0].1 matches JsonValue::Text(t) && t@ == b58_of(a.pubkey@))
        &&& f[1].0@ == "lamports"@ && f[1].1 == JsonValue::UInt(a.lamports)
        &&& f[2].0@ == "owner"@
        &&& (f[2].1 matches JsonValue::Text(t) && t@ == b58_of(a.owner@))
        &&& f[3].0@ == "rent_epoch"@ && f[3].1 == JsonValue::UInt(a.rent_epoch)
        &&& f[4].0@ == "slot"@ && f[4].1 == JsonValue::UInt(slot)
        &&& f[5].0@ == "data"@
        &&& (f[5].1 matches JsonValue::Text(t) && t@ == b64_of(a.data@))
        &&& f[6].0@ == "txn_signature"@
        &&& (match a.txn_signature {
            Some(sig) => f[6].1 matches JsonValue::Text(t) && t@ == b58_of(sig@),
            None => f[6].1 == JsonValue::Null,
        })
    }
}

/// Format an account write: binary fields as base-58 text, the payload
/// bytes as base-64 text. An update without its account payload is
/// rejected.
pub fn format_account(update: AccountUpdate) -> (r: Result<JsonValue, FormatError>)
    ensures
        r is Ok <==> update.account is Some,
        (r matches Ok(v) ==> (update.account matches Some(a)
            && account_record_matches(v, a, update.slot))),
        (r matches Err(e) ==> e == FormatError::MissingField),
{
    let slot = update.slot;
    let a = match update.account {
        Option::Some(a) => a,
        Option::None => {
            return Result::Err(FormatError::MissingField);
        },
    };
    let mut fields: Vec<(String, JsonValue)> = Vec::new();
    fields.push((String::from_str("pubkey"), JsonValue::Text(b58_encode(a.pubkey.as_slice()))));
    fields.push((String::from_str("lamports"), JsonValue::UInt(a.lamports)));
    fields.push((String::from_str("owner"), JsonValue::Text(b58_encode(a.owner.as_slice()))));
    fields.push((String::from_str("rent_epoch"), JsonValue::UInt(a.rent_epoch)));
    fields.push((String::from_str("slot"), JsonValue::UInt(slot)));
    fields.push((String::from_str("data"), JsonValue::Text(b64_encode(a.data.as_slice()))));
    let sig_value = match &a.txn_signature {
        Option::Some(sig) => JsonValue::Text(b58_encode(sig.as_slice())),
        Option::None => JsonValue::Null,
    };
    fields.push((String::from_str("txn_signature"), sig_value));
    Result::Ok(JsonValue::Object(fields))
}

/// The name of a commitment level, as the subscription protocol spells it.
pub open spec fn commitment_name_of(c: CommitmentLevel) -> Seq<char> {
    match c {
        CommitmentLevel::Processed => "PROCESSED"@,
        CommitmentLevel::Confirmed => "CONFIRMED"@,
        CommitmentLevel::Finalized => "FINALIZED"@,
    }
}

/// Spell out a commitment level's name.
pub fn commitment_name(c: CommitmentLevel) -> (r: String)
    ensures
        r@ == commitment_name_of(c),
{
    match c {
        CommitmentLevel::Processed => String::from_str("PROCESSED"),
        CommitmentLevel::Confirmed => String::from_str("CONFIRMED"),
        CommitmentLevel::Finalized => String::from_str("FINALIZED"),
    }
}

/// The commitment level a wire code decodes to, if any.
pub open spec fn commitment_of_code(code: int) -> Option<CommitmentLevel> {
    if code == 0 {
        Some(CommitmentLevel::Processed)
    } else if code == 1 {
        Some(CommitmentLevel::Confirmed)
    } else if code == 2 {
        Some(CommitmentLevel::Finalized)
    } else {
        None
    }
}

/// Decode a commitment level from its wire code.
pub fn commitment_try_from(code: i32) -> (r: Option<CommitmentLevel>)
    ensures
        r == commitment_of_code(code as int),
{
    if code == 0 {
        Option::Some(CommitmentLevel::Processed)
    } else if code == 1 {
        Option::Some(CommitmentLevel::Confirmed)
    } else if code == 2 {
        Option::Some(CommitmentLevel::Finalized)
    } else {
        Option::None
    }
}

/// The record a slot update formats to.
pub open spec fn slot_record_matches(v: JsonValue, u: SlotUpdate) -> bool {
    v matches JsonValue::Object(fs) && {
        let f = fs@;
        &&& f.len() == 2
        &&& f[0].0@ == "slot"@ && f[0].1 == JsonValue::UInt(u.slot)
        &&& f[1].0@ == "status"@
        &&& (commitment_of_code(u.status as int) matches Some(c)
            && (f[1].1 matches JsonValue::Text(t) && t@ == commitment_name_of(c)))
    }
}

/// Format a slot advance; a status code outside the known commitment
/// levels is rejected.
pub fn format_slot(msg: SlotUpdate) -> (r: Result<JsonValue, FormatError>)
    ensures
        r is Ok <==> commitment_of_code(msg.status as int) is Some,
        (r matches Ok(v) ==> slot_record_matches(v, msg)),
        (r matches Err(e) ==> e == FormatError::DecodeFailure),
{
    let status = match commitment_try_from(msg.status) {
        Option::Some(c) => c,
        Option::None => {
            return Result::Err(FormatError::DecodeFailure);
        },
    };
    let mut fields: Vec<(String, JsonValue)> = Vec::new();
    fields.push((String::from_str("slot"), JsonValue::UInt(msg.slot)));
    fields.push((String::from_str("status"), JsonValue::Text(commitment_name(status))));
    Result::Ok(JsonValue::Object(fields))
}

/// The record a transaction update formats to: the encoder's object with
/// the slot and the derived epoch overlaid.
pub open spec fn tx_record_payload_matches(
    v: JsonValue,
    base: Seq<(String, JsonValue)>,
    slot: u64,
) -> bool {
    v matches JsonValue::Object(fs) && exists|mid: Seq<(String, JsonValue)>|
        #[trigger] set_field_rel(base, "slot"@, JsonValue::UInt(slot), mid)
            && set_field_rel(mid, "epoch"@, JsonValue::UInt((epoch_of(slot)) as u64), fs@)
}

/// Format a transaction. The inner payload must be present, and the
/// external encoder must have produced an object; the slot and the epoch
/// `slot / EPOCH_SIZE` are overlaid on that object.
pub fn format_transaction(msg: TransactionUpdate) -> (r: Result<JsonValue, FormatError>)
    ensures
        (msg.transaction is None ==> r == Result::<JsonValue, FormatError>::Err(
            FormatError::MissingField,
        )),
        (msg.transaction matches Some(info) ==> match info.encoded {
            Some(JsonValue::Object(base)) => r matches Ok(v) && tx_record_payload_matches(
                v,
                base@,
                msg.slot,
            ),
            _ => r == Result::<JsonValue, FormatError>::Err(FormatError::DecodeFailure),
        }),
{
    let info = match msg.transaction {
        Option::Some(info) => info,
        Option::None => {
            return Result::Err(FormatError::MissingField);
        },
    };
    let encoded = match info.encoded {
        Option::Some(v) => v,
        Option::None => {
            return Result::Err(FormatError::DecodeFailure);
        },
    };
    let mut base = match encoded {
        JsonValue::Object(fs) => fs,
        _ => {
            return Result::Err(FormatError::DecodeFailure);
        },
    };
    set_field(&mut base, "slot", JsonValue::UInt(msg.slot));
    let epoch = epoch_of_slot(msg.slot);
    set_field(&mut base, "epoch", JsonValue::UInt(epoch));
    Result::Ok(JsonValue::Object(base))
}

/// The record a block-meta update formats to: every scalar field verbatim,
/// absent optional fields as `null`.
pub open spec fn block_meta_record_matches(v: JsonValue, m: BlockMetaUpdate) -> bool {
    v matches JsonValue::Object(fs) && {
        let f = fs@;
        &&& f.len() == 9
        &&& f[0].0@ == "slot"@ && f[0].1 == JsonValue::UInt(m.slot)
        &&& f[1].0@ == "blockhash"@ && f[1].1 == JsonValue::Text(m.blockhash)
        &&& f[2].0@ == "rewards"@ && f[2].1 == opt_value_json(m.rewards)
        &&& f[3].0@ == "blockTime"@ && f[3].1 == opt_i64_json(m.block_time)
        &&& f[4].0@ == "blockHeight"@ && f[4].1 == opt_u64_json(m.block_height)
        &&& f[5].0@ == "parentSlot"@ && f[5].1 == JsonValue::UInt(m.parent_slot)
        &&& f[6].0@ == "parentBlockhash"@ && f[6].1 == JsonValue::Text(m.parent_blockhash)
        &&& f[7].0@ == "executedTransactionCount"@
        &&& f[7].1 == JsonValue::UInt(m.executed_transaction_count)
        &&& f[8].0@ == "entriesCount"@ && f[8].1 == JsonValue::UInt(m.entries_count)
    }
}

/// Format block metadata. Every scalar field is mapped verbatim; the
/// optional rewards, block-time and block-height fields become `null`
/// when absent rather than failing.
pub fn format_block_meta(msg: BlockMetaUpdate) -> (r: Result<JsonValue, FormatError>)
    ensures
        (r matches Ok(v) && block_meta_record_matches(v, msg)),
{
    let mut fields: Vec<(String, JsonValue)> = Vec::new();
    fields.push((String::from_str("slot"), JsonValue::UInt(msg.slot)));
    fields.push((String::from_str("blockhash"), JsonValue::Text(msg.blockhash)));
    let rewards = match msg.rewards {
        Option::Some(v) => v,
        Option::None => JsonValue::Null,
    };
    fields.push((String::from_str("rewards"), rewards));
    let block_time = match msg.block_time {
        Option::Some(t) => JsonValue::Int(t),
        Option::None => JsonValue::Null,
    };
    fields.push((String::from_str("blockTime"), block_time));
    let block_height = match msg.block_height {
        Option::Some(h) => JsonValue::UInt(h),
        Option::None => JsonValue::Null,
    };
    fields.push((String::from_str("blockHeight"), block_height));
    fields.push((String::from_str("parentSlot"), JsonValue::UInt(msg.parent_slot)));
    fields.push((String::from_str("parentBlockhash"), JsonValue::Text(msg.parent_blockhash)));
    fields.push((
        String::from_str("executedTransactionCount"),
        JsonValue::UInt(msg.executed_transaction_count),
    ));
    fields.push((String::from_str("entriesCount"), JsonValue::UInt(msg.entries_count)));
    Result::Ok(JsonValue::Object(fields))
}

/// Partition key of a transaction record: base-58 text of its signature.
pub fn transaction_partition_key(signature: &Vec<u8>) -> (r: String)
    ensures
        r@ == b58_of(signature@),
{
    b58_encode(signature.as_slice())
}

/// Partition key of a block-meta record: base-58 text of the block hash's
/// bytes.
pub fn block_meta_partition_key(blockhash: &String) -> (r: String)
    ensures
        r@ == b58_of(vstd::utf8::encode_utf8(blockhash@)),
{
    let bytes = blockhash.as_str().as_bytes_vec();
    b58_encode(bytes.as_slice())
}

} // verus!
