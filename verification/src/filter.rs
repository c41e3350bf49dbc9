//! Filter options and the structured subscription request they produce.
//!
//! A `FilterSpec` is the declarative, per-category description supplied once
//! at startup. `build` (in the `build` module) turns it into a
//! `SubscriptionRequest`: for each enabled category a single entry keyed by
//! the fixed logical name `"client"`, and an empty mapping for every
//! disabled category, so the upstream feed never delivers a kind that was
//! not asked for.

use vstd::prelude::*;
use vstd::string::StringExecFns;
use crate::parse::{is_u64_string, sole_index, trim_spec, u64_value};
use crate::parse::{parse_u64, split_at_sole, trim_blanks};

verus! {

/// Filter category named by a syntax error.
#[derive(Debug, Clone, Copy, PartialEq, Eq)]
pub enum FilterCategory {
    Memcmp,
    Lamports,
    DataSlice,
}

/// Errors raised while the subscription request is being constructed.
#[derive(Debug, Clone, Copy, PartialEq, Eq)]
pub enum ConfigError {
    /// Reading the external account-address file failed.
    Io,
    /// The configuration text itself could not be decoded.
    ParseSyntax,
    /// A filter entry of the named category has the wrong form.
    InvalidFilterSyntax(FilterCategory),
}

/// A `memcmp` sub-filter: match account data at a byte offset.
#[derive(Debug, Clone, PartialEq, Eq)]
pub struct MemcmpFilter {
    pub offset: u64,
    /// Base-58 text of the bytes to compare, as supplied.
    pub data: String,
}

/// A lamports comparison sub-filter.
#[derive(Debug, Clone, Copy, PartialEq, Eq)]
pub enum LamportsCmp {
    Eq(u64),
    Ne(u64),
    Lt(u64),
    Gt(u64),
}

/// One account sub-filter; all sub-filters of a request must match.
#[derive(Debug, Clone, PartialEq, Eq)]
pub enum AccountsSubFilter {
    Memcmp(MemcmpFilter),
    Datasize(u64),
    TokenAccountState(bool),
    Lamports(LamportsCmp),
}

/// The account-category filter of a subscription request.
#[derive(Debug, Clone, PartialEq, Eq)]
pub struct AccountsFilter {
    pub nonempty_txn_signature: Option<bool>,
    pub account: Vec<String>,
    pub owner: Vec<String>,
    pub filters: Vec<AccountsSubFilter>,
}

/// The slot-category filter.
#[derive(Debug, Clone, Copy, PartialEq, Eq)]
pub struct SlotsFilter {
    pub filter_by_commitment: Option<bool>,
    pub interslot_updates: Option<bool>,
}

/// The transaction-category filter, used by two independently configured
/// categories: transactions and transaction statuses.
#[derive(Debug, Clone, PartialEq, Eq)]
pub struct TransactionsFilter {
    pub vote: Option<bool>,
    pub failed: Option<bool>,
    pub signature: Option<String>,
    pub account_include: Vec<String>,
    pub account_exclude: Vec<String>,
    pub account_required: Vec<String>,
}

/// The entry-category filter carries no options.
#[derive(Debug, Clone, Copy, PartialEq, Eq)]
pub struct EntryFilter {}

/// The block-category filter.
#[derive(Debug, Clone, PartialEq, Eq)]
pub struct BlocksFilter {
    pub account_include: Vec<String>,
    pub include_transactions: Option<bool>,
    pub include_accounts: Option<bool>,
    pub include_entries: Option<bool>,
}

/// The block-meta-category filter carries no options.
#[derive(Debug, Clone, Copy, PartialEq, Eq)]
pub struct BlocksMetaFilter {}

/// A slice of the account payload to receive instead of the whole.
#[derive(Debug, Clone, Copy, PartialEq, Eq)]
pub struct DataSlice {
    pub offset: u64,
    pub length: u64,
}

/// Keep-alive ping carried in the subscription request.
#[derive(Debug, Clone, Copy, PartialEq, Eq)]
pub struct PingRequest {
    pub id: i32,
}

/// Confirmation-depth tier of the data the feed should deliver.
#[derive(Debug, Clone, Copy, PartialEq, Eq)]
pub enum CommitmentLevel {
    Processed,
    Confirmed,
    Finalized,
}

/// Declarative filter options, one group of fields per update category.
#[derive(Debug, Clone, PartialEq, Eq)]
pub struct FilterSpec {
    /// Subscribe to account updates.
    pub accounts: Option<bool>,
    pub accounts_nonempty_txn_signature: Option<bool>,
    /// Account-address allowlist supplied inline.
    pub accounts_account: Option<Vec<String>>,
    /// Path of a JSON array with further account addresses.
    pub accounts_account_path: Option<String>,
    /// Owner-address allowlist.
    pub accounts_owner: Option<Vec<String>>,
    /// `memcmp` entries in the form `offset,data`.
    pub accounts_memcmp: Option<Vec<String>>,
    /// Exact data-size filter.
    pub accounts_datasize: Option<u64>,
    /// Match only valid token accounts.
    pub accounts_token_account_state: Option<bool>,
    /// Lamports entries in the form `cmp:value` with `cmp` one of
    /// `eq`, `ne`, `lt`, `gt`.
    pub accounts_lamports: Option<Vec<String>>,
    /// Data-slice entries in the form `offset,length`.
    pub accounts_data_slice: Option<Vec<String>>,
    /// Subscribe to slot updates.
    pub slots: Option<bool>,
    pub slots_filter_by_commitment: Option<bool>,
    /// Subscribe to transaction updates.
    pub transactions: Option<bool>,
    pub transactions_vote: Option<bool>,
    pub transactions_failed: Option<bool>,
    pub transactions_signature: Option<String>,
    pub transactions_account_include: Option<Vec<String>>,
    pub transactions_account_exclude: Option<Vec<String>>,
    pub transactions_account_required: Option<Vec<String>>,
    /// Subscribe to transaction-status updates.
    pub transactions_status: Option<bool>,
    pub transactions_status_vote: Option<bool>,
    pub transactions_status_failed: Option<bool>,
    pub transactions_status_signature: Option<String>,
    pub transactions_status_account_include: Option<Vec<String>>,
    pub transactions_status_account_exclude: Option<Vec<String>>,
    pub transactions_status_account_required: Option<Vec<String>>,
    /// Subscribe to entry updates.
    pub entries: Option<bool>,
    /// Subscribe to block updates.
    pub blocks: Option<bool>,
    pub blocks_account_include: Option<Vec<String>>,
    pub blocks_include_transactions: Option<bool>,
    pub blocks_include_accounts: Option<bool>,
    pub blocks_include_entries: Option<bool>,
    /// Subscribe to block-meta updates.
    pub blocks_meta: Option<bool>,
    /// Keep-alive ping id to carry in the request.
    pub ping: Option<i32>,
}

impl Default for FilterSpec {
    /// No category enabled and no sub-option set.
    fn default() -> (r: Self)
        ensures
            r == (FilterSpec {
                accounts: None::<bool>,
                accounts_nonempty_txn_signature: None::<bool>,
                accounts_account: None::<Vec<String>>,
                accounts_account_path: None::<String>,
                accounts_owner: None::<Vec<String>>,
                accounts_memcmp: None::<Vec<String>>,
                accounts_datasize: None::<u64>,
                accounts_token_account_state: None::<bool>,
                accounts_lamports: None::<Vec<String>>,
                accounts_data_slice: None::<Vec<String>>,
                slots: None::<bool>,
                slots_filter_by_commitment: None::<bool>,
                transactions: None::<bool>,
                transactions_vote: None::<bool>,
                transactions_failed: None::<bool>,
                transactions_signature: None::<String>,
                transactions_account_include: None::<Vec<String>>,
                transactions_account_exclude: None::<Vec<String>>,
                transactions_account_required: None::<Vec<String>>,
                transactions_status: None::<bool>,
                transactions_status_vote: None::<bool>,
                transactions_status_failed: None::<bool>,
                transactions_status_signature: None::<String>,
                transactions_status_account_include: None::<Vec<String>>,
                transactions_status_account_exclude: None::<Vec<String>>,
                transactions_status_account_required: None::<Vec<String>>,
                entries: None::<bool>,
                blocks: None::<bool>,
                blocks_account_include: None::<Vec<String>>,
                blocks_include_transactions: None::<bool>,
                blocks_include_accounts: None::<bool>,
                blocks_include_entries: None::<bool>,
                blocks_meta: None::<bool>,
                ping: None::<i32>,
            }),
    {
        FilterSpec {
            accounts: Option::None,
            accounts_nonempty_txn_signature: Option::None,
            accounts_account: Option::None,
            accounts_account_path: Option::None,
            accounts_owner: Option::None,
            accounts_memcmp: Option::None,
            accounts_datasize: Option::None,
            accounts_token_account_state: Option::None,
            accounts_lamports: Option::None,
            accounts_data_slice: Option::None,
            slots: Option::None,
            slots_filter_by_commitment: Option::None,
            transactions: Option::None,
            transactions_vote: Option::None,
            transactions_failed: Option::None,
            transactions_signature: Option::None,
            transactions_account_include: Option::None,
            transactions_account_exclude: Option::None,
            transactions_account_required: Option::None,
            transactions_status: Option::None,
            transactions_status_vote: Option::None,
            transactions_status_failed: Option::None,
            transactions_status_signature: Option::None,
            transactions_status_account_include: Option::None,
            transactions_status_account_exclude: Option::None,
            transactions_status_account_required: Option::None,
            entries: Option::None,
            blocks: Option::None,
            blocks_account_include: Option::None,
            blocks_include_transactions: Option::None,
            blocks_include_accounts: Option::None,
            blocks_include_entries: Option::None,
            blocks_meta: Option::None,
            ping: Option::None,
        }
    }
}

/// The structured request sent to the upstream feed before streaming
/// begins. Every category field is present; a disabled category holds an
/// empty mapping.
#[derive(Debug, Clone, PartialEq, Eq)]
pub struct SubscriptionRequest {
    pub from_slot: Option<u64>,
    pub slots: Vec<(String, SlotsFilter)>,
    pub accounts: Vec<(String, AccountsFilter)>,
    pub transactions: Vec<(String, TransactionsFilter)>,
    pub transactions_status: Vec<(String, TransactionsFilter)>,
    pub entry: Vec<(String, EntryFilter)>,
    pub blocks: Vec<(String, BlocksFilter)>,
    pub blocks_meta: Vec<(String, BlocksMetaFilter)>,
    pub commitment: Option<CommitmentLevel>,
    pub accounts_data_slice: Vec<DataSlice>,
    pub ping: Option<PingRequest>,
}

/// An absent boolean option counts as false.
pub open spec fn flag_on(o: Option<bool>) -> bool {
    o == Some(true)
}

/// Whether the option, read with absent-as-false semantics, is set.
pub fn opt_flag(o: Option<bool>) -> (r: bool)
    ensures
        r == flag_on(o),
{
    match o {
        Option::Some(b) => b,
        Option::None => false,
    }
}

/// A `memcmp` entry is the literal form `offset,data`: exactly one comma,
/// the part before it an unsigned decimal offset, the part after it
/// non-empty.
pub open spec fn valid_memcmp_entry(s: Seq<char>) -> bool {
    exists|i: int| #[trigger] sole_index(s, ',', i) && is_u64_string(s.take(i)) && i + 1 < s.len()
}

/// The parsed `memcmp` filter carries the offset before the sole comma and
/// the trimmed data text after it.
pub open spec fn memcmp_result_matches(m: MemcmpFilter, s: Seq<char>) -> bool {
    forall|i: int| #[trigger] sole_index(s, ',', i)
        ==> m.offset == u64_value(s.take(i)) && m.data@ == trim_spec(s.skip(i + 1))
}

/// Parse one `offset,data` entry of the account `memcmp` filter.
pub fn parse_memcmp_entry(s: &str) -> (r: Result<MemcmpFilter, ConfigError>)
    ensures
        r is Ok <==> valid_memcmp_entry(s@),
        (r matches Ok(m) ==> memcmp_result_matches(m, s@)),
        (r matches Err(e) ==> e == ConfigError::InvalidFilterSyntax(FilterCategory::Memcmp)),
{
    match split_at_sole(s, ',') {
        Option::Some((left, right)) => {
            if right.as_str().unicode_len() == 0 {
                return Result::Err(ConfigError::InvalidFilterSyntax(FilterCategory::Memcmp));
            }
            match parse_u64(left.as_str()) {
                Option::Some(offset) => {
                    let data = trim_blanks(right.as_str());
                    Result::Ok(MemcmpFilter { offset, data })
                },
                Option::None => Result::Err(
                    ConfigError::InvalidFilterSyntax(FilterCategory::Memcmp),
                ),
            }
        },
        Option::None => Result::Err(ConfigError::InvalidFilterSyntax(FilterCategory::Memcmp)),
    }
}

/// The comparator variant a lamports entry selects.
pub open spec fn lamports_variant(cmp: Seq<char>, v: u64) -> LamportsCmp {
    if cmp == "eq"@ {
        LamportsCmp::Eq(v)
    } else if cmp == "ne"@ {
        LamportsCmp::Ne(v)
    } else if cmp == "lt"@ {
        LamportsCmp::Lt(v)
    } else {
        LamportsCmp::Gt(v)
    }
}

/// A lamports entry is `cmp:value` with `cmp` one of the four comparator
/// names and `value` an unsigned decimal number.
pub open spec fn valid_lamports_entry(s: Seq<char>) -> bool {
    exists|i: int| #[trigger] sole_index(s, ':', i)
        && (s.take(i) == "eq"@ || s.take(i) == "ne"@ || s.take(i) == "lt"@ || s.take(i) == "gt"@)
        && is_u64_string(s.skip(i + 1))
}

/// The parsed lamports filter carries the comparator named before the sole
/// colon, applied to the value after it.
pub open spec fn lamports_result_matches(f: LamportsCmp, s: Seq<char>) -> bool {
    forall|i: int| #[trigger] sole_index(s, ':', i)
        ==> f == lamports_variant(s.take(i), (u64_value(s.skip(i + 1)) as u64))
}

/// Parse one `cmp:value` entry of the account lamports filter.
pub fn parse_lamports_entry(s: &str) -> (r: Result<LamportsCmp, ConfigError>)
    ensures
        r is Ok <==> valid_lamports_entry(s@),
        (r matches Ok(f) ==> lamports_result_matches(f, s@)),
        (r matches Err(e) ==> e == ConfigError::InvalidFilterSyntax(FilterCategory::Lamports)),
{
    match split_at_sole(s, ':') {
        Option::Some((cmp, value)) => {
            match parse_u64(value.as_str()) {
                Option::Some(v) => {
                    if cmp == String::from_str("eq") {
                        Result::Ok(LamportsCmp::Eq(v))
                    } else if cmp == String::from_str("ne") {
                        Result::Ok(LamportsCmp::Ne(v))
                    } else if cmp == String::from_str("lt") {
                        Result::Ok(LamportsCmp::Lt(v))
                    } else if cmp == String::from_str("gt") {
                        Result::Ok(LamportsCmp::Gt(v))
                    } else {
                        Result::Err(ConfigError::InvalidFilterSyntax(FilterCategory::Lamports))
                    }
                },
                Option::None => Result::Err(
                    ConfigError::InvalidFilterSyntax(FilterCategory::Lamports),
                ),
            }
        },
        Option::None => Result::Err(ConfigError::InvalidFilterSyntax(FilterCategory::Lamports)),
    }
}

/// A data-slice entry is `offset,length`, both unsigned decimal numbers.
pub open spec fn valid_data_slice_entry(s: Seq<char>) -> bool {
    exists|i: int| #[trigger] sole_index(s, ',', i)
        && is_u64_string(s.take(i))
        && is_u64_string(s.skip(i + 1))
}

/// The parsed data slice carries the two numbers around the sole comma.
pub open spec fn data_slice_result_matches(d: DataSlice, s: Seq<char>) -> bool {
    forall|i: int| #[trigger] sole_index(s, ',', i)
        ==> d.offset == u64_value(s.take(i)) && d.length == u64_value(s.skip(i + 1))
}

/// Parse one `offset,length` entry of the global data-slice list.
pub fn parse_data_slice_entry(s: &str) -> (r: Result<DataSlice, ConfigError>)
    ensures
        r is Ok <==> valid_data_slice_entry(s@),
        (r matches Ok(d) ==> data_slice_result_matches(d, s@)),
        (r matches Err(e) ==> e == ConfigError::InvalidFilterSyntax(FilterCategory::DataSlice)),
{
    match split_at_sole(s, ',') {
        Option::Some((left, right)) => {
            match parse_u64(left.as_str()) {
                Option::Some(offset) => {
                    match parse_u64(right.as_str()) {
                        Option::Some(length) => Result::Ok(DataSlice { offset, length }),
                        Option::None => Result::Err(
                            ConfigError::InvalidFilterSyntax(FilterCategory::DataSlice),
                        ),
                    }
                },
                Option::None => Result::Err(
                    ConfigError::InvalidFilterSyntax(FilterCategory::DataSlice),
                ),
            }
        },
        Option::None => Result::Err(ConfigError::InvalidFilterSyntax(FilterCategory::DataSlice)),
    }
}

/// The commitment level a configured name selects: the known names map to
/// their level, and an unrecognized name degrades to the least-strict
/// level rather than failing.
pub open spec fn commitment_of_name(s: Seq<char>) -> CommitmentLevel {
    if s == "CONFIRMED"@ {
        CommitmentLevel::Confirmed
    } else if s == "FINALIZED"@ {
        CommitmentLevel::Finalized
    } else {
        CommitmentLevel::Processed
    }
}

/// Map a configured commitment name to its level.
pub fn commitment_from_name(s: &str) -> (r: CommitmentLevel)
    ensures
        r == commitment_of_name(s@),
{
    let v = String::from_str(s);
    if v == String::from_str("CONFIRMED") {
        CommitmentLevel::Confirmed
    } else if v == String::from_str("FINALIZED") {
        CommitmentLevel::Finalized
    } else {
        CommitmentLevel::Processed
    }
}

/// The wire code of a commitment level.
pub open spec fn commitment_code_of(c: CommitmentLevel) -> int {
    match c {
        CommitmentLevel::Processed => 0,
        CommitmentLevel::Confirmed => 1,
        CommitmentLevel::Finalized => 2,
    }
}

/// Wire code of a commitment level, as the subscription protocol numbers
/// them.
pub fn commitment_code(c: CommitmentLevel) -> (r: i32)
    ensures
        r == commitment_code_of(c),
{
    match c {
        CommitmentLevel::Processed => 0,
        CommitmentLevel::Confirmed => 1,
        CommitmentLevel::Finalized => 2,
    }
}

} // verus!
