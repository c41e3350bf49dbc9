//! Construction of the subscription request from the filter options.
//!
//! `build` is the translator run once at startup. Its contract pins every
//! field of the produced request: each enabled category yields exactly one
//! entry under the fixed logical name, each disabled category an empty
//! mapping, and every textual filter entry is parsed under the exact
//! grammar stated in the `filter` module. The account-address file is read
//! by the caller; its contents arrive as a plain list and are appended
//! after the inline addresses.

use vstd::prelude::*;
use vstd::string::StringExecFns;
use crate::filter::{
    AccountsFilter, AccountsSubFilter, BlocksFilter, BlocksMetaFilter, CommitmentLevel,
    ConfigError, DataSlice, EntryFilter, FilterCategory, FilterSpec, PingRequest, SlotsFilter,
    SubscriptionRequest, TransactionsFilter,
};
use crate::filter::{
    data_slice_result_matches, flag_on, lamports_result_matches, memcmp_result_matches, opt_flag,
    parse_data_slice_entry, parse_lamports_entry, parse_memcmp_entry, valid_data_slice_entry,
    valid_lamports_entry, valid_memcmp_entry,
};

verus! {

/// The entries of an optional list; an absent list has none.
pub open spec fn opt_entries<T>(v: Option<Vec<T>>) -> Seq<T> {
    match v {
        Some(x) => x@,
        None => Seq::empty(),
    }
}

/// Every `memcmp` entry of the list is well-formed.
pub open spec fn all_valid_memcmp(s: Seq<String>) -> bool {
    forall|k: int| 0 <= k < s.len() ==> valid_memcmp_entry((#[trigger] s[k])@)
}

/// Every lamports entry of the list is well-formed.
pub open spec fn all_valid_lamports(s: Seq<String>) -> bool {
    forall|k: int| 0 <= k < s.len() ==> valid_lamports_entry((#[trigger] s[k])@)
}

/// Every data-slice entry of the list is well-formed.
pub open spec fn all_valid_data_slice(s: Seq<String>) -> bool {
    forall|k: int| 0 <= k < s.len() ==> valid_data_slice_entry((#[trigger] s[k])@)
}

/// `build` succeeds exactly when every textual entry it must parse is
/// well-formed; entries of a disabled account category are not parsed.
pub open spec fn build_accepts(f: FilterSpec) -> bool {
    &&& (flag_on(f.accounts) ==> all_valid_memcmp(opt_entries(f.accounts_memcmp))
        && all_valid_lamports(opt_entries(f.accounts_lamports)))
    &&& all_valid_data_slice(opt_entries(f.accounts_data_slice))
}

/// The error `build` reports: the first category whose entries fail, in
/// the order the categories are evaluated.
pub open spec fn build_error(f: FilterSpec) -> ConfigError {
    if flag_on(f.accounts) && !all_valid_memcmp(opt_entries(f.accounts_memcmp)) {
        ConfigError::InvalidFilterSyntax(FilterCategory::Memcmp)
    } else if flag_on(f.accounts) && !all_valid_lamports(opt_entries(f.accounts_lamports)) {
        ConfigError::InvalidFilterSyntax(FilterCategory::Lamports)
    } else {
        ConfigError::InvalidFilterSyntax(FilterCategory::DataSlice)
    }
}

/// The account filter `build` produces: the address list is the inline
/// list followed by the file-loaded list, and the sub-filters are the
/// parsed `memcmp` entries, then the data-size filter, then the
/// token-state filter, then the parsed lamports entries.
pub open spec fn accounts_filter_matches(
    af: AccountsFilter,
    f: FilterSpec,
    file_accounts: Seq<String>,
) -> bool {
    let m = opt_entries(f.accounts_memcmp);
    let l = opt_entries(f.accounts_lamports);
    let dcount: int = if f.accounts_datasize is Some { 1 } else { 0 };
    let tcount: int = if flag_on(f.accounts_token_account_state) { 1 } else { 0 };
    &&& af.nonempty_txn_signature == f.accounts_nonempty_txn_signature
    &&& af.account@ == opt_entries(f.accounts_account) + file_accounts
    &&& af.owner@ == opt_entries(f.accounts_owner)
    &&& af.filters@.len() == m.len() + dcount + tcount + l.len()
    &&& (forall|k: int| 0 <= k < m.len()
        ==> ((#[trigger] af.filters@[k]) matches AccountsSubFilter::Memcmp(mf)
            && memcmp_result_matches(mf, m[k]@)))
    &&& (f.accounts_datasize matches Some(d)
        ==> af.filters@[m.len() as int] == AccountsSubFilter::Datasize(d))
    &&& (flag_on(f.accounts_token_account_state)
        ==> af.filters@[m.len() + dcount] == AccountsSubFilter::TokenAccountState(true))
    &&& (forall|k: int| 0 <= k < l.len()
        ==> ((#[trigger] af.filters@[m.len() + dcount + tcount + k])
            matches AccountsSubFilter::Lamports(lf) && lamports_result_matches(lf, l[k]@)))
}

/// The transaction filter built from one category's options.
pub open spec fn transactions_filter_matches(
    tf: TransactionsFilter,
    vote: Option<bool>,
    failed: Option<bool>,
    signature: Option<String>,
    included: Option<Vec<String>>,
    excluded: Option<Vec<String>>,
    requireds: Option<Vec<String>>,
) -> bool {
    &&& tf.vote == vote
    &&& tf.failed == failed
    &&& tf.signature == signature
    &&& tf.account_include@ == opt_entries(included)
    &&& tf.account_exclude@ == opt_entries(excluded)
    &&& tf.account_required@ == opt_entries(requireds)
}

/// The block filter built from the block category's options.
pub open spec fn blocks_filter_matches(bf: BlocksFilter, f: FilterSpec) -> bool {
    &&& bf.account_include@ == opt_entries(f.blocks_account_include)
    &&& bf.include_transactions == f.blocks_include_transactions
    &&& bf.include_accounts == f.blocks_include_accounts
    &&& bf.include_entries == f.blocks_include_entries
}

/// Every field of the request `build` produces on success.
pub open spec fn request_matches(
    q: SubscriptionRequest,
    f: FilterSpec,
    file_accounts: Seq<String>,
    commitment: Option<CommitmentLevel>,
) -> bool {
    let ds = opt_entries(f.accounts_data_slice);
    &&& q.from_slot == None::<u64>
    &&& q.commitment == commitment
    &&& (if flag_on(f.accounts) {
        q.accounts@.len() == 1 && q.accounts@[0].0@ == "client"@
            && accounts_filter_matches(q.accounts@[0].1, f, file_accounts)
    } else {
        q.accounts@.len() == 0
    })
    &&& (if flag_on(f.slots) {
        q.slots@.len() == 1 && q.slots@[0].0@ == "client"@ && q.slots@[0].1 == (SlotsFilter {
            filter_by_commitment: Some(flag_on(f.slots_filter_by_commitment)),
            interslot_updates: None::<bool>,
        })
    } else {
        q.slots@.len() == 0
    })
    &&& (if flag_on(f.transactions) {
        q.transactions@.len() == 1 && q.transactions@[0].0@ == "client"@
            && transactions_filter_matches(
            q.transactions@[0].1,
            f.transactions_vote,
            f.transactions_failed,
            f.transactions_signature,
            f.transactions_account_include,
            f.transactions_account_exclude,
            f.transactions_account_required,
        )
    } else {
        q.transactions@.len() == 0
    })
    &&& (if flag_on(f.transactions_status) {
        q.transactions_status@.len() == 1 && q.transactions_status@[0].0@ == "client"@
            && transactions_filter_matches(
            q.transactions_status@[0].1,
            f.transactions_status_vote,
            f.transactions_status_failed,
            f.transactions_status_signature,
            f.transactions_status_account_include,
            f.transactions_status_account_exclude,
            f.transactions_status_account_required,
        )
    } else {
        q.transactions_status@.len() == 0
    })
    &&& (if flag_on(f.entries) {
        q.entry@.len() == 1 && q.entry@[0].0@ == "client"@
    } else {
        q.entry@.len() == 0
    })
    &&& (if flag_on(f.blocks) {
        q.blocks@.len() == 1 && q.blocks@[0].0@ == "client"@
            && blocks_filter_matches(q.blocks@[0].1, f)
    } else {
        q.blocks@.len() == 0
    })
    &&& (if flag_on(f.blocks_meta) {
        q.blocks_meta@.len() == 1 && q.blocks_meta@[0].0@ == "client"@
    } else {
        q.blocks_meta@.len() == 0
    })
    &&& q.accounts_data_slice@.len() == ds.len()
    &&& (forall|k: int| 0 <= k < ds.len()
        ==> valid_data_slice_entry((#[trigger] ds[k])@)
            && data_slice_result_matches(q.accounts_data_slice@[k], ds[k]@))
    &&& q.ping == (match f.ping {
        Some(id) => Some(PingRequest { id }),
        None => None::<PingRequest>,
    })
}

/// Copy a list of addresses.
fn clone_string_vec(v: &Vec<String>) -> (r: Vec<String>)
    ensures
        r@ == v@,
{
    let mut r: Vec<String> = Vec::new();
    let mut i: usize = 0;
    while i < v.len()
        invariant
            i <= v.len(),
            r@ == v@.take(i as int),
        decreases v.len() - i,
    {
        r.push(v[i].clone());
        proof {
            assert(r@ =~= v@.take(i + 1));
        }
        i = i + 1;
    }
    proof {
        assert(v@.take(v@.len() as int) =~= v@);
    }
    r
}

/// Copy an optional list of addresses; an absent list gives no entries.
fn opt_string_vec(v: &Option<Vec<String>>) -> (r: Vec<String>)
    ensures
        r@ == opt_entries(*v),
{
    match v {
        Option::Some(x) => clone_string_vec(x),
        Option::None => Vec::new(),
    }
}

/// Copy an optional text option.
fn clone_opt_string(v: &Option<String>) -> (r: Option<String>)
    ensures
        r == *v,
{
    match v {
        Option::Some(s) => Option::Some(s.clone()),
        Option::None => Option::None,
    }
}

/// Build the transaction filter of one category from its options.
fn build_transactions_filter(
    vote: Option<bool>,
    failed: Option<bool>,
    signature: &Option<String>,
    included: &Option<Vec<String>>,
    excluded: &Option<Vec<String>>,
    requireds: &Option<Vec<String>>,
) -> (tf: TransactionsFilter)
    ensures
        transactions_filter_matches(tf, vote, failed, *signature, *included, *excluded, *requireds),
{
    TransactionsFilter {
        vote,
        failed,
        signature: clone_opt_string(signature),
        account_include: opt_string_vec(included),
        account_exclude: opt_string_vec(excluded),
        account_required: opt_string_vec(requireds),
    }
}

/// Turn the declarative filter options into the structured subscription
/// request.
///
/// The caller loads the optional account-address file and passes its
/// entries in `file_accounts` (empty when no file is configured); they are
/// appended after the inline addresses, order preserved. Exactly the
/// requests whose textual entries are well-formed are accepted, and the
/// error names the first filter category that fails.
#[verifier::loop_isolation(false)]
pub fn build(
    filters: &FilterSpec,
    file_accounts: &Vec<String>,
    commitment: Option<CommitmentLevel>,
) -> (r: Result<SubscriptionRequest, ConfigError>)
    ensures
        r is Ok <==> build_accepts(*filters),
        (r matches Ok(q) ==> request_matches(q, *filters, file_accounts@, commitment)),
        (r matches Err(e) ==> e == build_error(*filters)),
{
    let mut accounts: Vec<(String, AccountsFilter)> = Vec::new();
    if opt_flag(filters.accounts) {
        let mut account_list = opt_string_vec(&filters.accounts_account);
        let mut i: usize = 0;
        while i < file_accounts.len()
            invariant
                i <= file_accounts.len(),
                account_list@ == opt_entries(filters.accounts_account)
                    + file_accounts@.take(i as int),
            decreases file_accounts.len() - i,
        {
            account_list.push(file_accounts[i].clone());
            proof {
                assert(file_accounts@.take(i as int).push(file_accounts@[i as int])
                    =~= file_accounts@.take(i + 1));
                assert(account_list@ =~= opt_entries(filters.accounts_account)
                    + file_accounts@.take(i + 1));
            }
            i = i + 1;
        }
        proof {
            assert(file_accounts@.take(file_accounts@.len() as int) =~= file_accounts@);
        }

        let empty_entries: Vec<String> = Vec::new();
        let ghost m = opt_entries(filters.accounts_memcmp);
        let memcmp_entries: &Vec<String> = match &filters.accounts_memcmp {
            Option::Some(v) => v,
            Option::None => &empty_entries,
        };
        proof {
            assert(memcmp_entries@ =~= m);
        }
        let mut subs: Vec<AccountsSubFilter> = Vec::new();
        let mut k: usize = 0;
        while k < memcmp_entries.len()
            invariant
                k <= memcmp_entries.len(),
                memcmp_entries@ == m,
                m == opt_entries(filters.accounts_memcmp),
                subs@.len() == k,
                forall|j: int| 0 <= j < k ==> valid_memcmp_entry((#[trigger] m[j])@),
                forall|j: int| 0 <= j < k
                    ==> ((#[trigger] subs@[j]) matches AccountsSubFilter::Memcmp(mf)
                        && memcmp_result_matches(mf, m[j]@)),
            decreases memcmp_entries.len() - k,
        {
            match parse_memcmp_entry(memcmp_entries[k].as_str()) {
                Result::Ok(mf) => {
                    subs.push(AccountsSubFilter::Memcmp(mf));
                },
                Result::Err(e) => {
                    return Result::Err(e);
                },
            }
            k = k + 1;
        }

        let ghost mcount = m.len() as int;
        if let Option::Some(d) = filters.accounts_datasize {
            subs.push(AccountsSubFilter::Datasize(d));
        }
        let ghost dcount: int = if filters.accounts_datasize is Some { 1 } else { 0 };
        if opt_flag(filters.accounts_token_account_state) {
            subs.push(AccountsSubFilter::TokenAccountState(true));
        }
        let ghost tcount: int = if flag_on(filters.accounts_token_account_state) { 1 } else { 0 };

        let ghost l = opt_entries(filters.accounts_lamports);
        let lamports_entries: &Vec<String> = match &filters.accounts_lamports {
            Option::Some(v) => v,
            Option::None => &empty_entries,
        };
        proof {
            assert(lamports_entries@ =~= l);
        }
        let ghost base = mcount + dcount + tcount;
        let mut k2: usize = 0;
        while k2 < lamports_entries.len()
            invariant
                k2 <= lamports_entries.len(),
                lamports_entries@ == l,
                l == opt_entries(filters.accounts_lamports),
                m == opt_entries(filters.accounts_memcmp),
                mcount == m.len(),
                dcount == (if filters.accounts_datasize is Some { 1int } else { 0int }),
                tcount == (if flag_on(filters.accounts_token_account_state) { 1int } else { 0int }),
                base == mcount + dcount + tcount,
                subs@.len() == base + k2,
                forall|j: int| 0 <= j < mcount
                    ==> ((#[trigger] subs@[j]) matches AccountsSubFilter::Memcmp(mf)
                        && memcmp_result_matches(mf, m[j]@)),
                (filters.accounts_datasize matches Some(d)
                    ==> subs@[mcount] == AccountsSubFilter::Datasize(d)),
                (flag_on(filters.accounts_token_account_state)
                    ==> subs@[mcount + dcount] == AccountsSubFilter::TokenAccountState(true)),
                forall|j: int| 0 <= j < k2 ==> valid_lamports_entry((#[trigger] l[j])@),
                forall|j: int| 0 <= j < k2
                    ==> ((#[trigger] subs@[base + j]) matches AccountsSubFilter::Lamports(lf)
                        && lamports_result_matches(lf, l[j]@)),
            decreases lamports_entries.len() - k2,
        {
            match parse_lamports_entry(lamports_entries[k2].as_str()) {
                Result::Ok(lf) => {
                    subs.push(AccountsSubFilter::Lamports(lf));
                },
                Result::Err(e) => {
                    return Result::Err(e);
                },
            }
            k2 = k2 + 1;
        }

        let af = AccountsFilter {
            nonempty_txn_signature: filters.accounts_nonempty_txn_signature,
            account: account_list,
            owner: opt_string_vec(&filters.accounts_owner),
            filters: subs,
        };
        accounts.push((String::from_str("client"), af));
    }

    let mut slots: Vec<(String, SlotsFilter)> = Vec::new();
    if opt_flag(filters.slots) {
        slots.push((
            String::from_str("client"),
            SlotsFilter {
                filter_by_commitment: Option::Some(opt_flag(filters.slots_filter_by_commitment)),
                interslot_updates: Option::None,
            },
        ));
    }

    let mut transactions: Vec<(String, TransactionsFilter)> = Vec::new();
    if opt_flag(filters.transactions) {
        transactions.push((
            String::from_str("client"),
            build_transactions_filter(
                filters.transactions_vote,
                filters.transactions_failed,
                &filters.transactions_signature,
                &filters.transactions_account_include,
                &filters.transactions_account_exclude,
                &filters.transactions_account_required,
            ),
        ));
    }

    let mut transactions_status: Vec<(String, TransactionsFilter)> = Vec::new();
    if opt_flag(filters.transactions_status) {
        transactions_status.push((
            String::from_str("client"),
            build_transactions_filter(
                filters.transactions_status_vote,
                filters.transactions_status_failed,
                &filters.transactions_status_signature,
                &filters.transactions_status_account_include,
                &filters.transactions_status_account_exclude,
                &filters.transactions_status_account_required,
            ),
        ));
    }

    let mut entry: Vec<(String, EntryFilter)> = Vec::new();
    if opt_flag(filters.entries) {
        entry.push((String::from_str("client"), EntryFilter {}));
    }

    let mut blocks: Vec<(String, BlocksFilter)> = Vec::new();
    if opt_flag(filters.blocks) {
        blocks.push((
            String::from_str("client"),
            BlocksFilter {
                account_include: opt_string_vec(&filters.blocks_account_include),
                include_transactions: filters.blocks_include_transactions,
                include_accounts: filters.blocks_include_accounts,
                include_entries: filters.blocks_include_entries,
            },
        ));
    }

    let mut blocks_meta: Vec<(String, BlocksMetaFilter)> = Vec::new();
    if opt_flag(filters.blocks_meta) {
        blocks_meta.push((String::from_str("client"), BlocksMetaFilter {}));
    }

    let ghost dse = opt_entries(filters.accounts_data_slice);
    let empty_slices: Vec<String> = Vec::new();
    let slice_entries: &Vec<String> = match &filters.accounts_data_slice {
        Option::Some(v) => v,
        Option::None => &empty_slices,
    };
    proof {
        assert(slice_entries@ =~= dse);
    }
    let mut accounts_data_slice: Vec<DataSlice> = Vec::new();
    let mut k3: usize = 0;
    while k3 < slice_entries.len()
        invariant
            k3 <= slice_entries.len(),
            slice_entries@ == dse,
            dse == opt_entries(filters.accounts_data_slice),
            accounts_data_slice@.len() == k3,
            forall|j: int| 0 <= j < k3 ==> valid_data_slice_entry((#[trigger] dse[j])@),
            forall|j: int| 0 <= j < k3
                ==> data_slice_result_matches(accounts_data_slice@[j], (#[trigger] dse[j])@),
        decreases slice_entries.len() - k3,
    {
        match parse_data_slice_entry(slice_entries[k3].as_str()) {
            Result::Ok(d) => {
                accounts_data_slice.push(d);
            },
            Result::Err(e) => {
                return Result::Err(e);
            },
        }
        k3 = k3 + 1;
    }

    let ping = match filters.ping {
        Option::Some(id) => Option::Some(PingRequest { id }),
        Option::None => Option::None,
    };

    Result::Ok(SubscriptionRequest {
        from_slot: Option::None,
        slots,
        accounts,
        transactions,
        transactions_status,
        entry,
        blocks,
        blocks_meta,
        commitment,
        accounts_data_slice,
        ping,
    })
}

} // verus!
