use geyser_bridge::builder::build;
use geyser_bridge::filter::{
    commitment_code, commitment_from_name, parse_data_slice_entry, parse_lamports_entry,
    parse_memcmp_entry, AccountsSubFilter, CommitmentLevel, ConfigError, FilterCategory,
    FilterSpec, LamportsCmp,
};

fn spec_with_accounts() -> FilterSpec {
    let mut f = FilterSpec::default();
    f.accounts = Some(true);
    f
}

#[test]
fn memcmp_rejects_missing_offset() {
    assert_eq!(
        parse_memcmp_entry("50,"),
        Err(ConfigError::InvalidFilterSyntax(FilterCategory::Memcmp))
    );
}

#[test]
fn memcmp_rejects_non_numeric_offset() {
    assert_eq!(
        parse_memcmp_entry("abc,AAA"),
        Err(ConfigError::InvalidFilterSyntax(FilterCategory::Memcmp))
    );
}

#[test]
fn memcmp_accepts_zero_offset() {
    let m = parse_memcmp_entry("0,3Gx9").unwrap();
    assert_eq!(m.offset, 0);
    assert_eq!(m.data, "3Gx9");
}

#[test]
fn memcmp_trims_data_and_rejects_extra_commas() {
    let m = parse_memcmp_entry("128,  deadBeef1 ").unwrap();
    assert_eq!(m.offset, 128);
    assert_eq!(m.data, "deadBeef1");
    assert!(parse_memcmp_entry("1,2,3").is_err());
    assert!(parse_memcmp_entry("nocomma").is_err());
}

#[test]
fn lamports_rejects_bad_entries() {
    assert_eq!(
        parse_lamports_entry("bogus:5"),
        Err(ConfigError::InvalidFilterSyntax(FilterCategory::Lamports))
    );
    assert_eq!(
        parse_lamports_entry("eq:notanumber"),
        Err(ConfigError::InvalidFilterSyntax(FilterCategory::Lamports))
    );
}

#[test]
fn lamports_accepts_each_comparator() {
    assert_eq!(parse_lamports_entry("eq:100"), Ok(LamportsCmp::Eq(100)));
    assert_eq!(parse_lamports_entry("gt:0"), Ok(LamportsCmp::Gt(0)));
    assert_eq!(parse_lamports_entry("ne:7"), Ok(LamportsCmp::Ne(7)));
    assert_eq!(parse_lamports_entry("lt:42"), Ok(LamportsCmp::Lt(42)));
}

#[test]
fn data_slice_parses_both_numbers() {
    let d = parse_data_slice_entry("4,32").unwrap();
    assert_eq!((d.offset, d.length), (4, 32));
    assert_eq!(
        parse_data_slice_entry("4;32"),
        Err(ConfigError::InvalidFilterSyntax(FilterCategory::DataSlice))
    );
    assert_eq!(
        parse_data_slice_entry("4,x"),
        Err(ConfigError::InvalidFilterSyntax(FilterCategory::DataSlice))
    );
}

#[test]
fn enabled_categories_get_one_client_entry() {
    let mut f = FilterSpec::default();
    f.accounts = Some(true);
    f.slots = Some(true);
    f.transactions = Some(true);
    f.entries = Some(true);
    f.blocks_meta = Some(true);
    let q = build(&f, &Vec::new(), None).unwrap();
    assert_eq!(q.accounts.len(), 1);
    assert_eq!(q.accounts[0].0, "client");
    assert_eq!(q.slots.len(), 1);
    assert_eq!(q.slots[0].0, "client");
    assert_eq!(q.transactions.len(), 1);
    assert_eq!(q.transactions[0].0, "client");
    assert_eq!(q.entry.len(), 1);
    assert_eq!(q.entry[0].0, "client");
    assert_eq!(q.blocks_meta.len(), 1);
    assert_eq!(q.blocks_meta[0].0, "client");
    // the disabled categories stay empty
    assert_eq!(q.transactions_status.len(), 0);
    assert_eq!(q.blocks.len(), 0);
}

#[test]
fn disabled_categories_stay_empty() {
    let f = FilterSpec::default();
    let q = build(&f, &Vec::new(), None).unwrap();
    assert_eq!(q.accounts.len(), 0);
    assert_eq!(q.slots.len(), 0);
    assert_eq!(q.transactions.len(), 0);
    assert_eq!(q.transactions_status.len(), 0);
    assert_eq!(q.entry.len(), 0);
    assert_eq!(q.blocks.len(), 0);
    assert_eq!(q.blocks_meta.len(), 0);
    assert_eq!(q.accounts_data_slice.len(), 0);
    assert_eq!(q.from_slot, None);
    assert_eq!(q.ping, None);
}

#[test]
fn account_list_is_inline_then_file() {
    let mut f = spec_with_accounts();
    f.accounts_account = Some(vec!["inline1".to_string(), "inline2".to_string()]);
    let file_accounts = vec!["file1".to_string(), "file2".to_string()];
    let q = build(&f, &file_accounts, None).unwrap();
    let af = &q.accounts[0].1;
    assert_eq!(af.account, vec!["inline1", "inline2", "file1", "file2"]);
}

#[test]
fn account_sub_filters_in_order() {
    let mut f = spec_with_accounts();
    f.accounts_memcmp = Some(vec!["0,3Gx9".to_string(), "8,qq".to_string()]);
    f.accounts_datasize = Some(165);
    f.accounts_token_account_state = Some(true);
    f.accounts_lamports = Some(vec!["gt:0".to_string()]);
    let q = build(&f, &Vec::new(), None).unwrap();
    let subs = &q.accounts[0].1.filters;
    assert_eq!(subs.len(), 5);
    match &subs[0] {
        AccountsSubFilter::Memcmp(m) => {
            assert_eq!(m.offset, 0);
            assert_eq!(m.data, "3Gx9");
        }
        other => panic!("expected memcmp, got {:?}", other),
    }
    match &subs[1] {
        AccountsSubFilter::Memcmp(m) => assert_eq!(m.offset, 8),
        other => panic!("expected memcmp, got {:?}", other),
    }
    assert_eq!(subs[2], AccountsSubFilter::Datasize(165));
    assert_eq!(subs[3], AccountsSubFilter::TokenAccountState(true));
    assert_eq!(subs[4], AccountsSubFilter::Lamports(LamportsCmp::Gt(0)));
}

#[test]
fn build_reports_first_failing_category() {
    let mut f = spec_with_accounts();
    f.accounts_memcmp = Some(vec!["abc,AAA".to_string()]);
    f.accounts_lamports = Some(vec!["bogus:5".to_string()]);
    assert_eq!(
        build(&f, &Vec::new(), None),
        Err(ConfigError::InvalidFilterSyntax(FilterCategory::Memcmp))
    );
    f.accounts_memcmp = None;
    assert_eq!(
        build(&f, &Vec::new(), None),
        Err(ConfigError::InvalidFilterSyntax(FilterCategory::Lamports))
    );
    f.accounts_lamports = None;
    f.accounts_data_slice = Some(vec!["1,2,3".to_string()]);
    assert_eq!(
        build(&f, &Vec::new(), None),
        Err(ConfigError::InvalidFilterSyntax(FilterCategory::DataSlice))
    );
}

#[test]
fn disabled_accounts_skip_entry_parsing() {
    let mut f = FilterSpec::default();
    f.accounts = Some(false);
    f.accounts_memcmp = Some(vec!["garbage".to_string()]);
    let q = build(&f, &Vec::new(), None).unwrap();
    assert_eq!(q.accounts.len(), 0);
}

#[test]
fn slots_filter_defaults_to_not_by_commitment() {
    let mut f = FilterSpec::default();
    f.slots = Some(true);
    let q = build(&f, &Vec::new(), None).unwrap();
    assert_eq!(q.slots[0].1.filter_by_commitment, Some(false));
    assert_eq!(q.slots[0].1.interslot_updates, None);

    f.slots_filter_by_commitment = Some(true);
    let q2 = build(&f, &Vec::new(), None).unwrap();
    assert_eq!(q2.slots[0].1.filter_by_commitment, Some(true));
}

#[test]
fn transactions_filter_carries_options() {
    let mut f = FilterSpec::default();
    f.transactions = Some(true);
    f.transactions_vote = Some(false);
    f.transactions_signature = Some("sig".to_string());
    f.transactions_account_include = Some(vec!["a".to_string()]);
    let q = build(&f, &Vec::new(), Some(CommitmentLevel::Confirmed)).unwrap();
    let tf = &q.transactions[0].1;
    assert_eq!(tf.vote, Some(false));
    assert_eq!(tf.failed, None);
    assert_eq!(tf.signature, Some("sig".to_string()));
    assert_eq!(tf.account_include, vec!["a"]);
    assert_eq!(tf.account_exclude, Vec::<String>::new());
    assert_eq!(q.commitment, Some(CommitmentLevel::Confirmed));
}

#[test]
fn ping_id_is_carried() {
    let mut f = FilterSpec::default();
    f.ping = Some(9);
    let q = build(&f, &Vec::new(), None).unwrap();
    assert_eq!(q.ping.map(|p| p.id), Some(9));
}

#[test]
fn data_slices_populate_the_request() {
    let mut f = FilterSpec::default();
    f.accounts_data_slice = Some(vec!["0,32".to_string(), "4,8".to_string()]);
    // the data-slice list is global: it is parsed even with accounts disabled
    let q = build(&f, &Vec::new(), None).unwrap();
    assert_eq!(q.accounts_data_slice.len(), 2);
    assert_eq!((q.accounts_data_slice[0].offset, q.accounts_data_slice[0].length), (0, 32));
    assert_eq!((q.accounts_data_slice[1].offset, q.accounts_data_slice[1].length), (4, 8));
}

#[test]
fn commitment_names_map_to_levels() {
    assert_eq!(commitment_from_name("PROCESSED"), CommitmentLevel::Processed);
    assert_eq!(commitment_from_name("CONFIRMED"), CommitmentLevel::Confirmed);
    assert_eq!(commitment_from_name("FINALIZED"), CommitmentLevel::Finalized);
    // an unrecognized name degrades to the least-strict level
    assert_eq!(commitment_from_name("whatever"), CommitmentLevel::Processed);
    assert_eq!(commitment_from_name("confirmed"), CommitmentLevel::Processed);
}

#[test]
fn commitment_codes_follow_the_wire_numbering() {
    assert_eq!(commitment_code(CommitmentLevel::Processed), 0);
    assert_eq!(commitment_code(CommitmentLevel::Confirmed), 1);
    assert_eq!(commitment_code(CommitmentLevel::Finalized), 2);
}
