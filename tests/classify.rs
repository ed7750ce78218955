use ray_parse::balances::{extract_balances, walk_balances, Extraction};
use ray_parse::logs::{any_line_contains, scan_logs, LogClass};
use ray_parse::parse::{classify_meta, gate_metadata, tx_parse};
use ray_parse::signature::parse_signature;
use ray_parse::swap::classify_swap;
use ray_parse::types::{
    Config, Direction, Field, ParseTx, TokenBalance, TransactionMeta, TxParseError, TxType,
};

const EXCLUDED: &str = "JUP6LkbZbjS1jKKwapdHNy74zcZ3tLUZoi5QNyVTaV4";
const REQUIRED: &str = "675kPX9MHTjS2zt1qfr1NYHuzeLXfQM9H24wFSUt1Mp8";
const BASE: &str = "So11111111111111111111111111111111111111112";
const TRACKED: &str = "TrackedWa11et1111111111111111111111111111111";
const AUTHORITY: &str = "5Q544fKrFoe6tsEbD7S8EmxGTJYAKtTVhAW5Q5pge4j1";

fn cfg() -> Config {
    Config {
        excluded_id: EXCLUDED.to_string(),
        required_id: REQUIRED.to_string(),
        base_asset_mint: BASE.to_string(),
        tracked_account: TRACKED.to_string(),
        reference_authority: AUTHORITY.to_string(),
    }
}

fn entry(owner: &str, mint: &str, amount: Option<u64>) -> TokenBalance {
    TokenBalance {
        owner: Field::Present(owner.to_string()),
        mint: mint.to_string(),
        amount,
    }
}

fn invoke_line(id: &str) -> String {
    format!("Program {} invoke [1]", id)
}

fn meta_with(
    logs: Vec<String>,
    pre: Vec<TokenBalance>,
    post: Vec<TokenBalance>,
) -> TransactionMeta {
    TransactionMeta {
        log_messages: Field::Present(logs),
        inner_instructions: Field::Present(2),
        pre_token_balances: Field::Present(pre),
        post_token_balances: Field::Present(post),
    }
}

fn swap_meta(pre_tracked: u64, post_tracked: u64, pre_ref: u64, post_ref: u64) -> TransactionMeta {
    meta_with(
        vec!["Program log: start".to_string(), invoke_line(REQUIRED)],
        vec![entry(TRACKED, "M", Some(pre_tracked)), entry(AUTHORITY, BASE, Some(pre_ref))],
        vec![entry(TRACKED, "M", Some(post_tracked)), entry(AUTHORITY, BASE, Some(post_ref))],
    )
}

fn assert_null_swap(p: &ParseTx) {
    assert_eq!(p.type_tx, TxType::NotSwap);
    assert_eq!(p.direction, None);
    assert_eq!(p.amount_in, 0);
    assert_eq!(p.amount_out, 0);
    assert_eq!(p.mint, "");
}

#[test]
fn excluded_only_gives_null_swap() {
    let meta = meta_with(vec![invoke_line(EXCLUDED)], vec![], vec![]);
    let r = classify_meta(&meta, &cfg()).unwrap();
    assert_null_swap(&r);
}

#[test]
fn excluded_and_required_gives_null_swap() {
    let mut meta = swap_meta(2, 5, 90, 100);
    meta.log_messages = Field::Present(vec![invoke_line(REQUIRED), invoke_line(EXCLUDED)]);
    let r = classify_meta(&meta, &cfg()).unwrap();
    assert_null_swap(&r);
}

#[test]
fn buy_scenario() {
    let r = classify_meta(&swap_meta(2, 5, 90, 100), &cfg()).unwrap();
    assert_eq!(r.type_tx, TxType::Swap);
    assert_eq!(r.direction, Some(Direction::Buy));
    assert_eq!(r.amount_in, 10);
    assert_eq!(r.amount_out, 3);
    assert_eq!(r.mint, "M");
}

#[test]
fn sell_scenario() {
    let r = classify_meta(&swap_meta(5, 2, 100, 90), &cfg()).unwrap();
    assert_eq!(r.type_tx, TxType::Swap);
    assert_eq!(r.direction, Some(Direction::Sell));
    assert_eq!(r.amount_in, 3);
    assert_eq!(r.amount_out, 10);
    assert_eq!(r.mint, "M");
}

#[test]
fn zero_delta_is_sell() {
    let r = classify_meta(&swap_meta(7, 7, 100, 100), &cfg()).unwrap();
    assert_eq!(r.type_tx, TxType::Swap);
    assert_eq!(r.direction, Some(Direction::Sell));
    assert_eq!(r.amount_in, 0);
    assert_eq!(r.amount_out, 0);
}

#[test]
fn unexpected_reference_move_is_not_clamped() {
    let r = classify_meta(&swap_meta(2, 5, 100, 90), &cfg()).unwrap();
    assert_eq!(r.direction, Some(Direction::Buy));
    assert_eq!(r.amount_in, -10);
    assert_eq!(r.amount_out, 3);
}

#[test]
fn owner_not_requested_fails() {
    let mut meta = swap_meta(2, 5, 90, 100);
    meta.post_token_balances = Field::Present(vec![TokenBalance {
        owner: Field::NotRequested,
        mint: "M".to_string(),
        amount: Some(5),
    }]);
    assert!(matches!(classify_meta(&meta, &cfg()), Err(TxParseError::OwnerUnavailable)));
}

#[test]
fn owner_absent_in_pre_list_fails() {
    let mut meta = swap_meta(2, 5, 90, 100);
    meta.pre_token_balances = Field::Present(vec![TokenBalance {
        owner: Field::Absent,
        mint: "M".to_string(),
        amount: Some(2),
    }]);
    assert!(matches!(classify_meta(&meta, &cfg()), Err(TxParseError::OwnerUnavailable)));
}

#[test]
fn logs_absent_and_not_requested_give_one_error() {
    let mut a = swap_meta(2, 5, 90, 100);
    a.log_messages = Field::Absent;
    let mut b = swap_meta(2, 5, 90, 100);
    b.log_messages = Field::NotRequested;
    assert!(matches!(classify_meta(&a, &cfg()), Err(TxParseError::LogsUnavailable)));
    assert!(matches!(classify_meta(&b, &cfg()), Err(TxParseError::LogsUnavailable)));
}

#[test]
fn balances_absent_and_not_requested_give_one_error() {
    for missing in [Field::Absent, Field::NotRequested] {
        let mut post = swap_meta(2, 5, 90, 100);
        post.post_token_balances = missing.clone();
        assert!(matches!(classify_meta(&post, &cfg()), Err(TxParseError::BalancesUnavailable)));
        let mut pre = swap_meta(2, 5, 90, 100);
        pre.pre_token_balances = missing;
        assert!(matches!(classify_meta(&pre, &cfg()), Err(TxParseError::BalancesUnavailable)));
    }
}

#[test]
fn missing_inner_instructions_fail_on_relevant_tx() {
    let mut meta = swap_meta(2, 5, 90, 100);
    meta.inner_instructions = Field::NotRequested;
    assert!(matches!(classify_meta(&meta, &cfg()), Err(TxParseError::LogsUnavailable)));
}

#[test]
fn missing_balances_do_not_matter_when_unrelated() {
    let meta = TransactionMeta {
        log_messages: Field::Present(vec!["Program log: other".to_string()]),
        inner_instructions: Field::Absent,
        pre_token_balances: Field::Absent,
        post_token_balances: Field::NotRequested,
    };
    assert_null_swap(&classify_meta(&meta, &cfg()).unwrap());
}

#[test]
fn empty_logs_give_null_swap() {
    let meta = meta_with(vec![], vec![], vec![]);
    assert_null_swap(&classify_meta(&meta, &cfg()).unwrap());
}

#[test]
fn classifying_twice_gives_identical_records() {
    let meta = swap_meta(2, 5, 90, 100);
    let a = classify_meta(&meta, &cfg()).unwrap();
    let b = classify_meta(&meta, &cfg()).unwrap();
    assert_eq!(format!("{:?}", a), format!("{:?}", b));
}

#[test]
fn null_amount_counts_as_zero() {
    let meta = meta_with(
        vec![invoke_line(REQUIRED)],
        vec![entry(TRACKED, "M", None), entry(AUTHORITY, BASE, Some(90))],
        vec![entry(TRACKED, "M", Some(4)), entry(AUTHORITY, BASE, None)],
    );
    let r = classify_meta(&meta, &cfg()).unwrap();
    assert_eq!(r.direction, Some(Direction::Buy));
    assert_eq!(r.amount_out, 4);
    assert_eq!(r.amount_in, -90);
}

#[test]
fn later_entries_override_earlier_ones() {
    let entries = vec![
        entry(TRACKED, "A", Some(1)),
        entry(AUTHORITY, BASE, Some(10)),
        entry(AUTHORITY, "OtherMint", Some(99)),
        entry(TRACKED, "B", Some(2)),
        entry(AUTHORITY, BASE, Some(20)),
    ];
    let w = walk_balances(&entries, &cfg()).unwrap();
    assert_eq!(w.mint, "B");
    assert_eq!(w.tracked_amount, 2);
    assert_eq!(w.reference_amount, 20);
}

#[test]
fn no_tracked_entry_leaves_mint_empty() {
    let w = walk_balances(&vec![entry(AUTHORITY, BASE, Some(3))], &cfg()).unwrap();
    assert_eq!(w.mint, "");
    assert_eq!(w.tracked_amount, 0);
    assert_eq!(w.reference_amount, 3);
}

#[test]
fn mint_comes_from_post_list() {
    let pre = Field::Present(vec![entry(TRACKED, "PreMint", Some(1))]);
    let post = Field::Present(vec![entry(AUTHORITY, BASE, Some(1))]);
    let x = extract_balances(&pre, &post, &cfg()).unwrap();
    assert_eq!(x.mint, "");
    assert_eq!(x.pre_tracked, 1);
    assert_eq!(x.post_tracked, 0);
    assert_eq!(x.post_reference, 1);
    assert_eq!(x.pre_reference, 0);
}

#[test]
fn classify_swap_extreme_amounts() {
    let x = Extraction {
        mint: "M".to_string(),
        pre_tracked: 0,
        post_tracked: u64::MAX,
        pre_reference: u64::MAX,
        post_reference: 0,
    };
    let r = classify_swap(&x);
    assert_eq!(r.amount_out, u64::MAX as i128);
    assert_eq!(r.amount_in, -(u64::MAX as i128));
}

#[test]
fn substring_search_finds_only_real_occurrences() {
    let lines = vec!["alpha beta".to_string(), "gamma".to_string()];
    assert!(any_line_contains(&lines, &"ta".to_string()));
    assert!(any_line_contains(&lines, &"gamma".to_string()));
    assert!(!any_line_contains(&lines, &"delta".to_string()));
    assert!(!any_line_contains(&vec![], &"".to_string()));
    assert!(any_line_contains(&lines, &"".to_string()));
}

#[test]
fn scan_logs_classes() {
    let c = cfg();
    let unrelated = Field::Present(vec!["Program log: nothing".to_string()]);
    assert_eq!(scan_logs(&unrelated, &c).unwrap(), LogClass::Unrelated);
    let relevant = Field::Present(vec![invoke_line(REQUIRED)]);
    assert_eq!(scan_logs(&relevant, &c).unwrap(), LogClass::Relevant);
    let excluded = Field::Present(vec![invoke_line(REQUIRED), invoke_line(EXCLUDED)]);
    assert_eq!(scan_logs(&excluded, &c).unwrap(), LogClass::Excluded);
}

#[test]
fn fetch_failure_is_reported() {
    match tx_parse(Err("connection refused".to_string()), &cfg()) {
        Err(TxParseError::FetchFailed(d)) => assert_eq!(d, "connection refused"),
        other => panic!("unexpected {:?}", other),
    }
}

#[test]
fn missing_metadata_is_reported() {
    assert!(matches!(tx_parse(Ok(None), &cfg()), Err(TxParseError::MetadataMissing)));
    assert!(matches!(gate_metadata(Ok(None)), Err(TxParseError::MetadataMissing)));
}

#[test]
fn tx_parse_classifies_fetched_metadata() {
    let r = tx_parse(Ok(Some(swap_meta(5, 2, 100, 90))), &cfg()).unwrap();
    assert_eq!(r.direction, Some(Direction::Sell));
    assert_eq!(r.amount_in, 3);
    assert_eq!(r.amount_out, 10);
}

#[test]
fn well_formed_signature_is_accepted() {
    let s = "5VERv8NMvzbJMEkV8xnrLkEaWRtSz9CosKDYjCJjBRnbJLgp8uirBgmQpjKhoR4tjF3ZpRzrFmBV6UjKdiSZkQUW";
    let sig = parse_signature(s).unwrap();
    assert_eq!(sig.to_string(), s);
}

#[test]
fn malformed_signatures_are_rejected() {
    assert!(matches!(parse_signature("not-a-signature"), Err(TxParseError::InvalidSignature)));
    assert!(matches!(parse_signature("abc"), Err(TxParseError::InvalidSignature)));
    let long = "1".repeat(89);
    assert!(matches!(parse_signature(&long), Err(TxParseError::InvalidSignature)));
}

#[test]
fn labels_match_the_record_format() {
    assert_eq!(TxType::NotSwap.label(), "");
    assert_eq!(TxType::Swap.label(), "Swap");
    assert_eq!(Direction::Buy.label(), "buy");
    assert_eq!(Direction::Sell.label(), "sell");
    let r = classify_meta(&swap_meta(2, 5, 90, 100), &cfg()).unwrap();
    assert_eq!(r.type_tx.label(), "Swap");
    assert_eq!(r.direction.map(|d| d.label()), Some("buy"));
}
