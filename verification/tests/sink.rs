use soldag::Block;
use soldag::DecodeError;
use soldag::EncodedTx;
use soldag::MAX_EPOCH_SECONDS;
use soldag::Message;
use soldag::MessageHeader;
use soldag::RawMessage;
use soldag::Store;
use soldag::TxEntry;
use soldag::TxMeta;
use soldag::TxPayload;
use soldag::normalize_block_time;
use soldag::process_job;

fn mock_message() -> RawMessage {
    RawMessage {
        header: MessageHeader {
            num_required_signatures: 1,
            num_readonly_signed_accounts: 0,
            num_readonly_unsigned_accounts: 0,
        },
        account_keys: vec![],
        recent_blockhash: "11111111111111111111111111111111".to_string(),
        instructions: vec![],
        address_table_lookups: None,
    }
}

fn good_entry(signature: &str) -> TxEntry {
    TxEntry {
        transaction: EncodedTx::Json(TxPayload {
            signatures: vec![signature.to_string()],
            message: Message::Raw(mock_message()),
        }),
        meta: Some(TxMeta { failed: false, fee: 0, pre_balances: vec![], post_balances: vec![] }),
    }
}

fn all_signatures(store: &Store) -> Vec<String> {
    let none = soldag::TxFilter { signature: None, day_start: None };
    let (records, _) = store.get_transactions(&none, u64::MAX, 0);
    records.iter().map(|r| r.signature.clone()).collect()
}

#[test]
fn a_block_without_transactions_is_skipped() {
    let mut store = Store::new();
    let block = Block { parent: 99, block_time: Some(1_700_000_000), transactions: None };
    let (stored, failure) = process_job(&mut store, block);
    assert_eq!(stored, 0);
    assert!(failure.is_none());
    assert_eq!(store.len(), 0);
}

#[test]
fn every_entry_of_a_clean_block_is_stored_and_stamped() {
    let mut store = Store::new();
    let block = Block {
        parent: 99,
        block_time: Some(1_700_000_000),
        transactions: Some(vec![good_entry("sig-1"), good_entry("sig-2")]),
    };
    let (stored, failure) = process_job(&mut store, block);
    assert_eq!(stored, 2);
    assert!(failure.is_none());
    assert_eq!(all_signatures(&store), vec!["sig-1", "sig-2"]);

    let none = soldag::TxFilter { signature: None, day_start: None };
    let (records, _) = store.get_transactions(&none, 10, 0);
    assert_eq!(records[0].block_time, Some(1_700_000_000));
    assert_eq!(records[1].block_time, Some(1_700_000_000));
}

#[test]
fn a_block_without_a_timestamp_stores_unstamped_records() {
    let mut store = Store::new();
    let block = Block { parent: 1, block_time: None, transactions: Some(vec![good_entry("s")]) };
    process_job(&mut store, block);
    let none = soldag::TxFilter { signature: None, day_start: None };
    let (records, _) = store.get_transactions(&none, 10, 0);
    assert_eq!(records[0].block_time, None);
}

#[test]
fn a_timestamp_beyond_the_temporal_range_is_dropped() {
    let mut store = Store::new();
    let block = Block {
        parent: 1,
        block_time: Some(MAX_EPOCH_SECONDS + 1),
        transactions: Some(vec![good_entry("s")]),
    };
    process_job(&mut store, block);
    let none = soldag::TxFilter { signature: None, day_start: None };
    let (records, _) = store.get_transactions(&none, 10, 0);
    assert_eq!(records[0].block_time, None);
}

#[test]
fn a_rejected_entry_drops_the_rest_of_the_job() {
    let mut store = Store::new();
    let bad = TxEntry { transaction: EncodedTx::Accounts, meta: None };
    let block = Block {
        parent: 99,
        block_time: None,
        transactions: Some(vec![good_entry("sig-1"), bad, good_entry("sig-3")]),
    };
    let (stored, failure) = process_job(&mut store, block);
    // Partial insertion: the record before the rejected entry stays.
    assert_eq!(stored, 1);
    assert_eq!(failure, Some(DecodeError::MissingMeta));
    assert_eq!(all_signatures(&store), vec!["sig-1"]);
}

#[test]
fn normalization_keeps_representable_seconds_and_drops_the_rest() {
    assert_eq!(normalize_block_time(Some(1_700_000_000)), Some(1_700_000_000));
    assert_eq!(normalize_block_time(Some(0)), Some(0));
    assert_eq!(normalize_block_time(Some(MAX_EPOCH_SECONDS)), Some(MAX_EPOCH_SECONDS));
    assert_eq!(normalize_block_time(Some(MAX_EPOCH_SECONDS + 1)), None);
    assert_eq!(normalize_block_time(Some(soldag::MIN_EPOCH_SECONDS)), Some(soldag::MIN_EPOCH_SECONDS));
    assert_eq!(normalize_block_time(Some(soldag::MIN_EPOCH_SECONDS - 1)), None);
    assert_eq!(normalize_block_time(Some(i64::MAX)), None);
    assert_eq!(normalize_block_time(None), None);
}
