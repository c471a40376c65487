use soldag::AccountQuery;
use soldag::QueryError;
use soldag::TransactionQuery;
use soldag::plan_transaction_query;

fn plain_query() -> TransactionQuery {
    TransactionQuery { id: None, day: None }
}

#[test]
fn a_bare_query_takes_the_default_page() {
    let plan = plan_transaction_query(plain_query(), None, None).unwrap();
    assert_eq!(plan.count, 10);
    assert_eq!(plan.offset, 0);
    assert!(plan.filter.signature.is_none());
    assert!(plan.filter.day_start.is_none());
}

#[test]
fn given_pagination_wins_over_the_defaults() {
    let plan = plan_transaction_query(plain_query(), Some(25), Some(50)).unwrap();
    assert_eq!(plan.count, 25);
    assert_eq!(plan.offset, 50);
}

#[test]
fn the_signature_parameter_becomes_the_filter() {
    let query = TransactionQuery { id: Some("sig-A".to_string()), day: None };
    let plan = plan_transaction_query(query, None, None).unwrap();
    assert_eq!(plan.filter.signature.as_deref(), Some("sig-A"));
}

#[test]
fn a_valid_day_becomes_its_opening_instant() {
    let query = TransactionQuery { id: None, day: Some("15/05/2015".to_string()) };
    let plan = plan_transaction_query(query, None, None).unwrap();
    // 15 May 2015, midnight UTC.
    assert_eq!(plan.filter.day_start, Some(1_431_648_000));
}

#[test]
fn the_epoch_day_opens_at_zero() {
    let query = TransactionQuery { id: None, day: Some("01/01/1970".to_string()) };
    let plan = plan_transaction_query(query, None, None).unwrap();
    assert_eq!(plan.filter.day_start, Some(0));
}

#[test]
fn a_calendar_impossible_day_is_rejected() {
    let query = TransactionQuery { id: None, day: Some("31/02/2020".to_string()) };
    assert_eq!(plan_transaction_query(query, None, None), Err(QueryError::InvalidDay));
}

#[test]
fn day_text_in_the_wrong_shape_is_rejected() {
    let query = TransactionQuery { id: None, day: Some("2015-05-15".to_string()) };
    assert_eq!(plan_transaction_query(query, None, None), Err(QueryError::InvalidDay));
}

#[test]
fn an_account_query_carries_its_key_text() {
    let query = AccountQuery { pubkey: "11111111111111111111111111111111".to_string() };
    assert_eq!(query.pubkey.len(), 32);
}
