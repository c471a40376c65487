//! The query surface's request planning.
//!
//! The HTTP layer outside the library extracts the raw query parameters
//! and hands them here as plain values. Planning fills in the pagination
//! defaults, turns the optional day text into the day's opening instant,
//! and rejects an invalid day; the resulting plan names exactly the filter
//! and page the store is asked for.

use vstd::prelude::*;

use crate::store::TxFilter;
use crate::time::day_start_of;
use crate::time::parse_query_day;

verus! {

/// The page size used when a query names none.
pub const DEFAULT_PAGE_SIZE: u64 = 10;

/// Query parameters for transaction endpoints.
#[derive(Clone, Debug)]
pub struct TransactionQuery {
    /// Optional transaction signature to filter by.
    pub id: Option<String>,
    /// Optional day in day/month/year form to filter by.
    pub day: Option<String>,
}

/// Query parameters for account information endpoints.
#[derive(Clone, Debug)]
pub struct AccountQuery {
    /// Public key of the account to fetch.
    pub pubkey: String,
}

/// A planned store query: the filter and the page to ask for.
#[derive(Clone, Debug, PartialEq, Eq)]
pub struct QueryPlan {
    pub filter: TxFilter,
    /// Number of records to return.
    pub count: u64,
    /// Number of matching records to skip.
    pub offset: u64,
}

/// Why a transaction query was rejected.
#[derive(Clone, Copy, Debug, PartialEq, Eq, Structural)]
pub enum QueryError {
    /// The day parameter is not a valid day/month/year date.
    InvalidDay,
}

/// The pagination value a query names, or its default.
pub open spec fn paged_or_default(given: Option<u64>, default: u64) -> u64 {
    match given {
        Some(v) => v,
        None => default,
    }
}

/// Plans one transaction query: the signature filter is taken as given,
/// the day text (when present) becomes the epoch seconds of the day's UTC
/// midnight or rejects the query, and the page takes the given count and
/// offset or their defaults.
pub fn plan_transaction_query(query: TransactionQuery, count: Option<u64>, offset: Option<u64>)
    -> (r: Result<QueryPlan, QueryError>)
    ensures
        match query.day {
            Some(day) => match day_start_of(day@) {
                Some(start) => r matches Ok(plan) && plan.filter.signature == query.id
                    && plan.filter.day_start == Some(start) && plan.count == paged_or_default(
                    count,
                    DEFAULT_PAGE_SIZE,
                ) && plan.offset == paged_or_default(offset, 0),
                None => r == Err::<QueryPlan, QueryError>(QueryError::InvalidDay),
            },
            None => r matches Ok(plan) && plan.filter.signature == query.id
                && plan.filter.day_start is None && plan.count == paged_or_default(
                count,
                DEFAULT_PAGE_SIZE,
            ) && plan.offset == paged_or_default(offset, 0),
        },
{
    let TransactionQuery { id, day } = query;

    let day_start: Option<i64> = match &day {
        Some(text) => match parse_query_day(text.as_str()) {
            Some(start) => Some(start),
            None => {
                return Err(QueryError::InvalidDay);
            },
        },
        None => None,
    };

    let count = match count {
        Some(c) => c,
        None => DEFAULT_PAGE_SIZE,
    };
    let offset = match offset {
        Some(o) => o,
        None => 0,
    };

    Ok(QueryPlan { filter: TxFilter { signature: id, day_start }, count, offset })
}

} // verus!
