//! The document store's observable behavior: append-only insertion and
//! filtered, paginated retrieval.
//!
//! The pipeline treats the store as a flat collection of transaction
//! records. A query names an optional signature, an optional day, a page
//! size and an offset; it answers with the records of that page, in
//! insertion order, and with the offset of the next page when one exists.

use vstd::prelude::*;

use crate::transaction::Transaction;

verus! {

/// The filter of a transaction query: an exact signature, a day given by
/// the epoch seconds of its UTC midnight, or both.
#[derive(Clone, Debug, PartialEq, Eq)]
pub struct TxFilter {
    /// Keep only the records with exactly this signature.
    pub signature: Option<String>,
    /// Keep only the records stamped within the day that opens at this
    /// instant (inclusive of the following midnight, as the source query
    /// bounds it).
    pub day_start: Option<i64>,
}

/// Whether one record satisfies a filter: the signature must match exactly
/// when one is named, and the record's stamp must lie within the named day,
/// both bounds inclusive.
pub open spec fn record_matches(t: Transaction, f: TxFilter) -> bool {
    &&& match f.signature {
        Some(s) => t.signature@ == s@,
        None => true,
    }
    &&& match f.day_start {
        Some(d) => t.block_time matches Some(bt) && d <= bt <= d + 86400,
        None => true,
    }
}

/// The subsequence of `records` that a filter keeps, in stored order.
pub open spec fn matching_records(records: Seq<Transaction>, f: TxFilter) -> Seq<Transaction> {
    records.filter(|t: Transaction| record_matches(t, f))
}

/// The records a sequence of references points at, in order.
pub open spec fn referenced_records(refs: Seq<&Transaction>) -> Seq<Transaction> {
    refs.map_values(|t: &Transaction| *t)
}

/// The offset of the page after one of size `count` at `offset`, out of
/// `total` matching records: their saturating sum, when it still points
/// inside the matching records.
pub open spec fn next_offset(count: u64, offset: u64, total: nat) -> Option<u64> {
    let sum: int = if count + offset > u64::MAX {
        u64::MAX as int
    } else {
        count + offset
    };
    if sum < total {
        Some(sum as u64)
    } else {
        None
    }
}

/// Appending one record extends the matching records by that record
/// exactly when the filter keeps it.
proof fn lemma_matching_records_push(records: Seq<Transaction>, t: Transaction, f: TxFilter)
    ensures
        matching_records(records.push(t), f) == (if record_matches(t, f) {
            matching_records(records, f).push(t)
        } else {
            matching_records(records, f)
        }),
{
    reveal(Seq::filter);
    assert(records.push(t).drop_last() =~= records);
    assert(records.push(t).last() == t);
}

/// Derives the offset of the following page from a page's size and
/// offset and the total number of matching records, as [`next_offset`]
/// defines it. The external store reports the total; this derivation is
/// the query surface's own.
pub fn page_next_offset(count: u64, offset: u64, total: u64) -> (r: Option<u64>)
    ensures
        r == next_offset(count, offset, total as nat),
{
    let sum: u64 = if count <= u64::MAX - offset {
        count + offset
    } else {
        u64::MAX
    };
    if sum < total {
        Some(sum)
    } else {
        None
    }
}

/// Decides [`record_matches`] for one record.
pub fn matches_filter(t: &Transaction, f: &TxFilter) -> (r: bool)
    ensures
        r == record_matches(*t, *f),
{
    let signature_ok = match &f.signature {
        Some(s) => t.signature == *s,
        None => true,
    };
    let day_ok = match f.day_start {
        Some(d) => match t.block_time {
            Some(bt) => d <= bt && (bt as i128) <= (d as i128) + 86400,
            None => false,
        },
        None => true,
    };
    signature_ok && day_ok
}

/// An append-only collection of transaction records, in insertion order.
/// It models the external document store's observable behavior; the
/// pipeline never updates or deletes a record.
pub struct Store {
    records: Vec<Transaction>,
}

impl View for Store {
    type V = Seq<Transaction>;

    closed spec fn view(&self) -> Seq<Transaction> {
        self.records@
    }
}

impl Store {
    /// An empty store.
    pub fn new() -> (s: Self)
        ensures
            s@ == Seq::<Transaction>::empty(),
    {
        Store { records: Vec::new() }
    }

    /// Appends one record; nothing already stored moves or changes.
    pub fn insert(&mut self, t: Transaction)
        ensures
            final(self)@ == old(self)@.push(t),
    {
        self.records.push(t);
    }

    /// How many records the store holds.
    pub fn len(&self) -> (n: usize)
        ensures
            n == self@.len(),
    {
        self.records.len()
    }

    /// Answers a query: of the records the filter keeps, in insertion
    /// order, the page of at most `count` records starting `offset` into
    /// them, and the offset of the next page when more remain.
    pub fn get_transactions<'a>(&'a self, filter: &TxFilter, count: u64, offset: u64) -> (r: (
        Vec<&'a Transaction>,
        Option<u64>,
    ))
        ensures
            ({
                let matched = matching_records(self@, *filter);
                let lo = if offset <= matched.len() {
                    offset as int
                } else {
                    matched.len() as int
                };
                let hi = if count + lo <= matched.len() {
                    count + lo
                } else {
                    matched.len() as int
                };
                &&& referenced_records(r.0@) == matched.subrange(lo, hi)
                &&& r.1 == next_offset(count, offset, matched.len())
            }),
    {
        let ghost matched = matching_records(self@, *filter);

        // Collect references to every matching record, in stored order.
        let mut hits: Vec<&'a Transaction> = Vec::new();
        let mut i: usize = 0;
        while i < self.records.len()
            invariant
                i <= self.records@.len(),
                referenced_records(hits@) == matching_records(
                    self.records@.take(i as int),
                    *filter,
                ),
            decreases self.records@.len() - i,
        {
            let ghost prefix = self.records@.take(i as int);
            let ghost hits_before = hits@;
            let current: &Transaction = &self.records[i];
            if matches_filter(current, filter) {
                hits.push(current);
            }
            i = i + 1;
            proof {
                assert(self.records@.take(i as int) =~= prefix.push(self.records@[i - 1]));
                lemma_matching_records_push(prefix, self.records@[i - 1], *filter);
                if record_matches(self.records@[i - 1], *filter) {
                    assert(referenced_records(hits@) =~= referenced_records(hits_before).push(
                        self.records@[i - 1],
                    ));
                }
            }
        }
        proof {
            assert(self.records@.take(self.records@.len() as int) =~= self.records@);
        }

        let total: usize = hits.len();

        // The page's bounds inside the matching records.
        let lo: usize = if offset <= total as u64 {
            offset as usize
        } else {
            total
        };
        let hi: usize = if count <= (total - lo) as u64 {
            lo + count as usize
        } else {
            total
        };

        let mut page: Vec<&'a Transaction> = Vec::new();
        let mut j: usize = lo;
        while j < hi
            invariant
                lo <= j <= hi <= hits@.len(),
                page@ == hits@.subrange(lo as int, j as int),
            decreases hi - j,
        {
            page.push(hits[j]);
            j = j + 1;
            proof {
                assert(page@ =~= hits@.subrange(lo as int, j as int));
            }
        }

        // The saturating position of the following page.
        let sum: u64 = if count <= u64::MAX - offset {
            count + offset
        } else {
            u64::MAX
        };
        let next: Option<u64> = if sum < total as u64 {
            Some(sum)
        } else {
            None
        };

        proof {
            let spec_lo = if offset <= matched.len() {
                offset as int
            } else {
                matched.len() as int
            };
            let spec_hi = if count + spec_lo <= matched.len() {
                count + spec_lo
            } else {
                matched.len() as int
            };
            assert(referenced_records(page@) =~= matched.subrange(spec_lo, spec_hi));
        }

        (page, next)
    }
}

} // verus!
