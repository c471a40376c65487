//! The store sink: draining one `(block, height)` job into the store.
//!
//! For each job the sink decodes every transaction entry of the block,
//! stamps each record with the block's normalized timestamp, and inserts it.
//! A block without transactions is skipped. A decode failure drops the rest
//! of the job — the records already inserted stay, there is no block-level
//! atomicity — and the sink goes on with the next job.

use vstd::prelude::*;

use crate::store::Store;
use crate::time::normalize_block_time;
use crate::time::normalized_time;
use crate::transaction::DecodeError;
use crate::transaction::Transaction;
use crate::transaction::TxEntry;
use crate::transaction::decode_spec;
use crate::transaction::decode_transaction;

verus! {

/// One block as the node reports it: the preceding height, an optional
/// timestamp in epoch seconds, and its transaction entries — optional,
/// since a height may legitimately carry none.
#[derive(Clone, Debug)]
pub struct Block {
    /// The height preceding this block.
    pub parent: u64,
    /// Seconds since the epoch when the block was produced, if the node
    /// reported a timestamp.
    pub block_time: Option<i64>,
    /// The block's transaction entries, in block order.
    pub transactions: Option<Vec<TxEntry>>,
}

impl Block {
    /// Every entry the block carries is within the decoder's domain.
    pub open spec fn wf(self) -> bool {
        match self.transactions {
            Some(entries) => forall|i: int|
                0 <= i < entries@.len() ==> (#[trigger] entries@[i]).wf(),
            None => true,
        }
    }
}

/// The record an entry's decode yields once the sink stamps it with the
/// block's normalized timestamp.
pub open spec fn stamped(t: Transaction, stamp: Option<i64>) -> Transaction {
    Transaction { block_time: stamp, ..t }
}

/// Decodes the entries of one block in order, stamping each record with
/// `stamp`, and stops at the first entry the decoder rejects: the records
/// of the entries before it, and the error, are returned.
#[verifier::loop_isolation(false)]
pub fn decode_block_entries(entries: Vec<TxEntry>, stamp: Option<i64>) -> (r: (
    Vec<Transaction>,
    Option<DecodeError>,
))
    requires
        forall|i: int| 0 <= i < entries@.len() ==> (#[trigger] entries@[i]).wf(),
    ensures
        r.0@.len() <= entries@.len(),
        forall|i: int|
            0 <= i < r.0@.len() ==> decode_spec(entries@[i]) is Ok && #[trigger] r.0@[i]
                == stamped(decode_spec(entries@[i])->Ok_0, stamp),
        r.1 is None ==> r.0@.len() == entries@.len(),
        r.1 matches Some(e) ==> r.0@.len() < entries@.len() && decode_spec(
            entries@[r.0@.len() as int],
        ) == Err::<Transaction, DecodeError>(e),
{
    let ghost original = entries@;
    let mut remaining = entries;
    let mut records: Vec<Transaction> = Vec::new();

    proof {
        assert(original.skip(0) =~= original);
    }
    while remaining.len() > 0
        invariant
            records@.len() + remaining@.len() == original.len(),
            remaining@ == original.skip(records@.len() as int),
            forall|i: int| 0 <= i < original.len() ==> (#[trigger] original[i]).wf(),
            forall|i: int|
                0 <= i < records@.len() ==> decode_spec(original[i]) is Ok && #[trigger] records@[i]
                    == stamped(decode_spec(original[i])->Ok_0, stamp),
        decreases remaining@.len(),
    {
        let ghost done = records@.len() as int;
        let entry = remaining.remove(0);
        proof {
            assert(entry == original[done]);
            assert(original.skip(done).remove(0) =~= original.skip(done + 1));
        }
        match decode_transaction(entry) {
            Ok(record) => {
                let mut record = record;
                record.block_time = stamp;
                proof {
                    assert(record == stamped(decode_spec(original[done])->Ok_0, stamp));
                }
                records.push(record);
            },
            Err(e) => {
                return (records, Some(e));
            },
        }
    }
    (records, None)
}

/// Drains one job: decodes the block's entries, stamps each record with the
/// block's normalized timestamp and appends it to the store, in block
/// order, stopping at the first rejected entry. Returns how many records
/// were stored and the decode error that ended the job early, if any; a
/// block without transactions stores nothing and is no error.
#[verifier::loop_isolation(false)]
pub fn process_job(store: &mut Store, block: Block) -> (r: (usize, Option<DecodeError>))
    requires
        block.wf(),
    ensures
        ({
            let stamp = normalized_time(block.block_time);
            match block.transactions {
                None => {
                    &&& final(store)@ == old(store)@
                    &&& r.0 == 0
                    &&& r.1 is None
                },
                Some(entries) => {
                    &&& r.0 <= entries@.len()
                    &&& final(store)@.len() == old(store)@.len() + r.0
                    &&& forall|k: int|
                        0 <= k < old(store)@.len()
                            ==> #[trigger] final(store)@[k] == old(store)@[k]
                    &&& forall|k: int|
                        0 <= k < r.0 ==> decode_spec(entries@[k]) is Ok
                            && #[trigger] final(store)@[old(store)@.len() + k]
                            == stamped(decode_spec(entries@[k])->Ok_0, stamp)
                    &&& r.1 is None ==> r.0 == entries@.len()
                    &&& r.1 matches Some(e) ==> r.0 < entries@.len() && decode_spec(
                        entries@[r.0 as int],
                    ) == Err::<Transaction, DecodeError>(e)
                },
            }
        }),
{
    let Block { parent: _, block_time, transactions } = block;
    let entries = match transactions {
        Some(entries) => entries,
        None => {
            return (0, None);
        },
    };

    let stamp = normalize_block_time(block_time);
    let (records, failure) = decode_block_entries(entries, stamp);

    let ghost before = store@;
    let ghost produced = records@;
    let stored: usize = records.len();

    let mut remaining = records;
    proof {
        assert(produced.skip(0) =~= produced);
        assert(produced.take(0) =~= Seq::<Transaction>::empty());
        assert(before + produced.take(0) =~= before);
    }
    while remaining.len() > 0
        invariant
            remaining@.len() <= produced.len(),
            remaining@ == produced.skip(produced.len() - remaining@.len()),
            store@ == before + produced.take(produced.len() - remaining@.len()),
        decreases remaining@.len(),
    {
        let ghost done = produced.len() - remaining@.len();
        let record = remaining.remove(0);
        proof {
            assert(record == produced[done]);
            assert(produced.skip(done).remove(0) =~= produced.skip(done + 1));
        }
        store.insert(record);
        proof {
            assert((before + produced.take(done)).push(produced[done]) =~= before + produced.take(
                done + 1,
            ));
        }
    }
    proof {
        assert(produced.take(produced.len() as int) =~= produced);
        assert(store@ == before + produced);
    }

    (stored, failure)
}

} // verus!
