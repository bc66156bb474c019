//! Snapshots, the transactions built from them, and the batches that
//! transactions are finalized into.

use crate::diff::{
    apply_diff, effective, lemma_apply_empty, lemma_apply_extended, lemma_effective_extended,
    lemma_effective_is_minimal, lookup, minimal_diff,
};
use crate::error::CatalogError;
use crate::ids::IdType;
use crate::model::{
    counted, counter_outcome, expired_usage, id_range, in_collection, lists, pruned,
    timestamp_key, vec_matches,
};
use crate::objects::{Change, CollectionKind, Entry, Key, Row};
use crate::table::{as_map, distinct_keys, lemma_take_step, selected, Table};
use vstd::prelude::*;

verus! {

/// The ids `first, first + 1, ...`, `amount` of them.
pub fn ids_from(first: u64, amount: u64) -> (ids: Vec<u64>)
    requires
        first + amount <= u64::MAX,
    ensures
        ids@ == id_range(first, amount),
{
    let mut ids: Vec<u64> = Vec::new();
    let mut i: u64 = 0;
    while i < amount
        invariant
            i <= amount,
            first + amount <= u64::MAX,
            ids@.len() == i,
            forall|j: int| 0 <= j < i ==> ids@[j] == first + j,
        decreases amount - i,
    {
        ids.push(first + i);
        i = i + 1;
    }
    assert(ids@ =~= id_range(first, amount));
    ids
}

/// A full read of every collection at one point in time. Its view is the map
/// from each key to its value.
pub struct Snapshot {
    table: Table<u64>,
}

impl View for Snapshot {
    type V = Map<Key, u64>;

    closed spec fn view(&self) -> Map<Key, u64> {
        self.table@
    }
}

impl Snapshot {
    /// The snapshot's invariant.
    pub closed spec fn wf(&self) -> bool {
        self.table.wf()
    }

    pub(crate) fn from_table(table: Table<u64>) -> (snapshot: Snapshot)
        ensures
            snapshot@ == table@,
            snapshot.wf() == table.wf(),
    {
        Snapshot { table }
    }

    pub(crate) fn into_table(self) -> (table: Table<u64>)
        ensures
            table@ == self@,
            table.wf() == self.wf(),
    {
        self.table
    }

    /// The value stored under `key`, if there is one.
    pub fn get(&self, key: Key) -> (value: Option<u64>)
        requires
            self.wf(),
        ensures
            value == lookup(self@, key),
    {
        self.table.get(key)
    }

    /// The records of one collection.
    pub fn collection(&self, kind: CollectionKind) -> (rows: Vec<Entry>)
        requires
            self.wf(),
        ensures
            lists(rows@, self@, kind),
    {
        let rows = self.table.select(kind, 0, u64::MAX);
        assert(self@.restrict(selected(self@, kind, 0, u64::MAX)) =~= self@.restrict(
            in_collection(kind),
        ));
        rows
    }

    /// Whether the two snapshots hold the same records.
    pub fn same_contents(&self, other: &Snapshot) -> (same: bool)
        requires
            self.wf(),
            other.wf(),
        ensures
            same == (self@ == other@),
    {
        self.table.same_as(&other.table)
    }
}

/// The diff that a transaction was finalized into. It names each key at most
/// once, with the value that the key gets, or `None` where the key goes; its
/// view is that map. It holds no reference to the snapshot it came from.
pub struct TransactionBatch {
    changes: Table<Option<u64>>,
}

impl View for TransactionBatch {
    type V = Map<Key, Option<u64>>;

    closed spec fn view(&self) -> Map<Key, Option<u64>> {
        self.changes@
    }
}

impl TransactionBatch {
    /// The batch's invariant.
    pub closed spec fn wf(&self) -> bool {
        self.changes.wf()
    }

    /// The batch that changes nothing.
    pub fn new() -> (batch: TransactionBatch)
        ensures
            batch.wf(),
            batch@ == Map::<Key, Option<u64>>::empty(),
    {
        TransactionBatch { changes: Table::new() }
    }

    /// The lines of the batch, in the order in which they are carried out.
    pub closed spec fn lines(&self) -> Seq<Change> {
        self.changes.rows()
    }

    pub(crate) fn changes(&self) -> (changes: &Table<Option<u64>>)
        ensures
            changes.rows() == self.lines(),
            changes@ == self@,
            changes.wf() == self.wf(),
    {
        &self.changes
    }

    /// A batch of the one change that stores `value` under `key`.
    pub(crate) fn single(key: Key, value: u64) -> (batch: TransactionBatch)
        ensures
            batch.wf(),
            batch@ == Map::<Key, Option<u64>>::empty().insert(key, Some(value)),
    {
        let mut changes: Table<Option<u64>> = Table::new();
        changes.set(key, Some(value));
        TransactionBatch { changes }
    }

    /// What the batch does to `key`: `None` where it leaves the key alone.
    pub fn get(&self, key: Key) -> (change: Option<Option<u64>>)
        requires
            self.wf(),
        ensures
            change == lookup(self@, key),
    {
        self.changes.get(key)
    }

    /// Whether the batch changes nothing.
    pub fn is_empty(&self) -> (empty: bool)
        requires
            self.wf(),
        ensures
            empty == (self@ == Map::<Key, Option<u64>>::empty()),
    {
        if self.changes.len() == 0 {
            assert(self@ =~= Map::<Key, Option<u64>>::empty());
            true
        } else {
            let row = self.changes.row(0);
            assert(self@.contains_key(row.key));
            false
        }
    }

    /// A copy of the batch.
    pub fn duplicate(&self) -> (copy: TransactionBatch)
        ensures
            copy@ == self@,
            copy.wf() == self.wf(),
    {
        TransactionBatch { changes: self.changes.duplicate() }
    }
}

/// A staged set of changes over a snapshot. Its view is the working copy: the
/// snapshot with the changes made so far. Nothing is durable before the
/// transaction is finalized and the batch committed.
pub struct Transaction {
    base: Table<u64>,
    pending: Table<Option<u64>>,
}

impl View for Transaction {
    type V = Map<Key, u64>;

    closed spec fn view(&self) -> Map<Key, u64> {
        apply_diff(self.base@, self.pending@)
    }
}

impl Transaction {
    /// The transaction's invariant.
    pub closed spec fn wf(&self) -> bool {
        self.base.wf() && self.pending.wf()
    }

    /// The snapshot that the transaction started from.
    pub closed spec fn base(&self) -> Map<Key, u64> {
        self.base@
    }

    /// Whether the records of a collection change only through the operation
    /// that is made for them: the id counters do.
    pub open spec fn reserved(kind: CollectionKind) -> bool {
        kind == CollectionKind::IdAllocator
    }

    /// A transaction over `snapshot`, with no change made yet.
    pub fn new(snapshot: Snapshot) -> (txn: Transaction)
        requires
            snapshot.wf(),
        ensures
            txn.wf(),
            txn@ == snapshot@,
            txn.base() == snapshot@,
    {
        let base = snapshot.into_table();
        proof {
            lemma_apply_empty(base@);
        }
        Transaction { base, pending: Table::new() }
    }

    /// The value of `key` in the working copy, if there is one.
    pub fn get(&self, key: Key) -> (value: Option<u64>)
        requires
            self.wf(),
        ensures
            value == lookup(self@, key),
    {
        match self.pending.get(key) {
            Some(change) => change,
            None => self.base.get(key),
        }
    }

    pub(crate) fn put(&mut self, key: Key, value: u64)
        requires
            old(self).wf(),
        ensures
            final(self).wf(),
            final(self).base() == old(self).base(),
            final(self)@ == old(self)@.insert(key, value),
    {
        proof {
            lemma_apply_extended(self.base@, self.pending@, Row { key, value: Some(value) });
        }
        self.pending.set(key, Some(value));
    }

    pub(crate) fn discard(&mut self, key: Key)
        requires
            old(self).wf(),
        ensures
            final(self).wf(),
            final(self).base() == old(self).base(),
            final(self)@ == old(self)@.remove(key),
    {
        proof {
            lemma_apply_extended(self.base@, self.pending@, Row { key, value: None::<u64> });
        }
        self.pending.set(key, None);
    }

    /// Adds a record under a key that holds none. Returns whether it did: not
    /// where the key is taken, and not in a reserved collection.
    pub fn insert(&mut self, key: Key, value: u64) -> (inserted: bool)
        requires
            old(self).wf(),
        ensures
            final(self).wf(),
            final(self).base() == old(self).base(),
            inserted == (!Self::reserved(key.collection) && !old(self)@.contains_key(key)),
            final(self)@ == (if inserted {
                old(self)@.insert(key, value)
            } else {
                old(self)@
            }),
    {
        if key.collection == CollectionKind::IdAllocator {
            return false;
        }
        match self.get(key) {
            Some(_) => false,
            None => {
                self.put(key, value);
                true
            },
        }
    }

    /// Replaces the record under a key that holds one. Returns whether it did:
    /// not where the key holds nothing, and not in a reserved collection.
    pub fn update(&mut self, key: Key, value: u64) -> (updated: bool)
        requires
            old(self).wf(),
        ensures
            final(self).wf(),
            final(self).base() == old(self).base(),
            updated == (!Self::reserved(key.collection) && old(self)@.contains_key(key)),
            final(self)@ == (if updated {
                old(self)@.insert(key, value)
            } else {
                old(self)@
            }),
    {
        if key.collection == CollectionKind::IdAllocator {
            return false;
        }
        match self.get(key) {
            Some(_) => {
                self.put(key, value);
                true
            },
            None => false,
        }
    }

    /// Takes the record under `key` out and returns its value. Records of a
    /// reserved collection stay.
    pub fn delete(&mut self, key: Key) -> (deleted: Option<u64>)
        requires
            old(self).wf(),
        ensures
            final(self).wf(),
            final(self).base() == old(self).base(),
            deleted == (if Self::reserved(key.collection) {
                None
            } else {
                lookup(old(self)@, key)
            }),
            final(self)@ == (if Self::reserved(key.collection) {
                old(self)@
            } else {
                old(self)@.remove(key)
            }),
    {
        if key.collection == CollectionKind::IdAllocator {
            return None;
        }
        let deleted = self.get(key);
        self.discard(key);
        deleted
    }

    /// Sets the timestamp of a timeline.
    pub fn set_timestamp(&mut self, timeline: u64, timestamp: u64)
        requires
            old(self).wf(),
        ensures
            final(self).wf(),
            final(self).base() == old(self).base(),
            final(self)@ == old(self)@.insert(timestamp_key(timeline), timestamp),
    {
        self.put(Key { collection: CollectionKind::Timestamp, id: timeline }, timestamp);
    }

    /// Takes `amount` ids from the counter `id_type` and moves its watermark
    /// past them. Fails, with nothing changed, where there is no such counter
    /// or the counter would overflow.
    pub fn get_and_increment_id_by(&mut self, id_type: &str, amount: u64) -> (ids: Result<
        Vec<u64>,
        CatalogError,
    >)
        requires
            old(self).wf(),
        ensures
            final(self).wf(),
            final(self).base() == old(self).base(),
            vec_matches(ids, counter_outcome(old(self)@, id_type@, amount)),
            final(self)@ == (if ids is Ok {
                counted(old(self)@, id_type@, amount)
            } else {
                old(self)@
            }),
    {
        let counter = match IdType::from_key(id_type) {
            Some(counter) => counter,
            None => {
                return Err(CatalogError::UnknownIdType);
            },
        };
        let key = counter.allocator_key();
        let first = match self.get(key) {
            Some(first) => first,
            None => {
                return Err(CatalogError::UnknownIdType);
            },
        };
        if amount > u64::MAX - first {
            return Err(CatalogError::IdExhaustion);
        }
        self.put(key, first + amount);
        Ok(ids_from(first, amount))
    }

    /// The working copy as a table of its own.
    fn working(&self) -> (table: Table<u64>)
        requires
            self.wf(),
        ensures
            table.wf(),
            table@ == self@,
    {
        let mut table = self.base.duplicate();
        table.apply(&self.pending);
        table
    }

    /// Whether the working copies of the two transactions hold the same
    /// records.
    pub fn same_contents(&self, other: &Transaction) -> (same: bool)
        requires
            self.wf(),
            other.wf(),
        ensures
            same == (self@ == other@),
    {
        self.working().same_as(&other.working())
    }

    /// Takes out the storage usage events that happened before `cutoff` and
    /// returns those that stay.
    pub fn prune_storage_usage(&mut self, cutoff: u64) -> (retained: Vec<Entry>)
        requires
            old(self).wf(),
        ensures
            final(self).wf(),
            final(self).base() == old(self).base(),
            final(self)@ == pruned(old(self)@, cutoff),
            lists(retained@, final(self)@, CollectionKind::StorageUsage),
    {
        let kind = CollectionKind::StorageUsage;
        let working = self.working();
        let retained = working.select(kind, cutoff, u64::MAX);
        let expired = if cutoff > 0 {
            working.select(kind, 0, cutoff - 1)
        } else {
            let none: Vec<Entry> = Vec::new();
            assert(as_map(none@) =~= working@.restrict(selected(working@, kind, 0, 0)).restrict(
                Set::empty(),
            ));
            none
        };
        assert(as_map(expired@).dom() =~= expired_usage(old(self)@, cutoff));
        let mut i: usize = 0;
        assert(self@.remove_keys(as_map(expired@.take(0)).dom()) =~= self@);
        while i < expired.len()
            invariant
                i <= expired@.len(),
                self.wf(),
                self.base() == old(self).base(),
                distinct_keys(expired@),
                self@ == old(self)@.remove_keys(as_map(expired@.take(i as int)).dom()),
            decreases expired@.len() - i,
        {
            proof {
                lemma_take_step(expired@, i as int);
            }
            self.discard(expired[i].key);
            assert(self@ =~= old(self)@.remove_keys(as_map(expired@.take(i + 1)).dom()));
            i = i + 1;
        }
        assert(expired@.take(i as int) =~= expired@);
        assert(as_map(retained@) =~= pruned(old(self)@, cutoff).restrict(in_collection(kind)));
        retained
    }

    /// Finalizes the transaction into the smallest diff that leads from its
    /// snapshot to its working copy.
    pub fn into_batch(self) -> (batch: TransactionBatch)
        requires
            self.wf(),
        ensures
            batch.wf(),
            batch@ == minimal_diff(self.base(), self@),
    {
        let mut changes: Table<Option<u64>> = Table::new();
        let mut i: usize = 0;
        assert(changes@ =~= effective(self.base@, as_map(self.pending.rows().take(0))));
        while i < self.pending.len()
            invariant
                i <= self.pending.rows().len(),
                self.wf(),
                changes.wf(),
                changes@ == effective(self.base@, as_map(self.pending.rows().take(i as int))),
            decreases self.pending.rows().len() - i,
        {
            let row = self.pending.row(i);
            let before = self.base.get(row.key);
            proof {
                lemma_take_step(self.pending.rows(), i as int);
                lemma_effective_extended(
                    self.base@,
                    as_map(self.pending.rows().take(i as int)),
                    row,
                );
            }
            let changed = match (row.value, before) {
                (Some(a), Some(b)) => a != b,
                (None, None) => false,
                _ => true,
            };
            if changed {
                changes.set(row.key, row.value);
            }
            i = i + 1;
        }
        proof {
            assert(self.pending.rows().take(i as int) =~= self.pending.rows());
            lemma_effective_is_minimal(self.base@, self.pending@);
        }
        TransactionBatch { changes }
    }
}

} // verus!
