//! Keyed rows held in a vector, and the map that they stand for.

use crate::objects::{CollectionKind, Entry, Key, Row};
use vstd::prelude::*;

verus! {

/// Whether some row of `rows` is stored under `key`.
pub open spec fn has_key<V>(rows: Seq<Row<V>>, key: Key) -> bool {
    exists|i: int| 0 <= i < rows.len() && (#[trigger] rows[i]).key == key
}

/// No two rows share a key.
pub open spec fn distinct_keys<V>(rows: Seq<Row<V>>) -> bool {
    forall|i: int, j: int|
        0 <= i < j < rows.len() ==> (#[trigger] rows[i]).key != (#[trigger] rows[j]).key
}

/// The index of a row stored under `key`, where there is one.
pub open spec fn position<V>(rows: Seq<Row<V>>, key: Key) -> int {
    choose|i: int| 0 <= i < rows.len() && (#[trigger] rows[i]).key == key
}

/// The map that a sequence of rows with distinct keys stands for.
pub open spec fn as_map<V>(rows: Seq<Row<V>>) -> Map<Key, V> {
    Map::new(|k: Key| has_key(rows, k), |k: Key| rows[position(rows, k)].value)
}

/// A row of a sequence with distinct keys is an entry of its map.
pub proof fn lemma_row_in_map<V>(rows: Seq<Row<V>>, i: int)
    requires
        distinct_keys(rows),
        0 <= i < rows.len(),
    ensures
        has_key(rows, rows[i].key),
        position(rows, rows[i].key) == i,
        as_map(rows).contains_key(rows[i].key),
        as_map(rows)[rows[i].key] == rows[i].value,
{
    let key = rows[i].key;
    assert(has_key(rows, key));
    let p = position(rows, key);
    assert(0 <= p < rows.len() && rows[p].key == key);
    if p < i {
        assert(rows[p].key != rows[i].key);
    } else if i < p {
        assert(rows[i].key != rows[p].key);
    }
}

/// Appending a row under a fresh key adds that entry to the map.
pub proof fn lemma_push<V>(rows: Seq<Row<V>>, row: Row<V>)
    requires
        distinct_keys(rows),
        !has_key(rows, row.key),
    ensures
        distinct_keys(rows.push(row)),
        as_map(rows.push(row)) == as_map(rows).insert(row.key, row.value),
{
    let next = rows.push(row);
    assert forall|i: int, j: int| 0 <= i < j < next.len() implies (#[trigger] next[i]).key != (
    #[trigger] next[j]).key by {
        if j < rows.len() {
            assert(rows[i].key != rows[j].key);
        } else {
            assert(rows[i].key != row.key);
        }
    }
    assert forall|k: Key| has_key(next, k) <==> (k == row.key || has_key(rows, k)) by {
        if has_key(next, k) {
            let i = position(next, k);
            if i < rows.len() {
                assert(rows[i].key == k);
            }
        }
        if k == row.key {
            assert(next[rows.len() as int].key == k);
        }
        if has_key(rows, k) {
            let i = position(rows, k);
            assert(next[i].key == k);
        }
    }
    assert forall|k: Key| has_key(next, k) implies #[trigger] as_map(next)[k] == as_map(
        rows,
    ).insert(row.key, row.value)[k] by {
        let i = position(next, k);
        lemma_row_in_map(next, i);
        if i < rows.len() {
            lemma_row_in_map(rows, i);
        }
    }
    assert(as_map(next) =~= as_map(rows).insert(row.key, row.value));
}

/// Replacing the value of a row replaces the value of its entry.
pub proof fn lemma_update<V>(rows: Seq<Row<V>>, i: int, value: V)
    requires
        distinct_keys(rows),
        0 <= i < rows.len(),
    ensures
        distinct_keys(rows.update(i, Row { key: rows[i].key, value })),
        as_map(rows.update(i, Row { key: rows[i].key, value })) == as_map(rows).insert(
            rows[i].key,
            value,
        ),
{
    let key = rows[i].key;
    let next = rows.update(i, Row { key, value });
    assert forall|a: int, b: int| 0 <= a < b < next.len() implies (#[trigger] next[a]).key != (
    #[trigger] next[b]).key by {
        assert(rows[a].key != rows[b].key);
    }
    assert forall|k: Key| has_key(next, k) <==> has_key(rows, k) by {
        if has_key(next, k) {
            let p = position(next, k);
            assert(rows[p].key == k);
        }
        if has_key(rows, k) {
            let p = position(rows, k);
            assert(next[p].key == k);
        }
    }
    assert(has_key(rows, key)) by {
        lemma_row_in_map(rows, i);
    }
    assert forall|k: Key| has_key(next, k) implies #[trigger] as_map(next)[k] == as_map(
        rows,
    ).insert(key, value)[k] by {
        let p = position(next, k);
        lemma_row_in_map(next, p);
        if p != i {
            lemma_row_in_map(rows, p);
        }
    }
    assert(as_map(next) =~= as_map(rows).insert(key, value));
}

/// Taking a row out takes its entry out of the map.
pub proof fn lemma_remove<V>(rows: Seq<Row<V>>, i: int)
    requires
        distinct_keys(rows),
        0 <= i < rows.len(),
    ensures
        distinct_keys(rows.remove(i)),
        as_map(rows.remove(i)) == as_map(rows).remove(rows[i].key),
{
    let key = rows[i].key;
    let next = rows.remove(i);
    assert forall|a: int, b: int| 0 <= a < b < next.len() implies (#[trigger] next[a]).key != (
    #[trigger] next[b]).key by {
        let a0 = if a < i { a } else { a + 1 };
        let b0 = if b < i { b } else { b + 1 };
        assert(rows[a0].key != rows[b0].key);
    }
    assert forall|k: Key| has_key(next, k) <==> (k != key && has_key(rows, k)) by {
        if has_key(next, k) {
            let p = position(next, k);
            let p0 = if p < i { p } else { p + 1 };
            assert(rows[p0].key == k);
            if p0 < i {
                assert(rows[p0].key != rows[i].key);
            } else {
                assert(rows[i].key != rows[p0].key);
            }
        }
        if k != key && has_key(rows, k) {
            let p = position(rows, k);
            let q = if p < i { p } else { p - 1 };
            assert(next[q].key == k);
        }
    }
    assert forall|k: Key| has_key(next, k) implies #[trigger] as_map(next)[k] == as_map(
        rows,
    ).remove(key)[k] by {
        let p = position(next, k);
        lemma_row_in_map(next, p);
        let p0 = if p < i { p } else { p + 1 };
        lemma_row_in_map(rows, p0);
    }
    assert(as_map(next) =~= as_map(rows).remove(key));
}

/// Putting a row under a fresh key anywhere among the rows adds that entry to
/// the map.
pub proof fn lemma_insert<V>(rows: Seq<Row<V>>, at: int, row: Row<V>)
    requires
        distinct_keys(rows),
        !has_key(rows, row.key),
        0 <= at <= rows.len(),
    ensures
        distinct_keys(rows.insert(at, row)),
        as_map(rows.insert(at, row)) == as_map(rows).insert(row.key, row.value),
{
    let next = rows.insert(at, row);
    assert forall|i: int, j: int| 0 <= i < j < next.len() implies (#[trigger] next[i]).key != (
    #[trigger] next[j]).key by {
        let i0 = if i < at { i } else { i - 1 };
        let j0 = if j < at { j } else { j - 1 };
        if i == at {
            assert(rows[j0].key != row.key);
        } else if j == at {
            assert(rows[i0].key != row.key);
        } else {
            assert(rows[i0].key != rows[j0].key);
        }
    }
    assert forall|k: Key| has_key(next, k) <==> (k == row.key || has_key(rows, k)) by {
        if has_key(next, k) {
            let i = position(next, k);
            if i != at {
                let i0 = if i < at { i } else { i - 1 };
                assert(rows[i0].key == k);
            }
        }
        if k == row.key {
            assert(next[at].key == k);
        }
        if has_key(rows, k) {
            let i = position(rows, k);
            let i1 = if i < at { i } else { i + 1 };
            assert(next[i1].key == k);
        }
    }
    assert forall|k: Key| has_key(next, k) implies #[trigger] as_map(next)[k] == as_map(
        rows,
    ).insert(row.key, row.value)[k] by {
        let i = position(next, k);
        lemma_row_in_map(next, i);
        if i != at {
            let i0 = if i < at { i } else { i - 1 };
            lemma_row_in_map(rows, i0);
        }
    }
    assert(as_map(next) =~= as_map(rows).insert(row.key, row.value));
}

/// The rows come in ascending order of their ids.
pub open spec fn ascending<V>(rows: Seq<Row<V>>) -> bool {
    forall|i: int, j: int|
        0 <= i < j < rows.len() ==> (#[trigger] rows[i]).key.id < (#[trigger] rows[j]).key.id
}

/// Rows of one collection that ascend by id are determined by the map they
/// stand for: two such sequences for the same map are the same sequence.
pub proof fn lemma_ascending_rows_are_unique<V>(
    a: Seq<Row<V>>,
    b: Seq<Row<V>>,
    kind: CollectionKind,
)
    requires
        distinct_keys(a),
        distinct_keys(b),
        ascending(a),
        ascending(b),
        forall|i: int| 0 <= i < a.len() ==> (#[trigger] a[i]).key.collection == kind,
        forall|i: int| 0 <= i < b.len() ==> (#[trigger] b[i]).key.collection == kind,
        as_map(a) == as_map(b),
    ensures
        a == b,
    decreases a.len(),
{
    if a.len() == 0 {
        if b.len() > 0 {
            lemma_row_in_map(b, 0);
            assert(has_key(a, b[0].key));
        }
        assert(a =~= b);
    } else {
        let last_a = a.len() - 1;
        lemma_row_in_map(a, last_a);
        assert(has_key(b, a[last_a].key));
        let last_b = b.len() - 1;
        lemma_row_in_map(b, last_b);
        assert(has_key(a, b[last_b].key));
        let in_b = position(b, a[last_a].key);
        let in_a = position(a, b[last_b].key);
        assert(a[last_a].key.id <= b[last_b].key.id) by {
            if in_b < last_b {
                assert(b[in_b].key.id < b[last_b].key.id);
            }
        }
        assert(b[last_b].key.id <= a[last_a].key.id) by {
            if in_a < last_a {
                assert(a[in_a].key.id < a[last_a].key.id);
            }
        }
        assert(a[last_a].key == b[last_b].key);
        assert(a[last_a] == b[last_b]);
        lemma_remove(a, last_a);
        lemma_remove(b, last_b);
        assert(a.remove(last_a) =~= a.drop_last());
        assert(b.remove(last_b) =~= b.drop_last());
        assert(ascending(a.drop_last())) by {
            assert forall|i: int, j: int| 0 <= i < j < a.drop_last().len() implies (
            #[trigger] a.drop_last()[i]).key.id < (#[trigger] a.drop_last()[j]).key.id by {
                assert(a[i].key.id < a[j].key.id);
            }
        }
        assert(ascending(b.drop_last())) by {
            assert forall|i: int, j: int| 0 <= i < j < b.drop_last().len() implies (
            #[trigger] b.drop_last()[i]).key.id < (#[trigger] b.drop_last()[j]).key.id by {
                assert(b[i].key.id < b[j].key.id);
            }
        }
        assert forall|i: int| 0 <= i < a.drop_last().len() implies (
        #[trigger] a.drop_last()[i]).key.collection == kind by {
            assert(a[i].key.collection == kind);
        }
        assert forall|i: int| 0 <= i < b.drop_last().len() implies (
        #[trigger] b.drop_last()[i]).key.collection == kind by {
            assert(b[i].key.collection == kind);
        }
        lemma_ascending_rows_are_unique(a.drop_last(), b.drop_last(), kind);
        assert(a =~= a.drop_last().push(a[last_a]));
        assert(b =~= b.drop_last().push(b[last_b]));
    }
}

/// The step from the first `i` rows to the first `i + 1`: the row at `i` comes
/// under a fresh key.
pub proof fn lemma_take_step<V>(rows: Seq<Row<V>>, i: int)
    requires
        distinct_keys(rows),
        0 <= i < rows.len(),
    ensures
        distinct_keys(rows.take(i)),
        !has_key(rows.take(i), rows[i].key),
        rows.take(i).push(rows[i]) == rows.take(i + 1),
        distinct_keys(rows.take(i + 1)),
        as_map(rows.take(i + 1)) == as_map(rows.take(i)).insert(rows[i].key, rows[i].value),
{
    let done = rows.take(i);
    assert forall|a: int, b: int| 0 <= a < b < done.len() implies (#[trigger] done[a]).key != (
    #[trigger] done[b]).key by {
        assert(rows[a].key != rows[b].key);
    }
    if has_key(done, rows[i].key) {
        let j = position(done, rows[i].key);
        assert(rows[j].key == done[j].key);
        assert(rows[j].key != rows[i].key);
    }
    assert(done.push(rows[i]) =~= rows.take(i + 1));
    lemma_push(done, rows[i]);
}

/// The keys of the collection `kind` whose value in `contents` lies between
/// `low` and `high`, both included.
pub open spec fn selected(contents: Map<Key, u64>, kind: CollectionKind, low: u64, high: u64) -> Set<
    Key,
> {
    Set::new(
        |k: Key| k.collection == kind && contents.contains_key(k) && low <= contents[k] <= high,
    )
}

/// A table: rows under distinct keys. Its view is the map from each key to its
/// value.
pub struct Table<V: Copy> {
    rows: Vec<Row<V>>,
}

impl<V: Copy> View for Table<V> {
    type V = Map<Key, V>;

    open spec fn view(&self) -> Map<Key, V> {
        as_map(self.rows())
    }
}

impl<V: Copy> Table<V> {
    /// The rows in the order in which the table holds them.
    pub closed spec fn rows(&self) -> Seq<Row<V>> {
        self.rows@
    }

    /// The table's invariant: no two rows share a key.
    pub open spec fn wf(&self) -> bool {
        distinct_keys(self.rows())
    }

    /// The empty table.
    pub fn new() -> (table: Table<V>)
        ensures
            table.wf(),
            table.rows() == Seq::<Row<V>>::empty(),
            table@ == Map::<Key, V>::empty(),
    {
        let table = Table { rows: Vec::new() };
        assert(table@ =~= Map::<Key, V>::empty());
        table
    }

    /// The number of rows.
    pub fn len(&self) -> (n: usize)
        ensures
            n == self.rows().len(),
    {
        self.rows.len()
    }

    /// The row at index `i`.
    pub fn row(&self, i: usize) -> (row: Row<V>)
        requires
            self.wf(),
            i < self.rows().len(),
        ensures
            row == self.rows()[i as int],
            self@.contains_key(row.key),
            self@[row.key] == row.value,
    {
        proof {
            lemma_row_in_map(self.rows@, i as int);
        }
        self.rows[i]
    }

    fn find(&self, key: Key) -> (found: Option<usize>)
        ensures
            match found {
                Some(i) => i < self.rows().len() && self.rows()[i as int].key == key,
                None => !has_key(self.rows(), key),
            },
    {
        let mut i: usize = 0;
        while i < self.rows.len()
            invariant
                i <= self.rows@.len(),
                forall|j: int| 0 <= j < i ==> (#[trigger] self.rows@[j]).key != key,
            decreases self.rows@.len() - i,
        {
            if self.rows[i].key == key {
                return Some(i);
            }
            i = i + 1;
        }
        None
    }

    /// The value stored under `key`, if there is one.
    pub fn get(&self, key: Key) -> (value: Option<V>)
        requires
            self.wf(),
        ensures
            value == (if self@.contains_key(key) {
                Some(self@[key])
            } else {
                None
            }),
    {
        match self.find(key) {
            Some(i) => {
                proof {
                    lemma_row_in_map(self.rows@, i as int);
                }
                Some(self.rows[i].value)
            },
            None => None,
        }
    }

    /// Stores `value` under `key` and returns what was there before.
    pub fn set(&mut self, key: Key, value: V) -> (previous: Option<V>)
        requires
            old(self).wf(),
        ensures
            final(self).wf(),
            final(self)@ == old(self)@.insert(key, value),
            previous == (if old(self)@.contains_key(key) {
                Some(old(self)@[key])
            } else {
                None
            }),
    {
        match self.find(key) {
            Some(i) => {
                let previous = self.rows[i].value;
                proof {
                    lemma_row_in_map(self.rows@, i as int);
                    lemma_update(self.rows@, i as int, value);
                }
                self.rows.set(i, Row { key, value });
                Some(previous)
            },
            None => {
                proof {
                    lemma_push(self.rows@, Row { key, value });
                }
                self.rows.push(Row { key, value });
                None
            },
        }
    }

    /// Takes `key` out and returns what was stored under it.
    pub fn remove(&mut self, key: Key) -> (previous: Option<V>)
        requires
            old(self).wf(),
        ensures
            final(self).wf(),
            final(self)@ == old(self)@.remove(key),
            previous == (if old(self)@.contains_key(key) {
                Some(old(self)@[key])
            } else {
                None
            }),
    {
        match self.find(key) {
            Some(i) => {
                proof {
                    lemma_row_in_map(self.rows@, i as int);
                    lemma_remove(self.rows@, i as int);
                }
                let row = self.rows.remove(i);
                Some(row.value)
            },
            None => {
                assert(old(self)@.remove(key) =~= old(self)@);
                None
            },
        }
    }

    /// The table of the given rows.
    pub fn from_rows(rows: &Vec<Row<V>>) -> (table: Table<V>)
        requires
            distinct_keys(rows@),
        ensures
            table.wf(),
            table.rows() == rows@,
    {
        let mut copy: Vec<Row<V>> = Vec::new();
        let mut i: usize = 0;
        while i < rows.len()
            invariant
                i <= rows@.len(),
                copy@ == rows@.take(i as int),
            decreases rows@.len() - i,
        {
            copy.push(rows[i]);
            assert(rows@.take(i as int).push(rows@[i as int]) =~= rows@.take(i + 1));
            i = i + 1;
        }
        assert(rows@.take(i as int) =~= rows@);
        Table { rows: copy }
    }

    /// A copy of the table, row for row.
    pub fn duplicate(&self) -> (copy: Table<V>)
        ensures
            copy.rows() == self.rows(),
            copy@ == self@,
            copy.wf() == self.wf(),
    {
        let mut rows: Vec<Row<V>> = Vec::new();
        let mut i: usize = 0;
        while i < self.rows.len()
            invariant
                i <= self.rows@.len(),
                rows@ == self.rows@.take(i as int),
            decreases self.rows@.len() - i,
        {
            rows.push(self.rows[i]);
            assert(self.rows@.take(i as int).push(self.rows@[i as int]) =~= self.rows@.take(
                i + 1,
            ));
            i = i + 1;
        }
        assert(self.rows@.take(i as int) =~= self.rows@);
        Table { rows }
    }
}

impl Table<u64> {
    /// The rows of the collection `kind` whose value lies between `low` and
    /// `high`, both included, in ascending order of their ids.
    pub fn select(&self, kind: CollectionKind, low: u64, high: u64) -> (rows: Vec<Entry>)
        requires
            self.wf(),
        ensures
            distinct_keys(rows@),
            ascending(rows@),
            as_map(rows@) == self@.restrict(selected(self@, kind, low, high)),
    {
        let mut rows: Vec<Entry> = Vec::new();
        let mut i: usize = 0;
        assert(as_map(rows@) =~= as_map(self.rows@.take(0)).restrict(
            selected(self@, kind, low, high),
        ));
        while i < self.rows.len()
            invariant
                i <= self.rows@.len(),
                self.wf(),
                distinct_keys(rows@),
                ascending(rows@),
                forall|j: int| 0 <= j < rows@.len() ==> (#[trigger] rows@[j]).key.collection == kind,
                as_map(rows@) == as_map(self.rows@.take(i as int)).restrict(
                    selected(self@, kind, low, high),
                ),
            decreases self.rows@.len() - i,
        {
            let row = self.rows[i];
            proof {
                lemma_take_step(self.rows@, i as int);
                lemma_row_in_map(self.rows@, i as int);
            }
            if row.key.collection == kind && low <= row.value && row.value <= high {
                proof {
                    assert(!has_key(rows@, row.key)) by {
                        if has_key(rows@, row.key) {
                            assert(as_map(rows@).contains_key(row.key));
                            assert(as_map(self.rows@.take(i as int)).contains_key(row.key));
                        }
                    }
                }
                let mut at: usize = 0;
                while at < rows.len() && rows[at].key.id < row.key.id
                    invariant
                        at <= rows@.len(),
                        forall|j: int| 0 <= j < at ==> (#[trigger] rows@[j]).key.id < row.key.id,
                    decreases rows@.len() - at,
                {
                    at = at + 1;
                }
                proof {
                    let before = rows@;
                    lemma_insert(before, at as int, row);
                    let next = before.insert(at as int, row);
                    assert forall|a: int, b: int| 0 <= a < b < next.len() implies (
                    #[trigger] next[a]).key.id < (#[trigger] next[b]).key.id by {
                        let a0 = if a < at { a } else { a - 1 };
                        let b0 = if b < at { b } else { b - 1 };
                        if a == at {
                            assert(before[at as int].key.id >= row.key.id);
                            assert(before[at as int].key != row.key);
                            if b0 > at {
                                assert(before[at as int].key.id < before[b0].key.id);
                            }
                        } else if b == at {
                            assert(before[a0].key.id < row.key.id);
                        } else {
                            assert(before[a0].key.id < before[b0].key.id);
                        }
                    }
                }
                rows.insert(at, row);
            }
            assert(as_map(rows@) =~= as_map(self.rows@.take(i + 1)).restrict(
                selected(self@, kind, low, high),
            ));
            i = i + 1;
        }
        assert(self.rows@.take(i as int) =~= self.rows@);
        rows
    }
    /// Whether every record of this table is a record of `other`.
    fn within(&self, other: &Table<u64>) -> (within: bool)
        requires
            self.wf(),
            other.wf(),
        ensures
            within == (forall|k: Key| #[trigger]
                self@.contains_key(k) ==> other@.contains_key(k) && other@[k] == self@[k]),
    {
        let mut i: usize = 0;
        while i < self.rows.len()
            invariant
                i <= self.rows@.len(),
                self.wf(),
                other.wf(),
                forall|j: int|
                    0 <= j < i ==> other@.contains_key((#[trigger] self.rows@[j]).key)
                        && other@[self.rows@[j].key] == self.rows@[j].value,
            decreases self.rows@.len() - i,
        {
            let row = self.rows[i];
            proof {
                lemma_row_in_map(self.rows@, i as int);
            }
            assert(self@.contains_key(row.key) && self@[row.key] == row.value);
            match other.get(row.key) {
                Some(value) => {
                    if value != row.value {
                        return false;
                    }
                },
                None => {
                    return false;
                },
            }
            i = i + 1;
        }
        assert forall|k: Key| #[trigger] self@.contains_key(k) implies other@.contains_key(k)
            && other@[k] == self@[k] by {
            let j = position(self.rows@, k);
            lemma_row_in_map(self.rows@, j);
        }
        true
    }

    /// Whether the two tables hold the same records.
    pub fn same_as(&self, other: &Table<u64>) -> (same: bool)
        requires
            self.wf(),
            other.wf(),
        ensures
            same == (self@ == other@),
    {
        let same = self.within(other) && other.within(self);
        if same {
            assert(self@ =~= other@);
        }
        same
    }
}

/// Whether two listings hold the same records, in whatever order.
pub fn same_rows(a: &Vec<Entry>, b: &Vec<Entry>) -> (same: bool)
    requires
        distinct_keys(a@),
        distinct_keys(b@),
    ensures
        same == (as_map(a@) == as_map(b@)),
{
    Table::from_rows(a).same_as(&Table::from_rows(b))
}

/// Whether two vectors of ids hold the same ids in the same order.
pub fn same_ids(a: &Vec<u64>, b: &Vec<u64>) -> (same: bool)
    ensures
        same == (a@ == b@),
{
    if a.len() != b.len() {
        return false;
    }
    let mut i: usize = 0;
    while i < a.len()
        invariant
            i <= a@.len(),
            a@.len() == b@.len(),
            forall|j: int| 0 <= j < i ==> a@[j] == b@[j],
        decreases a@.len() - i,
    {
        if a[i] != b[i] {
            return false;
        }
        i = i + 1;
    }
    assert(a@ =~= b@);
    true
}

} // verus!
