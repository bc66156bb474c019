//! Diffs over keyed maps: what a diff does to a map, and the smallest diff
//! that leads from one map to another.

use crate::objects::{Key, Row};
use crate::table::{as_map, lemma_take_step, Table};
use vstd::prelude::*;

verus! {

/// The value of `key` in `map`, if it has one.
pub open spec fn lookup<V>(map: Map<Key, V>, key: Key) -> Option<V> {
    if map.contains_key(key) {
        Some(map[key])
    } else {
        None
    }
}

/// The map after a diff: a key that the diff names gets the diff's value, or
/// goes where that is `None`; every other key stays as it is.
pub open spec fn apply_diff<V>(map: Map<Key, V>, diff: Map<Key, Option<V>>) -> Map<Key, V> {
    Map::new(
        |k: Key|
            if diff.contains_key(k) {
                diff[k] is Some
            } else {
                map.contains_key(k)
            },
        |k: Key|
            if diff.contains_key(k) {
                diff[k]->Some_0
            } else {
                map[k]
            },
    )
}

/// The smallest diff from `base` to `target`: it names exactly the keys on
/// which the two differ, each with what `target` holds there.
pub open spec fn minimal_diff<V>(base: Map<Key, V>, target: Map<Key, V>) -> Map<Key, Option<V>> {
    Map::new(|k: Key| lookup(base, k) != lookup(target, k), |k: Key| lookup(target, k))
}

/// The empty diff changes nothing.
pub proof fn lemma_apply_empty<V>(map: Map<Key, V>)
    ensures
        apply_diff(map, Map::<Key, Option<V>>::empty()) == map,
{
    assert(apply_diff(map, Map::<Key, Option<V>>::empty()) =~= map);
}

/// One more line in a diff is one more insertion or removal in the result.
pub proof fn lemma_apply_extended<V>(map: Map<Key, V>, diff: Map<Key, Option<V>>, row: Row<Option<V>>)
    ensures
        apply_diff(map, diff.insert(row.key, row.value)) == (match row.value {
            Some(v) => apply_diff(map, diff).insert(row.key, v),
            None => apply_diff(map, diff).remove(row.key),
        }),
{
    let extended = apply_diff(map, diff.insert(row.key, row.value));
    match row.value {
        Some(v) => {
            assert(extended =~= apply_diff(map, diff).insert(row.key, v));
        },
        None => {
            assert(extended =~= apply_diff(map, diff).remove(row.key));
        },
    }
}

/// Replaying the smallest diff from `base` to `target` on `base` gives
/// `target`.
pub proof fn lemma_minimal_diff_replays<V>(base: Map<Key, V>, target: Map<Key, V>)
    ensures
        apply_diff(base, minimal_diff(base, target)) == target,
{
    assert(apply_diff(base, minimal_diff(base, target)) =~= target);
}

/// The lines of `pending` that change something over `base`.
pub open spec fn effective<V>(base: Map<Key, V>, pending: Map<Key, Option<V>>) -> Map<
    Key,
    Option<V>,
> {
    Map::new(
        |k: Key| pending.contains_key(k) && pending[k] != lookup(base, k),
        |k: Key| pending[k],
    )
}

/// The lines of a diff that change something are the smallest diff to what
/// the diff leads to.
pub proof fn lemma_effective_is_minimal<V>(base: Map<Key, V>, pending: Map<Key, Option<V>>)
    ensures
        effective(base, pending) == minimal_diff(base, apply_diff(base, pending)),
{
    assert(effective(base, pending) =~= minimal_diff(base, apply_diff(base, pending)));
}

/// One more line in a diff is at most one more line that changes something.
pub proof fn lemma_effective_extended<V>(
    base: Map<Key, V>,
    pending: Map<Key, Option<V>>,
    row: Row<Option<V>>,
)
    requires
        !pending.contains_key(row.key),
    ensures
        effective(base, pending.insert(row.key, row.value)) == (if row.value != lookup(
            base,
            row.key,
        ) {
            effective(base, pending).insert(row.key, row.value)
        } else {
            effective(base, pending)
        }),
{
    let extended = effective(base, pending.insert(row.key, row.value));
    if row.value != lookup(base, row.key) {
        assert(extended =~= effective(base, pending).insert(row.key, row.value));
    } else {
        assert(extended =~= effective(base, pending));
    }
}

impl<V: Copy> Table<V> {
    /// Carries out the first `count` lines of `changes` on the table.
    pub fn apply_prefix(&mut self, changes: &Table<Option<V>>, count: usize)
        requires
            old(self).wf(),
            changes.wf(),
            count <= changes.rows().len(),
        ensures
            final(self).wf(),
            final(self)@ == apply_diff(old(self)@, as_map(changes.rows().take(count as int))),
    {
        let mut i: usize = 0;
        proof {
            assert(as_map(changes.rows().take(0)) =~= Map::<Key, Option<V>>::empty());
            lemma_apply_empty(self@);
        }
        while i < count
            invariant
                i <= count <= changes.rows().len(),
                self.wf(),
                changes.wf(),
                self@ == apply_diff(old(self)@, as_map(changes.rows().take(i as int))),
            decreases count - i,
        {
            let row = changes.row(i);
            proof {
                lemma_take_step(changes.rows(), i as int);
                lemma_apply_extended(old(self)@, as_map(changes.rows().take(i as int)), row);
            }
            match row.value {
                Some(v) => {
                    self.set(row.key, v);
                },
                None => {
                    self.remove(row.key);
                },
            }
            i = i + 1;
        }
    }

    /// Carries out every line of `changes` on the table.
    pub fn apply(&mut self, changes: &Table<Option<V>>)
        requires
            old(self).wf(),
            changes.wf(),
        ensures
            final(self).wf(),
            final(self)@ == apply_diff(old(self)@, changes@),
    {
        let count = changes.len();
        assert(changes.rows().take(count as int) =~= changes.rows());
        self.apply_prefix(changes, count);
    }
}

} // verus!
