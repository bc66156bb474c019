use durable_catalog::connection::Connection;
use durable_catalog::durable::{DurableCatalogState, ReadOnlyDurableCatalogState};
use durable_catalog::error::CatalogError;
use durable_catalog::model::Fault;
use durable_catalog::objects::{debug_bootstrap_args, CollectionKind, Entry, Key, Row};
use durable_catalog::persist::PersistStore;
use durable_catalog::stash::StashStore;
use durable_catalog::state::{Backend, DurableState};
use durable_catalog::table::{same_ids, same_rows, Table};
use durable_catalog::transaction::{Transaction, TransactionBatch};

fn key(collection: CollectionKind, id: u64) -> Key {
    Key { collection, id }
}

fn batch_of(changes: &[(Key, Option<u64>)]) -> TransactionBatch {
    let mut base = Transaction::new(DurableState::new().snapshot());
    for (key, value) in changes {
        if value.is_none() {
            assert!(base.insert(*key, 0));
        }
    }
    let mut state = DurableState::new();
    assert_eq!(state.compare_and_apply(0, false, base.into_batch()), Ok(()));
    let mut txn = Transaction::new(state.snapshot());
    for (key, value) in changes {
        match value {
            Some(value) => assert!(txn.insert(*key, *value)),
            None => assert_eq!(txn.delete(*key), Some(0)),
        }
    }
    txn.into_batch()
}

#[test]
fn table_stores_one_value_per_key() {
    let mut table: Table<u64> = Table::new();
    assert_eq!(table.len(), 0);
    assert_eq!(table.set(key(CollectionKind::Item, 1), 10), None);
    assert_eq!(table.set(key(CollectionKind::Item, 2), 20), None);
    assert_eq!(table.set(key(CollectionKind::Roles, 1), 30), None);
    assert_eq!(table.set(key(CollectionKind::Item, 1), 11), Some(10));
    assert_eq!(table.len(), 3);
    assert_eq!(table.get(key(CollectionKind::Item, 1)), Some(11));
    assert_eq!(table.get(key(CollectionKind::Roles, 2)), None);
    assert_eq!(table.row(0), Row { key: key(CollectionKind::Item, 1), value: 11 });
    assert_eq!(table.remove(key(CollectionKind::Item, 2)), Some(20));
    assert_eq!(table.remove(key(CollectionKind::Item, 2)), None);
    assert_eq!(table.len(), 2);
    let copy = table.duplicate();
    assert!(copy.same_as(&table));
    assert_eq!(table.set(key(CollectionKind::Item, 3), 1), None);
    assert!(!copy.same_as(&table));
    assert!(!table.same_as(&copy));
}

#[test]
fn table_selects_by_collection_and_value() {
    let mut table: Table<u64> = Table::new();
    for (id, value) in [(3u64, 15u64), (1, 5), (4, 20), (2, 10)] {
        table.set(key(CollectionKind::StorageUsage, id), value);
    }
    table.set(key(CollectionKind::Item, 1), 10);
    let chosen = table.select(CollectionKind::StorageUsage, 10, 15);
    let ids: Vec<u64> = chosen.iter().map(|row| row.key.id).collect();
    assert_eq!(ids, vec![2, 3]);
    let all: Vec<u64> =
        table.select(CollectionKind::StorageUsage, 0, u64::MAX).iter().map(|row| row.key.id).collect();
    assert_eq!(all, vec![1, 2, 3, 4]);
    assert_eq!(table.select(CollectionKind::StorageUsage, 21, u64::MAX).len(), 0);
    assert_eq!(table.select(CollectionKind::Comments, 0, u64::MAX).len(), 0);
}

#[test]
fn table_applies_a_diff() {
    let mut table: Table<u64> = Table::new();
    table.set(key(CollectionKind::Item, 1), 10);
    table.set(key(CollectionKind::Item, 2), 20);
    let mut changes: Table<Option<u64>> = Table::new();
    changes.set(key(CollectionKind::Item, 1), None);
    changes.set(key(CollectionKind::Item, 2), Some(21));
    changes.set(key(CollectionKind::Item, 3), Some(30));
    let mut partly = table.duplicate();
    partly.apply_prefix(&changes, 1);
    assert_eq!(partly.get(key(CollectionKind::Item, 1)), None);
    assert_eq!(partly.get(key(CollectionKind::Item, 2)), Some(20));
    assert_eq!(partly.get(key(CollectionKind::Item, 3)), None);
    table.apply(&changes);
    assert_eq!(table.get(key(CollectionKind::Item, 1)), None);
    assert_eq!(table.get(key(CollectionKind::Item, 2)), Some(21));
    assert_eq!(table.get(key(CollectionKind::Item, 3)), Some(30));
    assert_eq!(table.len(), 2);
}

#[test]
fn listings_are_compared_without_regard_to_order() {
    let a: Vec<Entry> = vec![
        Row { key: key(CollectionKind::Item, 1), value: 10 },
        Row { key: key(CollectionKind::Item, 2), value: 20 },
    ];
    let b: Vec<Entry> = vec![
        Row { key: key(CollectionKind::Item, 2), value: 20 },
        Row { key: key(CollectionKind::Item, 1), value: 10 },
    ];
    let c: Vec<Entry> = vec![
        Row { key: key(CollectionKind::Item, 2), value: 20 },
        Row { key: key(CollectionKind::Item, 1), value: 11 },
    ];
    assert!(same_rows(&a, &b));
    assert!(!same_rows(&a, &c));
    assert!(!same_rows(&a, &vec![a[0]]));
    assert!(same_rows(&Vec::new(), &Vec::new()));
    let table = Table::from_rows(&a);
    assert_eq!(table.len(), 2);
    assert_eq!(table.get(key(CollectionKind::Item, 2)), Some(20));
    assert!(same_ids(&vec![1, 2, 3], &vec![1, 2, 3]));
    assert!(!same_ids(&vec![1, 2, 3], &vec![1, 3, 2]));
    assert!(!same_ids(&vec![1, 2, 3], &vec![1, 2]));
}

#[test]
fn durable_state_is_a_store_that_never_fails() {
    let mut state = DurableState::new();
    assert_eq!(state.epoch(), 0);
    let batch = batch_of(&[(key(CollectionKind::Item, 1), Some(10))]);
    assert_eq!(state.compare_and_apply(1, true, batch.duplicate()), Err(CatalogError::FencedOut));
    assert_eq!(state.snapshot().get(key(CollectionKind::Item, 1)), None);
    assert_eq!(state.compare_and_apply(0, true, batch), Ok(()));
    assert_eq!(state.epoch(), 1);
    assert_eq!(state.snapshot().get(key(CollectionKind::Item, 1)), Some(10));
    let loaded = state.load().unwrap();
    assert_eq!(loaded.epoch(), 1);
    assert!(loaded.snapshot().same_contents(&state.snapshot()));
    let copy = state.duplicate();
    let removal = batch_of(&[(key(CollectionKind::Item, 1), None)]);
    assert_eq!(state.compare_and_apply(1, false, removal), Ok(()));
    assert_eq!(state.epoch(), 1);
    assert_eq!(state.snapshot().get(key(CollectionKind::Item, 1)), None);
    assert_eq!(copy.epoch(), 1);
    assert_eq!(copy.snapshot().get(key(CollectionKind::Item, 1)), Some(10));
    let mut last = DurableState::with_epoch(u64::MAX);
    assert_eq!(last.epoch(), u64::MAX);
    assert_eq!(
        last.compare_and_apply(u64::MAX, true, TransactionBatch::new()),
        Err(CatalogError::EpochExhaustion)
    );
    assert_eq!(last.compare_and_apply(u64::MAX, false, TransactionBatch::new()), Ok(()));
    assert_eq!(last.epoch(), u64::MAX);
}

#[test]
fn stash_store_checks_the_epoch_before_it_writes() {
    let mut store = StashStore::new();
    let batch = batch_of(&[(key(CollectionKind::Item, 1), Some(10))]);
    assert_eq!(store.compare_and_apply(3, true, batch.duplicate()), Err(CatalogError::FencedOut));
    assert_eq!(store.load().unwrap().epoch(), 0);
    assert_eq!(store.compare_and_apply(0, true, batch.duplicate()), Ok(()));
    assert_eq!(store.load().unwrap().epoch(), 1);
    assert_eq!(store.compare_and_apply(1, false, batch.duplicate()), Ok(()));
    assert_eq!(store.load().unwrap().epoch(), 1);
    store.set_fault(Fault::CrashDuringWrite { after: 0 });
    assert_eq!(store.compare_and_apply(3, true, batch.duplicate()), Err(CatalogError::FencedOut));
    assert_eq!(store.compare_and_apply(1, true, batch.duplicate()), Err(CatalogError::BackendFailure));
    assert_eq!(store.load().unwrap().epoch(), 1);
    store.set_fault(Fault::Offline);
    assert_eq!(store.compare_and_apply(3, true, batch), Err(CatalogError::BackendFailure));
    assert!(matches!(store.load(), Err(CatalogError::BackendFailure)));
}

#[test]
fn log_store_replays_what_was_appended() {
    let mut store = PersistStore::new();
    assert_eq!(store.log_len(), 0);
    assert_eq!(store.load().unwrap().epoch(), 0);
    let first = batch_of(&[
        (key(CollectionKind::Item, 1), Some(10)),
        (key(CollectionKind::Item, 2), Some(20)),
    ]);
    let second = batch_of(&[
        (key(CollectionKind::Item, 1), None),
        (key(CollectionKind::Item, 3), Some(30)),
    ]);
    assert_eq!(store.compare_and_apply(0, true, first), Ok(()));
    assert_eq!(store.compare_and_apply(0, true, second.duplicate()), Err(CatalogError::FencedOut));
    assert_eq!(store.compare_and_apply(1, false, second), Ok(()));
    assert_eq!(store.log_len(), 2);
    let state = store.load().unwrap();
    assert_eq!(state.epoch(), 1);
    let snapshot = state.snapshot();
    assert_eq!(snapshot.get(key(CollectionKind::Item, 1)), None);
    assert_eq!(snapshot.get(key(CollectionKind::Item, 2)), Some(20));
    assert_eq!(snapshot.get(key(CollectionKind::Item, 3)), Some(30));
    store.set_fault(Fault::Offline);
    assert!(matches!(store.load(), Err(CatalogError::BackendFailure)));
}

#[test]
fn both_stores_answer_alike() {
    let mut stash = StashStore::new();
    let mut log = PersistStore::new();
    let args = debug_bootstrap_args();
    let mut a = Connection::<StashStore>::open(&mut stash, 9, &args, Some(2)).unwrap();
    let mut b = Connection::<PersistStore>::open(&mut log, 9, &args, Some(2)).unwrap();
    assert_eq!(a.allocate_id(&mut stash, "user", 5), b.allocate_id(&mut log, "user", 5));
    assert_eq!(a.set_timestamp(&mut stash, 1, 10), b.set_timestamp(&mut log, 1, 10));
    let mut ta = a.transaction(&stash).unwrap();
    let mut tb = b.transaction(&log).unwrap();
    assert!(ta.same_contents(&tb));
    assert!(ta.insert(key(CollectionKind::Databases, 1), 1));
    assert!(tb.insert(key(CollectionKind::Databases, 1), 1));
    assert_eq!(
        a.commit_transaction(&mut stash, ta.into_batch()),
        b.commit_transaction(&mut log, tb.into_batch())
    );
    assert!(a.snapshot(&stash).unwrap().same_contents(&b.snapshot(&log).unwrap()));
    assert_eq!(a.epoch().get(), b.epoch().get());
    assert_eq!(
        Connection::<StashStore>::get_deployment_generation(&stash),
        Connection::<PersistStore>::get_deployment_generation(&log)
    );
    assert_eq!(Connection::<PersistStore>::is_initialized(&log), Ok(true));
}
