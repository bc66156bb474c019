use durable_catalog::durable::{
    persist_backed_catalog_state, stash_backed_catalog_state, DurableCatalogState,
    OpenableDurableCatalogState, ReadOnlyDurableCatalogState,
};
use durable_catalog::error::CatalogError;
use durable_catalog::model::Fault;
use durable_catalog::objects::{debug_bootstrap_args, CollectionKind, Key};
use durable_catalog::persist::{PersistClient, PersistStore};
use durable_catalog::stash::{StashConfig, StashStore};
use durable_catalog::state::DurableState;
use durable_catalog::transaction::{Transaction, TransactionBatch};
use uuid::Uuid;

fn config() -> StashConfig {
    StashConfig { postgres_url: "postgres://localhost/catalog".to_string(), schema: None }
}

fn client() -> PersistClient {
    PersistClient { blob_uri: "mem://blob".to_string(), consensus_uri: "mem://consensus".to_string() }
}

fn key(collection: CollectionKind, id: u64) -> Key {
    Key { collection, id }
}

fn empty_transaction() -> Transaction {
    Transaction::new(DurableState::new().snapshot())
}

#[test]
fn transaction_insert_update_delete() {
    let mut txn = empty_transaction();
    let cluster = key(CollectionKind::Cluster, 1);
    assert_eq!(txn.get(cluster), None);
    assert!(!txn.update(cluster, 5));
    assert_eq!(txn.delete(cluster), None);
    assert!(txn.insert(cluster, 10));
    assert!(!txn.insert(cluster, 11));
    assert_eq!(txn.get(cluster), Some(10));
    assert!(txn.update(cluster, 12));
    assert_eq!(txn.get(cluster), Some(12));
    assert_eq!(txn.delete(cluster), Some(12));
    assert_eq!(txn.get(cluster), None);
    assert!(txn.insert(key(CollectionKind::Roles, 1), 1));
    assert_eq!(txn.get(key(CollectionKind::Cluster, 1)), None);
    assert_eq!(txn.get(key(CollectionKind::Roles, 1)), Some(1));
}

#[test]
fn transaction_leaves_id_counters_to_the_allocation() {
    let mut store = StashStore::new();
    let mut handle =
        stash_backed_catalog_state(config()).open(&mut store, 1, &debug_bootstrap_args(), None).unwrap();
    let mut txn = handle.transaction(&store).unwrap();
    let counter = key(CollectionKind::IdAllocator, 2);
    assert_eq!(txn.get(counter), Some(1));
    assert!(!txn.update(counter, 100));
    assert!(!txn.insert(key(CollectionKind::IdAllocator, 99), 1));
    assert_eq!(txn.delete(counter), None);
    assert_eq!(txn.get(counter), Some(1));
    assert_eq!(txn.get_and_increment_id_by("user", 2), Ok(vec![1, 2]));
    assert_eq!(txn.get(counter), Some(3));
    assert_eq!(txn.get_and_increment_id_by("nobody", 2), Err(CatalogError::UnknownIdType));
    assert_eq!(txn.get_and_increment_id_by("user", u64::MAX - 2), Err(CatalogError::IdExhaustion));
    assert_eq!(txn.get(counter), Some(3));
    assert_eq!(txn.get_and_increment_id_by("user", 0), Ok(vec![]));
    assert_eq!(txn.get(counter), Some(3));
}

#[test]
fn batch_is_the_smallest_diff() {
    let mut store = StashStore::new();
    let mut handle =
        stash_backed_catalog_state(config()).open(&mut store, 1, &debug_bootstrap_args(), None).unwrap();
    assert_eq!(handle.set_timestamp(&mut store, 1, 10), Ok(()));

    let mut txn = handle.transaction(&store).unwrap();
    let item = key(CollectionKind::Item, 5);
    let timeline = key(CollectionKind::Timestamp, 1);
    assert!(txn.insert(item, 50));
    assert_eq!(txn.delete(item), Some(50));
    txn.set_timestamp(1, 11);
    txn.set_timestamp(1, 10);
    let batch = txn.into_batch();
    assert!(batch.is_empty());
    assert_eq!(batch.get(item), None);
    assert_eq!(batch.get(timeline), None);

    let mut txn = handle.transaction(&store).unwrap();
    assert!(txn.insert(item, 50));
    assert!(txn.update(item, 51));
    assert_eq!(txn.delete(timeline), Some(10));
    let batch = txn.into_batch();
    assert!(!batch.is_empty());
    assert_eq!(batch.get(item), Some(Some(51)));
    assert_eq!(batch.get(timeline), Some(None));
    assert_eq!(batch.get(key(CollectionKind::Item, 6)), None);
    let copy = batch.duplicate();
    assert_eq!(copy.get(item), Some(Some(51)));
    assert_eq!(copy.get(timeline), Some(None));
    assert!(TransactionBatch::new().is_empty());
}

#[test]
fn commit_is_visible_to_the_next_snapshot() {
    let mut store = StashStore::new();
    let mut handle =
        stash_backed_catalog_state(config()).open(&mut store, 1, &debug_bootstrap_args(), None).unwrap();
    let mut txn = handle.transaction(&store).unwrap();
    assert!(txn.insert(key(CollectionKind::Cluster, 1), 100));
    assert!(txn.insert(key(CollectionKind::Schemas, 2), 200));
    txn.set_timestamp(0, 5);
    let before = handle.snapshot(&store).unwrap();
    assert_eq!(before.get(key(CollectionKind::Cluster, 1)), None);
    assert_eq!(handle.commit_transaction(&mut store, txn.into_batch()), Ok(()));
    let after = handle.snapshot(&store).unwrap();
    assert_eq!(after.get(key(CollectionKind::Cluster, 1)), Some(100));
    assert_eq!(after.get(key(CollectionKind::Schemas, 2)), Some(200));
    assert_eq!(after.get(key(CollectionKind::Timestamp, 0)), Some(5));
    assert!(!before.same_contents(&after));
    let clusters = after.collection(CollectionKind::Cluster);
    assert_eq!(clusters.len(), 1);
    assert_eq!(clusters[0].key, key(CollectionKind::Cluster, 1));
    assert_eq!(clusters[0].value, 100);
    assert_eq!(after.collection(CollectionKind::Comments).len(), 0);
}

#[test]
fn batch_replays_on_a_store_that_moved_on() {
    let mut store = StashStore::new();
    let mut handle =
        stash_backed_catalog_state(config()).open(&mut store, 1, &debug_bootstrap_args(), None).unwrap();
    let mut txn = handle.transaction(&store).unwrap();
    assert!(txn.insert(key(CollectionKind::Item, 1), 10));
    let batch = txn.into_batch();
    assert_eq!(handle.set_timestamp(&mut store, 9, 90), Ok(()));
    assert_eq!(handle.commit_transaction(&mut store, batch), Ok(()));
    let snapshot = handle.snapshot(&store).unwrap();
    assert_eq!(snapshot.get(key(CollectionKind::Item, 1)), Some(10));
    assert_eq!(snapshot.get(key(CollectionKind::Timestamp, 9)), Some(90));
}

#[test]
fn commit_is_all_or_nothing_under_a_crash_in_the_middle() {
    let mut store = StashStore::new();
    let mut handle =
        stash_backed_catalog_state(config()).open(&mut store, 1, &debug_bootstrap_args(), None).unwrap();
    let timeline = key(CollectionKind::Timestamp, 0);
    let cluster = key(CollectionKind::Cluster, 1);
    for after in 0..4usize {
        let mut txn = handle.transaction(&store).unwrap();
        txn.set_timestamp(0, 1_000);
        assert!(txn.insert(cluster, 7));
        let batch = txn.into_batch();
        store.set_fault(Fault::CrashDuringWrite { after });
        let before = handle.snapshot(&store).unwrap();
        assert_eq!(handle.commit_transaction(&mut store, batch), Err(CatalogError::BackendFailure));
        let seen = handle.snapshot(&store).unwrap();
        assert_eq!(seen.get(timeline), None);
        assert_eq!(seen.get(cluster), None);
        assert!(seen.same_contents(&before));
    }
    store.set_fault(Fault::Healthy);
    let mut txn = handle.transaction(&store).unwrap();
    txn.set_timestamp(0, 1_000);
    assert!(txn.insert(cluster, 7));
    assert_eq!(handle.commit_transaction(&mut store, txn.into_batch()), Ok(()));
    let seen = handle.snapshot(&store).unwrap();
    assert_eq!(seen.get(timeline), Some(1_000));
    assert_eq!(seen.get(cluster), Some(7));
    assert_eq!(handle.confirm_leadership(&store), Ok(()));
}

#[test]
fn log_store_commit_is_all_or_nothing() {
    let mut store = PersistStore::new();
    let mut handle = persist_backed_catalog_state(client(), Uuid::nil())
        .open(&mut store, 1, &debug_bootstrap_args(), None)
        .unwrap();
    assert_eq!(store.log_len(), 1);
    let mut txn = handle.transaction(&store).unwrap();
    txn.set_timestamp(0, 1_000);
    assert!(txn.insert(key(CollectionKind::Cluster, 1), 7));
    let batch = txn.into_batch();
    store.set_fault(Fault::CrashDuringWrite { after: 1 });
    assert_eq!(
        handle.commit_transaction(&mut store, batch.duplicate()),
        Err(CatalogError::BackendFailure)
    );
    assert_eq!(store.log_len(), 1);
    assert_eq!(handle.snapshot(&store).unwrap().get(key(CollectionKind::Cluster, 1)), None);
    store.set_fault(Fault::Healthy);
    assert_eq!(handle.commit_transaction(&mut store, batch), Ok(()));
    assert_eq!(store.log_len(), 2);
    let seen = handle.snapshot(&store).unwrap();
    assert_eq!(seen.get(key(CollectionKind::Cluster, 1)), Some(7));
    assert_eq!(seen.get(key(CollectionKind::Timestamp, 0)), Some(1_000));
}

#[test]
fn timestamps_are_set_and_listed() {
    let mut store = StashStore::new();
    let mut handle =
        stash_backed_catalog_state(config()).open(&mut store, 1, &debug_bootstrap_args(), None).unwrap();
    assert_eq!(handle.get_timestamps(&store), Ok(vec![]));
    assert_eq!(handle.set_timestamp(&mut store, 2, 20), Ok(()));
    assert_eq!(handle.set_timestamp(&mut store, 1, 10), Ok(()));
    assert_eq!(handle.set_timestamp(&mut store, 2, 25), Ok(()));
    assert_eq!(handle.set_timestamp(&mut store, 0, 7), Ok(()));
    let listed: Vec<(u64, u64)> =
        handle.get_timestamps(&store).unwrap().iter().map(|row| (row.key.id, row.value)).collect();
    assert_eq!(listed, vec![(0, 7), (1, 10), (2, 25)]);
}

fn with_usage_events(events: &[(u64, u64)]) -> (StashStore, durable_catalog::connection::Connection<StashStore>) {
    let mut store = StashStore::new();
    let mut handle =
        stash_backed_catalog_state(config()).open(&mut store, 1, &debug_bootstrap_args(), None).unwrap();
    let mut txn = handle.transaction(&store).unwrap();
    for (id, happened) in events {
        assert!(txn.insert(key(CollectionKind::StorageUsage, *id), *happened));
    }
    assert!(txn.insert(key(CollectionKind::Item, 1), 5));
    assert_eq!(handle.commit_transaction(&mut store, txn.into_batch()), Ok(()));
    (store, handle)
}

fn ids_of(rows: Vec<durable_catalog::objects::Entry>) -> Vec<(u64, u64)> {
    rows.iter().map(|row| (row.key.id, row.value)).collect()
}

#[test]
fn storage_usage_is_pruned_before_the_cutoff() {
    let (mut store, mut handle) = with_usage_events(&[(3, 30), (1, 10), (2, 20), (4, 19), (0, 21)]);
    let retained = handle.get_and_prune_storage_usage(&mut store, Some(30), 50).unwrap();
    assert_eq!(ids_of(retained), vec![(0, 21), (2, 20), (3, 30)]);
    let seen = handle.snapshot(&store).unwrap();
    assert_eq!(seen.get(key(CollectionKind::StorageUsage, 1)), None);
    assert_eq!(seen.get(key(CollectionKind::StorageUsage, 4)), None);
    assert_eq!(seen.get(key(CollectionKind::StorageUsage, 2)), Some(20));
    assert_eq!(seen.get(key(CollectionKind::StorageUsage, 3)), Some(30));
    assert_eq!(seen.get(key(CollectionKind::StorageUsage, 0)), Some(21));
    assert_eq!(seen.get(key(CollectionKind::Item, 1)), Some(5));
    let again = handle.get_and_prune_storage_usage(&mut store, Some(30), 50).unwrap();
    assert_eq!(ids_of(again), vec![(0, 21), (2, 20), (3, 30)]);
}

#[test]
fn storage_usage_is_kept_without_a_retention_period() {
    let (mut store, mut handle) = with_usage_events(&[(1, 0), (2, 20)]);
    let retained = handle.get_and_prune_storage_usage(&mut store, None, 1_000).unwrap();
    assert_eq!(ids_of(retained), vec![(1, 0), (2, 20)]);
    let retained = handle.get_and_prune_storage_usage(&mut store, Some(2_000), 1_000).unwrap();
    assert_eq!(ids_of(retained), vec![(1, 0), (2, 20)]);
    let retained = handle.get_and_prune_storage_usage(&mut store, Some(0), 1_000).unwrap();
    assert_eq!(ids_of(retained), vec![]);
    assert_eq!(handle.snapshot(&store).unwrap().collection(CollectionKind::StorageUsage).len(), 0);
}

#[test]
fn transaction_prunes_storage_usage_in_its_working_copy() {
    let (store, mut handle) = with_usage_events(&[(1, 10), (2, 20)]);
    let mut txn = handle.transaction(&store).unwrap();
    assert!(txn.insert(key(CollectionKind::StorageUsage, 3), 5));
    let retained = txn.prune_storage_usage(20);
    assert_eq!(ids_of(retained), vec![(2, 20)]);
    assert_eq!(txn.get(key(CollectionKind::StorageUsage, 1)), None);
    assert_eq!(txn.get(key(CollectionKind::StorageUsage, 3)), None);
    let other = handle.transaction(&store).unwrap();
    assert!(!txn.same_contents(&other));
    let batch = txn.into_batch();
    assert_eq!(batch.get(key(CollectionKind::StorageUsage, 1)), Some(None));
    assert_eq!(batch.get(key(CollectionKind::StorageUsage, 3)), None);
    assert_eq!(batch.get(key(CollectionKind::StorageUsage, 2)), None);
}
