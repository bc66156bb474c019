use durable_catalog::connection::Connection;
use durable_catalog::durable::{
    shadow_catalog_state, DurableCatalogState, OpenableDurableCatalogState,
    ReadOnlyDurableCatalogState,
};
use durable_catalog::error::CatalogError;
use durable_catalog::model::Fault;
use durable_catalog::objects::{debug_bootstrap_args, CollectionKind, Key};
use durable_catalog::persist::{PersistClient, PersistStore};
use durable_catalog::shadow::{
    classify, Discrepancy, DiscrepancyKind, Operation, ShadowCatalogState, ShadowStore,
};
use durable_catalog::stash::{StashConfig, StashStore};
use uuid::Uuid;

type Stores = ShadowStore<StashStore, PersistStore>;
type Shadow = ShadowCatalogState<Connection<StashStore>, Connection<PersistStore>>;

fn config() -> StashConfig {
    StashConfig { postgres_url: "postgres://localhost/catalog".to_string(), schema: None }
}

fn client() -> PersistClient {
    PersistClient { blob_uri: "mem://blob".to_string(), consensus_uri: "mem://consensus".to_string() }
}

fn key(collection: CollectionKind, id: u64) -> Key {
    Key { collection, id }
}

fn stores() -> Stores {
    ShadowStore { stash: StashStore::new(), persist: PersistStore::new() }
}

fn open(store: &mut Stores) -> Shadow {
    shadow_catalog_state(config(), client(), Uuid::from_u128(1))
        .open(store, 1, &debug_bootstrap_args(), None)
        .unwrap()
}

fn noted(operation: Operation, kind: DiscrepancyKind) -> Discrepancy {
    Discrepancy { operation, kind }
}

#[test]
fn identical_backends_show_no_discrepancy() {
    let mut store = stores();
    let mut probe = shadow_catalog_state(config(), client(), Uuid::from_u128(1));
    assert_eq!(probe.is_initialized(&store), Ok(false));
    assert_eq!(probe.get_deployment_generation(&store), Ok(None));
    assert!(probe.discrepancies().is_empty());
    let mut shadow = probe.open(&mut store, 1, &debug_bootstrap_args(), Some(3)).unwrap();
    assert_eq!(shadow.epoch().get(), 1);
    assert!(!shadow.is_read_only());
    assert_eq!(shadow.allocate_id(&mut store, "user", 3), Ok(vec![1, 2, 3]));
    assert_eq!(shadow.set_timestamp(&mut store, 1, 10), Ok(()));
    let mut txn = shadow.transaction(&store).unwrap();
    assert!(txn.insert(key(CollectionKind::Cluster, 1), 5));
    assert!(txn.insert(key(CollectionKind::StorageUsage, 1), 5));
    assert_eq!(shadow.commit_transaction(&mut store, txn.into_batch()), Ok(()));
    assert_eq!(shadow.confirm_leadership(&store), Ok(()));
    assert_eq!(shadow.get_next_id(&store, "user"), Ok(4));
    assert_eq!(shadow.get_timestamps(&store).unwrap().len(), 1);
    assert_eq!(shadow.get_audit_logs(&store).unwrap().len(), 1);
    assert_eq!(shadow.get_and_prune_storage_usage(&mut store, Some(1), 100), Ok(vec![]));
    assert_eq!(shadow.allocate_user_id(&mut store).is_ok(), true);
    let snapshot = shadow.snapshot(&store).unwrap();
    assert_eq!(snapshot.get(key(CollectionKind::Cluster, 1)), Some(5));
    assert_eq!(shadow.discrepancies(), &Vec::<Discrepancy>::new());

    let mut direct = Connection::<PersistStore>::open_read_only(&store.persist).unwrap();
    let mirrored = direct.snapshot(&store.persist).unwrap();
    assert!(mirrored.same_contents(&snapshot));
    assert_eq!(store.persist.log_len(), 6);
}

#[test]
fn single_injected_discrepancy_is_surfaced_and_authoritative_result_returned() {
    let mut store = stores();
    let mut shadow = open(&mut store);
    assert_eq!(shadow.allocate_id(&mut store, "user", 2), Ok(vec![1, 2]));
    store.persist.set_fault(Fault::Offline);
    assert_eq!(shadow.get_next_id(&store, "user"), Ok(3));
    store.persist.set_fault(Fault::Healthy);
    assert_eq!(shadow.get_next_id(&store, "user"), Ok(3));
    assert_eq!(shadow.allocate_id(&mut store, "user", 1), Ok(vec![3]));
    assert_eq!(
        shadow.discrepancies(),
        &vec![noted(Operation::GetNextId, DiscrepancyKind::ShadowFailed)]
    );
}

#[test]
fn lost_shadow_write_shows_as_diverging_values() {
    let mut store = stores();
    let mut shadow = open(&mut store);
    store.persist.set_fault(Fault::CrashDuringWrite { after: 0 });
    assert_eq!(shadow.set_timestamp(&mut store, 4, 40), Ok(()));
    store.persist.set_fault(Fault::Healthy);
    let listed = shadow.get_timestamps(&store).unwrap();
    assert_eq!(listed.len(), 1);
    assert_eq!(listed[0].value, 40);
    assert!(shadow.snapshot(&store).is_ok());
    assert!(shadow.transaction(&store).is_ok());
    assert_eq!(shadow.get_next_id(&store, "user"), Ok(1));
    assert_eq!(
        shadow.discrepancies(),
        &vec![
            noted(Operation::SetTimestamp, DiscrepancyKind::ShadowFailed),
            noted(Operation::GetTimestamps, DiscrepancyKind::ValuesDiffer),
            noted(Operation::Snapshot, DiscrepancyKind::ValuesDiffer),
            noted(Operation::Transaction, DiscrepancyKind::ValuesDiffer),
        ]
    );
}

#[test]
fn diverging_counters_show_in_allocations() {
    let mut store = stores();
    let mut shadow = open(&mut store);
    store.persist.set_fault(Fault::CrashDuringWrite { after: 1 });
    assert_eq!(shadow.allocate_id(&mut store, "user", 2), Ok(vec![1, 2]));
    store.persist.set_fault(Fault::Healthy);
    assert_eq!(shadow.allocate_id(&mut store, "user", 2), Ok(vec![3, 4]));
    assert_eq!(shadow.get_next_id(&store, "user"), Ok(5));
    assert_eq!(
        shadow.discrepancies(),
        &vec![
            noted(Operation::AllocateId, DiscrepancyKind::ShadowFailed),
            noted(Operation::AllocateId, DiscrepancyKind::ValuesDiffer),
            noted(Operation::GetNextId, DiscrepancyKind::ValuesDiffer),
        ]
    );
}

#[test]
fn authoritative_failure_fails_the_call() {
    let mut store = stores();
    let mut shadow = open(&mut store);
    store.stash.set_fault(Fault::Offline);
    assert_eq!(shadow.set_timestamp(&mut store, 1, 10), Err(CatalogError::BackendFailure));
    assert_eq!(shadow.confirm_leadership(&store), Err(CatalogError::BackendFailure));
    store.stash.set_fault(Fault::Healthy);
    assert_eq!(shadow.get_timestamps(&store).unwrap().len(), 0);
    assert_eq!(
        shadow.discrepancies(),
        &vec![
            noted(Operation::SetTimestamp, DiscrepancyKind::AuthoritativeFailed),
            noted(Operation::ConfirmLeadership, DiscrepancyKind::AuthoritativeFailed),
            noted(Operation::GetTimestamps, DiscrepancyKind::ValuesDiffer),
        ]
    );
}

#[test]
fn both_failing_alike_is_no_discrepancy() {
    let mut store = stores();
    let mut shadow = open(&mut store);
    store.stash.set_fault(Fault::Offline);
    store.persist.set_fault(Fault::Offline);
    assert_eq!(shadow.set_timestamp(&mut store, 1, 10), Err(CatalogError::BackendFailure));
    assert_eq!(shadow.allocate_id(&mut store, "nobody", 1), Err(CatalogError::UnknownIdType));
    assert!(shadow.discrepancies().is_empty());
}

#[test]
fn shadow_open_goes_on_without_a_shadow_that_failed() {
    let mut store = stores();
    store.persist.set_fault(Fault::Offline);
    let mut shadow = open(&mut store);
    assert_eq!(shadow.epoch().get(), 1);
    assert_eq!(shadow.allocate_id(&mut store, "user", 2), Ok(vec![1, 2]));
    assert_eq!(shadow.set_timestamp(&mut store, 1, 10), Ok(()));
    assert_eq!(
        shadow.discrepancies(),
        &vec![noted(Operation::Open, DiscrepancyKind::ShadowFailed)]
    );
    shadow.expire();
    store.persist.set_fault(Fault::Healthy);
    assert_eq!(store.persist.log_len(), 0);
}

#[test]
fn shadow_open_fails_where_the_authoritative_open_fails() {
    let mut store = stores();
    store.stash.set_fault(Fault::Offline);
    let opened = shadow_catalog_state(config(), client(), Uuid::from_u128(1)).open(
        &mut store,
        1,
        &debug_bootstrap_args(),
        None,
    );
    assert!(matches!(opened, Err(CatalogError::BackendFailure)));
    let read_only = shadow_catalog_state(config(), client(), Uuid::from_u128(1)).open_read_only(
        &store,
        1,
        &debug_bootstrap_args(),
    );
    assert!(matches!(read_only, Err(CatalogError::BackendFailure)));
}

#[test]
fn shadow_epochs_that_differ_are_noted() {
    let mut store = stores();
    let first = Connection::<StashStore>::open(&mut store.stash, 1, &debug_bootstrap_args(), None);
    assert!(first.is_ok());
    let mut shadow = open(&mut store);
    assert_eq!(shadow.epoch().get(), 2);
    assert_eq!(
        shadow.discrepancies(),
        &vec![
            noted(Operation::Open, DiscrepancyKind::ValuesDiffer),
            noted(Operation::Epoch, DiscrepancyKind::ValuesDiffer),
        ]
    );
    let mut probe = shadow_catalog_state(config(), client(), Uuid::from_u128(1));
    assert_eq!(probe.is_initialized(&store), Ok(true));
    assert!(probe.discrepancies().is_empty());
    let savepoint = probe.open_savepoint(&store, 5, &debug_bootstrap_args(), None).unwrap();
    assert_eq!(
        savepoint.discrepancies(),
        &vec![noted(Operation::OpenSavepoint, DiscrepancyKind::ValuesDiffer)]
    );
}

#[test]
fn classify_tells_the_four_kinds_apart() {
    let ok: Result<u64, CatalogError> = Ok(1);
    let fenced: Result<u64, CatalogError> = Err(CatalogError::FencedOut);
    let failed: Result<u64, CatalogError> = Err(CatalogError::BackendFailure);
    assert_eq!(classify(&ok, &ok, true), None);
    assert_eq!(classify(&ok, &ok, false), Some(DiscrepancyKind::ValuesDiffer));
    assert_eq!(classify(&ok, &failed, true), Some(DiscrepancyKind::ShadowFailed));
    assert_eq!(classify(&failed, &ok, true), Some(DiscrepancyKind::AuthoritativeFailed));
    assert_eq!(classify(&fenced, &failed, true), Some(DiscrepancyKind::ErrorsDiffer));
    assert_eq!(classify(&fenced, &fenced, false), None);
}
