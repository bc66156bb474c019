use durable_catalog::connection::Connection;
use durable_catalog::durable::{
    debug_stash_backed_catalog_state, persist_backed_catalog_state, stash_backed_catalog_state,
    DurableCatalogState, OpenableDurableCatalogState, ReadOnlyDurableCatalogState,
};
use durable_catalog::error::CatalogError;
use durable_catalog::model::{
    Fault, CATALOG_CONTENT_VERSION, CONTENT_VERSION_CONFIG_ID, DEPLOY_GENERATION_CONFIG_ID,
};
use durable_catalog::objects::{debug_bootstrap_args, BootstrapArgs, CollectionKind, Epoch, Key};
use durable_catalog::persist::{PersistClient, PersistStore};
use durable_catalog::stash::{DebugStashFactory, StashConfig, StashStore};
use durable_catalog::state::DurableState;
use durable_catalog::transaction::TransactionBatch;
use uuid::Uuid;

fn stash_config() -> StashConfig {
    StashConfig { postgres_url: "postgres://localhost/catalog".to_string(), schema: None }
}

fn persist_client() -> PersistClient {
    PersistClient { blob_uri: "mem://blob".to_string(), consensus_uri: "mem://consensus".to_string() }
}

fn key(collection: CollectionKind, id: u64) -> Key {
    Key { collection, id }
}

#[test]
fn debug_bootstrap_args_are_size_one_without_role() {
    let args = debug_bootstrap_args();
    assert_eq!(args.default_cluster_replica_size, "1");
    assert_eq!(args.bootstrap_role, None);
}

#[test]
fn epoch_rejects_zero() {
    assert!(Epoch::new(0).is_none());
    assert_eq!(Epoch::new(7).unwrap().get(), 7);
}

#[test]
fn first_open_initializes_and_takes_epoch_one() {
    let mut store = StashStore::new();
    let mut openable = stash_backed_catalog_state(stash_config());
    assert_eq!(openable.is_initialized(&store), Ok(false));
    let mut handle = openable.open(&mut store, 100, &debug_bootstrap_args(), None).unwrap();
    assert_eq!(handle.epoch().get(), 1);
    assert!(!handle.is_read_only());
    let mut probe = stash_backed_catalog_state(stash_config());
    assert_eq!(probe.is_initialized(&store), Ok(true));
    let snapshot = handle.snapshot(&store).unwrap();
    assert_eq!(
        snapshot.get(key(CollectionKind::Config, CONTENT_VERSION_CONFIG_ID)),
        Some(CATALOG_CONTENT_VERSION)
    );
    assert_eq!(snapshot.get(key(CollectionKind::AuditLog, 1)), Some(100));
    assert_eq!(snapshot.get(key(CollectionKind::Roles, 1)), None);
}

#[test]
fn epoch_strictly_increases_across_opens() {
    let mut store = StashStore::new();
    let args = debug_bootstrap_args();
    let mut seen = Vec::new();
    for boot_ts in 0..5u64 {
        let mut handle =
            stash_backed_catalog_state(stash_config()).open(&mut store, boot_ts, &args, None).unwrap();
        seen.push(handle.epoch().get());
    }
    assert_eq!(seen, vec![1, 2, 3, 4, 5]);
}

#[test]
fn epoch_strictly_increases_on_the_log_store() {
    let mut store = PersistStore::new();
    let args = debug_bootstrap_args();
    let mut first = persist_backed_catalog_state(persist_client(), Uuid::from_u128(7))
        .open(&mut store, 1, &args, None)
        .unwrap();
    let mut second = persist_backed_catalog_state(persist_client(), Uuid::from_u128(7))
        .open(&mut store, 2, &args, None)
        .unwrap();
    assert_eq!(first.epoch().get(), 1);
    assert_eq!(second.epoch().get(), 2);
    assert_eq!(store.log_len(), 2);
}

#[test]
fn superseded_handle_is_fenced_out_and_changes_nothing() {
    let mut store = StashStore::new();
    let args = debug_bootstrap_args();
    let mut first = stash_backed_catalog_state(stash_config()).open(&mut store, 1, &args, None).unwrap();
    let mut second = stash_backed_catalog_state(stash_config()).open(&mut store, 2, &args, None).unwrap();
    let before = second.snapshot(&store).unwrap();

    assert_eq!(first.confirm_leadership(&store), Err(CatalogError::FencedOut));
    let mut txn = first.transaction(&store).unwrap();
    assert!(txn.insert(key(CollectionKind::Cluster, 9), 90));
    assert_eq!(first.commit_transaction(&mut store, txn.into_batch()), Err(CatalogError::FencedOut));
    assert_eq!(first.set_timestamp(&mut store, 0, 77), Err(CatalogError::FencedOut));
    assert_eq!(first.allocate_id(&mut store, "user", 1), Err(CatalogError::FencedOut));
    assert_eq!(
        first.get_and_prune_storage_usage(&mut store, None, 0),
        Err(CatalogError::FencedOut)
    );

    let after = second.snapshot(&store).unwrap();
    assert!(before.same_contents(&after));
    assert_eq!(after.get(key(CollectionKind::Cluster, 9)), None);
    assert_eq!(second.confirm_leadership(&store), Ok(()));
    assert_eq!(second.set_timestamp(&mut store, 0, 78), Ok(()));
}

#[test]
fn read_only_open_of_uninitialized_store_fails_and_does_not_initialize() {
    let store = StashStore::new();
    let opened = stash_backed_catalog_state(stash_config()).open_read_only(
        &store,
        1,
        &debug_bootstrap_args(),
    );
    assert!(matches!(opened, Err(CatalogError::Uninitialized)));
    let mut probe = stash_backed_catalog_state(stash_config());
    assert_eq!(probe.is_initialized(&store), Ok(false));
    assert_eq!(probe.get_deployment_generation(&store), Ok(None));
}

#[test]
fn read_only_handle_reads_and_refuses_every_write() {
    let mut store = StashStore::new();
    let args = debug_bootstrap_args();
    let mut writer = stash_backed_catalog_state(stash_config()).open(&mut store, 1, &args, None).unwrap();
    assert_eq!(writer.set_timestamp(&mut store, 3, 30), Ok(()));
    let mut reader =
        stash_backed_catalog_state(stash_config()).open_read_only(&store, 2, &args).unwrap();
    assert!(reader.is_read_only());
    assert_eq!(reader.epoch().get(), 1);
    assert_eq!(reader.get_next_id(&store, "user"), Ok(1));
    let timestamps = reader.get_timestamps(&store).unwrap();
    assert_eq!(timestamps.len(), 1);
    assert_eq!(timestamps[0].key, key(CollectionKind::Timestamp, 3));
    assert_eq!(timestamps[0].value, 30);

    assert_eq!(reader.set_timestamp(&mut store, 3, 31), Err(CatalogError::ReadOnlyViolation));
    assert_eq!(reader.allocate_id(&mut store, "user", 1), Err(CatalogError::ReadOnlyViolation));
    assert_eq!(
        reader.commit_transaction(&mut store, TransactionBatch::new()),
        Err(CatalogError::ReadOnlyViolation)
    );
    assert_eq!(
        reader.get_and_prune_storage_usage(&mut store, Some(1), 10),
        Err(CatalogError::ReadOnlyViolation)
    );
    assert!(matches!(reader.allocate_user_id(&mut store), Err(CatalogError::ReadOnlyViolation)));
    assert_eq!(writer.get_next_id(&store, "user"), Ok(1));
    assert_eq!(writer.get_timestamps(&store).unwrap()[0].value, 30);
}

#[test]
fn read_only_open_fails_where_a_migration_is_pending() {
    let mut store = StashStore::new();
    let args = debug_bootstrap_args();
    let mut writer = stash_backed_catalog_state(stash_config()).open(&mut store, 1, &args, None).unwrap();
    let mut txn = writer.transaction(&store).unwrap();
    assert!(txn.update(key(CollectionKind::Config, CONTENT_VERSION_CONFIG_ID), CATALOG_CONTENT_VERSION - 1));
    assert_eq!(writer.commit_transaction(&mut store, txn.into_batch()), Ok(()));

    let opened = stash_backed_catalog_state(stash_config()).open_read_only(&store, 2, &args);
    assert!(matches!(opened, Err(CatalogError::MigrationRequired)));

    let mut migrated = stash_backed_catalog_state(stash_config()).open(&mut store, 3, &args, None).unwrap();
    assert_eq!(
        migrated.snapshot(&store).unwrap().get(key(CollectionKind::Config, CONTENT_VERSION_CONFIG_ID)),
        Some(CATALOG_CONTENT_VERSION)
    );
    assert!(stash_backed_catalog_state(stash_config()).open_read_only(&store, 4, &args).is_ok());
}

#[test]
fn savepoint_session_leaves_no_trace() {
    let mut store = StashStore::new();
    let args = debug_bootstrap_args();
    let mut savepoint = stash_backed_catalog_state(stash_config())
        .open_savepoint(&store, 1, &args, Some(4))
        .unwrap();
    assert_eq!(savepoint.epoch().get(), 1);
    assert_eq!(savepoint.allocate_id(&mut store, "user", 3), Ok(vec![1, 2, 3]));
    assert_eq!(savepoint.set_timestamp(&mut store, 5, 50), Ok(()));
    let mut txn = savepoint.transaction(&store).unwrap();
    assert!(txn.insert(key(CollectionKind::Item, 1), 11));
    assert_eq!(savepoint.commit_transaction(&mut store, txn.into_batch()), Ok(()));
    assert_eq!(savepoint.confirm_leadership(&store), Ok(()));
    let session = savepoint.snapshot(&store).unwrap();
    assert_eq!(session.get(key(CollectionKind::Item, 1)), Some(11));
    assert_eq!(session.get(key(CollectionKind::Timestamp, 5)), Some(50));
    assert_eq!(savepoint.get_next_id(&store, "user"), Ok(4));
    savepoint.expire();

    let mut probe = stash_backed_catalog_state(stash_config());
    assert_eq!(probe.is_initialized(&store), Ok(false));
    let mut fresh = stash_backed_catalog_state(stash_config()).open(&mut store, 2, &args, None).unwrap();
    assert_eq!(fresh.epoch().get(), 1);
    let snapshot = fresh.snapshot(&store).unwrap();
    assert_eq!(snapshot.get(key(CollectionKind::Item, 1)), None);
    assert_eq!(snapshot.get(key(CollectionKind::Timestamp, 5)), None);
    assert_eq!(snapshot.get(key(CollectionKind::Config, DEPLOY_GENERATION_CONFIG_ID)), None);
    assert_eq!(fresh.get_next_id(&store, "user"), Ok(1));
}

#[test]
fn offline_store_fails_with_backend_failure() {
    let mut store = StashStore::new();
    let args = debug_bootstrap_args();
    let mut handle = stash_backed_catalog_state(stash_config()).open(&mut store, 1, &args, None).unwrap();
    store.set_fault(Fault::Offline);
    assert!(matches!(handle.snapshot(&store), Err(CatalogError::BackendFailure)));
    assert_eq!(handle.confirm_leadership(&store), Err(CatalogError::BackendFailure));
    assert_eq!(handle.get_next_id(&store, "user"), Err(CatalogError::BackendFailure));
    assert_eq!(handle.set_timestamp(&mut store, 0, 1), Err(CatalogError::BackendFailure));
    assert!(matches!(
        stash_backed_catalog_state(stash_config()).open(&mut store, 2, &args, None),
        Err(CatalogError::BackendFailure)
    ));
    assert!(matches!(
        stash_backed_catalog_state(stash_config()).open_read_only(&store, 2, &args),
        Err(CatalogError::BackendFailure)
    ));
    let mut probe = stash_backed_catalog_state(stash_config());
    assert_eq!(probe.is_initialized(&store), Err(CatalogError::BackendFailure));
    store.set_fault(Fault::Healthy);
    assert_eq!(handle.confirm_leadership(&store), Ok(()));
    assert_eq!(handle.get_timestamps(&store).unwrap().len(), 0);
}

#[test]
fn open_fails_when_the_epoch_counter_is_exhausted() {
    let mut state = DurableState::with_epoch(u64::MAX);
    let opened = Connection::<DurableState>::open(&mut state, 1, &debug_bootstrap_args(), None);
    assert!(matches!(opened, Err(CatalogError::EpochExhaustion)));
    assert_eq!(state.epoch(), u64::MAX);
    let savepoint =
        Connection::<DurableState>::open_savepoint(&state, 1, &debug_bootstrap_args(), None);
    assert!(matches!(savepoint, Err(CatalogError::EpochExhaustion)));
}

#[test]
fn deployment_generation_is_recorded_by_open() {
    let mut store = StashStore::new();
    let args = debug_bootstrap_args();
    let handle = stash_backed_catalog_state(stash_config()).open(&mut store, 1, &args, Some(7)).unwrap();
    handle.expire();
    let mut probe = stash_backed_catalog_state(stash_config());
    assert_eq!(probe.get_deployment_generation(&store), Ok(Some(7)));
    let _ = stash_backed_catalog_state(stash_config()).open(&mut store, 2, &args, None).unwrap();
    assert_eq!(probe.get_deployment_generation(&store), Ok(Some(7)));
    let _ = stash_backed_catalog_state(stash_config()).open(&mut store, 3, &args, Some(8)).unwrap();
    assert_eq!(probe.get_deployment_generation(&store), Ok(Some(8)));
    probe.expire();
}

#[test]
fn bootstrap_role_is_seeded_where_one_is_named() {
    let mut store = StashStore::new();
    let args = BootstrapArgs {
        default_cluster_replica_size: "2".to_string(),
        bootstrap_role: Some("admin".to_string()),
    };
    let mut handle = stash_backed_catalog_state(stash_config()).open(&mut store, 42, &args, None).unwrap();
    let snapshot = handle.snapshot(&store).unwrap();
    assert_eq!(snapshot.get(key(CollectionKind::Roles, 1)), Some(42));
    assert_eq!(handle.get_next_id(&store, "user_role"), Ok(2));
    assert_eq!(handle.get_next_id(&store, "auditlog"), Ok(2));
    assert_eq!(handle.get_next_id(&store, "database"), Ok(1));
    let events = handle.get_audit_logs(&store).unwrap();
    assert_eq!(events.len(), 1);
    assert_eq!(events[0].key, key(CollectionKind::AuditLog, 1));
    assert_eq!(events[0].value, 42);
}

#[test]
fn debug_stash_openable_opens_like_any_stash() {
    let factory = DebugStashFactory::new("postgres://localhost".to_string(), "debug_1".to_string());
    let config = factory.config();
    assert_eq!(config.postgres_url, "postgres://localhost");
    assert_eq!(config.schema, Some("debug_1".to_string()));
    let mut store = StashStore::new();
    let openable = debug_stash_backed_catalog_state(&factory);
    let mut handle = openable.open(&mut store, 1, &debug_bootstrap_args(), None).unwrap();
    assert_eq!(handle.epoch().get(), 1);
    assert_eq!(handle.allocate_id(&mut store, "schema", 2), Ok(vec![1, 2]));
}

#[test]
fn persist_handle_keeps_its_organization() {
    let organization = Uuid::from_u128(0xa1a2a3a4b1b2c1c2d1d2d3d4d5d6d7d8);
    let handle = persist_backed_catalog_state(persist_client(), organization);
    assert_eq!(handle.organization_id(), organization);
    assert_ne!(handle.organization_id(), Uuid::nil());
    assert_eq!(handle.persist_client().blob_uri, "mem://blob");
    handle.expire();
}
