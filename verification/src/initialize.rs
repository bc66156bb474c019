//! What a writable open stages before it persists the next epoch: the
//! initial contents of a fresh catalog, the migration to the current version,
//! and the deployment generation.

use crate::ids::IdType;
use crate::model::{
    content_version_key, needs_migration, opened_contents, seeded,
    CATALOG_CONTENT_VERSION, CONTENT_VERSION_CONFIG_ID, DEPLOY_GENERATION_CONFIG_ID, FIRST_ID,
};
use crate::objects::{CollectionKind, Key};
use crate::state::DurableState;
use crate::transaction::Transaction;
use vstd::prelude::*;

verus! {

/// Stages the contents of a fresh catalog: every id counter at its first id,
/// the audit event of the initialization, and the bootstrap role where one is
/// asked for.
pub fn seed(txn: &mut Transaction, boot_ts: u64, bootstrap_role: bool)
    requires
        old(txn).wf(),
    ensures
        final(txn).wf(),
        final(txn).base() == old(txn).base(),
        final(txn)@ == seeded(old(txn)@, boot_ts, bootstrap_role),
{
    txn.put(IdType::Database.allocator_key(), FIRST_ID);
    txn.put(IdType::Schema.allocator_key(), FIRST_ID);
    txn.put(IdType::UserItem.allocator_key(), FIRST_ID);
    txn.put(IdType::SystemItem.allocator_key(), FIRST_ID);
    txn.put(IdType::UserRole.allocator_key(), FIRST_ID);
    txn.put(IdType::UserCluster.allocator_key(), FIRST_ID);
    txn.put(IdType::SystemCluster.allocator_key(), FIRST_ID);
    txn.put(IdType::UserReplica.allocator_key(), FIRST_ID);
    txn.put(IdType::SystemReplica.allocator_key(), FIRST_ID);
    txn.put(IdType::AuditLog.allocator_key(), FIRST_ID);
    txn.put(IdType::StorageUsage.allocator_key(), FIRST_ID);
    txn.put(Key { collection: CollectionKind::AuditLog, id: FIRST_ID }, boot_ts);
    txn.put(IdType::AuditLog.allocator_key(), FIRST_ID + 1);
    if bootstrap_role {
        txn.put(Key { collection: CollectionKind::Roles, id: FIRST_ID }, boot_ts);
        txn.put(IdType::UserRole.allocator_key(), FIRST_ID + 1);
    }
}

/// Stages the migration to the current version of the contents, where the
/// working copy is older.
pub fn migrate(txn: &mut Transaction)
    requires
        old(txn).wf(),
    ensures
        final(txn).wf(),
        final(txn).base() == old(txn).base(),
        final(txn)@ == (if needs_migration(old(txn)@) {
            old(txn)@.insert(content_version_key(), CATALOG_CONTENT_VERSION)
        } else {
            old(txn)@
        }),
{
    let key = Key { collection: CollectionKind::Config, id: CONTENT_VERSION_CONFIG_ID };
    let stale = match txn.get(key) {
        Some(version) => version < CATALOG_CONTENT_VERSION,
        None => true,
    };
    if stale {
        txn.put(key, CATALOG_CONTENT_VERSION);
    }
}

/// Whether contents need a migration before they can be read.
pub fn pending_migration(state: &DurableState) -> (pending: bool)
    requires
        state.wf(),
    ensures
        pending == needs_migration(state@.contents),
{
    let key = Key { collection: CollectionKind::Config, id: CONTENT_VERSION_CONFIG_ID };
    match state.snapshot().get(key) {
        Some(version) => version < CATALOG_CONTENT_VERSION,
        None => true,
    }
}

/// Stages everything that a writable open of `state` persists besides the
/// epoch.
pub fn prepare(
    state: &DurableState,
    boot_ts: u64,
    bootstrap_role: bool,
    deploy_generation: Option<u64>,
) -> (txn: Transaction)
    requires
        state.wf(),
    ensures
        txn.wf(),
        txn.base() == state@.contents,
        txn@ == opened_contents(state@, boot_ts, bootstrap_role, deploy_generation),
{
    let mut txn = Transaction::new(state.snapshot());
    if state.epoch() == 0 {
        seed(&mut txn, boot_ts, bootstrap_role);
    }
    migrate(&mut txn);
    match deploy_generation {
        Some(generation) => {
            txn.put(
                Key { collection: CollectionKind::Config, id: DEPLOY_GENERATION_CONFIG_ID },
                generation,
            );
        },
        None => {},
    }
    txn
}

} // verus!
