//! The catalog as a mathematical value, and what every operation does to it.
//!
//! The executable handles and stores refine the functions of this module: each
//! of their contracts says which function here gives the outcome and the next
//! state.

use crate::error::CatalogError;
use crate::ids::IdType;
use crate::objects::{CollectionKind, Entry, Key};
use crate::table::{as_map, ascending, distinct_keys};
use vstd::prelude::*;

verus! {

/// The id of the config record that holds the deployment generation.
pub const DEPLOY_GENERATION_CONFIG_ID: u64 = 0;

/// The id of the config record that holds the version of the contents.
pub const CONTENT_VERSION_CONFIG_ID: u64 = 1;

/// The version of the contents that this library reads and writes. Older
/// contents are migrated to it by a writable open.
pub const CATALOG_CONTENT_VERSION: u64 = 3;

/// The first id that a fresh counter hands out.
pub const FIRST_ID: u64 = 1;

/// How a handle was opened.
#[derive(Clone, Copy, Debug, PartialEq, Eq, Structural, Hash)]
pub enum Mode {
    /// Reads and writes the durable state.
    Writable,
    /// Reads the durable state; every mutating call is refused.
    ReadOnly,
    /// Reads and writes a private session that is never persisted.
    Savepoint,
}

/// A failure that a store is told to simulate.
#[derive(Clone, Copy, Debug, PartialEq, Eq, Structural, Hash)]
pub enum Fault {
    /// The store works.
    Healthy,
    /// The store cannot be reached: reads and writes fail.
    Offline,
    /// Every write breaks off once `after` of its changes are staged, or at
    /// the end of the staging where it has fewer. Reads work.
    CrashDuringWrite { after: usize },
}

/// The durable state of a catalog: the persisted epoch, zero while the catalog
/// was never initialized, and the records of all collections.
#[verifier::ext_equal]
pub struct CatalogView {
    pub epoch: nat,
    pub contents: Map<Key, u64>,
}

/// What a handle holds in memory: the epoch it was opened under, its mode, and
/// the private session of a savepoint handle (empty for the other modes).
#[verifier::ext_equal]
pub struct HandleView {
    pub epoch: nat,
    pub mode: Mode,
    pub session: CatalogView,
}

/// The key of the record that holds the deployment generation.
pub open spec fn deploy_generation_key() -> Key {
    Key { collection: CollectionKind::Config, id: DEPLOY_GENERATION_CONFIG_ID }
}

/// The key of the record that holds the version of the contents.
pub open spec fn content_version_key() -> Key {
    Key { collection: CollectionKind::Config, id: CONTENT_VERSION_CONFIG_ID }
}

/// The key of a timeline's timestamp.
pub open spec fn timestamp_key(timeline: u64) -> Key {
    Key { collection: CollectionKind::Timestamp, id: timeline }
}

/// The keys of one collection.
pub open spec fn in_collection(kind: CollectionKind) -> Set<Key> {
    Set::new(|k: Key| k.collection == kind)
}

/// `rows` lists the collection `kind` of `contents`: every record of it once,
/// in ascending order of the ids, and nothing else.
pub open spec fn lists(rows: Seq<Entry>, contents: Map<Key, u64>, kind: CollectionKind) -> bool {
    &&& distinct_keys(rows)
    &&& ascending(rows)
    &&& as_map(rows) == contents.restrict(in_collection(kind))
}

/// The ids `first, first + 1, ...`, `amount` of them.
pub open spec fn id_range(first: u64, amount: u64) -> Seq<u64> {
    Seq::new(amount as nat, |i: int| (first + i) as u64)
}

/// Contents that lack the current version, or hold an older one, need a
/// migration.
pub open spec fn needs_migration(contents: Map<Key, u64>) -> bool {
    !contents.contains_key(content_version_key()) || contents[content_version_key()]
        < CATALOG_CONTENT_VERSION
}

/// The contents after initialization: every id counter at its first id, the
/// audit event of the initialization stamped with the boot time, and the
/// bootstrap role where one was asked for.
pub open spec fn seeded(contents: Map<Key, u64>, boot_ts: u64, bootstrap_role: bool) -> Map<
    Key,
    u64,
> {
    let counters = contents.insert(IdType::Database.watermark_key(), FIRST_ID).insert(
        IdType::Schema.watermark_key(),
        FIRST_ID,
    ).insert(IdType::UserItem.watermark_key(), FIRST_ID).insert(
        IdType::SystemItem.watermark_key(),
        FIRST_ID,
    ).insert(IdType::UserRole.watermark_key(), FIRST_ID).insert(
        IdType::UserCluster.watermark_key(),
        FIRST_ID,
    ).insert(IdType::SystemCluster.watermark_key(), FIRST_ID).insert(
        IdType::UserReplica.watermark_key(),
        FIRST_ID,
    ).insert(IdType::SystemReplica.watermark_key(), FIRST_ID).insert(
        IdType::AuditLog.watermark_key(),
        FIRST_ID,
    ).insert(IdType::StorageUsage.watermark_key(), FIRST_ID);
    let audited = counters.insert(
        Key { collection: CollectionKind::AuditLog, id: FIRST_ID },
        boot_ts,
    ).insert(IdType::AuditLog.watermark_key(), (FIRST_ID + 1) as u64);
    if bootstrap_role {
        audited.insert(Key { collection: CollectionKind::Roles, id: FIRST_ID }, boot_ts).insert(
            IdType::UserRole.watermark_key(),
            (FIRST_ID + 1) as u64,
        )
    } else {
        audited
    }
}

/// The contents that a writable open leaves: initialized where the catalog
/// was not, migrated to the current version, and with the deployment
/// generation recorded where one is given.
pub open spec fn opened_contents(
    durable: CatalogView,
    boot_ts: u64,
    bootstrap_role: bool,
    deploy_generation: Option<u64>,
) -> Map<Key, u64> {
    let initialized = if durable.epoch == 0 {
        seeded(durable.contents, boot_ts, bootstrap_role)
    } else {
        durable.contents
    };
    let migrated = if needs_migration(initialized) {
        initialized.insert(content_version_key(), CATALOG_CONTENT_VERSION)
    } else {
        initialized
    };
    match deploy_generation {
        Some(generation) => migrated.insert(deploy_generation_key(), generation),
        None => migrated,
    }
}

/// The durable state that a writable open leaves: the next epoch, persisted
/// together with the initialized and migrated contents.
pub open spec fn opened(
    durable: CatalogView,
    boot_ts: u64,
    bootstrap_role: bool,
    deploy_generation: Option<u64>,
) -> CatalogView {
    CatalogView {
        epoch: durable.epoch + 1,
        contents: opened_contents(durable, boot_ts, bootstrap_role, deploy_generation),
    }
}

/// Whether a read of a store succeeds.
pub open spec fn read_outcome(fault: Fault) -> Result<(), CatalogError> {
    if fault is Offline {
        Err(CatalogError::BackendFailure)
    } else {
        Ok(())
    }
}

/// Whether a store carries out a write that expects the epoch `expected`, and
/// persists the next epoch with it where `advance` is set: not while it is
/// offline, not where another epoch is persisted, not where the epoch cannot
/// advance, and not where the write breaks off.
pub open spec fn store_write_outcome(
    durable: CatalogView,
    fault: Fault,
    expected: nat,
    advance: bool,
) -> Result<(), CatalogError> {
    if fault is Offline {
        Err(CatalogError::BackendFailure)
    } else if durable.epoch != expected {
        Err(CatalogError::FencedOut)
    } else if advance && durable.epoch >= u64::MAX {
        Err(CatalogError::EpochExhaustion)
    } else if fault is CrashDuringWrite {
        Err(CatalogError::BackendFailure)
    } else {
        Ok(())
    }
}

/// The epoch that a write persists: the expected one, or the one after it
/// where the write advances the epoch.
pub open spec fn written_epoch(expected: nat, advance: bool) -> nat {
    if advance {
        expected + 1
    } else {
        expected
    }
}

/// The epoch that a writable open acquires, or why it fails.
pub open spec fn open_outcome(durable: CatalogView, fault: Fault) -> Result<nat, CatalogError> {
    if fault is Offline {
        Err(CatalogError::BackendFailure)
    } else if durable.epoch >= u64::MAX {
        Err(CatalogError::EpochExhaustion)
    } else if fault is CrashDuringWrite {
        Err(CatalogError::BackendFailure)
    } else {
        Ok(durable.epoch + 1)
    }
}

/// The epoch that a read-only open observes, or why it fails.
pub open spec fn open_read_only_outcome(durable: CatalogView, fault: Fault) -> Result<
    nat,
    CatalogError,
> {
    if fault is Offline {
        Err(CatalogError::BackendFailure)
    } else if durable.epoch == 0 {
        Err(CatalogError::Uninitialized)
    } else if needs_migration(durable.contents) {
        Err(CatalogError::MigrationRequired)
    } else {
        Ok(durable.epoch)
    }
}

/// The epoch of the session that a savepoint open starts, or why it fails.
pub open spec fn open_savepoint_outcome(durable: CatalogView, fault: Fault) -> Result<
    nat,
    CatalogError,
> {
    if fault is Offline {
        Err(CatalogError::BackendFailure)
    } else if durable.epoch >= u64::MAX {
        Err(CatalogError::EpochExhaustion)
    } else {
        Ok(durable.epoch + 1)
    }
}

/// What a counter hands out: the ids from its watermark on, unless the store
/// holds no counter of that name or the counter would overflow.
pub open spec fn counter_outcome(contents: Map<Key, u64>, name: Seq<char>, amount: u64) -> Result<
    Seq<u64>,
    CatalogError,
> {
    match IdType::named(name) {
        None => Err(CatalogError::UnknownIdType),
        Some(id_type) => {
            let key = id_type.watermark_key();
            if !contents.contains_key(key) {
                Err(CatalogError::UnknownIdType)
            } else if contents[key] + amount > u64::MAX {
                Err(CatalogError::IdExhaustion)
            } else {
                Ok(id_range(contents[key], amount))
            }
        },
    }
}

/// The contents after the counter `name` has handed out `amount` ids.
pub open spec fn counted(contents: Map<Key, u64>, name: Seq<char>, amount: u64) -> Map<Key, u64> {
    let key = IdType::named(name)->Some_0.watermark_key();
    contents.insert(key, (contents[key] + amount) as u64)
}

/// The time before which storage usage events have expired.
pub open spec fn retention_cutoff(retention_period: Option<u64>, boot_ts: u64) -> u64 {
    match retention_period {
        None => 0,
        Some(period) => if boot_ts >= period {
            (boot_ts - period) as u64
        } else {
            0
        },
    }
}

/// The storage usage events that happened before `cutoff`.
pub open spec fn expired_usage(contents: Map<Key, u64>, cutoff: u64) -> Set<Key> {
    Set::new(
        |k: Key|
            k.collection == CollectionKind::StorageUsage && contents.contains_key(k) && contents[k]
                < cutoff,
    )
}

/// The contents without the storage usage events that happened before
/// `cutoff`.
pub open spec fn pruned(contents: Map<Key, u64>, cutoff: u64) -> Map<Key, u64> {
    contents.remove_keys(expired_usage(contents, cutoff))
}

impl CatalogView {
    /// The state of a store that was never opened.
    pub open spec fn empty() -> CatalogView {
        CatalogView { epoch: 0, contents: Map::empty() }
    }

    /// The same epoch over other contents.
    pub open spec fn with_contents(self, contents: Map<Key, u64>) -> CatalogView {
        CatalogView { epoch: self.epoch, contents }
    }
}

impl HandleView {
    /// What every handle keeps: a positive epoch that fits the counter, and a
    /// session that is empty unless the handle is a savepoint, whose session
    /// runs under the handle's epoch.
    pub open spec fn wf(self) -> bool {
        &&& 1 <= self.epoch <= u64::MAX
        &&& self.mode is Savepoint ==> self.session.epoch == self.epoch
        &&& !(self.mode is Savepoint) ==> self.session == CatalogView::empty()
    }

    /// The state that the handle reads and writes: its session where it is a
    /// savepoint, the durable state otherwise.
    pub open spec fn sees(self, durable: CatalogView) -> CatalogView {
        if self.mode is Savepoint {
            self.session
        } else {
            durable
        }
    }

    /// The fault that the handle meets: none in its own session, the store's
    /// otherwise.
    pub open spec fn meets(self, fault: Fault) -> Fault {
        if self.mode is Savepoint {
            Fault::Healthy
        } else {
            fault
        }
    }

    /// Whether a read through the handle succeeds.
    pub open spec fn read_outcome(self, fault: Fault) -> Result<(), CatalogError> {
        read_outcome(self.meets(fault))
    }

    /// Whether the handle is still the leader: its epoch is the persisted one.
    pub open spec fn leadership_outcome(self, durable: CatalogView, fault: Fault) -> Result<
        (),
        CatalogError,
    > {
        if self.meets(fault) is Offline {
            Err(CatalogError::BackendFailure)
        } else if self.sees(durable).epoch != self.epoch {
            Err(CatalogError::FencedOut)
        } else {
            Ok(())
        }
    }

    /// Whether a write through the handle takes place: never on a read-only
    /// handle, and otherwise where the store carries it out under the handle's
    /// epoch.
    pub open spec fn write_outcome(self, durable: CatalogView, fault: Fault) -> Result<
        (),
        CatalogError,
    > {
        if self.mode is ReadOnly {
            Err(CatalogError::ReadOnlyViolation)
        } else {
            store_write_outcome(self.sees(durable), self.meets(fault), self.epoch, false)
        }
    }

    /// The handle after a write that left `contents`: a savepoint keeps them in
    /// its session.
    pub open spec fn having_written(self, contents: Map<Key, u64>) -> HandleView {
        if self.mode is Savepoint {
            HandleView { session: self.session.with_contents(contents), ..self }
        } else {
            self
        }
    }

    /// The durable state after a write through the handle that left
    /// `contents`: untouched by a savepoint.
    pub open spec fn persisting(self, durable: CatalogView, contents: Map<Key, u64>) -> CatalogView {
        if self.mode is Savepoint {
            durable
        } else {
            durable.with_contents(contents)
        }
    }

    /// The next id of the counter `name`, or why it cannot be read.
    pub open spec fn next_id_outcome(self, durable: CatalogView, fault: Fault, name: Seq<char>) -> Result<
        u64,
        CatalogError,
    > {
        match IdType::named(name) {
            None => Err(CatalogError::UnknownIdType),
            Some(id_type) => {
                let contents = self.sees(durable).contents;
                if self.meets(fault) is Offline {
                    Err(CatalogError::BackendFailure)
                } else if !contents.contains_key(id_type.watermark_key()) {
                    Err(CatalogError::UnknownIdType)
                } else {
                    Ok(contents[id_type.watermark_key()])
                }
            },
        }
    }

    /// The ids that an allocation reserves, or why it fails. The counter is
    /// looked at only by a handle that may write and is still the leader.
    pub open spec fn allocate_outcome(
        self,
        durable: CatalogView,
        fault: Fault,
        name: Seq<char>,
        amount: u64,
    ) -> Result<Seq<u64>, CatalogError> {
        if self.mode is ReadOnly {
            Err(CatalogError::ReadOnlyViolation)
        } else if IdType::named(name) is None {
            Err(CatalogError::UnknownIdType)
        } else if self.meets(fault) is Offline {
            Err(CatalogError::BackendFailure)
        } else if self.sees(durable).epoch != self.epoch {
            Err(CatalogError::FencedOut)
        } else if counter_outcome(self.sees(durable).contents, name, amount) is Err {
            counter_outcome(self.sees(durable).contents, name, amount)
        } else if self.meets(fault) is CrashDuringWrite {
            Err(CatalogError::BackendFailure)
        } else {
            counter_outcome(self.sees(durable).contents, name, amount)
        }
    }
}

/// The result of an operation that hands out a vector is the outcome that the
/// model gives.
pub open spec fn vec_matches<T>(result: Result<Vec<T>, CatalogError>, outcome: Result<
    Seq<T>,
    CatalogError,
>) -> bool {
    match outcome {
        Ok(items) => result is Ok && result->Ok_0@ == items,
        Err(error) => result == Err::<Vec<T>, CatalogError>(error),
    }
}

} // verus!
