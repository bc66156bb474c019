//! The contracts of the durable catalog: how a catalog is opened, what a
//! handle reads, and what a handle writes.
//!
//! A handle does not own the store it works on: every operation is handed the
//! store, so that several handles, as several processes would hold them, can
//! contend for one store and be told apart by their epochs alone.

use crate::diff::{apply_diff, lookup};
use crate::error::CatalogError;
use crate::ids::{
    ClusterId, GlobalId, ReplicaId, SYSTEM_CLUSTER_ID_ALLOC_KEY, SYSTEM_ITEM_ALLOC_KEY,
    SYSTEM_REPLICA_ID_ALLOC_KEY, USER_CLUSTER_ID_ALLOC_KEY, USER_ITEM_ALLOC_KEY,
    USER_REPLICA_ID_ALLOC_KEY,
};
use crate::model::{
    counted, deploy_generation_key, lists, open_outcome, open_read_only_outcome,
    open_savepoint_outcome, opened, pruned, read_outcome, retention_cutoff, timestamp_key,
    vec_matches, CatalogView, Fault, HandleView, Mode,
};
use crate::objects::{BootstrapArgs, CollectionKind, Entry, Epoch, Key};
use crate::persist::{PersistClient, PersistHandle};
use crate::shadow::{Discrepancy, OpenableShadowCatalogState};
use crate::stash::{DebugOpenableConnection, DebugStashFactory, OpenableConnection, StashConfig};
use crate::transaction::{Snapshot, Transaction, TransactionBatch};
use uuid::Uuid;
use vstd::prelude::*;

verus! {

/// Creates a openable durable catalog state implemented using the stash.
pub fn stash_backed_catalog_state(config: StashConfig) -> (openable: OpenableConnection)
    ensures
        openable.wf(),
        openable.config() == config,
{
    OpenableConnection::new(config)
}

/// Creates an openable debug durable catalog state implemented using the
/// stash that is meant to be used in tests.
pub fn debug_stash_backed_catalog_state(debug_stash_factory: &DebugStashFactory) -> (openable:
    DebugOpenableConnection<'_>)
    ensures
        openable.wf(),
        openable.factory() == *debug_stash_factory,
{
    DebugOpenableConnection::new(debug_stash_factory)
}

/// Creates an openable durable catalog state implemented using persist.
pub fn persist_backed_catalog_state(persist_client: PersistClient, organization_id: Uuid) -> (handle:
    PersistHandle)
    ensures
        handle.wf(),
        handle.client() == persist_client,
        handle.organization() == organization_id,
{
    PersistHandle::new(persist_client, organization_id)
}

/// Creates an openable durable catalog state implemented using both the stash
/// and persist, that compares the results. The stash results is used as the
/// source of truth when there's a discrepancy.
pub fn shadow_catalog_state(
    stash_config: StashConfig,
    persist_client: PersistClient,
    organization_id: Uuid,
) -> (openable: OpenableShadowCatalogState<OpenableConnection, PersistHandle>)
    ensures
        openable.wf(),
        openable.authoritative().config() == stash_config,
        openable.shadow().client() == persist_client,
        openable.shadow().organization() == organization_id,
        openable.log() == Seq::<Discrepancy>::empty(),
{
    let stash = stash_backed_catalog_state(stash_config);
    let persist = persist_backed_catalog_state(persist_client, organization_id);
    OpenableShadowCatalogState::new(stash, persist)
}

/// The result of a read that lists the collection `kind`: the listing of what
/// the handle sees, or the error of the read.
pub open spec fn listing_matches(
    result: Result<Vec<Entry>, CatalogError>,
    handle: HandleView,
    durable: CatalogView,
    fault: Fault,
    kind: CollectionKind,
) -> bool {
    match result {
        Ok(rows) => handle.read_outcome(fault) is Ok && lists(
            rows@,
            handle.sees(durable).contents,
            kind,
        ),
        Err(error) => handle.read_outcome(fault) == Err::<(), CatalogError>(error),
    }
}

/// What a mutating call leaves behind. Where it took place, `contents` are
/// what the handle sees from then on: persisted, or kept in the session of a
/// savepoint. Where it failed, the handle and the durable state are as they
/// were. The store simulates the same failure as before.
pub open spec fn write_effect<S: ReadOnlyDurableCatalogState>(
    before: S,
    after: S,
    store_before: S::Store,
    store_after: S::Store,
    done: bool,
    contents: Map<Key, u64>,
) -> bool {
    &&& after.wf()
    &&& S::store_wf(&store_after)
    &&& S::fault(&store_after) == S::fault(&store_before)
    &&& after.handle() == (if done {
        before.handle().having_written(contents)
    } else {
        before.handle()
    })
    &&& S::durable(&store_after) == (if done {
        before.handle().persisting(S::durable(&store_before), contents)
    } else {
        S::durable(&store_before)
    })
}

/// The ids of a namespace, each tagged by `tag`.
pub open spec fn tagged<T>(ids: Seq<u64>, tag: spec_fn(u64) -> T) -> Seq<T> {
    Seq::new(ids.len(), |i: int| tag(ids[i]))
}

/// An API for opening a durable catalog state.
///
/// Each way of opening consumes the openable: it is opened once, or released
/// with [`Self::expire`].
pub trait OpenableDurableCatalogState: Sized {
    /// The handle that an open hands out.
    type State: DurableCatalogState;

    /// The invariant of the openable.
    spec fn wf(&self) -> bool;

    /// Opens the catalog in a mode that accepts and buffers all writes, but
    /// never durably commits them. This is used to check and see if opening
    /// the catalog would be successful, without making any durable changes.
    fn open_savepoint(
        self,
        store: &<Self::State as ReadOnlyDurableCatalogState>::Store,
        boot_ts: u64,
        bootstrap_args: &BootstrapArgs,
        deploy_generation: Option<u64>,
    ) -> (state: Result<Self::State, CatalogError>)
        requires
            self.wf(),
            Self::State::store_wf(store),
        ensures
            match open_savepoint_outcome(Self::State::durable(store), Self::State::fault(store)) {
                Ok(epoch) => state is Ok && state->Ok_0.wf() && state->Ok_0.handle() == (
                HandleView {
                    epoch,
                    mode: Mode::Savepoint,
                    session: opened(
                        Self::State::durable(store),
                        boot_ts,
                        bootstrap_args.bootstrap_role is Some,
                        deploy_generation,
                    ),
                }),
                Err(error) => state is Err && state->Err_0 == error,
            },
    ;

    /// Opens the catalog in read only mode. All mutating methods will return
    /// an error.
    ///
    /// If the catalog is uninitialized or requires a migration, then it will
    /// fail to open in read only mode.
    fn open_read_only(
        self,
        store: &<Self::State as ReadOnlyDurableCatalogState>::Store,
        boot_ts: u64,
        bootstrap_args: &BootstrapArgs,
    ) -> (state: Result<Self::State, CatalogError>)
        requires
            self.wf(),
            Self::State::store_wf(store),
        ensures
            match open_read_only_outcome(Self::State::durable(store), Self::State::fault(store)) {
                Ok(epoch) => state is Ok && state->Ok_0.wf() && state->Ok_0.handle() == (
                HandleView { epoch, mode: Mode::ReadOnly, session: CatalogView::empty() }),
                Err(error) => state is Err && state->Err_0 == error,
            },
    ;

    /// Opens the catalog in a writeable mode. Initializes the catalog, if it
    /// has not been initialized, performs any migrations needed, and persists
    /// the next epoch together with both.
    fn open(
        self,
        store: &mut <Self::State as ReadOnlyDurableCatalogState>::Store,
        boot_ts: u64,
        bootstrap_args: &BootstrapArgs,
        deploy_generation: Option<u64>,
    ) -> (state: Result<Self::State, CatalogError>)
        requires
            self.wf(),
            Self::State::store_wf(old(store)),
        ensures
            Self::State::store_wf(final(store)),
            Self::State::fault(final(store)) == Self::State::fault(old(store)),
            match open_outcome(Self::State::durable(old(store)), Self::State::fault(old(store))) {
                Ok(epoch) => state is Ok && state->Ok_0.wf() && state->Ok_0.handle() == (
                HandleView { epoch, mode: Mode::Writable, session: CatalogView::empty() })
                    && Self::State::durable(final(store)) == opened(
                    Self::State::durable(old(store)),
                    boot_ts,
                    bootstrap_args.bootstrap_role is Some,
                    deploy_generation,
                ),
                Err(error) => state is Err && state->Err_0 == error && Self::State::durable(
                    final(store),
                ) == Self::State::durable(old(store)),
            },
    ;

    /// Reports if the catalog state has been initialized.
    fn is_initialized(
        &mut self,
        store: &<Self::State as ReadOnlyDurableCatalogState>::Store,
    ) -> (initialized: Result<bool, CatalogError>)
        requires
            old(self).wf(),
            Self::State::store_wf(store),
        ensures
            final(self).wf(),
            initialized == (match read_outcome(Self::State::fault(store)) {
                Ok(_) => Ok::<bool, CatalogError>(Self::State::durable(store).epoch > 0),
                Err(error) => Err::<bool, CatalogError>(error),
            }),
    ;

    /// Get the deployment generation of this instance.
    fn get_deployment_generation(
        &mut self,
        store: &<Self::State as ReadOnlyDurableCatalogState>::Store,
    ) -> (generation: Result<Option<u64>, CatalogError>)
        requires
            old(self).wf(),
            Self::State::store_wf(store),
        ensures
            final(self).wf(),
            generation == (match read_outcome(Self::State::fault(store)) {
                Ok(_) => Ok::<Option<u64>, CatalogError>(
                    lookup(Self::State::durable(store).contents, deploy_generation_key()),
                ),
                Err(error) => Err::<Option<u64>, CatalogError>(error),
            }),
    ;

    /// Releases the openable without opening the catalog.
    fn expire(self)
        requires
            self.wf(),
    ;
}

/// A read only API for the durable catalog state.
pub trait ReadOnlyDurableCatalogState: Sized {
    /// The store that handles of this kind work on.
    type Store;

    /// The durable state that `store` holds.
    spec fn durable(store: &Self::Store) -> CatalogView;

    /// The failure that `store` simulates.
    spec fn fault(store: &Self::Store) -> Fault;

    /// The invariant of the store.
    spec fn store_wf(store: &Self::Store) -> bool;

    /// What the handle holds in memory.
    spec fn handle(&self) -> HandleView;

    /// The invariant of the handle.
    spec fn wf(&self) -> bool;

    /// A handle that keeps its invariant holds a positive epoch, and a session
    /// only where it is a savepoint.
    proof fn lemma_handle_is_well_formed(&self)
        requires
            self.wf(),
        ensures
            self.handle().wf(),
    ;

    /// Returns the epoch of the handle. The epoch acts as a fencing token:
    /// every writable open persists the next one, so that no two handles that
    /// were opened for writing hold the same.
    fn epoch(&mut self) -> (epoch: Epoch)
        requires
            old(self).wf(),
        ensures
            final(self).wf(),
            final(self).handle() == old(self).handle(),
            epoch@ == old(self).handle().epoch,
    ;

    /// Releases the handle.
    fn expire(self)
        requires
            self.wf(),
    ;

    /// Get all timelines and their persisted timestamps: the key's id is the
    /// timeline, the value its timestamp.
    fn get_timestamps(&mut self, store: &Self::Store) -> (timestamps: Result<
        Vec<Entry>,
        CatalogError,
    >)
        requires
            old(self).wf(),
            Self::store_wf(store),
        ensures
            final(self).wf(),
            final(self).handle() == old(self).handle(),
            listing_matches(
                timestamps,
                old(self).handle(),
                Self::durable(store),
                Self::fault(store),
                CollectionKind::Timestamp,
            ),
    ;

    /// Get all audit log events.
    fn get_audit_logs(&mut self, store: &Self::Store) -> (events: Result<Vec<Entry>, CatalogError>)
        requires
            old(self).wf(),
            Self::store_wf(store),
        ensures
            final(self).wf(),
            final(self).handle() == old(self).handle(),
            listing_matches(
                events,
                old(self).handle(),
                Self::durable(store),
                Self::fault(store),
                CollectionKind::AuditLog,
            ),
    ;

    /// Get the next id of `id_type`, without allocating it.
    fn get_next_id(&mut self, store: &Self::Store, id_type: &str) -> (next: Result<
        u64,
        CatalogError,
    >)
        requires
            old(self).wf(),
            Self::store_wf(store),
        ensures
            final(self).wf(),
            final(self).handle() == old(self).handle(),
            next == old(self).handle().next_id_outcome(
                Self::durable(store),
                Self::fault(store),
                id_type@,
            ),
    ;

    /// Get the next system replica id without allocating it.
    fn get_next_system_replica_id(&mut self, store: &Self::Store) -> (next: Result<
        u64,
        CatalogError,
    >)
        requires
            old(self).wf(),
            Self::store_wf(store),
        ensures
            final(self).wf(),
            final(self).handle() == old(self).handle(),
            next == old(self).handle().next_id_outcome(
                Self::durable(store),
                Self::fault(store),
                SYSTEM_REPLICA_ID_ALLOC_KEY@,
            ),
    {
        self.get_next_id(store, SYSTEM_REPLICA_ID_ALLOC_KEY)
    }

    /// Get the next user replica id without allocating it.
    fn get_next_user_replica_id(&mut self, store: &Self::Store) -> (next: Result<u64, CatalogError>)
        requires
            old(self).wf(),
            Self::store_wf(store),
        ensures
            final(self).wf(),
            final(self).handle() == old(self).handle(),
            next == old(self).handle().next_id_outcome(
                Self::durable(store),
                Self::fault(store),
                USER_REPLICA_ID_ALLOC_KEY@,
            ),
    {
        self.get_next_id(store, USER_REPLICA_ID_ALLOC_KEY)
    }

    /// Get a snapshot of the catalog.
    fn snapshot(&mut self, store: &Self::Store) -> (snapshot: Result<Snapshot, CatalogError>)
        requires
            old(self).wf(),
            Self::store_wf(store),
        ensures
            final(self).wf(),
            final(self).handle() == old(self).handle(),
            match snapshot {
                Ok(snapshot) => old(self).handle().read_outcome(Self::fault(store)) is Ok
                    && snapshot.wf() && snapshot@ == old(self).handle().sees(
                    Self::durable(store),
                ).contents,
                Err(error) => old(self).handle().read_outcome(Self::fault(store)) == Err::<
                    (),
                    CatalogError,
                >(error),
            },
    ;
}

/// A read-write API for the durable catalog state.
pub trait DurableCatalogState: ReadOnlyDurableCatalogState {
    /// Returns true if the catalog is opened in read only mode, false
    /// otherwise.
    fn is_read_only(&self) -> (read_only: bool)
        requires
            self.wf(),
        ensures
            read_only == (self.handle().mode is ReadOnly),
    ;

    /// Creates a new durable catalog state transaction over a fresh snapshot.
    fn transaction(&mut self, store: &Self::Store) -> (txn: Result<Transaction, CatalogError>)
        requires
            old(self).wf(),
            Self::store_wf(store),
        ensures
            final(self).wf(),
            final(self).handle() == old(self).handle(),
            match txn {
                Ok(txn) => {
                    let contents = old(self).handle().sees(Self::durable(store)).contents;
                    old(self).handle().read_outcome(Self::fault(store)) is Ok && txn.wf() && txn@
                        == contents && txn.base() == contents
                },
                Err(error) => old(self).handle().read_outcome(Self::fault(store)) == Err::<
                    (),
                    CatalogError,
                >(error),
            },
    ;

    /// Commits a durable catalog state transaction: all of its changes, or,
    /// where the commit fails, none. The handle's epoch is checked in the same
    /// step.
    fn commit_transaction(&mut self, store: &mut Self::Store, txn_batch: TransactionBatch) -> (outcome:
        Result<(), CatalogError>)
        requires
            old(self).wf(),
            Self::store_wf(old(store)),
            txn_batch.wf(),
        ensures
            outcome == old(self).handle().write_outcome(
                Self::durable(old(store)),
                Self::fault(old(store)),
            ),
            write_effect(
                *old(self),
                *final(self),
                *old(store),
                *final(store),
                outcome is Ok,
                apply_diff(old(self).handle().sees(Self::durable(old(store))).contents, txn_batch@),
            ),
    ;

    /// Confirms that this catalog is connected as the current leader.
    fn confirm_leadership(&mut self, store: &Self::Store) -> (outcome: Result<(), CatalogError>)
        requires
            old(self).wf(),
            Self::store_wf(store),
        ensures
            final(self).wf(),
            final(self).handle() == old(self).handle(),
            outcome == old(self).handle().leadership_outcome(
                Self::durable(store),
                Self::fault(store),
            ),
    ;

    /// Gets the storage usage events that are kept and permanently deletes
    /// those that happened more than the retention period before `boot_ts`.
    /// The key's id is the event's id, the value the time it happened.
    fn get_and_prune_storage_usage(
        &mut self,
        store: &mut Self::Store,
        retention_period: Option<u64>,
        boot_ts: u64,
    ) -> (events: Result<Vec<Entry>, CatalogError>)
        requires
            old(self).wf(),
            Self::store_wf(old(store)),
        ensures
            match events {
                Ok(rows) => old(self).handle().write_outcome(
                    Self::durable(old(store)),
                    Self::fault(old(store)),
                ) is Ok && lists(
                    rows@,
                    pruned(
                        old(self).handle().sees(Self::durable(old(store))).contents,
                        retention_cutoff(retention_period, boot_ts),
                    ),
                    CollectionKind::StorageUsage,
                ),
                Err(error) => old(self).handle().write_outcome(
                    Self::durable(old(store)),
                    Self::fault(old(store)),
                ) == Err::<(), CatalogError>(error),
            },
            write_effect(
                *old(self),
                *final(self),
                *old(store),
                *final(store),
                events is Ok,
                pruned(
                    old(self).handle().sees(Self::durable(old(store))).contents,
                    retention_cutoff(retention_period, boot_ts),
                ),
            ),
    ;

    /// Persist new global timestamp for a timeline.
    fn set_timestamp(&mut self, store: &mut Self::Store, timeline: u64, timestamp: u64) -> (outcome:
        Result<(), CatalogError>)
        requires
            old(self).wf(),
            Self::store_wf(old(store)),
        ensures
            outcome == old(self).handle().write_outcome(
                Self::durable(old(store)),
                Self::fault(old(store)),
            ),
            write_effect(
                *old(self),
                *final(self),
                *old(store),
                *final(store),
                outcome is Ok,
                old(self).handle().sees(Self::durable(old(store))).contents.insert(
                    timestamp_key(timeline),
                    timestamp,
                ),
            ),
    ;

    /// Allocates and returns `amount` ids of `id_type`, in ascending order,
    /// and moves the watermark past them in the same step.
    fn allocate_id(&mut self, store: &mut Self::Store, id_type: &str, amount: u64) -> (ids: Result<
        Vec<u64>,
        CatalogError,
    >)
        requires
            old(self).wf(),
            Self::store_wf(old(store)),
        ensures
            vec_matches(
                ids,
                old(self).handle().allocate_outcome(
                    Self::durable(old(store)),
                    Self::fault(old(store)),
                    id_type@,
                    amount,
                ),
            ),
            write_effect(
                *old(self),
                *final(self),
                *old(store),
                *final(store),
                ids is Ok,
                counted(
                    old(self).handle().sees(Self::durable(old(store))).contents,
                    id_type@,
                    amount,
                ),
            ),
    ;

    /// Allocates and returns `amount` system [`GlobalId`]s.
    fn allocate_system_ids(&mut self, store: &mut Self::Store, amount: u64) -> (ids: Result<
        Vec<GlobalId>,
        CatalogError,
    >)
        requires
            old(self).wf(),
            Self::store_wf(old(store)),
        ensures
            match old(self).handle().allocate_outcome(
                Self::durable(old(store)),
                Self::fault(old(store)),
                SYSTEM_ITEM_ALLOC_KEY@,
                amount,
            ) {
                Ok(raw) => ids is Ok && ids->Ok_0@ == tagged(raw, |id: u64| GlobalId::System(id)),
                Err(error) => ids == Err::<Vec<GlobalId>, CatalogError>(error),
            },
            write_effect(
                *old(self),
                *final(self),
                *old(store),
                *final(store),
                ids is Ok,
                counted(
                    old(self).handle().sees(Self::durable(old(store))).contents,
                    SYSTEM_ITEM_ALLOC_KEY@,
                    amount,
                ),
            ),
    {
        let raw = match self.allocate_id(store, SYSTEM_ITEM_ALLOC_KEY, amount) {
            Ok(raw) => raw,
            Err(error) => {
                return Err(error);
            },
        };
        let mut ids: Vec<GlobalId> = Vec::new();
        let mut i: usize = 0;
        while i < raw.len()
            invariant
                i <= raw@.len(),
                ids@.len() == i,
                forall|j: int| 0 <= j < i ==> ids@[j] == GlobalId::System(raw@[j]),
            decreases raw@.len() - i,
        {
            ids.push(GlobalId::System(raw[i]));
            i = i + 1;
        }
        assert(ids@ =~= tagged(raw@, |id: u64| GlobalId::System(id)));
        Ok(ids)
    }

    /// Allocates and returns a user [`GlobalId`].
    fn allocate_user_id(&mut self, store: &mut Self::Store) -> (id: Result<GlobalId, CatalogError>)
        requires
            old(self).wf(),
            Self::store_wf(old(store)),
        ensures
            match old(self).handle().allocate_outcome(
                Self::durable(old(store)),
                Self::fault(old(store)),
                USER_ITEM_ALLOC_KEY@,
                1,
            ) {
                Ok(raw) => id == Ok::<GlobalId, CatalogError>(GlobalId::User(raw[0])),
                Err(error) => id == Err::<GlobalId, CatalogError>(error),
            },
            write_effect(
                *old(self),
                *final(self),
                *old(store),
                *final(store),
                id is Ok,
                counted(
                    old(self).handle().sees(Self::durable(old(store))).contents,
                    USER_ITEM_ALLOC_KEY@,
                    1,
                ),
            ),
    {
        match self.allocate_id(store, USER_ITEM_ALLOC_KEY, 1) {
            Ok(raw) => Ok(GlobalId::User(raw[0])),
            Err(error) => Err(error),
        }
    }

    /// Allocates and returns a system [`ClusterId`].
    fn allocate_system_cluster_id(&mut self, store: &mut Self::Store) -> (id: Result<
        ClusterId,
        CatalogError,
    >)
        requires
            old(self).wf(),
            Self::store_wf(old(store)),
        ensures
            match old(self).handle().allocate_outcome(
                Self::durable(old(store)),
                Self::fault(old(store)),
                SYSTEM_CLUSTER_ID_ALLOC_KEY@,
                1,
            ) {
                Ok(raw) => id == Ok::<ClusterId, CatalogError>(ClusterId::System(raw[0])),
                Err(error) => id == Err::<ClusterId, CatalogError>(error),
            },
            write_effect(
                *old(self),
                *final(self),
                *old(store),
                *final(store),
                id is Ok,
                counted(
                    old(self).handle().sees(Self::durable(old(store))).contents,
                    SYSTEM_CLUSTER_ID_ALLOC_KEY@,
                    1,
                ),
            ),
    {
        match self.allocate_id(store, SYSTEM_CLUSTER_ID_ALLOC_KEY, 1) {
            Ok(raw) => Ok(ClusterId::System(raw[0])),
            Err(error) => Err(error),
        }
    }

    /// Allocates and returns a user [`ClusterId`].
    fn allocate_user_cluster_id(&mut self, store: &mut Self::Store) -> (id: Result<
        ClusterId,
        CatalogError,
    >)
        requires
            old(self).wf(),
            Self::store_wf(old(store)),
        ensures
            match old(self).handle().allocate_outcome(
                Self::durable(old(store)),
                Self::fault(old(store)),
                USER_CLUSTER_ID_ALLOC_KEY@,
                1,
            ) {
                Ok(raw) => id == Ok::<ClusterId, CatalogError>(ClusterId::User(raw[0])),
                Err(error) => id == Err::<ClusterId, CatalogError>(error),
            },
            write_effect(
                *old(self),
                *final(self),
                *old(store),
                *final(store),
                id is Ok,
                counted(
                    old(self).handle().sees(Self::durable(old(store))).contents,
                    USER_CLUSTER_ID_ALLOC_KEY@,
                    1,
                ),
            ),
    {
        match self.allocate_id(store, USER_CLUSTER_ID_ALLOC_KEY, 1) {
            Ok(raw) => Ok(ClusterId::User(raw[0])),
            Err(error) => Err(error),
        }
    }

    /// Allocates and returns a user [`ReplicaId`].
    fn allocate_user_replica_id(&mut self, store: &mut Self::Store) -> (id: Result<
        ReplicaId,
        CatalogError,
    >)
        requires
            old(self).wf(),
            Self::store_wf(old(store)),
        ensures
            match old(self).handle().allocate_outcome(
                Self::durable(old(store)),
                Self::fault(old(store)),
                USER_REPLICA_ID_ALLOC_KEY@,
                1,
            ) {
                Ok(raw) => id == Ok::<ReplicaId, CatalogError>(ReplicaId::User(raw[0])),
                Err(error) => id == Err::<ReplicaId, CatalogError>(error),
            },
            write_effect(
                *old(self),
                *final(self),
                *old(store),
                *final(store),
                id is Ok,
                counted(
                    old(self).handle().sees(Self::durable(old(store))).contents,
                    USER_REPLICA_ID_ALLOC_KEY@,
                    1,
                ),
            ),
    {
        match self.allocate_id(store, USER_REPLICA_ID_ALLOC_KEY, 1) {
            Ok(raw) => Ok(ReplicaId::User(raw[0])),
            Err(error) => Err(error),
        }
    }
}

} // verus!
