//! The handle that works on one storage engine.

use crate::diff::{apply_diff, lemma_minimal_diff_replays, lookup};
use crate::durable::{write_effect, DurableCatalogState, ReadOnlyDurableCatalogState};
use crate::error::CatalogError;
use crate::ids::IdType;
use crate::initialize::{pending_migration, prepare};
use crate::model::{
    deploy_generation_key, open_outcome, open_read_only_outcome, open_savepoint_outcome, opened,
    read_outcome, CatalogView, Fault, HandleView, Mode, DEPLOY_GENERATION_CONFIG_ID,
};
use crate::objects::{BootstrapArgs, CollectionKind, Entry, Epoch, Key};
use crate::state::{Backend, DurableState};
use crate::transaction::{Snapshot, Transaction, TransactionBatch};
use core::marker::PhantomData;
use vstd::prelude::*;

verus! {

/// An open catalog on a storage engine of kind `B`: the epoch it was opened
/// under, its mode, and, for a savepoint, the session that takes its writes.
pub struct Connection<B: Backend> {
    epoch: u64,
    mode: Mode,
    session: DurableState,
    engine: PhantomData<B>,
}

impl<B: Backend> Connection<B> {
    /// Opens the catalog on `store` for writing: initializes it where it was
    /// never initialized, migrates its contents, and persists the next epoch
    /// together with both, in one step.
    pub fn open(
        store: &mut B,
        boot_ts: u64,
        bootstrap_args: &BootstrapArgs,
        deploy_generation: Option<u64>,
    ) -> (handle: Result<Connection<B>, CatalogError>)
        requires
            old(store).wf(),
        ensures
            final(store).wf(),
            final(store).fault() == old(store).fault(),
            match open_outcome(old(store).durable(), old(store).fault()) {
                Ok(epoch) => handle is Ok && handle->Ok_0.wf() && handle->Ok_0.handle() == (
                HandleView { epoch, mode: Mode::Writable, session: CatalogView::empty() })
                    && final(store).durable() == opened(
                    old(store).durable(),
                    boot_ts,
                    bootstrap_args.bootstrap_role is Some,
                    deploy_generation,
                ),
                Err(error) => handle is Err && handle->Err_0 == error && final(store).durable()
                    == old(store).durable(),
            },
    {
        let state = match store.load() {
            Ok(state) => state,
            Err(error) => {
                return Err(error);
            },
        };
        let persisted = state.epoch();
        if persisted == u64::MAX {
            return Err(CatalogError::EpochExhaustion);
        }
        let txn = prepare(
            &state,
            boot_ts,
            bootstrap_args.bootstrap_role.is_some(),
            deploy_generation,
        );
        proof {
            lemma_minimal_diff_replays(txn.base(), txn@);
        }
        let batch = txn.into_batch();
        match store.compare_and_apply(persisted, true, batch) {
            Ok(()) => Ok(
                Connection {
                    epoch: persisted + 1,
                    mode: Mode::Writable,
                    session: DurableState::new(),
                    engine: PhantomData,
                },
            ),
            Err(error) => Err(error),
        }
    }

    /// Opens the catalog on `store` for reading. Fails where the catalog was
    /// never initialized or its contents need a migration.
    pub fn open_read_only(store: &B) -> (handle: Result<Connection<B>, CatalogError>)
        requires
            store.wf(),
        ensures
            match open_read_only_outcome(store.durable(), store.fault()) {
                Ok(epoch) => handle is Ok && handle->Ok_0.wf() && handle->Ok_0.handle() == (
                HandleView { epoch, mode: Mode::ReadOnly, session: CatalogView::empty() }),
                Err(error) => handle is Err && handle->Err_0 == error,
            },
    {
        let state = match store.load() {
            Ok(state) => state,
            Err(error) => {
                return Err(error);
            },
        };
        if state.epoch() == 0 {
            return Err(CatalogError::Uninitialized);
        }
        if pending_migration(&state) {
            return Err(CatalogError::MigrationRequired);
        }
        Ok(
            Connection {
                epoch: state.epoch(),
                mode: Mode::ReadOnly,
                session: DurableState::new(),
                engine: PhantomData,
            },
        )
    }

    /// Opens a savepoint on the catalog of `store`: a session that starts as a
    /// writable open would leave the catalog, takes every write, and is never
    /// persisted.
    pub fn open_savepoint(
        store: &B,
        boot_ts: u64,
        bootstrap_args: &BootstrapArgs,
        deploy_generation: Option<u64>,
    ) -> (handle: Result<Connection<B>, CatalogError>)
        requires
            store.wf(),
        ensures
            match open_savepoint_outcome(store.durable(), store.fault()) {
                Ok(epoch) => handle is Ok && handle->Ok_0.wf() && handle->Ok_0.handle() == (
                HandleView {
                    epoch,
                    mode: Mode::Savepoint,
                    session: opened(
                        store.durable(),
                        boot_ts,
                        bootstrap_args.bootstrap_role is Some,
                        deploy_generation,
                    ),
                }),
                Err(error) => handle is Err && handle->Err_0 == error,
            },
    {
        let state = match store.load() {
            Ok(state) => state,
            Err(error) => {
                return Err(error);
            },
        };
        let persisted = state.epoch();
        if persisted == u64::MAX {
            return Err(CatalogError::EpochExhaustion);
        }
        let txn = prepare(
            &state,
            boot_ts,
            bootstrap_args.bootstrap_role.is_some(),
            deploy_generation,
        );
        proof {
            lemma_minimal_diff_replays(txn.base(), txn@);
        }
        let batch = txn.into_batch();
        let mut session = state;
        session.commit(persisted + 1, &batch);
        Ok(Connection { epoch: persisted + 1, mode: Mode::Savepoint, session, engine: PhantomData })
    }

    /// Whether the catalog on `store` was ever initialized.
    pub fn is_initialized(store: &B) -> (initialized: Result<bool, CatalogError>)
        requires
            store.wf(),
        ensures
            initialized == (match read_outcome(store.fault()) {
                Ok(_) => Ok::<bool, CatalogError>(store.durable().epoch > 0),
                Err(error) => Err::<bool, CatalogError>(error),
            }),
    {
        match store.load() {
            Ok(state) => Ok(state.epoch() > 0),
            Err(error) => Err(error),
        }
    }

    /// The deployment generation that the catalog on `store` records, if any.
    pub fn get_deployment_generation(store: &B) -> (generation: Result<Option<u64>, CatalogError>)
        requires
            store.wf(),
        ensures
            generation == (match read_outcome(store.fault()) {
                Ok(_) => Ok::<Option<u64>, CatalogError>(
                    lookup(
                        store.durable().contents,
                        deploy_generation_key(),
                    ),
                ),
                Err(error) => Err::<Option<u64>, CatalogError>(error),
            }),
    {
        match store.load() {
            Ok(state) => Ok(
                state.snapshot().get(
                    Key {
                        collection: CollectionKind::Config,
                        id: DEPLOY_GENERATION_CONFIG_ID,
                    },
                ),
            ),
            Err(error) => Err(error),
        }
    }

    /// Reads the state that the handle sees.
    fn read(&self, store: &B) -> (state: Result<DurableState, CatalogError>)
        requires
            self.wf(),
            store.wf(),
        ensures
            match state {
                Ok(state) => self.handle().read_outcome(store.fault()) is Ok && state.wf()
                    && state@ == self.handle().sees(store.durable()),
                Err(error) => self.handle().read_outcome(store.fault()) == Err::<
                    (),
                    CatalogError,
                >(error),
            },
    {
        match self.mode {
            Mode::Savepoint => Ok(self.session.duplicate()),
            _ => store.load(),
        }
    }

    /// Carries out `batch` on the state that the handle sees, under the
    /// handle's epoch.
    fn write(&mut self, store: &mut B, batch: TransactionBatch) -> (outcome: Result<
        (),
        CatalogError,
    >)
        requires
            old(self).wf(),
            old(store).wf(),
            batch.wf(),
        ensures
            outcome == old(self).handle().write_outcome(old(store).durable(), old(store).fault()),
            write_effect(
                *old(self),
                *final(self),
                *old(store),
                *final(store),
                outcome is Ok,
                apply_diff(old(self).handle().sees(old(store).durable()).contents, batch@),
            ),
    {
        match self.mode {
            Mode::ReadOnly => Err(CatalogError::ReadOnlyViolation),
            Mode::Savepoint => self.session.compare_and_apply(self.epoch, false, batch),
            Mode::Writable => store.compare_and_apply(self.epoch, false, batch),
        }
    }

    /// Reads the state that the handle sees, for a write that follows: not on
    /// a read-only handle, and not under an epoch that is no longer the
    /// persisted one.
    fn read_for_write(&self, store: &B) -> (state: Result<DurableState, CatalogError>)
        requires
            self.wf(),
            store.wf(),
        ensures
            match state {
                Ok(state) => !(self.handle().mode is ReadOnly) && !(self.handle().meets(
                    store.fault(),
                ) is Offline) && state.wf() && state@ == self.handle().sees(store.durable())
                    && state@.epoch == self.handle().epoch,
                Err(error) => self.handle().write_outcome(store.durable(), store.fault()) == Err::<
                    (),
                    CatalogError,
                >(error) && !(error is BackendFailure && self.handle().meets(
                    store.fault(),
                ) is CrashDuringWrite),
            },
    {
        match self.mode {
            Mode::ReadOnly => {
                return Err(CatalogError::ReadOnlyViolation);
            },
            _ => {},
        }
        let state = match self.read(store) {
            Ok(state) => state,
            Err(error) => {
                return Err(error);
            },
        };
        if state.epoch() != self.epoch {
            return Err(CatalogError::FencedOut);
        }
        Ok(state)
    }
}

impl<B: Backend> ReadOnlyDurableCatalogState for Connection<B> {
    type Store = B;

    open spec fn durable(store: &B) -> CatalogView {
        store.durable()
    }

    open spec fn fault(store: &B) -> Fault {
        store.fault()
    }

    open spec fn store_wf(store: &B) -> bool {
        store.wf()
    }

    closed spec fn handle(&self) -> HandleView {
        HandleView { epoch: self.epoch as nat, mode: self.mode, session: self.session@ }
    }

    closed spec fn wf(&self) -> bool {
        self.session.wf() && self.handle().wf()
    }

    proof fn lemma_handle_is_well_formed(&self) {
    }

    fn epoch(&mut self) -> (epoch: Epoch) {
        Epoch::from_positive(self.epoch)
    }

    fn expire(self) {
    }

    fn get_timestamps(&mut self, store: &B) -> (timestamps: Result<Vec<Entry>, CatalogError>) {
        match self.read(store) {
            Ok(state) => Ok(state.snapshot().collection(CollectionKind::Timestamp)),
            Err(error) => Err(error),
        }
    }

    fn get_audit_logs(&mut self, store: &B) -> (events: Result<Vec<Entry>, CatalogError>) {
        match self.read(store) {
            Ok(state) => Ok(state.snapshot().collection(CollectionKind::AuditLog)),
            Err(error) => Err(error),
        }
    }

    fn get_next_id(&mut self, store: &B, id_type: &str) -> (next: Result<u64, CatalogError>) {
        let counter = match IdType::from_key(id_type) {
            Some(counter) => counter,
            None => {
                return Err(CatalogError::UnknownIdType);
            },
        };
        let state = match self.read(store) {
            Ok(state) => state,
            Err(error) => {
                return Err(error);
            },
        };
        match state.snapshot().get(counter.allocator_key()) {
            Some(next) => Ok(next),
            None => Err(CatalogError::UnknownIdType),
        }
    }

    fn snapshot(&mut self, store: &B) -> (snapshot: Result<Snapshot, CatalogError>) {
        match self.read(store) {
            Ok(state) => Ok(state.snapshot()),
            Err(error) => Err(error),
        }
    }
}

impl<B: Backend> DurableCatalogState for Connection<B> {
    fn is_read_only(&self) -> (read_only: bool) {
        match self.mode {
            Mode::ReadOnly => true,
            _ => false,
        }
    }

    fn transaction(&mut self, store: &B) -> (txn: Result<Transaction, CatalogError>) {
        match self.read(store) {
            Ok(state) => Ok(Transaction::new(state.snapshot())),
            Err(error) => Err(error),
        }
    }

    fn commit_transaction(&mut self, store: &mut B, txn_batch: TransactionBatch) -> (outcome: Result<
        (),
        CatalogError,
    >) {
        self.write(store, txn_batch)
    }

    fn confirm_leadership(&mut self, store: &B) -> (outcome: Result<(), CatalogError>) {
        match self.read(store) {
            Ok(state) => {
                if state.epoch() == self.epoch {
                    Ok(())
                } else {
                    Err(CatalogError::FencedOut)
                }
            },
            Err(error) => Err(error),
        }
    }

    fn get_and_prune_storage_usage(
        &mut self,
        store: &mut B,
        retention_period: Option<u64>,
        boot_ts: u64,
    ) -> (events: Result<Vec<Entry>, CatalogError>) {
        let state = match self.read_for_write(store) {
            Ok(state) => state,
            Err(error) => {
                return Err(error);
            },
        };
        let cutoff = match retention_period {
            None => 0,
            Some(period) => if boot_ts >= period {
                boot_ts - period
            } else {
                0
            },
        };
        let mut txn = Transaction::new(state.snapshot());
        let retained = txn.prune_storage_usage(cutoff);
        proof {
            lemma_minimal_diff_replays(txn.base(), txn@);
        }
        match self.write(store, txn.into_batch()) {
            Ok(()) => Ok(retained),
            Err(error) => Err(error),
        }
    }

    fn set_timestamp(&mut self, store: &mut B, timeline: u64, timestamp: u64) -> (outcome: Result<
        (),
        CatalogError,
    >) {
        let key = Key { collection: CollectionKind::Timestamp, id: timeline };
        let batch = TransactionBatch::single(key, timestamp);
        proof {
            let contents = self.handle().sees(store.durable()).contents;
            assert(apply_diff(contents, batch@) =~= contents.insert(key, timestamp));
        }
        self.write(store, batch)
    }

    fn allocate_id(&mut self, store: &mut B, id_type: &str, amount: u64) -> (ids: Result<
        Vec<u64>,
        CatalogError,
    >) {
        match self.mode {
            Mode::ReadOnly => {
                return Err(CatalogError::ReadOnlyViolation);
            },
            _ => {},
        }
        if IdType::from_key(id_type).is_none() {
            return Err(CatalogError::UnknownIdType);
        }
        let state = match self.read_for_write(store) {
            Ok(state) => state,
            Err(error) => {
                return Err(error);
            },
        };
        let mut txn = Transaction::new(state.snapshot());
        let ids = match txn.get_and_increment_id_by(id_type, amount) {
            Ok(ids) => ids,
            Err(error) => {
                return Err(error);
            },
        };
        proof {
            lemma_minimal_diff_replays(txn.base(), txn@);
        }
        match self.write(store, txn.into_batch()) {
            Ok(()) => Ok(ids),
            Err(error) => Err(error),
        }
    }
}

} // verus!
