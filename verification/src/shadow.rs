//! The shadow catalog: two catalogs behind one handle. Every call goes to
//! both. The first is authoritative: what it answers is what the caller gets.
//! The second is the shadow: what it answers is compared, and every
//! divergence is noted in a log that the caller can read.

use crate::diff::apply_diff;
use crate::durable::{
    write_effect, DurableCatalogState, OpenableDurableCatalogState, ReadOnlyDurableCatalogState,
};
use crate::error::CatalogError;
use crate::diff::lookup;
use crate::model::{
    counted, deploy_generation_key, in_collection, open_outcome, open_read_only_outcome,
    open_savepoint_outcome, opened, pruned, read_outcome, retention_cutoff, timestamp_key,
    CatalogView, Fault, HandleView, Mode,
};
use crate::objects::{BootstrapArgs, CollectionKind, Entry, Epoch, Key};
use crate::table::{same_ids, same_rows};
use crate::transaction::{Snapshot, Transaction, TransactionBatch};
use vstd::prelude::*;

verus! {

/// The calls that a shadow catalog compares.
#[derive(Clone, Copy, Debug, PartialEq, Eq, Structural, Hash)]
pub enum Operation {
    Open,
    OpenReadOnly,
    OpenSavepoint,
    IsInitialized,
    GetDeploymentGeneration,
    Epoch,
    GetTimestamps,
    GetAuditLogs,
    GetNextId,
    Snapshot,
    Transaction,
    CommitTransaction,
    ConfirmLeadership,
    GetAndPruneStorageUsage,
    SetTimestamp,
    AllocateId,
}

/// How the answers of the two catalogs differ.
#[derive(Clone, Copy, Debug, PartialEq, Eq, Structural, Hash)]
pub enum DiscrepancyKind {
    /// Both succeeded, with different values.
    ValuesDiffer,
    /// Both failed, with different errors.
    ErrorsDiffer,
    /// Only the shadow failed. The caller's operation succeeded.
    ShadowFailed,
    /// Only the authoritative catalog failed. The caller's operation failed.
    AuthoritativeFailed,
}

/// One divergence between the two catalogs: the call that showed it, and how
/// the answers differed.
#[derive(Clone, Copy, Debug, PartialEq, Eq, Structural, Hash)]
pub struct Discrepancy {
    pub operation: Operation,
    pub kind: DiscrepancyKind,
}

/// How two outcomes diverge, if they do. `same` says whether the values of
/// two successes are the same.
pub open spec fn divergence<T, U>(
    authoritative: Result<T, CatalogError>,
    shadow: Result<U, CatalogError>,
    same: bool,
) -> Option<DiscrepancyKind> {
    match (authoritative, shadow) {
        (Ok(_), Ok(_)) => if same {
            None
        } else {
            Some(DiscrepancyKind::ValuesDiffer)
        },
        (Ok(_), Err(_)) => Some(DiscrepancyKind::ShadowFailed),
        (Err(_), Ok(_)) => Some(DiscrepancyKind::AuthoritativeFailed),
        (Err(a), Err(b)) => if a == b {
            None
        } else {
            Some(DiscrepancyKind::ErrorsDiffer)
        },
    }
}

/// The log after a call: one entry longer where the answers diverged.
pub open spec fn noted(
    log: Seq<Discrepancy>,
    operation: Operation,
    found: Option<DiscrepancyKind>,
) -> Seq<Discrepancy> {
    match found {
        Some(kind) => log.push(Discrepancy { operation, kind }),
        None => log,
    }
}

/// How two results diverge, if they do.
pub fn classify<T, U>(
    authoritative: &Result<T, CatalogError>,
    shadow: &Result<U, CatalogError>,
    same: bool,
) -> (found: Option<DiscrepancyKind>)
    ensures
        found == divergence(*authoritative, *shadow, same),
{
    match authoritative {
        Ok(_) => match shadow {
            Ok(_) => if same {
                None
            } else {
                Some(DiscrepancyKind::ValuesDiffer)
            },
            Err(_) => Some(DiscrepancyKind::ShadowFailed),
        },
        Err(a) => match shadow {
            Ok(_) => Some(DiscrepancyKind::AuthoritativeFailed),
            Err(b) => if *a == *b {
                None
            } else {
                Some(DiscrepancyKind::ErrorsDiffer)
            },
        },
    }
}

/// The records that a handle sees on `store`.
pub open spec fn seen<S: ReadOnlyDurableCatalogState>(state: S, store: S::Store) -> Map<Key, u64> {
    state.handle().sees(S::durable(&store)).contents
}

/// The records of one collection that a handle sees on `store`.
pub open spec fn seen_of<S: ReadOnlyDurableCatalogState>(
    state: S,
    store: S::Store,
    kind: CollectionKind,
) -> Map<Key, u64> {
    seen(state, store).restrict(in_collection(kind))
}

/// Whether a read through a handle succeeds on `store`.
pub open spec fn read_of<S: ReadOnlyDurableCatalogState>(state: S, store: S::Store) -> Result<
    (),
    CatalogError,
> {
    state.handle().read_outcome(S::fault(&store))
}

/// Whether a write through a handle takes place on `store`.
pub open spec fn write_of<S: ReadOnlyDurableCatalogState>(state: S, store: S::Store) -> Result<
    (),
    CatalogError,
> {
    state.handle().write_outcome(S::durable(&store), S::fault(&store))
}

/// The shadow that an open leaves: the handle that the open of the second
/// catalog handed out, or none where that open failed.
pub open spec fn shadow_opened<B: DurableCatalogState>(
    shadow: Option<B>,
    outcome: Result<nat, CatalogError>,
    mode: Mode,
    session: CatalogView,
) -> bool {
    match outcome {
        Ok(epoch) => shadow is Some && shadow->Some_0.wf() && shadow->Some_0.handle() == (
        HandleView { epoch, mode, session }),
        Err(_) => shadow is None,
    }
}

/// The stores of a shadow catalog: that of the authoritative catalog and
/// that of the shadow.
pub struct ShadowStore<S, P> {
    pub stash: S,
    pub persist: P,
}

/// An open shadow catalog. `stash` is the authoritative catalog, `persist`
/// the shadow; the shadow is missing where it could not be opened.
pub struct ShadowCatalogState<A: DurableCatalogState, B: DurableCatalogState> {
    stash: A,
    persist: Option<B>,
    discrepancies: Vec<Discrepancy>,
}

impl<A: DurableCatalogState, B: DurableCatalogState> ShadowCatalogState<A, B> {
    /// The authoritative catalog.
    pub closed spec fn authoritative(&self) -> A {
        self.stash
    }

    /// The shadow, where it could be opened.
    pub closed spec fn shadow(&self) -> Option<B> {
        self.persist
    }

    /// The divergences noted so far, oldest first.
    pub closed spec fn log(&self) -> Seq<Discrepancy> {
        self.discrepancies@
    }

    /// What a call that only reads leaves of the shadow and the log: the
    /// shadow as it was, and `found` noted where there is a shadow.
    pub open spec fn after_read(
        before: Self,
        after: Self,
        operation: Operation,
        found: Option<DiscrepancyKind>,
    ) -> bool {
        match before.shadow() {
            Some(shadow) => after.shadow() is Some && after.shadow()->Some_0.handle()
                == shadow.handle() && after.log() == noted(before.log(), operation, found),
            None => after.shadow() is None && after.log() == before.log(),
        }
    }

    /// What a mutating call leaves of the shadow and the log: the shadow and
    /// its store after its own write, and `found` noted where there is a
    /// shadow.
    pub open spec fn after_write(
        before: Self,
        after: Self,
        store_before: B::Store,
        store_after: B::Store,
        operation: Operation,
        found: Option<DiscrepancyKind>,
        done: bool,
        contents: Map<Key, u64>,
    ) -> bool {
        match before.shadow() {
            Some(shadow) => after.shadow() is Some && write_effect::<B>(
                shadow,
                after.shadow()->Some_0,
                store_before,
                store_after,
                done,
                contents,
            ) && after.log() == noted(before.log(), operation, found),
            None => after.shadow() is None && after.log() == before.log() && store_after
                == store_before,
        }
    }

    /// The divergences noted so far, oldest first.
    pub fn discrepancies(&self) -> (log: &Vec<Discrepancy>)
        ensures
            log@ == self.log(),
    {
        &self.discrepancies
    }

    /// Puts the two catalogs that an open handed out behind one handle. The
    /// open fails where the authoritative one failed; a shadow that failed is
    /// left out. A divergence of the two opens is noted in `log`.
    fn assemble(
        authoritative: Result<A, CatalogError>,
        shadow: Result<B, CatalogError>,
        log: Vec<Discrepancy>,
        operation: Operation,
    ) -> (state: Result<Self, CatalogError>)
        requires
            authoritative is Ok ==> authoritative->Ok_0.wf(),
            shadow is Ok ==> shadow->Ok_0.wf(),
        ensures
            match authoritative {
                Ok(a) => state is Ok && state->Ok_0.wf() && state->Ok_0.authoritative().handle()
                    == a.handle() && (match shadow {
                    Ok(b) => state->Ok_0.shadow() is Some && state->Ok_0.shadow()->Some_0.handle()
                        == b.handle(),
                    Err(_) => state->Ok_0.shadow() is None,
                }) && state->Ok_0.log() == noted(
                    log@,
                    operation,
                    divergence(
                        authoritative,
                        shadow,
                        a.handle().epoch == shadow->Ok_0.handle().epoch,
                    ),
                ),
                Err(error) => state is Err && state->Err_0 == error,
            },
    {
        match authoritative {
            Ok(mut stash) => {
                let epoch = stash.epoch();
                let (persist, found) = match shadow {
                    Ok(mut persist) => {
                        let same = persist.epoch().get() == epoch.get();
                        (
                            Some(persist),
                            if same {
                                None
                            } else {
                                Some(DiscrepancyKind::ValuesDiffer)
                            },
                        )
                    },
                    Err(_) => (None, Some(DiscrepancyKind::ShadowFailed)),
                };
                let mut state = ShadowCatalogState { stash, persist, discrepancies: log };
                state.note(operation, found);
                Ok(state)
            },
            Err(error) => Err(error),
        }
    }

    /// Notes a divergence, where one was found.
    fn note(&mut self, operation: Operation, found: Option<DiscrepancyKind>)
        ensures
            final(self).authoritative() == old(self).authoritative(),
            final(self).shadow() == old(self).shadow(),
            final(self).log() == noted(old(self).log(), operation, found),
    {
        match found {
            Some(kind) => {
                self.discrepancies.push(Discrepancy { operation, kind });
            },
            None => {},
        }
    }
}

impl<A: DurableCatalogState, B: DurableCatalogState> ReadOnlyDurableCatalogState for ShadowCatalogState<
    A,
    B,
> {
    type Store = ShadowStore<A::Store, B::Store>;

    open spec fn durable(store: &ShadowStore<A::Store, B::Store>) -> CatalogView {
        A::durable(&store.stash)
    }

    open spec fn fault(store: &ShadowStore<A::Store, B::Store>) -> Fault {
        A::fault(&store.stash)
    }

    open spec fn store_wf(store: &ShadowStore<A::Store, B::Store>) -> bool {
        A::store_wf(&store.stash) && B::store_wf(&store.persist)
    }

    open spec fn handle(&self) -> HandleView {
        self.authoritative().handle()
    }

    open spec fn wf(&self) -> bool {
        self.authoritative().wf() && (self.shadow() is Some ==> self.shadow()->Some_0.wf())
    }

    proof fn lemma_handle_is_well_formed(&self) {
        self.authoritative().lemma_handle_is_well_formed();
    }

    fn epoch(&mut self) -> (epoch: Epoch)
        ensures
            Self::after_read(
                *old(self),
                *final(self),
                Operation::Epoch,
                if old(self).authoritative().handle().epoch == old(
                    self,
                ).shadow()->Some_0.handle().epoch {
                    None
                } else {
                    Some(DiscrepancyKind::ValuesDiffer)
                },
            ),
    {
        let epoch = self.stash.epoch();
        let found = match &mut self.persist {
            Some(persist) => {
                let shadow = persist.epoch();
                if epoch.get() == shadow.get() {
                    None
                } else {
                    Some(DiscrepancyKind::ValuesDiffer)
                }
            },
            None => None,
        };
        self.note(Operation::Epoch, found);
        epoch
    }

    fn expire(self) {
        self.stash.expire();
        match self.persist {
            Some(persist) => {
                persist.expire();
            },
            None => {},
        }
    }

    fn get_timestamps(&mut self, store: &ShadowStore<A::Store, B::Store>) -> (timestamps: Result<
        Vec<Entry>,
        CatalogError,
    >)
        ensures
            Self::after_read(
                *old(self),
                *final(self),
                Operation::GetTimestamps,
                divergence(
                    read_of(old(self).authoritative(), store.stash),
                    read_of(old(self).shadow()->Some_0, store.persist),
                    seen_of(old(self).authoritative(), store.stash, CollectionKind::Timestamp)
                        == seen_of(
                        old(self).shadow()->Some_0,
                        store.persist,
                        CollectionKind::Timestamp,
                    ),
                ),
            ),
    {
        let authoritative = self.stash.get_timestamps(&store.stash);
        let found = match &mut self.persist {
            Some(persist) => {
                let shadow = persist.get_timestamps(&store.persist);
                let same = match (&authoritative, &shadow) {
                    (Ok(a), Ok(b)) => same_rows(a, b),
                    _ => true,
                };
                classify(&authoritative, &shadow, same)
            },
            None => None,
        };
        self.note(Operation::GetTimestamps, found);
        authoritative
    }

    fn get_audit_logs(&mut self, store: &ShadowStore<A::Store, B::Store>) -> (events: Result<
        Vec<Entry>,
        CatalogError,
    >)
        ensures
            Self::after_read(
                *old(self),
                *final(self),
                Operation::GetAuditLogs,
                divergence(
                    read_of(old(self).authoritative(), store.stash),
                    read_of(old(self).shadow()->Some_0, store.persist),
                    seen_of(old(self).authoritative(), store.stash, CollectionKind::AuditLog)
                        == seen_of(
                        old(self).shadow()->Some_0,
                        store.persist,
                        CollectionKind::AuditLog,
                    ),
                ),
            ),
    {
        let authoritative = self.stash.get_audit_logs(&store.stash);
        let found = match &mut self.persist {
            Some(persist) => {
                let shadow = persist.get_audit_logs(&store.persist);
                let same = match (&authoritative, &shadow) {
                    (Ok(a), Ok(b)) => same_rows(a, b),
                    _ => true,
                };
                classify(&authoritative, &shadow, same)
            },
            None => None,
        };
        self.note(Operation::GetAuditLogs, found);
        authoritative
    }

    fn get_next_id(&mut self, store: &ShadowStore<A::Store, B::Store>, id_type: &str) -> (next:
        Result<u64, CatalogError>)
        ensures
            Self::after_read(
                *old(self),
                *final(self),
                Operation::GetNextId,
                divergence(
                    old(self).authoritative().handle().next_id_outcome(
                        A::durable(&store.stash),
                        A::fault(&store.stash),
                        id_type@,
                    ),
                    old(self).shadow()->Some_0.handle().next_id_outcome(
                        B::durable(&store.persist),
                        B::fault(&store.persist),
                        id_type@,
                    ),
                    old(self).authoritative().handle().next_id_outcome(
                        A::durable(&store.stash),
                        A::fault(&store.stash),
                        id_type@,
                    ) == old(self).shadow()->Some_0.handle().next_id_outcome(
                        B::durable(&store.persist),
                        B::fault(&store.persist),
                        id_type@,
                    ),
                ),
            ),
    {
        let authoritative = self.stash.get_next_id(&store.stash, id_type);
        let found = match &mut self.persist {
            Some(persist) => {
                let shadow = persist.get_next_id(&store.persist, id_type);
                let same = match (&authoritative, &shadow) {
                    (Ok(a), Ok(b)) => *a == *b,
                    _ => true,
                };
                classify(&authoritative, &shadow, same)
            },
            None => None,
        };
        self.note(Operation::GetNextId, found);
        authoritative
    }

    fn snapshot(&mut self, store: &ShadowStore<A::Store, B::Store>) -> (snapshot: Result<
        Snapshot,
        CatalogError,
    >)
        ensures
            Self::after_read(
                *old(self),
                *final(self),
                Operation::Snapshot,
                divergence(
                    read_of(old(self).authoritative(), store.stash),
                    read_of(old(self).shadow()->Some_0, store.persist),
                    seen(old(self).authoritative(), store.stash) == seen(
                        old(self).shadow()->Some_0,
                        store.persist,
                    ),
                ),
            ),
    {
        let authoritative = self.stash.snapshot(&store.stash);
        let found = match &mut self.persist {
            Some(persist) => {
                let shadow = persist.snapshot(&store.persist);
                let same = match (&authoritative, &shadow) {
                    (Ok(a), Ok(b)) => a.same_contents(b),
                    _ => true,
                };
                classify(&authoritative, &shadow, same)
            },
            None => None,
        };
        self.note(Operation::Snapshot, found);
        authoritative
    }
}

impl<A: DurableCatalogState, B: DurableCatalogState> DurableCatalogState for ShadowCatalogState<
    A,
    B,
> {
    fn is_read_only(&self) -> (read_only: bool) {
        self.stash.is_read_only()
    }

    fn transaction(&mut self, store: &ShadowStore<A::Store, B::Store>) -> (txn: Result<
        Transaction,
        CatalogError,
    >)
        ensures
            Self::after_read(
                *old(self),
                *final(self),
                Operation::Transaction,
                divergence(
                    read_of(old(self).authoritative(), store.stash),
                    read_of(old(self).shadow()->Some_0, store.persist),
                    seen(old(self).authoritative(), store.stash) == seen(
                        old(self).shadow()->Some_0,
                        store.persist,
                    ),
                ),
            ),
    {
        let authoritative = self.stash.transaction(&store.stash);
        let found = match &mut self.persist {
            Some(persist) => {
                let shadow = persist.transaction(&store.persist);
                let same = match (&authoritative, &shadow) {
                    (Ok(a), Ok(b)) => a.same_contents(b),
                    _ => true,
                };
                classify(&authoritative, &shadow, same)
            },
            None => None,
        };
        self.note(Operation::Transaction, found);
        authoritative
    }

    fn commit_transaction(
        &mut self,
        store: &mut ShadowStore<A::Store, B::Store>,
        txn_batch: TransactionBatch,
    ) -> (outcome: Result<(), CatalogError>)
        ensures
            Self::after_write(
                *old(self),
                *final(self),
                old(store).persist,
                final(store).persist,
                Operation::CommitTransaction,
                divergence(
                    write_of(old(self).authoritative(), old(store).stash),
                    write_of(old(self).shadow()->Some_0, old(store).persist),
                    true,
                ),
                write_of(old(self).shadow()->Some_0, old(store).persist) is Ok,
                apply_diff(seen(old(self).shadow()->Some_0, old(store).persist), txn_batch@),
            ),
    {
        let copy = txn_batch.duplicate();
        let authoritative = self.stash.commit_transaction(&mut store.stash, txn_batch);
        let found = match &mut self.persist {
            Some(persist) => {
                let shadow = persist.commit_transaction(&mut store.persist, copy);
                classify(&authoritative, &shadow, true)
            },
            None => None,
        };
        self.note(Operation::CommitTransaction, found);
        authoritative
    }

    fn confirm_leadership(&mut self, store: &ShadowStore<A::Store, B::Store>) -> (outcome: Result<
        (),
        CatalogError,
    >)
        ensures
            Self::after_read(
                *old(self),
                *final(self),
                Operation::ConfirmLeadership,
                divergence(
                    old(self).authoritative().handle().leadership_outcome(
                        A::durable(&store.stash),
                        A::fault(&store.stash),
                    ),
                    old(self).shadow()->Some_0.handle().leadership_outcome(
                        B::durable(&store.persist),
                        B::fault(&store.persist),
                    ),
                    true,
                ),
            ),
    {
        let authoritative = self.stash.confirm_leadership(&store.stash);
        let found = match &mut self.persist {
            Some(persist) => {
                let shadow = persist.confirm_leadership(&store.persist);
                classify(&authoritative, &shadow, true)
            },
            None => None,
        };
        self.note(Operation::ConfirmLeadership, found);
        authoritative
    }

    fn get_and_prune_storage_usage(
        &mut self,
        store: &mut ShadowStore<A::Store, B::Store>,
        retention_period: Option<u64>,
        boot_ts: u64,
    ) -> (events: Result<Vec<Entry>, CatalogError>)
        ensures
            Self::after_write(
                *old(self),
                *final(self),
                old(store).persist,
                final(store).persist,
                Operation::GetAndPruneStorageUsage,
                divergence(
                    write_of(old(self).authoritative(), old(store).stash),
                    write_of(old(self).shadow()->Some_0, old(store).persist),
                    pruned(
                        seen(old(self).authoritative(), old(store).stash),
                        retention_cutoff(retention_period, boot_ts),
                    ).restrict(in_collection(CollectionKind::StorageUsage)) == pruned(
                        seen(old(self).shadow()->Some_0, old(store).persist),
                        retention_cutoff(retention_period, boot_ts),
                    ).restrict(in_collection(CollectionKind::StorageUsage)),
                ),
                write_of(old(self).shadow()->Some_0, old(store).persist) is Ok,
                pruned(
                    seen(old(self).shadow()->Some_0, old(store).persist),
                    retention_cutoff(retention_period, boot_ts),
                ),
            ),
    {
        let authoritative = self.stash.get_and_prune_storage_usage(
            &mut store.stash,
            retention_period,
            boot_ts,
        );
        let found = match &mut self.persist {
            Some(persist) => {
                let shadow = persist.get_and_prune_storage_usage(
                    &mut store.persist,
                    retention_period,
                    boot_ts,
                );
                let same = match (&authoritative, &shadow) {
                    (Ok(a), Ok(b)) => same_rows(a, b),
                    _ => true,
                };
                classify(&authoritative, &shadow, same)
            },
            None => None,
        };
        self.note(Operation::GetAndPruneStorageUsage, found);
        authoritative
    }

    fn set_timestamp(
        &mut self,
        store: &mut ShadowStore<A::Store, B::Store>,
        timeline: u64,
        timestamp: u64,
    ) -> (outcome: Result<(), CatalogError>)
        ensures
            Self::after_write(
                *old(self),
                *final(self),
                old(store).persist,
                final(store).persist,
                Operation::SetTimestamp,
                divergence(
                    write_of(old(self).authoritative(), old(store).stash),
                    write_of(old(self).shadow()->Some_0, old(store).persist),
                    true,
                ),
                write_of(old(self).shadow()->Some_0, old(store).persist) is Ok,
                seen(old(self).shadow()->Some_0, old(store).persist).insert(
                    timestamp_key(timeline),
                    timestamp,
                ),
            ),
    {
        let authoritative = self.stash.set_timestamp(&mut store.stash, timeline, timestamp);
        let found = match &mut self.persist {
            Some(persist) => {
                let shadow = persist.set_timestamp(&mut store.persist, timeline, timestamp);
                classify(&authoritative, &shadow, true)
            },
            None => None,
        };
        self.note(Operation::SetTimestamp, found);
        authoritative
    }

    fn allocate_id(
        &mut self,
        store: &mut ShadowStore<A::Store, B::Store>,
        id_type: &str,
        amount: u64,
    ) -> (ids: Result<Vec<u64>, CatalogError>)
        ensures
            Self::after_write(
                *old(self),
                *final(self),
                old(store).persist,
                final(store).persist,
                Operation::AllocateId,
                divergence(
                    old(self).authoritative().handle().allocate_outcome(
                        A::durable(&old(store).stash),
                        A::fault(&old(store).stash),
                        id_type@,
                        amount,
                    ),
                    old(self).shadow()->Some_0.handle().allocate_outcome(
                        B::durable(&old(store).persist),
                        B::fault(&old(store).persist),
                        id_type@,
                        amount,
                    ),
                    old(self).authoritative().handle().allocate_outcome(
                        A::durable(&old(store).stash),
                        A::fault(&old(store).stash),
                        id_type@,
                        amount,
                    ) == old(self).shadow()->Some_0.handle().allocate_outcome(
                        B::durable(&old(store).persist),
                        B::fault(&old(store).persist),
                        id_type@,
                        amount,
                    ),
                ),
                old(self).shadow()->Some_0.handle().allocate_outcome(
                    B::durable(&old(store).persist),
                    B::fault(&old(store).persist),
                    id_type@,
                    amount,
                ) is Ok,
                counted(seen(old(self).shadow()->Some_0, old(store).persist), id_type@, amount),
            ),
    {
        let authoritative = self.stash.allocate_id(&mut store.stash, id_type, amount);
        let found = match &mut self.persist {
            Some(persist) => {
                let shadow = persist.allocate_id(&mut store.persist, id_type, amount);
                let same = match (&authoritative, &shadow) {
                    (Ok(a), Ok(b)) => same_ids(a, b),
                    _ => true,
                };
                classify(&authoritative, &shadow, same)
            },
            None => None,
        };
        self.note(Operation::AllocateId, found);
        authoritative
    }
}

/// A shadow catalog that is not opened yet: the openables of the two
/// catalogs, and what their probes have shown so far.
pub struct OpenableShadowCatalogState<
    A: OpenableDurableCatalogState,
    B: OpenableDurableCatalogState,
> {
    stash: A,
    persist: B,
    discrepancies: Vec<Discrepancy>,
}

impl<A: OpenableDurableCatalogState, B: OpenableDurableCatalogState> OpenableShadowCatalogState<
    A,
    B,
> {
    /// The openable of the authoritative catalog.
    pub closed spec fn authoritative(&self) -> A {
        self.stash
    }

    /// The openable of the shadow.
    pub closed spec fn shadow(&self) -> B {
        self.persist
    }

    /// The divergences noted so far, oldest first.
    pub closed spec fn log(&self) -> Seq<Discrepancy> {
        self.discrepancies@
    }

    /// A shadow catalog over the two openables, `stash` being authoritative.
    pub fn new(stash: A, persist: B) -> (openable: Self)
        requires
            stash.wf(),
            persist.wf(),
        ensures
            openable.wf(),
            openable.authoritative() == stash,
            openable.shadow() == persist,
            openable.log() == Seq::<Discrepancy>::empty(),
    {
        OpenableShadowCatalogState { stash, persist, discrepancies: Vec::new() }
    }

    /// The divergences noted so far, oldest first.
    pub fn discrepancies(&self) -> (log: &Vec<Discrepancy>)
        ensures
            log@ == self.log(),
    {
        &self.discrepancies
    }

    /// Notes a divergence, where one was found.
    fn note(&mut self, operation: Operation, found: Option<DiscrepancyKind>)
        ensures
            final(self).authoritative() == old(self).authoritative(),
            final(self).shadow() == old(self).shadow(),
            final(self).log() == noted(old(self).log(), operation, found),
    {
        match found {
            Some(kind) => {
                self.discrepancies.push(Discrepancy { operation, kind });
            },
            None => {},
        }
    }
}

impl<
    A: OpenableDurableCatalogState,
    B: OpenableDurableCatalogState,
> OpenableDurableCatalogState for OpenableShadowCatalogState<A, B> {
    type State = ShadowCatalogState<A::State, B::State>;

    open spec fn wf(&self) -> bool {
        self.authoritative().wf() && self.shadow().wf()
    }

    fn open_savepoint(
        self,
        store: &ShadowStore<
            <A::State as ReadOnlyDurableCatalogState>::Store,
            <B::State as ReadOnlyDurableCatalogState>::Store,
        >,
        boot_ts: u64,
        bootstrap_args: &BootstrapArgs,
        deploy_generation: Option<u64>,
    ) -> (state: Result<ShadowCatalogState<A::State, B::State>, CatalogError>)
        ensures
            state is Ok ==> state->Ok_0.log() == noted(
                self.log(),
                Operation::OpenSavepoint,
                divergence(
                    open_savepoint_outcome(
                        A::State::durable(&store.stash),
                        A::State::fault(&store.stash),
                    ),
                    open_savepoint_outcome(
                        B::State::durable(&store.persist),
                        B::State::fault(&store.persist),
                    ),
                    A::State::durable(&store.stash).epoch == B::State::durable(
                        &store.persist,
                    ).epoch,
                ),
            ),
            state is Ok ==> shadow_opened(
                state->Ok_0.shadow(),
                open_savepoint_outcome(
                    B::State::durable(&store.persist),
                    B::State::fault(&store.persist),
                ),
                Mode::Savepoint,
                opened(
                    B::State::durable(&store.persist),
                    boot_ts,
                    bootstrap_args.bootstrap_role is Some,
                    deploy_generation,
                ),
            ),
    {
        let authoritative = self.stash.open_savepoint(
            &store.stash,
            boot_ts,
            bootstrap_args,
            deploy_generation,
        );
        let shadow = self.persist.open_savepoint(
            &store.persist,
            boot_ts,
            bootstrap_args,
            deploy_generation,
        );
        ShadowCatalogState::assemble(
            authoritative,
            shadow,
            self.discrepancies,
            Operation::OpenSavepoint,
        )
    }

    fn open_read_only(
        self,
        store: &ShadowStore<
            <A::State as ReadOnlyDurableCatalogState>::Store,
            <B::State as ReadOnlyDurableCatalogState>::Store,
        >,
        boot_ts: u64,
        bootstrap_args: &BootstrapArgs,
    ) -> (state: Result<ShadowCatalogState<A::State, B::State>, CatalogError>)
        ensures
            state is Ok ==> state->Ok_0.log() == noted(
                self.log(),
                Operation::OpenReadOnly,
                divergence(
                    open_read_only_outcome(
                        A::State::durable(&store.stash),
                        A::State::fault(&store.stash),
                    ),
                    open_read_only_outcome(
                        B::State::durable(&store.persist),
                        B::State::fault(&store.persist),
                    ),
                    A::State::durable(&store.stash).epoch == B::State::durable(
                        &store.persist,
                    ).epoch,
                ),
            ),
            state is Ok ==> shadow_opened(
                state->Ok_0.shadow(),
                open_read_only_outcome(
                    B::State::durable(&store.persist),
                    B::State::fault(&store.persist),
                ),
                Mode::ReadOnly,
                CatalogView::empty(),
            ),
    {
        let authoritative = self.stash.open_read_only(&store.stash, boot_ts, bootstrap_args);
        let shadow = self.persist.open_read_only(&store.persist, boot_ts, bootstrap_args);
        ShadowCatalogState::assemble(
            authoritative,
            shadow,
            self.discrepancies,
            Operation::OpenReadOnly,
        )
    }

    fn open(
        self,
        store: &mut ShadowStore<
            <A::State as ReadOnlyDurableCatalogState>::Store,
            <B::State as ReadOnlyDurableCatalogState>::Store,
        >,
        boot_ts: u64,
        bootstrap_args: &BootstrapArgs,
        deploy_generation: Option<u64>,
    ) -> (state: Result<ShadowCatalogState<A::State, B::State>, CatalogError>)
        ensures
            state is Ok ==> state->Ok_0.log() == noted(
                self.log(),
                Operation::Open,
                divergence(
                    open_outcome(
                        A::State::durable(&old(store).stash),
                        A::State::fault(&old(store).stash),
                    ),
                    open_outcome(
                        B::State::durable(&old(store).persist),
                        B::State::fault(&old(store).persist),
                    ),
                    A::State::durable(&old(store).stash).epoch == B::State::durable(
                        &old(store).persist,
                    ).epoch,
                ),
            ),
            state is Ok ==> shadow_opened(
                state->Ok_0.shadow(),
                open_outcome(
                    B::State::durable(&old(store).persist),
                    B::State::fault(&old(store).persist),
                ),
                Mode::Writable,
                CatalogView::empty(),
            ),
            B::State::fault(&final(store).persist) == B::State::fault(&old(store).persist),
            B::State::durable(&final(store).persist) == (if open_outcome(
                B::State::durable(&old(store).persist),
                B::State::fault(&old(store).persist),
            ) is Ok {
                opened(
                    B::State::durable(&old(store).persist),
                    boot_ts,
                    bootstrap_args.bootstrap_role is Some,
                    deploy_generation,
                )
            } else {
                B::State::durable(&old(store).persist)
            }),
    {
        let authoritative = self.stash.open(
            &mut store.stash,
            boot_ts,
            bootstrap_args,
            deploy_generation,
        );
        let shadow = self.persist.open(
            &mut store.persist,
            boot_ts,
            bootstrap_args,
            deploy_generation,
        );
        ShadowCatalogState::assemble(authoritative, shadow, self.discrepancies, Operation::Open)
    }

    fn is_initialized(
        &mut self,
        store: &ShadowStore<
            <A::State as ReadOnlyDurableCatalogState>::Store,
            <B::State as ReadOnlyDurableCatalogState>::Store,
        >,
    ) -> (initialized: Result<bool, CatalogError>)
        ensures
            final(self).log() == noted(
                old(self).log(),
                Operation::IsInitialized,
                divergence(
                    read_outcome(A::State::fault(&store.stash)),
                    read_outcome(B::State::fault(&store.persist)),
                    (A::State::durable(&store.stash).epoch > 0) == (B::State::durable(
                        &store.persist,
                    ).epoch > 0),
                ),
            ),
    {
        let authoritative = self.stash.is_initialized(&store.stash);
        let shadow = self.persist.is_initialized(&store.persist);
        let same = match (&authoritative, &shadow) {
            (Ok(a), Ok(b)) => *a == *b,
            _ => true,
        };
        let found = classify(&authoritative, &shadow, same);
        self.note(Operation::IsInitialized, found);
        authoritative
    }

    fn get_deployment_generation(
        &mut self,
        store: &ShadowStore<
            <A::State as ReadOnlyDurableCatalogState>::Store,
            <B::State as ReadOnlyDurableCatalogState>::Store,
        >,
    ) -> (generation: Result<Option<u64>, CatalogError>)
        ensures
            final(self).log() == noted(
                old(self).log(),
                Operation::GetDeploymentGeneration,
                divergence(
                    read_outcome(A::State::fault(&store.stash)),
                    read_outcome(B::State::fault(&store.persist)),
                    lookup(A::State::durable(&store.stash).contents, deploy_generation_key())
                        == lookup(
                        B::State::durable(&store.persist).contents,
                        deploy_generation_key(),
                    ),
                ),
            ),
    {
        let authoritative = self.stash.get_deployment_generation(&store.stash);
        let shadow = self.persist.get_deployment_generation(&store.persist);
        let same = match (&authoritative, &shadow) {
            (Ok(Some(a)), Ok(Some(b))) => *a == *b,
            (Ok(None), Ok(None)) => true,
            (Ok(_), Ok(_)) => false,
            _ => true,
        };
        let found = classify(&authoritative, &shadow, same);
        self.note(Operation::GetDeploymentGeneration, found);
        authoritative
    }

    fn expire(self) {
        self.stash.expire();
        self.persist.expire();
    }
}

} // verus!
