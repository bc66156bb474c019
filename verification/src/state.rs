//! The durable state as a value in memory, and the contract that every
//! storage engine meets.

use crate::diff::apply_diff;
use crate::error::CatalogError;
use crate::model::{read_outcome, store_write_outcome, written_epoch, CatalogView, Fault};
use crate::table::Table;
use crate::transaction::{Snapshot, TransactionBatch};
use vstd::prelude::*;

verus! {

/// The whole durable state in memory: the persisted epoch and the records.
/// On its own it is the plainest storage engine, one that never fails.
pub struct DurableState {
    epoch: u64,
    table: Table<u64>,
}

impl View for DurableState {
    type V = CatalogView;

    closed spec fn view(&self) -> CatalogView {
        CatalogView { epoch: self.epoch as nat, contents: self.table@ }
    }
}

impl DurableState {
    /// The state's invariant.
    pub closed spec fn wf(&self) -> bool {
        self.table.wf()
    }

    /// The state of a catalog that was never initialized.
    pub fn new() -> (state: DurableState)
        ensures
            state.wf(),
            state@ == CatalogView::empty(),
    {
        DurableState { epoch: 0, table: Table::new() }
    }

    /// A state without records that persists `epoch`: a catalog as a test
    /// finds it after that many opens.
    pub fn with_epoch(epoch: u64) -> (state: DurableState)
        ensures
            state.wf(),
            state@ == (CatalogView { epoch: epoch as nat, contents: Map::empty() }),
    {
        DurableState { epoch, table: Table::new() }
    }

    /// The persisted epoch, zero while the catalog was never initialized.
    pub fn epoch(&self) -> (epoch: u64)
        ensures
            epoch == self@.epoch,
    {
        self.epoch
    }

    /// A copy of the state.
    pub fn duplicate(&self) -> (copy: DurableState)
        ensures
            copy@ == self@,
            copy.wf() == self.wf(),
    {
        DurableState { epoch: self.epoch, table: self.table.duplicate() }
    }

    /// A snapshot of the records.
    pub fn snapshot(&self) -> (snapshot: Snapshot)
        ensures
            snapshot@ == self@.contents,
            snapshot.wf() == self.wf(),
    {
        Snapshot::from_table(self.table.duplicate())
    }

    /// Carries out the first `count` changes of `batch` on a copy of the
    /// records and hands the copy back; the state itself stays as it is.
    pub(crate) fn stage(&self, batch: &TransactionBatch, count: usize) -> (staged: Table<u64>)
        requires
            self.wf(),
            batch.wf(),
            count <= batch.lines().len(),
        ensures
            staged.wf(),
            count == batch.lines().len() ==> staged@ == apply_diff(
                self@.contents,
                batch@,
            ),
    {
        let mut staged = self.table.duplicate();
        let changes = batch.changes();
        assert(changes.rows().take(changes.rows().len() as int) =~= changes.rows());
        staged.apply_prefix(changes, count);
        staged
    }

    /// Puts `epoch` and the staged records in place of what the state held.
    pub(crate) fn install(&mut self, epoch: u64, staged: Table<u64>)
        requires
            staged.wf(),
        ensures
            final(self).wf(),
            final(self)@ == (CatalogView { epoch: epoch as nat, contents: staged@ }),
    {
        self.epoch = epoch;
        self.table = staged;
    }

    /// Persists `epoch` and carries out `batch` on the records.
    pub(crate) fn commit(&mut self, epoch: u64, batch: &TransactionBatch)
        requires
            old(self).wf(),
            batch.wf(),
        ensures
            final(self).wf(),
            final(self)@ == (CatalogView {
                epoch: epoch as nat,
                contents: apply_diff(old(self)@.contents, batch@),
            }),
    {
        self.epoch = epoch;
        self.table.apply(batch.changes());
    }
}

/// A storage engine: it holds the durable state of one catalog, hands it out
/// whole, and replaces it in one atomic step that is fenced by the epoch. The
/// persisted epoch changes only by advancing to the next one.
pub trait Backend: Sized {
    /// The durable state that the engine holds.
    spec fn durable(&self) -> CatalogView;

    /// The failure that the engine simulates.
    spec fn fault(&self) -> Fault;

    /// The engine's invariant.
    spec fn wf(&self) -> bool;

    /// Reads the durable state. Fails only while the engine is offline.
    fn load(&self) -> (state: Result<DurableState, CatalogError>)
        requires
            self.wf(),
        ensures
            match state {
                Ok(state) => read_outcome(self.fault()) is Ok && state.wf() && state@
                    == self.durable(),
                Err(error) => read_outcome(self.fault()) == Err::<(), CatalogError>(error),
            },
    ;

    /// Carries out `batch`, and persists the next epoch where `advance` is
    /// set, in one step, provided that the persisted epoch is `expected`. A
    /// write that fails changes nothing.
    fn compare_and_apply(&mut self, expected: u64, advance: bool, batch: TransactionBatch) -> (outcome:
        Result<(), CatalogError>)
        requires
            old(self).wf(),
            batch.wf(),
        ensures
            final(self).wf(),
            final(self).fault() == old(self).fault(),
            outcome == store_write_outcome(
                old(self).durable(),
                old(self).fault(),
                expected as nat,
                advance,
            ),
            final(self).durable() == (if outcome is Ok {
                CatalogView {
                    epoch: written_epoch(expected as nat, advance),
                    contents: apply_diff(old(self).durable().contents, batch@),
                }
            } else {
                old(self).durable()
            }),
    ;
}

impl Backend for DurableState {
    open spec fn durable(&self) -> CatalogView {
        self@
    }

    open spec fn fault(&self) -> Fault {
        Fault::Healthy
    }

    open spec fn wf(&self) -> bool {
        DurableState::wf(self)
    }

    fn load(&self) -> (state: Result<DurableState, CatalogError>) {
        Ok(self.duplicate())
    }

    fn compare_and_apply(&mut self, expected: u64, advance: bool, batch: TransactionBatch) -> (outcome:
        Result<(), CatalogError>) {
        // What the contract says of the store, in terms of the state itself.
        assert(Backend::wf(&*self) == DurableState::wf(&*self));
        assert(Backend::fault(&*self) == Fault::Healthy);
        assert(Backend::durable(&*self) == self@);
        if self.epoch != expected {
            return Err(CatalogError::FencedOut);
        }
        let epoch = if advance {
            if expected == u64::MAX {
                return Err(CatalogError::EpochExhaustion);
            }
            expected + 1
        } else {
            expected
        };
        self.commit(epoch, &batch);
        Ok(())
    }
}

} // verus!
