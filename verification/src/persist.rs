//! The log store: it appends what every write did and never rewrites.

use crate::connection::Connection;
use crate::diff::apply_diff;
use crate::durable::OpenableDurableCatalogState;
use crate::error::CatalogError;
use crate::model::{written_epoch, CatalogView, Fault};
use crate::objects::{BootstrapArgs, Key};
use crate::state::{Backend, DurableState};
use crate::transaction::TransactionBatch;
use uuid::Uuid;
use vstd::prelude::*;

verus! {

/// `uuid::Uuid`, the id of an organization. The library carries it through
/// and never looks inside.
#[verifier::external_type_specification]
#[verifier::external_body]
pub struct ExUuid(uuid::Uuid);

/// One record of the log: the epoch that a write persisted and the changes
/// that it made.
pub struct LogRecord {
    epoch: u64,
    changes: TransactionBatch,
}

/// What one record of the log says: the epoch that a write persisted and the
/// diff that it carried out.
pub struct Appended {
    pub epoch: nat,
    pub diff: Map<Key, Option<u64>>,
}

/// The state that a log stands for: each record in turn persists its epoch
/// and carries out its diff on what the records before it left.
pub open spec fn replay(history: Seq<Appended>) -> CatalogView
    decreases history.len(),
{
    if history.len() == 0 {
        CatalogView::empty()
    } else {
        CatalogView {
            epoch: history.last().epoch,
            contents: apply_diff(replay(history.drop_last()).contents, history.last().diff),
        }
    }
}

/// A store that keeps the catalog as an append-only log. A write appends one
/// record, which is there in full or not at all; a read replays the log.
pub struct PersistStore {
    log: Vec<LogRecord>,
    fault: Fault,
}

impl PersistStore {
    /// What the records of the log say, oldest first.
    pub closed spec fn history(&self) -> Seq<Appended> {
        self.log@.map_values(|record: LogRecord| record.said())
    }

    /// The durable state of the store is what its log stands for.
    pub proof fn lemma_durable_is_replay(&self)
        ensures
            self.durable() == replay(self.history()),
    {
    }

    /// A store whose log is empty: it holds no catalog yet.
    pub fn new() -> (store: PersistStore)
        ensures
            store.wf(),
            store.durable() == CatalogView::empty(),
            store.fault() == Fault::Healthy,
            store.history() == Seq::<Appended>::empty(),
    {
        let store = PersistStore { log: Vec::new(), fault: Fault::Healthy };
        assert(store.history() =~= Seq::<Appended>::empty());
        store
    }

    /// Tells the store which failure to simulate from now on.
    pub fn set_fault(&mut self, fault: Fault)
        requires
            old(self).wf(),
        ensures
            final(self).wf(),
            final(self).durable() == old(self).durable(),
            final(self).fault() == fault,
            final(self).history() == old(self).history(),
    {
        self.fault = fault;
    }

    /// The number of records in the log.
    pub fn log_len(&self) -> (n: usize)
        ensures
            n == self.history().len(),
    {
        self.log.len()
    }

    /// The epoch that the last record persisted, zero for an empty log.
    fn persisted_epoch(&self) -> (epoch: u64)
        ensures
            epoch == self.durable().epoch,
    {
        let n = self.log.len();
        if n == 0 {
            0
        } else {
            assert(self.history().last() == self.log@[n - 1].said());
            self.log[n - 1].epoch
        }
    }
}

impl LogRecord {
    /// What the record says.
    pub closed spec fn said(self) -> Appended {
        Appended { epoch: self.epoch as nat, diff: self.changes@ }
    }
}

impl Backend for PersistStore {
    closed spec fn durable(&self) -> CatalogView {
        replay(self.history())
    }

    closed spec fn fault(&self) -> Fault {
        self.fault
    }

    closed spec fn wf(&self) -> bool {
        forall|i: int| 0 <= i < self.log@.len() ==> (#[trigger] self.log@[i]).changes.wf()
    }

    fn load(&self) -> (state: Result<DurableState, CatalogError>) {
        match self.fault {
            Fault::Offline => {
                return Err(CatalogError::BackendFailure);
            },
            _ => {},
        }
        let mut state = DurableState::new();
        let mut i: usize = 0;
        assert(self.history().take(0) =~= Seq::<Appended>::empty());
        while i < self.log.len()
            invariant
                i <= self.log@.len(),
                self.wf(),
                state.wf(),
                state@ == replay(self.history().take(i as int)),
            decreases self.log@.len() - i,
        {
            proof {
                let next = self.history().take(i + 1);
                assert(next.drop_last() =~= self.history().take(i as int));
                assert(next.last() == self.log@[i as int].said());
            }
            state.commit(self.log[i].epoch, &self.log[i].changes);
            i = i + 1;
        }
        assert(self.history().take(i as int) =~= self.history());
        Ok(state)
    }

    fn compare_and_apply(&mut self, expected: u64, advance: bool, batch: TransactionBatch) -> (outcome:
        Result<(), CatalogError>)
        ensures
            final(self).history() == (if outcome is Ok {
                old(self).history().push(
                    Appended { epoch: written_epoch(expected as nat, advance), diff: batch@ },
                )
            } else {
                old(self).history()
            }),
    {
        match self.fault {
            Fault::Offline => {
                return Err(CatalogError::BackendFailure);
            },
            _ => {},
        }
        if self.persisted_epoch() != expected {
            return Err(CatalogError::FencedOut);
        }
        let epoch = if advance {
            if expected == u64::MAX {
                return Err(CatalogError::EpochExhaustion);
            }
            expected + 1
        } else {
            expected
        };
        match self.fault {
            Fault::CrashDuringWrite { after: _ } => Err(CatalogError::BackendFailure),
            _ => {
                let record = LogRecord { epoch, changes: batch };
                proof {
                    let next = self.history().push(record.said());
                    assert(next.drop_last() =~= self.history());
                    assert(next.last() == record.said());
                    assert(self.log@.push(record).map_values(|record: LogRecord| record.said())
                        =~= next);
                }
                self.log.push(record);
                Ok(())
            },
        }
    }
}

/// Where the log and its consensus are found.
#[derive(Clone, Debug)]
pub struct PersistClient {
    /// The address of the blob storage that holds the log.
    pub blob_uri: String,
    /// The address of the consensus service that orders the appends.
    pub consensus_uri: String,
}

/// A catalog on the log of one organization that is not opened yet.
pub struct PersistHandle {
    persist_client: PersistClient,
    organization_id: Uuid,
}

impl PersistHandle {
    /// The client that the handle was made with.
    pub closed spec fn client(&self) -> PersistClient {
        self.persist_client
    }

    /// The organization whose catalog the handle opens.
    pub closed spec fn organization(&self) -> Uuid {
        self.organization_id
    }

    /// A handle for the catalog of `organization_id`, reached through
    /// `persist_client`.
    pub fn new(persist_client: PersistClient, organization_id: Uuid) -> (handle: PersistHandle)
        ensures
            handle.wf(),
            handle.client() == persist_client,
            handle.organization() == organization_id,
    {
        PersistHandle { persist_client, organization_id }
    }

    /// The client that the handle was made with.
    pub fn persist_client(&self) -> (client: &PersistClient)
        ensures
            *client == self.client(),
    {
        &self.persist_client
    }

    /// The organization whose catalog the handle opens.
    pub fn organization_id(&self) -> (organization_id: Uuid)
        ensures
            organization_id == self.organization(),
    {
        self.organization_id
    }
}

impl OpenableDurableCatalogState for PersistHandle {
    type State = Connection<PersistStore>;

    open spec fn wf(&self) -> bool {
        true
    }

    fn open_savepoint(
        self,
        store: &PersistStore,
        boot_ts: u64,
        bootstrap_args: &BootstrapArgs,
        deploy_generation: Option<u64>,
    ) -> (state: Result<Connection<PersistStore>, CatalogError>) {
        Connection::open_savepoint(store, boot_ts, bootstrap_args, deploy_generation)
    }

    fn open_read_only(
        self,
        store: &PersistStore,
        boot_ts: u64,
        bootstrap_args: &BootstrapArgs,
    ) -> (state: Result<Connection<PersistStore>, CatalogError>) {
        Connection::open_read_only(store)
    }

    fn open(
        self,
        store: &mut PersistStore,
        boot_ts: u64,
        bootstrap_args: &BootstrapArgs,
        deploy_generation: Option<u64>,
    ) -> (state: Result<Connection<PersistStore>, CatalogError>) {
        Connection::open(store, boot_ts, bootstrap_args, deploy_generation)
    }

    fn is_initialized(&mut self, store: &PersistStore) -> (initialized: Result<bool, CatalogError>) {
        Connection::is_initialized(store)
    }

    fn get_deployment_generation(&mut self, store: &PersistStore) -> (generation: Result<
        Option<u64>,
        CatalogError,
    >) {
        Connection::get_deployment_generation(store)
    }

    fn expire(self) {
    }
}

} // verus!
