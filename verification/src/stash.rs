//! The transactional store: it holds the current state and replaces it in one
//! step.

use crate::connection::Connection;
use crate::durable::OpenableDurableCatalogState;
use crate::error::CatalogError;
use crate::model::{CatalogView, Fault};
use crate::objects::BootstrapArgs;
use crate::state::{Backend, DurableState};
use crate::transaction::TransactionBatch;
use vstd::prelude::*;

verus! {

/// A store that keeps the current state of the catalog and carries out each
/// write as one transaction: the changes are staged on a copy, and the copy
/// takes the place of the state only when all of them are staged.
pub struct StashStore {
    state: DurableState,
    fault: Fault,
}

impl StashStore {
    /// A store that holds no catalog yet.
    pub fn new() -> (store: StashStore)
        ensures
            store.wf(),
            store.durable() == CatalogView::empty(),
            store.fault() == Fault::Healthy,
    {
        StashStore { state: DurableState::new(), fault: Fault::Healthy }
    }

    /// Tells the store which failure to simulate from now on.
    pub fn set_fault(&mut self, fault: Fault)
        requires
            old(self).wf(),
        ensures
            final(self).wf(),
            final(self).durable() == old(self).durable(),
            final(self).fault() == fault,
    {
        self.fault = fault;
    }
}

impl Backend for StashStore {
    closed spec fn durable(&self) -> CatalogView {
        self.state@
    }

    closed spec fn fault(&self) -> Fault {
        self.fault
    }

    closed spec fn wf(&self) -> bool {
        self.state.wf()
    }

    fn load(&self) -> (state: Result<DurableState, CatalogError>) {
        match self.fault {
            Fault::Offline => Err(CatalogError::BackendFailure),
            _ => Ok(self.state.duplicate()),
        }
    }

    fn compare_and_apply(&mut self, expected: u64, advance: bool, batch: TransactionBatch) -> (outcome:
        Result<(), CatalogError>) {
        match self.fault {
            Fault::Offline => {
                return Err(CatalogError::BackendFailure);
            },
            _ => {},
        }
        if self.state.epoch() != expected {
            return Err(CatalogError::FencedOut);
        }
        let epoch = if advance {
            if expected == u64::MAX {
                return Err(CatalogError::EpochExhaustion);
            }
            expected + 1
        } else {
            expected
        };
        let total = batch.changes().len();
        match self.fault {
            Fault::CrashDuringWrite { after } => {
                let reached = if after < total {
                    after
                } else {
                    total
                };
                let _abandoned = self.state.stage(&batch, reached);
                Err(CatalogError::BackendFailure)
            },
            _ => {
                let staged = self.state.stage(&batch, total);
                self.state.install(epoch, staged);
                Ok(())
            },
        }
    }
}

/// Where a stash is found.
#[derive(Clone, Debug)]
pub struct StashConfig {
    /// The address of the database that holds the stash.
    pub postgres_url: String,
    /// The schema of the stash within the database, where it is not the
    /// default one.
    pub schema: Option<String>,
}

/// A catalog on a stash that is not opened yet.
pub struct OpenableConnection {
    config: StashConfig,
}

impl OpenableConnection {
    /// The configuration that the openable was made with.
    pub closed spec fn config(&self) -> StashConfig {
        self.config
    }

    /// An openable for the stash that `config` names.
    pub fn new(config: StashConfig) -> (openable: OpenableConnection)
        ensures
            openable.wf(),
            openable.config() == config,
    {
        OpenableConnection { config }
    }

    /// The configuration that the openable was made with.
    pub fn stash_config(&self) -> (config: &StashConfig)
        ensures
            *config == self.config(),
    {
        &self.config
    }
}

impl OpenableDurableCatalogState for OpenableConnection {
    type State = Connection<StashStore>;

    open spec fn wf(&self) -> bool {
        true
    }

    fn open_savepoint(
        self,
        store: &StashStore,
        boot_ts: u64,
        bootstrap_args: &BootstrapArgs,
        deploy_generation: Option<u64>,
    ) -> (state: Result<Connection<StashStore>, CatalogError>) {
        Connection::open_savepoint(store, boot_ts, bootstrap_args, deploy_generation)
    }

    fn open_read_only(self, store: &StashStore, boot_ts: u64, bootstrap_args: &BootstrapArgs) -> (state:
        Result<Connection<StashStore>, CatalogError>) {
        Connection::open_read_only(store)
    }

    fn open(
        self,
        store: &mut StashStore,
        boot_ts: u64,
        bootstrap_args: &BootstrapArgs,
        deploy_generation: Option<u64>,
    ) -> (state: Result<Connection<StashStore>, CatalogError>) {
        Connection::open(store, boot_ts, bootstrap_args, deploy_generation)
    }

    fn is_initialized(&mut self, store: &StashStore) -> (initialized: Result<bool, CatalogError>) {
        Connection::is_initialized(store)
    }

    fn get_deployment_generation(&mut self, store: &StashStore) -> (generation: Result<
        Option<u64>,
        CatalogError,
    >) {
        Connection::get_deployment_generation(store)
    }

    fn expire(self) {
    }
}

/// Makes stashes for tests: each in a schema of its own, so that tests do not
/// meet.
#[derive(Clone, Debug)]
pub struct DebugStashFactory {
    url: String,
    schema: String,
}

impl DebugStashFactory {
    /// The address of the database that the factory works on.
    pub closed spec fn url(&self) -> Seq<char> {
        self.url@
    }

    /// The schema that the factory keeps its stashes in.
    pub closed spec fn schema(&self) -> Seq<char> {
        self.schema@
    }

    /// A factory for the database at `url`, with its stashes in `schema`.
    pub fn new(url: String, schema: String) -> (factory: DebugStashFactory)
        ensures
            factory.url() == url@,
            factory.schema() == schema@,
    {
        DebugStashFactory { url, schema }
    }

    /// The configuration of the stashes that the factory makes.
    pub fn config(&self) -> (config: StashConfig)
        ensures
            config.postgres_url@ == self.url(),
            config.schema is Some,
            config.schema->Some_0@ == self.schema(),
    {
        StashConfig { postgres_url: self.url.clone(), schema: Some(self.schema.clone()) }
    }
}

/// A catalog on a stash of a [`DebugStashFactory`] that is not opened yet.
pub struct DebugOpenableConnection<'a> {
    debug_stash_factory: &'a DebugStashFactory,
}

impl<'a> DebugOpenableConnection<'a> {
    /// The factory that the openable belongs to.
    pub closed spec fn factory(&self) -> DebugStashFactory {
        *self.debug_stash_factory
    }

    /// An openable for a stash of `debug_stash_factory`.
    pub fn new(debug_stash_factory: &'a DebugStashFactory) -> (openable: DebugOpenableConnection<
        'a,
    >)
        ensures
            openable.wf(),
            openable.factory() == *debug_stash_factory,
    {
        DebugOpenableConnection { debug_stash_factory }
    }

    /// The factory that the openable belongs to.
    pub fn debug_stash_factory(&self) -> (factory: &'a DebugStashFactory)
        ensures
            *factory == self.factory(),
    {
        self.debug_stash_factory
    }
}

impl<'a> OpenableDurableCatalogState for DebugOpenableConnection<'a> {
    type State = Connection<StashStore>;

    open spec fn wf(&self) -> bool {
        true
    }

    fn open_savepoint(
        self,
        store: &StashStore,
        boot_ts: u64,
        bootstrap_args: &BootstrapArgs,
        deploy_generation: Option<u64>,
    ) -> (state: Result<Connection<StashStore>, CatalogError>) {
        Connection::open_savepoint(store, boot_ts, bootstrap_args, deploy_generation)
    }

    fn open_read_only(self, store: &StashStore, boot_ts: u64, bootstrap_args: &BootstrapArgs) -> (state:
        Result<Connection<StashStore>, CatalogError>) {
        Connection::open_read_only(store)
    }

    fn open(
        self,
        store: &mut StashStore,
        boot_ts: u64,
        bootstrap_args: &BootstrapArgs,
        deploy_generation: Option<u64>,
    ) -> (state: Result<Connection<StashStore>, CatalogError>) {
        Connection::open(store, boot_ts, bootstrap_args, deploy_generation)
    }

    fn is_initialized(&mut self, store: &StashStore) -> (initialized: Result<bool, CatalogError>) {
        Connection::is_initialized(store)
    }

    fn get_deployment_generation(&mut self, store: &StashStore) -> (generation: Result<
        Option<u64>,
        CatalogError,
    >) {
        Connection::get_deployment_generation(store)
    }

    fn expire(self) {
    }
}

} // verus!
