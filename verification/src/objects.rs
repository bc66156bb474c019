//! The plain values that the catalog stores and hands out.

use vstd::prelude::*;

verus! {

/// The collections of the catalog. The set is closed: every record lives in
/// exactly one of them.
#[derive(Clone, Copy, Debug, PartialEq, Eq, Structural, Hash)]
pub enum CollectionKind {
    AuditLog,
    Cluster,
    ClusterIntrospectionSourceIndex,
    ClusterReplica,
    Comments,
    Config,
    Databases,
    DefaultPrivileges,
    IdAllocator,
    Item,
    Roles,
    Schemas,
    Setting,
    StorageUsage,
    SystemConfiguration,
    SystemGidMapping,
    SystemPrivileges,
    Timestamp,
}

/// The place of one record: its collection and its id within the collection.
#[derive(Clone, Copy, Debug, PartialEq, Eq, Structural, Hash)]
pub struct Key {
    pub collection: CollectionKind,
    pub id: u64,
}

/// A key together with what is stored under it.
#[derive(Clone, Copy, Debug, PartialEq, Eq)]
pub struct Row<V> {
    pub key: Key,
    pub value: V,
}

/// A record of the catalog. The value is the record's encoded payload; what it
/// means is the business of the collection's owner.
pub type Entry = Row<u64>;

/// One line of a diff: the value that a key gets, or `None` where the key goes.
pub type Change = Row<Option<u64>>;

/// The fencing token of a writer: a positive counter that every writable open
/// advances. Its view is its value.
#[derive(Clone, Copy, Debug, PartialEq, Eq, Hash)]
pub struct Epoch {
    value: u64,
}

impl View for Epoch {
    type V = nat;

    closed spec fn view(&self) -> nat {
        self.value as nat
    }
}

impl Epoch {
    #[verifier::type_invariant]
    spec fn positive(&self) -> bool {
        self.value >= 1
    }

    /// The epoch of the given value, unless that is zero.
    pub fn new(value: u64) -> (epoch: Option<Epoch>)
        ensures
            match epoch {
                Some(epoch) => value >= 1 && epoch@ == value,
                None => value == 0,
            },
    {
        if value >= 1 {
            Some(Epoch { value })
        } else {
            None
        }
    }

    /// The epoch of the given positive value.
    pub(crate) fn from_positive(value: u64) -> (epoch: Epoch)
        requires
            value >= 1,
        ensures
            epoch@ == value,
    {
        Epoch { value }
    }

    /// The value of the epoch, which is positive.
    pub fn get(&self) -> (value: u64)
        ensures
            value == self@,
            value >= 1,
    {
        proof {
            use_type_invariant(self);
        }
        self.value
    }
}

/// What a catalog is set up with when it is opened for the first time.
#[derive(Clone, Debug)]
pub struct BootstrapArgs {
    pub default_cluster_replica_size: String,
    pub bootstrap_role: Option<String>,
}

/// Bootstrap arguments for tests: replica size `"1"` and no bootstrap role.
pub fn debug_bootstrap_args() -> (args: BootstrapArgs)
    ensures
        args.default_cluster_replica_size@ == "1"@,
        args.bootstrap_role is None,
{
    BootstrapArgs { default_cluster_replica_size: "1".to_owned(), bootstrap_role: None }
}

} // verus!
