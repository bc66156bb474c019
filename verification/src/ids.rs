//! Id namespaces: the counters that ids are allocated from, and the ids that
//! carry the namespace they came from.

use crate::objects::{CollectionKind, Key};
use vstd::prelude::*;
use vstd::string::StrSliceExecFns;

verus! {

pub const DATABASE_ID_ALLOC_KEY: &'static str = "database";

pub const SCHEMA_ID_ALLOC_KEY: &'static str = "schema";

pub const USER_ITEM_ALLOC_KEY: &'static str = "user";

pub const SYSTEM_ITEM_ALLOC_KEY: &'static str = "system";

pub const USER_ROLE_ID_ALLOC_KEY: &'static str = "user_role";

pub const USER_CLUSTER_ID_ALLOC_KEY: &'static str = "user_compute";

pub const SYSTEM_CLUSTER_ID_ALLOC_KEY: &'static str = "system_compute";

pub const USER_REPLICA_ID_ALLOC_KEY: &'static str = "replica";

pub const SYSTEM_REPLICA_ID_ALLOC_KEY: &'static str = "system_replica";

pub const AUDIT_LOG_ID_ALLOC_KEY: &'static str = "auditlog";

pub const STORAGE_USAGE_ID_ALLOC_KEY: &'static str = "storage_usage";

/// Whether two strings hold the same characters.
pub fn same_text(a: &str, b: &str) -> (same: bool)
    ensures
        same == (a@ == b@),
{
    let n = a.unicode_len();
    if n != b.unicode_len() {
        return false;
    }
    let mut i: usize = 0;
    while i < n
        invariant
            i <= n,
            n == a@.len(),
            n == b@.len(),
            forall|j: int| 0 <= j < i ==> a@[j] == b@[j],
        decreases n - i,
    {
        if a.get_char(i) != b.get_char(i) {
            return false;
        }
        i = i + 1;
    }
    assert(a@ =~= b@);
    true
}

/// The id counters of the catalog. Each has a name, under which callers ask
/// for ids, and a slot in the id allocator collection.
#[derive(Clone, Copy, Debug, PartialEq, Eq, Structural, Hash)]
pub enum IdType {
    Database,
    Schema,
    UserItem,
    SystemItem,
    UserRole,
    UserCluster,
    SystemCluster,
    UserReplica,
    SystemReplica,
    AuditLog,
    StorageUsage,
}

impl IdType {
    /// The name of the counter.
    pub open spec fn name(self) -> Seq<char> {
        match self {
            IdType::Database => DATABASE_ID_ALLOC_KEY@,
            IdType::Schema => SCHEMA_ID_ALLOC_KEY@,
            IdType::UserItem => USER_ITEM_ALLOC_KEY@,
            IdType::SystemItem => SYSTEM_ITEM_ALLOC_KEY@,
            IdType::UserRole => USER_ROLE_ID_ALLOC_KEY@,
            IdType::UserCluster => USER_CLUSTER_ID_ALLOC_KEY@,
            IdType::SystemCluster => SYSTEM_CLUSTER_ID_ALLOC_KEY@,
            IdType::UserReplica => USER_REPLICA_ID_ALLOC_KEY@,
            IdType::SystemReplica => SYSTEM_REPLICA_ID_ALLOC_KEY@,
            IdType::AuditLog => AUDIT_LOG_ID_ALLOC_KEY@,
            IdType::StorageUsage => STORAGE_USAGE_ID_ALLOC_KEY@,
        }
    }

    /// The counter that goes by `name`, if there is one.
    pub open spec fn named(name: Seq<char>) -> Option<IdType> {
        if name == DATABASE_ID_ALLOC_KEY@ {
            Some(IdType::Database)
        } else if name == SCHEMA_ID_ALLOC_KEY@ {
            Some(IdType::Schema)
        } else if name == USER_ITEM_ALLOC_KEY@ {
            Some(IdType::UserItem)
        } else if name == SYSTEM_ITEM_ALLOC_KEY@ {
            Some(IdType::SystemItem)
        } else if name == USER_ROLE_ID_ALLOC_KEY@ {
            Some(IdType::UserRole)
        } else if name == USER_CLUSTER_ID_ALLOC_KEY@ {
            Some(IdType::UserCluster)
        } else if name == SYSTEM_CLUSTER_ID_ALLOC_KEY@ {
            Some(IdType::SystemCluster)
        } else if name == USER_REPLICA_ID_ALLOC_KEY@ {
            Some(IdType::UserReplica)
        } else if name == SYSTEM_REPLICA_ID_ALLOC_KEY@ {
            Some(IdType::SystemReplica)
        } else if name == AUDIT_LOG_ID_ALLOC_KEY@ {
            Some(IdType::AuditLog)
        } else if name == STORAGE_USAGE_ID_ALLOC_KEY@ {
            Some(IdType::StorageUsage)
        } else {
            None
        }
    }

    /// The counter's slot in the id allocator collection.
    pub open spec fn slot(self) -> u64 {
        match self {
            IdType::Database => 0,
            IdType::Schema => 1,
            IdType::UserItem => 2,
            IdType::SystemItem => 3,
            IdType::UserRole => 4,
            IdType::UserCluster => 5,
            IdType::SystemCluster => 6,
            IdType::UserReplica => 7,
            IdType::SystemReplica => 8,
            IdType::AuditLog => 9,
            IdType::StorageUsage => 10,
        }
    }

    /// The key under which the counter's watermark is stored.
    pub open spec fn watermark_key(self) -> Key {
        Key { collection: CollectionKind::IdAllocator, id: self.slot() }
    }

    /// The name of the counter.
    pub fn key(self) -> (name: &'static str)
        ensures
            name@ == self.name(),
    {
        match self {
            IdType::Database => DATABASE_ID_ALLOC_KEY,
            IdType::Schema => SCHEMA_ID_ALLOC_KEY,
            IdType::UserItem => USER_ITEM_ALLOC_KEY,
            IdType::SystemItem => SYSTEM_ITEM_ALLOC_KEY,
            IdType::UserRole => USER_ROLE_ID_ALLOC_KEY,
            IdType::UserCluster => USER_CLUSTER_ID_ALLOC_KEY,
            IdType::SystemCluster => SYSTEM_CLUSTER_ID_ALLOC_KEY,
            IdType::UserReplica => USER_REPLICA_ID_ALLOC_KEY,
            IdType::SystemReplica => SYSTEM_REPLICA_ID_ALLOC_KEY,
            IdType::AuditLog => AUDIT_LOG_ID_ALLOC_KEY,
            IdType::StorageUsage => STORAGE_USAGE_ID_ALLOC_KEY,
        }
    }

    /// The counter that goes by `name`, if there is one.
    pub fn from_key(name: &str) -> (id_type: Option<IdType>)
        ensures
            id_type == IdType::named(name@),
    {
        if same_text(name, DATABASE_ID_ALLOC_KEY) {
            Some(IdType::Database)
        } else if same_text(name, SCHEMA_ID_ALLOC_KEY) {
            Some(IdType::Schema)
        } else if same_text(name, USER_ITEM_ALLOC_KEY) {
            Some(IdType::UserItem)
        } else if same_text(name, SYSTEM_ITEM_ALLOC_KEY) {
            Some(IdType::SystemItem)
        } else if same_text(name, USER_ROLE_ID_ALLOC_KEY) {
            Some(IdType::UserRole)
        } else if same_text(name, USER_CLUSTER_ID_ALLOC_KEY) {
            Some(IdType::UserCluster)
        } else if same_text(name, SYSTEM_CLUSTER_ID_ALLOC_KEY) {
            Some(IdType::SystemCluster)
        } else if same_text(name, USER_REPLICA_ID_ALLOC_KEY) {
            Some(IdType::UserReplica)
        } else if same_text(name, SYSTEM_REPLICA_ID_ALLOC_KEY) {
            Some(IdType::SystemReplica)
        } else if same_text(name, AUDIT_LOG_ID_ALLOC_KEY) {
            Some(IdType::AuditLog)
        } else if same_text(name, STORAGE_USAGE_ID_ALLOC_KEY) {
            Some(IdType::StorageUsage)
        } else {
            None
        }
    }

    /// The key under which the counter's watermark is stored.
    pub fn allocator_key(self) -> (key: Key)
        ensures
            key == self.watermark_key(),
    {
        let id: u64 = match self {
            IdType::Database => 0,
            IdType::Schema => 1,
            IdType::UserItem => 2,
            IdType::SystemItem => 3,
            IdType::UserRole => 4,
            IdType::UserCluster => 5,
            IdType::SystemCluster => 6,
            IdType::UserReplica => 7,
            IdType::SystemReplica => 8,
            IdType::AuditLog => 9,
            IdType::StorageUsage => 10,
        };
        Key { collection: CollectionKind::IdAllocator, id }
    }
}

/// Every counter is found again under its own name, and no two counters share
/// a name or a slot.
pub proof fn lemma_names_are_distinct(a: IdType, b: IdType)
    ensures
        IdType::named(a.name()) == Some(a),
        a != b ==> a.name() != b.name(),
        a != b ==> a.watermark_key() != b.watermark_key(),
{
    reveal_strlit("database");
    reveal_strlit("schema");
    reveal_strlit("user");
    reveal_strlit("system");
    reveal_strlit("user_role");
    reveal_strlit("user_compute");
    reveal_strlit("system_compute");
    reveal_strlit("replica");
    reveal_strlit("system_replica");
    reveal_strlit("auditlog");
    reveal_strlit("storage_usage");
    let names = seq![
        DATABASE_ID_ALLOC_KEY@,
        SCHEMA_ID_ALLOC_KEY@,
        USER_ITEM_ALLOC_KEY@,
        SYSTEM_ITEM_ALLOC_KEY@,
        USER_ROLE_ID_ALLOC_KEY@,
        USER_CLUSTER_ID_ALLOC_KEY@,
        SYSTEM_CLUSTER_ID_ALLOC_KEY@,
        USER_REPLICA_ID_ALLOC_KEY@,
        SYSTEM_REPLICA_ID_ALLOC_KEY@,
        AUDIT_LOG_ID_ALLOC_KEY@,
        STORAGE_USAGE_ID_ALLOC_KEY@,
    ];
    assert(names[0].len() == 8 && names[0][0] == 'd');
    assert(names[1].len() == 6 && names[1][1] == 'c');
    assert(names[2].len() == 4 && names[2][0] == 'u');
    assert(names[3].len() == 6 && names[3][1] == 'y');
    assert(names[4].len() == 9 && names[4][0] == 'u');
    assert(names[5].len() == 12);
    assert(names[6].len() == 14 && names[6][7] == 'c');
    assert(names[7].len() == 7);
    assert(names[8].len() == 14 && names[8][7] == 'r');
    assert(names[9].len() == 8 && names[9][0] == 'a');
    assert(names[10].len() == 13);
}

/// The id of a catalog item, tagged with the namespace it was allocated from.
#[derive(Clone, Copy, Debug, PartialEq, Eq, Structural, Hash)]
pub enum GlobalId {
    System(u64),
    User(u64),
}

/// The id of a cluster, tagged with the namespace it was allocated from.
#[derive(Clone, Copy, Debug, PartialEq, Eq, Structural, Hash)]
pub enum ClusterId {
    System(u64),
    User(u64),
}

/// The id of a cluster replica, tagged with the namespace it was allocated
/// from.
#[derive(Clone, Copy, Debug, PartialEq, Eq, Structural, Hash)]
pub enum ReplicaId {
    System(u64),
    User(u64),
}

} // verus!
