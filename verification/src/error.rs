//! The ways in which a catalog operation fails.

use vstd::prelude::*;

verus! {

/// Why a catalog operation did not take place. A failed operation leaves the
/// durable state as it was.
#[derive(Clone, Copy, Debug, PartialEq, Eq, Structural, Hash)]
pub enum CatalogError {
    /// A read-only open found a store that was never initialized.
    Uninitialized,
    /// A read-only open found a store whose contents need a migration, which
    /// takes write access.
    MigrationRequired,
    /// The handle's epoch is no longer the persisted one: another writer has
    /// taken over. Only a fresh open helps.
    FencedOut,
    /// A mutating call on a handle that was opened read-only.
    ReadOnlyViolation,
    /// The underlying storage failed.
    BackendFailure,
    /// An id counter cannot hand out the requested amount without overflow.
    IdExhaustion,
    /// The epoch counter cannot advance any further.
    EpochExhaustion,
    /// The store holds no id counter under the given name.
    UnknownIdType,
}

} // verus!
