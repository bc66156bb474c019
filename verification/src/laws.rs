//! What holds of the catalog whatever the inputs: the laws of fencing,
//! allocation, savepoints, commits and shadowing, proved over the functions
//! that the contracts of the handles are stated with.

use crate::diff::{apply_diff, lemma_minimal_diff_replays, minimal_diff};
use crate::error::CatalogError;
use crate::ids::IdType;
use crate::model::{
    counted, counter_outcome, lists, open_outcome, open_read_only_outcome, opened,
    store_write_outcome, written_epoch, CatalogView, Fault, HandleView, Mode,
};
use crate::objects::{CollectionKind, Entry, Key};
use crate::table::{lemma_ascending_rows_are_unique, lemma_row_in_map};
use crate::shadow::{divergence, noted, Discrepancy, Operation};
use vstd::prelude::*;

verus! {

/// A writable open that succeeds persists exactly the epoch after the one it
/// found, and that is the epoch of the handle.
pub proof fn law_open_takes_next_epoch(
    durable: CatalogView,
    fault: Fault,
    boot_ts: u64,
    bootstrap_role: bool,
    deploy_generation: Option<u64>,
)
    requires
        open_outcome(durable, fault) is Ok,
    ensures
        open_outcome(durable, fault)->Ok_0 == durable.epoch + 1,
        opened(durable, boot_ts, bootstrap_role, deploy_generation).epoch == durable.epoch + 1,
{
}

/// No write that a store carries out lowers the persisted epoch, and only a
/// write that advances the epoch changes it.
pub proof fn law_store_never_lowers_epoch(
    durable: CatalogView,
    fault: Fault,
    expected: nat,
    advance: bool,
)
    requires
        store_write_outcome(durable, fault, expected, advance) is Ok,
    ensures
        written_epoch(expected, advance) >= durable.epoch,
        !advance ==> written_epoch(expected, advance) == durable.epoch,
        advance ==> written_epoch(expected, advance) == durable.epoch + 1 && durable.epoch + 1
            <= u64::MAX,
{
}

/// No write through a handle changes the persisted epoch.
pub proof fn law_writes_keep_epoch(handle: HandleView, durable: CatalogView, contents: Map<Key, u64>)
    ensures
        handle.persisting(durable, contents).epoch == durable.epoch,
{
}

/// Epochs strictly increase across successive writable opens of one catalog
/// and never repeat: an open that finds the catalog as an earlier open left
/// it, or as anything that kept or raised the epoch since has left it,
/// acquires a greater epoch than the earlier open did.
pub proof fn law_epochs_increase(
    found: CatalogView,
    fault: Fault,
    boot_ts: u64,
    bootstrap_role: bool,
    deploy_generation: Option<u64>,
    later: CatalogView,
    later_fault: Fault,
)
    requires
        open_outcome(found, fault) is Ok,
        later.epoch >= opened(found, boot_ts, bootstrap_role, deploy_generation).epoch,
        open_outcome(later, later_fault) is Ok,
    ensures
        open_outcome(later, later_fault)->Ok_0 > open_outcome(found, fault)->Ok_0,
{
}

/// A handle that was opened for writing and has been superseded is fenced
/// out: on a store that can be reached and persists another epoch than the
/// handle's, a commit, a leadership check and an allocation from a known
/// counter all fail with `FencedOut`.
pub proof fn law_superseded_handle_is_fenced(
    handle: HandleView,
    durable: CatalogView,
    fault: Fault,
    id_type: IdType,
    amount: u64,
)
    requires
        handle.mode is Writable,
        durable.epoch != handle.epoch,
        !(fault is Offline),
    ensures
        handle.write_outcome(durable, fault) == Err::<(), CatalogError>(CatalogError::FencedOut),
        handle.leadership_outcome(durable, fault) == Err::<(), CatalogError>(
            CatalogError::FencedOut,
        ),
        handle.allocate_outcome(durable, fault, id_type.name(), amount) == Err::<
            Seq<u64>,
            CatalogError,
        >(CatalogError::FencedOut),
{
    crate::ids::lemma_names_are_distinct(id_type, id_type);
}

/// After a second writable open has superseded a first, the handle of the
/// first is fenced out of the catalog as the second open left it.
pub proof fn law_second_open_fences_first(
    found: CatalogView,
    boot_ts: u64,
    bootstrap_role: bool,
    deploy_generation: Option<u64>,
    second_boot_ts: u64,
    second_bootstrap_role: bool,
    second_deploy_generation: Option<u64>,
)
    requires
        open_outcome(found, Fault::Healthy) is Ok,
        open_outcome(
            opened(found, boot_ts, bootstrap_role, deploy_generation),
            Fault::Healthy,
        ) is Ok,
    ensures
        ({
            let first = HandleView {
                epoch: open_outcome(found, Fault::Healthy)->Ok_0,
                mode: Mode::Writable,
                session: CatalogView::empty(),
            };
            let superseded = opened(
                opened(found, boot_ts, bootstrap_role, deploy_generation),
                second_boot_ts,
                second_bootstrap_role,
                second_deploy_generation,
            );
            &&& first.write_outcome(superseded, Fault::Healthy) == Err::<(), CatalogError>(
                CatalogError::FencedOut,
            )
            &&& first.leadership_outcome(superseded, Fault::Healthy) == Err::<(), CatalogError>(
                CatalogError::FencedOut,
            )
        }),
{
}

/// A call that fails leaves what the handle sees as it was, and a commit that
/// succeeds leaves exactly the contents with the whole diff carried out:
/// never a part of it.
pub proof fn law_commit_is_atomic(
    handle: HandleView,
    durable: CatalogView,
    fault: Fault,
    diff: Map<Key, Option<u64>>,
)
    ensures
        ({
            let before = handle.sees(durable);
            let target = apply_diff(before.contents, diff);
            let done = handle.write_outcome(durable, fault) is Ok;
            let handle_after = if done {
                handle.having_written(target)
            } else {
                handle
            };
            let durable_after = if done {
                handle.persisting(durable, target)
            } else {
                durable
            };
            handle_after.sees(durable_after) == (if done {
                before.with_contents(target)
            } else {
                before
            })
        }),
{
}

/// The batch of a transaction is the smallest diff that leads from its
/// snapshot to its working copy: replayed on the snapshot it gives the
/// working copy, and every diff that does so names at least the same keys.
pub proof fn law_batch_is_smallest_diff(
    base: Map<Key, u64>,
    target: Map<Key, u64>,
    diff: Map<Key, Option<u64>>,
)
    requires
        apply_diff(base, diff) == target,
    ensures
        apply_diff(base, minimal_diff(base, target)) == target,
        minimal_diff(base, target).dom().subset_of(diff.dom()),
{
    lemma_minimal_diff_replays(base, target);
    assert forall|k: Key| minimal_diff(base, target).dom().contains(k) implies diff.dom().contains(
        k,
    ) by {
        if !diff.contains_key(k) {
            assert(apply_diff(base, diff).contains_key(k) == base.contains_key(k));
            if base.contains_key(k) {
                assert(apply_diff(base, diff)[k] == base[k]);
            }
        }
    }
}

/// The ids of one allocation ascend without a gap from the watermark, and the
/// watermark moves past them.
pub proof fn law_allocation_ascends(contents: Map<Key, u64>, id_type: IdType, amount: u64)
    requires
        counter_outcome(contents, id_type.name(), amount) is Ok,
    ensures
        ({
            let ids = counter_outcome(contents, id_type.name(), amount)->Ok_0;
            let key = id_type.watermark_key();
            &&& ids.len() == amount
            &&& forall|i: int| 0 <= i < ids.len() ==> #[trigger] ids[i] == contents[key] + i
            &&& counted(contents, id_type.name(), amount)[key] == contents[key] + amount
        }),
{
    crate::ids::lemma_names_are_distinct(id_type, id_type);
}

/// Two allocations from one counter never overlap: where the watermark was
/// not lowered between them, every id of the later one is greater than every
/// id of the earlier one.
pub proof fn law_allocations_do_not_overlap(
    contents: Map<Key, u64>,
    later: Map<Key, u64>,
    id_type: IdType,
    amount: u64,
    later_amount: u64,
)
    requires
        counter_outcome(contents, id_type.name(), amount) is Ok,
        counter_outcome(later, id_type.name(), later_amount) is Ok,
        later[id_type.watermark_key()] >= counted(
            contents,
            id_type.name(),
            amount,
        )[id_type.watermark_key()],
    ensures
        ({
            let first = counter_outcome(contents, id_type.name(), amount)->Ok_0;
            let second = counter_outcome(later, id_type.name(), later_amount)->Ok_0;
            forall|i: int, j: int|
                0 <= i < first.len() && 0 <= j < second.len() ==> #[trigger] first[i]
                    < #[trigger] second[j]
        }),
{
    crate::ids::lemma_names_are_distinct(id_type, id_type);
}

/// The listing of a collection is determined by the contents: two listings
/// of one collection of the same contents are the same sequence.
pub proof fn law_listing_is_determined(
    a: Seq<Entry>,
    b: Seq<Entry>,
    contents: Map<Key, u64>,
    kind: CollectionKind,
)
    requires
        lists(a, contents, kind),
        lists(b, contents, kind),
    ensures
        a == b,
{
    assert forall|i: int| 0 <= i < a.len() implies (#[trigger] a[i]).key.collection == kind by {
        lemma_row_in_map(a, i);
    }
    assert forall|i: int| 0 <= i < b.len() implies (#[trigger] b[i]).key.collection == kind by {
        lemma_row_in_map(b, i);
    }
    lemma_ascending_rows_are_unique(a, b, kind);
}

/// A read-only open of a catalog that was never initialized fails with
/// `Uninitialized`, provided that the store can be reached.
pub proof fn law_read_only_open_needs_initialized(durable: CatalogView, fault: Fault)
    requires
        durable.epoch == 0,
        !(fault is Offline),
    ensures
        open_read_only_outcome(durable, fault) == Err::<nat, CatalogError>(
            CatalogError::Uninitialized,
        ),
{
}

/// A savepoint leaves no trace: whatever is written through a savepoint
/// handle, the durable state stays as it was, and the handle reads what it
/// wrote from its own session.
pub proof fn law_savepoint_leaves_no_trace(
    handle: HandleView,
    durable: CatalogView,
    contents: Map<Key, u64>,
)
    requires
        handle.mode is Savepoint,
    ensures
        handle.persisting(durable, contents) == durable,
        handle.having_written(contents).sees(durable).contents == contents,
{
}

/// A divergence of the two catalogs is never dropped: the answers diverge
/// unless both succeed with the same value or both fail with the same error,
/// and a divergence makes the log longer by the entry that names the call.
pub proof fn law_divergence_is_noted<T, U>(
    log: Seq<Discrepancy>,
    operation: Operation,
    authoritative: Result<T, CatalogError>,
    shadow: Result<U, CatalogError>,
    same: bool,
)
    ensures
        divergence(authoritative, shadow, same) is None <==> (authoritative is Ok && shadow is Ok
            && same) || (authoritative is Err && shadow is Err && authoritative->Err_0
            == shadow->Err_0),
        divergence(authoritative, shadow, same) matches Some(kind) ==> noted(
            log,
            operation,
            divergence(authoritative, shadow, same),
        ) == log.push(Discrepancy { operation, kind }),
        divergence(authoritative, shadow, same) is None ==> noted(
            log,
            operation,
            divergence(authoritative, shadow, same),
        ) == log,
{
}

} // verus!
