//! The storage gateway's failures, and what its operations mean.
//!
//! A table is a sequence of rows in the order of their creation, no two with
//! the same identifier. The functions here say what each operation makes of
//! such a sequence; the laws below them are proved of every sequence.

use crate::model::{row_of, AnimalView, PayloadView};
use vstd::prelude::*;

verus! {

/// The closed set of failures that the gateway reports.
#[derive(Clone, Copy, Debug, PartialEq, Eq, Structural)]
pub enum StorageError {
    /// A uniqueness or foreign-key constraint refused the statement.
    Conflict,
    /// The store could not be reached.
    Unavailable,
    /// Anything else.
    Internal,
}

/// What a database driver reported, as plain values.
#[derive(Debug, PartialEq, Eq)]
pub enum DriverFailure {
    /// The database refused the statement, with its SQLSTATE code where it
    /// gave one.
    Database { code: Option<String> },
    /// Reading from or writing to the connection failed.
    Io,
    /// The secure channel could not be set up.
    Tls,
    /// No connection of the pool came free in time.
    PoolTimedOut,
    /// The pool was closed.
    PoolClosed,
    /// The driver's background worker is gone.
    WorkerCrashed,
    /// Anything else: a row that cannot be decoded, a broken protocol.
    Other,
}

/// Whether a SQLSTATE code reports a uniqueness violation (23505) or a
/// foreign-key violation (23503).
pub open spec fn is_constraint_code(code: Seq<char>) -> bool {
    code == "23505"@ || code == "23503"@
}

/// The class of a failure: a constraint violation is a conflict, a failure
/// of the connection or the pool makes the store unavailable, and everything
/// else is internal.
pub open spec fn class_of(failure: DriverFailure) -> StorageError {
    match failure {
        DriverFailure::Database { code } => if code is Some && is_constraint_code(code->0@) {
            StorageError::Conflict
        } else {
            StorageError::Internal
        },
        DriverFailure::Io => StorageError::Unavailable,
        DriverFailure::Tls => StorageError::Unavailable,
        DriverFailure::PoolTimedOut => StorageError::Unavailable,
        DriverFailure::PoolClosed => StorageError::Unavailable,
        DriverFailure::WorkerCrashed => StorageError::Unavailable,
        DriverFailure::Other => StorageError::Internal,
    }
}

impl StorageError {
    /// Puts a failure of the driver into one of the three classes.
    pub fn classify(failure: &DriverFailure) -> (class: StorageError)
        ensures
            class == class_of(*failure),
    {
        match failure {
            DriverFailure::Database { code: Some(code) } => {
                let unique = "23505".to_owned();
                let foreign = "23503".to_owned();
                if *code == unique || *code == foreign {
                    StorageError::Conflict
                } else {
                    StorageError::Internal
                }
            },
            DriverFailure::Database { code: None } => StorageError::Internal,
            DriverFailure::Io => StorageError::Unavailable,
            DriverFailure::Tls => StorageError::Unavailable,
            DriverFailure::PoolTimedOut => StorageError::Unavailable,
            DriverFailure::PoolClosed => StorageError::Unavailable,
            DriverFailure::WorkerCrashed => StorageError::Unavailable,
            DriverFailure::Other => StorageError::Internal,
        }
    }
}

/// Whether some row has the identifier.
pub open spec fn has_id(rows: Seq<AnimalView>, id: u128) -> bool {
    exists|i: int| 0 <= i < rows.len() && (#[trigger] rows[i]).id == id
}

/// The place of a row with the identifier, where there is one.
pub open spec fn index_of(rows: Seq<AnimalView>, id: u128) -> int {
    choose|i: int| 0 <= i < rows.len() && (#[trigger] rows[i]).id == id
}

/// No two rows share an identifier.
pub open spec fn distinct_ids(rows: Seq<AnimalView>) -> bool {
    forall|i: int, j: int|
        0 <= i < j < rows.len() ==> (#[trigger] rows[i]).id != (#[trigger] rows[j]).id
}

/// The row with the identifier, if there is one.
pub open spec fn lookup(rows: Seq<AnimalView>, id: u128) -> Option<AnimalView> {
    if has_id(rows, id) {
        Some(rows[index_of(rows, id)])
    } else {
        None
    }
}

/// The table after an insert: the row comes last, unless its identifier is
/// taken, which leaves the table as it was.
pub open spec fn inserted(rows: Seq<AnimalView>, row: AnimalView) -> Seq<AnimalView> {
    if has_id(rows, row.id) {
        rows
    } else {
        rows.push(row)
    }
}

/// The table after an update: the row with the identifier holds the payload
/// and keeps its place and its identifier.
pub open spec fn updated(rows: Seq<AnimalView>, id: u128, payload: PayloadView) -> Seq<
    AnimalView,
> {
    if has_id(rows, id) {
        rows.update(index_of(rows, id), row_of(id, payload))
    } else {
        rows
    }
}

/// The table after a delete: the row with the identifier is gone and the
/// others keep their order.
pub open spec fn deleted(rows: Seq<AnimalView>, id: u128) -> Seq<AnimalView> {
    if has_id(rows, id) {
        rows.remove(index_of(rows, id))
    } else {
        rows
    }
}

/// What an insert under a given identifier answers: the new row, or a
/// conflict where the identifier is taken.
pub open spec fn create_result(rows: Seq<AnimalView>, id: u128, payload: PayloadView) -> Result<
    AnimalView,
    StorageError,
> {
    if has_id(rows, id) {
        Err(StorageError::Conflict)
    } else {
        Ok(row_of(id, payload))
    }
}

/// What an update answers: the row as it now is, or nothing where no row has
/// the identifier.
pub open spec fn update_result(rows: Seq<AnimalView>, id: u128, payload: PayloadView) -> Option<
    AnimalView,
> {
    if has_id(rows, id) {
        Some(row_of(id, payload))
    } else {
        None
    }
}

/// What a delete answers: a marker where a row was removed.
pub open spec fn delete_result(rows: Seq<AnimalView>, id: u128) -> Option<()> {
    if has_id(rows, id) {
        Some(())
    } else {
        None
    }
}

/// In a table without duplicates, a row with the identifier stands at the
/// place that `index_of` names.
pub proof fn lemma_index_unique(rows: Seq<AnimalView>, id: u128, at: int)
    requires
        distinct_ids(rows),
        0 <= at < rows.len(),
        rows[at].id == id,
    ensures
        has_id(rows, id),
        index_of(rows, id) == at,
{
    let found = index_of(rows, id);
    assert(0 <= found < rows.len() && rows[found].id == id);
    if found < at {
        assert(rows[found].id != rows[at].id);
    } else if at < found {
        assert(rows[at].id != rows[found].id);
    }
}

/// Insert and update keep a table free of duplicates.
pub proof fn lemma_distinct_kept(rows: Seq<AnimalView>, id: u128, payload: PayloadView)
    requires
        distinct_ids(rows),
    ensures
        distinct_ids(inserted(rows, row_of(id, payload))),
        distinct_ids(updated(rows, id, payload)),
{
    let row = row_of(id, payload);
    if !has_id(rows, id) {
        let after = rows.push(row);
        assert forall|i: int, j: int| 0 <= i < j < after.len() implies (#[trigger] after[i]).id
            != (#[trigger] after[j]).id by {
            if j == rows.len() {
                assert(rows[i].id != id);
            } else {
                assert(rows[i].id != rows[j].id);
            }
        }
    } else {
        let at = index_of(rows, id);
        let changed = rows.update(at, row);
        assert forall|i: int, j: int| 0 <= i < j < changed.len() implies (
        #[trigger] changed[i]).id != (#[trigger] changed[j]).id by {
            assert(rows[i].id != rows[j].id);
        }
    }
}

/// Delete keeps a table free of duplicates.
pub proof fn lemma_distinct_after_delete(rows: Seq<AnimalView>, id: u128)
    requires
        distinct_ids(rows),
    ensures
        distinct_ids(deleted(rows, id)),
{
    if has_id(rows, id) {
        let at = index_of(rows, id);
        let fewer = rows.remove(at);
        assert forall|i: int, j: int| 0 <= i < j < fewer.len() implies (#[trigger] fewer[i]).id
            != (#[trigger] fewer[j]).id by {
            let from_i = if i < at { i } else { i + 1 };
            let from_j = if j < at { j } else { j + 1 };
            assert(fewer[i] == rows[from_i]);
            assert(fewer[j] == rows[from_j]);
            assert(rows[from_i].id != rows[from_j].id);
        }
    }
}

/// The table after one insert for each row of `batch`, first to last.
pub open spec fn created_all(rows: Seq<AnimalView>, batch: Seq<AnimalView>) -> Seq<AnimalView>
    decreases batch.len(),
{
    if batch.len() == 0 {
        rows
    } else {
        inserted(created_all(rows, batch.drop_last()), batch.last())
    }
}

/// The table after one delete for each identifier of `ids`, first to last.
pub open spec fn deleted_all(rows: Seq<AnimalView>, ids: Seq<u128>) -> Seq<AnimalView>
    decreases ids.len(),
{
    if ids.len() == 0 {
        rows
    } else {
        deleted(deleted_all(rows, ids.drop_last()), ids.last())
    }
}

/// A row that was created under an unused identifier is the row that a get
/// on that identifier finds.
pub proof fn law_create_then_get(rows: Seq<AnimalView>, id: u128, payload: PayloadView)
    requires
        !has_id(rows, id),
    ensures
        create_result(rows, id, payload) == Ok::<AnimalView, StorageError>(row_of(id, payload)),
        lookup(inserted(rows, row_of(id, payload)), id) == Some(row_of(id, payload)),
{
    let row = row_of(id, payload);
    let after = rows.push(row);
    assert(after[rows.len() as int].id == id);
    let at = index_of(after, id);
    if at < rows.len() {
        assert(rows[at].id == id);
    }
}

/// For an identifier that no row has, get, update and delete find nothing
/// and change nothing.
pub proof fn law_absent_id(rows: Seq<AnimalView>, id: u128, payload: PayloadView)
    requires
        !has_id(rows, id),
    ensures
        lookup(rows, id) is None,
        update_result(rows, id, payload) is None,
        delete_result(rows, id) is None,
        updated(rows, id, payload) == rows,
        deleted(rows, id) == rows,
{
}

/// After a delete no row has the identifier, so a second delete finds
/// nothing and leaves the table as the first left it.
pub proof fn law_deleted_id_absent(rows: Seq<AnimalView>, id: u128)
    requires
        distinct_ids(rows),
    ensures
        !has_id(deleted(rows, id), id),
        delete_result(deleted(rows, id), id) is None,
        deleted(deleted(rows, id), id) == deleted(rows, id),
{
    if has_id(rows, id) {
        let at = index_of(rows, id);
        let fewer = rows.remove(at);
        assert forall|k: int| 0 <= k < fewer.len() implies (#[trigger] fewer[k]).id != id by {
            let from = if k < at { k } else { k + 1 };
            assert(fewer[k] == rows[from]);
            if from < at {
                assert(rows[from].id != rows[at].id);
            } else {
                assert(rows[at].id != rows[from].id);
            }
        }
    }
}

/// An update changes no identifier: the table has as many rows as before,
/// each under the identifier it had, the other rows are as they were, and the
/// row that is answered, which a get then finds, has the identifier that was
/// asked for.
pub proof fn law_update_keeps_ids(rows: Seq<AnimalView>, id: u128, payload: PayloadView)
    requires
        distinct_ids(rows),
    ensures
        updated(rows, id, payload).len() == rows.len(),
        forall|k: int|
            0 <= k < rows.len() ==> (#[trigger] updated(rows, id, payload)[k]).id == rows[k].id,
        forall|k: int|
            0 <= k < rows.len() && rows[k].id != id ==> #[trigger] updated(rows, id, payload)[k]
                == rows[k],
        update_result(rows, id, payload) is Some ==> update_result(rows, id, payload)->0.id == id,
        has_id(rows, id) ==> lookup(updated(rows, id, payload), id) == Some(
            row_of(id, payload),
        ),
{
    if has_id(rows, id) {
        let at = index_of(rows, id);
        let changed = rows.update(at, row_of(id, payload));
        lemma_distinct_kept(rows, id, payload);
        lemma_index_unique(changed, id, at);
    }
}

/// A second insert under an identifier is a conflict, whatever the first
/// insert did and whatever the two rows hold.
pub proof fn law_duplicate_id_conflicts(
    rows: Seq<AnimalView>,
    id: u128,
    first: PayloadView,
    second: PayloadView,
)
    ensures
        create_result(inserted(rows, row_of(id, first)), id, second) == Err::<
            AnimalView,
            StorageError,
        >(StorageError::Conflict),
        inserted(inserted(rows, row_of(id, first)), row_of(id, second)) == inserted(
            rows,
            row_of(id, first),
        ),
{
    if !has_id(rows, id) {
        let after = rows.push(row_of(id, first));
        assert(after[rows.len() as int].id == id);
    }
}

/// Rows whose identifiers differ from each other and from those in the table
/// are all inserted: each insert in turn finds its identifier unused, and the
/// table ends as the old rows followed by the new ones.
pub proof fn law_distinct_creates_succeed(rows: Seq<AnimalView>, batch: Seq<AnimalView>)
    requires
        distinct_ids(rows + batch),
    ensures
        created_all(rows, batch) == rows + batch,
        forall|k: int|
            0 <= k < batch.len() ==> !has_id(
                #[trigger] created_all(rows, batch.take(k)),
                batch[k].id,
            ),
    decreases batch.len(),
{
    let all = rows + batch;
    if batch.len() == 0 {
        assert(rows + batch =~= rows);
    } else {
        let prefix = batch.drop_last();
        let last = batch.last();
        let before = rows + prefix;
        assert forall|i: int, j: int| 0 <= i < j < before.len() implies (#[trigger] before[i]).id
            != (#[trigger] before[j]).id by {
            assert(before[i] == all[i] && before[j] == all[j]);
        }
        law_distinct_creates_succeed(rows, prefix);
        assert(!has_id(before, last.id)) by {
            if has_id(before, last.id) {
                let at = index_of(before, last.id);
                assert(before[at] == all[at]);
                assert(all[all.len() - 1] == last);
                assert(all[at].id != all[all.len() - 1].id);
            }
        }
        assert(before.push(last) =~= all);
        assert forall|k: int| 0 <= k < batch.len() implies !has_id(
            #[trigger] created_all(rows, batch.take(k)),
            batch[k].id,
        ) by {
            if k < prefix.len() {
                assert(batch.take(k) =~= prefix.take(k));
                assert(batch[k] == prefix[k]);
            } else {
                assert(batch.take(k) =~= prefix);
            }
        }
    }
}

/// A delete removes the rows with the identifier and no others.
pub proof fn lemma_delete_membership(rows: Seq<AnimalView>, id: u128)
    requires
        distinct_ids(rows),
    ensures
        deleted(rows, id).len() == rows.len() - (if has_id(rows, id) { 1int } else { 0int }),
        forall|row: AnimalView| #[trigger]
            deleted(rows, id).contains(row) <==> rows.contains(row) && row.id != id,
{
    if has_id(rows, id) {
        let at = index_of(rows, id);
        let fewer = rows.remove(at);
        assert forall|row: AnimalView| #[trigger]
            fewer.contains(row) <==> rows.contains(row) && row.id != id by {
            if fewer.contains(row) {
                let k = choose|k: int| 0 <= k < fewer.len() && fewer[k] == row;
                let from = if k < at { k } else { k + 1 };
                assert(rows[from] == row);
                if from < at {
                    assert(rows[from].id != rows[at].id);
                } else {
                    assert(rows[at].id != rows[from].id);
                }
            }
            if rows.contains(row) && row.id != id {
                let k = choose|k: int| 0 <= k < rows.len() && rows[k] == row;
                let to = if k < at { k } else { k - 1 };
                assert(fewer[to] == row);
            }
        }
    } else {
        assert forall|row: AnimalView| rows.contains(row) implies row.id != id by {
            let k = choose|k: int| 0 <= k < rows.len() && rows[k] == row;
            assert(rows[k].id == row.id);
        }
    }
}

/// Deleting identifiers that differ from each other and that the table holds
/// removes exactly their rows: the count drops by one for each, and the rows
/// that stay are those with other identifiers, as they were.
pub proof fn law_deletes_remove_exactly(rows: Seq<AnimalView>, ids: Seq<u128>)
    requires
        distinct_ids(rows),
        ids.no_duplicates(),
        forall|k: int| 0 <= k < ids.len() ==> has_id(rows, #[trigger] ids[k]),
    ensures
        distinct_ids(deleted_all(rows, ids)),
        deleted_all(rows, ids).len() == rows.len() - ids.len(),
        forall|row: AnimalView| #[trigger]
            deleted_all(rows, ids).contains(row) <==> rows.contains(row) && !ids.contains(row.id),
    decreases ids.len(),
{
    if ids.len() > 0 {
        let prefix = ids.drop_last();
        let last = ids.last();
        assert forall|k: int| 0 <= k < prefix.len() implies has_id(rows, #[trigger] prefix[k]) by {
            assert(prefix[k] == ids[k]);
        }
        law_deletes_remove_exactly(rows, prefix);
        let before = deleted_all(rows, prefix);
        lemma_distinct_after_delete(before, last);
        lemma_delete_membership(before, last);
        assert(!prefix.contains(last)) by {
            if prefix.contains(last) {
                let k = choose|k: int| 0 <= k < prefix.len() && prefix[k] == last;
                assert(ids[k] == ids[ids.len() - 1]);
            }
        }
        assert(has_id(before, last)) by {
            assert(has_id(rows, ids[ids.len() - 1]));
            let at = index_of(rows, last);
            assert(rows.contains(rows[at]));
            assert(before.contains(rows[at]));
            let to = choose|k: int| 0 <= k < before.len() && before[k] == rows[at];
            assert(before[to].id == last);
        }
        assert forall|row: AnimalView| #[trigger]
            deleted(before, last).contains(row) <==> rows.contains(row) && !ids.contains(
                row.id,
            ) by {
            if ids.contains(row.id) {
                let k = choose|k: int| 0 <= k < ids.len() && ids[k] == row.id;
                if k < prefix.len() {
                    assert(prefix[k] == row.id);
                }
            }
            if prefix.contains(row.id) {
                let k = choose|k: int| 0 <= k < prefix.len() && prefix[k] == row.id;
                assert(ids[k] == row.id);
            }
            if row.id == last {
                assert(ids[ids.len() - 1] == row.id);
            }
        }
    }
}

/// Creating rows under identifiers that differ from each other, in an empty
/// table, and then deleting some of them, each once, leaves as many rows as
/// were created less those deleted: the rows that were not deleted, each as
/// it was written.
pub proof fn law_rows_after_creates_and_deletes(batch: Seq<AnimalView>, ids: Seq<u128>)
    requires
        distinct_ids(batch),
        ids.no_duplicates(),
        forall|k: int| 0 <= k < ids.len() ==> has_id(batch, #[trigger] ids[k]),
    ensures
        ids.len() <= batch.len(),
        deleted_all(created_all(Seq::empty(), batch), ids).len() == batch.len() - ids.len(),
        forall|row: AnimalView| #[trigger]
            deleted_all(created_all(Seq::empty(), batch), ids).contains(row) <==> batch.contains(
                row,
            ) && !ids.contains(row.id),
{
    assert(Seq::<AnimalView>::empty() + batch =~= batch);
    law_distinct_creates_succeed(Seq::empty(), batch);
    law_deletes_remove_exactly(batch, ids);
}

/// The rows of a table are what lookups find: a row is listed exactly where a
/// lookup of its identifier answers with it.
pub proof fn law_list_matches_lookup(rows: Seq<AnimalView>)
    requires
        distinct_ids(rows),
    ensures
        forall|row: AnimalView| #[trigger]
            rows.contains(row) <==> lookup(rows, row.id) == Some(row),
{
    assert forall|row: AnimalView| #[trigger]
        rows.contains(row) <==> lookup(rows, row.id) == Some(row) by {
        if rows.contains(row) {
            let k = choose|k: int| 0 <= k < rows.len() && rows[k] == row;
            lemma_index_unique(rows, row.id, k);
        }
        if lookup(rows, row.id) == Some(row) {
            let at = index_of(rows, row.id);
            assert(0 <= at < rows.len() && rows[at] == row);
        }
    }
}

/// A lookup of an identifier that no write has touched answers as before.
proof fn lemma_lookup_elsewhere(
    rows: Seq<AnimalView>,
    after: Seq<AnimalView>,
    id: u128,
    other: u128,
)
    requires
        distinct_ids(rows),
        distinct_ids(after),
        other != id,
        forall|k: int|
            0 <= k < rows.len() && (#[trigger] rows[k]).id != id ==> after.contains(rows[k]),
        forall|k: int|
            0 <= k < after.len() && (#[trigger] after[k]).id != id ==> rows.contains(after[k]),
    ensures
        lookup(after, other) == lookup(rows, other),
{
    if has_id(rows, other) {
        let k = index_of(rows, other);
        assert(after.contains(rows[k]));
        let to = choose|j: int| 0 <= j < after.len() && after[j] == rows[k];
        lemma_index_unique(after, other, to);
    } else if has_id(after, other) {
        let k = index_of(after, other);
        assert(rows.contains(after[k]));
        let from = choose|j: int| 0 <= j < rows.len() && rows[j] == after[k];
        assert(rows[from].id == other);
    }
}

/// Every row is in its last-written state: an insert, an update or a delete
/// under one identifier changes what a lookup of that identifier finds, and
/// nothing that a lookup of another identifier finds.
pub proof fn law_lookup_after_write(
    rows: Seq<AnimalView>,
    id: u128,
    payload: PayloadView,
    other: u128,
)
    requires
        distinct_ids(rows),
    ensures
        lookup(inserted(rows, row_of(id, payload)), other) == if other == id && !has_id(rows, id) {
            Some(row_of(id, payload))
        } else {
            lookup(rows, other)
        },
        lookup(updated(rows, id, payload), other) == if other == id && has_id(rows, id) {
            Some(row_of(id, payload))
        } else {
            lookup(rows, other)
        },
        lookup(deleted(rows, id), other) == if other == id {
            None
        } else {
            lookup(rows, other)
        },
{
    let row = row_of(id, payload);
    lemma_distinct_kept(rows, id, payload);
    lemma_distinct_after_delete(rows, id);
    law_deleted_id_absent(rows, id);
    law_update_keeps_ids(rows, id, payload);
    if !has_id(rows, id) {
        law_create_then_get(rows, id, payload);
    }
    if other != id {
        let more = inserted(rows, row);
        assert forall|k: int| 0 <= k < rows.len() implies more.contains(#[trigger] rows[k]) by {
            assert(more[k] == rows[k]);
        }
        assert forall|k: int| 0 <= k < more.len() && (#[trigger] more[k]).id != id implies
            rows.contains(more[k]) by {
            assert(k < rows.len());
            assert(rows[k] == more[k]);
        }
        lemma_lookup_elsewhere(rows, more, id, other);

        let changed = updated(rows, id, payload);
        assert forall|k: int| 0 <= k < rows.len() && (#[trigger] rows[k]).id != id implies
            changed.contains(rows[k]) by {
            assert(changed[k] == rows[k]);
        }
        assert forall|k: int| 0 <= k < changed.len() && (#[trigger] changed[k]).id
            != id implies rows.contains(changed[k]) by {
            assert(rows[k] == changed[k]);
        }
        lemma_lookup_elsewhere(rows, changed, id, other);

        let fewer = deleted(rows, id);
        lemma_delete_membership(rows, id);
        assert forall|k: int| 0 <= k < rows.len() && (#[trigger] rows[k]).id != id implies
            fewer.contains(rows[k]) by {
            assert(rows.contains(rows[k]));
        }
        assert forall|k: int| 0 <= k < fewer.len() && (#[trigger] fewer[k]).id != id implies
            rows.contains(fewer[k]) by {
            assert(fewer.contains(fewer[k]));
        }
        lemma_lookup_elsewhere(rows, fewer, id, other);
    }
}

} // verus!
