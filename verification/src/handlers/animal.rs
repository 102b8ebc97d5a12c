//! The storage gateway for animals.
//!
//! The five operations work on a `Table`, which keeps its rows in memory in
//! the order of their creation. `list` hands them out in that order. The
//! store assigns the identifier: `create` draws a random one, and
//! `create_with_id` is the same operation for an identifier that the caller
//! has drawn. A gateway over a database keeps these contracts and adds only
//! the failures `Unavailable` and `Internal`, which a table never reports.

use crate::model::{row_of, views_of, Animal, AnimalCreateRequest, AnimalId, AnimalView};
use crate::storage::{
    create_result, delete_result, deleted, distinct_ids, has_id, index_of, inserted,
    lemma_distinct_after_delete, lemma_distinct_kept, lemma_index_unique, lookup, update_result, updated, StorageError,
};
use vstd::prelude::*;

verus! {

/// The rows of the one table, in the order of their creation.
pub struct Table {
    rows: Vec<Animal>,
}

impl View for Table {
    type V = Seq<AnimalView>;

    closed spec fn view(&self) -> Seq<AnimalView> {
        views_of(self.rows@)
    }
}

/// The view of what an operation answers with one row.
pub open spec fn row_outcome(outcome: Result<Animal, StorageError>) -> Result<
    AnimalView,
    StorageError,
> {
    match outcome {
        Ok(row) => Ok(row@),
        Err(error) => Err(error),
    }
}

/// The view of what an operation answers with a row or nothing.
pub open spec fn found_outcome(outcome: Result<Option<Animal>, StorageError>) -> Result<
    Option<AnimalView>,
    StorageError,
> {
    match outcome {
        Ok(Some(row)) => Ok(Some(row@)),
        Ok(None) => Ok(None),
        Err(error) => Err(error),
    }
}

/// The view of what `list` answers.
pub open spec fn rows_outcome(outcome: Result<Vec<Animal>, StorageError>) -> Result<
    Seq<AnimalView>,
    StorageError,
> {
    match outcome {
        Ok(rows) => Ok(views_of(rows@)),
        Err(error) => Err(error),
    }
}

impl Table {
    /// The invariant of a table: no two rows share an identifier.
    pub open spec fn wf(&self) -> bool {
        distinct_ids(self@)
    }

    /// A table without rows.
    pub fn new() -> (table: Table)
        ensures
            table.wf(),
            table@ == Seq::<AnimalView>::empty(),
    {
        let table = Table { rows: Vec::new() };
        assert(table@ =~= Seq::<AnimalView>::empty());
        table
    }

    /// The number of rows.
    pub fn len(&self) -> (count: usize)
        ensures
            count == self@.len(),
    {
        self.rows.len()
    }

    /// The place of the row with the identifier.
    fn position(&self, id: AnimalId) -> (at: Option<usize>)
        requires
            self.wf(),
        ensures
            at is Some <==> has_id(self@, id.value),
            at is Some ==> at->0 == index_of(self@, id.value) && at->0 < self.rows@.len(),
    {
        let mut i: usize = 0;
        while i < self.rows.len()
            invariant
                i <= self.rows@.len(),
                self.wf(),
                forall|k: int| 0 <= k < i ==> (#[trigger] self@[k]).id != id.value,
            decreases self.rows@.len() - i,
        {
            if self.rows[i].id.value == id.value {
                proof {
                    lemma_index_unique(self@, id.value, i as int);
                }
                return Some(i);
            }
            i += 1;
        }
        None
    }
}

/// Inserts a row that holds `animal` under a random identifier and answers
/// with the row. Whatever identifier was drawn, the table and the answer are
/// those of `create_with_id` for it.
pub fn create(animal: AnimalCreateRequest, table: &mut Table) -> (outcome: Result<
    Animal,
    StorageError,
>)
    requires
        old(table).wf(),
    ensures
        final(table).wf(),
        exists|id: u128|
            {
                &&& final(table)@ == inserted(old(table)@, #[trigger] row_of(id, animal@))
                &&& row_outcome(outcome) == create_result(old(table)@, id, animal@)
            },
{
    let id = AnimalId::fresh();
    create_with_id(id, animal, table)
}

/// Inserts a row that holds `animal` under `id` and answers with the row.
/// Where a row has that identifier already, the answer is `Conflict` and the
/// table stays as it was.
pub fn create_with_id(id: AnimalId, animal: AnimalCreateRequest, table: &mut Table) -> (outcome:
    Result<Animal, StorageError>)
    requires
        old(table).wf(),
    ensures
        final(table).wf(),
        final(table)@ == inserted(old(table)@, row_of(id.value, animal@)),
        row_outcome(outcome) == create_result(old(table)@, id.value, animal@),
{
    proof {
        lemma_distinct_kept(table@, id.value, animal@);
    }
    match table.position(id) {
        Some(_) => Err(StorageError::Conflict),
        None => {
            let row = Animal::from_payload(id, animal);
            let answer = row.clone();
            table.rows.push(row);
            assert(table@ =~= old(table)@.push(row@));
            Ok(answer)
        },
    }
}

/// Every row, in the order of creation.
pub fn list(table: &Table) -> (outcome: Result<Vec<Animal>, StorageError>)
    requires
        table.wf(),
    ensures
        rows_outcome(outcome) == Ok::<Seq<AnimalView>, StorageError>(table@),
{
    let mut rows: Vec<Animal> = Vec::new();
    let mut i: usize = 0;
    while i < table.rows.len()
        invariant
            i <= table.rows@.len(),
            rows@.len() == i,
            forall|k: int| 0 <= k < i ==> (#[trigger] rows@[k])@ == table.rows@[k]@,
        decreases table.rows@.len() - i,
    {
        rows.push(table.rows[i].clone());
        i += 1;
    }
    assert(views_of(rows@) =~= table@);
    Ok(rows)
}

/// The row with the identifier, or `None` where there is none.
pub fn get(id: AnimalId, table: &Table) -> (outcome: Result<Option<Animal>, StorageError>)
    requires
        table.wf(),
    ensures
        found_outcome(outcome) == Ok::<Option<AnimalView>, StorageError>(
            lookup(table@, id.value),
        ),
{
    match table.position(id) {
        Some(at) => Ok(Some(table.rows[at].clone())),
        None => Ok(None),
    }
}

/// Replaces name, weight and diet of the row with the identifier and answers
/// with the row as it now is; `None`, and no change, where there is none. The
/// row keeps its identifier and its place.
pub fn update(id: AnimalId, animal: AnimalCreateRequest, table: &mut Table) -> (outcome: Result<
    Option<Animal>,
    StorageError,
>)
    requires
        old(table).wf(),
    ensures
        final(table).wf(),
        final(table)@ == updated(old(table)@, id.value, animal@),
        found_outcome(outcome) == Ok::<Option<AnimalView>, StorageError>(
            update_result(old(table)@, id.value, animal@),
        ),
{
    proof {
        lemma_distinct_kept(table@, id.value, animal@);
    }
    match table.position(id) {
        Some(at) => {
            let row = Animal::from_payload(id, animal);
            let answer = row.clone();
            table.rows.remove(at);
            table.rows.insert(at, row);
            assert(table@ =~= old(table)@.update(at as int, row@));
            Ok(Some(answer))
        },
        None => Ok(None),
    }
}

/// Removes the row with the identifier and answers with a marker; `None`, and
/// no change, where there is none.
pub fn delete(id: AnimalId, table: &mut Table) -> (outcome: Result<Option<()>, StorageError>)
    requires
        old(table).wf(),
    ensures
        final(table).wf(),
        final(table)@ == deleted(old(table)@, id.value),
        outcome == Ok::<Option<()>, StorageError>(delete_result(old(table)@, id.value)),
{
    proof {
        lemma_distinct_after_delete(table@, id.value);
    }
    match table.position(id) {
        Some(at) => {
            table.rows.remove(at);
            assert(table@ =~= old(table)@.remove(at as int));
            Ok(Some(()))
        },
        None => Ok(None),
    }
}

} // verus!
