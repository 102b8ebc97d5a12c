//! The resource controller for animals.
//!
//! A request reaches the controller as plain values: the path identifier as
//! text, the body as the fields that were decoded from it, or `None` where
//! it could not be decoded at all. The controller reads them, asks the
//! gateway, and turns what the gateway answers into a status and a body.
//! The four `*_response` functions are that last step alone, for a gateway
//! that is asked elsewhere.

use crate::handlers;
use crate::handlers::animal::{found_outcome, row_outcome, rows_outcome, Table};
use crate::model::{
    fields_complete, payload_of, row_of, uuid_parse, Animal, AnimalCreateRequest, AnimalId,
    AnimalView, PayloadFields, PayloadView,
};
use crate::response::{
    failure, no_content, surfaced, with_row, with_rows, ApiError, Body, Response, ResponseView,
};
use crate::storage::{
    create_result, created_all, delete_result, deleted, distinct_ids, has_id, inserted,
    law_create_then_get, law_deleted_id_absent, law_distinct_creates_succeed,
    law_duplicate_id_conflicts, law_update_keeps_ids, lookup, update_result, updated,
    StorageError,
};
use vstd::prelude::*;

verus! {

/// The payload that a body holds: none where the body could not be decoded,
/// a field is missing or the weight does not fit.
pub open spec fn body_payload(body: Option<PayloadFields>) -> Option<PayloadView> {
    match body {
        Some(fields) => if fields_complete(fields) {
            Some(payload_of(fields))
        } else {
            None
        },
        None => None,
    }
}

/// The response to a create, from what the gateway answered.
pub open spec fn respond_created(outcome: Result<AnimalView, StorageError>) -> ResponseView {
    match outcome {
        Ok(row) => with_row(201, row),
        Err(error) => failure(surfaced(error)),
    }
}

/// The response to a list, from what the gateway answered.
pub open spec fn respond_listed(outcome: Result<Seq<AnimalView>, StorageError>) -> ResponseView {
    match outcome {
        Ok(rows) => with_rows(rows),
        Err(error) => failure(surfaced(error)),
    }
}

/// The response to a get or an update, from what the gateway answered.
pub open spec fn respond_found(outcome: Result<Option<AnimalView>, StorageError>) -> ResponseView {
    match outcome {
        Ok(Some(row)) => with_row(200, row),
        Ok(None) => failure(ApiError::NotFound),
        Err(error) => failure(surfaced(error)),
    }
}

/// The response to a delete, from what the gateway answered.
pub open spec fn respond_deleted(outcome: Result<Option<()>, StorageError>) -> ResponseView {
    match outcome {
        Ok(Some(_)) => no_content(),
        Ok(None) => failure(ApiError::NotFound),
        Err(error) => failure(surfaced(error)),
    }
}

/// The response to a create that inserts under `id`.
pub open spec fn create_response(rows: Seq<AnimalView>, id: u128, body: Option<PayloadFields>)
    -> ResponseView {
    match body_payload(body) {
        Some(payload) => respond_created(create_result(rows, id, payload)),
        None => failure(ApiError::BadRequest),
    }
}

/// The table after a create that inserts under `id`.
pub open spec fn create_effect(rows: Seq<AnimalView>, id: u128, body: Option<PayloadFields>)
    -> Seq<AnimalView> {
    match body_payload(body) {
        Some(payload) => inserted(rows, row_of(id, payload)),
        None => rows,
    }
}

/// The response to a get.
pub open spec fn get_response(rows: Seq<AnimalView>, id_text: Seq<char>) -> ResponseView {
    match uuid_parse(id_text) {
        Some(id) => respond_found(Ok(lookup(rows, id))),
        None => failure(ApiError::BadRequest),
    }
}

/// The response to an update.
pub open spec fn update_response(
    rows: Seq<AnimalView>,
    id_text: Seq<char>,
    body: Option<PayloadFields>,
) -> ResponseView {
    match (uuid_parse(id_text), body_payload(body)) {
        (Some(id), Some(payload)) => respond_found(Ok(update_result(rows, id, payload))),
        _ => failure(ApiError::BadRequest),
    }
}

/// The table after an update.
pub open spec fn update_effect(
    rows: Seq<AnimalView>,
    id_text: Seq<char>,
    body: Option<PayloadFields>,
) -> Seq<AnimalView> {
    match (uuid_parse(id_text), body_payload(body)) {
        (Some(id), Some(payload)) => updated(rows, id, payload),
        _ => rows,
    }
}

/// The response to a delete.
pub open spec fn delete_response(rows: Seq<AnimalView>, id_text: Seq<char>) -> ResponseView {
    match uuid_parse(id_text) {
        Some(id) => respond_deleted(Ok(delete_result(rows, id))),
        None => failure(ApiError::BadRequest),
    }
}

/// The table after a delete.
pub open spec fn delete_effect(rows: Seq<AnimalView>, id_text: Seq<char>) -> Seq<AnimalView> {
    match uuid_parse(id_text) {
        Some(id) => deleted(rows, id),
        None => rows,
    }
}

/// Reads the payload out of a decoded body; `BadRequest` where there is none.
pub fn read_payload(body: Option<PayloadFields>) -> (payload: Result<
    AnimalCreateRequest,
    ApiError,
>)
    ensures
        match payload {
            Ok(found) => body_payload(body) == Some(found@),
            Err(error) => body_payload(body) is None && error == ApiError::BadRequest,
        },
{
    match body {
        Some(fields) => match fields.into_payload() {
            Some(found) => Ok(found),
            None => Err(ApiError::BadRequest),
        },
        None => Err(ApiError::BadRequest),
    }
}

/// Reads the path identifier; `BadRequest` where the text is no identifier.
pub fn read_id(id_text: &str) -> (id: Result<AnimalId, ApiError>)
    ensures
        match id {
            Ok(found) => uuid_parse(id_text@) == Some(found.value),
            Err(error) => uuid_parse(id_text@) is None && error == ApiError::BadRequest,
        },
{
    match AnimalId::parse(id_text) {
        Some(found) => Ok(found),
        None => Err(ApiError::BadRequest),
    }
}

/// 201 with the row; 409 for a conflict; 500 for any other failure.
pub fn created_response(outcome: Result<Animal, StorageError>) -> (response: Response)
    ensures
        response@ == respond_created(row_outcome(outcome)),
{
    match outcome {
        Ok(row) => Response { status: 201, body: Body::Row(row) },
        Err(error) => Response::error(ApiError::from_storage(error)),
    }
}

/// 200 with the rows; the status of the failure where the gateway failed.
pub fn listed_response(outcome: Result<Vec<Animal>, StorageError>) -> (response: Response)
    ensures
        response@ == respond_listed(rows_outcome(outcome)),
{
    match outcome {
        Ok(rows) => Response { status: 200, body: Body::Rows(rows) },
        Err(error) => Response::error(ApiError::from_storage(error)),
    }
}

/// 200 with the row; 404 where there is none; the status of the failure
/// where the gateway failed.
pub fn found_response(outcome: Result<Option<Animal>, StorageError>) -> (response: Response)
    ensures
        response@ == respond_found(found_outcome(outcome)),
{
    match outcome {
        Ok(Some(row)) => Response { status: 200, body: Body::Row(row) },
        Ok(None) => Response::error(ApiError::NotFound),
        Err(error) => Response::error(ApiError::from_storage(error)),
    }
}

/// 204 without a body; 404 where no row was removed; the status of the
/// failure where the gateway failed.
pub fn deleted_response(outcome: Result<Option<()>, StorageError>) -> (response: Response)
    ensures
        response@ == respond_deleted(outcome),
{
    match outcome {
        Ok(Some(_)) => Response { status: 204, body: Body::Empty },
        Ok(None) => Response::error(ApiError::NotFound),
        Err(error) => Response::error(ApiError::from_storage(error)),
    }
}

/// Creates a row from the body under a random identifier. A body without a
/// payload is answered with 400 and changes nothing. Otherwise, whatever
/// identifier was drawn, table and response are those of `create_with_id`.
pub fn create(body: Option<PayloadFields>, table: &mut Table) -> (response: Response)
    requires
        old(table).wf(),
    ensures
        final(table).wf(),
        exists|id: u128|
            {
                &&& final(table)@ == #[trigger] create_effect(old(table)@, id, body)
                &&& response@ == create_response(old(table)@, id, body)
            },
{
    let id = AnimalId::fresh();
    create_with_id(id, body, table)
}

/// Creates a row from the body under `id`: 201 with the row, 409 where the
/// identifier is taken, 400 where the body holds no payload.
pub fn create_with_id(id: AnimalId, body: Option<PayloadFields>, table: &mut Table) -> (response:
    Response)
    requires
        old(table).wf(),
    ensures
        final(table).wf(),
        final(table)@ == create_effect(old(table)@, id.value, body),
        response@ == create_response(old(table)@, id.value, body),
{
    match read_payload(body) {
        Ok(payload) => {
            let outcome = handlers::animal::create_with_id(id, payload, table);
            created_response(outcome)
        },
        Err(error) => Response::error(error),
    }
}

/// Every row in the order of creation, with status 200.
pub fn list(table: &Table) -> (response: Response)
    requires
        table.wf(),
    ensures
        response@ == with_rows(table@),
{
    listed_response(handlers::animal::list(table))
}

/// The row with the path identifier: 200 with the row, 404 where there is
/// none, 400 where the text is no identifier.
pub fn get(id_text: &str, table: &Table) -> (response: Response)
    requires
        table.wf(),
    ensures
        response@ == get_response(table@, id_text@),
{
    match read_id(id_text) {
        Ok(id) => found_response(handlers::animal::get(id, table)),
        Err(error) => Response::error(error),
    }
}

/// Replaces the fields of the row with the path identifier: 200 with the row
/// as it now is, 404 where there is none, 400 where the text is no
/// identifier or the body holds no payload. The path identifier alone says
/// which row is meant, and the row keeps it.
pub fn update(id_text: &str, body: Option<PayloadFields>, table: &mut Table) -> (response:
    Response)
    requires
        old(table).wf(),
    ensures
        final(table).wf(),
        final(table)@ == update_effect(old(table)@, id_text@, body),
        response@ == update_response(old(table)@, id_text@, body),
{
    match read_payload(body) {
        Ok(payload) => match read_id(id_text) {
            Ok(id) => found_response(handlers::animal::update(id, payload, table)),
            Err(error) => Response::error(error),
        },
        Err(error) => Response::error(error),
    }
}

/// Removes the row with the path identifier: 204 without a body, 404 where
/// there is none, 400 where the text is no identifier.
pub fn delete(id_text: &str, table: &mut Table) -> (response: Response)
    requires
        old(table).wf(),
    ensures
        final(table).wf(),
        final(table)@ == delete_effect(old(table)@, id_text@),
        response@ == delete_response(old(table)@, id_text@),
{
    match read_id(id_text) {
        Ok(id) => deleted_response(handlers::animal::delete(id, table)),
        Err(error) => Response::error(error),
    }
}

/// A valid create under an unused identifier is answered with 201 and the
/// row, and a get on that identifier is then answered with 200 and the same
/// row.
pub proof fn law_created_row_is_served(
    rows: Seq<AnimalView>,
    id: u128,
    id_text: Seq<char>,
    body: Option<PayloadFields>,
)
    requires
        uuid_parse(id_text) == Some(id),
        body_payload(body) is Some,
        !has_id(rows, id),
    ensures
        create_response(rows, id, body) == with_row(201, row_of(id, body_payload(body)->0)),
        get_response(create_effect(rows, id, body), id_text) == with_row(
            200,
            row_of(id, body_payload(body)->0),
        ),
{
    law_create_then_get(rows, id, body_payload(body)->0);
}

/// For an identifier that no row has, get, update and delete are each
/// answered with 404, and the table stays as it is.
pub proof fn law_unknown_id_not_found(
    rows: Seq<AnimalView>,
    id_text: Seq<char>,
    body: Option<PayloadFields>,
)
    requires
        uuid_parse(id_text) is Some,
        !has_id(rows, uuid_parse(id_text)->0),
        body_payload(body) is Some,
    ensures
        get_response(rows, id_text) == failure(ApiError::NotFound),
        update_response(rows, id_text, body) == failure(ApiError::NotFound),
        delete_response(rows, id_text) == failure(ApiError::NotFound),
        update_effect(rows, id_text, body) == rows,
        delete_effect(rows, id_text) == rows,
        failure(ApiError::NotFound).status == 404,
{
}

/// Once an identifier was deleted, get, update and delete on it are each
/// answered with 404: the second delete is a 404 and not a 204, and it
/// leaves the table as the first delete left it.
pub proof fn law_deleted_id_not_found(
    rows: Seq<AnimalView>,
    id_text: Seq<char>,
    body: Option<PayloadFields>,
)
    requires
        distinct_ids(rows),
        uuid_parse(id_text) is Some,
        body_payload(body) is Some,
    ensures
        get_response(delete_effect(rows, id_text), id_text) == failure(ApiError::NotFound),
        update_response(delete_effect(rows, id_text), id_text, body) == failure(
            ApiError::NotFound,
        ),
        delete_response(delete_effect(rows, id_text), id_text) == failure(ApiError::NotFound),
        delete_effect(delete_effect(rows, id_text), id_text) == delete_effect(rows, id_text),
        has_id(rows, uuid_parse(id_text)->0) ==> delete_response(rows, id_text) == no_content(),
{
    law_deleted_id_absent(rows, uuid_parse(id_text)->0);
}

/// An update is addressed by the path identifier alone: where it finds a
/// row, the row that it answers with and stores has that identifier, and no
/// row of the table changes its identifier.
pub proof fn law_update_keeps_identifier(
    rows: Seq<AnimalView>,
    id_text: Seq<char>,
    body: Option<PayloadFields>,
)
    requires
        distinct_ids(rows),
    ensures
        update_effect(rows, id_text, body).len() == rows.len(),
        forall|k: int|
            0 <= k < rows.len() ==> (#[trigger] update_effect(rows, id_text, body)[k]).id
                == rows[k].id,
        update_response(rows, id_text, body).status == 200 ==> {
            &&& uuid_parse(id_text) is Some
            &&& body_payload(body) is Some
            &&& update_response(rows, id_text, body) == with_row(
                200,
                row_of(uuid_parse(id_text)->0, body_payload(body)->0),
            )
            &&& get_response(update_effect(rows, id_text, body), id_text) == update_response(
                rows,
                id_text,
                body,
            )
        },
{
    if uuid_parse(id_text) is Some && body_payload(body) is Some {
        law_update_keeps_ids(rows, uuid_parse(id_text)->0, body_payload(body)->0);
    }
}

/// An identifier in the body counts for nothing: two bodies that differ in
/// it alone get the same response and leave the same table, on create and on
/// update.
pub proof fn law_body_identifier_ignored(
    rows: Seq<AnimalView>,
    id: u128,
    id_text: Seq<char>,
    body: PayloadFields,
    body_id: Option<String>,
)
    ensures
        ({
            let other = PayloadFields { id: body_id, ..body };
            &&& create_response(rows, id, Some(other)) == create_response(rows, id, Some(body))
            &&& create_effect(rows, id, Some(other)) == create_effect(rows, id, Some(body))
            &&& update_response(rows, id_text, Some(other)) == update_response(
                rows,
                id_text,
                Some(body),
            )
            &&& update_effect(rows, id_text, Some(other)) == update_effect(
                rows,
                id_text,
                Some(body),
            )
        }),
{
}

/// A second valid create under the same identifier is answered with 409 and
/// changes nothing.
pub proof fn law_duplicate_create_conflicts(
    rows: Seq<AnimalView>,
    id: u128,
    first: Option<PayloadFields>,
    second: Option<PayloadFields>,
)
    requires
        body_payload(first) is Some,
        body_payload(second) is Some,
    ensures
        create_response(create_effect(rows, id, first), id, second) == failure(
            ApiError::Conflict,
        ),
        failure(ApiError::Conflict).status == 409,
        create_effect(create_effect(rows, id, first), id, second) == create_effect(
            rows,
            id,
            first,
        ),
{
    law_duplicate_id_conflicts(rows, id, body_payload(first)->0, body_payload(second)->0);
}

/// A valid create is answered with 409 only where the identifier is taken:
/// under an unused identifier it is a 201.
pub proof fn law_conflict_only_on_taken_id(
    rows: Seq<AnimalView>,
    id: u128,
    body: Option<PayloadFields>,
)
    requires
        body_payload(body) is Some,
    ensures
        create_response(rows, id, body).status == 409 <==> has_id(rows, id),
        create_response(rows, id, body).status == 201 <==> !has_id(rows, id),
{
}

/// The rows that valid bodies make under the identifiers at the same places.
pub open spec fn rows_made(ids: Seq<u128>, bodies: Seq<Option<PayloadFields>>) -> Seq<AnimalView> {
    Seq::new(ids.len(), |k: int| row_of(ids[k], body_payload(bodies[k])->0))
}

/// Valid creates under identifiers that differ from each other and from
/// those in the table never conflict: each in turn is answered with 201 and
/// its row, and the table ends as the old rows followed by the new ones.
pub proof fn law_distinct_creates_never_conflict(
    rows: Seq<AnimalView>,
    ids: Seq<u128>,
    bodies: Seq<Option<PayloadFields>>,
)
    requires
        ids.len() == bodies.len(),
        forall|k: int| 0 <= k < bodies.len() ==> body_payload(#[trigger] bodies[k]) is Some,
        distinct_ids(rows + rows_made(ids, bodies)),
    ensures
        created_all(rows, rows_made(ids, bodies)) == rows + rows_made(ids, bodies),
        forall|k: int|
            0 <= k < ids.len() ==> #[trigger] create_response(
                created_all(rows, rows_made(ids, bodies).take(k)),
                ids[k],
                bodies[k],
            ) == with_row(201, rows_made(ids, bodies)[k]),
{
    let batch = rows_made(ids, bodies);
    law_distinct_creates_succeed(rows, batch);
    assert forall|k: int| 0 <= k < ids.len() implies #[trigger] create_response(
        created_all(rows, batch.take(k)),
        ids[k],
        bodies[k],
    ) == with_row(201, batch[k]) by {
        assert(body_payload(bodies[k]) is Some);
        assert(batch[k].id == ids[k]);
        assert(!has_id(created_all(rows, batch.take(k)), batch[k].id));
    }
}

} // verus!
