//! What a controller answers: a status and a body.

use crate::model::{views_of, Animal, AnimalView};
use crate::storage::StorageError;
use vstd::prelude::*;

verus! {

/// Why a request was not served. Each kind has one status and one stable
/// code for the body; no detail of the failure goes further than this.
#[derive(Clone, Copy, Debug, PartialEq, Eq, Structural)]
pub enum ApiError {
    /// The body or the path identifier could not be read.
    BadRequest,
    /// No row has the identifier.
    NotFound,
    /// The store refused the row because of a constraint.
    Conflict,
    /// The store failed or could not be reached.
    Internal,
}

/// The body of a response.
#[derive(Debug, PartialEq, Eq)]
pub enum Body {
    Empty,
    Row(Animal),
    Rows(Vec<Animal>),
    Error(ApiError),
}

/// A status and a body.
#[derive(Debug, PartialEq, Eq)]
pub struct Response {
    pub status: u16,
    pub body: Body,
}

/// The mathematical value of a body.
pub enum BodyView {
    Empty,
    Row(AnimalView),
    Rows(Seq<AnimalView>),
    Error(ApiError),
}

/// The mathematical value of a response.
pub struct ResponseView {
    pub status: int,
    pub body: BodyView,
}

/// The status that goes with each kind of failure.
pub open spec fn status_of(error: ApiError) -> int {
    match error {
        ApiError::BadRequest => 400,
        ApiError::NotFound => 404,
        ApiError::Conflict => 409,
        ApiError::Internal => 500,
    }
}

/// How a failure of the store is shown to a client: a conflict as such,
/// anything else as an internal failure.
pub open spec fn surfaced(error: StorageError) -> ApiError {
    match error {
        StorageError::Conflict => ApiError::Conflict,
        StorageError::Unavailable => ApiError::Internal,
        StorageError::Internal => ApiError::Internal,
    }
}

/// The response that reports a failure.
pub open spec fn failure(error: ApiError) -> ResponseView {
    ResponseView { status: status_of(error), body: BodyView::Error(error) }
}

/// The response that carries one row under a status.
pub open spec fn with_row(status: int, row: AnimalView) -> ResponseView {
    ResponseView { status, body: BodyView::Row(row) }
}

/// The response that carries every row, status 200.
pub open spec fn with_rows(rows: Seq<AnimalView>) -> ResponseView {
    ResponseView { status: 200, body: BodyView::Rows(rows) }
}

/// The response without a body, status 204.
pub open spec fn no_content() -> ResponseView {
    ResponseView { status: 204, body: BodyView::Empty }
}

impl View for Body {
    type V = BodyView;

    open spec fn view(&self) -> BodyView {
        match *self {
            Body::Empty => BodyView::Empty,
            Body::Row(row) => BodyView::Row(row@),
            Body::Rows(rows) => BodyView::Rows(views_of(rows@)),
            Body::Error(error) => BodyView::Error(error),
        }
    }
}

impl View for Response {
    type V = ResponseView;

    open spec fn view(&self) -> ResponseView {
        ResponseView { status: self.status as int, body: self.body@ }
    }
}

impl ApiError {
    /// The HTTP status of this failure.
    pub fn status(self) -> (status: u16)
        ensures
            status == status_of(self),
    {
        match self {
            ApiError::BadRequest => 400,
            ApiError::NotFound => 404,
            ApiError::Conflict => 409,
            ApiError::Internal => 500,
        }
    }

    /// The machine-readable code that a failure body carries.
    pub fn code(self) -> (code: &'static str)
        ensures
            code@ == match self {
                ApiError::BadRequest => "bad_request"@,
                ApiError::NotFound => "not_found"@,
                ApiError::Conflict => "conflict"@,
                ApiError::Internal => "internal_error"@,
            },
    {
        match self {
            ApiError::BadRequest => "bad_request",
            ApiError::NotFound => "not_found",
            ApiError::Conflict => "conflict",
            ApiError::Internal => "internal_error",
        }
    }

    /// The failure that a client sees for a failure of the store.
    pub fn from_storage(error: StorageError) -> (shown: ApiError)
        ensures
            shown == surfaced(error),
    {
        match error {
            StorageError::Conflict => ApiError::Conflict,
            StorageError::Unavailable => ApiError::Internal,
            StorageError::Internal => ApiError::Internal,
        }
    }
}

impl Response {
    /// The response that reports `error`.
    pub fn error(error: ApiError) -> (response: Response)
        ensures
            response@ == failure(error),
    {
        Response { status: error.status(), body: Body::Error(error) }
    }
}

} // verus!
