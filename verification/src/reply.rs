//! What an endpoint answers when it does not answer with its own body.
//!
//! A malformed path or query is answered with 400, a missing row with 404, a
//! body that breaks a rule with 422, and a storage failure with a bare 500.

use vstd::prelude::*;

verus! {

/// The HTTP status codes the service answers with.
#[derive(Clone, Copy, Debug, PartialEq, Eq, Structural)]
pub enum StatusCode {
    /// 200
    Success,
    /// 201
    Created,
    /// 400
    BadRequest,
    /// 404
    NotFound,
    /// 422
    UnprocessableEntity,
    /// 500
    InternalServerError,
}

impl StatusCode {
    /// The number of the status code.
    pub open spec fn number(self) -> u16 {
        match self {
            StatusCode::Success => 200,
            StatusCode::Created => 201,
            StatusCode::BadRequest => 400,
            StatusCode::NotFound => 404,
            StatusCode::UnprocessableEntity => 422,
            StatusCode::InternalServerError => 500,
        }
    }

    /// The number of the status code.
    pub fn code(self) -> (r: u16)
        ensures
            r == self.number(),
    {
        match self {
            StatusCode::Success => 200,
            StatusCode::Created => 201,
            StatusCode::BadRequest => 400,
            StatusCode::NotFound => 404,
            StatusCode::UnprocessableEntity => 422,
            StatusCode::InternalServerError => 500,
        }
    }
}

/// Storage did not do what it was asked.
#[derive(Clone, Debug)]
pub struct StorageFailure {
    /// What went wrong, for the log; never sent to a client.
    pub message: String,
}

/// A refused request: its status code and, unless it is a bare 500, the text
/// under the `error` key of the body.
#[derive(Debug)]
pub struct Rejection {
    /// The status code.
    pub status: StatusCode,
    /// The text under the `error` key; absent when there is no body.
    pub error: Option<String>,
}

/// The content of a [`Rejection`].
pub struct Refusal {
    /// The status code.
    pub status: StatusCode,
    /// The text under the `error` key.
    pub error: Option<Seq<char>>,
}

impl View for Rejection {
    type V = Refusal;

    open spec fn view(&self) -> Refusal {
        Refusal { status: self.status, error: crate::text::text_of(self.error) }
    }
}

impl Refusal {
    /// 400 with a message.
    pub open spec fn bad_request(message: Seq<char>) -> Refusal {
        Refusal { status: StatusCode::BadRequest, error: Some(message) }
    }

    /// 404 with a message.
    pub open spec fn not_found(message: Seq<char>) -> Refusal {
        Refusal { status: StatusCode::NotFound, error: Some(message) }
    }

    /// 422 with a message.
    pub open spec fn unprocessable(message: Seq<char>) -> Refusal {
        Refusal { status: StatusCode::UnprocessableEntity, error: Some(message) }
    }

    /// 500 without a body.
    pub open spec fn internal() -> Refusal {
        Refusal { status: StatusCode::InternalServerError, error: None }
    }
}

impl Rejection {
    /// 400 with a message.
    pub fn bad_request(message: String) -> (r: Rejection)
        ensures
            r@ == Refusal::bad_request(message@),
    {
        Rejection { status: StatusCode::BadRequest, error: Some(message) }
    }

    /// 404 with a message.
    pub fn not_found(message: String) -> (r: Rejection)
        ensures
            r@ == Refusal::not_found(message@),
    {
        Rejection { status: StatusCode::NotFound, error: Some(message) }
    }

    /// 422 with a message.
    pub fn unprocessable(message: String) -> (r: Rejection)
        ensures
            r@ == Refusal::unprocessable(message@),
    {
        Rejection { status: StatusCode::UnprocessableEntity, error: Some(message) }
    }

    /// 500 without a body.
    pub fn internal() -> (r: Rejection)
        ensures
            r@ == Refusal::internal(),
    {
        Rejection { status: StatusCode::InternalServerError, error: None }
    }
}

/// What an identifier in a path comes to: 400 with `complaint` if it is no UUID.
pub open spec fn identified(uuid: Option<u128>, complaint: Seq<char>) -> Result<u128, Refusal> {
    match uuid {
        Some(uuid) => Ok(uuid),
        None => Err(Refusal::bad_request(complaint)),
    }
}

/// The UUID that was read from a path, or a rejection if there is none.
pub fn identify(uuid: Option<u128>, complaint: &str) -> (r: Result<u128, Rejection>)
    ensures
        outcome(r) == identified(uuid, complaint@),
{
    match uuid {
        Some(uuid) => Ok(uuid),
        None => Err(Rejection::bad_request(complaint.to_owned())),
    }
}

/// An answer with a body.
#[derive(Debug)]
pub struct Reply<T> {
    /// The status code.
    pub status: StatusCode,
    /// The body.
    pub body: T,
}

/// A result with the content of its rejection.
pub open spec fn outcome<T>(r: Result<T, Rejection>) -> Result<T, Refusal> {
    match r {
        Ok(value) => Ok(value),
        Err(rejection) => Err(rejection@),
    }
}

/// What a read of one row comes to: the row, 404 with `missing` if there is no
/// such row, 500 if storage failed.
pub open spec fn found_row<T>(
    read: Result<Option<T>, StorageFailure>,
    missing: Seq<char>,
) -> Result<T, Refusal> {
    match read {
        Ok(Some(row)) => Ok(row),
        Ok(None) => Err(Refusal::not_found(missing)),
        Err(_) => Err(Refusal::internal()),
    }
}

/// The row a read found, or the rejection it comes to.
pub fn found<T>(read: Result<Option<T>, StorageFailure>, missing: &str) -> (r: Result<
    T,
    Rejection,
>)
    ensures
        outcome(r) == found_row(read, missing@),
{
    match read {
        Ok(Some(row)) => Ok(row),
        Ok(None) => Err(Rejection::not_found(missing.to_owned())),
        Err(_) => Err(Rejection::internal()),
    }
}

/// What a storage call without a missing case comes to: its value, or 500.
pub open spec fn stored_value<T>(call: Result<T, StorageFailure>) -> Result<T, Refusal> {
    match call {
        Ok(value) => Ok(value),
        Err(_) => Err(Refusal::internal()),
    }
}

/// The value of a storage call, or a bare 500.
pub fn stored<T>(call: Result<T, StorageFailure>) -> (r: Result<T, Rejection>)
    ensures
        outcome(r) == stored_value(call),
{
    match call {
        Ok(value) => Ok(value),
        Err(_) => Err(Rejection::internal()),
    }
}

/// What a change of one row comes to: 404 with `missing` if there was no such
/// row, 500 if storage failed.
pub open spec fn changed_row(
    call: Result<bool, StorageFailure>,
    missing: Seq<char>,
) -> Result<(), Refusal> {
    match call {
        Ok(true) => Ok(()),
        Ok(false) => Err(Refusal::not_found(missing)),
        Err(_) => Err(Refusal::internal()),
    }
}

/// Whether a change of one row succeeded, or the rejection it comes to.
pub fn changed(call: Result<bool, StorageFailure>, missing: &str) -> (r: Result<(), Rejection>)
    ensures
        outcome(r) == changed_row(call, missing@),
{
    match call {
        Ok(true) => Ok(()),
        Ok(false) => Err(Rejection::not_found(missing.to_owned())),
        Err(_) => Err(Rejection::internal()),
    }
}

/// The answer to a removal.
#[derive(Debug)]
pub struct DeletedResponse {
    /// Identifies what was removed.
    pub id: String,
    /// Always true.
    pub deleted: bool,
}

/// The answer once storage has been asked to remove a row: 200 with its
/// identifier, 404 if there was no such row, 500 if storage failed.
pub fn deleted(id: u128, call: Result<bool, StorageFailure>, missing: &str) -> (r: Result<
    Reply<DeletedResponse>,
    Rejection,
>)
    ensures
        match (changed_row(call, missing@), outcome(r)) {
            (Ok(_), Ok(reply)) => {
                &&& reply.status == StatusCode::Success
                &&& crate::ids::writes_uuid(reply.body.id@, id)
                &&& reply.body.deleted
            },
            (Err(refusal), Err(answer)) => answer == refusal,
            _ => false,
        },
{
    match changed(call, missing) {
        Ok(_) => Ok(
            Reply {
                status: StatusCode::Success,
                body: DeletedResponse { id: crate::ids::uuid_text(id), deleted: true },
            },
        ),
        Err(rejection) => Err(rejection),
    }
}

} // verus!
