//! The decisions of the request handlers: which status a repository's answer
//! is reported with and which envelope it is wrapped in.
//!
//! There are three kinds of request. One that stores a new record answers
//! `Created`, or `InternalServerError` on any failure. One that reads answers
//! `Success`, `NotFound` for a missing row and `InternalServerError` for any
//! other failure. One that changes a stored record answers `Success`, or
//! `NotFound` on any failure.

use crate::data::RepositoryError;
use vstd::prelude::*;

verus! {

/// The status line of a reply.
#[derive(Clone, Copy, Debug, PartialEq, Eq, Structural)]
pub enum HttpStatus {
    /// 200: a read or an update went through.
    Success,
    /// 201: a new record was stored.
    Created,
    /// 404: the record asked for does not exist.
    NotFound,
    /// 500: the repository failed.
    InternalServerError,
}

impl HttpStatus {
    /// The numeric status code.
    pub open spec fn spec_code(&self) -> u16 {
        match self {
            HttpStatus::Success => 200,
            HttpStatus::Created => 201,
            HttpStatus::NotFound => 404,
            HttpStatus::InternalServerError => 500,
        }
    }

    /// The numeric status code.
    #[verifier::when_used_as_spec(spec_code)]
    pub fn code(&self) -> (code: u16)
        ensures
            code == self.spec_code(),
    {
        match self {
            HttpStatus::Success => 200,
            HttpStatus::Created => 201,
            HttpStatus::NotFound => 404,
            HttpStatus::InternalServerError => 500,
        }
    }
}

/// The uniform body of a reply: a status word and a result.
#[derive(Clone, Debug, PartialEq, Eq)]
pub enum Envelope<T> {
    /// Status `success`; the result is the payload.
    Success(T),
    /// Status `fail`; the result is the text of the error.
    Fail(RepositoryError),
}

impl<T> Envelope<T> {
    /// The status word of the envelope.
    pub fn status(&self) -> (word: &'static str)
        ensures
            self is Success ==> word@ == "success"@,
            self is Fail ==> word@ == "fail"@,
    {
        match self {
            Envelope::Success(_) => "success",
            Envelope::Fail(_) => "fail",
        }
    }
}

/// What a handler answers: a status and an envelope.
#[derive(Clone, Debug, PartialEq, Eq)]
pub struct Reply<T> {
    pub status: HttpStatus,
    pub body: Envelope<T>,
}

/// The reply to a request that stores a new record.
pub open spec fn spec_created<T>(result: Result<T, RepositoryError>) -> Reply<T> {
    match result {
        Ok(payload) => Reply { status: HttpStatus::Created, body: Envelope::Success(payload) },
        Err(error) => Reply { status: HttpStatus::InternalServerError, body: Envelope::Fail(error) },
    }
}

/// The reply to a request that reads one record or a page of records.
pub open spec fn spec_fetched<T>(result: Result<T, RepositoryError>) -> Reply<T> {
    match result {
        Ok(payload) => Reply { status: HttpStatus::Success, body: Envelope::Success(payload) },
        Err(RepositoryError::RowNotFound) => Reply {
            status: HttpStatus::NotFound,
            body: Envelope::Fail(RepositoryError::RowNotFound),
        },
        Err(error) => Reply { status: HttpStatus::InternalServerError, body: Envelope::Fail(error) },
    }
}

/// The reply to a request that changes a stored record.
pub open spec fn spec_updated<T>(result: Result<T, RepositoryError>) -> Reply<T> {
    match result {
        Ok(payload) => Reply { status: HttpStatus::Success, body: Envelope::Success(payload) },
        Err(error) => Reply { status: HttpStatus::NotFound, body: Envelope::Fail(error) },
    }
}

/// Wraps the payload of a successful operation.
pub fn build_success_response<T>(payload: T) -> (body: Envelope<T>)
    ensures
        body == Envelope::Success(payload),
{
    Envelope::Success(payload)
}

/// Wraps the payloads of a successful listing.
pub fn build_success_multi_response<T>(payload: Vec<T>) -> (body: Envelope<Vec<T>>)
    ensures
        body == Envelope::Success(payload),
{
    Envelope::Success(payload)
}

/// Wraps the error of a failed operation.
pub fn build_error_response<T>(error: RepositoryError) -> (body: Envelope<T>)
    ensures
        body == Envelope::<T>::Fail(error),
{
    Envelope::Fail(error)
}

/// The reply to a request that stores a new record: `Created` with the
/// stored record, `InternalServerError` if it could not be stored.
pub fn created<T>(result: Result<T, RepositoryError>) -> (reply: Reply<T>)
    ensures
        reply == spec_created(result),
{
    match result {
        Ok(payload) => Reply { status: HttpStatus::Created, body: build_success_response(payload) },
        Err(error) => Reply {
            status: HttpStatus::InternalServerError,
            body: build_error_response(error),
        },
    }
}

/// The reply to a request that reads one record or a page of records:
/// `Success` with what was found, `NotFound` if there is no such row,
/// `InternalServerError` if the repository failed.
pub fn fetched<T>(result: Result<T, RepositoryError>) -> (reply: Reply<T>)
    ensures
        reply == spec_fetched(result),
{
    match result {
        Ok(payload) => Reply { status: HttpStatus::Success, body: build_success_response(payload) },
        Err(RepositoryError::RowNotFound) => Reply {
            status: HttpStatus::NotFound,
            body: build_error_response(RepositoryError::RowNotFound),
        },
        Err(error) => Reply {
            status: HttpStatus::InternalServerError,
            body: build_error_response(error),
        },
    }
}

/// The reply to a request that changes a stored record: `Success` with the
/// record as changed, `NotFound` if it could not be changed.
pub fn updated<T>(result: Result<T, RepositoryError>) -> (reply: Reply<T>)
    ensures
        reply == spec_updated(result),
{
    match result {
        Ok(payload) => Reply { status: HttpStatus::Success, body: build_success_response(payload) },
        Err(error) => Reply { status: HttpStatus::NotFound, body: build_error_response(error) },
    }
}

} // verus!
