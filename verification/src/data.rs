//! The decisions of the repositories: how a page request becomes a window of
//! rows, and when a query's rows count as a result.
//!
//! The queries themselves are run elsewhere. Each method here takes what a
//! query returned and says what the repository answers.

pub mod errors;

use crate::data::errors::NoIdProvided;
use crate::model::{CategoryResponse, Roles};
use vstd::prelude::*;

verus! {

/// Page number used when a request names none.
pub const DEFAULT_PAGE: i64 = 1;

/// Page size used when a request names none.
pub const DEFAULT_PER_PAGE: i64 = 25;

/// The role that every newly registered user is given, whatever the request
/// asks for.
pub const NEW_USER_ROLE: Roles = Roles::User;

/// Message of the error raised when a service is updated without an
/// identifier.
pub const NO_SERVICE_ID: &'static str = "NO ID PROVIDED TO UPDATE THE SERVICE";

/// The paging fields of a request, each of which may be missing.
#[derive(Clone, Debug, PartialEq, Eq)]
pub struct PaginationRequest {
    pub page: Option<i64>,
    pub per_page: Option<i64>,
}

/// A page of a listing: pages are numbered from 1.
#[derive(Clone, Debug, PartialEq, Eq)]
pub struct Pagination {
    pub page: i64,
    pub per_page: i64,
}

impl Pagination {
    /// Fills the missing fields of a request with the defaults: the first
    /// page, twenty-five rows per page.
    pub fn new(pagination_request: PaginationRequest) -> (pagination: Self)
        ensures
            pagination.page == match pagination_request.page {
                Some(page) => page,
                None => DEFAULT_PAGE,
            },
            pagination.per_page == match pagination_request.per_page {
                Some(per_page) => per_page,
                None => DEFAULT_PER_PAGE,
            },
    {
        Pagination {
            page: match pagination_request.page {
                Some(page) => page,
                None => DEFAULT_PAGE,
            },
            per_page: match pagination_request.per_page {
                Some(per_page) => per_page,
                None => DEFAULT_PER_PAGE,
            },
        }
    }

    /// Number of rows that precede this page.
    pub open spec fn spec_offset(&self) -> int {
        (self.page - 1) * self.per_page
    }

    /// The most rows a query for this page may return.
    pub fn limit(&self) -> (limit: i64)
        ensures
            limit == self.per_page,
    {
        self.per_page
    }

    /// Number of rows a query for this page has to skip, or `None` if that
    /// number cannot be held in 64 bits.
    pub fn offset(&self) -> (offset: Option<i64>)
        ensures
            i64::MIN <= self.spec_offset() <= i64::MAX ==> offset == Some(self.spec_offset() as i64),
            !(i64::MIN <= self.spec_offset() <= i64::MAX) ==> offset.is_none(),
    {
        match self.page.checked_sub(1) {
            Some(pages_before) => pages_before.checked_mul(self.per_page),
            None => {
                // Only the smallest page number has no predecessor; every
                // page size but 0 then takes the product out of range.
                assert(self.page == i64::MIN);
                if self.per_page == 0 {
                    Some(0)
                } else {
                    assert(!(i64::MIN <= self.spec_offset() <= i64::MAX)) by (nonlinear_arith)
                        requires
                            self.page == i64::MIN,
                            self.per_page != 0,
                            self.spec_offset() == (self.page - 1) * self.per_page,
                    ;
                    None
                }
            },
        }
    }
}

/// Why a repository has no result.
#[derive(Clone, Debug, PartialEq, Eq)]
pub enum RepositoryError {
    /// The query ran and found no row.
    RowNotFound,
    /// The query could not be run; the text says why.
    Database(String),
}

/// A single row, or `RowNotFound` where the query found none.
fn found<T>(row: Option<T>) -> (result: Result<T, RepositoryError>)
    ensures
        result == spec_found(row),
{
    match row {
        Some(row) => Ok(row),
        None => Err(RepositoryError::RowNotFound),
    }
}

/// The rows of a listing, or `RowNotFound` where the query found none.
fn non_empty<T>(rows: Vec<T>) -> (result: Result<Vec<T>, RepositoryError>)
    ensures
        result == spec_non_empty(rows),
{
    if rows.len() == 0 {
        Err(RepositoryError::RowNotFound)
    } else {
        Ok(rows)
    }
}

/// What a lookup answers for what its query returned.
pub open spec fn spec_found<T>(row: Option<T>) -> Result<T, RepositoryError> {
    match row {
        Some(row) => Ok(row),
        None => Err(RepositoryError::RowNotFound),
    }
}

/// What a listing that must not be empty answers for what its query
/// returned.
pub open spec fn spec_non_empty<T>(rows: Vec<T>) -> Result<Vec<T>, RepositoryError> {
    if rows@.len() == 0 {
        Err(RepositoryError::RowNotFound)
    } else {
        Ok(rows)
    }
}

/// Decisions on categories.
#[derive(Debug)]
pub struct CategoryRepository {}

impl CategoryRepository {
    /// A repository; it holds no state of its own.
    pub fn new() -> (repository: Self)
        ensures
            repository == (CategoryRepository {  }),
    {
        CategoryRepository {  }
    }

    /// The category with the requested identifier, or `RowNotFound`.
    pub fn get_by_id(&self, row: Option<CategoryResponse>) -> (result: Result<
        CategoryResponse,
        RepositoryError,
    >)
        ensures
            result == spec_found(row),
    {
        found(row)
    }

    /// The categories of the requested page, or `RowNotFound` if the page
    /// is empty.
    pub fn get_all(&self, rows: Vec<CategoryResponse>) -> (result: Result<
        Vec<CategoryResponse>,
        RepositoryError,
    >)
        ensures
            result == spec_non_empty(rows),
    {
        non_empty(rows)
    }
}

/// Decisions on users. A stored user is whatever row type the caller reads.
#[derive(Debug)]
pub struct UserRepository {}

impl UserRepository {
    /// A repository; it holds no state of its own.
    pub fn new() -> (repository: Self)
        ensures
            repository == (UserRepository {  }),
    {
        UserRepository {  }
    }

    /// The user with the requested identifier, or `RowNotFound`.
    pub fn get_by_dni<R>(&self, row: Option<R>) -> (result: Result<R, RepositoryError>)
        ensures
            result == spec_found(row),
    {
        found(row)
    }

    /// The users of the requested page, or `RowNotFound` if the page is
    /// empty.
    pub fn get_all<R>(&self, rows: Vec<R>) -> (result: Result<Vec<R>, RepositoryError>)
        ensures
            result == spec_non_empty(rows),
    {
        non_empty(rows)
    }

    /// The user as updated, or `RowNotFound` if no user has the identifier.
    pub fn update_user<R>(&self, row: Option<R>) -> (result: Result<R, RepositoryError>)
        ensures
            result == spec_found(row),
    {
        found(row)
    }
}

/// Decisions on services.
#[derive(Debug)]
pub struct ServiceRepository {}

impl ServiceRepository {
    /// A repository; it holds no state of its own.
    pub fn new() -> (repository: Self)
        ensures
            repository == (ServiceRepository {  }),
    {
        ServiceRepository {  }
    }

    /// The identifier under which a service is to be updated. A service
    /// without one cannot be updated.
    pub fn update_service<I>(&self, id: Option<I>) -> (result: Result<I, NoIdProvided>)
        ensures
            match id {
                Some(id) => result == Ok::<I, NoIdProvided>(id),
                None => result is Err && result->Err_0@ == NO_SERVICE_ID@,
            },
    {
        match id {
            Some(id) => Ok(id),
            None => Err(NoIdProvided::new(NO_SERVICE_ID)),
        }
    }
}

/// Decisions on rates. A stored rate is whatever row type the caller reads.
#[derive(Debug)]
pub struct RateRepository {}

impl RateRepository {
    /// A repository; it holds no state of its own.
    pub fn new() -> (repository: Self)
        ensures
            repository == (RateRepository {  }),
    {
        RateRepository {  }
    }

    /// The rate that one user gave another, or `RowNotFound`.
    pub fn get_rate<R>(&self, row: Option<R>) -> (result: Result<R, RepositoryError>)
        ensures
            result == spec_found(row),
    {
        found(row)
    }
}

/// Decisions on comments. A stored comment is whatever row type the caller
/// reads.
#[derive(Debug)]
pub struct CommentRepository {}

impl CommentRepository {
    /// A repository; it holds no state of its own.
    pub fn new() -> (repository: Self)
        ensures
            repository == (CommentRepository {  }),
    {
        CommentRepository {  }
    }

    /// The comment that one user left on another, or `RowNotFound`.
    pub fn get_comment<R>(&self, row: Option<R>) -> (result: Result<R, RepositoryError>)
        ensures
            result == spec_found(row),
    {
        found(row)
    }
}

} // verus!
