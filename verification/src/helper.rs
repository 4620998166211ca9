//! Small helpers for handlers.

use crate::error::{
    DbError, Status, ValidationErrors, BAD_REQUEST, INTERNAL_SERVER_ERROR, NOT_FOUND, OK,
};
use vstd::prelude::*;

verus! {

/// One of two things.
#[derive(Debug)]
pub enum Either<L, R> {
    Left(L),
    Right(R),
}

/// The body of an answer that reports a failure: the status code, and, for
/// a failed validation, the failures per field as JSON text.
#[derive(Debug)]
pub struct ErrorBody {
    pub error: u16,
    pub validation_error: Option<String>,
}

/// Tells a value that is absent from one that is explicitly null.
///
/// A field that may be null in the database is generated as an option of an
/// option. Reading what is there gives the inner option; wrapping it says
/// that something was there. An absent field never gets this far, and is
/// left as `None` by its default.
pub fn double_option<T, E>(read: Result<Option<T>, E>) -> (r: Result<Option<Option<T>>, E>)
    ensures
        match read {
            Ok(inner) => r == Ok::<Option<Option<T>>, E>(Some(inner)),
            Err(e) => r == Err::<Option<Option<T>>, E>(e),
        },
{
    match read {
        Ok(inner) => Ok(Some(inner)),
        Err(e) => Err(e),
    }
}

/// The answer that hands out a value: status 200 and the value.
pub fn ok_to_response<T>(value: T) -> (r: (Status, Either<T, ErrorBody>))
    ensures
        r.0.code == OK,
        r.1 == Either::<T, ErrorBody>::Left(value),
{
    (Status { code: OK }, Either::Left(value))
}

/// The answer to a failed validation: status 400, and a body that gives the
/// code and the failures per field.
pub fn validation_error_to_response<T>(errors: ValidationErrors) -> (r: (
    Status,
    Either<T, ErrorBody>,
))
    ensures
        r.0.code == BAD_REQUEST,
        r.1 matches Either::Right(body) && body.error == BAD_REQUEST && body.validation_error
            == Some(errors.field_errors),
{
    (
        Status { code: BAD_REQUEST },
        Either::Right(
            ErrorBody { error: BAD_REQUEST, validation_error: Some(errors.field_errors) },
        ),
    )
}

/// The status that answers a failure of the database: 404 where no row was
/// found, 500 for anything else.
pub open spec fn db_status(error: DbError) -> u16 {
    if error.not_found {
        NOT_FOUND
    } else {
        INTERNAL_SERVER_ERROR
    }
}

/// The answer to a failure of the database: the status, and a body that
/// gives its code.
pub fn db_error_to_response<T>(error: DbError) -> (r: (Status, Either<T, ErrorBody>))
    ensures
        r.0.code == db_status(error),
        r.1 matches Either::Right(body) && body.error == db_status(error) && body.validation_error is None,
{
    if error.not_found {
        (
            Status { code: NOT_FOUND },
            Either::Right(ErrorBody { error: NOT_FOUND, validation_error: None }),
        )
    } else {
        (
            Status { code: INTERNAL_SERVER_ERROR },
            Either::Right(ErrorBody { error: INTERNAL_SERVER_ERROR, validation_error: None }),
        )
    }
}

/// Where a page begins: at the row asked for, and at the first row where
/// none or one before the first is asked for.
pub open spec fn offset_of(offset: Option<i64>) -> int {
    match offset {
        Some(n) => if n < 0 {
            0
        } else {
            n as int
        },
        None => 0,
    }
}

/// How many rows a page may hold: as many as asked for, and `max_limit`
/// where none or more are asked for; but one row at the least.
pub open spec fn limit_of(limit: Option<i64>, max_limit: i64) -> int {
    let asked = match limit {
        Some(n) => n,
        None => max_limit,
    };
    let capped = if asked < max_limit {
        asked
    } else {
        max_limit
    };
    if capped < 1 {
        1
    } else {
        capped as int
    }
}

/// Where a page of a list begins.
pub fn page_offset(offset: Option<i64>) -> (r: i64)
    ensures
        r == offset_of(offset),
        r >= 0,
{
    match offset {
        Some(n) => if n < 0 {
            0
        } else {
            n
        },
        None => 0,
    }
}

/// How many rows a page of a list may hold.
pub fn page_limit(limit: Option<i64>, max_limit: i64) -> (r: i64)
    ensures
        r == limit_of(limit, max_limit),
        r >= 1,
        max_limit >= 1 ==> r <= max_limit,
{
    let asked = match limit {
        Some(n) => n,
        None => max_limit,
    };
    let capped = if asked < max_limit {
        asked
    } else {
        max_limit
    };
    if capped < 1 {
        1
    } else {
        capped
    }
}

} // verus!
