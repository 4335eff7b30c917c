use vstd::prelude::*;

use crate::quote::Quote;
use crate::status::Status;

verus! {

/// A statement that the store could not carry out: the connection failed,
/// a constraint was violated, or the store gave up.
#[derive(Clone, Copy, Debug, PartialEq, Eq, Structural)]
pub enum StoreError {
    /// The row's identifier is already taken.
    DuplicateId,
    /// Any other failure of the store.
    Backend,
}

/// The status answered to an update or a delete, from the number of rows
/// that the statement touched.
pub open spec fn write_outcome(affected: Result<u64, StoreError>) -> Status {
    match affected {
        Ok(n) => if n == 0 {
            Status::NotFound
        } else {
            Status::Success
        },
        Err(_) => Status::InternalServerError,
    }
}

/// The liveness check: it always succeeds and never touches the store.
pub fn health() -> (r: Status)
    ensures
        r == Status::Success,
{
    Status::Success
}

/// The response to a create, once the insert of `quote` has run: the quote
/// itself with `Created`, or a server error when the store failed.
pub fn create_quote(quote: Quote, inserted: Result<(), StoreError>) -> (r: Result<(Status, Quote), Status>)
    ensures
        match inserted {
            Ok(_) => match r {
                Ok((s, q)) => s == Status::Created && q@ == quote@,
                Err(_) => false,
            },
            Err(_) => r == Err::<(Status, Quote), Status>(Status::InternalServerError),
        },
{
    match inserted {
        Ok(_) => Ok((Status::Created, quote)),
        Err(_) => Err(Status::InternalServerError),
    }
}

/// The response to a list, once the select has run: every row that the
/// store returned, in its order, or a server error when the store failed.
pub fn read_quotes(fetched: Result<Vec<Quote>, StoreError>) -> (r: Result<Vec<Quote>, Status>)
    ensures
        match fetched {
            Ok(rows) => match r {
                Ok(v) => v@ == rows@,
                Err(_) => false,
            },
            Err(_) => r == Err::<Vec<Quote>, Status>(Status::InternalServerError),
        },
{
    match fetched {
        Ok(rows) => Ok(rows),
        Err(_) => Err(Status::InternalServerError),
    }
}

/// The status of one write statement: not found when it touched no row.
fn write_status(affected: Result<u64, StoreError>) -> (r: Status)
    ensures
        r == write_outcome(affected),
{
    match affected {
        Ok(n) => if n == 0 {
            Status::NotFound
        } else {
            Status::Success
        },
        Err(_) => Status::InternalServerError,
    }
}

/// The response to an update, from the rows that the update statement
/// touched: success, not found when none matched, or a server error.
pub fn update_quote(affected: Result<u64, StoreError>) -> (r: Status)
    ensures
        r == write_outcome(affected),
{
    write_status(affected)
}

/// The response to a delete, from the rows that the delete statement
/// removed: success, not found when none matched, or a server error.
pub fn delete_quote(affected: Result<u64, StoreError>) -> (r: Status)
    ensures
        r == write_outcome(affected),
{
    write_status(affected)
}

} // verus!
