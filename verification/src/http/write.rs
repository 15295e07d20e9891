//! Writing to a database on behalf of the write endpoint.

use vstd::prelude::*;

use crate::http::error::ServerError;

verus! {

/// An error of a write, as the write endpoint tells them apart.
#[derive(Debug, PartialEq, Eq)]
pub enum InnerWriteError {
    NotFound { db_name: String },
    OtherError { source: ServerError },
}

/// The outcome of a write to `db_name`, from that of the server: that the
/// database does not exist is an error of its own, by the name that the write
/// was for.
pub fn write_outcome(db_name: &str, outcome: Result<(), ServerError>) -> (result: Result<
    (),
    InnerWriteError,
>)
    ensures
        match (outcome, result) {
            (Ok(_), Ok(_)) => true,
            (
                Err(ServerError::DatabaseNotFound { .. }),
                Err(InnerWriteError::NotFound { db_name: name }),
            ) => name@ == db_name@,
            (Err(e), Err(InnerWriteError::OtherError { source })) => source == e && !(
            e is DatabaseNotFound),
            _ => false,
        },
{
    match outcome {
        Ok(()) => Ok(()),
        Err(ServerError::DatabaseNotFound { .. }) => Err(
            InnerWriteError::NotFound { db_name: db_name.to_owned() },
        ),
        Err(e) => Err(InnerWriteError::OtherError { source: e }),
    }
}

} // verus!
