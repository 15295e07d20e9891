//! The delete endpoint.
//!
//! A delete goes through these steps. Each holds what the server is to do next,
//! and takes the outcome:
//!
//! 1. [`MapBucket`]: find the database of an organization's bucket.
//! 2. [`ReadBody`]: read the body of the request.
//! 3. [`ParseBody`]: parse the delete that the body holds.
//! 4. [`OpenDatabase`]: look the database up.
//! 5. [`BuildPredicate`]: build the predicate of the rows to delete.
//! 6. [`SelectTables`]: list the tables of the database, if all are meant.
//! 7. [`DeleteProgress`]: delete from one table after the other.
//!
//! The database that was looked up and the predicate that was built are carried
//! along as they were given, to each of the deletions.

use vstd::prelude::*;
use vstd::utf8::*;

use crate::http::error::{ApplicationError, RouteFailure, ServerError};
use crate::http::params::{urlencoded_pairs, write_info, WriteInfo};
use crate::http::route::Response;

verus! {

/// What is wrong with bytes that are not UTF-8, in words.
pub uninterp spec fn utf8_error_text(bytes: Seq<u8>) -> Seq<char>;

/// Reads bytes as text with `std::str::from_utf8`.
///
/// It succeeds exactly on valid UTF-8, and returns the text whose encoding the
/// bytes are. The error is given back by its text, which is a function of the
/// bytes.
#[verifier::external_body]
fn decode_body(bytes: &[u8]) -> (text: Result<String, String>)
    ensures
        match text {
            Ok(t) => valid_utf8(bytes@) && encode_utf8(t@) == bytes@,
            Err(e) => !valid_utf8(bytes@) && e@ == utf8_error_text(bytes@),
        },
{
    match std::str::from_utf8(bytes) {
        Ok(text) => Ok(text.to_string()),
        Err(e) => Err(e.to_string()),
    }
}

/// A delete as its parser returns it.
///
/// The table name may be empty. Start and stop are the times between which
/// rows are deleted, and the predicate tells which of them.
#[derive(Debug, Clone, PartialEq, Eq)]
pub struct ParsedDelete {
    pub table_name: String,
    pub predicate: String,
    pub start_time: String,
    pub stop_time: String,
}

/// Next: find the database of the bucket.
#[derive(Debug, PartialEq, Eq)]
pub struct MapBucket {
    pub org: String,
    pub bucket: String,
    pub max_request_size: usize,
}

/// Next: read the body of the request, up to the maximal size.
#[derive(Debug, PartialEq, Eq)]
pub struct ReadBody {
    pub db_name: String,
    pub max_request_size: usize,
}

/// Next: parse the body.
#[derive(Debug, PartialEq, Eq)]
pub struct ParseBody {
    pub db_name: String,
    pub body: String,
}

/// Next: look the database up.
#[derive(Debug, PartialEq, Eq)]
pub struct OpenDatabase {
    pub db_name: String,
    pub body: String,
    pub parsed: ParsedDelete,
}

/// Next: build the predicate from the start and stop times and the text of the
/// predicate.
#[derive(Debug, PartialEq, Eq)]
pub struct BuildPredicate<D> {
    pub db: D,
    pub body: String,
    pub parsed: ParsedDelete,
}

/// Next: list the tables of the database, if [`SelectTables::all_tables`] says
/// so.
#[derive(Debug, PartialEq, Eq)]
pub struct SelectTables<D, P> {
    pub db: D,
    pub predicate: P,
    pub body: String,
    pub table_name: String,
}

/// Next: delete the rows of `table` in `db` that the predicate is true of.
/// Those of `rest` follow, in order.
#[derive(Debug, PartialEq, Eq)]
pub struct DeleteTable<D, P> {
    pub db: D,
    pub predicate: P,
    pub table: String,
    pub rest: Vec<String>,
    pub body: String,
}

/// How far the deletion has come.
#[derive(Debug, PartialEq, Eq)]
pub enum DeleteProgress<D, P> {
    /// There is a table to delete from.
    Next(DeleteTable<D, P>),
    /// All is deleted, and this is the response.
    Done(Response),
}

/// `response` says that the request succeeded and that there is nothing to
/// show for it.
pub open spec fn is_no_content(response: Response) -> bool {
    &&& response.status == 204
    &&& response.content_type is None
    &&& response.body@ == Seq::<char>::empty()
}

/// `progress` has the tables of `remaining` ahead of it, in order, to delete
/// from in this database by this predicate, and nothing else.
pub open spec fn has_ahead<D, P>(
    db: D,
    predicate: P,
    remaining: Seq<String>,
    body: String,
    progress: DeleteProgress<D, P>,
) -> bool {
    match progress {
        DeleteProgress::Next(next) => {
            &&& next.db == db
            &&& next.predicate == predicate
            &&& remaining == seq![next.table] + next.rest@
            &&& next.body == body
        },
        DeleteProgress::Done(response) => remaining.len() == 0 && is_no_content(response),
    }
}

/// The tables that a delete is for: the one that it names, or all.
pub open spec fn selected_tables(table_name: String, table_names: Seq<String>) -> Seq<String> {
    if table_name@.len() == 0 {
        table_names
    } else {
        seq![table_name]
    }
}

/// `step` is how a delete begins for a request with this query string.
pub open spec fn delete_begins(
    query: Option<String>,
    max_request_size: usize,
    step: Result<MapBucket, ApplicationError>,
) -> bool {
    match query {
        None => step matches Err(ApplicationError::ExpectedQueryString {  }),
        Some(q) => match write_info(urlencoded_pairs(q@)) {
            Ok(info) => {
                &&& step matches Ok(next)
                &&& next.org@ == info.org
                &&& next.bucket@ == info.bucket
                &&& next.max_request_size == max_request_size
            },
            Err(text) => {
                &&& step matches Err(
                    ApplicationError::InvalidQueryString { query_string, source },
                )
                &&& query_string == q
                &&& source@ == text
            },
        },
    }
}

impl MapBucket {
    /// Begins a delete for a request with this query string.
    pub fn begin(query: Option<String>, max_request_size: usize) -> (step: Result<
        MapBucket,
        ApplicationError,
    >)
        ensures
            delete_begins(query, max_request_size, step),
    {
        match query {
            None => Err(ApplicationError::ExpectedQueryString {  }),
            Some(query_string) => match WriteInfo::parse(&query_string) {
                Ok(info) => Ok(
                    MapBucket { org: info.org, bucket: info.bucket, max_request_size },
                ),
                Err(source) => Err(ApplicationError::InvalidQueryString { query_string, source }),
            },
        }
    }

    /// What follows the name of the database, or the reason for there being
    /// none.
    pub open spec fn after(self, database: Result<String, String>) -> Result<
        ReadBody,
        ApplicationError,
    > {
        match database {
            Ok(db_name) => Ok(ReadBody { db_name, max_request_size: self.max_request_size }),
            Err(source) => Err(ApplicationError::BucketMappingError { source }),
        }
    }

    /// Takes the name of the database, or why there is none.
    pub fn mapped(self, database: Result<String, String>) -> (step: Result<
        ReadBody,
        ApplicationError,
    >)
        ensures
            step == self.after(database),
    {
        match database {
            Ok(db_name) => Ok(ReadBody { db_name, max_request_size: self.max_request_size }),
            Err(source) => Err(ApplicationError::BucketMappingError { source }),
        }
    }
}

impl ReadBody {
    /// `step` is what follows the body, or the failure to read it.
    pub open spec fn reads(
        self,
        body: Result<Vec<u8>, RouteFailure>,
        step: Result<ParseBody, ApplicationError>,
    ) -> bool {
        match body {
            Err(source) => step == Err::<ParseBody, ApplicationError>(
                ApplicationError::ParseBody { source },
            ),
            Ok(bytes) => if valid_utf8(bytes@) {
                &&& step matches Ok(next)
                &&& next.db_name == self.db_name
                &&& encode_utf8(next.body@) == bytes@
            } else {
                &&& step matches Err(ApplicationError::ReadingBodyAsUtf8 { source })
                &&& source@ == utf8_error_text(bytes@)
            },
        }
    }

    /// Takes the body of the request, or why it could not be read.
    pub fn read(self, body: Result<Vec<u8>, RouteFailure>) -> (step: Result<
        ParseBody,
        ApplicationError,
    >)
        ensures
            self.reads(body, step),
    {
        match body {
            Err(source) => Err(ApplicationError::ParseBody { source }),
            Ok(bytes) => match decode_body(bytes.as_slice()) {
                Ok(text) => Ok(ParseBody { db_name: self.db_name, body: text }),
                Err(source) => Err(ApplicationError::ReadingBodyAsUtf8 { source }),
            },
        }
    }
}

impl ParseBody {
    /// What follows the parsed delete, or the failure to parse it.
    pub open spec fn after(self, parsed: Result<ParsedDelete, String>) -> Result<
        OpenDatabase,
        ApplicationError,
    > {
        match parsed {
            Ok(parsed) => Ok(OpenDatabase { db_name: self.db_name, body: self.body, parsed }),
            Err(source) => Err(ApplicationError::ParsingDelete { source, input: self.body }),
        }
    }

    /// Takes the parsed delete, or why the body does not parse.
    pub fn parsed(self, parsed: Result<ParsedDelete, String>) -> (step: Result<
        OpenDatabase,
        ApplicationError,
    >)
        ensures
            step == self.after(parsed),
    {
        match parsed {
            Ok(parsed) => Ok(OpenDatabase { db_name: self.db_name, body: self.body, parsed }),
            Err(source) => Err(ApplicationError::ParsingDelete { source, input: self.body }),
        }
    }
}

impl OpenDatabase {
    /// What follows the lookup of the database, or its failure.
    pub open spec fn after<D>(self, opened: Result<D, ServerError>) -> Result<
        BuildPredicate<D>,
        ApplicationError,
    > {
        match opened {
            Ok(db) => Ok(BuildPredicate { db, body: self.body, parsed: self.parsed }),
            Err(e) => Err(ApplicationError::of_server_error(e)),
        }
    }

    /// Takes the database, or why it is not there.
    pub fn opened<D>(self, opened: Result<D, ServerError>) -> (step: Result<
        BuildPredicate<D>,
        ApplicationError,
    >)
        ensures
            step == self.after(opened),
    {
        match opened {
            Ok(db) => Ok(BuildPredicate { db, body: self.body, parsed: self.parsed }),
            Err(e) => Err(ApplicationError::from(e)),
        }
    }
}

impl<D> BuildPredicate<D> {
    /// What follows the predicate, or the failure to build it.
    pub open spec fn after<P>(self, built: Result<P, String>) -> Result<
        SelectTables<D, P>,
        ApplicationError,
    > {
        match built {
            Ok(predicate) => Ok(
                SelectTables {
                    db: self.db,
                    predicate,
                    body: self.body,
                    table_name: self.parsed.table_name,
                },
            ),
            Err(source) => Err(
                ApplicationError::BuildingDeletePredicate { source, input: self.body },
            ),
        }
    }

    /// Takes the predicate, or why it could not be built.
    pub fn built<P>(self, built: Result<P, String>) -> (step: Result<
        SelectTables<D, P>,
        ApplicationError,
    >)
        ensures
            step == self.after(built),
    {
        match built {
            Ok(predicate) => Ok(
                SelectTables {
                    db: self.db,
                    predicate,
                    body: self.body,
                    table_name: self.parsed.table_name,
                },
            ),
            Err(source) => Err(
                ApplicationError::BuildingDeletePredicate { source, input: self.body },
            ),
        }
    }
}

impl<D, P> SelectTables<D, P> {
    /// Whether data is deleted from all tables of the database.
    pub fn all_tables(&self) -> (all: bool)
        ensures
            all == (self.table_name@.len() == 0),
    {
        self.table_name.as_str().is_empty()
    }

    /// `progress` is what follows the names of the tables of the database.
    pub open spec fn selects(
        self,
        table_names: Seq<String>,
        progress: DeleteProgress<D, P>,
    ) -> bool {
        has_ahead(
            self.db,
            self.predicate,
            selected_tables(self.table_name, table_names),
            self.body,
            progress,
        )
    }

    /// Takes the names of the tables of the database, which are only looked at
    /// if all tables are meant.
    pub fn select(self, table_names: Vec<String>) -> (progress: DeleteProgress<D, P>)
        ensures
            self.selects(table_names@, progress),
    {
        if self.all_tables() {
            next_table(self.db, self.predicate, table_names, self.body)
        } else {
            let mut tables: Vec<String> = Vec::new();
            tables.push(self.table_name);
            assert(tables@ =~= seq![self.table_name]);
            next_table(self.db, self.predicate, tables, self.body)
        }
    }
}

/// Goes on with the first of the remaining tables.
fn next_table<D, P>(db: D, predicate: P, tables: Vec<String>, body: String) -> (progress:
    DeleteProgress<D, P>)
    ensures
        has_ahead(db, predicate, tables@, body, progress),
{
    if tables.len() == 0 {
        DeleteProgress::Done(Response { status: 204, content_type: None, body: String::new() })
    } else {
        let mut rest = tables;
        let table = rest.remove(0);
        assert(tables@ =~= seq![table] + rest@);
        DeleteProgress::Next(DeleteTable { db, predicate, table, rest, body })
    }
}

impl<D, P> DeleteTable<D, P> {
    /// `step` is what follows the deletion from the table, or its failure.
    pub open spec fn deletes(
        self,
        outcome: Result<(), String>,
        step: Result<DeleteProgress<D, P>, ApplicationError>,
    ) -> bool {
        match outcome {
            Ok(_) => step matches Ok(progress) && has_ahead(
                self.db,
                self.predicate,
                self.rest@,
                self.body,
                progress,
            ),
            Err(source) => step == Err::<DeleteProgress<D, P>, ApplicationError>(
                ApplicationError::ExecutingDelete { source, input: self.body },
            ),
        }
    }

    /// Takes whether the deletion from the table succeeded.
    pub fn deleted(self, outcome: Result<(), String>) -> (step: Result<
        DeleteProgress<D, P>,
        ApplicationError,
    >)
        ensures
            self.deletes(outcome, step),
    {
        match outcome {
            Ok(()) => Ok(next_table(self.db, self.predicate, self.rest, self.body)),
            Err(source) => Err(ApplicationError::ExecutingDelete { source, input: self.body }),
        }
    }
}

} // verus!
