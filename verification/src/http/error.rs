//! The errors of the HTTP API and what they are answered with.

use vstd::prelude::*;

use crate::text::{concat2, concat3, concat4, concat6};

verus! {

/// The code by which an answer tells errors of one status apart.
#[derive(Debug, Clone, Copy, PartialEq, Eq, Structural)]
pub enum ApiErrorCode {
    Unknown,
    DbInvalidName,
}

/// Which kind of answer an error gets.
#[derive(Debug, Clone, Copy, PartialEq, Eq, Structural)]
pub enum ReplyKind {
    BadRequest(ApiErrorCode),
    InternalError(ApiErrorCode),
    NotFound,
}

impl ReplyKind {
    /// The HTTP status code of the answer.
    pub open spec fn status_code(self) -> u16 {
        match self {
            ReplyKind::BadRequest(_) => 400,
            ReplyKind::InternalError(_) => 500,
            ReplyKind::NotFound => 404,
        }
    }

    /// Returns the HTTP status code of the answer.
    pub fn status(&self) -> (code: u16)
        ensures
            code == self.status_code(),
    {
        match self {
            ReplyKind::BadRequest(_) => 400,
            ReplyKind::InternalError(_) => 500,
            ReplyKind::NotFound => 404,
        }
    }
}

/// The response of another part of the server, whole: its status, its headers
/// by name and value, in order, and its body.
#[derive(Debug, Clone, PartialEq, Eq)]
pub struct GivenResponse {
    pub status: u16,
    pub headers: Vec<(String, Vec<u8>)>,
    pub body: Vec<u8>,
}

/// A failure of another part of the server, which has its own response.
#[derive(Debug, Clone, PartialEq, Eq)]
pub struct RouteFailure {
    /// The text of the error.
    pub error: String,
    pub response: GivenResponse,
}

/// The answer to a request that failed.
#[derive(Debug, PartialEq, Eq)]
pub enum Reply<'a> {
    /// An answer of this kind, with the text of the error.
    Error { kind: ReplyKind, error: String },
    /// The response of the part of the server that failed.
    Response(&'a GivenResponse),
}

/// An error of the server that holds the databases.
#[derive(Debug, Clone, PartialEq, Eq)]
pub enum ServerError {
    IdNotSet,
    ServerNotInitialized,
    DatabaseNotInitialized { db_name: String },
    DatabaseNotFound { db_name: String },
    InvalidDatabaseName { source: String },
    /// Any other error, by its text.
    Other { error: String },
}

/// An error of the HTTP API.
///
/// A `source` is the text of the error that lies behind.
#[derive(Debug, Clone, PartialEq, Eq)]
pub enum ApplicationError {
    BucketMappingError { source: String },
    Query { db_name: String, source: String },
    ExpectedQueryString {  },
    /// The query string of the URI (such as `?foo=bar&bar=baz`) could not be
    /// parsed.
    InvalidQueryString { query_string: String, source: String },
    ReadingBodyAsUtf8 { source: String },
    ParsingDelete { source: String, input: String },
    BuildingDeletePredicate { source: String, input: String },
    ExecutingDelete { source: String, input: String },
    RouteNotFound { method: String, path: String },
    DatabaseNameError { source: String },
    DatabaseNotFound { db_name: String },
    CreatingResponse { source: String },
    ParsingFormat { format: String, source: String },
    /// `format` is the output format as it is shown for debugging.
    FormattingResult { q: String, format: String, source: String },
    Planning { source: String },
    ServerIdNotSet,
    ServerNotInitialized,
    DatabaseNotInitialized { db_name: String },
    InternalServerError,
    ParseBody { source: RouteFailure },
    WriteError { source: RouteFailure },
}

impl ApplicationError {
    /// The text of the error.
    pub open spec fn text(self) -> Seq<char> {
        match self {
            ApplicationError::BucketMappingError { source } =>
                "Internal error mapping org & bucket: "@ + source@,
            ApplicationError::Query { db_name, source } =>
                "Internal error reading points from database "@ + db_name@ + ":  "@ + source@,
            ApplicationError::ExpectedQueryString {  } =>
                "Expected query string in request, but none was provided"@,
            ApplicationError::InvalidQueryString { query_string, source } =>
                "Invalid query string in HTTP URI '"@ + query_string@ + "': "@ + source@,
            ApplicationError::ReadingBodyAsUtf8 { source } =>
                "Error reading request body as utf8: "@ + source@,
            ApplicationError::ParsingDelete { source, input } =>
                "Error parsing delete "@ + input@ + ": "@ + source@,
            ApplicationError::BuildingDeletePredicate { source, input } =>
                "Error building delete predicate "@ + input@ + ": "@ + source@,
            ApplicationError::ExecutingDelete { source, input } =>
                "Error executing delete "@ + input@ + ": "@ + source@,
            ApplicationError::RouteNotFound { method, path } =>
                "No handler for "@ + method@ + " "@ + path@,
            ApplicationError::DatabaseNameError { source } => "Invalid database name: "@ + source@,
            ApplicationError::DatabaseNotFound { db_name } =>
                "Database "@ + db_name@ + " not found"@,
            ApplicationError::CreatingResponse { source } =>
                "Internal error creating HTTP response:  "@ + source@,
            ApplicationError::ParsingFormat { format, source } =>
                "Invalid format '"@ + format@ + "': : "@ + source@,
            ApplicationError::FormattingResult { q, format, source } =>
                "Error formatting results of SQL query '"@ + q@ + "' using '"@ + format@ + "': "@
                + source@,
            ApplicationError::Planning { source } => "Error while planning query: "@ + source@,
            ApplicationError::ServerIdNotSet => "Server id not set"@,
            ApplicationError::ServerNotInitialized => "Server not initialized"@,
            ApplicationError::DatabaseNotInitialized { db_name } =>
                "Database "@ + db_name@ + " not found"@,
            ApplicationError::InternalServerError => "Internal server error"@,
            ApplicationError::ParseBody { source } => "Cannot parse body: "@ + source.error@,
            ApplicationError::WriteError { source } => "Cannot write data: "@ + source.error@,
        }
    }

    /// What an error of the server becomes. Of an unexpected one nothing is
    /// told.
    pub open spec fn of_server_error(e: ServerError) -> ApplicationError {
        match e {
            ServerError::IdNotSet => ApplicationError::ServerIdNotSet,
            ServerError::ServerNotInitialized => ApplicationError::ServerNotInitialized,
            ServerError::DatabaseNotInitialized { db_name } =>
                ApplicationError::DatabaseNotInitialized { db_name },
            ServerError::DatabaseNotFound { db_name } =>
                ApplicationError::DatabaseNotFound { db_name },
            ServerError::InvalidDatabaseName { source } =>
                ApplicationError::DatabaseNameError { source },
            ServerError::Other { .. } => ApplicationError::InternalServerError,
        }
    }

    /// The response that another part of the server has for its failure.
    pub open spec fn given_response(self) -> Option<GivenResponse> {
        match self {
            ApplicationError::ParseBody { source } => Some(source.response),
            ApplicationError::WriteError { source } => Some(source.response),
            _ => None,
        }
    }

    /// The kind of answer that the error gets, unless it has a response
    /// already.
    pub open spec fn reply_kind(self) -> ReplyKind
        recommends
            self.given_response() is None,
    {
        match self {
            ApplicationError::RouteNotFound { .. } => ReplyKind::NotFound,
            ApplicationError::DatabaseNotFound { .. } => ReplyKind::NotFound,
            ApplicationError::DatabaseNameError { .. } =>
                ReplyKind::BadRequest(ApiErrorCode::DbInvalidName),
            ApplicationError::BucketMappingError { .. } =>
                ReplyKind::InternalError(ApiErrorCode::Unknown),
            ApplicationError::Query { .. } => ReplyKind::InternalError(ApiErrorCode::Unknown),
            ApplicationError::CreatingResponse { .. } =>
                ReplyKind::InternalError(ApiErrorCode::Unknown),
            ApplicationError::FormattingResult { .. } =>
                ReplyKind::InternalError(ApiErrorCode::Unknown),
            ApplicationError::InternalServerError =>
                ReplyKind::InternalError(ApiErrorCode::Unknown),
            _ => ReplyKind::BadRequest(ApiErrorCode::Unknown),
        }
    }

    /// `reply` is the answer to a request that ended in this error.
    pub open spec fn is_answered_by(self, reply: Reply<'_>) -> bool {
        match self.given_response() {
            Some(response) => reply == Reply::Response(&response),
            None => {
                &&& reply matches Reply::Error { kind, error }
                &&& kind == self.reply_kind()
                &&& error@ == self.text()
            },
        }
    }

    /// Returns the text of the error.
    pub fn message(&self) -> (message: String)
        ensures
            message@ == self.text(),
    {
        match self {
            ApplicationError::BucketMappingError { source } => concat2(
                "Internal error mapping org & bucket: ",
                source,
            ),
            ApplicationError::Query { db_name, source } => concat4(
                "Internal error reading points from database ",
                db_name,
                ":  ",
                source,
            ),
            ApplicationError::ExpectedQueryString {  } => {
                "Expected query string in request, but none was provided".to_owned()
            },
            ApplicationError::InvalidQueryString { query_string, source } => concat4(
                "Invalid query string in HTTP URI '",
                query_string,
                "': ",
                source,
            ),
            ApplicationError::ReadingBodyAsUtf8 { source } => concat2(
                "Error reading request body as utf8: ",
                source,
            ),
            ApplicationError::ParsingDelete { source, input } => concat4(
                "Error parsing delete ",
                input,
                ": ",
                source,
            ),
            ApplicationError::BuildingDeletePredicate { source, input } => concat4(
                "Error building delete predicate ",
                input,
                ": ",
                source,
            ),
            ApplicationError::ExecutingDelete { source, input } => concat4(
                "Error executing delete ",
                input,
                ": ",
                source,
            ),
            ApplicationError::RouteNotFound { method, path } => concat4(
                "No handler for ",
                method,
                " ",
                path,
            ),
            ApplicationError::DatabaseNameError { source } => concat2(
                "Invalid database name: ",
                source,
            ),
            ApplicationError::DatabaseNotFound { db_name } => concat3(
                "Database ",
                db_name,
                " not found",
            ),
            ApplicationError::CreatingResponse { source } => concat2(
                "Internal error creating HTTP response:  ",
                source,
            ),
            ApplicationError::ParsingFormat { format, source } => concat4(
                "Invalid format '",
                format,
                "': : ",
                source,
            ),
            ApplicationError::FormattingResult { q, format, source } => concat6(
                "Error formatting results of SQL query '",
                q,
                "' using '",
                format,
                "': ",
                source,
            ),
            ApplicationError::Planning { source } => concat2("Error while planning query: ", source),
            ApplicationError::ServerIdNotSet => "Server id not set".to_owned(),
            ApplicationError::ServerNotInitialized => "Server not initialized".to_owned(),
            ApplicationError::DatabaseNotInitialized { db_name } => concat3(
                "Database ",
                db_name,
                " not found",
            ),
            ApplicationError::InternalServerError => "Internal server error".to_owned(),
            ApplicationError::ParseBody { source } => concat2("Cannot parse body: ", &source.error),
            ApplicationError::WriteError { source } => concat2("Cannot write data: ", &source.error),
        }
    }

    /// Returns the answer to a request that ended in this error.
    pub fn response(&self) -> (reply: Reply<'_>)
        ensures
            self.is_answered_by(reply),
    {
        match self {
            ApplicationError::BucketMappingError { .. } => self.internal_error(),
            ApplicationError::Query { .. } => self.internal_error(),
            ApplicationError::ExpectedQueryString {  } => self.bad_request(ApiErrorCode::Unknown),
            ApplicationError::InvalidQueryString { .. } => self.bad_request(ApiErrorCode::Unknown),
            ApplicationError::ReadingBodyAsUtf8 { .. } => self.bad_request(ApiErrorCode::Unknown),
            ApplicationError::ParsingDelete { .. } => self.bad_request(ApiErrorCode::Unknown),
            ApplicationError::BuildingDeletePredicate { .. } => self.bad_request(
                ApiErrorCode::Unknown,
            ),
            ApplicationError::ExecutingDelete { .. } => self.bad_request(ApiErrorCode::Unknown),
            ApplicationError::RouteNotFound { .. } => self.not_found(),
            ApplicationError::DatabaseNameError { .. } => self.bad_request(
                ApiErrorCode::DbInvalidName,
            ),
            ApplicationError::DatabaseNotFound { .. } => self.not_found(),
            ApplicationError::CreatingResponse { .. } => self.internal_error(),
            ApplicationError::FormattingResult { .. } => self.internal_error(),
            ApplicationError::ParsingFormat { .. } => self.bad_request(ApiErrorCode::Unknown),
            ApplicationError::Planning { .. } => self.bad_request(ApiErrorCode::Unknown),
            ApplicationError::ServerIdNotSet => self.bad_request(ApiErrorCode::Unknown),
            ApplicationError::ServerNotInitialized => self.bad_request(ApiErrorCode::Unknown),
            ApplicationError::DatabaseNotInitialized { .. } => self.bad_request(
                ApiErrorCode::Unknown,
            ),
            ApplicationError::InternalServerError => self.internal_error(),
            ApplicationError::ParseBody { source } => Reply::Response(&source.response),
            ApplicationError::WriteError { source } => Reply::Response(&source.response),
        }
    }

    fn bad_request(&self, code: ApiErrorCode) -> (reply: Reply<'_>)
        ensures
            reply matches Reply::Error { kind, error } && kind == ReplyKind::BadRequest(code)
                && error@ == self.text(),
    {
        Reply::Error { kind: ReplyKind::BadRequest(code), error: self.message() }
    }

    fn internal_error(&self) -> (reply: Reply<'_>)
        ensures
            reply matches Reply::Error { kind, error } && kind == ReplyKind::InternalError(
                ApiErrorCode::Unknown,
            ) && error@ == self.text(),
    {
        Reply::Error { kind: ReplyKind::InternalError(ApiErrorCode::Unknown), error: self.message() }
    }

    fn not_found(&self) -> (reply: Reply<'_>)
        ensures
            reply matches Reply::Error { kind, error } && kind == ReplyKind::NotFound && error@
                == self.text(),
    {
        Reply::Error { kind: ReplyKind::NotFound, error: self.message() }
    }
}

impl From<ServerError> for ApplicationError {
    fn from(e: ServerError) -> (error: ApplicationError) {
        match e {
            ServerError::IdNotSet => ApplicationError::ServerIdNotSet,
            ServerError::ServerNotInitialized => ApplicationError::ServerNotInitialized,
            ServerError::DatabaseNotInitialized { db_name } => {
                ApplicationError::DatabaseNotInitialized { db_name }
            },
            ServerError::DatabaseNotFound { db_name } => ApplicationError::DatabaseNotFound {
                db_name,
            },
            ServerError::InvalidDatabaseName { source } => ApplicationError::DatabaseNameError {
                source,
            },
            // Don't return potentially sensitive information in response
            ServerError::Other { .. } => ApplicationError::InternalServerError,
        }
    }
}

impl vstd::std_specs::convert::FromSpecImpl<ServerError> for ApplicationError {
    open spec fn obeys_from_spec() -> bool {
        true
    }

    open spec fn from_spec(e: ServerError) -> ApplicationError {
        ApplicationError::of_server_error(e)
    }
}

} // verus!
