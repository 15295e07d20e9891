use influxdb_iox::http::delete::{
    DeleteProgress, DeleteTable, MapBucket, ParsedDelete, ReadBody, SelectTables,
};
use influxdb_iox::http::error::{
    ApiErrorCode, ApplicationError, GivenResponse, Reply, ReplyKind, RouteFailure, ServerError,
};
use influxdb_iox::http::params::{default_format, QueryParams, WriteInfo};
use influxdb_iox::http::query::{ChooseFormat, FormatResults, OutputFormat};
use influxdb_iox::http::route::{route_request, Request, RequestOrResponse, Response, Route};
use influxdb_iox::http::write::{write_outcome, InnerWriteError};
use influxdb_iox::text::same_text;
use influxdb_iox::trace::ctx::{SpanContext, SpanId, TraceId};

fn s(text: &str) -> String {
    text.to_string()
}

fn pairs(of: &[(&str, &str)]) -> Vec<(String, String)> {
    of.iter().map(|(k, v)| (s(k), s(v))).collect()
}

fn failure() -> RouteFailure {
    RouteFailure { error: s("boom"), response: elsewhere() }
}

fn elsewhere() -> GivenResponse {
    GivenResponse {
        status: 413,
        headers: vec![
            (s("content-type"), b"text/plain".to_vec()),
            (s("retry-after"), b"\xff 7".to_vec()),
        ],
        body: b"went \xff boom".to_vec(),
    }
}

fn kind_of(error: &ApplicationError) -> ReplyKind {
    match error.response() {
        Reply::Error { kind, .. } => kind,
        Reply::Response(_) => panic!("the error has no response of its own"),
    }
}

fn unknown() -> ReplyKind {
    ReplyKind::BadRequest(ApiErrorCode::Unknown)
}

fn internal() -> ReplyKind {
    ReplyKind::InternalError(ApiErrorCode::Unknown)
}

#[test]
fn every_error_has_its_text_and_answer() {
    let source = || s("src");
    let input = || s("in");
    let cases: Vec<(ApplicationError, &str, ReplyKind)> = vec![
        (
            ApplicationError::BucketMappingError { source: source() },
            "Internal error mapping org & bucket: src",
            internal(),
        ),
        (
            ApplicationError::Query { db_name: s("db"), source: source() },
            "Internal error reading points from database db:  src",
            internal(),
        ),
        (
            ApplicationError::ExpectedQueryString {},
            "Expected query string in request, but none was provided",
            unknown(),
        ),
        (
            ApplicationError::InvalidQueryString { query_string: s("a=b"), source: source() },
            "Invalid query string in HTTP URI 'a=b': src",
            unknown(),
        ),
        (
            ApplicationError::ReadingBodyAsUtf8 { source: source() },
            "Error reading request body as utf8: src",
            unknown(),
        ),
        (
            ApplicationError::ParsingDelete { source: source(), input: input() },
            "Error parsing delete in: src",
            unknown(),
        ),
        (
            ApplicationError::BuildingDeletePredicate { source: source(), input: input() },
            "Error building delete predicate in: src",
            unknown(),
        ),
        (
            ApplicationError::ExecutingDelete { source: source(), input: input() },
            "Error executing delete in: src",
            unknown(),
        ),
        (
            ApplicationError::RouteNotFound { method: s("PUT"), path: s("/x") },
            "No handler for PUT /x",
            ReplyKind::NotFound,
        ),
        (
            ApplicationError::DatabaseNameError { source: source() },
            "Invalid database name: src",
            ReplyKind::BadRequest(ApiErrorCode::DbInvalidName),
        ),
        (
            ApplicationError::DatabaseNotFound { db_name: s("db") },
            "Database db not found",
            ReplyKind::NotFound,
        ),
        (
            ApplicationError::CreatingResponse { source: source() },
            "Internal error creating HTTP response:  src",
            internal(),
        ),
        (
            ApplicationError::ParsingFormat { format: s("xml"), source: source() },
            "Invalid format 'xml': : src",
            unknown(),
        ),
        (
            ApplicationError::FormattingResult {
                q: s("select 1"),
                format: s("Pretty"),
                source: source(),
            },
            "Error formatting results of SQL query 'select 1' using 'Pretty': src",
            internal(),
        ),
        (
            ApplicationError::Planning { source: source() },
            "Error while planning query: src",
            unknown(),
        ),
        (ApplicationError::ServerIdNotSet, "Server id not set", unknown()),
        (ApplicationError::ServerNotInitialized, "Server not initialized", unknown()),
        (
            ApplicationError::DatabaseNotInitialized { db_name: s("db") },
            "Database db not found",
            unknown(),
        ),
        (ApplicationError::InternalServerError, "Internal server error", internal()),
    ];
    assert_eq!(cases.len(), 19);
    for (error, text, kind) in cases {
        assert_eq!(error.message(), text);
        assert_eq!(error.response(), Reply::Error { kind, error: s(text) });
    }

    let passed_on = ApplicationError::ParseBody { source: failure() };
    assert_eq!(passed_on.message(), "Cannot parse body: boom");
    assert_eq!(passed_on.response(), Reply::Response(&elsewhere()));
    let passed_on = ApplicationError::WriteError { source: failure() };
    assert_eq!(passed_on.message(), "Cannot write data: boom");
    assert_eq!(passed_on.response(), Reply::Response(&elsewhere()));
}

#[test]
fn answers_have_their_status() {
    assert_eq!(unknown().status(), 400);
    assert_eq!(ReplyKind::NotFound.status(), 404);
    assert_eq!(internal().status(), 500);
}

#[test]
fn server_errors_are_told_apart() {
    let db = || s("MyOrg_MyBucket");
    assert_eq!(ApplicationError::from(ServerError::IdNotSet), ApplicationError::ServerIdNotSet);
    assert_eq!(
        ApplicationError::from(ServerError::ServerNotInitialized),
        ApplicationError::ServerNotInitialized
    );
    assert_eq!(
        ApplicationError::from(ServerError::DatabaseNotInitialized { db_name: db() }),
        ApplicationError::DatabaseNotInitialized { db_name: db() }
    );
    assert_eq!(
        ApplicationError::from(ServerError::DatabaseNotFound { db_name: db() }),
        ApplicationError::DatabaseNotFound { db_name: db() }
    );
    assert_eq!(
        ApplicationError::from(ServerError::InvalidDatabaseName { source: s("empty") }),
        ApplicationError::DatabaseNameError { source: s("empty") }
    );
    let hidden = ApplicationError::from(ServerError::Other { error: s("a secret") });
    assert_eq!(hidden, ApplicationError::InternalServerError);
    assert_eq!(
        hidden.response(),
        Reply::Error { kind: internal(), error: s("Internal server error") }
    );
}

fn request(method: &str, path: &str) -> Request<u8> {
    Request { method: s(method), path: s(path), query: None, body: 1 }
}

fn route(method: &str, path: &str) -> Result<Route<u8, u8>, ApplicationError> {
    route_request(Ok(RequestOrResponse::Request(request(method, path))))
}

#[test]
fn requests_are_routed_by_method_and_path() {
    assert!(matches!(route("POST", "/api/v2/delete"), Ok(Route::Delete(r)) if r.body == 1));
    assert!(matches!(route("GET", "/api/v3/query"), Ok(Route::Query(r)) if r.body == 1));
    for (method, path) in [
        ("GET", "/api/v2/delete"),
        ("POST", "/api/v3/query"),
        ("post", "/api/v2/delete"),
        ("POST", "/api/v2/delete/"),
        ("GET", "/"),
        ("", ""),
    ] {
        match route(method, path) {
            Err(e) => assert_eq!(
                e,
                ApplicationError::RouteNotFound { method: s(method), path: s(path) }
            ),
            Ok(_) => panic!("{} {} has no handler", method, path),
        }
    }
}

#[test]
fn a_write_is_answered_by_the_write_endpoint() {
    let written: Result<RequestOrResponse<u8, u8>, RouteFailure> =
        Ok(RequestOrResponse::Response(9));
    assert!(matches!(route_request(written), Ok(Route::Response(9))));
    let failed: Result<RequestOrResponse<u8, u8>, RouteFailure> = Err(failure());
    match route_request(failed) {
        Err(e) => assert_eq!(e, ApplicationError::WriteError { source: failure() }),
        Ok(_) => panic!("the write failed"),
    }
}

#[test]
fn a_write_to_no_database_is_told_apart() {
    assert_eq!(write_outcome("db", Ok(())), Ok(()));
    assert_eq!(
        write_outcome("db", Err(ServerError::DatabaseNotFound { db_name: s("other") })),
        Err(InnerWriteError::NotFound { db_name: s("db") })
    );
    assert_eq!(
        write_outcome("db", Err(ServerError::IdNotSet)),
        Err(InnerWriteError::OtherError { source: ServerError::IdNotSet })
    );
}

#[test]
fn query_parameters_are_read() {
    let expected =
        QueryParams { d: s("MyOrg_MyBucket"), q: s("select * from h2o"), format: s("csv") };
    assert_eq!(
        QueryParams::parse("d=MyOrg_MyBucket&q=select%20*%20from%20h2o&format=csv"),
        Ok(expected.clone())
    );
    assert_eq!(
        QueryParams::parse("format=csv&query=select+*+from+h2o&x=y&database=MyOrg_MyBucket"),
        Ok(expected)
    );
}

#[test]
fn the_default_format_is_pretty() {
    assert_eq!(default_format(), "pretty");
    assert_eq!(
        QueryParams::parse("d=db&q=select"),
        QueryParams::parse("d=db&q=select&format=pretty")
    );
    assert_eq!(QueryParams::parse("d=&q=").unwrap().format, "pretty");
    assert_eq!(QueryParams::parse("d&q&format").unwrap().format, "");
}

#[test]
fn query_parameters_are_checked() {
    assert_eq!(QueryParams::parse("q=1"), Err(s("missing field `d`")));
    assert_eq!(QueryParams::parse("d=1"), Err(s("missing field `q`")));
    assert_eq!(QueryParams::parse(""), Err(s("missing field `d`")));
    assert_eq!(QueryParams::parse("d=1&database=2&q=3"), Err(s("duplicate field `d`")));
    assert_eq!(QueryParams::parse("q=1&query=2"), Err(s("duplicate field `q`")));
    assert_eq!(
        QueryParams::parse("d=1&q=2&format=csv&format=csv"),
        Err(s("duplicate field `format`"))
    );
}

#[test]
fn pairs_of_parameters_are_collected() {
    assert_eq!(
        QueryParams::from_pairs(&pairs(&[("x", "1"), ("query", "b"), ("x", "2"), ("d", "a")])),
        Ok(QueryParams { d: s("a"), q: s("b"), format: s("pretty") })
    );
    assert_eq!(
        QueryParams::from_pairs(&pairs(&[("q", "1"), ("q", "2"), ("d", "a"), ("d", "b")])),
        Err(s("duplicate field `q`"))
    );
    assert_eq!(
        WriteInfo::from_pairs(&pairs(&[("bucket", "b"), ("org", "o")])),
        Ok(WriteInfo { org: s("o"), bucket: s("b") })
    );
    assert_eq!(
        WriteInfo::from_pairs(&pairs(&[("bucket", "b")])),
        Err(s("missing field `org`"))
    );
    assert_eq!(WriteInfo::from_pairs(&pairs(&[("org", "o")])), Err(s("missing field `bucket`")));
    assert_eq!(
        WriteInfo::from_pairs(&pairs(&[("org", "o"), ("org", "o")])),
        Err(s("duplicate field `org`"))
    );
}

fn begin_delete() -> MapBucket {
    MapBucket::begin(Some(s("bucket=MyBucket&org=MyOrg")), 100).unwrap()
}

fn parsed(table_name: &str) -> ParsedDelete {
    ParsedDelete {
        table_name: s(table_name),
        predicate: s("location=Boston"),
        start_time: s("2021-04-01T14:00:00Z"),
        stop_time: s("2021-04-02T14:00:00Z"),
    }
}

fn select(table_name: &str) -> SelectTables<char, u8> {
    let step = begin_delete();
    assert_eq!(step.org, "MyOrg");
    assert_eq!(step.bucket, "MyBucket");
    let step = step.mapped(Ok(s("MyOrg_MyBucket"))).unwrap();
    assert_eq!(step.max_request_size, 100);
    let step = step.read(Ok(b"{}".to_vec())).unwrap();
    assert_eq!(step.body, "{}");
    let step = step.parsed(Ok(parsed(table_name))).unwrap();
    assert_eq!(step.db_name, "MyOrg_MyBucket");
    let step = step.opened(Ok('d')).unwrap();
    assert_eq!(step.db, 'd');
    assert_eq!(step.parsed, parsed(table_name));
    let step = step.built(Ok(7)).unwrap();
    assert_eq!((step.db, step.predicate), ('d', 7));
    assert_eq!(step.table_name, table_name);
    step
}

fn no_content() -> DeleteProgress<char, u8> {
    DeleteProgress::Done(Response { status: 204, content_type: None, body: s("") })
}

fn next(progress: DeleteProgress<char, u8>) -> DeleteTable<char, u8> {
    match progress {
        DeleteProgress::Next(next) => {
            assert_eq!((next.db, next.predicate), ('d', 7));
            next
        }
        DeleteProgress::Done(_) => panic!("there is a table left"),
    }
}

#[test]
fn a_delete_of_one_table() {
    let step = select("h2o_temperature");
    assert!(!step.all_tables());
    let table = next(step.select(vec![s("other")]));
    assert_eq!(table.table, "h2o_temperature");
    assert_eq!(table.deleted(Ok(())), Ok(no_content()));
}

#[test]
fn a_delete_of_all_tables() {
    let step = select("");
    assert!(step.all_tables());
    let table = next(step.select(vec![s("a"), s("b"), s("c")]));
    assert_eq!(table.table, "a");
    let table = next(table.deleted(Ok(())).unwrap());
    assert_eq!(table.table, "b");
    let table = next(table.deleted(Ok(())).unwrap());
    assert_eq!(table.table, "c");
    assert_eq!(table.deleted(Ok(())), Ok(no_content()));
}

#[test]
fn a_delete_from_an_empty_database() {
    assert_eq!(select("").select(vec![]), no_content());
}

#[test]
fn a_delete_stops_at_the_first_table_that_fails() {
    let table = next(select("").select(vec![s("a"), s("b"), s("c")]));
    let table = next(table.deleted(Ok(())).unwrap());
    let error = table
        .deleted(Err(s("Cannot delete data from non-existing table")))
        .unwrap_err();
    assert_eq!(
        error.response(),
        Reply::Error {
            kind: unknown(),
            error: s("Error executing delete {}: Cannot delete data from non-existing table"),
        }
    );
}

#[test]
fn a_delete_is_refused_step_by_step() {
    assert_eq!(MapBucket::begin(None, 1), Err(ApplicationError::ExpectedQueryString {}));
    assert_eq!(
        MapBucket::begin(Some(s("org=a")), 1),
        Err(ApplicationError::InvalidQueryString {
            query_string: s("org=a"),
            source: s("missing field `bucket`"),
        })
    );
    assert_eq!(
        begin_delete().mapped(Err(s("no"))),
        Err(ApplicationError::BucketMappingError { source: s("no") })
    );
    let read = || begin_delete().mapped(Ok(s("db"))).unwrap();
    assert_eq!(
        read().read(Err(failure())),
        Err(ApplicationError::ParseBody { source: failure() })
    );
    let parse = || read().read(Ok(b"body".to_vec())).unwrap();
    assert_eq!(
        parse().parsed(Err(s("Unable to parse delete string"))),
        Err(ApplicationError::ParsingDelete {
            source: s("Unable to parse delete string"),
            input: s("body"),
        })
    );
    let open = || parse().parsed(Ok(parsed("t"))).unwrap();
    let missing: Result<char, ServerError> =
        Err(ServerError::DatabaseNotFound { db_name: s("db") });
    assert_eq!(
        open().opened(missing),
        Err(ApplicationError::DatabaseNotFound { db_name: s("db") })
    );
    let unbuilt: Result<u8, String> = Err(s("bad time"));
    assert_eq!(
        open().opened(Ok('d')).unwrap().built(unbuilt),
        Err(ApplicationError::BuildingDeletePredicate { source: s("bad time"), input: s("body") })
    );
}

#[test]
fn a_body_has_to_be_text() {
    let read = |bytes: &[u8]| {
        ReadBody { db_name: s("db"), max_request_size: 10 }.read(Ok(bytes.to_vec()))
    };
    assert_eq!(read("grün".as_bytes()).unwrap().body, "grün");
    assert_eq!(read(b"").unwrap().body, "");
    assert_eq!(
        read(b"ab\xffcd"),
        Err(ApplicationError::ReadingBodyAsUtf8 {
            source: s("invalid utf-8 sequence of 1 bytes from index 2"),
        })
    );
    assert_eq!(
        read(b"a\xc3"),
        Err(ApplicationError::ReadingBodyAsUtf8 {
            source: s("incomplete utf-8 byte sequence from index 1"),
        })
    );
}

fn csv() -> OutputFormat<u16> {
    OutputFormat { format: 3, debug: s("Csv"), content_type: s("text/csv") }
}

fn begin_query() -> ChooseFormat<u64> {
    let span_ctx = SpanContext::new(5, TraceId(0x34f3495), SpanId(0x36e34));
    ChooseFormat::begin(Some(s("d=MyOrg_MyBucket&q=select&format=csv")), Some(span_ctx)).unwrap()
}

#[test]
fn a_query_responds_in_its_format() {
    let step = begin_query();
    assert_eq!(step.params.format, "csv");
    let step = step.chosen(Ok(csv())).unwrap();
    assert_eq!(step.d, "MyOrg_MyBucket");
    let step = step.checked(Ok(())).unwrap();
    assert_eq!(step.db_name, "MyOrg_MyBucket");
    let step = step.opened(Ok('d')).unwrap();
    assert_eq!(step.db, 'd');
    let span_ctx = step.span_ctx.as_ref().unwrap();
    assert_eq!(span_ctx.collector, Some(5));
    assert_eq!(span_ctx.trace_id.get(), 0x34f3495);
    assert_eq!(span_ctx.span_id.get(), 0x36e34);
    let step = step.made("the context");
    assert_eq!(step.context, "the context");
    assert_eq!(step.q, "select");
    let step = step.planned(Ok("the plan")).unwrap();
    assert_eq!((step.context, step.plan), ("the context", "the plan"));
    let step = step.collected(Ok(vec![1, 2])).unwrap();
    assert_eq!(step.batches, vec![1, 2]);
    assert_eq!(step.format, csv());
    assert_eq!(
        step.formatted(Ok(s("a\n1\n"))),
        Ok(Response { status: 200, content_type: Some(s("text/csv")), body: s("a\n1\n") })
    );
}

#[test]
fn a_query_outside_of_any_span_has_no_span_context() {
    let step = ChooseFormat::<u64>::begin(Some(s("d=db&q=select")), None).unwrap();
    let format = OutputFormat { format: (), debug: s("Pretty"), content_type: s("text/plain") };
    let step = step.chosen(Ok(format)).unwrap().checked(Ok(())).unwrap();
    assert!(step.opened(Ok(())).unwrap().span_ctx.is_none());
}

#[test]
fn a_query_is_refused_step_by_step() {
    let begin = |query: Option<&str>| ChooseFormat::<u64>::begin(query.map(s), None).unwrap_err();
    assert_eq!(begin(None), ApplicationError::ExpectedQueryString {});
    assert_eq!(
        begin(Some("q=1")),
        ApplicationError::InvalidQueryString {
            query_string: s("q=1"),
            source: s("missing field `d`"),
        }
    );
    let unknown: Result<OutputFormat<u16>, String> = Err(s("unknown"));
    assert_eq!(
        begin_query().chosen(unknown).unwrap_err(),
        ApplicationError::ParsingFormat { format: s("csv"), source: s("unknown") }
    );
    let check = || begin_query().chosen(Ok(csv())).unwrap();
    let invalid = check().checked(Err(s("too short"))).unwrap_err();
    assert_eq!(invalid, ApplicationError::DatabaseNameError { source: s("too short") });
    assert_eq!(kind_of(&invalid), ReplyKind::BadRequest(ApiErrorCode::DbInvalidName));
    let open = || check().checked(Ok(())).unwrap();
    let failed: Result<char, ServerError> = Err(ServerError::Other { error: s("disk") });
    assert_eq!(
        open().opened(failed).unwrap_err(),
        ApplicationError::InternalServerError
    );
    let plan = || open().opened(Ok('d')).unwrap().made('c');
    let unplanned: Result<u8, String> = Err(s("syntax"));
    assert_eq!(
        plan().planned(unplanned),
        Err(ApplicationError::Planning { source: s("syntax") })
    );
    let run = || plan().planned(Ok(5u8)).unwrap();
    let lost: Result<u32, String> = Err(s("lost"));
    assert_eq!(
        run().collected(lost),
        Err(ApplicationError::Query { db_name: s("MyOrg_MyBucket"), source: s("lost") })
    );
    let format = || run().collected(Ok(9u32)).unwrap();
    assert_eq!(
        format().formatted(Err(s("odd"))),
        Err(ApplicationError::FormattingResult {
            q: s("select"),
            format: s("Csv"),
            source: s("odd"),
        })
    );
}

#[test]
fn a_content_type_has_to_fit_a_header() {
    let respond = |content_type: &str| {
        FormatResults {
            batches: (),
            q: s("select"),
            format: OutputFormat { format: (), debug: s("Odd"), content_type: s(content_type) },
        }
        .formatted(Ok(s("x")))
    };
    for content_type in ["text/plain", "application/json", "a\tb", "", "grün"] {
        let response = respond(content_type).unwrap();
        assert_eq!(response.content_type, Some(s(content_type)));
        assert_eq!(response.status, 200);
        assert_eq!(response.body, "x");
    }
    for content_type in ["a\nb", "\u{7f}", "\u{0}"] {
        let error = respond(content_type).unwrap_err();
        assert_eq!(
            error,
            ApplicationError::CreatingResponse { source: s("failed to parse header value") }
        );
        assert_eq!(kind_of(&error).status(), 500);
    }
}

#[test]
fn texts_are_compared() {
    assert!(same_text("", ""));
    assert!(same_text("/api/v2/delete", "/api/v2/delete"));
    assert!(!same_text("a", "A"));
    assert!(!same_text("a", "ab"));
    assert!(!same_text("grün", "grun"));
}
