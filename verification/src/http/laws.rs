//! What holds of the HTTP API across its parts.

use vstd::prelude::*;
use vstd::utf8::*;

use crate::http::delete::{
    delete_begins, has_ahead, is_no_content, selected_tables, DeleteProgress, MapBucket,
    ParseBody, ParsedDelete, ReadBody, SelectTables,
};
use crate::http::error::{
    ApiErrorCode, ApplicationError, Reply, ReplyKind, RouteFailure, ServerError,
};
use crate::http::params::{
    collected, field_of, goes_by, query_fields, query_params, urlencoded_pairs, write_fields,
    write_info, Field,
};
use crate::http::query::{
    query_begins, valid_header_value, ChooseFormat, FormatResults, MakeContext, OutputFormat,
};
use crate::http::route::{routed, Request, RequestOrResponse, Response, Route};
use crate::trace::ctx::SpanContext;

verus! {

/// The answer to an unexpected error of the server does not depend on the
/// error: nothing of it gets out.
pub proof fn unexpected_server_errors_tell_nothing(a: String, b: String)
    ensures
        ({
            let x = ApplicationError::of_server_error(ServerError::Other { error: a });
            let y = ApplicationError::of_server_error(ServerError::Other { error: b });
            &&& x == y
            &&& x.given_response() is None
            &&& x.reply_kind() == ReplyKind::InternalError(ApiErrorCode::Unknown)
            &&& x.text() == "Internal server error"@
        }),
{
}

/// Of the API's own errors each is answered with a status of 400, 404 or 500:
/// exactly an unknown route and an unknown database are "not found", and the
/// code for an invalid database name belongs to that error alone.
pub proof fn failures_have_error_statuses(e: ApplicationError)
    requires
        e.given_response() is None,
    ensures
        ({
            let status = e.reply_kind().status_code();
            &&& status == 400 || status == 404 || status == 500
            &&& status == 404 <==> e is RouteNotFound || e is DatabaseNotFound
            &&& status == 500 <==> e is BucketMappingError || e is Query || e is CreatingResponse
                || e is FormattingResult || e is InternalServerError
            &&& e.reply_kind() == ReplyKind::BadRequest(ApiErrorCode::DbInvalidName) <==> e
                is DatabaseNameError
        }),
{
}

/// Exactly the failures of other parts of the server have a response of their
/// own, and it is passed on as it is.
pub proof fn responses_from_elsewhere_are_passed_on(e: ApplicationError, reply: Reply<'_>)
    requires
        e.is_answered_by(reply),
    ensures
        reply is Response <==> e is ParseBody || e is WriteError,
        e matches ApplicationError::ParseBody { source } ==> reply == Reply::Response(
            &source.response,
        ),
        e matches ApplicationError::WriteError { source } ==> reply == Reply::Response(
            &source.response,
        ),
{
}

/// A database that is not there and one that is not ready yet are described in
/// the same words, but only the first is "not found".
pub proof fn a_database_not_ready_reads_like_one_not_found(db_name: String)
    ensures
        ({
            let missing = ApplicationError::of_server_error(
                ServerError::DatabaseNotFound { db_name },
            );
            let unready = ApplicationError::of_server_error(
                ServerError::DatabaseNotInitialized { db_name },
            );
            &&& missing.text() == unready.text()
            &&& missing.reply_kind().status_code() == 404
            &&& unready.reply_kind().status_code() == 400
        }),
{
}

/// A request that is no write goes to one endpoint at most, whole, and to none
/// exactly if its method and path are not those of an endpoint. The error then
/// names both.
pub proof fn requests_reach_their_endpoint<B, R>(req: Request<B>)
    ensures
        ({
            let route = routed::<B, R>(Ok(RequestOrResponse::Request(req)));
            let is_delete = req.method@ == "POST"@ && req.path@ == "/api/v2/delete"@;
            let is_query = req.method@ == "GET"@ && req.path@ == "/api/v3/query"@;
            &&& !(is_delete && is_query)
            &&& is_delete <==> route == Ok::<Route<B, R>, ApplicationError>(Route::Delete(req))
            &&& is_query <==> route == Ok::<Route<B, R>, ApplicationError>(Route::Query(req))
            &&& route is Err <==> !is_delete && !is_query
            &&& route is Err ==> {
                &&& route->Err_0 == ApplicationError::RouteNotFound {
                    method: req.method,
                    path: req.path,
                }
                &&& route->Err_0.reply_kind().status_code() == 404
            }
        }),
{
    reveal_strlit("POST");
    reveal_strlit("GET");
    assert("POST"@.len() != "GET"@.len());
}

/// How a delete goes on from its body to the choice of tables.
pub open spec fn delete_checks<D, P>(
    step: ParseBody,
    parsed: Result<ParsedDelete, String>,
    opened: Result<D, ServerError>,
    built: Result<P, String>,
) -> Result<SelectTables<D, P>, ApplicationError> {
    match step.after(parsed) {
        Err(e) => Err(e),
        Ok(open) => match open.after(opened) {
            Err(e) => Err(e),
            Ok(build) => build.after(built),
        },
    }
}

/// A delete gets as far as its tables exactly if the body parses, the database
/// is there and the predicate can be built. It then is for that database and
/// predicate, and for the table that the body names. Otherwise the first of
/// these that fails decides the error.
pub proof fn a_delete_is_checked_before_it_starts<D, P>(
    step: ParseBody,
    parsed: Result<ParsedDelete, String>,
    opened: Result<D, ServerError>,
    built: Result<P, String>,
)
    ensures
        ({
            let checked = delete_checks(step, parsed, opened, built);
            &&& checked is Ok <==> parsed is Ok && opened is Ok && built is Ok
            &&& checked matches Ok(select) ==> {
                &&& select.db == opened->Ok_0
                &&& select.predicate == built->Ok_0
                &&& select.table_name == parsed->Ok_0.table_name
                &&& select.body == step.body
            }
            &&& checked matches Err(e) ==> e == if parsed is Err {
                ApplicationError::ParsingDelete { source: parsed->Err_0, input: step.body }
            } else if opened is Err {
                ApplicationError::of_server_error(opened->Err_0)
            } else {
                ApplicationError::BuildingDeletePredicate {
                    source: built->Err_0,
                    input: step.body,
                }
            }
        }),
{
}

/// What the server is asked for when it deletes from one table.
pub struct Deletion<D, P> {
    pub db: D,
    pub table: String,
    pub predicate: P,
}

/// The deletions from these tables of the database, by the predicate.
pub open spec fn deletions_from<D, P>(db: D, predicate: P, tables: Seq<String>) -> Seq<
    Deletion<D, P>,
> {
    tables.map_values(|table: String| Deletion { db, table, predicate })
}

/// The delete goes from `progress` to `end`, where `deletions` are those that it
/// asks for, in order, `outcomes` their outcomes, and `steps` what follows each.
pub open spec fn delete_runs<D, P>(
    progress: DeleteProgress<D, P>,
    deletions: Seq<Deletion<D, P>>,
    outcomes: Seq<Result<(), String>>,
    steps: Seq<Result<DeleteProgress<D, P>, ApplicationError>>,
    end: Result<Response, ApplicationError>,
) -> bool
    decreases steps.len(),
{
    &&& deletions.len() == outcomes.len() == steps.len()
    &&& match progress {
        DeleteProgress::Done(response) => {
            &&& steps.len() == 0
            &&& end == Ok::<Response, ApplicationError>(response)
        },
        DeleteProgress::Next(next) => {
            &&& steps.len() > 0
            &&& deletions[0] == Deletion {
                db: next.db,
                table: next.table,
                predicate: next.predicate,
            }
            &&& next.deletes(outcomes[0], steps[0])
            &&& match steps[0] {
                Err(e) => steps.len() == 1 && end == Err::<Response, ApplicationError>(e),
                Ok(then) => delete_runs(
                    then,
                    deletions.drop_first(),
                    outcomes.drop_first(),
                    steps.drop_first(),
                    end,
                ),
            }
        },
    }
}

/// A delete that has `ahead` ahead of it deletes from these tables in order and
/// from no other, each time from the same database by the same predicate. If
/// all deletions succeed it deletes from all of them and is answered with "no
/// content". Otherwise it stops at the first that fails, and reports it.
pub proof fn a_delete_stops_at_the_first_failure<D, P>(
    db: D,
    predicate: P,
    ahead: Seq<String>,
    body: String,
    progress: DeleteProgress<D, P>,
    deletions: Seq<Deletion<D, P>>,
    outcomes: Seq<Result<(), String>>,
    steps: Seq<Result<DeleteProgress<D, P>, ApplicationError>>,
    end: Result<Response, ApplicationError>,
)
    requires
        has_ahead(db, predicate, ahead, body, progress),
        delete_runs(progress, deletions, outcomes, steps, end),
    ensures
        deletions.len() == outcomes.len() <= ahead.len(),
        deletions == deletions_from(db, predicate, ahead.take(outcomes.len() as int)),
        forall|i: int| 0 <= i < outcomes.len() - 1 ==> (#[trigger] outcomes[i]) is Ok,
        match end {
            Ok(response) => {
                &&& outcomes.len() == ahead.len()
                &&& forall|i: int| 0 <= i < outcomes.len() ==> (#[trigger] outcomes[i]) is Ok
                &&& is_no_content(response)
            },
            Err(e) => {
                &&& outcomes.len() > 0
                &&& outcomes.last() is Err
                &&& e == ApplicationError::ExecutingDelete {
                    source: outcomes.last()->Err_0,
                    input: body,
                }
            },
        },
    decreases steps.len(),
{
    let expected = deletions_from(db, predicate, ahead.take(outcomes.len() as int));
    match progress {
        DeleteProgress::Done(_) => {
            assert(deletions =~= expected);
        },
        DeleteProgress::Next(next) => {
            assert(ahead[0] == next.table);
            match steps[0] {
                Err(_) => {
                    assert(deletions =~= expected);
                },
                Ok(then) => {
                    let rest = outcomes.drop_first();
                    assert(ahead.drop_first() =~= next.rest@);
                    a_delete_stops_at_the_first_failure(
                        db,
                        predicate,
                        next.rest@,
                        body,
                        then,
                        deletions.drop_first(),
                        rest,
                        steps.drop_first(),
                        end,
                    );
                    assert(deletions =~= expected) by {
                        assert forall|i: int| 0 <= i < deletions.len() implies deletions[i]
                            == expected[i] by {
                            if i > 0 {
                                assert(deletions[i] == deletions.drop_first()[i - 1]);
                                assert(ahead[i] == next.rest@[i - 1]);
                            }
                        }
                    }
                    assert forall|i: int| 0 < i < outcomes.len() implies #[trigger] outcomes[i]
                        == rest[i - 1] by {}
                    if end is Err {
                        assert(outcomes.last() == rest.last());
                    }
                },
            }
        },
    }
}

/// What comes of the work that a delete asks the server for, as far as it gets.
pub struct DeleteWork<D, P> {
    pub database: Result<String, String>,
    pub body: Result<Vec<u8>, RouteFailure>,
    pub parsed: Result<ParsedDelete, String>,
    pub opened: Result<D, ServerError>,
    pub built: Result<P, String>,
    pub table_names: Seq<String>,
    /// The deletions that are performed, in order.
    pub deletions: Seq<Deletion<D, P>>,
    /// The outcomes of the deletions.
    pub outcomes: Seq<Result<(), String>>,
}

/// The delete ends in an error before anything is deleted.
pub open spec fn delete_is_refused<D, P>(
    e: ApplicationError,
    work: DeleteWork<D, P>,
    end: Result<Response, ApplicationError>,
) -> bool {
    &&& work.deletions.len() == 0
    &&& work.outcomes.len() == 0
    &&& end == Err::<Response, ApplicationError>(e)
}

/// The choice of tables leads to `progress`, from where the delete goes through
/// `steps` to `end`.
pub open spec fn delete_goes_on_from_tables<D, P>(
    select: SelectTables<D, P>,
    progress: DeleteProgress<D, P>,
    steps: Seq<Result<DeleteProgress<D, P>, ApplicationError>>,
    work: DeleteWork<D, P>,
    end: Result<Response, ApplicationError>,
) -> bool {
    &&& select.selects(work.table_names, progress)
    &&& delete_runs(progress, work.deletions, work.outcomes, steps, end)
}

/// Reading the body leads to `step`, from where the delete goes on to `end`.
pub open spec fn delete_goes_on_from_body<D, P>(
    read: ReadBody,
    step: Result<ParseBody, ApplicationError>,
    work: DeleteWork<D, P>,
    end: Result<Response, ApplicationError>,
) -> bool {
    &&& read.reads(work.body, step)
    &&& match step {
        Err(e) => delete_is_refused(e, work, end),
        Ok(parse) => match delete_checks(parse, work.parsed, work.opened, work.built) {
            Err(e) => delete_is_refused(e, work, end),
            Ok(select) => exists|
                progress: DeleteProgress<D, P>,
                steps: Seq<Result<DeleteProgress<D, P>, ApplicationError>>,
            | #[trigger]
                delete_goes_on_from_tables(select, progress, steps, work, end),
        },
    }
}

/// The query string leads to `begun`, from where the delete goes on to `end`.
pub open spec fn delete_goes_on_from_query<D, P>(
    query: Option<String>,
    max_request_size: usize,
    begun: Result<MapBucket, ApplicationError>,
    work: DeleteWork<D, P>,
    end: Result<Response, ApplicationError>,
) -> bool {
    &&& delete_begins(query, max_request_size, begun)
    &&& match begun {
        Err(e) => delete_is_refused(e, work, end),
        Ok(map) => match map.after(work.database) {
            Err(e) => delete_is_refused(e, work, end),
            Ok(read) => exists|step: Result<ParseBody, ApplicationError>| #[trigger]
                delete_goes_on_from_body(read, step, work, end),
        },
    }
}

/// A delete for a request with this query string goes through its steps to
/// `end`.
pub open spec fn delete_ends<D, P>(
    query: Option<String>,
    max_request_size: usize,
    work: DeleteWork<D, P>,
    end: Result<Response, ApplicationError>,
) -> bool {
    exists|begun: Result<MapBucket, ApplicationError>| #[trigger]
        delete_goes_on_from_query(query, max_request_size, begun, work, end)
}

/// The request names a bucket and an organization, and the server finds the
/// database, reads the body and parses it, finds the database and builds the
/// predicate.
pub open spec fn delete_is_sound<D, P>(query: Option<String>, work: DeleteWork<D, P>) -> bool {
    &&& query is Some
    &&& write_info(urlencoded_pairs(query->0@)) is Ok
    &&& work.database is Ok
    &&& work.body is Ok
    &&& valid_utf8(work.body->Ok_0@)
    &&& work.parsed is Ok
    &&& work.opened is Ok
    &&& work.built is Ok
}

/// The tables that a sound delete is for.
pub open spec fn delete_tables<D, P>(work: DeleteWork<D, P>) -> Seq<String> {
    selected_tables(work.parsed->Ok_0.table_name, work.table_names)
}

/// A delete is answered with "no content" exactly if the request is sound and
/// no deletion fails, and then it has deleted from each of its tables, in order.
/// What it deletes it deletes from its tables, in the database that was found
/// and by the predicate that was built. Where the request is not sound nothing
/// is deleted.
pub proof fn a_delete_succeeds_exactly_if_all_of_it_does<D, P>(
    query: Option<String>,
    max_request_size: usize,
    work: DeleteWork<D, P>,
    end: Result<Response, ApplicationError>,
)
    requires
        delete_ends(query, max_request_size, work, end),
    ensures
        end is Ok <==> delete_is_sound(query, work) && forall|i: int|
            0 <= i < work.outcomes.len() ==> (#[trigger] work.outcomes[i]) is Ok,
        end matches Ok(response) ==> {
            &&& is_no_content(response)
            &&& work.deletions == deletions_from(
                work.opened->Ok_0,
                work.built->Ok_0,
                delete_tables(work),
            )
        },
        delete_is_sound(query, work) ==> {
            &&& work.deletions.len() <= delete_tables(work).len()
            &&& work.deletions == deletions_from(
                work.opened->Ok_0,
                work.built->Ok_0,
                delete_tables(work).take(work.deletions.len() as int),
            )
        },
        !delete_is_sound(query, work) ==> work.deletions.len() == 0,
{
    let begun = choose|begun: Result<MapBucket, ApplicationError>| #[trigger]
        delete_goes_on_from_query(query, max_request_size, begun, work, end);
    if begun is Ok && work.database is Ok {
        let read = begun->Ok_0.after(work.database)->Ok_0;
        let step = choose|step: Result<ParseBody, ApplicationError>| #[trigger]
            delete_goes_on_from_body(read, step, work, end);
        if step is Ok {
            let checked = delete_checks(step->Ok_0, work.parsed, work.opened, work.built);
            if checked is Ok {
                let select = checked->Ok_0;
                let (progress, steps) = choose|
                    progress: DeleteProgress<D, P>,
                    steps: Seq<Result<DeleteProgress<D, P>, ApplicationError>>,
                | #[trigger]
                    delete_goes_on_from_tables(select, progress, steps, work, end);
                let ahead = delete_tables(work);
                a_delete_stops_at_the_first_failure(
                    select.db,
                    select.predicate,
                    ahead,
                    select.body,
                    progress,
                    work.deletions,
                    work.outcomes,
                    steps,
                    end,
                );
                assert(ahead.take(ahead.len() as int) =~= ahead);
                if end is Err {
                    assert(work.outcomes[work.outcomes.len() - 1] is Err);
                }
            }
        }
    }
}

/// A delete that names a table deletes from that table alone. One that names
/// none deletes from every table of the database.
pub proof fn a_delete_is_for_one_table_or_for_all(table_name: String, table_names: Seq<String>)
    ensures
        table_name@.len() > 0 ==> selected_tables(table_name, table_names) == seq![table_name],
        table_name@.len() == 0 ==> selected_tables(table_name, table_names) == table_names,
{
}

/// How a query goes on from its parameters to its query context.
pub open spec fn query_checks<F, D, C>(
    step: ChooseFormat<C>,
    format: Result<OutputFormat<F>, String>,
    valid: Result<(), String>,
    opened: Result<D, ServerError>,
) -> Result<MakeContext<F, D, C>, ApplicationError> {
    match step.after(format) {
        Err(e) => Err(e),
        Ok(check) => match check.after(valid) {
            Err(e) => Err(e),
            Ok(open) => open.after(opened),
        },
    }
}

/// How a query goes on from its query context to its results.
pub open spec fn query_runs<F, D, C, X, P, B>(
    step: MakeContext<F, D, C>,
    context: X,
    planned: Result<P, String>,
    gathered: Result<B, String>,
) -> Result<FormatResults<F, B>, ApplicationError> {
    match step.after(context).after(planned) {
        Err(e) => Err(e),
        Ok(run) => run.after(gathered),
    }
}

/// A query gets as far as its query context exactly if there is a format of
/// that name, the name of the database is valid and the database is there. The
/// context is then made of that database, with the span context of the request.
/// Otherwise the first of these that fails decides the error.
pub proof fn a_query_is_checked_before_it_runs<F, D, C>(
    step: ChooseFormat<C>,
    format: Result<OutputFormat<F>, String>,
    valid: Result<(), String>,
    opened: Result<D, ServerError>,
)
    ensures
        ({
            let checked = query_checks(step, format, valid, opened);
            &&& checked is Ok <==> format is Ok && valid is Ok && opened is Ok
            &&& checked matches Ok(next) ==> next == MakeContext {
                db: opened->Ok_0,
                span_ctx: step.span_ctx,
                db_name: step.params.d,
                q: step.params.q,
                format: format->Ok_0,
            }
            &&& checked matches Err(e) ==> e == if format is Err {
                ApplicationError::ParsingFormat {
                    format: step.params.format,
                    source: format->Err_0,
                }
            } else if valid is Err {
                ApplicationError::DatabaseNameError { source: valid->Err_0 }
            } else {
                ApplicationError::of_server_error(opened->Err_0)
            }
        }),
{
}

/// A query is planned in its query context, and run there with its plan. It
/// gets as far as its results exactly if both succeed, and then has these
/// results, its text and its format. Otherwise the first that fails decides the
/// error.
pub proof fn a_query_runs_its_plan<F, D, C, X, P, B>(
    step: MakeContext<F, D, C>,
    context: X,
    planned: Result<P, String>,
    gathered: Result<B, String>,
)
    ensures
        step.after(context).context == context,
        step.after(context).q == step.q,
        step.after(context).after(planned) matches Ok(run) ==> {
            &&& run.context == context
            &&& run.plan == planned->Ok_0
        },
        ({
            let end = query_runs(step, context, planned, gathered);
            &&& end is Ok <==> planned is Ok && gathered is Ok
            &&& end matches Ok(next) ==> {
                &&& next.batches == gathered->Ok_0
                &&& next.q == step.q
                &&& next.format == step.format
            }
            &&& end matches Err(e) ==> e == if planned is Err {
                ApplicationError::Planning { source: planned->Err_0 }
            } else {
                ApplicationError::Query { db_name: step.db_name, source: gathered->Err_0 }
            }
        }),
{
}

/// What the server is asked for when it makes a query context.
pub struct ContextRequest<D, C> {
    pub db: D,
    pub span_ctx: Option<SpanContext<C>>,
}

/// What comes of the work that a query asks the server for.
pub struct QueryWork<F, D, C, X, P, B> {
    pub format: Result<OutputFormat<F>, String>,
    pub valid: Result<(), String>,
    pub opened: Result<D, ServerError>,
    /// What a query context was made with, if one was made.
    pub context_request: Option<ContextRequest<D, C>>,
    pub context: X,
    pub planned: Result<P, String>,
    pub gathered: Result<B, String>,
    pub results: Result<String, String>,
}

/// The query ends in an error before a query context is made.
pub open spec fn query_is_refused<F, D, C, X, P, B>(
    e: ApplicationError,
    work: QueryWork<F, D, C, X, P, B>,
    end: Result<Response, ApplicationError>,
) -> bool {
    &&& work.context_request is None
    &&& end == Err::<Response, ApplicationError>(e)
}

/// The query string leads to `begun`, from where the query goes on to `end`.
pub open spec fn query_goes_on<F, D, C, X, P, B>(
    query: Option<String>,
    span_ctx: Option<SpanContext<C>>,
    begun: Result<ChooseFormat<C>, ApplicationError>,
    work: QueryWork<F, D, C, X, P, B>,
    end: Result<Response, ApplicationError>,
) -> bool {
    &&& query_begins(query, span_ctx, begun)
    &&& match begun {
        Err(e) => query_is_refused(e, work, end),
        Ok(choose_format) => match query_checks(
            choose_format,
            work.format,
            work.valid,
            work.opened,
        ) {
            Err(e) => query_is_refused(e, work, end),
            Ok(make) => {
                &&& work.context_request == Some(
                    ContextRequest { db: make.db, span_ctx: make.span_ctx },
                )
                &&& match query_runs(make, work.context, work.planned, work.gathered) {
                    Err(e) => end == Err::<Response, ApplicationError>(e),
                    Ok(next) => next.responds(work.results, end),
                }
            },
        },
    }
}

/// A query for a request with this query string, which belongs to this span,
/// goes through its steps to `end`.
pub open spec fn query_ends<F, D, C, X, P, B>(
    query: Option<String>,
    span_ctx: Option<SpanContext<C>>,
    work: QueryWork<F, D, C, X, P, B>,
    end: Result<Response, ApplicationError>,
) -> bool {
    exists|begun: Result<ChooseFormat<C>, ApplicationError>| #[trigger]
        query_goes_on(query, span_ctx, begun, work, end)
}

/// The request gives its parameters, there is a format of that name, the name of
/// the database is valid and the database is there.
pub open spec fn query_is_sound<F, D, C, X, P, B>(
    query: Option<String>,
    work: QueryWork<F, D, C, X, P, B>,
) -> bool {
    &&& query is Some
    &&& query_params(urlencoded_pairs(query->0@)) is Ok
    &&& work.format is Ok
    &&& work.valid is Ok
    &&& work.opened is Ok
}

/// A query is answered with its results exactly if the request is sound, all
/// the work for it succeeds and the content type of the format can stand in a
/// header. The response is in that content type and holds the formatted
/// results. A query context is made exactly if the request is sound: of the
/// database that was found, with the span context of the request, or with none
/// where the request has none.
pub proof fn a_query_succeeds_exactly_if_all_of_it_does<F, D, C, X, P, B>(
    query: Option<String>,
    span_ctx: Option<SpanContext<C>>,
    work: QueryWork<F, D, C, X, P, B>,
    end: Result<Response, ApplicationError>,
)
    requires
        query_ends(query, span_ctx, work, end),
    ensures
        end is Ok <==> {
            &&& query_is_sound(query, work)
            &&& work.planned is Ok
            &&& work.gathered is Ok
            &&& work.results is Ok
            &&& valid_header_value(work.format->Ok_0.content_type@)
        },
        end matches Ok(response) ==> {
            &&& response.status == 200
            &&& response.content_type is Some
            &&& response.content_type->0@ == work.format->Ok_0.content_type@
            &&& response.body == work.results->Ok_0
        },
        work.context_request == if query_is_sound(query, work) {
            Some(ContextRequest { db: work.opened->Ok_0, span_ctx })
        } else {
            None
        },
{
}

/// A query for a database whose name is not valid is answered with a status of
/// 400 and the code for invalid names, and nothing past the name is looked at.
pub proof fn an_invalid_name_is_answered_with_its_code<F, D, C>(
    step: ChooseFormat<C>,
    format: OutputFormat<F>,
    source: String,
    opened: Result<D, ServerError>,
)
    ensures
        ({
            let end = query_checks(step, Ok(format), Err(source), opened);
            &&& end is Err
            &&& end->Err_0.reply_kind() == ReplyKind::BadRequest(ApiErrorCode::DbInvalidName)
            &&& end->Err_0.given_response() is None
            &&& end->Err_0.text() == "Invalid database name: "@ + source@
        }),
{
}

/// A field of the parameters is given at most once.
pub open spec fn given_once(fields: Seq<Field>, pairs: Seq<(Seq<char>, Seq<char>)>) -> bool {
    forall|i: int, j: int|
        0 <= i < j < pairs.len() && field_of(fields, (#[trigger] pairs[i]).0) is Some ==> field_of(
            fields,
            pairs[i].0,
        ) != field_of(fields, (#[trigger] pairs[j]).0)
}

/// The field is given by some pair.
pub open spec fn is_given(
    fields: Seq<Field>,
    pairs: Seq<(Seq<char>, Seq<char>)>,
    field: int,
) -> bool {
    exists|i: int| 0 <= i < pairs.len() && field_of(fields, (#[trigger] pairs[i]).0) == Some(field)
}

/// Collecting fails exactly if a field is given twice, and otherwise gives each
/// field the value of its pair.
pub proof fn collecting_reads_each_field_once(
    fields: Seq<Field>,
    pairs: Seq<(Seq<char>, Seq<char>)>,
)
    ensures
        collected(fields, pairs) is Ok <==> given_once(fields, pairs),
        collected(fields, pairs) matches Ok(values) ==> {
            &&& forall|k: int| #[trigger] values.contains_key(k) <==> is_given(fields, pairs, k)
            &&& forall|i: int|
                0 <= i < pairs.len() && field_of(fields, (#[trigger] pairs[i]).0) is Some
                    ==> values[field_of(fields, pairs[i].0)->0] == pairs[i].1
        },
    decreases pairs.len(),
{
    if pairs.len() > 0 {
        let init = pairs.drop_last();
        let last = pairs.last();
        let n = pairs.len() - 1;
        collecting_reads_each_field_once(fields, init);
        assert forall|i: int| 0 <= i < init.len() implies init[i] == #[trigger] pairs[i] by {}
        assert(given_once(fields, pairs) ==> given_once(fields, init)) by {
            if given_once(fields, pairs) {
                assert forall|i: int, j: int|
                    0 <= i < j < init.len() && field_of(fields, (#[trigger] init[i]).0)
                        is Some implies field_of(fields, init[i].0) != field_of(
                    fields,
                    (#[trigger] init[j]).0,
                ) by {
                    assert(init[i] == pairs[i] && init[j] == pairs[j]);
                }
            }
        }
        match collected(fields, init) {
            Err(_) => {},
            Ok(values) => {
                match field_of(fields, last.0) {
                    None => {
                        assert forall|k: int| is_given(fields, pairs, k) == is_given(
                            fields,
                            init,
                            k,
                        ) by {
                            if is_given(fields, pairs, k) {
                                let i = choose|i: int|
                                    0 <= i < pairs.len() && field_of(
                                        fields,
                                        (#[trigger] pairs[i]).0,
                                    ) == Some(k);
                                assert(init[i] == pairs[i]);
                            }
                            if is_given(fields, init, k) {
                                let i = choose|i: int|
                                    0 <= i < init.len() && field_of(fields, (#[trigger] init[i]).0)
                                        == Some(k);
                                assert(init[i] == pairs[i]);
                            }
                        }
                        assert(given_once(fields, pairs)) by {
                            assert forall|i: int, j: int|
                                0 <= i < j < pairs.len() && field_of(
                                    fields,
                                    (#[trigger] pairs[i]).0,
                                ) is Some implies field_of(fields, pairs[i].0) != field_of(
                                fields,
                                (#[trigger] pairs[j]).0,
                            ) by {
                                if j < n {
                                    assert(init[i] == pairs[i] && init[j] == pairs[j]);
                                }
                            }
                        }
                    },
                    Some(field) => {
                        if values.contains_key(field) {
                            assert(is_given(fields, init, field));
                            let i = choose|i: int|
                                0 <= i < init.len() && field_of(fields, (#[trigger] init[i]).0)
                                    == Some(field);
                            assert(pairs[i] == init[i] && pairs[n] == last);
                            assert(!given_once(fields, pairs));
                        } else {
                            assert(!is_given(fields, init, field));
                            assert forall|k: int| is_given(fields, pairs, k) == (is_given(
                                fields,
                                init,
                                k,
                            ) || k == field) by {
                                if is_given(fields, pairs, k) {
                                    let i = choose|i: int|
                                        0 <= i < pairs.len() && field_of(
                                            fields,
                                            (#[trigger] pairs[i]).0,
                                        ) == Some(k);
                                    if i < n {
                                        assert(init[i] == pairs[i]);
                                    }
                                }
                                if is_given(fields, init, k) {
                                    let i = choose|i: int|
                                        0 <= i < init.len() && field_of(
                                            fields,
                                            (#[trigger] init[i]).0,
                                        ) == Some(k);
                                    assert(init[i] == pairs[i]);
                                }
                                assert(pairs[n] == last);
                            }
                            assert(given_once(fields, pairs)) by {
                                assert forall|i: int, j: int|
                                    0 <= i < j < pairs.len() && field_of(
                                        fields,
                                        (#[trigger] pairs[i]).0,
                                    ) is Some implies field_of(fields, pairs[i].0) != field_of(
                                    fields,
                                    (#[trigger] pairs[j]).0,
                                ) by {
                                    assert(init[i] == pairs[i]);
                                    if j < n {
                                        assert(init[j] == pairs[j]);
                                    }
                                }
                            }
                            let after = values.insert(field, last.1);
                            assert forall|i: int|
                                0 <= i < pairs.len() && field_of(fields, (#[trigger] pairs[i]).0)
                                    is Some implies after[field_of(fields, pairs[i].0)->0]
                                == pairs[i].1 by {
                                if i < n {
                                    assert(init[i] == pairs[i]);
                                }
                            }
                        }
                    },
                }
            },
        }
    }
}

/// Pairs that go by the same fields, with the same values, are collected alike.
proof fn lemma_collected_alike(
    fields: Seq<Field>,
    a: Seq<(Seq<char>, Seq<char>)>,
    b: Seq<(Seq<char>, Seq<char>)>,
)
    requires
        a.len() == b.len(),
        forall|i: int|
            0 <= i < a.len() ==> field_of(fields, (#[trigger] a[i]).0) == field_of(fields, b[i].0)
                && a[i].1 == b[i].1,
    ensures
        collected(fields, a) == collected(fields, b),
    decreases a.len(),
{
    if a.len() > 0 {
        assert forall|i: int| 0 <= i < a.drop_last().len() implies field_of(
            fields,
            (#[trigger] a.drop_last()[i]).0,
        ) == field_of(fields, b.drop_last()[i].0) && a.drop_last()[i].1 == b.drop_last()[i].1 by {
            assert(a.drop_last()[i] == a[i] && b.drop_last()[i] == b[i]);
        }
        lemma_collected_alike(fields, a.drop_last(), b.drop_last());
        assert(a.last() == a[a.len() - 1] && b.last() == b[b.len() - 1]);
    }
}

/// The names that the fields of a query go by.
proof fn lemma_query_field_names()
    ensures
        field_of(query_fields(), "d"@) == Some(0int),
        field_of(query_fields(), "database"@) == Some(0int),
        field_of(query_fields(), "q"@) == Some(1int),
        field_of(query_fields(), "query"@) == Some(1int),
        field_of(query_fields(), "format"@) == Some(2int),
        forall|key: Seq<char>| #[trigger]
            field_of(query_fields(), key) == Some(2int) ==> key == "format"@,
{
    let fields = query_fields();
    let two = fields.drop_last();
    let one = two.drop_last();
    assert(one.drop_last().len() == 0);
    assert(fields.last() == fields[2] && two.last() == fields[1] && one.last() == fields[0]);
    reveal_strlit("d");
    reveal_strlit("database");
    reveal_strlit("q");
    reveal_strlit("query");
    reveal_strlit("format");
    assert("d"@[0] != "q"@[0]);
    assert("d"@.len() == 1 && "q"@.len() == 1 && "query"@.len() == 5);
    assert("format"@.len() == 6 && "database"@.len() == 8);
    reveal_with_fuel(field_of, 5);
    assert forall|key: Seq<char>| #[trigger] field_of(fields, key) == Some(2int) implies key
        == "format"@ by {
        assert(field_of(one, key) is None || field_of(one, key) == Some(0int));
        assert(field_of(two, key) is None);
        assert(goes_by(fields[2], key));
    }
}

/// A query may call its database `d` or `database`, and its text `q` or
/// `query`: exchanging one name for the other changes nothing.
pub proof fn parameters_may_go_by_their_other_name(
    pairs: Seq<(Seq<char>, Seq<char>)>,
    i: int,
)
    requires
        0 <= i < pairs.len(),
    ensures
        pairs[i].0 == "d"@ ==> query_params(pairs) == query_params(
            pairs.update(i, ("database"@, pairs[i].1)),
        ),
        pairs[i].0 == "q"@ ==> query_params(pairs) == query_params(
            pairs.update(i, ("query"@, pairs[i].1)),
        ),
{
    lemma_query_field_names();
    if pairs[i].0 == "d"@ {
        lemma_collected_alike(query_fields(), pairs, pairs.update(i, ("database"@, pairs[i].1)));
    }
    if pairs[i].0 == "q"@ {
        lemma_collected_alike(query_fields(), pairs, pairs.update(i, ("query"@, pairs[i].1)));
    }
}

/// To ask for the format `pretty` is the same as to ask for none.
pub proof fn pretty_is_the_default_format(pairs: Seq<(Seq<char>, Seq<char>)>)
    requires
        forall|i: int| 0 <= i < pairs.len() ==> (#[trigger] pairs[i]).0 != "format"@,
    ensures
        query_params(pairs.push(("format"@, "pretty"@))) == query_params(pairs),
{
    let fields = query_fields();
    let asked = pairs.push(("format"@, "pretty"@));
    lemma_query_field_names();
    collecting_reads_each_field_once(fields, pairs);
    assert(asked.drop_last() =~= pairs);
    assert(asked.last() == ("format"@, "pretty"@));
    match collected(fields, pairs) {
        Err(_) => {},
        Ok(values) => {
            if values.contains_key(2) {
                assert(is_given(fields, pairs, 2));
                let i = choose|i: int|
                    0 <= i < pairs.len() && field_of(fields, (#[trigger] pairs[i]).0) == Some(2int);
                assert(pairs[i].0 == "format"@);
            }
        },
    }
}

/// The pairs that go by a field.
pub open spec fn known_pairs(
    fields: Seq<Field>,
    pairs: Seq<(Seq<char>, Seq<char>)>,
) -> Seq<(Seq<char>, Seq<char>)> {
    pairs.filter(|p: (Seq<char>, Seq<char>)| field_of(fields, p.0) is Some)
}

/// Pairs that go by no field make no difference.
pub proof fn unknown_parameters_are_ignored(pairs: Seq<(Seq<char>, Seq<char>)>)
    ensures
        query_params(known_pairs(query_fields(), pairs)) == query_params(pairs),
        write_info(known_pairs(write_fields(), pairs)) == write_info(pairs),
{
    lemma_collected_known(query_fields(), pairs);
    lemma_collected_known(write_fields(), pairs);
}

proof fn lemma_collected_known(fields: Seq<Field>, pairs: Seq<(Seq<char>, Seq<char>)>)
    ensures
        collected(fields, known_pairs(fields, pairs)) == collected(fields, pairs),
    decreases pairs.len(),
{
    reveal(Seq::filter);
    if pairs.len() > 0 {
        lemma_collected_known(fields, pairs.drop_last());
        let shorter = known_pairs(fields, pairs.drop_last());
        if field_of(fields, pairs.last().0) is Some {
            assert(known_pairs(fields, pairs) == shorter.push(pairs.last()));
            assert(shorter.push(pairs.last()).drop_last() =~= shorter);
        }
    }
}

/// A query is accepted exactly if it gives a database and a query, and gives
/// nothing twice. Each parameter then has the value that was given for it.
pub proof fn a_query_needs_a_database_and_a_text(pairs: Seq<(Seq<char>, Seq<char>)>)
    ensures
        ({
            let fields = query_fields();
            &&& query_params(pairs) is Ok <==> given_once(fields, pairs) && is_given(
                fields,
                pairs,
                0,
            ) && is_given(fields, pairs, 1)
            &&& query_params(pairs) matches Ok(params) ==> forall|i: int|
                0 <= i < pairs.len() ==> {
                    let field = field_of(fields, (#[trigger] pairs[i]).0);
                    &&& field == Some(0int) ==> params.d == pairs[i].1
                    &&& field == Some(1int) ==> params.q == pairs[i].1
                    &&& field == Some(2int) ==> params.format == pairs[i].1
                }
        }),
{
    let fields = query_fields();
    collecting_reads_each_field_once(fields, pairs);
    if let Ok(values) = collected(fields, pairs) {
        assert(values.contains_key(0) <==> is_given(fields, pairs, 0));
        assert(values.contains_key(1) <==> is_given(fields, pairs, 1));
        assert(values.contains_key(2) <==> is_given(fields, pairs, 2));
    }
}

} // verus!
