//! The query endpoint.
//!
//! A query goes through these steps. Each holds what the server is to do next,
//! and takes the outcome:
//!
//! 1. [`ChooseFormat`]: look the output format up by its name.
//! 2. [`CheckName`]: check the name of the database.
//! 3. [`OpenDatabase`]: look the database up.
//! 4. [`MakeContext`]: make the query context, for the span of the request.
//! 5. [`PlanQuery`]: plan the query.
//! 6. [`RunQuery`]: run the plan and collect the results.
//! 7. [`FormatResults`]: format the results. The response follows.
//!
//! The span context of the request, the format that was chosen, the database
//! that was looked up, the query context, the plan and the results are carried
//! along as they were given, to the steps that need them.

use vstd::prelude::*;
use vstd::utf8::*;

use crate::http::error::{ApplicationError, ServerError};
use crate::http::params::{query_params, urlencoded_pairs, QueryParams};
use crate::http::route::Response;
use crate::trace::ctx::SpanContext;

verus! {

/// An output format, with how it is shown for debugging and the content type of
/// what it produces.
#[derive(Debug, Clone, PartialEq, Eq)]
pub struct OutputFormat<F> {
    pub format: F,
    pub debug: String,
    pub content_type: String,
}

/// Next: look up the format that the parameters name.
#[derive(Debug)]
pub struct ChooseFormat<C> {
    pub params: QueryParams,
    /// The context of the span that the request belongs to, if any.
    pub span_ctx: Option<SpanContext<C>>,
}

/// Next: check that `d` is the name of a database.
#[derive(Debug)]
pub struct CheckName<F, C> {
    pub d: String,
    pub q: String,
    pub format: OutputFormat<F>,
    pub span_ctx: Option<SpanContext<C>>,
}

/// Next: look the database up.
#[derive(Debug)]
pub struct OpenDatabase<F, C> {
    pub db_name: String,
    pub q: String,
    pub format: OutputFormat<F>,
    pub span_ctx: Option<SpanContext<C>>,
}

/// Next: make a query context of the database, with this span context or with
/// none.
#[derive(Debug)]
pub struct MakeContext<F, D, C> {
    pub db: D,
    pub span_ctx: Option<SpanContext<C>>,
    pub db_name: String,
    pub q: String,
    pub format: OutputFormat<F>,
}

/// Next: plan the query in the query context.
#[derive(Debug, PartialEq, Eq)]
pub struct PlanQuery<F, X> {
    pub context: X,
    pub db_name: String,
    pub q: String,
    pub format: OutputFormat<F>,
}

/// Next: run the plan in the query context.
#[derive(Debug, PartialEq, Eq)]
pub struct RunQuery<F, X, P> {
    pub context: X,
    pub plan: P,
    pub db_name: String,
    pub q: String,
    pub format: OutputFormat<F>,
}

/// Next: format the record batches that the plan produced.
#[derive(Debug, PartialEq, Eq)]
pub struct FormatResults<F, B> {
    pub batches: B,
    pub q: String,
    pub format: OutputFormat<F>,
}

/// A header may hold this byte: it is a tab, or no control character.
pub open spec fn header_byte(byte: u8) -> bool {
    byte == 9 || (byte >= 32 && byte != 127)
}

/// The text can be the value of a header.
pub open spec fn valid_header_value(text: Seq<char>) -> bool {
    forall|i: int| 0 <= i < encode_utf8(text).len() ==> header_byte(#[trigger] encode_utf8(text)[i])
}

/// Creates a response with `http::Response::builder`, which gets a header for
/// the content type and the body.
///
/// The builder starts from the status 200. It fails exactly if the content
/// type holds a byte that no header may hold, and then always with the same
/// words. The response is given back by its status, content type and body.
#[verifier::external_body]
fn build_response(content_type: &str, body: String) -> (response: Result<Response, String>)
    ensures
        response is Ok <==> valid_header_value(content_type@),
        match response {
            Ok(r) => {
                &&& r.status == 200
                &&& r.content_type is Some
                &&& r.content_type->0@ == content_type@
                &&& r.body == body
            },
            Err(e) => e@ == "failed to parse header value"@,
        },
{
    let built = http::Response::builder()
        .header(http::header::CONTENT_TYPE, content_type)
        .body(body)
        .map_err(|e| e.to_string())?;
    let value = built.headers().get(http::header::CONTENT_TYPE);
    let content_type = value.map(|v| String::from_utf8_lossy(v.as_bytes()).into_owned());
    Ok(Response { status: built.status().as_u16(), content_type, body: built.into_body() })
}

/// `step` is how a query begins for a request with this query string, which
/// belongs to this span.
pub open spec fn query_begins<C>(
    query: Option<String>,
    span_ctx: Option<SpanContext<C>>,
    step: Result<ChooseFormat<C>, ApplicationError>,
) -> bool {
    match query {
        None => step matches Err(ApplicationError::ExpectedQueryString {  }),
        Some(q) => match query_params(urlencoded_pairs(q@)) {
            Ok(params) => {
                &&& step matches Ok(next)
                &&& next.params@ == params
                &&& next.span_ctx == span_ctx
            },
            Err(text) => {
                &&& step matches Err(
                    ApplicationError::InvalidQueryString { query_string, source },
                )
                &&& query_string == q
                &&& source@ == text
            },
        },
    }
}

impl<C> ChooseFormat<C> {
    /// Begins a query for a request with this query string, which belongs to
    /// this span, if to any.
    pub fn begin(query: Option<String>, span_ctx: Option<SpanContext<C>>) -> (step: Result<
        ChooseFormat<C>,
        ApplicationError,
    >)
        ensures
            query_begins(query, span_ctx, step),
    {
        match query {
            None => Err(ApplicationError::ExpectedQueryString {  }),
            Some(query_string) => match QueryParams::parse(&query_string) {
                Ok(params) => Ok(ChooseFormat { params, span_ctx }),
                Err(source) => Err(ApplicationError::InvalidQueryString { query_string, source }),
            },
        }
    }

    /// What follows the choice of a format, or that there is none of that name.
    pub open spec fn after<F>(self, format: Result<OutputFormat<F>, String>) -> Result<
        CheckName<F, C>,
        ApplicationError,
    > {
        match format {
            Ok(format) => Ok(
                CheckName {
                    d: self.params.d,
                    q: self.params.q,
                    format,
                    span_ctx: self.span_ctx,
                },
            ),
            Err(source) => Err(
                ApplicationError::ParsingFormat { format: self.params.format, source },
            ),
        }
    }

    /// Takes the format, or why there is none of that name.
    pub fn chosen<F>(self, format: Result<OutputFormat<F>, String>) -> (step: Result<
        CheckName<F, C>,
        ApplicationError,
    >)
        ensures
            step == self.after(format),
    {
        match format {
            Ok(format) => Ok(
                CheckName {
                    d: self.params.d,
                    q: self.params.q,
                    format,
                    span_ctx: self.span_ctx,
                },
            ),
            Err(source) => Err(
                ApplicationError::ParsingFormat { format: self.params.format, source },
            ),
        }
    }
}

impl<F, C> CheckName<F, C> {
    /// What follows the check of the name.
    pub open spec fn after(self, valid: Result<(), String>) -> Result<
        OpenDatabase<F, C>,
        ApplicationError,
    > {
        match valid {
            Ok(_) => Ok(
                OpenDatabase {
                    db_name: self.d,
                    q: self.q,
                    format: self.format,
                    span_ctx: self.span_ctx,
                },
            ),
            Err(source) => Err(ApplicationError::DatabaseNameError { source }),
        }
    }

    /// Takes whether the name is one of a database.
    pub fn checked(self, valid: Result<(), String>) -> (step: Result<
        OpenDatabase<F, C>,
        ApplicationError,
    >)
        ensures
            step == self.after(valid),
    {
        match valid {
            Ok(()) => Ok(
                OpenDatabase {
                    db_name: self.d,
                    q: self.q,
                    format: self.format,
                    span_ctx: self.span_ctx,
                },
            ),
            Err(source) => Err(ApplicationError::DatabaseNameError { source }),
        }
    }
}

impl<F, C> OpenDatabase<F, C> {
    /// What follows the lookup of the database, or its failure.
    pub open spec fn after<D>(self, opened: Result<D, ServerError>) -> Result<
        MakeContext<F, D, C>,
        ApplicationError,
    > {
        match opened {
            Ok(db) => Ok(
                MakeContext {
                    db,
                    span_ctx: self.span_ctx,
                    db_name: self.db_name,
                    q: self.q,
                    format: self.format,
                },
            ),
            Err(e) => Err(ApplicationError::of_server_error(e)),
        }
    }

    /// Takes the database, or why it is not there.
    pub fn opened<D>(self, opened: Result<D, ServerError>) -> (step: Result<
        MakeContext<F, D, C>,
        ApplicationError,
    >)
        ensures
            step == self.after(opened),
    {
        match opened {
            Ok(db) => Ok(
                MakeContext {
                    db,
                    span_ctx: self.span_ctx,
                    db_name: self.db_name,
                    q: self.q,
                    format: self.format,
                },
            ),
            Err(e) => Err(ApplicationError::from(e)),
        }
    }
}

impl<F, D, C> MakeContext<F, D, C> {
    /// What follows the query context.
    pub open spec fn after<X>(self, context: X) -> PlanQuery<F, X> {
        PlanQuery { context, db_name: self.db_name, q: self.q, format: self.format }
    }

    /// Takes the query context.
    pub fn made<X>(self, context: X) -> (step: PlanQuery<F, X>)
        ensures
            step == self.after(context),
    {
        PlanQuery { context, db_name: self.db_name, q: self.q, format: self.format }
    }
}

impl<F, X> PlanQuery<F, X> {
    /// What follows the plan, or the failure to make one.
    pub open spec fn after<P>(self, planned: Result<P, String>) -> Result<
        RunQuery<F, X, P>,
        ApplicationError,
    > {
        match planned {
            Ok(plan) => Ok(
                RunQuery {
                    context: self.context,
                    plan,
                    db_name: self.db_name,
                    q: self.q,
                    format: self.format,
                },
            ),
            Err(source) => Err(ApplicationError::Planning { source }),
        }
    }

    /// Takes the plan, or why the query could not be planned.
    pub fn planned<P>(self, planned: Result<P, String>) -> (step: Result<
        RunQuery<F, X, P>,
        ApplicationError,
    >)
        ensures
            step == self.after(planned),
    {
        match planned {
            Ok(plan) => Ok(
                RunQuery {
                    context: self.context,
                    plan,
                    db_name: self.db_name,
                    q: self.q,
                    format: self.format,
                },
            ),
            Err(source) => Err(ApplicationError::Planning { source }),
        }
    }
}

impl<F, X, P> RunQuery<F, X, P> {
    /// What follows the results, or the failure to collect them.
    pub open spec fn after<B>(self, collected: Result<B, String>) -> Result<
        FormatResults<F, B>,
        ApplicationError,
    > {
        match collected {
            Ok(batches) => Ok(FormatResults { batches, q: self.q, format: self.format }),
            Err(source) => Err(ApplicationError::Query { db_name: self.db_name, source }),
        }
    }

    /// Takes the results, or why they could not be collected.
    pub fn collected<B>(self, collected: Result<B, String>) -> (step: Result<
        FormatResults<F, B>,
        ApplicationError,
    >)
        ensures
            step == self.after(collected),
    {
        match collected {
            Ok(batches) => Ok(FormatResults { batches, q: self.q, format: self.format }),
            Err(source) => Err(ApplicationError::Query { db_name: self.db_name, source }),
        }
    }
}

impl<F, B> FormatResults<F, B> {
    /// `response` is what the formatted results lead to, or the failure to
    /// format them.
    pub open spec fn responds(
        self,
        results: Result<String, String>,
        response: Result<Response, ApplicationError>,
    ) -> bool {
        match results {
            Err(source) => response == Err::<Response, ApplicationError>(
                ApplicationError::FormattingResult {
                    q: self.q,
                    format: self.format.debug,
                    source,
                },
            ),
            Ok(text) => if valid_header_value(self.format.content_type@) {
                &&& response matches Ok(r)
                &&& r.status == 200
                &&& r.content_type is Some
                &&& r.content_type->0@ == self.format.content_type@
                &&& r.body == text
            } else {
                &&& response matches Err(ApplicationError::CreatingResponse { source })
                &&& source@ == "failed to parse header value"@
            },
        }
    }

    /// Takes the formatted results, or why they could not be formatted.
    pub fn formatted(self, results: Result<String, String>) -> (response: Result<
        Response,
        ApplicationError,
    >)
        ensures
            self.responds(results, response),
    {
        match results {
            Ok(results) => match build_response(&self.format.content_type, results) {
                Ok(response) => Ok(response),
                Err(source) => Err(ApplicationError::CreatingResponse { source }),
            },
            Err(source) => Err(
                ApplicationError::FormattingResult { q: self.q, format: self.format.debug, source },
            ),
        }
    }
}

} // verus!
