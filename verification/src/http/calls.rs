//! What the calls of this module do, in terms of what goes into them and what
//! comes out.
//!
//! Each law is about the calls themselves: where a call with these arguments
//! gives this result, the result is tied to the arguments.

use vstd::prelude::*;
use vstd::utf8::*;

use crate::http::delete::{
    utf8_error_text, BuildPredicate, DeleteProgress, DeleteTable, MapBucket,
    OpenDatabase as OpenForDelete, ParseBody, ParsedDelete, ReadBody, SelectTables,
};
use crate::http::error::{
    ApiErrorCode, ApplicationError, Reply, ReplyKind, RouteFailure, ServerError,
};
use crate::http::laws::{collecting_reads_each_field_once, given_once, is_given};
use crate::http::params::{
    collect_fields, collected, default_format, field_of, lemma_collected_error, pairs_view,
    query_fields, query_params, urlencoded_pairs, write_fields, write_info, Field, QueryParams,
    WriteInfo,
};
use crate::http::query::{
    CheckName, ChooseFormat, FormatResults, MakeContext, OpenDatabase, OutputFormat, PlanQuery,
    RunQuery,
};
use crate::http::route::{route_request, Request, RequestOrResponse, Response, Route};
use crate::http::write::{write_outcome, InnerWriteError};
use crate::trace::ctx::SpanContext;

verus! {

/// The pair at this position goes by one of the two names.
pub open spec fn named(
    pairs: Seq<(Seq<char>, Seq<char>)>,
    name: Seq<char>,
    alias: Seq<char>,
    i: int,
) -> bool {
    0 <= i < pairs.len() && (pairs[i].0 == name || pairs[i].0 == alias)
}

/// Some pair goes by one of the two names.
pub open spec fn given(
    pairs: Seq<(Seq<char>, Seq<char>)>,
    name: Seq<char>,
    alias: Seq<char>,
) -> bool {
    exists|i: int| #[trigger] named(pairs, name, alias, i)
}

/// The pair at this position goes by one of the two names, as one before it
/// does.
pub open spec fn repeated(
    pairs: Seq<(Seq<char>, Seq<char>)>,
    name: Seq<char>,
    alias: Seq<char>,
    j: int,
) -> bool {
    &&& named(pairs, name, alias, j)
    &&& exists|i: int| i < j && #[trigger] named(pairs, name, alias, i)
}

/// The pairs name an organization and a bucket once each, and these are they.
pub open spec fn gives_bucket(
    pairs: Seq<(Seq<char>, Seq<char>)>,
    org: Seq<char>,
    bucket: Seq<char>,
) -> bool {
    &&& given(pairs, "org"@, "org"@)
    &&& given(pairs, "bucket"@, "bucket"@)
    &&& forall|j: int| !#[trigger] repeated(pairs, "org"@, "org"@, j)
    &&& forall|j: int| !#[trigger] repeated(pairs, "bucket"@, "bucket"@, j)
    &&& forall|i: int| #[trigger] named(pairs, "org"@, "org"@, i) ==> org == pairs[i].1
    &&& forall|i: int| #[trigger] named(pairs, "bucket"@, "bucket"@, i) ==> bucket == pairs[i].1
}

/// The pair at this position names an organization or a bucket again.
pub open spec fn repeats_bucket(pairs: Seq<(Seq<char>, Seq<char>)>, j: int) -> bool {
    repeated(pairs, "org"@, "org"@, j) || repeated(pairs, "bucket"@, "bucket"@, j)
}

/// The pairs do not name an organization and a bucket once each, and `text`
/// tells why: the first that is given again, or else the first that is missing.
pub open spec fn refuses_bucket(pairs: Seq<(Seq<char>, Seq<char>)>, text: Seq<char>) -> bool {
    let once = forall|j: int| !#[trigger] repeats_bucket(pairs, j);
    &&& once ==> !(given(pairs, "org"@, "org"@) && given(pairs, "bucket"@, "bucket"@))
    &&& once && !given(pairs, "org"@, "org"@) ==> text == "missing field `"@ + "org"@ + "`"@
    &&& once && given(pairs, "org"@, "org"@) ==> text == "missing field `"@ + "bucket"@ + "`"@
    &&& forall|j: int| #[trigger]
        repeats_bucket(pairs, j) && (forall|k: int|
            k < j ==> !#[trigger] repeats_bucket(pairs, k)) ==> text == "duplicate field `"@
            + pairs[j].0 + "`"@
}

/// The pairs give a database and a query text once each and a format once at
/// most, and these are they. Where they give no format it is `pretty`.
pub open spec fn gives_query(
    pairs: Seq<(Seq<char>, Seq<char>)>,
    d: Seq<char>,
    q: Seq<char>,
    format: Seq<char>,
) -> bool {
    &&& given(pairs, "d"@, "database"@)
    &&& given(pairs, "q"@, "query"@)
    &&& forall|j: int| !#[trigger] repeated(pairs, "d"@, "database"@, j)
    &&& forall|j: int| !#[trigger] repeated(pairs, "q"@, "query"@, j)
    &&& forall|j: int| !#[trigger] repeated(pairs, "format"@, "format"@, j)
    &&& forall|i: int| #[trigger] named(pairs, "d"@, "database"@, i) ==> d == pairs[i].1
    &&& forall|i: int| #[trigger] named(pairs, "q"@, "query"@, i) ==> q == pairs[i].1
    &&& forall|i: int| #[trigger] named(pairs, "format"@, "format"@, i) ==> format == pairs[i].1
    &&& !given(pairs, "format"@, "format"@) ==> format == "pretty"@
}

/// The pair at this position gives a database, a query text or a format again.
pub open spec fn repeats_query(pairs: Seq<(Seq<char>, Seq<char>)>, j: int) -> bool {
    ||| repeated(pairs, "d"@, "database"@, j)
    ||| repeated(pairs, "q"@, "query"@, j)
    ||| repeated(pairs, "format"@, "format"@, j)
}

/// The pairs do not give the parameters of a query, and `text` tells why: the
/// first that is given again, or else the first that is missing.
pub open spec fn refuses_query(pairs: Seq<(Seq<char>, Seq<char>)>, text: Seq<char>) -> bool {
    let once = forall|j: int| !#[trigger] repeats_query(pairs, j);
    &&& once ==> !(given(pairs, "d"@, "database"@) && given(pairs, "q"@, "query"@))
    &&& once && !given(pairs, "d"@, "database"@) ==> text == "missing field `"@ + "d"@ + "`"@
    &&& once && given(pairs, "d"@, "database"@) ==> text == "missing field `"@ + "q"@ + "`"@
    &&& forall|j: int| #[trigger]
        repeats_query(pairs, j) && (forall|k: int| k < j ==> !#[trigger] repeats_query(pairs, k))
            ==> text == "duplicate field `"@ + (if pairs[j].0 == "d"@ || pairs[j].0
            == "database"@ {
            "d"@
        } else if pairs[j].0 == "q"@ || pairs[j].0 == "query"@ {
            "q"@
        } else {
            "format"@
        }) + "`"@
}

/// The first pair that gives a field again is what collecting fails at.
proof fn lemma_fails_at_first_repeat(
    fields: Seq<Field>,
    pairs: Seq<(Seq<char>, Seq<char>)>,
    i: int,
    j: int,
    field: int,
)
    requires
        0 <= i < j < pairs.len(),
        field_of(fields, pairs[i].0) == Some(field),
        field_of(fields, pairs[j].0) == Some(field),
        given_once(fields, pairs.take(j)),
    ensures
        collected(fields, pairs) == Err::<Map<int, Seq<char>>, int>(field),
{
    let before = pairs.take(j);
    collecting_reads_each_field_once(fields, before);
    assert(before[i] == pairs[i]);
    assert(is_given(fields, before, field));
    let upto = pairs.take(j + 1);
    assert(upto.drop_last() =~= before);
    assert(upto.last() == pairs[j]);
    assert(collected(fields, before)->Ok_0.contains_key(field));
    lemma_collected_error(fields, pairs, j + 1);
}

/// The names that the fields of a bucket go by.
proof fn lemma_write_names()
    ensures
        write_fields().len() == 2,
        write_fields()[0].name@ == "org"@,
        write_fields()[1].name@ == "bucket"@,
        "org"@ != "bucket"@,
        forall|key: Seq<char>| #[trigger]
            field_of(write_fields(), key) == if key == "org"@ {
                Some(0int)
            } else if key == "bucket"@ {
                Some(1int)
            } else {
                None
            },
{
    let fields = write_fields();
    let one = fields.drop_last();
    assert(one.drop_last().len() == 0);
    assert(fields.last() == fields[1] && one.last() == fields[0]);
    reveal_strlit("org");
    reveal_strlit("bucket");
    assert("org"@.len() == 3 && "bucket"@.len() == 6);
    reveal_with_fuel(field_of, 4);
}

/// The names that the fields of a query go by.
proof fn lemma_query_names()
    ensures
        query_fields().len() == 3,
        query_fields()[0].name@ == "d"@,
        query_fields()[1].name@ == "q"@,
        query_fields()[2].name@ == "format"@,
        "d"@ != "q"@ && "d"@ != "query"@ && "d"@ != "format"@,
        "database"@ != "q"@ && "database"@ != "query"@ && "database"@ != "format"@,
        "format"@ != "q"@ && "format"@ != "query"@,
        forall|key: Seq<char>| #[trigger]
            field_of(query_fields(), key) == if key == "d"@ || key == "database"@ {
                Some(0int)
            } else if key == "q"@ || key == "query"@ {
                Some(1int)
            } else if key == "format"@ {
                Some(2int)
            } else {
                None
            },
{
    let fields = query_fields();
    let two = fields.drop_last();
    let one = two.drop_last();
    assert(one.drop_last().len() == 0);
    assert(fields.last() == fields[2] && two.last() == fields[1] && one.last() == fields[0]);
    reveal_strlit("d");
    reveal_strlit("database");
    reveal_strlit("q");
    reveal_strlit("query");
    reveal_strlit("format");
    assert("d"@[0] != "q"@[0]);
    assert("d"@.len() == 1 && "q"@.len() == 1 && "query"@.len() == 5);
    assert("format"@.len() == 6 && "database"@.len() == 8);
    reveal_with_fuel(field_of, 5);
}

/// Whether a field is given, and given again, by the names that it goes by.
proof fn lemma_given_by_name(
    fields: Seq<Field>,
    pairs: Seq<(Seq<char>, Seq<char>)>,
    field: int,
    name: Seq<char>,
    alias: Seq<char>,
)
    requires
        forall|key: Seq<char>|
            (#[trigger] field_of(fields, key) == Some(field)) == (key == name || key == alias),
    ensures
        is_given(fields, pairs, field) == given(pairs, name, alias),
        forall|i: int|
            0 <= i < pairs.len() ==> (#[trigger] named(pairs, name, alias, i)) == (field_of(
                fields,
                pairs[i].0,
            ) == Some(field)),
        given_once(fields, pairs) ==> forall|j: int| !#[trigger] repeated(pairs, name, alias, j),
{
    if is_given(fields, pairs, field) {
        let i = choose|i: int|
            0 <= i < pairs.len() && field_of(fields, (#[trigger] pairs[i]).0) == Some(field);
        assert(named(pairs, name, alias, i));
    }
    if given(pairs, name, alias) {
        let i = choose|i: int| #[trigger] named(pairs, name, alias, i);
        assert(field_of(fields, pairs[i].0) == Some(field));
    }
    if given_once(fields, pairs) {
        assert forall|j: int| !#[trigger] repeated(pairs, name, alias, j) by {
            if repeated(pairs, name, alias, j) {
                let i = choose|i: int| i < j && #[trigger] named(pairs, name, alias, i);
                assert(field_of(fields, pairs[i].0) == Some(field));
                assert(field_of(fields, pairs[j].0) == Some(field));
            }
        }
    }
}

/// What `write_info` reads from pairs, by their names and values alone.
proof fn lemma_write_info(pairs: Seq<(Seq<char>, Seq<char>)>)
    ensures
        match write_info(pairs) {
            Ok(info) => gives_bucket(pairs, info.org, info.bucket),
            Err(text) => refuses_bucket(pairs, text),
        },
{
    let fields = write_fields();
    lemma_write_names();
    collecting_reads_each_field_once(fields, pairs);
    lemma_given_by_name(fields, pairs, 0, "org"@, "org"@);
    lemma_given_by_name(fields, pairs, 1, "bucket"@, "bucket"@);
    if given_once(fields, pairs) {
        assert(forall|j: int| !#[trigger] repeats_bucket(pairs, j));
        let values = collected(fields, pairs)->Ok_0;
        assert(values.contains_key(0) <==> is_given(fields, pairs, 0));
        assert(values.contains_key(1) <==> is_given(fields, pairs, 1));
        assert forall|i: int| #[trigger] named(pairs, "org"@, "org"@, i) implies values[0]
            == pairs[i].1 by {
            assert(field_of(fields, pairs[i].0) == Some(0int));
        }
        assert forall|i: int| #[trigger] named(pairs, "bucket"@, "bucket"@, i) implies values[1]
            == pairs[i].1 by {
            assert(field_of(fields, pairs[i].0) == Some(1int));
        }
    } else {
        let (i, j) = choose|i: int, j: int|
            0 <= i < j < pairs.len() && field_of(fields, (#[trigger] pairs[i]).0) is Some
                && field_of(fields, pairs[i].0) == field_of(fields, (#[trigger] pairs[j]).0);
        if field_of(fields, pairs[i].0) == Some(0int) {
            assert(named(pairs, "org"@, "org"@, i) && named(pairs, "org"@, "org"@, j));
        } else {
            assert(named(pairs, "bucket"@, "bucket"@, i));
            assert(named(pairs, "bucket"@, "bucket"@, j));
        }
        assert(repeats_bucket(pairs, j));
        assert forall|j: int| #[trigger]
            repeats_bucket(pairs, j) && (forall|k: int|
                k < j ==> !#[trigger] repeats_bucket(
                    pairs,
                    k,
                )) implies write_info(pairs)->Err_0 == "duplicate field `"@ + pairs[j].0
            + "`"@ by {
            let name = pairs[j].0;
            let i = choose|i: int| i < j && #[trigger] named(pairs, name, name, i);
            assert(pairs[i].0 == name);
            let before = pairs.take(j);
            assert forall|a: int, b: int|
                0 <= a < b < before.len() && field_of(fields, (#[trigger] before[a]).0)
                    is Some implies field_of(fields, before[a].0) != field_of(
                fields,
                (#[trigger] before[b]).0,
            ) by {
                assert(before[a] == pairs[a] && before[b] == pairs[b]);
                if field_of(fields, before[a].0) == field_of(fields, before[b].0) {
                    assert(named(pairs, pairs[a].0, pairs[a].0, a));
                    assert(named(pairs, pairs[a].0, pairs[a].0, b));
                    assert(repeats_bucket(pairs, b));
                }
            }
            let field = field_of(fields, name)->0;
            lemma_fails_at_first_repeat(fields, pairs, i, j, field);
        }
    }
}

/// What `query_params` reads from pairs, by their names and values alone.
proof fn lemma_query_params(pairs: Seq<(Seq<char>, Seq<char>)>)
    ensures
        match query_params(pairs) {
            Ok(params) => gives_query(pairs, params.d, params.q, params.format),
            Err(text) => refuses_query(pairs, text),
        },
{
    let fields = query_fields();
    lemma_query_names();
    collecting_reads_each_field_once(fields, pairs);
    lemma_given_by_name(fields, pairs, 0, "d"@, "database"@);
    lemma_given_by_name(fields, pairs, 1, "q"@, "query"@);
    lemma_given_by_name(fields, pairs, 2, "format"@, "format"@);
    if given_once(fields, pairs) {
        assert(forall|j: int| !#[trigger] repeats_query(pairs, j));
        let values = collected(fields, pairs)->Ok_0;
        assert(values.contains_key(0) <==> is_given(fields, pairs, 0));
        assert(values.contains_key(1) <==> is_given(fields, pairs, 1));
        assert(values.contains_key(2) <==> is_given(fields, pairs, 2));
        assert forall|i: int| #[trigger] named(pairs, "d"@, "database"@, i) implies values[0]
            == pairs[i].1 by {
            assert(field_of(fields, pairs[i].0) == Some(0int));
        }
        assert forall|i: int| #[trigger] named(pairs, "q"@, "query"@, i) implies values[1]
            == pairs[i].1 by {
            assert(field_of(fields, pairs[i].0) == Some(1int));
        }
        assert forall|i: int| #[trigger] named(pairs, "format"@, "format"@, i) implies values[2]
            == pairs[i].1 && values.contains_key(2) by {
            assert(field_of(fields, pairs[i].0) == Some(2int));
        }
    } else {
        let (i, j) = choose|i: int, j: int|
            0 <= i < j < pairs.len() && field_of(fields, (#[trigger] pairs[i]).0) is Some
                && field_of(fields, pairs[i].0) == field_of(fields, (#[trigger] pairs[j]).0);
        lemma_repeats_query(pairs, i, j);
        assert forall|j: int| #[trigger]
            repeats_query(pairs, j) && (forall|k: int|
                k < j ==> !#[trigger] repeats_query(
                    pairs,
                    k,
                )) implies query_params(pairs)->Err_0 == "duplicate field `"@ + (if pairs[j].0
            == "d"@ || pairs[j].0 == "database"@ {
            "d"@
        } else if pairs[j].0 == "q"@ || pairs[j].0 == "query"@ {
            "q"@
        } else {
            "format"@
        }) + "`"@ by {
            let field = field_of(fields, pairs[j].0)->0;
            let i = if field == 0 {
                choose|i: int| i < j && #[trigger] named(pairs, "d"@, "database"@, i)
            } else if field == 1 {
                choose|i: int| i < j && #[trigger] named(pairs, "q"@, "query"@, i)
            } else {
                choose|i: int| i < j && #[trigger] named(pairs, "format"@, "format"@, i)
            };
            assert(field_of(fields, pairs[i].0) == Some(field));
            let before = pairs.take(j);
            assert forall|a: int, b: int|
                0 <= a < b < before.len() && field_of(fields, (#[trigger] before[a]).0)
                    is Some implies field_of(fields, before[a].0) != field_of(
                fields,
                (#[trigger] before[b]).0,
            ) by {
                assert(before[a] == pairs[a] && before[b] == pairs[b]);
                if field_of(fields, before[a].0) == field_of(fields, before[b].0) {
                    lemma_repeats_query(pairs, a, b);
                }
            }
            lemma_fails_at_first_repeat(fields, pairs, i, j, field);
        }
    }
}

/// A pair that goes by a field of a query, as one before it does, repeats it.
proof fn lemma_repeats_query(pairs: Seq<(Seq<char>, Seq<char>)>, i: int, j: int)
    requires
        0 <= i < j < pairs.len(),
        field_of(query_fields(), pairs[i].0) is Some,
        field_of(query_fields(), pairs[i].0) == field_of(query_fields(), pairs[j].0),
    ensures
        repeats_query(pairs, j),
{
    lemma_query_names();
    let field = field_of(query_fields(), pairs[i].0)->0;
    if field == 0 {
        assert(named(pairs, "d"@, "database"@, i) && named(pairs, "d"@, "database"@, j));
        assert(repeated(pairs, "d"@, "database"@, j));
    } else if field == 1 {
        assert(named(pairs, "q"@, "query"@, i) && named(pairs, "q"@, "query"@, j));
        assert(repeated(pairs, "q"@, "query"@, j));
    } else {
        assert(named(pairs, "format"@, "format"@, i) && named(pairs, "format"@, "format"@, j));
        assert(repeated(pairs, "format"@, "format"@, j));
    }
}

/// The names and values of pairs of strings.
pub open spec fn texts(pairs: Seq<(String, String)>) -> Seq<(Seq<char>, Seq<char>)> {
    Seq::new(pairs.len(), |i: int| (pairs[i].0@, pairs[i].1@))
}

/// The organization of a bucket is the value that is paired with the name `org`,
/// and the bucket the one that is paired with `bucket`, whatever these are. Both
/// have to be given, once.
pub proof fn a_bucket_is_read_by_its_names(
    pairs: &Vec<(String, String)>,
    query: &str,
    of_pairs: Result<WriteInfo, String>,
    of_query: Result<WriteInfo, String>,
)
    requires
        call_ensures(WriteInfo::from_pairs, (pairs,), of_pairs),
        call_ensures(WriteInfo::parse, (query,), of_query),
    ensures
        match of_pairs {
            Ok(info) => gives_bucket(texts(pairs@), info.org@, info.bucket@),
            Err(e) => refuses_bucket(texts(pairs@), e@),
        },
        match of_query {
            Ok(info) => gives_bucket(urlencoded_pairs(query@), info.org@, info.bucket@),
            Err(e) => refuses_bucket(urlencoded_pairs(query@), e@),
        },
{
    assert(pairs_view(pairs@) =~= texts(pairs@));
    lemma_write_info(texts(pairs@));
    lemma_write_info(urlencoded_pairs(query@));
}

/// The parameters of a query are the values that are paired with their names:
/// the database with `d` or `database`, the text with `q` or `query`, the format
/// with `format`. The format is `pretty` where none is given.
pub proof fn parameters_are_read_by_their_names(
    pairs: &Vec<(String, String)>,
    query: &str,
    of_pairs: Result<QueryParams, String>,
    of_query: Result<QueryParams, String>,
    default: String,
)
    requires
        call_ensures(QueryParams::from_pairs, (pairs,), of_pairs),
        call_ensures(QueryParams::parse, (query,), of_query),
        call_ensures(default_format, (), default),
    ensures
        match of_pairs {
            Ok(params) => gives_query(texts(pairs@), params.d@, params.q@, params.format@),
            Err(e) => refuses_query(texts(pairs@), e@),
        },
        match of_query {
            Ok(params) => gives_query(
                urlencoded_pairs(query@),
                params.d@,
                params.q@,
                params.format@,
            ),
            Err(e) => refuses_query(urlencoded_pairs(query@), e@),
        },
        default@ == "pretty"@,
{
    assert(pairs_view(pairs@) =~= texts(pairs@));
    lemma_query_params(texts(pairs@));
    lemma_query_params(urlencoded_pairs(query@));
}

/// A delete begins exactly if the query string names an organization and a
/// bucket. It begins with these: the organization is the value paired with
/// `org`, the bucket the value paired with `bucket`. The limit on the size of
/// the request is kept.
pub proof fn a_delete_begins_with_its_bucket(
    query: Option<String>,
    max_request_size: usize,
    step: Result<MapBucket, ApplicationError>,
)
    requires
        call_ensures(MapBucket::begin, (query, max_request_size), step),
    ensures
        query is None ==> step == Err::<MapBucket, ApplicationError>(
            ApplicationError::ExpectedQueryString {  },
        ),
        query matches Some(q) ==> match step {
            Ok(next) => {
                &&& gives_bucket(urlencoded_pairs(q@), next.org@, next.bucket@)
                &&& next.max_request_size == max_request_size
            },
            Err(ApplicationError::InvalidQueryString { query_string, source }) => {
                &&& query_string@ == q@
                &&& refuses_bucket(urlencoded_pairs(q@), source@)
            },
            Err(_) => false,
        },
{
    if query is Some {
        lemma_write_info(urlencoded_pairs(query->0@));
    }
}

/// A query begins exactly if the query string gives its parameters. It begins
/// with the database, the text and the format that the query string gives, and
/// with the span context of the request.
pub proof fn a_query_begins_with_its_parameters<C>(
    query: Option<String>,
    span_ctx: Option<SpanContext<C>>,
    step: Result<ChooseFormat<C>, ApplicationError>,
)
    requires
        call_ensures(ChooseFormat::<C>::begin, (query, span_ctx), step),
    ensures
        query is None ==> step == Err::<ChooseFormat<C>, ApplicationError>(
            ApplicationError::ExpectedQueryString {  },
        ),
        query matches Some(q) ==> match step {
            Ok(next) => {
                &&& gives_query(
                    urlencoded_pairs(q@),
                    next.params.d@,
                    next.params.q@,
                    next.params.format@,
                )
                &&& next.span_ctx == span_ctx
            },
            Err(ApplicationError::InvalidQueryString { query_string, source }) => {
                &&& query_string@ == q@
                &&& refuses_query(urlencoded_pairs(q@), source@)
            },
            Err(_) => false,
        },
{
    if query is Some {
        lemma_query_params(urlencoded_pairs(query->0@));
    }
}

/// The field at this position is the first that the name is one of.
pub open spec fn is_field_of(fields: Seq<Field>, key: Seq<char>, k: int) -> bool {
    &&& 0 <= k < fields.len()
    &&& key == fields[k].name@ || key == fields[k].alias@
    &&& forall|j: int|
        0 <= j < k ==> key != (#[trigger] fields[j]).name@ && key != fields[j].alias@
}

/// `field_of` finds the first field that a name is one of.
proof fn lemma_field_of(fields: Seq<Field>, key: Seq<char>)
    ensures
        forall|k: int| #[trigger]
            is_field_of(fields, key, k) <==> field_of(fields, key) == Some(k),
    decreases fields.len(),
{
    if fields.len() > 0 {
        let init = fields.drop_last();
        lemma_field_of(init, key);
        assert forall|k: int| #[trigger] is_field_of(fields, key, k) <==> field_of(fields, key)
            == Some(k) by {
            assert forall|j: int| 0 <= j < init.len() implies #[trigger] fields[j] == init[j] by {}
            assert(is_field_of(fields, key, k) && k < init.len() ==> is_field_of(init, key, k));
            assert(is_field_of(init, key, k) ==> is_field_of(fields, key, k));
            if field_of(init, key) is Some {
                assert(is_field_of(init, key, field_of(init, key)->0));
            }
            if field_of(fields, key) == Some(k) && k == init.len() {
                assert forall|j: int| 0 <= j < k implies key != (#[trigger] fields[j]).name@ && key
                    != fields[j].alias@ by {
                    lemma_no_field_of(init, key, j);
                }
            }
        }
    }
}

/// Where no field is found, the name is one of none.
proof fn lemma_no_field_of(fields: Seq<Field>, key: Seq<char>, j: int)
    requires
        field_of(fields, key) is None,
        0 <= j < fields.len(),
    ensures
        key != fields[j].name@,
        key != fields[j].alias@,
    decreases fields.len(),
{
    if j < fields.len() - 1 {
        lemma_no_field_of(fields.drop_last(), key, j);
    }
}

/// Collecting gives each field the value of the pair that goes by one of its
/// names, and no value where there is none. It fails exactly if some field is
/// given twice, and then names the first for which that comes up.
pub proof fn fields_have_the_values_of_their_pairs(
    fields: &Vec<Field>,
    pairs: &Vec<(String, String)>,
    values: Result<Vec<Option<String>>, usize>,
)
    requires
        call_ensures(collect_fields, (fields, pairs), values),
    ensures
        match values {
            Ok(v) => {
                &&& v.len() == fields.len()
                &&& forall|i: int, k: int|
                    0 <= i < pairs.len() && #[trigger] is_field_of(
                        fields@,
                        pairs@[i].0@,
                        k,
                    ) ==> v@[k] is Some && v@[k]->0@ == pairs@[i].1@
                &&& forall|k: int|
                    0 <= k < v.len() && (#[trigger] v@[k]) is Some ==> exists|i: int|
                        0 <= i < pairs.len() && #[trigger] is_field_of(
                            fields@,
                            pairs@[i].0@,
                            k,
                        )
                &&& forall|i: int, j: int, k: int|
                    0 <= i < j < pairs.len() && #[trigger] is_field_of(
                        fields@,
                        pairs@[i].0@,
                        k,
                    ) ==> !#[trigger] is_field_of(fields@, pairs@[j].0@, k)
            },
            Err(k) => exists|i: int, j: int|
                {
                    &&& 0 <= i < j < pairs.len()
                    &&& #[trigger] is_field_of(fields@, pairs@[i].0@, k as int)
                    &&& #[trigger] is_field_of(fields@, pairs@[j].0@, k as int)
                    &&& forall|a: int, b: int, m: int|
                        0 <= a < b < j && #[trigger] is_field_of(fields@, pairs@[a].0@, m)
                            ==> !#[trigger] is_field_of(fields@, pairs@[b].0@, m)
                },
        },
{
    let view = pairs_view(pairs@);
    assert(view =~= texts(pairs@));
    collecting_reads_each_field_once(fields@, view);
    assert forall|i: int, k: int| 0 <= i < view.len() implies (#[trigger] is_field_of(
        fields@,
        pairs@[i].0@,
        k,
    )) == (field_of(fields@, view[i].0) == Some(k)) by {
        lemma_field_of(fields@, view[i].0);
    }
    match values {
        Ok(v) => {
            let expected = collected(fields@, view)->Ok_0;
            assert forall|i: int, k: int|
                0 <= i < pairs.len() && #[trigger] is_field_of(
                    fields@,
                    pairs@[i].0@,
                    k,
                ) implies v@[k] is Some && v@[k]->0@ == pairs@[i].1@ by {
                assert(field_of(fields@, view[i].0) == Some(k));
                assert(is_given(fields@, view, k));
                assert(expected.contains_key(k));
            }
            assert forall|k: int|
                0 <= k < v.len() && (#[trigger] v@[k]) is Some implies exists|i: int|
                0 <= i < pairs.len() && #[trigger] is_field_of(fields@, pairs@[i].0@, k) by {
                assert(expected.contains_key(k));
                let i = choose|i: int|
                    0 <= i < view.len() && field_of(fields@, (#[trigger] view[i]).0) == Some(k);
                assert(is_field_of(fields@, pairs@[i].0@, k));
            }
            assert forall|i: int, j: int, k: int|
                0 <= i < j < pairs.len() && #[trigger] is_field_of(
                    fields@,
                    pairs@[i].0@,
                    k,
                ) implies !#[trigger] is_field_of(fields@, pairs@[j].0@, k) by {
                assert(field_of(fields@, view[i].0) == Some(k));
                assert(field_of(fields@, view[j].0) != Some(k));
            }
        },
        Err(k) => {
            let (i, j) = lemma_error_names_a_repeat(fields@, view, k as int);
            let before = view.take(j);
            assert forall|a: int, b: int, m: int|
                0 <= a < b < j && #[trigger] is_field_of(
                    fields@,
                    pairs@[a].0@,
                    m,
                ) implies !#[trigger] is_field_of(fields@, pairs@[b].0@, m) by {
                assert(before[a] == view[a] && before[b] == view[b]);
                assert(field_of(fields@, before[a].0) == Some(m));
                assert(field_of(fields@, before[b].0) != Some(m));
            }
            assert(is_field_of(fields@, pairs@[i].0@, k as int));
            assert(is_field_of(fields@, pairs@[j].0@, k as int));
        },
    }
}

/// The field that collecting fails at is given by two pairs, and no field is
/// given twice before the second of them.
proof fn lemma_error_names_a_repeat(
    fields: Seq<Field>,
    pairs: Seq<(Seq<char>, Seq<char>)>,
    field: int,
) -> (at: (int, int))
    requires
        collected(fields, pairs) == Err::<Map<int, Seq<char>>, int>(field),
    ensures
        0 <= at.0 < at.1 < pairs.len(),
        field_of(fields, pairs[at.0].0) == Some(field),
        field_of(fields, pairs[at.1].0) == Some(field),
        given_once(fields, pairs.take(at.1)),
    decreases pairs.len(),
{
    let init = pairs.drop_last();
    match collected(fields, init) {
        Err(_) => {
            let at = lemma_error_names_a_repeat(fields, init, field);
            assert(init[at.0] == pairs[at.0] && init[at.1] == pairs[at.1]);
            assert(init.take(at.1) =~= pairs.take(at.1));
            at
        },
        Ok(values) => {
            collecting_reads_each_field_once(fields, init);
            assert(values.contains_key(field));
            let i = choose|i: int|
                0 <= i < init.len() && field_of(fields, (#[trigger] init[i]).0) == Some(field);
            assert(init[i] == pairs[i]);
            assert(pairs.take(pairs.len() - 1) =~= init);
            (i, pairs.len() - 1)
        },
    }
}

/// The name of the database of a bucket is what the body is read for, with the
/// limit that the delete began with. That there is none is an internal error,
/// which tells the reason.
pub proof fn a_bucket_leads_to_its_database(
    step: MapBucket,
    database: Result<String, String>,
    next: Result<ReadBody, ApplicationError>,
)
    requires
        call_ensures(MapBucket::mapped, (step, database), next),
    ensures
        next is Ok <==> database is Ok,
        next matches Ok(n) ==> {
            &&& n.db_name == database->Ok_0
            &&& n.max_request_size == step.max_request_size
        },
        next matches Err(e) ==> e == (ApplicationError::BucketMappingError {
            source: database->Err_0,
        }),
{
}

/// The body goes on to be parsed exactly if it could be read and is text: it is
/// the text whose encoding was read. A failure to read it is passed on.
pub proof fn a_body_is_read_as_text(
    step: ReadBody,
    body: Result<Vec<u8>, RouteFailure>,
    next: Result<ParseBody, ApplicationError>,
)
    requires
        call_ensures(ReadBody::read, (step, body), next),
    ensures
        next is Ok <==> body is Ok && valid_utf8(body->Ok_0@),
        next matches Ok(n) ==> {
            &&& n.db_name == step.db_name
            &&& encode_utf8(n.body@) == body->Ok_0@
        },
        body matches Err(failure) ==> next == Err::<ParseBody, ApplicationError>(
            ApplicationError::ParseBody { source: failure },
        ),
        body is Ok && !valid_utf8(body->Ok_0@) ==> {
            &&& next matches Err(ApplicationError::ReadingBodyAsUtf8 { source })
            &&& source@ == utf8_error_text(body->Ok_0@)
        },
{
}

/// The parsed delete goes on to the database of the bucket. A body that does not
/// parse is an error, which tells the body and the reason.
pub proof fn a_parsed_delete_goes_on_to_its_database(
    step: ParseBody,
    parsed: Result<ParsedDelete, String>,
    next: Result<OpenForDelete, ApplicationError>,
)
    requires
        call_ensures(ParseBody::parsed, (step, parsed), next),
    ensures
        next is Ok <==> parsed is Ok,
        next matches Ok(n) ==> {
            &&& n.db_name == step.db_name
            &&& n.body == step.body
            &&& n.parsed == parsed->Ok_0
        },
        next matches Err(e) ==> e == (ApplicationError::ParsingDelete {
            source: parsed->Err_0,
            input: step.body,
        }),
{
}

/// `error` is what an error of the server becomes: each of the known ones an
/// error of its own that tells as much, and any other one that tells nothing.
pub open spec fn is_told_as(e: ServerError, error: ApplicationError) -> bool {
    match e {
        ServerError::IdNotSet => error is ServerIdNotSet,
        ServerError::ServerNotInitialized => error is ServerNotInitialized,
        ServerError::DatabaseNotInitialized { db_name } => error
            == ApplicationError::DatabaseNotInitialized { db_name },
        ServerError::DatabaseNotFound { db_name } => error == ApplicationError::DatabaseNotFound {
            db_name,
        },
        ServerError::InvalidDatabaseName { source } => error
            == ApplicationError::DatabaseNameError { source },
        ServerError::Other { .. } => error is InternalServerError,
    }
}

/// Every error of the server is told as what it is, and an unexpected one not at
/// all.
pub proof fn server_errors_are_told_as_they_are(e: ServerError, error: ApplicationError)
    requires
        call_ensures(<ApplicationError as From<ServerError>>::from, (e,), error),
    ensures
        is_told_as(e, error),
{
}

/// The database that was found goes on with the delete that was parsed.
pub proof fn an_open_database_goes_on_to_its_predicate<D>(
    step: OpenForDelete,
    opened: Result<D, ServerError>,
    next: Result<BuildPredicate<D>, ApplicationError>,
)
    requires
        call_ensures(OpenForDelete::opened::<D>, (step, opened), next),
    ensures
        next is Ok <==> opened is Ok,
        next matches Ok(n) ==> {
            &&& n.db == opened->Ok_0
            &&& n.body == step.body
            &&& n.parsed == step.parsed
        },
        next matches Err(e) ==> is_told_as(opened->Err_0, e),
{
}

/// The predicate that was built goes on with the database, for the table that
/// the delete names.
pub proof fn a_predicate_goes_on_to_its_tables<D, P>(
    step: BuildPredicate<D>,
    built: Result<P, String>,
    next: Result<SelectTables<D, P>, ApplicationError>,
)
    requires
        call_ensures(BuildPredicate::<D>::built::<P>, (step, built), next),
    ensures
        next is Ok <==> built is Ok,
        next matches Ok(n) ==> {
            &&& n.db == step.db
            &&& n.predicate == built->Ok_0
            &&& n.body == step.body
            &&& n.table_name == step.parsed.table_name
        },
        next matches Err(e) ==> e == (ApplicationError::BuildingDeletePredicate {
            source: built->Err_0,
            input: step.body,
        }),
{
}

/// `progress` goes on to the first of `tables`, with the rest to follow in their
/// order, or is done if there are none.
pub open spec fn goes_on_to<D, P>(
    db: D,
    predicate: P,
    tables: Seq<String>,
    body: String,
    progress: DeleteProgress<D, P>,
) -> bool {
    match progress {
        DeleteProgress::Next(next) => {
            &&& tables.len() > 0
            &&& next.db == db
            &&& next.predicate == predicate
            &&& next.table == tables[0]
            &&& next.rest@ == tables.drop_first()
            &&& next.body == body
        },
        DeleteProgress::Done(response) => {
            &&& tables.len() == 0
            &&& response.status == 204
            &&& response.content_type is None
            &&& response.body@.len() == 0
        },
    }
}

/// A delete that names a table goes on to that table alone, and one that names
/// none to every table of the database, in their order. Where there is none it
/// is done.
pub proof fn a_delete_goes_on_to_its_tables<D, P>(
    step: SelectTables<D, P>,
    table_names: Vec<String>,
    all: bool,
    progress: DeleteProgress<D, P>,
)
    requires
        call_ensures(SelectTables::<D, P>::all_tables, (&step,), all),
        call_ensures(SelectTables::<D, P>::select, (step, table_names), progress),
    ensures
        all <==> step.table_name@.len() == 0,
        all ==> goes_on_to(step.db, step.predicate, table_names@, step.body, progress),
        !all ==> goes_on_to(
            step.db,
            step.predicate,
            seq![step.table_name],
            step.body,
            progress,
        ),
{
    if let DeleteProgress::Next(next) = progress {
        assert((seq![next.table] + next.rest@).drop_first() =~= next.rest@);
        assert(seq![step.table_name].drop_first() =~= Seq::<String>::empty());
    }
}

/// After a table has been deleted from, the delete goes on to the next, or is
/// done after the last. One that fails ends it, with an error that tells the body
/// and the reason.
pub proof fn a_delete_goes_on_after_each_table<D, P>(
    step: DeleteTable<D, P>,
    outcome: Result<(), String>,
    next: Result<DeleteProgress<D, P>, ApplicationError>,
)
    requires
        call_ensures(DeleteTable::<D, P>::deleted, (step, outcome), next),
    ensures
        next is Ok <==> outcome is Ok,
        next matches Ok(progress) ==> goes_on_to(
            step.db,
            step.predicate,
            step.rest@,
            step.body,
            progress,
        ),
        next matches Err(e) ==> e == (ApplicationError::ExecutingDelete {
            source: outcome->Err_0,
            input: step.body,
        }),
{
    if let Ok(DeleteProgress::Next(then)) = next {
        assert((seq![then.table] + then.rest@).drop_first() =~= then.rest@);
    }
}

/// The tables that a delete is for are deleted from one after the other, each
/// once and in their order, in the same database by the same predicate. It is
/// done when the last has been deleted from, and not before.
pub proof fn a_delete_visits_its_tables_in_turn<D, P>(
    step: SelectTables<D, P>,
    table_names: Vec<String>,
    tables: Seq<String>,
    visits: Seq<DeleteTable<D, P>>,
    end: DeleteProgress<D, P>,
)
    requires
        tables == if step.table_name@.len() == 0 {
            table_names@
        } else {
            seq![step.table_name]
        },
        visits.len() > 0,
        call_ensures(
            SelectTables::<D, P>::select,
            (step, table_names),
            DeleteProgress::Next(visits[0]),
        ),
        forall|i: int|
            0 <= i < visits.len() - 1 ==> call_ensures(
                DeleteTable::<D, P>::deleted,
                (#[trigger] visits[i], Ok(())),
                Ok(DeleteProgress::Next(visits[i + 1])),
            ),
        call_ensures(DeleteTable::<D, P>::deleted, (visits.last(), Ok(())), Ok(end)),
    ensures
        visits.len() <= tables.len(),
        forall|i: int|
            0 <= i < visits.len() ==> {
                &&& (#[trigger] visits[i]).table == tables[i]
                &&& visits[i].db == step.db
                &&& visits[i].predicate == step.predicate
                &&& visits[i].body == step.body
            },
        end is Done <==> visits.len() == tables.len(),
{
    let n = visits.len() as int;
    lemma_visits(step, table_names, tables, visits, n - 1);
    assert forall|i: int| 0 <= i < n implies {
        &&& (#[trigger] visits[i]).table == tables[i]
        &&& visits[i].db == step.db
        &&& visits[i].predicate == step.predicate
        &&& visits[i].body == step.body
    } by {
        lemma_visits(step, table_names, tables, visits, i);
    }
    a_delete_goes_on_after_each_table(visits.last(), Ok(()), Ok(end));
    assert(visits.last().rest@.len() == tables.len() - n);
}

/// A visit is to the table at its position, with those after it still to come.
proof fn lemma_visits<D, P>(
    step: SelectTables<D, P>,
    table_names: Vec<String>,
    tables: Seq<String>,
    visits: Seq<DeleteTable<D, P>>,
    i: int,
)
    requires
        tables == if step.table_name@.len() == 0 {
            table_names@
        } else {
            seq![step.table_name]
        },
        0 <= i < visits.len(),
        call_ensures(
            SelectTables::<D, P>::select,
            (step, table_names),
            DeleteProgress::Next(visits[0]),
        ),
        forall|k: int|
            0 <= k < visits.len() - 1 ==> call_ensures(
                DeleteTable::<D, P>::deleted,
                (#[trigger] visits[k], Ok(())),
                Ok(DeleteProgress::Next(visits[k + 1])),
            ),
    ensures
        i < tables.len(),
        visits[i].table == tables[i],
        visits[i].rest@ == tables.skip(i + 1),
        visits[i].db == step.db,
        visits[i].predicate == step.predicate,
        visits[i].body == step.body,
    decreases i,
{
    if i == 0 {
        let next = visits[0];
        assert((seq![next.table] + next.rest@).drop_first() =~= next.rest@);
        assert(seq![step.table_name].drop_first() =~= Seq::<String>::empty());
        assert(tables.drop_first() =~= tables.skip(1));
    } else {
        lemma_visits(step, table_names, tables, visits, i - 1);
        let before = visits[i - 1];
        a_delete_goes_on_after_each_table(before, Ok(()), Ok(DeleteProgress::Next(visits[i])));
        assert(tables.skip(i)[0] == tables[i]);
        assert(tables.skip(i).drop_first() =~= tables.skip(i + 1));
    }
}

/// A delete is performed on the database of the bucket that its request names,
/// by the predicate that was built, on the tables that its body names. No step
/// on the way puts something else in their place.
pub proof fn a_delete_does_what_its_request_says<D, P>(
    query: String,
    max_request_size: usize,
    begun: MapBucket,
    database: String,
    read: ReadBody,
    bytes: Vec<u8>,
    parse: ParseBody,
    parsed: ParsedDelete,
    open: OpenForDelete,
    db: D,
    build: BuildPredicate<D>,
    predicate: P,
    select: SelectTables<D, P>,
    table_names: Vec<String>,
    progress: DeleteProgress<D, P>,
)
    requires
        call_ensures(MapBucket::begin, (Some(query), max_request_size), Ok(begun)),
        call_ensures(MapBucket::mapped, (begun, Ok(database)), Ok(read)),
        call_ensures(ReadBody::read, (read, Ok(bytes)), Ok(parse)),
        call_ensures(ParseBody::parsed, (parse, Ok(parsed)), Ok(open)),
        call_ensures(OpenForDelete::opened::<D>, (open, Ok(db)), Ok(build)),
        call_ensures(BuildPredicate::<D>::built::<P>, (build, Ok(predicate)), Ok(select)),
        call_ensures(SelectTables::<D, P>::select, (select, table_names), progress),
    ensures
        gives_bucket(urlencoded_pairs(query@), begun.org@, begun.bucket@),
        read.max_request_size == max_request_size,
        encode_utf8(parse.body@) == bytes@,
        open.db_name == database,
        build.parsed == parsed,
        goes_on_to(
            db,
            predicate,
            if parsed.table_name@.len() == 0 {
                table_names@
            } else {
                seq![parsed.table_name]
            },
            parse.body,
            progress,
        ),
{
    lemma_write_info(urlencoded_pairs(query@));
    if let DeleteProgress::Next(next) = progress {
        assert((seq![next.table] + next.rest@).drop_first() =~= next.rest@);
        assert(seq![parsed.table_name].drop_first() =~= Seq::<String>::empty());
    }
}

/// The format that was found goes on with the parameters of the query. That
/// there is none is an error, which tells the name and the reason.
pub proof fn a_chosen_format_goes_on_to_the_name<F, C>(
    step: ChooseFormat<C>,
    format: Result<OutputFormat<F>, String>,
    next: Result<CheckName<F, C>, ApplicationError>,
)
    requires
        call_ensures(ChooseFormat::<C>::chosen::<F>, (step, format), next),
    ensures
        next is Ok <==> format is Ok,
        next matches Ok(n) ==> {
            &&& n.format == format->Ok_0
            &&& n.d == step.params.d
            &&& n.q == step.params.q
            &&& n.span_ctx == step.span_ctx
        },
        next matches Err(e) ==> e == (ApplicationError::ParsingFormat {
            format: step.params.format,
            source: format->Err_0,
        }),
{
}

/// A valid name goes on to be looked up. An invalid one is an error, which tells
/// the reason.
pub proof fn a_valid_name_goes_on_to_its_database<F, C>(
    step: CheckName<F, C>,
    valid: Result<(), String>,
    next: Result<OpenDatabase<F, C>, ApplicationError>,
)
    requires
        call_ensures(CheckName::<F, C>::checked, (step, valid), next),
    ensures
        next is Ok <==> valid is Ok,
        next matches Ok(n) ==> {
            &&& n.db_name == step.d
            &&& n.q == step.q
            &&& n.format == step.format
            &&& n.span_ctx == step.span_ctx
        },
        next matches Err(e) ==> e == (ApplicationError::DatabaseNameError {
            source: valid->Err_0,
        }),
{
}

/// The database that was found goes on to its query context, which is made with
/// the span context of the request.
pub proof fn an_open_database_goes_on_to_its_context<F, C, D, X>(
    step: OpenDatabase<F, C>,
    opened: Result<D, ServerError>,
    next: Result<MakeContext<F, D, C>, ApplicationError>,
    context: X,
    plan: PlanQuery<F, X>,
)
    requires
        call_ensures(OpenDatabase::<F, C>::opened::<D>, (step, opened), next),
        next is Ok ==> call_ensures(
            MakeContext::<F, D, C>::made::<X>,
            (next->Ok_0, context),
            plan,
        ),
    ensures
        next is Ok <==> opened is Ok,
        next matches Ok(n) ==> {
            &&& n.db == opened->Ok_0
            &&& n.span_ctx == step.span_ctx
            &&& n.db_name == step.db_name
            &&& n.q == step.q
            &&& n.format == step.format
            &&& plan.context == context
            &&& plan.db_name == step.db_name
            &&& plan.q == step.q
            &&& plan.format == step.format
        },
        next matches Err(e) ==> is_told_as(opened->Err_0, e),
{
}

/// The plan goes on to be run in the query context that it was made in. That
/// there is none is an error, which tells the reason.
pub proof fn a_plan_goes_on_to_be_run<F, X, P>(
    step: PlanQuery<F, X>,
    planned: Result<P, String>,
    next: Result<RunQuery<F, X, P>, ApplicationError>,
)
    requires
        call_ensures(PlanQuery::<F, X>::planned::<P>, (step, planned), next),
    ensures
        next is Ok <==> planned is Ok,
        next matches Ok(n) ==> {
            &&& n.context == step.context
            &&& n.plan == planned->Ok_0
            &&& n.db_name == step.db_name
            &&& n.q == step.q
            &&& n.format == step.format
        },
        next matches Err(e) ==> e == (ApplicationError::Planning { source: planned->Err_0 }),
{
}

/// The results go on to be formatted in the format that was chosen. That there
/// are none is an error, which tells the database and the reason.
pub proof fn results_go_on_to_be_formatted<F, X, P, B>(
    step: RunQuery<F, X, P>,
    gathered: Result<B, String>,
    next: Result<FormatResults<F, B>, ApplicationError>,
)
    requires
        call_ensures(RunQuery::<F, X, P>::collected::<B>, (step, gathered), next),
    ensures
        next is Ok <==> gathered is Ok,
        next matches Ok(n) ==> {
            &&& n.batches == gathered->Ok_0
            &&& n.q == step.q
            &&& n.format == step.format
        },
        next matches Err(e) ==> e == (ApplicationError::Query {
            db_name: step.db_name,
            source: gathered->Err_0,
        }),
{
}

/// The formatted results are the body of the response, in the content type of
/// the format, with the status 200. There is no response exactly if they could
/// not be formatted, which is an error that tells the text of the query, the
/// format and the reason, or if the content type holds a control character other
/// than a tab.
pub proof fn formatted_results_are_the_response<F, B>(
    step: FormatResults<F, B>,
    results: Result<String, String>,
    response: Result<Response, ApplicationError>,
)
    requires
        call_ensures(FormatResults::<F, B>::formatted, (step, results), response),
    ensures
        ({
            let bytes = encode_utf8(step.format.content_type@);
            let clean = forall|i: int|
                0 <= i < bytes.len() ==> {
                    let byte = #[trigger] bytes[i];
                    byte == 9 || (32 <= byte && byte != 127)
                };
            &&& response is Ok <==> results is Ok && clean
            &&& response matches Ok(r) ==> {
                &&& r.status == 200
                &&& r.content_type is Some
                &&& r.content_type->0@ == step.format.content_type@
                &&& r.body@ == results->Ok_0@
            }
            &&& results is Ok && !clean ==> {
                &&& response matches Err(ApplicationError::CreatingResponse { source })
                &&& source@ == "failed to parse header value"@
            }
        }),
        results matches Err(source) ==> response == Err::<Response, ApplicationError>(
            ApplicationError::FormattingResult { q: step.q, format: step.format.debug, source },
        ),
{
}

/// A query is run for the database, the text and the format that its request
/// gives, in the span of the request. No step on the way puts something else in
/// their place.
pub proof fn a_query_does_what_its_request_says<F, C, D, X, P, B>(
    query: String,
    span_ctx: Option<SpanContext<C>>,
    begun: ChooseFormat<C>,
    format: OutputFormat<F>,
    check: CheckName<F, C>,
    open: OpenDatabase<F, C>,
    db: D,
    make: MakeContext<F, D, C>,
    context: X,
    planning: PlanQuery<F, X>,
    plan: P,
    run: RunQuery<F, X, P>,
    batches: B,
    results: FormatResults<F, B>,
    text: String,
    response: Response,
)
    requires
        call_ensures(ChooseFormat::<C>::begin, (Some(query), span_ctx), Ok(begun)),
        call_ensures(ChooseFormat::<C>::chosen::<F>, (begun, Ok(format)), Ok(check)),
        call_ensures(CheckName::<F, C>::checked, (check, Ok(())), Ok(open)),
        call_ensures(OpenDatabase::<F, C>::opened::<D>, (open, Ok(db)), Ok(make)),
        call_ensures(MakeContext::<F, D, C>::made::<X>, (make, context), planning),
        call_ensures(PlanQuery::<F, X>::planned::<P>, (planning, Ok(plan)), Ok(run)),
        call_ensures(RunQuery::<F, X, P>::collected::<B>, (run, Ok(batches)), Ok(results)),
        call_ensures(FormatResults::<F, B>::formatted, (results, Ok(text)), Ok(response)),
    ensures
        gives_query(
            urlencoded_pairs(query@),
            open.db_name@,
            planning.q@,
            begun.params.format@,
        ),
        make.db == db,
        make.span_ctx == span_ctx,
        planning.context == context,
        run.context == context,
        run.plan == plan,
        results.batches == batches,
        results.format == format,
        response.content_type is Some,
        response.content_type->0@ == format.content_type@,
        response.body@ == text@,
{
    lemma_query_params(urlencoded_pairs(query@));
}

/// Whatever failure the write endpoint ends in, the request is answered with the
/// response that this failure carries. A response of the write endpoint is the
/// outcome as it is.
pub proof fn the_write_endpoint_has_its_say<'a, B, R>(
    failure: RouteFailure,
    failed: Result<Route<B, R>, ApplicationError>,
    reply: Reply<'a>,
    response: R,
    answered: Result<Route<B, R>, ApplicationError>,
)
    requires
        call_ensures(route_request::<B, R>, (Err(failure),), failed),
        failed is Err ==> call_ensures(ApplicationError::response, (&failed->Err_0,), reply),
        call_ensures(
            route_request::<B, R>,
            (Ok(RequestOrResponse::Response(response)),),
            answered,
        ),
    ensures
        failed is Err,
        reply == Reply::Response(&failure.response),
        failed->Err_0 == (ApplicationError::WriteError { source: failure }),
        answered == Ok::<Route<B, R>, ApplicationError>(Route::Response(response)),
{
}

/// A request that is no write goes, whole, to the delete endpoint if it posts to
/// that, to the query endpoint if it gets from that, and to none otherwise. Then
/// the error names its method and path, and is answered with "not found".
pub proof fn a_request_goes_by_its_method_and_path<'a, B, R>(
    req: Request<B>,
    route: Result<Route<B, R>, ApplicationError>,
    reply: Reply<'a>,
)
    requires
        call_ensures(route_request::<B, R>, (Ok(RequestOrResponse::Request(req)),), route),
        route is Err ==> call_ensures(ApplicationError::response, (&route->Err_0,), reply),
    ensures
        req.method@ == "POST"@ && req.path@ == "/api/v2/delete"@ ==> route == Ok::<
            Route<B, R>,
            ApplicationError,
        >(Route::Delete(req)),
        req.method@ == "GET"@ && req.path@ == "/api/v3/query"@ ==> route == Ok::<
            Route<B, R>,
            ApplicationError,
        >(Route::Query(req)),
        !(req.method@ == "POST"@ && req.path@ == "/api/v2/delete"@) && !(req.method@ == "GET"@
            && req.path@ == "/api/v3/query"@) ==> {
            &&& route == Err::<Route<B, R>, ApplicationError>(
                ApplicationError::RouteNotFound { method: req.method, path: req.path },
            )
            &&& reply matches Reply::Error { kind, error }
            &&& kind == ReplyKind::NotFound
            &&& error@ == "No handler for "@ + req.method@ + " "@ + req.path@
        },
{
    reveal_strlit("POST");
    reveal_strlit("GET");
    assert("POST"@.len() != "GET"@.len());
}

/// A write succeeds exactly if the server's does. That the database does not
/// exist is told by the name that the write was for, and any other error as it
/// is.
pub proof fn a_write_tells_a_missing_database_apart(
    db_name: &str,
    outcome: Result<(), ServerError>,
    result: Result<(), InnerWriteError>,
)
    requires
        call_ensures(write_outcome, (db_name, outcome), result),
    ensures
        result is Ok <==> outcome is Ok,
        outcome is Err && outcome->Err_0 is DatabaseNotFound ==> {
            &&& result->Err_0 matches InnerWriteError::NotFound { db_name: name }
            &&& name@ == db_name@
        },
        outcome is Err && !(outcome->Err_0 is DatabaseNotFound) ==> result->Err_0 == (
        InnerWriteError::OtherError { source: outcome->Err_0 }),
{
}

/// The message of an error says what went wrong, and tells all of what the error
/// holds: the texts of names, inputs and sources appear in it whole, in their
/// places.
pub proof fn a_message_tells_all_of_its_error(e: ApplicationError, message: String)
    requires
        call_ensures(ApplicationError::message, (&e,), message),
    ensures
        match e {
            ApplicationError::BucketMappingError { source } => message@
                == "Internal error mapping org & bucket: "@ + source@,
            ApplicationError::Query { db_name, source } => message@
                == "Internal error reading points from database "@ + db_name@ + ":  "@ + source@,
            ApplicationError::ExpectedQueryString {  } => message@
                == "Expected query string in request, but none was provided"@,
            ApplicationError::InvalidQueryString { query_string, source } => message@
                == "Invalid query string in HTTP URI '"@ + query_string@ + "': "@ + source@,
            ApplicationError::ReadingBodyAsUtf8 { source } => message@
                == "Error reading request body as utf8: "@ + source@,
            ApplicationError::ParsingDelete { source, input } => message@
                == "Error parsing delete "@ + input@ + ": "@ + source@,
            ApplicationError::BuildingDeletePredicate { source, input } => message@
                == "Error building delete predicate "@ + input@ + ": "@ + source@,
            ApplicationError::ExecutingDelete { source, input } => message@
                == "Error executing delete "@ + input@ + ": "@ + source@,
            ApplicationError::RouteNotFound { method, path } => message@ == "No handler for "@
                + method@ + " "@ + path@,
            ApplicationError::DatabaseNameError { source } => message@
                == "Invalid database name: "@ + source@,
            ApplicationError::DatabaseNotFound { db_name } => message@ == "Database "@ + db_name@
                + " not found"@,
            ApplicationError::CreatingResponse { source } => message@
                == "Internal error creating HTTP response:  "@ + source@,
            ApplicationError::ParsingFormat { format, source } => message@ == "Invalid format '"@
                + format@ + "': : "@ + source@,
            ApplicationError::FormattingResult { q, format, source } => message@
                == "Error formatting results of SQL query '"@ + q@ + "' using '"@ + format@
                + "': "@ + source@,
            ApplicationError::Planning { source } => message@ == "Error while planning query: "@
                + source@,
            ApplicationError::ServerIdNotSet => message@ == "Server id not set"@,
            ApplicationError::ServerNotInitialized => message@ == "Server not initialized"@,
            ApplicationError::DatabaseNotInitialized { db_name } => message@ == "Database "@
                + db_name@ + " not found"@,
            ApplicationError::InternalServerError => message@ == "Internal server error"@,
            ApplicationError::ParseBody { source } => message@ == "Cannot parse body: "@
                + source.error@,
            ApplicationError::WriteError { source } => message@ == "Cannot write data: "@
                + source.error@,
        },
{
}

/// An error of another part of the server is answered with the response that it
/// carries. Any other is answered with its message: as "not found" where a
/// handler or a database is missing, as an internal error where the request was
/// in order and the server failed, and as a bad request otherwise, with a code
/// of its own for an invalid database name.
pub proof fn an_error_is_answered_by_what_it_is<'a>(
    e: ApplicationError,
    message: String,
    reply: Reply<'a>,
)
    requires
        call_ensures(ApplicationError::message, (&e,), message),
        call_ensures(ApplicationError::response, (&e,), reply),
    ensures
        e matches ApplicationError::ParseBody { source } ==> reply == Reply::Response(
            &source.response,
        ),
        e matches ApplicationError::WriteError { source } ==> reply == Reply::Response(
            &source.response,
        ),
        !(e is ParseBody || e is WriteError) ==> {
            &&& reply matches Reply::Error { kind, error }
            &&& error@ == message@
            &&& kind == if e is RouteNotFound || e is DatabaseNotFound {
                ReplyKind::NotFound
            } else if e is BucketMappingError || e is Query || e is CreatingResponse || e
                is FormattingResult || e is InternalServerError {
                ReplyKind::InternalError(ApiErrorCode::Unknown)
            } else if e is DatabaseNameError {
                ReplyKind::BadRequest(ApiErrorCode::DbInvalidName)
            } else {
                ReplyKind::BadRequest(ApiErrorCode::Unknown)
            }
        },
{
}

/// Bad requests have the status 400, what is not found 404, and internal errors
/// 500, whatever their code.
pub proof fn an_answer_has_its_status(kind: ReplyKind, status: u16)
    requires
        call_ensures(ReplyKind::status, (&kind,), status),
    ensures
        kind is BadRequest ==> status == 400,
        kind is NotFound ==> status == 404,
        kind is InternalError ==> status == 500,
{
}

} // verus!
