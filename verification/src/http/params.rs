//! The parameters that requests carry in the query string of their URI.

use vstd::prelude::*;

use crate::text::{concat3, same_text};

verus! {

/// The name and value pairs of a query string, decoded and in order.
pub uninterp spec fn urlencoded_pairs(query: Seq<char>) -> Seq<(Seq<char>, Seq<char>)>;

/// What a list of pairs of strings stands for.
pub open spec fn pairs_view(pairs: Seq<(String, String)>) -> Seq<(Seq<char>, Seq<char>)> {
    pairs.map_values(|p: (String, String)| (p.0@, p.1@))
}

/// Decodes a query string with `serde_urlencoded::from_str`, into pairs of
/// strings.
///
/// The pairs are a function of the query string. Taking it apart does not
/// fail, whatever it holds: a part without `=` is a name with an empty value,
/// and bytes that are no text are replaced.
#[verifier::external_body]
fn decode_pairs(query: &str) -> (pairs: Vec<(String, String)>)
    ensures
        pairs_view(pairs@) == urlencoded_pairs(query@),
{
    serde_urlencoded::from_str::<Vec<(String, String)>>(query).expect("pairs of strings decode")
}

/// A field of a set of parameters, by its name and another name for it. A field
/// with one name has it twice.
pub struct Field {
    pub name: &'static str,
    pub alias: &'static str,
}

/// The field goes by the name `key`.
pub open spec fn goes_by(field: Field, key: Seq<char>) -> bool {
    key == field.name@ || key == field.alias@
}

/// The position of the first field that goes by the name `key`.
pub open spec fn field_of(fields: Seq<Field>, key: Seq<char>) -> Option<int>
    decreases fields.len(),
{
    if fields.len() == 0 {
        None
    } else {
        match field_of(fields.drop_last(), key) {
            Some(k) => Some(k),
            None => if goes_by(fields.last(), key) {
                Some(fields.len() - 1)
            } else {
                None
            },
        }
    }
}

/// The values that `pairs` give to `fields`, by the position of the field. A
/// pair that goes by no field is passed over. A field that is given twice is
/// an error, which names the first field for which that happens.
pub open spec fn collected(fields: Seq<Field>, pairs: Seq<(Seq<char>, Seq<char>)>) -> Result<
    Map<int, Seq<char>>,
    int,
>
    decreases pairs.len(),
{
    if pairs.len() == 0 {
        Ok(Map::empty())
    } else {
        match collected(fields, pairs.drop_last()) {
            Err(field) => Err(field),
            Ok(values) => match field_of(fields, pairs.last().0) {
                None => Ok(values),
                Some(field) => if values.contains_key(field) {
                    Err(field)
                } else {
                    Ok(values.insert(field, pairs.last().1))
                },
            },
        }
    }
}

/// Where an error comes up, it stays, whatever pairs follow.
pub(crate) proof fn lemma_collected_error(fields: Seq<Field>, pairs: Seq<(Seq<char>, Seq<char>)>, n: int)
    requires
        0 <= n <= pairs.len(),
        collected(fields, pairs.take(n)) is Err,
    ensures
        collected(fields, pairs) == collected(fields, pairs.take(n)),
    decreases pairs.len(),
{
    if n == pairs.len() {
        assert(pairs.take(n) =~= pairs);
    } else {
        assert(pairs.drop_last().take(n) =~= pairs.take(n));
        lemma_collected_error(fields, pairs.drop_last(), n);
    }
}

fn find_field(fields: &Vec<Field>, key: &str) -> (field: Option<usize>)
    ensures
        match (field_of(fields@, key@), field) {
            (Some(k), Some(f)) => f == k && f < fields.len(),
            (None, None) => true,
            _ => false,
        },
{
    let mut i: usize = 0;
    while i < fields.len()
        invariant
            i <= fields.len(),
            field_of(fields@.take(i as int), key@) is None,
        decreases fields.len() - i,
    {
        let here = same_text(key, fields[i].name) || same_text(key, fields[i].alias);
        proof {
            assert(fields@.take(i + 1).drop_last() =~= fields@.take(i as int));
            assert(fields@.take(i + 1).last() == fields@[i as int]);
        }
        if here {
            proof {
                lemma_field_of_prefix(fields@, key@, i + 1);
            }
            return Some(i);
        }
        i += 1;
    }
    assert(fields@.take(i as int) =~= fields@);
    None
}

/// A field found among the first ones is the one found among all.
proof fn lemma_field_of_prefix(fields: Seq<Field>, key: Seq<char>, n: int)
    requires
        0 <= n <= fields.len(),
        field_of(fields.take(n), key) is Some,
    ensures
        field_of(fields, key) == field_of(fields.take(n), key),
    decreases fields.len(),
{
    if n == fields.len() {
        assert(fields.take(n) =~= fields);
    } else {
        assert(fields.drop_last().take(n) =~= fields.take(n));
        lemma_field_of_prefix(fields.drop_last(), key, n);
    }
}

/// The values that are there, by their position.
pub open spec fn values_view(values: Seq<Option<String>>) -> Map<int, Seq<char>> {
    Map::new(
        |k: int| 0 <= k < values.len() && values[k] is Some,
        |k: int| values[k]->0@,
    )
}

/// Collects the values that `pairs` give to `fields`, or names the first field
/// that is given twice.
pub fn collect_fields(fields: &Vec<Field>, pairs: &Vec<(String, String)>) -> (values: Result<
    Vec<Option<String>>,
    usize,
>)
    ensures
        match (collected(fields@, pairs_view(pairs@)), values) {
            (Ok(expected), Ok(v)) => v.len() == fields.len() && values_view(v@) == expected,
            (Err(field), Err(f)) => f == field && f < fields.len(),
            _ => false,
        },
{
    let ghost view = pairs_view(pairs@);
    let mut values: Vec<Option<String>> = Vec::new();
    let mut n: usize = 0;
    while n < fields.len()
        invariant
            n <= fields.len(),
            values.len() == n,
            forall|k: int| 0 <= k < n ==> (#[trigger] values@[k]) is None,
        decreases fields.len() - n,
    {
        values.push(None);
        n += 1;
    }
    assert(values_view(values@) =~= Map::<int, Seq<char>>::empty());
    assert(view.take(0) =~= Seq::<(Seq<char>, Seq<char>)>::empty());
    let mut i: usize = 0;
    while i < pairs.len()
        invariant
            i <= pairs.len(),
            view == pairs_view(pairs@),
            values.len() == fields.len(),
            collected(fields@, view.take(i as int)) == Ok::<Map<int, Seq<char>>, int>(
                values_view(values@),
            ),
        decreases pairs.len() - i,
    {
        let field = find_field(fields, pairs[i].0.as_str());
        let ghost before = values@;
        proof {
            assert(view.take(i + 1).drop_last() =~= view.take(i as int));
            assert(view.take(i + 1).last() == view[i as int]);
        }
        match field {
            Some(f) => {
                if values[f].is_some() {
                    proof {
                        lemma_collected_error(fields@, view, i + 1);
                    }
                    return Err(f);
                }
                values.set(f, Some(pairs[i].1.clone()));
                assert(values_view(values@) =~= values_view(before).insert(
                    f as int,
                    view[i as int].1,
                ));
            },
            None => {},
        }
        i += 1;
    }
    assert(view.take(i as int) =~= view);
    Ok(values)
}

/// The text of the error for a field that is given twice.
pub open spec fn duplicate_field(field: Seq<char>) -> Seq<char> {
    "duplicate field `"@ + field + "`"@
}

/// The text of the error for a field that is not given.
pub open spec fn missing_field(field: Seq<char>) -> Seq<char> {
    "missing field `"@ + field + "`"@
}

/// The fields that say which bucket of which organization a request is about.
pub open spec fn write_fields() -> Seq<Field> {
    seq![Field { name: "org", alias: "org" }, Field { name: "bucket", alias: "bucket" }]
}

/// The bucket that a request is about, and the organization it belongs to.
#[derive(Debug, Clone, PartialEq, Eq)]
pub struct WriteInfo {
    pub org: String,
    pub bucket: String,
}

/// What a [`WriteInfo`] stands for.
pub struct WriteInfoView {
    pub org: Seq<char>,
    pub bucket: Seq<char>,
}

impl View for WriteInfo {
    type V = WriteInfoView;

    open spec fn view(&self) -> WriteInfoView {
        WriteInfoView { org: self.org@, bucket: self.bucket@ }
    }
}

/// The organization and bucket that `pairs` name, or the text of the error:
/// both have to be given, once.
pub open spec fn write_info(pairs: Seq<(Seq<char>, Seq<char>)>) -> Result<
    WriteInfoView,
    Seq<char>,
> {
    match collected(write_fields(), pairs) {
        Err(field) => Err(duplicate_field(write_fields()[field].name@)),
        Ok(values) => if !values.contains_key(0) {
            Err(missing_field("org"@))
        } else if !values.contains_key(1) {
            Err(missing_field("bucket"@))
        } else {
            Ok(WriteInfoView { org: values[0], bucket: values[1] })
        },
    }
}

impl WriteInfo {
    /// Reads the organization and bucket from a query string.
    pub fn parse(query: &str) -> (info: Result<WriteInfo, String>)
        ensures
            match (write_info(urlencoded_pairs(query@)), info) {
                (Ok(expected), Ok(i)) => i@ == expected,
                (Err(text), Err(e)) => e@ == text,
                _ => false,
            },
    {
        let pairs = decode_pairs(query);
        WriteInfo::from_pairs(&pairs)
    }

    /// Reads the organization and bucket from the pairs of a query string.
    pub fn from_pairs(pairs: &Vec<(String, String)>) -> (info: Result<WriteInfo, String>)
        ensures
            match (write_info(pairs_view(pairs@)), info) {
                (Ok(expected), Ok(i)) => i@ == expected,
                (Err(text), Err(e)) => e@ == text,
                _ => false,
            },
    {
        let fields: Vec<Field> = vec![
            Field { name: "org", alias: "org" },
            Field { name: "bucket", alias: "bucket" },
        ];
        assert(fields@ =~= write_fields());
        match collect_fields(&fields, pairs) {
            Err(field) => Err(concat3("duplicate field `", fields[field].name, "`")),
            Ok(values) => match (&values[0], &values[1]) {
                (None, _) => Err(concat3("missing field `", "org", "`")),
                (Some(_), None) => Err(concat3("missing field `", "bucket", "`")),
                (Some(org), Some(bucket)) => Ok(
                    WriteInfo { org: org.clone(), bucket: bucket.clone() },
                ),
            },
        }
    }
}

/// The format of query results where none is asked for.
pub fn default_format() -> (format: String)
    ensures
        format@ == "pretty"@,
{
    "pretty".to_owned()
}

/// The fields of a request to the query endpoint.
pub open spec fn query_fields() -> Seq<Field> {
    seq![
        Field { name: "d", alias: "database" },
        Field { name: "q", alias: "query" },
        Field { name: "format", alias: "format" },
    ]
}

/// Parsed URI parameters of a request to the query endpoint: the database, the
/// query and the format of the results.
#[derive(Debug, Clone, PartialEq, Eq)]
pub struct QueryParams {
    pub d: String,
    pub q: String,
    pub format: String,
}

/// What [`QueryParams`] stand for.
pub struct QueryParamsView {
    pub d: Seq<char>,
    pub q: Seq<char>,
    pub format: Seq<char>,
}

impl View for QueryParams {
    type V = QueryParamsView;

    open spec fn view(&self) -> QueryParamsView {
        QueryParamsView { d: self.d@, q: self.q@, format: self.format@ }
    }
}

/// The parameters that `pairs` give, or the text of the error: a database and
/// a query have to be given, nothing may be given twice, and the format has a
/// default.
pub open spec fn query_params(pairs: Seq<(Seq<char>, Seq<char>)>) -> Result<
    QueryParamsView,
    Seq<char>,
> {
    match collected(query_fields(), pairs) {
        Err(field) => Err(duplicate_field(query_fields()[field].name@)),
        Ok(values) => if !values.contains_key(0) {
            Err(missing_field("d"@))
        } else if !values.contains_key(1) {
            Err(missing_field("q"@))
        } else {
            Ok(
                QueryParamsView {
                    d: values[0],
                    q: values[1],
                    format: if values.contains_key(2) {
                        values[2]
                    } else {
                        "pretty"@
                    },
                },
            )
        },
    }
}

impl QueryParams {
    /// Reads the parameters from a query string.
    pub fn parse(query: &str) -> (params: Result<QueryParams, String>)
        ensures
            match (query_params(urlencoded_pairs(query@)), params) {
                (Ok(expected), Ok(p)) => p@ == expected,
                (Err(text), Err(e)) => e@ == text,
                _ => false,
            },
    {
        let pairs = decode_pairs(query);
        QueryParams::from_pairs(&pairs)
    }

    /// Reads the parameters from the pairs of a query string.
    pub fn from_pairs(pairs: &Vec<(String, String)>) -> (params: Result<QueryParams, String>)
        ensures
            match (query_params(pairs_view(pairs@)), params) {
                (Ok(expected), Ok(p)) => p@ == expected,
                (Err(text), Err(e)) => e@ == text,
                _ => false,
            },
    {
        let fields: Vec<Field> = vec![
            Field { name: "d", alias: "database" },
            Field { name: "q", alias: "query" },
            Field { name: "format", alias: "format" },
        ];
        assert(fields@ =~= query_fields());
        match collect_fields(&fields, pairs) {
            Err(field) => Err(concat3("duplicate field `", fields[field].name, "`")),
            Ok(values) => match (&values[0], &values[1]) {
                (None, _) => Err(concat3("missing field `", "d", "`")),
                (Some(_), None) => Err(concat3("missing field `", "q", "`")),
                (Some(d), Some(q)) => {
                    let format: String = match &values[2] {
                        Some(format) => format.clone(),
                        None => default_format(),
                    };
                    Ok(QueryParams { d: d.clone(), q: q.clone(), format })
                },
            },
        }
    }
}

} // verus!
