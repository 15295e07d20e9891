# influxdb_iox

Request tracing, query planning helpers and the HTTP request rules of a time
series database server, written in Verus.

* `src/trace`: spans with their events, status, metadata and links, the contexts
  that tie them into traces, and a recorder that starts, fills in and finishes a
  span. `laws.rs` states what holds across operations: the first status stays,
  a finished span is an interval even if the clock goes back, a span is exported
  at most once.
* `src/query`: sort keys as references to the columns of an Arrow schema, scan
  plans of record batches, and the inputs of DataFusion's physical expressions.
  `planner.rs` holds what is taken for granted of Arrow and DataFusion.
* `src/http`: routing, the steps of the delete and query endpoints, the
  parameters of a query string, and the text and answer of every error. `laws.rs`
  states what holds of a whole request.
* `src/time.rs`, `src/text.rs`: points in time and comparing text.
* `app`: the server around the library. It waits, sends and answers with Hyper,
  draws identifiers, logs, and exports a span when its recorder is dropped.

A collector is reached by a handle of any type, so the library never calls one:
it parts a span from its handle and returns both. In the same way an endpoint is
a chain of steps that say what the server is to do next and take the outcome.
What an outcome brings (a database, a predicate, a plan, results) is of any type
too, and goes unchanged to the steps that need it. So does the span context of a
request.
