//! Trusted boundary around the `rusqlite` database connection.
//!
//! The log store and the config store keep their rows in SQLite tables.
//! A connection's tables are modelled by uninterpreted spec functions:
//! `db_*` gives the committed contents of a table (the rows a fresh
//! connection to the same database would see; a table that does not exist
//! holds no rows), and `pend_*` gives the contents as currently visible to
//! this connection (inside an open transaction the two differ).
//! `db_autocommit` says whether no transaction is open on the connection,
//! in which case visible and committed contents coincide.
//!
//! Every executable item in this module is an `external_body` wrapper whose
//! contract states, over those names, what the wrapped `rusqlite` call and
//! its fixed SQL text do.

use vstd::prelude::*;

verus! {

#[verifier::external_type_specification]
#[verifier::external_body]
pub struct ExConnection(rusqlite::Connection);

#[verifier::external_type_specification]
#[verifier::external_body]
pub struct ExSqliteError(rusqlite::Error);

/// True when no transaction is open on the connection (SQLite autocommit mode).
pub uninterp spec fn db_autocommit(c: rusqlite::Connection) -> bool;

/// Committed rows of `requests`, in rowid order: (packet_id, proxy_id,
/// method, authority, path, query, body).
pub uninterp spec fn db_requests(c: rusqlite::Connection) -> Seq<
    (i64, i64, Seq<char>, Seq<char>, Seq<char>, Option<Seq<char>>, Seq<u8>),
>;

/// Committed rows of `request_headers`: (packet_id, key, value).
pub uninterp spec fn db_request_headers(c: rusqlite::Connection) -> Seq<
    (i64, Seq<char>, Seq<char>),
>;

/// Committed rows of `responses`: (packet_id, status, body).
pub uninterp spec fn db_responses(c: rusqlite::Connection) -> Seq<(i64, i64, Seq<u8>)>;

/// Committed rows of `response_headers`: (packet_id, key, value).
pub uninterp spec fn db_response_headers(c: rusqlite::Connection) -> Seq<
    (i64, Seq<char>, Seq<char>),
>;

/// Rows of `requests` as visible to this connection (pending writes included).
pub uninterp spec fn pend_requests(c: rusqlite::Connection) -> Seq<
    (i64, i64, Seq<char>, Seq<char>, Seq<char>, Option<Seq<char>>, Seq<u8>),
>;

/// Rows of `request_headers` as visible to this connection.
pub uninterp spec fn pend_request_headers(c: rusqlite::Connection) -> Seq<
    (i64, Seq<char>, Seq<char>),
>;

/// Rows of `responses` as visible to this connection.
pub uninterp spec fn pend_responses(c: rusqlite::Connection) -> Seq<(i64, i64, Seq<u8>)>;

/// Rows of `response_headers` as visible to this connection.
pub uninterp spec fn pend_response_headers(c: rusqlite::Connection) -> Seq<
    (i64, Seq<char>, Seq<char>),
>;

/// Committed rows of `projects`: the project names, in insertion order.
pub uninterp spec fn db_projects(c: rusqlite::Connection) -> Seq<Seq<char>>;

/// Committed rows of `proxies`: (proxy_id, port, auto_start).
pub uninterp spec fn db_proxies(c: rusqlite::Connection) -> Seq<(i64, i64, bool)>;

/// Relies on `rusqlite::Connection::open_in_memory`: a fresh in-memory
/// database holds no tables, hence no rows, and starts in autocommit mode.
#[verifier::external_body]
pub(crate) fn db_open_in_memory() -> (r: Result<rusqlite::Connection, rusqlite::Error>)
    ensures
        r matches Ok(c) ==> db_autocommit(c) && db_requests(c).len() == 0
            && db_request_headers(c).len() == 0 && db_responses(c).len() == 0
            && db_response_headers(c).len() == 0 && db_projects(c).len() == 0
            && db_proxies(c).len() == 0,
{
    rusqlite::Connection::open_in_memory()
}

/// Relies on `rusqlite::Connection::is_autocommit`. When no transaction is
/// open, the rows visible to the connection are the committed rows.
#[verifier::external_body]
pub(crate) fn db_is_autocommit(c: &rusqlite::Connection) -> (r: bool)
    ensures
        r == db_autocommit(*c),
        r ==> pend_requests(*c) == db_requests(*c)
            && pend_request_headers(*c) == db_request_headers(*c)
            && pend_responses(*c) == db_responses(*c)
            && pend_response_headers(*c) == db_response_headers(*c),
{
    c.is_autocommit()
}

/// Relies on `rusqlite::Connection::execute_batch` with `CREATE TABLE IF NOT
/// EXISTS` statements: creating a missing table gives it no rows, an existing
/// table is left as it is, and DDL outside a transaction leaves the
/// connection in autocommit mode.
#[verifier::external_body]
pub(crate) fn db_apply_log_schema(c: &mut rusqlite::Connection) -> (r: Result<
    (),
    rusqlite::Error,
>)
    requires
        db_autocommit(*old(c)),
    ensures
        db_autocommit(*final(c)),
        db_requests(*final(c)) == db_requests(*old(c)),
        db_request_headers(*final(c)) == db_request_headers(*old(c)),
        db_responses(*final(c)) == db_responses(*old(c)),
        db_response_headers(*final(c)) == db_response_headers(*old(c)),
{
    c.execute_batch(
        "CREATE TABLE IF NOT EXISTS requests (packet_id INTEGER UNIQUE NOT NULL, proxy_id INTEGER NOT NULL, method TEXT NOT NULL, authority TEXT NOT NULL, path TEXT NOT NULL, query TEXT, body BLOB);
         CREATE TABLE IF NOT EXISTS responses (packet_id INTEGER UNIQUE NOT NULL, status INTEGER NOT NULL, body BLOB);
         CREATE TABLE IF NOT EXISTS request_headers (packet_id INTEGER NOT NULL, key TEXT NOT NULL, value TEXT NOT NULL);
         CREATE TABLE IF NOT EXISTS response_headers (packet_id INTEGER NOT NULL, key TEXT NOT NULL, value TEXT NOT NULL);",
    )
}

/// Relies on `rusqlite::Connection::execute_batch` with `BEGIN`: on success a
/// transaction is open, committed rows are untouched, and the rows visible in
/// the new transaction are the committed rows; a failed `BEGIN` changes
/// nothing.
#[verifier::external_body]
pub(crate) fn db_begin(c: &mut rusqlite::Connection) -> (r: Result<(), rusqlite::Error>)
    ensures
        db_requests(*final(c)) == db_requests(*old(c)),
        db_request_headers(*final(c)) == db_request_headers(*old(c)),
        db_responses(*final(c)) == db_responses(*old(c)),
        db_response_headers(*final(c)) == db_response_headers(*old(c)),
        db_projects(*final(c)) == db_projects(*old(c)),
        db_proxies(*final(c)) == db_proxies(*old(c)),
        r matches Ok(u) ==> !db_autocommit(*final(c))
            && pend_requests(*final(c)) == db_requests(*old(c))
            && pend_request_headers(*final(c)) == db_request_headers(*old(c))
            && pend_responses(*final(c)) == db_responses(*old(c))
            && pend_response_headers(*final(c)) == db_response_headers(*old(c)),
        r matches Err(e) ==> db_autocommit(*final(c)) == db_autocommit(*old(c))
            && pend_requests(*final(c)) == pend_requests(*old(c))
            && pend_request_headers(*final(c)) == pend_request_headers(*old(c))
            && pend_responses(*final(c)) == pend_responses(*old(c))
            && pend_response_headers(*final(c)) == pend_response_headers(*old(c)),
{
    c.execute_batch("BEGIN")
}

/// Relies on `rusqlite::Connection::execute_batch` with `COMMIT`: on success
/// the rows visible in the transaction become the committed rows and the
/// connection returns to autocommit mode; a failed `COMMIT` commits nothing.
#[verifier::external_body]
pub(crate) fn db_commit(c: &mut rusqlite::Connection) -> (r: Result<(), rusqlite::Error>)
    ensures
        r matches Ok(u) ==> db_autocommit(*final(c))
            && db_requests(*final(c)) == pend_requests(*old(c))
            && db_request_headers(*final(c)) == pend_request_headers(*old(c))
            && db_responses(*final(c)) == pend_responses(*old(c))
            && db_response_headers(*final(c)) == pend_response_headers(*old(c)),
        r matches Err(e) ==> db_requests(*final(c)) == db_requests(*old(c))
            && db_request_headers(*final(c)) == db_request_headers(*old(c))
            && db_responses(*final(c)) == db_responses(*old(c))
            && db_response_headers(*final(c)) == db_response_headers(*old(c))
            && db_projects(*final(c)) == db_projects(*old(c))
            && db_proxies(*final(c)) == db_proxies(*old(c)),
{
    c.execute_batch("COMMIT")
}

/// Relies on `rusqlite::Connection::execute_batch` with `ROLLBACK`, and on
/// SQLite's error handling: either the rollback succeeds and discards the
/// pending writes, or it fails because the transaction was already rolled
/// back automatically by an earlier error. Both ways no transaction remains
/// open and the committed rows are untouched. The exclusive borrow rules out
/// open cursors, the one other way a rollback could fail.
#[verifier::external_body]
pub(crate) fn db_rollback_best_effort(c: &mut rusqlite::Connection)
    ensures
        db_autocommit(*final(c)),
        db_requests(*final(c)) == db_requests(*old(c)),
        db_request_headers(*final(c)) == db_request_headers(*old(c)),
        db_responses(*final(c)) == db_responses(*old(c)),
        db_response_headers(*final(c)) == db_response_headers(*old(c)),
        db_projects(*final(c)) == db_projects(*old(c)),
        db_proxies(*final(c)) == db_proxies(*old(c)),
{
    let _ = c.execute_batch("ROLLBACK");
}

/// Relies on `rusqlite::Connection::query_row` with
/// `SELECT MAX(packet_id) FROM requests`: `MAX` returns the largest
/// `packet_id` among the visible rows, or NULL when there are none.
#[verifier::external_body]
pub(crate) fn db_max_packet_id(c: &rusqlite::Connection) -> (r: Result<
    Option<i64>,
    rusqlite::Error,
>)
    requires
        db_autocommit(*c),
    ensures
        r matches Ok(m) ==> match m {
            Some(mx) => (forall|i: int|
                0 <= i < db_requests(*c).len() ==> #[trigger] db_requests(*c)[i].0 <= mx)
                && (exists|i: int|
                0 <= i < db_requests(*c).len() && #[trigger] db_requests(*c)[i].0 == mx),
            None => db_requests(*c).len() == 0,
        },
{
    c.query_row("SELECT MAX(packet_id) FROM requests", [], |row| row.get(0))
}

/// Relies on `rusqlite::Connection::execute` with an `INSERT INTO requests`
/// statement inside an open transaction: on success exactly the given row is
/// appended to the visible rows of `requests`; committed rows never change,
/// and on failure the visible rows of the other tables are untouched.
#[verifier::external_body]
pub(crate) fn db_insert_request_row(
    c: &mut rusqlite::Connection,
    packet_id: i64,
    proxy_id: i64,
    method: &String,
    authority: &String,
    path: &String,
    query: &Option<String>,
    body: &Vec<u8>,
) -> (r: Result<(), rusqlite::Error>)
    requires
        !db_autocommit(*old(c)),
    ensures
        db_requests(*final(c)) == db_requests(*old(c)),
        db_request_headers(*final(c)) == db_request_headers(*old(c)),
        db_responses(*final(c)) == db_responses(*old(c)),
        db_response_headers(*final(c)) == db_response_headers(*old(c)),
        r matches Ok(u) ==> !db_autocommit(*final(c))
            && pend_requests(*final(c)) == pend_requests(*old(c)).push(
                (packet_id, proxy_id, method@, authority@, path@,
                    match query { Some(q) => Some(q@), None => None }, body@),
            )
            && pend_request_headers(*final(c)) == pend_request_headers(*old(c))
            && pend_responses(*final(c)) == pend_responses(*old(c))
            && pend_response_headers(*final(c)) == pend_response_headers(*old(c)),
{
    c.execute(
        "INSERT INTO requests (packet_id, proxy_id, method, authority, path, query, body)
         VALUES (?1, ?2, ?3, ?4, ?5, ?6, ?7)",
        (packet_id, proxy_id, method, authority, path, query, body),
    ).map(|_| ())
}

/// Relies on `rusqlite::Connection::execute` with an `INSERT INTO
/// request_headers` statement inside an open transaction, as
/// `db_insert_request_row` does for `requests`.
#[verifier::external_body]
pub(crate) fn db_insert_request_header_row(
    c: &mut rusqlite::Connection,
    packet_id: i64,
    key: &String,
    value: &String,
) -> (r: Result<(), rusqlite::Error>)
    requires
        !db_autocommit(*old(c)),
    ensures
        db_requests(*final(c)) == db_requests(*old(c)),
        db_request_headers(*final(c)) == db_request_headers(*old(c)),
        db_responses(*final(c)) == db_responses(*old(c)),
        db_response_headers(*final(c)) == db_response_headers(*old(c)),
        r matches Ok(u) ==> !db_autocommit(*final(c))
            && pend_requests(*final(c)) == pend_requests(*old(c))
            && pend_request_headers(*final(c)) == pend_request_headers(*old(c)).push(
                (packet_id, key@, value@),
            )
            && pend_responses(*final(c)) == pend_responses(*old(c))
            && pend_response_headers(*final(c)) == pend_response_headers(*old(c)),
{
    c.execute(
        "INSERT INTO request_headers (packet_id, key, value) VALUES (?1, ?2, ?3)",
        (packet_id, key, value),
    ).map(|_| ())
}

/// Relies on `rusqlite::Connection::execute` with an `INSERT INTO responses`
/// statement inside an open transaction, as `db_insert_request_row` does for
/// `requests`.
#[verifier::external_body]
pub(crate) fn db_insert_response_row(
    c: &mut rusqlite::Connection,
    packet_id: i64,
    status: i64,
    body: &Vec<u8>,
) -> (r: Result<(), rusqlite::Error>)
    requires
        !db_autocommit(*old(c)),
    ensures
        db_requests(*final(c)) == db_requests(*old(c)),
        db_request_headers(*final(c)) == db_request_headers(*old(c)),
        db_responses(*final(c)) == db_responses(*old(c)),
        db_response_headers(*final(c)) == db_response_headers(*old(c)),
        r matches Ok(u) ==> !db_autocommit(*final(c))
            && pend_requests(*final(c)) == pend_requests(*old(c))
            && pend_request_headers(*final(c)) == pend_request_headers(*old(c))
            && pend_responses(*final(c)) == pend_responses(*old(c)).push(
                (packet_id, status, body@),
            )
            && pend_response_headers(*final(c)) == pend_response_headers(*old(c)),
{
    c.execute(
        "INSERT INTO responses (packet_id, status, body) VALUES (?1, ?2, ?3)",
        (packet_id, status, body),
    ).map(|_| ())
}

/// Relies on `rusqlite::Connection::execute` with an `INSERT INTO
/// response_headers` statement inside an open transaction, as
/// `db_insert_request_row` does for `requests`.
#[verifier::external_body]
pub(crate) fn db_insert_response_header_row(
    c: &mut rusqlite::Connection,
    packet_id: i64,
    key: &String,
    value: &String,
) -> (r: Result<(), rusqlite::Error>)
    requires
        !db_autocommit(*old(c)),
    ensures
        db_requests(*final(c)) == db_requests(*old(c)),
        db_request_headers(*final(c)) == db_request_headers(*old(c)),
        db_responses(*final(c)) == db_responses(*old(c)),
        db_response_headers(*final(c)) == db_response_headers(*old(c)),
        r matches Ok(u) ==> !db_autocommit(*final(c))
            && pend_requests(*final(c)) == pend_requests(*old(c))
            && pend_request_headers(*final(c)) == pend_request_headers(*old(c))
            && pend_responses(*final(c)) == pend_responses(*old(c))
            && pend_response_headers(*final(c)) == pend_response_headers(*old(c)).push(
                (packet_id, key@, value@),
            ),
{
    c.execute(
        "INSERT INTO response_headers (packet_id, key, value) VALUES (?1, ?2, ?3)",
        (packet_id, key, value),
    ).map(|_| ())
}

/// Projection of a `requests` row to its metadata columns.
pub open spec fn req_meta_of(
    row: (i64, i64, Seq<char>, Seq<char>, Seq<char>, Option<Seq<char>>, Seq<u8>),
) -> (i64, i64, Seq<char>, Seq<char>, Seq<char>, Option<Seq<char>>) {
    (row.0, row.1, row.2, row.3, row.4, row.5)
}

/// View of an executable metadata row as returned by `db_select_metadata`.
pub open spec fn meta_row_view(
    t: (i64, i64, String, String, String, Option<String>),
) -> (i64, i64, Seq<char>, Seq<char>, Seq<char>, Option<Seq<char>>) {
    (t.0, t.1, t.2@, t.3@, t.4@, match t.5 {
        Some(q) => Some(q@),
        None => None,
    })
}

/// The views of a vector of metadata rows.
pub open spec fn meta_rows_view(v: Seq<(i64, i64, String, String, String, Option<String>)>) -> Seq<
    (i64, i64, Seq<char>, Seq<char>, Seq<char>, Option<Seq<char>>),
> {
    v.map_values(|t: (i64, i64, String, String, String, Option<String>)| meta_row_view(t))
}

/// The metadata projections of a table of `requests` rows.
pub open spec fn req_metas_of(
    rows: Seq<(i64, i64, Seq<char>, Seq<char>, Seq<char>, Option<Seq<char>>, Seq<u8>)>,
) -> Seq<(i64, i64, Seq<char>, Seq<char>, Seq<char>, Option<Seq<char>>)> {
    rows.map_values(
        |row: (i64, i64, Seq<char>, Seq<char>, Seq<char>, Option<Seq<char>>, Seq<u8>)|
            req_meta_of(row),
    )
}

/// The views of a vector of string pairs.
pub open spec fn str_pairs_view(v: Seq<(String, String)>) -> Seq<(Seq<char>, Seq<char>)> {
    v.map_values(|kv: (String, String)| (kv.0@, kv.1@))
}

/// Relies on `rusqlite::Statement::query_map` with `SELECT packet_id,
/// proxy_id, method, authority, path, query FROM requests ORDER BY
/// packet_id`: the result holds the metadata of every visible `requests` row,
/// sorted by `packet_id` ascending.
#[verifier::external_body]
pub(crate) fn db_select_metadata(c: &rusqlite::Connection) -> (r: Result<
    Vec<(i64, i64, String, String, String, Option<String>)>,
    rusqlite::Error,
>)
    requires
        db_autocommit(*c),
    ensures
        r matches Ok(v) ==> meta_rows_view(v@).to_multiset() == req_metas_of(
            db_requests(*c),
        ).to_multiset() && (forall|i: int, j: int|
            0 <= i <= j < v@.len() ==> #[trigger] v@[i].0 <= #[trigger] v@[j].0),
{
    let mut stmt = c.prepare(
        "SELECT packet_id, proxy_id, method, authority, path, query
         FROM requests ORDER BY packet_id",
    )?;
    let rows = stmt.query_map([], |row| {
        Ok((row.get(0)?, row.get(1)?, row.get(2)?, row.get(3)?, row.get(4)?, row.get(5)?))
    })?;
    rows.collect()
}

/// Relies on `rusqlite::Connection::query_row` with `SELECT ... FROM requests
/// WHERE packet_id = ?1 LIMIT 1`: some visible row carries exactly the
/// returned columns, or no visible row has that `packet_id`.
#[verifier::external_body]
pub(crate) fn db_select_request(c: &rusqlite::Connection, packet_id: i64) -> (r: Result<
    Option<(i64, String, String, String, Option<String>, Vec<u8>)>,
    rusqlite::Error,
>)
    requires
        db_autocommit(*c),
    ensures
        r matches Ok(o) ==> match o {
            Some(t) => db_requests(*c).contains(
                (packet_id, t.0, t.1@, t.2@, t.3@,
                    match t.4 {
                        Some(q) => Some(q@),
                        None => None,
                    }, t.5@),
            ),
            None => forall|i: int|
                0 <= i < db_requests(*c).len() ==> #[trigger] db_requests(*c)[i].0 != packet_id,
        },
{
    let res = c.query_row(
        "SELECT proxy_id, method, authority, path, query, body
         FROM requests WHERE packet_id = ?1 LIMIT 1",
        [packet_id],
        |row| {
            Ok((row.get(0)?, row.get(1)?, row.get(2)?, row.get(3)?, row.get(4)?, row.get(5)?))
        },
    );
    match res {
        Ok(t) => Ok(Some(t)),
        Err(rusqlite::Error::QueryReturnedNoRows) => Ok(None),
        Err(e) => Err(e),
    }
}

/// Relies on `rusqlite::Connection::query_row` with `SELECT status, body FROM
/// responses WHERE packet_id = ?1 LIMIT 1`, as `db_select_request` does for
/// `requests`.
#[verifier::external_body]
pub(crate) fn db_select_response(c: &rusqlite::Connection, packet_id: i64) -> (r: Result<
    Option<(i64, Vec<u8>)>,
    rusqlite::Error,
>)
    requires
        db_autocommit(*c),
    ensures
        r matches Ok(o) ==> match o {
            Some(t) => db_responses(*c).contains((packet_id, t.0, t.1@)),
            None => forall|i: int|
                0 <= i < db_responses(*c).len() ==> #[trigger] db_responses(*c)[i].0 != packet_id,
        },
{
    let res = c.query_row(
        "SELECT status, body FROM responses WHERE packet_id = ?1 LIMIT 1",
        [packet_id],
        |row| Ok((row.get(0)?, row.get(1)?)),
    );
    match res {
        Ok(t) => Ok(Some(t)),
        Err(rusqlite::Error::QueryReturnedNoRows) => Ok(None),
        Err(e) => Err(e),
    }
}

/// The header pairs stored for one packet: the rows of a header table with
/// that packet id, in table order, projected to (key, value).
pub open spec fn headers_for(hdrs: Seq<(i64, Seq<char>, Seq<char>)>, packet_id: i64) -> Seq<
    (Seq<char>, Seq<char>),
>
    decreases hdrs.len(),
{
    if hdrs.len() == 0 {
        Seq::empty()
    } else if hdrs.first().0 == packet_id {
        seq![(hdrs.first().1, hdrs.first().2)] + headers_for(hdrs.drop_first(), packet_id)
    } else {
        headers_for(hdrs.drop_first(), packet_id)
    }
}

/// Relies on `rusqlite::Statement::query_map` with `SELECT key, value FROM
/// request_headers WHERE packet_id = ?1 ORDER BY rowid`: the result holds
/// exactly the visible header rows of that packet, in rowid order.
#[verifier::external_body]
pub(crate) fn db_select_request_headers(c: &rusqlite::Connection, packet_id: i64) -> (r: Result<
    Vec<(String, String)>,
    rusqlite::Error,
>)
    requires
        db_autocommit(*c),
    ensures
        r matches Ok(v) ==> str_pairs_view(v@) == headers_for(db_request_headers(*c), packet_id),
{
    let mut stmt = c.prepare(
        "SELECT key, value FROM request_headers WHERE packet_id = ?1 ORDER BY rowid",
    )?;
    let rows = stmt.query_map([packet_id], |row| Ok((row.get(0)?, row.get(1)?)))?;
    rows.collect()
}

/// Relies on `rusqlite::Statement::query_map` with `SELECT key, value FROM
/// response_headers WHERE packet_id = ?1 ORDER BY rowid`, as
/// `db_select_request_headers` does.
#[verifier::external_body]
pub(crate) fn db_select_response_headers(c: &rusqlite::Connection, packet_id: i64) -> (r: Result<
    Vec<(String, String)>,
    rusqlite::Error,
>)
    requires
        db_autocommit(*c),
    ensures
        r matches Ok(v) ==> str_pairs_view(v@) == headers_for(db_response_headers(*c), packet_id),
{
    let mut stmt = c.prepare(
        "SELECT key, value FROM response_headers WHERE packet_id = ?1 ORDER BY rowid",
    )?;
    let rows = stmt.query_map([packet_id], |row| Ok((row.get(0)?, row.get(1)?)))?;
    rows.collect()
}

/// Relies on `rusqlite::Connection::execute_batch` with `CREATE TABLE IF NOT
/// EXISTS` statements for the `projects` and `proxies` tables, as
/// `db_apply_log_schema` does for the log tables.
#[verifier::external_body]
pub(crate) fn db_apply_config_schema(c: &mut rusqlite::Connection) -> (r: Result<
    (),
    rusqlite::Error,
>)
    requires
        db_autocommit(*old(c)),
    ensures
        db_autocommit(*final(c)),
        db_projects(*final(c)) == db_projects(*old(c)),
        db_proxies(*final(c)) == db_proxies(*old(c)),
{
    c.execute_batch(
        "CREATE TABLE IF NOT EXISTS projects (name TEXT);
         CREATE TABLE IF NOT EXISTS proxies (proxy_id INTEGER UNIQUE NOT NULL, port INTEGER NOT NULL, auto_start INTEGER NOT NULL);",
    )
}

/// The project names with every occurrence of one name removed, order kept.
pub open spec fn projects_without(ps: Seq<Seq<char>>, name: Seq<char>) -> Seq<Seq<char>>
    decreases ps.len(),
{
    if ps.len() == 0 {
        Seq::empty()
    } else if ps.first() == name {
        projects_without(ps.drop_first(), name)
    } else {
        seq![ps.first()] + projects_without(ps.drop_first(), name)
    }
}

/// The views of a vector of strings.
pub open spec fn strs_view(v: Seq<String>) -> Seq<Seq<char>> {
    v.map_values(|s: String| s@)
}

/// Relies on `rusqlite::Connection::execute` with `INSERT INTO projects`
/// outside a transaction: on success exactly the given name is appended to
/// the committed rows, and the statement commits on its own.
#[verifier::external_body]
pub(crate) fn db_insert_project(c: &mut rusqlite::Connection, name: &str) -> (r: Result<
    (),
    rusqlite::Error,
>)
    requires
        db_autocommit(*old(c)),
    ensures
        db_autocommit(*final(c)),
        db_proxies(*final(c)) == db_proxies(*old(c)),
        r matches Ok(u) ==> db_projects(*final(c)) == db_projects(*old(c)).push(name@),
        r matches Err(e) ==> db_projects(*final(c)) == db_projects(*old(c)),
{
    c.execute("INSERT INTO projects (name) VALUES (?1)", [name]).map(|_| ())
}

/// Relies on `rusqlite::Connection::execute` with `DELETE FROM projects WHERE
/// name = ?1` outside a transaction: on success every row with that name is
/// gone and the others keep their order.
#[verifier::external_body]
pub(crate) fn db_delete_project(c: &mut rusqlite::Connection, name: &str) -> (r: Result<
    (),
    rusqlite::Error,
>)
    requires
        db_autocommit(*old(c)),
    ensures
        db_autocommit(*final(c)),
        db_proxies(*final(c)) == db_proxies(*old(c)),
        r matches Ok(u) ==> db_projects(*final(c)) == projects_without(
            db_projects(*old(c)),
            name@,
        ),
        r matches Err(e) ==> db_projects(*final(c)) == db_projects(*old(c)),
{
    c.execute("DELETE FROM projects WHERE name = ?1", [name]).map(|_| ())
}

/// Relies on `rusqlite::Statement::query_map` with `SELECT name FROM projects
/// ORDER BY rowid`: the result is exactly the committed project names, in
/// rowid order.
#[verifier::external_body]
pub(crate) fn db_select_projects(c: &rusqlite::Connection) -> (r: Result<
    Vec<String>,
    rusqlite::Error,
>)
    requires
        db_autocommit(*c),
    ensures
        r matches Ok(v) ==> strs_view(v@) == db_projects(*c),
{
    let mut stmt = c.prepare("SELECT name FROM projects ORDER BY rowid")?;
    let rows = stmt.query_map([], |row| row.get(0))?;
    rows.collect()
}

/// Relies on `rusqlite::Connection::execute` with `INSERT INTO proxies`
/// outside a transaction: on success exactly the given row is appended.
/// The `auto_start` component of the model is whether the column is nonzero,
/// which is how SQLite stores and reads back a boolean. Success also rules
/// out a committed row under the same id: the schema `db_apply_config_schema`
/// creates declares `proxy_id INTEGER UNIQUE NOT NULL`, and a duplicate
/// insert fails the constraint.
#[verifier::external_body]
pub(crate) fn db_insert_proxy(
    c: &mut rusqlite::Connection,
    proxy_id: i64,
    port: i64,
    auto_start: bool,
) -> (r: Result<(), rusqlite::Error>)
    requires
        db_autocommit(*old(c)),
    ensures
        db_autocommit(*final(c)),
        db_projects(*final(c)) == db_projects(*old(c)),
        r matches Ok(u) ==> db_proxies(*final(c)) == db_proxies(*old(c)).push(
            (proxy_id, port, auto_start),
        ) && (forall|i: int|
            0 <= i < db_proxies(*old(c)).len() ==> (#[trigger] db_proxies(*old(c))[i]).0
                != proxy_id),
        r matches Err(e) ==> db_proxies(*final(c)) == db_proxies(*old(c)),
{
    c.execute(
        "INSERT INTO proxies (proxy_id, port, auto_start) VALUES (?1, ?2, ?3)",
        (proxy_id, port, auto_start),
    ).map(|_| ())
}

/// Relies on `rusqlite::Statement::query_map` with `SELECT proxy_id, port,
/// auto_start FROM proxies ORDER BY rowid`: the result is exactly the
/// committed proxy rows, in rowid order.
#[verifier::external_body]
pub(crate) fn db_select_proxies(c: &rusqlite::Connection) -> (r: Result<
    Vec<(i64, i64, bool)>,
    rusqlite::Error,
>)
    requires
        db_autocommit(*c),
    ensures
        r matches Ok(v) ==> v@ == db_proxies(*c),
{
    let mut stmt = c.prepare("SELECT proxy_id, port, auto_start FROM proxies ORDER BY rowid")?;
    let rows = stmt.query_map([], |row| Ok((row.get(0)?, row.get(1)?, row.get(2)?)))?;
    rows.collect()
}

} // verus!
