//! The packet log store: project-scoped persistence of intercepted
//! request/response pairs under a monotonically increasing packet id.
//!
//! The store owns at most one database connection, swapped when the project
//! changes. A pair is inserted atomically: either every row of the pair
//! becomes visible, or none does.

use vstd::prelude::*;
use vstd::string::StringExecFns;
use crate::render;
use crate::sqlite;
use crate::PacketId;
use crate::ProxyId;

verus! {

/// Model of one `requests` row:
/// (packet_id, proxy_id, method, authority, path, query, body).
pub type ReqRowModel = (i64, i64, Seq<char>, Seq<char>, Seq<char>, Option<Seq<char>>, Seq<u8>);

/// Model of one header row: (packet_id, key, value).
pub type HeaderRowModel = (i64, Seq<char>, Seq<char>);

/// Model of one `responses` row: (packet_id, status, body).
pub type RespRowModel = (i64, i64, Seq<u8>);

/// Errors of the stores backed by the database.
#[derive(Debug)]
pub enum DbError {
    /// A log operation was invoked before `select_project_db`.
    NoDatabaseSelected,
    /// The underlying database reported an error.
    SqliteError(rusqlite::Error),
    /// An identifier does not fit the machine's integer range.
    OutOfRange,
    /// The supplied connection has a transaction open and cannot be adopted.
    UnusableConnection,
}

impl DbError {
    /// A short description of the error, for display.
    pub fn message(&self) -> (r: String)
        ensures
            self is NoDatabaseSelected ==> r@ == "no database selected"@,
            self is SqliteError ==> r@ == "database error"@,
            self is OutOfRange ==> r@ == "value out of range"@,
            self is UnusableConnection ==> r@ == "connection cannot be adopted"@,
    {
        match self {
            DbError::NoDatabaseSelected => String::from_str("no database selected"),
            DbError::SqliteError(e) => String::from_str("database error"),
            DbError::OutOfRange => String::from_str("value out of range"),
            DbError::UnusableConnection => String::from_str("connection cannot be adopted"),
        }
    }
}

pub open spec fn opt_str_view(q: Option<String>) -> Option<Seq<char>> {
    match q {
        Some(s) => Some(s@),
        None => None,
    }
}

/// The query component as rendered in metadata: absent means empty.
pub open spec fn query_or_empty(q: Option<Seq<char>>) -> Seq<char> {
    match q {
        Some(s) => s,
        None => Seq::empty(),
    }
}

/// A captured request, ready to be logged.
pub struct RequestRecord {
    pub method: String,
    pub authority: String,
    pub path: String,
    pub query: Option<String>,
    pub headers: Vec<(String, String)>,
    pub body: Vec<u8>,
}

/// A captured origin response, ready to be logged.
pub struct ResponseRecord {
    pub status: u16,
    pub headers: Vec<(String, String)>,
    pub body: Vec<u8>,
}

impl RequestRecord {
    /// The `requests` row this record inserts under the given ids.
    pub open spec fn row_model(self, packet_id: i64, proxy_id: i64) -> ReqRowModel {
        (packet_id, proxy_id, self.method@, self.authority@, self.path@,
            opt_str_view(self.query), self.body@)
    }

    pub open spec fn headers_view(self) -> Seq<(Seq<char>, Seq<char>)> {
        sqlite::str_pairs_view(self.headers@)
    }
}

impl ResponseRecord {
    /// The `responses` row this record inserts under the given packet id.
    pub open spec fn row_model(self, packet_id: i64) -> RespRowModel {
        (packet_id, self.status as i64, self.body@)
    }

    pub open spec fn headers_view(self) -> Seq<(Seq<char>, Seq<char>)> {
        sqlite::str_pairs_view(self.headers@)
    }
}

/// The header-table rows written for a packet, in order.
pub open spec fn header_rows_model(packet_id: i64, hdrs: Seq<(Seq<char>, Seq<char>)>) -> Seq<
    HeaderRowModel,
> {
    hdrs.map_values(|kv: (Seq<char>, Seq<char>)| (packet_id, kv.0, kv.1))
}

/// The largest packet id among the table's rows (meaningful only when
/// there are rows).
pub open spec fn spec_max_id(rows: Seq<ReqRowModel>) -> int
    decreases rows.len(),
{
    if rows.len() == 0 {
        0
    } else if rows.len() == 1 {
        rows.last().0 as int
    } else if rows.last().0 as int > spec_max_id(rows.drop_last()) {
        rows.last().0 as int
    } else {
        spec_max_id(rows.drop_last())
    }
}

/// The packet id the store allocates over a table: one above the largest
/// committed id, or zero when the table is empty or holds only negative
/// ids.
pub open spec fn allocated_id(rows: Seq<ReqRowModel>) -> int {
    if rows.len() == 0 {
        0
    } else if spec_max_id(rows) < 0 {
        0
    } else {
        spec_max_id(rows) + 1
    }
}

/// `spec_max_id` bounds every id and is attained on a nonempty table.
proof fn lemma_spec_max_id_bounds(rows: Seq<ReqRowModel>)
    ensures
        forall|i: int| 0 <= i < rows.len() ==> (#[trigger] rows[i]).0 as int <= spec_max_id(rows),
        rows.len() > 0 ==> exists|i: int|
            0 <= i < rows.len() && (#[trigger] rows[i]).0 as int == spec_max_id(rows),
    decreases rows.len(),
{
    if rows.len() > 1 {
        lemma_spec_max_id_bounds(rows.drop_last());
        assert(forall|i: int|
            0 <= i < rows.len() - 1 ==> #[trigger] rows[i] == rows.drop_last()[i]);
        if rows.last().0 as int > spec_max_id(rows.drop_last()) {
            assert(rows[rows.len() - 1].0 as int == spec_max_id(rows));
        } else {
            let w = choose|i: int|
                0 <= i < rows.drop_last().len() && (#[trigger] rows.drop_last()[i]).0 as int
                    == spec_max_id(rows.drop_last());
            assert(rows[w].0 as int == spec_max_id(rows));
        }
    } else if rows.len() == 1 {
        assert(rows[0].0 as int == spec_max_id(rows));
    }
}

/// The project-scoped packet log store.
pub struct LogStore {
    conn: Option<rusqlite::Connection>,
}

impl LogStore {
    #[verifier::type_invariant]
    spec fn wf(self) -> bool {
        self.conn matches Some(c) ==> sqlite::db_autocommit(c)
    }

    /// Whether a project database has been selected.
    pub closed spec fn selected(self) -> bool {
        self.conn is Some
    }

    /// The committed `requests` rows of the selected project database.
    pub closed spec fn requests(self) -> Seq<ReqRowModel> {
        if self.conn is Some {
            sqlite::db_requests(self.conn->0)
        } else {
            Seq::empty()
        }
    }

    /// The committed `request_headers` rows.
    pub closed spec fn request_headers(self) -> Seq<HeaderRowModel> {
        if self.conn is Some {
            sqlite::db_request_headers(self.conn->0)
        } else {
            Seq::empty()
        }
    }

    /// The committed `responses` rows.
    pub closed spec fn responses(self) -> Seq<RespRowModel> {
        if self.conn is Some {
            sqlite::db_responses(self.conn->0)
        } else {
            Seq::empty()
        }
    }

    /// The committed `response_headers` rows.
    pub closed spec fn response_headers(self) -> Seq<HeaderRowModel> {
        if self.conn is Some {
            sqlite::db_response_headers(self.conn->0)
        } else {
            Seq::empty()
        }
    }

    /// A store with no project selected. Every log operation fails with
    /// `NoDatabaseSelected` until `select_project_db` succeeds.
    pub fn new() -> (s: Self)
        ensures
            !s.selected(),
    {
        LogStore { conn: None }
    }

    /// A store over a fresh in-memory database: selected, and empty until
    /// pairs are inserted. Tests and isolated pipelines start here.
    pub fn open_in_memory() -> (r: Result<Self, DbError>)
        ensures
            r matches Ok(s) ==> s.selected() && s.requests().len() == 0
                && s.request_headers().len() == 0 && s.responses().len() == 0
                && s.response_headers().len() == 0,
    {
        let conn = match sqlite::db_open_in_memory() {
            Err(e) => {
                return Err(DbError::SqliteError(e));
            },
            Ok(c) => c,
        };
        let mut store = LogStore::new();
        match store.select_project_db(conn) {
            Err(e) => Err(e),
            Ok(u) => Ok(store),
        }
    }

    /// Adopts `conn` as the current project database: applies the log schema
    /// and makes the connection current. The caller opens the connection
    /// (in memory, or on the project's `network_logs.db` file); a connection
    /// with a transaction already open is refused.
    pub fn select_project_db(&mut self, conn: rusqlite::Connection) -> (r: Result<(), DbError>)
        ensures
            r matches Ok(u) ==> final(self).selected()
                && final(self).requests() == sqlite::db_requests(conn)
                && final(self).request_headers() == sqlite::db_request_headers(conn)
                && final(self).responses() == sqlite::db_responses(conn)
                && final(self).response_headers() == sqlite::db_response_headers(conn),
            r matches Err(e) ==> *final(self) == *old(self),
            (r matches Err(e) && e is UnusableConnection) <==> !sqlite::db_autocommit(conn),
            r matches Err(e) ==> e is UnusableConnection || e is SqliteError,
    {
        if !sqlite::db_is_autocommit(&conn) {
            return Err(DbError::UnusableConnection);
        }
        let mut conn = conn;
        match sqlite::db_apply_log_schema(&mut conn) {
            Err(e) => Err(DbError::SqliteError(e)),
            Ok(u) => {
                self.conn = Some(conn);
                Ok(())
            },
        }
    }

    /// Logs one request/response pair under a fresh packet id, atomically.
    ///
    /// The packet id is strictly greater than the id of every row already
    /// committed in the project database. On any failure nothing is added.
    pub fn insert_http_row(
        &mut self,
        proxy_id: ProxyId,
        request: &RequestRecord,
        response: &Option<ResponseRecord>,
    ) -> (r: Result<PacketId, DbError>)
        ensures
            final(self).selected() == old(self).selected(),
            !old(self).selected() <==> (r matches Err(e) && e is NoDatabaseSelected),
            r matches Ok(id) ==> {
                &&& id as int == allocated_id(old(self).requests())
                &&& 0 <= id as int <= i64::MAX as int
                &&& forall|i: int|
                    0 <= i < old(self).requests().len()
                        ==> (#[trigger] old(self).requests()[i]).0 < id as i64
                &&& final(self).requests() == old(self).requests().push(
                    request.row_model(id as i64, proxy_id as i64),
                )
                &&& final(self).request_headers() == old(self).request_headers()
                    + header_rows_model(id as i64, request.headers_view())
                &&& match response {
                    Some(resp) => {
                        &&& final(self).responses() == old(self).responses().push(
                            resp.row_model(id as i64),
                        )
                        &&& final(self).response_headers() == old(self).response_headers()
                            + header_rows_model(id as i64, resp.headers_view())
                    },
                    None => {
                        &&& final(self).responses() == old(self).responses()
                        &&& final(self).response_headers() == old(self).response_headers()
                    },
                }
            },
            r matches Err(e) ==> {
                &&& final(self).requests() == old(self).requests()
                &&& final(self).request_headers() == old(self).request_headers()
                &&& final(self).responses() == old(self).responses()
                &&& final(self).response_headers() == old(self).response_headers()
            },
            (r matches Err(e) && e is OutOfRange) ==> old(self).selected() && (proxy_id as int
                > i64::MAX as int || allocated_id(old(self).requests()) > i64::MAX as int
                || allocated_id(old(self).requests()) > usize::MAX as int),
    {
        proof {
            use_type_invariant(&*self);
        }
        let mut conn_opt: Option<rusqlite::Connection> = None;
        std::mem::swap(&mut conn_opt, &mut self.conn);
        let mut conn = match conn_opt {
            None => {
                return Err(DbError::NoDatabaseSelected);
            },
            Some(c) => c,
        };
        let ghost g_req = sqlite::db_requests(conn);
        let ghost g_reqh = sqlite::db_request_headers(conn);
        let ghost g_resp = sqlite::db_responses(conn);
        let ghost g_resph = sqlite::db_response_headers(conn);

        let max = match sqlite::db_max_packet_id(&conn) {
            Err(e) => {
                self.conn = Some(conn);
                return Err(DbError::SqliteError(e));
            },
            Ok(m) => m,
        };
        proof {
            lemma_spec_max_id_bounds(g_req);
            if max is Some {
                let m = max->0;
                let w = choose|i: int|
                    0 <= i < g_req.len() && (#[trigger] g_req[i]).0 as int == spec_max_id(g_req);
                let v = choose|i: int| 0 <= i < g_req.len() && (#[trigger] g_req[i]).0 == m;
                assert(spec_max_id(g_req) == m as int);
            }
        }
        let new_id: i64 = match max {
            None => 0,
            Some(m) => {
                if m < 0 {
                    0
                } else if m == i64::MAX {
                    proof {
                        assert(allocated_id(g_req) > i64::MAX as int);
                    }
                    self.conn = Some(conn);
                    return Err(DbError::OutOfRange);
                } else {
                    m + 1
                }
            },
        };
        proof {
            assert(new_id as int == allocated_id(g_req));
        }
        if new_id as u64 > usize::MAX as u64 || proxy_id as u64 > i64::MAX as u64 {
            self.conn = Some(conn);
            return Err(DbError::OutOfRange);
        }
        let pid: i64 = proxy_id as i64;

        if let Err(e) = sqlite::db_begin(&mut conn) {
            self.conn = Some(conn);
            return Err(DbError::SqliteError(e));
        }
        if let Err(e) = sqlite::db_insert_request_row(
            &mut conn,
            new_id,
            pid,
            &request.method,
            &request.authority,
            &request.path,
            &request.query,
            &request.body,
        ) {
            sqlite::db_rollback_best_effort(&mut conn);
            self.conn = Some(conn);
            return Err(DbError::SqliteError(e));
        }

        let ghost hrows = header_rows_model(new_id, request.headers_view());
        let mut i: usize = 0;
        while i < request.headers.len()
            invariant
                i <= request.headers.len(),
                hrows == header_rows_model(new_id, request.headers_view()),
                hrows.len() == request.headers.len(),
                old(self).selected(),
                g_req == old(self).requests(),
                g_reqh == old(self).request_headers(),
                g_resp == old(self).responses(),
                g_resph == old(self).response_headers(),
                new_id as int == allocated_id(g_req),
                0 <= new_id <= i64::MAX,
                !sqlite::db_autocommit(conn),
                sqlite::db_requests(conn) == g_req,
                sqlite::db_request_headers(conn) == g_reqh,
                sqlite::db_responses(conn) == g_resp,
                sqlite::db_response_headers(conn) == g_resph,
                sqlite::pend_requests(conn) == g_req.push(request.row_model(new_id, pid)),
                sqlite::pend_request_headers(conn) == g_reqh + hrows.take(i as int),
                sqlite::pend_responses(conn) == g_resp,
                sqlite::pend_response_headers(conn) == g_resph,
            decreases request.headers.len() - i,
        {
            let key = &request.headers[i].0;
            let value = &request.headers[i].1;
            if let Err(e) = sqlite::db_insert_request_header_row(&mut conn, new_id, key, value) {
                sqlite::db_rollback_best_effort(&mut conn);
                self.conn = Some(conn);
                return Err(DbError::SqliteError(e));
            }
            proof {
                assert(hrows.take(i + 1) =~= hrows.take(i as int).push((new_id, key@, value@)));
                assert(g_reqh + hrows.take(i as int) + seq![(new_id, key@, value@)] =~= g_reqh
                    + hrows.take(i + 1));
            }
            i = i + 1;
        }
        proof {
            assert(hrows.take(hrows.len() as int) =~= hrows);
        }

        if let Some(resp) = response {
            if let Err(e) = sqlite::db_insert_response_row(
                &mut conn,
                new_id,
                resp.status as i64,
                &resp.body,
            ) {
                sqlite::db_rollback_best_effort(&mut conn);
                self.conn = Some(conn);
                return Err(DbError::SqliteError(e));
            }
            let ghost rrows = header_rows_model(new_id, resp.headers_view());
            let mut j: usize = 0;
            while j < resp.headers.len()
                invariant
                    j <= resp.headers.len(),
                    rrows == header_rows_model(new_id, resp.headers_view()),
                    rrows.len() == resp.headers.len(),
                    old(self).selected(),
                    g_req == old(self).requests(),
                    g_reqh == old(self).request_headers(),
                    g_resp == old(self).responses(),
                    g_resph == old(self).response_headers(),
                    new_id as int == allocated_id(g_req),
                    0 <= new_id <= i64::MAX,
                    !sqlite::db_autocommit(conn),
                    sqlite::db_requests(conn) == g_req,
                    sqlite::db_request_headers(conn) == g_reqh,
                    sqlite::db_responses(conn) == g_resp,
                    sqlite::db_response_headers(conn) == g_resph,
                    sqlite::pend_requests(conn) == g_req.push(request.row_model(new_id, pid)),
                    sqlite::pend_request_headers(conn) == g_reqh + hrows,
                    sqlite::pend_responses(conn) == g_resp.push(resp.row_model(new_id)),
                    sqlite::pend_response_headers(conn) == g_resph + rrows.take(j as int),
                decreases resp.headers.len() - j,
            {
                let key = &resp.headers[j].0;
                let value = &resp.headers[j].1;
                if let Err(e) = sqlite::db_insert_response_header_row(
                    &mut conn,
                    new_id,
                    key,
                    value,
                ) {
                    sqlite::db_rollback_best_effort(&mut conn);
                    self.conn = Some(conn);
                    return Err(DbError::SqliteError(e));
                }
                proof {
                    assert(rrows.take(j + 1) =~= rrows.take(j as int).push(
                        (new_id, key@, value@),
                    ));
                    assert(g_resph + rrows.take(j as int) + seq![(new_id, key@, value@)] =~= g_resph
                        + rrows.take(j + 1));
                }
                j = j + 1;
            }
            proof {
                assert(rrows.take(rrows.len() as int) =~= rrows);
            }
        }

        match sqlite::db_commit(&mut conn) {
            Ok(u) => {
                self.conn = Some(conn);
                Ok(new_id as usize)
            },
            Err(e) => {
                sqlite::db_rollback_best_effort(&mut conn);
                self.conn = Some(conn);
                Err(DbError::SqliteError(e))
            },
        }
    }
}

/// Metadata of one logged packet, as shown in the log listing.
pub struct HttpLogRowMetadata {
    pub packet_id: PacketId,
    pub proxy_id: usize,
    pub method: String,
    pub authority: String,
    pub path: String,
    pub query: String,
    pub status: Option<usize>,
}

/// The body and headers of one side of a logged packet.
pub struct HttpPacketContent {
    pub body: Vec<u8>,
    pub headers: Vec<(String, String)>,
}

/// One full logged packet: request metadata and content, and the origin
/// response when forwarding completed.
pub struct HttpLogRow {
    pub metadata: HttpLogRowMetadata,
    pub request: HttpPacketContent,
    pub response: Option<HttpPacketContent>,
}

/// Whether a metadata entry shows exactly the listed columns of a
/// `requests` row (`status` is not listed and stays absent).
pub open spec fn meta_matches(m: HttpLogRowMetadata, row: ReqRowModel) -> bool {
    &&& m.packet_id as int == row.0 as int
    &&& row.0 >= 0
    &&& m.proxy_id as int == row.1 as int
    &&& row.1 >= 0
    &&& m.method@ == row.2
    &&& m.authority@ == row.3
    &&& m.path@ == row.4
    &&& m.query@ == query_or_empty(row.5)
    &&& m.status is None
}

/// Whether a full row shows exactly the columns of a `requests` row.
pub open spec fn req_row_matches(packet_id: PacketId, row: HttpLogRow, r: ReqRowModel) -> bool {
    &&& r.0 as int == packet_id as int
    &&& r.1 >= 0 && row.metadata.proxy_id as int == r.1 as int
    &&& row.metadata.method@ == r.2
    &&& row.metadata.authority@ == r.3
    &&& row.metadata.path@ == r.4
    &&& row.metadata.query@ == query_or_empty(r.5)
    &&& row.request.body@ == r.6
}

/// Whether a response content and status show exactly a `responses` row.
pub open spec fn resp_row_matches(
    packet_id: PacketId,
    status: Option<usize>,
    content: HttpPacketContent,
    r: RespRowModel,
) -> bool {
    &&& r.0 as int == packet_id as int
    &&& r.1 >= 0 && (status matches Some(s) && s as int == r.1 as int)
    &&& content.body@ == r.2
}

/// Converts a nonnegative, machine-sized database integer.
fn i64_to_usize(x: i64) -> (r: Option<usize>)
    ensures
        r matches Some(u) ==> x >= 0 && u as int == x as int,
        r is None <==> (x < 0 || x as int > usize::MAX as int),
{
    if x < 0 {
        None
    } else if x as u64 > usize::MAX as u64 {
        None
    } else {
        Some(x as usize)
    }
}

impl HttpLogRow {
    /// The textual rendering of the captured request: request line, header
    /// lines, a blank line, then the body with non-ASCII bytes shown as `.`.
    pub open spec fn request_text_view(self) -> Seq<char> {
        self.metadata.method@ + " "@ + self.metadata.path@ + " HTTP/1.1\n"@
            + render::header_lines(
            self.request.headers@.map_values(|kv: (String, String)| (kv.0@, kv.1@)),
        ) + "\n"@ + render::lossy_ascii_view(self.request.body@)
    }

    pub fn request_as_str(&self) -> (r: String)
        ensures
            r@ == self.request_text_view(),
    {
        let mut s = String::from_str("");
        proof {
            reveal_strlit("");
            assert(s@ =~= Seq::<char>::empty());
        }
        s.append(self.metadata.method.as_str());
        s.append(" ");
        s.append(self.metadata.path.as_str());
        s.append(" HTTP/1.1\n");
        render::push_header_lines(&mut s, &self.request.headers);
        s.append("\n");
        render::push_lossy_ascii(&mut s, &self.request.body);
        proof {
            assert(s@ =~= self.request_text_view());
        }
        s
    }

    /// The textual rendering of the captured response: status line, header
    /// lines, a blank line, then the body with non-ASCII bytes shown as `.`.
    pub open spec fn response_text_view(self) -> Seq<char> {
        "HTTP/1.1 "@ + render::dec_digits(self.metadata.status->0 as nat) + "\n"@
            + render::header_lines(
            (self.response->0).headers@.map_values(|kv: (String, String)| (kv.0@, kv.1@)),
        ) + "\n"@ + render::lossy_ascii_view((self.response->0).body@)
    }

    /// Renders the response, or `None` when the packet has none.
    pub fn response_as_str(&self) -> (r: Option<String>)
        ensures
            r is Some <==> (self.metadata.status is Some && self.response is Some),
            r matches Some(s) ==> s@ == self.response_text_view(),
    {
        let status = match &self.metadata.status {
            None => {
                return None;
            },
            Some(st) => *st,
        };
        let content = match &self.response {
            None => {
                return None;
            },
            Some(c) => c,
        };
        let mut s = String::from_str("");
        proof {
            reveal_strlit("");
            assert(s@ =~= Seq::<char>::empty());
        }
        s.append("HTTP/1.1 ");
        render::push_dec(&mut s, status);
        s.append("\n");
        render::push_header_lines(&mut s, &content.headers);
        s.append("\n");
        render::push_lossy_ascii(&mut s, &content.body);
        proof {
            assert(s@ =~= self.response_text_view());
        }
        Some(s)
    }
}

impl LogStore {
    /// Lists the metadata of every logged packet, sorted by packet id
    /// ascending. `status` is not part of the listing and stays absent.
    #[verifier::rlimit(60)]
    pub fn get_row_metadata(&self) -> (r: Result<Vec<HttpLogRowMetadata>, DbError>)
        ensures
            (!self.selected()) <==> (r matches Err(e) && e is NoDatabaseSelected),
            r matches Ok(v) ==> {
                &&& v@.len() == self.requests().len()
                &&& forall|i: int| #![trigger v@[i]]
                    0 <= i < v@.len() ==> has_meta_match(v@[i], self.requests())
                &&& forall|j: int| #![trigger self.requests()[j]]
                    0 <= j < self.requests().len() ==> has_listed_match(v@, self.requests()[j])
                &&& forall|i: int, k: int|
                    0 <= i <= k < v@.len() ==> (#[trigger] v@[i]).packet_id <= (
                    #[trigger] v@[k]).packet_id
            },
            (r matches Err(e) && e is OutOfRange) ==> exists|j: int|
                0 <= j < self.requests().len() && {
                    let row = #[trigger] self.requests()[j];
                    row.0 < 0 || row.0 as int > usize::MAX as int || row.1 < 0 || row.1 as int
                        > usize::MAX as int
                },
    {
        proof {
            use_type_invariant(&*self);
        }
        let conn = match &self.conn {
            None => {
                return Err(DbError::NoDatabaseSelected);
            },
            Some(c) => c,
        };
        let rows = match sqlite::db_select_metadata(conn) {
            Err(e) => {
                return Err(DbError::SqliteError(e));
            },
            Ok(v) => v,
        };
        let ghost rview = sqlite::meta_rows_view(rows@);
        let mut out: Vec<HttpLogRowMetadata> = Vec::new();
        let mut i: usize = 0;
        while i < rows.len()
            invariant
                self.selected(),
                i <= rows.len(),
                out@.len() == i,
                rview == sqlite::meta_rows_view(rows@),
                rview.len() == rows@.len(),
                rview.to_multiset() == sqlite::req_metas_of(self.requests()).to_multiset(),
                forall|k: int|
                    0 <= k < i ==> meta_of_view_matches(#[trigger] out@[k], rview[k]),
                forall|k: int| 0 <= k < i ==> (#[trigger] out@[k]).packet_id as int == rview[k].0,
            decreases rows.len() - i,
        {
            let t = &rows[i];
            let packet_id = match i64_to_usize(t.0) {
                None => {
                    proof {
                        lemma_meta_view_has_row(rview, self.requests(), i as int);
                    }
                    return Err(DbError::OutOfRange);
                },
                Some(u) => u,
            };
            let proxy_id = match i64_to_usize(t.1) {
                None => {
                    proof {
                        lemma_meta_view_has_row(rview, self.requests(), i as int);
                    }
                    return Err(DbError::OutOfRange);
                },
                Some(u) => u,
            };
            proof {
                reveal_strlit("");
            }
            let query = match &t.5 {
                Some(q) => String::from_str(q.as_str()),
                None => String::from_str(""),
            };
            out.push(
                HttpLogRowMetadata {
                    packet_id,
                    proxy_id,
                    method: String::from_str(t.2.as_str()),
                    authority: String::from_str(t.3.as_str()),
                    path: String::from_str(t.4.as_str()),
                    query,
                    status: None,
                },
            );
            proof {
                assert(rview[i as int] == sqlite::meta_row_view(rows@[i as int]));
                if rows@[i as int].5 is Some {
                    assert(rview[i as int].5 == Some(rows@[i as int].5->0@));
                } else {
                    assert(rview[i as int].5 is None);
                    assert(out@[i as int].query@ =~= Seq::<char>::empty());
                }
                assert(meta_of_view_matches(out@[i as int], rview[i as int]));
            }
            i = i + 1;
        }
        proof {
            lemma_meta_correspondence(out@, rview, self.requests());
            assert forall|i2: int, k: int| 0 <= i2 <= k < out@.len() implies (
            #[trigger] out@[i2]).packet_id <= (#[trigger] out@[k]).packet_id by {
                assert(out@[i2].packet_id as int == rview[i2].0);
                assert(out@[k].packet_id as int == rview[k].0);
                assert(rview[i2].0 == rows@[i2].0);
                assert(rview[k].0 == rows@[k].0);
                assert(rows@[i2].0 <= rows@[k].0);
            }
        }
        Ok(out)
    }

    /// Loads the full logged packet with the given id: request metadata,
    /// request headers and body, and the response with its headers when one
    /// was logged. Returns `None` when no such packet exists.
    pub fn get_full_row(&self, packet_id: PacketId) -> (r: Result<Option<HttpLogRow>, DbError>)
        ensures
            (!self.selected()) <==> (r matches Err(e) && e is NoDatabaseSelected),
            r matches Ok(Some(row)) ==> {
                &&& row.metadata.packet_id == packet_id
                &&& packet_id as int <= i64::MAX as int
                &&& (row.metadata.status is None) == (row.response is None)
                &&& exists|j: int|
                    0 <= j < self.requests().len() && req_row_matches(
                        packet_id,
                        row,
                        #[trigger] self.requests()[j],
                    )
                &&& sqlite::str_pairs_view(row.request.headers@) == sqlite::headers_for(
                    self.request_headers(),
                    packet_id as i64,
                )
                &&& match row.response {
                    Some(content) => {
                        &&& exists|k: int|
                            0 <= k < self.responses().len() && resp_row_matches(
                                packet_id,
                                row.metadata.status,
                                content,
                                #[trigger] self.responses()[k],
                            )
                        &&& sqlite::str_pairs_view(content.headers@) == sqlite::headers_for(
                            self.response_headers(),
                            packet_id as i64,
                        )
                    },
                    None => forall|k: int|
                        0 <= k < self.responses().len() ==> (#[trigger] self.responses()[k]).0
                            as int != packet_id as int,
                }
            },
            r matches Ok(o) && o is None ==> packet_id as int > i64::MAX as int || forall|j: int|
                0 <= j < self.requests().len() ==> (#[trigger] self.requests()[j]).0 as int
                    != packet_id as int,
            (r matches Err(e) && e is OutOfRange) ==> (exists|j: int|
                0 <= j < self.requests().len() && ((#[trigger] self.requests()[j]).1 < 0
                    || self.requests()[j].1 as int > usize::MAX as int)) || (exists|k: int|
                0 <= k < self.responses().len() && ((#[trigger] self.responses()[k]).1 < 0
                    || self.responses()[k].1 as int > usize::MAX as int)),
    {
        proof {
            use_type_invariant(&*self);
        }
        let conn = match &self.conn {
            None => {
                return Err(DbError::NoDatabaseSelected);
            },
            Some(c) => c,
        };
        if packet_id as u64 > i64::MAX as u64 {
            return Ok(None);
        }
        let pid: i64 = packet_id as i64;
        let req_headers = match sqlite::db_select_request_headers(conn, pid) {
            Err(e) => {
                return Err(DbError::SqliteError(e));
            },
            Ok(v) => v,
        };
        let req = match sqlite::db_select_request(conn, pid) {
            Err(e) => {
                return Err(DbError::SqliteError(e));
            },
            Ok(o) => o,
        };
        let (proxy_i64, method, authority, path, query_opt, body) = match req {
            None => {
                return Ok(None);
            },
            Some(t) => t,
        };
        let proxy_id = match i64_to_usize(proxy_i64) {
            None => {
                proof {
                    let reqs = self.requests();
                    let j = choose|j: int| 0 <= j < reqs.len() && reqs[j] == (pid, proxy_i64,
                    method@, authority@, path@, opt_str_view(query_opt), body@);
                    assert(reqs[j].1 == proxy_i64);
                }
                return Err(DbError::OutOfRange);
            },
            Some(u) => u,
        };
        let query = match query_opt {
            Some(q) => q,
            None => {
                proof {
                    reveal_strlit("");
                }
                String::from_str("")
            },
        };
        let resp_headers = match sqlite::db_select_response_headers(conn, pid) {
            Err(e) => {
                return Err(DbError::SqliteError(e));
            },
            Ok(v) => v,
        };
        let resp = match sqlite::db_select_response(conn, pid) {
            Err(e) => {
                return Err(DbError::SqliteError(e));
            },
            Ok(o) => o,
        };
        let (status, response) = match resp {
            None => (None, None),
            Some((st_i64, rbody)) => {
                let st = match i64_to_usize(st_i64) {
                    None => {
                        proof {
                            let resps = self.responses();
                            let k = choose|k: int|
                                0 <= k < resps.len() && resps[k] == (pid, st_i64, rbody@);
                            assert(resps[k].1 == st_i64);
                        }
                        return Err(DbError::OutOfRange);
                    },
                    Some(u) => u,
                };
                (Some(st), Some(HttpPacketContent { body: rbody, headers: resp_headers }))
            },
        };
        let row = HttpLogRow {
            metadata: HttpLogRowMetadata {
                packet_id,
                proxy_id,
                method,
                authority,
                path,
                query,
                status,
            },
            request: HttpPacketContent { body, headers: req_headers },
            response,
        };
        proof {
            reveal_strlit("");
            let reqs = self.requests();
            let qv = opt_str_view(query_opt);
            if query_opt is Some {
                assert(qv == Some(query_opt->0@));
                assert(row.metadata.query@ == query_opt->0@);
            } else {
                assert(qv is None);
                assert(row.metadata.query@ =~= Seq::<char>::empty());
            }
            let tup = (pid, proxy_i64, row.metadata.method@, row.metadata.authority@,
                row.metadata.path@, qv, row.request.body@);
            assert(reqs.contains(tup));
            let j = choose|j: int| 0 <= j < reqs.len() && reqs[j] == tup;
            assert(req_row_matches(packet_id, row, reqs[j]));
            if row.response is Some {
                let content = row.response->0;
                let resps = self.responses();
                let st = row.metadata.status->0;
                let rtup = (pid, st as i64, content.body@);
                assert(resps.contains(rtup));
                let k = choose|k: int| 0 <= k < resps.len() && resps[k] == rtup;
                assert(resp_row_matches(packet_id, row.metadata.status, content, resps[k]));
            }
        }
        Ok(Some(row))
    }
}

/// Whether some row of the table matches the metadata entry.
pub open spec fn has_meta_match(m: HttpLogRowMetadata, reqs: Seq<ReqRowModel>) -> bool {
    exists|j: int| 0 <= j < reqs.len() && meta_matches(m, #[trigger] reqs[j])
}

/// Whether some entry of the listing matches the table row.
pub open spec fn has_listed_match(out: Seq<HttpLogRowMetadata>, row: ReqRowModel) -> bool {
    exists|i: int| 0 <= i < out.len() && meta_matches(#[trigger] out[i], row)
}

/// A metadata view tuple that the trusted listing returned stands for some
/// row of the table.
proof fn lemma_meta_view_has_row(
    rview: Seq<(i64, i64, Seq<char>, Seq<char>, Seq<char>, Option<Seq<char>>)>,
    reqs: Seq<ReqRowModel>,
    i: int,
)
    requires
        rview.to_multiset() == sqlite::req_metas_of(reqs).to_multiset(),
        0 <= i < rview.len(),
    ensures
        exists|j: int|
            0 <= j < reqs.len() && sqlite::req_meta_of(#[trigger] reqs[j]) == rview[i],
{
    let pview = sqlite::req_metas_of(reqs);
    rview.to_multiset_ensures();
    pview.to_multiset_ensures();
    assert(rview.contains(rview[i]));
    assert(rview.to_multiset().count(rview[i]) > 0);
    assert(pview.to_multiset().count(rview[i]) > 0);
    assert(pview.contains(rview[i]));
    let j = choose|j: int| 0 <= j < pview.len() && pview[j] == rview[i];
    assert(sqlite::req_meta_of(reqs[j]) == rview[i]);
}

/// Bridges the listing to the table: entries that show view tuples whose
/// multiset equals the table's metadata projections list exactly the table's
/// rows, in both directions.
proof fn lemma_meta_correspondence(
    out: Seq<HttpLogRowMetadata>,
    rview: Seq<(i64, i64, Seq<char>, Seq<char>, Seq<char>, Option<Seq<char>>)>,
    reqs: Seq<ReqRowModel>,
)
    requires
        out.len() == rview.len(),
        forall|k: int| 0 <= k < out.len() ==> meta_of_view_matches(#[trigger] out[k], rview[k]),
        rview.to_multiset() == sqlite::req_metas_of(reqs).to_multiset(),
    ensures
        out.len() == reqs.len(),
        forall|i: int| #![trigger out[i]]
            0 <= i < out.len() ==> has_meta_match(out[i], reqs),
        forall|j: int| #![trigger reqs[j]]
            0 <= j < reqs.len() ==> has_listed_match(out, reqs[j]),
{
    let pview = sqlite::req_metas_of(reqs);
    rview.to_multiset_ensures();
    pview.to_multiset_ensures();
    assert(rview.to_multiset().len() == rview.len());
    assert(pview.to_multiset().len() == pview.len());
    assert forall|i: int| #![trigger out[i]] 0 <= i < out.len() implies has_meta_match(
        out[i],
        reqs,
    ) by {
        assert(rview.contains(rview[i]));
        assert(rview.to_multiset().count(rview[i]) > 0);
        assert(pview.to_multiset().count(rview[i]) > 0);
        assert(pview.contains(rview[i]));
        let j = choose|j: int| 0 <= j < pview.len() && pview[j] == rview[i];
        assert(pview[j] == sqlite::req_meta_of(reqs[j]));
        assert(meta_of_view_matches(out[i], rview[i]));
        assert(meta_matches(out[i], reqs[j]));
    }
    assert forall|j: int| #![trigger reqs[j]] 0 <= j < reqs.len() implies has_listed_match(
        out,
        reqs[j],
    ) by {
        assert(pview.contains(pview[j]));
        assert(pview.to_multiset().count(pview[j]) > 0);
        assert(rview.to_multiset().count(pview[j]) > 0);
        assert(rview.contains(pview[j]));
        let i = choose|i: int| 0 <= i < rview.len() && rview[i] == pview[j];
        assert(meta_of_view_matches(out[i], rview[i]));
        assert(meta_matches(out[i], reqs[j]));
    }
}

/// Law: every packet id that appears in the metadata listing has a request
/// row in the table, so a full-row lookup of that id cannot come back empty:
/// it contradicts the absent-row case of `get_full_row`.
pub proof fn lemma_listed_row_is_retrievable(m: HttpLogRowMetadata, reqs: Seq<ReqRowModel>)
    requires
        has_meta_match(m, reqs),
    ensures
        m.packet_id as int <= i64::MAX as int,
        !(forall|j: int|
            0 <= j < reqs.len() ==> (#[trigger] reqs[j]).0 as int != m.packet_id as int),
{
    let j = choose|j: int| 0 <= j < reqs.len() && meta_matches(m, #[trigger] reqs[j]);
    assert(reqs[j].0 as int == m.packet_id as int);
}

/// Law: when the committed packet ids are unique — as every id this store
/// allocates is — a listing entry and a full-row lookup of its packet id
/// describe the same table row, field for field.
pub proof fn lemma_listing_matches_lookup(
    m: HttpLogRowMetadata,
    row: HttpLogRow,
    reqs: Seq<ReqRowModel>,
    j: int,
    k: int,
)
    requires
        forall|a: int, b: int|
            0 <= a < b < reqs.len() ==> (#[trigger] reqs[a]).0 != (#[trigger] reqs[b]).0,
        0 <= j < reqs.len() && meta_matches(m, reqs[j]),
        0 <= k < reqs.len() && req_row_matches(m.packet_id, row, reqs[k]),
    ensures
        row.metadata.proxy_id == m.proxy_id,
        row.metadata.method@ == m.method@,
        row.metadata.authority@ == m.authority@,
        row.metadata.path@ == m.path@,
        row.metadata.query@ == m.query@,
{
    if j != k {
        if j < k {
            assert(reqs[j].0 != reqs[k].0);
        } else {
            assert(reqs[k].0 != reqs[j].0);
        }
        assert(reqs[j].0 as int == m.packet_id as int);
        assert(reqs[k].0 as int == m.packet_id as int);
    }
    assert(reqs[j] == reqs[k]);
}

/// Law: a freshly allocated packet id belongs to the new row alone — no
/// older row shares it, and the new row sits at the end of the table.
pub proof fn lemma_inserted_id_unique(rows: Seq<ReqRowModel>, row: ReqRowModel)
    requires
        forall|i: int| 0 <= i < rows.len() ==> (#[trigger] rows[i]).0 < row.0,
    ensures
        forall|i: int| 0 <= i < rows.len() ==> (#[trigger] rows.push(row)[i]).0 != row.0,
        rows.push(row)[rows.len() as int] == row,
{
    assert forall|i: int| 0 <= i < rows.len() implies (#[trigger] rows.push(row)[i]).0 != row.0 by {
        assert(rows.push(row)[i] == rows[i]);
    }
}

/// Law: after inserting a pair under a fresh id, any row found under that id
/// is the inserted row.
pub proof fn lemma_lookup_after_insert(rows: Seq<ReqRowModel>, row: ReqRowModel, j: int)
    requires
        forall|i: int| 0 <= i < rows.len() ==> (#[trigger] rows[i]).0 < row.0,
        0 <= j < rows.push(row).len(),
        rows.push(row)[j].0 == row.0,
    ensures
        rows.push(row)[j] == row,
{
    if j < rows.len() {
        assert(rows.push(row)[j] == rows[j]);
    }
}

/// Header rows whose packet id never occurs contribute nothing to a lookup
/// of that id.
proof fn lemma_headers_for_absent(hdrs: Seq<HeaderRowModel>, id: i64)
    requires
        forall|i: int| 0 <= i < hdrs.len() ==> (#[trigger] hdrs[i]).0 != id,
    ensures
        sqlite::headers_for(hdrs, id) == Seq::<(Seq<char>, Seq<char>)>::empty(),
    decreases hdrs.len(),
{
    if hdrs.len() > 0 {
        assert(hdrs[0].0 != id);
        lemma_headers_for_absent(hdrs.drop_first(), id);
    }
}

/// The header rows written for one packet read back as themselves.
proof fn lemma_headers_for_own(id: i64, hdrs: Seq<(Seq<char>, Seq<char>)>)
    ensures
        sqlite::headers_for(header_rows_model(id, hdrs), id) == hdrs,
    decreases hdrs.len(),
{
    let rows = header_rows_model(id, hdrs);
    if hdrs.len() == 0 {
        assert(sqlite::headers_for(rows, id) =~= hdrs);
    } else {
        assert(rows.first() == (id, hdrs.first().0, hdrs.first().1));
        assert(rows.drop_first() =~= header_rows_model(id, hdrs.drop_first()));
        lemma_headers_for_own(id, hdrs.drop_first());
        assert(sqlite::headers_for(rows, id) =~= seq![(hdrs.first().0, hdrs.first().1)]
            + hdrs.drop_first());
        assert((hdrs.first().0, hdrs.first().1) == hdrs.first());
        assert(seq![hdrs.first()] + hdrs.drop_first() =~= hdrs);
    }
}

/// Law: the headers stored for a fresh packet id read back exactly as they
/// were written, in order — a round trip through the header table.
pub proof fn lemma_headers_round_trip(
    old_hdrs: Seq<HeaderRowModel>,
    id: i64,
    hdrs: Seq<(Seq<char>, Seq<char>)>,
)
    requires
        forall|i: int| 0 <= i < old_hdrs.len() ==> (#[trigger] old_hdrs[i]).0 != id,
    ensures
        sqlite::headers_for(old_hdrs + header_rows_model(id, hdrs), id) == hdrs,
    decreases old_hdrs.len(),
{
    let rows = header_rows_model(id, hdrs);
    if old_hdrs.len() == 0 {
        assert(old_hdrs + rows =~= rows);
        lemma_headers_for_own(id, hdrs);
    } else {
        assert((old_hdrs + rows).len() > 0);
        assert((old_hdrs + rows).first() == old_hdrs.first());
        assert(old_hdrs.first().0 != id);
        assert((old_hdrs + rows).drop_first() =~= old_hdrs.drop_first() + rows);
        assert(forall|i: int|
            0 <= i < old_hdrs.drop_first().len() ==> (#[trigger] old_hdrs.drop_first()[i]).0
                != id);
        lemma_headers_round_trip(old_hdrs.drop_first(), id, hdrs);
    }
}

/// Whether a metadata entry shows exactly a metadata view tuple.
pub open spec fn meta_of_view_matches(
    m: HttpLogRowMetadata,
    t: (i64, i64, Seq<char>, Seq<char>, Seq<char>, Option<Seq<char>>),
) -> bool {
    &&& m.packet_id as int == t.0 as int
    &&& t.0 >= 0
    &&& m.proxy_id as int == t.1 as int
    &&& t.1 >= 0
    &&& m.method@ == t.2
    &&& m.authority@ == t.3
    &&& m.path@ == t.4
    &&& m.query@ == query_or_empty(t.5)
    &&& m.status is None
}

} // verus!
