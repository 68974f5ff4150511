//! The config store: persisted project names and proxy rows
//! (id, port, auto-start), kept in the installation's config database.

use vstd::prelude::*;
use crate::logs::DbError;
use crate::sqlite;
use crate::ProxyId;

verus! {

/// One persisted proxy row.
pub struct ProxyConfig {
    pub port: u16,
    pub id: ProxyId,
    pub auto_start: bool,
}

/// Whether a loaded proxy config shows exactly a `proxies` row.
pub open spec fn proxy_matches(p: ProxyConfig, row: (i64, i64, bool)) -> bool {
    &&& p.id as int == row.0 as int
    &&& row.0 >= 0
    &&& p.port as int == row.1 as int
    &&& p.auto_start == row.2
}

/// The proxies of a project, as persisted together.
pub struct ProjectConfig {
    pub proxies: Vec<ProxyConfig>,
}

impl Default for ProjectConfig {
    /// An empty configuration.
    fn default() -> (r: Self)
        ensures
            r.proxies@.len() == 0,
    {
        ProjectConfig { proxies: Vec::new() }
    }
}

/// The store of persisted projects and proxies.
pub struct ConfigStore {
    conn: Option<rusqlite::Connection>,
}

impl ConfigStore {
    #[verifier::type_invariant]
    spec fn wf(self) -> bool {
        self.conn matches Some(c) ==> sqlite::db_autocommit(c)
    }

    /// Whether the store holds its database connection.
    pub closed spec fn ready(self) -> bool {
        self.conn is Some
    }

    /// The persisted project names, in insertion order.
    pub closed spec fn projects(self) -> Seq<Seq<char>> {
        if self.conn is Some {
            sqlite::db_projects(self.conn->0)
        } else {
            Seq::empty()
        }
    }

    /// The persisted proxy rows, in insertion order.
    pub closed spec fn proxies(self) -> Seq<(i64, i64, bool)> {
        if self.conn is Some {
            sqlite::db_proxies(self.conn->0)
        } else {
            Seq::empty()
        }
    }

    /// A config store over a fresh in-memory database, with the schema
    /// applied: ready, and empty until rows are saved.
    pub fn open_in_memory() -> (r: Result<Self, DbError>)
        ensures
            r matches Ok(s) ==> s.ready() && s.projects().len() == 0 && s.proxies().len() == 0,
    {
        let conn = match crate::sqlite::db_open_in_memory() {
            Err(e) => {
                return Err(DbError::SqliteError(e));
            },
            Ok(c) => c,
        };
        let mut store = match ConfigStore::new(conn) {
            Err(e) => {
                return Err(e);
            },
            Ok(s) => s,
        };
        match store.init_config() {
            Err(e) => Err(e),
            Ok(u) => Ok(store),
        }
    }

    /// Adopts `conn` as the config database. The caller opens the connection
    /// (on `config.db`, or in memory); one with a transaction open is
    /// refused.
    pub fn new(conn: rusqlite::Connection) -> (r: Result<Self, DbError>)
        ensures
            sqlite::db_autocommit(conn) <==> r is Ok,
            r matches Ok(s) ==> s.ready() && s.projects() == sqlite::db_projects(conn)
                && s.proxies() == sqlite::db_proxies(conn),
            r matches Err(e) ==> e is UnusableConnection,
    {
        if !sqlite::db_is_autocommit(&conn) {
            return Err(DbError::UnusableConnection);
        }
        Ok(ConfigStore { conn: Some(conn) })
    }

    /// Applies the config schema: creates the `projects` and `proxies`
    /// tables when missing, touching no existing row.
    pub fn init_config(&mut self) -> (r: Result<(), DbError>)
        ensures
            final(self).ready() == old(self).ready(),
            final(self).projects() == old(self).projects(),
            final(self).proxies() == old(self).proxies(),
            (!old(self).ready()) <==> (r matches Err(e) && e is NoDatabaseSelected),
    {
        proof {
            use_type_invariant(&*self);
        }
        let mut conn_opt: Option<rusqlite::Connection> = None;
        std::mem::swap(&mut conn_opt, &mut self.conn);
        let mut conn = match conn_opt {
            None => {
                return Err(DbError::NoDatabaseSelected);
            },
            Some(c) => c,
        };
        let res = sqlite::db_apply_config_schema(&mut conn);
        self.conn = Some(conn);
        match res {
            Ok(u) => Ok(()),
            Err(e) => Err(DbError::SqliteError(e)),
        }
    }

    /// Lists the persisted project names, in insertion order.
    pub fn project_list(&self) -> (r: Result<Vec<String>, DbError>)
        ensures
            (!self.ready()) <==> (r matches Err(e) && e is NoDatabaseSelected),
            r matches Ok(v) ==> sqlite::strs_view(v@) == self.projects(),
    {
        proof {
            use_type_invariant(&*self);
        }
        let conn = match &self.conn {
            None => {
                return Err(DbError::NoDatabaseSelected);
            },
            Some(c) => c,
        };
        match sqlite::db_select_projects(conn) {
            Ok(v) => Ok(v),
            Err(e) => Err(DbError::SqliteError(e)),
        }
    }

    /// Persists a new project name.
    pub fn create_project(&mut self, name: &str) -> (r: Result<(), DbError>)
        ensures
            final(self).ready() == old(self).ready(),
            final(self).proxies() == old(self).proxies(),
            (!old(self).ready()) <==> (r matches Err(e) && e is NoDatabaseSelected),
            r matches Ok(u) ==> final(self).projects() == old(self).projects().push(name@),
            r matches Err(e) ==> final(self).projects() == old(self).projects(),
    {
        proof {
            use_type_invariant(&*self);
        }
        let mut conn_opt: Option<rusqlite::Connection> = None;
        std::mem::swap(&mut conn_opt, &mut self.conn);
        let mut conn = match conn_opt {
            None => {
                return Err(DbError::NoDatabaseSelected);
            },
            Some(c) => c,
        };
        let res = sqlite::db_insert_project(&mut conn, name);
        self.conn = Some(conn);
        match res {
            Ok(u) => Ok(()),
            Err(e) => Err(DbError::SqliteError(e)),
        }
    }

    /// Removes every persisted project row with the given name, keeping the
    /// order of the rest. The project's on-disk directory is the caller's to
    /// remove.
    pub fn delete_project(&mut self, name: &str) -> (r: Result<(), DbError>)
        ensures
            final(self).ready() == old(self).ready(),
            final(self).proxies() == old(self).proxies(),
            (!old(self).ready()) <==> (r matches Err(e) && e is NoDatabaseSelected),
            r matches Ok(u) ==> final(self).projects() == sqlite::projects_without(
                old(self).projects(),
                name@,
            ),
            r matches Err(e) ==> final(self).projects() == old(self).projects(),
    {
        proof {
            use_type_invariant(&*self);
        }
        let mut conn_opt: Option<rusqlite::Connection> = None;
        std::mem::swap(&mut conn_opt, &mut self.conn);
        let mut conn = match conn_opt {
            None => {
                return Err(DbError::NoDatabaseSelected);
            },
            Some(c) => c,
        };
        let res = sqlite::db_delete_project(&mut conn, name);
        self.conn = Some(conn);
        match res {
            Ok(u) => Ok(()),
            Err(e) => Err(DbError::SqliteError(e)),
        }
    }

    /// Loads the persisted proxy rows, in insertion order. A row whose id
    /// or port does not fit the machine's range is reported out of range.
    pub fn load_proxies(&self) -> (r: Result<Vec<ProxyConfig>, DbError>)
        ensures
            (!self.ready()) <==> (r matches Err(e) && e is NoDatabaseSelected),
            r matches Ok(v) ==> v@.len() == self.proxies().len() && forall|i: int|
                0 <= i < v@.len() ==> proxy_matches(#[trigger] v@[i], self.proxies()[i]),
            (r matches Err(e) && e is OutOfRange) ==> exists|i: int|
                0 <= i < self.proxies().len() && {
                    let row = #[trigger] self.proxies()[i];
                    row.0 < 0 || row.0 as int > usize::MAX as int || row.1 < 0 || row.1 > 65535
                },
    {
        proof {
            use_type_invariant(&*self);
        }
        let conn = match &self.conn {
            None => {
                return Err(DbError::NoDatabaseSelected);
            },
            Some(c) => c,
        };
        let rows = match sqlite::db_select_proxies(conn) {
            Err(e) => {
                return Err(DbError::SqliteError(e));
            },
            Ok(v) => v,
        };
        let mut out: Vec<ProxyConfig> = Vec::new();
        let mut i: usize = 0;
        while i < rows.len()
            invariant
                self.ready(),
                i <= rows.len(),
                out@.len() == i,
                rows@ == self.proxies(),
                forall|k: int| 0 <= k < i ==> proxy_matches(#[trigger] out@[k], rows@[k]),
            decreases rows.len() - i,
        {
            let row = &rows[i];
            if row.0 < 0 || row.0 as u64 > usize::MAX as u64 {
                return Err(DbError::OutOfRange);
            }
            if row.1 < 0 || row.1 > 65535 {
                return Err(DbError::OutOfRange);
            }
            out.push(
                ProxyConfig { port: row.1 as u16, id: row.0 as usize, auto_start: row.2 },
            );
            i = i + 1;
        }
        Ok(out)
    }

    /// Persists one proxy row. Success appends exactly the row and implies
    /// no committed row already carried the id (the schema keeps `proxy_id`
    /// unique).
    pub fn save_proxy(&mut self, proxy: &ProxyConfig) -> (r: Result<(), DbError>)
        ensures
            final(self).ready() == old(self).ready(),
            final(self).projects() == old(self).projects(),
            (!old(self).ready()) <==> (r matches Err(e) && e is NoDatabaseSelected),
            (r matches Err(e) && e is OutOfRange) <==> old(self).ready() && proxy.id as int
                > i64::MAX as int,
            r matches Ok(u) ==> proxy.id as int <= i64::MAX as int && final(self).proxies()
                == old(self).proxies().push(
                (proxy.id as i64, proxy.port as i64, proxy.auto_start),
            ) && (forall|i: int|
                0 <= i < old(self).proxies().len() ==> (#[trigger] old(self).proxies()[i]).0
                    != proxy.id as i64),
            r matches Err(e) ==> final(self).proxies() == old(self).proxies(),
    {
        proof {
            use_type_invariant(&*self);
        }
        let mut conn_opt: Option<rusqlite::Connection> = None;
        std::mem::swap(&mut conn_opt, &mut self.conn);
        let mut conn = match conn_opt {
            None => {
                return Err(DbError::NoDatabaseSelected);
            },
            Some(c) => c,
        };
        if proxy.id as u64 > i64::MAX as u64 {
            self.conn = Some(conn);
            return Err(DbError::OutOfRange);
        }
        let res = sqlite::db_insert_proxy(
            &mut conn,
            proxy.id as i64,
            proxy.port as i64,
            proxy.auto_start,
        );
        self.conn = Some(conn);
        match res {
            Ok(u) => Ok(()),
            Err(e) => Err(DbError::SqliteError(e)),
        }
    }
}

} // verus!
