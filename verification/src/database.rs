//! The database handle: one primary connection for writes, replicas taken in turn for
//! reads, and the settings the connections are opened with.

use vstd::prelude::*;
use std::sync::atomic::{AtomicUsize, Ordering};
use std::sync::Arc;
use std::time::Duration;
use sea_orm::{ConnectOptions, ConnectionTrait, DatabaseBackend, DatabaseConnection};
use sea_orm::sea_query::{Expr, SimpleExpr};
use crate::errors::DatabaseError;

verus! {

#[verifier::external_type_specification]
#[verifier::external_body]
pub struct ExDatabaseConnection(DatabaseConnection);

#[verifier::external_type_specification]
#[verifier::external_body]
pub struct ExConnectOptions(ConnectOptions);

#[verifier::external_type_specification]
#[verifier::external_body]
pub struct ExSimpleExpr(SimpleExpr);

/// The database engines a connection can reach.
#[derive(Debug, Clone, Copy, PartialEq, Eq)]
pub enum Backend {
    MySql,
    Postgres,
    Sqlite,
}

/// The backend that sea-orm's `ConnectionTrait::get_database_backend` reports for a
/// connection; `None` for a disconnected connection, on which that method panics.
pub uninterp spec fn backend_of(connection: DatabaseConnection) -> Option<Backend>;

/// The backend of a connection, read by sea-orm's `ConnectionTrait::get_database_backend`,
/// or `None` for a disconnected connection: the result is the connection's backend, by
/// name; which one that is, the connection being opaque here, is not stated.
#[verifier::external_body]
fn connection_backend(connection: &DatabaseConnection) -> (r: Option<Backend>)
    ensures
        r == backend_of(*connection),
{
    match connection {
        DatabaseConnection::Disconnected => None,
        _ => Some(match connection.get_database_backend() {
            DatabaseBackend::MySql => Backend::MySql,
            DatabaseBackend::Postgres => Backend::Postgres,
            DatabaseBackend::Sqlite => Backend::Sqlite,
        }),
    }
}

/// The levels statement logging can run at (`log::LevelFilter`'s).
#[derive(Debug, Clone, Copy, PartialEq, Eq)]
pub enum StatementLogLevel {
    Off,
    Error,
    Warn,
    Info,
    Debug,
    Trace,
}

/// What sea-orm's `ConnectOptions::get_url` reads.
pub uninterp spec fn url_of(options: ConnectOptions) -> Seq<char>;

/// What sea-orm's `ConnectOptions::get_max_connections` reads.
pub uninterp spec fn max_connections_of(options: ConnectOptions) -> Option<u32>;

/// What sea-orm's `ConnectOptions::get_min_connections` reads.
pub uninterp spec fn min_connections_of(options: ConnectOptions) -> Option<u32>;

/// What sea-orm's `ConnectOptions::get_connect_timeout` reads.
pub uninterp spec fn connect_timeout_of(options: ConnectOptions) -> Option<Duration>;

/// What sea-orm's `ConnectOptions::get_idle_timeout` reads.
pub uninterp spec fn idle_timeout_of(options: ConnectOptions) -> Option<Duration>;

/// What sea-orm's `ConnectOptions::get_acquire_timeout` reads.
pub uninterp spec fn acquire_timeout_of(options: ConnectOptions) -> Option<Duration>;

/// What sea-orm's `ConnectOptions::get_max_lifetime` reads.
pub uninterp spec fn max_lifetime_of(options: ConnectOptions) -> Option<Duration>;

/// What sea-orm's `ConnectOptions::get_sqlx_logging` reads.
pub uninterp spec fn statement_logging_of(options: ConnectOptions) -> bool;

/// What sea-orm's `ConnectOptions::get_sqlx_logging_level` reads, as a library level.
pub uninterp spec fn statement_log_level_of(options: ConnectOptions) -> StatementLogLevel;

/// The settings of a `ConnectOptions`, as its getters read them.
pub struct ConnectSettings {
    pub url: Seq<char>,
    pub max_connections: Option<u32>,
    pub min_connections: Option<u32>,
    pub connect_timeout: Option<Duration>,
    pub idle_timeout: Option<Duration>,
    pub acquire_timeout: Option<Duration>,
    pub max_lifetime: Option<Duration>,
    pub statement_logging: bool,
    pub statement_log_level: StatementLogLevel,
}

/// The settings of a `ConnectOptions`.
pub open spec fn connect_settings(o: ConnectOptions) -> ConnectSettings {
    ConnectSettings {
        url: url_of(o),
        max_connections: max_connections_of(o),
        min_connections: min_connections_of(o),
        connect_timeout: connect_timeout_of(o),
        idle_timeout: idle_timeout_of(o),
        acquire_timeout: acquire_timeout_of(o),
        max_lifetime: max_lifetime_of(o),
        statement_logging: statement_logging_of(o),
        statement_log_level: statement_log_level_of(o),
    }
}

/// sea-orm's `ConnectOptions::new`: the connection string `dsn`, no pool sizes, timeouts
/// or lifetime, statement logging on at the info level.
#[verifier::external_body]
fn connect_options(dsn: &str) -> (o: ConnectOptions)
    ensures
        url_of(o) == dsn@,
        max_connections_of(o) is None,
        min_connections_of(o) is None,
        connect_timeout_of(o) is None,
        idle_timeout_of(o) is None,
        acquire_timeout_of(o) is None,
        max_lifetime_of(o) is None,
        statement_logging_of(o),
        statement_log_level_of(o) == StatementLogLevel::Info,
{
    ConnectOptions::new(dsn)
}

/// sea-orm's `ConnectOptions::max_connections`: sets the pool's largest size, and
/// nothing else.
#[verifier::external_body]
fn set_max_connections(options: &mut ConnectOptions, value: u32)
    ensures
        connect_settings(*final(options)) == (ConnectSettings { max_connections: Some(value), ..connect_settings(*old(options)) }),
{
    options.max_connections(value);
}

/// sea-orm's `ConnectOptions::min_connections`: sets the pool's smallest size, and
/// nothing else.
#[verifier::external_body]
fn set_min_connections(options: &mut ConnectOptions, value: u32)
    ensures
        connect_settings(*final(options)) == (ConnectSettings { min_connections: Some(value), ..connect_settings(*old(options)) }),
{
    options.min_connections(value);
}

/// sea-orm's `ConnectOptions::connect_timeout`: sets it, and nothing else.
#[verifier::external_body]
fn set_connect_timeout(options: &mut ConnectOptions, value: Duration)
    ensures
        connect_settings(*final(options)) == (ConnectSettings { connect_timeout: Some(value), ..connect_settings(*old(options)) }),
{
    options.connect_timeout(value);
}

/// sea-orm's `ConnectOptions::idle_timeout`: sets it, and nothing else.
#[verifier::external_body]
fn set_idle_timeout(options: &mut ConnectOptions, value: Duration)
    ensures
        connect_settings(*final(options)) == (ConnectSettings { idle_timeout: Some(value), ..connect_settings(*old(options)) }),
{
    options.idle_timeout(value);
}

/// sea-orm's `ConnectOptions::acquire_timeout`: sets it, and nothing else.
#[verifier::external_body]
fn set_acquire_timeout(options: &mut ConnectOptions, value: Duration)
    ensures
        connect_settings(*final(options)) == (ConnectSettings { acquire_timeout: Some(value), ..connect_settings(*old(options)) }),
{
    options.acquire_timeout(value);
}

/// sea-orm's `ConnectOptions::max_lifetime`: sets it, and nothing else.
#[verifier::external_body]
fn set_max_lifetime(options: &mut ConnectOptions, value: Duration)
    ensures
        connect_settings(*final(options)) == (ConnectSettings { max_lifetime: Some(value), ..connect_settings(*old(options)) }),
{
    options.max_lifetime(value);
}

/// sea-orm's `ConnectOptions::sqlx_logging`: statement logging on or off, and nothing
/// else.
#[verifier::external_body]
fn set_statement_logging(options: &mut ConnectOptions, enabled: bool)
    ensures
        connect_settings(*final(options)) == (ConnectSettings { statement_logging: enabled, ..connect_settings(*old(options)) }),
{
    options.sqlx_logging(enabled);
}

/// sea-orm's `ConnectOptions::sqlx_logging_level`: the level statement logging runs at,
/// and nothing else.
#[verifier::external_body]
fn set_statement_log_level(options: &mut ConnectOptions, level: StatementLogLevel)
    ensures
        connect_settings(*final(options)) == (ConnectSettings { statement_log_level: level, ..connect_settings(*old(options)) }),
{
    options.sqlx_logging_level(match level {
        StatementLogLevel::Off => log::LevelFilter::Off,
        StatementLogLevel::Error => log::LevelFilter::Error,
        StatementLogLevel::Warn => log::LevelFilter::Warn,
        StatementLogLevel::Info => log::LevelFilter::Info,
        StatementLogLevel::Debug => log::LevelFilter::Debug,
        StatementLogLevel::Trace => log::LevelFilter::Trace,
    });
}

/// The replica that read number `ticket` goes to, among `n` replicas.
pub open spec fn replica_slot(ticket: usize, n: nat) -> int {
    (ticket as int) % (n as int)
}

/// The index of the replica that read number `ticket` goes to, among `n` replicas.
pub fn replica_index(ticket: usize, n: usize) -> (i: usize)
    requires
        n > 0,
    ensures
        i == replica_slot(ticket, n as nat),
        i < n,
{
    ticket % n
}

/// Reads taken in turn go round the replicas: `n` consecutive reads, numbered from
/// `start`, reach every replica once.
pub proof fn lemma_reads_go_round(start: int, n: int, k: int)
    requires
        n > 0,
        0 <= k < n,
    ensures
        exists|j: int| 0 <= j < n && #[trigger] ((start + j) % n) == k,
        forall|a: int, b: int| 0 <= a < b < n ==> #[trigger] ((start + a) % n) != #[trigger] ((start + b) % n),
{
    let j = (k - start) % n;
    let q = (k - start) / n;
    vstd::arithmetic::div_mod::lemma_fundamental_div_mod(k - start, n);
    vstd::arithmetic::mul::lemma_mul_unary_negation(n, q);
    assert(start + j == n * (-q) + k);
    vstd::arithmetic::div_mod::lemma_mod_multiples_vanish(-q, k, n);
    vstd::arithmetic::div_mod::lemma_small_mod(k as nat, n as nat);
    assert((start + j) % n == k);
    assert forall|a: int, b: int| 0 <= a < b < n implies #[trigger] ((start + a) % n) != #[trigger] ((start + b) % n) by {
        if (start + a) % n == (start + b) % n {
            vstd::arithmetic::div_mod::lemma_mod_equivalence(start + b, start + a, n);
            assert((start + b) - (start + a) == b - a);
            vstd::arithmetic::div_mod::lemma_small_mod((b - a) as nat, n as nat);
        }
    }
}

/// The backends a JSON column can be queried on.
#[derive(Debug, Clone, Copy, PartialEq, Eq)]
pub enum JsonBackend {
    Sqlite,
    Postgres,
}

/// The backend a JSON column is queried on, if its queries are supported there: on SQLite
/// and PostgreSQL only.
pub fn json_backend(backend: Backend) -> (r: Option<JsonBackend>)
    ensures
        backend is Sqlite ==> r == Some(JsonBackend::Sqlite),
        backend is Postgres ==> r == Some(JsonBackend::Postgres),
        backend is MySql ==> r is None,
{
    match backend {
        Backend::Sqlite => Some(JsonBackend::Sqlite),
        Backend::Postgres => Some(JsonBackend::Postgres),
        Backend::MySql => None,
    }
}

/// The SQL that reads key `key` of JSON column `column`, and the value bound to its
/// placeholder: SQLite extracts the path `$.key`, PostgreSQL reads the key as text.
pub open spec fn json_key_sql(backend: JsonBackend, column: Seq<char>, key: Seq<char>) -> (Seq<char>, Seq<char>) {
    match backend {
        JsonBackend::Sqlite => ("json_extract("@ + column + ", ?)"@, "$."@ + key),
        JsonBackend::Postgres => (column + " ->> $1"@, key),
    }
}

/// The SQL that reads key `key` of JSON column `column`, with the value to bind.
pub fn json_key_template(backend: JsonBackend, column: &str, key: &str) -> (r: (String, String))
    ensures
        (r.0@, r.1@) == json_key_sql(backend, column@, key@),
{
    match backend {
        JsonBackend::Sqlite => {
            let mut sql = "json_extract(".to_owned();
            sql.append(column);
            sql.append(", ?)");
            let mut path = "$.".to_owned();
            path.append(key);
            (sql, path)
        },
        JsonBackend::Postgres => {
            let mut sql = column.to_owned();
            sql.append(" ->> $1");
            (sql, key.to_owned())
        },
    }
}

/// The expression that sea-query's `Expr::cust_with_values(sql, [bound]).eq(value)`
/// builds.
pub uninterp spec fn custom_eq_expr(sql: Seq<char>, bound: Seq<char>, value: Seq<char>) -> SimpleExpr;

/// sea-query's `Expr::cust_with_values(sql, [bound]).eq(value)`: the condition that the
/// custom expression, with `bound` for its placeholder, equals `value`. The expression is
/// opaque here and stated by name.
#[verifier::external_body]
fn custom_equals(sql: String, bound: String, value: String) -> (r: SimpleExpr)
    ensures
        r == custom_eq_expr(sql@, bound@, value@),
{
    Expr::cust_with_values(sql, vec![bound]).eq(value)
}

/// The condition that key `key` of JSON column `column` holds `value`: the backend's
/// SQL for the key, with its bound value, compared with `value`.
pub fn json_key_eq(backend: JsonBackend, column: &str, key: &str, value: String) -> (r: SimpleExpr)
    ensures
        r == custom_eq_expr(json_key_sql(backend, column@, key@).0, json_key_sql(backend, column@, key@).1, value@),
{
    let (sql, bound) = json_key_template(backend, column, key);
    custom_equals(sql, bound, value)
}

/// A primary connection, for writes, and read replicas taken in turn.
#[derive(Debug)]
pub struct Database {
    primary: DatabaseConnection,
    replicas: Vec<DatabaseConnection>,
    replica_index: AtomicUsize,
}

impl Database {
    pub closed spec fn primary(&self) -> DatabaseConnection {
        self.primary
    }

    pub closed spec fn replicas(&self) -> Seq<DatabaseConnection> {
        self.replicas@
    }

    /// A handle over `primary` and `replicas`, with the first read going to the first
    /// replica.
    pub fn new(primary: DatabaseConnection, replicas: Vec<DatabaseConnection>) -> (d: Self)
        ensures
            d.primary() == primary,
            d.replicas() == replicas@,
    {
        Database { primary, replicas, replica_index: AtomicUsize::new(0) }
    }

    /// The backend of the primary connection; `None` when it is disconnected.
    pub fn backend(&self) -> (r: Option<Backend>)
        ensures
            r == backend_of(self.primary()),
    {
        connection_backend(&self.primary)
    }

    /// The connection that writes go to: the primary.
    pub fn get_write_connection(&self) -> (c: &DatabaseConnection)
        ensures
            *c == self.primary(),
    {
        &self.primary
    }

    /// The connection for a read: the primary when there are no replicas, else the
    /// replica whose turn it is. The turn is a counter shared by every caller, so which
    /// replica one call gets depends on the calls made before it.
    pub fn get_read_connection(&self) -> (c: &DatabaseConnection)
        ensures
            self.replicas().len() == 0 ==> *c == self.primary(),
            self.replicas().len() > 0 ==> exists|t: usize|
                *c == self.replicas()[replica_slot(t, self.replicas().len())],
    {
        if self.replicas.len() == 0 {
            return self.get_write_connection();
        }
        let ticket = self.replica_index.fetch_add(1, Ordering::SeqCst);
        let i = replica_index(ticket, self.replicas.len());
        &self.replicas[i]
    }

    /// A builder with nothing set.
    pub fn builder() -> (b: DatabaseBuilder)
        ensures
            b.primary() is None,
            b.replicas() is None,
            b.options() is None,
            !b.run_migrations(),
    {
        DatabaseBuilder::new()
    }
}

/// The settings connections are opened with; unset ones keep the driver's defaults.
#[derive(Debug, Clone)]
pub struct DatabaseOptions {
    pub max_connections: Option<u32>,
    pub min_connections: Option<u32>,
    pub connect_timeout: Option<Duration>,
    pub idle_timeout: Option<Duration>,
    pub acquire_timeout: Option<Duration>,
    pub max_lifetime: Option<Duration>,
    pub enable_logging: bool,
}

impl DatabaseOptions {
    /// Nothing set, statement logging on.
    pub fn new() -> (o: Self)
        ensures
            o == (DatabaseOptions {
                max_connections: None,
                min_connections: None,
                connect_timeout: None,
                idle_timeout: None,
                acquire_timeout: None,
                max_lifetime: None,
                enable_logging: true,
            }),
    {
        DatabaseOptions {
            max_connections: None,
            min_connections: None,
            connect_timeout: None,
            idle_timeout: None,
            acquire_timeout: None,
            max_lifetime: None,
            enable_logging: true,
        }
    }

    pub fn with_max_connections(&mut self, max: u32) -> (r: &mut Self)
        ensures
            *r == (DatabaseOptions { max_connections: Some(max), ..*old(self) }),
            *final(self) == *final(r),
    {
        self.max_connections = Some(max);
        self
    }

    pub fn with_min_connections(&mut self, min: u32) -> (r: &mut Self)
        ensures
            *r == (DatabaseOptions { min_connections: Some(min), ..*old(self) }),
            *final(self) == *final(r),
    {
        self.min_connections = Some(min);
        self
    }

    pub fn with_connect_timeout(&mut self, timeout: Duration) -> (r: &mut Self)
        ensures
            *r == (DatabaseOptions { connect_timeout: Some(timeout), ..*old(self) }),
            *final(self) == *final(r),
    {
        self.connect_timeout = Some(timeout);
        self
    }

    pub fn with_idle_timeout(&mut self, timeout: Duration) -> (r: &mut Self)
        ensures
            *r == (DatabaseOptions { idle_timeout: Some(timeout), ..*old(self) }),
            *final(self) == *final(r),
    {
        self.idle_timeout = Some(timeout);
        self
    }

    pub fn with_acquire_timeout(&mut self, timeout: Duration) -> (r: &mut Self)
        ensures
            *r == (DatabaseOptions { acquire_timeout: Some(timeout), ..*old(self) }),
            *final(self) == *final(r),
    {
        self.acquire_timeout = Some(timeout);
        self
    }

    pub fn with_max_lifetime(&mut self, lifetime: Duration) -> (r: &mut Self)
        ensures
            *r == (DatabaseOptions { max_lifetime: Some(lifetime), ..*old(self) }),
            *final(self) == *final(r),
    {
        self.max_lifetime = Some(lifetime);
        self
    }

    pub fn with_logging(&mut self, enable: bool) -> (r: &mut Self)
        ensures
            *r == (DatabaseOptions { enable_logging: enable, ..*old(self) }),
            *final(self) == *final(r),
    {
        self.enable_logging = enable;
        self
    }

    /// The driver's settings for connecting to `dsn`: each option that is set (an unset
    /// one keeps the driver's default, which is unset too), and statement logging as
    /// chosen, at the debug level.
    pub fn build(self, dsn: &str) -> (o: ConnectOptions)
        ensures
            connect_settings(o) == (ConnectSettings {
                url: dsn@,
                max_connections: self.max_connections,
                min_connections: self.min_connections,
                connect_timeout: self.connect_timeout,
                idle_timeout: self.idle_timeout,
                acquire_timeout: self.acquire_timeout,
                max_lifetime: self.max_lifetime,
                statement_logging: self.enable_logging,
                statement_log_level: StatementLogLevel::Debug,
            }),
    {
        let mut options = connect_options(dsn);
        if let Some(max) = self.max_connections {
            set_max_connections(&mut options, max);
        }
        if let Some(min) = self.min_connections {
            set_min_connections(&mut options, min);
        }
        if let Some(timeout) = self.connect_timeout {
            set_connect_timeout(&mut options, timeout);
        }
        if let Some(timeout) = self.idle_timeout {
            set_idle_timeout(&mut options, timeout);
        }
        if let Some(timeout) = self.acquire_timeout {
            set_acquire_timeout(&mut options, timeout);
        }
        if let Some(lifetime) = self.max_lifetime {
            set_max_lifetime(&mut options, lifetime);
        }
        set_statement_logging(&mut options, self.enable_logging);
        set_statement_log_level(&mut options, StatementLogLevel::Debug);
        options
    }
}

impl Default for DatabaseOptions {
    /// Nothing set, statement logging off: the options of a configuration that names none.
    fn default() -> (o: Self)
        ensures
            o == (DatabaseOptions {
                max_connections: None,
                min_connections: None,
                connect_timeout: None,
                idle_timeout: None,
                acquire_timeout: None,
                max_lifetime: None,
                enable_logging: false,
            }),
    {
        DatabaseOptions {
            max_connections: None,
            min_connections: None,
            connect_timeout: None,
            idle_timeout: None,
            acquire_timeout: None,
            max_lifetime: None,
            enable_logging: false,
        }
    }
}

/// Collects what a database handle is opened from.
pub struct DatabaseBuilder {
    primary: Option<String>,
    replicas: Option<Vec<String>>,
    options: Option<DatabaseOptions>,
    run_migrations: bool,
}

/// The connection strings of a list, as text.
pub open spec fn dsn_views(v: Seq<String>) -> Seq<Seq<char>> {
    v.map_values(|s: String| s@)
}

impl DatabaseBuilder {
    pub closed spec fn primary(&self) -> Option<Seq<char>> {
        match self.primary {
            Some(p) => Some(p@),
            None => None,
        }
    }

    pub closed spec fn replicas(&self) -> Option<Seq<Seq<char>>> {
        match self.replicas {
            Some(r) => Some(dsn_views(r@)),
            None => None,
        }
    }

    pub closed spec fn options(&self) -> Option<DatabaseOptions> {
        self.options
    }

    pub closed spec fn run_migrations(&self) -> bool {
        self.run_migrations
    }

    /// Nothing set, migrations off.
    pub fn new() -> (b: Self)
        ensures
            b.primary() is None,
            b.replicas() is None,
            b.options() is None,
            !b.run_migrations(),
    {
        DatabaseBuilder { primary: None, replicas: None, options: None, run_migrations: false }
    }

    pub fn with_primary(self, primary: String) -> (b: Self)
        ensures
            b.primary() == Some(primary@),
            b.replicas() == self.replicas(),
            b.options() == self.options(),
            b.run_migrations() == self.run_migrations(),
    {
        DatabaseBuilder { primary: Some(primary), ..self }
    }

    /// Sets the replicas; an empty list leaves the builder as it was.
    pub fn with_replicas(self, replicas: Vec<String>) -> (b: Self)
        ensures
            b.primary() == self.primary(),
            b.replicas() == (if replicas@.len() == 0 { self.replicas() } else { Some(dsn_views(replicas@)) }),
            b.options() == self.options(),
            b.run_migrations() == self.run_migrations(),
    {
        if replicas.len() == 0 {
            return self;
        }
        DatabaseBuilder { replicas: Some(replicas), ..self }
    }

    pub fn with_options(self, options: DatabaseOptions) -> (b: Self)
        ensures
            b.primary() == self.primary(),
            b.replicas() == self.replicas(),
            b.options() == Some(options),
            b.run_migrations() == self.run_migrations(),
    {
        DatabaseBuilder { options: Some(options), ..self }
    }

    pub fn with_migrations(self, run: bool) -> (b: Self)
        ensures
            b.primary() == self.primary(),
            b.replicas() == self.replicas(),
            b.options() == self.options(),
            b.run_migrations() == run,
    {
        DatabaseBuilder { run_migrations: run, ..self }
    }

    /// What opening the handle needs: the primary's connection string, the replicas'
    /// (none when unset), the options (all unset, logging off, when unset) and whether to
    /// migrate; an error when no primary was given.
    pub fn into_plan(self) -> (r: Result<ConnectionPlan, DatabaseError>)
        ensures
            self.primary() is None <==> r is Err,
            r matches Err(e) ==> e is MissingPrimaryDsn,
            r matches Ok(p) ==> {
                &&& Some(p.primary@) == self.primary()
                &&& dsn_views(p.replicas@) == (match self.replicas() { Some(v) => v, None => Seq::empty() })
                &&& p.options == (match self.options() {
                    Some(o) => o,
                    None => DatabaseOptions {
                        max_connections: None,
                        min_connections: None,
                        connect_timeout: None,
                        idle_timeout: None,
                        acquire_timeout: None,
                        max_lifetime: None,
                        enable_logging: false,
                    },
                })
                &&& p.run_migrations == self.run_migrations()
            },
    {
        let primary = match self.primary {
            Some(p) => p,
            None => return Err(DatabaseError::MissingPrimaryDsn),
        };
        let replicas = match self.replicas {
            Some(r) => r,
            None => Vec::new(),
        };
        proof {
            assert(dsn_views(Seq::<String>::empty()) =~= Seq::<Seq<char>>::empty());
        }
        let options = match self.options {
            Some(o) => o,
            None => DatabaseOptions::default(),
        };
        Ok(ConnectionPlan { primary, replicas, options, run_migrations: self.run_migrations })
    }
}

/// The connections a handle is opened with.
#[derive(Debug)]
pub struct ConnectionPlan {
    pub primary: String,
    pub replicas: Vec<String>,
    pub options: DatabaseOptions,
    pub run_migrations: bool,
}

/// A repository of API keys over a shared database handle.
#[derive(Debug)]
pub struct ApiKeyRepository {
    pub database: Arc<Database>,
}

impl ApiKeyRepository {
    pub fn new(database: Arc<Database>) -> (r: Self)
        ensures
            r.database == database,
    {
        ApiKeyRepository { database }
    }
}

/// A repository of namespaces over a shared database handle.
#[derive(Debug)]
pub struct ApiKeyNamespaceRepository {
    pub database: Arc<Database>,
}

impl ApiKeyNamespaceRepository {
    pub fn new(database: Arc<Database>) -> (r: Self)
        ensures
            r.database == database,
    {
        ApiKeyNamespaceRepository { database }
    }
}

/// A repository of tags over a shared database handle.
#[derive(Debug)]
pub struct ApiKeyTagRepository {
    pub database: Arc<Database>,
}

impl ApiKeyTagRepository {
    pub fn new(database: Arc<Database>) -> (r: Self)
        ensures
            r.database == database,
    {
        ApiKeyTagRepository { database }
    }
}

} // verus!
