//! The service's configuration: its defaults and its validation rules.

use vstd::prelude::*;
use vstd::string::*;
use crate::api::{Violation, ValidationReport};
use crate::database::DatabaseOptions;
use crate::dto::{broken, check_rule, conclude, validation_outcome, violation_pairs, within};

verus! {

/// The background task queue's sizes.
#[derive(Debug, Clone)]
pub struct TaskQueueConfig {
    pub worker_count: usize,
    pub max_queue_capacity: usize,
    pub batch_size: usize,
    pub batch_timeout_ms: usize,
}

impl Default for TaskQueueConfig {
    /// Four workers, a queue of 100, batches of 16 gathered for at most 10 ms.
    fn default() -> (c: Self)
        ensures
            c == (TaskQueueConfig { worker_count: 4, max_queue_capacity: 100, batch_size: 16, batch_timeout_ms: 10 }),
    {
        TaskQueueConfig { worker_count: 4, max_queue_capacity: 100, batch_size: 16, batch_timeout_ms: 10 }
    }
}

/// What the rules on the task queue find.
pub open spec fn task_queue_findings(c: TaskQueueConfig) -> Seq<(Seq<char>, Seq<char>)> {
    broken(c.worker_count >= 1, "worker_count"@, "range"@)
        + broken(c.max_queue_capacity >= 1, "max_queue_capacity"@, "range"@)
        + broken(c.batch_size >= 1, "batch_size"@, "range"@)
        + broken(c.batch_timeout_ms >= 1, "batch_timeout_ms"@, "range"@)
}

impl TaskQueueConfig {
    /// Every size is at least 1.
    pub fn validate(&self) -> (r: Result<(), ValidationReport>)
        ensures
            validation_outcome(r, task_queue_findings(*self)),
    {
        let mut found: Vec<Violation> = Vec::new();
        check_rule(&mut found, self.worker_count >= 1, "worker_count", "range");
        check_rule(&mut found, self.max_queue_capacity >= 1, "max_queue_capacity", "range");
        check_rule(&mut found, self.batch_size >= 1, "batch_size", "range");
        check_rule(&mut found, self.batch_timeout_ms >= 1, "batch_timeout_ms", "range");
        assert(violation_pairs(found@) =~= task_queue_findings(*self));
        conclude(found)
    }
}

/// Where the server listens.
#[derive(Debug, Clone)]
pub struct ServerConfig {
    pub host: String,
    pub port: u16,
}

impl Default for ServerConfig {
    /// Every interface, port 8087.
    fn default() -> (c: Self)
        ensures
            c.host@ == "0.0.0.0"@,
            c.port == 8087,
    {
        ServerConfig { host: "0.0.0.0".to_owned(), port: 8087 }
    }
}

/// What the rules on the server settings find.
pub open spec fn server_findings(c: ServerConfig) -> Seq<(Seq<char>, Seq<char>)> {
    broken(within(c.host@.len() as int, 1, 255), "host"@, "length"@)
        + broken(within(c.port as int, 1, 65535), "port"@, "range"@)
}

impl ServerConfig {
    /// The host has one to 255 characters and the port is not 0.
    pub fn validate(&self) -> (r: Result<(), ValidationReport>)
        ensures
            validation_outcome(r, server_findings(*self)),
    {
        let mut found: Vec<Violation> = Vec::new();
        let n = self.host.as_str().unicode_len();
        check_rule(&mut found, 1 <= n && n <= 255, "host", "length");
        check_rule(&mut found, 1 <= self.port, "port", "range");
        assert(violation_pairs(found@) =~= server_findings(*self));
        conclude(found)
    }
}

/// The databases the service connects to.
#[derive(Debug, Clone)]
pub struct DatabaseConfig {
    pub primary: String,
    pub replicas: Vec<String>,
    pub options: DatabaseOptions,
}

impl Default for DatabaseConfig {
    /// A SQLite file `database.db`, created when missing; no replicas; no options.
    fn default() -> (c: Self)
        ensures
            c.primary@ == "sqlite://database.db?mode=rwc"@,
            c.replicas@.len() == 0,
            c.options == (DatabaseOptions {
                max_connections: None,
                min_connections: None,
                connect_timeout: None,
                idle_timeout: None,
                acquire_timeout: None,
                max_lifetime: None,
                enable_logging: false,
            }),
    {
        DatabaseConfig {
            primary: "sqlite://database.db?mode=rwc".to_owned(),
            replicas: Vec::new(),
            options: DatabaseOptions::default(),
        }
    }
}

impl DatabaseConfig {
    /// The primary's connection string has one to 255 characters.
    pub fn validate(&self) -> (r: Result<(), ValidationReport>)
        ensures
            validation_outcome(r, broken(within(self.primary@.len() as int, 1, 255), "primary"@, "length"@)),
    {
        let mut found: Vec<Violation> = Vec::new();
        let n = self.primary.as_str().unicode_len();
        check_rule(&mut found, 1 <= n && n <= 255, "primary", "length");
        assert(violation_pairs(found@) =~= broken(within(self.primary@.len() as int, 1, 255), "primary"@, "length"@));
        conclude(found)
    }
}

/// Error reporting to Sentry.
#[derive(Debug, Clone)]
pub struct SentryConfig {
    pub enabled: bool,
    pub dsn: String,
}

impl Default for SentryConfig {
    /// Off, with no DSN.
    fn default() -> (c: Self)
        ensures
            !c.enabled,
            c.dsn@.len() == 0,
    {
        SentryConfig { enabled: false, dsn: String::new() }
    }
}

/// Telemetry export.
#[derive(Debug, Clone)]
pub struct TelemetryConfig {
    pub enabled: bool,
    pub endpoint: String,
}

impl Default for TelemetryConfig {
    /// Off, with no endpoint.
    fn default() -> (c: Self)
        ensures
            !c.enabled,
            c.endpoint@.len() == 0,
    {
        TelemetryConfig { enabled: false, endpoint: String::new() }
    }
}

/// The whole configuration.
#[derive(Debug, Clone)]
pub struct Config {
    pub default_tenant_id: String,
    pub default_namespace: String,
    pub task_queue: TaskQueueConfig,
    pub server: ServerConfig,
    pub database: DatabaseConfig,
    pub sentry: SentryConfig,
    pub telemetry: TelemetryConfig,
}

/// The configuration under the name the application gives it.
pub type AppConfig = Config;

impl Default for Config {
    /// Tenant `default`, namespace `apik`, and every part at its default.
    fn default() -> (c: Self)
        ensures
            c.default_tenant_id@ == "default"@,
            c.default_namespace@ == "apik"@,
            c.task_queue == (TaskQueueConfig { worker_count: 4, max_queue_capacity: 100, batch_size: 16, batch_timeout_ms: 10 }),
            c.server.host@ == "0.0.0.0"@,
            c.server.port == 8087,
            c.database.primary@ == "sqlite://database.db?mode=rwc"@,
            c.database.replicas@.len() == 0,
            !c.database.options.enable_logging,
            c.database.options.max_connections is None,
            !c.sentry.enabled,
            c.sentry.dsn@.len() == 0,
            !c.telemetry.enabled,
            c.telemetry.endpoint@.len() == 0,
    {
        Config {
            default_tenant_id: "default".to_owned(),
            default_namespace: "apik".to_owned(),
            task_queue: TaskQueueConfig::default(),
            server: ServerConfig::default(),
            database: DatabaseConfig::default(),
            sentry: SentryConfig::default(),
            telemetry: TelemetryConfig::default(),
        }
    }
}

/// What the rules on the whole configuration find: its own two fields; the parts are
/// checked by their own rules.
pub open spec fn config_findings(c: Config) -> Seq<(Seq<char>, Seq<char>)> {
    broken(within(c.default_tenant_id@.len() as int, 1, 64), "default_tenant_id"@, "length"@)
        + broken(within(c.default_namespace@.len() as int, 1, 6), "default_namespace"@, "length"@)
}

impl Config {
    /// The default tenant has one to 64 characters, the default namespace one to six.
    pub fn validate(&self) -> (r: Result<(), ValidationReport>)
        ensures
            validation_outcome(r, config_findings(*self)),
    {
        let mut found: Vec<Violation> = Vec::new();
        let t = self.default_tenant_id.as_str().unicode_len();
        check_rule(&mut found, 1 <= t && t <= 64, "default_tenant_id", "length");
        let n = self.default_namespace.as_str().unicode_len();
        check_rule(&mut found, 1 <= n && n <= 6, "default_namespace", "length");
        assert(violation_pairs(found@) =~= config_findings(*self));
        conclude(found)
    }
}

/// The defaults pass their own rules.
pub proof fn lemma_defaults_are_valid(c: Config)
    requires
        c.default_tenant_id@ == "default"@,
        c.default_namespace@ == "apik"@,
        c.task_queue == (TaskQueueConfig { worker_count: 4, max_queue_capacity: 100, batch_size: 16, batch_timeout_ms: 10 }),
        c.server.host@ == "0.0.0.0"@,
        c.server.port == 8087,
        c.database.primary@ == "sqlite://database.db?mode=rwc"@,
    ensures
        config_findings(c).len() == 0,
        task_queue_findings(c.task_queue).len() == 0,
        server_findings(c.server).len() == 0,
        broken(within(c.database.primary@.len() as int, 1, 255), "primary"@, "length"@).len() == 0,
{
    reveal_strlit("default");
    reveal_strlit("apik");
    reveal_strlit("0.0.0.0");
    reveal_strlit("sqlite://database.db?mode=rwc");
}

/// The settings pass exactly within their ranges: a default tenant of one to 64
/// characters and a default namespace of one to six; every task queue size at least 1; a
/// host of one to 255 characters and a port other than 0.
pub proof fn lemma_setting_ranges(c: Config)
    ensures
        config_findings(c).len() == 0 <==> (1 <= c.default_tenant_id@.len() <= 64 && 1 <= c.default_namespace@.len() <= 6),
        task_queue_findings(c.task_queue).len() == 0 <==> (c.task_queue.worker_count >= 1
            && c.task_queue.max_queue_capacity >= 1 && c.task_queue.batch_size >= 1 && c.task_queue.batch_timeout_ms >= 1),
        server_findings(c.server).len() == 0 <==> (1 <= c.server.host@.len() <= 255 && c.server.port != 0),
        config_findings(c).len() <= 2,
        server_findings(c.server).len() <= 2,
{
}

} // verus!
