use std::time::Duration;

use lockbox::cli::{
    namespace_bootstrap, CliCommandApiKeysIntrospect, CliCommandApiKeysSetMetadata,
    CliCommandConfig, CliCommandServe, CliCommandTags, CliCommandTagsDelete, CliRefusal,
    ManifestFormat, NamespaceBootstrap,
};
use lockbox::config::{Config, DatabaseConfig, ServerConfig, TaskQueueConfig};
use lockbox::database::{replica_index, Database, DatabaseBuilder, DatabaseOptions};
use lockbox::errors::{ApiKeyServiceError, DatabaseError};
use lockbox::indexed::{indexed_list, order_by_index, parse_index_exec};
use lockbox::model::{GetNamespaceResponse, Timestamp};
use lockbox::telemetry::{
    bootstrap_builder, Level, LogFilter, LoggingSwitch, TargetLevel, TelemetryBuilder,
    TelemetryProtocol,
};
use sea_orm::DatabaseConnection;

#[test]
fn configuration_defaults() {
    let c = Config::default();
    assert_eq!(c.default_tenant_id, "default");
    assert_eq!(c.default_namespace, "apik");
    assert_eq!(c.task_queue.worker_count, 4);
    assert_eq!(c.task_queue.max_queue_capacity, 100);
    assert_eq!(c.task_queue.batch_size, 16);
    assert_eq!(c.task_queue.batch_timeout_ms, 10);
    assert_eq!(c.server.host, "0.0.0.0");
    assert_eq!(c.server.port, 8087);
    assert_eq!(c.database.primary, "sqlite://database.db?mode=rwc");
    assert!(c.database.replicas.is_empty());
    assert!(!c.database.options.enable_logging);
    assert!(!c.sentry.enabled);
    assert_eq!(c.sentry.dsn, "");
    assert!(!c.telemetry.enabled);
    assert_eq!(c.telemetry.endpoint, "");
    assert!(c.validate().is_ok());
    assert!(c.server.validate().is_ok());
    assert!(c.task_queue.validate().is_ok());
    assert!(c.database.validate().is_ok());
}

#[test]
fn configuration_rules() {
    let mut c = Config::default();
    c.default_namespace = "toolong".to_string();
    c.default_tenant_id = "".to_string();
    let r = c.validate().unwrap_err();
    let found: Vec<String> = r.violations.iter().map(|v| v.field.clone()).collect();
    assert_eq!(found, vec!["default_tenant_id", "default_namespace"]);

    let s = ServerConfig { host: "".to_string(), port: 0 };
    assert_eq!(s.validate().unwrap_err().violations.len(), 2);
    let q = TaskQueueConfig { worker_count: 0, max_queue_capacity: 1, batch_size: 1, batch_timeout_ms: 0 };
    let found: Vec<String> = q.validate().unwrap_err().violations.iter().map(|v| v.field.clone()).collect();
    assert_eq!(found, vec!["worker_count", "batch_timeout_ms"]);
    let d = DatabaseConfig { primary: "x".repeat(256), replicas: vec![], options: DatabaseOptions::new() };
    assert!(d.validate().is_err());
}

#[test]
fn log_filter_caps_exporter_events() {
    let f = LogFilter::service_default();
    assert!(f.admits("opentelemetry_sdk::export", Level::Error));
    assert!(!f.admits("opentelemetry_sdk::export", Level::Warn));
    assert!(!f.admits("opentelemetry", Level::Info));
    assert!(f.admits("lockbox::server", Level::Trace));
    assert!(f.admits("", Level::Debug));
    let g = LogFilter {
        rules: vec![
            TargetLevel { prefix: "hyper".to_string(), max: Level::Warn },
            TargetLevel { prefix: "hy".to_string(), max: Level::Trace },
        ],
    };
    assert!(g.admits("hyper::client", Level::Warn));
    assert!(!g.admits("hyper::client", Level::Info));
    assert!(g.admits("hyx", Level::Info));
}

#[test]
fn telemetry_plans() {
    let p = TelemetryBuilder::new().plan();
    assert_eq!(p.log_level, "info");
    assert!(p.export.is_none());
    assert!(p.log_filter.is_none());

    let p = bootstrap_builder("lockbox".to_string(), Some("http://collector:4318".to_string()), None, None).plan();
    assert_eq!(p.log_level, "info");
    let x = p.export.unwrap();
    assert!(x.protocol == TelemetryProtocol::Http);
    assert_eq!(x.service_name, "lockbox");
    assert_eq!(x.environment, "production");
    assert_eq!(x.traces_url, "http://collector:4318/v1/traces");
    assert_eq!(x.metrics_url, "http://collector:4318/v1/metrics");
    assert_eq!(x.logs_url, "http://collector:4318/v1/logs");
    assert_eq!(p.log_filter.unwrap().rules.len(), 1);

    let p = bootstrap_builder("svc".to_string(), None, Some("debug".to_string()), Some("staging".to_string())).plan();
    assert_eq!(p.log_level, "debug");
    assert!(p.export.is_none());

    let p = TelemetryBuilder::new()
        .maybe_endpoint(None)
        .endpoint("e".to_string())
        .service_name("s".to_string())
        .environment("dev".to_string())
        .protocol(TelemetryProtocol::Http)
        .log_level("warn".to_string())
        .plan();
    assert_eq!(p.export.unwrap().logs_url, "e/v1/logs");
    assert_eq!(TelemetryProtocol::default().name(), "http");
}

#[test]
fn logging_switch() {
    let s = LoggingSwitch::new(true);
    let shared = s.clone();
    assert!(s.is_enabled());
    shared.disable();
    assert!(!s.is_enabled());
    s.enable();
    assert!(shared.is_enabled());
    assert!(!LoggingSwitch::new(false).is_enabled());
}

#[test]
fn database_options() {
    let mut o = DatabaseOptions::new();
    assert!(o.enable_logging);
    o.with_max_connections(10u32)
        .with_min_connections(2u32)
        .with_connect_timeout(Duration::from_secs(3))
        .with_logging(false);
    assert_eq!(o.max_connections, Some(10));
    assert_eq!(o.min_connections, Some(2));
    assert_eq!(o.connect_timeout, Some(Duration::from_secs(3)));
    assert_eq!(o.idle_timeout, None);
    assert!(!o.enable_logging);
    let d = DatabaseOptions::default();
    assert!(!d.enable_logging);
    assert_eq!(d.max_connections, None);
    let opts = o.clone().build("sqlite::memory:");
    assert_eq!(opts.get_url(), "sqlite::memory:");
    assert_eq!(opts.get_max_connections(), Some(10));
    assert_eq!(opts.get_min_connections(), Some(2));
    assert!(!opts.get_sqlx_logging());
    assert_eq!(opts.get_sqlx_logging_level(), log::LevelFilter::Debug);
    assert_eq!(opts.get_connect_timeout(), Some(Duration::from_secs(3)));
    assert_eq!(opts.get_idle_timeout(), None);
}

#[test]
fn database_builder_plans() {
    let r = Database::builder().with_migrations(true).into_plan();
    assert!(matches!(r, Err(DatabaseError::MissingPrimaryDsn)));

    let p = DatabaseBuilder::new()
        .with_primary("sqlite://a.db".to_string())
        .with_replicas(vec!["sqlite://b.db".to_string()])
        .with_replicas(vec![])
        .with_migrations(true)
        .into_plan()
        .unwrap();
    assert_eq!(p.primary, "sqlite://a.db");
    assert_eq!(p.replicas, vec!["sqlite://b.db".to_string()]);
    assert!(!p.options.enable_logging);
    assert!(p.run_migrations);

    let mut o = DatabaseOptions::new();
    o.with_max_lifetime(Duration::from_secs(60));
    let p = DatabaseBuilder::new()
        .with_primary("p".to_string())
        .with_options(o)
        .into_plan()
        .unwrap();
    assert!(p.replicas.is_empty());
    assert_eq!(p.options.max_lifetime, Some(Duration::from_secs(60)));
    assert!(!p.run_migrations);
}

#[test]
fn reads_go_round_the_replicas() {
    let seen: Vec<usize> = (5..11).map(|t| replica_index(t, 3)).collect();
    assert_eq!(seen, vec![2, 0, 1, 2, 0, 1]);
    assert_eq!(replica_index(usize::MAX, 1), 0);
}

#[test]
fn a_database_without_replicas_reads_from_the_primary() {
    let db = Database::new(DatabaseConnection::Disconnected, vec![]);
    assert!(matches!(db.get_read_connection(), DatabaseConnection::Disconnected));
    assert!(matches!(db.get_write_connection(), DatabaseConnection::Disconnected));
    assert!(db.backend().is_none());
    let db = Database::new(DatabaseConnection::Disconnected, vec![DatabaseConnection::Disconnected]);
    assert!(matches!(db.get_read_connection(), DatabaseConnection::Disconnected));
}

#[test]
fn serve_takes_arguments_over_configuration() {
    let c = Config::default();
    let ctx = CliCommandServe { host: None, port: Some(9000), migrations: true }.serve_context(&c);
    assert_eq!(ctx.host.as_deref(), Some("0.0.0.0"));
    assert_eq!(ctx.port, Some(9000));
    assert_eq!(ctx.task_queue.worker_count, Some(4));
    assert_eq!(ctx.task_queue.batch_timeout_ms, Some(10));
    assert!(ctx.migrations);
    let ctx = CliCommandServe { host: Some("127.0.0.1".to_string()), port: None, migrations: false }.serve_context(&c);
    assert_eq!(ctx.host.as_deref(), Some("127.0.0.1"));
    assert_eq!(ctx.port, Some(8087));
    assert_eq!(CliCommandConfig { format: ManifestFormat::Yaml }.config_context().format, Some(ManifestFormat::Yaml));
}

#[test]
fn tag_commands() {
    let c = Config::default();
    let t = CliCommandTags { tenant_id: Some("acme".to_string()), namespace: None, command: None };
    assert_eq!(t.scope(&c), ("acme".to_string(), "apik".to_string()));
    let d = CliCommandTagsDelete { name: "prod".to_string(), skip_missing: true };
    assert!(d.validate().is_ok());
    assert!(d.settle(Err(ApiKeyServiceError::TagNotFound)).is_ok());
    assert!(matches!(d.settle(Err(ApiKeyServiceError::KeyNotFound)), Err(ApiKeyServiceError::KeyNotFound)));
    let strict = CliCommandTagsDelete { name: "toolong".to_string(), skip_missing: false };
    assert!(strict.validate().is_err());
    assert!(matches!(strict.settle(Err(ApiKeyServiceError::TagNotFound)), Err(ApiKeyServiceError::TagNotFound)));
}

#[test]
fn metadata_command() {
    let empty = CliCommandApiKeysSetMetadata { id: "x".to_string(), metadata: vec![], skip_missing: false };
    let refusal = empty.check().unwrap_err();
    assert!(matches!(refusal, CliRefusal::NoMetadata));
    assert_eq!(refusal.message(), "No metadata provided");
    let some = CliCommandApiKeysSetMetadata {
        id: "x".to_string(),
        metadata: vec![("k".to_string(), "v".to_string())],
        skip_missing: true,
    };
    assert!(some.check().is_ok());
    assert!(some.settle(Err(ApiKeyServiceError::KeyNotFound)).is_ok());
}

#[test]
fn introspect_command_tag_filters() {
    let cmd = |tags: Vec<Option<String>>, no_tag: bool| CliCommandApiKeysIntrospect {
        api_key: "k".to_string(),
        scope: None,
        tags,
        no_tag,
        format: ManifestFormat::Json,
    };
    assert_eq!(cmd(vec![], false).tag_filter().unwrap(), None);
    assert_eq!(cmd(vec![], true).tag_filter().unwrap(), Some(vec![]));
    assert_eq!(
        cmd(vec![Some("prod".to_string()), None], false).tag_filter().unwrap(),
        Some(vec![Some("prod".to_string()), None])
    );
    let refusal = cmd(vec![None], true).tag_filter().unwrap_err();
    assert_eq!(refusal.message(), "Conflicting options: --no-tag and --tag are mutually exclusive");
}

#[test]
fn default_namespace_bootstrap() {
    let ns = |is_default: bool| GetNamespaceResponse {
        tenant_id: "default".to_string(),
        name: "apik".to_string(),
        created_at: Timestamp::new(0, 0),
        is_default,
    };
    assert!(matches!(namespace_bootstrap(Ok(ns(true))), NamespaceBootstrap::Ready));
    assert!(matches!(namespace_bootstrap(Ok(ns(false))), NamespaceBootstrap::MakeDefault));
    assert!(matches!(
        namespace_bootstrap(Err(ApiKeyServiceError::NamespaceNotFound)),
        NamespaceBootstrap::CreateAndMakeDefault
    ));
    assert!(matches!(
        namespace_bootstrap(Err(ApiKeyServiceError::Unexpected("x".to_string()))),
        NamespaceBootstrap::Fail(ApiKeyServiceError::Unexpected(_))
    ));
}

#[test]
fn lists_given_as_position_maps() {
    let entries = vec![
        ("1".to_string(), "b".to_string()),
        ("0".to_string(), "a".to_string()),
        ("x".to_string(), "ignored".to_string()),
        ("10".to_string(), "c".to_string()),
        ("+1".to_string(), "b2".to_string()),
    ];
    assert_eq!(indexed_list(&entries), vec!["a", "b2", "c"]);
    let (keys, _) = order_by_index(&entries);
    assert_eq!(keys, vec![0, 1, 10]);
    assert!(indexed_list(&vec![]).is_empty());
    assert_eq!(parse_index_exec("007"), Some(7));
    assert_eq!(parse_index_exec("+3"), Some(3));
    assert_eq!(parse_index_exec("+"), None);
    assert_eq!(parse_index_exec(""), None);
    assert_eq!(parse_index_exec("-1"), None);
    assert_eq!(parse_index_exec("1a"), None);
    assert_eq!(parse_index_exec("99999999999999999999999"), None);
    assert_eq!(parse_index_exec(&usize::MAX.to_string()), Some(usize::MAX));
}
