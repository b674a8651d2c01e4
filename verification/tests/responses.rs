use lockbox::api::{group_violations, ApiError, ErrorResponse, ValidationReport, Violation};
use lockbox::cli::{CliCommandApiKeysCreate, ManifestFormat};
use lockbox::database::{json_backend, json_key_eq, json_key_template, Backend, JsonBackend};
use sea_orm::sea_query::{Alias, Query, SqliteQueryBuilder};
use lockbox::dto::{CreateApiKeyRequestDTO, SetApiKeyExpirationRequestDTO};
use lockbox::errors::ApiKeyServiceError;
use lockbox::key_ops::{ChangeKeyStage, KeyChange};
use lockbox::metadata::Metadata;
use lockbox::model::{CreateApiKeyResponse, Timestamp};
use lockbox::tasks::{SetApiKeyLastUsedTask, TaskOperations};

fn violation(field: &str, code: &str) -> Violation {
    Violation { field: field.to_string(), code: code.to_string() }
}

#[test]
fn violations_are_grouped_by_field_in_first_seen_order() {
    let v = vec![
        violation("name", "length"),
        violation("port", "range"),
        violation("name", "pattern"),
        violation("host", "length"),
    ];
    let g = group_violations(&v);
    let shape: Vec<(String, Vec<String>)> = g.into_iter().map(|f| (f.field, f.codes)).collect();
    assert_eq!(
        shape,
        vec![
            ("name".to_string(), vec!["length".to_string(), "pattern".to_string()]),
            ("port".to_string(), vec!["range".to_string()]),
            ("host".to_string(), vec!["length".to_string()]),
        ]
    );
    assert!(group_violations(&vec![]).is_empty());
}

#[test]
fn error_bodies_and_their_statuses() {
    let body = ErrorResponse::from_error(ApiError::not_found("gone"));
    assert_eq!(body.status(), 404);
    match body {
        ErrorResponse::Generic { code, message } => {
            assert_eq!(code, 404000);
            assert_eq!(message, "gone");
        },
        _ => panic!("expected a generic body"),
    }
    let report = ValidationReport { violations: vec![violation("tag", "length")] };
    let body = ErrorResponse::from_error(ApiError::validation_error(report));
    assert_eq!(body.status(), 422);
    match body {
        ErrorResponse::Validation { code, fields } => {
            assert_eq!(code, 422001);
            assert_eq!(fields.len(), 1);
            assert_eq!(fields[0].field, "tag");
        },
        _ => panic!("expected a validation body"),
    }
}

#[test]
fn json_key_conditions() {
    let (sql, bound) = json_key_template(JsonBackend::Sqlite, "metadata", "team");
    assert_eq!(sql, "json_extract(metadata, ?)");
    assert_eq!(bound, "$.team");
    let (sql, bound) = json_key_template(JsonBackend::Postgres, "metadata", "team");
    assert_eq!(sql, "metadata ->> $1");
    assert_eq!(bound, "team");
    assert_eq!(json_backend(Backend::Sqlite), Some(JsonBackend::Sqlite));
    assert_eq!(json_backend(Backend::Postgres), Some(JsonBackend::Postgres));
    assert_eq!(json_backend(Backend::MySql), None);
}

#[test]
fn last_used_tasks_change_the_key() {
    let task = TaskOperations::SetApiKeyLastUsed(SetApiKeyLastUsedTask {
        id: 42,
        last_used_at: Timestamp::new(10, 5),
        tenant_id: "acme".to_string(),
    });
    let op = task.operation();
    assert_eq!(op.id, 42);
    assert_eq!(op.tenant_id, "acme");
    match op.stage {
        ChangeKeyStage::Start(KeyChange::SetLastUsed(t)) => assert_eq!(t, Timestamp::new(10, 5)),
        other => panic!("unexpected stage {:?}", other),
    }
}

#[test]
fn key_creation_bodies() {
    let now = Timestamp::new(1000, 0);
    let ok = CreateApiKeyRequestDTO {
        owner: "alice".to_string(),
        scope: Some("read".to_string()),
        tag: Some("prod".to_string()),
        expires_at: Some(Timestamp::new(1000, 1)),
        metadata: None,
    };
    assert!(ok.validate_at(now).is_ok());
    let payload = ok.to_payload();
    assert_eq!(payload.owner, "alice");
    assert!(payload.metadata.as_inner().is_empty());

    let bad = CreateApiKeyRequestDTO {
        owner: "o".repeat(256),
        scope: None,
        tag: Some("toolong".to_string()),
        expires_at: Some(now),
        metadata: None,
    };
    let found: Vec<(String, String)> = bad
        .validate_at(now)
        .unwrap_err()
        .violations
        .into_iter()
        .map(|v| (v.field, v.code))
        .collect();
    assert_eq!(
        found,
        vec![
            ("owner".to_string(), "length".to_string()),
            ("tag".to_string(), "length".to_string()),
            ("expires_at".to_string(), "date_in_past".to_string()),
        ]
    );
    let past = SetApiKeyExpirationRequestDTO { expires_at: Timestamp::new(1, 0) };
    assert!(past.validate().is_err());
    assert!(past.validate_at(Timestamp::new(0, 999)).is_ok());
}

#[test]
fn create_command() {
    let cmd = CliCommandApiKeysCreate {
        owner: "bob".to_string(),
        scope: None,
        tag: Some("dev".to_string()),
        expiration: None,
        metadata: Some(vec![
            ("a".to_string(), "1".to_string()),
            ("a".to_string(), "2".to_string()),
        ]),
        skip_exists: true,
        format: ManifestFormat::Json,
    };
    assert!(cmd.validate().is_ok());
    let payload = cmd.payload();
    assert_eq!(payload.metadata.get(&"a".to_string()).map(|s| s.as_str()), Some("2"));
    assert_eq!(payload.metadata.as_inner().len(), 1);
    assert!(matches!(CliCommandApiKeysCreate::settle(true, Err(ApiKeyServiceError::KeyAlreadyExists)), Ok(None)));
    assert!(matches!(
        CliCommandApiKeysCreate::settle(false, Err(ApiKeyServiceError::KeyAlreadyExists)),
        Err(ApiKeyServiceError::KeyAlreadyExists)
    ));
    let created = CreateApiKeyResponse {
        id: 1,
        tenant_id: "t".to_string(),
        namespace: "apik".to_string(),
        key: "k".to_string(),
        created_at: Timestamp::new(0, 0),
        owner: "bob".to_string(),
        scope: None,
        tag: None,
        expires_at: None,
        metadata: Metadata::new(),
    };
    assert!(matches!(CliCommandApiKeysCreate::settle(true, Ok(created)), Ok(Some(_))));
}

#[test]
fn json_key_condition_renders_as_sql() {
    let expr = json_key_eq(JsonBackend::Sqlite, "metadata", "team", "core".to_string());
    let sql = Query::select()
        .column(Alias::new("id"))
        .from(Alias::new("api_key"))
        .and_where(expr)
        .to_string(SqliteQueryBuilder);
    assert!(sql.ends_with("WHERE (json_extract(metadata, '$.team')) = 'core'"), "{}", sql);
}
