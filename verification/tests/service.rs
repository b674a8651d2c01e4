use lockbox::crypto::hash_sha512;
use lockbox::errors::{ApiKeyServiceError, DatabaseError};
use lockbox::introspect::{judge_api_key, tags_admit, IntrospectApiKey};
use lockbox::key::ApiKeyParts;
use lockbox::key_ops::CreateApiKey;
use lockbox::metadata::Metadata;
use lockbox::model::{
    page_neighbours, ApiKeyModel, CreateApiKeyPayload, NamespaceModel, Page, TagFilter,
    TagModel, Timestamp,
};
use lockbox::namespace_ops::GetNamespace;
use lockbox::protocol::{RepoCall, RepoReply, Step};
use lockbox::words::{covers_words, split_words};

const SHORT: &str = "abcdefghijkl";
const LONG: &str = "ABCDEFGHIJKLMNOPQRSTUVWX";
const TOKEN: &str = "apik_abcdefghijklABCDEFGHIJKLMNOPQRSTUVWX1s2hAM";

fn stored_key(scope: Option<&str>) -> ApiKeyModel {
    ApiKeyModel {
        id: 7,
        tenant_id: "default".to_string(),
        namespace: "apik".to_string(),
        tag: None,
        short_key: SHORT.to_string(),
        long_key_hash: hash_sha512(LONG),
        owner: "alice".to_string(),
        scope: scope.map(|s| s.to_string()),
        revoked: false,
        revoked_at: None,
        expires_at: None,
        last_used_at: None,
        created_at: Timestamp::new(1_700_000_000, 0),
        metadata: Metadata::new(),
    }
}

fn page_of(items: Vec<ApiKeyModel>) -> Page<ApiKeyModel> {
    let count = items.len() as u64;
    Page { items, count, next_page: None, previous_page: None }
}

#[test]
fn introspection_accepts_a_valid_key() {
    let mut op = IntrospectApiKey::new(TOKEN.to_string(), Some("read".to_string()), None, "default".to_string());
    match op.step(None) {
        Step::Call(RepoCall::FindApiKeys(_)) => {},
        other => panic!("unexpected step {:?}", other),
    }
    match op.step(Some(RepoReply::ApiKeyPage(page_of(vec![stored_key(Some("read write"))])))) {
        Step::Finish(Ok(r)) => {
            assert!(r.valid);
            let key = r.key.unwrap();
            assert_eq!(key.id, 7);
            assert_eq!(key.short_key, SHORT);
        },
        other => panic!("unexpected step {:?}", other),
    }
}

#[test]
fn introspection_rejects_a_bad_checksum_before_any_lookup() {
    let mut op = IntrospectApiKey::new(
        "apik_abcdefghijklABCDEFGHIJKLMNOPQRSTUVWX1s2hAN".to_string(), None, None, "default".to_string());
    assert!(matches!(op.step(None), Step::Finish(Err(ApiKeyServiceError::InvalidKey))));
}

#[test]
fn introspection_rejects_an_unknown_key() {
    let mut op = IntrospectApiKey::new(TOKEN.to_string(), None, None, "default".to_string());
    assert!(matches!(op.step(None), Step::Call(_)));
    assert!(matches!(
        op.step(Some(RepoReply::ApiKeyPage(page_of(vec![])))),
        Step::Finish(Err(ApiKeyServiceError::InvalidKey))
    ));
}

#[test]
fn introspection_rejects_a_tag_that_is_not_admitted() {
    let tags = Some(vec![Some("prod".to_string())]);
    let mut op = IntrospectApiKey::new(TOKEN.to_string(), None, tags, "default".to_string());
    assert!(matches!(op.step(None), Step::Finish(Err(ApiKeyServiceError::InvalidKey))));
}

#[test]
fn introspection_reports_a_store_failure() {
    let mut op = IntrospectApiKey::new(TOKEN.to_string(), None, None, "default".to_string());
    assert!(matches!(op.step(None), Step::Call(_)));
    let failure = DatabaseError::SqlError("boom".to_string());
    match op.step(Some(RepoReply::Failed(failure))) {
        Step::Finish(Err(ApiKeyServiceError::DatabaseError(DatabaseError::SqlError(m)))) => assert_eq!(m, "boom"),
        other => panic!("unexpected step {:?}", other),
    }
}

#[test]
fn introspection_resumed_out_of_turn_fails() {
    let mut op = IntrospectApiKey::new(TOKEN.to_string(), None, None, "default".to_string());
    assert!(matches!(op.step(Some(RepoReply::Done)), Step::Finish(Err(ApiKeyServiceError::Unexpected(_)))));
    assert!(matches!(op.step(None), Step::Finish(Err(ApiKeyServiceError::Unexpected(_)))));
}

#[test]
fn judging_checks_hash_revocation_expiry_and_scope() {
    let now = Timestamp::new(1_800_000_000, 0);
    let ok = judge_api_key(LONG, stored_key(None), &None, now).unwrap();
    assert!(ok.valid);

    assert!(matches!(judge_api_key("X", stored_key(None), &None, now), Err(ApiKeyServiceError::InvalidKey)));

    let mut revoked = stored_key(None);
    revoked.revoked = true;
    assert!(matches!(judge_api_key(LONG, revoked, &None, now), Err(ApiKeyServiceError::InvalidKey)));

    let mut expired = stored_key(None);
    expired.expires_at = Some(Timestamp::new(1_799_999_999, 999));
    assert!(matches!(judge_api_key(LONG, expired, &None, now), Err(ApiKeyServiceError::KeyExpired)));

    let mut later = stored_key(None);
    later.expires_at = Some(now);
    assert!(judge_api_key(LONG, later, &None, now).is_ok());

    let scope = Some("admin".to_string());
    assert!(matches!(
        judge_api_key(LONG, stored_key(Some("read write")), &scope, now),
        Err(ApiKeyServiceError::InsufficientScope)
    ));
    let scope = Some("write  read".to_string());
    assert!(judge_api_key(LONG, stored_key(Some("read write")), &scope, now).is_ok());
}

#[test]
fn tag_filters() {
    let prod = Some("prod".to_string());
    assert!(tags_admit(&None, &prod));
    assert!(tags_admit(&None, &None));
    assert!(tags_admit(&Some(vec![]), &None));
    assert!(!tags_admit(&Some(vec![]), &prod));
    assert!(tags_admit(&Some(vec![Some("dev".to_string()), prod.clone()]), &prod));
    assert!(tags_admit(&Some(vec![None]), &None));
    assert!(!tags_admit(&Some(vec![None]), &prod));
}

#[test]
fn scope_words() {
    assert_eq!(split_words("  read\twrite \n admin "), vec!["read", "write", "admin"]);
    assert!(covers_words("read write", "write"));
    assert!(covers_words("read write", ""));
    assert!(!covers_words("read write", "wri"));
    assert!(!covers_words("", "read"));
}

#[test]
fn pages_and_their_neighbours() {
    assert_eq!(page_neighbours(1, 10, 10), (Some(2), None));
    assert_eq!(page_neighbours(1, 10, 3), (None, None));
    assert_eq!(page_neighbours(3, 10, 10), (Some(4), Some(2)));
    assert_eq!(page_neighbours(2, 10, 0), (None, Some(1)));
}

#[test]
fn tag_filter_values() {
    assert_eq!(TagFilter::Value("a".to_string()).into_val(), Some(Some("a".to_string())));
    assert_eq!(TagFilter::Null.into_val(), Some(None));
    assert_eq!(TagFilter::Unspecified.into_val(), None);
    assert!(matches!(TagFilter::default_filter(), TagFilter::Unspecified));
}

#[test]
fn metadata_reads_back_what_was_written() {
    let mut m = Metadata::new();
    m.insert("a".to_string(), "1".to_string());
    m.insert("b".to_string(), "2".to_string());
    m.insert("a".to_string(), "3".to_string());
    assert_eq!(m.get(&"a".to_string()).map(|s| s.as_str()), Some("3"));
    assert_eq!(m.get(&"b".to_string()).map(|s| s.as_str()), Some("2"));
    assert_eq!(m.get(&"c".to_string()), None);
    assert_eq!(m.as_inner().len(), 2);
}

#[test]
fn creating_a_key_in_the_default_namespace() {
    let payload = CreateApiKeyPayload {
        owner: "alice".to_string(),
        scope: Some("read".to_string()),
        expires_at: None,
        tag: Some("prod".to_string()),
        metadata: Metadata::new(),
    };
    let mut op = CreateApiKey::new(payload, "acme".to_string());
    match op.step(None) {
        Step::Call(RepoCall::GetDefaultNamespace { tenant_id }) => assert_eq!(tenant_id, "acme"),
        other => panic!("unexpected step {:?}", other),
    }
    let ns = NamespaceModel {
        name: "apik".to_string(),
        tenant_id: "acme".to_string(),
        created_at: Timestamp::new(0, 0),
        is_default: true,
    };
    match op.step(Some(RepoReply::Namespace(Some(ns)))) {
        Step::Call(RepoCall::GetTag { name, namespace, tenant_id }) => {
            assert_eq!(name, "prod");
            assert_eq!(namespace, "apik");
            assert_eq!(tenant_id, "acme");
        },
        other => panic!("unexpected step {:?}", other),
    }
    let tag = TagModel {
        name: "prod".to_string(),
        namespace: "apik".to_string(),
        tenant_id: "acme".to_string(),
        created_at: Timestamp::new(0, 0),
    };
    let record = match op.step(Some(RepoReply::Tag(Some(tag)))) {
        Step::Call(RepoCall::InsertApiKey(record)) => record,
        other => panic!("unexpected step {:?}", other),
    };
    assert_eq!(record.tenant_id, "acme");
    assert_eq!(record.namespace, "apik");
    assert_eq!(record.tag.as_deref(), Some("prod"));
    assert_eq!(record.short_key.len(), 12);
    assert_eq!(record.long_key_hash.len(), 128);
    assert_eq!(record.revoked, Some(false));
    let stored = ApiKeyModel {
        id: record.id,
        tenant_id: record.tenant_id.clone(),
        namespace: record.namespace.clone(),
        tag: record.tag.clone(),
        short_key: record.short_key.clone(),
        long_key_hash: record.long_key_hash.clone(),
        owner: record.owner.clone(),
        scope: record.scope.clone(),
        revoked: false,
        revoked_at: None,
        expires_at: None,
        last_used_at: None,
        created_at: Timestamp::new(5, 0),
        metadata: Metadata::new(),
    };
    let created = match op.step(Some(RepoReply::ApiKeyStored(stored))) {
        Step::Finish(Ok(r)) => r,
        other => panic!("unexpected step {:?}", other),
    };
    let parts = ApiKeyParts::from_token(&created.key).unwrap();
    assert_eq!(parts.namespace, "apik");
    assert_eq!(parts.tag.as_deref(), Some("prod"));
    assert_eq!(parts.short_key, record.short_key);
    assert_eq!(hash_sha512(&parts.long_key), record.long_key_hash);
}

#[test]
fn creating_a_key_without_a_default_namespace_fails() {
    let payload = CreateApiKeyPayload {
        owner: "alice".to_string(),
        scope: None,
        expires_at: None,
        tag: None,
        metadata: Metadata::new(),
    };
    let mut op = CreateApiKey::new(payload, "acme".to_string());
    assert!(matches!(op.step(None), Step::Call(_)));
    assert!(matches!(
        op.step(Some(RepoReply::Namespace(None))),
        Step::Finish(Err(ApiKeyServiceError::NamespaceNotFound))
    ));
}

#[test]
fn a_missing_namespace_is_not_found() {
    let mut op = GetNamespace::new("apik".to_string(), "acme".to_string());
    match op.step(None) {
        Step::Call(RepoCall::GetNamespace { name, tenant_id }) => {
            assert_eq!(name, "apik");
            assert_eq!(tenant_id, "acme");
        },
        other => panic!("unexpected step {:?}", other),
    }
    assert!(matches!(
        op.step(Some(RepoReply::Namespace(None))),
        Step::Finish(Err(ApiKeyServiceError::NamespaceNotFound))
    ));
}

#[test]
fn service_error_messages() {
    assert_eq!(ApiKeyServiceError::KeyNotFound.message(), "API key not found");
    assert_eq!(
        ApiKeyServiceError::DatabaseError(DatabaseError::SqlError("x".to_string())).message(),
        "Database error: SQL error: x"
    );
    assert_eq!(ApiKeyServiceError::Unexpected("y".to_string()).message(), "Unexpected error: y");
    assert_eq!(DatabaseError::MissingPrimaryDsn.message(), "Missing primary DSN");
}
