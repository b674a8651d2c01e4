use lockbox::api::{introspection_reply, ApiError};
use lockbox::crypto::hash_sha512;
use lockbox::errors::{ApiKeyServiceError, DatabaseError};
use lockbox::filters::{key_filters, KeyFilter};
use lockbox::introspect::IntrospectApiKey;
use lockbox::key::ApiKeyParts;
use lockbox::key_ops::RotateApiKey;
use lockbox::metadata::Metadata;
use lockbox::model::{ApiKeyModel, IntrospectApiKeyResponse, Page, Timestamp};
use lockbox::params::FindApiKeyParams;
use lockbox::protocol::{RepoCall, RepoReply, Step};
use lockbox::tasks::TaskOperations;

const SHORT: &str = "abcdefghijkl";
const LONG: &str = "ABCDEFGHIJKLMNOPQRSTUVWX";
const UNTAGGED_TOKEN: &str = "apik_abcdefghijklABCDEFGHIJKLMNOPQRSTUVWX1s2hAM";

fn key_with_tag(id: u128, tag: Option<&str>) -> ApiKeyModel {
    ApiKeyModel {
        id,
        tenant_id: "default".to_string(),
        namespace: "apik".to_string(),
        tag: tag.map(|t| t.to_string()),
        short_key: SHORT.to_string(),
        long_key_hash: hash_sha512(LONG),
        owner: "alice".to_string(),
        scope: Some("read".to_string()),
        revoked: false,
        revoked_at: None,
        expires_at: None,
        last_used_at: None,
        created_at: Timestamp::new(1_700_000_000, 0),
        metadata: Metadata::new(),
    }
}

fn one_page(k: ApiKeyModel) -> Page<ApiKeyModel> {
    Page { items: vec![k], count: 1, next_page: None, previous_page: None }
}

fn introspect_against(token: &str, tags: Option<Vec<Option<String>>>, stored: ApiKeyModel)
    -> Result<IntrospectApiKeyResponse, ApiKeyServiceError>
{
    let mut op = IntrospectApiKey::new(token.to_string(), None, tags, "default".to_string());
    match op.step(None) {
        Step::Call(RepoCall::FindApiKeys(_)) => {},
        Step::Finish(r) => return r,
        other => panic!("unexpected step {:?}", other),
    }
    match op.step(Some(RepoReply::ApiKeyPage(one_page(stored)))) {
        Step::Finish(r) => r,
        other => panic!("unexpected step {:?}", other),
    }
}

#[test]
fn untagged_token_of_a_tagged_key_is_invalid() {
    let r = introspect_against(UNTAGGED_TOKEN, Some(vec![None]), key_with_tag(7, Some("prod")));
    assert!(matches!(r, Err(ApiKeyServiceError::InvalidKey)));
    let r = introspect_against(UNTAGGED_TOKEN, None, key_with_tag(7, Some("prod")));
    assert!(matches!(r, Err(ApiKeyServiceError::InvalidKey)));
    let r = introspect_against(UNTAGGED_TOKEN, Some(vec![None]), key_with_tag(7, None));
    assert!(r.unwrap().valid);
}

#[test]
fn a_tag_filter_restricts_the_stored_key() {
    let parts = ApiKeyParts::new("apik".to_string(), Some("prod".to_string()), SHORT.to_string(), LONG.to_string());
    let token = parts.token();
    let r = introspect_against(&token, Some(vec![Some("prod".to_string())]), key_with_tag(7, Some("prod")));
    assert!(r.unwrap().valid);
    let r = introspect_against(&token, Some(vec![None]), key_with_tag(7, Some("prod")));
    assert!(matches!(r, Err(ApiKeyServiceError::InvalidKey)));
    let r = introspect_against(&token, Some(vec![]), key_with_tag(7, Some("prod")));
    assert!(matches!(r, Err(ApiKeyServiceError::InvalidKey)));
}

#[test]
fn a_blob_split_inside_a_character_is_invalid() {
    let token = format!("ns_{}é{}", "a".repeat(11), "a".repeat(29));
    assert!(matches!(ApiKeyParts::from_token(&token), Err(ApiKeyServiceError::InvalidKey)));
    let r = introspect_against(&token, None, key_with_tag(7, None));
    assert!(matches!(r, Err(ApiKeyServiceError::InvalidKey)));
}

#[test]
fn rotation_stores_a_new_key_and_revokes_the_old_one() {
    let mut op = RotateApiKey::new(7, "default".to_string());
    assert!(matches!(op.step(None), Step::Call(RepoCall::GetApiKey { id: 7, .. })));
    let record = match op.step(Some(RepoReply::ApiKey(Some(key_with_tag(7, Some("prod")))))) {
        Step::Call(RepoCall::InsertApiKey(k)) => k,
        other => panic!("unexpected step {:?}", other),
    };
    assert_ne!(record.id, 7);
    assert_eq!(record.tag.as_deref(), Some("prod"));
    assert_eq!(record.owner, "alice");
    let mut stored = key_with_tag(record.id, record.tag.as_deref());
    stored.short_key = record.short_key.clone();
    stored.long_key_hash = record.long_key_hash.clone();
    match op.step(Some(RepoReply::ApiKeyStored(stored))) {
        Step::Call(RepoCall::UpdateApiKey(patch)) => {
            assert_eq!(patch.id, 7);
            assert_eq!(patch.revoked, Some(true));
        },
        other => panic!("unexpected step {:?}", other),
    }
    match op.step(Some(RepoReply::Done)) {
        Step::Finish(Ok(c)) => {
            assert_eq!(c.id, record.id);
            assert_ne!(c.id, 7);
            let parts = ApiKeyParts::from_token(&c.key).unwrap();
            assert_eq!(parts.short_key, record.short_key);
            assert_eq!(hash_sha512(&parts.long_key), record.long_key_hash);
        },
        other => panic!("unexpected step {:?}", other),
    }
}

#[test]
fn rotation_refuses_a_store_that_keeps_the_old_id() {
    let mut op = RotateApiKey::new(7, "default".to_string());
    let _ = op.step(None);
    let _ = op.step(Some(RepoReply::ApiKey(Some(key_with_tag(7, None)))));
    match op.step(Some(RepoReply::ApiKeyStored(key_with_tag(7, None)))) {
        Step::Finish(Err(ApiKeyServiceError::Unexpected(_))) => {},
        other => panic!("unexpected step {:?}", other),
    }
}

#[test]
fn introspection_reply_queues_one_job_for_a_valid_key() {
    let at = Timestamp::new(1_800_000_000, 5);
    let ok = introspect_against(UNTAGGED_TOKEN, None, key_with_tag(9, None));
    let (body, job) = introspection_reply(ok, "acme".to_string(), at);
    let body = body.unwrap();
    assert!(body.valid);
    assert_eq!(body.key.unwrap().id, 9);
    match job {
        Some(TaskOperations::SetApiKeyLastUsed(t)) => {
            assert_eq!(t.id, 9);
            assert_eq!(t.tenant_id, "acme");
            assert_eq!(t.last_used_at, at);
        },
        None => panic!("no job queued"),
    }

    let (body, job) = introspection_reply(Err(ApiKeyServiceError::KeyExpired), "acme".to_string(), at);
    let body = body.unwrap();
    assert!(!body.valid);
    assert!(body.key.is_none());
    assert!(job.is_none());

    let (body, job) = introspection_reply(Err(ApiKeyServiceError::NamespaceNotFound), "acme".to_string(), at);
    assert!(matches!(body, Err(ApiError::Generic { code: 404000, .. })));
    assert!(job.is_none());
}

#[test]
fn search_parameters_become_filters() {
    assert!(key_filters(FindApiKeyParams::new(1, 20)).is_empty());
    let mut p = FindApiKeyParams::new(1, 20);
    p.tags = Some(vec!["prod".to_string()]);
    p.revoked = Some(false);
    let f = key_filters(p);
    assert_eq!(f.len(), 2);
    assert!(f.iter().any(|x| matches!(x, KeyFilter::TagIn(t) if t == &vec!["prod".to_string()])));
    assert!(f.iter().any(|x| matches!(x, KeyFilter::Revoked(false))));
}

#[test]
fn store_failure_during_rotation_is_reported() {
    let mut op = RotateApiKey::new(7, "default".to_string());
    let _ = op.step(None);
    match op.step(Some(RepoReply::Failed(DatabaseError::MissingPrimaryDsn))) {
        Step::Finish(Err(ApiKeyServiceError::DatabaseError(_))) => {},
        other => panic!("unexpected step {:?}", other),
    }
}

#[test]
fn a_revoked_key_is_invalid() {
    let mut k = key_with_tag(7, None);
    k.revoked = true;
    k.revoked_at = Some(Timestamp::new(1_700_000_100, 0));
    let r = introspect_against(UNTAGGED_TOKEN, None, k);
    assert!(matches!(r, Err(ApiKeyServiceError::InvalidKey)));
}
