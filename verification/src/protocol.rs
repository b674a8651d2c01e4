//! The requests that service operations make of the stores, and the replies they take.
//!
//! Each service operation is a state machine: it is started with `step(None)`, answers
//! with a store request or its result, and is resumed with the store's reply until it
//! gives its result. The application performs the requests.

use vstd::prelude::*;
use crate::errors::{ApiKeyServiceError, DatabaseError};
use crate::model::{
    ApiKeyModel, ApiKeyPatch, NamespaceModel, NewApiKey, NewNamespace, NewTag, Page, TagModel,
};
use crate::params::{FindApiKeyNamespaceParams, FindApiKeyParams, FindApiKeyTagParams};

verus! {

/// A request to the key, namespace or tag store.
#[derive(Debug)]
#[allow(inconsistent_fields)]
pub enum RepoCall {
    /// Fetch a key by id, within a tenant when one is given.
    GetApiKey { id: u128, tenant_id: Option<String> },
    /// Store a new key; the reply is the stored key.
    InsertApiKey(NewApiKey),
    /// Change a stored key.
    UpdateApiKey(ApiKeyPatch),
    /// Delete a key by id, within a tenant when one is given.
    DeleteApiKey { id: u128, tenant_id: Option<String> },
    /// Find a page of keys.
    FindApiKeys(FindApiKeyParams),
    /// Fetch a namespace by name and tenant.
    GetNamespace { name: String, tenant_id: String },
    /// Fetch the default namespace of a tenant.
    GetDefaultNamespace { tenant_id: String },
    /// Store a new namespace; the reply is the stored namespace.
    InsertNamespace(NewNamespace),
    /// Make a namespace the tenant's only default namespace.
    SetDefaultNamespace { name: String, tenant_id: String },
    /// Delete a namespace by name and tenant.
    DeleteNamespace { name: String, tenant_id: String },
    /// Find a page of namespaces.
    FindNamespaces(FindApiKeyNamespaceParams),
    /// Fetch a tag by name, namespace and tenant.
    GetTag { name: String, namespace: String, tenant_id: String },
    /// Store a new tag; the reply is the stored tag.
    InsertTag(NewTag),
    /// Delete a tag by name, namespace and tenant.
    DeleteTag { name: String, namespace: String, tenant_id: String },
    /// Find a page of tags.
    FindTags(FindApiKeyTagParams),
}

/// The key the store holds after a patch: each field the patch sets takes the patch's
/// value, every other field keeps the key's.
pub open spec fn apply_patch(m: ApiKeyModel, p: ApiKeyPatch) -> ApiKeyModel {
    ApiKeyModel {
        revoked: match p.revoked { Some(b) => b, None => m.revoked },
        revoked_at: match p.revoked_at { Some(t) => t, None => m.revoked_at },
        expires_at: match p.expires_at { Some(t) => t, None => m.expires_at },
        last_used_at: match p.last_used_at { Some(t) => t, None => m.last_used_at },
        metadata: match p.metadata { Some(x) => x, None => m.metadata },
        ..m
    }
}

/// `m` is how the store holds a newly inserted record `k`: its fields as sent, a
/// revocation left unset meaning not revoked, and no last use.
pub open spec fn holds_record(m: ApiKeyModel, k: NewApiKey) -> bool {
    &&& m.id == k.id
    &&& m.tenant_id == k.tenant_id
    &&& m.namespace == k.namespace
    &&& m.tag == k.tag
    &&& m.short_key == k.short_key
    &&& m.long_key_hash == k.long_key_hash
    &&& m.owner == k.owner
    &&& m.scope == k.scope
    &&& m.revoked == (k.revoked == Some(true))
    &&& m.expires_at == k.expires_at
}

/// The store's reply to a request.
#[derive(Debug)]
pub enum RepoReply {
    ApiKey(Option<ApiKeyModel>),
    ApiKeyStored(ApiKeyModel),
    ApiKeyPage(Page<ApiKeyModel>),
    Namespace(Option<NamespaceModel>),
    NamespaceStored(NamespaceModel),
    NamespacePage(Page<NamespaceModel>),
    Tag(Option<TagModel>),
    TagStored(TagModel),
    TagPage(Page<TagModel>),
    /// The request was carried out and has no value.
    Done,
    /// The store failed.
    Failed(DatabaseError),
}

/// What an operation does next: make a store request, or finish with its result.
#[derive(Debug)]
pub enum Step<T> {
    Call(RepoCall),
    Finish(Result<T, ApiKeyServiceError>),
}

/// The step that ends an operation with a store failure.
pub open spec fn failed_step<T>(e: DatabaseError) -> Step<T> {
    Step::Finish(Err(ApiKeyServiceError::DatabaseError(e)))
}

/// The step that ends an operation resumed out of turn or with a reply of the wrong kind.
pub open spec fn is_protocol_error<T>(s: Step<T>) -> bool {
    s matches Step::Finish(Err(ApiKeyServiceError::Unexpected(_)))
}

/// Ends an operation resumed out of turn or with a reply of the wrong kind.
pub fn protocol_error<T>() -> (s: Step<T>)
    ensures
        is_protocol_error(s),
{
    Step::Finish(Err(ApiKeyServiceError::Unexpected("unexpected store reply".to_owned())))
}

/// Ends an operation with the error of a failed store.
pub fn fail<T>(e: DatabaseError) -> (s: Step<T>)
    ensures
        s == failed_step::<T>(e),
{
    Step::Finish(Err(ApiKeyServiceError::DatabaseError(e)))
}

} // verus!
