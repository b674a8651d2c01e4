//! The key operations of the service: create, change, rotate, get and find keys.

use vstd::prelude::*;
use crate::crypto::{hash_sha512, hex_lower, sha512, is_alphanumeric};
use crate::errors::ApiKeyServiceError;
use crate::key::{ApiKeyParts, ApiKeyPartsView, opt_view, key_token, parse_token, tag_or_empty, well_formed_parts, lemma_token_round_trip};
use crate::introspect::{judgement, scope_text, introspect_step, is_introspect_query, IntrospectApiKey, IntrospectStage};
use crate::filters::{params_match, lemma_introspect_search_scope};
use crate::words::words_covered;
use crate::metadata::Metadata;
use crate::model::{
    ApiKeyModel, ApiKeyPatch, CreateApiKeyPayload, CreateApiKeyResponse, GetApiKeyResponse,
    NamespaceModel, NewApiKey, Page, Timestamp, get_key_response, is_create_response,
    IntrospectApiKeyResponse, before,
};
use crate::params::FindApiKeyParams;
use crate::protocol::{RepoCall, RepoReply, Step, failed_step, is_protocol_error, protocol_error, fail, apply_patch, holds_record};
use crate::text::{utf8, all_ascii, lacks, lemma_utf8_ascii};

verus! {

/// A fresh key id (`uuid::Uuid::new_v4`). Which one is left to chance.
#[verifier::external_body]
fn new_key_id() -> (id: u128) {
    uuid::Uuid::new_v4().as_u128()
}

/// `p` is freshly generated key material for namespace `ns` and tag `tag`: random
/// 12-character and 24-character alphanumeric short and long keys.
pub open spec fn is_fresh_parts(p: ApiKeyParts, ns: Seq<char>, tag: Option<Seq<char>>) -> bool {
    &&& p@.namespace == ns
    &&& p@.tag == tag
    &&& p@.short_key.len() == 12
    &&& p@.long_key.len() == 24
    &&& forall|i: int| 0 <= i < 12 ==> is_alphanumeric(#[trigger] p@.short_key[i])
    &&& forall|i: int| 0 <= i < 24 ==> is_alphanumeric(#[trigger] p@.long_key[i])
}

/// The stored long-key hash of key parts: lowercase hex of the SHA-512 of the long key.
pub open spec fn long_key_hash_of(p: ApiKeyParts) -> Seq<char> {
    hex_lower(sha512(utf8(p@.long_key)))
}

/// `k` is the record that creating a key from `payload` in `tenant` stores, with the
/// generated parts `p`: the parts' namespace, tag, short key and long-key hash, the
/// payload's owner, scope, expiry and metadata, not revoked, created at some instant.
pub open spec fn is_created_record(k: NewApiKey, payload: CreateApiKeyPayload, tenant: String, p: ApiKeyParts) -> bool {
    &&& k.tenant_id == tenant
    &&& k.namespace@ == p@.namespace
    &&& opt_view(k.tag) == p@.tag
    &&& k.short_key@ == p@.short_key
    &&& k.long_key_hash@ == long_key_hash_of(p)
    &&& k.owner == payload.owner
    &&& k.scope == payload.scope
    &&& k.revoked == Some(false)
    &&& k.expires_at == payload.expires_at
    &&& k.metadata == Some(payload.metadata)
    &&& k.created_at is Some
}

/// The stages of creating a key.
#[derive(Debug)]
pub enum CreateKeyStage {
    Start(CreateApiKeyPayload),
    AwaitNamespace(CreateApiKeyPayload),
    AwaitTag(CreateApiKeyPayload, NamespaceModel),
    AwaitInsert(ApiKeyParts),
    Done,
}

/// Creating an API key in the tenant's default namespace.
#[derive(Debug)]
pub struct CreateApiKey {
    pub tenant_id: String,
    pub stage: CreateKeyStage,
}

/// The request and stage that storing the new key gives.
pub open spec fn create_insert_step(
    payload: CreateApiKeyPayload,
    tenant: String,
    ns: NamespaceModel,
    tag: Option<Seq<char>>,
    new: CreateApiKey,
    step: Step<CreateApiKeyResponse>,
) -> bool {
    &&& step matches Step::Call(RepoCall::InsertApiKey(k))
    &&& new.stage matches CreateKeyStage::AwaitInsert(p)
    &&& is_fresh_parts(p, ns.name@, tag)
    &&& is_created_record(k, payload, tenant, p)
}

/// The step that creating a key takes, and the stage it moves to.
pub open spec fn create_key_step(old: CreateApiKey, reply: Option<RepoReply>, new: CreateApiKey, step: Step<CreateApiKeyResponse>) -> bool {
    &&& new.tenant_id == old.tenant_id
    &&& match old.stage {
        CreateKeyStage::Start(payload) => match reply {
            None => step == Step::<CreateApiKeyResponse>::Call(RepoCall::GetDefaultNamespace { tenant_id: old.tenant_id })
                && new.stage == CreateKeyStage::AwaitNamespace(payload),
            Some(_) => is_protocol_error(step) && new.stage is Done,
        },
        CreateKeyStage::AwaitNamespace(payload) => match reply {
            Some(RepoReply::Namespace(None)) => step == Step::<CreateApiKeyResponse>::Finish(Err(ApiKeyServiceError::NamespaceNotFound))
                && new.stage is Done,
            Some(RepoReply::Namespace(Some(ns))) => match payload.tag {
                Some(t) => step == Step::<CreateApiKeyResponse>::Call(RepoCall::GetTag { name: t, namespace: ns.name, tenant_id: old.tenant_id })
                    && new.stage == CreateKeyStage::AwaitTag(payload, ns),
                None => create_insert_step(payload, old.tenant_id, ns, None, new, step),
            },
            Some(RepoReply::Failed(e)) => step == failed_step::<CreateApiKeyResponse>(e) && new.stage is Done,
            _ => is_protocol_error(step) && new.stage is Done,
        },
        CreateKeyStage::AwaitTag(payload, ns) => match reply {
            Some(RepoReply::Tag(None)) => step == Step::<CreateApiKeyResponse>::Finish(Err(ApiKeyServiceError::TagNotFound))
                && new.stage is Done,
            Some(RepoReply::Tag(Some(t))) => create_insert_step(payload, old.tenant_id, ns, Some(t.name@), new, step),
            Some(RepoReply::Failed(e)) => step == failed_step::<CreateApiKeyResponse>(e) && new.stage is Done,
            _ => is_protocol_error(step) && new.stage is Done,
        },
        CreateKeyStage::AwaitInsert(p) => new.stage is Done && match reply {
            Some(RepoReply::ApiKeyStored(m)) => step matches Step::Finish(Ok(r)) && is_create_response(r, m, p),
            Some(RepoReply::Failed(e)) => step == failed_step::<CreateApiKeyResponse>(e),
            _ => is_protocol_error(step),
        },
        CreateKeyStage::Done => is_protocol_error(step) && new.stage is Done,
    }
}

impl CreateApiKey {
    /// Creating a key from `payload` in the tenant's default namespace.
    pub fn new(payload: CreateApiKeyPayload, tenant_id: String) -> (op: Self)
        ensures
            op.tenant_id == tenant_id,
            op.stage == CreateKeyStage::Start(payload),
    {
        CreateApiKey { tenant_id, stage: CreateKeyStage::Start(payload) }
    }

    /// Generates the key material and asks to store the new key.
    fn insert(&mut self, payload: CreateApiKeyPayload, ns: NamespaceModel, tag: Option<String>) -> (s: Step<CreateApiKeyResponse>)
        ensures
            final(self).tenant_id == old(self).tenant_id,
            create_insert_step(payload, old(self).tenant_id, ns, opt_view(tag), *final(self), s),
    {
        let tag_str: Option<&str> = match &tag {
            Some(t) => Some(t.as_str()),
            None => None,
        };
        let parts = ApiKeyParts::generate(ns.name.as_str(), tag_str);
        let record = NewApiKey {
            id: new_key_id(),
            tenant_id: self.tenant_id.clone(),
            namespace: parts.namespace.clone(),
            tag,
            short_key: parts.short_key.clone(),
            long_key_hash: hash_sha512(parts.long_key.as_str()),
            owner: payload.owner,
            scope: payload.scope,
            revoked: Some(false),
            expires_at: payload.expires_at,
            metadata: Some(payload.metadata),
            created_at: Some(Timestamp::now()),
        };
        self.stage = CreateKeyStage::AwaitInsert(parts);
        Step::Call(RepoCall::InsertApiKey(record))
    }

    /// Starts (`None`) or resumes creating the key with the store's reply.
    pub fn step(&mut self, reply: Option<RepoReply>) -> (s: Step<CreateApiKeyResponse>)
        ensures
            create_key_step(*old(self), reply, *final(self), s),
    {
        let mut stage = CreateKeyStage::Done;
        std::mem::swap(&mut stage, &mut self.stage);
        match stage {
            CreateKeyStage::Start(payload) => match reply {
                None => {
                    self.stage = CreateKeyStage::AwaitNamespace(payload);
                    Step::Call(RepoCall::GetDefaultNamespace { tenant_id: self.tenant_id.clone() })
                },
                Some(_) => protocol_error(),
            },
            CreateKeyStage::AwaitNamespace(payload) => match reply {
                Some(RepoReply::Namespace(None)) => Step::Finish(Err(ApiKeyServiceError::NamespaceNotFound)),
                Some(RepoReply::Namespace(Some(ns))) => {
                    let tag = payload.tag.clone();
                    match tag {
                        Some(t) => {
                            let call = RepoCall::GetTag { name: t, namespace: ns.name.clone(), tenant_id: self.tenant_id.clone() };
                            self.stage = CreateKeyStage::AwaitTag(payload, ns);
                            Step::Call(call)
                        },
                        None => self.insert(payload, ns, None),
                    }
                },
                Some(RepoReply::Failed(e)) => fail(e),
                _ => protocol_error(),
            },
            CreateKeyStage::AwaitTag(payload, ns) => match reply {
                Some(RepoReply::Tag(None)) => Step::Finish(Err(ApiKeyServiceError::TagNotFound)),
                Some(RepoReply::Tag(Some(t))) => self.insert(payload, ns, Some(t.name)),
                Some(RepoReply::Failed(e)) => fail(e),
                _ => protocol_error(),
            },
            CreateKeyStage::AwaitInsert(parts) => match reply {
                Some(RepoReply::ApiKeyStored(m)) => Step::Finish(Ok(CreateApiKeyResponse::from_model(m, parts))),
                Some(RepoReply::Failed(e)) => fail(e),
                _ => protocol_error(),
            },
            CreateKeyStage::Done => protocol_error(),
        }
    }
}


/// A change to an existing key.
#[derive(Debug)]
pub enum KeyChange {
    /// Revoke the key, now.
    Revoke,
    /// Record when the key was last used.
    SetLastUsed(Timestamp),
    /// Set when the key expires.
    SetExpiration(Timestamp),
    /// Replace the key's metadata.
    SetMetadata(Metadata),
    /// Delete the key.
    Delete,
}

/// A patch that touches only the given key.
pub open spec fn bare_patch(p: ApiKeyPatch, id: u128) -> bool {
    &&& p.id == id
    &&& p.revoked is None
    &&& p.revoked_at is None
    &&& p.expires_at is None
    &&& p.last_used_at is None
    &&& p.metadata is None
}

/// `p` revokes key `id` at some instant.
pub open spec fn is_revoke_patch(p: ApiKeyPatch, id: u128) -> bool {
    &&& p.id == id
    &&& p.revoked == Some(true)
    &&& p.revoked_at matches Some(Some(_))
    &&& p.expires_at is None
    &&& p.last_used_at is None
    &&& p.metadata is None
}

/// `c` is the request that carries out change `change` on key `id` of tenant `tenant`.
pub open spec fn is_change_call(c: RepoCall, change: KeyChange, id: u128, tenant: String) -> bool {
    match change {
        KeyChange::Revoke => c matches RepoCall::UpdateApiKey(p) && is_revoke_patch(p, id),
        KeyChange::SetLastUsed(t) => c matches RepoCall::UpdateApiKey(p)
            && bare_patch(ApiKeyPatch { last_used_at: None, ..p }, id) && p.last_used_at == Some(Some(t)),
        KeyChange::SetExpiration(t) => c matches RepoCall::UpdateApiKey(p)
            && bare_patch(ApiKeyPatch { expires_at: None, ..p }, id) && p.expires_at == Some(Some(t)),
        KeyChange::SetMetadata(m) => c matches RepoCall::UpdateApiKey(p)
            && bare_patch(ApiKeyPatch { metadata: None, ..p }, id) && p.metadata == Some(m),
        KeyChange::Delete => c == RepoCall::DeleteApiKey { id, tenant_id: Some(tenant) },
    }
}

/// The stages of changing a key.
#[derive(Debug)]
pub enum ChangeKeyStage {
    Start(KeyChange),
    AwaitKey(KeyChange),
    AwaitChange,
    Done,
}

/// Changing (or deleting) an existing key of a tenant: the key must exist first.
#[derive(Debug)]
pub struct ChangeApiKey {
    pub id: u128,
    pub tenant_id: String,
    pub stage: ChangeKeyStage,
}

/// The step that changing a key takes, and the stage it moves to.
pub open spec fn change_key_step(old: ChangeApiKey, reply: Option<RepoReply>, new: ChangeApiKey, step: Step<()>) -> bool {
    &&& new.id == old.id
    &&& new.tenant_id == old.tenant_id
    &&& match old.stage {
        ChangeKeyStage::Start(change) => match reply {
            None => step == Step::<()>::Call(RepoCall::GetApiKey { id: old.id, tenant_id: Some(old.tenant_id) })
                && new.stage == ChangeKeyStage::AwaitKey(change),
            Some(_) => is_protocol_error(step) && new.stage is Done,
        },
        ChangeKeyStage::AwaitKey(change) => match reply {
            Some(RepoReply::ApiKey(None)) => step == Step::<()>::Finish(Err(ApiKeyServiceError::KeyNotFound)) && new.stage is Done,
            Some(RepoReply::ApiKey(Some(_))) => step matches Step::Call(c) && is_change_call(c, change, old.id, old.tenant_id)
                && new.stage is AwaitChange,
            Some(RepoReply::Failed(e)) => step == failed_step::<()>(e) && new.stage is Done,
            _ => is_protocol_error(step) && new.stage is Done,
        },
        ChangeKeyStage::AwaitChange => new.stage is Done && match reply {
            Some(RepoReply::Done) => step == Step::<()>::Finish(Ok(())),
            Some(RepoReply::Failed(e)) => step == failed_step::<()>(e),
            _ => is_protocol_error(step),
        },
        ChangeKeyStage::Done => is_protocol_error(step) && new.stage is Done,
    }
}

/// A patch that revokes key `id` now.
fn revoke_patch(id: u128) -> (p: ApiKeyPatch)
    ensures
        is_revoke_patch(p, id),
{
    ApiKeyPatch {
        id,
        revoked: Some(true),
        revoked_at: Some(Some(Timestamp::now())),
        expires_at: None,
        last_used_at: None,
        metadata: None,
    }
}

impl ChangeApiKey {
    /// Changing key `id` of the tenant.
    pub fn new(id: u128, tenant_id: String, change: KeyChange) -> (op: Self)
        ensures
            op.id == id,
            op.tenant_id == tenant_id,
            op.stage == ChangeKeyStage::Start(change),
    {
        ChangeApiKey { id, tenant_id, stage: ChangeKeyStage::Start(change) }
    }

    /// Starts (`None`) or resumes the change with the store's reply.
    pub fn step(&mut self, reply: Option<RepoReply>) -> (s: Step<()>)
        ensures
            change_key_step(*old(self), reply, *final(self), s),
    {
        let mut stage = ChangeKeyStage::Done;
        std::mem::swap(&mut stage, &mut self.stage);
        match stage {
            ChangeKeyStage::Start(change) => match reply {
                None => {
                    self.stage = ChangeKeyStage::AwaitKey(change);
                    Step::Call(RepoCall::GetApiKey { id: self.id, tenant_id: Some(self.tenant_id.clone()) })
                },
                Some(_) => protocol_error(),
            },
            ChangeKeyStage::AwaitKey(change) => match reply {
                Some(RepoReply::ApiKey(None)) => Step::Finish(Err(ApiKeyServiceError::KeyNotFound)),
                Some(RepoReply::ApiKey(Some(_))) => {
                    let id = self.id;
                    let call = match change {
                        KeyChange::Revoke => RepoCall::UpdateApiKey(revoke_patch(id)),
                        KeyChange::SetLastUsed(t) => RepoCall::UpdateApiKey(ApiKeyPatch {
                            id,
                            revoked: None,
                            revoked_at: None,
                            expires_at: None,
                            last_used_at: Some(Some(t)),
                            metadata: None,
                        }),
                        KeyChange::SetExpiration(t) => RepoCall::UpdateApiKey(ApiKeyPatch {
                            id,
                            revoked: None,
                            revoked_at: None,
                            expires_at: Some(Some(t)),
                            last_used_at: None,
                            metadata: None,
                        }),
                        KeyChange::SetMetadata(m) => RepoCall::UpdateApiKey(ApiKeyPatch {
                            id,
                            revoked: None,
                            revoked_at: None,
                            expires_at: None,
                            last_used_at: None,
                            metadata: Some(m),
                        }),
                        KeyChange::Delete => RepoCall::DeleteApiKey { id, tenant_id: Some(self.tenant_id.clone()) },
                    };
                    self.stage = ChangeKeyStage::AwaitChange;
                    Step::Call(call)
                },
                Some(RepoReply::Failed(e)) => fail(e),
                _ => protocol_error(),
            },
            ChangeKeyStage::AwaitChange => match reply {
                Some(RepoReply::Done) => Step::Finish(Ok(())),
                Some(RepoReply::Failed(e)) => fail(e),
                _ => protocol_error(),
            },
            ChangeKeyStage::Done => protocol_error(),
        }
    }
}

/// `k` is the record that rotating stored key `old` stores, with the generated parts
/// `p`: a new id, the same tenant and owner and scope, the parts' namespace, tag, short
/// key and long-key hash, every other field left to the store.
pub open spec fn is_rotated_record(k: NewApiKey, old: ApiKeyModel, p: ApiKeyParts) -> bool {
    &&& k.id != old.id
    &&& k.tenant_id == old.tenant_id
    &&& k.namespace@ == p@.namespace
    &&& opt_view(k.tag) == p@.tag
    &&& k.short_key@ == p@.short_key
    &&& k.long_key_hash@ == long_key_hash_of(p)
    &&& k.owner == old.owner
    &&& k.scope == old.scope
    &&& k.revoked is None
    &&& k.expires_at is None
    &&& k.metadata is None
    &&& k.created_at is None
}

/// The stages of rotating a key.
#[derive(Debug)]
pub enum RotateKeyStage {
    Start,
    AwaitKey,
    /// The old key's id, the new key's id and the new parts.
    AwaitInsert(u128, u128, ApiKeyParts),
    AwaitRevoke(ApiKeyParts, ApiKeyModel),
    Done,
}

/// Rotating a key: storing a new key, under a new id, in its place and revoking the old
/// one.
#[derive(Debug)]
pub struct RotateApiKey {
    pub id: u128,
    pub tenant_id: String,
    pub stage: RotateKeyStage,
}

/// The step that rotating a key takes, and the stage it moves to.
pub open spec fn rotate_key_step(old: RotateApiKey, reply: Option<RepoReply>, new: RotateApiKey, step: Step<CreateApiKeyResponse>) -> bool {
    &&& new.id == old.id
    &&& new.tenant_id == old.tenant_id
    &&& match old.stage {
        RotateKeyStage::Start => match reply {
            None => step == Step::<CreateApiKeyResponse>::Call(RepoCall::GetApiKey { id: old.id, tenant_id: Some(old.tenant_id) })
                && new.stage is AwaitKey,
            Some(_) => is_protocol_error(step) && new.stage is Done,
        },
        RotateKeyStage::AwaitKey => match reply {
            Some(RepoReply::ApiKey(None)) => step == Step::<CreateApiKeyResponse>::Finish(Err(ApiKeyServiceError::KeyNotFound))
                && new.stage is Done,
            Some(RepoReply::ApiKey(Some(m))) => {
                &&& step matches Step::Call(RepoCall::InsertApiKey(k))
                &&& new.stage matches RotateKeyStage::AwaitInsert(kid, nid, p)
                &&& kid == m.id
                &&& nid == k.id
                &&& is_fresh_parts(p, m.namespace@, opt_view(m.tag))
                &&& is_rotated_record(k, m, p)
            },
            Some(RepoReply::Failed(e)) => step == failed_step::<CreateApiKeyResponse>(e) && new.stage is Done,
            _ => is_protocol_error(step) && new.stage is Done,
        },
        RotateKeyStage::AwaitInsert(kid, nid, p) => match reply {
            Some(RepoReply::ApiKeyStored(m)) => if m.id == nid {
                step matches Step::Call(RepoCall::UpdateApiKey(patch))
                    && is_revoke_patch(patch, kid) && new.stage == RotateKeyStage::AwaitRevoke(p, m)
            } else {
                is_protocol_error(step) && new.stage is Done
            },
            Some(RepoReply::Failed(e)) => step == failed_step::<CreateApiKeyResponse>(e) && new.stage is Done,
            _ => is_protocol_error(step) && new.stage is Done,
        },
        RotateKeyStage::AwaitRevoke(p, m) => new.stage is Done && match reply {
            Some(RepoReply::Done) => if m.id != old.id {
                step matches Step::Finish(Ok(r)) && is_create_response(r, m, p)
            } else {
                is_protocol_error(step)
            },
            Some(RepoReply::Failed(e)) => step == failed_step::<CreateApiKeyResponse>(e),
            _ => is_protocol_error(step),
        },
        RotateKeyStage::Done => is_protocol_error(step) && new.stage is Done,
    }
}

impl RotateApiKey {
    /// Rotating key `id` of the tenant.
    pub fn new(id: u128, tenant_id: String) -> (op: Self)
        ensures
            op.id == id,
            op.tenant_id == tenant_id,
            op.stage is Start,
    {
        RotateApiKey { id, tenant_id, stage: RotateKeyStage::Start }
    }

    /// Starts (`None`) or resumes the rotation with the store's reply.
    pub fn step(&mut self, reply: Option<RepoReply>) -> (s: Step<CreateApiKeyResponse>)
        ensures
            rotate_key_step(*old(self), reply, *final(self), s),
            s matches Step::Finish(Ok(r)) ==> r.id != old(self).id,
    {
        let mut stage = RotateKeyStage::Done;
        std::mem::swap(&mut stage, &mut self.stage);
        match stage {
            RotateKeyStage::Start => match reply {
                None => {
                    self.stage = RotateKeyStage::AwaitKey;
                    Step::Call(RepoCall::GetApiKey { id: self.id, tenant_id: Some(self.tenant_id.clone()) })
                },
                Some(_) => protocol_error(),
            },
            RotateKeyStage::AwaitKey => match reply {
                Some(RepoReply::ApiKey(None)) => Step::Finish(Err(ApiKeyServiceError::KeyNotFound)),
                Some(RepoReply::ApiKey(Some(m))) => {
                    let tag_str: Option<&str> = match &m.tag {
                        Some(t) => Some(t.as_str()),
                        None => None,
                    };
                    let parts = ApiKeyParts::generate(m.namespace.as_str(), tag_str);
                    let tag = match &parts.tag {
                        Some(t) => Some(t.clone()),
                        None => None,
                    };
                    let mut nid = new_key_id();
                    if nid == m.id {
                        nid = if m.id == 0 { 1 } else { 0 };
                    }
                    let record = NewApiKey {
                        id: nid,
                        tenant_id: m.tenant_id,
                        namespace: parts.namespace.clone(),
                        tag,
                        short_key: parts.short_key.clone(),
                        long_key_hash: hash_sha512(parts.long_key.as_str()),
                        owner: m.owner,
                        scope: m.scope,
                        revoked: None,
                        expires_at: None,
                        metadata: None,
                        created_at: None,
                    };
                    self.stage = RotateKeyStage::AwaitInsert(m.id, nid, parts);
                    Step::Call(RepoCall::InsertApiKey(record))
                },
                Some(RepoReply::Failed(e)) => fail(e),
                _ => protocol_error(),
            },
            RotateKeyStage::AwaitInsert(kid, nid, parts) => match reply {
                Some(RepoReply::ApiKeyStored(m)) => {
                    if m.id != nid {
                        return protocol_error();
                    }
                    self.stage = RotateKeyStage::AwaitRevoke(parts, m);
                    Step::Call(RepoCall::UpdateApiKey(revoke_patch(kid)))
                },
                Some(RepoReply::Failed(e)) => fail(e),
                _ => protocol_error(),
            },
            RotateKeyStage::AwaitRevoke(parts, m) => match reply {
                Some(RepoReply::Done) => {
                    if m.id == self.id {
                        return protocol_error();
                    }
                    Step::Finish(Ok(CreateApiKeyResponse::from_model(m, parts)))
                },
                Some(RepoReply::Failed(e)) => fail(e),
                _ => protocol_error(),
            },
            RotateKeyStage::Done => protocol_error(),
        }
    }
}

/// The stages of a single-request operation.
#[derive(Debug)]
pub enum LookupStage {
    Start,
    Await,
    Done,
}

/// Fetching a key of a tenant.
#[derive(Debug)]
pub struct GetApiKey {
    pub id: u128,
    pub tenant_id: String,
    pub stage: LookupStage,
}

/// The step that fetching a key takes, and the stage it moves to.
pub open spec fn get_key_step(old: GetApiKey, reply: Option<RepoReply>, new: GetApiKey, step: Step<GetApiKeyResponse>) -> bool {
    &&& new.id == old.id
    &&& new.tenant_id == old.tenant_id
    &&& match old.stage {
        LookupStage::Start => match reply {
            None => step == Step::<GetApiKeyResponse>::Call(RepoCall::GetApiKey { id: old.id, tenant_id: Some(old.tenant_id) })
                && new.stage is Await,
            Some(_) => is_protocol_error(step) && new.stage is Done,
        },
        LookupStage::Await => new.stage is Done && match reply {
            Some(RepoReply::ApiKey(None)) => step == Step::<GetApiKeyResponse>::Finish(Err(ApiKeyServiceError::KeyNotFound)),
            Some(RepoReply::ApiKey(Some(m))) => step == Step::<GetApiKeyResponse>::Finish(Ok(get_key_response(m))),
            Some(RepoReply::Failed(e)) => step == failed_step::<GetApiKeyResponse>(e),
            _ => is_protocol_error(step),
        },
        LookupStage::Done => is_protocol_error(step) && new.stage is Done,
    }
}

impl GetApiKey {
    /// Fetching key `id` of the tenant.
    pub fn new(id: u128, tenant_id: String) -> (op: Self)
        ensures
            op.id == id,
            op.tenant_id == tenant_id,
            op.stage is Start,
    {
        GetApiKey { id, tenant_id, stage: LookupStage::Start }
    }

    /// Starts (`None`) or resumes the lookup with the store's reply.
    pub fn step(&mut self, reply: Option<RepoReply>) -> (s: Step<GetApiKeyResponse>)
        ensures
            get_key_step(*old(self), reply, *final(self), s),
    {
        let mut stage = LookupStage::Done;
        std::mem::swap(&mut stage, &mut self.stage);
        match stage {
            LookupStage::Start => match reply {
                None => {
                    self.stage = LookupStage::Await;
                    Step::Call(RepoCall::GetApiKey { id: self.id, tenant_id: Some(self.tenant_id.clone()) })
                },
                Some(_) => protocol_error(),
            },
            LookupStage::Await => match reply {
                Some(RepoReply::ApiKey(None)) => Step::Finish(Err(ApiKeyServiceError::KeyNotFound)),
                Some(RepoReply::ApiKey(Some(m))) => Step::Finish(Ok(GetApiKeyResponse::from_model(m))),
                Some(RepoReply::Failed(e)) => fail(e),
                _ => protocol_error(),
            },
            LookupStage::Done => protocol_error(),
        }
    }
}

/// `r` shows the keys of page `p`, one for one, with the same count and neighbours.
pub open spec fn is_key_page(r: Page<GetApiKeyResponse>, p: Page<ApiKeyModel>) -> bool {
    &&& r.items@.len() == p.items@.len()
    &&& forall|i: int| 0 <= i < r.items@.len() ==> #[trigger] r.items@[i] == get_key_response(p.items@[i])
    &&& r.count == p.count
    &&& r.next_page == p.next_page
    &&& r.previous_page == p.previous_page
}

/// The responses showing a page of stored keys.
pub fn key_page(p: Page<ApiKeyModel>) -> (r: Page<GetApiKeyResponse>)
    ensures
        is_key_page(r, p),
{
    let ghost src = p.items@;
    let mut items = p.items;
    let mut out: Vec<GetApiKeyResponse> = Vec::new();
    let n = items.len();
    let mut k: usize = 0;
    while k < n
        invariant
            n == src.len(),
            k <= n,
            items@ == src.subrange(k as int, n as int),
            out@.len() == k,
            forall|i: int| 0 <= i < k ==> #[trigger] out@[i] == get_key_response(src[i]),
        decreases n - k,
    {
        let m = items.remove(0);
        out.push(GetApiKeyResponse::from_model(m));
        k = k + 1;
        assert(items@ =~= src.subrange(k as int, n as int));
    }
    Page { items: out, count: p.count, next_page: p.next_page, previous_page: p.previous_page }
}

/// The stages of a search.
#[derive(Debug)]
pub enum FindKeysStage {
    Start(FindApiKeyParams),
    Await,
    Done,
}

/// Finding a page of keys.
#[derive(Debug)]
pub struct FindApiKeys {
    pub stage: FindKeysStage,
}

/// The step that finding keys takes, and the stage it moves to.
pub open spec fn find_keys_step(old: FindApiKeys, reply: Option<RepoReply>, new: FindApiKeys, step: Step<Page<GetApiKeyResponse>>) -> bool {
    match old.stage {
        FindKeysStage::Start(params) => match reply {
            None => step == Step::<Page<GetApiKeyResponse>>::Call(RepoCall::FindApiKeys(params)) && new.stage is Await,
            Some(_) => is_protocol_error(step) && new.stage is Done,
        },
        FindKeysStage::Await => new.stage is Done && match reply {
            Some(RepoReply::ApiKeyPage(p)) => step matches Step::Finish(Ok(r)) && is_key_page(r, p),
            Some(RepoReply::Failed(e)) => step == failed_step::<Page<GetApiKeyResponse>>(e),
            _ => is_protocol_error(step),
        },
        FindKeysStage::Done => is_protocol_error(step) && new.stage is Done,
    }
}

impl FindApiKeys {
    /// Finding the keys that `params` select.
    pub fn new(params: FindApiKeyParams) -> (op: Self)
        ensures
            op.stage == FindKeysStage::Start(params),
    {
        FindApiKeys { stage: FindKeysStage::Start(params) }
    }

    /// Starts (`None`) or resumes the search with the store's reply.
    pub fn step(&mut self, reply: Option<RepoReply>) -> (s: Step<Page<GetApiKeyResponse>>)
        ensures
            find_keys_step(*old(self), reply, *final(self), s),
    {
        let mut stage = FindKeysStage::Done;
        std::mem::swap(&mut stage, &mut self.stage);
        match stage {
            FindKeysStage::Start(params) => match reply {
                None => {
                    self.stage = FindKeysStage::Await;
                    Step::Call(RepoCall::FindApiKeys(params))
                },
                Some(_) => protocol_error(),
            },
            FindKeysStage::Await => match reply {
                Some(RepoReply::ApiKeyPage(p)) => Step::Finish(Ok(key_page(p))),
                Some(RepoReply::Failed(e)) => fail(e),
                _ => protocol_error(),
            },
            FindKeysStage::Done => protocol_error(),
        }
    }
}

/// Alphanumeric text is ASCII and holds no `_`.
proof fn lemma_alphanumeric_text(s: Seq<char>)
    requires
        forall|i: int| 0 <= i < s.len() ==> is_alphanumeric(#[trigger] s[i]),
    ensures
        all_ascii(s),
        lacks(s, '_'),
        utf8(s).len() == s.len(),
{
    assert forall|i: int| 0 <= i < s.len() implies (#[trigger] s[i] as u32) < 128 by {
        assert(is_alphanumeric(s[i]));
    }
    assert forall|i: int| 0 <= i < s.len() implies #[trigger] s[i] != '_' by {
        assert(is_alphanumeric(s[i]));
    }
    lemma_utf8_ascii(s);
}

/// A key handed out at creation is accepted: its token parses back to the parts it was
/// built from, and the stored key (holding the parts' long-key hash), while unrevoked,
/// unexpired at `now` and carrying the required scope words, introspects as valid. The
/// namespace and the tag must not hold `_`, which separates the token's pieces.
pub proof fn lemma_created_key_is_accepted(p: ApiKeyParts, m: ApiKeyModel, scope: Option<Seq<char>>, now: Timestamp)
    requires
        is_fresh_parts(p, p@.namespace, p@.tag),
        lacks(p@.namespace, '_'),
        p@.tag matches Some(t) ==> lacks(t, '_'),
        m.long_key_hash@ == long_key_hash_of(p),
        !m.revoked,
        m.expires_at matches Some(e) ==> !before(e, now),
        scope matches Some(w) ==> words_covered(scope_text(m.scope), w),
    ensures
        parse_token(key_token(p@)) == Ok::<ApiKeyPartsView, ApiKeyServiceError>(p@),
        judgement(p@.long_key, m, scope, now)
            == Ok::<IntrospectApiKeyResponse, ApiKeyServiceError>(IntrospectApiKeyResponse { valid: true, key: Some(get_key_response(m)) }),
{
    lemma_alphanumeric_text(p@.short_key);
    lemma_alphanumeric_text(p@.long_key);
    assert(lacks(tag_or_empty(p@.tag), '_'));
    assert(well_formed_parts(p@));
    lemma_token_round_trip(p@);
}

/// A key made by create introspects as valid: the step that stores a new key sends a
/// record for fresh parts `p`; once the store holds that record, introspecting the token
/// of `p` in the same tenant, with no tag filter and no scope, first searches for exactly
/// that key (the stored record matches the search) and, given it, answers valid with the
/// stored key. The namespace and the tag
/// must not hold `_`, which separates the token's pieces, and the key must not expire.
pub proof fn lemma_create_then_introspect(
    payload: CreateApiKeyPayload,
    tenant: String,
    ns: NamespaceModel,
    tag: Option<Seq<char>>,
    created: CreateApiKey,
    insert: Step<CreateApiKeyResponse>,
    m: ApiKeyModel,
    look: IntrospectApiKey,
    looking: IntrospectApiKey,
    search: Step<IntrospectApiKeyResponse>,
    page: Page<ApiKeyModel>,
    judged: IntrospectApiKey,
    answer: Step<IntrospectApiKeyResponse>,
)
    requires
        create_insert_step(payload, tenant, ns, tag, created, insert),
        lacks(ns.name@, '_'),
        tag matches Some(t) ==> lacks(t, '_'),
        payload.expires_at is None,
        insert matches Step::Call(RepoCall::InsertApiKey(k)) && holds_record(m, k),
        created.stage matches CreateKeyStage::AwaitInsert(p) && look.token@ == key_token(p@),
        look.stage is Start,
        look.tags is None,
        look.scope is None,
        look.tenant_id == tenant,
        introspect_step(look, None, looking, search),
        page.items@.len() > 0,
        page.items@[0] == m,
        introspect_step(looking, Some(RepoReply::ApiKeyPage(page)), judged, answer),
    ensures
        created.stage matches CreateKeyStage::AwaitInsert(p)
            && search matches Step::Call(RepoCall::FindApiKeys(q)) && is_introspect_query(q, p@, tenant@),
        search matches Step::Call(RepoCall::FindApiKeys(q)) && params_match(q, m),
        answer == Step::<IntrospectApiKeyResponse>::Finish(
            Ok(IntrospectApiKeyResponse { valid: true, key: Some(get_key_response(m)) })),
{
    let p = created.stage->AwaitInsert_0;
    let k = insert->Call_0->InsertApiKey_0;
    lemma_alphanumeric_text(p@.short_key);
    lemma_alphanumeric_text(p@.long_key);
    assert(lacks(tag_or_empty(p@.tag), '_'));
    assert(well_formed_parts(p@));
    lemma_token_round_trip(p@);
    assert(parse_token(look.token@) == Ok::<ApiKeyPartsView, ApiKeyServiceError>(p@));
    lemma_introspect_search_scope(search->Call_0->FindApiKeys_0, p@, tenant@, m);
    let pp = looking.stage->AwaitKeys_0;
    assert(pp@ == p@);
    assert(opt_view(m.tag) == p@.tag);
    assert forall|now: Timestamp| judgement(pp.long_key@, m, opt_view(look.scope), now)
        == Ok::<IntrospectApiKeyResponse, ApiKeyServiceError>(IntrospectApiKeyResponse { valid: true, key: Some(get_key_response(m)) }) by {
        assert(m.long_key_hash@ == long_key_hash_of(p));
    }
}

/// A revocation revokes: after the store applies a revoking patch, the key is revoked
/// and carries the instant it was revoked at.
pub proof fn lemma_revoke_revokes(m: ApiKeyModel, patch: ApiKeyPatch)
    requires
        is_revoke_patch(patch, m.id),
    ensures
        apply_patch(m, patch).revoked,
        apply_patch(m, patch).revoked_at is Some,
        apply_patch(m, patch).id == m.id,
{
}

/// A revoked key stays revoked: no change an operation makes to a key (a revocation,
/// a last use, an expiry, new metadata) clears its revocation.
pub proof fn lemma_revocation_sticks(m: ApiKeyModel, change: KeyChange, call: RepoCall, id: u128, tenant: String)
    requires
        m.revoked,
        is_change_call(call, change, id, tenant),
    ensures
        call matches RepoCall::UpdateApiKey(patch) ==> apply_patch(m, patch).revoked,
{
}

/// A revoked key is never accepted: introspection given a revoked stored key answers
/// `InvalidKey`, whatever the instant and the scope.
pub proof fn lemma_revoked_key_is_invalid(
    looking: IntrospectApiKey,
    page: Page<ApiKeyModel>,
    judged: IntrospectApiKey,
    answer: Step<IntrospectApiKeyResponse>,
)
    requires
        looking.stage is AwaitKeys,
        page.items@.len() > 0,
        page.items@[0].revoked,
        introspect_step(looking, Some(RepoReply::ApiKeyPage(page)), judged, answer),
    ensures
        answer == Step::<IntrospectApiKeyResponse>::Finish(Err(ApiKeyServiceError::InvalidKey)),
{
}

/// Creating a key stores what was asked for: the record sent to the store (and so the key
/// the store then holds) belongs to the operation's tenant and carries the payload's
/// owner, scope, expiry and metadata, unrevoked, in the default namespace found, with the
/// tag found (none when none was asked for).
pub proof fn lemma_created_key_carries_payload(
    old: CreateApiKey,
    payload: CreateApiKeyPayload,
    reply: Option<RepoReply>,
    new: CreateApiKey,
    step: Step<CreateApiKeyResponse>,
    stored: ApiKeyModel,
)
    requires
        (old.stage == CreateKeyStage::AwaitNamespace(payload))
            || (old.stage matches CreateKeyStage::AwaitTag(q, _) && q == payload),
        create_key_step(old, reply, new, step),
        step matches Step::Call(RepoCall::InsertApiKey(k)) && holds_record(stored, k),
    ensures
        step matches Step::Call(RepoCall::InsertApiKey(k))
            && k.tenant_id == old.tenant_id
            && k.owner == payload.owner
            && k.scope == payload.scope
            && k.expires_at == payload.expires_at
            && k.metadata == Some(payload.metadata)
            && k.revoked == Some(false),
        stored.tenant_id == old.tenant_id,
        stored.owner == payload.owner,
        stored.scope == payload.scope,
        stored.expires_at == payload.expires_at,
        !stored.revoked,
        old.stage is AwaitNamespace ==> (payload.tag is None && stored.tag is None
            && (reply matches Some(RepoReply::Namespace(Some(ns))) && stored.namespace@ == ns.name@)),
        old.stage matches CreateKeyStage::AwaitTag(_, ns) ==> (stored.namespace@ == ns.name@
            && (reply matches Some(RepoReply::Tag(Some(t))) && stored.tag matches Some(g) && g@ == t.name@)),
{
    let k = step->Call_0->InsertApiKey_0;
    let p = new.stage->AwaitInsert_0;
    assert(is_created_record(k, payload, old.tenant_id, p));
}

/// Rotating a key replaces it: the new key goes to the same holder (tenant, owner and
/// scope, namespace and tag) under a different id, unrevoked and without expiry; the old
/// key, and only it, is then revoked; the answer shows the new key, not the old one. The
/// store is taken to have found the key asked for.
pub proof fn lemma_rotation_replaces_key(
    s0: RotateApiKey,
    m: ApiKeyModel,
    s1: RotateApiKey,
    insert: Step<CreateApiKeyResponse>,
    n: ApiKeyModel,
    s2: RotateApiKey,
    update: Step<CreateApiKeyResponse>,
    s3: RotateApiKey,
    done: Step<CreateApiKeyResponse>,
)
    requires
        s0.stage is AwaitKey,
        m.id == s0.id,
        rotate_key_step(s0, Some(RepoReply::ApiKey(Some(m))), s1, insert),
        insert matches Step::Call(RepoCall::InsertApiKey(k)) && holds_record(n, k),
        rotate_key_step(s1, Some(RepoReply::ApiKeyStored(n)), s2, update),
        rotate_key_step(s2, Some(RepoReply::Done), s3, done),
    ensures
        insert matches Step::Call(RepoCall::InsertApiKey(k))
            && k.id != m.id
            && k.tenant_id == m.tenant_id
            && k.namespace@ == m.namespace@
            && opt_view(k.tag) == opt_view(m.tag)
            && k.owner == m.owner
            && k.scope == m.scope,
        n.id != m.id,
        n.owner == m.owner,
        n.scope == m.scope,
        !n.revoked,
        n.expires_at is None,
        update matches Step::Call(RepoCall::UpdateApiKey(patch))
            && patch.id == m.id
            && apply_patch(m, patch).revoked
            && apply_patch(m, patch).revoked_at is Some
            && apply_patch(m, patch).scope == m.scope
            && apply_patch(m, patch).expires_at == m.expires_at,
        done matches Step::Finish(Ok(r)) && r.id == n.id && r.id != m.id && r.owner == m.owner && r.scope == m.scope,
{
}

/// Changing a key does what was asked to the key the store found, and nothing else: a
/// revocation revokes it, with the instant; a last use, an expiry or metadata replaces
/// that one field; a deletion deletes it, in its tenant. Every other field keeps its
/// value.
pub proof fn lemma_change_does_what_was_asked(
    old: ChangeApiKey,
    change: KeyChange,
    m: ApiKeyModel,
    new: ChangeApiKey,
    step: Step<()>,
)
    requires
        old.stage == ChangeKeyStage::AwaitKey(change),
        m.id == old.id,
        change_key_step(old, Some(RepoReply::ApiKey(Some(m))), new, step),
    ensures
        match change {
            KeyChange::Revoke => step matches Step::Call(RepoCall::UpdateApiKey(p))
                && p.id == m.id
                && apply_patch(m, p).revoked_at is Some
                && apply_patch(m, p) == (ApiKeyModel { revoked: true, revoked_at: apply_patch(m, p).revoked_at, ..m }),
            KeyChange::SetLastUsed(t) => step matches Step::Call(RepoCall::UpdateApiKey(p))
                && p.id == m.id
                && apply_patch(m, p) == (ApiKeyModel { last_used_at: Some(t), ..m }),
            KeyChange::SetExpiration(t) => step matches Step::Call(RepoCall::UpdateApiKey(p))
                && p.id == m.id
                && apply_patch(m, p) == (ApiKeyModel { expires_at: Some(t), ..m }),
            KeyChange::SetMetadata(x) => step matches Step::Call(RepoCall::UpdateApiKey(p))
                && p.id == m.id
                && apply_patch(m, p) == (ApiKeyModel { metadata: x, ..m }),
            KeyChange::Delete => step == Step::<()>::Call(RepoCall::DeleteApiKey { id: m.id, tenant_id: Some(old.tenant_id) }),
        },
{
}

/// `k` shows stored key `m`: every field but the long-key hash, as stored.
pub open spec fn shows_key(k: GetApiKeyResponse, m: ApiKeyModel) -> bool {
    &&& k.id == m.id
    &&& k.tenant_id == m.tenant_id
    &&& k.namespace == m.namespace
    &&& k.short_key == m.short_key
    &&& k.created_at == m.created_at
    &&& k.owner == m.owner
    &&& k.scope == m.scope
    &&& k.tag == m.tag
    &&& k.revoked == m.revoked
    &&& k.revoked_at == m.revoked_at
    &&& k.expires_at == m.expires_at
    &&& k.last_used_at == m.last_used_at
    &&& k.metadata == m.metadata
}

/// A change is made only to a key that exists in the operation's tenant: the key is first
/// looked up by id within the tenant, and when the store finds none the answer is
/// `KeyNotFound` and nothing is changed.
pub proof fn lemma_change_needs_existing_key(
    s0: ChangeApiKey,
    change: KeyChange,
    s1: ChangeApiKey,
    lookup: Step<()>,
    s2: ChangeApiKey,
    missing: Step<()>,
)
    requires
        s0.stage == ChangeKeyStage::Start(change),
        change_key_step(s0, None, s1, lookup),
        change_key_step(s1, Some(RepoReply::ApiKey(None)), s2, missing),
    ensures
        lookup == Step::<()>::Call(RepoCall::GetApiKey { id: s0.id, tenant_id: Some(s0.tenant_id) }),
        missing == Step::<()>::Finish(Err(ApiKeyServiceError::KeyNotFound)),
        s2.stage is Done,
{
}

/// Fetching a key looks it up by id within the operation's tenant, and answers the key
/// the store found, field for field, or `KeyNotFound`.
pub proof fn lemma_key_lookup_shows_stored_key(old: GetApiKey, reply: Option<RepoReply>, new: GetApiKey, step: Step<GetApiKeyResponse>)
    requires
        get_key_step(old, reply, new, step),
    ensures
        old.stage is Start && reply is None
            ==> step == Step::<GetApiKeyResponse>::Call(RepoCall::GetApiKey { id: old.id, tenant_id: Some(old.tenant_id) }),
        old.stage is Await && reply == Some(RepoReply::ApiKey(None))
            ==> step == Step::<GetApiKeyResponse>::Finish(Err(ApiKeyServiceError::KeyNotFound)),
        old.stage is Await && (reply matches Some(RepoReply::ApiKey(Some(_))))
            ==> (step matches Step::Finish(Ok(k)) && shows_key(k, reply->Some_0->ApiKey_0->Some_0)),
{
}

/// A key search asks the store for exactly the parameters given, and answers the page
/// the store found: each key shown field for field, in order, with the same count and
/// neighbouring pages.
pub proof fn lemma_key_search_shows_page(old: FindApiKeys, reply: Option<RepoReply>, new: FindApiKeys, step: Step<Page<GetApiKeyResponse>>)
    requires
        find_keys_step(old, reply, new, step),
    ensures
        old.stage is Start && reply is None
            ==> step == Step::<Page<GetApiKeyResponse>>::Call(RepoCall::FindApiKeys(old.stage->Start_0)),
        old.stage is Await && (reply matches Some(RepoReply::ApiKeyPage(_))) ==> (step matches Step::Finish(Ok(r))
            && r.items@.len() == reply->Some_0->ApiKeyPage_0.items@.len()
            && r.count == reply->Some_0->ApiKeyPage_0.count
            && r.next_page == reply->Some_0->ApiKeyPage_0.next_page
            && r.previous_page == reply->Some_0->ApiKeyPage_0.previous_page
            && forall|i: int| 0 <= i < r.items@.len()
                ==> shows_key(#[trigger] r.items@[i], reply->Some_0->ApiKeyPage_0.items@[i])),
{
}

/// Creating a key answers the key the store stored (its id, tenant, namespace, tag,
/// owner, scope, expiry, metadata and creation time) together with the one token built
/// from the generated parts, which gives those parts back when parsed.
pub proof fn lemma_create_answers_stored_key(
    old: CreateApiKey,
    m: ApiKeyModel,
    new: CreateApiKey,
    step: Step<CreateApiKeyResponse>,
)
    requires
        old.stage is AwaitInsert,
        well_formed_parts(old.stage->AwaitInsert_0@),
        create_key_step(old, Some(RepoReply::ApiKeyStored(m)), new, step),
    ensures
        step matches Step::Finish(Ok(r))
            && r.id == m.id && r.tenant_id == m.tenant_id && r.namespace == m.namespace
            && r.tag == m.tag && r.owner == m.owner && r.scope == m.scope
            && r.expires_at == m.expires_at && r.metadata == m.metadata && r.created_at == m.created_at
            && parse_token(r.key@) == Ok::<ApiKeyPartsView, ApiKeyServiceError>(old.stage->AwaitInsert_0@),
{
    lemma_token_round_trip(old.stage->AwaitInsert_0@);
}

/// Creating a key needs the tenant's default namespace (else `NamespaceNotFound`) and,
/// when a tag is asked for, that tag within the namespace and tenant (else
/// `TagNotFound`); nothing is stored in either case.
pub proof fn lemma_create_needs_namespace_and_tag(
    old: CreateApiKey,
    reply: Option<RepoReply>,
    new: CreateApiKey,
    step: Step<CreateApiKeyResponse>,
)
    requires
        create_key_step(old, reply, new, step),
    ensures
        old.stage is Start && reply is None
            ==> step == Step::<CreateApiKeyResponse>::Call(RepoCall::GetDefaultNamespace { tenant_id: old.tenant_id }),
        old.stage is AwaitNamespace && reply == Some(RepoReply::Namespace(None))
            ==> step == Step::<CreateApiKeyResponse>::Finish(Err(ApiKeyServiceError::NamespaceNotFound)),
        old.stage is AwaitNamespace && old.stage->AwaitNamespace_0.tag is Some
            && (reply matches Some(RepoReply::Namespace(Some(_))))
            ==> step == Step::<CreateApiKeyResponse>::Call(RepoCall::GetTag {
                name: old.stage->AwaitNamespace_0.tag->Some_0,
                namespace: reply->Some_0->Namespace_0->Some_0.name,
                tenant_id: old.tenant_id,
            }),
        old.stage is AwaitTag && reply == Some(RepoReply::Tag(None))
            ==> step == Step::<CreateApiKeyResponse>::Finish(Err(ApiKeyServiceError::TagNotFound)),
{
}

/// Rotating needs the key to exist in the operation's tenant: it is looked up by id
/// within the tenant, and when the store finds none the answer is `KeyNotFound` and
/// nothing is stored or revoked.
pub proof fn lemma_rotation_needs_existing_key(
    s0: RotateApiKey,
    s1: RotateApiKey,
    lookup: Step<CreateApiKeyResponse>,
    s2: RotateApiKey,
    missing: Step<CreateApiKeyResponse>,
)
    requires
        s0.stage is Start,
        rotate_key_step(s0, None, s1, lookup),
        rotate_key_step(s1, Some(RepoReply::ApiKey(None)), s2, missing),
    ensures
        lookup == Step::<CreateApiKeyResponse>::Call(RepoCall::GetApiKey { id: s0.id, tenant_id: Some(s0.tenant_id) }),
        missing == Step::<CreateApiKeyResponse>::Finish(Err(ApiKeyServiceError::KeyNotFound)),
        s2.stage is Done,
{
}

} // verus!
