//! Stored records, timestamps, query parameters and service responses.

use vstd::prelude::*;
use crate::metadata::Metadata;
use crate::key::{ApiKeyParts, key_token};

verus! {

/// An instant in UTC: whole seconds since the Unix epoch and the nanoseconds past them.
#[derive(Debug, Clone, Copy, PartialEq, Eq, Structural)]
pub struct Timestamp {
    pub secs: i64,
    pub nanos: u32,
}

/// `a` comes strictly before `b`.
pub open spec fn before(a: Timestamp, b: Timestamp) -> bool {
    a.secs < b.secs || (a.secs == b.secs && a.nanos < b.nanos)
}

impl Timestamp {
    /// An instant from seconds and nanoseconds.
    pub fn new(secs: i64, nanos: u32) -> (t: Self)
        ensures
            t.secs == secs,
            t.nanos == nanos,
    {
        Timestamp { secs, nanos }
    }

    /// Whether this instant comes strictly before `other`.
    pub fn is_before(&self, other: &Timestamp) -> (r: bool)
        ensures
            r == before(*self, *other),
    {
        self.secs < other.secs || (self.secs == other.secs && self.nanos < other.nanos)
    }

    /// The current time (`chrono::Utc::now`). What it returns depends on the clock.
    #[verifier::external_body]
    pub(crate) fn now() -> (t: Self) {
        let now = chrono::Utc::now();
        Timestamp { secs: now.timestamp(), nanos: now.timestamp_subsec_nanos() }
    }
}

/// A stored API key.
#[derive(Debug)]
pub struct ApiKeyModel {
    pub id: u128,
    pub tenant_id: String,
    pub namespace: String,
    pub tag: Option<String>,
    pub short_key: String,
    pub long_key_hash: String,
    pub owner: String,
    pub scope: Option<String>,
    pub revoked: bool,
    pub revoked_at: Option<Timestamp>,
    pub expires_at: Option<Timestamp>,
    pub last_used_at: Option<Timestamp>,
    pub created_at: Timestamp,
    pub metadata: Metadata,
}

/// A stored namespace.
#[derive(Debug)]
pub struct NamespaceModel {
    pub name: String,
    pub tenant_id: String,
    pub created_at: Timestamp,
    pub is_default: bool,
}

/// A stored tag.
#[derive(Debug)]
pub struct TagModel {
    pub name: String,
    pub namespace: String,
    pub tenant_id: String,
    pub created_at: Timestamp,
}

/// A new API key to store. A field left `None` is not set and takes the store's default.
#[derive(Debug)]
pub struct NewApiKey {
    pub id: u128,
    pub tenant_id: String,
    pub namespace: String,
    pub tag: Option<String>,
    pub short_key: String,
    pub long_key_hash: String,
    pub owner: String,
    pub scope: Option<String>,
    pub revoked: Option<bool>,
    pub expires_at: Option<Timestamp>,
    pub metadata: Option<Metadata>,
    pub created_at: Option<Timestamp>,
}

/// A change to a stored API key. A field left `None` keeps its stored value.
#[derive(Debug)]
pub struct ApiKeyPatch {
    pub id: u128,
    pub revoked: Option<bool>,
    pub revoked_at: Option<Option<Timestamp>>,
    pub expires_at: Option<Option<Timestamp>>,
    pub last_used_at: Option<Option<Timestamp>>,
    pub metadata: Option<Metadata>,
}

/// A new namespace to store. `is_default` left `None` takes the store's default.
#[derive(Debug)]
pub struct NewNamespace {
    pub name: String,
    pub tenant_id: String,
    pub is_default: Option<bool>,
}

/// A new tag to store.
#[derive(Debug)]
pub struct NewTag {
    pub tenant_id: String,
    pub namespace: String,
    pub name: String,
    pub created_at: Timestamp,
}

/// A page of results.
#[derive(Debug)]
pub struct Page<T> {
    pub items: Vec<T>,
    pub count: u64,
    pub next_page: Option<u64>,
    pub previous_page: Option<u64>,
}

impl<T> Page<T> {
    /// An empty page with no neighbours.
    pub fn empty() -> (p: Self)
        ensures
            p.items@.len() == 0,
            p.count == 0,
            p.next_page is None,
            p.previous_page is None,
    {
        Page { items: Vec::new(), count: 0, next_page: None, previous_page: None }
    }
}

/// The neighbours of page `page` (counted from 1) that held `n_items` items when
/// `per_page` were asked for: a next page only when the page came back full, a previous
/// page only after the first.
pub open spec fn page_neighbours_spec(page: u64, per_page: u64, n_items: usize) -> (Option<u64>, Option<u64>) {
    (
        if n_items < (per_page as usize) { None } else { Some((page + 1) as u64) },
        if page > 1 { Some((page - 1) as u64) } else { None },
    )
}

/// The next and previous page numbers of a fetched page.
pub fn page_neighbours(page: u64, per_page: u64, n_items: usize) -> (r: (Option<u64>, Option<u64>))
    requires
        page < u64::MAX,
    ensures
        r == page_neighbours_spec(page, per_page, n_items),
{
    let next = if n_items < (per_page as usize) {
        None
    } else {
        Some(page + 1)
    };
    let previous = if page > 1 {
        Some(page - 1)
    } else {
        None
    };
    (next, previous)
}

/// Neighbouring pages point at each other: the page after a full page names this page
/// as its previous one, and the page before a later page names it as its next one when
/// that page came back full.
pub proof fn lemma_pages_link(page: u64, per_page: u64, n_items: usize, m_items: usize)
    requires
        1 <= page,
        page + 1 < u64::MAX,
        n_items >= per_page,
    ensures
        page_neighbours_spec(page, per_page, n_items).0 == Some((page + 1) as u64),
        page_neighbours_spec((page + 1) as u64, per_page, m_items).1 == Some(page),
{
}

/// A filter on a key's tag: a given tag, no tag, or no filter.
#[derive(Debug)]
pub enum TagFilter {
    Value(String),
    Null,
    Unspecified,
}

impl TagFilter {
    /// The filter as a nested option: `Some(Some(tag))`, `Some(None)` for "no tag", or
    /// `None` for no filter.
    pub fn into_val(&self) -> (r: Option<Option<String>>)
        ensures
            r == (match *self {
                TagFilter::Value(v) => Some(Some(v)),
                TagFilter::Null => Some(None::<String>),
                TagFilter::Unspecified => None::<Option<String>>,
            }),
    {
        match self {
            TagFilter::Value(v) => Some(Some(v.clone())),
            TagFilter::Null => Some(None),
            TagFilter::Unspecified => None,
        }
    }

    /// The default filter: no filter.
    pub fn default_filter() -> (f: Self)
        ensures
            f is Unspecified,
    {
        TagFilter::Unspecified
    }
}

/// What is needed to create an API key.
#[derive(Debug)]
pub struct CreateApiKeyPayload {
    pub owner: String,
    pub scope: Option<String>,
    pub expires_at: Option<Timestamp>,
    pub tag: Option<String>,
    pub metadata: Metadata,
}

/// A newly created (or rotated) API key, with its full token.
#[derive(Debug)]
pub struct CreateApiKeyResponse {
    pub id: u128,
    pub tenant_id: String,
    pub namespace: String,
    pub key: String,
    pub created_at: Timestamp,
    pub owner: String,
    pub scope: Option<String>,
    pub tag: Option<String>,
    pub expires_at: Option<Timestamp>,
    pub metadata: Metadata,
}

/// A stored API key as the service shows it (without its secret part).
#[derive(Debug)]
pub struct GetApiKeyResponse {
    pub id: u128,
    pub tenant_id: String,
    pub namespace: String,
    pub short_key: String,
    pub created_at: Timestamp,
    pub owner: String,
    pub scope: Option<String>,
    pub tag: Option<String>,
    pub revoked: bool,
    pub revoked_at: Option<Timestamp>,
    pub expires_at: Option<Timestamp>,
    pub last_used_at: Option<Timestamp>,
    pub metadata: Metadata,
}

/// The outcome of an introspection.
#[derive(Debug)]
pub struct IntrospectApiKeyResponse {
    pub valid: bool,
    pub key: Option<GetApiKeyResponse>,
}

/// A newly created namespace.
#[derive(Debug)]
pub struct CreateNamespaceResponse {
    pub tenant_id: String,
    pub name: String,
    pub created_at: Timestamp,
    pub is_default: bool,
}

/// A stored namespace as the service shows it.
#[derive(Debug)]
pub struct GetNamespaceResponse {
    pub tenant_id: String,
    pub name: String,
    pub created_at: Timestamp,
    pub is_default: bool,
}

/// A newly created tag.
#[derive(Debug)]
pub struct CreateTagResponse {
    pub tenant_id: String,
    pub namespace: String,
    pub name: String,
    pub created_at: Timestamp,
}

/// A stored tag as the service shows it.
#[derive(Debug)]
pub struct GetTagResponse {
    pub tenant_id: String,
    pub namespace: String,
    pub name: String,
    pub created_at: Timestamp,
}

/// The response showing a stored key.
pub open spec fn get_key_response(m: ApiKeyModel) -> GetApiKeyResponse {
    GetApiKeyResponse {
        id: m.id,
        tenant_id: m.tenant_id,
        namespace: m.namespace,
        short_key: m.short_key,
        created_at: m.created_at,
        owner: m.owner,
        scope: m.scope,
        tag: m.tag,
        revoked: m.revoked,
        revoked_at: m.revoked_at,
        expires_at: m.expires_at,
        last_used_at: m.last_used_at,
        metadata: m.metadata,
    }
}

/// `r` is the creation response for stored key `m` issued with parts `p`.
pub open spec fn is_create_response(r: CreateApiKeyResponse, m: ApiKeyModel, p: ApiKeyParts) -> bool {
    &&& r.id == m.id
    &&& r.tenant_id == m.tenant_id
    &&& r.namespace == m.namespace
    &&& r.key@ == key_token(p@)
    &&& r.created_at == m.created_at
    &&& r.owner == m.owner
    &&& r.scope == m.scope
    &&& r.tag == m.tag
    &&& r.expires_at == m.expires_at
    &&& r.metadata == m.metadata
}

impl CreateApiKeyResponse {
    /// The response for a key just stored, carrying the token built from its parts.
    pub fn from_model(model: ApiKeyModel, key_parts: ApiKeyParts) -> (r: Self)
        ensures
            is_create_response(r, model, key_parts),
    {
        let key = key_parts.token();
        CreateApiKeyResponse {
            id: model.id,
            tenant_id: model.tenant_id,
            namespace: model.namespace,
            key,
            created_at: model.created_at,
            owner: model.owner,
            scope: model.scope,
            tag: model.tag,
            expires_at: model.expires_at,
            metadata: model.metadata,
        }
    }
}

impl GetApiKeyResponse {
    /// The response showing a stored key.
    pub fn from_model(model: ApiKeyModel) -> (r: Self)
        ensures
            r == get_key_response(model),
    {
        GetApiKeyResponse {
            id: model.id,
            tenant_id: model.tenant_id,
            namespace: model.namespace,
            short_key: model.short_key,
            created_at: model.created_at,
            owner: model.owner,
            scope: model.scope,
            tag: model.tag,
            revoked: model.revoked,
            revoked_at: model.revoked_at,
            expires_at: model.expires_at,
            last_used_at: model.last_used_at,
            metadata: model.metadata,
        }
    }
}

/// The response for a newly created namespace.
pub open spec fn create_namespace_response(m: NamespaceModel) -> CreateNamespaceResponse {
    CreateNamespaceResponse { tenant_id: m.tenant_id, name: m.name, created_at: m.created_at, is_default: m.is_default }
}

/// The response showing a stored namespace.
pub open spec fn get_namespace_response(m: NamespaceModel) -> GetNamespaceResponse {
    GetNamespaceResponse { tenant_id: m.tenant_id, name: m.name, created_at: m.created_at, is_default: m.is_default }
}

/// The response for a newly created tag.
pub open spec fn create_tag_response(m: TagModel) -> CreateTagResponse {
    CreateTagResponse { tenant_id: m.tenant_id, namespace: m.namespace, name: m.name, created_at: m.created_at }
}

/// The response showing a stored tag.
pub open spec fn get_tag_response(m: TagModel) -> GetTagResponse {
    GetTagResponse { tenant_id: m.tenant_id, namespace: m.namespace, name: m.name, created_at: m.created_at }
}

impl CreateNamespaceResponse {
    /// The response for a newly created namespace.
    pub fn from_model(model: NamespaceModel) -> (r: Self)
        ensures
            r == create_namespace_response(model),
    {
        CreateNamespaceResponse {
            tenant_id: model.tenant_id,
            name: model.name,
            created_at: model.created_at,
            is_default: model.is_default,
        }
    }
}

impl GetNamespaceResponse {
    /// The response showing a stored namespace.
    pub fn from_model(model: NamespaceModel) -> (r: Self)
        ensures
            r == get_namespace_response(model),
    {
        GetNamespaceResponse {
            tenant_id: model.tenant_id,
            name: model.name,
            created_at: model.created_at,
            is_default: model.is_default,
        }
    }
}

impl CreateTagResponse {
    /// The response for a newly created tag.
    pub fn from_model(model: TagModel) -> (r: Self)
        ensures
            r == create_tag_response(model),
    {
        CreateTagResponse {
            tenant_id: model.tenant_id,
            namespace: model.namespace,
            name: model.name,
            created_at: model.created_at,
        }
    }
}

impl GetTagResponse {
    /// The response showing a stored tag.
    pub fn from_model(model: TagModel) -> (r: Self)
        ensures
            r == get_tag_response(model),
    {
        GetTagResponse {
            tenant_id: model.tenant_id,
            namespace: model.namespace,
            name: model.name,
            created_at: model.created_at,
        }
    }
}

} // verus!
