//! Search parameters of the key, namespace and tag stores.

use vstd::prelude::*;
use crate::metadata::Metadata;
use crate::model::Timestamp;

verus! {

/// Filters for finding API keys. A list filter that is absent or empty does not filter.
#[derive(Debug)]
pub struct FindApiKeyParams {
    pub page: u64,
    pub per_page: u64,
    pub include_ids: Option<Vec<u128>>,
    pub exclude_ids: Option<Vec<u128>>,
    pub tenant_ids: Option<Vec<String>>,
    pub namespaces: Option<Vec<String>>,
    pub tags: Option<Vec<String>>,
    pub short_keys: Option<Vec<String>>,
    pub owners: Option<Vec<String>>,
    pub revoked: Option<bool>,
    pub metadata: Option<Metadata>,
    pub created_before: Option<Timestamp>,
    pub created_after: Option<Timestamp>,
}

impl FindApiKeyParams {
    /// Parameters for the given page with no filter.
    pub fn new(page: u64, per_page: u64) -> (p: Self)
        ensures
            p == (FindApiKeyParams {
                page,
                per_page,
                include_ids: None,
                exclude_ids: None,
                tenant_ids: None,
                namespaces: None,
                tags: None,
                short_keys: None,
                owners: None,
                revoked: None,
                metadata: None,
                created_before: None,
                created_after: None,
            }),
    {
        FindApiKeyParams {
            page,
            per_page,
            include_ids: None,
            exclude_ids: None,
            tenant_ids: None,
            namespaces: None,
            tags: None,
            short_keys: None,
            owners: None,
            revoked: None,
            metadata: None,
            created_before: None,
            created_after: None,
        }
    }

    /// Only keys with one of these ids.
    pub fn with_include_ids(self, ids: Vec<u128>) -> (p: Self)
        ensures
            p == (FindApiKeyParams { include_ids: Some(ids), ..self }),
    {
        FindApiKeyParams { include_ids: Some(ids), ..self }
    }

    /// No key with one of these ids.
    pub fn with_exclude_ids(self, ids: Vec<u128>) -> (p: Self)
        ensures
            p == (FindApiKeyParams { exclude_ids: Some(ids), ..self }),
    {
        FindApiKeyParams { exclude_ids: Some(ids), ..self }
    }

    /// Only keys of one of these tenants.
    pub fn with_tenant_ids(self, tenant_ids: Vec<String>) -> (p: Self)
        ensures
            p == (FindApiKeyParams { tenant_ids: Some(tenant_ids), ..self }),
    {
        FindApiKeyParams { tenant_ids: Some(tenant_ids), ..self }
    }

    /// Only keys in one of these namespaces.
    pub fn with_namespaces(self, namespaces: Vec<String>) -> (p: Self)
        ensures
            p == (FindApiKeyParams { namespaces: Some(namespaces), ..self }),
    {
        FindApiKeyParams { namespaces: Some(namespaces), ..self }
    }

    /// Only keys with one of these tags.
    pub fn with_tags(self, tags: Vec<String>) -> (p: Self)
        ensures
            p == (FindApiKeyParams { tags: Some(tags), ..self }),
    {
        FindApiKeyParams { tags: Some(tags), ..self }
    }

    /// Only keys with one of these short keys.
    pub fn with_short_keys(self, short_keys: Vec<String>) -> (p: Self)
        ensures
            p == (FindApiKeyParams { short_keys: Some(short_keys), ..self }),
    {
        FindApiKeyParams { short_keys: Some(short_keys), ..self }
    }

    /// Only keys of one of these owners.
    pub fn with_owners(self, owners: Vec<String>) -> (p: Self)
        ensures
            p == (FindApiKeyParams { owners: Some(owners), ..self }),
    {
        FindApiKeyParams { owners: Some(owners), ..self }
    }

    /// Only keys that are (or are not) revoked.
    pub fn with_revoked(self, revoked: bool) -> (p: Self)
        ensures
            p == (FindApiKeyParams { revoked: Some(revoked), ..self }),
    {
        FindApiKeyParams { revoked: Some(revoked), ..self }
    }

    /// Only keys whose metadata holds all these entries.
    pub fn with_metadata(self, metadata: Metadata) -> (p: Self)
        ensures
            p == (FindApiKeyParams { metadata: Some(metadata), ..self }),
    {
        FindApiKeyParams { metadata: Some(metadata), ..self }
    }

    /// Only keys created before this instant.
    pub fn with_created_before(self, created_before: Timestamp) -> (p: Self)
        ensures
            p == (FindApiKeyParams { created_before: Some(created_before), ..self }),
    {
        FindApiKeyParams { created_before: Some(created_before), ..self }
    }

    /// Only keys created after this instant.
    pub fn with_created_after(self, created_after: Timestamp) -> (p: Self)
        ensures
            p == (FindApiKeyParams { created_after: Some(created_after), ..self }),
    {
        FindApiKeyParams { created_after: Some(created_after), ..self }
    }
}

/// Filters for finding namespaces.
#[derive(Debug)]
pub struct FindApiKeyNamespaceParams {
    pub page: u64,
    pub per_page: u64,
    pub tenant_ids: Option<Vec<String>>,
    pub names: Option<Vec<String>>,
    pub is_default: Option<bool>,
    pub created_before: Option<Timestamp>,
    pub created_after: Option<Timestamp>,
}

impl FindApiKeyNamespaceParams {
    /// Parameters for the given page with no filter.
    pub fn new(page: u64, per_page: u64) -> (p: Self)
        ensures
            p == (FindApiKeyNamespaceParams {
                page,
                per_page,
                tenant_ids: None,
                names: None,
                is_default: None,
                created_before: None,
                created_after: None,
            }),
    {
        FindApiKeyNamespaceParams {
            page,
            per_page,
            tenant_ids: None,
            names: None,
            is_default: None,
            created_before: None,
            created_after: None,
        }
    }

    /// Only namespaces of one of these tenants.
    pub fn with_tenant_ids(self, tenant_ids: Vec<String>) -> (p: Self)
        ensures
            p == (FindApiKeyNamespaceParams { tenant_ids: Some(tenant_ids), ..self }),
    {
        FindApiKeyNamespaceParams { tenant_ids: Some(tenant_ids), ..self }
    }

    /// Only namespaces with one of these names.
    pub fn with_names(self, names: Vec<String>) -> (p: Self)
        ensures
            p == (FindApiKeyNamespaceParams { names: Some(names), ..self }),
    {
        FindApiKeyNamespaceParams { names: Some(names), ..self }
    }

    /// Only namespaces that are (or are not) the default.
    pub fn with_is_default(self, is_default: bool) -> (p: Self)
        ensures
            p == (FindApiKeyNamespaceParams { is_default: Some(is_default), ..self }),
    {
        FindApiKeyNamespaceParams { is_default: Some(is_default), ..self }
    }

    /// Only namespaces created before this instant.
    pub fn with_created_before(self, created_before: Timestamp) -> (p: Self)
        ensures
            p == (FindApiKeyNamespaceParams { created_before: Some(created_before), ..self }),
    {
        FindApiKeyNamespaceParams { created_before: Some(created_before), ..self }
    }

    /// Only namespaces created after this instant.
    pub fn with_created_after(self, created_after: Timestamp) -> (p: Self)
        ensures
            p == (FindApiKeyNamespaceParams { created_after: Some(created_after), ..self }),
    {
        FindApiKeyNamespaceParams { created_after: Some(created_after), ..self }
    }
}

/// Filters for finding tags.
#[derive(Debug)]
pub struct FindApiKeyTagParams {
    pub page: u64,
    pub per_page: u64,
    pub tenant_ids: Option<Vec<String>>,
    pub namespaces: Option<Vec<String>>,
    pub names: Option<Vec<String>>,
    pub created_before: Option<Timestamp>,
    pub created_after: Option<Timestamp>,
}

impl FindApiKeyTagParams {
    /// Parameters for the given page with no filter.
    pub fn new(page: u64, per_page: u64) -> (p: Self)
        ensures
            p == (FindApiKeyTagParams {
                page,
                per_page,
                tenant_ids: None,
                namespaces: None,
                names: None,
                created_before: None,
                created_after: None,
            }),
    {
        FindApiKeyTagParams {
            page,
            per_page,
            tenant_ids: None,
            namespaces: None,
            names: None,
            created_before: None,
            created_after: None,
        }
    }

    /// Only tags of one of these tenants.
    pub fn with_tenant_ids(self, tenant_ids: Vec<String>) -> (p: Self)
        ensures
            p == (FindApiKeyTagParams { tenant_ids: Some(tenant_ids), ..self }),
    {
        FindApiKeyTagParams { tenant_ids: Some(tenant_ids), ..self }
    }

    /// Only tags in one of these namespaces.
    pub fn with_namespaces(self, namespaces: Vec<String>) -> (p: Self)
        ensures
            p == (FindApiKeyTagParams { namespaces: Some(namespaces), ..self }),
    {
        FindApiKeyTagParams { namespaces: Some(namespaces), ..self }
    }

    /// Only tags with one of these names.
    pub fn with_names(self, names: Vec<String>) -> (p: Self)
        ensures
            p == (FindApiKeyTagParams { names: Some(names), ..self }),
    {
        FindApiKeyTagParams { names: Some(names), ..self }
    }

    /// Only tags created before this instant.
    pub fn with_created_before(self, created_before: Timestamp) -> (p: Self)
        ensures
            p == (FindApiKeyTagParams { created_before: Some(created_before), ..self }),
    {
        FindApiKeyTagParams { created_before: Some(created_before), ..self }
    }

    /// Only tags created after this instant.
    pub fn with_created_after(self, created_after: Timestamp) -> (p: Self)
        ensures
            p == (FindApiKeyTagParams { created_after: Some(created_after), ..self }),
    {
        FindApiKeyTagParams { created_after: Some(created_after), ..self }
    }
}

} // verus!
