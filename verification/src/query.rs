//! The query strings of the search endpoints: their defaults, their rules, and the
//! search they ask for.

use vstd::prelude::*;
use crate::api::{Violation, ValidationReport};
use crate::dto::{broken, check_rule, conclude, validation_outcome, violation_pairs, request_tenant, TenantIdHeader};
use crate::metadata::Metadata;
use crate::model::Timestamp;
use crate::params::{FindApiKeyNamespaceParams, FindApiKeyParams, FindApiKeyTagParams};

verus! {

/// Whether an optional page number is at least 1.
pub open spec fn page_ok(p: Option<u64>) -> bool {
    match p {
        Some(n) => n >= 1,
        None => true,
    }
}

/// Whether an optional page size lies within 1 to 100.
pub open spec fn per_page_ok(p: Option<u64>) -> bool {
    match p {
        Some(n) => 1 <= n && n <= 100,
        None => true,
    }
}

/// What the rules on paging find.
pub open spec fn paging_findings(page: Option<u64>, per_page: Option<u64>) -> Seq<(Seq<char>, Seq<char>)> {
    broken(page_ok(page), "page"@, "range"@) + broken(per_page_ok(per_page), "per_page"@, "range"@)
}

/// Checks the paging of a query string.
fn validate_paging(page: Option<u64>, per_page: Option<u64>) -> (r: Result<(), ValidationReport>)
    ensures
        validation_outcome(r, paging_findings(page, per_page)),
{
    let mut found: Vec<Violation> = Vec::new();
    let page_valid = match page {
        Some(n) => n >= 1,
        None => true,
    };
    check_rule(&mut found, page_valid, "page", "range");
    let per_page_valid = match per_page {
        Some(n) => 1 <= n && n <= 100,
        None => true,
    };
    check_rule(&mut found, per_page_valid, "per_page", "range");
    assert(violation_pairs(found@) =~= paging_findings(page, per_page));
    conclude(found)
}

/// The page asked for, the first by default.
pub open spec fn page_or_first(p: Option<u64>) -> u64 {
    match p {
        Some(n) => n,
        None => 1,
    }
}

/// The page size asked for, 10 by default.
pub open spec fn per_page_or_default(p: Option<u64>) -> u64 {
    match p {
        Some(n) => n,
        None => 10,
    }
}

/// The query string of the key search.
#[derive(Debug)]
pub struct FindApiKeyEndpointParams {
    pub page: Option<u64>,
    pub per_page: Option<u64>,
    pub include_ids: Option<Vec<u128>>,
    pub exclude_ids: Option<Vec<u128>>,
    pub namespaces: Option<Vec<String>>,
    pub tags: Option<Vec<String>>,
    pub short_keys: Option<Vec<String>>,
    pub owners: Option<Vec<String>>,
    pub revoked: Option<bool>,
    pub metadata: Option<Metadata>,
    pub created_before: Option<Timestamp>,
    pub created_after: Option<Timestamp>,
}

impl Default for FindApiKeyEndpointParams {
    /// The first page of ten, with no filter.
    fn default() -> (p: Self)
        ensures
            p.page == Some(1u64),
            p.per_page == Some(10u64),
            p.include_ids is None,
            p.exclude_ids is None,
            p.namespaces is None,
            p.tags is None,
            p.short_keys is None,
            p.owners is None,
            p.revoked is None,
            p.metadata is None,
            p.created_before is None,
            p.created_after is None,
    {
        FindApiKeyEndpointParams {
            page: Some(1),
            per_page: Some(10),
            include_ids: None,
            exclude_ids: None,
            namespaces: None,
            tags: None,
            short_keys: None,
            owners: None,
            revoked: None,
            metadata: None,
            created_before: None,
            created_after: None,
        }
    }
}

impl FindApiKeyEndpointParams {
    /// The page is at least 1 and holds 1 to 100 keys.
    pub fn validate(&self) -> (r: Result<(), ValidationReport>)
        ensures
            validation_outcome(r, paging_findings(self.page, self.per_page)),
    {
        validate_paging(self.page, self.per_page)
    }

    /// The search asked for, within the request's tenant (its header's, else the
    /// service's default).
    pub fn into_params(self, tenant: Option<TenantIdHeader>, default_tenant_id: &String) -> (p: FindApiKeyParams)
        ensures
            p.page == page_or_first(self.page),
            p.per_page == per_page_or_default(self.per_page),
            p.include_ids == self.include_ids,
            p.exclude_ids == self.exclude_ids,
            p.tenant_ids matches Some(v) && v@.len() == 1 && v@[0]@ == (match tenant { Some(h) => h.0@, None => default_tenant_id@ }),
            p.namespaces == self.namespaces,
            p.tags == self.tags,
            p.short_keys == self.short_keys,
            p.owners == self.owners,
            p.revoked == self.revoked,
            p.metadata == self.metadata,
            p.created_before == self.created_before,
            p.created_after == self.created_after,
    {
        let t = request_tenant(tenant, default_tenant_id);
        let mut tenants: Vec<String> = Vec::new();
        tenants.push(t);
        FindApiKeyParams {
            page: match self.page { Some(n) => n, None => 1 },
            per_page: match self.per_page { Some(n) => n, None => 10 },
            include_ids: self.include_ids,
            exclude_ids: self.exclude_ids,
            tenant_ids: Some(tenants),
            namespaces: self.namespaces,
            tags: self.tags,
            short_keys: self.short_keys,
            owners: self.owners,
            revoked: self.revoked,
            metadata: self.metadata,
            created_before: self.created_before,
            created_after: self.created_after,
        }
    }
}

/// The query string of the namespace search.
#[derive(Debug)]
pub struct FindApiKeyNamespaceEndpointParams {
    pub page: Option<u64>,
    pub per_page: Option<u64>,
    pub names: Option<Vec<String>>,
    pub is_default: Option<bool>,
    pub created_before: Option<Timestamp>,
    pub created_after: Option<Timestamp>,
}

impl Default for FindApiKeyNamespaceEndpointParams {
    /// The first page of ten, with no filter.
    fn default() -> (p: Self)
        ensures
            p.page == Some(1u64),
            p.per_page == Some(10u64),
            p.names is None,
            p.is_default is None,
            p.created_before is None,
            p.created_after is None,
    {
        FindApiKeyNamespaceEndpointParams {
            page: Some(1),
            per_page: Some(10),
            names: None,
            is_default: None,
            created_before: None,
            created_after: None,
        }
    }
}

impl FindApiKeyNamespaceEndpointParams {
    /// The page is at least 1 and holds 1 to 100 namespaces.
    pub fn validate(&self) -> (r: Result<(), ValidationReport>)
        ensures
            validation_outcome(r, paging_findings(self.page, self.per_page)),
    {
        validate_paging(self.page, self.per_page)
    }

    /// The search asked for, within the request's tenant.
    pub fn into_params(self, tenant: Option<TenantIdHeader>, default_tenant_id: &String) -> (p: FindApiKeyNamespaceParams)
        ensures
            p.page == page_or_first(self.page),
            p.per_page == per_page_or_default(self.per_page),
            p.tenant_ids matches Some(v) && v@.len() == 1 && v@[0]@ == (match tenant { Some(h) => h.0@, None => default_tenant_id@ }),
            p.names == self.names,
            p.is_default == self.is_default,
            p.created_before == self.created_before,
            p.created_after == self.created_after,
    {
        let t = request_tenant(tenant, default_tenant_id);
        let mut tenants: Vec<String> = Vec::new();
        tenants.push(t);
        FindApiKeyNamespaceParams {
            page: match self.page { Some(n) => n, None => 1 },
            per_page: match self.per_page { Some(n) => n, None => 10 },
            tenant_ids: Some(tenants),
            names: self.names,
            is_default: self.is_default,
            created_before: self.created_before,
            created_after: self.created_after,
        }
    }
}

/// The query string of the tag search within a namespace.
#[derive(Debug)]
pub struct FindApiKeyTagEndpointParams {
    pub page: Option<u64>,
    pub per_page: Option<u64>,
    pub names: Option<Vec<String>>,
    pub created_before: Option<Timestamp>,
    pub created_after: Option<Timestamp>,
}

impl Default for FindApiKeyTagEndpointParams {
    /// The first page of ten, with no filter.
    fn default() -> (p: Self)
        ensures
            p.page == Some(1u64),
            p.per_page == Some(10u64),
            p.names is None,
            p.created_before is None,
            p.created_after is None,
    {
        FindApiKeyTagEndpointParams { page: Some(1), per_page: Some(10), names: None, created_before: None, created_after: None }
    }
}

impl FindApiKeyTagEndpointParams {
    /// The page is at least 1 and holds 1 to 100 tags.
    pub fn validate(&self) -> (r: Result<(), ValidationReport>)
        ensures
            validation_outcome(r, paging_findings(self.page, self.per_page)),
    {
        validate_paging(self.page, self.per_page)
    }

    /// The search asked for: tags of `namespace` within the request's tenant.
    pub fn into_params(self, namespace: String, tenant: Option<TenantIdHeader>, default_tenant_id: &String) -> (p: FindApiKeyTagParams)
        ensures
            p.page == page_or_first(self.page),
            p.per_page == per_page_or_default(self.per_page),
            p.tenant_ids matches Some(v) && v@.len() == 1 && v@[0]@ == (match tenant { Some(h) => h.0@, None => default_tenant_id@ }),
            p.namespaces matches Some(v) && v@.len() == 1 && v@[0] == namespace,
            p.names == self.names,
            p.created_before == self.created_before,
            p.created_after == self.created_after,
    {
        let t = request_tenant(tenant, default_tenant_id);
        let mut tenants: Vec<String> = Vec::new();
        tenants.push(t);
        let mut namespaces: Vec<String> = Vec::new();
        namespaces.push(namespace);
        FindApiKeyTagParams {
            page: match self.page { Some(n) => n, None => 1 },
            per_page: match self.per_page { Some(n) => n, None => 10 },
            tenant_ids: Some(tenants),
            namespaces: Some(namespaces),
            names: self.names,
            created_before: self.created_before,
            created_after: self.created_after,
        }
    }
}

/// Paging passes exactly when the page, if given, is at least 1 and the page size, if
/// given, lies within 1 to 100; a search left unpaged asks for the first page of ten.
pub proof fn lemma_paging_rules(page: Option<u64>, per_page: Option<u64>)
    ensures
        paging_findings(page, per_page).len() == 0 <==> (
            (page is Some ==> page->Some_0 >= 1)
            && (per_page is Some ==> 1 <= per_page->Some_0 <= 100)),
        (page is Some && page->Some_0 == 0) ==> paging_findings(page, per_page)[0] == ("page"@, "range"@),
        page is None ==> page_or_first(page) == 1,
        page is Some ==> page_or_first(page) == page->Some_0,
        per_page is None ==> per_page_or_default(per_page) == 10,
        per_page is Some ==> per_page_or_default(per_page) == per_page->Some_0,
{
}

} // verus!
