//! The values the HTTP layer reads from a request and writes into a response: the
//! tenant and key headers, the request bodies with their validation rules, and the
//! paginated response.

use vstd::prelude::*;
use vstd::string::*;
use crate::api::{Violation, ValidationReport};
use crate::model::{Page, Timestamp, CreateApiKeyPayload, before};
use crate::metadata::Metadata;

verus! {

/// The tenant named by a request's `X-Tenant-ID` header.
#[derive(Debug, Clone)]
pub struct TenantIdHeader(pub String);

impl TenantIdHeader {
    pub fn new(tenant_id: String) -> (h: Self)
        ensures
            h.0@ == tenant_id@,
    {
        TenantIdHeader(tenant_id)
    }

    pub fn as_inner(&self) -> (s: &str)
        ensures
            s@ == self.0@,
    {
        self.0.as_str()
    }

    pub fn into_inner(self) -> (s: String)
        ensures
            s@ == self.0@,
    {
        self.0
    }
}

/// The key carried by a request's `Authorization` header.
#[derive(Debug, Clone)]
pub struct ApiKeyHeader(pub String);

impl ApiKeyHeader {
    pub fn new(api_key: String) -> (h: Self)
        ensures
            h.0@ == api_key@,
    {
        ApiKeyHeader(api_key)
    }

    pub fn as_inner(&self) -> (s: &str)
        ensures
            s@ == self.0@,
    {
        self.0.as_str()
    }

    pub fn into_inner(self) -> (s: String)
        ensures
            s@ == self.0@,
    {
        self.0
    }
}

/// The tenant a request acts for: its header's, or the service's default.
pub fn request_tenant(header: Option<TenantIdHeader>, default_tenant_id: &String) -> (t: String)
    ensures
        t@ == (match header {
            Some(h) => h.0@,
            None => default_tenant_id@,
        }),
{
    match header {
        Some(h) => h.into_inner(),
        None => default_tenant_id.clone(),
    }
}

/// The (field, code) pairs of a list of violations.
pub open spec fn violation_pairs(v: Seq<Violation>) -> Seq<(Seq<char>, Seq<char>)> {
    v.map_values(|x: Violation| (x.field@, x.code@))
}

/// The pair a broken rule adds, if it is broken.
pub open spec fn broken(ok: bool, field: Seq<char>, code: Seq<char>) -> Seq<(Seq<char>, Seq<char>)> {
    if ok { Seq::empty() } else { seq![(field, code)] }
}

/// The outcome of a validation that found `found`.
pub open spec fn validation_outcome(r: Result<(), ValidationReport>, found: Seq<(Seq<char>, Seq<char>)>) -> bool {
    &&& (found.len() == 0 <==> r is Ok)
    &&& (r matches Err(rep) ==> violation_pairs(rep.violations@) == found)
}

/// Whether a count lies within `min..=max`.
pub open spec fn within(n: int, min: int, max: int) -> bool {
    min <= n && n <= max
}

/// Records that rule `code` on `field` is broken, unless `ok`.
pub fn check_rule(found: &mut Vec<Violation>, ok: bool, field: &str, code: &str)
    ensures
        violation_pairs(final(found)@) == violation_pairs(old(found)@) + broken(ok, field@, code@),
{
    let ghost before = found@;
    if !ok {
        found.push(Violation { field: field.to_owned(), code: code.to_owned() });
        assert(violation_pairs(found@) =~= violation_pairs(before) + broken(ok, field@, code@));
    } else {
        assert(violation_pairs(found@) =~= violation_pairs(before) + broken(ok, field@, code@));
    }
}

/// Passes when nothing was found, else reports what was.
pub fn conclude(found: Vec<Violation>) -> (r: Result<(), ValidationReport>)
    ensures
        validation_outcome(r, violation_pairs(found@)),
{
    if found.len() == 0 {
        Ok(())
    } else {
        Err(ValidationReport { violations: found })
    }
}

/// The body that creates a namespace.
#[derive(Debug, Clone)]
pub struct CreateNamespaceRequestDTO {
    pub name: String,
}

impl CreateNamespaceRequestDTO {
    /// The name has one to six characters.
    pub fn validate(&self) -> (r: Result<(), ValidationReport>)
        ensures
            validation_outcome(r, broken(within(self.name@.len() as int, 1, 6), "name"@, "length"@)),
    {
        let mut found: Vec<Violation> = Vec::new();
        let n = self.name.as_str().unicode_len();
        check_rule(&mut found, 1 <= n && n <= 6, "name", "length");
        assert(violation_pairs(found@) =~= broken(within(self.name@.len() as int, 1, 6), "name"@, "length"@));
        conclude(found)
    }
}

/// The body that creates a tag.
#[derive(Debug, Clone)]
pub struct CreateTagRequestDTO {
    pub name: String,
}

impl CreateTagRequestDTO {
    /// The name has one to six characters.
    pub fn validate(&self) -> (r: Result<(), ValidationReport>)
        ensures
            validation_outcome(r, broken(within(self.name@.len() as int, 1, 6), "name"@, "length"@)),
    {
        let mut found: Vec<Violation> = Vec::new();
        let n = self.name.as_str().unicode_len();
        check_rule(&mut found, 1 <= n && n <= 6, "name", "length");
        assert(violation_pairs(found@) =~= broken(within(self.name@.len() as int, 1, 6), "name"@, "length"@));
        conclude(found)
    }
}

/// The body of an introspection.
#[derive(Debug, Clone)]
pub struct IntrospectApiKeyRequestDTO {
    pub token: String,
    pub scope: Option<String>,
    pub tags: Option<Vec<Option<String>>>,
}

/// What the rules on an introspection body find.
pub open spec fn introspect_request_findings(d: IntrospectApiKeyRequestDTO) -> Seq<(Seq<char>, Seq<char>)> {
    broken(d.token@.len() <= 255, "token"@, "length"@)
        + broken(match d.scope { Some(s) => s@.len() <= 255, None => true }, "scope"@, "length"@)
        + broken(match d.tags { Some(t) => t@.len() <= 1, None => true }, "tags"@, "length"@)
}

impl IntrospectApiKeyRequestDTO {
    /// An empty body: no token, no scope, no tag filter.
    pub fn default_request() -> (d: Self)
        ensures
            d.token@.len() == 0,
            d.scope is None,
            d.tags is None,
    {
        IntrospectApiKeyRequestDTO { token: String::new(), scope: None, tags: None }
    }

    /// The token and the scope have at most 255 characters, and at most one tag is asked for.
    pub fn validate(&self) -> (r: Result<(), ValidationReport>)
        ensures
            validation_outcome(r, introspect_request_findings(*self)),
    {
        let mut found: Vec<Violation> = Vec::new();
        let n = self.token.as_str().unicode_len();
        check_rule(&mut found, n <= 255, "token", "length");
        let scope_ok = match &self.scope {
            Some(s) => s.as_str().unicode_len() <= 255,
            None => true,
        };
        check_rule(&mut found, scope_ok, "scope", "length");
        let tags_ok = match &self.tags {
            Some(t) => t.len() <= 1,
            None => true,
        };
        check_rule(&mut found, tags_ok, "tags", "length");
        assert(violation_pairs(found@) =~= introspect_request_findings(*self));
        conclude(found)
    }
}

/// The body that creates an API key.
#[derive(Debug)]
pub struct CreateApiKeyRequestDTO {
    pub owner: String,
    pub scope: Option<String>,
    pub tag: Option<String>,
    pub expires_at: Option<Timestamp>,
    pub metadata: Option<Metadata>,
}

/// Whether an expiry lies in the future of `now`.
pub open spec fn in_future(t: Option<Timestamp>, now: Timestamp) -> bool {
    match t {
        Some(d) => before(now, d),
        None => true,
    }
}

/// What the rules on a key creation body find at time `now`.
pub open spec fn create_key_request_findings(d: CreateApiKeyRequestDTO, now: Timestamp) -> Seq<(Seq<char>, Seq<char>)> {
    broken(d.owner@.len() <= 255, "owner"@, "length"@)
        + broken(match d.scope { Some(s) => s@.len() <= 255, None => true }, "scope"@, "length"@)
        + broken(match d.tag { Some(t) => t@.len() <= 6, None => true }, "tag"@, "length"@)
        + broken(in_future(d.expires_at, now), "expires_at"@, "date_in_past"@)
}

impl CreateApiKeyRequestDTO {
    /// The owner and the scope have at most 255 characters, the tag at most six, and the
    /// expiry, when given, lies after `now`.
    pub fn validate_at(&self, now: Timestamp) -> (r: Result<(), ValidationReport>)
        ensures
            validation_outcome(r, create_key_request_findings(*self, now)),
    {
        let mut found: Vec<Violation> = Vec::new();
        let n = self.owner.as_str().unicode_len();
        check_rule(&mut found, n <= 255, "owner", "length");
        let scope_ok = match &self.scope {
            Some(s) => s.as_str().unicode_len() <= 255,
            None => true,
        };
        check_rule(&mut found, scope_ok, "scope", "length");
        let tag_ok = match &self.tag {
            Some(t) => t.as_str().unicode_len() <= 6,
            None => true,
        };
        check_rule(&mut found, tag_ok, "tag", "length");
        let future = match &self.expires_at {
            Some(d) => now.is_before(d),
            None => true,
        };
        check_rule(&mut found, future, "expires_at", "date_in_past");
        assert(violation_pairs(found@) =~= create_key_request_findings(*self, now));
        conclude(found)
    }

    /// The rules checked against the current time.
    pub fn validate(&self) -> (r: Result<(), ValidationReport>)
        ensures
            exists|now: Timestamp| validation_outcome(r, #[trigger] create_key_request_findings(*self, now)),
    {
        let now = Timestamp::now();
        self.validate_at(now)
    }

    /// What the service creates the key from: absent metadata is empty.
    pub fn to_payload(self) -> (p: CreateApiKeyPayload)
        ensures
            p.owner == self.owner,
            p.scope == self.scope,
            p.tag == self.tag,
            p.expires_at == self.expires_at,
            self.metadata is Some ==> p.metadata == self.metadata->0,
            self.metadata is None ==> p.metadata@ == Map::<Seq<char>, Seq<char>>::empty() && p.metadata.wf(),
    {
        let metadata = match self.metadata {
            Some(m) => m,
            None => Metadata::new(),
        };
        CreateApiKeyPayload {
            owner: self.owner,
            scope: self.scope,
            tag: self.tag,
            expires_at: self.expires_at,
            metadata,
        }
    }
}

/// The body that sets when a key expires.
#[derive(Debug)]
pub struct SetApiKeyExpirationRequestDTO {
    pub expires_at: Timestamp,
}

impl SetApiKeyExpirationRequestDTO {
    /// The expiry lies after `now`.
    pub fn validate_at(&self, now: Timestamp) -> (r: Result<(), ValidationReport>)
        ensures
            validation_outcome(r, broken(before(now, self.expires_at), "expires_at"@, "date_in_past"@)),
    {
        let mut found: Vec<Violation> = Vec::new();
        check_rule(&mut found, now.is_before(&self.expires_at), "expires_at", "date_in_past");
        assert(violation_pairs(found@) =~= broken(before(now, self.expires_at), "expires_at"@, "date_in_past"@));
        conclude(found)
    }

    /// The rule checked against the current time.
    pub fn validate(&self) -> (r: Result<(), ValidationReport>)
        ensures
            exists|now: Timestamp| validation_outcome(r, #[trigger] broken(before(now, self.expires_at), "expires_at"@, "date_in_past"@)),
    {
        let now = Timestamp::now();
        self.validate_at(now)
    }
}

/// The body that replaces a key's metadata.
#[derive(Debug, Clone)]
pub struct SetApiKeyMetadataRequestDTO {
    pub metadata: Vec<(String, String)>,
}

/// A page of results as the HTTP layer answers it.
#[derive(Debug)]
pub struct PaginatedResponseDTO<T> {
    pub items: Vec<T>,
    pub count: u64,
    pub next_page: Option<u64>,
    pub previous_page: Option<u64>,
}

/// Assembles a paginated response.
pub struct PaginatedResponseBuilder<T> {
    items: Vec<T>,
    count: u64,
    next_page: Option<u64>,
    previous_page: Option<u64>,
}

impl<T> PaginatedResponseDTO<T> {
    /// A builder for a response that carries `items`.
    pub fn builder(items: Vec<T>) -> (b: PaginatedResponseBuilder<T>)
        ensures
            b.items() == items@,
            b.count() == 0,
            b.next_page() is None,
            b.previous_page() is None,
    {
        PaginatedResponseBuilder::new(items)
    }

    /// The response that carries a page of results as it stands.
    pub fn from_page(page: Page<T>) -> (d: Self)
        ensures
            d.items@ == page.items@,
            d.count == page.count,
            d.next_page == page.next_page,
            d.previous_page == page.previous_page,
    {
        PaginatedResponseDTO::builder(page.items)
            .with_count(page.count)
            .with_next_page(page.next_page)
            .with_previous_page(page.previous_page)
            .build()
    }
}

impl<T> PaginatedResponseBuilder<T> {
    pub closed spec fn items(&self) -> Seq<T> {
        self.items@
    }

    pub closed spec fn count(&self) -> u64 {
        self.count
    }

    pub closed spec fn next_page(&self) -> Option<u64> {
        self.next_page
    }

    pub closed spec fn previous_page(&self) -> Option<u64> {
        self.previous_page
    }

    /// The builder with its count set.
    pub closed spec fn count_set(self, count: u64) -> Self {
        PaginatedResponseBuilder { count, ..self }
    }

    /// The builder with its next page set.
    pub closed spec fn next_page_set(self, next_page: Option<u64>) -> Self {
        PaginatedResponseBuilder { next_page, ..self }
    }

    /// The builder with its previous page set.
    pub closed spec fn previous_page_set(self, previous_page: Option<u64>) -> Self {
        PaginatedResponseBuilder { previous_page, ..self }
    }

    /// The setters may be called in any order: each pair gives the same builder either
    /// way round.
    pub proof fn lemma_setters_commute(self, count: u64, next_page: Option<u64>, previous_page: Option<u64>)
        ensures
            self.count_set(count).next_page_set(next_page) == self.next_page_set(next_page).count_set(count),
            self.count_set(count).previous_page_set(previous_page) == self.previous_page_set(previous_page).count_set(count),
            self.next_page_set(next_page).previous_page_set(previous_page)
                == self.previous_page_set(previous_page).next_page_set(next_page),
    {
    }

    /// A builder for `items`, with a count of 0 and no neighbouring pages.
    pub fn new(items: Vec<T>) -> (b: Self)
        ensures
            b.items() == items@,
            b.count() == 0,
            b.next_page() is None,
            b.previous_page() is None,
    {
        PaginatedResponseBuilder { items, count: 0, next_page: None, previous_page: None }
    }

    pub fn with_count(self, count: u64) -> (b: Self)
        ensures
            b == self.count_set(count),
            b.items() == self.items(),
            b.count() == count,
            b.next_page() == self.next_page(),
            b.previous_page() == self.previous_page(),
    {
        PaginatedResponseBuilder { count, ..self }
    }

    pub fn with_next_page(self, next_page: Option<u64>) -> (b: Self)
        ensures
            b == self.next_page_set(next_page),
            b.items() == self.items(),
            b.count() == self.count(),
            b.next_page() == next_page,
            b.previous_page() == self.previous_page(),
    {
        PaginatedResponseBuilder { next_page, ..self }
    }

    pub fn with_previous_page(self, previous_page: Option<u64>) -> (b: Self)
        ensures
            b == self.previous_page_set(previous_page),
            b.items() == self.items(),
            b.count() == self.count(),
            b.next_page() == self.next_page(),
            b.previous_page() == previous_page,
    {
        PaginatedResponseBuilder { previous_page, ..self }
    }

    /// The response with what was set.
    pub fn build(self) -> (d: PaginatedResponseDTO<T>)
        ensures
            d.items@ == self.items(),
            d.count == self.count(),
            d.next_page == self.next_page(),
            d.previous_page == self.previous_page(),
    {
        PaginatedResponseDTO {
            items: self.items,
            count: self.count,
            next_page: self.next_page,
            previous_page: self.previous_page,
        }
    }
}

/// A key creation body passes exactly when its owner and its scope have at most 255
/// characters, its tag at most six, and its expiry, when given, lies after `now`; each
/// rule it breaks is reported once, on its own field, in the order owner, scope, tag,
/// expiry.
pub proof fn lemma_create_key_request_rules(d: CreateApiKeyRequestDTO, now: Timestamp)
    ensures
        create_key_request_findings(d, now).len() == 0 <==> {
            &&& d.owner@.len() <= 255
            &&& (d.scope is Some ==> d.scope->Some_0@.len() <= 255)
            &&& (d.tag is Some ==> d.tag->Some_0@.len() <= 6)
            &&& (d.expires_at is Some ==> before(now, d.expires_at->Some_0))
        },
        d.owner@.len() > 255 ==> create_key_request_findings(d, now)[0] == ("owner"@, "length"@),
        (d.expires_at is Some && !before(now, d.expires_at->Some_0))
            ==> create_key_request_findings(d, now).last() == ("expires_at"@, "date_in_past"@),
        (d.tag is Some && d.tag->Some_0@.len() > 6) ==> create_key_request_findings(d, now).contains(("tag"@, "length"@)),
        (d.scope is Some && d.scope->Some_0@.len() > 255) ==> create_key_request_findings(d, now).contains(("scope"@, "length"@)),
        create_key_request_findings(d, now).len() <= 4,
{
    let a = broken(d.owner@.len() <= 255, "owner"@, "length"@);
    let b = broken(match d.scope { Some(s) => s@.len() <= 255, None => true }, "scope"@, "length"@);
    let c = broken(match d.tag { Some(t) => t@.len() <= 6, None => true }, "tag"@, "length"@);
    let e = broken(in_future(d.expires_at, now), "expires_at"@, "date_in_past"@);
    let f = create_key_request_findings(d, now);
    assert(f == a + b + c + e);
    if d.tag is Some && d.tag->Some_0@.len() > 6 {
        assert(f[(a.len() + b.len()) as int] == ("tag"@, "length"@));
    }
    if d.scope is Some && d.scope->Some_0@.len() > 255 {
        assert(f[a.len() as int] == ("scope"@, "length"@));
    }
}

/// An introspection body passes exactly when its token and its scope have at most 255
/// characters and it asks for at most one tag; each rule it breaks is reported on its own
/// field.
pub proof fn lemma_introspect_request_rules(d: IntrospectApiKeyRequestDTO)
    ensures
        introspect_request_findings(d).len() == 0 <==> {
            &&& d.token@.len() <= 255
            &&& (d.scope is Some ==> d.scope->Some_0@.len() <= 255)
            &&& (d.tags is Some ==> d.tags->Some_0@.len() <= 1)
        },
        d.token@.len() > 255 ==> introspect_request_findings(d)[0] == ("token"@, "length"@),
        (d.tags is Some && d.tags->Some_0@.len() > 1) ==> introspect_request_findings(d).last() == ("tags"@, "length"@),
        (d.scope is Some && d.scope->Some_0@.len() > 255) ==> introspect_request_findings(d).contains(("scope"@, "length"@)),
{
    let a = broken(d.token@.len() <= 255, "token"@, "length"@);
    let b = broken(match d.scope { Some(s) => s@.len() <= 255, None => true }, "scope"@, "length"@);
    let c = broken(match d.tags { Some(t) => t@.len() <= 1, None => true }, "tags"@, "length"@);
    let f = introspect_request_findings(d);
    assert(f == a + b + c);
    if d.scope is Some && d.scope->Some_0@.len() > 255 {
        assert(f[a.len() as int] == ("scope"@, "length"@));
    }
}

/// A validation passes exactly when it found nothing, and a failing one reports exactly
/// what it found, in order.
pub proof fn lemma_validation_reports_findings(r: Result<(), ValidationReport>, found: Seq<(Seq<char>, Seq<char>)>)
    requires
        validation_outcome(r, found),
    ensures
        r is Ok <==> found.len() == 0,
        r is Err ==> violation_pairs(r->Err_0.violations@) == found,
        r is Err ==> r->Err_0.violations@.len() == found.len(),
{
    if let Err(rep) = r {
        assert(violation_pairs(rep.violations@).len() == rep.violations@.len());
    }
}

} // verus!
