//! Errors of the HTTP layer: their codes, the status each one is answered with, and how
//! a service error becomes one.

use vstd::prelude::*;
use crate::errors::{ApiKeyServiceError, service_error_text};
use crate::model::{IntrospectApiKeyResponse, Timestamp};
use crate::tasks::{SetApiKeyLastUsedTask, TaskOperations};

verus! {

/// One rule that a field of a request broke: the field's name and the rule's code
/// (`length`, `range`, ...).
#[derive(Debug, Clone)]
pub struct Violation {
    pub field: String,
    pub code: String,
}

/// The rules that a request or a configuration broke, in the order they were checked.
#[derive(Debug, Clone)]
pub struct ValidationReport {
    pub violations: Vec<Violation>,
}

/// An error as the HTTP layer answers it: a code whose thousands give the status, and a
/// message or the broken validation rules.
#[derive(Debug, Clone)]
pub enum ApiError {
    Generic { code: u32, message: String },
    Validation { code: u32, errors: ValidationReport },
}

/// The code of an error.
pub open spec fn code_of(e: ApiError) -> u32 {
    match e {
        ApiError::Generic { code, .. } => code,
        ApiError::Validation { code, .. } => code,
    }
}

/// Whether `e` is the generic error with `code` and `message`.
pub open spec fn is_generic(e: ApiError, code: u32, message: Seq<char>) -> bool {
    &&& e matches ApiError::Generic { code: c, message: m }
    &&& c == code
    &&& m@ == message
}

/// The HTTP status that answers an error with `code`: its thousands, taken as a 16-bit
/// number, when that is a status (100 to 999), else `fallback`.
pub open spec fn status_for(code: u32, fallback: u16) -> u16 {
    let s = (code / 1000) % 65536;
    if 100 <= s && s <= 999 { s as u16 } else { fallback }
}

/// The status of the response that carries `e`: a generic error falls back to 500, a
/// validation error to 400.
pub open spec fn status_of(e: ApiError) -> u16 {
    match e {
        ApiError::Generic { code, .. } => status_for(code, 500),
        ApiError::Validation { code, .. } => status_for(code, 400),
    }
}

/// The error that answers a service error: the errors that a caller can act on get
/// their own code, the others are unexpected and carry the service's message.
pub open spec fn service_api_error(e: ApiKeyServiceError, r: ApiError) -> bool {
    match e {
        ApiKeyServiceError::KeyNotFound => is_generic(r, 404000, "API key not found"@),
        ApiKeyServiceError::KeyAlreadyExists => is_generic(r, 400000, "API key already exists"@),
        ApiKeyServiceError::KeyExpired => is_generic(r, 403000, "API key expired"@),
        ApiKeyServiceError::InvalidKey => is_generic(r, 400000, "Invalid API key"@),
        ApiKeyServiceError::InsufficientScope => is_generic(r, 403000, "Insufficient scope"@),
        ApiKeyServiceError::NamespaceNotFound => is_generic(r, 404000, "Namespace not found"@),
        ApiKeyServiceError::NamespaceAlreadyExists => is_generic(r, 400000, "Namespace already exists"@),
        ApiKeyServiceError::TagNotFound => is_generic(r, 404000, "Tag not found"@),
        ApiKeyServiceError::TagAlreadyExists => is_generic(r, 400000, "Tag already exists"@),
        _ => is_generic(r, 500000, service_error_text(e)),
    }
}

/// Whether a failed introspection is answered as an invalid key rather than as an error.
pub open spec fn is_key_rejection(e: ApiKeyServiceError) -> bool {
    ||| e is InvalidKey
    ||| e is InsufficientScope
    ||| e is KeyExpired
}

impl ApiError {
    /// A generic error with `code` and `message`.
    pub fn new(code: u32, message: &str) -> (e: Self)
        ensures
            is_generic(e, code, message@),
    {
        ApiError::Generic { code, message: message.to_owned() }
    }

    /// The error's code.
    pub fn code(&self) -> (c: u32)
        ensures
            c == code_of(*self),
    {
        match self {
            ApiError::Generic { code, .. } => *code,
            ApiError::Validation { code, .. } => *code,
        }
    }

    /// Access refused.
    pub fn forbidden(message: &str) -> (e: Self)
        ensures
            is_generic(e, 403000, message@),
    {
        Self::new(403000, message)
    }

    /// A well-formed request that cannot be carried out.
    pub fn unprocessable_entity(message: &str) -> (e: Self)
        ensures
            is_generic(e, 422000, message@),
    {
        Self::new(422000, message)
    }

    /// A request that broke the validation rules in `errors`.
    pub fn validation_error(errors: ValidationReport) -> (e: Self)
        ensures
            e == (ApiError::Validation { code: 422001, errors }),
    {
        ApiError::Validation { code: 422001, errors }
    }

    /// A failure the caller cannot act on.
    pub fn unexpected_error(message: &str) -> (e: Self)
        ensures
            is_generic(e, 500000, message@),
    {
        Self::new(500000, message)
    }

    /// A malformed request.
    pub fn bad_request(message: &str) -> (e: Self)
        ensures
            is_generic(e, 400000, message@),
    {
        Self::new(400000, message)
    }

    /// A request body of a content type the endpoint does not take.
    pub fn invalid_content_type(content_type: &str) -> (e: Self)
        ensures
            is_generic(e, 400001, "Invalid content type: "@ + content_type@),
    {
        let mut message = "Invalid content type: ".to_owned();
        message.append(content_type);
        ApiError::Generic { code: 400001, message }
    }

    /// A request body that could not be read in its format.
    pub fn invalid_data_format(message: &str) -> (e: Self)
        ensures
            is_generic(e, 400002, message@),
    {
        Self::new(400002, message)
    }

    /// A missing resource.
    pub fn not_found(message: &str) -> (e: Self)
        ensures
            is_generic(e, 404000, message@),
    {
        Self::new(404000, message)
    }

    /// An endpoint without an implementation.
    pub fn not_implemented() -> (e: Self)
        ensures
            is_generic(e, 500001, "Not implemented"@),
    {
        Self::new(500001, "Not implemented")
    }

    /// The error that answers a service error.
    pub fn from_service_error(error: ApiKeyServiceError) -> (e: Self)
        ensures
            service_api_error(error, e),
    {
        match error {
            ApiKeyServiceError::KeyNotFound => ApiError::not_found("API key not found"),
            ApiKeyServiceError::KeyAlreadyExists => ApiError::bad_request("API key already exists"),
            ApiKeyServiceError::KeyExpired => ApiError::forbidden("API key expired"),
            ApiKeyServiceError::InvalidKey => ApiError::bad_request("Invalid API key"),
            ApiKeyServiceError::InsufficientScope => ApiError::forbidden("Insufficient scope"),
            ApiKeyServiceError::NamespaceNotFound => ApiError::not_found("Namespace not found"),
            ApiKeyServiceError::NamespaceAlreadyExists => ApiError::bad_request("Namespace already exists"),
            ApiKeyServiceError::TagNotFound => ApiError::not_found("Tag not found"),
            ApiKeyServiceError::TagAlreadyExists => ApiError::bad_request("Tag already exists"),
            _ => {
                let message = error.message();
                ApiError::unexpected_error(message.as_str())
            },
        }
    }

    /// The HTTP status of the response that carries this error.
    pub fn status(&self) -> (s: u16)
        ensures
            s == status_of(*self),
    {
        match self {
            ApiError::Generic { code, .. } => status_code(*code, 500),
            ApiError::Validation { code, .. } => status_code(*code, 400),
        }
    }
}

/// The status that answers an error with `code`, or `fallback`.
fn status_code(code: u32, fallback: u16) -> (s: u16)
    ensures
        s == status_for(code, fallback),
{
    let s: u32 = (code / 1000) % 65536;
    if 100 <= s && s <= 999 { s as u16 } else { fallback }
}

/// What a failed introspection is answered with: a key that is unknown, expired or lacks
/// the scope is reported as invalid, any other failure as an error.
pub fn introspection_failure(error: ApiKeyServiceError) -> (r: Result<IntrospectApiKeyResponse, ApiError>)
    ensures
        is_key_rejection(error) ==> (r matches Ok(resp) && !resp.valid && resp.key is None),
        !is_key_rejection(error) ==> (r matches Err(e) && service_api_error(error, e)),
{
    match error {
        ApiKeyServiceError::InvalidKey
        | ApiKeyServiceError::InsufficientScope
        | ApiKeyServiceError::KeyExpired => Ok(IntrospectApiKeyResponse { valid: false, key: None }),
        _ => Err(ApiError::from_service_error(error)),
    }
}

/// The codes of the rules broken on one field.
#[derive(Debug, Clone)]
pub struct FieldErrors {
    pub field: String,
    pub codes: Vec<String>,
}

/// The body of an error response: a code with a message, or a code with the broken
/// rules grouped by field.
#[derive(Debug, Clone)]
pub enum ErrorResponse {
    Generic { code: u32, message: String },
    Validation { code: u32, fields: Vec<FieldErrors> },
}

/// The fields named by a list of violations, each once, in the order they first occur.
pub open spec fn fields_in_order(v: Seq<Violation>) -> Seq<Seq<char>>
    decreases v.len(),
{
    if v.len() == 0 {
        Seq::empty()
    } else {
        let before = fields_in_order(v.drop_last());
        if before.contains(v.last().field@) { before } else { before.push(v.last().field@) }
    }
}

/// The codes of the violations on field `f`, in order.
pub open spec fn codes_on(v: Seq<Violation>, f: Seq<char>) -> Seq<Seq<char>>
    decreases v.len(),
{
    if v.len() == 0 {
        Seq::empty()
    } else {
        let before = codes_on(v.drop_last(), f);
        if v.last().field@ == f { before.push(v.last().code@) } else { before }
    }
}

/// Each field of a grouped report is named once, and every violation's field is named.
pub proof fn lemma_fields_in_order(v: Seq<Violation>)
    ensures
        fields_in_order(v).no_duplicates(),
        forall|k: int| 0 <= k < v.len() ==> fields_in_order(v).contains(#[trigger] v[k].field@),
    decreases v.len(),
{
    if v.len() > 0 {
        let rest = v.drop_last();
        lemma_fields_in_order(rest);
        let before = fields_in_order(rest);
        assert forall|k: int| 0 <= k < v.len() implies fields_in_order(v).contains(#[trigger] v[k].field@) by {
            if k < v.len() - 1 {
                assert(rest[k] == v[k]);
                assert(before.contains(rest[k].field@));
                if !before.contains(v.last().field@) {
                    let j = choose|j: int| 0 <= j < before.len() && before[j] == rest[k].field@;
                    assert(fields_in_order(v)[j] == before[j]);
                }
            } else {
                if !before.contains(v.last().field@) {
                    assert(fields_in_order(v)[before.len() as int] == v.last().field@);
                }
            }
        }
    }
}

/// `g` groups the violations `v` by field.
pub open spec fn groups_violations(g: Seq<FieldErrors>, v: Seq<Violation>) -> bool {
    &&& g.len() == fields_in_order(v).len()
    &&& forall|j: int| 0 <= j < g.len() ==> {
        &&& (#[trigger] g[j]).field@ == fields_in_order(v)[j]
        &&& g[j].codes@.map_values(|c: String| c@) == codes_on(v, fields_in_order(v)[j])
    }
}

/// Whether a list of names holds `name`.
fn holds_name(names: &Vec<String>, name: &String) -> (r: bool)
    ensures
        r == names@.map_values(|n: String| n@).contains(name@),
{
    let ghost views = names@.map_values(|n: String| n@);
    let mut i: usize = 0;
    while i < names.len()
        invariant
            i <= names@.len(),
            views == names@.map_values(|n: String| n@),
            forall|k: int| 0 <= k < i ==> views[k] != name@,
        decreases names@.len() - i,
    {
        if names[i] == *name {
            assert(views[i as int] == name@);
            return true;
        }
        i = i + 1;
    }
    proof {
        if views.contains(name@) {
            let k = choose|k: int| 0 <= k < views.len() && views[k] == name@;
            assert(views[k] != name@);
        }
    }
    false
}

/// The fields named by violations, each once, in order of first occurrence.
fn field_names(v: &Vec<Violation>) -> (names: Vec<String>)
    ensures
        names@.map_values(|n: String| n@) == fields_in_order(v@),
{
    let mut names: Vec<String> = Vec::new();
    let mut i: usize = 0;
    while i < v.len()
        invariant
            i <= v@.len(),
            names@.map_values(|n: String| n@) == fields_in_order(v@.take(i as int)),
        decreases v@.len() - i,
    {
        assert(v@.take(i + 1).drop_last() =~= v@.take(i as int));
        assert(v@.take(i + 1).last() == v@[i as int]);
        let field = &v[i].field;
        if !holds_name(&names, field) {
            let ghost before = names@;
            names.push(field.clone());
            assert(names@.map_values(|n: String| n@) =~= before.map_values(|n: String| n@).push(field@));
        }
        i = i + 1;
    }
    assert(v@.take(v@.len() as int) =~= v@);
    names
}

/// The codes of the violations on `field`, in order.
fn field_codes(v: &Vec<Violation>, field: &String) -> (codes: Vec<String>)
    ensures
        codes@.map_values(|c: String| c@) == codes_on(v@, field@),
{
    let mut codes: Vec<String> = Vec::new();
    let mut i: usize = 0;
    while i < v.len()
        invariant
            i <= v@.len(),
            codes@.map_values(|c: String| c@) == codes_on(v@.take(i as int), field@),
        decreases v@.len() - i,
    {
        assert(v@.take(i + 1).drop_last() =~= v@.take(i as int));
        assert(v@.take(i + 1).last() == v@[i as int]);
        if v[i].field == *field {
            let ghost before = codes@;
            codes.push(v[i].code.clone());
            assert(codes@.map_values(|c: String| c@) =~= before.map_values(|c: String| c@).push(v@[i as int].code@));
        }
        i = i + 1;
    }
    assert(v@.take(v@.len() as int) =~= v@);
    codes
}

/// The violations grouped by field, fields in order of first occurrence.
pub fn group_violations(v: &Vec<Violation>) -> (g: Vec<FieldErrors>)
    ensures
        groups_violations(g@, v@),
{
    let names = field_names(v);
    let ghost order = fields_in_order(v@);
    let mut g: Vec<FieldErrors> = Vec::new();
    let mut j: usize = 0;
    while j < names.len()
        invariant
            j <= names@.len(),
            names@.map_values(|n: String| n@) == order,
            order == fields_in_order(v@),
            g@.len() == j,
            forall|k: int| 0 <= k < j ==> {
                &&& (#[trigger] g@[k]).field@ == order[k]
                &&& g@[k].codes@.map_values(|c: String| c@) == codes_on(v@, order[k])
            },
        decreases names@.len() - j,
    {
        let field = names[j].clone();
        assert(field@ == order[j as int]);
        let codes = field_codes(v, &field);
        g.push(FieldErrors { field, codes });
        j = j + 1;
    }
    g
}

impl ErrorResponse {
    /// The body that carries an error.
    pub fn from_error(error: ApiError) -> (r: Self)
        ensures
            (match error {
                ApiError::Generic { code, message } => r matches ErrorResponse::Generic { code: c, message: m }
                    && c == code && m@ == message@,
                ApiError::Validation { code, errors } => r matches ErrorResponse::Validation { code: c, fields }
                    && c == code && groups_violations(fields@, errors.violations@),
            }),
    {
        match error {
            ApiError::Generic { code, message } => ErrorResponse::Generic { code, message },
            ApiError::Validation { code, errors } => {
                let fields = group_violations(&errors.violations);
                ErrorResponse::Validation { code, fields }
            },
        }
    }

    /// The HTTP status the body is sent with.
    pub fn status(&self) -> (s: u16)
        ensures
            (match *self {
                ErrorResponse::Generic { code, .. } => s == status_for(code, 500),
                ErrorResponse::Validation { code, .. } => s == status_for(code, 400),
            }),
    {
        match self {
            ErrorResponse::Generic { code, .. } => status_code(*code, 500),
            ErrorResponse::Validation { code, .. } => status_code(*code, 400),
        }
    }
}

/// What the introspection endpoint answers for an introspection's result, and the job
/// it queues: a valid key is answered as it is and its use is recorded, at `at`, in
/// `tenant_id`, by exactly one last-used job; a key that is unknown, expired or lacks the
/// scope is answered as invalid; any other failure is answered as an error; nothing is
/// queued but for a valid key.
pub fn introspection_reply(result: Result<IntrospectApiKeyResponse, ApiKeyServiceError>, tenant_id: String, at: Timestamp)
    -> (r: (Result<IntrospectApiKeyResponse, ApiError>, Option<TaskOperations>))
    ensures
        r.1 is Some <==> (result matches Ok(x) && x.valid && x.key is Some),
        match r.1 {
            Some(TaskOperations::SetApiKeyLastUsed(t)) => match result {
                Ok(x) => match x.key {
                    Some(k) => t.id == k.id && t.tenant_id == tenant_id && t.last_used_at == at,
                    None => false,
                },
                Err(_) => false,
            },
            None => true,
        },
        match result {
            Ok(x) => r.0 == Ok::<IntrospectApiKeyResponse, ApiError>(x),
            Err(e) => if is_key_rejection(e) {
                r.0 matches Ok(v) && !v.valid && v.key is None
            } else {
                r.0 matches Err(a) && service_api_error(e, a)
            },
        },
{
    match result {
        Ok(x) => {
            let job = if x.valid {
                match &x.key {
                    Some(k) => Some(TaskOperations::SetApiKeyLastUsed(SetApiKeyLastUsedTask {
                        id: k.id,
                        last_used_at: at,
                        tenant_id,
                    })),
                    None => None,
                }
            } else {
                None
            };
            (Ok(x), job)
        },
        Err(e) => (introspection_failure(e), None),
    }
}

/// The status of every error that answers a service error is the thousands of its code,
/// one of 400, 403, 404 and 500.
pub proof fn lemma_service_error_status(error: ApiKeyServiceError, e: ApiError)
    requires
        service_api_error(error, e),
    ensures
        status_of(e) == code_of(e) / 1000,
        status_of(e) == 400 || status_of(e) == 403 || status_of(e) == 404 || status_of(e) == 500,
{
}

/// A generic error whose code has a status in its thousands is answered with that status.
pub proof fn lemma_status_is_thousands(e: ApiError)
    requires
        100000 <= code_of(e) < 1000000,
    ensures
        status_of(e) == code_of(e) / 1000,
{
}

/// What each service error is answered with over HTTP: a missing key, namespace or tag is
/// 404; an expired key or a missing scope is 403; an invalid key or a name already taken
/// is 400; a storage failure or anything unexpected is 500.
pub proof fn lemma_service_error_statuses(error: ApiKeyServiceError, e: ApiError)
    requires
        service_api_error(error, e),
    ensures
        (error is KeyNotFound || error is NamespaceNotFound || error is TagNotFound) ==> status_of(e) == 404,
        (error is KeyExpired || error is InsufficientScope) ==> status_of(e) == 403,
        (error is InvalidKey || error is KeyAlreadyExists || error is NamespaceAlreadyExists
            || error is TagAlreadyExists) ==> status_of(e) == 400,
        (error is DatabaseError || error is Unexpected) ==> status_of(e) == 500,
{
}

/// An introspection that fails because of the key itself (unknown or invalid, expired, or
/// lacking the scope) is answered as an invalid key; every other failure is answered as
/// an error.
pub proof fn lemma_key_rejections(error: ApiKeyServiceError)
    ensures
        is_key_rejection(error) <==> (error is InvalidKey || error is KeyExpired || error is InsufficientScope),
{
}

} // verus!
