//! Introspection: deciding whether a presented token is a valid key for a request.

use vstd::prelude::*;
use crate::crypto::{hash_sha512, constant_cmp, hex_lower, sha512};
use crate::errors::ApiKeyServiceError;
use crate::key::{ApiKeyParts, ApiKeyPartsView, opt_view, parse_token, token_sliceable, token_blob, token_has_key_shape, parsed_view};
use crate::model::{ApiKeyModel, GetApiKeyResponse, IntrospectApiKeyResponse, Timestamp, before, get_key_response};
use crate::params::FindApiKeyParams;
use crate::protocol::{RepoCall, RepoReply, Step, failed_step, is_protocol_error, protocol_error, fail};
use crate::text::{utf8, split_char, split_on, views, lemma_split_nonempty};
use crate::words::{covers_words, words_covered, word_at, has_word};

verus! {

/// The views of a list of optional tags.
pub open spec fn tag_list_view(v: Seq<Option<String>>) -> Seq<Option<Seq<char>>> {
    v.map_values(|o: Option<String>| opt_view(o))
}

/// The tags that an introspection asks for admit a key's tag: any tag when none are
/// given, only "no tag" for an empty list, else one of the listed (where `None` stands
/// for "no tag").
pub open spec fn tag_admitted(tags: Option<Seq<Option<Seq<char>>>>, tag: Option<Seq<char>>) -> bool {
    match tags {
        None => true,
        Some(list) => if list.len() == 0 {
            tag is None
        } else {
            list.contains(tag)
        },
    }
}

/// The optional tag list as views.
pub open spec fn tags_view(tags: Option<Vec<Option<String>>>) -> Option<Seq<Option<Seq<char>>>> {
    match tags {
        Some(v) => Some(tag_list_view(v@)),
        None => None,
    }
}

/// Whether two optional texts are equal.
fn opt_text_eq(a: &Option<String>, b: &Option<String>) -> (r: bool)
    ensures
        r == (opt_view(*a) == opt_view(*b)),
{
    match (a, b) {
        (Some(x), Some(y)) => *x == *y,
        (None, None) => true,
        _ => false,
    }
}

/// Whether the tags asked for admit the key's tag.
pub fn tags_admit(tags: &Option<Vec<Option<String>>>, tag: &Option<String>) -> (r: bool)
    ensures
        r == tag_admitted(tags_view(*tags), opt_view(*tag)),
{
    match tags {
        None => true,
        Some(list) => {
            if list.len() == 0 {
                tag.is_none()
            } else {
                let n = list.len();
                let ghost lv = tag_list_view(list@);
                assert(tags_view(*tags) == Some(lv));
                for i in 0..n
                    invariant
                        n == list@.len(),
                        lv == tag_list_view(list@),
                        tags_view(*tags) == Some(lv),
                        lv.len() == n,
                        n > 0,
                        forall|k: int| 0 <= k < i ==> lv[k] != opt_view(*tag),
                {
                    if opt_text_eq(&list[i], tag) {
                        proof {
                            assert(lv.len() == n);
                            assert(lv[i as int] == opt_view(*tag));
                            assert(lv.contains(opt_view(*tag)));
                            assert(tags_view(*tags) == Some(lv));
                            assert(tag_admitted(Some(lv), opt_view(*tag)));
                        }
                        return true;
                    }
                }
                proof {
                    if lv.contains(opt_view(*tag)) {
                        let k = choose|k: int| 0 <= k < lv.len() && lv[k] == opt_view(*tag);
                        assert(false);
                    }
                }
                false
            }
        },
    }
}

/// The scope text of a stored key: its scope, or the empty text.
pub open spec fn scope_text(s: Option<String>) -> Seq<char> {
    match s {
        Some(t) => t@,
        None => Seq::<char>::empty(),
    }
}

/// Why a stored key does not validate the presented long key at time `now`, if it does
/// not: a long key whose SHA-512 hash differs from the stored one, or a revoked key, is
/// invalid; a key whose expiry lies before `now` has expired; a key that lacks one of the
/// required scope words has insufficient scope.
pub open spec fn key_rejection(long_key: Seq<char>, m: ApiKeyModel, scope: Option<Seq<char>>, now: Timestamp) -> Option<ApiKeyServiceError> {
    if hex_lower(sha512(utf8(long_key))) != m.long_key_hash@ {
        Some(ApiKeyServiceError::InvalidKey)
    } else if m.revoked {
        Some(ApiKeyServiceError::InvalidKey)
    } else if m.expires_at is Some && before(m.expires_at->0, now) {
        Some(ApiKeyServiceError::KeyExpired)
    } else if scope is Some && !words_covered(scope_text(m.scope), scope->0) {
        Some(ApiKeyServiceError::InsufficientScope)
    } else {
        None
    }
}

/// The outcome of judging a stored key: the rejection, or a valid answer showing the key.
pub open spec fn judgement(long_key: Seq<char>, m: ApiKeyModel, scope: Option<Seq<char>>, now: Timestamp) -> Result<IntrospectApiKeyResponse, ApiKeyServiceError> {
    match key_rejection(long_key, m, scope, now) {
        Some(e) => Err(e),
        None => Ok(IntrospectApiKeyResponse { valid: true, key: Some(get_key_response(m)) }),
    }
}

/// Introspection rejects a key that is revoked or whose long key does not hash to the
/// stored hash as invalid, and rejects an unrevoked, matching key whose expiry lies
/// before `now` as expired; a valid answer always shows the stored key.
pub proof fn lemma_rejections(long_key: Seq<char>, m: ApiKeyModel, scope: Option<Seq<char>>, now: Timestamp)
    ensures
        m.revoked ==> judgement(long_key, m, scope, now) == Err::<IntrospectApiKeyResponse, ApiKeyServiceError>(ApiKeyServiceError::InvalidKey),
        hex_lower(sha512(utf8(long_key))) != m.long_key_hash@
            ==> judgement(long_key, m, scope, now) == Err::<IntrospectApiKeyResponse, ApiKeyServiceError>(ApiKeyServiceError::InvalidKey),
        hex_lower(sha512(utf8(long_key))) == m.long_key_hash@ && !m.revoked
            && (m.expires_at matches Some(e) && before(e, now))
            ==> judgement(long_key, m, scope, now) == Err::<IntrospectApiKeyResponse, ApiKeyServiceError>(ApiKeyServiceError::KeyExpired),
        judgement(long_key, m, scope, now) matches Ok(r) ==> r.valid && r.key == Some(get_key_response(m)),
{
}

/// A text with no words: no word of it lies anywhere, so it covers no requirement that
/// has a word.
pub proof fn lemma_no_words_cover_nothing(required: Seq<char>, a: int, b: int)
    requires
        word_at(required, a, b),
    ensures
        !words_covered(Seq::<char>::empty(), required),
{
    assert(!has_word(Seq::<char>::empty(), required.subrange(a, b)));
}

/// A key is accepted only when it checks out on every count: the presented long key
/// hashes to the stored hash, the key is not revoked, it has not expired at `now`, and
/// every required scope word is one of the key's scope words (a key without a scope has
/// none). The answer is then valid and shows the stored key, field for field.
pub proof fn lemma_accepted_key_checks_out(long_key: Seq<char>, m: ApiKeyModel, scope: Option<Seq<char>>, now: Timestamp)
    requires
        judgement(long_key, m, scope, now) is Ok,
    ensures
        hex_lower(sha512(utf8(long_key))) == m.long_key_hash@,
        !m.revoked,
        m.expires_at matches Some(e) ==> !before(e, now),
        scope matches Some(w) ==> words_covered(scope_text(m.scope), w),
        scope is Some && m.scope is None ==> forall|a: int, b: int| !word_at(scope->0, a, b),
        judgement(long_key, m, scope, now)->Ok_0.valid,
        judgement(long_key, m, scope, now)->Ok_0.key matches Some(k)
            && k.id == m.id && k.tenant_id == m.tenant_id && k.namespace == m.namespace
            && k.tag == m.tag && k.short_key == m.short_key && k.owner == m.owner
            && k.scope == m.scope && k.revoked == m.revoked && k.revoked_at == m.revoked_at
            && k.expires_at == m.expires_at && k.last_used_at == m.last_used_at
            && k.created_at == m.created_at && k.metadata == m.metadata,
{
    if let Some(w) = scope {
        if m.scope is None {
            assert forall|a: int, b: int| !word_at(w, a, b) by {
                if word_at(w, a, b) {
                    lemma_no_words_cover_nothing(w, a, b);
                }
            }
        }
    }
}

/// A key whose long key matches, unrevoked and unexpired at `now`, is accepted exactly when
/// it carries every required scope word; when one is missing (for a key without a scope,
/// any word at all) the answer is `InsufficientScope`.
pub proof fn lemma_scope_decides(long_key: Seq<char>, m: ApiKeyModel, scope: Option<Seq<char>>, now: Timestamp)
    requires
        hex_lower(sha512(utf8(long_key))) == m.long_key_hash@,
        !m.revoked,
        m.expires_at matches Some(e) ==> !before(e, now),
    ensures
        (scope matches Some(w) && !words_covered(scope_text(m.scope), w))
            ==> judgement(long_key, m, scope, now) == Err::<IntrospectApiKeyResponse, ApiKeyServiceError>(ApiKeyServiceError::InsufficientScope),
        (scope is Some && m.scope is None && exists|a: int, b: int| word_at(scope->0, a, b))
            ==> judgement(long_key, m, scope, now) == Err::<IntrospectApiKeyResponse, ApiKeyServiceError>(ApiKeyServiceError::InsufficientScope),
        (scope matches Some(w) ==> words_covered(scope_text(m.scope), w))
            ==> judgement(long_key, m, scope, now) is Ok,
{
    if let Some(w) = scope {
        if m.scope is None && exists|a: int, b: int| word_at(w, a, b) {
            let (a, b) = choose|a: int, b: int| word_at(w, a, b);
            lemma_no_words_cover_nothing(w, a, b);
            assert(scope_text(m.scope) == Seq::<char>::empty());
        }
    }
}

/// Judges the stored key found for a token against the token's long key, the required
/// scope and the time `now`.
pub fn judge_api_key(long_key: &str, model: ApiKeyModel, scope: &Option<String>, now: Timestamp) -> (r: Result<IntrospectApiKeyResponse, ApiKeyServiceError>)
    ensures
        r == judgement(long_key@, model, opt_view(*scope), now),
{
    let hashed = hash_sha512(long_key);
    if !constant_cmp(hashed.as_str(), model.long_key_hash.as_str()) {
        return Err(ApiKeyServiceError::InvalidKey);
    }
    if model.revoked {
        return Err(ApiKeyServiceError::InvalidKey);
    }
    match &model.expires_at {
        Some(exp) => {
            if exp.is_before(&now) {
                return Err(ApiKeyServiceError::KeyExpired);
            }
        },
        None => {},
    }
    match scope {
        Some(required) => {
            let available: &str = match &model.scope {
                Some(s) => s.as_str(),
                None => "",
            };
            proof {
                reveal_strlit("");
                assert(available@ == scope_text(model.scope));
            }
            if !covers_words(available, required.as_str()) {
                return Err(ApiKeyServiceError::InsufficientScope);
            }
        },
        None => {},
    }
    Ok(IntrospectApiKeyResponse { valid: true, key: Some(GetApiKeyResponse::from_model(model)) })
}

/// `q` is the search for the key a token names: first page of one item, in the tenant,
/// namespace and short key of the token, and in its tag when it has one.
pub open spec fn is_introspect_query(q: FindApiKeyParams, p: ApiKeyPartsView, tenant_id: Seq<char>) -> bool {
    &&& q.page == 1
    &&& q.per_page == 1
    &&& q.include_ids is None
    &&& q.exclude_ids is None
    &&& q.tenant_ids matches Some(v) && views(v@) == seq![tenant_id]
    &&& q.namespaces matches Some(v) && views(v@) == seq![p.namespace]
    &&& q.short_keys matches Some(v) && views(v@) == seq![p.short_key]
    &&& match p.tag {
        Some(t) => q.tags matches Some(v) && views(v@) == seq![t],
        None => q.tags is None,
    }
    &&& q.owners is None
    &&& q.revoked is None
    &&& q.metadata is None
    &&& q.created_before is None
    &&& q.created_after is None
}

/// A list of one string.
fn single(s: String) -> (v: Vec<String>)
    ensures
        views(v@) == seq![s@],
{
    let mut v: Vec<String> = Vec::new();
    v.push(s);
    assert(views(v@) =~= seq![s@]);
    v
}

/// The search for the key that token parts name, in a tenant.
pub fn introspect_query(parts: &ApiKeyParts, tenant_id: String) -> (q: FindApiKeyParams)
    ensures
        is_introspect_query(q, parts@, tenant_id@),
{
    let q = FindApiKeyParams::new(1, 1)
        .with_tenant_ids(single(tenant_id))
        .with_namespaces(single(parts.namespace.clone()))
        .with_short_keys(single(parts.short_key.clone()));
    match &parts.tag {
        Some(t) => q.with_tags(single(t.clone())),
        None => q,
    }
}

/// The stages of an introspection.
#[derive(Debug)]
pub enum IntrospectStage {
    Start,
    AwaitKeys(ApiKeyParts),
    Done,
}

/// The introspection of a token: whether it is a valid key of the tenant, carrying the
/// required scope words and one of the accepted tags.
#[derive(Debug)]
pub struct IntrospectApiKey {
    pub token: String,
    pub scope: Option<String>,
    pub tags: Option<Vec<Option<String>>>,
    pub tenant_id: String,
    pub stage: IntrospectStage,
}

/// The step an introspection takes, and the stage it moves to.
pub open spec fn introspect_step(
    old: IntrospectApiKey,
    reply: Option<RepoReply>,
    new: IntrospectApiKey,
    step: Step<IntrospectApiKeyResponse>,
) -> bool {
    &&& new.token == old.token
    &&& new.scope == old.scope
    &&& new.tags == old.tags
    &&& new.tenant_id == old.tenant_id
    &&& match old.stage {
        IntrospectStage::Start => match reply {
            None => match parse_token(old.token@) {
                Err(e) => step == Step::<IntrospectApiKeyResponse>::Finish(Err(e)) && new.stage is Done,
                Ok(p) => if !tag_admitted(tags_view(old.tags), p.tag) {
                    step == Step::<IntrospectApiKeyResponse>::Finish(Err(ApiKeyServiceError::InvalidKey))
                        && new.stage is Done
                } else {
                    &&& step matches Step::Call(RepoCall::FindApiKeys(q)) && is_introspect_query(q, p, old.tenant_id@)
                    &&& new.stage matches IntrospectStage::AwaitKeys(pp) && pp@ == p
                },
            },
            Some(_) => is_protocol_error(step) && new.stage is Done,
        },
        IntrospectStage::AwaitKeys(p) => new.stage is Done && match reply {
            Some(RepoReply::ApiKeyPage(page)) => if page.items@.len() == 0
                || opt_view(page.items@[0].tag) != p@.tag
                || !tag_admitted(tags_view(old.tags), opt_view(page.items@[0].tag)) {
                step == Step::<IntrospectApiKeyResponse>::Finish(Err(ApiKeyServiceError::InvalidKey))
            } else {
                exists|now: Timestamp| step == Step::Finish(judgement(p.long_key@, page.items@[0], opt_view(old.scope), now))
            },
            Some(RepoReply::Failed(e)) => step == failed_step::<IntrospectApiKeyResponse>(e),
            _ => is_protocol_error(step),
        },
        IntrospectStage::Done => is_protocol_error(step) && new.stage is Done,
    }
}

/// A successful step judged the key the store found for the token: the stored key
/// carries the token's tag, and that tag passes the introspection's tag filter.
pub open spec fn accepted_stored_key(old: IntrospectApiKey, reply: Option<RepoReply>) -> bool {
    &&& old.stage matches IntrospectStage::AwaitKeys(p)
    &&& reply matches Some(RepoReply::ApiKeyPage(page))
    &&& page.items@.len() > 0
    &&& opt_view(page.items@[0].tag) == p@.tag
    &&& tag_admitted(tags_view(old.tags), opt_view(page.items@[0].tag))
}

impl IntrospectApiKey {
    /// An introspection of `token` in the tenant, requiring the scope words in `scope`
    /// and, when `tags` is given, one of those tags (`None` in the list admits a key
    /// without a tag; an empty list admits only keys without a tag).
    pub fn new(token: String, scope: Option<String>, tags: Option<Vec<Option<String>>>, tenant_id: String) -> (op: Self)
        ensures
            op.token == token,
            op.scope == scope,
            op.tags == tags,
            op.tenant_id == tenant_id,
            op.stage is Start,
    {
        IntrospectApiKey { token, scope, tags, tenant_id, stage: IntrospectStage::Start }
    }

    /// Starts (`None`) or resumes the introspection with the store's reply.
    pub fn step(&mut self, reply: Option<RepoReply>) -> (s: Step<IntrospectApiKeyResponse>)
        ensures
            introspect_step(*old(self), reply, *final(self), s),
            s matches Step::Finish(Ok(_)) ==> accepted_stored_key(*old(self), reply),
    {
        let mut stage = IntrospectStage::Done;
        std::mem::swap(&mut stage, &mut self.stage);
        match stage {
            IntrospectStage::Start => {
                match reply {
                    None => {
                        let parsed = ApiKeyParts::from_token(self.token.as_str());
                        match parsed {
                            Err(e) => Step::Finish(Err(e)),
                            Ok(parts) => {
                                if !tags_admit(&self.tags, &parts.tag) {
                                    return Step::Finish(Err(ApiKeyServiceError::InvalidKey));
                                }
                                let q = introspect_query(&parts, self.tenant_id.clone());
                                self.stage = IntrospectStage::AwaitKeys(parts);
                                Step::Call(RepoCall::FindApiKeys(q))
                            },
                        }
                    },
                    Some(_) => protocol_error(),
                }
            },
            IntrospectStage::AwaitKeys(parts) => {
                match reply {
                    Some(RepoReply::ApiKeyPage(page)) => {
                        let mut items = page.items;
                        if items.len() == 0 {
                            return Step::Finish(Err(ApiKeyServiceError::InvalidKey));
                        }
                        let first = items.remove(0);
                        if !opt_text_eq(&first.tag, &parts.tag) || !tags_admit(&self.tags, &first.tag) {
                            return Step::Finish(Err(ApiKeyServiceError::InvalidKey));
                        }
                        let now = Timestamp::now();
                        let r = judge_api_key(parts.long_key.as_str(), first, &self.scope, now);
                        Step::Finish(r)
                    },
                    Some(RepoReply::Failed(e)) => fail(e),
                    _ => protocol_error(),
                }
            },
            IntrospectStage::Done => protocol_error(),
        }
    }
}

/// The first key of the page that a store reply carries.
pub open spec fn first_found(reply: Option<RepoReply>) -> ApiKeyModel {
    reply->Some_0->ApiKeyPage_0.items@[0]
}

/// Starting an introspection either refuses the token as `InvalidKey` (malformed, a bad
/// checksum, or a tag the filter does not admit) without asking the store anything, or
/// makes one search: the first page of one key, in the introspection's tenant.
pub proof fn lemma_introspection_start(old: IntrospectApiKey, new: IntrospectApiKey, step: Step<IntrospectApiKeyResponse>)
    requires
        old.stage is Start,
        introspect_step(old, None, new, step),
    ensures
        step is Finish ==> step == Step::<IntrospectApiKeyResponse>::Finish(Err(ApiKeyServiceError::InvalidKey)),
        step is Call ==> (step matches Step::Call(RepoCall::FindApiKeys(q)) && q.page == 1 && q.per_page == 1
            && (q.tenant_ids matches Some(v) && v@.len() == 1 && v@[0]@ == old.tenant_id@)),
        parse_token(old.token@) is Err ==> step == Step::<IntrospectApiKeyResponse>::Finish(Err(ApiKeyServiceError::InvalidKey)),
{
    if let Step::Call(RepoCall::FindApiKeys(q)) = step {
        let v = q.tenant_ids->Some_0;
        assert(views(v@).len() == 1);
        assert(views(v@)[0] == v@[0]@);
    }
}

/// An introspection accepts a token only for the key the store found for it, and only
/// when that key carries the token's own tag, the tag filter admits that tag (an empty
/// filter admits only untagged keys, else the tag, or `None` for no tag, is listed), the
/// token's long key hashes to the stored hash, the key is not revoked, and it carries
/// every required scope word; the answer then shows that key.
pub proof fn lemma_introspection_accepts_only_matching_key(
    old: IntrospectApiKey,
    reply: Option<RepoReply>,
    new: IntrospectApiKey,
    step: Step<IntrospectApiKeyResponse>,
)
    requires
        old.stage is AwaitKeys,
        introspect_step(old, reply, new, step),
        step matches Step::Finish(Ok(_)),
    ensures
        reply matches Some(RepoReply::ApiKeyPage(page)) && page.items@.len() > 0,
        opt_view(first_found(reply).tag) == old.stage->AwaitKeys_0@.tag,
        old.tags is Some && old.tags->Some_0@.len() == 0 ==> first_found(reply).tag is None,
        old.tags is Some && old.tags->Some_0@.len() > 0 ==> exists|i: int| 0 <= i < old.tags->Some_0@.len()
            && #[trigger] opt_view(old.tags->Some_0@[i]) == opt_view(first_found(reply).tag),
        hex_lower(sha512(utf8(old.stage->AwaitKeys_0@.long_key))) == first_found(reply).long_key_hash@,
        !first_found(reply).revoked,
        old.scope is Some ==> words_covered(scope_text(first_found(reply).scope), old.scope->Some_0@),
        step->Finish_0->Ok_0.valid,
        step->Finish_0->Ok_0.key matches Some(k) && k.id == first_found(reply).id
            && k.tenant_id == first_found(reply).tenant_id && k.short_key == first_found(reply).short_key,
{
    let p = old.stage->AwaitKeys_0;
    let m = first_found(reply);
    let now = choose|now: Timestamp| step == Step::Finish(judgement(p.long_key@, m, opt_view(old.scope), now));
    lemma_accepted_key_checks_out(p.long_key@, m, opt_view(old.scope), now);
    if old.tags is Some && old.tags->Some_0@.len() > 0 {
        let list = old.tags->Some_0@;
        let lv = tag_list_view(list);
        assert(lv.contains(opt_view(m.tag)));
        let i = choose|i: int| 0 <= i < lv.len() && lv[i] == opt_view(m.tag);
        assert(opt_view(list[i]) == opt_view(m.tag));
    }
}

} // verus!
