//! The conditions a key search puts on stored keys: which keys match search parameters,
//! as a list of conditions the store applies one by one.

use vstd::prelude::*;
use crate::metadata::Metadata;
use crate::model::{ApiKeyModel, Timestamp, before};
use crate::params::FindApiKeyParams;
use crate::text::views;
use crate::introspect::is_introspect_query;
use crate::key::ApiKeyPartsView;

verus! {

/// One condition on a stored key.
#[derive(Debug)]
pub enum KeyFilter {
    /// Its id is one of these.
    IdIn(Vec<u128>),
    /// Its id is none of these.
    IdNotIn(Vec<u128>),
    /// Its tenant is one of these.
    TenantIn(Vec<String>),
    /// Its namespace is one of these.
    NamespaceIn(Vec<String>),
    /// It has a tag, one of these.
    TagIn(Vec<String>),
    /// Its short key is one of these.
    ShortKeyIn(Vec<String>),
    /// Its owner is one of these.
    OwnerIn(Vec<String>),
    /// It is (or is not) revoked.
    Revoked(bool),
    /// It was created strictly before this instant.
    CreatedBefore(Timestamp),
    /// It was created strictly after this instant.
    CreatedAfter(Timestamp),
    /// Its metadata holds each of these entries.
    MetadataHas(Metadata),
}

/// Whether metadata `held` holds every entry of `wanted`.
pub open spec fn holds_entries(held: Map<Seq<char>, Seq<char>>, wanted: Map<Seq<char>, Seq<char>>) -> bool {
    forall|x: Seq<char>| #[trigger] wanted.dom().contains(x) ==> held.dom().contains(x) && held[x] == wanted[x]
}

/// Whether a stored key meets a condition.
pub open spec fn filter_holds(f: KeyFilter, k: ApiKeyModel) -> bool {
    match f {
        KeyFilter::IdIn(v) => v@.contains(k.id),
        KeyFilter::IdNotIn(v) => !v@.contains(k.id),
        KeyFilter::TenantIn(v) => views(v@).contains(k.tenant_id@),
        KeyFilter::NamespaceIn(v) => views(v@).contains(k.namespace@),
        KeyFilter::TagIn(v) => k.tag matches Some(t) && views(v@).contains(t@),
        KeyFilter::ShortKeyIn(v) => views(v@).contains(k.short_key@),
        KeyFilter::OwnerIn(v) => views(v@).contains(k.owner@),
        KeyFilter::Revoked(b) => k.revoked == b,
        KeyFilter::CreatedBefore(t) => before(k.created_at, t),
        KeyFilter::CreatedAfter(t) => before(t, k.created_at),
        KeyFilter::MetadataHas(m) => holds_entries(k.metadata@, m@),
    }
}

/// Whether a stored key meets every condition of a list.
pub open spec fn filters_hold(f: Seq<KeyFilter>, k: ApiKeyModel) -> bool {
    forall|i: int| 0 <= i < f.len() ==> filter_holds(#[trigger] f[i], k)
}

/// Whether an optional condition holds; no condition always holds.
pub open spec fn maybe_holds(f: Option<KeyFilter>, k: ApiKeyModel) -> bool {
    match f {
        Some(g) => filter_holds(g, k),
        None => true,
    }
}

/// A list of ids, when given and not empty, names the key's id.
pub open spec fn ids_named(v: Option<Vec<u128>>, id: u128) -> bool {
    match v {
        Some(ids) => ids@.len() > 0 ==> ids@.contains(id),
        None => true,
    }
}

/// A list of ids, when given and not empty, leaves out the key's id.
pub open spec fn ids_left_out(v: Option<Vec<u128>>, id: u128) -> bool {
    match v {
        Some(ids) => ids@.len() > 0 ==> !ids@.contains(id),
        None => true,
    }
}

/// A list of texts, when given and not empty, names `x`.
pub open spec fn text_named(v: Option<Vec<String>>, x: Seq<char>) -> bool {
    match v {
        Some(l) => l@.len() > 0 ==> views(l@).contains(x),
        None => true,
    }
}

/// A list of tags, when given and not empty, names the key's tag (an untagged key is
/// named by none).
pub open spec fn tag_named(v: Option<Vec<String>>, tag: Option<String>) -> bool {
    match v {
        Some(l) => l@.len() > 0 ==> (tag matches Some(t) && views(l@).contains(t@)),
        None => true,
    }
}

/// Whether a stored key matches search parameters: each list that is given and not
/// empty names the key's field (keeps it out, for the excluded ids), each flag and
/// bound that is given holds, and the key's metadata holds each entry asked for.
pub open spec fn params_match(p: FindApiKeyParams, k: ApiKeyModel) -> bool {
    &&& ids_named(p.include_ids, k.id)
    &&& ids_left_out(p.exclude_ids, k.id)
    &&& text_named(p.tenant_ids, k.tenant_id@)
    &&& text_named(p.namespaces, k.namespace@)
    &&& tag_named(p.tags, k.tag)
    &&& text_named(p.short_keys, k.short_key@)
    &&& text_named(p.owners, k.owner@)
    &&& match p.revoked { Some(b) => k.revoked == b, None => true }
    &&& match p.created_before { Some(t) => before(k.created_at, t), None => true }
    &&& match p.created_after { Some(t) => before(t, k.created_at), None => true }
    &&& match p.metadata { Some(m) => holds_entries(k.metadata@, m@), None => true }
}

/// Adds a condition, when there is one.
fn push_maybe(f: &mut Vec<KeyFilter>, x: Option<KeyFilter>)
    ensures
        forall|k: ApiKeyModel| #[trigger] filters_hold(final(f)@, k) <==> (filters_hold(old(f)@, k) && maybe_holds(x, k)),
{
    let ghost before_push = f@;
    match x {
        Some(g) => {
            f.push(g);
            assert forall|k: ApiKeyModel| #[trigger] filters_hold(f@, k) <==> (filters_hold(before_push, k) && filter_holds(g, k)) by {
                if filters_hold(before_push, k) && filter_holds(g, k) {
                    assert forall|i: int| 0 <= i < f@.len() implies filter_holds(#[trigger] f@[i], k) by {
                        if i < before_push.len() {
                            assert(f@[i] == before_push[i]);
                        }
                    }
                }
                if filters_hold(f@, k) {
                    assert(filter_holds(f@[before_push.len() as int], k));
                    assert forall|i: int| 0 <= i < before_push.len() implies filter_holds(#[trigger] before_push[i], k) by {
                        assert(f@[i] == before_push[i]);
                    }
                }
            }
        },
        None => {},
    }
}

/// A condition on ids that a list asks for, when it is given and not empty.
fn ids_filter(v: Option<Vec<u128>>, wanted: bool) -> (x: Option<KeyFilter>)
    ensures
        forall|k: ApiKeyModel| #[trigger] maybe_holds(x, k) <==> (if wanted { ids_named(v, k.id) } else { ids_left_out(v, k.id) }),
{
    match v {
        Some(ids) => if ids.len() == 0 {
            None
        } else if wanted {
            Some(KeyFilter::IdIn(ids))
        } else {
            Some(KeyFilter::IdNotIn(ids))
        },
        None => None,
    }
}

/// Which text field a list of texts is a condition on.
pub enum TextField {
    Tenant,
    Namespace,
    ShortKey,
    Owner,
}

/// The field's text in a stored key.
pub open spec fn field_text(which: TextField, k: ApiKeyModel) -> Seq<char> {
    match which {
        TextField::Tenant => k.tenant_id@,
        TextField::Namespace => k.namespace@,
        TextField::ShortKey => k.short_key@,
        TextField::Owner => k.owner@,
    }
}

/// A condition on a text field that a list asks for, when it is given and not empty.
fn text_filter(v: Option<Vec<String>>, which: TextField) -> (x: Option<KeyFilter>)
    ensures
        forall|k: ApiKeyModel| #[trigger] maybe_holds(x, k) <==> text_named(v, field_text(which, k)),
{
    match v {
        Some(l) => if l.len() == 0 {
            None
        } else {
            match which {
                TextField::Tenant => Some(KeyFilter::TenantIn(l)),
                TextField::Namespace => Some(KeyFilter::NamespaceIn(l)),
                TextField::ShortKey => Some(KeyFilter::ShortKeyIn(l)),
                TextField::Owner => Some(KeyFilter::OwnerIn(l)),
            }
        },
        None => None,
    }
}

/// The conditions that search parameters put on stored keys: a key meets every one
/// exactly when it matches the parameters.
pub fn key_filters(p: FindApiKeyParams) -> (f: Vec<KeyFilter>)
    ensures
        forall|k: ApiKeyModel| #[trigger] filters_hold(f@, k) <==> params_match(p, k),
{
    let FindApiKeyParams {
        page: _, per_page: _, include_ids, exclude_ids, tenant_ids, namespaces, tags,
        short_keys, owners, revoked, metadata, created_before, created_after,
    } = p;
    let mut f: Vec<KeyFilter> = Vec::new();
    assert forall|k: ApiKeyModel| #[trigger] filters_hold(f@, k) by {}
    push_maybe(&mut f, ids_filter(include_ids, true));
    push_maybe(&mut f, ids_filter(exclude_ids, false));
    push_maybe(&mut f, text_filter(tenant_ids, TextField::Tenant));
    push_maybe(&mut f, text_filter(namespaces, TextField::Namespace));
    let tag_filter = match tags {
        Some(l) => if l.len() == 0 { None } else { Some(KeyFilter::TagIn(l)) },
        None => None,
    };
    push_maybe(&mut f, tag_filter);
    push_maybe(&mut f, text_filter(short_keys, TextField::ShortKey));
    push_maybe(&mut f, text_filter(owners, TextField::Owner));
    push_maybe(&mut f, match revoked { Some(b) => Some(KeyFilter::Revoked(b)), None => None });
    push_maybe(&mut f, match created_before { Some(t) => Some(KeyFilter::CreatedBefore(t)), None => None });
    push_maybe(&mut f, match created_after { Some(t) => Some(KeyFilter::CreatedAfter(t)), None => None });
    push_maybe(&mut f, match metadata { Some(m) => Some(KeyFilter::MetadataHas(m)), None => None });
    f
}

/// The search that introspection makes finds exactly the keys of its own tenant with the
/// token's namespace and short key (and, for a tagged token, its tag): a key of another
/// tenant never matches it.
pub proof fn lemma_introspect_search_scope(q: FindApiKeyParams, p: ApiKeyPartsView, tenant_id: Seq<char>, k: ApiKeyModel)
    requires
        is_introspect_query(q, p, tenant_id),
    ensures
        params_match(q, k) <==> {
            &&& k.tenant_id@ == tenant_id
            &&& k.namespace@ == p.namespace
            &&& k.short_key@ == p.short_key
            &&& p.tag matches Some(t) ==> (k.tag matches Some(kt) && kt@ == t)
        },
{
    let tv = q.tenant_ids->Some_0;
    let nv = q.namespaces->Some_0;
    let sv = q.short_keys->Some_0;
    assert(views(tv@).len() == tv@.len());
    assert(views(nv@).len() == nv@.len());
    assert(views(sv@).len() == sv@.len());
    assert(views(tv@).contains(k.tenant_id@) <==> k.tenant_id@ == tenant_id) by {
        if views(tv@).contains(k.tenant_id@) {
            let i = choose|i: int| 0 <= i < views(tv@).len() && views(tv@)[i] == k.tenant_id@;
            assert(i == 0);
        } else {
            assert(views(tv@)[0] == tenant_id);
        }
    }
    assert(views(nv@).contains(k.namespace@) <==> k.namespace@ == p.namespace) by {
        if views(nv@).contains(k.namespace@) {
            let i = choose|i: int| 0 <= i < views(nv@).len() && views(nv@)[i] == k.namespace@;
            assert(i == 0);
        } else {
            assert(views(nv@)[0] == p.namespace);
        }
    }
    assert(views(sv@).contains(k.short_key@) <==> k.short_key@ == p.short_key) by {
        if views(sv@).contains(k.short_key@) {
            let i = choose|i: int| 0 <= i < views(sv@).len() && views(sv@)[i] == k.short_key@;
            assert(i == 0);
        } else {
            assert(views(sv@)[0] == p.short_key);
        }
    }
    match p.tag {
        Some(t) => {
            let gv = q.tags->Some_0;
            assert(views(gv@).len() == gv@.len());
            match k.tag {
                Some(kt) => {
                    assert(views(gv@).contains(kt@) <==> kt@ == t) by {
                        if views(gv@).contains(kt@) {
                            let i = choose|i: int| 0 <= i < views(gv@).len() && views(gv@)[i] == kt@;
                            assert(i == 0);
                        } else {
                            assert(views(gv@)[0] == t);
                        }
                    }
                },
                None => {},
            }
        },
        None => {},
    }
}

/// A text is among a list's views exactly when some item of the list shows it.
proof fn lemma_listed(l: Seq<String>, x: Seq<char>)
    ensures
        views(l).contains(x) <==> exists|i: int| 0 <= i < l.len() && #[trigger] l[i]@ == x,
{
    if views(l).contains(x) {
        let i = choose|i: int| 0 <= i < views(l).len() && views(l)[i] == x;
        assert(l[i]@ == x);
    }
    if exists|i: int| 0 <= i < l.len() && #[trigger] l[i]@ == x {
        let i = choose|i: int| 0 <= i < l.len() && #[trigger] l[i]@ == x;
        assert(views(l)[i] == x);
    }
}

/// What a key search selects: a key matches the parameters exactly when it is in one of
/// the tenants, namespaces, short keys and owners listed (where a list is given and not
/// empty), carries one of the listed tags (an untagged key is never selected by a tag
/// list), has a listed id and no excluded one, has the revocation state asked for, was
/// created strictly within the bounds given, and holds every metadata entry asked for.
pub proof fn lemma_search_selects(p: FindApiKeyParams, k: ApiKeyModel)
    ensures
        params_match(p, k) <==> {
            &&& (p.tenant_ids is Some && p.tenant_ids->Some_0@.len() > 0 ==> exists|i: int|
                0 <= i < p.tenant_ids->Some_0@.len() && #[trigger] p.tenant_ids->Some_0@[i]@ == k.tenant_id@)
            &&& (p.namespaces is Some && p.namespaces->Some_0@.len() > 0 ==> exists|i: int|
                0 <= i < p.namespaces->Some_0@.len() && #[trigger] p.namespaces->Some_0@[i]@ == k.namespace@)
            &&& (p.short_keys is Some && p.short_keys->Some_0@.len() > 0 ==> exists|i: int|
                0 <= i < p.short_keys->Some_0@.len() && #[trigger] p.short_keys->Some_0@[i]@ == k.short_key@)
            &&& (p.owners is Some && p.owners->Some_0@.len() > 0 ==> exists|i: int|
                0 <= i < p.owners->Some_0@.len() && #[trigger] p.owners->Some_0@[i]@ == k.owner@)
            &&& (p.tags is Some && p.tags->Some_0@.len() > 0 ==> k.tag is Some && exists|i: int|
                0 <= i < p.tags->Some_0@.len() && #[trigger] p.tags->Some_0@[i]@ == k.tag->Some_0@)
            &&& (p.include_ids is Some && p.include_ids->Some_0@.len() > 0 ==> p.include_ids->Some_0@.contains(k.id))
            &&& (p.exclude_ids is Some && p.exclude_ids->Some_0@.len() > 0 ==> !p.exclude_ids->Some_0@.contains(k.id))
            &&& (p.revoked is Some ==> k.revoked == p.revoked->Some_0)
            &&& (p.created_before is Some ==> before(k.created_at, p.created_before->Some_0))
            &&& (p.created_after is Some ==> before(p.created_after->Some_0, k.created_at))
            &&& (p.metadata is Some ==> forall|x: Seq<char>| #[trigger] p.metadata->Some_0@.dom().contains(x)
                ==> k.metadata@.dom().contains(x) && k.metadata@[x] == p.metadata->Some_0@[x])
        },
{
    if p.tenant_ids is Some { lemma_listed(p.tenant_ids->Some_0@, k.tenant_id@); }
    if p.namespaces is Some { lemma_listed(p.namespaces->Some_0@, k.namespace@); }
    if p.short_keys is Some { lemma_listed(p.short_keys->Some_0@, k.short_key@); }
    if p.owners is Some { lemma_listed(p.owners->Some_0@, k.owner@); }
    if p.tags is Some && k.tag is Some { lemma_listed(p.tags->Some_0@, k.tag->Some_0@); }
}

} // verus!
