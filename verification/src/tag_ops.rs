//! The tag operations of the service.

use vstd::prelude::*;
use crate::errors::ApiKeyServiceError;
use crate::key_ops::LookupStage;
use crate::namespace_ops::DeleteStage;
use crate::model::{
    CreateTagResponse, GetTagResponse, NewTag, Page, TagModel, Timestamp, create_tag_response,
    get_tag_response,
};
use crate::params::FindApiKeyTagParams;
use crate::protocol::{RepoCall, RepoReply, Step, failed_step, is_protocol_error, protocol_error, fail};

verus! {

/// The stages of creating a tag.
#[derive(Debug)]
pub enum CreateTagStage {
    Start,
    AwaitExisting,
    AwaitNamespace,
    AwaitInsert,
    Done,
}

/// Creating a tag in an existing namespace of a tenant.
#[derive(Debug)]
pub struct CreateTag {
    pub name: String,
    pub namespace: String,
    pub tenant_id: String,
    pub stage: CreateTagStage,
}

/// The step that creating a tag takes, and the stage it moves to.
pub open spec fn create_tag_step(old: CreateTag, reply: Option<RepoReply>, new: CreateTag, step: Step<CreateTagResponse>) -> bool {
    &&& new.name == old.name
    &&& new.namespace == old.namespace
    &&& new.tenant_id == old.tenant_id
    &&& match old.stage {
        CreateTagStage::Start => match reply {
            None => step == Step::<CreateTagResponse>::Call(RepoCall::GetTag { name: old.name, namespace: old.namespace, tenant_id: old.tenant_id })
                && new.stage is AwaitExisting,
            Some(_) => is_protocol_error(step) && new.stage is Done,
        },
        CreateTagStage::AwaitExisting => match reply {
            Some(RepoReply::Tag(Some(_))) => step == Step::<CreateTagResponse>::Finish(Err(ApiKeyServiceError::TagAlreadyExists))
                && new.stage is Done,
            Some(RepoReply::Tag(None)) => step == Step::<CreateTagResponse>::Call(RepoCall::GetNamespace { name: old.namespace, tenant_id: old.tenant_id })
                && new.stage is AwaitNamespace,
            Some(RepoReply::Failed(e)) => step == failed_step::<CreateTagResponse>(e) && new.stage is Done,
            _ => is_protocol_error(step) && new.stage is Done,
        },
        CreateTagStage::AwaitNamespace => match reply {
            Some(RepoReply::Namespace(None)) => step == Step::<CreateTagResponse>::Finish(Err(ApiKeyServiceError::NamespaceNotFound))
                && new.stage is Done,
            Some(RepoReply::Namespace(Some(_))) => {
                &&& step matches Step::Call(RepoCall::InsertTag(t))
                &&& t.tenant_id == old.tenant_id
                &&& t.namespace == old.namespace
                &&& t.name == old.name
                &&& new.stage is AwaitInsert
            },
            Some(RepoReply::Failed(e)) => step == failed_step::<CreateTagResponse>(e) && new.stage is Done,
            _ => is_protocol_error(step) && new.stage is Done,
        },
        CreateTagStage::AwaitInsert => new.stage is Done && match reply {
            Some(RepoReply::TagStored(m)) => step == Step::<CreateTagResponse>::Finish(Ok(create_tag_response(m))),
            Some(RepoReply::Failed(e)) => step == failed_step::<CreateTagResponse>(e),
            _ => is_protocol_error(step),
        },
        CreateTagStage::Done => is_protocol_error(step) && new.stage is Done,
    }
}

impl CreateTag {
    /// Creating tag `name` in namespace `namespace` of the tenant.
    pub fn new(name: String, namespace: String, tenant_id: String) -> (op: Self)
        ensures
            op.name == name,
            op.namespace == namespace,
            op.tenant_id == tenant_id,
            op.stage is Start,
    {
        CreateTag { name, namespace, tenant_id, stage: CreateTagStage::Start }
    }

    /// Starts (`None`) or resumes the creation with the store's reply.
    pub fn step(&mut self, reply: Option<RepoReply>) -> (s: Step<CreateTagResponse>)
        ensures
            create_tag_step(*old(self), reply, *final(self), s),
    {
        let mut stage = CreateTagStage::Done;
        std::mem::swap(&mut stage, &mut self.stage);
        match stage {
            CreateTagStage::Start => match reply {
                None => {
                    self.stage = CreateTagStage::AwaitExisting;
                    Step::Call(RepoCall::GetTag {
                        name: self.name.clone(),
                        namespace: self.namespace.clone(),
                        tenant_id: self.tenant_id.clone(),
                    })
                },
                Some(_) => protocol_error(),
            },
            CreateTagStage::AwaitExisting => match reply {
                Some(RepoReply::Tag(Some(_))) => Step::Finish(Err(ApiKeyServiceError::TagAlreadyExists)),
                Some(RepoReply::Tag(None)) => {
                    self.stage = CreateTagStage::AwaitNamespace;
                    Step::Call(RepoCall::GetNamespace { name: self.namespace.clone(), tenant_id: self.tenant_id.clone() })
                },
                Some(RepoReply::Failed(e)) => fail(e),
                _ => protocol_error(),
            },
            CreateTagStage::AwaitNamespace => match reply {
                Some(RepoReply::Namespace(None)) => Step::Finish(Err(ApiKeyServiceError::NamespaceNotFound)),
                Some(RepoReply::Namespace(Some(_))) => {
                    self.stage = CreateTagStage::AwaitInsert;
                    Step::Call(RepoCall::InsertTag(NewTag {
                        tenant_id: self.tenant_id.clone(),
                        namespace: self.namespace.clone(),
                        name: self.name.clone(),
                        created_at: Timestamp::now(),
                    }))
                },
                Some(RepoReply::Failed(e)) => fail(e),
                _ => protocol_error(),
            },
            CreateTagStage::AwaitInsert => match reply {
                Some(RepoReply::TagStored(m)) => Step::Finish(Ok(CreateTagResponse::from_model(m))),
                Some(RepoReply::Failed(e)) => fail(e),
                _ => protocol_error(),
            },
            CreateTagStage::Done => protocol_error(),
        }
    }
}

/// Fetching a tag of a tenant.
#[derive(Debug)]
pub struct GetTag {
    pub name: String,
    pub namespace: String,
    pub tenant_id: String,
    pub stage: LookupStage,
}

/// The step that fetching a tag takes, and the stage it moves to.
pub open spec fn get_tag_step(old: GetTag, reply: Option<RepoReply>, new: GetTag, step: Step<GetTagResponse>) -> bool {
    &&& new.name == old.name
    &&& new.namespace == old.namespace
    &&& new.tenant_id == old.tenant_id
    &&& match old.stage {
        LookupStage::Start => match reply {
            None => step == Step::<GetTagResponse>::Call(RepoCall::GetTag { name: old.name, namespace: old.namespace, tenant_id: old.tenant_id })
                && new.stage is Await,
            Some(_) => is_protocol_error(step) && new.stage is Done,
        },
        LookupStage::Await => new.stage is Done && match reply {
            Some(RepoReply::Tag(None)) => step == Step::<GetTagResponse>::Finish(Err(ApiKeyServiceError::TagNotFound)),
            Some(RepoReply::Tag(Some(m))) => step == Step::<GetTagResponse>::Finish(Ok(get_tag_response(m))),
            Some(RepoReply::Failed(e)) => step == failed_step::<GetTagResponse>(e),
            _ => is_protocol_error(step),
        },
        LookupStage::Done => is_protocol_error(step) && new.stage is Done,
    }
}

impl GetTag {
    /// Fetching tag `name` in namespace `namespace` of the tenant.
    pub fn new(name: String, namespace: String, tenant_id: String) -> (op: Self)
        ensures
            op.name == name,
            op.namespace == namespace,
            op.tenant_id == tenant_id,
            op.stage is Start,
    {
        GetTag { name, namespace, tenant_id, stage: LookupStage::Start }
    }

    /// Starts (`None`) or resumes the lookup with the store's reply.
    pub fn step(&mut self, reply: Option<RepoReply>) -> (s: Step<GetTagResponse>)
        ensures
            get_tag_step(*old(self), reply, *final(self), s),
    {
        let mut stage = LookupStage::Done;
        std::mem::swap(&mut stage, &mut self.stage);
        match stage {
            LookupStage::Start => match reply {
                None => {
                    self.stage = LookupStage::Await;
                    Step::Call(RepoCall::GetTag {
                        name: self.name.clone(),
                        namespace: self.namespace.clone(),
                        tenant_id: self.tenant_id.clone(),
                    })
                },
                Some(_) => protocol_error(),
            },
            LookupStage::Await => match reply {
                Some(RepoReply::Tag(None)) => Step::Finish(Err(ApiKeyServiceError::TagNotFound)),
                Some(RepoReply::Tag(Some(m))) => Step::Finish(Ok(GetTagResponse::from_model(m))),
                Some(RepoReply::Failed(e)) => fail(e),
                _ => protocol_error(),
            },
            LookupStage::Done => protocol_error(),
        }
    }
}

/// Deleting an existing tag of a tenant.
#[derive(Debug)]
pub struct DeleteTag {
    pub name: String,
    pub namespace: String,
    pub tenant_id: String,
    pub stage: DeleteStage,
}

/// The step that deleting a tag takes, and the stage it moves to.
pub open spec fn delete_tag_step(old: DeleteTag, reply: Option<RepoReply>, new: DeleteTag, step: Step<()>) -> bool {
    &&& new.name == old.name
    &&& new.namespace == old.namespace
    &&& new.tenant_id == old.tenant_id
    &&& match old.stage {
        DeleteStage::Start => match reply {
            None => step == Step::<()>::Call(RepoCall::GetTag { name: old.name, namespace: old.namespace, tenant_id: old.tenant_id })
                && new.stage is AwaitExisting,
            Some(_) => is_protocol_error(step) && new.stage is Done,
        },
        DeleteStage::AwaitExisting => match reply {
            Some(RepoReply::Tag(None)) => step == Step::<()>::Finish(Err(ApiKeyServiceError::TagNotFound)) && new.stage is Done,
            Some(RepoReply::Tag(Some(_))) => step == Step::<()>::Call(RepoCall::DeleteTag { name: old.name, namespace: old.namespace, tenant_id: old.tenant_id })
                && new.stage is AwaitDelete,
            Some(RepoReply::Failed(e)) => step == failed_step::<()>(e) && new.stage is Done,
            _ => is_protocol_error(step) && new.stage is Done,
        },
        DeleteStage::AwaitDelete => new.stage is Done && match reply {
            Some(RepoReply::Done) => step == Step::<()>::Finish(Ok(())),
            Some(RepoReply::Failed(e)) => step == failed_step::<()>(e),
            _ => is_protocol_error(step),
        },
        DeleteStage::Done => is_protocol_error(step) && new.stage is Done,
    }
}

impl DeleteTag {
    /// Deleting tag `name` in namespace `namespace` of the tenant.
    pub fn new(name: String, namespace: String, tenant_id: String) -> (op: Self)
        ensures
            op.name == name,
            op.namespace == namespace,
            op.tenant_id == tenant_id,
            op.stage is Start,
    {
        DeleteTag { name, namespace, tenant_id, stage: DeleteStage::Start }
    }

    /// Starts (`None`) or resumes the deletion with the store's reply.
    pub fn step(&mut self, reply: Option<RepoReply>) -> (s: Step<()>)
        ensures
            delete_tag_step(*old(self), reply, *final(self), s),
    {
        let mut stage = DeleteStage::Done;
        std::mem::swap(&mut stage, &mut self.stage);
        match stage {
            DeleteStage::Start => match reply {
                None => {
                    self.stage = DeleteStage::AwaitExisting;
                    Step::Call(RepoCall::GetTag {
                        name: self.name.clone(),
                        namespace: self.namespace.clone(),
                        tenant_id: self.tenant_id.clone(),
                    })
                },
                Some(_) => protocol_error(),
            },
            DeleteStage::AwaitExisting => match reply {
                Some(RepoReply::Tag(None)) => Step::Finish(Err(ApiKeyServiceError::TagNotFound)),
                Some(RepoReply::Tag(Some(_))) => {
                    self.stage = DeleteStage::AwaitDelete;
                    Step::Call(RepoCall::DeleteTag {
                        name: self.name.clone(),
                        namespace: self.namespace.clone(),
                        tenant_id: self.tenant_id.clone(),
                    })
                },
                Some(RepoReply::Failed(e)) => fail(e),
                _ => protocol_error(),
            },
            DeleteStage::AwaitDelete => match reply {
                Some(RepoReply::Done) => Step::Finish(Ok(())),
                Some(RepoReply::Failed(e)) => fail(e),
                _ => protocol_error(),
            },
            DeleteStage::Done => protocol_error(),
        }
    }
}

/// `r` shows the tags of page `p`, one for one, with the same count and neighbours.
pub open spec fn is_tag_page(r: Page<GetTagResponse>, p: Page<TagModel>) -> bool {
    &&& r.items@.len() == p.items@.len()
    &&& forall|i: int| 0 <= i < r.items@.len() ==> #[trigger] r.items@[i] == get_tag_response(p.items@[i])
    &&& r.count == p.count
    &&& r.next_page == p.next_page
    &&& r.previous_page == p.previous_page
}

/// The responses showing a page of stored tags.
pub fn tag_page(p: Page<TagModel>) -> (r: Page<GetTagResponse>)
    ensures
        is_tag_page(r, p),
{
    let ghost src = p.items@;
    let mut items = p.items;
    let mut out: Vec<GetTagResponse> = Vec::new();
    let n = items.len();
    let mut k: usize = 0;
    while k < n
        invariant
            n == src.len(),
            k <= n,
            items@ == src.subrange(k as int, n as int),
            out@.len() == k,
            forall|i: int| 0 <= i < k ==> #[trigger] out@[i] == get_tag_response(src[i]),
        decreases n - k,
    {
        let m = items.remove(0);
        out.push(GetTagResponse::from_model(m));
        k = k + 1;
        assert(items@ =~= src.subrange(k as int, n as int));
    }
    Page { items: out, count: p.count, next_page: p.next_page, previous_page: p.previous_page }
}

/// The stages of a tag search.
#[derive(Debug)]
pub enum FindTagsStage {
    Start(FindApiKeyTagParams),
    Await,
    Done,
}

/// Finding a page of tags.
#[derive(Debug)]
pub struct FindTags {
    pub stage: FindTagsStage,
}

/// The step that finding tags takes, and the stage it moves to.
pub open spec fn find_tags_step(old: FindTags, reply: Option<RepoReply>, new: FindTags, step: Step<Page<GetTagResponse>>) -> bool {
    match old.stage {
        FindTagsStage::Start(params) => match reply {
            None => step == Step::<Page<GetTagResponse>>::Call(RepoCall::FindTags(params)) && new.stage is Await,
            Some(_) => is_protocol_error(step) && new.stage is Done,
        },
        FindTagsStage::Await => new.stage is Done && match reply {
            Some(RepoReply::TagPage(p)) => step matches Step::Finish(Ok(r)) && is_tag_page(r, p),
            Some(RepoReply::Failed(e)) => step == failed_step::<Page<GetTagResponse>>(e),
            _ => is_protocol_error(step),
        },
        FindTagsStage::Done => is_protocol_error(step) && new.stage is Done,
    }
}

impl FindTags {
    /// Finding the tags that `params` select.
    pub fn new(params: FindApiKeyTagParams) -> (op: Self)
        ensures
            op.stage == FindTagsStage::Start(params),
    {
        FindTags { stage: FindTagsStage::Start(params) }
    }

    /// Starts (`None`) or resumes the search with the store's reply.
    pub fn step(&mut self, reply: Option<RepoReply>) -> (s: Step<Page<GetTagResponse>>)
        ensures
            find_tags_step(*old(self), reply, *final(self), s),
    {
        let mut stage = FindTagsStage::Done;
        std::mem::swap(&mut stage, &mut self.stage);
        match stage {
            FindTagsStage::Start(params) => match reply {
                None => {
                    self.stage = FindTagsStage::Await;
                    Step::Call(RepoCall::FindTags(params))
                },
                Some(_) => protocol_error(),
            },
            FindTagsStage::Await => match reply {
                Some(RepoReply::TagPage(p)) => Step::Finish(Ok(tag_page(p))),
                Some(RepoReply::Failed(e)) => fail(e),
                _ => protocol_error(),
            },
            FindTagsStage::Done => protocol_error(),
        }
    }
}

/// `r` shows stored tag `m`, field for field.
pub open spec fn shows_tag(r: GetTagResponse, m: TagModel) -> bool {
    &&& r.tenant_id == m.tenant_id
    &&& r.namespace == m.namespace
    &&& r.name == m.name
    &&& r.created_at == m.created_at
}

/// A tag is created only where none of that name exists in the namespace (else
/// `TagAlreadyExists`) and the namespace exists in the tenant (else `NamespaceNotFound`);
/// the tag stored then has the operation's name, namespace and tenant, and the answer
/// shows the tag the store stored.
pub proof fn lemma_tag_created_where_asked(old: CreateTag, reply: Option<RepoReply>, new: CreateTag, step: Step<CreateTagResponse>)
    requires
        create_tag_step(old, reply, new, step),
    ensures
        old.stage is AwaitExisting && (reply matches Some(RepoReply::Tag(Some(_))))
            ==> step == Step::<CreateTagResponse>::Finish(Err(ApiKeyServiceError::TagAlreadyExists)),
        old.stage is AwaitExisting && reply == Some(RepoReply::Tag(None))
            ==> step == Step::<CreateTagResponse>::Call(RepoCall::GetNamespace { name: old.namespace, tenant_id: old.tenant_id }),
        old.stage is AwaitNamespace && reply == Some(RepoReply::Namespace(None))
            ==> step == Step::<CreateTagResponse>::Finish(Err(ApiKeyServiceError::NamespaceNotFound)),
        old.stage is AwaitNamespace && (reply matches Some(RepoReply::Namespace(Some(_))))
            ==> (step matches Step::Call(RepoCall::InsertTag(t))
                && t.name == old.name && t.namespace == old.namespace && t.tenant_id == old.tenant_id),
        old.stage is AwaitInsert && (reply matches Some(RepoReply::TagStored(_)))
            ==> (step matches Step::Finish(Ok(r))
                && r.name == reply->Some_0->TagStored_0.name
                && r.namespace == reply->Some_0->TagStored_0.namespace
                && r.tenant_id == reply->Some_0->TagStored_0.tenant_id
                && r.created_at == reply->Some_0->TagStored_0.created_at),
{
}

/// Fetching a tag asks for it by name, namespace and tenant, and answers the tag the
/// store found, field for field, or `TagNotFound`.
pub proof fn lemma_tag_lookup_shows_stored(old: GetTag, reply: Option<RepoReply>, new: GetTag, step: Step<GetTagResponse>)
    requires
        get_tag_step(old, reply, new, step),
    ensures
        old.stage is Start && reply is None
            ==> step == Step::<GetTagResponse>::Call(RepoCall::GetTag { name: old.name, namespace: old.namespace, tenant_id: old.tenant_id }),
        old.stage is Await && reply == Some(RepoReply::Tag(None))
            ==> step == Step::<GetTagResponse>::Finish(Err(ApiKeyServiceError::TagNotFound)),
        old.stage is Await && (reply matches Some(RepoReply::Tag(Some(_))))
            ==> (step matches Step::Finish(Ok(r)) && shows_tag(r, reply->Some_0->Tag_0->Some_0)),
{
}

/// A tag is deleted only when it exists (else `TagNotFound`, and nothing is deleted), and
/// the deletion names that tag in its namespace and tenant.
pub proof fn lemma_tag_deleted_only_if_found(old: DeleteTag, reply: Option<RepoReply>, new: DeleteTag, step: Step<()>)
    requires
        old.stage is AwaitExisting,
        delete_tag_step(old, reply, new, step),
    ensures
        reply == Some(RepoReply::Tag(None)) ==> step == Step::<()>::Finish(Err(ApiKeyServiceError::TagNotFound)),
        (reply matches Some(RepoReply::Tag(Some(_))))
            ==> step == Step::<()>::Call(RepoCall::DeleteTag { name: old.name, namespace: old.namespace, tenant_id: old.tenant_id }),
{
}

/// A tag search answers the page the store found: each tag shown field for field, in
/// order, with the same count and neighbouring pages.
pub proof fn lemma_tag_search_shows_page(old: FindTags, p: Page<TagModel>, new: FindTags, step: Step<Page<GetTagResponse>>)
    requires
        old.stage is Await,
        find_tags_step(old, Some(RepoReply::TagPage(p)), new, step),
    ensures
        step matches Step::Finish(Ok(r))
            && r.items@.len() == p.items@.len()
            && r.count == p.count
            && r.next_page == p.next_page
            && r.previous_page == p.previous_page
            && forall|i: int| 0 <= i < r.items@.len() ==> shows_tag(#[trigger] r.items@[i], p.items@[i]),
{
}

} // verus!
