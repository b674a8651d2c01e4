//! The namespace operations of the service.

use vstd::prelude::*;
use crate::errors::ApiKeyServiceError;
use crate::key_ops::LookupStage;
use crate::model::{
    CreateNamespaceResponse, GetNamespaceResponse, NamespaceModel, NewNamespace, Page,
    create_namespace_response, get_namespace_response,
};
use crate::params::FindApiKeyNamespaceParams;
use crate::protocol::{RepoCall, RepoReply, Step, failed_step, is_protocol_error, protocol_error, fail};

verus! {

/// The stages of creating a namespace.
#[derive(Debug)]
pub enum CreateNamespaceStage {
    Start,
    AwaitExisting,
    AwaitDefault,
    AwaitInsert,
    Done,
}

/// Creating a namespace; it becomes the tenant's default when the tenant has none.
#[derive(Debug)]
pub struct CreateNamespace {
    pub name: String,
    pub tenant_id: String,
    pub stage: CreateNamespaceStage,
}

/// The step that creating a namespace takes, and the stage it moves to.
pub open spec fn create_namespace_step(old: CreateNamespace, reply: Option<RepoReply>, new: CreateNamespace, step: Step<CreateNamespaceResponse>) -> bool {
    &&& new.name == old.name
    &&& new.tenant_id == old.tenant_id
    &&& match old.stage {
        CreateNamespaceStage::Start => match reply {
            None => step == Step::<CreateNamespaceResponse>::Call(RepoCall::GetNamespace { name: old.name, tenant_id: old.tenant_id })
                && new.stage is AwaitExisting,
            Some(_) => is_protocol_error(step) && new.stage is Done,
        },
        CreateNamespaceStage::AwaitExisting => match reply {
            Some(RepoReply::Namespace(Some(_))) => step == Step::<CreateNamespaceResponse>::Finish(Err(ApiKeyServiceError::NamespaceAlreadyExists))
                && new.stage is Done,
            Some(RepoReply::Namespace(None)) => step == Step::<CreateNamespaceResponse>::Call(RepoCall::GetDefaultNamespace { tenant_id: old.tenant_id })
                && new.stage is AwaitDefault,
            Some(RepoReply::Failed(e)) => step == failed_step::<CreateNamespaceResponse>(e) && new.stage is Done,
            _ => is_protocol_error(step) && new.stage is Done,
        },
        CreateNamespaceStage::AwaitDefault => match reply {
            Some(RepoReply::Namespace(d)) => step == Step::<CreateNamespaceResponse>::Call(RepoCall::InsertNamespace(NewNamespace {
                name: old.name,
                tenant_id: old.tenant_id,
                is_default: if d is Some { None } else { Some(true) },
            })) && new.stage is AwaitInsert,
            Some(RepoReply::Failed(e)) => step == failed_step::<CreateNamespaceResponse>(e) && new.stage is Done,
            _ => is_protocol_error(step) && new.stage is Done,
        },
        CreateNamespaceStage::AwaitInsert => new.stage is Done && match reply {
            Some(RepoReply::NamespaceStored(m)) => step == Step::<CreateNamespaceResponse>::Finish(Ok(create_namespace_response(m))),
            Some(RepoReply::Failed(e)) => step == failed_step::<CreateNamespaceResponse>(e),
            _ => is_protocol_error(step),
        },
        CreateNamespaceStage::Done => is_protocol_error(step) && new.stage is Done,
    }
}

impl CreateNamespace {
    /// Creating namespace `name` for the tenant.
    pub fn new(name: String, tenant_id: String) -> (op: Self)
        ensures
            op.name == name,
            op.tenant_id == tenant_id,
            op.stage is Start,
    {
        CreateNamespace { name, tenant_id, stage: CreateNamespaceStage::Start }
    }

    /// Starts (`None`) or resumes the creation with the store's reply.
    pub fn step(&mut self, reply: Option<RepoReply>) -> (s: Step<CreateNamespaceResponse>)
        ensures
            create_namespace_step(*old(self), reply, *final(self), s),
    {
        let mut stage = CreateNamespaceStage::Done;
        std::mem::swap(&mut stage, &mut self.stage);
        match stage {
            CreateNamespaceStage::Start => match reply {
                None => {
                    self.stage = CreateNamespaceStage::AwaitExisting;
                    Step::Call(RepoCall::GetNamespace { name: self.name.clone(), tenant_id: self.tenant_id.clone() })
                },
                Some(_) => protocol_error(),
            },
            CreateNamespaceStage::AwaitExisting => match reply {
                Some(RepoReply::Namespace(Some(_))) => Step::Finish(Err(ApiKeyServiceError::NamespaceAlreadyExists)),
                Some(RepoReply::Namespace(None)) => {
                    self.stage = CreateNamespaceStage::AwaitDefault;
                    Step::Call(RepoCall::GetDefaultNamespace { tenant_id: self.tenant_id.clone() })
                },
                Some(RepoReply::Failed(e)) => fail(e),
                _ => protocol_error(),
            },
            CreateNamespaceStage::AwaitDefault => match reply {
                Some(RepoReply::Namespace(d)) => {
                    let is_default = match d {
                        Some(_) => None,
                        None => Some(true),
                    };
                    self.stage = CreateNamespaceStage::AwaitInsert;
                    Step::Call(RepoCall::InsertNamespace(NewNamespace {
                        name: self.name.clone(),
                        tenant_id: self.tenant_id.clone(),
                        is_default,
                    }))
                },
                Some(RepoReply::Failed(e)) => fail(e),
                _ => protocol_error(),
            },
            CreateNamespaceStage::AwaitInsert => match reply {
                Some(RepoReply::NamespaceStored(m)) => Step::Finish(Ok(CreateNamespaceResponse::from_model(m))),
                Some(RepoReply::Failed(e)) => fail(e),
                _ => protocol_error(),
            },
            CreateNamespaceStage::Done => protocol_error(),
        }
    }
}

/// A tenant's first namespace becomes its default: once the lookups found no namespace of
/// that name, the namespace created for the operation's name and tenant is marked default
/// exactly when the tenant had no default namespace (otherwise the store's default, not
/// default, applies).
pub proof fn lemma_first_namespace_is_default(
    old: CreateNamespace,
    found_default: Option<NamespaceModel>,
    new: CreateNamespace,
    step: Step<CreateNamespaceResponse>,
)
    requires
        old.stage is AwaitDefault,
        create_namespace_step(old, Some(RepoReply::Namespace(found_default)), new, step),
    ensures
        step matches Step::Call(RepoCall::InsertNamespace(r))
            && r.name == old.name
            && r.tenant_id == old.tenant_id
            && (r.is_default == Some(true) <==> found_default is None)
            && r.is_default != Some(false),
{
}

/// A namespace is created only where none of that name exists: an existing one is
/// answered `NamespaceAlreadyExists` and nothing is stored.
pub proof fn lemma_existing_namespace_is_kept(
    old: CreateNamespace,
    existing: NamespaceModel,
    new: CreateNamespace,
    step: Step<CreateNamespaceResponse>,
)
    requires
        old.stage is AwaitExisting,
        create_namespace_step(old, Some(RepoReply::Namespace(Some(existing))), new, step),
    ensures
        step == Step::<CreateNamespaceResponse>::Finish(Err(ApiKeyServiceError::NamespaceAlreadyExists)),
        new.stage is Done,
{
}

/// Fetching a namespace of a tenant, or the tenant's default namespace.
#[derive(Debug)]
pub struct GetNamespace {
    /// The namespace's name; `None` asks for the tenant's default namespace.
    pub name: Option<String>,
    pub tenant_id: String,
    pub stage: LookupStage,
}

/// The request that fetches the namespace asked for.
pub open spec fn namespace_lookup_call(name: Option<String>, tenant_id: String) -> RepoCall {
    match name {
        Some(n) => RepoCall::GetNamespace { name: n, tenant_id },
        None => RepoCall::GetDefaultNamespace { tenant_id },
    }
}

/// The step that fetching a namespace takes, and the stage it moves to.
pub open spec fn get_namespace_step(old: GetNamespace, reply: Option<RepoReply>, new: GetNamespace, step: Step<GetNamespaceResponse>) -> bool {
    &&& new.name == old.name
    &&& new.tenant_id == old.tenant_id
    &&& match old.stage {
        LookupStage::Start => match reply {
            None => step == Step::<GetNamespaceResponse>::Call(namespace_lookup_call(old.name, old.tenant_id)) && new.stage is Await,
            Some(_) => is_protocol_error(step) && new.stage is Done,
        },
        LookupStage::Await => new.stage is Done && match reply {
            Some(RepoReply::Namespace(None)) => step == Step::<GetNamespaceResponse>::Finish(Err(ApiKeyServiceError::NamespaceNotFound)),
            Some(RepoReply::Namespace(Some(m))) => step == Step::<GetNamespaceResponse>::Finish(Ok(get_namespace_response(m))),
            Some(RepoReply::Failed(e)) => step == failed_step::<GetNamespaceResponse>(e),
            _ => is_protocol_error(step),
        },
        LookupStage::Done => is_protocol_error(step) && new.stage is Done,
    }
}

impl GetNamespace {
    /// Fetching namespace `name` of the tenant.
    pub fn new(name: String, tenant_id: String) -> (op: Self)
        ensures
            op.name == Some(name),
            op.tenant_id == tenant_id,
            op.stage is Start,
    {
        GetNamespace { name: Some(name), tenant_id, stage: LookupStage::Start }
    }

    /// Fetching the tenant's default namespace.
    pub fn default_of(tenant_id: String) -> (op: Self)
        ensures
            op.name is None,
            op.tenant_id == tenant_id,
            op.stage is Start,
    {
        GetNamespace { name: None, tenant_id, stage: LookupStage::Start }
    }

    /// Starts (`None`) or resumes the lookup with the store's reply.
    pub fn step(&mut self, reply: Option<RepoReply>) -> (s: Step<GetNamespaceResponse>)
        ensures
            get_namespace_step(*old(self), reply, *final(self), s),
    {
        let mut stage = LookupStage::Done;
        std::mem::swap(&mut stage, &mut self.stage);
        match stage {
            LookupStage::Start => match reply {
                None => {
                    self.stage = LookupStage::Await;
                    let tenant_id = self.tenant_id.clone();
                    match &self.name {
                        Some(n) => Step::Call(RepoCall::GetNamespace { name: n.clone(), tenant_id }),
                        None => Step::Call(RepoCall::GetDefaultNamespace { tenant_id }),
                    }
                },
                Some(_) => protocol_error(),
            },
            LookupStage::Await => match reply {
                Some(RepoReply::Namespace(None)) => Step::Finish(Err(ApiKeyServiceError::NamespaceNotFound)),
                Some(RepoReply::Namespace(Some(m))) => Step::Finish(Ok(GetNamespaceResponse::from_model(m))),
                Some(RepoReply::Failed(e)) => fail(e),
                _ => protocol_error(),
            },
            LookupStage::Done => protocol_error(),
        }
    }
}

/// The stages of making a namespace the default.
#[derive(Debug)]
pub enum SetDefaultStage {
    Start,
    AwaitExisting,
    AwaitSet,
    AwaitReload,
    Done,
}

/// Making a namespace the tenant's default namespace, the only one.
#[derive(Debug)]
pub struct SetDefaultNamespace {
    pub name: String,
    pub tenant_id: String,
    pub stage: SetDefaultStage,
}

/// The step that setting the default namespace takes, and the stage it moves to.
pub open spec fn set_default_step(old: SetDefaultNamespace, reply: Option<RepoReply>, new: SetDefaultNamespace, step: Step<GetNamespaceResponse>) -> bool {
    &&& new.name == old.name
    &&& new.tenant_id == old.tenant_id
    &&& match old.stage {
        SetDefaultStage::Start => match reply {
            None => step == Step::<GetNamespaceResponse>::Call(RepoCall::GetNamespace { name: old.name, tenant_id: old.tenant_id })
                && new.stage is AwaitExisting,
            Some(_) => is_protocol_error(step) && new.stage is Done,
        },
        SetDefaultStage::AwaitExisting => match reply {
            Some(RepoReply::Namespace(None)) => step == Step::<GetNamespaceResponse>::Finish(Err(ApiKeyServiceError::NamespaceNotFound))
                && new.stage is Done,
            Some(RepoReply::Namespace(Some(_))) => step == Step::<GetNamespaceResponse>::Call(RepoCall::SetDefaultNamespace { name: old.name, tenant_id: old.tenant_id })
                && new.stage is AwaitSet,
            Some(RepoReply::Failed(e)) => step == failed_step::<GetNamespaceResponse>(e) && new.stage is Done,
            _ => is_protocol_error(step) && new.stage is Done,
        },
        SetDefaultStage::AwaitSet => match reply {
            Some(RepoReply::Done) => step == Step::<GetNamespaceResponse>::Call(RepoCall::GetNamespace { name: old.name, tenant_id: old.tenant_id })
                && new.stage is AwaitReload,
            Some(RepoReply::Failed(e)) => step == failed_step::<GetNamespaceResponse>(e) && new.stage is Done,
            _ => is_protocol_error(step) && new.stage is Done,
        },
        SetDefaultStage::AwaitReload => new.stage is Done && match reply {
            Some(RepoReply::Namespace(Some(m))) => step == Step::<GetNamespaceResponse>::Finish(Ok(get_namespace_response(m))),
            Some(RepoReply::Failed(e)) => step == failed_step::<GetNamespaceResponse>(e),
            _ => is_protocol_error(step),
        },
        SetDefaultStage::Done => is_protocol_error(step) && new.stage is Done,
    }
}

impl SetDefaultNamespace {
    /// Making namespace `name` the tenant's default.
    pub fn new(name: String, tenant_id: String) -> (op: Self)
        ensures
            op.name == name,
            op.tenant_id == tenant_id,
            op.stage is Start,
    {
        SetDefaultNamespace { name, tenant_id, stage: SetDefaultStage::Start }
    }

    /// Starts (`None`) or resumes the change with the store's reply.
    pub fn step(&mut self, reply: Option<RepoReply>) -> (s: Step<GetNamespaceResponse>)
        ensures
            set_default_step(*old(self), reply, *final(self), s),
    {
        let mut stage = SetDefaultStage::Done;
        std::mem::swap(&mut stage, &mut self.stage);
        match stage {
            SetDefaultStage::Start => match reply {
                None => {
                    self.stage = SetDefaultStage::AwaitExisting;
                    Step::Call(RepoCall::GetNamespace { name: self.name.clone(), tenant_id: self.tenant_id.clone() })
                },
                Some(_) => protocol_error(),
            },
            SetDefaultStage::AwaitExisting => match reply {
                Some(RepoReply::Namespace(None)) => Step::Finish(Err(ApiKeyServiceError::NamespaceNotFound)),
                Some(RepoReply::Namespace(Some(_))) => {
                    self.stage = SetDefaultStage::AwaitSet;
                    Step::Call(RepoCall::SetDefaultNamespace { name: self.name.clone(), tenant_id: self.tenant_id.clone() })
                },
                Some(RepoReply::Failed(e)) => fail(e),
                _ => protocol_error(),
            },
            SetDefaultStage::AwaitSet => match reply {
                Some(RepoReply::Done) => {
                    self.stage = SetDefaultStage::AwaitReload;
                    Step::Call(RepoCall::GetNamespace { name: self.name.clone(), tenant_id: self.tenant_id.clone() })
                },
                Some(RepoReply::Failed(e)) => fail(e),
                _ => protocol_error(),
            },
            SetDefaultStage::AwaitReload => match reply {
                Some(RepoReply::Namespace(Some(m))) => Step::Finish(Ok(GetNamespaceResponse::from_model(m))),
                Some(RepoReply::Failed(e)) => fail(e),
                _ => protocol_error(),
            },
            SetDefaultStage::Done => protocol_error(),
        }
    }
}

/// The stages of deleting a namespace or a tag.
#[derive(Debug)]
pub enum DeleteStage {
    Start,
    AwaitExisting,
    AwaitDelete,
    Done,
}

/// Deleting an existing namespace of a tenant.
#[derive(Debug)]
pub struct DeleteNamespace {
    pub name: String,
    pub tenant_id: String,
    pub stage: DeleteStage,
}

/// The step that deleting a namespace takes, and the stage it moves to.
pub open spec fn delete_namespace_step(old: DeleteNamespace, reply: Option<RepoReply>, new: DeleteNamespace, step: Step<()>) -> bool {
    &&& new.name == old.name
    &&& new.tenant_id == old.tenant_id
    &&& match old.stage {
        DeleteStage::Start => match reply {
            None => step == Step::<()>::Call(RepoCall::GetNamespace { name: old.name, tenant_id: old.tenant_id })
                && new.stage is AwaitExisting,
            Some(_) => is_protocol_error(step) && new.stage is Done,
        },
        DeleteStage::AwaitExisting => match reply {
            Some(RepoReply::Namespace(None)) => step == Step::<()>::Finish(Err(ApiKeyServiceError::NamespaceNotFound)) && new.stage is Done,
            Some(RepoReply::Namespace(Some(_))) => step == Step::<()>::Call(RepoCall::DeleteNamespace { name: old.name, tenant_id: old.tenant_id })
                && new.stage is AwaitDelete,
            Some(RepoReply::Failed(e)) => step == failed_step::<()>(e) && new.stage is Done,
            _ => is_protocol_error(step) && new.stage is Done,
        },
        DeleteStage::AwaitDelete => new.stage is Done && match reply {
            Some(RepoReply::Done) => step == Step::<()>::Finish(Ok(())),
            Some(RepoReply::Failed(e)) => step == failed_step::<()>(e),
            _ => is_protocol_error(step),
        },
        DeleteStage::Done => is_protocol_error(step) && new.stage is Done,
    }
}

impl DeleteNamespace {
    /// Deleting namespace `name` of the tenant.
    pub fn new(name: String, tenant_id: String) -> (op: Self)
        ensures
            op.name == name,
            op.tenant_id == tenant_id,
            op.stage is Start,
    {
        DeleteNamespace { name, tenant_id, stage: DeleteStage::Start }
    }

    /// Starts (`None`) or resumes the deletion with the store's reply.
    pub fn step(&mut self, reply: Option<RepoReply>) -> (s: Step<()>)
        ensures
            delete_namespace_step(*old(self), reply, *final(self), s),
    {
        let mut stage = DeleteStage::Done;
        std::mem::swap(&mut stage, &mut self.stage);
        match stage {
            DeleteStage::Start => match reply {
                None => {
                    self.stage = DeleteStage::AwaitExisting;
                    Step::Call(RepoCall::GetNamespace { name: self.name.clone(), tenant_id: self.tenant_id.clone() })
                },
                Some(_) => protocol_error(),
            },
            DeleteStage::AwaitExisting => match reply {
                Some(RepoReply::Namespace(None)) => Step::Finish(Err(ApiKeyServiceError::NamespaceNotFound)),
                Some(RepoReply::Namespace(Some(_))) => {
                    self.stage = DeleteStage::AwaitDelete;
                    Step::Call(RepoCall::DeleteNamespace { name: self.name.clone(), tenant_id: self.tenant_id.clone() })
                },
                Some(RepoReply::Failed(e)) => fail(e),
                _ => protocol_error(),
            },
            DeleteStage::AwaitDelete => match reply {
                Some(RepoReply::Done) => Step::Finish(Ok(())),
                Some(RepoReply::Failed(e)) => fail(e),
                _ => protocol_error(),
            },
            DeleteStage::Done => protocol_error(),
        }
    }
}

/// `r` shows the namespaces of page `p`, one for one, with the same count and neighbours.
pub open spec fn is_namespace_page(r: Page<GetNamespaceResponse>, p: Page<NamespaceModel>) -> bool {
    &&& r.items@.len() == p.items@.len()
    &&& forall|i: int| 0 <= i < r.items@.len() ==> #[trigger] r.items@[i] == get_namespace_response(p.items@[i])
    &&& r.count == p.count
    &&& r.next_page == p.next_page
    &&& r.previous_page == p.previous_page
}

/// The responses showing a page of stored namespaces.
pub fn namespace_page(p: Page<NamespaceModel>) -> (r: Page<GetNamespaceResponse>)
    ensures
        is_namespace_page(r, p),
{
    let ghost src = p.items@;
    let mut items = p.items;
    let mut out: Vec<GetNamespaceResponse> = Vec::new();
    let n = items.len();
    let mut k: usize = 0;
    while k < n
        invariant
            n == src.len(),
            k <= n,
            items@ == src.subrange(k as int, n as int),
            out@.len() == k,
            forall|i: int| 0 <= i < k ==> #[trigger] out@[i] == get_namespace_response(src[i]),
        decreases n - k,
    {
        let m = items.remove(0);
        out.push(GetNamespaceResponse::from_model(m));
        k = k + 1;
        assert(items@ =~= src.subrange(k as int, n as int));
    }
    Page { items: out, count: p.count, next_page: p.next_page, previous_page: p.previous_page }
}

/// The stages of a namespace search.
#[derive(Debug)]
pub enum FindNamespacesStage {
    Start(FindApiKeyNamespaceParams),
    Await,
    Done,
}

/// Finding a page of namespaces.
#[derive(Debug)]
pub struct FindNamespaces {
    pub stage: FindNamespacesStage,
}

/// The step that finding namespaces takes, and the stage it moves to.
pub open spec fn find_namespaces_step(old: FindNamespaces, reply: Option<RepoReply>, new: FindNamespaces, step: Step<Page<GetNamespaceResponse>>) -> bool {
    match old.stage {
        FindNamespacesStage::Start(params) => match reply {
            None => step == Step::<Page<GetNamespaceResponse>>::Call(RepoCall::FindNamespaces(params)) && new.stage is Await,
            Some(_) => is_protocol_error(step) && new.stage is Done,
        },
        FindNamespacesStage::Await => new.stage is Done && match reply {
            Some(RepoReply::NamespacePage(p)) => step matches Step::Finish(Ok(r)) && is_namespace_page(r, p),
            Some(RepoReply::Failed(e)) => step == failed_step::<Page<GetNamespaceResponse>>(e),
            _ => is_protocol_error(step),
        },
        FindNamespacesStage::Done => is_protocol_error(step) && new.stage is Done,
    }
}

impl FindNamespaces {
    /// Finding the namespaces that `params` select.
    pub fn new(params: FindApiKeyNamespaceParams) -> (op: Self)
        ensures
            op.stage == FindNamespacesStage::Start(params),
    {
        FindNamespaces { stage: FindNamespacesStage::Start(params) }
    }

    /// Starts (`None`) or resumes the search with the store's reply.
    pub fn step(&mut self, reply: Option<RepoReply>) -> (s: Step<Page<GetNamespaceResponse>>)
        ensures
            find_namespaces_step(*old(self), reply, *final(self), s),
    {
        let mut stage = FindNamespacesStage::Done;
        std::mem::swap(&mut stage, &mut self.stage);
        match stage {
            FindNamespacesStage::Start(params) => match reply {
                None => {
                    self.stage = FindNamespacesStage::Await;
                    Step::Call(RepoCall::FindNamespaces(params))
                },
                Some(_) => protocol_error(),
            },
            FindNamespacesStage::Await => match reply {
                Some(RepoReply::NamespacePage(p)) => Step::Finish(Ok(namespace_page(p))),
                Some(RepoReply::Failed(e)) => fail(e),
                _ => protocol_error(),
            },
            FindNamespacesStage::Done => protocol_error(),
        }
    }
}

/// `r` shows stored namespace `m`, field for field.
pub open spec fn shows_namespace(r: GetNamespaceResponse, m: NamespaceModel) -> bool {
    &&& r.tenant_id == m.tenant_id
    &&& r.name == m.name
    &&& r.created_at == m.created_at
    &&& r.is_default == m.is_default
}

/// Creating a namespace answers the namespace the store stored, field for field.
pub proof fn lemma_created_namespace_is_shown(old: CreateNamespace, m: NamespaceModel, new: CreateNamespace, step: Step<CreateNamespaceResponse>)
    requires
        old.stage is AwaitInsert,
        create_namespace_step(old, Some(RepoReply::NamespaceStored(m)), new, step),
    ensures
        step matches Step::Finish(Ok(r)) && r.tenant_id == m.tenant_id && r.name == m.name
            && r.created_at == m.created_at && r.is_default == m.is_default,
{
}

/// Fetching a namespace asks for the one named in the operation's tenant (or the
/// tenant's default when no name is given), and answers the namespace the store found,
/// field for field, or `NamespaceNotFound`.
pub proof fn lemma_namespace_lookup_shows_stored(old: GetNamespace, reply: Option<RepoReply>, new: GetNamespace, step: Step<GetNamespaceResponse>)
    requires
        get_namespace_step(old, reply, new, step),
    ensures
        old.stage is Start && reply is None && old.name is Some
            ==> step == Step::<GetNamespaceResponse>::Call(RepoCall::GetNamespace { name: old.name->Some_0, tenant_id: old.tenant_id }),
        old.stage is Start && reply is None && old.name is None
            ==> step == Step::<GetNamespaceResponse>::Call(RepoCall::GetDefaultNamespace { tenant_id: old.tenant_id }),
        old.stage is Await && reply == Some(RepoReply::Namespace(None))
            ==> step == Step::<GetNamespaceResponse>::Finish(Err(ApiKeyServiceError::NamespaceNotFound)),
        old.stage is Await && (reply matches Some(RepoReply::Namespace(Some(_))))
            ==> (step matches Step::Finish(Ok(r)) && shows_namespace(r, reply->Some_0->Namespace_0->Some_0)),
{
}

/// Making a namespace the default needs it to exist in the tenant (else
/// `NamespaceNotFound`, and nothing changes); then the store is asked to make that very
/// namespace the tenant's default, and the answer shows it as stored afterwards.
pub proof fn lemma_set_default_targets_the_namespace(
    old: SetDefaultNamespace,
    reply: Option<RepoReply>,
    new: SetDefaultNamespace,
    step: Step<GetNamespaceResponse>,
)
    requires
        set_default_step(old, reply, new, step),
    ensures
        old.stage is AwaitExisting && reply == Some(RepoReply::Namespace(None))
            ==> step == Step::<GetNamespaceResponse>::Finish(Err(ApiKeyServiceError::NamespaceNotFound)),
        old.stage is AwaitExisting && (reply matches Some(RepoReply::Namespace(Some(_))))
            ==> step == Step::<GetNamespaceResponse>::Call(RepoCall::SetDefaultNamespace { name: old.name, tenant_id: old.tenant_id }),
        old.stage is AwaitReload && (reply matches Some(RepoReply::Namespace(Some(_))))
            ==> (step matches Step::Finish(Ok(r)) && shows_namespace(r, reply->Some_0->Namespace_0->Some_0)),
{
}

/// A namespace is deleted only when it exists in the tenant (else `NamespaceNotFound`,
/// and nothing is deleted), and the deletion names that namespace in that tenant.
pub proof fn lemma_namespace_deleted_only_if_found(
    old: DeleteNamespace,
    reply: Option<RepoReply>,
    new: DeleteNamespace,
    step: Step<()>,
)
    requires
        old.stage is AwaitExisting,
        delete_namespace_step(old, reply, new, step),
    ensures
        reply == Some(RepoReply::Namespace(None)) ==> step == Step::<()>::Finish(Err(ApiKeyServiceError::NamespaceNotFound)),
        (reply matches Some(RepoReply::Namespace(Some(_))))
            ==> step == Step::<()>::Call(RepoCall::DeleteNamespace { name: old.name, tenant_id: old.tenant_id }),
{
}

/// A namespace search answers the page the store found: each namespace shown field for
/// field, in order, with the same count and neighbouring pages.
pub proof fn lemma_namespace_search_shows_page(
    old: FindNamespaces,
    p: Page<NamespaceModel>,
    new: FindNamespaces,
    step: Step<Page<GetNamespaceResponse>>,
)
    requires
        old.stage is Await,
        find_namespaces_step(old, Some(RepoReply::NamespacePage(p)), new, step),
    ensures
        step matches Step::Finish(Ok(r))
            && r.items@.len() == p.items@.len()
            && r.count == p.count
            && r.next_page == p.next_page
            && r.previous_page == p.previous_page
            && forall|i: int| 0 <= i < r.items@.len() ==> shows_namespace(#[trigger] r.items@[i], p.items@[i]),
{
}

} // verus!
