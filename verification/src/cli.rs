//! The decisions of the command line: what each command takes from its arguments and
//! from the configuration, which failures it tolerates, and how the server makes sure
//! the default namespace exists.

use vstd::prelude::*;
use vstd::string::*;
use crate::api::{Violation, ValidationReport};
use crate::config::Config;
use crate::dto::{broken, check_rule, conclude, validation_outcome, violation_pairs};
use crate::errors::ApiKeyServiceError;
use crate::model::{CreateApiKeyPayload, CreateApiKeyResponse, GetNamespaceResponse, Timestamp};
use crate::metadata::{Metadata, entries_map_over};
use crate::introspect::{tag_list_view, tag_admitted};
use crate::key::opt_view;

verus! {

/// The formats a command can print in.
#[derive(Debug, Clone, Copy, PartialEq, Eq)]
pub enum ManifestFormat {
    Json,
    Yaml,
}

/// The task queue's sizes as a command resolved them.
#[derive(Debug, Clone)]
pub struct CtxTaskQueue {
    pub worker_count: Option<usize>,
    pub max_queue_capacity: Option<usize>,
    pub batch_size: Option<usize>,
    pub batch_timeout_ms: Option<usize>,
}

impl Default for CtxTaskQueue {
    fn default() -> (c: Self)
        ensures
            c == (CtxTaskQueue { worker_count: None, max_queue_capacity: None, batch_size: None, batch_timeout_ms: None }),
    {
        CtxTaskQueue { worker_count: None, max_queue_capacity: None, batch_size: None, batch_timeout_ms: None }
    }
}

/// What the `serve` command runs with.
#[derive(Debug, Clone)]
pub struct CtxServe {
    pub host: Option<String>,
    pub port: Option<u16>,
    pub task_queue: CtxTaskQueue,
    pub migrations: bool,
}

/// What the `migrate` command runs with: nothing.
#[derive(Debug, Clone)]
pub struct CtxMigrate {}

/// What the `config` command runs with.
#[derive(Debug, Clone)]
pub struct CtxConfig {
    pub format: Option<ManifestFormat>,
}

/// The arguments of `serve`.
#[derive(Debug, Clone)]
pub struct CliCommandServe {
    pub host: Option<String>,
    pub port: Option<u16>,
    pub migrations: bool,
}

impl CliCommandServe {
    /// The host and port given on the command line, else the configured ones; the task
    /// queue as configured; migrations as asked.
    pub fn serve_context(&self, config: &Config) -> (c: CtxServe)
        ensures
            c.host matches Some(h) && h@ == (match self.host { Some(x) => x@, None => config.server.host@ }),
            c.port == Some(match self.port { Some(p) => p, None => config.server.port }),
            c.task_queue == (CtxTaskQueue {
                worker_count: Some(config.task_queue.worker_count),
                max_queue_capacity: Some(config.task_queue.max_queue_capacity),
                batch_size: Some(config.task_queue.batch_size),
                batch_timeout_ms: Some(config.task_queue.batch_timeout_ms),
            }),
            c.migrations == self.migrations,
    {
        let host = match &self.host {
            Some(h) => h.clone(),
            None => config.server.host.clone(),
        };
        let port = match self.port {
            Some(p) => p,
            None => config.server.port,
        };
        CtxServe {
            host: Some(host),
            port: Some(port),
            task_queue: CtxTaskQueue {
                worker_count: Some(config.task_queue.worker_count),
                max_queue_capacity: Some(config.task_queue.max_queue_capacity),
                batch_size: Some(config.task_queue.batch_size),
                batch_timeout_ms: Some(config.task_queue.batch_timeout_ms),
            },
            migrations: self.migrations,
        }
    }
}

/// The arguments of `config`.
#[derive(Debug, Clone)]
pub struct CliCommandConfig {
    pub format: ManifestFormat,
}

impl CliCommandConfig {
    pub fn config_context(&self) -> (c: CtxConfig)
        ensures
            c.format == Some(self.format),
    {
        CtxConfig { format: Some(self.format) }
    }
}

/// The arguments of `tags delete`.
#[derive(Debug, Clone)]
pub struct CliCommandTagsDelete {
    pub name: String,
    pub skip_missing: bool,
}

impl CliCommandTagsDelete {
    /// The name has at most six characters.
    pub fn validate(&self) -> (r: Result<(), ValidationReport>)
        ensures
            validation_outcome(r, broken(self.name@.len() <= 6, "name"@, "length"@)),
    {
        let mut found: Vec<Violation> = Vec::new();
        let n = self.name.as_str().unicode_len();
        check_rule(&mut found, n <= 6, "name", "length");
        assert(violation_pairs(found@) =~= broken(self.name@.len() <= 6, "name"@, "length"@));
        conclude(found)
    }

    /// The command's outcome from the deletion's: a missing tag is no failure when the
    /// command was asked to skip it.
    pub fn settle(&self, outcome: Result<(), ApiKeyServiceError>) -> (r: Result<(), ApiKeyServiceError>)
        ensures
            r is Ok <==> (outcome is Ok || (self.skip_missing && (outcome matches Err(e) && e is TagNotFound))),
            r matches Err(e) ==> outcome == Err::<(), ApiKeyServiceError>(e),
    {
        match outcome {
            Ok(()) => Ok(()),
            Err(ApiKeyServiceError::TagNotFound) if self.skip_missing => Ok(()),
            Err(e) => Err(e),
        }
    }
}

/// The subcommands of `tags` whose arguments are held here.
#[derive(Debug, Clone)]
pub enum CliCommandTagsCommand {
    Delete(CliCommandTagsDelete),
}

/// The arguments of `tags`.
#[derive(Debug, Clone)]
pub struct CliCommandTags {
    pub tenant_id: Option<String>,
    pub namespace: Option<String>,
    pub command: Option<CliCommandTagsCommand>,
}

impl CliCommandTags {
    /// The tenant and namespace the subcommand acts in: those given, else the
    /// configured defaults.
    pub fn scope(&self, config: &Config) -> (r: (String, String))
        ensures
            r.0@ == (match self.tenant_id { Some(t) => t@, None => config.default_tenant_id@ }),
            r.1@ == (match self.namespace { Some(n) => n@, None => config.default_namespace@ }),
    {
        let tenant = match &self.tenant_id {
            Some(t) => t.clone(),
            None => config.default_tenant_id.clone(),
        };
        let namespace = match &self.namespace {
            Some(n) => n.clone(),
            None => config.default_namespace.clone(),
        };
        (tenant, namespace)
    }
}

/// The arguments of `api-keys set-metadata`.
#[derive(Debug, Clone)]
pub struct CliCommandApiKeysSetMetadata {
    pub id: String,
    pub metadata: Vec<(String, String)>,
    pub skip_missing: bool,
}

/// Why a command refused to run.
#[derive(Debug, Clone)]
pub enum CliRefusal {
    /// `set-metadata` was given no metadata.
    NoMetadata,
    /// `--no-tag` and `--tags` were both given.
    ConflictingTagOptions,
}

impl CliRefusal {
    /// The message the command line prints.
    pub fn message(&self) -> (s: String)
        ensures
            self is NoMetadata ==> s@ == "No metadata provided"@,
            self is ConflictingTagOptions ==> s@ == "Conflicting options: --no-tag and --tag are mutually exclusive"@,
    {
        match self {
            CliRefusal::NoMetadata => "No metadata provided".to_owned(),
            CliRefusal::ConflictingTagOptions => "Conflicting options: --no-tag and --tag are mutually exclusive".to_owned(),
        }
    }
}

impl CliCommandApiKeysSetMetadata {
    /// Refuses to run without metadata.
    pub fn check(&self) -> (r: Result<(), CliRefusal>)
        ensures
            r is Ok <==> self.metadata@.len() > 0,
            r matches Err(e) ==> e is NoMetadata,
    {
        if self.metadata.len() == 0 {
            Err(CliRefusal::NoMetadata)
        } else {
            Ok(())
        }
    }

    /// The command's outcome from the update's: a missing key is no failure when the
    /// command was asked to skip it.
    pub fn settle(&self, outcome: Result<(), ApiKeyServiceError>) -> (r: Result<(), ApiKeyServiceError>)
        ensures
            r is Ok <==> (outcome is Ok || (self.skip_missing && (outcome matches Err(e) && e is KeyNotFound))),
            r matches Err(e) ==> outcome == Err::<(), ApiKeyServiceError>(e),
    {
        match outcome {
            Ok(()) => Ok(()),
            Err(ApiKeyServiceError::KeyNotFound) if self.skip_missing => Ok(()),
            Err(e) => Err(e),
        }
    }
}

/// The arguments of `api-keys create`.
#[derive(Debug)]
pub struct CliCommandApiKeysCreate {
    pub owner: String,
    pub scope: Option<String>,
    pub tag: Option<String>,
    pub expiration: Option<Timestamp>,
    pub metadata: Option<Vec<(String, String)>>,
    pub skip_exists: bool,
    pub format: ManifestFormat,
}

impl CliCommandApiKeysCreate {
    /// The tag has at most six characters.
    pub fn validate(&self) -> (r: Result<(), ValidationReport>)
        ensures
            validation_outcome(r, broken(match self.tag { Some(t) => t@.len() <= 6, None => true }, "tag"@, "length"@)),
    {
        let mut found: Vec<Violation> = Vec::new();
        let ok = match &self.tag {
            Some(t) => t.as_str().unicode_len() <= 6,
            None => true,
        };
        check_rule(&mut found, ok, "tag", "length");
        assert(violation_pairs(found@) =~= broken(match self.tag { Some(t) => t@.len() <= 6, None => true }, "tag"@, "length"@));
        conclude(found)
    }

    /// What the key is created from; the metadata pairs are collected, later pairs
    /// replacing earlier values of the same key.
    pub fn payload(self) -> (p: CreateApiKeyPayload)
        ensures
            p.owner == self.owner,
            p.scope == self.scope,
            p.tag == self.tag,
            p.expires_at == self.expiration,
            p.metadata.wf(),
            p.metadata@ == (match self.metadata {
                Some(v) => entries_map_over(Map::empty(), v@),
                None => Map::empty(),
            }),
    {
        let metadata = match self.metadata {
            Some(v) => Metadata::from_entries(v),
            None => Metadata::new(),
        };
        CreateApiKeyPayload {
            owner: self.owner,
            scope: self.scope,
            tag: self.tag,
            expires_at: self.expiration,
            metadata,
        }
    }

    /// The command's outcome from the creation's: the key to print, or nothing when a key
    /// that already exists was to be skipped.
    pub fn settle(skip_exists: bool, outcome: Result<CreateApiKeyResponse, ApiKeyServiceError>)
        -> (r: Result<Option<CreateApiKeyResponse>, ApiKeyServiceError>)
        ensures
            (match outcome {
                Ok(k) => r == Ok::<Option<CreateApiKeyResponse>, ApiKeyServiceError>(Some(k)),
                Err(ApiKeyServiceError::KeyAlreadyExists) => if skip_exists {
                    r == Ok::<Option<CreateApiKeyResponse>, ApiKeyServiceError>(None)
                } else {
                    r == Err::<Option<CreateApiKeyResponse>, ApiKeyServiceError>(ApiKeyServiceError::KeyAlreadyExists)
                },
                Err(e) => r == Err::<Option<CreateApiKeyResponse>, ApiKeyServiceError>(e),
            }),
    {
        match outcome {
            Ok(k) => Ok(Some(k)),
            Err(ApiKeyServiceError::KeyAlreadyExists) if skip_exists => Ok(None),
            Err(e) => Err(e),
        }
    }
}

/// The arguments of `api-keys introspect`.
#[derive(Debug, Clone)]
pub struct CliCommandApiKeysIntrospect {
    pub api_key: String,
    pub scope: Option<String>,
    pub tags: Vec<Option<String>>,
    pub no_tag: bool,
    pub format: ManifestFormat,
}

/// The tag filter an introspection from the command line runs with: none at all when no
/// tag is asked for, the empty list (keys without a tag only) with `--no-tag`, else the
/// tags given; a refusal when both are given.
pub open spec fn cli_tag_filter(no_tag: bool, tags: Seq<Option<String>>) -> Result<Option<Seq<Option<Seq<char>>>>, CliRefusal> {
    if no_tag && tags.len() > 0 {
        Err(CliRefusal::ConflictingTagOptions)
    } else if no_tag {
        Ok(Some(Seq::empty()))
    } else if tags.len() > 0 {
        Ok(Some(tag_list_view(tags)))
    } else {
        Ok(None)
    }
}

impl CliCommandApiKeysIntrospect {
    /// The tag filter to introspect with.
    pub fn tag_filter(&self) -> (r: Result<Option<Vec<Option<String>>>, CliRefusal>)
        ensures
            (match r {
                Ok(Some(v)) => cli_tag_filter(self.no_tag, self.tags@) matches Ok(Some(w)) && tag_list_view(v@) == w,
                Ok(None) => cli_tag_filter(self.no_tag, self.tags@) matches Ok(None),
                Err(e) => cli_tag_filter(self.no_tag, self.tags@) matches Err(f) && e is ConflictingTagOptions && f is ConflictingTagOptions,
            }),
    {
        let required = self.tags.len() > 0;
        if self.no_tag && required {
            return Err(CliRefusal::ConflictingTagOptions);
        }
        if self.no_tag {
            let v: Vec<Option<String>> = Vec::new();
            assert(tag_list_view(v@) =~= Seq::<Option<Seq<char>>>::empty());
            return Ok(Some(v));
        }
        if required {
            let v = copy_tags(&self.tags);
            return Ok(Some(v));
        }
        Ok(None)
    }
}

/// A copy of a tag list.
fn copy_tags(tags: &Vec<Option<String>>) -> (v: Vec<Option<String>>)
    ensures
        tag_list_view(v@) == tag_list_view(tags@),
{
    let mut v: Vec<Option<String>> = Vec::new();
    let mut i: usize = 0;
    while i < tags.len()
        invariant
            i <= tags@.len(),
            v@.len() == i,
            tag_list_view(v@) == tag_list_view(tags@.subrange(0, i as int)),
        decreases tags@.len() - i,
    {
        let t = match &tags[i] {
            Some(s) => Some(s.clone()),
            None => None,
        };
        let ghost before = v@;
        v.push(t);
        proof {
            assert(tags@.subrange(0, i + 1) =~= tags@.subrange(0, i as int).push(tags@[i as int]));
            assert(v@ =~= before.push(t));
            assert(opt_view(t) == opt_view(tags@[i as int]));
            assert forall|k: int| 0 <= k < i + 1 implies #[trigger] tag_list_view(v@)[k] == tag_list_view(tags@.subrange(0, i + 1))[k] by {
                if k < i {
                    assert(tag_list_view(before)[k] == tag_list_view(tags@.subrange(0, i as int))[k]);
                    assert(v@[k] == before[k]);
                    assert(tags@.subrange(0, i + 1)[k] == tags@.subrange(0, i as int)[k]);
                }
            }
            assert(tag_list_view(v@) =~= tag_list_view(tags@.subrange(0, i + 1)));
        }
        i = i + 1;
    }
    assert(tags@.subrange(0, tags@.len() as int) =~= tags@);
    v
}

/// The tag filter the command line introspects with admits exactly the keys asked for:
/// with `--no-tag`, only keys without a tag; with tags given, exactly the listed tags (an
/// empty entry standing for no tag); with neither, every key. Both together are refused.
pub proof fn lemma_cli_tag_filter_admits(no_tag: bool, tags: Seq<Option<String>>, tag: Option<Seq<char>>)
    ensures
        (no_tag && tags.len() > 0) <==> cli_tag_filter(no_tag, tags) is Err,
        no_tag && tags.len() == 0 ==> (cli_tag_filter(no_tag, tags) matches Ok(f)
            && (tag_admitted(f, tag) <==> tag is None)),
        !no_tag && tags.len() == 0 ==> (cli_tag_filter(no_tag, tags) matches Ok(f) && tag_admitted(f, tag)),
        !no_tag && tags.len() > 0 ==> (cli_tag_filter(no_tag, tags) matches Ok(f)
            && (tag_admitted(f, tag) <==> exists|i: int| 0 <= i < tags.len() && #[trigger] opt_view(tags[i]) == tag)),
{
    if !no_tag && tags.len() > 0 {
        let lv = tag_list_view(tags);
        if lv.contains(tag) {
            let i = choose|i: int| 0 <= i < lv.len() && lv[i] == tag;
            assert(opt_view(tags[i]) == tag);
        }
        if exists|i: int| 0 <= i < tags.len() && #[trigger] opt_view(tags[i]) == tag {
            let i = choose|i: int| 0 <= i < tags.len() && #[trigger] opt_view(tags[i]) == tag;
            assert(lv[i] == tag);
        }
    }
}

/// What the server does about its default namespace at start-up, given what looking it
/// up returned.
#[derive(Debug, Clone)]
pub enum NamespaceBootstrap {
    /// It exists and is the default already.
    Ready,
    /// It exists but is not the default: make it so.
    MakeDefault,
    /// It does not exist: create it, then make it the default.
    CreateAndMakeDefault,
    /// The lookup failed otherwise: stop with the error.
    Fail(ApiKeyServiceError),
}

/// The start-up step for the default namespace.
pub fn namespace_bootstrap(lookup: Result<GetNamespaceResponse, ApiKeyServiceError>) -> (b: NamespaceBootstrap)
    ensures
        (match lookup {
            Ok(ns) => if ns.is_default { b is Ready } else { b is MakeDefault },
            Err(ApiKeyServiceError::NamespaceNotFound) => b is CreateAndMakeDefault,
            Err(e) => b == NamespaceBootstrap::Fail(e),
        }),
{
    match lookup {
        Ok(ns) => if ns.is_default { NamespaceBootstrap::Ready } else { NamespaceBootstrap::MakeDefault },
        Err(ApiKeyServiceError::NamespaceNotFound) => NamespaceBootstrap::CreateAndMakeDefault,
        Err(e) => NamespaceBootstrap::Fail(e),
    }
}

} // verus!
