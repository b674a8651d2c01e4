//! The background tasks the service queues.

use vstd::prelude::*;
use crate::key_ops::{ChangeApiKey, ChangeKeyStage, KeyChange};
use crate::model::Timestamp;

verus! {

/// Recording that a key was used, queued after each successful introspection.
#[derive(Debug, Clone)]
pub struct SetApiKeyLastUsedTask {
    pub id: u128,
    pub last_used_at: Timestamp,
    pub tenant_id: String,
}

/// The tasks the service queues.
#[derive(Debug, Clone)]
pub enum TaskOperations {
    SetApiKeyLastUsed(SetApiKeyLastUsedTask),
}

impl TaskOperations {
    /// The operation that carries the task out.
    pub fn operation(self) -> (op: ChangeApiKey)
        ensures
            (match self {
                TaskOperations::SetApiKeyLastUsed(t) => {
                    &&& op.id == t.id
                    &&& op.tenant_id == t.tenant_id
                    &&& op.stage == ChangeKeyStage::Start(KeyChange::SetLastUsed(t.last_used_at))
                },
            }),
    {
        match self {
            TaskOperations::SetApiKeyLastUsed(t) => ChangeApiKey::new(t.id, t.tenant_id, KeyChange::SetLastUsed(t.last_used_at)),
        }
    }
}

} // verus!
