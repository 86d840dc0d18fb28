//! Reading one task of the authenticated account.

use vstd::prelude::*;
use crate::error::ApiError;
use crate::error::StoreFailure;
use crate::model::Task;
use crate::model::User;
use crate::store::Query;

verus! {

/// What a read answers for what the store found.
pub open spec fn read_reply(found: Result<Option<Task>, StoreFailure>) -> Result<Task, ApiError> {
    match found {
        Ok(Some(task)) => Ok(task),
        Ok(None) => Err(ApiError::NotFound),
        Err(_) => Err(ApiError::Internal),
    }
}

/// Starts a read: the task `id`, scoped to the authenticated account.
pub fn read(id: i32, user: &User) -> (query: Query)
    ensures
        query == (Query::TaskOf { id, owner: user.id }),
{
    Query::TaskOf { id, owner: user.id }
}

/// Ends a read. A task that is absent and a task of somebody else look the
/// same: not found.
pub fn read_found(found: Result<Option<Task>, StoreFailure>) -> (reply: Result<Task, ApiError>)
    ensures
        reply == read_reply(found),
{
    match found {
        Ok(Some(task)) => Ok(task),
        Ok(None) => Err(ApiError::NotFound),
        Err(_) => Err(ApiError::Internal),
    }
}

} // verus!
