//! Deleting one task of the authenticated account.

use vstd::prelude::*;
use crate::error::Status;
use crate::error::StoreFailure;
use crate::model::Task;
use crate::model::User;
use crate::store::Query;

verus! {

/// The status a delete answers for what the store removed.
pub open spec fn delete_status(removed: Result<Option<Task>, StoreFailure>) -> Status {
    match removed {
        Ok(Some(_)) => Status::NoContent,
        Ok(None) => Status::NotFound,
        Err(_) => Status::InternalServerError,
    }
}

/// Starts a delete: the task `id`, scoped to the authenticated account.
pub fn delete(id: i32, user: &User) -> (query: Query)
    ensures
        query == (Query::DeleteTask { id, owner: user.id }),
{
    Query::DeleteTask { id, owner: user.id }
}

/// Ends a delete. Where no row went, the task was absent or somebody
/// else's: not found.
pub fn delete_done(removed: Result<Option<Task>, StoreFailure>) -> (status: Status)
    ensures
        status == delete_status(removed),
{
    match removed {
        Ok(Some(_)) => Status::NoContent,
        Ok(None) => Status::NotFound,
        Err(_) => Status::InternalServerError,
    }
}

} // verus!
