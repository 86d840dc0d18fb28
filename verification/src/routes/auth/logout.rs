//! Logout: the session lives in the token alone, so ending it means telling
//! the client to drop the cookie.

use vstd::prelude::*;
use crate::cookie::SessionCookie;
use crate::error::Status;

verus! {

/// What a logout answers.
#[derive(Clone, Debug, PartialEq, Eq)]
pub struct LogoutResponse {
    pub status: Status,
    pub cookie: SessionCookie,
}

/// Answers a logout: success, with the cookie that clears the session.
pub fn logout() -> (response: LogoutResponse)
    ensures
        response.status == Status::Success,
        response.cookie.cleared(),
{
    LogoutResponse { status: Status::Success, cookie: SessionCookie::clearing() }
}

} // verus!
