//! The cookie that carries a session token, as plain data.

use vstd::prelude::*;

verus! {

/// The cross-site policy of a cookie.
#[derive(Clone, Copy, Debug, PartialEq, Eq, Structural)]
pub enum SameSite {
    Strict,
    Lax,
    Unrestricted,
}

/// How long a browser keeps a cookie.
#[derive(Clone, Copy, Debug, PartialEq, Eq, Structural)]
pub enum CookieLifetime {
    /// Until the browser session ends.
    Session,
    /// For as long as a browser will keep it.
    Permanent,
}

/// A cookie for the caller to set on the response.
#[derive(Clone, Debug, PartialEq, Eq)]
pub struct SessionCookie {
    pub name: String,
    pub value: String,
    pub path: String,
    pub same_site: SameSite,
    pub secure: bool,
    pub http_only: bool,
    pub lifetime: CookieLifetime,
}

/// The lifetime that a login asks for.
pub open spec fn lifetime_for(remember: bool) -> CookieLifetime {
    if remember {
        CookieLifetime::Permanent
    } else {
        CookieLifetime::Session
    }
}

impl SessionCookie {
    /// The cookie is the one that carries `token` after a login: named
    /// `token`, for every path, lax, hidden from scripts and sent over secure
    /// transport only.
    pub open spec fn carries(&self, token: Seq<char>, remember: bool) -> bool {
        &&& self.name@ == "token"@
        &&& self.value@ == token
        &&& self.path@ == "/"@
        &&& self.same_site == SameSite::Lax
        &&& self.secure
        &&& self.http_only
        &&& self.lifetime == lifetime_for(remember)
    }

    /// The cookie is the one that replaces the session cookie at logout: the
    /// same name and path with an empty value.
    pub open spec fn cleared(&self) -> bool {
        &&& self.name@ == "token"@
        &&& self.value@ == Seq::<char>::empty()
        &&& self.path@ == "/"@
        &&& self.same_site == SameSite::Lax
        &&& !self.secure
        &&& self.http_only
        &&& self.lifetime == CookieLifetime::Session
    }

    /// Builds the cookie that carries `token`.
    pub fn for_token(token: String, remember: bool) -> (cookie: SessionCookie)
        ensures
            cookie.carries(token@, remember),
            cookie.value == token,
    {
        SessionCookie {
            name: "token".to_owned(),
            value: token,
            path: "/".to_owned(),
            same_site: SameSite::Lax,
            secure: true,
            http_only: true,
            lifetime: if remember {
                CookieLifetime::Permanent
            } else {
                CookieLifetime::Session
            },
        }
    }

    /// Builds the cookie that clears the session.
    pub fn clearing() -> (cookie: SessionCookie)
        ensures
            cookie.cleared(),
    {
        SessionCookie {
            name: "token".to_owned(),
            value: String::new(),
            path: "/".to_owned(),
            same_site: SameSite::Lax,
            secure: false,
            http_only: true,
            lifetime: CookieLifetime::Session,
        }
    }
}

} // verus!
