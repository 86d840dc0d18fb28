//! The authentication gate. A request is admitted only if it carries a token
//! with a good signature whose subject names an account that the store still
//! holds at this very request.

use vstd::prelude::*;
use crate::decimal::parsed_id;
use crate::error::ApiError;
use crate::error::StoreFailure;
use crate::model::text_of;
use crate::model::Claims;
use crate::model::User;
use crate::store::Query;
use crate::token::subject_of;
use crate::token::TokenCodec;

verus! {

/// Where a request stands on its way to a handler.
#[derive(Debug, PartialEq, Eq)]
pub enum Gate {
    /// Nothing is known of the request but its two token carriers.
    Unauthenticated { cookie: Option<String>, bearer: Option<String> },
    /// A token was found on the request.
    TokenExtracted { token: String },
    /// The token's signature is good; this is its subject.
    TokenVerified { subject: String },
    /// The subject names this account identifier; the store is to say
    /// whether the account still exists.
    Resolving { id: i32 },
    /// The store holds the account.
    IdentityResolved { user: User },
    /// The request goes on to its handler with the account attached.
    Admitted { user: User },
    /// The request is answered with an error and goes no further.
    Rejected { error: ApiError },
}

/// Mathematical value of a gate state.
pub enum GateView {
    Unauthenticated { cookie: Option<Seq<char>>, bearer: Option<Seq<char>> },
    TokenExtracted { token: Seq<char> },
    TokenVerified { subject: Seq<char> },
    Resolving { id: i32 },
    IdentityResolved { user: User },
    Admitted { user: User },
    Rejected { error: ApiError },
}

impl View for Gate {
    type V = GateView;

    open spec fn view(&self) -> GateView {
        match *self {
            Gate::Unauthenticated { cookie, bearer } => GateView::Unauthenticated {
                cookie: text_of(cookie),
                bearer: text_of(bearer),
            },
            Gate::TokenExtracted { token } => GateView::TokenExtracted { token: token@ },
            Gate::TokenVerified { subject } => GateView::TokenVerified { subject: subject@ },
            Gate::Resolving { id } => GateView::Resolving { id },
            Gate::IdentityResolved { user } => GateView::IdentityResolved { user },
            Gate::Admitted { user } => GateView::Admitted { user },
            Gate::Rejected { error } => GateView::Rejected { error },
        }
    }
}

/// The token of a request: the cookie's where there is one, else the
/// bearer's.
pub open spec fn carried_token(
    cookie: Option<Seq<char>>,
    bearer: Option<Seq<char>>,
) -> Option<Seq<char>> {
    match cookie {
        Some(token) => Some(token),
        None => bearer,
    }
}

/// One transition that needs nothing from the store. A state
/// that waits for the store, and the two final states, stay as they are.
pub open spec fn gate_next(state: GateView, secret: Seq<u8>) -> GateView {
    match state {
        GateView::Unauthenticated { cookie, bearer } => match carried_token(cookie, bearer) {
            Some(token) => GateView::TokenExtracted { token },
            None => GateView::Rejected { error: ApiError::Unauthorized },
        },
        GateView::TokenExtracted { token } => match subject_of(token, secret) {
            Some(subject) => GateView::TokenVerified { subject },
            None => GateView::Rejected { error: ApiError::Unauthorized },
        },
        GateView::TokenVerified { subject } => match parsed_id(subject) {
            Some(id) => GateView::Resolving { id },
            None => GateView::Rejected { error: ApiError::Internal },
        },
        GateView::IdentityResolved { user } => GateView::Admitted { user },
        _ => state,
    }
}

/// The transition on the store's answer to the lookup. Only a state that
/// waits for the store takes it.
pub open spec fn gate_resolved(
    state: GateView,
    found: Result<Option<User>, StoreFailure>,
) -> GateView {
    match state {
        GateView::Resolving { id } => match found {
            Ok(Some(user)) => GateView::IdentityResolved { user },
            Ok(None) => GateView::Rejected { error: ApiError::Unauthorized },
            Err(_) => GateView::Rejected { error: ApiError::Internal },
        },
        _ => state,
    }
}

/// Where a request with these carriers stands when the store is needed: the
/// three transitions from the start.
pub open spec fn gate_entry(
    cookie: Option<Seq<char>>,
    bearer: Option<Seq<char>>,
    secret: Seq<u8>,
) -> GateView {
    gate_next(
        gate_next(gate_next(GateView::Unauthenticated { cookie, bearer }, secret), secret),
        secret,
    )
}

/// Where a waiting request stands after the store's answer: resolved and
/// at once admitted, or rejected.
pub open spec fn gate_exit(id: i32, found: Result<Option<User>, StoreFailure>) -> GateView {
    match gate_resolved(GateView::Resolving { id }, found) {
        GateView::IdentityResolved { user } => GateView::Admitted { user },
        other => other,
    }
}

/// The token of a request: the cookie's where there is one, else the
/// bearer's.
pub fn extract_token(cookie: Option<String>, bearer: Option<String>) -> (token: Option<String>)
    ensures
        text_of(token) == carried_token(text_of(cookie), text_of(bearer)),
        token == match cookie {
            Some(t) => Some(t),
            None => bearer,
        },
{
    match cookie {
        Some(token) => Some(token),
        None => bearer,
    }
}

impl Gate {
    /// The query that a waiting state needs answered.
    pub fn pending(&self) -> (query: Option<Query>)
        ensures
            query == match *self {
                Gate::Resolving { id } => Some(Query::AccountById { id }),
                _ => None,
            },
    {
        match self {
            Gate::Resolving { id } => Some(Query::AccountById { id: *id }),
            _ => None,
        }
    }

    /// Takes one transition that needs nothing from the store.
    pub fn step(self, codec: &TokenCodec) -> (next: Gate)
        ensures
            next@ == gate_next(self@, codec.secret()),
    {
        match self {
            Gate::Unauthenticated { cookie, bearer } => match extract_token(cookie, bearer) {
                Some(token) => Gate::TokenExtracted { token },
                None => Gate::Rejected { error: ApiError::Unauthorized },
            },
            Gate::TokenExtracted { token } => match codec.verify(token.as_str()) {
                Ok(claims) => Gate::TokenVerified { subject: claims.sub },
                Err(_) => Gate::Rejected { error: ApiError::Unauthorized },
            },
            Gate::TokenVerified { subject } => {
                let claims = Claims { sub: subject };
                match TokenCodec::account_id(&claims) {
                    Some(id) => Gate::Resolving { id },
                    None => Gate::Rejected { error: ApiError::Internal },
                }
            },
            Gate::IdentityResolved { user } => Gate::Admitted { user },
            Gate::Resolving { id } => Gate::Resolving { id },
            Gate::Admitted { user } => Gate::Admitted { user },
            Gate::Rejected { error } => Gate::Rejected { error },
        }
    }

    /// Takes the transition on the store's answer to the lookup.
    pub fn resolve(self, found: Result<Option<User>, StoreFailure>) -> (next: Gate)
        ensures
            next@ == gate_resolved(self@, found),
    {
        match self {
            Gate::Resolving { id } => match found {
                Ok(Some(user)) => Gate::IdentityResolved { user },
                Ok(None) => Gate::Rejected { error: ApiError::Unauthorized },
                Err(_) => Gate::Rejected { error: ApiError::Internal },
            },
            other => other,
        }
    }
}

/// Brings a request to the point where the store is needed: the result
/// either waits for the lookup of the account that the token names, or is a
/// rejection.
pub fn middleware(cookie: Option<String>, bearer: Option<String>, codec: &TokenCodec) -> (gate:
    Gate)
    ensures
        gate@ == gate_entry(text_of(cookie), text_of(bearer), codec.secret()),
        gate is Resolving || gate is Rejected,
{
    let start = Gate::Unauthenticated { cookie, bearer };
    start.step(codec).step(codec).step(codec)
}

/// Ends the admission with the answer of the store: the account held
/// under the identifier is admitted, an account that is gone is rejected.
pub fn middleware_resolved(id: i32, found: Result<Option<User>, StoreFailure>) -> (gate: Gate)
    ensures
        gate@ == gate_exit(id, found),
        gate is Admitted || gate is Rejected,
{
    let waiting = Gate::Resolving { id };
    match waiting.resolve(found) {
        Gate::IdentityResolved { user } => Gate::Admitted { user },
        other => other,
    }
}

} // verus!
