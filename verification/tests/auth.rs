use todo_backend::cookie::CookieLifetime;
use todo_backend::cookie::SameSite;
use todo_backend::cookie::SessionCookie;
use todo_backend::error::ApiError;
use todo_backend::error::Status;
use todo_backend::error::StoreFailure;
use todo_backend::hasher::hash_password;
use todo_backend::hasher::verify_password;
use todo_backend::model::User;
use todo_backend::routes::auth::login::login;
use todo_backend::routes::auth::login::login_found;
use todo_backend::routes::auth::login::verify;
use todo_backend::routes::auth::login::UserLoginRequest;
use todo_backend::routes::auth::logout::logout;
use todo_backend::routes::auth::middleware::extract_token;
use todo_backend::routes::auth::middleware::middleware;
use todo_backend::routes::auth::middleware::middleware_resolved;
use todo_backend::routes::auth::middleware::Gate;
use todo_backend::routes::auth::register::register;
use todo_backend::routes::auth::register::register_checked;
use todo_backend::routes::auth::register::register_hashed;
use todo_backend::routes::auth::register::register_inserted;
use todo_backend::routes::auth::register::RegisterStep;
use todo_backend::routes::auth::register::UserRegisterRequest;
use todo_backend::routes::auth::register::UserRegisterResponse;
use todo_backend::routes::Endpoint;
use todo_backend::routes::Method;
use todo_backend::store::Query;
use todo_backend::token::TokenCodec;

fn codec() -> TokenCodec {
    TokenCodec::new(b"gate secret".to_vec())
}

fn request(username: &str, password: &str) -> UserRegisterRequest {
    UserRegisterRequest { username: username.to_string(), password: password.to_string() }
}

fn credentials(username: &str, password: &str, remember_me: bool) -> UserLoginRequest {
    UserLoginRequest {
        username: username.to_string(),
        password: password.to_string(),
        remember_me,
    }
}

fn account(id: i32, username: &str, password: &str) -> User {
    User {
        id,
        username: username.to_string(),
        password: hash_password(password).unwrap(),
        token: None,
    }
}

#[test]
fn status_codes() {
    assert_eq!(Status::Success.code(), 200);
    assert_eq!(Status::NoContent.code(), 204);
    assert_eq!(Status::BadRequest.code(), 400);
    assert_eq!(Status::Unauthorized.code(), 401);
    assert_eq!(Status::NotFound.code(), 404);
    assert_eq!(Status::Conflict.code(), 409);
    assert_eq!(Status::InternalServerError.code(), 500);
}

#[test]
fn error_statuses() {
    assert_eq!(ApiError::Validation.status(), Status::BadRequest);
    assert_eq!(ApiError::Conflict.status(), Status::Conflict);
    assert_eq!(ApiError::InvalidCredentials.status(), Status::BadRequest);
    assert_eq!(ApiError::Unauthorized.status(), Status::Unauthorized);
    assert_eq!(ApiError::NotFound.status(), Status::NotFound);
    assert_eq!(ApiError::Internal.status(), Status::InternalServerError);
}

#[test]
fn register_asks_whether_the_name_is_taken() {
    assert_eq!(
        register(&request("alice", "pw")),
        RegisterStep::Ask(Query::AccountExists { username: "alice".to_string() })
    );
}

#[test]
fn register_refuses_bad_lengths() {
    let refused = RegisterStep::Reply(Err(ApiError::Validation));
    assert_eq!(register(&request("", "pw")), refused);
    assert_eq!(register(&request("alice", "")), refused);
    assert_eq!(register(&request(&"a".repeat(65), "pw")), refused);
    assert_eq!(register(&request("alice", &"p".repeat(65))), refused);
    assert!(request(&"a".repeat(64), &"p".repeat(64)).validate());
    assert!(!request(&"a".repeat(65), "pw").validate());
}

#[test]
fn register_conflict_on_taken_name() {
    assert_eq!(
        register_checked(&request("alice", "pw"), Ok(true)),
        RegisterStep::Reply(Err(ApiError::Conflict))
    );
}

#[test]
fn register_store_failure_is_internal() {
    assert_eq!(
        register_checked(&request("alice", "pw"), Err(StoreFailure)),
        RegisterStep::Reply(Err(ApiError::Internal))
    );
    assert_eq!(register_inserted(Err(StoreFailure)), Err(ApiError::Internal));
    assert_eq!(register_inserted(Ok(None)), Err(ApiError::Internal));
}

#[test]
fn register_inserts_a_hash_never_the_password() {
    match register_checked(&request("alice", "pw"), Ok(false)) {
        RegisterStep::Ask(Query::InsertAccount { username, password_hash }) => {
            assert_eq!(username, "alice");
            assert_ne!(password_hash, "pw");
            assert!(verify_password("pw", &password_hash));
            assert!(!verify_password("other", &password_hash));
        }
        other => panic!("unexpected step {:?}", other),
    }
}

#[test]
fn register_hashed_outcomes() {
    assert_eq!(
        register_hashed(&request("alice", "pw"), Some("h".to_string())),
        RegisterStep::Ask(Query::InsertAccount {
            username: "alice".to_string(),
            password_hash: "h".to_string()
        })
    );
    assert_eq!(
        register_hashed(&request("alice", "pw"), None),
        RegisterStep::Reply(Err(ApiError::Internal))
    );
}

#[test]
fn register_answers_with_id_and_name_only() {
    let user = User {
        id: 11,
        username: "alice".to_string(),
        password: "hash".to_string(),
        token: None,
    };
    assert_eq!(
        register_inserted(Ok(Some(user))),
        Ok(UserRegisterResponse { id: 11, username: "alice".to_string() })
    );
}

#[test]
fn login_looks_the_username_up() {
    assert_eq!(
        login(&credentials("alice", "pw", false)),
        Query::AccountByUsername { username: "alice".to_string() }
    );
}

#[test]
fn login_success_issues_a_token_for_the_account() {
    let reply =
        login_found(&credentials("alice", "pw", false), &codec(), Ok(Some(account(5, "alice", "pw"))))
            .unwrap();
    assert_eq!(Some(reply.token.clone()), codec().issue(5));
    let claims = codec().verify(&reply.token).unwrap();
    assert_eq!(TokenCodec::account_id(&claims), Some(5));
    assert_eq!(reply.cookie, SessionCookie {
        name: "token".to_string(),
        value: reply.token.clone(),
        path: "/".to_string(),
        same_site: SameSite::Lax,
        secure: true,
        http_only: true,
        lifetime: CookieLifetime::Session,
    });
}

#[test]
fn login_remember_me_makes_the_cookie_permanent() {
    let reply =
        login_found(&credentials("alice", "pw", true), &codec(), Ok(Some(account(5, "alice", "pw"))))
            .unwrap();
    assert_eq!(reply.cookie.lifetime, CookieLifetime::Permanent);
    assert_eq!(reply.cookie.value, reply.token);
}

#[test]
fn login_wrong_password_and_unknown_user_look_alike() {
    let wrong =
        login_found(&credentials("alice", "wrong", false), &codec(), Ok(Some(account(5, "alice", "pw"))));
    let unknown = login_found(&credentials("bob", "pw", false), &codec(), Ok(None));
    assert_eq!(wrong, Err(ApiError::InvalidCredentials));
    assert_eq!(unknown, wrong);
    assert_eq!(ApiError::InvalidCredentials.status().code(), 400);
}

#[test]
fn login_malformed_stored_hash_is_a_mismatch() {
    let user = User { id: 5, username: "alice".to_string(), password: "pw".to_string(), token: None };
    assert_eq!(
        login_found(&credentials("alice", "pw", false), &codec(), Ok(Some(user))),
        Err(ApiError::InvalidCredentials)
    );
}

#[test]
fn login_store_failure_is_internal() {
    assert_eq!(
        login_found(&credentials("alice", "pw", false), &codec(), Err(StoreFailure)),
        Err(ApiError::Internal)
    );
}

#[test]
fn logout_clears_the_cookie() {
    let response = logout();
    assert_eq!(response.status, Status::Success);
    assert_eq!(response.cookie, SessionCookie {
        name: "token".to_string(),
        value: String::new(),
        path: "/".to_string(),
        same_site: SameSite::Lax,
        secure: false,
        http_only: true,
        lifetime: CookieLifetime::Session,
    });
}

#[test]
fn cookie_goes_before_bearer() {
    assert_eq!(extract_token(Some("c".to_string()), Some("b".to_string())), Some("c".to_string()));
    assert_eq!(extract_token(None, Some("b".to_string())), Some("b".to_string()));
    assert_eq!(extract_token(Some("c".to_string()), None), Some("c".to_string()));
    assert_eq!(extract_token(None, None), None);
}

#[test]
fn request_without_token_is_unauthorized() {
    assert_eq!(middleware(None, None, &codec()), Gate::Rejected { error: ApiError::Unauthorized });
}

#[test]
fn request_with_bad_token_is_unauthorized() {
    assert_eq!(
        middleware(Some("junk".to_string()), None, &codec()),
        Gate::Rejected { error: ApiError::Unauthorized }
    );
    let foreign = TokenCodec::new(b"someone else".to_vec()).issue(1).unwrap();
    assert_eq!(
        middleware(None, Some(foreign), &codec()),
        Gate::Rejected { error: ApiError::Unauthorized }
    );
}

#[test]
fn good_token_waits_for_the_lookup() {
    let token = codec().issue(77).unwrap();
    let by_cookie = middleware(Some(token.clone()), None, &codec());
    assert_eq!(by_cookie, Gate::Resolving { id: 77 });
    assert_eq!(by_cookie.pending(), Some(Query::AccountById { id: 77 }));
    assert_eq!(middleware(None, Some(token), &codec()), Gate::Resolving { id: 77 });
}

#[test]
fn bad_cookie_is_not_rescued_by_a_good_bearer() {
    let token = codec().issue(77).unwrap();
    assert_eq!(
        middleware(Some("junk".to_string()), Some(token.clone()), &codec()),
        Gate::Rejected { error: ApiError::Unauthorized }
    );
    assert_eq!(
        middleware(Some(token), Some("junk".to_string()), &codec()),
        Gate::Resolving { id: 77 }
    );
}

#[test]
fn subject_that_is_no_identifier_is_internal() {
    let mut claims = serde_json::Map::new();
    claims.insert("sub".to_string(), serde_json::Value::String("alice".to_string()));
    let token = jsonwebtoken::encode(
        &jsonwebtoken::Header::default(),
        &claims,
        &jsonwebtoken::EncodingKey::from_secret(b"gate secret"),
    )
    .unwrap();
    assert_eq!(
        middleware(Some(token), None, &codec()),
        Gate::Rejected { error: ApiError::Internal }
    );
    assert_eq!(ApiError::Internal.status().code(), 500);
}

#[test]
fn gate_moves_one_state_at_a_time() {
    let token = codec().issue(3).unwrap();
    let start = Gate::Unauthenticated { cookie: Some(token.clone()), bearer: None };
    let extracted = start.step(&codec());
    assert_eq!(extracted, Gate::TokenExtracted { token });
    let verified = extracted.step(&codec());
    assert_eq!(verified, Gate::TokenVerified { subject: "3".to_string() });
    let resolving = verified.step(&codec());
    assert_eq!(resolving, Gate::Resolving { id: 3 });
    assert_eq!(resolving.pending(), Some(Query::AccountById { id: 3 }));
    let waiting = resolving.step(&codec());
    assert_eq!(waiting, Gate::Resolving { id: 3 });
    let user = User { id: 3, username: "c".to_string(), password: "h".to_string(), token: None };
    let resolved = waiting.resolve(Ok(Some(user.clone())));
    assert_eq!(resolved, Gate::IdentityResolved { user: user.clone() });
    assert_eq!(resolved.pending(), None);
    let admitted = resolved.step(&codec());
    assert_eq!(admitted, Gate::Admitted { user: user.clone() });
    assert_eq!(admitted.step(&codec()), Gate::Admitted { user });
}

#[test]
fn final_states_ignore_the_store() {
    let rejected = Gate::Rejected { error: ApiError::Unauthorized };
    assert_eq!(rejected.resolve(Ok(None)), Gate::Rejected { error: ApiError::Unauthorized });
    let rejected = Gate::Rejected { error: ApiError::Unauthorized };
    assert_eq!(rejected.step(&codec()), Gate::Rejected { error: ApiError::Unauthorized });
}

#[test]
fn lookup_outcomes() {
    let user = User { id: 3, username: "c".to_string(), password: "h".to_string(), token: None };
    assert_eq!(middleware_resolved(3, Ok(Some(user.clone()))), Gate::Admitted { user });
    assert_eq!(middleware_resolved(3, Ok(None)), Gate::Rejected { error: ApiError::Unauthorized });
    assert_eq!(
        middleware_resolved(3, Err(StoreFailure)),
        Gate::Rejected { error: ApiError::Internal }
    );
    assert_eq!(ApiError::Unauthorized.status().code(), 401);
}

#[test]
fn verify_gives_the_account_or_one_error() {
    let alice = account(5, "alice", "pw");
    assert_eq!(verify("pw", Ok(Some(alice.clone()))), Ok(alice.clone()));
    assert_eq!(verify("wrong", Ok(Some(alice))), Err(ApiError::InvalidCredentials));
    assert_eq!(verify("pw", Ok(None)), Err(ApiError::InvalidCredentials));
    assert_eq!(verify("pw", Err(StoreFailure)), Err(ApiError::Internal));
}

#[test]
fn only_registration_and_login_are_open() {
    let all = [
        Endpoint::Register,
        Endpoint::Login,
        Endpoint::Logout,
        Endpoint::ListTasks,
        Endpoint::CreateTask,
        Endpoint::ReadTask,
        Endpoint::UpdateTask,
        Endpoint::DeleteTask,
    ];
    let open: Vec<Endpoint> = all.iter().copied().filter(|e| !e.protected()).collect();
    assert_eq!(open, vec![Endpoint::Register, Endpoint::Login]);
}

#[test]
fn route_table() {
    assert_eq!((Endpoint::Register.method(), Endpoint::Register.path()), (Method::Post, "/auth/register"));
    assert_eq!((Endpoint::Login.method(), Endpoint::Login.path()), (Method::Post, "/auth/login"));
    assert_eq!((Endpoint::Logout.method(), Endpoint::Logout.path()), (Method::Get, "/auth/logout"));
    assert_eq!((Endpoint::ListTasks.method(), Endpoint::ListTasks.path()), (Method::Get, "/tasks"));
    assert_eq!((Endpoint::CreateTask.method(), Endpoint::CreateTask.path()), (Method::Post, "/tasks"));
    assert_eq!((Endpoint::ReadTask.method(), Endpoint::ReadTask.path()), (Method::Get, "/tasks/:id"));
    assert_eq!((Endpoint::UpdateTask.method(), Endpoint::UpdateTask.path()), (Method::Patch, "/tasks/:id"));
    assert_eq!((Endpoint::DeleteTask.method(), Endpoint::DeleteTask.path()), (Method::Delete, "/tasks/:id"));
    assert!(Endpoint::ReadTask.takes_id());
    assert!(Endpoint::UpdateTask.takes_id());
    assert!(Endpoint::DeleteTask.takes_id());
    assert!(!Endpoint::ListTasks.takes_id());
    assert!(!Endpoint::CreateTask.takes_id());
}
