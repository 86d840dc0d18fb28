use todo_backend::error::ApiError;
use todo_backend::error::Status;
use todo_backend::model::Task;
use todo_backend::model::User;
use todo_backend::routes::auth::login::login;
use todo_backend::routes::auth::login::login_found;
use todo_backend::routes::auth::login::UserLoginRequest;
use todo_backend::routes::auth::middleware::middleware;
use todo_backend::routes::auth::middleware::middleware_resolved;
use todo_backend::routes::auth::middleware::Gate;
use todo_backend::routes::auth::register::register;
use todo_backend::routes::auth::register::register_checked;
use todo_backend::routes::auth::register::register_inserted;
use todo_backend::routes::auth::register::RegisterStep;
use todo_backend::routes::auth::register::UserRegisterRequest;
use todo_backend::routes::auth::register::UserRegisterResponse;
use todo_backend::routes::tasks::create::create;
use todo_backend::routes::tasks::create::create_inserted;
use todo_backend::routes::tasks::create::CreateTaskRequest;
use todo_backend::routes::tasks::delete::delete;
use todo_backend::routes::tasks::delete::delete_done;
use todo_backend::routes::tasks::read::read;
use todo_backend::routes::tasks::read::read_found;
use todo_backend::routes::tasks::update::update;
use todo_backend::routes::tasks::update::Patch;
use todo_backend::routes::tasks::update::UpdateAction;
use todo_backend::routes::tasks::update::UpdateEvent;
use todo_backend::routes::tasks::update::UpdateTaskRequest;
use todo_backend::store::Query;
use todo_backend::token::TokenCodec;

/// A store in memory that answers the library's queries as a relational
/// store with a cascading foreign key would.
struct Store {
    accounts: Vec<User>,
    tasks: Vec<Task>,
    next_id: i32,
    clock: i64,
}

enum Answer {
    Exists(bool),
    Account(Option<User>),
    Task(Option<Task>),
    Tasks(Vec<Task>),
}

impl Store {
    fn new() -> Store {
        Store { accounts: Vec::new(), tasks: Vec::new(), next_id: 1, clock: 0 }
    }

    fn run(&mut self, query: Query) -> Answer {
        self.clock += 1;
        match query {
            Query::AccountExists { username } => {
                Answer::Exists(self.accounts.iter().any(|u| u.username == username))
            }
            Query::InsertAccount { username, password_hash } => {
                let user = User { id: self.next_id, username, password: password_hash, token: None };
                self.next_id += 1;
                self.accounts.push(user.clone());
                Answer::Account(Some(user))
            }
            Query::AccountByUsername { username } => {
                Answer::Account(self.accounts.iter().find(|u| u.username == username).cloned())
            }
            Query::AccountById { id } => {
                Answer::Account(self.accounts.iter().find(|u| u.id == id).cloned())
            }
            Query::InsertTask { owner, title, description } => {
                let task = Task {
                    id: self.next_id,
                    user_id: owner,
                    title,
                    description,
                    completed: false,
                    created_at: self.clock,
                    updated_at: self.clock,
                };
                self.next_id += 1;
                self.tasks.push(task.clone());
                Answer::Task(Some(task))
            }
            Query::TaskOf { id, owner } => Answer::Task(
                self.tasks.iter().find(|t| t.id == id && t.user_id == owner).cloned(),
            ),
            Query::TasksOf { owner } => {
                let mut rows: Vec<Task> =
                    self.tasks.iter().filter(|t| t.user_id == owner).cloned().collect();
                rows.sort_by_key(|t| std::cmp::Reverse(t.created_at));
                Answer::Tasks(rows)
            }
            Query::DeleteTask { id, owner } => {
                let found = self.tasks.iter().position(|t| t.id == id && t.user_id == owner);
                Answer::Task(found.map(|i| self.tasks.remove(i)))
            }
            Query::UpdateTask { id, owner, title, description, completed } => {
                let clock = self.clock;
                let row = self.tasks.iter_mut().find(|t| t.id == id && t.user_id == owner);
                Answer::Task(row.map(|t| {
                    t.title = title;
                    t.description = description;
                    t.completed = completed;
                    t.updated_at = clock;
                    t.clone()
                }))
            }
        }
    }

    fn delete_account(&mut self, id: i32) {
        self.accounts.retain(|u| u.id != id);
        self.tasks.retain(|t| t.user_id != id);
    }

    fn taken(&mut self, query: Query) -> bool {
        match self.run(query) {
            Answer::Exists(b) => b,
            _ => panic!("not an existence answer"),
        }
    }

    fn account(&mut self, query: Query) -> Option<User> {
        match self.run(query) {
            Answer::Account(a) => a,
            _ => panic!("not an account answer"),
        }
    }

    fn task(&mut self, query: Query) -> Option<Task> {
        match self.run(query) {
            Answer::Task(t) => t,
            _ => panic!("not a task answer"),
        }
    }
}

fn codec() -> TokenCodec {
    TokenCodec::new(b"end to end".to_vec())
}

fn do_register(store: &mut Store, username: &str, password: &str) -> Result<UserRegisterResponse, ApiError> {
    let request =
        UserRegisterRequest { username: username.to_string(), password: password.to_string() };
    let query = match register(&request) {
        RegisterStep::Ask(query) => query,
        RegisterStep::Reply(reply) => return reply,
    };
    let taken = store.taken(query);
    let query = match register_checked(&request, Ok(taken)) {
        RegisterStep::Ask(query) => query,
        RegisterStep::Reply(reply) => return reply,
    };
    let row = store.account(query);
    register_inserted(Ok(row))
}

fn do_login(store: &mut Store, username: &str, password: &str) -> Result<String, ApiError> {
    let request = UserLoginRequest {
        username: username.to_string(),
        password: password.to_string(),
        remember_me: false,
    };
    let found = store.account(login(&request));
    login_found(&request, &codec(), Ok(found)).map(|r| r.token)
}

fn authenticate(store: &mut Store, token: &str) -> Result<User, ApiError> {
    let gate = middleware(None, Some(token.to_string()), &codec());
    let id = match gate {
        Gate::Resolving { id } => id,
        Gate::Rejected { error } => return Err(error),
        other => panic!("unexpected state {:?}", other),
    };
    let found = store.account(gate.pending().unwrap());
    match middleware_resolved(id, Ok(found)) {
        Gate::Admitted { user } => Ok(user),
        Gate::Rejected { error } => Err(error),
        other => panic!("unexpected state {:?}", other),
    }
}

fn do_update(store: &mut Store, id: i32, user: &User, patch: UpdateTaskRequest) -> Result<Task, ApiError> {
    let snapshot = store.tasks.clone();
    let (mut state, mut action) = update(id, user, patch);
    loop {
        let event = match action {
            UpdateAction::Begin => UpdateEvent::Began(Ok(())),
            UpdateAction::Ask(query) => {
                let row = store.task(query);
                state.answered(Ok(row))
            }
            UpdateAction::Commit => UpdateEvent::Committed(Ok(())),
            UpdateAction::Abort(error) => {
                store.tasks = snapshot;
                return Err(error);
            }
            UpdateAction::Reply(reply) => return reply,
        };
        let next = state.advance(event);
        state = next.0;
        action = next.1;
    }
}

fn title(text: &str) -> UpdateTaskRequest {
    UpdateTaskRequest {
        title: Patch::SetValue(text.to_string()),
        description: Patch::Absent,
        completed: Patch::Absent,
    }
}

#[test]
fn register_login_create_delete() {
    let mut store = Store::new();
    let alice = do_register(&mut store, "alice", "pw").unwrap();
    assert_eq!(alice.username, "alice");

    let token = do_login(&mut store, "alice", "pw").unwrap();
    let wrong = do_login(&mut store, "alice", "wrong").unwrap_err();
    assert_eq!(wrong.status().code(), 400);

    let user = authenticate(&mut store, &token).unwrap();
    assert_eq!(user.id, alice.id);

    let untitled = CreateTaskRequest { title: String::new(), description: None };
    assert_eq!(create(&user, untitled).unwrap_err().status().code(), 400);
    assert!(store.tasks.is_empty());

    let request = CreateTaskRequest { title: "first".to_string(), description: None };
    let inserted = store.task(create(&user, request).unwrap());
    let task = create_inserted(Ok(inserted)).unwrap();
    assert_eq!(task.user_id, alice.id);
    assert_eq!(task.title, "first");

    let removed = store.task(delete(task.id, &user));
    assert_eq!(delete_done(Ok(removed)).code(), 204);
    let found = store.task(read(task.id, &user));
    assert_eq!(read_found(Ok(found)).unwrap_err().status().code(), 404);
    let removed = store.task(delete(task.id, &user));
    assert_eq!(delete_done(Ok(removed)), Status::NotFound);
}

#[test]
fn second_registration_is_a_conflict() {
    let mut store = Store::new();
    assert!(do_register(&mut store, "alice", "pw").is_ok());
    let second = do_register(&mut store, "alice", "other");
    assert_eq!(second, Err(ApiError::Conflict));
    assert_eq!(ApiError::Conflict.status().code(), 409);
    assert_eq!(store.accounts.iter().filter(|u| u.username == "alice").count(), 1);
    assert!(do_login(&mut store, "alice", "pw").is_ok());
    assert!(do_login(&mut store, "alice", "other").is_err());
}

#[test]
fn stored_password_is_a_hash() {
    let mut store = Store::new();
    do_register(&mut store, "alice", "pw").unwrap();
    assert_ne!(store.accounts[0].password, "pw");
    assert!(store.accounts[0].password.starts_with("$argon2"));
}

#[test]
fn unknown_user_and_wrong_password_are_one_error() {
    let mut store = Store::new();
    do_register(&mut store, "alice", "pw").unwrap();
    let wrong = do_login(&mut store, "alice", "nope");
    let unknown = do_login(&mut store, "nobody", "pw");
    assert_eq!(wrong, Err(ApiError::InvalidCredentials));
    assert_eq!(wrong, unknown);
}

#[test]
fn token_resolves_to_its_own_account() {
    let mut store = Store::new();
    let alice = do_register(&mut store, "alice", "pw").unwrap();
    let bob = do_register(&mut store, "bob", "pw").unwrap();
    assert_ne!(alice.id, bob.id);
    let alice_token = do_login(&mut store, "alice", "pw").unwrap();
    let bob_token = do_login(&mut store, "bob", "pw").unwrap();
    assert_eq!(authenticate(&mut store, &alice_token).unwrap().id, alice.id);
    assert_eq!(authenticate(&mut store, &bob_token).unwrap().id, bob.id);
}

#[test]
fn token_of_a_deleted_account_is_rejected() {
    let mut store = Store::new();
    let alice = do_register(&mut store, "alice", "pw").unwrap();
    let token = do_login(&mut store, "alice", "pw").unwrap();
    assert!(authenticate(&mut store, &token).is_ok());
    store.delete_account(alice.id);
    assert!(codec().verify(&token).is_ok());
    let rejected = authenticate(&mut store, &token).unwrap_err();
    assert_eq!(rejected, ApiError::Unauthorized);
    assert_eq!(rejected.status().code(), 401);
}

#[test]
fn another_account_cannot_reach_a_task() {
    let mut store = Store::new();
    do_register(&mut store, "alice", "pw").unwrap();
    do_register(&mut store, "bob", "pw").unwrap();
    let alice_token = do_login(&mut store, "alice", "pw").unwrap();
    let bob_token = do_login(&mut store, "bob", "pw").unwrap();
    let alice = authenticate(&mut store, &alice_token).unwrap();
    let bob = authenticate(&mut store, &bob_token).unwrap();

    let request =
        CreateTaskRequest { title: "secret".to_string(), description: Some("plan".to_string()) };
    let task = store.task(create(&alice, request).unwrap()).unwrap();

    let found = store.task(read(task.id, &bob));
    assert_eq!(read_found(Ok(found)), Err(ApiError::NotFound));
    assert_eq!(do_update(&mut store, task.id, &bob, title("mine")), Err(ApiError::NotFound));
    let removed = store.task(delete(task.id, &bob));
    assert_eq!(delete_done(Ok(removed)), Status::NotFound);

    let found = store.task(read(task.id, &alice));
    assert_eq!(read_found(Ok(found)), Ok(task));
}

#[test]
fn update_through_the_store() {
    let mut store = Store::new();
    do_register(&mut store, "alice", "pw").unwrap();
    let token = do_login(&mut store, "alice", "pw").unwrap();
    let alice = authenticate(&mut store, &token).unwrap();
    let request = CreateTaskRequest { title: "x".to_string(), description: Some("y".to_string()) };
    let task = store.task(create(&alice, request).unwrap()).unwrap();

    let clear = UpdateTaskRequest {
        title: Patch::Absent,
        description: Patch::SetNull,
        completed: Patch::Absent,
    };
    let updated = do_update(&mut store, task.id, &alice, clear).unwrap();
    assert_eq!(updated.title, "x");
    assert_eq!(updated.description, None);
    assert!(!updated.completed);
    assert!(updated.updated_at > task.updated_at);
    assert_eq!(updated.created_at, task.created_at);

    let unchanged = do_update(&mut store, task.id, &alice, UpdateTaskRequest::empty()).unwrap();
    assert_eq!(unchanged.title, "x");
    assert_eq!(unchanged.description, None);
    assert!(!unchanged.completed);

    assert_eq!(do_update(&mut store, task.id + 100, &alice, title("z")), Err(ApiError::NotFound));
}

#[test]
fn two_updates_in_either_order_lose_nothing() {
    for order in [false, true] {
        let mut store = Store::new();
        do_register(&mut store, "alice", "pw").unwrap();
        let token = do_login(&mut store, "alice", "pw").unwrap();
        let alice = authenticate(&mut store, &token).unwrap();
        let request =
            CreateTaskRequest { title: "x".to_string(), description: Some("y".to_string()) };
        let task = store.task(create(&alice, request).unwrap()).unwrap();
        let done = UpdateTaskRequest {
            title: Patch::Absent,
            description: Patch::Absent,
            completed: Patch::SetValue(true),
        };
        if order {
            do_update(&mut store, task.id, &alice, title("z")).unwrap();
            do_update(&mut store, task.id, &alice, done).unwrap();
        } else {
            do_update(&mut store, task.id, &alice, done).unwrap();
            do_update(&mut store, task.id, &alice, title("z")).unwrap();
        }
        let found = store.task(read(task.id, &alice)).unwrap();
        assert_eq!(found.title, "z");
        assert!(found.completed);
        assert_eq!(found.description, Some("y".to_string()));
    }
}
