//! What holds of the handlers taken together, stated over the model of the
//! store and proved once for all inputs.

use vstd::prelude::*;
use crate::error::ApiError;
use crate::error::Status;
use crate::model::Task;
use crate::model::User;
use crate::routes::auth::login::login_outcome;
use crate::routes::auth::login::UserLoginRequest;
use crate::routes::auth::middleware::gate_entry;
use crate::routes::auth::middleware::gate_exit;
use crate::routes::auth::middleware::GateView;
use crate::routes::auth::register::register_refusal;
use crate::routes::auth::register::UserRegisterRequest;
use crate::routes::tasks::delete::delete_status;
use crate::routes::tasks::read::read_reply;
use crate::routes::tasks::update::merged;
use crate::routes::tasks::update::update_next;
use crate::routes::tasks::update::UpdateAction;
use crate::routes::tasks::update::UpdateEvent;
use crate::routes::tasks::update::UpdateState;
use crate::routes::tasks::update::UpdateTaskRequest;
use crate::store::Database;
use crate::token::account_of;

verus! {

/// The store after one whole update transaction has committed at the time
/// `now`: the row that the transaction read, with the document laid over it,
/// written back. Where the owner holds no such task, nothing is written.
pub open spec fn committed(
    db: Database,
    id: i32,
    owner: i32,
    patch: UpdateTaskRequest,
    now: i64,
) -> Database {
    match db.task_of(id, owner) {
        Some(task) => {
            let record = merged(task, patch);
            db.with_task_fields(id, owner, record.title, record.description, record.completed, now)
        },
        None => db,
    }
}

/// The row that an update transaction leaves behind: the merge of the row it
/// read and the document, last updated at `now`.
pub open spec fn written(task: Task, patch: UpdateTaskRequest, now: i64) -> Task {
    Task {
        id: task.id,
        user_id: task.user_id,
        title: merged(task, patch).title,
        description: merged(task, patch).description,
        completed: merged(task, patch).completed,
        created_at: task.created_at,
        updated_at: now,
    }
}

/// In a well-formed store, the row at an index is the answer to the scoped
/// query for its own identifier and owner, and to no other owner's.
pub proof fn scoped_lookup_finds_own_row(db: Database, i: int, owner: i32)
    requires
        db.well_formed(),
        0 <= i < db.tasks.len(),
    ensures
        db.task_of(db.tasks[i].id, owner) == if db.tasks[i].user_id == owner {
            Some(db.tasks[i])
        } else {
            None
        },
{
    let id = db.tasks[i].id;
    if db.owns(id, owner) {
        let j = choose|j: int|
            0 <= j < db.tasks.len() && db.tasks[j].id == id && db.tasks[j].user_id == owner;
        assert(j == i) by {
            if j < i {
                assert(db.tasks[j].id != db.tasks[i].id);
            } else if i < j {
                assert(db.tasks[i].id != db.tasks[j].id);
            }
        }
    }
}

/// Once a username is registered, a further registration under the same
/// username is refused as a conflict, and the store still holds no two
/// accounts with one username or one identifier.
pub proof fn second_registration_conflicts(
    db: Database,
    first: UserRegisterRequest,
    second: UserRegisterRequest,
    created: User,
)
    requires
        db.well_formed(),
        !db.has_username(first.username@),
        !db.has_account(created.id),
        created.username@ == first.username@,
        second.username@ == first.username@,
    ensures
        register_refusal(Ok(db.with_account(created).has_username(second.username@))) == Some(
            ApiError::Conflict,
        ),
        db.with_account(created).well_formed(),
        db.with_account(created).count_username(first.username@) == 1,
{
    let after = db.with_account(created);
    let last = db.accounts.len() as int;
    let named = |u: User| u.username@ == first.username@;
    assert forall|j: int| 0 <= j < db.accounts.len() implies !named(#[trigger] db.accounts[j]) by {
        if named(db.accounts[j]) {
            assert(db.has_username(first.username@));
        }
    }
    filter_drops_all(db.accounts, named);
    assert(after.accounts.filter(named) =~= seq![created]) by {
        reveal(Seq::filter);
        assert(after.accounts.drop_last() =~= db.accounts);
    }
    assert(after.accounts[last] == created);
    assert(after.has_username(second.username@));
    assert forall|i: int, j: int| 0 <= i < j < after.accounts.len() implies after.accounts[i].id
        != after.accounts[j].id && after.accounts[i].username@ != after.accounts[j].username@ by {
        if j == last {
            assert(after.accounts[i] == db.accounts[i]);
        }
    }
    assert forall|i: int| 0 <= i < after.tasks.len() implies after.has_account(
        #[trigger] after.tasks[i].user_id,
    ) by {
        assert(db.has_account(db.tasks[i].user_id));
        let k = choose|k: int|
            0 <= k < db.accounts.len() && db.accounts[k].id == db.tasks[i].user_id;
        assert(after.accounts[k].id == after.tasks[i].user_id);
    }
}

/// A login with a wrong password and a login under a username that nobody
/// holds are answered alike: neither tells whether the username exists.
pub proof fn login_failures_look_alike(
    db: Database,
    secret: Seq<u8>,
    wrong: UserLoginRequest,
    unknown: UserLoginRequest,
)
    requires
        db.account_named(wrong.username@) matches Some(user) && !crate::hasher::accepts(
            wrong.password@,
            user.password@,
        ),
        !db.has_username(unknown.username@),
    ensures
        login_outcome(wrong, secret, Ok(db.account_named(wrong.username@))) == Err::<
            Seq<char>,
            ApiError,
        >(ApiError::InvalidCredentials),
        login_outcome(unknown, secret, Ok(db.account_named(unknown.username@)))
            == login_outcome(wrong, secret, Ok(db.account_named(wrong.username@))),
{
}

/// A token that vouches for one account brings a request to the lookup of
/// that account and of no other, whichever carrier it came by; a cookie
/// goes before a bearer.
pub proof fn token_resolves_to_its_account(
    token: Seq<char>,
    other: Option<Seq<char>>,
    secret: Seq<u8>,
    account: i32,
)
    requires
        account_of(token, secret) == Some(account),
    ensures
        gate_entry(Some(token), other, secret) == (GateView::Resolving { id: account }),
        gate_entry(None, Some(token), secret) == (GateView::Resolving { id: account }),
{
}

/// Whoever is admitted is the account that the store holds under the
/// identifier that was looked up.
pub proof fn admitted_account_is_the_one_held(db: Database, id: i32)
    requires
        db.has_account(id),
    ensures
        gate_exit(id, Ok(db.account_by_id(id))) matches GateView::Admitted { user } && user.id
            == id,
{
}

/// After an account is deleted, a request that still carries its token is
/// rejected as unauthorised: the signature is as good as before, the lookup
/// finds nobody. None of the account's tasks is left either.
pub proof fn deleted_account_is_rejected(db: Database, id: i32)
    ensures
        !db.without_account(id).has_account(id),
        gate_exit(id, Ok(db.without_account(id).account_by_id(id))) == (GateView::Rejected {
            error: ApiError::Unauthorized,
        }),
        forall|task: i32| db.without_account(id).task_of(task, id) is None,
{
    let after = db.without_account(id);
    let kept = |u: User| u.id != id;
    let others = |t: Task| t.user_id != id;
    assert forall|i: int| 0 <= i < after.accounts.len() implies after.accounts[i].id != id by {
        db.accounts.lemma_filter_pred(kept, i);
    }
    assert forall|task: i32| after.task_of(task, id) is None by {
        if after.owns(task, id) {
            let i = choose|i: int|
                0 <= i < after.tasks.len() && after.tasks[i].id == task && after.tasks[i].user_id
                    == id;
            db.tasks.lemma_filter_pred(others, i);
        }
    }
}

/// A task is out of reach of every account but its owner: to anybody else a
/// read and a delete answer "not found", an update is aborted as "not
/// found", and neither the delete nor the write touches a row.
pub proof fn foreign_task_is_not_found(
    db: Database,
    i: int,
    intruder: i32,
    patch: UpdateTaskRequest,
    now: i64,
)
    requires
        db.well_formed(),
        0 <= i < db.tasks.len(),
        db.tasks[i].user_id != intruder,
    ensures
        db.task_of(db.tasks[i].id, intruder) is None,
        read_reply(Ok(db.task_of(db.tasks[i].id, intruder))) == Err::<Task, ApiError>(
            ApiError::NotFound,
        ),
        delete_status(Ok(db.task_of(db.tasks[i].id, intruder))) == Status::NotFound,
        update_next(
            UpdateState::Loading { id: db.tasks[i].id, owner: intruder, patch },
            UpdateEvent::Loaded(Ok(db.task_of(db.tasks[i].id, intruder))),
        ) == (UpdateState::Finished, UpdateAction::Abort(ApiError::NotFound)),
        db.without_task(db.tasks[i].id, intruder).tasks == db.tasks,
        committed(db, db.tasks[i].id, intruder, patch, now) == db,
{
    let id = db.tasks[i].id;
    scoped_lookup_finds_own_row(db, i, intruder);
    let keep = |t: Task| !(t.id == id && t.user_id == intruder);
    assert forall|j: int| 0 <= j < db.tasks.len() implies keep(#[trigger] db.tasks[j]) by {
        if db.tasks[j].id == id && db.tasks[j].user_id == intruder {
            assert(db.owns(id, intruder));
        }
    }
    filter_keeps_all(db.tasks, keep);
}

/// A listing holds tasks of the account it was made for and of no other.
pub proof fn listing_is_scoped(db: Database, owner: i32, i: int)
    requires
        0 <= i < db.tasks_of(owner).len(),
    ensures
        db.tasks_of(owner)[i].user_id == owner,
{
    db.tasks.lemma_filter_pred(|t: Task| t.user_id == owner, i);
}

/// A filter that no element passes leaves nothing.
proof fn filter_drops_all<A>(s: Seq<A>, pred: spec_fn(A) -> bool)
    requires
        forall|j: int| 0 <= j < s.len() ==> !pred(#[trigger] s[j]),
    ensures
        s.filter(pred).len() == 0,
    decreases s.len(),
{
    reveal(Seq::filter);
    if s.len() > 0 {
        let front = s.drop_last();
        assert forall|j: int| 0 <= j < front.len() implies !pred(#[trigger] front[j]) by {
            assert(front[j] == s[j]);
        }
        filter_drops_all(front, pred);
        assert(!pred(s.last()));
    }
}

/// A filter that every element passes leaves the sequence as it is.
proof fn filter_keeps_all<A>(s: Seq<A>, pred: spec_fn(A) -> bool)
    requires
        forall|j: int| 0 <= j < s.len() ==> pred(#[trigger] s[j]),
    ensures
        s.filter(pred) == s,
    decreases s.len(),
{
    reveal(Seq::filter);
    if s.len() > 0 {
        let front = s.drop_last();
        assert forall|j: int| 0 <= j < front.len() implies pred(#[trigger] front[j]) by {
            assert(front[j] == s[j]);
        }
        filter_keeps_all(front, pred);
        assert(pred(s.last()));
        assert(front.push(s.last()) =~= s);
    }
}

/// A document that mentions no field changes nothing.
pub proof fn absent_patch_is_identity(task: Task, patch: UpdateTaskRequest)
    requires
        patch.title is Absent,
        patch.description is Absent,
        patch.completed is Absent,
    ensures
        merged(task, patch) == task,
{
}

/// A document touches the fields it mentions and no other: each field of
/// the result is the old one unless the document gives it a value, or, for
/// the description, sets it to null.
pub proof fn patch_touches_only_what_it_mentions(task: Task, patch: UpdateTaskRequest)
    ensures
        !(patch.title is SetValue) ==> merged(task, patch).title == task.title,
        patch.description is Absent ==> merged(task, patch).description == task.description,
        patch.description is SetNull ==> merged(task, patch).description is None,
        !(patch.completed is SetValue) ==> merged(task, patch).completed == task.completed,
        merged(task, patch).id == task.id,
        merged(task, patch).user_id == task.user_id,
        merged(task, patch).created_at == task.created_at,
{
}

/// One committed update leaves the owner's task as the merge of what was
/// there and the document, and every other row as it was.
pub proof fn committed_update_writes_the_merge(
    db: Database,
    i: int,
    patch: UpdateTaskRequest,
    now: i64,
)
    requires
        db.well_formed(),
        0 <= i < db.tasks.len(),
    ensures
        committed(db, db.tasks[i].id, db.tasks[i].user_id, patch, now).well_formed(),
        committed(db, db.tasks[i].id, db.tasks[i].user_id, patch, now).tasks == db.tasks.update(
            i,
            written(db.tasks[i], patch, now),
        ),
        committed(db, db.tasks[i].id, db.tasks[i].user_id, patch, now).task_of(
            db.tasks[i].id,
            db.tasks[i].user_id,
        ) == Some(written(db.tasks[i], patch, now)),
{
    let id = db.tasks[i].id;
    let owner = db.tasks[i].user_id;
    scoped_lookup_finds_own_row(db, i, owner);
    let after = committed(db, id, owner, patch, now);
    let wanted = db.tasks.update(i, written(db.tasks[i], patch, now));
    assert(after.tasks.len() == wanted.len());
    assert forall|j: int| 0 <= j < wanted.len() implies after.tasks[j] == wanted[j] by {
        if j < i {
            assert(db.tasks[j].id != db.tasks[i].id);
        } else if i < j {
            assert(db.tasks[i].id != db.tasks[j].id);
        }
    }
    assert(after.tasks =~= wanted);
    assert forall|j: int| 0 <= j < after.tasks.len() implies after.has_account(
        #[trigger] after.tasks[j].user_id,
    ) by {
        assert(after.tasks[j].user_id == db.tasks[j].user_id);
        assert(db.has_account(db.tasks[j].user_id));
    }
    assert(after.well_formed());
    scoped_lookup_finds_own_row(after, i, owner);
}

/// Two updates of one task that commit one after the other leave the task
/// as both documents laid over it in commit order: the second merges onto
/// what the first has written, so no change of the first is lost unless the
/// second overwrites that very field.
pub proof fn updates_compose_in_commit_order(
    db: Database,
    i: int,
    earlier: UpdateTaskRequest,
    first_commit: i64,
    later: UpdateTaskRequest,
    second_commit: i64,
)
    requires
        db.well_formed(),
        0 <= i < db.tasks.len(),
    ensures
        committed(
            committed(db, db.tasks[i].id, db.tasks[i].user_id, earlier, first_commit),
            db.tasks[i].id,
            db.tasks[i].user_id,
            later,
            second_commit,
        ).task_of(db.tasks[i].id, db.tasks[i].user_id) == Some(
            written(merged(db.tasks[i], earlier), later, second_commit),
        ),
{
    let id = db.tasks[i].id;
    let owner = db.tasks[i].user_id;
    committed_update_writes_the_merge(db, i, earlier, first_commit);
    let middle = committed(db, id, owner, earlier, first_commit);
    assert(middle.tasks[i] == written(db.tasks[i], earlier, first_commit));
    committed_update_writes_the_merge(middle, i, later, second_commit);
}

} // verus!
