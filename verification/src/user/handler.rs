use super::model::User;
use crate::error::{Error, ErrorView};
use vstd::prelude::*;

verus! {

/// The body of a registration request.
pub struct RegisterForm {
    pub username: String,
}

/// The body of a rename request.
pub struct EditForm {
    pub id: i32,
    pub username: String,
}

/// The answer given when another user already has the name.
pub open spec fn name_taken() -> ErrorView {
    ErrorView::Message("用户已存在"@)
}

/// The three user requests.
#[derive(Debug)]
pub enum UserOp {
    /// Create a user, in a transaction; the name is checked first.
    Register,
    /// Rename a user, without a transaction; the name is checked first.
    Edit,
    /// Rename a user, in a transaction; the name is checked first.
    EditInTx,
}

/// What a successful user request answers with.
#[derive(Debug)]
pub enum UserReply {
    /// The id of the new user.
    Id(i32),
    /// The number of rows the rename changed.
    Affected(u64),
}

/// Where a user request stands.
#[derive(Debug)]
pub enum UserStep {
    /// Waiting for the transaction to open; holds the user to write.
    Beginning(User),
    /// Waiting for the count of users with that name; holds the user to write.
    Checking(User),
    /// Waiting for the insert or update.
    Writing,
    /// Waiting for the commit; holds the answer.
    Committing(UserReply),
    /// Waiting for the rollback; holds the error to answer with.
    RollingBack(Error),
    /// Answered.
    Done,
}

/// A user request in progress.
#[derive(Debug)]
pub struct UserFlow {
    pub op: UserOp,
    pub step: UserStep,
}

/// What the database reported for the last action.
#[derive(Debug)]
pub enum UserEvent {
    Begun,
    /// The number of users that the name check counted.
    Counted(i64),
    Inserted(i32),
    Updated(u64),
    Committed,
    RolledBack,
    Failed(Error),
}

/// What the caller must do next.
#[derive(Debug)]
pub enum UserAction {
    /// Open a transaction.
    Begin,
    /// Count the users named `username`, leaving out `exclude_id` where given
    /// (in the transaction, where one is open).
    CheckName { username: String, exclude_id: Option<i32> },
    /// Insert the user and report its new id.
    Insert(User),
    /// Update the user's name and report the number of rows changed.
    Update(User),
    Commit,
    Rollback,
    /// Answer with success; the request is over.
    Reply(UserReply),
    /// Answer with this error; the request is over (an open transaction is dropped).
    Fail(Error),
}

/// The user left out of the name check: none for a new user, the user itself
/// for a rename.
pub open spec fn excluded_id(op: UserOp, u: User) -> Option<i32> {
    match op {
        UserOp::Register => None,
        _ => Some(u.id),
    }
}

/// The events that a step waits for.
pub open spec fn user_accepts(flow: UserFlow, ev: UserEvent) -> bool {
    match (flow.step, ev) {
        (UserStep::Beginning(_), UserEvent::Begun) => true,
        (UserStep::Checking(_), UserEvent::Counted(_)) => true,
        (UserStep::Writing, UserEvent::Inserted(_)) => flow.op is Register,
        (UserStep::Writing, UserEvent::Updated(_)) => !(flow.op is Register),
        (UserStep::Committing(_), UserEvent::Committed) => true,
        (UserStep::RollingBack(_), UserEvent::RolledBack) => true,
        (UserStep::Done, _) => false,
        (_, UserEvent::Failed(_)) => true,
        _ => false,
    }
}

/// The transitions of a user request.
pub open spec fn user_step(flow: UserFlow, ev: UserEvent, next: UserFlow, action: UserAction) -> bool {
    &&& next.op == flow.op
    &&& match (flow.step, ev) {
        (UserStep::Beginning(u), UserEvent::Begun) => next.step == UserStep::Checking(u) && action
            == (UserAction::CheckName { username: u.username, exclude_id: excluded_id(flow.op, u) }),
        (UserStep::Beginning(_), UserEvent::Failed(e)) => next.step is Done && action
            == UserAction::Fail(e),
        (UserStep::Checking(u), UserEvent::Counted(c)) => if c > 0 {
            if flow.op is Register {
                (next.step matches UserStep::RollingBack(e) && e@ == name_taken()) && action
                    is Rollback
            } else {
                next.step is Done && (action matches UserAction::Fail(e) && e@ == name_taken())
            }
        } else {
            next.step is Writing && action == if flow.op is Register {
                UserAction::Insert(u)
            } else {
                UserAction::Update(u)
            }
        },
        (UserStep::Checking(_), UserEvent::Failed(e)) => if flow.op is Edit {
            next.step is Done && action == UserAction::Fail(e)
        } else {
            next.step == UserStep::RollingBack(e) && action is Rollback
        },
        (UserStep::Writing, UserEvent::Inserted(id)) => next.step == UserStep::Committing(
            UserReply::Id(id),
        ) && action is Commit,
        (UserStep::Writing, UserEvent::Updated(n)) => if flow.op is Edit {
            next.step is Done && action == UserAction::Reply(UserReply::Affected(n))
        } else {
            next.step == UserStep::Committing(UserReply::Affected(n)) && action is Commit
        },
        (UserStep::Writing, UserEvent::Failed(e)) => if flow.op is Edit {
            next.step is Done && action == UserAction::Fail(e)
        } else {
            next.step == UserStep::RollingBack(e) && action is Rollback
        },
        (UserStep::Committing(r), UserEvent::Committed) => next.step is Done && action
            == UserAction::Reply(r),
        (UserStep::Committing(_), UserEvent::Failed(e)) => next.step is Done && action
            == UserAction::Fail(e),
        (UserStep::RollingBack(e), UserEvent::RolledBack) => next.step is Done && action
            == UserAction::Fail(e),
        (UserStep::RollingBack(_), UserEvent::Failed(e)) => next.step is Done && action
            == UserAction::Fail(e),
        _ => false,
    }
}

/// How many steps a request can still take at most.
pub open spec fn user_rank(step: UserStep) -> nat {
    match step {
        UserStep::Beginning(_) => 5,
        UserStep::Checking(_) => 4,
        UserStep::Writing => 3,
        UserStep::Committing(_) => 2,
        UserStep::RollingBack(_) => 1,
        UserStep::Done => 0,
    }
}

impl UserFlow {
    /// A request of kind `op` for `user`: a rename without a transaction
    /// starts with the name check, the others by opening a transaction.
    pub fn start(op: UserOp, user: User) -> (r: (UserFlow, UserAction))
        ensures
            r.0.op == op,
            op is Edit ==> r.0.step == UserStep::Checking(user) && r.1 == (UserAction::CheckName {
                username: user.username,
                exclude_id: Some(user.id),
            }),
            !(op is Edit) ==> r.0.step == UserStep::Beginning(user) && r.1 is Begin,
            user_flow_inv(r.0),
    {
        match op {
            UserOp::Edit => {
                let action = UserAction::CheckName {
                    username: user.username.clone(),
                    exclude_id: Some(user.id),
                };
                (UserFlow { op, step: UserStep::Checking(user) }, action)
            },
            _ => (UserFlow { op, step: UserStep::Beginning(user) }, UserAction::Begin),
        }
    }

    /// Whether the request waits for `ev` now.
    pub fn accepts(&self, ev: &UserEvent) -> (b: bool)
        ensures
            b == user_accepts(*self, *ev),
    {
        let register = match self.op {
            UserOp::Register => true,
            _ => false,
        };
        match (&self.step, ev) {
            (UserStep::Beginning(_), UserEvent::Begun) => true,
            (UserStep::Checking(_), UserEvent::Counted(_)) => true,
            (UserStep::Writing, UserEvent::Inserted(_)) => register,
            (UserStep::Writing, UserEvent::Updated(_)) => !register,
            (UserStep::Committing(_), UserEvent::Committed) => true,
            (UserStep::RollingBack(_), UserEvent::RolledBack) => true,
            (UserStep::Done, _) => false,
            (_, UserEvent::Failed(_)) => true,
            _ => false,
        }
    }

    /// The request after `ev`, and what the caller must do next.
    pub fn next(self, ev: UserEvent) -> (r: (UserFlow, UserAction))
        requires
            user_accepts(self, ev),
        ensures
            user_step(self, ev, r.0, r.1),
    {
        let op = self.op;
        let (in_tx, register) = match op {
            UserOp::Register => (true, true),
            UserOp::Edit => (false, false),
            UserOp::EditInTx => (true, false),
        };
        match (self.step, ev) {
            (UserStep::Beginning(u), UserEvent::Begun) => {
                let exclude_id = if register {
                    None
                } else {
                    Some(u.id)
                };
                let action = UserAction::CheckName { username: u.username.clone(), exclude_id };
                (UserFlow { op, step: UserStep::Checking(u) }, action)
            },
            (UserStep::Checking(u), UserEvent::Counted(c)) => {
                if c > 0 {
                    let taken = Error::new("用户已存在");
                    if register {
                        (UserFlow { op, step: UserStep::RollingBack(taken) }, UserAction::Rollback)
                    } else {
                        (UserFlow { op, step: UserStep::Done }, UserAction::Fail(taken))
                    }
                } else if register {
                    (UserFlow { op, step: UserStep::Writing }, UserAction::Insert(u))
                } else {
                    (UserFlow { op, step: UserStep::Writing }, UserAction::Update(u))
                }
            },
            (UserStep::Writing, UserEvent::Inserted(id)) => (
                UserFlow { op, step: UserStep::Committing(UserReply::Id(id)) },
                UserAction::Commit,
            ),
            (UserStep::Writing, UserEvent::Updated(n)) => {
                if in_tx {
                    (
                        UserFlow { op, step: UserStep::Committing(UserReply::Affected(n)) },
                        UserAction::Commit,
                    )
                } else {
                    (
                        UserFlow { op, step: UserStep::Done },
                        UserAction::Reply(UserReply::Affected(n)),
                    )
                }
            },
            (UserStep::Committing(r), UserEvent::Committed) => (
                UserFlow { op, step: UserStep::Done },
                UserAction::Reply(r),
            ),
            (UserStep::RollingBack(e), UserEvent::RolledBack) => (
                UserFlow { op, step: UserStep::Done },
                UserAction::Fail(e),
            ),
            (UserStep::Checking(_), UserEvent::Failed(e)) | (UserStep::Writing, UserEvent::Failed(
                e,
            )) => {
                if in_tx {
                    (UserFlow { op, step: UserStep::RollingBack(e) }, UserAction::Rollback)
                } else {
                    (UserFlow { op, step: UserStep::Done }, UserAction::Fail(e))
                }
            },
            (_, UserEvent::Failed(e)) => (
                UserFlow { op, step: UserStep::Done },
                UserAction::Fail(e),
            ),
            (_, _) => {
                proof {
                    assert(false);
                }
                (UserFlow { op, step: UserStep::Done }, UserAction::Begin)
            },
        }
    }
}

/// Unique usernames: a user request writes (inserts or renames) only right
/// after the name check counted no other user with that name, and it writes
/// exactly the user that the request was started with.
pub proof fn user_written_only_when_name_free(
    flow: UserFlow,
    ev: UserEvent,
    next: UserFlow,
    action: UserAction,
)
    requires
        user_accepts(flow, ev),
        user_step(flow, ev, next, action),
        action is Insert || action is Update,
    ensures
        ev matches UserEvent::Counted(c) && c <= 0,
        flow.step matches UserStep::Checking(u) && (action == UserAction::Insert(u) || action
            == UserAction::Update(u)),
        action is Insert <==> flow.op is Register,
{
}

/// A name that the check found taken is refused: nothing is written, and the
/// request answers "用户已存在" (a new user after rolling the transaction back,
/// a rename at once).
pub proof fn taken_name_is_refused(flow: UserFlow, ev: UserEvent, next: UserFlow, action: UserAction)
    requires
        user_accepts(flow, ev),
        user_step(flow, ev, next, action),
        flow.step is Checking,
        ev matches UserEvent::Counted(c) && c > 0,
    ensures
        !(action is Insert || action is Update),
        flow.op is Register ==> action is Rollback && (next.step matches UserStep::RollingBack(e)
            && e@ == name_taken()),
        !(flow.op is Register) ==> next.step is Done && (action matches UserAction::Fail(e) && e@
            == name_taken()),
{
}

/// Every user request is answered: each step lowers its rank, so it ends
/// within five steps, and an answered request waits for nothing.
pub proof fn user_request_ends(flow: UserFlow, ev: UserEvent, next: UserFlow, action: UserAction)
    requires
        user_accepts(flow, ev),
        user_step(flow, ev, next, action),
    ensures
        user_rank(next.step) < user_rank(flow.step),
        next.step is Done ==> forall|e: UserEvent| !user_accepts(next, e),
{
}

/// A user request answers exactly once, with its last action.
pub proof fn user_answer_is_last(flow: UserFlow, ev: UserEvent, next: UserFlow, action: UserAction)
    requires
        user_accepts(flow, ev),
        user_step(flow, ev, next, action),
    ensures
        (action is Reply || action is Fail) <==> next.step is Done,
{
}

/// In a transaction, success is only answered once the commit went through,
/// with the id or row count that the write reported.
pub proof fn user_reply_after_commit(flow: UserFlow, ev: UserEvent, next: UserFlow, action: UserAction)
    requires
        user_accepts(flow, ev),
        user_step(flow, ev, next, action),
        !(flow.op is Edit),
        action is Reply,
    ensures
        ev is Committed,
        flow.step == UserStep::Committing(action->Reply_0),
{
}

/// In a transaction, a database failure during the name check or the write is
/// answered only after a rollback is asked for.
pub proof fn user_failure_rolls_back(flow: UserFlow, ev: UserEvent, next: UserFlow, action: UserAction)
    requires
        user_accepts(flow, ev),
        user_step(flow, ev, next, action),
        !(flow.op is Edit),
        flow.step is Checking || flow.step is Writing,
        ev is Failed,
    ensures
        action is Rollback,
        next.step == UserStep::RollingBack(ev->Failed_0),
{
}

/// The name checked is the name written: a request reaches its name check
/// holding user `u` only through the action that counts the users named
/// `u.username` (leaving out `u` itself for a rename), and it writes exactly
/// that `u` afterwards (see [`user_written_only_when_name_free`]).
pub proof fn check_names_the_user_held(
    flow: UserFlow,
    ev: UserEvent,
    next: UserFlow,
    action: UserAction,
)
    requires
        user_accepts(flow, ev),
        user_step(flow, ev, next, action),
        next.step is Checking,
    ensures
        action == (UserAction::CheckName {
            username: next.step->Checking_0.username,
            exclude_id: excluded_id(next.op, next.step->Checking_0),
        }),
{
}

/// What holds of every user request that `start` and `next` can reach: a
/// rename without a transaction never waits for a transaction, and an answer
/// waiting for the commit is an id for a registration and a row count for a
/// rename.
pub open spec fn user_flow_inv(flow: UserFlow) -> bool {
    &&& flow.op is Edit ==> !(flow.step is Beginning || flow.step is Committing
        || flow.step is RollingBack)
    &&& flow.step matches UserStep::Committing(r) ==> (r is Id <==> flow.op is Register)
}

/// Reply kind: every step keeps the invariant, and a registration answers
/// success only with the new id, a rename (with or without a transaction) only
/// with the number of rows changed.
pub proof fn user_reply_kind(flow: UserFlow, ev: UserEvent, next: UserFlow, action: UserAction)
    requires
        user_flow_inv(flow),
        user_accepts(flow, ev),
        user_step(flow, ev, next, action),
    ensures
        user_flow_inv(next),
        action matches UserAction::Reply(r) ==> (r is Id <==> flow.op is Register),
{
}

/// The transaction of a user request is open (begun, and not yet handed to a
/// commit or a rollback).
pub open spec fn user_tx_open(flow: UserFlow) -> bool {
    !(flow.op is Edit) && (flow.step is Checking || flow.step is Writing)
}

/// Transactions: a request's transaction opens only on a successful begin;
/// a commit or a rollback is asked only while it is open, and closes it; a
/// request with a transaction does its name check and its write inside it.
pub proof fn user_transaction_use(flow: UserFlow, ev: UserEvent, next: UserFlow, action: UserAction)
    requires
        user_flow_inv(flow),
        user_accepts(flow, ev),
        user_step(flow, ev, next, action),
    ensures
        user_tx_open(next) ==> user_tx_open(flow) || (flow.step is Beginning && ev is Begun),
        action is Commit || action is Rollback ==> user_tx_open(flow) && !user_tx_open(next),
        (action is CheckName || action is Insert || action is Update) && !(flow.op is Edit)
            ==> user_tx_open(next),
{
}

/// `flows` and `actions` are what [`UserFlow::next`] gives, step by step, from
/// `flows[0]` while the database answers `events` in turn.
pub open spec fn user_run(flows: Seq<UserFlow>, events: Seq<UserEvent>, actions: Seq<UserAction>) -> bool {
    &&& flows.len() == events.len() + 1
    &&& actions.len() == events.len()
    &&& forall|i: int|
        0 <= i < events.len() ==> user_accepts(flows[i], #[trigger] events[i]) && user_step(
            flows[i],
            events[i],
            flows[i + 1],
            actions[i],
        )
}

/// The database's answers to a rename: the count of other users with the name,
/// then (where it is 0) the number of rows the update changed.
pub open spec fn rename_answers(count: i64, changed: u64) -> Seq<UserEvent> {
    if count > 0 {
        seq![UserEvent::Counted(count)]
    } else {
        seq![UserEvent::Counted(count), UserEvent::Updated(changed)]
    }
}

/// The two renames agree: given the same database answers, a rename without
/// a transaction and one in a transaction (that opens and commits) end with
/// the same answer, the row count or the refusal "用户已存在".
pub proof fn renames_agree(
    user: User,
    count: i64,
    changed: u64,
    plain: Seq<UserFlow>,
    plain_actions: Seq<UserAction>,
    in_tx: Seq<UserFlow>,
    in_tx_actions: Seq<UserAction>,
)
    requires
        plain.len() > 0 && plain[0] == (UserFlow { op: UserOp::Edit, step: UserStep::Checking(user) }),
        in_tx.len() > 0 && in_tx[0] == (UserFlow {
            op: UserOp::EditInTx,
            step: UserStep::Beginning(user),
        }),
        user_run(plain, rename_answers(count, changed), plain_actions),
        user_run(
            in_tx,
            seq![UserEvent::Begun] + rename_answers(count, changed) + if count > 0 {
                Seq::<UserEvent>::empty()
            } else {
                seq![UserEvent::Committed]
            },
            in_tx_actions,
        ),
    ensures
        count > 0 ==> (plain_actions.last() matches UserAction::Fail(e) && e@ == name_taken()) && (
        in_tx_actions.last() matches UserAction::Fail(e) && e@ == name_taken()),
        count <= 0 ==> plain_actions.last() == UserAction::Reply(UserReply::Affected(changed))
            && in_tx_actions.last() == UserAction::Reply(UserReply::Affected(changed)),
{
    let pe = rename_answers(count, changed);
    let te = seq![UserEvent::Begun] + pe + if count > 0 {
        Seq::<UserEvent>::empty()
    } else {
        seq![UserEvent::Committed]
    };
    assert(pe[0] == UserEvent::Counted(count));
    assert(te[0] == UserEvent::Begun);
    assert(te[1] == UserEvent::Counted(count));
    if count <= 0 {
        assert(pe[1] == UserEvent::Updated(changed));
        assert(te[2] == UserEvent::Updated(changed));
        assert(te[3] == UserEvent::Committed);
    }
}

/// The two renames agree on failures too: where the database fails the name
/// check, or the update after a free name, with error `e`, both renames answer
/// `e` (the one in a transaction after its rollback went through).
pub proof fn renames_agree_on_failure(
    user: User,
    check_fails: bool,
    count: i64,
    e: Error,
    plain: Seq<UserFlow>,
    plain_actions: Seq<UserAction>,
    in_tx: Seq<UserFlow>,
    in_tx_actions: Seq<UserAction>,
)
    requires
        !check_fails ==> count <= 0,
        plain.len() > 0 && plain[0] == (UserFlow { op: UserOp::Edit, step: UserStep::Checking(user) }),
        in_tx.len() > 0 && in_tx[0] == (UserFlow {
            op: UserOp::EditInTx,
            step: UserStep::Beginning(user),
        }),
        user_run(
            plain,
            if check_fails {
                seq![UserEvent::Failed(e)]
            } else {
                seq![UserEvent::Counted(count), UserEvent::Failed(e)]
            },
            plain_actions,
        ),
        user_run(
            in_tx,
            seq![UserEvent::Begun] + if check_fails {
                seq![UserEvent::Failed(e)]
            } else {
                seq![UserEvent::Counted(count), UserEvent::Failed(e)]
            } + seq![UserEvent::RolledBack],
            in_tx_actions,
        ),
    ensures
        plain_actions.last() == UserAction::Fail(e),
        in_tx_actions.last() == UserAction::Fail(e),
{
    let pe = if check_fails {
        seq![UserEvent::Failed(e)]
    } else {
        seq![UserEvent::Counted(count), UserEvent::Failed(e)]
    };
    let te = seq![UserEvent::Begun] + pe + seq![UserEvent::RolledBack];
    assert(te[0] == UserEvent::Begun);
    if check_fails {
        assert(pe[0] == UserEvent::Failed(e));
        assert(te[1] == UserEvent::Failed(e));
        assert(te[2] == UserEvent::RolledBack);
    } else {
        assert(pe[0] == UserEvent::Counted(count));
        assert(pe[1] == UserEvent::Failed(e));
        assert(te[1] == UserEvent::Counted(count));
        assert(te[2] == UserEvent::Failed(e));
        assert(te[3] == UserEvent::RolledBack);
    }
}

/// Once its transaction opens, a request holds the very user it was started
/// with (same id, same name), and checks that user's name: a new user's among
/// all users, a renamed user's among all others.
pub proof fn begun_request_checks_its_user(
    flow: UserFlow,
    user: User,
    next: UserFlow,
    action: UserAction,
)
    requires
        flow.step == UserStep::Beginning(user),
        user_accepts(flow, UserEvent::Begun),
        user_step(flow, UserEvent::Begun, next, action),
    ensures
        next.step == UserStep::Checking(user),
        next.step->Checking_0.id == user.id,
        next.step->Checking_0.username@ == user.username@,
        action matches UserAction::CheckName { username, exclude_id } && username == user.username
            && username@ == user.username@ && (flow.op is Register ==> exclude_id is None) && (
        !(flow.op is Register) ==> exclude_id == Some(user.id)),
{
}

/// A registration that commits answers exactly the id the insert reported.
pub proof fn registration_answers_inserted_id(
    writing: UserFlow,
    id: i32,
    committing: UserFlow,
    commit: UserAction,
    done: UserFlow,
    answer: UserAction,
)
    requires
        writing.step is Writing,
        user_accepts(writing, UserEvent::Inserted(id)),
        user_step(writing, UserEvent::Inserted(id), committing, commit),
        user_accepts(committing, UserEvent::Committed),
        user_step(committing, UserEvent::Committed, done, answer),
    ensures
        writing.op is Register,
        commit is Commit,
        committing.step == UserStep::Committing(UserReply::Id(id)),
        answer == UserAction::Reply(UserReply::Id(id)),
        done.step is Done,
{
}

/// A rename answers exactly the row count the update reported: at once
/// without a transaction, after the commit in one.
pub proof fn rename_answers_updated_count(
    writing: UserFlow,
    n: u64,
    after: UserFlow,
    action: UserAction,
    done: UserFlow,
    answer: UserAction,
)
    requires
        writing.step is Writing,
        user_accepts(writing, UserEvent::Updated(n)),
        user_step(writing, UserEvent::Updated(n), after, action),
        !(writing.op is Edit) ==> user_accepts(after, UserEvent::Committed) && user_step(
            after,
            UserEvent::Committed,
            done,
            answer,
        ),
    ensures
        !(writing.op is Register),
        writing.op is Edit ==> action == UserAction::Reply(UserReply::Affected(n)),
        !(writing.op is Edit) ==> action is Commit && answer == UserAction::Reply(
            UserReply::Affected(n),
        ),
{
}

/// A failure answered after a rollback is answered with that failure; a
/// failing rollback is answered with its own error.
pub proof fn rollback_answers_the_failure(
    flow: UserFlow,
    e: Error,
    ev: UserEvent,
    next: UserFlow,
    action: UserAction,
)
    requires
        flow.step == UserStep::RollingBack(e),
        user_accepts(flow, ev),
        user_step(flow, ev, next, action),
    ensures
        ev is RolledBack ==> action == UserAction::Fail(e),
        ev matches UserEvent::Failed(e2) ==> action == UserAction::Fail(e2),
        next.step is Done,
{
}

/// What each step waits for: the open transaction, any count of users with
/// the name, the insert for a registration and the update for a rename, the
/// commit, the rollback; and a database failure at any step before the answer.
pub proof fn user_waits_for_the_database(flow: UserFlow, count: i64, id: i32, n: u64, e: Error)
    ensures
        flow.step is Beginning ==> user_accepts(flow, UserEvent::Begun),
        flow.step is Checking ==> user_accepts(flow, UserEvent::Counted(count)),
        flow.step is Writing ==> (user_accepts(flow, UserEvent::Inserted(id)) <==> flow.op is Register)
            && (user_accepts(flow, UserEvent::Updated(n)) <==> !(flow.op is Register)),
        flow.step is Committing ==> user_accepts(flow, UserEvent::Committed),
        flow.step is RollingBack ==> user_accepts(flow, UserEvent::RolledBack),
        !(flow.step is Done) ==> user_accepts(flow, UserEvent::Failed(e)),
{
}

/// A database failure is never lost or replaced: the request either answers
/// that very error at once, or asks for a rollback and holds that error to
/// answer with.
pub proof fn user_failure_is_kept(flow: UserFlow, e: Error, next: UserFlow, action: UserAction)
    requires
        user_accepts(flow, UserEvent::Failed(e)),
        user_step(flow, UserEvent::Failed(e), next, action),
    ensures
        action == UserAction::Fail(e) || (action is Rollback && next.step == UserStep::RollingBack(
            e,
        )),
        action is Fail ==> next.step is Done,
{
}

} // verus!
