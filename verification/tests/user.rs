use sqlx_pg::query::QueryPart;
use sqlx_pg::user::handler::{UserAction, UserEvent, UserFlow, UserOp, UserReply, UserStep};
use sqlx_pg::user::model::{exists_query, User};
use sqlx_pg::Error;

fn user(id: i32, name: &str) -> User {
    User { id, username: name.to_string() }
}

fn step(flow: UserFlow, ev: UserEvent) -> (UserFlow, UserAction) {
    assert!(flow.accepts(&ev), "{:?} does not wait for {:?}", flow, ev);
    flow.next(ev)
}

fn fail_text(a: UserAction) -> String {
    match a {
        UserAction::Fail(e) => e.message(),
        other => panic!("expected a failure, got {:?}", other),
    }
}

fn db_error() -> Error {
    Error::database("deadlock".to_string())
}

#[test]
fn exists_query_for_new_user() {
    let parts = exists_query("ann", None);
    assert_eq!(parts.len(), 2);
    assert!(matches!(&parts[0], QueryPart::Sql(s) if s == "SELECT COUNT(*) FROM users WHERE username = "));
    assert!(matches!(&parts[1], QueryPart::BindText(s) if s == "ann"));
}

#[test]
fn exists_query_leaving_out_a_user() {
    let parts = exists_query("ann", Some(12));
    assert_eq!(parts.len(), 4);
    assert!(matches!(&parts[2], QueryPart::Sql(s) if s == " AND id <>"));
    assert!(matches!(&parts[3], QueryPart::BindInt(12)));
}

#[test]
fn register_happy_path() {
    let (f, a) = UserFlow::start(UserOp::Register, user(0, "ann"));
    assert!(matches!(a, UserAction::Begin));
    let (f, a) = step(f, UserEvent::Begun);
    match &a {
        UserAction::CheckName { username, exclude_id } => {
            assert_eq!(username, "ann");
            assert_eq!(*exclude_id, None);
        }
        other => panic!("unexpected {:?}", other),
    }
    let (f, a) = step(f, UserEvent::Counted(0));
    assert!(matches!(&a, UserAction::Insert(u) if u.username == "ann" && u.id == 0));
    let (f, a) = step(f, UserEvent::Inserted(31));
    assert!(matches!(a, UserAction::Commit));
    let (f, a) = step(f, UserEvent::Committed);
    assert!(matches!(a, UserAction::Reply(UserReply::Id(31))));
    assert!(matches!(f.step, UserStep::Done));
    assert!(!f.accepts(&UserEvent::Committed));
}

#[test]
fn register_taken_name_rolls_back_and_refuses() {
    let (f, _) = UserFlow::start(UserOp::Register, user(0, "ann"));
    let (f, _) = step(f, UserEvent::Begun);
    let (f, a) = step(f, UserEvent::Counted(1));
    assert!(matches!(a, UserAction::Rollback));
    let (f, a) = step(f, UserEvent::RolledBack);
    assert_eq!(fail_text(a), "用户已存在");
    assert!(matches!(f.step, UserStep::Done));
}

#[test]
fn register_rollback_failure_answers_with_it() {
    let (f, _) = UserFlow::start(UserOp::Register, user(0, "ann"));
    let (f, _) = step(f, UserEvent::Begun);
    let (f, _) = step(f, UserEvent::Counted(2));
    let (_, a) = step(f, UserEvent::Failed(Error::database("lost".to_string())));
    assert_eq!(fail_text(a), "lost");
}

#[test]
fn register_insert_failure_rolls_back() {
    let (f, _) = UserFlow::start(UserOp::Register, user(0, "ann"));
    let (f, _) = step(f, UserEvent::Begun);
    let (f, _) = step(f, UserEvent::Counted(0));
    let (f, a) = step(f, UserEvent::Failed(db_error()));
    assert!(matches!(a, UserAction::Rollback));
    let (_, a) = step(f, UserEvent::RolledBack);
    assert_eq!(fail_text(a), "deadlock");
}

#[test]
fn register_begin_failure_answers_at_once() {
    let (f, _) = UserFlow::start(UserOp::Register, user(0, "ann"));
    let (f, a) = step(f, UserEvent::Failed(db_error()));
    assert_eq!(fail_text(a), "deadlock");
    assert!(matches!(f.step, UserStep::Done));
}

#[test]
fn register_does_not_wait_for_an_update() {
    let (f, _) = UserFlow::start(UserOp::Register, user(0, "ann"));
    let (f, _) = step(f, UserEvent::Begun);
    let (f, _) = step(f, UserEvent::Counted(0));
    assert!(!f.accepts(&UserEvent::Updated(1)));
    assert!(f.accepts(&UserEvent::Inserted(1)));
}

#[test]
fn edit_without_transaction() {
    let (f, a) = UserFlow::start(UserOp::Edit, user(5, "bob"));
    match &a {
        UserAction::CheckName { username, exclude_id } => {
            assert_eq!(username, "bob");
            assert_eq!(*exclude_id, Some(5));
        }
        other => panic!("unexpected {:?}", other),
    }
    let (f, a) = step(f, UserEvent::Counted(0));
    assert!(matches!(&a, UserAction::Update(u) if u.id == 5 && u.username == "bob"));
    let (f, a) = step(f, UserEvent::Updated(1));
    assert!(matches!(a, UserAction::Reply(UserReply::Affected(1))));
    assert!(matches!(f.step, UserStep::Done));
}

#[test]
fn edit_taken_name_refused_at_once() {
    let (f, _) = UserFlow::start(UserOp::Edit, user(5, "bob"));
    let (f, a) = step(f, UserEvent::Counted(3));
    assert_eq!(fail_text(a), "用户已存在");
    assert!(matches!(f.step, UserStep::Done));
}

#[test]
fn edit_failures_answer_without_rollback() {
    let (f, _) = UserFlow::start(UserOp::Edit, user(5, "bob"));
    let (_, a) = step(f, UserEvent::Failed(db_error()));
    assert_eq!(fail_text(a), "deadlock");
    let (f, _) = UserFlow::start(UserOp::Edit, user(5, "bob"));
    let (f, _) = step(f, UserEvent::Counted(0));
    let (_, a) = step(f, UserEvent::Failed(db_error()));
    assert_eq!(fail_text(a), "deadlock");
}

#[test]
fn edit_in_transaction_happy_path() {
    let (f, a) = UserFlow::start(UserOp::EditInTx, user(5, "bob"));
    assert!(matches!(a, UserAction::Begin));
    let (f, a) = step(f, UserEvent::Begun);
    assert!(matches!(&a, UserAction::CheckName { exclude_id: Some(5), .. }));
    let (f, _) = step(f, UserEvent::Counted(0));
    let (f, a) = step(f, UserEvent::Updated(1));
    assert!(matches!(a, UserAction::Commit));
    let (_, a) = step(f, UserEvent::Committed);
    assert!(matches!(a, UserAction::Reply(UserReply::Affected(1))));
}

#[test]
fn edit_in_transaction_taken_name_refused_without_rollback() {
    let (f, _) = UserFlow::start(UserOp::EditInTx, user(5, "bob"));
    let (f, _) = step(f, UserEvent::Begun);
    let (f, a) = step(f, UserEvent::Counted(1));
    assert_eq!(fail_text(a), "用户已存在");
    assert!(matches!(f.step, UserStep::Done));
}

#[test]
fn edit_in_transaction_failure_rolls_back() {
    let (f, _) = UserFlow::start(UserOp::EditInTx, user(5, "bob"));
    let (f, _) = step(f, UserEvent::Begun);
    let (f, a) = step(f, UserEvent::Failed(db_error()));
    assert!(matches!(a, UserAction::Rollback));
    let (_, a) = step(f, UserEvent::RolledBack);
    assert_eq!(fail_text(a), "deadlock");

    let (f, _) = UserFlow::start(UserOp::EditInTx, user(5, "bob"));
    let (f, _) = step(f, UserEvent::Begun);
    let (f, _) = step(f, UserEvent::Counted(0));
    let (f, a) = step(f, UserEvent::Failed(db_error()));
    assert!(matches!(a, UserAction::Rollback));
    let (f, a) = step(f, UserEvent::RolledBack);
    assert_eq!(fail_text(a), "deadlock");
    assert!(matches!(f.step, UserStep::Done));
}

#[test]
fn edit_in_transaction_commit_failure_answers_with_it() {
    let (f, _) = UserFlow::start(UserOp::EditInTx, user(5, "bob"));
    let (f, _) = step(f, UserEvent::Begun);
    let (f, _) = step(f, UserEvent::Counted(0));
    let (f, _) = step(f, UserEvent::Updated(1));
    let (f, a) = step(f, UserEvent::Failed(Error::database("commit".to_string())));
    assert_eq!(fail_text(a), "commit");
    assert!(matches!(f.step, UserStep::Done));
}

/// Runs a rename with the given database answers and returns its answer.
fn rename_answer(op: UserOp, count: i64, changed: u64) -> Result<u64, String> {
    let in_tx = !matches!(op, UserOp::Edit);
    let (mut f, mut a) = UserFlow::start(op, user(5, "bob"));
    loop {
        let ev = match a {
            UserAction::Begin => UserEvent::Begun,
            UserAction::CheckName { .. } => UserEvent::Counted(count),
            UserAction::Update(_) => UserEvent::Updated(changed),
            UserAction::Commit => {
                assert!(in_tx);
                UserEvent::Committed
            }
            UserAction::Rollback => UserEvent::RolledBack,
            UserAction::Insert(_) => panic!("a rename inserts nothing"),
            UserAction::Reply(UserReply::Affected(n)) => return Ok(n),
            UserAction::Reply(UserReply::Id(_)) => panic!("a rename answers a row count"),
            UserAction::Fail(e) => return Err(e.message()),
        };
        let r = step(f, ev);
        f = r.0;
        a = r.1;
    }
}

#[test]
fn renames_agree_on_same_answers() {
    for (count, changed) in [(0i64, 1u64), (0, 0), (1, 1), (4, 0)] {
        assert_eq!(
            rename_answer(UserOp::Edit, count, changed),
            rename_answer(UserOp::EditInTx, count, changed)
        );
    }
    assert_eq!(rename_answer(UserOp::Edit, 0, 2), Ok(2));
    assert_eq!(rename_answer(UserOp::EditInTx, 3, 2), Err("用户已存在".to_string()));
}
