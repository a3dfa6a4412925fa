use sqlx_pg::query::QueryPart;
use sqlx_pg::topic::handler::{IncrementViews, ViewsAction, ViewsEvent, ViewsStep};
use sqlx_pg::topic::model::{like_pattern, list_query, Topic, TopicFilter, TopicMeta};
use sqlx_pg::Error;

fn sql_of(p: &QueryPart) -> Option<&str> {
    match p {
        QueryPart::Sql(s) => Some(s.as_str()),
        _ => None,
    }
}

fn text_of(p: &QueryPart) -> Option<&str> {
    match p {
        QueryPart::BindText(s) => Some(s.as_str()),
        _ => None,
    }
}

const BASE: &str = r#"SELECT id, title, "meta" FROM topics WHERE 1=1"#;

#[test]
fn new_topic_starts_without_views() {
    let t = Topic::new("hello".to_string(), "ann".to_string());
    assert_eq!(t.id, 0);
    assert_eq!(t.title, "hello");
    assert_eq!(t.meta.author, "ann");
    assert_eq!(t.meta.views, 0);
}

#[test]
fn viewed_once_counts_one_more() {
    let m = TopicMeta { author: "bob".to_string(), views: 41 }.viewed_once();
    assert_eq!(m.views, 42);
    assert_eq!(m.author, "bob");
    let m = TopicMeta { author: "x".to_string(), views: i64::MAX - 1 }.viewed_once();
    assert_eq!(m.views, i64::MAX);
}

#[test]
fn like_pattern_wraps_in_percent() {
    assert_eq!(like_pattern("rust"), "%rust%");
    assert_eq!(like_pattern(""), "%%");
    assert_eq!(like_pattern("中文"), "%中文%");
}

#[test]
fn list_query_without_filter() {
    let parts = list_query(&TopicFilter { title: None, author: None });
    assert_eq!(parts.len(), 1);
    assert_eq!(sql_of(&parts[0]), Some(BASE));
}

#[test]
fn list_query_with_title_and_author() {
    let parts = list_query(&TopicFilter {
        title: Some("rust".to_string()),
        author: Some("ann".to_string()),
    });
    assert_eq!(parts.len(), 5);
    assert_eq!(sql_of(&parts[0]), Some(BASE));
    assert_eq!(sql_of(&parts[1]), Some(" AND title ILIKE "));
    assert_eq!(text_of(&parts[2]), Some("%rust%"));
    assert_eq!(sql_of(&parts[3]), Some(r#" AND "meta" ->> 'author' ILIKE "#));
    assert_eq!(text_of(&parts[4]), Some("%ann%"));
}

#[test]
fn list_query_with_author_only() {
    let parts = list_query(&TopicFilter { title: None, author: Some("ann".to_string()) });
    assert_eq!(parts.len(), 3);
    assert_eq!(sql_of(&parts[1]), Some(r#" AND "meta" ->> 'author' ILIKE "#));
    assert_eq!(text_of(&parts[2]), Some("%ann%"));
}

fn step(flow: IncrementViews, ev: ViewsEvent) -> (IncrementViews, ViewsAction) {
    assert!(flow.accepts(&ev), "{:?} does not wait for {:?}", flow, ev);
    flow.next(ev)
}

fn db_error() -> Error {
    Error::database("connection reset".to_string())
}

#[test]
fn increment_views_happy_path() {
    let (f, a) = IncrementViews::start(9);
    assert!(matches!(a, ViewsAction::Begin));
    let (f, a) = step(f, ViewsEvent::Begun);
    assert!(matches!(a, ViewsAction::LoadMeta(9)));
    let meta = TopicMeta { author: "ann".to_string(), views: 4 };
    let (f, a) = step(f, ViewsEvent::MetaLoaded(Some(meta)));
    match &a {
        ViewsAction::SaveMeta(id, m) => {
            assert_eq!(*id, 9);
            assert_eq!(m.views, 5);
            assert_eq!(m.author, "ann");
        }
        other => panic!("unexpected {:?}", other),
    }
    let (f, a) = step(f, ViewsEvent::Saved(5));
    assert!(matches!(a, ViewsAction::Commit));
    let (f, a) = step(f, ViewsEvent::Committed);
    assert!(matches!(a, ViewsAction::Reply(5)));
    assert!(matches!(f.step, ViewsStep::Done));
    assert!(!f.accepts(&ViewsEvent::Committed));
    assert!(!f.accepts(&ViewsEvent::Failed(db_error())));
}

#[test]
fn increment_views_missing_topic() {
    let (f, _) = IncrementViews::start(1);
    let (f, _) = step(f, ViewsEvent::Begun);
    let (f, a) = step(f, ViewsEvent::MetaLoaded(None));
    match a {
        ViewsAction::Fail(e) => assert_eq!(e.message(), "不存在的记录"),
        other => panic!("unexpected {:?}", other),
    }
    assert!(matches!(f.step, ViewsStep::Done));
}

#[test]
fn increment_views_failure_rolls_back() {
    let (f, _) = IncrementViews::start(1);
    let (f, _) = step(f, ViewsEvent::Begun);
    let (f, a) = step(f, ViewsEvent::Failed(db_error()));
    assert!(matches!(a, ViewsAction::Rollback));
    let (f, a) = step(f, ViewsEvent::RolledBack);
    match a {
        ViewsAction::Fail(e) => assert_eq!(e.message(), "connection reset"),
        other => panic!("unexpected {:?}", other),
    }
    assert!(matches!(f.step, ViewsStep::Done));
}

#[test]
fn increment_views_write_failure_then_rollback_failure() {
    let (f, _) = IncrementViews::start(1);
    let (f, _) = step(f, ViewsEvent::Begun);
    let meta = TopicMeta { author: "a".to_string(), views: 0 };
    let (f, _) = step(f, ViewsEvent::MetaLoaded(Some(meta)));
    let (f, a) = step(f, ViewsEvent::Failed(db_error()));
    assert!(matches!(a, ViewsAction::Rollback));
    let (_, a) = step(f, ViewsEvent::Failed(Error::database("gone".to_string())));
    match a {
        ViewsAction::Fail(e) => assert_eq!(e.message(), "gone"),
        other => panic!("unexpected {:?}", other),
    }
}

#[test]
fn increment_views_begin_or_commit_failure_answers_at_once() {
    let (f, _) = IncrementViews::start(1);
    let (f, a) = step(f, ViewsEvent::Failed(db_error()));
    assert!(matches!(a, ViewsAction::Fail(_)));
    assert!(matches!(f.step, ViewsStep::Done));

    let (f, _) = IncrementViews::start(1);
    let (f, _) = step(f, ViewsEvent::Begun);
    let meta = TopicMeta { author: "a".to_string(), views: 0 };
    let (f, _) = step(f, ViewsEvent::MetaLoaded(Some(meta)));
    let (f, _) = step(f, ViewsEvent::Saved(1));
    let (f, a) = step(f, ViewsEvent::Failed(db_error()));
    assert!(matches!(a, ViewsAction::Fail(_)));
    assert!(matches!(f.step, ViewsStep::Done));
}

#[test]
fn increment_views_refuses_counter_at_maximum() {
    let (f, _) = IncrementViews::start(1);
    let (f, _) = step(f, ViewsEvent::Begun);
    let full = TopicMeta { author: "a".to_string(), views: i64::MAX };
    assert!(!f.accepts(&ViewsEvent::MetaLoaded(Some(full))));
    assert!(!f.accepts(&ViewsEvent::Committed));
}

/// Runs one committed request against a one-row "database" holding `doc`,
/// which stores what the request writes.
fn one_committed_request(id: i32, doc: &mut TopicMeta) -> i64 {
    let (f, a) = IncrementViews::start(id);
    assert!(matches!(a, ViewsAction::Begin));
    let (f, a) = step(f, ViewsEvent::Begun);
    assert!(matches!(a, ViewsAction::LoadMeta(i) if i == id));
    let loaded = TopicMeta { author: doc.author.clone(), views: doc.views };
    let (f, a) = step(f, ViewsEvent::MetaLoaded(Some(loaded)));
    let stored = match a {
        ViewsAction::SaveMeta(_, m) => m,
        other => panic!("unexpected {:?}", other),
    };
    *doc = TopicMeta { author: stored.author.clone(), views: stored.views };
    let (f, _) = step(f, ViewsEvent::Saved(stored.views));
    match step(f, ViewsEvent::Committed).1 {
        ViewsAction::Reply(v) => v,
        other => panic!("unexpected {:?}", other),
    }
}

#[test]
fn several_requests_count_up() {
    let mut doc = TopicMeta { author: "ann".to_string(), views: 10 };
    let mut last = 0;
    for _ in 0..3 {
        last = one_committed_request(4, &mut doc);
    }
    assert_eq!(last, 13);
    assert_eq!(doc.views, 13);
    assert_eq!(doc.author, "ann");
}
