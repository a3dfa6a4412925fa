use super::model::TopicMeta;
use crate::error::{Error, ErrorView};
use vstd::prelude::*;

verus! {

/// The body of a request that creates a topic.
pub struct CreateForm {
    pub title: String,
    pub author: String,
}

/// The query string of a topic search.
pub struct ListForm {
    pub title: Option<String>,
    pub author: Option<String>,
}

/// The answer given when the topic asked for does not exist.
pub open spec fn missing_record() -> ErrorView {
    ErrorView::Message("不存在的记录"@)
}

/// Where a view-count request stands.
#[derive(Debug)]
pub enum ViewsStep {
    /// Waiting for the transaction to open.
    Beginning,
    /// Waiting for the topic's document.
    Loading,
    /// Waiting for the document with one more view to be written.
    Saving,
    /// Waiting for the commit; holds the count to answer with.
    Committing(i64),
    /// Waiting for the rollback; holds the error to answer with.
    RollingBack(Error),
    /// Answered.
    Done,
}

/// A request that counts one more view of topic `id`, inside a transaction.
#[derive(Debug)]
pub struct IncrementViews {
    pub id: i32,
    pub step: ViewsStep,
}

/// What the database reported for the last action.
#[derive(Debug)]
pub enum ViewsEvent {
    Begun,
    MetaLoaded(Option<TopicMeta>),
    Saved(i64),
    Committed,
    RolledBack,
    Failed(Error),
}

/// What the caller must do next.
#[derive(Debug)]
pub enum ViewsAction {
    /// Open a transaction.
    Begin,
    /// Read the document of the topic with this id, in the transaction.
    LoadMeta(i32),
    /// Write this document to the topic with this id, in the transaction,
    /// and report the view count that was stored.
    SaveMeta(i32, TopicMeta),
    Commit,
    Rollback,
    /// Answer with this view count; the request is over.
    Reply(i64),
    /// Answer with this error; the request is over (an open transaction is dropped).
    Fail(Error),
}

/// The events that a step waits for.
pub open spec fn views_accepts(step: ViewsStep, ev: ViewsEvent) -> bool {
    match (step, ev) {
        (ViewsStep::Beginning, ViewsEvent::Begun) => true,
        (ViewsStep::Loading, ViewsEvent::MetaLoaded(m)) => match m {
            Some(meta) => meta.views < i64::MAX,
            None => true,
        },
        (ViewsStep::Saving, ViewsEvent::Saved(_)) => true,
        (ViewsStep::Committing(_), ViewsEvent::Committed) => true,
        (ViewsStep::RollingBack(_), ViewsEvent::RolledBack) => true,
        (ViewsStep::Done, _) => false,
        (_, ViewsEvent::Failed(_)) => true,
        _ => false,
    }
}

/// The transitions of a view-count request.
pub open spec fn views_step(
    flow: IncrementViews,
    ev: ViewsEvent,
    next: IncrementViews,
    action: ViewsAction,
) -> bool {
    &&& next.id == flow.id
    &&& match (flow.step, ev) {
        (ViewsStep::Beginning, ViewsEvent::Begun) => next.step is Loading && action
            == ViewsAction::LoadMeta(flow.id),
        (ViewsStep::Beginning, ViewsEvent::Failed(e)) => next.step is Done && action
            == ViewsAction::Fail(e),
        (ViewsStep::Loading, ViewsEvent::MetaLoaded(None)) => next.step is Done
            && (action matches ViewsAction::Fail(e) && e@ == missing_record()),
        (ViewsStep::Loading, ViewsEvent::MetaLoaded(Some(meta))) => next.step is Saving
            && (action matches ViewsAction::SaveMeta(id, m) && id == flow.id && m.author
            == meta.author && m.views == meta.views + 1),
        (ViewsStep::Loading, ViewsEvent::Failed(e)) => next.step == ViewsStep::RollingBack(e)
            && action == ViewsAction::Rollback,
        (ViewsStep::Saving, ViewsEvent::Saved(v)) => next.step == ViewsStep::Committing(v)
            && action == ViewsAction::Commit,
        (ViewsStep::Saving, ViewsEvent::Failed(e)) => next.step == ViewsStep::RollingBack(e)
            && action == ViewsAction::Rollback,
        (ViewsStep::Committing(v), ViewsEvent::Committed) => next.step is Done && action
            == ViewsAction::Reply(v),
        (ViewsStep::Committing(_), ViewsEvent::Failed(e)) => next.step is Done && action
            == ViewsAction::Fail(e),
        (ViewsStep::RollingBack(e), ViewsEvent::RolledBack) => next.step is Done && action
            == ViewsAction::Fail(e),
        (ViewsStep::RollingBack(_), ViewsEvent::Failed(e)) => next.step is Done && action
            == ViewsAction::Fail(e),
        _ => false,
    }
}

/// How many steps a request can still take at most.
pub open spec fn views_rank(step: ViewsStep) -> nat {
    match step {
        ViewsStep::Beginning => 5,
        ViewsStep::Loading => 4,
        ViewsStep::Saving => 3,
        ViewsStep::Committing(_) => 2,
        ViewsStep::RollingBack(_) => 1,
        ViewsStep::Done => 0,
    }
}

impl IncrementViews {
    /// A request for topic `id`: it starts by opening a transaction.
    pub fn start(id: i32) -> (r: (IncrementViews, ViewsAction))
        ensures
            r.0.id == id,
            r.0.step is Beginning,
            r.1 is Begin,
    {
        (IncrementViews { id, step: ViewsStep::Beginning }, ViewsAction::Begin)
    }

    /// Whether the request waits for `ev` now.
    pub fn accepts(&self, ev: &ViewsEvent) -> (b: bool)
        ensures
            b == views_accepts(self.step, *ev),
    {
        match (&self.step, ev) {
            (ViewsStep::Beginning, ViewsEvent::Begun) => true,
            (ViewsStep::Loading, ViewsEvent::MetaLoaded(m)) => match m {
                Some(meta) => meta.views < i64::MAX,
                None => true,
            },
            (ViewsStep::Saving, ViewsEvent::Saved(_)) => true,
            (ViewsStep::Committing(_), ViewsEvent::Committed) => true,
            (ViewsStep::RollingBack(_), ViewsEvent::RolledBack) => true,
            (ViewsStep::Done, _) => false,
            (_, ViewsEvent::Failed(_)) => true,
            _ => false,
        }
    }

    /// The request after `ev`, and what the caller must do next.
    pub fn next(self, ev: ViewsEvent) -> (r: (IncrementViews, ViewsAction))
        requires
            views_accepts(self.step, ev),
        ensures
            views_step(self, ev, r.0, r.1),
    {
        let id = self.id;
        match (self.step, ev) {
            (ViewsStep::Beginning, ViewsEvent::Begun) => (
                IncrementViews { id, step: ViewsStep::Loading },
                ViewsAction::LoadMeta(id),
            ),
            (ViewsStep::Loading, ViewsEvent::MetaLoaded(None)) => (
                IncrementViews { id, step: ViewsStep::Done },
                ViewsAction::Fail(Error::new("不存在的记录")),
            ),
            (ViewsStep::Loading, ViewsEvent::MetaLoaded(Some(meta))) => (
                IncrementViews { id, step: ViewsStep::Saving },
                ViewsAction::SaveMeta(id, meta.viewed_once()),
            ),
            (ViewsStep::Saving, ViewsEvent::Saved(v)) => (
                IncrementViews { id, step: ViewsStep::Committing(v) },
                ViewsAction::Commit,
            ),
            (ViewsStep::Committing(v), ViewsEvent::Committed) => (
                IncrementViews { id, step: ViewsStep::Done },
                ViewsAction::Reply(v),
            ),
            (ViewsStep::RollingBack(e), ViewsEvent::RolledBack) => (
                IncrementViews { id, step: ViewsStep::Done },
                ViewsAction::Fail(e),
            ),
            (ViewsStep::Loading, ViewsEvent::Failed(e)) | (ViewsStep::Saving, ViewsEvent::Failed(
                e,
            )) => (IncrementViews { id, step: ViewsStep::RollingBack(e) }, ViewsAction::Rollback),
            (_, ViewsEvent::Failed(e)) => (
                IncrementViews { id, step: ViewsStep::Done },
                ViewsAction::Fail(e),
            ),
            (_, _) => {
                proof {
                    assert(false);
                }
                (IncrementViews { id, step: ViewsStep::Done }, ViewsAction::Begin)
            },
        }
    }
}

/// Every view-count request is answered: each step it takes lowers its rank,
/// so it ends within five steps, and an answered request waits for nothing.
pub proof fn views_request_ends(flow: IncrementViews, ev: ViewsEvent, next: IncrementViews, action: ViewsAction)
    requires
        views_accepts(flow.step, ev),
        views_step(flow, ev, next, action),
    ensures
        views_rank(next.step) < views_rank(flow.step),
        next.step is Done ==> forall|e: ViewsEvent| !views_accepts(next.step, e),
{
}

/// A view-count request answers exactly once, with its last action: the
/// action is an answer exactly when the request is over.
pub proof fn views_answer_is_last(flow: IncrementViews, ev: ViewsEvent, next: IncrementViews, action: ViewsAction)
    requires
        views_accepts(flow.step, ev),
        views_step(flow, ev, next, action),
    ensures
        (action is Reply || action is Fail) <==> next.step is Done,
{
}

/// A view count is only answered after the transaction committed, and it is
/// the count that the write reported.
pub proof fn views_reply_after_commit(flow: IncrementViews, ev: ViewsEvent, next: IncrementViews, action: ViewsAction)
    requires
        views_accepts(flow.step, ev),
        views_step(flow, ev, next, action),
        action is Reply,
    ensures
        ev is Committed,
        flow.step == ViewsStep::Committing(action->Reply_0),
{
}

/// A database failure while the transaction is open and not yet committing is
/// answered only after a rollback is asked for.
pub proof fn views_failure_rolls_back(flow: IncrementViews, ev: ViewsEvent, next: IncrementViews, action: ViewsAction)
    requires
        views_accepts(flow.step, ev),
        views_step(flow, ev, next, action),
        flow.step is Loading || flow.step is Saving,
        ev is Failed,
    ensures
        action is Rollback,
        next.step == ViewsStep::RollingBack(ev->Failed_0),
{
}

/// The transaction of a view-count request is open (begun, and not yet
/// handed to a commit or a rollback).
pub open spec fn views_tx_open(step: ViewsStep) -> bool {
    step is Loading || step is Saving
}

/// Transactions: a request's transaction opens only on a successful begin;
/// the document is read and written only while it is open; a commit or a
/// rollback is asked only while it is open, and closes it.
pub proof fn views_transaction_use(flow: IncrementViews, ev: ViewsEvent, next: IncrementViews, action: ViewsAction)
    requires
        views_accepts(flow.step, ev),
        views_step(flow, ev, next, action),
    ensures
        views_tx_open(next.step) ==> views_tx_open(flow.step) || (flow.step is Beginning
            && ev is Begun),
        action is LoadMeta || action is SaveMeta ==> views_tx_open(next.step),
        action is Commit || action is Rollback ==> views_tx_open(flow.step) && !views_tx_open(
            next.step,
        ),
        !views_tx_open(next.step) ==> !(action is LoadMeta || action is SaveMeta),
{
}

/// One committed view-count request for topic `id`: from the start, the
/// database opens the transaction, holds `before` as the topic's document,
/// stores the document it is asked to write (`after`) and reports its count,
/// and commits; `flows` and `actions` are what [`IncrementViews::next`] gives
/// step by step, and the request answers `reply`.
pub open spec fn views_request_committed(
    id: i32,
    before: TopicMeta,
    after: TopicMeta,
    reply: i64,
    flows: Seq<IncrementViews>,
    actions: Seq<ViewsAction>,
) -> bool {
    let events = seq![
        ViewsEvent::Begun,
        ViewsEvent::MetaLoaded(Some(before)),
        ViewsEvent::Saved(after.views),
        ViewsEvent::Committed,
    ];
    &&& flows.len() == 5
    &&& actions.len() == 4
    &&& flows[0] == (IncrementViews { id, step: ViewsStep::Beginning })
    &&& forall|i: int|
        0 <= i < 4 ==> views_accepts(flows[i].step, #[trigger] events[i]) && views_step(
            flows[i],
            events[i],
            flows[i + 1],
            actions[i],
        )
    &&& actions[1] == ViewsAction::SaveMeta(id, after)
    &&& actions[3] == ViewsAction::Reply(reply)
}

/// One committed request moves the stored count on by one, keeps the author,
/// and answers the new count.
pub proof fn views_request_counts_one(
    id: i32,
    before: TopicMeta,
    after: TopicMeta,
    reply: i64,
    flows: Seq<IncrementViews>,
    actions: Seq<ViewsAction>,
)
    requires
        views_request_committed(id, before, after, reply, flows, actions),
    ensures
        after.views == before.views + 1,
        after.author == before.author,
        reply == after.views,
{
    let events = seq![
        ViewsEvent::Begun,
        ViewsEvent::MetaLoaded(Some(before)),
        ViewsEvent::Saved(after.views),
        ViewsEvent::Committed,
    ];
    assert(events[0] == ViewsEvent::Begun);
    assert(events[1] == ViewsEvent::MetaLoaded(Some(before)));
    assert(events[2] == ViewsEvent::Saved(after.views));
    assert(events[3] == ViewsEvent::Committed);
}

/// Counting up: after `n` committed view-count requests in a row on one topic,
/// each finding the document that the one before stored (no other writer),
/// the topic holds its first count plus `n`, by the same author, and the last
/// request answered that count.
pub proof fn views_requests_count_up(
    id: i32,
    docs: Seq<TopicMeta>,
    replies: Seq<i64>,
    flows: Seq<Seq<IncrementViews>>,
    actions: Seq<Seq<ViewsAction>>,
)
    requires
        docs.len() == replies.len() + 1,
        flows.len() == replies.len(),
        actions.len() == replies.len(),
        forall|k: int|
            0 <= k < replies.len() ==> views_request_committed(
                id,
                docs[k],
                docs[k + 1],
                #[trigger] replies[k],
                flows[k],
                actions[k],
            ),
    ensures
        docs.last().views == docs[0].views + replies.len(),
        docs.last().author == docs[0].author,
        replies.len() > 0 ==> replies.last() == docs[0].views + replies.len(),
    decreases replies.len(),
{
    if replies.len() > 0 {
        let n = replies.len() - 1;
        views_requests_count_up(
            id,
            docs.take(n + 1),
            replies.take(n),
            flows.take(n),
            actions.take(n),
        );
        assert(docs.take(n + 1).last() == docs[n]);
        assert(replies[n] == replies.last());
        views_request_counts_one(id, docs[n], docs[n + 1], replies[n], flows[n], actions[n]);
    }
}

/// What each step waits for: the open transaction; any document whose
/// counter can still grow (and only those), or none; the count written; the
/// commit; the rollback; and a database failure at any step before the answer.
pub proof fn views_waits_for_the_database(
    step: ViewsStep,
    meta: TopicMeta,
    written: i64,
    e: Error,
)
    ensures
        step is Beginning ==> views_accepts(step, ViewsEvent::Begun),
        step is Loading ==> (views_accepts(step, ViewsEvent::MetaLoaded(Some(meta))) <==> meta.views
            < i64::MAX) && views_accepts(step, ViewsEvent::MetaLoaded(None)),
        step is Saving ==> views_accepts(step, ViewsEvent::Saved(written)),
        step is Committing ==> views_accepts(step, ViewsEvent::Committed),
        step is RollingBack ==> views_accepts(step, ViewsEvent::RolledBack),
        !(step is Done) ==> views_accepts(step, ViewsEvent::Failed(e)),
{
}

/// Once its transaction opens, a request reads the document of its own topic.
pub proof fn begun_request_loads_its_topic(flow: IncrementViews, next: IncrementViews, action: ViewsAction)
    requires
        flow.step is Beginning,
        views_accepts(flow.step, ViewsEvent::Begun),
        views_step(flow, ViewsEvent::Begun, next, action),
    ensures
        action == ViewsAction::LoadMeta(flow.id),
        next.id == flow.id,
        next.step is Loading,
{
}

/// A loaded document is written back to the same topic with one more view
/// and the same author; a missing topic is answered "不存在的记录".
pub proof fn loaded_document_written_with_one_more_view(
    flow: IncrementViews,
    loaded: Option<TopicMeta>,
    next: IncrementViews,
    action: ViewsAction,
)
    requires
        flow.step is Loading,
        views_accepts(flow.step, ViewsEvent::MetaLoaded(loaded)),
        views_step(flow, ViewsEvent::MetaLoaded(loaded), next, action),
    ensures
        loaded matches Some(meta) ==> (action matches ViewsAction::SaveMeta(id, m) && id == flow.id
            && m.views == meta.views + 1 && m.author == meta.author && m.author@ == meta.author@),
        loaded is None ==> (action matches ViewsAction::Fail(e) && e@ == ErrorView::Message(
            "不存在的记录"@,
        )) && next.step is Done,
{
}

/// A request answers exactly the count the write reported, once the commit
/// went through.
pub proof fn views_answer_written_count(
    saving: IncrementViews,
    written: i64,
    committing: IncrementViews,
    commit: ViewsAction,
    done: IncrementViews,
    answer: ViewsAction,
)
    requires
        saving.step is Saving,
        views_accepts(saving.step, ViewsEvent::Saved(written)),
        views_step(saving, ViewsEvent::Saved(written), committing, commit),
        views_accepts(committing.step, ViewsEvent::Committed),
        views_step(committing, ViewsEvent::Committed, done, answer),
    ensures
        commit is Commit,
        answer == ViewsAction::Reply(written),
        done.step is Done,
{
}

/// A failure answered after a rollback is answered with that failure; a
/// failing rollback is answered with its own error.
pub proof fn views_rollback_answers_the_failure(
    flow: IncrementViews,
    e: Error,
    ev: ViewsEvent,
    next: IncrementViews,
    action: ViewsAction,
)
    requires
        flow.step == ViewsStep::RollingBack(e),
        views_accepts(flow.step, ev),
        views_step(flow, ev, next, action),
    ensures
        ev is RolledBack ==> action == ViewsAction::Fail(e),
        ev matches ViewsEvent::Failed(e2) ==> action == ViewsAction::Fail(e2),
        next.step is Done,
{
}

/// A database failure is never lost or replaced: the request either answers
/// that very error at once, or asks for a rollback and holds that error to
/// answer with.
pub proof fn views_failure_is_kept(flow: IncrementViews, e: Error, next: IncrementViews, action: ViewsAction)
    requires
        views_accepts(flow.step, ViewsEvent::Failed(e)),
        views_step(flow, ViewsEvent::Failed(e), next, action),
    ensures
        action == ViewsAction::Fail(e) || (action is Rollback && next.step == ViewsStep::RollingBack(
            e,
        )),
        action is Fail ==> next.step is Done,
{
}

} // verus!
