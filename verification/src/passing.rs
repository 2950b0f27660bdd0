use vstd::prelude::*;
use crate::keeping::NewKeepAndPassAlongLog;

verus! {

/// Where a pass-along of a post stands.
#[derive(Debug, Clone, Copy, PartialEq, Eq)]
pub enum PassStage {
    /// Waiting for the number of keeper rows removed inside a new transaction.
    RemovingKeeper,
    /// Waiting for the post's quota to be given back.
    RestoringQuota,
    /// Waiting for the pass-along log row to be inserted.
    LoggingPass,
    /// Nothing more to do.
    Done,
}

/// What the database answered to the last action.
#[derive(Debug, Clone, Copy, PartialEq, Eq)]
pub enum PassEvent {
    /// The number of keeper rows deleted; `None` where the deletion failed.
    KeepersRemoved(Option<usize>),
    QuotaRestored(bool),
    PassLogged(bool),
}

/// What the caller has to do next.
#[derive(Debug, Clone, PartialEq)]
pub enum PassAction {
    /// Open a transaction and delete the post's keeper rows.
    RemoveKeepers,
    /// Add one to the post's `quota_left`.
    RestoreQuota,
    /// Insert this log row.
    InsertLog(NewKeepAndPassAlongLog),
    /// Commit the transaction: the post was passed along.
    Commit,
    /// Roll the transaction back; the pass-along failed.
    Rollback,
}

/// A pass-along of post `post_id` by user `user_id`, in progress.
pub struct PassPost {
    pub user_id: String,
    pub post_id: i32,
    pub stage: PassStage,
}

/// The stage that the answer to the last action belongs to.
pub open spec fn pass_event_fits(stage: PassStage, e: PassEvent) -> bool {
    match stage {
        PassStage::RemovingKeeper => e is KeepersRemoved,
        PassStage::RestoringQuota => e is QuotaRestored,
        PassStage::LoggingPass => e is PassLogged,
        PassStage::Done => false,
    }
}

/// The stage and action that follow `stage` on event `e`, for user `user` and post `post`.
pub open spec fn pass_transition(user: String, post: i32, stage: PassStage, e: PassEvent) -> (
    PassStage,
    PassAction,
) {
    match (stage, e) {
        (PassStage::RemovingKeeper, PassEvent::KeepersRemoved(Some(n))) => if n < 1 {
            (PassStage::Done, PassAction::Rollback)
        } else {
            (PassStage::RestoringQuota, PassAction::RestoreQuota)
        },
        (PassStage::RestoringQuota, PassEvent::QuotaRestored(true)) => (
            PassStage::LoggingPass,
            PassAction::InsertLog(NewKeepAndPassAlongLog { pioki_id: user, post_id: post, is_kept: false }),
        ),
        (PassStage::LoggingPass, PassEvent::PassLogged(true)) => (PassStage::Done, PassAction::Commit),
        _ => (PassStage::Done, PassAction::Rollback),
    }
}

/// A pass-along commits only after at least one keeper row was removed, the
/// quota was given back and a log row with `is_kept == false` for this user and
/// post was written; each failure on the way rolls the transaction back.
pub proof fn lemma_pass_commits_only_complete(m: PassPost, e: PassEvent)
    requires
        pass_event_fits(m.stage, e),
    ensures
        m.next(e).1 is Commit <==> (m.stage == PassStage::LoggingPass && e == PassEvent::PassLogged(true)),
        m.stage == PassStage::RemovingKeeper ==> (m.next(e).1 is Rollback <==> (e
            == PassEvent::KeepersRemoved(None) || e == PassEvent::KeepersRemoved(Some(0usize)))),
        m.stage == PassStage::RestoringQuota ==> (m.next(e).1 is InsertLog <==> e == PassEvent::QuotaRestored(true)),
        m.next(e).1 is InsertLog ==> m.next(e).1 == PassAction::InsertLog(
            NewKeepAndPassAlongLog { pioki_id: m.user_id, post_id: m.post_id, is_kept: false },
        ),
        m.next(e).1 is Commit || m.next(e).1 is Rollback <==> m.next(e).0.stage == PassStage::Done,
{
}

/// Each stage before the end takes every answer of the kind it waits for.
pub proof fn lemma_pass_takes_its_answers(stage: PassStage, e: PassEvent)
    ensures
        stage == PassStage::RemovingKeeper && e is KeepersRemoved ==> pass_event_fits(stage, e),
        stage == PassStage::RestoringQuota && e is QuotaRestored ==> pass_event_fits(stage, e),
        stage == PassStage::LoggingPass && e is PassLogged ==> pass_event_fits(stage, e),
{
}

/// The pass-along after the answers `events`, and the actions it asked for on the way.
pub open spec fn pass_run(m: PassPost, events: Seq<PassEvent>) -> (PassPost, Seq<PassAction>)
    decreases events.len(),
{
    if events.len() == 0 {
        (m, Seq::empty())
    } else {
        let (m1, a) = m.next(events[0]);
        let (mf, rest) = pass_run(m1, events.drop_first());
        (mf, seq![a] + rest)
    }
}

/// Each of `events` answers the action that the pass-along asked for before it.
pub open spec fn pass_run_fits(m: PassPost, events: Seq<PassEvent>) -> bool
    decreases events.len(),
{
    events.len() == 0 || (pass_event_fits(m.stage, events[0]) && pass_run_fits(
        m.next(events[0]).0,
        events.drop_first(),
    ))
}

/// A pass-along, from its start, commits exactly when the database removed at
/// least one keeper row, gave the quota back and wrote the log row; its actions
/// are then the quota update, the log row of this user and post with
/// `is_kept == false`, and the commit.
pub proof fn lemma_pass_commit_trace(m: PassPost, events: Seq<PassEvent>)
    requires
        m.stage == PassStage::RemovingKeeper,
        pass_run_fits(m, events),
        events.len() > 0,
    ensures
        pass_run(m, events).1.last() is Commit <==> (events.len() == 3 && (events[0] matches PassEvent::KeepersRemoved(
            Some(n),
        ) && n >= 1) && events[1] == PassEvent::QuotaRestored(true) && events[2] == PassEvent::PassLogged(true)),
        pass_run(m, events).1.last() is Commit ==> pass_run(m, events).1 == seq![
            PassAction::RestoreQuota,
            PassAction::InsertLog(NewKeepAndPassAlongLog { pioki_id: m.user_id, post_id: m.post_id, is_kept: false }),
            PassAction::Commit,
        ],
{
    reveal_with_fuel(pass_run, 4);
    reveal_with_fuel(pass_run_fits, 4);
    let e = events;
    let m1 = m.next(e[0]).0;
    if e.len() > 1 {
        let r1 = e.drop_first();
        assert(r1[0] == e[1]);
        let m2 = m1.next(r1[0]).0;
        if r1.len() > 1 {
            let r2 = r1.drop_first();
            assert(r2[0] == e[2]);
            let m3 = m2.next(r2[0]).0;
            if r2.len() > 1 {
                let r3 = r2.drop_first();
                assert(m3.stage == PassStage::Done);
                assert(!pass_event_fits(m3.stage, r3[0]));
            }
            assert(pass_run(m2, r2).1 =~= seq![m2.next(r2[0]).1]);
            assert(pass_run(m1, r1).1 =~= seq![m1.next(r1[0]).1, m2.next(r2[0]).1]);
        } else {
            assert(pass_run(m1, r1).1 =~= seq![m1.next(r1[0]).1]);
        }
    } else {
        assert(pass_run(m, e).1 =~= seq![m.next(e[0]).1]);
    }
}

impl PassPost {
    /// The next machine and action on event `e`.
    pub open spec fn next(self, e: PassEvent) -> (PassPost, PassAction) {
        let (stage, action) = pass_transition(self.user_id, self.post_id, self.stage, e);
        (PassPost { user_id: self.user_id, post_id: self.post_id, stage }, action)
    }

    /// Starts a pass-along of post `post_id` by user `user_id`: first remove the keeper rows.
    pub fn new(user_id: String, post_id: i32) -> (r: (PassPost, PassAction))
        ensures
            r.0 == (PassPost { user_id, post_id, stage: PassStage::RemovingKeeper }),
            r.1 == PassAction::RemoveKeepers,
    {
        (PassPost { user_id, post_id, stage: PassStage::RemovingKeeper }, PassAction::RemoveKeepers)
    }

    /// Takes the answer `e` to the last action and says what to do next.
    pub fn step(self, e: PassEvent) -> (r: (PassPost, PassAction))
        requires
            pass_event_fits(self.stage, e),
        ensures
            r == self.next(e),
    {
        let PassPost { user_id, post_id, stage } = self;
        let (stage2, action): (PassStage, PassAction) = match (stage, e) {
            (PassStage::RemovingKeeper, PassEvent::KeepersRemoved(Some(n))) => if n < 1 {
                (PassStage::Done, PassAction::Rollback)
            } else {
                (PassStage::RestoringQuota, PassAction::RestoreQuota)
            },
            (PassStage::RestoringQuota, PassEvent::QuotaRestored(true)) => {
                let row = NewKeepAndPassAlongLog { pioki_id: user_id.clone(), post_id, is_kept: false };
                (PassStage::LoggingPass, PassAction::InsertLog(row))
            },
            (PassStage::LoggingPass, PassEvent::PassLogged(true)) => (PassStage::Done, PassAction::Commit),
            _ => (PassStage::Done, PassAction::Rollback),
        };
        (PassPost { user_id, post_id, stage: stage2 }, action)
    }
}

} // verus!
