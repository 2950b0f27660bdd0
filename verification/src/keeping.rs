use vstd::prelude::*;

verus! {

/// Why keeping a post was refused.
#[derive(Debug, Clone, PartialEq)]
pub enum PostKeepingError {
    /// The user already holds this post.
    AlreadyInteractedError,
    /// A step inside the transaction failed, so everything was rolled back.
    RollbackError,
    /// Every copy of the post is already held by someone.
    NoMoreQuota,
    /// The database failed outside the steps above (opening or committing).
    DatabaseError(String),
}

/// The row that a keep inserts into `post_keepers`.
#[derive(Debug, Clone, PartialEq)]
pub struct NewPostKeeper {
    pub pioki_id: String,
    pub post_id: i32,
}

/// The row that a keep or a pass-along appends to `keep_and_pass_along_logs`.
#[derive(Debug, Clone, PartialEq)]
pub struct NewKeepAndPassAlongLog {
    pub pioki_id: String,
    pub post_id: i32,
    pub is_kept: bool,
}

/// What the post row locked at the start of the transaction says.
#[derive(Debug, Clone, PartialEq)]
pub struct LockedPost {
    pub creator_id: String,
    pub origin_quota_limit: i32,
}

/// Where a keep of a post stands. `K` is the inserted keeper row.
pub enum KeepStage<K> {
    /// Waiting for the number of rows in which the user already keeps the post.
    CheckingPriorKeep,
    /// Waiting for the post row, locked for update inside a new transaction.
    LoadingPost,
    /// Waiting for the number of keepers that have not passed the post along.
    CountingKeepers { owner_id: String, quota_limit: i32 },
    /// Waiting for the keeper row to be inserted.
    InsertingKeeper { owner_id: String, quota_limit: i32, keep_count: i32 },
    /// Waiting for the keep log row to be inserted.
    InsertingLog { owner_id: String, quota_limit: i32, keep_count: i32, keeper: Option<K> },
    /// Waiting for the number of log rows in which the user ever kept the post.
    CheckingEverKept {
        owner_id: String,
        quota_limit: i32,
        keep_count: i32,
        keeper: Option<K>,
        log_written: bool,
    },
    /// Waiting for the owner's coin to be credited.
    RewardingOwner { quota_limit: i32, keep_count: i32, keeper: Option<K>, log_written: bool },
    /// Waiting for the post's remaining quota to be written.
    UpdatingQuota { quota_limit: i32, keep_count: i32, keeper: Option<K>, log_written: bool },
    /// Nothing more to do.
    Done,
}

/// What the database answered to the last action.
pub enum KeepEvent<K> {
    PriorKeepCount(i64),
    /// `None` where the post could not be loaded.
    PostLoaded(Option<LockedPost>),
    /// `None` where the keepers could not be counted.
    KeeperCount(Option<i64>),
    /// `None` where the insertion failed.
    KeeperInserted(Option<K>),
    LogInserted(bool),
    EverKeptCount(i64),
    OwnerRewarded(bool),
    QuotaUpdated(bool),
}

/// What the caller has to do next.
pub enum KeepAction<K> {
    /// Count the `post_keepers` rows of this user and post.
    CountPriorKeeps,
    /// Open a transaction and load the post row for update.
    LockPost,
    /// Count the `post_keepers` rows of this post that were not passed along.
    CountActiveKeepers,
    /// Insert this keeper row.
    InsertKeeper(NewPostKeeper),
    /// Insert this log row.
    InsertLog(NewKeepAndPassAlongLog),
    /// Count the log rows of this user and post.
    CountEverKept,
    /// Add one coin to this user.
    RewardOwner { owner_id: String },
    /// Set the post's `quota_left` to this value.
    SetQuotaLeft { quota_left: i32 },
    /// Commit the transaction; the keep succeeded with this keeper row.
    Commit(K),
    /// Roll the transaction back and report this error.
    Rollback(PostKeepingError),
    /// Report this error; no transaction was opened.
    Refuse(PostKeepingError),
}

/// A keep of post `post_id` by user `user_id`, in progress.
pub struct KeepPost<K> {
    pub user_id: String,
    pub post_id: i32,
    pub stage: KeepStage<K>,
}

/// The stage that the answer to the last action belongs to.
pub open spec fn keep_event_fits<K>(stage: KeepStage<K>, e: KeepEvent<K>) -> bool {
    match stage {
        KeepStage::CheckingPriorKeep => e is PriorKeepCount,
        KeepStage::LoadingPost => e is PostLoaded,
        KeepStage::CountingKeepers { quota_limit, .. } => match e {
            KeepEvent::KeeperCount(c) => match c {
                // the quota left, `limit - (count + 1)`, is computed in `i32`
                Some(n) => (n as i32) < quota_limit ==> quota_limit - ((n as i32) + 1)
                    <= i32::MAX,
                None => true,
            },
            _ => false,
        },
        KeepStage::InsertingKeeper { .. } => e is KeeperInserted,
        KeepStage::InsertingLog { .. } => e is LogInserted,
        KeepStage::CheckingEverKept { .. } => e is EverKeptCount,
        KeepStage::RewardingOwner { .. } => e is OwnerRewarded,
        KeepStage::UpdatingQuota { .. } => e is QuotaUpdated,
        KeepStage::Done => false,
    }
}

/// The count is below the quota and the quota left after this keep fits in `i32`.
pub open spec fn quota_room(quota_limit: i32, keep_count: i32) -> bool {
    keep_count < quota_limit && quota_limit - (keep_count + 1) <= i32::MAX
}

/// The stages past the count carry a count that is below the quota.
pub open spec fn keep_stage_wf<K>(stage: KeepStage<K>) -> bool {
    match stage {
        KeepStage::InsertingKeeper { quota_limit, keep_count, .. } => quota_room(
            quota_limit,
            keep_count,
        ),
        KeepStage::InsertingLog { quota_limit, keep_count, .. } => quota_room(
            quota_limit,
            keep_count,
        ),
        KeepStage::CheckingEverKept { quota_limit, keep_count, .. } => quota_room(
            quota_limit,
            keep_count,
        ),
        KeepStage::RewardingOwner { quota_limit, keep_count, .. } => quota_room(
            quota_limit,
            keep_count,
        ),
        KeepStage::UpdatingQuota { quota_limit, keep_count, .. } => quota_room(
            quota_limit,
            keep_count,
        ),
        _ => true,
    }
}

/// The quota that a post has left once `keep_count` others and this user hold it.
pub open spec fn quota_left_after_keep(quota_limit: i32, keep_count: i32) -> int {
    quota_limit - (keep_count + 1)
}

/// The stage and action that follow `stage` on event `e`, for user `user` and post `post`.
pub open spec fn keep_transition<K>(user: String, post: i32, stage: KeepStage<K>, e: KeepEvent<K>) -> (
    KeepStage<K>,
    KeepAction<K>,
) {
    match stage {
        KeepStage::CheckingPriorKeep => match e {
            KeepEvent::PriorKeepCount(n) => if n != 0 {
                (KeepStage::Done, KeepAction::Refuse(PostKeepingError::AlreadyInteractedError))
            } else {
                (KeepStage::LoadingPost, KeepAction::LockPost)
            },
            _ => (KeepStage::Done, KeepAction::Rollback(PostKeepingError::RollbackError)),
        },
        KeepStage::LoadingPost => match e {
            KeepEvent::PostLoaded(Some(p)) => (
                KeepStage::CountingKeepers {
                    owner_id: p.creator_id,
                    quota_limit: p.origin_quota_limit,
                },
                KeepAction::CountActiveKeepers,
            ),
            _ => (KeepStage::Done, KeepAction::Rollback(PostKeepingError::RollbackError)),
        },
        KeepStage::CountingKeepers { owner_id, quota_limit } => match e {
            KeepEvent::KeeperCount(Some(n)) => if (n as i32) >= quota_limit {
                (KeepStage::Done, KeepAction::Rollback(PostKeepingError::NoMoreQuota))
            } else {
                (
                    KeepStage::InsertingKeeper { owner_id, quota_limit, keep_count: n as i32 },
                    KeepAction::InsertKeeper(NewPostKeeper { pioki_id: user, post_id: post }),
                )
            },
            _ => (KeepStage::Done, KeepAction::Rollback(PostKeepingError::RollbackError)),
        },
        KeepStage::InsertingKeeper { owner_id, quota_limit, keep_count } => match e {
            KeepEvent::KeeperInserted(k) => (
                KeepStage::InsertingLog { owner_id, quota_limit, keep_count, keeper: k },
                KeepAction::InsertLog(
                    NewKeepAndPassAlongLog { pioki_id: user, post_id: post, is_kept: true },
                ),
            ),
            _ => (KeepStage::Done, KeepAction::Rollback(PostKeepingError::RollbackError)),
        },
        KeepStage::InsertingLog { owner_id, quota_limit, keep_count, keeper } => match e {
            KeepEvent::LogInserted(ok) => if owner_id@ != user@ {
                (
                    KeepStage::CheckingEverKept {
                        owner_id,
                        quota_limit,
                        keep_count,
                        keeper,
                        log_written: ok,
                    },
                    KeepAction::CountEverKept,
                )
            } else {
                (
                    KeepStage::UpdatingQuota { quota_limit, keep_count, keeper, log_written: ok },
                    KeepAction::SetQuotaLeft {
                        quota_left: quota_left_after_keep(quota_limit, keep_count) as i32,
                    },
                )
            },
            _ => (KeepStage::Done, KeepAction::Rollback(PostKeepingError::RollbackError)),
        },
        KeepStage::CheckingEverKept { owner_id, quota_limit, keep_count, keeper, log_written } => {
            match e {
                KeepEvent::EverKeptCount(n) => if n == 0 {
                    (
                        KeepStage::RewardingOwner { quota_limit, keep_count, keeper, log_written },
                        KeepAction::RewardOwner { owner_id },
                    )
                } else {
                    (
                        KeepStage::UpdatingQuota { quota_limit, keep_count, keeper, log_written },
                        KeepAction::SetQuotaLeft {
                            quota_left: quota_left_after_keep(quota_limit, keep_count) as i32,
                        },
                    )
                },
                _ => (KeepStage::Done, KeepAction::Rollback(PostKeepingError::RollbackError)),
            }
        },
        KeepStage::RewardingOwner { quota_limit, keep_count, keeper, log_written } => match e {
            KeepEvent::OwnerRewarded(ok) => if !ok {
                (KeepStage::Done, KeepAction::Rollback(PostKeepingError::RollbackError))
            } else {
                (
                    KeepStage::UpdatingQuota { quota_limit, keep_count, keeper, log_written },
                    KeepAction::SetQuotaLeft {
                        quota_left: quota_left_after_keep(quota_limit, keep_count) as i32,
                    },
                )
            },
            _ => (KeepStage::Done, KeepAction::Rollback(PostKeepingError::RollbackError)),
        },
        KeepStage::UpdatingQuota { keeper, log_written, .. } => match e {
            KeepEvent::QuotaUpdated(ok) => match keeper {
                Some(k) => if ok && log_written {
                    (KeepStage::Done, KeepAction::Commit(k))
                } else {
                    (KeepStage::Done, KeepAction::Rollback(PostKeepingError::RollbackError))
                },
                None => (KeepStage::Done, KeepAction::Rollback(PostKeepingError::RollbackError)),
            },
            _ => (KeepStage::Done, KeepAction::Rollback(PostKeepingError::RollbackError)),
        },
        KeepStage::Done => (KeepStage::Done, KeepAction::Rollback(PostKeepingError::RollbackError)),
    }
}


/// How far a keep has gone; every answered action moves it strictly further.
pub open spec fn keep_stage_rank<K>(stage: KeepStage<K>) -> int {
    match stage {
        KeepStage::CheckingPriorKeep => 0,
        KeepStage::LoadingPost => 1,
        KeepStage::CountingKeepers { .. } => 2,
        KeepStage::InsertingKeeper { .. } => 3,
        KeepStage::InsertingLog { .. } => 4,
        KeepStage::CheckingEverKept { .. } => 5,
        KeepStage::RewardingOwner { .. } => 6,
        KeepStage::UpdatingQuota { .. } => 7,
        KeepStage::Done => 8,
    }
}

/// The actions after which the keep is over.
pub open spec fn keep_action_final<K>(a: KeepAction<K>) -> bool {
    a is Commit || a is Rollback || a is Refuse
}

/// A user who already keeps the post is refused with `AlreadyInteractedError`,
/// before any transaction is opened.
pub proof fn lemma_keep_refused_when_already_kept<K>(m: KeepPost<K>, n: i64)
    requires
        m.stage is CheckingPriorKeep,
        n != 0,
    ensures
        m.next(KeepEvent::PriorKeepCount(n)).1 == KeepAction::<K>::Refuse(
            PostKeepingError::AlreadyInteractedError,
        ),
        m.next(KeepEvent::PriorKeepCount(n)).0.stage is Done,
{
}

/// When as many keepers as the post's quota already hold it, the keep is
/// rolled back with `NoMoreQuota` and nothing is written.
pub proof fn lemma_keep_refused_when_quota_used<K>(m: KeepPost<K>, n: i64)
    requires
        m.stage is CountingKeepers,
        (n as i32) >= m.stage->CountingKeepers_quota_limit,
    ensures
        m.next(KeepEvent::KeeperCount(Some(n))).1 == KeepAction::<K>::Rollback(
            PostKeepingError::NoMoreQuota,
        ),
{
}

/// The quota that a keep writes is re-stamped from the counted keepers: it is
/// the post's limit minus the counted keepers minus this one, and never
/// negative.
pub proof fn lemma_keep_quota_restamped<K>(m: KeepPost<K>, e: KeepEvent<K>)
    requires
        m.wf(),
        keep_event_fits(m.stage, e),
        m.next(e).1 is SetQuotaLeft,
    ensures
        m.next(e).0.stage is UpdatingQuota,
        m.next(e).1->SetQuotaLeft_quota_left == m.next(e).0.stage->UpdatingQuota_quota_limit - (
        m.next(e).0.stage->UpdatingQuota_keep_count + 1),
        m.next(e).0.stage->UpdatingQuota_keep_count < m.next(e).0.stage->UpdatingQuota_quota_limit,
        0 <= m.next(e).1->SetQuotaLeft_quota_left,
{
}

/// The post's owner is credited only when someone else keeps the post and that
/// user never kept it before; the owner credited is the one the keep carries
/// from the locked post.
pub proof fn lemma_keep_rewards_only_first_keep_by_other<K>(m: KeepPost<K>, e: KeepEvent<K>)
    requires
        m.wf(),
        keep_event_fits(m.stage, e),
        m.next(e).1 is RewardOwner,
    ensures
        m.stage is CheckingEverKept,
        e == KeepEvent::<K>::EverKeptCount(0),
        m.next(e).1->RewardOwner_owner_id == m.stage->CheckingEverKept_owner_id,
        m.stage->CheckingEverKept_owner_id@ != m.user_id@,
{
}

/// A keep of one's own post never credits anyone: the log step goes straight
/// to the quota.
pub proof fn lemma_keep_own_post_not_rewarded<K>(m: KeepPost<K>, ok: bool)
    requires
        m.wf(),
        m.stage is InsertingLog,
        m.stage->InsertingLog_owner_id@ == m.user_id@,
    ensures
        m.next(KeepEvent::LogInserted(ok)).1 is SetQuotaLeft,
{
}

/// A keep commits only once the keeper row, the log row and the quota were all
/// written, and only with a count below the quota; any failed write rolls the
/// whole transaction back.
pub proof fn lemma_keep_commits_only_complete<K>(m: KeepPost<K>, e: KeepEvent<K>)
    requires
        m.wf(),
        keep_event_fits(m.stage, e),
    ensures
        m.next(e).1 is Commit ==> {
            &&& m.stage is UpdatingQuota
            &&& m.stage->UpdatingQuota_keeper == Some(m.next(e).1->Commit_0)
            &&& m.stage->UpdatingQuota_log_written
            &&& e == KeepEvent::<K>::QuotaUpdated(true)
            &&& m.stage->UpdatingQuota_keep_count < m.stage->UpdatingQuota_quota_limit
        },
        m.stage is UpdatingQuota && (e == KeepEvent::<K>::QuotaUpdated(false)
            || !m.stage->UpdatingQuota_log_written || m.stage->UpdatingQuota_keeper is None)
            ==> m.next(e).1 == KeepAction::<K>::Rollback(PostKeepingError::RollbackError),
{
}

/// Every answered action moves the keep strictly forward, and the keep is over
/// exactly when it reaches `Done`; so a keep ends after at most eight answers.
pub proof fn lemma_keep_progresses<K>(m: KeepPost<K>, e: KeepEvent<K>)
    requires
        m.wf(),
        keep_event_fits(m.stage, e),
    ensures
        keep_stage_rank(m.next(e).0.stage) > keep_stage_rank(m.stage),
        m.next(e).0.stage is Done <==> keep_action_final(m.next(e).1),
        m.next(e).0.user_id == m.user_id,
        m.next(e).0.post_id == m.post_id,
{
}

/// A user who holds no copy of the post yet goes on: the transaction is
/// opened and the post locked.
pub proof fn lemma_keep_goes_on_when_not_kept<K>(m: KeepPost<K>)
    requires
        m.stage is CheckingPriorKeep,
    ensures
        m.next(KeepEvent::PriorKeepCount(0)).1 is LockPost,
        m.next(KeepEvent::PriorKeepCount(0)).0.stage is LoadingPost,
{
}

/// With fewer active keepers than the post's quota, the keep goes on: it asks
/// to insert a keeper row for the keeping user and the kept post, and counts
/// the keepers it found.
pub proof fn lemma_keep_below_quota_inserts_keeper<K>(m: KeepPost<K>, n: i64)
    requires
        m.wf(),
        m.stage is CountingKeepers,
        keep_event_fits(m.stage, KeepEvent::KeeperCount(Some(n))),
        (n as i32) < m.stage->CountingKeepers_quota_limit,
    ensures
        m.next(KeepEvent::KeeperCount(Some(n))).1 == KeepAction::<K>::InsertKeeper(
            NewPostKeeper { pioki_id: m.user_id, post_id: m.post_id },
        ),
        m.next(KeepEvent::KeeperCount(Some(n))).0.stage is InsertingKeeper,
        m.next(KeepEvent::KeeperCount(Some(n))).0.stage->InsertingKeeper_keep_count == n as i32,
{
}

/// Every row that a keep asks to write names the keeping user and the kept
/// post, and its log row records a keep.
pub proof fn lemma_keep_rows_name_user_and_post<K>(m: KeepPost<K>, e: KeepEvent<K>)
    requires
        m.wf(),
        keep_event_fits(m.stage, e),
    ensures
        m.next(e).1 matches KeepAction::InsertKeeper(r) ==> r == (NewPostKeeper {
            pioki_id: m.user_id,
            post_id: m.post_id,
        }),
        m.next(e).1 matches KeepAction::InsertLog(r) ==> r == (NewKeepAndPassAlongLog {
            pioki_id: m.user_id,
            post_id: m.post_id,
            is_kept: true,
        }),
{
}

/// The owner that a keep may reward is the creator of the post it locked: the
/// creator is taken from the loaded post and carried unchanged up to the
/// ever-kept check, together with the post's quota.
pub proof fn lemma_keep_carries_creator<K>(m: KeepPost<K>, e: KeepEvent<K>)
    requires
        m.wf(),
        keep_event_fits(m.stage, e),
    ensures
        (m.stage is LoadingPost ==> (e matches KeepEvent::PostLoaded(Some(p)) ==> m.next(e).0.stage
            == (KeepStage::<K>::CountingKeepers { owner_id: p.creator_id, quota_limit: p.origin_quota_limit }))),
        ((m.stage is CountingKeepers && m.next(e).0.stage is InsertingKeeper) ==> {
            &&& m.next(e).0.stage->InsertingKeeper_owner_id == m.stage->CountingKeepers_owner_id
            &&& m.next(e).0.stage->InsertingKeeper_quota_limit == m.stage->CountingKeepers_quota_limit
        }),
        (m.stage is InsertingKeeper ==> {
            &&& m.next(e).0.stage is InsertingLog
            &&& m.next(e).0.stage->InsertingLog_owner_id == m.stage->InsertingKeeper_owner_id
            &&& m.next(e).0.stage->InsertingLog_quota_limit == m.stage->InsertingKeeper_quota_limit
            &&& m.next(e).0.stage->InsertingLog_keep_count == m.stage->InsertingKeeper_keep_count
        }),
{
}

/// Once the log row was asked for, a keep by anyone other than the post's
/// creator (the two identifiers differ as strings) asks whether that user ever
/// kept the post before, carrying the creator along; a keep by the creator
/// goes straight to the quota.
pub proof fn lemma_keep_by_other_user_checks_reward<K>(m: KeepPost<K>, ok: bool)
    requires
        m.wf(),
        m.stage is InsertingLog,
    ensures
        m.stage->InsertingLog_owner_id@ != m.user_id@ ==> {
            &&& m.next(KeepEvent::LogInserted(ok)).1 is CountEverKept
            &&& m.next(KeepEvent::LogInserted(ok)).0.stage is CheckingEverKept
            &&& m.next(KeepEvent::LogInserted(ok)).0.stage->CheckingEverKept_owner_id
                == m.stage->InsertingLog_owner_id
            &&& m.next(KeepEvent::LogInserted(ok)).0.stage->CheckingEverKept_log_written == ok
        },
        (m.stage->InsertingLog_owner_id@ == m.user_id@ ==> m.next(KeepEvent::LogInserted(ok)).1 is SetQuotaLeft),
{
}

/// A user who never kept the post before earns its creator one coin: the
/// answer 0 to the ever-kept count asks to reward exactly the carried creator;
/// any other answer goes straight to the quota without a reward.
pub proof fn lemma_keep_first_keep_rewards_creator<K>(m: KeepPost<K>, n: i64)
    requires
        m.wf(),
        m.stage is CheckingEverKept,
    ensures
        (n == 0 ==> m.next(KeepEvent::EverKeptCount(n)).1 == (KeepAction::<K>::RewardOwner {
            owner_id: m.stage->CheckingEverKept_owner_id,
        })),
        (n != 0 ==> m.next(KeepEvent::EverKeptCount(n)).1 is SetQuotaLeft),
{
}


/// A keep rolls back with `RollbackError` when the post cannot be loaded, the
/// keepers cannot be counted, or the owner's reward fails; a reward that
/// succeeds goes on to the quota.
pub proof fn lemma_keep_failures_roll_back<K>(m: KeepPost<K>, ok: bool)
    requires
        m.wf(),
    ensures
        m.stage is LoadingPost ==> m.next(KeepEvent::PostLoaded(None)).1 == KeepAction::<K>::Rollback(
            PostKeepingError::RollbackError,
        ),
        m.stage is CountingKeepers ==> m.next(KeepEvent::KeeperCount(None)).1 == KeepAction::<K>::Rollback(
            PostKeepingError::RollbackError,
        ),
        m.stage is RewardingOwner && !ok ==> m.next(KeepEvent::OwnerRewarded(ok)).1 == KeepAction::<K>::Rollback(
            PostKeepingError::RollbackError,
        ),
        (m.stage is RewardingOwner && ok ==> m.next(KeepEvent::OwnerRewarded(ok)).1 is SetQuotaLeft),
{
}

/// Each stage before the end takes every answer of the kind it waits for; the
/// count of keepers is taken whenever the quota left after this keep can be
/// computed in `i32`, and always where the quota is already used up.
pub proof fn lemma_keep_takes_its_answers<K>(m: KeepPost<K>, e: KeepEvent<K>)
    ensures
        m.stage is CheckingPriorKeep && e is PriorKeepCount ==> keep_event_fits(m.stage, e),
        m.stage is LoadingPost && e is PostLoaded ==> keep_event_fits(m.stage, e),
        m.stage is CountingKeepers && e == KeepEvent::<K>::KeeperCount(None) ==> keep_event_fits(m.stage, e),
        (m.stage is CountingKeepers ==> (e matches KeepEvent::KeeperCount(Some(n)) ==> ((n as i32)
            >= m.stage->CountingKeepers_quota_limit || m.stage->CountingKeepers_quota_limit - ((n as i32) + 1)
            <= i32::MAX ==> keep_event_fits(m.stage, e)))),
        m.stage is InsertingKeeper && e is KeeperInserted ==> keep_event_fits(m.stage, e),
        m.stage is InsertingLog && e is LogInserted ==> keep_event_fits(m.stage, e),
        m.stage is CheckingEverKept && e is EverKeptCount ==> keep_event_fits(m.stage, e),
        m.stage is RewardingOwner && e is OwnerRewarded ==> keep_event_fits(m.stage, e),
        m.stage is UpdatingQuota && e is QuotaUpdated ==> keep_event_fits(m.stage, e),
{
}

/// The keep after the answers `events`, and the actions it asked for on the way.
pub open spec fn keep_run<K>(m: KeepPost<K>, events: Seq<KeepEvent<K>>) -> (KeepPost<K>, Seq<KeepAction<K>>)
    decreases events.len(),
{
    if events.len() == 0 {
        (m, Seq::empty())
    } else {
        let (m1, a) = m.next(events[0]);
        let (mf, rest) = keep_run(m1, events.drop_first());
        (mf, seq![a] + rest)
    }
}

/// Each of `events` answers the action that the keep asked for before it.
pub open spec fn keep_run_fits<K>(m: KeepPost<K>, events: Seq<KeepEvent<K>>) -> bool
    decreases events.len(),
{
    events.len() == 0 || (keep_event_fits(m.stage, events[0]) && keep_run_fits(
        m.next(events[0]).0,
        events.drop_first(),
    ))
}

proof fn lemma_keep_run_len<K>(m: KeepPost<K>, events: Seq<KeepEvent<K>>)
    ensures
        keep_run(m, events).1.len() == events.len(),
    decreases events.len(),
{
    if events.len() > 0 {
        lemma_keep_run_len(m.next(events[0]).0, events.drop_first());
    }
}

/// The answers to a keep that committed, the first one aside: what follows it
/// is a shorter committed run, or nothing.
proof fn lemma_keep_run_unfold<K>(m: KeepPost<K>, events: Seq<KeepEvent<K>>)
    requires
        events.len() > 0,
        keep_run_fits(m, events),
        keep_run(m, events).1.last() is Commit,
    ensures
        keep_event_fits(m.stage, events[0]),
        events.len() == 1 ==> m.next(events[0]).1 == keep_run(m, events).1.last(),
        events.len() > 1 ==> {
            &&& keep_run_fits(m.next(events[0]).0, events.drop_first())
            &&& keep_run(m.next(events[0]).0, events.drop_first()).1.last() == keep_run(m, events).1.last()
            &&& !(m.next(events[0]).0.stage is Done)
        },
        forall|a: KeepAction<K>|
            keep_run(m.next(events[0]).0, events.drop_first()).1.contains(a) ==> keep_run(m, events).1.contains(
                a,
            ),
        keep_run(m, events).1.contains(m.next(events[0]).1),
{
    reveal_with_fuel(keep_run_fits, 2);
    let m1 = m.next(events[0]).0;
    let rest = events.drop_first();
    lemma_keep_run_len(m1, rest);
    let acts = keep_run(m, events).1;
    let tail = keep_run(m1, rest).1;
    assert(acts == seq![m.next(events[0]).1] + tail);
    assert(acts[0] == m.next(events[0]).1);
    assert forall|a: KeepAction<K>| tail.contains(a) implies acts.contains(a) by {
        let i = choose|i: int| 0 <= i < tail.len() && tail[i] == a;
        assert(acts[i + 1] == a);
    }
    if events.len() > 1 {
        assert(acts.last() == tail.last());
        if m1.stage is Done {
            assert(!keep_event_fits(m1.stage, rest[0]));
        }
    }
}

/// A committed run that starts from the quota update.
proof fn lemma_keep_commit_from_quota<K>(m: KeepPost<K>, events: Seq<KeepEvent<K>>)
    requires
        m.stage is UpdatingQuota,
        events.len() > 0,
        keep_run_fits(m, events),
        keep_run(m, events).1.last() is Commit,
    ensures
        m.stage->UpdatingQuota_keeper == Some(keep_run(m, events).1.last()->Commit_0),
{
    lemma_keep_run_unfold(m, events);
}

/// A committed run that starts once the keep log row was asked for: the quota
/// written is the one the stage carries, and the keeper committed is its keeper.
proof fn lemma_keep_commit_from_log<K>(m: KeepPost<K>, events: Seq<KeepEvent<K>>)
    requires
        m.wf(),
        m.stage is InsertingLog || m.stage is CheckingEverKept || m.stage is RewardingOwner,
        events.len() > 0,
        keep_run_fits(m, events),
        keep_run(m, events).1.last() is Commit,
    ensures
        ({
            let (limit, count, keeper) = match m.stage {
                KeepStage::InsertingLog { quota_limit, keep_count, keeper, .. } => (quota_limit, keep_count, keeper),
                KeepStage::CheckingEverKept { quota_limit, keep_count, keeper, .. } => (
                    quota_limit,
                    keep_count,
                    keeper,
                ),
                KeepStage::RewardingOwner { quota_limit, keep_count, keeper, .. } => (
                    quota_limit,
                    keep_count,
                    keeper,
                ),
                _ => (0i32, 0i32, None),
            };
            &&& keeper == Some(keep_run(m, events).1.last()->Commit_0)
            &&& keep_run(m, events).1.contains(
                KeepAction::<K>::SetQuotaLeft { quota_left: quota_left_after_keep(limit, count) as i32 },
            )
        }),
    decreases events.len(),
{
    lemma_keep_run_unfold(m, events);
    let m1 = m.next(events[0]).0;
    let rest = events.drop_first();
    if events.len() > 1 {
        if m1.stage is UpdatingQuota {
            lemma_keep_commit_from_quota(m1, rest);
        } else {
            lemma_keep_commit_from_log(m1, rest);
        }
    }
}

/// A committed run that starts at the keeper insertion.
proof fn lemma_keep_commit_from_insert<K>(m: KeepPost<K>, events: Seq<KeepEvent<K>>)
    requires
        m.wf(),
        m.stage is InsertingKeeper,
        events.len() > 0,
        keep_run_fits(m, events),
        keep_run(m, events).1.last() is Commit,
    ensures
        events[0] == KeepEvent::<K>::KeeperInserted(Some(keep_run(m, events).1.last()->Commit_0)),
        keep_run(m, events).1.contains(
            KeepAction::<K>::SetQuotaLeft {
                quota_left: quota_left_after_keep(
                    m.stage->InsertingKeeper_quota_limit,
                    m.stage->InsertingKeeper_keep_count,
                ) as i32,
            },
        ),
{
    lemma_keep_run_unfold(m, events);
    let m1 = m.next(events[0]).0;
    let rest = events.drop_first();
    lemma_keep_commit_from_log(m1, rest);
}

/// A committed run that starts at the count of keepers.
proof fn lemma_keep_commit_from_count<K>(m: KeepPost<K>, events: Seq<KeepEvent<K>>)
    requires
        m.wf(),
        m.stage is CountingKeepers,
        events.len() > 0,
        keep_run_fits(m, events),
        keep_run(m, events).1.last() is Commit,
    ensures
        events[0] matches KeepEvent::KeeperCount(Some(n)) && (n as i32) < m.stage->CountingKeepers_quota_limit
            && keep_run(m, events).1.contains(
            KeepAction::<K>::SetQuotaLeft {
                quota_left: quota_left_after_keep(m.stage->CountingKeepers_quota_limit, n as i32) as i32,
            },
        ),
        events.len() >= 2,
        events[1] == KeepEvent::<K>::KeeperInserted(Some(keep_run(m, events).1.last()->Commit_0)),
{
    lemma_keep_run_unfold(m, events);
    let m1 = m.next(events[0]).0;
    let rest = events.drop_first();
    lemma_keep_commit_from_insert(m1, rest);
}

/// A committed keep, from its start: the user kept nothing of the post before,
/// the post was loaded, fewer keepers than its quota held it, the keeper row
/// that is committed is the one inserted, and the quota written is the post's
/// limit minus the counted keepers minus this one.
pub proof fn lemma_keep_commit_trace<K>(m: KeepPost<K>, events: Seq<KeepEvent<K>>)
    requires
        m.stage is CheckingPriorKeep,
        keep_run_fits(m, events),
        events.len() > 0,
        keep_run(m, events).1.last() is Commit,
    ensures
        events.len() >= 4,
        events[0] == KeepEvent::<K>::PriorKeepCount(0),
        events[1] matches KeepEvent::PostLoaded(Some(p)) && events[2] matches KeepEvent::KeeperCount(Some(n))
            && (n as i32) < p.origin_quota_limit && keep_run(m, events).1.contains(
            KeepAction::<K>::SetQuotaLeft {
                quota_left: quota_left_after_keep(p.origin_quota_limit, n as i32) as i32,
            },
        ),
        events[3] == KeepEvent::<K>::KeeperInserted(Some(keep_run(m, events).1.last()->Commit_0)),
{
    lemma_keep_run_unfold(m, events);
    let m1 = m.next(events[0]).0;
    let r1 = events.drop_first();
    lemma_keep_run_unfold(m1, r1);
    let m2 = m1.next(r1[0]).0;
    let r2 = r1.drop_first();
    lemma_keep_commit_from_count(m2, r2);
    assert(r1[0] == events[1]);
    assert(r2[0] == events[2]);
    assert(r2[1] == events[3]);
}

impl<K> KeepPost<K> {
    /// The machine's own invariant: the stage is well formed, and the owner is
    /// looked up for a reward only when it is someone else.
    pub open spec fn wf(&self) -> bool {
        &&& keep_stage_wf(self.stage)
        &&& self.stage is CheckingEverKept ==> self.stage->CheckingEverKept_owner_id@
            != self.user_id@
    }

    /// The next machine and action on event `e`.
    pub open spec fn next(self, e: KeepEvent<K>) -> (KeepPost<K>, KeepAction<K>) {
        let (stage, action) = keep_transition(self.user_id, self.post_id, self.stage, e);
        (KeepPost { user_id: self.user_id, post_id: self.post_id, stage }, action)
    }

    /// Starts a keep of post `post_id` by user `user_id`: first ask whether the
    /// user already keeps it.
    pub fn new(user_id: String, post_id: i32) -> (r: (KeepPost<K>, KeepAction<K>))
        ensures
            r.0.user_id == user_id,
            r.0.post_id == post_id,
            r.0.stage is CheckingPriorKeep,
            r.1 is CountPriorKeeps,
            r.0.wf(),
    {
        (KeepPost { user_id, post_id, stage: KeepStage::CheckingPriorKeep }, KeepAction::CountPriorKeeps)
    }

    /// Takes the answer `e` to the last action and says what to do next.
    pub fn step(self, e: KeepEvent<K>) -> (r: (KeepPost<K>, KeepAction<K>))
        requires
            self.wf(),
            keep_event_fits(self.stage, e),
        ensures
            r == self.next(e),
            r.0.wf(),
    {
        let KeepPost { user_id, post_id, stage } = self;
        let (stage2, action): (KeepStage<K>, KeepAction<K>) = match stage {
            KeepStage::CheckingPriorKeep => match e {
                KeepEvent::PriorKeepCount(n) => if n != 0 {
                    (KeepStage::Done, KeepAction::Refuse(PostKeepingError::AlreadyInteractedError))
                } else {
                    (KeepStage::LoadingPost, KeepAction::LockPost)
                },
                _ => (KeepStage::Done, KeepAction::Rollback(PostKeepingError::RollbackError)),
            },
            KeepStage::LoadingPost => match e {
                KeepEvent::PostLoaded(Some(p)) => (
                    KeepStage::CountingKeepers {
                        owner_id: p.creator_id,
                        quota_limit: p.origin_quota_limit,
                    },
                    KeepAction::CountActiveKeepers,
                ),
                _ => (KeepStage::Done, KeepAction::Rollback(PostKeepingError::RollbackError)),
            },
            KeepStage::CountingKeepers { owner_id, quota_limit } => match e {
                KeepEvent::KeeperCount(Some(n)) => {
                    let count: i32 = n as i32;
                    if count >= quota_limit {
                        (KeepStage::Done, KeepAction::Rollback(PostKeepingError::NoMoreQuota))
                    } else {
                        let row = NewPostKeeper { pioki_id: user_id.clone(), post_id };
                        (
                            KeepStage::InsertingKeeper { owner_id, quota_limit, keep_count: count },
                            KeepAction::InsertKeeper(row),
                        )
                    }
                },
                _ => (KeepStage::Done, KeepAction::Rollback(PostKeepingError::RollbackError)),
            },
            KeepStage::InsertingKeeper { owner_id, quota_limit, keep_count } => match e {
                KeepEvent::KeeperInserted(k) => {
                    let row = NewKeepAndPassAlongLog {
                        pioki_id: user_id.clone(),
                        post_id,
                        is_kept: true,
                    };
                    (
                        KeepStage::InsertingLog { owner_id, quota_limit, keep_count, keeper: k },
                        KeepAction::InsertLog(row),
                    )
                },
                _ => (KeepStage::Done, KeepAction::Rollback(PostKeepingError::RollbackError)),
            },
            KeepStage::InsertingLog { owner_id, quota_limit, keep_count, keeper } => match e {
                KeepEvent::LogInserted(ok) => {
                    let same = owner_id == user_id;
                    if !same {
                        (
                            KeepStage::CheckingEverKept {
                                owner_id,
                                quota_limit,
                                keep_count,
                                keeper,
                                log_written: ok,
                            },
                            KeepAction::CountEverKept,
                        )
                    } else {
                        let left = quota_limit - (keep_count + 1);
                        (
                            KeepStage::UpdatingQuota { quota_limit, keep_count, keeper, log_written: ok },
                            KeepAction::SetQuotaLeft { quota_left: left },
                        )
                    }
                },
                _ => (KeepStage::Done, KeepAction::Rollback(PostKeepingError::RollbackError)),
            },
            KeepStage::CheckingEverKept { owner_id, quota_limit, keep_count, keeper, log_written } => {
                match e {
                    KeepEvent::EverKeptCount(n) => if n == 0 {
                        (
                            KeepStage::RewardingOwner { quota_limit, keep_count, keeper, log_written },
                            KeepAction::RewardOwner { owner_id },
                        )
                    } else {
                        let left = quota_limit - (keep_count + 1);
                        (
                            KeepStage::UpdatingQuota { quota_limit, keep_count, keeper, log_written },
                            KeepAction::SetQuotaLeft { quota_left: left },
                        )
                    },
                    _ => (KeepStage::Done, KeepAction::Rollback(PostKeepingError::RollbackError)),
                }
            },
            KeepStage::RewardingOwner { quota_limit, keep_count, keeper, log_written } => match e {
                KeepEvent::OwnerRewarded(ok) => if !ok {
                    (KeepStage::Done, KeepAction::Rollback(PostKeepingError::RollbackError))
                } else {
                    let left = quota_limit - (keep_count + 1);
                    (
                        KeepStage::UpdatingQuota { quota_limit, keep_count, keeper, log_written },
                        KeepAction::SetQuotaLeft { quota_left: left },
                    )
                },
                _ => (KeepStage::Done, KeepAction::Rollback(PostKeepingError::RollbackError)),
            },
            KeepStage::UpdatingQuota { keeper, log_written, .. } => match e {
                KeepEvent::QuotaUpdated(ok) => match keeper {
                    Some(k) => if ok && log_written {
                        (KeepStage::Done, KeepAction::Commit(k))
                    } else {
                        (KeepStage::Done, KeepAction::Rollback(PostKeepingError::RollbackError))
                    },
                    None => (KeepStage::Done, KeepAction::Rollback(PostKeepingError::RollbackError)),
                },
                _ => (KeepStage::Done, KeepAction::Rollback(PostKeepingError::RollbackError)),
            },
            KeepStage::Done => (KeepStage::Done, KeepAction::Rollback(PostKeepingError::RollbackError)),
        };
        (KeepPost { user_id, post_id, stage: stage2 }, action)
    }
}

} // verus!
