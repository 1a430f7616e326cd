//! The lifecycle of one workshop sync, as the status label and the launch gate
//! see it.
//!
//! A sync starts in `Starting`, counts copied items while `InProgress`, and
//! ends in `Done` or `Failed`. While it is `InProgress` fewer items are
//! copied than there are in total: a sync that has copied them all is `Done`,
//! and so is one that has nothing to copy.

use crate::decimal::{decimal, decimal_string};
use vstd::prelude::*;
use vstd::string::*;

verus! {

/// The model of a [`SteamWorkshopSyncError`].
pub enum SyncErrorView {
    Recieve,
    Steam(Seq<char>),
    Io(Seq<char>),
    MissingItemInfo,
}

impl SyncErrorView {
    /// The text that describes the error to the user.
    pub open spec fn message(self) -> Seq<char> {
        match self {
            SyncErrorView::Recieve => "channel closed"@,
            SyncErrorView::Steam(text) => text,
            SyncErrorView::Io(text) => text,
            SyncErrorView::MissingItemInfo => "Missing workshop item info"@,
        }
    }
}

/// Why a sync stopped.
#[derive(Debug, PartialEq, Eq)]
pub enum SteamWorkshopSyncError {
    /// The query's channel closed before it delivered a result.
    Recieve,
    /// The workshop service reported a failure; the text is its message.
    Steam(String),
    /// Copying an item failed; the text is the system's message.
    Io(String),
    /// An item of the query's result has no install info.
    MissingItemInfo,
}

impl View for SteamWorkshopSyncError {
    type V = SyncErrorView;

    open spec fn view(&self) -> SyncErrorView {
        match self {
            SteamWorkshopSyncError::Recieve => SyncErrorView::Recieve,
            SteamWorkshopSyncError::Steam(text) => SyncErrorView::Steam(text@),
            SteamWorkshopSyncError::Io(text) => SyncErrorView::Io(text@),
            SteamWorkshopSyncError::MissingItemInfo => SyncErrorView::MissingItemInfo,
        }
    }
}

impl Clone for SteamWorkshopSyncError {
    fn clone(&self) -> (e: Self)
        ensures
            e == *self,
    {
        match self {
            SteamWorkshopSyncError::Recieve => SteamWorkshopSyncError::Recieve,
            SteamWorkshopSyncError::Steam(text) => SteamWorkshopSyncError::Steam(text.clone()),
            SteamWorkshopSyncError::Io(text) => SteamWorkshopSyncError::Io(text.clone()),
            SteamWorkshopSyncError::MissingItemInfo => SteamWorkshopSyncError::MissingItemInfo,
        }
    }
}

impl SteamWorkshopSyncError {
    /// The text that describes the error to the user.
    pub fn message(&self) -> (s: String)
        ensures
            s@ == self@.message(),
    {
        match self {
            SteamWorkshopSyncError::Recieve => String::from_str("channel closed"),
            SteamWorkshopSyncError::Steam(text) => text.clone(),
            SteamWorkshopSyncError::Io(text) => text.clone(),
            SteamWorkshopSyncError::MissingItemInfo => String::from_str(
                "Missing workshop item info",
            ),
        }
    }
}

/// The model of a [`SteamWorkshopSyncState`].
pub enum SyncStateView {
    Starting,
    InProgress { completed: nat, total: nat },
    Done,
    Failed(SyncErrorView),
}

/// A request to a progress tracker that is not a failure.
pub enum SyncOp {
    Begin(nat),
    AddCompleted(nat),
}

/// The sum of a sequence of counts.
pub open spec fn sum_of(counts: Seq<nat>) -> nat
    decreases counts.len(),
{
    if counts.len() == 0 {
        0
    } else {
        sum_of(counts.drop_last()) + counts.last()
    }
}

/// The state of a sync that has copied `completed` of `total` items: `Done`
/// once the count has reached the total, `InProgress` before.
pub open spec fn counted(completed: nat, total: nat) -> SyncStateView {
    if completed >= total {
        SyncStateView::Done
    } else {
        SyncStateView::InProgress { completed, total }
    }
}

impl SyncStateView {
    /// The invariant of the tracker: while in progress, fewer items are
    /// copied than there are in total.
    pub open spec fn wf(self) -> bool {
        self matches SyncStateView::InProgress { completed, total } ==> completed < total
    }

    /// True in `Starting` and `InProgress`, false in `Done` and `Failed`.
    pub open spec fn syncing(self) -> bool {
        self is Starting || self is InProgress
    }

    /// True in `Done` and `Failed`: the states that only a failure changes.
    pub open spec fn terminal(self) -> bool {
        self is Done || self is Failed
    }

    /// The answer to the query arrived with `total` items. Only `Starting`
    /// reacts; a sync of no items is complete at once.
    pub open spec fn begin(self, total: nat) -> Self {
        match self {
            SyncStateView::Starting => counted(0, total),
            _ => self,
        }
    }

    /// `n` more items are copied. Only `InProgress` reacts, and it becomes
    /// `Done` as soon as the count reaches the total.
    pub open spec fn add_completed(self, n: nat) -> Self {
        match self {
            SyncStateView::InProgress { completed, total } => counted(completed + n, total),
            _ => self,
        }
    }

    /// The sync stopped on an error, whatever its state was.
    pub open spec fn fail(self, reason: SyncErrorView) -> Self {
        SyncStateView::Failed(reason)
    }

    /// The state after one request.
    pub open spec fn apply(self, op: SyncOp) -> Self {
        match op {
            SyncOp::Begin(total) => self.begin(total),
            SyncOp::AddCompleted(n) => self.add_completed(n),
        }
    }

    /// The state after a sequence of requests, the first one first.
    pub open spec fn apply_all(self, ops: Seq<SyncOp>) -> Self
        decreases ops.len(),
    {
        if ops.len() == 0 {
            self
        } else {
            self.apply_all(ops.drop_last()).apply(ops.last())
        }
    }

    /// The state after counting each of `counts` in turn.
    pub open spec fn add_all(self, counts: Seq<nat>) -> Self
        decreases counts.len(),
    {
        if counts.len() == 0 {
            self
        } else {
            self.add_all(counts.drop_last()).add_completed(counts.last())
        }
    }

    /// The text of the status label.
    pub open spec fn label(self) -> Seq<char> {
        match self {
            SyncStateView::Starting => "Syncing\u{2026}"@,
            SyncStateView::InProgress { completed, total } => "Syncing("@ + decimal(completed)
                + "/"@ + decimal(total) + ")\u{2026}"@,
            SyncStateView::Done => "Sync Complete"@,
            SyncStateView::Failed(_) => "Sync Failed!"@,
        }
    }
}

/// Where a sync stands.
#[derive(Debug, PartialEq, Eq)]
pub enum SteamWorkshopSyncState {
    /// The query has not been answered yet.
    Starting,
    /// `InProgress(completed, total)`: `completed` of `total` items are copied.
    InProgress(usize, usize),
    /// Every item is copied.
    Done,
    /// The sync stopped on an error.
    Failed(SteamWorkshopSyncError),
}

impl View for SteamWorkshopSyncState {
    type V = SyncStateView;

    open spec fn view(&self) -> SyncStateView {
        match self {
            SteamWorkshopSyncState::Starting => SyncStateView::Starting,
            SteamWorkshopSyncState::InProgress(completed, total) => SyncStateView::InProgress {
                completed: *completed as nat,
                total: *total as nat,
            },
            SteamWorkshopSyncState::Done => SyncStateView::Done,
            SteamWorkshopSyncState::Failed(reason) => SyncStateView::Failed(reason@),
        }
    }
}

impl Clone for SteamWorkshopSyncState {
    fn clone(&self) -> (s: Self)
        ensures
            s == *self,
    {
        match self {
            SteamWorkshopSyncState::Starting => SteamWorkshopSyncState::Starting,
            SteamWorkshopSyncState::InProgress(completed, total) => {
                SteamWorkshopSyncState::InProgress(*completed, *total)
            },
            SteamWorkshopSyncState::Done => SteamWorkshopSyncState::Done,
            SteamWorkshopSyncState::Failed(reason) => SteamWorkshopSyncState::Failed(
                reason.clone(),
            ),
        }
    }
}

impl SteamWorkshopSyncState {
    /// Records that the query was answered with `len` items. From `Starting`
    /// the state becomes `InProgress(0, len)`, or `Done` where `len` is zero.
    /// In any other state the call changes nothing: a second answer does not
    /// restart the count, and a finished or failed sync stays as it is.
    pub fn begin_sync(&mut self, len: usize)
        ensures
            final(self)@ == old(self)@.begin(len as nat),
            !(*old(self) is Starting) ==> *final(self) == *old(self),
    {
        if let SteamWorkshopSyncState::Starting = self {
            if len == 0 {
                *self = SteamWorkshopSyncState::Done;
            } else {
                *self = SteamWorkshopSyncState::InProgress(0, len);
            }
        }
    }

    /// Records that `synced` more items are copied. While `InProgress` the
    /// count grows by `synced`, and the state becomes `Done` as soon as the
    /// count reaches the total. In any other state the call changes nothing.
    pub fn add_synced(&mut self, synced: usize)
        ensures
            final(self)@ == old(self)@.add_completed(synced as nat),
            !(*old(self) is InProgress) ==> *final(self) == *old(self),
    {
        if let SteamWorkshopSyncState::InProgress(completed, total) = self {
            let completed: usize = *completed;
            let total: usize = *total;
            if completed >= total || synced >= total - completed {
                *self = SteamWorkshopSyncState::Done;
            } else {
                *self = SteamWorkshopSyncState::InProgress(completed + synced, total);
            }
        }
    }

    /// Records that the sync stopped on `e`, whatever the state was.
    pub fn set_fail(&mut self, e: SteamWorkshopSyncError)
        ensures
            *final(self) == SteamWorkshopSyncState::Failed(e),
            final(self)@ == old(self)@.fail(e@),
    {
        *self = SteamWorkshopSyncState::Failed(e);
    }

    /// Whether the sync may still write files. The game may be launched only
    /// when this is false.
    pub fn is_syncing(&self) -> (b: bool)
        ensures
            b == self@.syncing(),
    {
        match self {
            SteamWorkshopSyncState::Starting => true,
            SteamWorkshopSyncState::InProgress(_, _) => true,
            _ => false,
        }
    }

    /// A copy of the state, for a reader that must not hold on to the state
    /// it reads.
    pub fn snapshot(&self) -> (s: Self)
        ensures
            s == *self,
    {
        self.clone()
    }

    /// The text of the status label: "Syncing" and an ellipsis before the
    /// query is answered, "Syncing(completed/total)" and an ellipsis while
    /// items are copied, "Sync Complete" and "Sync Failed!" at the end. The
    /// ellipsis is the single character U+2026.
    pub fn label(&self) -> (s: String)
        ensures
            s@ == self@.label(),
    {
        match self {
            SteamWorkshopSyncState::Starting => String::from_str("Syncing\u{2026}"),
            SteamWorkshopSyncState::InProgress(completed, total) => {
                let mut s: String = String::from_str("Syncing(");
                s.append(decimal_string(*completed).as_str());
                s.append("/");
                s.append(decimal_string(*total).as_str());
                s.append(")\u{2026}");
                s
            },
            SteamWorkshopSyncState::Done => String::from_str("Sync Complete"),
            SteamWorkshopSyncState::Failed(_) => String::from_str("Sync Failed!"),
        }
    }
}

/// Every request keeps the invariant, and counting or failing establishes
/// it.
pub proof fn lemma_requests_keep_invariant(s: SyncStateView, n: nat, reason: SyncErrorView)
    ensures
        s.wf() ==> s.begin(n).wf(),
        s.add_completed(n).wf(),
        s.fail(reason).wf(),
{
}

/// A failure leads to `Failed` from any state, `Done` included, and no later
/// request to begin or to count leads out of it.
pub proof fn lemma_failed_is_terminal(s: SyncStateView, reason: SyncErrorView, ops: Seq<SyncOp>)
    ensures
        s.fail(reason) == SyncStateView::Failed(reason),
        s.fail(reason).apply_all(ops) == SyncStateView::Failed(reason),
    decreases ops.len(),
{
    if ops.len() > 0 {
        lemma_failed_is_terminal(s, reason, ops.drop_last());
    }
}

/// No request to begin or to count changes a state that is `Done` or
/// `Failed`.
pub proof fn lemma_terminal_stays(s: SyncStateView, ops: Seq<SyncOp>)
    requires
        s.terminal(),
    ensures
        s.apply_all(ops) == s,
    decreases ops.len(),
{
    if ops.len() > 0 {
        lemma_terminal_stays(s, ops.drop_last());
    }
}

/// Counting no item changes nothing.
pub proof fn lemma_add_zero_is_identity(s: SyncStateView)
    requires
        s.wf(),
    ensures
        s.add_completed(0) == s,
{
}

/// Counting in steps is counting the sum: from `completed` of `total`, after
/// the counts `counts` the state is that of `completed` plus their sum.
pub proof fn lemma_add_all(completed: nat, total: nat, counts: Seq<nat>)
    ensures
        counted(completed, total).add_all(counts) == counted(completed + sum_of(counts), total),
    decreases counts.len(),
{
    if counts.len() > 0 {
        lemma_add_all(completed, total, counts.drop_last());
    }
}

/// Over any sequence of counts the count never exceeds the total, and the
/// state is `Done` from the first moment at which the count has reached the
/// total: after each prefix of the sequence the state is that of the sum so
/// far, which is `InProgress` with that sum while it is below the total and
/// `Done` from then on.
pub proof fn lemma_counting_completes(completed: nat, total: nat, counts: Seq<nat>, k: int)
    requires
        0 <= k <= counts.len(),
    ensures
        counted(completed, total).add_all(counts.take(k)) == counted(
            completed + sum_of(counts.take(k)),
            total,
        ),
        counted(completed, total).add_all(counts.take(k)).wf(),
        counted(completed, total).add_all(counts.take(k)) is Done <==> completed + sum_of(
            counts.take(k),
        ) >= total,
        sum_of(counts.take(k)) <= sum_of(counts),
    decreases counts.len() - k,
{
    lemma_add_all(completed, total, counts.take(k));
    if k < counts.len() {
        lemma_counting_completes(completed, total, counts, k + 1);
        assert(counts.take(k + 1).drop_last() =~= counts.take(k));
    } else {
        assert(counts.take(k) =~= counts);
    }
}

} // verus!
