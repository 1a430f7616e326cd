//! One run of the workshop sync, as a machine that is told what happened and
//! answers what to do next.
//!
//! The caller owns everything that takes time: it waits for the query, looks
//! up where an item is installed, and copies files. After each of these it
//! hands the outcome to [`SyncPipeline::step`], which updates the progress
//! tracker and names the next thing to do. Items are handled one at a time,
//! in the order in which the query returned them, and the first failure ends
//! the run.

use crate::install_info::ItemInstallInfo;
use crate::sync_state::{
    counted,
    SteamWorkshopSyncError,
    SteamWorkshopSyncState,
    SyncErrorView,
    SyncStateView,
};
use vstd::prelude::*;
use vstd::string::*;

verus! {

/// The model of a [`WorkshopItem`].
pub struct WorkshopItemView {
    pub id: u64,
    pub title: Seq<char>,
}

/// One item of the query's result.
#[derive(Debug, PartialEq, Eq)]
pub struct WorkshopItem {
    /// The identifier by which the workshop service knows the item.
    pub id: u64,
    /// The item's title, which names its copy in the sync directory.
    pub title: String,
}

impl View for WorkshopItem {
    type V = WorkshopItemView;

    open spec fn view(&self) -> WorkshopItemView {
        WorkshopItemView { id: self.id, title: self.title@ }
    }
}

/// The models of a sequence of items.
pub open spec fn item_views(items: Seq<WorkshopItem>) -> Seq<WorkshopItemView> {
    items.map_values(|item: WorkshopItem| item@)
}

/// The path of an item's copy: the file `<title>.txt` in the sync directory.
pub open spec fn destination(sync_dir: Seq<char>, title: Seq<char>) -> Seq<char> {
    sync_dir + seq!['/'] + title + seq!['.', 't', 'x', 't']
}

/// The path of an item's copy: the file `<title>.txt` in the sync directory.
/// The extension is `.txt` whatever the item holds.
pub fn destination_path(sync_dir: &str, title: &str) -> (path: String)
    ensures
        path@ == destination(sync_dir@, title@),
{
    proof {
        reveal_strlit("/");
        reveal_strlit(".txt");
    }
    let mut path: String = String::from_str(sync_dir);
    path.append("/");
    path.append(title);
    path.append(".txt");
    assert(path@ =~= destination(sync_dir@, title@));
    path
}

/// The model of a [`SyncEvent`]. Of an install info it keeps the folder.
pub enum SyncEventView {
    QueryClosed,
    QueryFailed(Seq<char>),
    QueryAnswered(Seq<WorkshopItemView>),
    InstallInfo(Option<Seq<char>>),
    Copied,
    CopyFailed(Seq<char>),
}

/// What happened since the last step.
#[derive(Debug, PartialEq, Eq)]
pub enum SyncEvent {
    /// The query's channel closed before it delivered a result.
    QueryClosed,
    /// The workshop service answered the query with an error; the text is
    /// its message.
    QueryFailed(String),
    /// The workshop service answered the query with these items.
    QueryAnswered(Vec<WorkshopItem>),
    /// The lookup of the current item's install info ended; `None` if the
    /// item is not installed.
    InstallInfo(Option<ItemInstallInfo>),
    /// The current item is copied.
    Copied,
    /// Copying the current item failed; the text is the system's message.
    CopyFailed(String),
}

impl View for SyncEvent {
    type V = SyncEventView;

    open spec fn view(&self) -> SyncEventView {
        match self {
            SyncEvent::QueryClosed => SyncEventView::QueryClosed,
            SyncEvent::QueryFailed(text) => SyncEventView::QueryFailed(text@),
            SyncEvent::QueryAnswered(items) => SyncEventView::QueryAnswered(item_views(items@)),
            SyncEvent::InstallInfo(Some(info)) => SyncEventView::InstallInfo(Some(info.path@)),
            SyncEvent::InstallInfo(None) => SyncEventView::InstallInfo(None),
            SyncEvent::Copied => SyncEventView::Copied,
            SyncEvent::CopyFailed(text) => SyncEventView::CopyFailed(text@),
        }
    }
}

/// The model of a [`SyncAction`].
pub enum SyncActionView {
    AwaitQuery,
    LookUp { id: u64 },
    Copy { from: Seq<char>, to: Seq<char> },
    Stop,
}

/// What the caller is to do next.
#[derive(Debug, PartialEq, Eq)]
pub enum SyncAction {
    /// Wait for the query's answer, and report it.
    AwaitQuery,
    /// Look up the install info of the item `id`, and report it.
    LookUp { id: u64 },
    /// Copy all that lies at `from` to `to`, replacing what is there, and
    /// report how it went.
    Copy { from: String, to: String },
    /// The run is over.
    Stop,
}

impl View for SyncAction {
    type V = SyncActionView;

    open spec fn view(&self) -> SyncActionView {
        match self {
            SyncAction::AwaitQuery => SyncActionView::AwaitQuery,
            SyncAction::LookUp { id } => SyncActionView::LookUp { id: *id },
            SyncAction::Copy { from, to } => SyncActionView::Copy { from: from@, to: to@ },
            SyncAction::Stop => SyncActionView::Stop,
        }
    }
}

/// What a run is waiting for.
pub enum StageView {
    /// The query's answer.
    Query,
    /// The install info of the current item.
    InstallInfo,
    /// The end of the copy of the current item from `from`.
    Copy { from: Seq<char> },
    /// Nothing: the run is over.
    Finished,
}

/// The model of a [`SyncPipeline`]: the sync directory, the items of the
/// query's answer, how many of them are done with, and what the run is
/// waiting for.
pub struct SyncPipelineView {
    pub sync_dir: Seq<char>,
    pub items: Seq<WorkshopItemView>,
    pub next: nat,
    pub stage: StageView,
}

impl SyncPipelineView {
    /// A run that works on an item has one to work on.
    pub open spec fn wf(self) -> bool {
        self.stage is InstallInfo || self.stage is Copy ==> self.next < self.items.len()
    }

    /// A run that has not heard from the query yet.
    pub open spec fn start(sync_dir: Seq<char>) -> Self {
        SyncPipelineView { sync_dir, items: Seq::empty(), next: 0, stage: StageView::Query }
    }

    /// The run with another stage.
    pub open spec fn at(self, stage: StageView) -> Self {
        SyncPipelineView { stage, ..self }
    }

    /// The stage of a run that has `next` of `total` items behind it and
    /// turns to the next one.
    pub open spec fn stage_for(next: nat, total: nat) -> StageView {
        if next >= total {
            StageView::Finished
        } else {
            StageView::InstallInfo
        }
    }

    /// What the caller is to do in this state.
    pub open spec fn pending(self) -> SyncActionView {
        match self.stage {
            StageView::Query => SyncActionView::AwaitQuery,
            StageView::InstallInfo => SyncActionView::LookUp { id: self.items[self.next as int].id },
            StageView::Copy { from } => SyncActionView::Copy {
                from,
                to: destination(self.sync_dir, self.items[self.next as int].title),
            },
            StageView::Finished => SyncActionView::Stop,
        }
    }

    /// The run after an event. An event that the stage does not wait for
    /// changes nothing.
    pub open spec fn next(self, event: SyncEventView) -> Self {
        match (self.stage, event) {
            (StageView::Query, SyncEventView::QueryClosed) => self.at(StageView::Finished),
            (StageView::Query, SyncEventView::QueryFailed(_)) => self.at(StageView::Finished),
            (StageView::Query, SyncEventView::QueryAnswered(items)) => SyncPipelineView {
                sync_dir: self.sync_dir,
                items,
                next: 0,
                stage: Self::stage_for(0, items.len()),
            },
            (StageView::InstallInfo, SyncEventView::InstallInfo(None)) => self.at(
                StageView::Finished,
            ),
            (StageView::InstallInfo, SyncEventView::InstallInfo(Some(folder))) => self.at(
                StageView::Copy { from: folder },
            ),
            (StageView::Copy { .. }, SyncEventView::CopyFailed(_)) => self.at(StageView::Finished),
            (StageView::Copy { .. }, SyncEventView::Copied) => SyncPipelineView {
                sync_dir: self.sync_dir,
                items: self.items,
                next: self.next + 1,
                stage: Self::stage_for(self.next + 1, self.items.len()),
            },
            _ => self,
        }
    }

    /// The progress after an event. An event that the stage does not wait
    /// for changes nothing.
    pub open spec fn progress_after(
        self,
        progress: SyncStateView,
        event: SyncEventView,
    ) -> SyncStateView {
        match (self.stage, event) {
            (StageView::Query, SyncEventView::QueryClosed) => progress.fail(SyncErrorView::Recieve),
            (StageView::Query, SyncEventView::QueryFailed(text)) => progress.fail(
                SyncErrorView::Steam(text),
            ),
            (StageView::Query, SyncEventView::QueryAnswered(items)) => progress.begin(items.len()),
            (StageView::InstallInfo, SyncEventView::InstallInfo(None)) => progress.fail(
                SyncErrorView::MissingItemInfo,
            ),
            (StageView::Copy { .. }, SyncEventView::CopyFailed(text)) => progress.fail(
                SyncErrorView::Io(text),
            ),
            (StageView::Copy { .. }, SyncEventView::Copied) => progress.add_completed(1),
            _ => progress,
        }
    }

    /// The run and the progress after a sequence of events, the first one
    /// first.
    pub open spec fn after_all(
        self,
        progress: SyncStateView,
        events: Seq<SyncEventView>,
    ) -> (SyncPipelineView, SyncStateView)
        decreases events.len(),
    {
        if events.len() == 0 {
            (self, progress)
        } else {
            let (run, tracker) = self.after_all(progress, events.drop_last());
            (run.next(events.last()), run.progress_after(tracker, events.last()))
        }
    }

    /// The run that copies `items` into `sync_dir` and is done with the
    /// first `done` of them.
    pub open spec fn synced(sync_dir: Seq<char>, items: Seq<WorkshopItemView>, done: nat) -> Self {
        SyncPipelineView { sync_dir, items, next: done, stage: Self::stage_for(done, items.len()) }
    }

    /// True if the progress tracker says what the run has done: `Starting`
    /// before the query's answer, `InProgress` with the number of items done
    /// with while there is one to work on, and `Done` or `Failed` once the
    /// run is over.
    pub open spec fn in_step_with(self, progress: SyncStateView) -> bool {
        match self.stage {
            StageView::Query => progress is Starting,
            StageView::InstallInfo | StageView::Copy { .. } => progress == counted(
                self.next,
                self.items.len(),
            ),
            StageView::Finished => progress.terminal(),
        }
    }
}

/// What a run is waiting for; the folder to copy from is kept beside it.
#[derive(Clone, Copy, Debug, PartialEq, Eq, Structural)]
enum Stage {
    Query,
    InstallInfo,
    Copy,
    Finished,
}

/// One run of the workshop sync.
#[derive(Debug)]
pub struct SyncPipeline {
    sync_dir: String,
    items: Vec<WorkshopItem>,
    next: usize,
    stage: Stage,
    /// The folder of the current item; it counts in the stage `Copy` only.
    source: String,
}

impl View for SyncPipeline {
    type V = SyncPipelineView;

    closed spec fn view(&self) -> SyncPipelineView {
        SyncPipelineView {
            sync_dir: self.sync_dir@,
            items: item_views(self.items@),
            next: self.next as nat,
            stage: match self.stage {
                Stage::Query => StageView::Query,
                Stage::InstallInfo => StageView::InstallInfo,
                Stage::Copy => StageView::Copy { from: self.source@ },
                Stage::Finished => StageView::Finished,
            },
        }
    }
}

impl SyncPipeline {
    #[verifier::type_invariant]
    spec fn inv(self) -> bool {
        self@.wf()
    }

    /// A run that copies into `sync_dir` and has not heard from the query
    /// yet.
    pub fn new(sync_dir: String) -> (pipeline: Self)
        ensures
            pipeline@ == SyncPipelineView::start(sync_dir@),
    {
        let pipeline = SyncPipeline {
            sync_dir,
            items: Vec::new(),
            next: 0,
            stage: Stage::Query,
            source: String::new(),
        };
        assert(pipeline@.items =~= Seq::empty());
        pipeline
    }

    /// What the caller is to do in this state. Before the first step this is
    /// to wait for the query's answer.
    pub fn pending(&self) -> (action: SyncAction)
        ensures
            self@.wf(),
            action@ == self@.pending(),
    {
        proof {
            use_type_invariant(self);
        }
        match self.stage {
            Stage::Query => SyncAction::AwaitQuery,
            Stage::InstallInfo => SyncAction::LookUp { id: self.items[self.next].id },
            Stage::Copy => SyncAction::Copy {
                from: self.source.clone(),
                to: destination_path(self.sync_dir.as_str(), self.items[self.next].title.as_str()),
            },
            Stage::Finished => SyncAction::Stop,
        }
    }

    /// True once the run is over.
    pub fn is_finished(&self) -> (finished: bool)
        ensures
            finished == (self@.stage is Finished),
    {
        match self.stage {
            Stage::Finished => true,
            _ => false,
        }
    }

    /// Takes in what happened, updates the progress tracker, and answers
    /// what to do next.
    ///
    /// - On the query's answer the tracker begins with the number of items,
    ///   and the run turns to the first item, or ends if there is none. If
    ///   the query's channel closed or the service reported an error, the
    ///   tracker fails and the run ends.
    /// - On an install info the run turns to copying from its folder. If the
    ///   item has none, the tracker fails and the run ends: no item is
    ///   skipped.
    /// - On the end of a copy the tracker counts one item, and the run turns
    ///   to the next item, or ends if that was the last. If the copy failed,
    ///   the tracker fails and the run ends.
    /// - An event that the run does not wait for changes nothing, and the
    ///   answer repeats what the run is waiting for.
    pub fn step(&mut self, progress: &mut SteamWorkshopSyncState, event: SyncEvent) -> (action:
        SyncAction)
        ensures
            final(self)@ == old(self)@.next(event@),
            final(self)@.wf(),
            final(progress)@ == old(self)@.progress_after(old(progress)@, event@),
            action@ == final(self)@.pending(),
    {
        proof {
            use_type_invariant(&*self);
        }
        match self.stage {
            Stage::Query => match event {
                SyncEvent::QueryClosed => {
                    progress.set_fail(SteamWorkshopSyncError::Recieve);
                    self.stage = Stage::Finished;
                },
                SyncEvent::QueryFailed(text) => {
                    progress.set_fail(SteamWorkshopSyncError::Steam(text));
                    self.stage = Stage::Finished;
                },
                SyncEvent::QueryAnswered(items) => {
                    progress.begin_sync(items.len());
                    self.stage = Stage::Finished;
                    self.next = 0;
                    self.items = items;
                    if self.items.len() > 0 {
                        self.stage = Stage::InstallInfo;
                    }
                },
                _ => {},
            },
            Stage::InstallInfo => match event {
                SyncEvent::InstallInfo(None) => {
                    progress.set_fail(SteamWorkshopSyncError::MissingItemInfo);
                    self.stage = Stage::Finished;
                },
                SyncEvent::InstallInfo(Some(info)) => {
                    self.source = info.path;
                    self.stage = Stage::Copy;
                },
                _ => {},
            },
            Stage::Copy => match event {
                SyncEvent::CopyFailed(text) => {
                    progress.set_fail(SteamWorkshopSyncError::Io(text));
                    self.stage = Stage::Finished;
                },
                SyncEvent::Copied => {
                    assert(self.next < self.items.len()) by {
                        assert(self@.next < self@.items.len());
                    }
                    progress.add_synced(1);
                    self.stage = Stage::Finished;
                    self.next = self.next + 1;
                    if self.next < self.items.len() {
                        self.stage = Stage::InstallInfo;
                    }
                },
                _ => {},
            },
            Stage::Finished => {},
        }
        self.pending()
    }
}

/// The events of items that are found and copied one after the other:
/// for each folder the install info that names it, then the end of the copy.
pub open spec fn success_events(folders: Seq<Seq<char>>) -> Seq<SyncEventView>
    decreases folders.len(),
{
    if folders.len() == 0 {
        Seq::empty()
    } else {
        success_events(folders.drop_last()).push(
            SyncEventView::InstallInfo(Some(folders.last())),
        ).push(SyncEventView::Copied)
    }
}

/// A step keeps the run and the progress tracker in step: if the tracker
/// said what the run had done before an event, it says so after it.
pub proof fn lemma_step_keeps_in_step(
    run: SyncPipelineView,
    progress: SyncStateView,
    event: SyncEventView,
)
    requires
        run.wf(),
        run.in_step_with(progress),
    ensures
        run.next(event).wf(),
        run.next(event).in_step_with(run.progress_after(progress, event)),
        run.progress_after(progress, event).wf(),
{
}

/// The query's answer begins the count: with the items of the answer the run
/// turns to the first of them, and the tracker goes from `Starting` to none
/// of them copied.
pub proof fn lemma_query_answered(sync_dir: Seq<char>, items: Seq<WorkshopItemView>)
    ensures
        SyncPipelineView::start(sync_dir).next(SyncEventView::QueryAnswered(items))
            == SyncPipelineView::synced(sync_dir, items, 0),
        SyncPipelineView::start(sync_dir).progress_after(
            SyncStateView::Starting,
            SyncEventView::QueryAnswered(items),
        ) == counted(0, items.len()),
{
}

/// One item that is found and copied: the run asks for the install info of
/// the item that is next in the answer, then for its copy from the folder of
/// that info to `<title>.txt` in the sync directory, and then it is done
/// with one more item, and so is the tracker.
pub proof fn lemma_item_synced(
    sync_dir: Seq<char>,
    items: Seq<WorkshopItemView>,
    done: nat,
    folder: Seq<char>,
)
    requires
        done < items.len(),
    ensures
        ({
            let run = SyncPipelineView::synced(sync_dir, items, done);
            let found = run.next(SyncEventView::InstallInfo(Some(folder)));
            let progress = counted(done, items.len());
            &&& run.pending() == (SyncActionView::LookUp { id: items[done as int].id })
            &&& found.pending() == (SyncActionView::Copy {
                from: folder,
                to: destination(sync_dir, items[done as int].title),
            })
            &&& run.progress_after(progress, SyncEventView::InstallInfo(Some(folder))) == progress
            &&& found.next(SyncEventView::Copied) == SyncPipelineView::synced(
                sync_dir,
                items,
                done + 1,
            )
            &&& found.progress_after(progress, SyncEventView::Copied) == counted(
                done + 1,
                items.len(),
            )
        }),
{
}

/// A run in which every item is found and copied: after the first `k` items
/// the run is done with `k` items and the tracker has counted `k`. So the
/// tracker passes through `InProgress` with 0, 1, 2, ... items and is `Done`
/// exactly when the last item is copied, at which point the run is over.
pub proof fn lemma_successful_run(
    sync_dir: Seq<char>,
    items: Seq<WorkshopItemView>,
    folders: Seq<Seq<char>>,
)
    requires
        folders.len() <= items.len(),
    ensures
        SyncPipelineView::synced(sync_dir, items, 0).after_all(
            counted(0, items.len()),
            success_events(folders),
        ) == (
            SyncPipelineView::synced(sync_dir, items, folders.len()),
            counted(folders.len(), items.len()),
        ),
        folders.len() == items.len() ==> SyncPipelineView::synced(
            sync_dir,
            items,
            folders.len(),
        ).stage is Finished && counted(folders.len(), items.len()) is Done,
    decreases folders.len(),
{
    if folders.len() > 0 {
        let earlier = folders.drop_last();
        let done = earlier.len();
        lemma_successful_run(sync_dir, items, earlier);
        lemma_item_synced(sync_dir, items, done, folders.last());
        let found = SyncEventView::InstallInfo(Some(folders.last()));
        let events = success_events(folders);
        let start = SyncPipelineView::synced(sync_dir, items, 0);
        let progress = counted(0, items.len());
        assert(events.drop_last() =~= success_events(earlier).push(found));
        assert(events.drop_last().drop_last() =~= success_events(earlier));
        assert(events.last() == SyncEventView::Copied);
        assert(events.drop_last().last() == found);
        assert(start.after_all(progress, events.drop_last()) == (
            SyncPipelineView::synced(sync_dir, items, done).next(found),
            counted(done, items.len()),
        ));
    }
}

/// An item without install info ends the run: the tracker fails with
/// `MissingItemInfo`, which opens the launch gate, and the run is over.
pub proof fn lemma_missing_info_ends_run(run: SyncPipelineView, progress: SyncStateView)
    requires
        run.stage is InstallInfo,
    ensures
        run.next(SyncEventView::InstallInfo(None)).stage is Finished,
        run.progress_after(progress, SyncEventView::InstallInfo(None)) == SyncStateView::Failed(
            SyncErrorView::MissingItemInfo,
        ),
        !run.progress_after(progress, SyncEventView::InstallInfo(None)).syncing(),
{
}

/// A query that fails ends the run before it begins: the tracker goes from
/// where it was, `Starting`, straight to `Failed`, and the run is over.
pub proof fn lemma_query_failure_ends_run(sync_dir: Seq<char>, text: Seq<char>)
    ensures
        SyncPipelineView::start(sync_dir).next(SyncEventView::QueryClosed).stage is Finished,
        SyncPipelineView::start(sync_dir).progress_after(
            SyncStateView::Starting,
            SyncEventView::QueryClosed,
        ) == SyncStateView::Failed(SyncErrorView::Recieve),
        SyncPipelineView::start(sync_dir).next(SyncEventView::QueryFailed(text)).stage is Finished,
        SyncPipelineView::start(sync_dir).progress_after(
            SyncStateView::Starting,
            SyncEventView::QueryFailed(text),
        ) == SyncStateView::Failed(SyncErrorView::Steam(text)),
{
}

/// A run that is over stays over: no event changes it or the tracker.
pub proof fn lemma_finished_run_stays(
    run: SyncPipelineView,
    progress: SyncStateView,
    events: Seq<SyncEventView>,
)
    requires
        run.stage is Finished,
    ensures
        run.after_all(progress, events) == (run, progress),
    decreases events.len(),
{
    if events.len() > 0 {
        lemma_finished_run_stays(run, progress, events.drop_last());
    }
}

} // verus!
