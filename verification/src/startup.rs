//! What the launcher settles before the sync starts: which items the query
//! asks for, and that the sync directory is there.

use crate::error::{AppError, AppErrorView};
use crate::query::{UgcQueryBuilder, UserList};
use vstd::prelude::*;

verus! {

/// The filter of the query that the sync sends: the items that the account
/// `account_id` has subscribed to for the application `app_id`, with every
/// other choice left as [`UgcQueryBuilder::new`] makes it.
pub fn subscribed_items_query(account_id: u32, app_id: u32) -> (builder: UgcQueryBuilder)
    ensures
        builder == (UgcQueryBuilder {
            user_list: UserList::Subscribed,
            ..UgcQueryBuilder::new_spec(account_id, app_id)
        }),
{
    UgcQueryBuilder::new(account_id, app_id).user_list(UserList::Subscribed)
}

/// The model of a [`SyncDirEvent`].
pub enum SyncDirEventView {
    Started,
    Exists(bool),
    Created,
    CreateFailed(Seq<char>),
    IsDir(bool),
}

/// What the caller found out about the path of the sync directory.
#[derive(Debug, PartialEq, Eq)]
pub enum SyncDirEvent {
    /// Nothing yet.
    Started,
    /// Whether anything lies at the path.
    Exists(bool),
    /// The directory is created, with the directories above it.
    Created,
    /// The directory could not be created; the text is the system's message.
    CreateFailed(String),
    /// Whether a directory lies at the path.
    IsDir(bool),
}

impl View for SyncDirEvent {
    type V = SyncDirEventView;

    open spec fn view(&self) -> SyncDirEventView {
        match self {
            SyncDirEvent::Started => SyncDirEventView::Started,
            SyncDirEvent::Exists(exists) => SyncDirEventView::Exists(*exists),
            SyncDirEvent::Created => SyncDirEventView::Created,
            SyncDirEvent::CreateFailed(text) => SyncDirEventView::CreateFailed(text@),
            SyncDirEvent::IsDir(is_dir) => SyncDirEventView::IsDir(*is_dir),
        }
    }
}

/// The model of a [`SyncDirAction`].
pub enum SyncDirActionView {
    ProbeExists,
    Create,
    ProbeIsDir,
    Proceed,
    Fail(AppErrorView),
}

/// What the caller is to do next about the sync directory.
#[derive(Debug, PartialEq, Eq)]
pub enum SyncDirAction {
    /// Find out whether anything lies at the path, and report it.
    ProbeExists,
    /// Create the directory with the directories above it, and report how it
    /// went.
    Create,
    /// Find out whether a directory lies at the path, and report it.
    ProbeIsDir,
    /// The directory is there: start the sync.
    Proceed,
    /// Give up with this error.
    Fail(AppError),
}

impl View for SyncDirAction {
    type V = SyncDirActionView;

    open spec fn view(&self) -> SyncDirActionView {
        match self {
            SyncDirAction::ProbeExists => SyncDirActionView::ProbeExists,
            SyncDirAction::Create => SyncDirActionView::Create,
            SyncDirAction::ProbeIsDir => SyncDirActionView::ProbeIsDir,
            SyncDirAction::Proceed => SyncDirActionView::Proceed,
            SyncDirAction::Fail(e) => SyncDirActionView::Fail(e@),
        }
    }
}

/// What follows an event: the directory is created only where nothing lies
/// at its path, a failure to create it is fatal, and in the end a directory
/// must lie at the path.
pub open spec fn sync_dir_action(event: SyncDirEventView) -> SyncDirActionView {
    match event {
        SyncDirEventView::Started => SyncDirActionView::ProbeExists,
        SyncDirEventView::Exists(true) => SyncDirActionView::ProbeIsDir,
        SyncDirEventView::Exists(false) => SyncDirActionView::Create,
        SyncDirEventView::Created => SyncDirActionView::ProbeIsDir,
        SyncDirEventView::CreateFailed(text) => SyncDirActionView::Fail(AppErrorView::Io(text)),
        SyncDirEventView::IsDir(true) => SyncDirActionView::Proceed,
        SyncDirEventView::IsDir(false) => SyncDirActionView::Fail(AppErrorView::InvalidSyncDir),
    }
}

/// Makes sure that the sync directory is there, one step at a time: told
/// what the caller found out last, it answers what to do next.
pub fn prepare_sync_dir(event: SyncDirEvent) -> (action: SyncDirAction)
    ensures
        action@ == sync_dir_action(event@),
{
    match event {
        SyncDirEvent::Started => SyncDirAction::ProbeExists,
        SyncDirEvent::Exists(true) => SyncDirAction::ProbeIsDir,
        SyncDirEvent::Exists(false) => SyncDirAction::Create,
        SyncDirEvent::Created => SyncDirAction::ProbeIsDir,
        SyncDirEvent::CreateFailed(text) => SyncDirAction::Fail(AppError::Io(text)),
        SyncDirEvent::IsDir(true) => SyncDirAction::Proceed,
        SyncDirEvent::IsDir(false) => SyncDirAction::Fail(AppError::InvalidSyncDir),
    }
}

} // verus!
