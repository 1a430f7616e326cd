//! The errors that end the launcher before its window opens.

use vstd::prelude::*;
use vstd::string::*;

verus! {

/// Why a workshop query could not be sent.
#[derive(Clone, Copy, Debug, PartialEq, Eq, Structural)]
pub enum WorkshopQueryError {
    /// The workshop service did not accept the query.
    CreateQueryError,
}

impl WorkshopQueryError {
    /// The text that describes the error to the user.
    pub open spec fn message_text(self) -> Seq<char> {
        "Could not create workshop query"@
    }

    /// The text that describes the error to the user.
    pub fn message(&self) -> (s: String)
        ensures
            s@ == self.message_text(),
    {
        String::from_str("Could not create workshop query")
    }
}

/// The model of an [`AppError`].
pub enum AppErrorView {
    Io(Seq<char>),
    Steam(Seq<char>),
    SteamWorkshopQuery(WorkshopQueryError),
    InvalidSyncDir,
}

impl AppErrorView {
    /// The text that describes the error to the user.
    pub open spec fn message(self) -> Seq<char> {
        match self {
            AppErrorView::Io(text) => text,
            AppErrorView::Steam(text) => text,
            AppErrorView::SteamWorkshopQuery(e) => e.message_text(),
            AppErrorView::InvalidSyncDir => "The sync dir is invalid"@,
        }
    }
}

/// Why the launcher could not start.
#[derive(Debug, PartialEq, Eq)]
pub enum AppError {
    /// The system refused an operation; the text is its message.
    Io(String),
    /// The workshop service could not be reached; the text is its message.
    Steam(String),
    /// The workshop query could not be sent.
    SteamWorkshopQuery(WorkshopQueryError),
    /// The path of the sync directory leads to something that is no
    /// directory.
    InvalidSyncDir,
}

impl View for AppError {
    type V = AppErrorView;

    open spec fn view(&self) -> AppErrorView {
        match self {
            AppError::Io(text) => AppErrorView::Io(text@),
            AppError::Steam(text) => AppErrorView::Steam(text@),
            AppError::SteamWorkshopQuery(e) => AppErrorView::SteamWorkshopQuery(*e),
            AppError::InvalidSyncDir => AppErrorView::InvalidSyncDir,
        }
    }
}

impl From<WorkshopQueryError> for AppError {
    fn from(e: WorkshopQueryError) -> (error: AppError) {
        AppError::SteamWorkshopQuery(e)
    }
}

impl vstd::std_specs::convert::FromSpecImpl<WorkshopQueryError> for AppError {
    open spec fn obeys_from_spec() -> bool {
        true
    }

    open spec fn from_spec(e: WorkshopQueryError) -> AppError {
        AppError::SteamWorkshopQuery(e)
    }
}

impl AppError {
    /// The text that describes the error to the user.
    pub fn message(&self) -> (s: String)
        ensures
            s@ == self@.message(),
    {
        match self {
            AppError::Io(text) => text.clone(),
            AppError::Steam(text) => text.clone(),
            AppError::SteamWorkshopQuery(e) => e.message(),
            AppError::InvalidSyncDir => String::from_str("The sync dir is invalid"),
        }
    }
}

/// The model of an [`AssetError`].
pub enum AssetErrorView {
    Image(Seq<char>),
    BadIcon(Seq<char>),
}

impl AssetErrorView {
    /// The text that describes the error to the user.
    pub open spec fn message(self) -> Seq<char> {
        match self {
            AssetErrorView::Image(text) => text,
            AssetErrorView::BadIcon(text) => text,
        }
    }
}

/// Why one of the launcher's images could not be used.
#[derive(Debug, PartialEq, Eq)]
pub enum AssetError {
    /// The image could not be decoded; the text is the decoder's message.
    Image(String),
    /// The pixels do not make an icon; the text is the window system's
    /// message.
    BadIcon(String),
}

impl View for AssetError {
    type V = AssetErrorView;

    open spec fn view(&self) -> AssetErrorView {
        match self {
            AssetError::Image(text) => AssetErrorView::Image(text@),
            AssetError::BadIcon(text) => AssetErrorView::BadIcon(text@),
        }
    }
}

impl AssetError {
    /// The text that describes the error to the user.
    pub fn message(&self) -> (s: String)
        ensures
            s@ == self@.message(),
    {
        match self {
            AssetError::Image(text) => text.clone(),
            AssetError::BadIcon(text) => text.clone(),
        }
    }
}

} // verus!
