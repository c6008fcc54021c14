//! The exchange between a run and its host: the actions a run asks for and
//! the events in which the host reports what happened.

use vstd::prelude::*;
use crate::command::{Command, CommandView};
use crate::delegate::InvokeReply;
use crate::extract::{DirEntry, DirEntryView, bytes_view, children_view, listing_option_view};
use crate::install::{DownloadReply, DownloadView};
use crate::release::{FeedReply, FeedReplyView, HttpRequest, RequestView};
use crate::version_cache::text_view;

verus! {

/// What a run asks its host to do next. Each action but the last is
/// answered by one [`Event`].
#[derive(Clone, Debug, PartialEq, Eq)]
pub enum Action {
    /// Read the version cache; answered by [`Event::CacheLoaded`].
    LoadCache { path: String },
    /// Tell whether a file or directory exists; answered by
    /// [`Event::Probed`].
    Probe { path: String },
    /// Ask a feed for its latest release; answered by
    /// [`Event::FeedAnswered`].
    FetchRelease { request: HttpRequest },
    /// Create the directory `dir`, then stream the body of the answer into
    /// the file `staging`; answered by [`Event::Downloaded`].
    Download { request: HttpRequest, dir: String, staging: String },
    /// Carry out a command; answered by [`Event::Done`].
    Run(Command),
    /// Read a whole file; answered by [`Event::ArchiveRead`].
    ReadArchive { path: String },
    /// List the children of a directory; answered by [`Event::Listed`].
    ListDir { path: String },
    /// Load the module and call the entry point once with the host's
    /// context; answered by [`Event::Invoked`].
    Invoke { module: String, symbol: String },
    /// The run is over: hand `code` to the host.
    Finish { code: i32 },
}

/// What an [`Action`] stands for.
pub enum ActionView {
    LoadCache { path: Seq<char> },
    Probe { path: Seq<char> },
    FetchRelease { request: RequestView },
    Download { request: RequestView, dir: Seq<char>, staging: Seq<char> },
    Run(CommandView),
    ReadArchive { path: Seq<char> },
    ListDir { path: Seq<char> },
    Invoke { module: Seq<char>, symbol: Seq<char> },
    Finish { code: i32 },
}

impl View for Action {
    type V = ActionView;

    open spec fn view(&self) -> ActionView {
        match *self {
            Action::LoadCache { path } => ActionView::LoadCache { path: path@ },
            Action::Probe { path } => ActionView::Probe { path: path@ },
            Action::FetchRelease { request } => ActionView::FetchRelease { request: request@ },
            Action::Download { request, dir, staging } => ActionView::Download {
                request: request@,
                dir: dir@,
                staging: staging@,
            },
            Action::Run(command) => ActionView::Run(command@),
            Action::ReadArchive { path } => ActionView::ReadArchive { path: path@ },
            Action::ListDir { path } => ActionView::ListDir { path: path@ },
            Action::Invoke { module, symbol } => ActionView::Invoke {
                module: module@,
                symbol: symbol@,
            },
            Action::Finish { code } => ActionView::Finish { code },
        }
    }
}

/// What the host reports of the action it was asked for.
#[derive(Clone, Debug, PartialEq, Eq)]
pub enum Event {
    /// The text of the cache file, or nothing where it is missing or
    /// unreadable.
    CacheLoaded(Option<String>),
    /// Whether the path exists.
    Probed(bool),
    FeedAnswered(FeedReply),
    Downloaded(DownloadReply),
    /// Whether the command succeeded.
    Done(bool),
    /// The bytes of the file, or nothing where it could not be read.
    ArchiveRead(Option<Vec<u8>>),
    /// The children of the directory, or nothing where it could not be read.
    Listed(Option<Vec<DirEntry>>),
    Invoked(InvokeReply),
}

/// What an [`Event`] stands for.
pub enum EventView {
    CacheLoaded(Option<Seq<char>>),
    Probed(bool),
    FeedAnswered(FeedReplyView),
    Downloaded(DownloadView),
    Done(bool),
    ArchiveRead(Option<Seq<u8>>),
    Listed(Option<Seq<DirEntryView>>),
    Invoked(InvokeReply),
}

impl View for Event {
    type V = EventView;

    open spec fn view(&self) -> EventView {
        match *self {
            Event::CacheLoaded(text) => EventView::CacheLoaded(text_view(text)),
            Event::Probed(present) => EventView::Probed(present),
            Event::FeedAnswered(reply) => EventView::FeedAnswered(reply@),
            Event::Downloaded(reply) => EventView::Downloaded(reply@),
            Event::Done(ok) => EventView::Done(ok),
            Event::ArchiveRead(bytes) => EventView::ArchiveRead(
                match bytes {
                    Some(b) => Some(b@),
                    None => None,
                },
            ),
            Event::Listed(children) => EventView::Listed(
                match children {
                    Some(c) => Some(children_view(c@)),
                    None => None,
                },
            ),
            Event::Invoked(reply) => EventView::Invoked(reply),
        }
    }
}

/// How an event is read where the text of the cache file is awaited: any
/// other event counts as an unreadable file.
pub open spec fn text_in(event: EventView) -> Option<Seq<char>> {
    match event {
        EventView::CacheLoaded(text) => text,
        _ => None,
    }
}

/// How an event is read where a probe is awaited: any other event counts
/// as "not there".
pub open spec fn presence_in(event: EventView) -> bool {
    match event {
        EventView::Probed(present) => present,
        _ => false,
    }
}

/// How an event is read where a probe is awaited that has to find nothing:
/// only the report that the path is not there counts.
pub open spec fn absence_in(event: EventView) -> bool {
    match event {
        EventView::Probed(present) => !present,
        _ => false,
    }
}

/// How an event is read where a feed's reply is awaited: any other event
/// counts as no answer.
pub open spec fn feed_in(event: EventView) -> FeedReplyView {
    match event {
        EventView::FeedAnswered(reply) => reply,
        _ => FeedReplyView::Unreachable,
    }
}

/// How an event is read where a download is awaited: any other event
/// counts as no answer.
pub open spec fn download_in(event: EventView) -> DownloadView {
    match event {
        EventView::Downloaded(reply) => reply,
        _ => DownloadView::Unreachable,
    }
}

/// How an event is read where a command's completion is awaited: any other
/// event counts as failure.
pub open spec fn success_in(event: EventView) -> bool {
    match event {
        EventView::Done(ok) => ok,
        _ => false,
    }
}

/// How an event is read where a file's bytes are awaited.
pub open spec fn bytes_in(event: EventView) -> Option<Seq<u8>> {
    match event {
        EventView::ArchiveRead(bytes) => bytes,
        _ => None,
    }
}

/// How an event is read where a directory's children are awaited.
pub open spec fn children_in(event: EventView) -> Option<Seq<DirEntryView>> {
    match event {
        EventView::Listed(children) => children,
        _ => None,
    }
}

/// How an event is read where an invocation's result is awaited: any other
/// event counts as a failure to load.
pub open spec fn invocation_in(event: EventView) -> InvokeReply {
    match event {
        EventView::Invoked(reply) => reply,
        _ => InvokeReply::LoadFailed,
    }
}

impl Event {
    /// Reads the event as the text of the cache file, see [`text_in`].
    pub fn into_text(self) -> (r: Option<String>)
        ensures
            text_view(r) == text_in(self@),
    {
        match self {
            Event::CacheLoaded(text) => text,
            _ => None,
        }
    }

    /// Reads the event as the answer to a probe, see [`presence_in`].
    pub fn into_presence(self) -> (r: bool)
        ensures
            r == presence_in(self@),
    {
        match self {
            Event::Probed(present) => present,
            _ => false,
        }
    }

    /// Reads the event as the answer to a probe that has to find nothing,
    /// see [`absence_in`].
    pub fn into_absence(self) -> (r: bool)
        ensures
            r == absence_in(self@),
    {
        match self {
            Event::Probed(present) => !present,
            _ => false,
        }
    }

    /// Reads the event as a feed's reply, see [`feed_in`].
    pub fn into_feed(self) -> (r: FeedReply)
        ensures
            r@ == feed_in(self@),
    {
        match self {
            Event::FeedAnswered(reply) => reply,
            _ => FeedReply::Unreachable,
        }
    }

    /// Reads the event as the result of a download, see [`download_in`].
    pub fn into_download(self) -> (r: DownloadReply)
        ensures
            r@ == download_in(self@),
    {
        match self {
            Event::Downloaded(reply) => reply,
            _ => DownloadReply::Unreachable,
        }
    }

    /// Reads the event as a command's completion, see [`success_in`].
    pub fn into_success(self) -> (r: bool)
        ensures
            r == success_in(self@),
    {
        match self {
            Event::Done(ok) => ok,
            _ => false,
        }
    }

    /// Reads the event as a file's bytes, see [`bytes_in`].
    pub fn into_bytes(self) -> (r: Option<Vec<u8>>)
        ensures
            bytes_view(r) == bytes_in(self@),
    {
        match self {
            Event::ArchiveRead(bytes) => bytes,
            _ => None,
        }
    }

    /// Reads the event as a directory's children, see [`children_in`].
    pub fn into_children(self) -> (r: Option<Vec<DirEntry>>)
        ensures
            listing_option_view(r) == children_in(self@),
    {
        match self {
            Event::Listed(children) => children,
            _ => None,
        }
    }

    /// Reads the event as an invocation's result, see [`invocation_in`].
    pub fn into_invocation(self) -> (r: InvokeReply)
        ensures
            r == invocation_in(self@),
    {
        match self {
            Event::Invoked(reply) => reply,
            _ => InvokeReply::LoadFailed,
        }
    }
}

} // verus!
