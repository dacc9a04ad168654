//! What goes in and out of the client: requests, deferred jobs, the actions
//! it asks for and the answers it takes.

use vstd::prelude::*;
use crate::client::model::{
    ActionView, Delivery, Failure, MessageView, OutcomeView, Subsystem, TaskView,
};

verus! {

/// A request to the client. Requests are handled one at a time, in the order
/// in which they arrive.
#[derive(Clone, Debug, PartialEq, Eq)]
pub enum MpdMessage {
    /// Connect to the daemon at this host and port.
    Connect(String, String),
    /// Start to play. The command session has no command for it yet: the
    /// request is taken and nothing is done.
    Play,
    /// Pause or resume. Taken and not acted on, as `Play`.
    Toggle,
    /// Fetch the player's status.
    Status,
    /// Seek within the current song to this position, in milliseconds.
    SeekCur(u64),
    /// Fetch the artwork of the album in this folder.
    AlbumArt(String),
    /// These subsystems changed on the daemon. Only the notification session
    /// makes this request.
    Idle(Vec<Subsystem>),
    /// Fetch the songs of the current queue.
    Queue,
}

impl View for MpdMessage {
    type V = MessageView;

    open spec fn view(&self) -> MessageView {
        match self {
            MpdMessage::Connect(host, port) => MessageView::Connect(host@, port@),
            MpdMessage::Play => MessageView::Play,
            MpdMessage::Toggle => MessageView::Toggle,
            MpdMessage::Status => MessageView::Status,
            MpdMessage::SeekCur(position) => MessageView::SeekCur(*position),
            MpdMessage::AlbumArt(folder) => MessageView::AlbumArt(folder@),
            MpdMessage::Idle(changes) => MessageView::Idle(changes@),
            MpdMessage::Queue => MessageView::Queue,
        }
    }
}

impl DeepView for MpdMessage {
    type V = MessageView;

    open spec fn deep_view(&self) -> MessageView {
        self@
    }
}

/// A job that is handed to the notification session's context, so that the
/// front end never waits for it.
#[derive(Clone, Debug, PartialEq, Eq)]
pub enum BackgroundTask {
    /// Download the artwork of the album in the folder named first to the
    /// path named second.
    DownloadAlbumArt(String, String),
}

impl View for BackgroundTask {
    type V = TaskView;

    open spec fn view(&self) -> TaskView {
        match self {
            BackgroundTask::DownloadAlbumArt(folder, path) => TaskView::DownloadAlbumArt(
                folder@,
                path@,
            ),
        }
    }
}

impl DeepView for BackgroundTask {
    type V = TaskView;

    open spec fn deep_view(&self) -> TaskView {
        self@
    }
}

/// One thing the client asks its surroundings to do. The actions of a list
/// are carried out in order; where the last one has an answer, the answer is
/// handed back before anything else begins.
#[derive(Clone, Debug, PartialEq, Eq)]
pub enum Action {
    /// Tell the notification context to stop at its next turn.
    RaiseStopFlag,
    /// Let a notification context run.
    LowerStopFlag,
    /// Close the command session. The daemon then ends the idle wait of the
    /// notification session.
    CloseCommandSession,
    /// Wait until the notification context has ended. Answer: `NotifierJoined`.
    JoinNotifier,
    /// Open a command session to this host and port. Answer: `SessionOpened`.
    OpenCommandSession(String, String),
    /// Subscribe the command session to the wake channel.
    SubscribeWake,
    /// Open a second connection to this host and port and subscribe it to the
    /// wake channel. Answer: `NotifierOpened`.
    OpenNotifier(String, String),
    /// Start the notification context on the connection just opened, with an
    /// empty work queue.
    SpawnNotifier,
    /// Fetch the queue and hand it to the player state. A failure is
    /// reported and changes nothing.
    FetchQueue,
    /// Fetch the status and hand it to the player state. A failure is
    /// reported and changes nothing.
    FetchStatus,
    /// Seek within the current song to this position, in milliseconds.
    Seek(u64),
    /// Ask the artwork cache where the artwork of this folder belongs.
    /// Answer: `ArtPath`.
    LookupArtPath(String),
    /// Put this job on the work queue.
    Enqueue(BackgroundTask),
    /// Send a message on the wake channel.
    SendWake,
    /// Tell the front end what went wrong.
    Report(Failure),
}

impl View for Action {
    type V = ActionView;

    open spec fn view(&self) -> ActionView {
        match self {
            Action::RaiseStopFlag => ActionView::RaiseStopFlag,
            Action::LowerStopFlag => ActionView::LowerStopFlag,
            Action::CloseCommandSession => ActionView::CloseCommandSession,
            Action::JoinNotifier => ActionView::JoinNotifier,
            Action::OpenCommandSession(host, port) => ActionView::OpenCommandSession(host@, port@),
            Action::SubscribeWake => ActionView::SubscribeWake,
            Action::OpenNotifier(host, port) => ActionView::OpenNotifier(host@, port@),
            Action::SpawnNotifier => ActionView::SpawnNotifier,
            Action::FetchQueue => ActionView::FetchQueue,
            Action::FetchStatus => ActionView::FetchStatus,
            Action::Seek(position) => ActionView::Seek(*position),
            Action::LookupArtPath(folder) => ActionView::LookupArtPath(folder@),
            Action::Enqueue(task) => ActionView::Enqueue(task@),
            Action::SendWake => ActionView::SendWake,
            Action::Report(failure) => ActionView::Report(*failure),
        }
    }
}

impl DeepView for Action {
    type V = ActionView;

    open spec fn deep_view(&self) -> ActionView {
        self@
    }
}

impl Action {
    /// Whether the client waits for an answer to this action.
    pub fn awaits_answer(&self) -> (awaited: bool)
        ensures
            awaited == self@.awaits_answer(),
    {
        match self {
            Action::JoinNotifier => true,
            Action::OpenCommandSession(_, _) => true,
            Action::OpenNotifier(_, _) => true,
            Action::LookupArtPath(_) => true,
            _ => false,
        }
    }

    /// Says what becomes of the daemon's answer to this action, once it has
    /// been carried out and has `succeeded` or not.
    pub fn delivery(&self, succeeded: bool) -> (delivery: Delivery)
        ensures
            delivery == self@.delivery(succeeded),
    {
        match self {
            Action::FetchStatus => if succeeded {
                Delivery::UpdateStatus
            } else {
                Delivery::Report(Failure::CommandFailed)
            },
            Action::FetchQueue => if succeeded {
                Delivery::UpdateQueue
            } else {
                Delivery::Report(Failure::CommandFailed)
            },
            Action::SubscribeWake | Action::Seek(_) | Action::SendWake => if succeeded {
                Delivery::Nothing
            } else {
                Delivery::Report(Failure::CommandFailed)
            },
            _ => Delivery::Nothing,
        }
    }
}

/// The answer to an action that has one.
#[derive(Clone, Debug, PartialEq, Eq)]
pub enum Outcome {
    /// The notification context has ended.
    NotifierJoined,
    /// Whether the command session could be opened.
    SessionOpened(bool),
    /// Whether the notification session could be opened and subscribed.
    NotifierOpened(bool),
    /// Where the artwork belongs, if the cache has a place for it.
    ArtPath(Option<String>),
}

impl View for Outcome {
    type V = OutcomeView;

    open spec fn view(&self) -> OutcomeView {
        match self {
            Outcome::NotifierJoined => OutcomeView::NotifierJoined,
            Outcome::SessionOpened(opened) => OutcomeView::SessionOpened(*opened),
            Outcome::NotifierOpened(opened) => OutcomeView::NotifierOpened(*opened),
            Outcome::ArtPath(None) => OutcomeView::ArtPath(None),
            Outcome::ArtPath(Some(path)) => OutcomeView::ArtPath(Some(path@)),
        }
    }
}

} // verus!
