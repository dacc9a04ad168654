//! The client as a state machine over plain values: what it asks of its
//! surroundings for each request and each answer, and where it stands after.

use vstd::prelude::*;

verus! {

/// A part of the daemon's state that can change on its own.
#[derive(Clone, Copy, Debug, PartialEq, Eq, Structural)]
pub enum Subsystem {
    /// The song database.
    Database,
    /// A database update has started or finished.
    Update,
    /// The stored playlists.
    Playlist,
    /// The queue of songs to play.
    Queue,
    /// The player: it was started, stopped or moved within the song.
    Player,
    /// The volume.
    Mixer,
    /// The audio outputs.
    Output,
    /// Options such as repeat and random.
    Options,
    Partition,
    Sticker,
    /// A client has subscribed to a channel or left it.
    Subscription,
    /// A message has arrived on a channel that this connection subscribes
    /// to.
    Message,
    Neighbor,
    Mount,
}

/// A request to the client, by what it holds.
pub enum MessageView {
    Connect(Seq<char>, Seq<char>),
    Play,
    Toggle,
    Status,
    SeekCur(u64),
    AlbumArt(Seq<char>),
    Idle(Seq<Subsystem>),
    Queue,
}

/// A deferred job, by what it holds.
pub enum TaskView {
    DownloadAlbumArt(Seq<char>, Seq<char>),
}

/// What went wrong, for the front end to show.
#[derive(Clone, Copy, Debug, PartialEq, Eq, Structural)]
pub enum Failure {
    /// The daemon could not be reached; the client stays disconnected.
    ConnectFailed,
    /// Commands work, but no notification session runs: what is shown may
    /// fall behind the daemon until the next connect.
    NoLiveUpdates,
    /// The daemon answered a command with an error. Nothing has changed, and
    /// the command is not tried again.
    CommandFailed,
    /// A job of the work queue failed. The jobs behind it are run all the
    /// same.
    TaskFailed,
}

/// What becomes of the daemon's answer to a command.
#[derive(Clone, Copy, Debug, PartialEq, Eq, Structural)]
pub enum Delivery {
    /// The answer is the player's status: the player state takes it.
    UpdateStatus,
    /// The answer is the queue, in the daemon's order: the player state
    /// takes it.
    UpdateQueue,
    /// The front end is told what went wrong; nothing else changes.
    Report(Failure),
    /// Nothing is to be done.
    Nothing,
}

/// One thing the client asks its surroundings to do, by what it holds.
pub enum ActionView {
    RaiseStopFlag,
    LowerStopFlag,
    CloseCommandSession,
    JoinNotifier,
    OpenCommandSession(Seq<char>, Seq<char>),
    SubscribeWake,
    OpenNotifier(Seq<char>, Seq<char>),
    SpawnNotifier,
    FetchQueue,
    FetchStatus,
    Seek(u64),
    LookupArtPath(Seq<char>),
    Enqueue(TaskView),
    SendWake,
    Report(Failure),
}

/// The answer to an action that has one, by what it holds.
pub enum OutcomeView {
    NotifierJoined,
    SessionOpened(bool),
    NotifierOpened(bool),
    ArtPath(Option<Seq<char>>),
}

/// Where the client stands.
pub enum StateView {
    /// No session is open.
    Disconnected,
    /// The old sessions are being torn down; the notification context has
    /// been told to stop and is being waited for. `reconnect` holds the
    /// address to connect to afterwards, if any.
    Disconnecting { reconnect: Option<(Seq<char>, Seq<char>)> },
    /// The command session is being opened.
    OpeningSession { host: Seq<char>, port: Seq<char> },
    /// The command session is open; the notification session is being opened.
    OpeningNotifier,
    /// The command session is open. `notifier` says whether a notification
    /// context has been started with it; `art` holds the key of an artwork
    /// request whose cache path is being looked up.
    Connected { notifier: bool, art: Option<Seq<char>> },
    /// The client has been shut down for good.
    ShutDown,
}

/// The stage of the connection's life cycle.
#[derive(Clone, Copy, Debug, PartialEq, Eq, Structural)]
pub enum Phase {
    Disconnected,
    Connecting,
    Connected,
    Disconnecting,
    ShutDown,
}

impl ActionView {
    /// Whether the client waits for an answer to this action before it goes on.
    pub open spec fn awaits_answer(self) -> bool {
        self is JoinNotifier || self is OpenCommandSession || self is OpenNotifier
            || self is LookupArtPath
    }

    /// Whether this action is a command to the daemon on the command session.
    pub open spec fn is_command(self) -> bool {
        self is SubscribeWake || self is FetchQueue || self is FetchStatus || self is Seek
            || self is SendWake
    }

    /// What becomes of the daemon's answer to this action. The answer to a
    /// fetch goes to the player state; an error to a command is reported and
    /// changes nothing; all else calls for nothing.
    pub open spec fn delivery(self, succeeded: bool) -> Delivery {
        if !self.is_command() {
            Delivery::Nothing
        } else if !succeeded {
            Delivery::Report(Failure::CommandFailed)
        } else if self is FetchStatus {
            Delivery::UpdateStatus
        } else if self is FetchQueue {
            Delivery::UpdateQueue
        } else {
            Delivery::Nothing
        }
    }
}

impl StateView {
    pub open spec fn phase(self) -> Phase {
        match self {
            StateView::Disconnected => Phase::Disconnected,
            StateView::Disconnecting { .. } => Phase::Disconnecting,
            StateView::OpeningSession { .. } => Phase::Connecting,
            StateView::OpeningNotifier => Phase::Connecting,
            StateView::Connected { .. } => Phase::Connected,
            StateView::ShutDown => Phase::ShutDown,
        }
    }

    /// No answer is awaited: the next request can begin.
    pub open spec fn settled(self) -> bool {
        match self {
            StateView::Disconnected => true,
            StateView::Connected { art, .. } => art is None,
            StateView::ShutDown => true,
            _ => false,
        }
    }

    /// A command session is open and free to take a command.
    pub open spec fn ready(self) -> bool {
        self matches StateView::Connected { art, .. } && art is None
    }

    /// Whether `outcome` is the answer that the client waits for.
    pub open spec fn expects(self, outcome: OutcomeView) -> bool {
        match self {
            StateView::Disconnecting { .. } => outcome is NotifierJoined,
            StateView::OpeningSession { .. } => outcome is SessionOpened,
            StateView::OpeningNotifier => outcome is NotifierOpened,
            StateView::Connected { art, .. } => art is Some && outcome is ArtPath,
            _ => false,
        }
    }

    /// Whether `action` is the one whose answer the client waits for.
    pub open spec fn awaits(self, action: ActionView) -> bool {
        match self {
            StateView::Disconnecting { .. } => action is JoinNotifier,
            StateView::OpeningSession { host, port } => action == ActionView::OpenCommandSession(
                host,
                port,
            ),
            StateView::OpeningNotifier => action is OpenNotifier,
            StateView::Connected { art, .. } => art matches Some(key) && action
                == ActionView::LookupArtPath(key),
            _ => false,
        }
    }

    /// A notification context has been started and not yet waited for.
    pub open spec fn has_notifier(self) -> bool {
        self matches StateView::Connected { notifier, .. } && notifier
    }
}

/// The actions that tear the sessions down, up to the point where the
/// notification context has to be waited for.
pub open spec fn teardown() -> Seq<ActionView> {
    seq![ActionView::RaiseStopFlag, ActionView::CloseCommandSession]
}

/// The actions that begin a fresh connection.
pub open spec fn open_session(host: Seq<char>, port: Seq<char>) -> Seq<ActionView> {
    seq![ActionView::LowerStopFlag, ActionView::OpenCommandSession(host, port)]
}

/// The first state sync: the queue first, so that the status can refer to it.
pub open spec fn initial_sync() -> Seq<ActionView> {
    seq![ActionView::FetchQueue, ActionView::FetchStatus]
}

/// What a request to connect does.
pub open spec fn connect(s: StateView, host: Seq<char>, port: Seq<char>) -> (StateView, Seq<ActionView>) {
    match s {
        StateView::Disconnected => (StateView::OpeningSession { host, port }, open_session(host, port)),
        StateView::Connected { notifier, art } => if art is Some {
            (s, Seq::empty())
        } else if notifier {
            (
                StateView::Disconnecting { reconnect: Some((host, port)) },
                teardown().push(ActionView::JoinNotifier),
            )
        } else {
            (StateView::OpeningSession { host, port }, teardown() + open_session(host, port))
        },
        _ => (s, Seq::empty()),
    }
}

/// What shutting down does.
pub open spec fn shutdown(s: StateView) -> (StateView, Seq<ActionView>) {
    match s {
        StateView::Disconnected => (StateView::ShutDown, Seq::empty()),
        StateView::Connected { notifier, art } => if art is Some {
            (s, Seq::empty())
        } else if notifier {
            (StateView::Disconnecting { reconnect: None }, teardown().push(ActionView::JoinNotifier))
        } else {
            (StateView::ShutDown, teardown())
        },
        _ => (s, Seq::empty()),
    }
}

/// What one changed subsystem calls for.
pub open spec fn reaction(subsystem: Subsystem) -> Seq<ActionView> {
    match subsystem {
        Subsystem::Player => seq![ActionView::FetchStatus],
        Subsystem::Queue => seq![ActionView::FetchQueue],
        _ => Seq::empty(),
    }
}

/// What a list of changed subsystems calls for: the reaction to each, in the
/// order in which the daemon named them.
pub open spec fn reactions(changes: Seq<Subsystem>) -> Seq<ActionView>
    decreases changes.len(),
{
    if changes.len() == 0 {
        Seq::empty()
    } else {
        reactions(changes.drop_last()) + reaction(changes.last())
    }
}

/// One command, if a session is there to take it.
pub open spec fn command(s: StateView, action: ActionView) -> Seq<ActionView> {
    if s.ready() {
        seq![action]
    } else {
        Seq::empty()
    }
}

/// What a request for an album's artwork does: the cache is asked for the
/// place to put it.
pub open spec fn get_album_art(s: StateView, key: Seq<char>) -> (StateView, Seq<ActionView>) {
    match s {
        StateView::Connected { notifier, art } => if art is None {
            (StateView::Connected { notifier, art: Some(key) }, seq![ActionView::LookupArtPath(key)])
        } else {
            (s, Seq::empty())
        },
        _ => (s, Seq::empty()),
    }
}

/// What a request does. While an answer is awaited no request begins.
pub open spec fn respond(s: StateView, m: MessageView) -> (StateView, Seq<ActionView>) {
    match m {
        MessageView::Connect(host, port) => connect(s, host, port),
        MessageView::Status => (s, command(s, ActionView::FetchStatus)),
        MessageView::Queue => (s, command(s, ActionView::FetchQueue)),
        MessageView::SeekCur(position) => (s, command(s, ActionView::Seek(position))),
        MessageView::AlbumArt(key) => get_album_art(s, key),
        MessageView::Idle(changes) => (s, if s.ready() { reactions(changes) } else { Seq::empty() }),
        MessageView::Play => (s, Seq::empty()),
        MessageView::Toggle => (s, Seq::empty()),
    }
}

/// What an answer does. An answer that is not awaited changes nothing.
pub open spec fn resume(s: StateView, o: OutcomeView) -> (StateView, Seq<ActionView>) {
    match (s, o) {
        (StateView::Disconnecting { reconnect: Some((host, port)) }, OutcomeView::NotifierJoined) => (
            StateView::OpeningSession { host, port },
            open_session(host, port),
        ),
        (StateView::Disconnecting { reconnect: None }, OutcomeView::NotifierJoined) => (
            StateView::ShutDown,
            Seq::empty(),
        ),
        (StateView::OpeningSession { host, port }, OutcomeView::SessionOpened(opened)) => if opened {
            (
                StateView::OpeningNotifier,
                seq![ActionView::SubscribeWake, ActionView::OpenNotifier(host, port)],
            )
        } else {
            (StateView::Disconnected, seq![ActionView::Report(Failure::ConnectFailed)])
        },
        (StateView::OpeningNotifier, OutcomeView::NotifierOpened(opened)) => if opened {
            (
                StateView::Connected { notifier: true, art: None },
                seq![ActionView::SpawnNotifier] + initial_sync(),
            )
        } else {
            (
                StateView::Connected { notifier: false, art: None },
                seq![ActionView::Report(Failure::NoLiveUpdates)] + initial_sync(),
            )
        },
        (StateView::Connected { notifier, art: Some(key) }, OutcomeView::ArtPath(found)) => (
            StateView::Connected { notifier, art: None },
            match found {
                Some(path) => seq![
                    ActionView::Enqueue(TaskView::DownloadAlbumArt(key, path)),
                    ActionView::SendWake,
                ],
                None => Seq::empty(),
            },
        ),
        _ => (s, Seq::empty()),
    }
}

} // verus!
