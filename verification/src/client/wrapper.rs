//! The client itself: it takes requests and answers, and says what is to be
//! done for each. Two connections to the daemon stand behind it. The command
//! session carries the requests; the notification session sleeps in the
//! daemon's idle wait and reports what changed. The client never touches
//! either connection: it hands out actions, and is told how they ended.

use vstd::prelude::*;
use crate::client::channel::{is_channel_name, is_simple_id, WakeChannel};
use crate::client::inbox::{serve, Inbox};
use crate::client::model;
use crate::client::model::{ActionView, Failure, Phase, StateView, Subsystem};
pub use crate::client::message::{Action, BackgroundTask, MpdMessage, Outcome};

verus! {

#[derive(Debug)]
enum State {
    Disconnected,
    Disconnecting { reconnect: Option<(String, String)> },
    OpeningSession { host: String, port: String },
    OpeningNotifier,
    Connected { notifier: bool, art: Option<String> },
    ShutDown,
}

impl View for State {
    type V = StateView;

    closed spec fn view(&self) -> StateView {
        match self {
            State::Disconnected => StateView::Disconnected,
            State::Disconnecting { reconnect: None } => StateView::Disconnecting { reconnect: None },
            State::Disconnecting { reconnect: Some((host, port)) } => StateView::Disconnecting {
                reconnect: Some((host@, port@)),
            },
            State::OpeningSession { host, port } => StateView::OpeningSession {
                host: host@,
                port: port@,
            },
            State::OpeningNotifier => StateView::OpeningNotifier,
            State::Connected { notifier, art: None } => StateView::Connected {
                notifier: *notifier,
                art: None,
            },
            State::Connected { notifier, art: Some(key) } => StateView::Connected {
                notifier: *notifier,
                art: Some(key@),
            },
            State::ShutDown => StateView::ShutDown,
        }
    }
}

/// The client.
#[derive(Debug)]
pub struct MpdWrapper {
    state: State,
    bg_channel: WakeChannel,
}

impl View for MpdWrapper {
    type V = StateView;

    closed spec fn view(&self) -> StateView {
        self.state@
    }
}

fn teardown_actions() -> (actions: Vec<Action>)
    ensures
        actions.deep_view() == model::teardown(),
{
    let actions = vec![Action::RaiseStopFlag, Action::CloseCommandSession];
    assert(actions.deep_view() =~= model::teardown());
    actions
}

fn push_open_session(actions: &mut Vec<Action>, host: String, port: String)
    ensures
        final(actions).deep_view() == old(actions).deep_view() + model::open_session(host@, port@),
{
    actions.push(Action::LowerStopFlag);
    actions.push(Action::OpenCommandSession(host, port));
    assert(actions.deep_view() =~= old(actions).deep_view() + model::open_session(host@, port@));
}

fn push_initial_sync(actions: &mut Vec<Action>)
    ensures
        final(actions).deep_view() == old(actions).deep_view() + model::initial_sync(),
{
    actions.push(Action::FetchQueue);
    actions.push(Action::FetchStatus);
    assert(actions.deep_view() =~= old(actions).deep_view() + model::initial_sync());
}

fn no_actions() -> (actions: Vec<Action>)
    ensures
        actions.deep_view() == Seq::<ActionView>::empty(),
{
    let actions = Vec::new();
    assert(actions.deep_view() =~= Seq::<ActionView>::empty());
    actions
}

fn push_action(actions: &mut Vec<Action>, action: Action)
    ensures
        final(actions).deep_view() == old(actions).deep_view().push(action@),
{
    actions.push(action);
    assert(actions.deep_view() =~= old(actions).deep_view().push(action@));
}

impl MpdWrapper {
    /// The wake channel of this client.
    pub closed spec fn channel_name(&self) -> Seq<char> {
        self.bg_channel.name()
    }

    /// A client that is not connected, with a wake channel of its own: a
    /// random name that the daemon accepts.
    pub fn new() -> (wrapper: MpdWrapper)
        ensures
            wrapper@ == StateView::Disconnected,
            is_simple_id(wrapper.channel_name()),
            is_channel_name(wrapper.channel_name()),
    {
        MpdWrapper { state: State::Disconnected, bg_channel: WakeChannel::fresh() }
    }

    /// The wake channel: both sessions subscribe to it when they are opened.
    pub fn bg_channel(&self) -> (channel: &WakeChannel)
        ensures
            channel.name() == self.channel_name(),
    {
        &self.bg_channel
    }

    /// Where the connection stands in its life cycle.
    pub fn phase(&self) -> (phase: Phase)
        ensures
            phase == self@.phase(),
    {
        match &self.state {
            State::Disconnected => Phase::Disconnected,
            State::Disconnecting { .. } => Phase::Disconnecting,
            State::OpeningSession { .. } => Phase::Connecting,
            State::OpeningNotifier => Phase::Connecting,
            State::Connected { .. } => Phase::Connected,
            State::ShutDown => Phase::ShutDown,
        }
    }

    /// Whether the next request can begin: no answer is awaited.
    pub fn is_settled(&self) -> (settled: bool)
        ensures
            settled == self@.settled(),
    {
        match &self.state {
            State::Disconnected => true,
            State::Connected { art: None, .. } => true,
            State::ShutDown => true,
            _ => false,
        }
    }

    /// Whether a command session is open and free to take a command.
    pub fn is_ready(&self) -> (ready: bool)
        ensures
            ready == self@.ready(),
    {
        match &self.state {
            State::Connected { art: None, .. } => true,
            _ => false,
        }
    }

    fn command(&self, action: Action) -> (actions: Vec<Action>)
        ensures
            actions.deep_view() == model::command(self@, action@),
    {
        if self.is_ready() {
            let actions = vec![action];
            assert(actions.deep_view() =~= seq![action@]);
            actions
        } else {
            no_actions()
        }
    }

    /// Connects to the daemon at `host` and `port`. Sessions that are open
    /// are torn down first: the stop flag is raised, the command session is
    /// closed, and the notification context is waited for. Only when it has
    /// ended is the flag lowered and the new command session opened.
    pub fn connect(&mut self, host: String, port: String) -> (actions: Vec<Action>)
        ensures
            (final(self)@, actions.deep_view()) == model::connect(old(self)@, host@, port@),
            final(self).channel_name() == old(self).channel_name(),
    {
        match &self.state {
            State::Disconnected => {
                let mut actions = no_actions();
                push_open_session(&mut actions, host.clone(), port.clone());
                self.state = State::OpeningSession { host, port };
                actions
            },
            State::Connected { notifier, art: None } => {
                let mut actions = teardown_actions();
                if *notifier {
                    actions.push(Action::JoinNotifier);
                    assert(actions.deep_view() =~= model::teardown().push(ActionView::JoinNotifier));
                    self.state = State::Disconnecting { reconnect: Some((host, port)) };
                } else {
                    push_open_session(&mut actions, host.clone(), port.clone());
                    self.state = State::OpeningSession { host, port };
                }
                actions
            },
            _ => no_actions(),
        }
    }

    /// Shuts the client down for good. Open sessions are torn down as for a
    /// reconnect; with no session open nothing is asked for. Once shut down,
    /// the client stays so.
    pub fn shutdown(&mut self) -> (actions: Vec<Action>)
        ensures
            (final(self)@, actions.deep_view()) == model::shutdown(old(self)@),
            final(self).channel_name() == old(self).channel_name(),
    {
        match &self.state {
            State::Disconnected => {
                self.state = State::ShutDown;
                no_actions()
            },
            State::Connected { notifier, art: None } => {
                let mut actions = teardown_actions();
                if *notifier {
                    actions.push(Action::JoinNotifier);
                    assert(actions.deep_view() =~= model::teardown().push(ActionView::JoinNotifier));
                    self.state = State::Disconnecting { reconnect: None };
                } else {
                    self.state = State::ShutDown;
                }
                actions
            },
            _ => no_actions(),
        }
    }

    /// Fetches the player's status, if a command session is there to ask.
    pub fn get_status(&self) -> (actions: Vec<Action>)
        ensures
            actions.deep_view() == model::command(self@, ActionView::FetchStatus),
    {
        self.command(Action::FetchStatus)
    }

    /// Seeks within the current song to `position`, in milliseconds, if a
    /// command session is there to ask.
    pub fn seek_current_song(&self, position: u64) -> (actions: Vec<Action>)
        ensures
            actions.deep_view() == model::command(self@, ActionView::Seek(position)),
    {
        self.command(Action::Seek(position))
    }

    /// Fetches the songs of the queue, if a command session is there to ask.
    pub fn get_current_queue(&self) -> (actions: Vec<Action>)
        ensures
            actions.deep_view() == model::command(self@, ActionView::FetchQueue),
    {
        self.command(Action::FetchQueue)
    }

    /// Begins to fetch the artwork of the album in `folder_uri`: the cache is
    /// asked where it belongs. The download itself is queued when the cache
    /// has answered.
    pub fn get_album_art(&mut self, folder_uri: String) -> (actions: Vec<Action>)
        ensures
            (final(self)@, actions.deep_view()) == model::get_album_art(old(self)@, folder_uri@),
            final(self).channel_name() == old(self).channel_name(),
    {
        match &self.state {
            State::Connected { notifier, art: None } => {
                let actions = vec![Action::LookupArtPath(folder_uri.clone())];
                assert(actions.deep_view() =~= seq![ActionView::LookupArtPath(folder_uri@)]);
                self.state = State::Connected { notifier: *notifier, art: Some(folder_uri) };
                actions
            },
            _ => no_actions(),
        }
    }

    /// Reacts to changes on the daemon: the status is fetched again when the
    /// player changed, the queue when the queue changed. Other subsystems
    /// call for nothing.
    pub fn handle_idle_changes(&self, changes: &Vec<Subsystem>) -> (actions: Vec<Action>)
        ensures
            actions.deep_view() == if self@.ready() {
                model::reactions(changes@)
            } else {
                Seq::empty()
            },
    {
        let mut actions = no_actions();
        if !self.is_ready() {
            return actions;
        }
        let mut i: usize = 0;
        while i < changes.len()
            invariant
                i <= changes.len(),
                actions.deep_view() == model::reactions(changes@.take(i as int)),
            decreases changes.len() - i,
        {
            let ghost before = actions.deep_view();
            match changes[i] {
                Subsystem::Player => {
                    actions.push(Action::FetchStatus);
                },
                Subsystem::Queue => {
                    actions.push(Action::FetchQueue);
                },
                _ => {},
            }
            proof {
                let next = changes@.take(i + 1);
                assert(next.drop_last() =~= changes@.take(i as int));
                assert(next.last() == changes@[i as int]);
                assert(actions.deep_view() =~= before + model::reaction(changes@[i as int]));
            }
            i += 1;
        }
        assert(changes@.take(i as int) =~= changes@);
        actions
    }

    /// Handles one request. While an answer is awaited no request begins.
    pub fn respond(&mut self, request: MpdMessage) -> (actions: Vec<Action>)
        ensures
            (final(self)@, actions.deep_view()) == model::respond(old(self)@, request@),
            final(self).channel_name() == old(self).channel_name(),
    {
        match request {
            MpdMessage::Connect(host, port) => self.connect(host, port),
            MpdMessage::Status => self.get_status(),
            MpdMessage::Queue => self.get_current_queue(),
            MpdMessage::SeekCur(position) => self.seek_current_song(position),
            MpdMessage::AlbumArt(folder_uri) => self.get_album_art(folder_uri),
            MpdMessage::Idle(changes) => self.handle_idle_changes(&changes),
            MpdMessage::Play => no_actions(),
            MpdMessage::Toggle => no_actions(),
        }
    }

    /// Begins the oldest request of the inbox, if one waits and no answer is
    /// awaited for the request before it. Requests thus begin in the order
    /// in which they arrived, each when the one before it is done. Where
    /// nothing begins, nothing changes.
    pub fn serve_next(&mut self, inbox: &mut Inbox) -> (actions: Option<Vec<Action>>)
        ensures
            (final(self)@, final(inbox)@, actions.deep_view()) == serve(old(self)@, old(inbox)@),
            final(self).channel_name() == old(self).channel_name(),
    {
        if !self.is_settled() {
            return None;
        }
        match inbox.pop() {
            Some(request) => Some(self.respond(request)),
            None => None,
        }
    }

    /// Takes the answer to the action that was handed out last. An answer
    /// that is not awaited changes nothing.
    pub fn resume(&mut self, outcome: Outcome) -> (actions: Vec<Action>)
        ensures
            (final(self)@, actions.deep_view()) == model::resume(old(self)@, outcome@),
            final(self).channel_name() == old(self).channel_name(),
    {
        let mut actions = no_actions();
        let mut state = State::Disconnected;
        std::mem::swap(&mut self.state, &mut state);
        let (next, actions) = match (state, outcome) {
            (State::Disconnecting { reconnect: Some((host, port)) }, Outcome::NotifierJoined) => {
                push_open_session(&mut actions, host.clone(), port.clone());
                (State::OpeningSession { host, port }, actions)
            },
            (State::Disconnecting { reconnect: None }, Outcome::NotifierJoined) => (
                State::ShutDown,
                actions,
            ),
            (State::OpeningSession { host, port }, Outcome::SessionOpened(opened)) => {
                if opened {
                    push_action(&mut actions, Action::SubscribeWake);
                    push_action(&mut actions, Action::OpenNotifier(host, port));
                    assert(actions.deep_view() =~= seq![
                        ActionView::SubscribeWake,
                        ActionView::OpenNotifier(host@, port@),
                    ]);
                    (State::OpeningNotifier, actions)
                } else {
                    actions.push(Action::Report(Failure::ConnectFailed));
                    assert(actions.deep_view() =~= seq![ActionView::Report(Failure::ConnectFailed)]);
                    (State::Disconnected, actions)
                }
            },
            (State::OpeningNotifier, Outcome::NotifierOpened(opened)) => {
                if opened {
                    actions.push(Action::SpawnNotifier);
                    assert(actions.deep_view() =~= seq![ActionView::SpawnNotifier]);
                } else {
                    actions.push(Action::Report(Failure::NoLiveUpdates));
                    assert(actions.deep_view() =~= seq![ActionView::Report(Failure::NoLiveUpdates)]);
                }
                push_initial_sync(&mut actions);
                (State::Connected { notifier: opened, art: None }, actions)
            },
            (State::Connected { notifier, art: Some(key) }, Outcome::ArtPath(found)) => {
                match found {
                    Some(path) => {
                        push_action(
                            &mut actions,
                            Action::Enqueue(BackgroundTask::DownloadAlbumArt(key, path)),
                        );
                        push_action(&mut actions, Action::SendWake);
                        assert(actions.deep_view() =~= seq![
                            ActionView::Enqueue(model::TaskView::DownloadAlbumArt(key@, path@)),
                            ActionView::SendWake,
                        ]);
                    },
                    None => {},
                }
                (State::Connected { notifier, art: None }, actions)
            },
            (state, _) => (state, actions),
        };
        self.state = next;
        actions
    }
}

} // verus!
