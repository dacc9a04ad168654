//! The client's inbox: requests wait here in the order in which they
//! arrived, and are begun one at a time.

use std::collections::VecDeque;
use vstd::prelude::*;
use crate::client::message::MpdMessage;
use crate::client::model::{respond, resume, ActionView, MessageView, OutcomeView, StateView};

verus! {

/// Requests that have arrived and not yet begun, oldest first.
#[derive(Debug)]
pub struct Inbox {
    messages: VecDeque<MpdMessage>,
}

impl View for Inbox {
    type V = Seq<MessageView>;

    closed spec fn view(&self) -> Seq<MessageView> {
        self.messages.deep_view()
    }
}

impl Inbox {
    /// An empty inbox.
    pub fn new() -> (inbox: Inbox)
        ensures
            inbox@ == Seq::<MessageView>::empty(),
    {
        let inbox = Inbox { messages: VecDeque::new() };
        assert(inbox@ =~= Seq::<MessageView>::empty());
        inbox
    }

    /// How many requests wait.
    pub fn len(&self) -> (len: usize)
        ensures
            len == self@.len(),
    {
        self.messages.len()
    }

    pub fn is_empty(&self) -> (empty: bool)
        ensures
            empty == (self@.len() == 0),
    {
        self.messages.len() == 0
    }

    /// Puts a request behind those that wait. This never blocks and never
    /// fails.
    pub fn push(&mut self, message: MpdMessage)
        ensures
            final(self)@ == old(self)@.push(message@),
    {
        self.messages.push_back(message);
        assert(self@ =~= old(self)@.push(message@));
    }

    /// Takes the oldest request, if one waits.
    pub fn pop(&mut self) -> (message: Option<MpdMessage>)
        ensures
            old(self)@.len() == 0 ==> message is None && final(self)@ == old(self)@,
            old(self)@.len() > 0 ==> message is Some && message->0@ == old(self)@[0],
            old(self)@.len() > 0 ==> final(self)@ == old(self)@.skip(1),
    {
        let message = self.messages.pop_front();
        assert(message is Some ==> self@ =~= old(self)@.skip(1));
        message
    }
}

/// What becomes of the client and its inbox when the client is offered the
/// oldest request. The request begins if one waits and no answer is awaited
/// for the request before it; the actions are those that belong to it, and
/// it has left the inbox. Else nothing begins and nothing changes.
pub open spec fn serve(state: StateView, inbox: Seq<MessageView>) -> (
    StateView,
    Seq<MessageView>,
    Option<Seq<ActionView>>,
) {
    if state.settled() && inbox.len() > 0 {
        (respond(state, inbox[0]).0, inbox.skip(1), Some(respond(state, inbox[0]).1))
    } else {
        (state, inbox, None)
    }
}

/// One thing that happens at the inbox.
pub enum RouterEvent {
    /// A request arrives.
    Post(MessageView),
    /// The client is offered the oldest request.
    Serve,
    /// The client is given an answer.
    Answer(OutcomeView),
}

/// The client with its inbox, and a record of what has happened.
pub struct RouterView {
    pub state: StateView,
    /// The requests that wait, oldest first.
    pub inbox: Seq<MessageView>,
    /// Every request that has arrived, in the order of arrival.
    pub posted: Seq<MessageView>,
    /// Every request that has begun, in the order in which they began.
    pub begun: Seq<MessageView>,
    /// Every action handed out, in order.
    pub actions: Seq<ActionView>,
}

impl RouterView {
    /// A client with the requests `waiting` in its inbox and nothing done yet.
    pub open spec fn start(state: StateView, waiting: Seq<MessageView>) -> RouterView {
        RouterView {
            state,
            inbox: waiting,
            posted: waiting,
            begun: Seq::empty(),
            actions: Seq::empty(),
        }
    }

    /// The client and its inbox after one event.
    pub open spec fn next(self, event: RouterEvent) -> RouterView {
        match event {
            RouterEvent::Post(m) => RouterView {
                inbox: self.inbox.push(m),
                posted: self.posted.push(m),
                ..self
            },
            RouterEvent::Serve => match serve(self.state, self.inbox).2 {
                Some(actions) => RouterView {
                    state: serve(self.state, self.inbox).0,
                    inbox: serve(self.state, self.inbox).1,
                    begun: self.begun.push(self.inbox[0]),
                    actions: self.actions + actions,
                    ..self
                },
                None => self,
            },
            RouterEvent::Answer(o) => RouterView {
                state: resume(self.state, o).0,
                actions: self.actions + resume(self.state, o).1,
                ..self
            },
        }
    }

    /// The client and its inbox after a list of events.
    pub open spec fn after(self, events: Seq<RouterEvent>) -> RouterView
        decreases events.len(),
    {
        if events.len() == 0 {
            self
        } else {
            self.after(events.drop_last()).next(events.last())
        }
    }
}

/// Requests begin in the order in which they arrived: at every point, the
/// requests that have begun, followed by those that wait, are the requests
/// that arrived. None is skipped, none begins twice, none overtakes another.
pub proof fn lemma_requests_begin_in_order(
    state: StateView,
    waiting: Seq<MessageView>,
    events: Seq<RouterEvent>,
)
    ensures
        ({
            let now = RouterView::start(state, waiting).after(events);
            now.posted == now.begun + now.inbox
        }),
    decreases events.len(),
{
    let start = RouterView::start(state, waiting);
    if events.len() == 0 {
        assert(start.posted =~= start.begun + start.inbox);
    } else {
        lemma_requests_begin_in_order(state, waiting, events.drop_last());
        let before = start.after(events.drop_last());
        let now = before.next(events.last());
        assert(now.posted =~= now.begun + now.inbox);
    }
}

/// A request begins only when the one before it is done: an event begins a
/// request only if no answer was awaited, and then it is the oldest one that
/// begins, with the actions that belong to it.
pub proof fn lemma_one_request_at_a_time(r: RouterView, event: RouterEvent)
    ensures
        r.next(event).begun != r.begun ==> r.state.settled() && r.inbox.len() > 0 && r.next(
            event,
        ).begun == r.begun.push(r.inbox[0]) && r.next(event).actions == r.actions + respond(
            r.state,
            r.inbox[0],
        ).1,
        !r.state.settled() ==> r.next(RouterEvent::Serve) == r,
{
    if r.next(event).begun != r.begun {
        assert(event is Serve);
        assert(serve(r.state, r.inbox).2 is Some);
    }
}

/// Of two requests, the one that arrived first begins first: if `first`
/// arrives and then `second`, `second` has not begun at any point at which
/// `first` still waits.
pub proof fn lemma_first_come_first_served(
    state: StateView,
    first: MessageView,
    second: MessageView,
    events: Seq<RouterEvent>,
)
    ensures
        ({
            let now = RouterView::start(state, seq![first, second]).after(events);
            now.begun.len() >= 2 ==> now.begun[0] == first && now.begun[1] == second
        }),
        ({
            let now = RouterView::start(state, seq![first, second]).after(events);
            now.begun.len() == 1 ==> now.begun[0] == first && now.inbox.len() >= 1 && now.inbox[0]
                == second
        }),
{
    lemma_requests_begin_in_order(state, seq![first, second], events);
    lemma_posted_extends(state, seq![first, second], events);
    let now = RouterView::start(state, seq![first, second]).after(events);
    assert(now.posted[0] == first && now.posted[1] == second);
    assert(now.posted == now.begun + now.inbox);
    if now.begun.len() >= 2 {
        assert(now.posted[0] == now.begun[0]);
        assert(now.posted[1] == now.begun[1]);
    }
    if now.begun.len() == 1 {
        assert(now.posted[0] == now.begun[0]);
        assert(now.posted[1] == now.inbox[0]);
    }
}

/// The record of arrivals only grows at its end.
pub proof fn lemma_posted_extends(
    state: StateView,
    waiting: Seq<MessageView>,
    events: Seq<RouterEvent>,
)
    ensures
        waiting.is_prefix_of(RouterView::start(state, waiting).after(events).posted),
    decreases events.len(),
{
    if events.len() > 0 {
        lemma_posted_extends(state, waiting, events.drop_last());
    }
}

} // verus!
