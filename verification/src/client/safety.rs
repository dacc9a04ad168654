//! What holds of every history of the client: of the actions it hands out,
//! taken in order, whatever requests and answers it is given.

use vstd::prelude::*;
use crate::client::model::{
    connect, reaction, reactions, respond, resume, shutdown, ActionView, MessageView,
    OutcomeView, Phase, StateView, Subsystem,
};

verus! {

/// What the actions handed out so far have made of the client's surroundings.
pub struct World {
    /// Notification contexts that were started and have not been waited for.
    pub notifiers: nat,
    /// Whether the stop flag is raised.
    pub stop: bool,
    /// Whether the command session has been closed over a notification
    /// context that has not been waited for yet.
    pub orphaned: bool,
}

/// One thing that can happen to the client.
pub enum Input {
    Request(MessageView),
    Answer(OutcomeView),
    Shutdown,
}

impl World {
    /// The surroundings of a client that has done nothing yet.
    pub open spec fn initial() -> World {
        World { notifiers: 0, stop: false, orphaned: false }
    }

    /// The surroundings after one action.
    pub open spec fn perform(self, action: ActionView) -> World {
        match action {
            ActionView::RaiseStopFlag => World { stop: true, ..self },
            ActionView::LowerStopFlag => World { stop: false, ..self },
            ActionView::SpawnNotifier => World { notifiers: self.notifiers + 1, ..self },
            ActionView::JoinNotifier => World {
                notifiers: if self.notifiers > 0 {
                    (self.notifiers - 1) as nat
                } else {
                    0
                },
                orphaned: false,
                ..self
            },
            ActionView::CloseCommandSession => World { orphaned: self.notifiers > 0, ..self },
            _ => self,
        }
    }

    /// Whether an action is in order here:
    /// a notification context is started only when none is left and the stop
    /// flag is down; a command session is opened, and the stop flag lowered,
    /// only when no notification context is left; a context is waited for,
    /// and the command session of a running context closed, only with the
    /// stop flag raised; and once the command session has been closed over a
    /// notification context, nothing is done before that context has been
    /// waited for, so that neither session outlives the other.
    pub open spec fn allows(self, action: ActionView) -> bool {
        match action {
            ActionView::SpawnNotifier => self.notifiers == 0 && !self.stop && !self.orphaned,
            ActionView::OpenCommandSession(_, _) => self.notifiers == 0 && !self.orphaned,
            ActionView::LowerStopFlag => self.notifiers == 0 && !self.orphaned,
            ActionView::JoinNotifier => self.stop,
            ActionView::CloseCommandSession => !self.orphaned && (self.notifiers > 0
                ==> self.stop),
            _ => !self.orphaned,
        }
    }

    /// The surroundings after a list of actions.
    pub open spec fn run(self, actions: Seq<ActionView>) -> World
        decreases actions.len(),
    {
        if actions.len() == 0 {
            self
        } else {
            self.run(actions.drop_last()).perform(actions.last())
        }
    }

    /// Whether each action of a list is in order at the point where it is
    /// carried out.
    pub open spec fn orderly(self, actions: Seq<ActionView>) -> bool
        decreases actions.len(),
    {
        actions.len() == 0 || (self.orderly(actions.drop_last()) && self.run(
            actions.drop_last(),
        ).allows(actions.last()))
    }

    /// Whether the surroundings are what a client in state `s` takes them for.
    pub open spec fn mirrors(self, s: StateView) -> bool {
        &&& !self.orphaned
        &&& self.notifiers == if s.has_notifier() { 1nat } else { 0nat }
        &&& s is Disconnecting ==> self.stop
        &&& s.phase() == Phase::Connecting || s.phase() == Phase::Connected ==> !self.stop
    }
}

/// The client after one input, and the actions it hands out for it.
pub open spec fn step(s: StateView, input: Input) -> (StateView, Seq<ActionView>) {
    match input {
        Input::Request(m) => respond(s, m),
        Input::Answer(o) => resume(s, o),
        Input::Shutdown => shutdown(s),
    }
}

/// The client after a list of inputs, from the state `s`.
pub open spec fn state_after(s: StateView, inputs: Seq<Input>) -> StateView
    decreases inputs.len(),
{
    if inputs.len() == 0 {
        s
    } else {
        step(state_after(s, inputs.drop_last()), inputs.last()).0
    }
}

/// All the actions that the client hands out for a list of inputs, from the
/// state `s`, in the order in which it hands them out.
pub open spec fn history(s: StateView, inputs: Seq<Input>) -> Seq<ActionView>
    decreases inputs.len(),
{
    if inputs.len() == 0 {
        Seq::empty()
    } else {
        history(s, inputs.drop_last()) + step(state_after(s, inputs.drop_last()), inputs.last()).1
    }
}

/// One more action is carried out where the list before it has led.
pub proof fn lemma_run_push(w: World, actions: Seq<ActionView>, action: ActionView)
    ensures
        w.run(actions.push(action)) == w.run(actions).perform(action),
        w.orderly(actions.push(action)) == (w.orderly(actions) && w.run(actions).allows(action)),
{
    assert(actions.push(action).drop_last() =~= actions);
}

/// Carrying out two lists one after the other is carrying out the joined list.
pub proof fn lemma_run_concat(w: World, first: Seq<ActionView>, second: Seq<ActionView>)
    ensures
        w.run(first + second) == w.run(first).run(second),
        w.orderly(first + second) == (w.orderly(first) && w.run(first).orderly(second)),
    decreases second.len(),
{
    if second.len() == 0 {
        assert(first + second =~= first);
    } else {
        lemma_run_concat(w, first, second.drop_last());
        assert((first + second).drop_last() =~= first + second.drop_last());
        assert((first + second).last() == second.last());
    }
}

/// The short lists that the client hands out, action by action.
proof fn lemma_run_short(w: World, a: ActionView, b: ActionView, c: ActionView, d: ActionView)
    ensures
        w.run(Seq::empty()) == w,
        w.orderly(Seq::empty()),
        w.run(seq![a]) == w.perform(a),
        w.orderly(seq![a]) == w.allows(a),
        w.run(seq![a, b]) == w.perform(a).perform(b),
        w.orderly(seq![a, b]) == (w.allows(a) && w.perform(a).allows(b)),
        w.run(seq![a, b, c]) == w.perform(a).perform(b).perform(c),
        w.orderly(seq![a, b, c]) == (w.allows(a) && w.perform(a).allows(b) && w.perform(a).perform(
            b,
        ).allows(c)),
        w.run(seq![a, b, c, d]) == w.perform(a).perform(b).perform(c).perform(d),
        w.orderly(seq![a, b, c, d]) == (w.allows(a) && w.perform(a).allows(b) && w.perform(
            a,
        ).perform(b).allows(c) && w.perform(a).perform(b).perform(c).allows(d)),
{
    let e = Seq::<ActionView>::empty();
    lemma_run_push(w, e, a);
    lemma_run_push(w, e.push(a), b);
    lemma_run_push(w, e.push(a).push(b), c);
    lemma_run_push(w, e.push(a).push(b).push(c), d);
    assert(seq![a] =~= e.push(a));
    assert(seq![a, b] =~= e.push(a).push(b));
    assert(seq![a, b, c] =~= e.push(a).push(b).push(c));
    assert(seq![a, b, c, d] =~= e.push(a).push(b).push(c).push(d));
}

/// An action that changes nothing in the surroundings and is in order
/// wherever no notification context is orphaned.
pub open spec fn is_plain(action: ActionView) -> bool {
    !(action is RaiseStopFlag || action is LowerStopFlag || action is SpawnNotifier
        || action is JoinNotifier || action is OpenCommandSession
        || action is CloseCommandSession)
}

proof fn lemma_plain_run(w: World, actions: Seq<ActionView>)
    requires
        !w.orphaned,
        forall|i: int| 0 <= i < actions.len() ==> is_plain(#[trigger] actions[i]),
    ensures
        w.run(actions) == w,
        w.orderly(actions),
    decreases actions.len(),
{
    if actions.len() > 0 {
        let front = actions.drop_last();
        assert forall|i: int| 0 <= i < front.len() implies is_plain(#[trigger] front[i]) by {
            assert(front[i] == actions[i]);
        }
        lemma_plain_run(w, front);
        assert(is_plain(actions[actions.len() - 1]));
    }
}

/// A reaction to a change is a fetch, and nothing else.
proof fn lemma_reactions_fetch(changes: Seq<Subsystem>)
    ensures
        forall|i: int|
            0 <= i < reactions(changes).len() ==> (#[trigger] reactions(changes)[i]) is FetchQueue
                || reactions(changes)[i] is FetchStatus,
    decreases changes.len(),
{
    if changes.len() > 0 {
        let front = reactions(changes.drop_last());
        let back = reaction(changes.last());
        lemma_reactions_fetch(changes.drop_last());
        assert(reactions(changes) == front + back);
        assert forall|i: int| 0 <= i < reactions(changes).len() implies (#[trigger] reactions(
            changes,
        )[i]) is FetchQueue || reactions(changes)[i] is FetchStatus by {
            if i < front.len() {
                assert(reactions(changes)[i] == front[i]);
            } else {
                assert(reactions(changes)[i] == back[i - front.len()]);
            }
        }
    }
}

proof fn lemma_connect_keeps_order(s: StateView, w: World, host: Seq<char>, port: Seq<char>)
    requires
        w.mirrors(s),
    ensures
        w.orderly(connect(s, host, port).1),
        w.run(connect(s, host, port).1).mirrors(connect(s, host, port).0),
{
    let raise = ActionView::RaiseStopFlag;
    let close = ActionView::CloseCommandSession;
    let lower = ActionView::LowerStopFlag;
    let open = ActionView::OpenCommandSession(host, port);
    let join = ActionView::JoinNotifier;
    lemma_run_short(w, lower, open, raise, raise);
    lemma_run_short(w, raise, close, join, raise);
    lemma_run_short(w, raise, close, lower, open);
    assert(seq![raise, close].push(join) =~= seq![raise, close, join]);
    assert(seq![raise, close] + seq![lower, open] =~= seq![raise, close, lower, open]);
}

proof fn lemma_shutdown_keeps_order(s: StateView, w: World)
    requires
        w.mirrors(s),
    ensures
        w.orderly(shutdown(s).1),
        w.run(shutdown(s).1).mirrors(shutdown(s).0),
{
    let raise = ActionView::RaiseStopFlag;
    let close = ActionView::CloseCommandSession;
    let join = ActionView::JoinNotifier;
    lemma_run_short(w, raise, close, join, raise);
    assert(seq![raise, close].push(join) =~= seq![raise, close, join]);
}

proof fn lemma_respond_keeps_order(s: StateView, w: World, m: MessageView)
    requires
        w.mirrors(s),
    ensures
        w.orderly(respond(s, m).1),
        w.run(respond(s, m).1).mirrors(respond(s, m).0),
{
    match m {
        MessageView::Connect(host, port) => {
            lemma_connect_keeps_order(s, w, host, port);
        },
        MessageView::Idle(changes) => {
            lemma_reactions_fetch(changes);
            lemma_plain_run(w, respond(s, m).1);
        },
        _ => {
            lemma_plain_run(w, respond(s, m).1);
        },
    }
}

proof fn lemma_resume_keeps_order(s: StateView, w: World, o: OutcomeView)
    requires
        w.mirrors(s),
    ensures
        w.orderly(resume(s, o).1),
        w.run(resume(s, o).1).mirrors(resume(s, o).0),
{
    let actions = resume(s, o).1;
    match (s, o) {
        (StateView::Disconnecting { reconnect: Some((host, port)) }, OutcomeView::NotifierJoined) => {
            let lower = ActionView::LowerStopFlag;
            lemma_run_short(w, lower, ActionView::OpenCommandSession(host, port), lower, lower);
        },
        (StateView::OpeningNotifier, OutcomeView::NotifierOpened(opened)) => {
            let queue = ActionView::FetchQueue;
            let status = ActionView::FetchStatus;
            if opened {
                lemma_run_short(w, ActionView::SpawnNotifier, queue, status, status);
                assert(actions =~= seq![ActionView::SpawnNotifier, queue, status]);
            } else {
                lemma_plain_run(w, actions);
            }
        },
        _ => {
            lemma_plain_run(w, actions);
        },
    }
}

/// One input leaves the surroundings in order: each action handed out for it
/// is in order where it is carried out, and the surroundings afterwards are
/// what the client takes them for.
pub proof fn lemma_step_keeps_order(s: StateView, w: World, input: Input)
    requires
        w.mirrors(s),
    ensures
        w.orderly(step(s, input).1),
        w.run(step(s, input).1).mirrors(step(s, input).0),
{
    match input {
        Input::Request(m) => lemma_respond_keeps_order(s, w, m),
        Input::Answer(o) => lemma_resume_keeps_order(s, w, o),
        Input::Shutdown => lemma_shutdown_keeps_order(s, w),
    }
}

/// Every history is in order: whatever requests and answers a fresh client
/// is given, each action it hands out is in order at the point where it is
/// carried out.
pub proof fn lemma_history_is_orderly(inputs: Seq<Input>)
    ensures
        World::initial().orderly(history(StateView::Disconnected, inputs)),
        World::initial().run(history(StateView::Disconnected, inputs)).mirrors(
            state_after(StateView::Disconnected, inputs),
        ),
    decreases inputs.len(),
{
    let w = World::initial();
    let s = StateView::Disconnected;
    if inputs.len() > 0 {
        let before = inputs.drop_last();
        lemma_history_is_orderly(before);
        lemma_step_keeps_order(state_after(s, before), w.run(history(s, before)), inputs.last());
        lemma_run_concat(w, history(s, before), step(state_after(s, before), inputs.last()).1);
    }
}

/// In a list of actions that is in order, no point is reached at which two
/// notification contexts are left.
pub proof fn lemma_orderly_bounds_notifiers(w: World, actions: Seq<ActionView>, k: int)
    requires
        w.notifiers <= 1,
        w.orderly(actions),
        0 <= k <= actions.len(),
    ensures
        w.orderly(actions.take(k)),
        w.run(actions.take(k)).notifiers <= 1,
    decreases actions.len(),
{
    if k == actions.len() {
        assert(actions.take(k) =~= actions);
        if actions.len() > 0 {
            lemma_orderly_bounds_notifiers(w, actions.drop_last(), k - 1);
            assert(actions.drop_last().take(k - 1) =~= actions.drop_last());
        }
    } else {
        lemma_orderly_bounds_notifiers(w, actions.drop_last(), k);
        assert(actions.drop_last().take(k) =~= actions.take(k));
    }
}

/// At most one notification context lives at any time: whatever requests and
/// answers a fresh client is given, at no point of its history have two
/// contexts been started and not waited for.
pub proof fn lemma_at_most_one_notifier(inputs: Seq<Input>, k: int)
    requires
        0 <= k <= history(StateView::Disconnected, inputs).len(),
    ensures
        World::initial().run(history(StateView::Disconnected, inputs).take(k)).notifiers <= 1,
{
    lemma_history_is_orderly(inputs);
    lemma_orderly_bounds_notifiers(
        World::initial(),
        history(StateView::Disconnected, inputs),
        k,
    );
}

/// A reconnect tears down before it builds up: wherever a history opens a
/// command session or starts a notification context, every context started
/// before has been waited for.
pub proof fn lemma_joined_before_reopening(inputs: Seq<Input>, k: int)
    requires
        0 <= k < history(StateView::Disconnected, inputs).len(),
        history(StateView::Disconnected, inputs)[k] is OpenCommandSession || history(
            StateView::Disconnected,
            inputs,
        )[k] is SpawnNotifier,
    ensures
        World::initial().run(history(StateView::Disconnected, inputs).take(k)).notifiers == 0,
{
    let w = World::initial();
    let h = history(StateView::Disconnected, inputs);
    lemma_history_is_orderly(inputs);
    lemma_orderly_bounds_notifiers(w, h, k + 1);
    assert(h.take(k + 1).drop_last() =~= h.take(k));
    assert(h.take(k + 1).last() == h[k]);
}

/// Shutting down twice is shutting down once: the second call asks for
/// nothing and changes nothing.
pub proof fn lemma_shutdown_is_idempotent(s: StateView)
    ensures
        shutdown(shutdown(s).0) == (shutdown(s).0, Seq::<ActionView>::empty()),
{
}

/// With no session open, shutting down asks for nothing, and the client is
/// shut down for good: no request or answer brings it back.
pub proof fn lemma_shutdown_is_final(input: Input)
    ensures
        shutdown(StateView::Disconnected) == (StateView::ShutDown, Seq::<ActionView>::empty()),
        step(StateView::ShutDown, input) == (StateView::ShutDown, Seq::<ActionView>::empty()),
{
    match input {
        Input::Request(MessageView::Idle(changes)) => {},
        _ => {},
    }
}

/// A teardown ends shut down: once the client has been told to shut down,
/// the answer that the notification context has ended leaves it shut down.
pub proof fn lemma_shutdown_completes(s: StateView)
    requires
        s.settled(),
    ensures
        shutdown(s).0 is ShutDown || (shutdown(s).0 is Disconnecting && resume(
            shutdown(s).0,
            OutcomeView::NotifierJoined,
        ) == (StateView::ShutDown, Seq::<ActionView>::empty())),
{
}

/// Whether the last action of a list, and no other, has an answer that the
/// client in state `s` waits for; or none has, and the client waits for
/// nothing.
pub open spec fn ends_as_awaited(s: StateView, actions: Seq<ActionView>) -> bool {
    &&& forall|i: int| 0 <= i < actions.len() - 1 ==> !(#[trigger] actions[i]).awaits_answer()
    &&& s.settled() ==> actions.len() == 0 || !actions.last().awaits_answer()
    &&& !s.settled() ==> actions.len() > 0 && s.awaits(actions.last())
        && actions.last().awaits_answer()
}

/// The actions say what is awaited. For a request that begins, and for an
/// answer that was due, the client hands out a list in which at most the
/// last action has an answer; it then waits for that answer and no other,
/// and where no action has one, the next request can begin.
pub proof fn lemma_last_action_is_awaited(s: StateView, input: Input)
    requires
        match input {
            Input::Request(_) => s.settled(),
            Input::Answer(o) => s.expects(o),
            Input::Shutdown => s.settled(),
        },
    ensures
        ends_as_awaited(step(s, input).0, step(s, input).1),
{
    let after = step(s, input).0;
    let actions = step(s, input).1;
    match input {
        Input::Request(MessageView::Idle(changes)) => {
            lemma_reactions_fetch(changes);
            if actions.len() > 0 {
                assert(!actions[actions.len() - 1].awaits_answer());
            }
        },
        _ => {},
    }
}

/// Whether each job that a list of actions queues is followed at once by a
/// message on the wake channel.
pub open spec fn wakes_after_enqueue(actions: Seq<ActionView>) -> bool {
    forall|k: int|
        0 <= k < actions.len() && (#[trigger] actions[k]) is Enqueue ==> k + 1 < actions.len()
            && actions[k + 1] is SendWake
}

proof fn lemma_step_wakes_after_enqueue(s: StateView, input: Input)
    ensures
        wakes_after_enqueue(step(s, input).1),
{
    let actions = step(s, input).1;
    match input {
        Input::Request(MessageView::Idle(changes)) => {
            lemma_reactions_fetch(changes);
            assert forall|k: int| 0 <= k < actions.len() implies !((#[trigger] actions[k]) is Enqueue) by {
                assert(actions == reactions(changes));
            }
        },
        _ => {},
    }
}

/// No job is queued without a wake: whatever requests and answers a client
/// is given, each job that it has queued is followed at once by a message on
/// the wake channel, so that a notification session that sleeps in the idle
/// wait comes back and finds the job.
pub proof fn lemma_every_enqueue_is_followed_by_wake(s: StateView, inputs: Seq<Input>)
    ensures
        wakes_after_enqueue(history(s, inputs)),
    decreases inputs.len(),
{
    if inputs.len() > 0 {
        let before = history(s, inputs.drop_last());
        let last = step(state_after(s, inputs.drop_last()), inputs.last()).1;
        lemma_every_enqueue_is_followed_by_wake(s, inputs.drop_last());
        lemma_step_wakes_after_enqueue(state_after(s, inputs.drop_last()), inputs.last());
        let all = before + last;
        assert forall|k: int| 0 <= k < all.len() && (#[trigger] all[k]) is Enqueue implies k + 1
            < all.len() && all[k + 1] is SendWake by {
            if k < before.len() {
                assert(before[k] is Enqueue);
                assert(all[k + 1] == before[k + 1]);
            } else {
                assert(last[k - before.len()] is Enqueue);
                assert(all[k + 1] == last[k - before.len() + 1]);
            }
        }
    }
}

/// The most answers that a client in state `s` still waits for before the
/// next request can begin.
pub open spec fn answers_left(s: StateView) -> nat {
    match s {
        StateView::Disconnecting { reconnect: Some(_) } => 3,
        StateView::Disconnecting { reconnect: None } => 1,
        StateView::OpeningSession { .. } => 2,
        StateView::OpeningNotifier => 1,
        StateView::Connected { art: Some(_), .. } => 1,
        _ => 0,
    }
}

/// Every request comes to an end. The next request can begin just when no
/// answer is left to wait for; each answer that was due leaves fewer to
/// wait for; so a request is done after three answers at most.
pub proof fn lemma_requests_come_to_an_end(s: StateView, o: OutcomeView)
    ensures
        s.settled() <==> answers_left(s) == 0,
        answers_left(s) <= 3,
        s.expects(o) ==> answers_left(resume(s, o).0) < answers_left(s),
{
}

} // verus!
