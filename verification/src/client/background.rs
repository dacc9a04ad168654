//! The notification session's side: the work queue, and what the session's
//! context does at each turn of its loop.
//!
//! At each turn the context stops if it has been told to; else it runs one
//! queued job, if one waits; else it goes into the daemon's idle wait. It
//! never goes to sleep over work that waits.

use std::collections::VecDeque;
use vstd::prelude::*;
use crate::client::message::{BackgroundTask, MpdMessage};
use crate::client::model::{Failure, MessageView, Subsystem, TaskView};
use crate::text::same_text;

verus! {

/// Jobs that wait for the notification session's context, oldest first.
#[derive(Debug)]
pub struct WorkQueue {
    tasks: VecDeque<BackgroundTask>,
}

impl View for WorkQueue {
    type V = Seq<TaskView>;

    closed spec fn view(&self) -> Seq<TaskView> {
        self.tasks.deep_view()
    }
}

impl WorkQueue {
    /// An empty queue.
    pub fn new() -> (queue: WorkQueue)
        ensures
            queue@ == Seq::<TaskView>::empty(),
    {
        let queue = WorkQueue { tasks: VecDeque::new() };
        assert(queue@ =~= Seq::<TaskView>::empty());
        queue
    }

    /// How many jobs wait.
    pub fn len(&self) -> (len: usize)
        ensures
            len == self@.len(),
    {
        self.tasks.len()
    }

    pub fn is_empty(&self) -> (empty: bool)
        ensures
            empty == (self@.len() == 0),
    {
        self.tasks.len() == 0
    }

    /// Puts a job behind those that wait. This never blocks and never fails.
    pub fn enqueue(&mut self, task: BackgroundTask)
        ensures
            final(self)@ == old(self)@.push(task@),
    {
        self.tasks.push_back(task);
        assert(self@ =~= old(self)@.push(task@));
    }

    /// Takes the oldest job, if one waits.
    pub fn dequeue(&mut self) -> (task: Option<BackgroundTask>)
        ensures
            old(self)@.len() == 0 ==> task is None && final(self)@ == old(self)@,
            old(self)@.len() > 0 ==> task is Some && task->0@ == old(self)@[0],
            old(self)@.len() > 0 ==> final(self)@ == old(self)@.skip(1),
    {
        let task = self.tasks.pop_front();
        assert(task is Some ==> self@ =~= old(self)@.skip(1));
        task
    }
}

/// What the context does at one turn of its loop, by what it holds.
pub enum StepView {
    Terminate,
    RunTask(TaskView),
    Idle,
}

/// What the context does at one turn of its loop.
#[derive(Clone, Debug, PartialEq, Eq)]
pub enum LoopStep {
    /// Close the connection and end the context.
    Terminate,
    /// Run this job, then take the next turn.
    RunTask(BackgroundTask),
    /// Wait in the daemon's idle wait until something changes, then hand in
    /// what came back.
    Idle,
}

impl View for LoopStep {
    type V = StepView;

    open spec fn view(&self) -> StepView {
        match self {
            LoopStep::Terminate => StepView::Terminate,
            LoopStep::RunTask(task) => StepView::RunTask(task@),
            LoopStep::Idle => StepView::Idle,
        }
    }
}

/// One turn of the loop: what is done, and the queue that is left.
pub open spec fn turn(stop: bool, queue: Seq<TaskView>) -> (StepView, Seq<TaskView>) {
    if stop {
        (StepView::Terminate, queue)
    } else if queue.len() > 0 {
        (StepView::RunTask(queue[0]), queue.skip(1))
    } else {
        (StepView::Idle, queue)
    }
}

/// The queue after `n` turns at which nothing asked the context to stop.
pub open spec fn queue_after(queue: Seq<TaskView>, n: nat) -> Seq<TaskView>
    decreases n,
{
    if n == 0 {
        queue
    } else {
        turn(false, queue_after(queue, (n - 1) as nat)).1
    }
}

/// What is done at turn `n`, counted from 0, where nothing asks the context
/// to stop.
pub open spec fn step_at(queue: Seq<TaskView>, n: nat) -> StepView {
    turn(false, queue_after(queue, n)).0
}

/// The payload on the wake channel that asks the context to stop.
pub open spec fn stop_payload() -> Seq<char> {
    "STOP"@
}

/// The payload that is sent on the wake channel to end an idle wait.
pub open spec fn wake_payload() -> Seq<char> {
    "WAKE"@
}

/// A message that wakes the context does not ask it to stop.
pub proof fn lemma_wake_is_no_stop_request()
    ensures
        wake_payload() != stop_payload(),
{
    reveal_strlit("WAKE");
    reveal_strlit("STOP");
    assert("WAKE"@[0] == 'W');
    assert("STOP"@[0] == 'S');
}

/// Whether one of the messages read from the wake channel asks the context
/// to stop.
pub open spec fn asks_to_stop(payloads: Seq<Seq<char>>) -> bool {
    exists|i: int| 0 <= i < payloads.len() && #[trigger] payloads[i] == stop_payload()
}

/// Queued work is drained before the context sleeps: with `queue` waiting
/// and no request to stop, the context runs each job once, oldest first, and
/// only then goes into the idle wait, with nothing left in the queue.
pub proof fn lemma_work_drained_before_idle(queue: Seq<TaskView>, n: nat)
    requires
        n <= queue.len(),
    ensures
        queue_after(queue, n) == queue.skip(n as int),
        n < queue.len() ==> step_at(queue, n) == StepView::RunTask(queue[n as int]),
        n == queue.len() ==> step_at(queue, n) == StepView::Idle && queue_after(queue, n).len()
            == 0,
    decreases n,
{
    if n == 0 {
        assert(queue.skip(0) =~= queue);
    } else {
        lemma_work_drained_before_idle(queue, (n - 1) as nat);
        assert(queue.skip(n - 1).skip(1) =~= queue.skip(n as int));
    }
}

/// The state of the notification session's context between turns.
#[derive(Debug)]
pub struct NotificationSession {
    stopping: bool,
}

impl NotificationSession {
    /// Whether the context has decided by itself to stop: it was asked to
    /// over the wake channel, or the idle wait failed.
    pub closed spec fn stopping(&self) -> bool {
        self.stopping
    }

    /// A context that has just been started.
    pub fn new() -> (session: NotificationSession)
        ensures
            !session.stopping(),
    {
        NotificationSession { stopping: false }
    }

    pub fn is_stopping(&self) -> (stopping: bool)
        ensures
            stopping == self.stopping(),
    {
        self.stopping
    }

    /// Decides the next turn. `stop_flag` is the flag by which the client
    /// tells the context to stop. A context that has been told to stop, by
    /// the flag or by itself, has taken its last turn: whatever is asked of
    /// it afterwards, it stops again.
    pub fn next_step(&mut self, stop_flag: bool, queue: &mut WorkQueue) -> (step: LoopStep)
        ensures
            (step@, final(queue)@) == turn(stop_flag || old(self).stopping(), old(queue)@),
            final(self).stopping() == (stop_flag || old(self).stopping()),
    {
        if stop_flag || self.stopping {
            self.stopping = true;
            return LoopStep::Terminate;
        }
        match queue.dequeue() {
            Some(task) => LoopStep::RunTask(task),
            None => LoopStep::Idle,
        }
    }

    /// Takes the end of a job. A job that failed is reported; it does not
    /// stop the context, which takes its next turn as after any job.
    pub fn task_finished(&self, succeeded: bool) -> (report: Option<Failure>)
        ensures
            report == if succeeded {
                None
            } else {
                Some(Failure::TaskFailed)
            },
    {
        if succeeded {
            None
        } else {
            Some(Failure::TaskFailed)
        }
    }

    /// Whether the messages on the wake channel have to be read after an
    /// idle wait that came back with `changes`.
    pub fn must_read_messages(changes: &Vec<Subsystem>) -> (read: bool)
        ensures
            read == changes@.contains(Subsystem::Message),
    {
        let mut i: usize = 0;
        while i < changes.len()
            invariant
                i <= changes.len(),
                forall|j: int| 0 <= j < i ==> changes@[j] != Subsystem::Message,
            decreases changes.len() - i,
        {
            if changes[i] == Subsystem::Message {
                return true;
            }
            i += 1;
        }
        false
    }

    /// The payload to send on the wake channel when a job has been queued.
    pub fn wake_message() -> (payload: &'static str)
        ensures
            payload@ == wake_payload(),
    {
        "WAKE"
    }

    /// Whether a message read from the wake channel asks the context to stop.
    pub fn is_stop_request(payload: &str) -> (stop: bool)
        ensures
            stop == (payload@ == stop_payload()),
    {
        same_text(payload, "STOP")
    }

    /// Takes what an idle wait came back with: the subsystems that changed,
    /// and the messages read from the wake channel (none, where none had to
    /// be read). The changes are passed on to the client as they are. A
    /// message that asks to stop makes the next turn the last.
    pub fn idle_returned(&mut self, changes: Vec<Subsystem>, payloads: &Vec<String>) -> (message:
        MpdMessage)
        ensures
            message@ == MessageView::Idle(changes@),
            final(self).stopping() == (old(self).stopping() || asks_to_stop(payloads.deep_view())),
    {
        let mut i: usize = 0;
        let mut asked = false;
        while i < payloads.len()
            invariant
                i <= payloads.len(),
                asked == asks_to_stop(payloads.deep_view().take(i as int)),
            decreases payloads.len() - i,
        {
            let stop = Self::is_stop_request(payloads[i].as_str());
            proof {
                let seen = payloads.deep_view().take(i as int);
                let next = payloads.deep_view().take(i + 1);
                assert(next[i as int] == payloads[i as int]@);
                if asks_to_stop(seen) {
                    let j = choose|j: int| 0 <= j < seen.len() && #[trigger] seen[j] == stop_payload();
                    assert(next[j] == stop_payload());
                }
                if asks_to_stop(next) && !stop {
                    let j = choose|j: int| 0 <= j < next.len() && #[trigger] next[j] == stop_payload();
                    assert(seen[j] == stop_payload());
                }
            }
            asked = asked || stop;
            i += 1;
        }
        assert(payloads.deep_view().take(i as int) =~= payloads.deep_view());
        if asked {
            self.stopping = true;
        }
        MpdMessage::Idle(changes)
    }

    /// Takes the failure of an idle wait: the next turn is the last.
    pub fn idle_failed(&mut self)
        ensures
            final(self).stopping(),
    {
        self.stopping = true;
    }
}

} // verus!
