//! The task queue and its consumer: tasks wait in the order in which they
//! were accepted, and one consumer takes them one at a time.

use vstd::prelude::*;
use crate::options::ActionOptions;

verus! {

/// A message of the front end: the conversation it is in, and its number
/// there.
#[derive(Debug, Clone, Copy, PartialEq, Eq)]
pub struct MessageRef {
    pub chat: i64,
    pub message: i32,
}

/// A piece of accepted work. Each task knows the message that asked for it
/// and the message on which its progress is shown.
#[derive(Debug)]
pub enum Task {
    /// Fetch the media that the message refers to.
    DownloadRequest { origin: MessageRef, status: MessageRef },
    /// Run the fixers in these places on the media of the message.
    FixRequest { origin: MessageRef, fixers: Vec<usize>, status: MessageRef },
    /// Run the action in this place, with these options, on the media of
    /// the message.
    ActionRequest { origin: MessageRef, action: usize, options: ActionOptions, status: MessageRef },
}

impl Task {
    /// The message on which progress is shown.
    pub open spec fn status_sink(self) -> MessageRef {
        match self {
            Task::DownloadRequest { origin, status } => status,
            Task::FixRequest { origin, fixers, status } => status,
            Task::ActionRequest { origin, action, options, status } => status,
        }
    }

    /// A task to fetch the media that `origin` refers to.
    pub fn download_request(origin: MessageRef, status: MessageRef) -> (task: Task)
        ensures
            task == (Task::DownloadRequest { origin, status }),
    {
        Task::DownloadRequest { origin, status }
    }

    /// A task to run `fixers` on the media of `origin`.
    pub fn fix_request(origin: MessageRef, fixers: Vec<usize>, status: MessageRef) -> (task: Task)
        ensures
            task == (Task::FixRequest { origin, fixers, status }),
    {
        Task::FixRequest { origin, fixers, status }
    }

    /// A task to run `action` with `options` on the media of `origin`.
    pub fn action_request(
        origin: MessageRef,
        action: usize,
        options: ActionOptions,
        status: MessageRef,
    ) -> (task: Task)
        ensures
            task == (Task::ActionRequest { origin, action, options, status }),
    {
        Task::ActionRequest { origin, action, options, status }
    }

    /// The message on which progress is shown.
    pub fn status(&self) -> (sink: MessageRef)
        ensures
            sink == self.status_sink(),
    {
        match self {
            Task::DownloadRequest { origin, status } => *status,
            Task::FixRequest { origin, fixers, status } => *status,
            Task::ActionRequest { origin, action, options, status } => *status,
        }
    }
}

/// The unbounded queue of the crate `deadqueue`.
#[verifier::external_type_specification]
#[verifier::external_body]
#[verifier::reject_recursive_types(T)]
pub struct ExQueue<T>(deadqueue::unlimited::Queue<T>);

/// The tasks that wait in a queue, the one that waits longest first.
pub uninterp spec fn waiting(queue: deadqueue::unlimited::Queue<Task>) -> Seq<Task>;

/// `Queue::new`: a queue in which nothing waits.
#[verifier::external_body]
fn queue_new() -> (queue: deadqueue::unlimited::Queue<Task>)
    ensures
        waiting(queue) == Seq::<Task>::empty(),
{
    deadqueue::unlimited::Queue::new()
}

/// `Queue::push` on a queue that the caller holds alone: the task waits
/// behind all that waited before. The call does not wait and cannot fail.
#[verifier::external_body]
fn queue_push(queue: &mut deadqueue::unlimited::Queue<Task>, task: Task)
    ensures
        waiting(*final(queue)) == waiting(*old(queue)).push(task),
{
    queue.push(task)
}

/// `Queue::try_pop` on a queue that the caller holds alone: the task that
/// waited longest leaves the queue and is returned; where nothing waits,
/// the queue stays as it is and nothing is returned.
#[verifier::external_body]
fn queue_try_pop(queue: &mut deadqueue::unlimited::Queue<Task>) -> (task: Option<Task>)
    ensures
        match task {
            Some(t) => waiting(*old(queue)).len() > 0 && t == waiting(*old(queue))[0] && waiting(
                *final(queue),
            ) == waiting(*old(queue)).drop_first(),
            None => waiting(*old(queue)).len() == 0 && waiting(*final(queue)) == waiting(*old(queue)),
        },
{
    queue.try_pop()
}

/// `Queue::len`: how many tasks wait.
#[verifier::external_body]
fn queue_len(queue: &deadqueue::unlimited::Queue<Task>) -> (n: usize)
    ensures
        n == waiting(*queue).len(),
{
    queue.len()
}

/// The queue after the tasks `arrivals` have been accepted into it, one
/// after the other.
pub open spec fn after_accepting(waiting: Seq<Task>, arrivals: Seq<Task>) -> Seq<Task>
    decreases arrivals.len(),
{
    if arrivals.len() == 0 {
        waiting
    } else {
        after_accepting(waiting, arrivals.drop_last()).push(arrivals.last())
    }
}

/// The tasks that the consumer takes from the queue in its first `n`
/// turns, in the order in which it takes them.
pub open spec fn taken_in(waiting: Seq<Task>, n: nat) -> Seq<Task>
    decreases n,
{
    if n == 0 || waiting.len() == 0 {
        Seq::empty()
    } else {
        seq![waiting[0]] + taken_in(waiting.drop_first(), (n - 1) as nat)
    }
}

/// Accepting tasks puts them behind the tasks that wait, in the order in
/// which they were accepted.
pub proof fn lemma_accepting_appends(waiting: Seq<Task>, arrivals: Seq<Task>)
    ensures
        after_accepting(waiting, arrivals) == waiting + arrivals,
    decreases arrivals.len(),
{
    if arrivals.len() > 0 {
        lemma_accepting_appends(waiting, arrivals.drop_last());
        assert(waiting + arrivals == (waiting + arrivals.drop_last()).push(arrivals.last()));
    }
}

/// In its first `n` turns the consumer takes the `n` tasks that waited
/// longest, the one that waited longest first.
pub proof fn lemma_taking_follows_the_queue(waiting: Seq<Task>, n: nat)
    requires
        n <= waiting.len(),
    ensures
        taken_in(waiting, n) == waiting.take(n as int),
    decreases n,
{
    if n > 0 {
        lemma_taking_follows_the_queue(waiting.drop_first(), (n - 1) as nat);
        assert(waiting.take(n as int) == seq![waiting[0]] + waiting.drop_first().take(n - 1));
    }
}

/// Tasks are run in the order in which they were accepted: when the tasks
/// `arrivals` are accepted into an empty queue, in whatever order their
/// producers come to it, the consumer takes exactly those tasks, in that
/// order. What becomes of a task has no part in this, so a task that fails
/// holds back none of the tasks behind it.
pub proof fn law_tasks_are_run_in_arrival_order(arrivals: Seq<Task>)
    ensures
        taken_in(after_accepting(Seq::empty(), arrivals), arrivals.len()) == arrivals,
{
    lemma_accepting_appends(Seq::empty(), arrivals);
    assert(Seq::<Task>::empty() + arrivals == arrivals);
    lemma_taking_follows_the_queue(arrivals, arrivals.len());
    assert(arrivals.take(arrivals.len() as int) == arrivals);
}

/// The queue of accepted tasks.
pub struct TaskQueue {
    queue: deadqueue::unlimited::Queue<Task>,
}

impl View for TaskQueue {
    type V = Seq<Task>;

    /// The tasks that wait, the one that waits longest first.
    closed spec fn view(&self) -> Seq<Task> {
        waiting(self.queue)
    }
}

impl TaskQueue {
    /// A queue in which nothing waits.
    pub fn new() -> (queue: TaskQueue)
        ensures
            queue@ == Seq::<Task>::empty(),
    {
        TaskQueue { queue: queue_new() }
    }

    /// Accepts `task`: it waits behind all tasks that were accepted before
    /// it. Accepting never waits and never fails.
    pub fn push(&mut self, task: Task)
        ensures
            final(self)@ == old(self)@.push(task),
    {
        queue_push(&mut self.queue, task)
    }

    /// Takes the task that waited longest, if any task waits.
    pub fn try_pop(&mut self) -> (task: Option<Task>)
        ensures
            match task {
                Some(t) => old(self)@.len() > 0 && t == old(self)@[0] && final(self)@ == old(
                    self,
                )@.drop_first(),
                None => old(self)@.len() == 0 && final(self)@ == old(self)@,
            },
    {
        queue_try_pop(&mut self.queue)
    }

    /// How many tasks wait.
    pub fn len(&self) -> (n: usize)
        ensures
            n == self@.len(),
    {
        queue_len(&self.queue)
    }

    /// Whether no task waits.
    pub fn is_empty(&self) -> (empty: bool)
        ensures
            empty == (self@.len() == 0),
    {
        queue_len(&self.queue) == 0
    }
}

/// A new text for the message on which the progress of a task is shown.
#[derive(Debug)]
pub struct StatusUpdate {
    pub sink: MessageRef,
    pub text: String,
}

/// What became of one task: the task, and the error of its handler where
/// it failed.
#[derive(Debug)]
pub struct TaskReport {
    pub task: Task,
    pub failure: Option<String>,
}

/// What the front end is told when a task has ended: nothing where it went
/// well, else the error, on the message of the task.
pub open spec fn update_after(task: Task, outcome: Result<(), String>) -> Option<StatusUpdate> {
    match outcome {
        Ok(_) => None,
        Err(error) => Some(StatusUpdate { sink: task.status_sink(), text: error }),
    }
}

/// Whether `report` is the report of `task` for a handler `handler` that
/// may have returned what the report says.
pub open spec fn is_report_of<F: Fn(&Task) -> Result<(), String>>(
    report: TaskReport,
    task: Task,
    handler: F,
) -> bool {
    &&& report.task == task
    &&& match report.failure {
        None => call_ensures(handler, (&task,), Ok::<(), String>(())),
        Some(error) => call_ensures(handler, (&task,), Err::<(), String>(error)),
    }
}

/// The single consumer of the queue.
pub struct TaskQueueProcessor;

impl TaskQueueProcessor {
    /// The task that is run next: the one that waited longest. The
    /// consumer runs it to its end before it takes another.
    pub fn take_next(queue: &mut TaskQueue) -> (task: Option<Task>)
        ensures
            match task {
                Some(t) => old(queue)@.len() > 0 && t == old(queue)@[0] && final(queue)@ == old(
                    queue,
                )@.drop_first(),
                None => old(queue)@.len() == 0 && final(queue)@ == old(queue)@,
            },
    {
        queue.try_pop()
    }

    /// What the front end is told when `task` has ended with `outcome`. A
    /// failure is shown on the message of the task; it does not stop the
    /// consumer.
    pub fn after_task(task: &Task, outcome: Result<(), String>) -> (update: Option<StatusUpdate>)
        ensures
            update == update_after(*task, outcome),
    {
        match outcome {
            Ok(_) => None,
            Err(error) => Some(StatusUpdate { sink: task.status(), text: error }),
        }
    }

    /// Runs every task that waits, one at a time and in the order in which
    /// they were accepted, and reports what became of each. A task whose
    /// handler fails is reported with its error, and the tasks behind it
    /// are run all the same.
    pub fn run_pending<F: Fn(&Task) -> Result<(), String>>(queue: &mut TaskQueue, handler: F) -> (reports: Vec<
        TaskReport,
    >)
        requires
            forall|task: Task| call_requires(handler, (&task,)),
        ensures
            final(queue)@.len() == 0,
            reports.len() == old(queue)@.len(),
            forall|i: int|
                0 <= i < reports.len() ==> is_report_of(
                    #[trigger] reports@[i],
                    old(queue)@[i],
                    handler,
                ),
    {
        let mut reports: Vec<TaskReport> = Vec::new();
        let ghost all = queue@;
        assert(all.skip(0) == all);
        loop
            invariant_except_break
                reports.len() <= all.len(),
                queue@ == all.skip(reports.len() as int),
                forall|task: Task| call_requires(handler, (&task,)),
                forall|i: int|
                    0 <= i < reports.len() ==> is_report_of(#[trigger] reports@[i], all[i], handler),
            ensures
                queue@.len() == 0,
                reports.len() == all.len(),
                forall|i: int|
                    0 <= i < reports.len() ==> is_report_of(#[trigger] reports@[i], all[i], handler),
            decreases all.len() - reports.len(),
        {
            let task = match queue.try_pop() {
                Some(task) => task,
                None => {
                    break;
                },
            };
            let ghost n = reports.len() as int;
            proof {
                assert(all.skip(n)[0] == all[n]);
                assert(all.skip(n).drop_first() == all.skip(n + 1));
            }
            let outcome = handler(&task);
            assert(call_ensures(handler, (&task,), outcome));
            let failure = match outcome {
                Ok(done) => {
                    assert(outcome == Ok::<(), String>(()));
                    None
                },
                Err(error) => Some(error),
            };
            let ghost before = reports@;
            let report = TaskReport { task, failure };
            assert(is_report_of(report, all[n], handler));
            reports.push(report);
            assert forall|i: int| 0 <= i < reports.len() implies is_report_of(
                #[trigger] reports@[i],
                all[i],
                handler,
            ) by {
                if i < n {
                    assert(reports@[i] == before[i]);
                }
            }
        }
        reports
    }
}

} // verus!
