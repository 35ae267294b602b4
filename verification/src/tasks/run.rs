//! The decisions taken while a task runs.
//!
//! Running a task alternates between outside work (sending events to the
//! frontend, polling the task's future and its cancellation channel) and
//! decisions. The decisions are the two machines here: the code that runs a
//! task feeds each outcome of the outside work to `step` as a `RunEvent`,
//! and carries out the `RunAction` it gets back.
//!
//! `NonTerminal` runs the future of a task that has already been created
//! and, when it succeeds, hands the task back still open. `TaskRun` does the
//! whole life of a task: it registers and announces it, runs it, and closes
//! it with the status it ended in.
use tokio::sync::oneshot::Sender;
use vstd::prelude::*;

use crate::tasks::builder::TaskBuilder;
use crate::tasks::registry::{OpenTask, TaskData, Tasks};
use crate::tasks::types::{
    closings_among, created, dropped, dropped_event, lemma_closings_concat, CreateTaskError,
    DropStatus, EmitError, Id, ManagementError, SuccessInfo, TaskError, TaskEvent, TaskEventBody,
};

verus! {

/// What came of the outside work that the last action asked for.
pub enum RunEvent<T, E> {
    /// The task's future finished with a value.
    Succeeded(T),
    /// The task's future failed with `error`, whose text is `text`.
    Failed { error: E, text: String },
    /// The task's cancellation channel fired.
    Cancelled,
    /// The event that the last action asked to send was sent, or sending it
    /// failed.
    Emitted(Result<(), EmitError>),
}

/// The error of a run whose closing event could not be sent, or else `error`.
pub open spec fn after_close<E>(error: TaskError<E>, sent: Result<(), EmitError>) -> TaskError<E> {
    match sent {
        Ok(()) => error,
        Err(e) => TaskError::Management(ManagementError::Emit(e)),
    }
}

/// Running the future of a task, with `handle` the task if it was created.
pub enum NonTerminal<E> {
    /// The future runs; `handle` is the task it reports on, if any.
    Running { handle: Option<OpenTask> },
    /// The task `id` is being closed; the run then fails with `error`.
    Closing { id: Id, error: TaskError<E> },
    Finished,
}

/// What the code running a `NonTerminal` is to do next.
pub enum NonTerminalAction<T, E> {
    /// Keep polling the future (and the cancellation channel, if any).
    Wait,
    /// Send this event to the frontend, then report how that went.
    Emit(TaskEvent),
    /// The run is over with this result. On success the task, if any, is
    /// handed back still open.
    Return(Result<(Option<OpenTask>, T), TaskError<E>>),
}

impl<E> NonTerminal<E> {
    /// The next state and the action to take when `event` comes in.
    pub open spec fn next<T>(self, event: RunEvent<T, E>) -> (NonTerminal<E>, NonTerminalAction<T, E>) {
        match self {
            NonTerminal::Running { handle } => match event {
                RunEvent::Cancelled => match handle {
                    Some(task) => (
                        NonTerminal::Closing { id: task.task_id(), error: TaskError::Cancelled },
                        NonTerminalAction::Emit(
                            dropped(task.task_id(), DropStatus::Cancelled { direct: true }),
                        ),
                    ),
                    // Without a task there is no cancellation channel.
                    None => (self, NonTerminalAction::Wait),
                },
                RunEvent::Succeeded(t) => (
                    NonTerminal::Finished,
                    NonTerminalAction::Return(Ok((handle, t))),
                ),
                RunEvent::Failed { error, text } => match handle {
                    Some(task) => (
                        NonTerminal::Closing { id: task.task_id(), error: TaskError::Failed(error) },
                        NonTerminalAction::Emit(
                            dropped(task.task_id(), DropStatus::Failed { error: text }),
                        ),
                    ),
                    None => (
                        NonTerminal::Finished,
                        NonTerminalAction::Return(Err(TaskError::Failed(error))),
                    ),
                },
                RunEvent::Emitted(_) => (self, NonTerminalAction::Wait),
            },
            NonTerminal::Closing { id, error } => match event {
                RunEvent::Emitted(sent) => (
                    NonTerminal::Finished,
                    NonTerminalAction::Return(Err(after_close(error, sent))),
                ),
                _ => (self, NonTerminalAction::Wait),
            },
            NonTerminal::Finished => (NonTerminal::Finished, NonTerminalAction::Wait),
        }
    }

    /// The registry after `event` comes in: a task that is being closed is
    /// unregistered once its closing event has been sent or has failed.
    pub open spec fn registry_after<T>(self, before: Map<u64, TaskData>, event: RunEvent<T, E>) -> Map<
        u64,
        TaskData,
    > {
        match self {
            NonTerminal::Closing { id, .. } => match event {
                RunEvent::Emitted(_) => before.remove(id.0),
                _ => before,
            },
            _ => before,
        }
    }

    /// The event to send, if any, when the code running the future goes away
    /// before the run is over: a task that still runs is closed as
    /// cancelled, though not through its own channel.
    pub open spec fn abandon_event(self) -> Option<TaskEvent> {
        match self {
            NonTerminal::Running { handle: Some(task) } => Some(
                dropped(task.task_id(), DropStatus::Cancelled { direct: false }),
            ),
            _ => None,
        }
    }

    /// The registry after the code running the future goes away: the task,
    /// if the run still holds it, is unregistered.
    pub open spec fn registry_after_abandon(self, before: Map<u64, TaskData>) -> Map<u64, TaskData> {
        match self {
            NonTerminal::Running { handle: Some(task) } => before.remove(task.task_id().0),
            NonTerminal::Closing { id, .. } => before.remove(id.0),
            _ => before,
        }
    }

    /// Ends the run because the code running it went away.
    pub fn abandon(self, tasks: &mut Tasks) -> (r: Option<TaskEvent>)
        ensures
            r == self.abandon_event(),
            final(tasks)@ == self.registry_after_abandon(old(tasks)@),
    {
        match self {
            NonTerminal::Running { handle: Some(task) } => Some(task.abandon(tasks)),
            NonTerminal::Closing { id, .. } => {
                tasks.unregister(id);
                None
            },
            _ => None,
        }
    }

    /// Starts running the future of `handle`, the task if there is one.
    pub fn start(handle: Option<OpenTask>) -> (r: NonTerminal<E>)
        ensures
            r == (NonTerminal::<E>::Running { handle: handle }),
    {
        NonTerminal::Running { handle }
    }

    /// Takes `event` into account and says what to do next.
    pub fn step<T>(&mut self, tasks: &mut Tasks, event: RunEvent<T, E>) -> (action: NonTerminalAction<
        T,
        E,
    >)
        ensures
            (*final(self), action) == old(self).next(event),
            final(tasks)@ == old(self).registry_after(old(tasks)@, event),
    {
        let mut state = NonTerminal::Finished;
        std::mem::swap(self, &mut state);
        match state {
            NonTerminal::Running { handle } => match event {
                RunEvent::Cancelled => match handle {
                    Some(task) => {
                        let id = task.id();
                        *self = NonTerminal::Closing { id, error: TaskError::Cancelled };
                        NonTerminalAction::Emit(
                            dropped_event(id, DropStatus::Cancelled { direct: true }),
                        )
                    },
                    None => {
                        *self = NonTerminal::Running { handle };
                        NonTerminalAction::Wait
                    },
                },
                RunEvent::Succeeded(t) => NonTerminalAction::Return(Ok((handle, t))),
                RunEvent::Failed { error, text } => match handle {
                    Some(task) => {
                        let id = task.id();
                        *self = NonTerminal::Closing { id, error: TaskError::Failed(error) };
                        NonTerminalAction::Emit(dropped_event(id, DropStatus::Failed { error: text }))
                    },
                    None => NonTerminalAction::Return(Err(TaskError::Failed(error))),
                },
                RunEvent::Emitted(_) => {
                    *self = NonTerminal::Running { handle };
                    NonTerminalAction::Wait
                },
            },
            NonTerminal::Closing { id, error } => match event {
                RunEvent::Emitted(sent) => {
                    tasks.unregister(id);
                    let error = match sent {
                        Ok(()) => error,
                        Err(e) => TaskError::Management(ManagementError::Emit(e)),
                    };
                    NonTerminalAction::Return(Err(error))
                },
                _ => {
                    *self = NonTerminal::Closing { id, error };
                    NonTerminalAction::Wait
                },
            },
            NonTerminal::Finished => NonTerminalAction::Wait,
        }
    }
}

/// The whole life of a task whose future ends with a value `T` and, when
/// it succeeds, tells how (`Option<SuccessInfo>`).
pub enum TaskRun<T, E> {
    /// The task is registered; its creation is being announced.
    Creating { task: OpenTask },
    /// The task's future runs.
    Running { inner: NonTerminal<E> },
    /// The task `id` succeeded with `value` and is being closed.
    Closing { id: Id, value: T },
    Finished,
}

/// What the code running a `TaskRun` is to do next.
pub enum RunAction<T, E> {
    /// Keep polling the future (and the cancellation channel, if any).
    Wait,
    /// Start the task's future, with a `TaskHandle` for `task`.
    Start { task: Option<Id> },
    /// Send this event to the frontend, then report how that went.
    Emit(TaskEvent),
    /// The run is over with this result.
    Return(Result<T, TaskError<E>>),
}

/// The registry after a run of `builder` begins: the task is registered
/// with its cancellation channel if there is a frontend and its id is free.
pub open spec fn registry_after_begin(
    builder: TaskBuilder,
    cancel: Option<Sender<()>>,
    before: Map<u64, TaskData>,
) -> Map<u64, TaskData> {
    let id = builder.task_id();
    match cancel {
        None => before,
        Some(_) => if before.contains_key(id.0) {
            before
        } else {
            before.insert(id.0, TaskData { cancel: cancel })
        },
    }
}

impl<T, E> TaskRun<T, E> {
    /// The next state and the action to take when `event` comes in.
    pub open spec fn next(self, event: RunEvent<(Option<SuccessInfo>, T), E>) -> (
        TaskRun<T, E>,
        RunAction<T, E>,
    ) {
        match self {
            TaskRun::Creating { task } => match event {
                RunEvent::Emitted(Ok(())) => (
                    TaskRun::Running { inner: NonTerminal::Running { handle: Some(task) } },
                    RunAction::Start { task: Some(task.task_id()) },
                ),
                // The task stays registered: nothing will close it.
                RunEvent::Emitted(Err(e)) => (
                    TaskRun::Finished,
                    RunAction::Return(
                        Err(
                            TaskError::Management(
                                ManagementError::Create(CreateTaskError::EmitEventFailed(e)),
                            ),
                        ),
                    ),
                ),
                _ => (self, RunAction::Wait),
            },
            TaskRun::Running { inner } => {
                let (inner_next, action) = inner.next(event);
                match action {
                    NonTerminalAction::Wait => (TaskRun::Running { inner: inner_next }, RunAction::Wait),
                    NonTerminalAction::Emit(ev) => (
                        TaskRun::Running { inner: inner_next },
                        RunAction::Emit(ev),
                    ),
                    NonTerminalAction::Return(Err(error)) => (
                        TaskRun::Finished,
                        RunAction::Return(Err(error)),
                    ),
                    NonTerminalAction::Return(Ok((handle, (success, value)))) => match handle {
                        Some(task) => (
                            TaskRun::Closing { id: task.task_id(), value: value },
                            RunAction::Emit(
                                dropped(task.task_id(), DropStatus::Success { success: success }),
                            ),
                        ),
                        None => (TaskRun::Finished, RunAction::Return(Ok(value))),
                    },
                }
            },
            TaskRun::Closing { id, value } => match event {
                RunEvent::Emitted(Ok(())) => (TaskRun::Finished, RunAction::Return(Ok(value))),
                RunEvent::Emitted(Err(e)) => (
                    TaskRun::Finished,
                    RunAction::Return(Err(TaskError::Management(ManagementError::Emit(e)))),
                ),
                _ => (self, RunAction::Wait),
            },
            TaskRun::Finished => (TaskRun::Finished, RunAction::Wait),
        }
    }

    /// The registry after `event` comes in.
    pub open spec fn registry_after(
        self,
        before: Map<u64, TaskData>,
        event: RunEvent<(Option<SuccessInfo>, T), E>,
    ) -> Map<u64, TaskData> {
        match self {
            TaskRun::Running { inner } => inner.registry_after(before, event),
            TaskRun::Closing { id, .. } => match event {
                RunEvent::Emitted(_) => before.remove(id.0),
                _ => before,
            },
            _ => before,
        }
    }

    /// The event to send, if any, when the code running the task goes away
    /// before the run is over: a task that was announced and not yet closed
    /// is closed as cancelled, though not through its own channel.
    pub open spec fn abandon_event(self) -> Option<TaskEvent> {
        match self {
            TaskRun::Creating { task } => Some(
                dropped(task.task_id(), DropStatus::Cancelled { direct: false }),
            ),
            TaskRun::Running { inner } => inner.abandon_event(),
            _ => None,
        }
    }

    /// The registry after the code running the task goes away: the task, if
    /// the run still holds it, is unregistered.
    pub open spec fn registry_after_abandon(self, before: Map<u64, TaskData>) -> Map<u64, TaskData> {
        match self {
            TaskRun::Creating { task } => before.remove(task.task_id().0),
            TaskRun::Running { inner } => inner.registry_after_abandon(before),
            TaskRun::Closing { id, .. } => before.remove(id.0),
            _ => before,
        }
    }

    /// Ends the run because the code running it went away.
    pub fn abandon(self, tasks: &mut Tasks) -> (r: Option<TaskEvent>)
        ensures
            r == self.abandon_event(),
            final(tasks)@ == self.registry_after_abandon(old(tasks)@),
    {
        match self {
            TaskRun::Creating { task } => Some(task.abandon(tasks)),
            TaskRun::Running { inner } => inner.abandon(tasks),
            TaskRun::Closing { id, .. } => {
                tasks.unregister(id);
                None
            },
            _ => None,
        }
    }

    /// Begins a run of the task that `builder` describes. `cancel` is the
    /// sending half of the task's cancellation channel when there is a
    /// frontend to report to, and `None` when there is none; in that case the
    /// task is neither registered nor announced. Otherwise the task is
    /// created, unless its id is taken, and its announcement is to be sent.
    pub fn begin(builder: TaskBuilder, cancel: Option<Sender<()>>, tasks: &mut Tasks) -> (r: (
        TaskRun<T, E>,
        RunAction<T, E>,
    ))
        ensures
            final(tasks)@ == registry_after_begin(builder, cancel, old(tasks)@),
            cancel is None ==> r == (
                TaskRun::<T, E>::Running { inner: NonTerminal::Running { handle: None } },
                RunAction::<T, E>::Start { task: None },
            ),
            cancel is Some && old(tasks)@.contains_key(builder.task_id().0) ==> r == (
                TaskRun::<T, E>::Finished,
                RunAction::<T, E>::Return(
                    Err(TaskError::Management(ManagementError::Create(CreateTaskError::IdCollision))),
                ),
            ),
            cancel is Some && !old(tasks)@.contains_key(builder.task_id().0) ==> {
                &&& r.0 matches TaskRun::Creating { task } && task.task_id() == builder.task_id()
                &&& r.1 == RunAction::<T, E>::Emit(created(builder.task_id(), builder.task_metadata()))
            },
    {
        match cancel {
            None => (
                TaskRun::Running { inner: NonTerminal::start(None) },
                RunAction::Start { task: None },
            ),
            Some(sender) => match tasks.create(builder, sender) {
                Err(e) => (
                    TaskRun::Finished,
                    RunAction::Return(Err(TaskError::Management(ManagementError::Create(e)))),
                ),
                Ok((task, event)) => (TaskRun::Creating { task }, RunAction::Emit(event)),
            },
        }
    }

    /// Takes `event` into account and says what to do next.
    pub fn step(&mut self, tasks: &mut Tasks, event: RunEvent<(Option<SuccessInfo>, T), E>) -> (action:
        RunAction<T, E>)
        ensures
            (*final(self), action) == old(self).next(event),
            final(tasks)@ == old(self).registry_after(old(tasks)@, event),
    {
        let mut state = TaskRun::Finished;
        std::mem::swap(self, &mut state);
        match state {
            TaskRun::Creating { task } => match event {
                RunEvent::Emitted(Ok(())) => {
                    let id = task.id();
                    *self = TaskRun::Running { inner: NonTerminal::start(Some(task)) };
                    RunAction::Start { task: Some(id) }
                },
                RunEvent::Emitted(Err(e)) => RunAction::Return(
                    Err(
                        TaskError::Management(
                            ManagementError::Create(CreateTaskError::EmitEventFailed(e)),
                        ),
                    ),
                ),
                _ => {
                    *self = TaskRun::Creating { task };
                    RunAction::Wait
                },
            },
            TaskRun::Running { inner } => {
                let mut inner = inner;
                let action = inner.step(tasks, event);
                match action {
                    NonTerminalAction::Wait => {
                        *self = TaskRun::Running { inner };
                        RunAction::Wait
                    },
                    NonTerminalAction::Emit(ev) => {
                        *self = TaskRun::Running { inner };
                        RunAction::Emit(ev)
                    },
                    NonTerminalAction::Return(Err(error)) => RunAction::Return(Err(error)),
                    NonTerminalAction::Return(Ok((handle, (success, value)))) => match handle {
                        Some(task) => {
                            let id = task.id();
                            *self = TaskRun::Closing { id, value };
                            RunAction::Emit(dropped_event(id, DropStatus::Success { success }))
                        },
                        None => RunAction::Return(Ok(value)),
                    },
                }
            },
            TaskRun::Closing { id, value } => match event {
                RunEvent::Emitted(sent) => {
                    tasks.unregister(id);
                    match sent {
                        Ok(()) => RunAction::Return(Ok(value)),
                        Err(e) => RunAction::Return(
                            Err(TaskError::Management(ManagementError::Emit(e))),
                        ),
                    }
                },
                _ => {
                    *self = TaskRun::Closing { id, value };
                    RunAction::Wait
                },
            },
            TaskRun::Finished => RunAction::Wait,
        }
    }
}


/// The states, registries and actions of a run that starts in `run` with
/// the registry `before` and takes the events `events` in turn.
pub open spec fn run_trace<T, E>(
    run: TaskRun<T, E>,
    before: Map<u64, TaskData>,
    events: Seq<RunEvent<(Option<SuccessInfo>, T), E>>,
) -> (TaskRun<T, E>, Map<u64, TaskData>, Seq<RunAction<T, E>>)
    decreases events.len(),
{
    if events.len() == 0 {
        (run, before, Seq::empty())
    } else {
        let (next, action) = run.next(events[0]);
        let after = run.registry_after(before, events[0]);
        let (last, reg, actions) = run_trace(next, after, events.drop_first());
        (last, reg, seq![action] + actions)
    }
}

/// How many of `actions` send the event that closes the task `id`.
pub open spec fn closings_of<T, E>(actions: Seq<RunAction<T, E>>, id: Id) -> nat
    decreases actions.len(),
{
    if actions.len() == 0 {
        0
    } else {
        (if actions[0] matches RunAction::Emit(ev) && ev.id == id && ev.body is Dropped {
            1nat
        } else {
            0nat
        }) + closings_of(actions.drop_first(), id)
    }
}

/// How many of `actions` end the run.
pub open spec fn returns_in<T, E>(actions: Seq<RunAction<T, E>>) -> nat
    decreases actions.len(),
{
    if actions.len() == 0 {
        0
    } else {
        (if actions[0] is Return {
            1nat
        } else {
            0nat
        }) + returns_in(actions.drop_first())
    }
}

/// The run holds the task `id`: it runs it, or closes it, or is over.
pub open spec fn holds_task<T, E>(run: TaskRun<T, E>, id: Id) -> bool {
    match run {
        TaskRun::Running { inner } => match inner {
            NonTerminal::Running { handle } => (handle matches Some(task) && task.task_id() == id),
            NonTerminal::Closing { id: closing, .. } => closing == id,
            NonTerminal::Finished => false,
        },
        TaskRun::Closing { id: closing, .. } => closing == id,
        TaskRun::Finished => true,
        TaskRun::Creating { .. } => false,
    }
}

/// The number of closing events still to come from a run that holds a task:
/// one while the task runs, none once it is being closed.
pub open spec fn closings_due<T, E>(run: TaskRun<T, E>) -> nat {
    if run matches TaskRun::Running { inner: NonTerminal::Running { .. } } {
        1
    } else {
        0
    }
}

proof fn lemma_trace_from<T, E>(
    run: TaskRun<T, E>,
    before: Map<u64, TaskData>,
    events: Seq<RunEvent<(Option<SuccessInfo>, T), E>>,
    id: Id,
)
    requires
        holds_task(run, id),
    ensures
        ({
            let (last, after, actions) = run_trace(run, before, events);
            &&& holds_task(last, id)
            &&& run is Finished ==> last is Finished
            &&& closings_of(actions, id) + closings_due(last) == closings_due(run)
            &&& after == if last is Finished && !(run is Finished) {
                before.remove(id.0)
            } else {
                before
            }
            &&& returns_in(actions) == if last is Finished && !(run is Finished) {
                1nat
            } else {
                0nat
            }
        }),
    decreases events.len(),
{
    if events.len() > 0 {
        let (next, action) = run.next(events[0]);
        let after = run.registry_after(before, events[0]);
        lemma_trace_from(next, after, events.drop_first(), id);
        let (_, _, rest) = run_trace(next, after, events.drop_first());
        assert((seq![action] + rest).drop_first() == rest);
        assert((seq![action] + rest)[0] == action);
    }
}

/// A run in which a created task is running reports on that task to the
/// end: whatever events come in, once the run is over, or once the code
/// running it has gone away, it has sent exactly one event that closes the
/// task and removed the task, and nothing else, from the registry; a run
/// that is over has returned exactly once.
pub proof fn lemma_running_task_closed_once<T, E>(
    task: OpenTask,
    before: Map<u64, TaskData>,
    events: Seq<RunEvent<(Option<SuccessInfo>, T), E>>,
)
    ensures
        ({
            let id = task.task_id();
            let run = TaskRun::<T, E>::Running { inner: NonTerminal::Running { handle: Some(task) } };
            let (last, after, actions) = run_trace(run, before, events);
            &&& last is Finished ==> {
                &&& after == before.remove(id.0)
                &&& closings_of(actions, id) == 1
                &&& returns_in(actions) == 1
            }
            &&& !(last is Finished) ==> {
                &&& last.registry_after_abandon(after) == before.remove(id.0)
                &&& closings_of(actions, id) + (if last.abandon_event() is Some {
                    1nat
                } else {
                    0nat
                }) == 1
                &&& last.abandon_event() matches Some(ev) ==> ev.id == id && ev.body is Dropped
                &&& returns_in(actions) == 0
            }
        }),
{
    let run = TaskRun::<T, E>::Running { inner: NonTerminal::Running { handle: Some(task) } };
    lemma_trace_from(run, before, events, task.task_id());
}


/// The states, registries and actions of a `NonTerminal` run that starts in
/// `run` with the registry `before` and takes the events `events` in turn.
pub open spec fn non_terminal_trace<T, E>(
    run: NonTerminal<E>,
    before: Map<u64, TaskData>,
    events: Seq<RunEvent<T, E>>,
) -> (NonTerminal<E>, Map<u64, TaskData>, Seq<NonTerminalAction<T, E>>)
    decreases events.len(),
{
    if events.len() == 0 {
        (run, before, Seq::empty())
    } else {
        let (next, action) = run.next(events[0]);
        let after = run.registry_after(before, events[0]);
        let (last, reg, actions) = non_terminal_trace(next, after, events.drop_first());
        (last, reg, seq![action] + actions)
    }
}

/// The events that `actions` send, in order.
pub open spec fn non_terminal_events<T, E>(actions: Seq<NonTerminalAction<T, E>>) -> Seq<TaskEvent>
    decreases actions.len(),
{
    if actions.len() == 0 {
        Seq::empty()
    } else if let NonTerminalAction::Emit(ev) = actions[0] {
        seq![ev] + non_terminal_events(actions.drop_first())
    } else {
        non_terminal_events(actions.drop_first())
    }
}

/// How many of `actions` send the event that closes the task `id`.
pub open spec fn non_terminal_closings<T, E>(actions: Seq<NonTerminalAction<T, E>>, id: Id) -> nat {
    closings_among(non_terminal_events(actions), id)
}

/// The outcome a `NonTerminal` run returned with, if it returned.
pub open spec fn non_terminal_outcome<T, E>(actions: Seq<NonTerminalAction<T, E>>) -> Option<
    Result<(Option<OpenTask>, T), TaskError<E>>,
>
    decreases actions.len(),
{
    if actions.len() == 0 {
        None
    } else if let NonTerminalAction::Return(r) = actions[0] {
        Some(r)
    } else {
        non_terminal_outcome(actions.drop_first())
    }
}

proof fn lemma_non_terminal_trace_from<T, E>(
    run: NonTerminal<E>,
    before: Map<u64, TaskData>,
    events: Seq<RunEvent<T, E>>,
    id: Id,
)
    requires
        run matches NonTerminal::Running { handle } ==> (handle matches Some(t) && t.task_id() == id),
        run matches NonTerminal::Closing { id: closing, .. } ==> closing == id,
    ensures
        ({
            let (last, after, actions) = non_terminal_trace(run, before, events);
            &&& last matches NonTerminal::Running { handle } ==> (handle matches Some(t) && t.task_id()
                == id)
            &&& last matches NonTerminal::Closing { id: closing, .. } ==> closing == id
            &&& run is Closing ==> !(last is Running)
            &&& run is Finished ==> last is Finished && after == before && non_terminal_closings(
                actions,
                id,
            ) == 0 && non_terminal_outcome(actions) is None
            &&& last is Finished && run is Running ==> match non_terminal_outcome(actions) {
                Some(Ok((handle, _))) => (handle matches Some(t) && t.task_id() == id) && after == before
                    && non_terminal_closings(actions, id) == 0,
                Some(Err(_)) => after == before.remove(id.0) && non_terminal_closings(actions, id)
                    == 1,
                None => false,
            }
            &&& last is Finished && run is Closing ==> (non_terminal_outcome(actions) matches Some(
                Err(_),
            )) && after == before.remove(id.0) && non_terminal_closings(actions, id) == 0
            &&& !(last is Finished) ==> after == before && non_terminal_outcome(actions) is None
                && non_terminal_closings(actions, id) == if (run is Running && last is Closing) {
                1nat
            } else {
                0nat
            }
        }),
    decreases events.len(),
{
    if events.len() > 0 {
        let (next, action) = run.next(events[0]);
        let after = run.registry_after(before, events[0]);
        lemma_non_terminal_trace_from(next, after, events.drop_first(), id);
        let (_, _, rest) = non_terminal_trace(next, after, events.drop_first());
        let all = seq![action] + rest;
        assert(all.drop_first() == rest);
        assert(all[0] == action);
        assert(non_terminal_outcome(all) == if let NonTerminalAction::Return(r) = action {
            Some(r)
        } else {
            non_terminal_outcome(rest)
        });
        assert(non_terminal_events(all) == non_terminal_events(seq![action]) + non_terminal_events(
            rest,
        )) by {
            reveal_with_fuel(non_terminal_events, 2);
            assert(seq![action].drop_first() == Seq::<NonTerminalAction<T, E>>::empty());
            assert(seq![action][0] == action);
        }
        lemma_closings_concat(non_terminal_events(seq![action]), non_terminal_events(rest), id);
        assert(non_terminal_closings(seq![action], id) == if action matches NonTerminalAction::Emit(
            ev,
        ) && ev.id == id && ev.body is Dropped {
            1nat
        } else {
            0nat
        }) by {
            reveal_with_fuel(non_terminal_events, 2);
            reveal_with_fuel(closings_among, 2);
            assert(seq![action].drop_first() == Seq::<NonTerminalAction<T, E>>::empty());
            assert(seq![action][0] == action);
            if let NonTerminalAction::Emit(ev) = action {
                assert(non_terminal_events(seq![action]) == seq![ev]);
                assert(seq![ev].drop_first() == Seq::<TaskEvent>::empty());
            }
        }
    }
}

/// Running the future of a created task either hands the task back or
/// closes it, never both: once the run is over, either it returned the
/// task, still registered, without having sent any event that closes it,
/// or it failed after sending exactly one such event and unregistering the
/// task, and nothing else.
pub proof fn lemma_non_terminal_hands_back_or_closes<T, E>(
    task: OpenTask,
    before: Map<u64, TaskData>,
    events: Seq<RunEvent<T, E>>,
)
    ensures
        ({
            let id = task.task_id();
            let (last, after, actions) = non_terminal_trace(
                NonTerminal::<E>::Running { handle: Some(task) },
                before,
                events,
            );
            last is Finished ==> match non_terminal_outcome(actions) {
                Some(Ok((handle, _))) => (handle matches Some(t) && t.task_id() == id) && after == before
                    && non_terminal_closings(actions, id) == 0,
                Some(Err(_)) => after == before.remove(id.0) && non_terminal_closings(actions, id)
                    == 1,
                None => false,
            }
        }),
{
    lemma_non_terminal_trace_from(
        NonTerminal::<E>::Running { handle: Some(task) },
        before,
        events,
        task.task_id(),
    );
}


/// A future that succeeds ends the run with its value: the run is over and
/// hands back the task it held, if any, still open and still registered.
pub proof fn lemma_success_returns_value<T, E>(
    handle: Option<OpenTask>,
    value: T,
    before: Map<u64, TaskData>,
)
    ensures
        (NonTerminal::<E>::Running { handle: handle }).next(RunEvent::Succeeded(value)) == (
            NonTerminal::<E>::Finished,
            NonTerminalAction::<T, E>::Return(Ok((handle, value))),
        ),
        (NonTerminal::<E>::Running { handle: handle }).registry_after(
            before,
            RunEvent::<T, E>::Succeeded(value),
        ) == before,
{
}

/// A future that fails ends the run with its error. Without a task that is
/// all; with one, the task is first closed as failed with the error's text,
/// and then unregistered.
pub proof fn lemma_failure_returns_error<T, E>(
    handle: Option<OpenTask>,
    error: E,
    text: String,
    sent: Result<(), EmitError>,
    before: Map<u64, TaskData>,
)
    ensures
        ({
            let (closing, action) = NonTerminal::<E>::Running { handle: handle }.next(
                RunEvent::<T, E>::Failed { error: error, text: text },
            );
            match handle {
                None => closing == NonTerminal::<E>::Finished && action
                    == NonTerminalAction::<T, E>::Return(Err(TaskError::Failed(error))),
                Some(task) => {
                    &&& action == NonTerminalAction::<T, E>::Emit(
                        TaskEvent {
                            id: task.task_id(),
                            body: TaskEventBody::Dropped { status: DropStatus::Failed { error: text } },
                        },
                    )
                    &&& closing.next(RunEvent::<T, E>::Emitted(Ok(()))) == (
                        NonTerminal::<E>::Finished,
                        NonTerminalAction::<T, E>::Return(Err(TaskError::Failed(error))),
                    )
                    &&& closing.registry_after(before, RunEvent::<T, E>::Emitted(sent))
                        == before.remove(task.task_id().0)
                },
            }
        }),
{
}

/// A task is cancelled only through its own channel: a run without a task
/// keeps waiting for its future; a run with one closes it as cancelled
/// directly, and then ends with `Cancelled`.
pub proof fn lemma_cancel_returns_cancelled<T, E>(
    handle: Option<OpenTask>,
    sent: Result<(), EmitError>,
    before: Map<u64, TaskData>,
)
    ensures
        ({
            let run = NonTerminal::<E>::Running { handle: handle };
            let (closing, action) = run.next(RunEvent::<T, E>::Cancelled);
            match handle {
                None => closing == run && action == NonTerminalAction::<T, E>::Wait,
                Some(task) => {
                    &&& action == NonTerminalAction::<T, E>::Emit(
                        TaskEvent {
                            id: task.task_id(),
                            body: TaskEventBody::Dropped {
                                status: DropStatus::Cancelled { direct: true },
                            },
                        },
                    )
                    &&& closing.next(RunEvent::<T, E>::Emitted(Ok(()))) == (
                        NonTerminal::<E>::Finished,
                        NonTerminalAction::<T, E>::Return(Err(TaskError::Cancelled)),
                    )
                    &&& closing.registry_after(before, RunEvent::<T, E>::Emitted(sent))
                        == before.remove(task.task_id().0)
                },
            }
        }),
{
}

/// Sending a closing event can fail; the run then ends with that failure
/// as its error, and the task is unregistered all the same.
pub proof fn lemma_failed_closing_is_reported<T, E>(
    id: Id,
    error: TaskError<E>,
    e: EmitError,
    before: Map<u64, TaskData>,
)
    ensures
        (NonTerminal::<E>::Closing { id: id, error: error }).next(RunEvent::<T, E>::Emitted(Err(e))) == (
            NonTerminal::<E>::Finished,
            NonTerminalAction::<T, E>::Return(
                Err(TaskError::Management(ManagementError::Emit(e))),
            ),
        ),
        (NonTerminal::<E>::Closing { id: id, error: error }).registry_after(
            before,
            RunEvent::<T, E>::Emitted(Err(e)),
        ) == before.remove(id.0),
{
}

/// A task run without a frontend ends with its future's value as soon as
/// the future succeeds.
pub proof fn lemma_run_without_frontend_returns_value<T, E>(
    success: Option<SuccessInfo>,
    value: T,
    before: Map<u64, TaskData>,
)
    ensures
        ({
            let run = TaskRun::<T, E>::Running { inner: NonTerminal::Running { handle: None } };
            &&& run.next(RunEvent::Succeeded((success, value))) == (
                TaskRun::<T, E>::Finished,
                RunAction::<T, E>::Return(Ok(value)),
            )
            &&& run.registry_after(before, RunEvent::Succeeded((success, value))) == before
        }),
{
}

/// When a task's future succeeds with `(success, value)`, the run closes the
/// task as succeeded with exactly that `success`, unregisters it once the
/// closing event is sent or has failed, and ends with `value`, or with the
/// failure to send.
pub proof fn lemma_run_success_closes_with_its_info<T, E>(
    task: OpenTask,
    success: Option<SuccessInfo>,
    value: T,
    sent: Result<(), EmitError>,
    before: Map<u64, TaskData>,
)
    ensures
        ({
            let id = task.task_id();
            let run = TaskRun::<T, E>::Running { inner: NonTerminal::Running { handle: Some(task) } };
            let (closing, action) = run.next(RunEvent::Succeeded((success, value)));
            &&& action == RunAction::<T, E>::Emit(
                TaskEvent {
                    id: id,
                    body: TaskEventBody::Dropped { status: DropStatus::Success { success: success } },
                },
            )
            &&& run.registry_after(before, RunEvent::Succeeded((success, value))) == before
            &&& closing.next(RunEvent::Emitted(sent)) == (
                TaskRun::<T, E>::Finished,
                RunAction::<T, E>::Return(
                    match sent {
                        Ok(()) => Ok(value),
                        Err(e) => Err(TaskError::Management(ManagementError::Emit(e))),
                    },
                ),
            )
            &&& closing.registry_after(before, RunEvent::Emitted(sent)) == before.remove(id.0)
        }),
{
}


/// A run whose task has been announced starts the task's future with a
/// handle for it; if the announcement could not be sent, the run ends with
/// that failure and the task stays registered.
pub proof fn lemma_creation_outcome<T, E>(task: OpenTask, e: EmitError, before: Map<u64, TaskData>)
    ensures
        ({
            let run = TaskRun::<T, E>::Creating { task: task };
            let (started, action) = run.next(RunEvent::Emitted(Ok(())));
            &&& started == TaskRun::<T, E>::Running {
                inner: NonTerminal::Running { handle: Some(task) },
            }
            &&& action == RunAction::<T, E>::Start { task: Some(task.task_id()) }
            &&& run.registry_after(before, RunEvent::Emitted(Ok(()))) == before
            &&& run.next(RunEvent::Emitted(Err(e))) == (
                TaskRun::<T, E>::Finished,
                RunAction::<T, E>::Return(
                    Err(
                        TaskError::Management(
                            ManagementError::Create(CreateTaskError::EmitEventFailed(e)),
                        ),
                    ),
                ),
            )
            &&& run.registry_after(before, RunEvent::Emitted(Err(e))) == before
        }),
{
}

/// A run that is over stays over: it does nothing more and leaves the
/// registry alone, whatever comes in.
pub proof fn lemma_finished_run_stays_finished<T, E>(
    event: RunEvent<(Option<SuccessInfo>, T), E>,
    nt_event: RunEvent<T, E>,
    before: Map<u64, TaskData>,
)
    ensures
        TaskRun::<T, E>::Finished.next(event) == (TaskRun::<T, E>::Finished, RunAction::<T, E>::Wait),
        TaskRun::<T, E>::Finished.registry_after(before, event) == before,
        NonTerminal::<E>::Finished.next(nt_event) == (
            NonTerminal::<E>::Finished,
            NonTerminalAction::<T, E>::Wait,
        ),
        NonTerminal::<E>::Finished.registry_after(before, nt_event) == before,
        TaskRun::<T, E>::Finished.abandon_event() is None,
        TaskRun::<T, E>::Finished.registry_after_abandon(before) == before,
{
}

/// When the code running a task goes away, a task that was announced and
/// not yet closed is closed as cancelled, not directly, and unregistered; a
/// run without a task does nothing.
pub proof fn lemma_abandon_closes_held_task<T, E>(task: OpenTask, before: Map<u64, TaskData>)
    ensures
        ({
            let closing = TaskEvent {
                id: task.task_id(),
                body: TaskEventBody::Dropped { status: DropStatus::Cancelled { direct: false } },
            };
            let running = TaskRun::<T, E>::Running {
                inner: NonTerminal::Running { handle: Some(task) },
            };
            let creating = TaskRun::<T, E>::Creating { task: task };
            let detached = TaskRun::<T, E>::Running { inner: NonTerminal::Running { handle: None } };
            &&& running.abandon_event() == Some(closing)
            &&& running.registry_after_abandon(before) == before.remove(task.task_id().0)
            &&& creating.abandon_event() == Some(closing)
            &&& creating.registry_after_abandon(before) == before.remove(task.task_id().0)
            &&& detached.abandon_event() is None
            &&& detached.registry_after_abandon(before) == before
        }),
{
}

/// A run with a frontend starts by announcing its task, registered with its
/// cancellation channel, unless the id is taken; without one it registers
/// nothing.
pub proof fn lemma_begin_registers_only_with_frontend(
    builder: TaskBuilder,
    cancel: Sender<()>,
    before: Map<u64, TaskData>,
)
    ensures
        registry_after_begin(builder, None, before) == before,
        before.contains_key(builder.task_id().0) ==> registry_after_begin(
            builder,
            Some(cancel),
            before,
        ) == before,
        !before.contains_key(builder.task_id().0) ==> registry_after_begin(
            builder,
            Some(cancel),
            before,
        ) == before.insert(builder.task_id().0, TaskData { cancel: Some(cancel) }),
        created(builder.task_id(), builder.task_metadata()) == (TaskEvent {
            id: builder.task_id(),
            body: TaskEventBody::Created { metadata: builder.task_metadata() },
        }),
{
}

} // verus!
