//! The registry of tasks that are running, keyed by their ids.
use std::collections::HashMap;
use tokio::sync::oneshot::Sender;
use vstd::prelude::*;

use crate::tasks::builder::{TaskBuilder, TaskHandle};
use crate::tasks::types::{
    closes, closings_among, created, dropped, dropped_event, lemma_closings_concat,
    CreateTaskError, DropStatus, Id, Metadata, TaskEvent, TaskEventBody,
};

verus! {

broadcast use vstd::std_specs::hash::group_hash_axioms;

/// The sending half of a tokio one-shot channel; a value of it is only
/// carried here, never looked into.
#[verifier::external_type_specification]
#[verifier::external_body]
#[verifier::reject_recursive_types(T)]
pub struct ExOneshotSender<T>(tokio::sync::oneshot::Sender<T>);

/// What the registry keeps of a running task: the channel that cancels it.
pub struct TaskData {
    pub cancel: Option<Sender<()>>,
}

/// The tasks that are running.
pub struct Tasks {
    tasks: HashMap<u64, TaskData>,
}

impl View for Tasks {
    type V = Map<u64, TaskData>;

    closed spec fn view(&self) -> Map<u64, TaskData> {
        self.tasks@
    }
}

impl Tasks {
    /// No task is running.
    pub fn new() -> (r: Tasks)
        ensures
            r@ == Map::<u64, TaskData>::empty(),
    {
        Tasks { tasks: HashMap::new() }
    }

    /// Whether a task with this id is registered.
    pub fn contains(&self, id: Id) -> (r: bool)
        ensures
            r == self@.contains_key(id.0),
    {
        self.tasks.contains_key(&id.0)
    }

    /// Registers the task `id` with the channel that cancels it, unless a
    /// task with that id is already registered.
    pub fn register(&mut self, id: Id, cancel: Sender<()>) -> (r: Result<(), CreateTaskError>)
        ensures
            old(self)@.contains_key(id.0) ==> r == Err::<(), CreateTaskError>(
                CreateTaskError::IdCollision,
            ) && final(self)@ == old(self)@,
            !old(self)@.contains_key(id.0) ==> r is Ok && final(self)@ == old(self)@.insert(
                id.0,
                TaskData { cancel: Some(cancel) },
            ),
    {
        if self.tasks.contains_key(&id.0) {
            Err(CreateTaskError::IdCollision)
        } else {
            self.tasks.insert(id.0, TaskData { cancel: Some(cancel) });
            Ok(())
        }
    }

    /// Forgets the task `id`, if it is registered.
    pub fn unregister(&mut self, id: Id)
        ensures
            final(self)@ == old(self)@.remove(id.0),
    {
        let _ = self.tasks.remove(&id.0);
    }
}

/// Registering a task that is not registered and then unregistering it
/// leaves the registry as it was.
pub proof fn lemma_register_then_unregister(before: Map<u64, TaskData>, id: Id, data: TaskData)
    requires
        !before.contains_key(id.0),
    ensures
        before.insert(id.0, data).remove(id.0) == before,
{
    assert(before.insert(id.0, data).remove(id.0) =~= before);
}


/// A task that is registered and announced, and not yet closed. Whoever
/// holds it is to close it, once: with `close`, `fail` or `abandon`, or by
/// handing it to a run that closes it.
pub struct OpenTask {
    id: Id,
}

impl OpenTask {
    pub closed spec fn task_id(&self) -> Id {
        self.id
    }

    pub fn id(&self) -> (r: Id)
        ensures
            r == self.task_id(),
    {
        self.id
    }

    /// The handle through which the task's code reports on it.
    pub fn handle(&self) -> (r: TaskHandle)
        ensures
            r.task() == Some(self.task_id()),
    {
        TaskHandle::new(Some(self.id))
    }

    /// Closes the task with `status`: unregisters it and gives the event
    /// that tells the frontend.
    pub fn close(self, tasks: &mut Tasks, status: DropStatus) -> (r: TaskEvent)
        ensures
            r == dropped(self.task_id(), status),
            final(tasks)@ == old(tasks)@.remove(self.task_id().0),
    {
        tasks.unregister(self.id);
        dropped_event(self.id, status)
    }

    /// Closes the task as failed with the error text `text`.
    pub fn fail(self, tasks: &mut Tasks, text: String) -> (r: TaskEvent)
        ensures
            r == dropped(self.task_id(), DropStatus::Failed { error: text }),
            final(tasks)@ == old(tasks)@.remove(self.task_id().0),
    {
        self.close(tasks, DropStatus::Failed { error: text })
    }

    /// Closes the task because the code holding it went away: as cancelled,
    /// though not through its own channel.
    pub fn abandon(self, tasks: &mut Tasks) -> (r: TaskEvent)
        ensures
            r == dropped(self.task_id(), DropStatus::Cancelled { direct: false }),
            final(tasks)@ == old(tasks)@.remove(self.task_id().0),
    {
        self.close(tasks, DropStatus::Cancelled { direct: false })
    }
}

impl Tasks {
    /// Creates the task that `builder` describes: registers it with the
    /// channel that cancels it, unless its id is taken, and gives the event
    /// that announces it. The task stays registered until it is closed, also
    /// if the announcement cannot be sent.
    pub fn create(&mut self, builder: TaskBuilder, cancel: Sender<()>) -> (r: Result<
        (OpenTask, TaskEvent),
        CreateTaskError,
    >)
        ensures
            old(self)@.contains_key(builder.task_id().0) ==> r == Err::<(OpenTask, TaskEvent), _>(
                CreateTaskError::IdCollision,
            ) && final(self)@ == old(self)@,
            !old(self)@.contains_key(builder.task_id().0) ==> (r matches Ok((task, event)) && {
                &&& task.task_id() == builder.task_id()
                &&& event == created(builder.task_id(), builder.task_metadata())
                &&& final(self)@ == old(self)@.insert(
                    builder.task_id().0,
                    TaskData { cancel: Some(cancel) },
                )
            }),
    {
        let (id, metadata) = builder.into_parts();
        match self.register(id, cancel) {
            Err(e) => Err(e),
            Ok(()) => Ok((OpenTask { id }, TaskEvent { id, body: TaskEventBody::Created { metadata } })),
        }
    }
}

/// The event that `OpenTask::close`, `fail` and `abandon` give closes the
/// task once.
pub proof fn lemma_closing_event_closes_once(id: Id, status: DropStatus)
    ensures
        closings_among(seq![dropped(id, status)], id) == 1,
{
    reveal_with_fuel(closings_among, 2);
    assert(seq![dropped(id, status)].drop_first() == Seq::<TaskEvent>::empty());
    assert(closes(seq![dropped(id, status)][0], id));
}

/// A created task is closed once. Its life is its announcement, then what
/// its holder sends while it is open (reports, which never close a task, see
/// `lemma_reports_do_not_close`, and the events of runs that hand the task
/// back, which close nothing, see `lemma_non_terminal_hands_back_or_closes`),
/// then its ending: the event of `OpenTask::close`, `fail` or `abandon`
/// (see `lemma_closing_event_closes_once`), or the events of a run that
/// closes it, which close it once. Then the events of its whole life hold
/// exactly one that closes it, and the registry is as it was before the
/// task was created.
pub proof fn lemma_open_task_closed_once(
    before: Map<u64, TaskData>,
    id: Id,
    metadata: Metadata,
    data: TaskData,
    between: Seq<TaskEvent>,
    ending: Seq<TaskEvent>,
)
    requires
        !before.contains_key(id.0),
        closings_among(between, id) == 0,
        closings_among(ending, id) == 1,
    ensures
        closings_among(seq![created(id, metadata)] + between + ending, id) == 1,
        before.insert(id.0, data).remove(id.0) == before,
{
    let first = seq![created(id, metadata)];
    lemma_closings_concat(first, between, id);
    lemma_closings_concat(first + between, ending, id);
    assert(closings_among(first, id) == 0) by {
        reveal_with_fuel(closings_among, 2);
        assert(first.drop_first() == Seq::<TaskEvent>::empty());
        assert(!closes(first[0], id));
    }
    assert(before.insert(id.0, data).remove(id.0) =~= before);
}

/// What a task's code reports through its handle never closes a task.
pub proof fn lemma_reports_do_not_close(handle: TaskHandle, completed: u64, total: u64, dependency: Id, id: Id)
    ensures
        handle.task() matches Some(task) ==> !closes(
            TaskEvent {
                id: task,
                body: TaskEventBody::Progress {
                    progress: crate::tasks::types::Progress { completed: completed, total: total },
                },
            },
            id,
        ) && !closes(
            TaskEvent { id: task, body: TaskEventBody::Dependency { dependency: dependency } },
            id,
        ),
{
}

} // verus!
