//! The values that tasks are described by and that the frontend is told of.
use vstd::prelude::*;

verus! {

/// Identifies a task for as long as it is registered.
#[derive(Clone, Copy, Debug, PartialEq, Eq, Hash, Structural)]
pub struct Id(pub u64);

/// What sort of work a task does.
#[derive(Clone, Copy, Debug, PartialEq, Eq, Structural)]
pub enum Kind {
    Aggregate,
    Download,
    Other,
}

/// The unit in which a task's progress is counted.
#[derive(Clone, Copy, Debug, PartialEq, Eq, Structural)]
pub enum ProgressUnit {
    Bytes,
    Other,
}

/// What the frontend is told about a task when it is created.
#[derive(Clone, Debug, PartialEq, Eq)]
pub struct Metadata {
    pub title: String,
    pub kind: Kind,
    pub progress_unit: ProgressUnit,
}

/// How far a task has come.
#[derive(Clone, Copy, Debug, PartialEq, Eq, Structural)]
pub struct Progress {
    pub completed: u64,
    pub total: u64,
}

/// Extra information about a task that succeeded.
#[derive(Clone, Copy, Debug, PartialEq, Eq, Structural)]
pub enum SuccessInfo {
    Cached,
}

/// How a task ended.
#[derive(Clone, Debug, PartialEq, Eq)]
pub enum DropStatus {
    Success { success: Option<SuccessInfo> },
    Failed { error: String },
    /// `direct` is true when the task was cancelled through its own
    /// cancellation channel, false when the code running it went away.
    Cancelled { direct: bool },
}

/// The content of an event about a task.
#[derive(Clone, Debug, PartialEq, Eq)]
pub enum TaskEventBody {
    Created { metadata: Metadata },
    Progress { progress: Progress },
    Dependency { dependency: Id },
    Dropped { status: DropStatus },
}

/// An event about the task `id`, to be sent to the frontend.
#[derive(Clone, Debug, PartialEq, Eq)]
pub struct TaskEvent {
    pub id: Id,
    pub body: TaskEventBody,
}

/// Why sending an event to the frontend failed.
#[derive(Clone, Debug, PartialEq, Eq)]
pub struct EmitError {
    pub message: String,
}

/// Why a task could not be created.
#[derive(Clone, Debug, PartialEq, Eq)]
pub enum CreateTaskError {
    /// A task with the same id is still registered: the id counter wrapped
    /// around onto a task that is still running.
    IdCollision,
    /// The task was registered, but telling the frontend failed.
    EmitEventFailed(EmitError),
}

/// Why the bookkeeping around a task failed.
#[derive(Clone, Debug, PartialEq, Eq)]
pub enum ManagementError {
    Create(CreateTaskError),
    Emit(EmitError),
}

/// How running a task can fail.
#[derive(Clone, Debug, PartialEq, Eq)]
pub enum TaskError<E> {
    Cancelled,
    Failed(E),
    Management(ManagementError),
}


/// The event that announces the task `id` with `metadata`.
pub open spec fn created(id: Id, metadata: Metadata) -> TaskEvent {
    TaskEvent { id: id, body: TaskEventBody::Created { metadata: metadata } }
}

/// The event that closes the task `id` with `status`.
pub open spec fn dropped(id: Id, status: DropStatus) -> TaskEvent {
    TaskEvent { id: id, body: TaskEventBody::Dropped { status: status } }
}

pub fn dropped_event(id: Id, status: DropStatus) -> (r: TaskEvent)
    ensures
        r == dropped(id, status),
{
    TaskEvent { id, body: TaskEventBody::Dropped { status } }
}

/// Whether `event` closes the task `id`.
pub open spec fn closes(event: TaskEvent, id: Id) -> bool {
    event.id == id && event.body is Dropped
}

/// How many of `events` close the task `id`.
pub open spec fn closings_among(events: Seq<TaskEvent>, id: Id) -> nat
    decreases events.len(),
{
    if events.len() == 0 {
        0
    } else {
        (if closes(events[0], id) {
            1nat
        } else {
            0nat
        }) + closings_among(events.drop_first(), id)
    }
}

pub proof fn lemma_closings_concat(a: Seq<TaskEvent>, b: Seq<TaskEvent>, id: Id)
    ensures
        closings_among(a + b, id) == closings_among(a, id) + closings_among(b, id),
    decreases a.len(),
{
    if a.len() > 0 {
        lemma_closings_concat(a.drop_first(), b, id);
        assert((a + b).drop_first() == a.drop_first() + b);
        assert((a + b)[0] == a[0]);
    } else {
        assert(a + b == b);
    }
}


/// The announcing event names the task and carries its metadata; the
/// closing event names the task and carries its status; only the closing
/// event closes a task, and only its own.
pub proof fn lemma_event_shapes(id: Id, other: Id, metadata: Metadata, status: DropStatus)
    ensures
        created(id, metadata) == (TaskEvent { id: id, body: TaskEventBody::Created { metadata: metadata } }),
        dropped(id, status) == (TaskEvent { id: id, body: TaskEventBody::Dropped { status: status } }),
        !closes(created(id, metadata), other),
        closes(dropped(id, status), other) <==> id == other,
{
}

} // verus!
