//! Task ids, the builder that describes a task before it is created, and
//! the handle through which a running task reports to the frontend.
use vstd::prelude::*;

use crate::tasks::types::{Id, Kind, Metadata, Progress, ProgressUnit, TaskEvent, TaskEventBody};

verus! {

/// Hands out task ids: the successive values of a 64-bit counter, which
/// wraps around.
pub struct IdAllocator {
    next: u64,
}

/// The id handed out `k` allocations after the counter stood at `start`.
pub open spec fn nth_id(start: u64, k: nat) -> u64 {
    ((start + k) % 0x1_0000_0000_0000_0000) as u64
}

impl IdAllocator {
    /// The value of the counter: the id the next allocation hands out.
    pub closed spec fn next_id(&self) -> u64 {
        self.next
    }

    /// A counter that starts at zero.
    pub fn new() -> (r: IdAllocator)
        ensures
            r.next_id() == 0,
    {
        IdAllocator { next: 0 }
    }
}

/// Hands out a fresh task id and advances the counter, wrapping around
/// after the largest `u64`.
pub fn allocate_task(ids: &mut IdAllocator) -> (id: Id)
    ensures
        id.0 == old(ids).next_id(),
        id.0 == nth_id(old(ids).next_id(), 0),
        final(ids).next_id() == nth_id(old(ids).next_id(), 1),
{
    let id = ids.next;
    ids.next = if ids.next == u64::MAX {
        0
    } else {
        ids.next + 1
    };
    Id(id)
}

/// Counting `k` allocations from where the counter stands after one is
/// counting `k + 1` from where it stood before.
pub proof fn lemma_nth_id_step(start: u64, k: nat)
    ensures
        nth_id(nth_id(start, 1), k) == nth_id(start, k + 1),
{
    let m: int = 0x1_0000_0000_0000_0000;
    let a = nth_id(start, 1) as int;
    assert(a == (start + 1) % m);
    assert((a + k) % m == (start + 1 + k) % m) by {
        vstd::arithmetic::div_mod::lemma_add_mod_noop(start + 1, k as int, m);
        vstd::arithmetic::div_mod::lemma_mod_twice(k as int, m);
        vstd::arithmetic::div_mod::lemma_add_mod_noop(a, k as int, m);
        vstd::arithmetic::div_mod::lemma_mod_twice(start + 1, m);
    }
}

/// Fewer than 2^64 successive allocations never hand out the same id twice.
pub proof fn lemma_ids_distinct(start: u64, i: nat, j: nat)
    requires
        i < j < 0x1_0000_0000_0000_0000,
    ensures
        nth_id(start, i) != nth_id(start, j),
{
    let m: int = 0x1_0000_0000_0000_0000;
    let a: int = start + i;
    let b: int = start + j;
    if a % m == b % m {
        vstd::arithmetic::div_mod::lemma_fundamental_div_mod(a, m);
        vstd::arithmetic::div_mod::lemma_fundamental_div_mod(b, m);
        assert(b - a == m * (b / m) - m * (a / m));
        assert(m * (b / m) - m * (a / m) == m * (b / m - a / m)) by (nonlinear_arith);
        assert(0 < b - a < m);
        if b / m - a / m >= 1 {
            assert(m * (b / m - a / m) >= m) by (nonlinear_arith)
                requires
                    b / m - a / m >= 1,
                    m > 0,
            ;
        } else {
            assert(m * (b / m - a / m) <= 0) by (nonlinear_arith)
                requires
                    b / m - a / m <= 0,
                    m > 0,
            ;
        }
    }
}

/// Describes a task before it is created.
pub struct TaskBuilder {
    id: Id,
    metadata: Metadata,
}

impl TaskBuilder {
    pub closed spec fn task_id(&self) -> Id {
        self.id
    }

    pub closed spec fn task_metadata(&self) -> Metadata {
        self.metadata
    }

    /// A task titled `title`, of kind `Other` counted in `Other` units, with
    /// a freshly allocated id.
    pub fn new(title: String, ids: &mut IdAllocator) -> (r: TaskBuilder)
        ensures
            r.task_id().0 == old(ids).next_id(),
            final(ids).next_id() == nth_id(old(ids).next_id(), 1),
            r.task_metadata() == (Metadata {
                title: title,
                kind: Kind::Other,
                progress_unit: ProgressUnit::Other,
            }),
    {
        let id = allocate_task(ids);
        Self::with_id(id, title)
    }

    /// A task titled `title`, of kind `Other` counted in `Other` units,
    /// with the given id.
    pub fn with_id(id: Id, title: String) -> (r: TaskBuilder)
        ensures
            r.task_id() == id,
            r.task_metadata() == (Metadata {
                title: title,
                kind: Kind::Other,
                progress_unit: ProgressUnit::Other,
            }),
    {
        TaskBuilder {
            id,
            metadata: Metadata { title, kind: Kind::Other, progress_unit: ProgressUnit::Other },
        }
    }

    /// The same task, of kind `kind`.
    pub fn kind(self, kind: Kind) -> (r: TaskBuilder)
        ensures
            r.task_id() == self.task_id(),
            r.task_metadata() == (Metadata { kind: kind, ..self.task_metadata() }),
    {
        let mut this = self;
        this.metadata.kind = kind;
        this
    }

    /// The same task, its progress counted in `progress_unit`.
    pub fn progress_unit(self, progress_unit: ProgressUnit) -> (r: TaskBuilder)
        ensures
            r.task_id() == self.task_id(),
            r.task_metadata() == (Metadata { progress_unit: progress_unit, ..self.task_metadata() }),
    {
        let mut this = self;
        this.metadata.progress_unit = progress_unit;
        this
    }

    pub fn id(&self) -> (r: Id)
        ensures
            r == self.task_id(),
    {
        self.id
    }

    pub fn metadata(&self) -> (r: &Metadata)
        ensures
            *r == self.task_metadata(),
    {
        &self.metadata
    }

    /// Takes the builder apart into the task's id and metadata.
    pub fn into_parts(self) -> (r: (Id, Metadata))
        ensures
            r == (self.task_id(), self.task_metadata()),
    {
        (self.id, self.metadata)
    }
}

/// What the code running a task holds to report on it: the task's id, or
/// nothing when the task runs without a frontend to report to.
#[derive(Clone, Copy, Debug, PartialEq, Eq, Structural)]
pub struct TaskHandle(Option<Id>);

impl TaskHandle {
    pub closed spec fn task(&self) -> Option<Id> {
        self.0
    }

    pub fn new(task: Option<Id>) -> (r: TaskHandle)
        ensures
            r.task() == task,
    {
        TaskHandle(task)
    }

    pub fn id(&self) -> (r: Option<Id>)
        ensures
            r == self.task(),
    {
        self.0
    }

    /// The event that reports `completed` out of `total` units done, if
    /// there is a task to report on.
    pub fn progress_event(&self, completed: u64, total: u64) -> (r: Option<TaskEvent>)
        ensures
            r == match self.task() {
                Some(id) => Some(
                    TaskEvent {
                        id: id,
                        body: TaskEventBody::Progress {
                            progress: Progress { completed: completed, total: total },
                        },
                    },
                ),
                None => None::<TaskEvent>,
            },
    {
        match self.0 {
            Some(id) => Some(
                TaskEvent {
                    id,
                    body: TaskEventBody::Progress { progress: Progress { completed, total } },
                },
            ),
            None => None,
        }
    }

    /// The event that reports that the task waits on the task
    /// `dependency`, if there is a task to report on.
    pub fn dependency_event(&self, dependency: Id) -> (r: Option<TaskEvent>)
        ensures
            r == match self.task() {
                Some(id) => Some(
                    TaskEvent { id: id, body: TaskEventBody::Dependency { dependency: dependency } },
                ),
                None => None::<TaskEvent>,
            },
    {
        match self.0 {
            Some(id) => Some(TaskEvent { id, body: TaskEventBody::Dependency { dependency } }),
            None => None,
        }
    }

    /// Allocates the id of a task that this one will wait on, and the event
    /// that reports the dependency.
    pub fn allocate_dependency(&self, ids: &mut IdAllocator) -> (r: (Id, Option<TaskEvent>))
        ensures
            r.0.0 == old(ids).next_id(),
            final(ids).next_id() == nth_id(old(ids).next_id(), 1),
            r.1 == match self.task() {
                Some(id) => Some(
                    TaskEvent { id: id, body: TaskEventBody::Dependency { dependency: r.0 } },
                ),
                None => None::<TaskEvent>,
            },
    {
        let dependency = allocate_task(ids);
        let event = self.dependency_event(dependency);
        (dependency, event)
    }
}


/// An allocation hands out the counter's value and moves the counter on by
/// one, from the largest `u64` back to zero.
pub proof fn lemma_allocation_counts_up(start: u64)
    ensures
        nth_id(start, 0) == start,
        start < u64::MAX ==> nth_id(start, 1) == start + 1,
        start == u64::MAX ==> nth_id(start, 1) == 0,
{
}

} // verus!
