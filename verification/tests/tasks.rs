use manderrow::tasks::builder::{allocate_task, IdAllocator, TaskBuilder, TaskHandle};
use manderrow::tasks::registry::Tasks;
use manderrow::tasks::run::{NonTerminal, NonTerminalAction, RunAction, RunEvent, TaskRun};
use manderrow::tasks::types::{
    CreateTaskError, DropStatus, EmitError, Id, Kind, ManagementError, Metadata, Progress,
    ProgressUnit, SuccessInfo, TaskError, TaskEvent, TaskEventBody,
};

fn sender() -> tokio::sync::oneshot::Sender<()> {
    tokio::sync::oneshot::channel().0
}

fn dropped(id: u64, status: DropStatus) -> TaskEvent {
    TaskEvent { id: Id(id), body: TaskEventBody::Dropped { status } }
}

fn emit_failure() -> EmitError {
    EmitError { message: "window closed".to_string() }
}

#[test]
fn ids_count_up() {
    let mut ids = IdAllocator::new();
    assert_eq!(allocate_task(&mut ids), Id(0));
    assert_eq!(allocate_task(&mut ids), Id(1));
    assert_eq!(allocate_task(&mut ids), Id(2));
}

#[test]
fn builder_new_takes_the_next_id() {
    let mut ids = IdAllocator::new();
    let _ = allocate_task(&mut ids);
    let b = TaskBuilder::new("Downloading".to_string(), &mut ids);
    assert_eq!(b.id(), Id(1));
    assert_eq!(
        b.metadata(),
        &Metadata { title: "Downloading".to_string(), kind: Kind::Other, progress_unit: ProgressUnit::Other }
    );
    assert_eq!(allocate_task(&mut ids), Id(2));
}

#[test]
fn builder_setters() {
    let b = TaskBuilder::with_id(Id(7), "t".to_string()).kind(Kind::Download).progress_unit(ProgressUnit::Bytes);
    let (id, metadata) = b.into_parts();
    assert_eq!(id, Id(7));
    assert_eq!(metadata, Metadata { title: "t".to_string(), kind: Kind::Download, progress_unit: ProgressUnit::Bytes });
}

#[test]
fn registry_refuses_a_taken_id() {
    let mut tasks = Tasks::new();
    assert_eq!(tasks.register(Id(3), sender()), Ok(()));
    assert!(tasks.contains(Id(3)));
    assert_eq!(tasks.register(Id(3), sender()), Err(CreateTaskError::IdCollision));
    tasks.unregister(Id(3));
    assert!(!tasks.contains(Id(3)));
    assert_eq!(tasks.register(Id(3), sender()), Ok(()));
}

#[test]
fn handle_events() {
    let h = TaskHandle::new(Some(Id(4)));
    assert_eq!(
        h.progress_event(3, 10),
        Some(TaskEvent { id: Id(4), body: TaskEventBody::Progress { progress: Progress { completed: 3, total: 10 } } })
    );
    assert_eq!(
        h.dependency_event(Id(9)),
        Some(TaskEvent { id: Id(4), body: TaskEventBody::Dependency { dependency: Id(9) } })
    );
    let none = TaskHandle::new(None);
    assert_eq!(none.progress_event(1, 2), None);
    assert_eq!(none.dependency_event(Id(1)), None);
}

#[test]
fn allocate_dependency_reports_the_new_id() {
    let mut ids = IdAllocator::new();
    let h = TaskHandle::new(Some(Id(100)));
    let (dep, ev) = h.allocate_dependency(&mut ids);
    assert_eq!(dep, Id(0));
    assert_eq!(ev, Some(TaskEvent { id: Id(100), body: TaskEventBody::Dependency { dependency: Id(0) } }));
    let (dep, ev) = TaskHandle::new(None).allocate_dependency(&mut ids);
    assert_eq!(dep, Id(1));
    assert_eq!(ev, None);
}

type Run = TaskRun<u32, String>;
type Ev = RunEvent<(Option<SuccessInfo>, u32), String>;

#[test]
fn run_with_frontend_succeeds() {
    let mut tasks = Tasks::new();
    let b = TaskBuilder::with_id(Id(5), "t".to_string());
    let (mut run, a): (Run, _) = TaskRun::begin(b, Some(sender()), &mut tasks);
    match a {
        RunAction::Emit(ev) => assert_eq!(ev.id, Id(5)),
        _ => panic!("expected the creation event"),
    }
    assert!(tasks.contains(Id(5)));
    assert!(matches!(run.step(&mut tasks, Ev::Emitted(Ok(()))), RunAction::Start { task: Some(Id(5)) }));
    assert!(matches!(run.step(&mut tasks, Ev::Emitted(Ok(()))), RunAction::Wait));
    match run.step(&mut tasks, Ev::Succeeded((Some(SuccessInfo::Cached), 42))) {
        RunAction::Emit(ev) => assert_eq!(ev, dropped(5, DropStatus::Success { success: Some(SuccessInfo::Cached) })),
        _ => panic!("expected the closing event"),
    }
    assert!(tasks.contains(Id(5)));
    assert!(matches!(run.step(&mut tasks, Ev::Emitted(Ok(()))), RunAction::Return(Ok(42))));
    assert!(!tasks.contains(Id(5)));
    assert!(matches!(run.step(&mut tasks, Ev::Cancelled), RunAction::Wait));
}

#[test]
fn run_without_frontend() {
    let mut tasks = Tasks::new();
    let b = TaskBuilder::with_id(Id(5), "t".to_string());
    let (mut run, a): (Run, _) = TaskRun::begin(b, None, &mut tasks);
    assert!(matches!(a, RunAction::Start { task: None }));
    assert!(!tasks.contains(Id(5)));
    assert!(matches!(run.step(&mut tasks, Ev::Cancelled), RunAction::Wait));
    match run.step(&mut tasks, Ev::Failed { error: "boom".to_string(), text: "boom".to_string() }) {
        RunAction::Return(Err(TaskError::Failed(e))) => assert_eq!(e, "boom"),
        _ => panic!("expected the failure"),
    }
}

#[test]
fn run_cancelled() {
    let mut tasks = Tasks::new();
    let (mut run, _): (Run, _) = TaskRun::begin(TaskBuilder::with_id(Id(1), "t".to_string()), Some(sender()), &mut tasks);
    run.step(&mut tasks, Ev::Emitted(Ok(())));
    match run.step(&mut tasks, Ev::Cancelled) {
        RunAction::Emit(ev) => assert_eq!(ev, dropped(1, DropStatus::Cancelled { direct: true })),
        _ => panic!("expected the closing event"),
    }
    assert!(matches!(run.step(&mut tasks, Ev::Emitted(Ok(()))), RunAction::Return(Err(TaskError::Cancelled))));
    assert!(!tasks.contains(Id(1)));
}

#[test]
fn run_failure_reports_its_text() {
    let mut tasks = Tasks::new();
    let (mut run, _): (Run, _) = TaskRun::begin(TaskBuilder::with_id(Id(2), "t".to_string()), Some(sender()), &mut tasks);
    run.step(&mut tasks, Ev::Emitted(Ok(())));
    match run.step(&mut tasks, Ev::Failed { error: "e".to_string(), text: "disk full".to_string() }) {
        RunAction::Emit(ev) => assert_eq!(ev, dropped(2, DropStatus::Failed { error: "disk full".to_string() })),
        _ => panic!("expected the closing event"),
    }
    match run.step(&mut tasks, Ev::Emitted(Err(emit_failure()))) {
        RunAction::Return(Err(TaskError::Management(ManagementError::Emit(e)))) => assert_eq!(e, emit_failure()),
        _ => panic!("expected a management error"),
    }
    assert!(!tasks.contains(Id(2)));
}

#[test]
fn run_with_taken_id() {
    let mut tasks = Tasks::new();
    tasks.register(Id(8), sender()).unwrap();
    let (mut run, a): (Run, _) = TaskRun::begin(TaskBuilder::with_id(Id(8), "t".to_string()), Some(sender()), &mut tasks);
    assert!(matches!(
        a,
        RunAction::Return(Err(TaskError::Management(ManagementError::Create(CreateTaskError::IdCollision))))
    ));
    assert!(matches!(run.step(&mut tasks, Ev::Emitted(Ok(()))), RunAction::Wait));
    assert!(tasks.contains(Id(8)));
}

#[test]
fn run_whose_creation_cannot_be_announced() {
    let mut tasks = Tasks::new();
    let (mut run, _): (Run, _) = TaskRun::begin(TaskBuilder::with_id(Id(9), "t".to_string()), Some(sender()), &mut tasks);
    match run.step(&mut tasks, Ev::Emitted(Err(emit_failure()))) {
        RunAction::Return(Err(TaskError::Management(ManagementError::Create(CreateTaskError::EmitEventFailed(e))))) => {
            assert_eq!(e, emit_failure())
        }
        _ => panic!("expected a creation error"),
    }
    // The task stays registered.
    assert!(tasks.contains(Id(9)));
}

#[test]
fn abandoned_run_closes_its_task() {
    let mut tasks = Tasks::new();
    let (mut run, _): (Run, _) = TaskRun::begin(TaskBuilder::with_id(Id(6), "t".to_string()), Some(sender()), &mut tasks);
    run.step(&mut tasks, Ev::Emitted(Ok(())));
    assert_eq!(run.abandon(&mut tasks), Some(dropped(6, DropStatus::Cancelled { direct: false })));
    assert!(!tasks.contains(Id(6)));
}

#[test]
fn non_terminal_hands_the_task_back() {
    let mut tasks = Tasks::new();
    let (task, _) = tasks.create(TaskBuilder::with_id(Id(3), "t".to_string()), sender()).unwrap();
    let mut nt: NonTerminal<String> = NonTerminal::start(Some(task));
    match nt.step(&mut tasks, RunEvent::<u8, String>::Succeeded(7)) {
        NonTerminalAction::Return(Ok((Some(task), 7))) => {
            assert_eq!(task.id(), Id(3));
            assert!(tasks.contains(Id(3)));
            let mut nt: NonTerminal<String> = NonTerminal::start(Some(task));
            assert!(matches!(
                nt.step(&mut tasks, RunEvent::<u8, String>::Failed { error: "x".to_string(), text: "x".to_string() }),
                NonTerminalAction::Emit(_)
            ));
            assert!(matches!(
                nt.step(&mut tasks, RunEvent::<u8, String>::Emitted(Ok(()))),
                NonTerminalAction::Return(Err(TaskError::Failed(_)))
            ));
            assert!(!tasks.contains(Id(3)));
        }
        _ => panic!("expected the task back"),
    }
}

#[test]
fn open_task_create_and_close() {
    let mut tasks = Tasks::new();
    let b = TaskBuilder::with_id(Id(21), "t".to_string()).kind(Kind::Download);
    let (task, event) = tasks.create(b, sender()).unwrap();
    assert_eq!(
        event,
        TaskEvent {
            id: Id(21),
            body: TaskEventBody::Created {
                metadata: Metadata { title: "t".to_string(), kind: Kind::Download, progress_unit: ProgressUnit::Other }
            }
        }
    );
    assert_eq!(task.handle().id(), Some(Id(21)));
    assert!(matches!(
        tasks.create(TaskBuilder::with_id(Id(21), "u".to_string()), sender()),
        Err(CreateTaskError::IdCollision)
    ));
    let ev = task.close(&mut tasks, DropStatus::Success { success: None });
    assert_eq!(ev, dropped(21, DropStatus::Success { success: None }));
    assert!(!tasks.contains(Id(21)));
}

#[test]
fn open_task_fail_and_abandon() {
    let mut tasks = Tasks::new();
    let (task, _) = tasks.create(TaskBuilder::with_id(Id(22), "t".to_string()), sender()).unwrap();
    assert_eq!(task.fail(&mut tasks, "oops".to_string()), dropped(22, DropStatus::Failed { error: "oops".to_string() }));
    assert!(!tasks.contains(Id(22)));
    let (task, _) = tasks.create(TaskBuilder::with_id(Id(22), "t".to_string()), sender()).unwrap();
    assert_eq!(task.abandon(&mut tasks), dropped(22, DropStatus::Cancelled { direct: false }));
    assert!(!tasks.contains(Id(22)));
}

#[test]
fn abandoned_run_closes_an_announced_task() {
    let mut tasks = Tasks::new();
    let (run, _): (Run, _) = TaskRun::begin(TaskBuilder::with_id(Id(11), "t".to_string()), Some(sender()), &mut tasks);
    assert!(tasks.contains(Id(11)));
    assert_eq!(run.abandon(&mut tasks), Some(dropped(11, DropStatus::Cancelled { direct: false })));
    assert!(!tasks.contains(Id(11)));
}
