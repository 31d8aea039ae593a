use thread_init::{Action, CreatorPhase, Event, ExecutionFailure, Invocation, WorkerPhase};

fn spawned<T>() -> Invocation<T> {
    let mut inv = Invocation::new();
    assert_eq!(inv.step(Event::SpawnSucceeded), Action::Wait);
    inv
}

#[test]
fn init_borrow_then_owned_result() {
    let hello = String::from("hello");
    let world = String::from("world");
    let mut inv: Invocation<String> = spawned();
    assert!(inv.is_borrow_live());
    let hi = hello.clone();
    assert_eq!(inv.step(Event::InitReturned), Action::RunContinuation);
    assert!(!inv.is_borrow_live());
    assert_eq!(inv.step(Event::SignalReceived), Action::ReturnHandle);
    assert_eq!(inv.creator, CreatorPhase::Resumed);
    assert_eq!(hello, "hello");
    assert_eq!(hi, "hello");
    assert_eq!(inv.step(Event::ExecReturned(world)), Action::RecordOutcome);
    assert_eq!(inv.join(), Some(Ok(String::from("world"))));
}

#[test]
fn creation_failure_gives_no_handle() {
    let mut inv: Invocation<u32> = Invocation::new();
    assert_eq!(inv.step(Event::SpawnFailed), Action::ReportCreationError);
    assert_eq!(inv.creator, CreatorPhase::CreationFailed);
    assert!(!inv.can_resume());
    assert_eq!(inv.step(Event::SignalReceived), Action::Ignore);
    assert_eq!(inv.step(Event::InitReturned), Action::Ignore);
    assert_eq!(inv.join(), None);
}

#[test]
fn init_panic_still_unblocks_creator() {
    let mut inv: Invocation<u32> = spawned();
    assert_eq!(inv.step(Event::InitPanicked), Action::RecordOutcome);
    assert!(inv.can_resume());
    assert_eq!(inv.step(Event::SignalReceived), Action::ReturnHandle);
    assert_eq!(inv.creator, CreatorPhase::Resumed);
    assert_eq!(inv.step(Event::ExecReturned(3)), Action::Ignore);
    assert_eq!(inv.join(), Some(Err(ExecutionFailure)));
}

#[test]
fn creator_keeps_waiting_until_guard_fires() {
    let mut inv: Invocation<u32> = spawned();
    assert!(!inv.can_resume());
    assert_eq!(inv.step(Event::SignalReceived), Action::Wait);
    assert_eq!(inv.creator, CreatorPhase::Waiting);
    assert!(inv.is_borrow_live());
    assert_eq!(inv.step(Event::InitReturned), Action::RunContinuation);
    assert_eq!(inv.step(Event::SignalReceived), Action::ReturnHandle);
}

#[test]
fn resumed_creator_never_sees_borrow_again() {
    let mut inv: Invocation<u32> = spawned();
    inv.step(Event::InitReturned);
    inv.step(Event::SignalReceived);
    assert_eq!(inv.step(Event::SpawnSucceeded), Action::Ignore);
    assert_eq!(inv.step(Event::InitPanicked), Action::Ignore);
    assert_eq!(inv.step(Event::SignalReceived), Action::Ignore);
    assert!(!inv.is_borrow_live());
    assert_eq!(inv.creator, CreatorPhase::Resumed);
}

#[test]
fn continuation_panic_reported_by_join() {
    let mut inv: Invocation<u32> = spawned();
    inv.step(Event::InitReturned);
    inv.step(Event::SignalReceived);
    assert_eq!(inv.step(Event::ExecPanicked), Action::RecordOutcome);
    assert_eq!(inv.join(), Some(Err(ExecutionFailure)));
}

#[test]
fn join_yields_the_returned_value_not_a_default() {
    let mut inv: Invocation<u32> = spawned();
    inv.step(Event::InitReturned);
    assert_eq!(inv.step(Event::ExecReturned(42)), Action::RecordOutcome);
    assert_eq!(inv.step(Event::ExecReturned(7)), Action::Ignore);
    assert!(matches!(inv.worker, WorkerPhase::Finished(42)));
    assert_eq!(inv.join(), Some(Ok(42)));
}

#[test]
fn join_before_worker_ends_has_nothing() {
    let inv: Invocation<u32> = spawned();
    assert_eq!(inv.join(), None);
    let mut running: Invocation<u32> = spawned();
    running.step(Event::InitReturned);
    assert_eq!(running.join(), None);
}

#[test]
fn second_spawn_event_is_ignored() {
    let mut inv: Invocation<u32> = spawned();
    assert_eq!(inv.step(Event::SpawnSucceeded), Action::Ignore);
    assert_eq!(inv.step(Event::SpawnFailed), Action::Ignore);
    assert_eq!(inv.creator, CreatorPhase::Waiting);
}

#[test]
fn concurrent_invocations_are_independent() {
    let mut a: Invocation<u32> = spawned();
    let mut b: Invocation<u32> = spawned();
    a.step(Event::InitReturned);
    assert!(a.can_resume());
    assert!(!b.can_resume());
    assert_eq!(b.step(Event::SignalReceived), Action::Wait);
    assert_eq!(a.step(Event::SignalReceived), Action::ReturnHandle);
    assert_eq!(b.creator, CreatorPhase::Waiting);
}
