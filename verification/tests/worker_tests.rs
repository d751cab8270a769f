use agent_bridge::dispatch::dispatch;
use agent_bridge::runtime::RuntimeLifecycle;
use agent_bridge::worker::{
    agent_module_name, entry_function_name, next_action, Invocation, WorkerAction, WorkerState,
};

fn prepared_runtime() -> RuntimeLifecycle {
    let mut rt = RuntimeLifecycle::new();
    rt.initialize();
    rt
}

/// Drive a fresh run to the Invoked state with every step succeeding.
fn run_to_invoked(instruction: &str) -> Invocation {
    let rt = prepared_runtime();
    let mut run = Invocation::new(String::from(instruction));
    run.acquire_runtime(&rt, Ok(()));
    run.step(Ok(())); // search path registered
    run.step(Ok(())); // module imported
    run.step(Ok(())); // entry function called
    run
}

#[test]
fn the_well_known_names_are_fixed() {
    assert_eq!(agent_module_name(), "agent");
    assert_eq!(entry_function_name(), "run_agent");
}

#[test]
fn a_run_walks_the_states_in_order() {
    let rt = prepared_runtime();
    let mut run = Invocation::new(String::from("go"));
    assert!(matches!(run.state, WorkerState::Scheduled));
    run.acquire_runtime(&rt, Ok(()));
    assert!(matches!(run.state, WorkerState::LockAcquired));
    run.step(Ok(()));
    assert!(matches!(run.state, WorkerState::PathConfigured));
    run.step(Ok(()));
    assert!(matches!(run.state, WorkerState::ModuleLoaded));
    run.step(Ok(()));
    assert!(matches!(run.state, WorkerState::Invoked));
    run.step(Ok(()));
    assert!(matches!(run.state, WorkerState::Completed));
    assert_eq!(run.failure(), None);
}

#[test]
fn each_state_names_its_pending_work() {
    assert_eq!(
        next_action(&WorkerState::Scheduled),
        Some(WorkerAction::AcquireRuntimeLock)
    );
    assert_eq!(
        next_action(&WorkerState::LockAcquired),
        Some(WorkerAction::ConfigureSearchPath)
    );
    assert_eq!(
        next_action(&WorkerState::PathConfigured),
        Some(WorkerAction::ImportAgentModule)
    );
    assert_eq!(
        next_action(&WorkerState::ModuleLoaded),
        Some(WorkerAction::CallEntryFunction)
    );
    assert_eq!(
        next_action(&WorkerState::Invoked),
        Some(WorkerAction::AwaitEntryReturn)
    );
    assert_eq!(next_action(&WorkerState::Completed), None);
    assert_eq!(
        next_action(&WorkerState::Failed(String::from("boom"))),
        None
    );
}

#[test]
fn lock_failure_ends_the_run() {
    let rt = prepared_runtime();
    let mut run = Invocation::new(String::from("go"));
    run.acquire_runtime(&rt, Err(String::from("lock poisoned")));
    assert_eq!(run.failure().map(String::as_str), Some("lock poisoned"));
}

#[test]
fn path_failure_ends_the_run() {
    let rt = prepared_runtime();
    let mut run = Invocation::new(String::from("go"));
    run.acquire_runtime(&rt, Ok(()));
    run.step(Err(String::from("sys.path unavailable")));
    assert_eq!(
        run.failure().map(String::as_str),
        Some("sys.path unavailable")
    );
}

#[test]
fn import_failure_ends_the_run() {
    let rt = prepared_runtime();
    let mut run = Invocation::new(String::from("go"));
    run.acquire_runtime(&rt, Ok(()));
    run.step(Ok(()));
    run.step(Err(String::from("ModuleNotFoundError: agent")));
    assert_eq!(
        run.failure().map(String::as_str),
        Some("ModuleNotFoundError: agent")
    );
}

#[test]
fn entry_failure_ends_the_run() {
    let mut run = run_to_invoked("go");
    run.step(Err(String::from("RuntimeError: agent crashed")));
    assert_eq!(
        run.failure().map(String::as_str),
        Some("RuntimeError: agent crashed")
    );
}

#[test]
fn a_run_records_what_the_program_emits_in_order() {
    let mut run = run_to_invoked("summarize");
    run.emit("start", String::from("reading input"));
    run.emit("progress", String::from("thinking"));
    run.emit("done", String::from("summary ready"));
    run.step(Ok(()));

    assert!(matches!(run.state, WorkerState::Completed));
    assert_eq!(run.log.events.len(), 3);
    assert_eq!(run.log.events[0].kind, "agent-start");
    assert_eq!(run.log.events[1].kind, "agent-progress");
    assert_eq!(run.log.events[2].kind, "agent-done");
    assert_eq!(run.log.events[2].payload, "summary ready");
    // The instruction rode along unchanged.
    assert_eq!(run.instruction, "summarize");
}

#[test]
fn concurrent_runs_have_independent_event_streams() {
    let (ack_a, run_a) = dispatch(String::from("job a"));
    let (ack_b, run_b) = dispatch(String::from("job b"));
    assert!(ack_a.is_ok());
    assert!(ack_b.is_ok());

    let rt = prepared_runtime();
    let mut a = run_a;
    let mut b = run_b;
    a.acquire_runtime(&rt, Ok(()));
    b.acquire_runtime(&rt, Ok(()));
    for _ in 0..3 {
        a.step(Ok(()));
        b.step(Ok(()));
    }

    // Interleaved emits, as two overlapping workers would produce.
    a.emit("progress", String::from("a says one"));
    b.emit("progress", String::from("b says one"));
    a.emit("done", String::from("a says two"));
    b.emit("done", String::from("b says two"));

    a.step(Ok(()));
    b.step(Err(String::from("b failed at the end")));

    assert!(matches!(a.state, WorkerState::Completed));
    assert_eq!(a.log.events.len(), 2);
    assert_eq!(a.log.events[0].payload, "a says one");
    assert_eq!(a.log.events[1].payload, "a says two");

    assert!(matches!(b.state, WorkerState::Failed(_)));
    assert_eq!(b.log.events.len(), 2);
    assert_eq!(b.log.events[0].payload, "b says one");
    assert_eq!(b.log.events[1].payload, "b says two");
}
