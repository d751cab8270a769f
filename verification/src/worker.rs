//! The worker that executes one dispatched run.
//!
//! A run proceeds through a fixed sequence of states. Each forward step
//! corresponds to one piece of outside work — taking the embedded runtime's
//! global lock, registering the module search path, importing the embedded
//! program, calling its entry function, and seeing that call return — and the
//! host shell reports each piece's outcome. Success advances the run; a
//! failure at any step ends it as `Failed`, holding that step's uniform
//! stringified error. Terminal states are never left, and nothing of a run's
//! outcome reaches the caller who dispatched it.

use vstd::prelude::*;
use crate::event::{EmitterLog, EventModel, namespaced_kind};
use crate::runtime::RuntimeLifecycle;

verus! {

/// The state of one dispatched run.
pub enum WorkerState {
    /// Accepted by the dispatcher; no worker step taken yet.
    Scheduled,
    /// Exclusive access to the embedded runtime is held for this run.
    LockAcquired,
    /// The embedded program's source directory is registered as importable.
    PathConfigured,
    /// The embedded program is imported under its well-known name.
    ModuleLoaded,
    /// The entry function has been called; the embedded program is running.
    Invoked,
    /// The entry function returned normally.
    Completed,
    /// Some step failed; holds that step's stringified error.
    Failed(String),
}

/// Whether a run is over. A terminal state is never left.
pub open spec fn is_terminal(s: WorkerState) -> bool {
    s is Completed || s is Failed
}

/// The piece of outside work pending in a given state.
#[derive(PartialEq, Eq, Structural, Debug)]
pub enum WorkerAction {
    /// Take the embedded runtime's global lock for this run.
    AcquireRuntimeLock,
    /// Register the embedded program's source directory with the runtime's
    /// module search path.
    ConfigureSearchPath,
    /// Import the embedded program by its well-known module name.
    ImportAgentModule,
    /// Build a fresh emitter for this run and call the entry function with
    /// the instruction and the emitter.
    CallEntryFunction,
    /// Let the entry function run to its return.
    AwaitEntryReturn,
}

/// What the worker does next in a given state; nothing is left to do in a
/// terminal state.
pub open spec fn action_of(s: WorkerState) -> Option<WorkerAction> {
    match s {
        WorkerState::Scheduled => Some(WorkerAction::AcquireRuntimeLock),
        WorkerState::LockAcquired => Some(WorkerAction::ConfigureSearchPath),
        WorkerState::PathConfigured => Some(WorkerAction::ImportAgentModule),
        WorkerState::ModuleLoaded => Some(WorkerAction::CallEntryFunction),
        WorkerState::Invoked => Some(WorkerAction::AwaitEntryReturn),
        WorkerState::Completed => None,
        WorkerState::Failed(_) => None,
    }
}

/// Where one step's outcome takes a run: forward on success, to `Failed` with
/// the step's error on failure; a terminal state absorbs every outcome.
pub open spec fn advance_spec(s: WorkerState, outcome: Result<(), String>) -> WorkerState {
    if is_terminal(s) {
        s
    } else {
        match outcome {
            Result::Err(m) => WorkerState::Failed(m),
            Result::Ok(_) => match s {
                WorkerState::Scheduled => WorkerState::LockAcquired,
                WorkerState::LockAcquired => WorkerState::PathConfigured,
                WorkerState::PathConfigured => WorkerState::ModuleLoaded,
                WorkerState::ModuleLoaded => WorkerState::Invoked,
                WorkerState::Invoked => WorkerState::Completed,
                _ => s,
            },
        }
    }
}

/// What the worker does next in a given state.
pub fn next_action(s: &WorkerState) -> (a: Option<WorkerAction>)
    ensures
        a == action_of(*s),
{
    match s {
        WorkerState::Scheduled => Some(WorkerAction::AcquireRuntimeLock),
        WorkerState::LockAcquired => Some(WorkerAction::ConfigureSearchPath),
        WorkerState::PathConfigured => Some(WorkerAction::ImportAgentModule),
        WorkerState::ModuleLoaded => Some(WorkerAction::CallEntryFunction),
        WorkerState::Invoked => Some(WorkerAction::AwaitEntryReturn),
        WorkerState::Completed => None,
        WorkerState::Failed(_) => None,
    }
}

/// The well-known module name under which the embedded program is imported.
pub fn agent_module_name() -> (r: &'static str)
    ensures
        r@ == "agent"@,
{
    "agent"
}

/// The well-known entry function of the embedded program, called with the
/// instruction and the emitter as its two positional arguments.
pub fn entry_function_name() -> (r: &'static str)
    ensures
        r@ == "run_agent"@,
{
    "run_agent"
}

/// One dispatched run: the instruction it carries, the worker's progress,
/// and the events the embedded program has emitted so far.
pub struct Invocation {
    pub instruction: String,
    pub state: WorkerState,
    pub log: EmitterLog,
}

impl Invocation {
    /// A freshly scheduled run: nothing executed, nothing emitted, the
    /// instruction carried as given.
    pub fn new(instruction: String) -> (inv: Invocation)
        ensures
            inv.instruction == instruction,
            inv.state is Scheduled,
            inv.log@ =~= Seq::<EventModel>::empty(),
    {
        Invocation { instruction, state: WorkerState::Scheduled, log: EmitterLog::new() }
    }

    /// The first worker step: take the embedded runtime's global lock for
    /// this run. The runtime must have been prepared at process startup,
    /// before any run tries to acquire it.
    pub fn acquire_runtime(&mut self, runtime: &RuntimeLifecycle, outcome: Result<(), String>)
        requires
            old(self).state is Scheduled,
            runtime.initialized,
        ensures
            final(self).state == advance_spec(old(self).state, outcome),
            final(self).instruction == old(self).instruction,
            final(self).log == old(self).log,
    {
        match outcome {
            Result::Ok(_) => {
                self.state = WorkerState::LockAcquired;
            },
            Result::Err(m) => {
                self.state = WorkerState::Failed(m);
            },
        }
    }

    /// A later worker step: report the outcome of the pending outside work.
    /// Success advances the run one state; failure ends it as `Failed` with
    /// the step's error. The instruction and the event log are untouched.
    pub fn step(&mut self, outcome: Result<(), String>)
        requires
            !is_terminal(old(self).state),
            !(old(self).state is Scheduled),
        ensures
            final(self).state == advance_spec(old(self).state, outcome),
            final(self).instruction == old(self).instruction,
            final(self).log == old(self).log,
    {
        match outcome {
            Result::Ok(_) => {
                let next = match &self.state {
                    WorkerState::Scheduled => WorkerState::LockAcquired,
                    WorkerState::LockAcquired => WorkerState::PathConfigured,
                    WorkerState::PathConfigured => WorkerState::ModuleLoaded,
                    WorkerState::ModuleLoaded => WorkerState::Invoked,
                    WorkerState::Invoked => WorkerState::Completed,
                    WorkerState::Completed => WorkerState::Completed,
                    WorkerState::Failed(_) => WorkerState::Completed,
                };
                self.state = next;
            },
            Result::Err(m) => {
                self.state = WorkerState::Failed(m);
            },
        }
    }

    /// Called from within the embedded program's execution, any number of
    /// times: record one emitted event. The event's kind is namespaced, its
    /// payload passed through; earlier events and everything else about the
    /// run are untouched.
    pub fn emit(&mut self, kind: &str, payload: String)
        requires
            old(self).state is Invoked,
        ensures
            final(self).log@ =~= old(self).log@.push(
                EventModel { kind: namespaced_kind(kind@), payload: payload@ },
            ),
            final(self).state == old(self).state,
            final(self).instruction == old(self).instruction,
    {
        self.log.emit(kind, payload);
    }

    /// The uniform error a failed run holds; nothing for a run not (or not
    /// yet) failed.
    pub fn failure(&self) -> (r: Option<&String>)
        ensures
            match r {
                Some(m) => self.state == WorkerState::Failed(*m),
                None => !(self.state is Failed),
            },
    {
        match &self.state {
            WorkerState::Failed(m) => Some(m),
            _ => None,
        }
    }
}

/// Law: a failure at any step ends the run: from every non-terminal state,
/// an error outcome leads to `Failed` holding that step's message.
pub proof fn lemma_failure_ends_run(s: WorkerState, m: String)
    requires
        !is_terminal(s),
    ensures
        advance_spec(s, Err(m)) == WorkerState::Failed(m),
{
}

/// Law: terminal states are never left, whatever outcome is reported.
pub proof fn lemma_terminal_absorbs(s: WorkerState, outcome: Result<(), String>)
    requires
        is_terminal(s),
    ensures
        advance_spec(s, outcome) == s,
{
}

/// Law: five successful steps take a fresh run to completion, through the
/// states in their fixed order.
pub proof fn lemma_success_path(ok: Result<(), String>)
    requires
        ok is Ok,
    ensures
        advance_spec(WorkerState::Scheduled, ok) == WorkerState::LockAcquired,
        advance_spec(WorkerState::LockAcquired, ok) == WorkerState::PathConfigured,
        advance_spec(WorkerState::PathConfigured, ok) == WorkerState::ModuleLoaded,
        advance_spec(WorkerState::ModuleLoaded, ok) == WorkerState::Invoked,
        advance_spec(WorkerState::Invoked, ok) == WorkerState::Completed,
{
}

} // verus!
