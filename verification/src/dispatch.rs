//! The host-facing command dispatcher.
//!
//! The UI hands in one free-form instruction; the dispatcher accepts it as it
//! stands, schedules a run for a worker, and acknowledges success at once.
//! The acknowledgment is deliberately fire-and-forget: it reflects only
//! "successfully scheduled", never the embedded program's outcome, which the
//! UI learns of solely through the events the run emits.

use vstd::prelude::*;
use crate::event::EventModel;
use crate::worker::{Invocation, WorkerState, advance_spec, is_terminal};

verus! {

/// What the dispatcher returns to its caller: success for every instruction —
/// no validation is performed and nothing later can change it.
pub open spec fn dispatch_ack(instruction: Seq<char>) -> Result<(), String> {
    Ok(())
}

/// Accept one instruction: acknowledge success to the caller at once and
/// hand back the scheduled run for a worker to drive. The acknowledgment is
/// produced while the run is still `Scheduled` — before the embedded program
/// has started, let alone finished — and the run carries the instruction
/// unchanged, with nothing emitted yet.
pub fn dispatch(instruction: String) -> (r: (Result<(), String>, Invocation))
    ensures
        r.0 == dispatch_ack(instruction@),
        r.0 is Ok,
        r.1.instruction == instruction,
        r.1.state is Scheduled,
        r.1.log@ =~= Seq::<EventModel>::empty(),
{
    let run = Invocation::new(instruction);
    (Ok(()), run)
}

/// Law: a run's failure is invisible to the dispatcher's caller. Whatever
/// the instruction, the acknowledgment is success; a step that fails ends
/// the run itself as `Failed`, and that is all it does.
pub proof fn lemma_ack_unaffected_by_failure(instruction: Seq<char>, s: WorkerState, m: String)
    requires
        !is_terminal(s),
    ensures
        dispatch_ack(instruction) is Ok,
        advance_spec(s, Err(m)) == WorkerState::Failed(m),
{
}

} // verus!
