//! Core of a host-to-embedded-runtime bridge: a UI host dispatches one-shot
//! instructions to a program running in an embedded scripting runtime, and the
//! embedded program streams named progress events back to the host.
//!
//! This crate holds the bridge's decisions: how dispatch acknowledges an
//! instruction (fire-and-forget), the state machine a worker drives one run
//! through, how emitted event kinds are namespaced before publication, and
//! where the embedded program's source directory is found. The host shell
//! performs the outside work (window plumbing, the embedded runtime's calls,
//! the event bus) and consults these functions for every decision.

pub mod dispatch;
pub mod event;
pub mod path;
pub mod runtime;
pub mod worker;
