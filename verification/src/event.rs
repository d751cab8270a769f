//! Events the embedded program reports back to the host UI.
//!
//! The embedded program calls an emitter with a raw event kind and a text
//! payload. Before publication the kind is namespaced with a fixed prefix, so
//! kinds chosen by the embedded program cannot collide with unrelated
//! host-internal events on the same bus.

use vstd::prelude::*;
use vstd::string::StrSliceExecFns;
use vstd::string::StringExecFns;

verus! {

/// Mathematical form of one published event: its full (namespaced) kind and
/// its payload.
pub ghost struct EventModel {
    pub kind: Seq<char>,
    pub payload: Seq<char>,
}

/// The name under which a raw event kind is published: the fixed namespace
/// prefix, then the raw kind unchanged.
pub open spec fn namespaced_kind(kind: Seq<char>) -> Seq<char> {
    "agent-"@ + kind
}

/// The fixed namespace put before every raw event kind.
pub fn event_prefix() -> (r: &'static str)
    ensures
        r@ == "agent-"@,
{
    "agent-"
}

/// The full event name for a raw kind.
pub fn event_name(kind: &str) -> (r: String)
    ensures
        r@ == namespaced_kind(kind@),
{
    let mut r = event_prefix().to_owned();
    r.append(kind);
    r
}

/// One event as published on the host's bus.
pub struct Event {
    pub kind: String,
    pub payload: String,
}

impl View for Event {
    type V = EventModel;

    open spec fn view(&self) -> EventModel {
        EventModel { kind: self.kind@, payload: self.payload@ }
    }
}

impl Event {
    /// The event published for one emitter call: the raw kind is namespaced,
    /// the payload is passed through unchanged.
    pub fn new(kind: &str, payload: String) -> (e: Event)
        ensures
            e@.kind == namespaced_kind(kind@),
            e@.payload == payload@,
    {
        Event { kind: event_name(kind), payload }
    }
}

/// The record of one run's emitted events, in the order the emitter was
/// called. Each run has a log of its own; nothing of another run enters it.
pub struct EmitterLog {
    pub events: Vec<Event>,
}

impl View for EmitterLog {
    type V = Seq<EventModel>;

    open spec fn view(&self) -> Seq<EventModel> {
        self.events@.map_values(|e: Event| e@)
    }
}

impl EmitterLog {
    /// A fresh run has emitted nothing.
    pub fn new() -> (l: EmitterLog)
        ensures
            l@ =~= Seq::<EventModel>::empty(),
    {
        EmitterLog { events: Vec::new() }
    }

    /// Record one emitter call: exactly one event is appended, carrying the
    /// namespaced kind and the caller's payload; earlier events are untouched,
    /// so the log lists events in call order.
    pub fn emit(&mut self, kind: &str, payload: String)
        ensures
            final(self)@ =~= old(self)@.push(
                EventModel { kind: namespaced_kind(kind@), payload: payload@ },
            ),
    {
        let e = Event::new(kind, payload);
        self.events.push(e);
    }
}

/// One call the embedded program makes on the emitter during a run: a raw
/// kind and a payload, not yet namespaced.
pub ghost struct EmitCall {
    pub kind: Seq<char>,
    pub payload: Seq<char>,
}

/// The events one run publishes, given the emitter calls the embedded
/// program made during that run, in call order.
pub open spec fn published_events(calls: Seq<EmitCall>) -> Seq<EventModel> {
    calls.map_values(|c: EmitCall| EventModel { kind: namespaced_kind(c.kind), payload: c.payload })
}

/// Law: a run's events are published in the exact order the emitter was
/// called: the published stream has one event per call, and the i'th event
/// carries the i'th call's kind (namespaced) and its payload.
pub proof fn lemma_publication_order(calls: Seq<EmitCall>, i: int)
    requires
        0 <= i < calls.len(),
    ensures
        published_events(calls).len() == calls.len(),
        published_events(calls)[i].kind == namespaced_kind(calls[i].kind),
        published_events(calls)[i].payload == calls[i].payload,
{
}

/// Law: one more emitter call extends a run's published stream by exactly
/// that call's event, at the end. With `emit`'s own contract this pins the
/// whole stream of a run: a run whose emitter was called as `calls` lists
/// `published_events(calls)` in its log, whatever any other run does.
pub proof fn lemma_emit_extends_stream(calls: Seq<EmitCall>, c: EmitCall)
    ensures
        published_events(calls.push(c)) =~= published_events(calls).push(
            EventModel { kind: namespaced_kind(c.kind), payload: c.payload },
        ),
{
}

/// Law: every published event name starts with the fixed namespace prefix,
/// whatever the raw kind, and the raw kind follows the prefix unchanged.
pub proof fn lemma_event_prefix(kind: Seq<char>)
    ensures
        namespaced_kind(kind).len() == kind.len() + 6,
        namespaced_kind(kind).take(6) =~= "agent-"@,
        namespaced_kind(kind).skip(6) =~= kind,
{
    reveal_strlit("agent-");
}

} // verus!
