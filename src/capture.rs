use vstd::prelude::*;

use crate::keys::HookKey;

verus! {

/// What the keyboard hook reports: a key going down, or anything else (a key
/// going up, a mouse event).
#[derive(Clone, Copy, Debug, PartialEq, Eq, Structural)]
pub enum HookEvent {
    KeyPress(HookKey),
    Other,
}

/// What the capture source hands to its consumer.
#[derive(Clone, Copy, Debug, PartialEq, Eq, Structural)]
pub enum Event {
    /// The hook is installed and listening.
    Ready,
    /// One event of the hook, in the order the hook saw them.
    Received(HookEvent),
}

/// The phase of the capture source.
#[derive(Clone, Copy, Debug, PartialEq, Eq, Structural)]
pub enum State {
    /// No hook yet: the host is to install it.
    Starting,
    /// The hook is installed: the host is to wait for its next event.
    Ready,
}

/// What the host reports back after acting on the phase.
#[derive(Clone, Copy, Debug, PartialEq, Eq, Structural)]
pub enum CaptureInput {
    /// The hook thread and its channel were set up.
    HookInstalled,
    /// The channel delivered an event.
    Delivered(HookEvent),
    /// The channel is closed.
    Closed,
}

impl State {
    /// One step of the capture source: the event it emits, if any, and the next phase.
    pub open spec fn spec_advance(self, input: CaptureInput) -> (Option<Event>, State) {
        match (self, input) {
            (State::Starting, CaptureInput::HookInstalled) => (Some(Event::Ready), State::Ready),
            (State::Starting, _) => (None, State::Starting),
            (State::Ready, CaptureInput::Delivered(e)) => (Some(Event::Received(e)), State::Ready),
            (State::Ready, _) => (None, State::Ready),
        }
    }

    /// Takes what the host observed and says what to emit and which phase follows.
    /// Only installing the hook leaves `Starting`, emitting `Ready`; once ready,
    /// each delivered event is passed on as it came, and a second install or a
    /// closed channel emit nothing.
    pub fn advance(self, input: CaptureInput) -> (r: (Option<Event>, State))
        ensures
            r == self.spec_advance(input),
    {
        match (self, input) {
            (State::Starting, CaptureInput::HookInstalled) => (Some(Event::Ready), State::Ready),
            (State::Starting, _) => (None, State::Starting),
            (State::Ready, CaptureInput::Delivered(e)) => (Some(Event::Received(e)), State::Ready),
            (State::Ready, _) => (None, State::Ready),
        }
    }
}

/// The events emitted, in order, when the capture source starts in `state` and
/// the host reports `inputs` one after the other.
pub open spec fn emitted(state: State, inputs: Seq<CaptureInput>) -> Seq<Event>
    decreases inputs.len(),
{
    if inputs.len() == 0 {
        Seq::empty()
    } else {
        let (out, next) = state.spec_advance(inputs[0]);
        let rest = emitted(next, inputs.drop_first());
        match out {
            Some(e) => seq![e] + rest,
            None => rest,
        }
    }
}

proof fn lemma_ready_emits_received(inputs: Seq<CaptureInput>)
    ensures
        forall|i: int| 0 <= i < emitted(State::Ready, inputs).len() ==> emitted(State::Ready, inputs)[i] is Received,
    decreases inputs.len(),
{
    if inputs.len() > 0 {
        lemma_ready_emits_received(inputs.drop_first());
    }
}

/// Whatever the host reports, a capture source that starts afresh emits
/// `Ready` first, and only then events of the hook: `Ready` exactly once, and
/// nothing before it.
pub proof fn lemma_ready_comes_first(inputs: Seq<CaptureInput>)
    ensures
        emitted(State::Starting, inputs).len() > 0 ==> emitted(State::Starting, inputs)[0] == Event::Ready,
        forall|i: int|
            1 <= i < emitted(State::Starting, inputs).len() ==> emitted(State::Starting, inputs)[i] is Received,
    decreases inputs.len(),
{
    if inputs.len() > 0 {
        let rest = inputs.drop_first();
        match inputs[0] {
            CaptureInput::HookInstalled => {
                lemma_ready_emits_received(rest);
            },
            _ => {
                lemma_ready_comes_first(rest);
            },
        }
    }
}

} // verus!
