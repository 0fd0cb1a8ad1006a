//! The canonical two-state toggle machine.
//!
//! States `On` and `Off` alternate on every `Switch` event; any other event
//! is rejected explicitly and leaves the state alone.  An unrecognized
//! event never resets the machine to a default state: rejection is a
//! first-class outcome, not a silent fallback.

use crate::machine::{run, spec_outcome, spec_step, State, TransitionOutcome};
use vstd::prelude::*;

verus! {

/// The switch is on.
#[derive(Clone, Copy, Debug, PartialEq, Eq, Structural)]
pub struct On;

/// The switch is off.
#[derive(Clone, Copy, Debug, PartialEq, Eq, Structural)]
pub struct Off;

/// The kinds of event a toggle can receive.
#[derive(Clone, Copy, Debug, PartialEq, Eq, Structural)]
pub enum Event {
    /// The switch was operated.
    Switch,
    /// Anything else; the toggle has no transition for it.
    Other,
}

/// The closed universe of toggle states: exactly one of `On` or `Off`.
#[derive(Clone, Copy, Debug, PartialEq, Eq, Structural)]
pub enum ToggleState {
    On(On),
    Off(Off),
}

/// The output of an accepted toggle transition.
#[derive(Clone, Copy, Debug, PartialEq, Eq, Structural)]
pub enum ToggleOutput {
    /// The switch went from `Off` to `On`.
    TurnedOn,
    /// The switch went from `On` to `Off`.
    TurnedOff,
}

/// Why the toggle rejected an event.
#[derive(Clone, Copy, Debug, PartialEq, Eq, Structural)]
pub enum ToggleReason {
    /// The transition table has no entry for this event kind; the event is
    /// ignored and the state is kept.
    UnhandledEvent,
}

impl ToggleOutput {
    /// The transition table's wording for this output.
    pub fn message(&self) -> (r: String)
        ensures
            self is TurnedOn ==> r@ == "turned on"@,
            self is TurnedOff ==> r@ == "turned off"@,
    {
        match self {
            ToggleOutput::TurnedOn => "turned on".to_owned(),
            ToggleOutput::TurnedOff => "turned off".to_owned(),
        }
    }
}

impl ToggleReason {
    /// The transition table's wording for this rejection.
    pub fn message(&self) -> (r: String)
        ensures
            r@ == "ignored"@,
    {
        "ignored".to_owned()
    }
}

impl State<Event> for ToggleState {
    type Output = ToggleOutput;

    type Reason = ToggleReason;

    /// Both states accept exactly the `Switch` event.
    open spec fn accepts(self, event: Event) -> bool {
        event is Switch
    }

    /// A switch flips the state.
    open spec fn next(self, event: Event) -> Self {
        match self {
            ToggleState::On(_) => ToggleState::Off(Off),
            ToggleState::Off(_) => ToggleState::On(On),
        }
    }

    /// The output names the side the switch ended on.
    open spec fn output_of(self, event: Event) -> ToggleOutput {
        match self {
            ToggleState::On(_) => ToggleOutput::TurnedOff,
            ToggleState::Off(_) => ToggleOutput::TurnedOn,
        }
    }

    /// The only rejection is an event kind outside the table.
    open spec fn reason_of(self, event: Event) -> ToggleReason {
        ToggleReason::UnhandledEvent
    }

    fn on_event(&self, event: Event) -> (r: (Self, TransitionOutcome<ToggleOutput, ToggleReason>)) {
        match event {
            Event::Switch => match self {
                ToggleState::On(_) => (
                    ToggleState::Off(Off),
                    TransitionOutcome::Accepted { output: ToggleOutput::TurnedOff },
                ),
                ToggleState::Off(_) => (
                    ToggleState::On(On),
                    TransitionOutcome::Accepted { output: ToggleOutput::TurnedOn },
                ),
            },
            Event::Other => (
                *self,
                TransitionOutcome::Rejected { reason: ToggleReason::UnhandledEvent },
            ),
        }
    }
}

/// Totality of the toggle's transition table: every declared state paired
/// with every declared event kind has a defined outcome — `Switch` is
/// accepted and flips the state, every other event kind is rejected and
/// keeps it.
pub proof fn lemma_toggle_table(s: ToggleState, event: Event)
    ensures
        s is On && event is Switch ==> spec_step(s, event) == ToggleState::Off(Off)
            && spec_outcome(s, event) == (TransitionOutcome::<ToggleOutput, ToggleReason>::Accepted {
            output: ToggleOutput::TurnedOff,
        }),
        s is Off && event is Switch ==> spec_step(s, event) == ToggleState::On(On) && spec_outcome(
            s,
            event,
        ) == (TransitionOutcome::<ToggleOutput, ToggleReason>::Accepted {
            output: ToggleOutput::TurnedOn,
        }),
        event !is Switch ==> spec_step(s, event) == s && spec_outcome(s, event) == (
        TransitionOutcome::<ToggleOutput, ToggleReason>::Rejected {
            reason: ToggleReason::UnhandledEvent,
        }),
{
}

/// No hidden reset: an event kind outside the transition table leaves the
/// `On` state exactly where it was — in particular it never falls back to
/// `Off`.
pub proof fn lemma_no_hidden_reset(event: Event)
    requires
        event !is Switch,
    ensures
        spec_step(ToggleState::On(On), event) == ToggleState::On(On),
{
}

/// After any sequence of events the toggle is exactly one of the declared
/// state variants — never absent, never anything else.
pub proof fn lemma_toggle_always_declared(s: ToggleState, events: Seq<Event>)
    ensures
        run(s, events) is On || run(s, events) is Off,
{
}

} // verus!
