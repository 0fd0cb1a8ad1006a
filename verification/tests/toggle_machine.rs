use fsm_kit::machine::{StateMachine, TransitionOutcome};
use fsm_kit::toggle::{Event, Off, On, ToggleOutput, ToggleReason, ToggleState};

#[test]
fn toggle_three_switches() {
    // Constructed with initial state Off, three Switch events walk the
    // states On, Off, On, each accepted with the matching output.
    let mut machine = StateMachine::new(ToggleState::Off(Off));

    let first = machine.dispatch(Event::Switch);
    assert_eq!(first, TransitionOutcome::Accepted { output: ToggleOutput::TurnedOn });
    assert_eq!(*machine.current(), ToggleState::On(On));

    let second = machine.dispatch(Event::Switch);
    assert_eq!(second, TransitionOutcome::Accepted { output: ToggleOutput::TurnedOff });
    assert_eq!(*machine.current(), ToggleState::Off(Off));

    let third = machine.dispatch(Event::Switch);
    assert_eq!(third, TransitionOutcome::Accepted { output: ToggleOutput::TurnedOn });
    assert_eq!(*machine.current(), ToggleState::On(On));
}

#[test]
fn ignored_event_keeps_state() {
    // In state On, an Other event is rejected and the state stays On.
    let mut machine = StateMachine::new(ToggleState::On(On));
    let outcome = machine.dispatch(Event::Other);
    assert_eq!(outcome, TransitionOutcome::Rejected { reason: ToggleReason::UnhandledEvent });
    assert_eq!(*machine.current(), ToggleState::On(On));
}

#[test]
fn no_hidden_reset_to_off() {
    // An event kind outside the transition table must not silently produce
    // Off from On.
    let mut machine = StateMachine::new(ToggleState::On(On));
    let _ = machine.dispatch(Event::Other);
    assert_ne!(*machine.current(), ToggleState::Off(Off));
    assert_eq!(*machine.current(), ToggleState::On(On));
}

#[test]
fn rejection_is_idempotent() {
    // A rejected dispatch leaves the state unchanged, and repeating it any
    // number of times gives the same rejected outcome and the same state.
    let mut machine = StateMachine::new(ToggleState::Off(Off));
    let before = *machine.current();
    for _ in 0..5 {
        let outcome = machine.dispatch(Event::Other);
        assert_eq!(outcome, TransitionOutcome::Rejected { reason: ToggleReason::UnhandledEvent });
        assert_eq!(*machine.current(), before);
    }
}

#[test]
fn every_state_event_pair_has_an_outcome() {
    // Totality: each declared state paired with each declared event kind
    // produces a defined outcome, and the machine always sits in one of the
    // declared variants.
    let states = [ToggleState::On(On), ToggleState::Off(Off)];
    let events = [Event::Switch, Event::Other];
    for state in states {
        for event in events {
            let mut machine = StateMachine::new(state);
            let outcome = machine.dispatch(event);
            assert!(outcome.is_accepted() || outcome.is_rejected());
            assert!(matches!(
                *machine.current(),
                ToggleState::On(_) | ToggleState::Off(_)
            ));
        }
    }
}

#[test]
fn replay_is_deterministic() {
    // Two independent machines given the same initial state and the same
    // ordered events produce identical outcome sequences and final states.
    let events = vec![
        Event::Switch,
        Event::Other,
        Event::Switch,
        Event::Switch,
        Event::Other,
    ];
    let mut first = StateMachine::new(ToggleState::Off(Off));
    let mut second = StateMachine::new(ToggleState::Off(Off));
    let outcomes_first = first.replay(&events);
    let outcomes_second = second.replay(&events);
    assert_eq!(outcomes_first, outcomes_second);
    assert_eq!(*first.current(), *second.current());
    assert_eq!(*first.current(), ToggleState::On(On));
}

#[test]
fn on_event_discards_outcome_but_transitions() {
    let mut machine = StateMachine::new(ToggleState::Off(Off));
    machine.on_event(Event::Switch);
    assert_eq!(*machine.current(), ToggleState::On(On));
    machine.on_event(Event::Other);
    assert_eq!(*machine.current(), ToggleState::On(On));
    machine.on_event(Event::Switch);
    assert_eq!(*machine.current(), ToggleState::Off(Off));
}

#[test]
fn outputs_carry_the_table_wording() {
    assert_eq!(ToggleOutput::TurnedOn.message(), "turned on");
    assert_eq!(ToggleOutput::TurnedOff.message(), "turned off");
    assert_eq!(ToggleReason::UnhandledEvent.message(), "ignored");
}

#[test]
fn outcome_inspectors_agree_with_variants() {
    let accepted: TransitionOutcome<ToggleOutput, ToggleReason> =
        TransitionOutcome::Accepted { output: ToggleOutput::TurnedOn };
    assert!(accepted.is_accepted());
    assert!(!accepted.is_rejected());
    let rejected: TransitionOutcome<ToggleOutput, ToggleReason> =
        TransitionOutcome::Rejected { reason: ToggleReason::UnhandledEvent };
    assert!(rejected.is_rejected());
    assert!(!rejected.is_accepted());
}
