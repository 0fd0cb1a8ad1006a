//! An event-driven finite-state machine with pluggable state behavior.
//!
//! A [`StateMachine`] owns exactly one state value.  Dispatching an event
//! replaces that value with the successor computed by the current state and
//! reports whether the event was accepted or rejected; a rejected event
//! leaves the state unchanged.  The transition relation itself lives in the
//! [`State`] trait: an implementor provides it twice, once as specification
//! (`accepts`, `next`, `output_of`, `reason_of`) and once as executable code
//! (`on_event`) that is proved to follow the specification.

use vstd::prelude::*;

verus! {

/// The outcome of dispatching one event: the event either drove a
/// transition and produced an output, or it was rejected for a reason and
/// the machine kept its state.  There is no third possibility and no
/// exception path; every caller must inspect which of the two happened.
#[derive(Clone, Copy, Debug, PartialEq, Eq, Structural)]
pub enum TransitionOutcome<O, R> {
    /// The current state had a transition for the event.
    Accepted { output: O },
    /// The current state had no transition for the event; the machine is
    /// unchanged.
    Rejected { reason: R },
}

impl<O, R> TransitionOutcome<O, R> {
    /// Whether this outcome reports an accepted event.
    pub fn is_accepted(&self) -> (r: bool)
        ensures
            r == (self is Accepted),
    {
        match self {
            TransitionOutcome::Accepted { .. } => true,
            TransitionOutcome::Rejected { .. } => false,
        }
    }

    /// Whether this outcome reports a rejected event.
    pub fn is_rejected(&self) -> (r: bool)
        ensures
            r == (self is Rejected),
    {
        match self {
            TransitionOutcome::Accepted { .. } => false,
            TransitionOutcome::Rejected { .. } => true,
        }
    }
}

/// A state of a machine driven by events of type `E`.
///
/// A state is a pure reducer: for every event it either accepts it, naming
/// a successor state and an output, or rejects it, naming a reason.  The
/// four spec functions write that transition table down; `on_event` is the
/// executable handler, and every implementation is proved to follow its own
/// table exactly.  Handlers may not consult anything outside the state and
/// the event, so a transition is replayable in isolation.
pub trait State<E>: Sized {
    /// The output carried by an accepted transition.
    type Output;

    /// The reason carried by a rejection.
    type Reason;

    /// Whether the transition table of this state has an entry for `event`.
    spec fn accepts(self, event: E) -> bool;

    /// The successor state for an accepted event.
    spec fn next(self, event: E) -> Self;

    /// The output reported when `event` is accepted.
    spec fn output_of(self, event: E) -> Self::Output;

    /// The reason reported when `event` is rejected.
    spec fn reason_of(self, event: E) -> Self::Reason;

    /// Handle one event: produce the successor state and the outcome.
    /// Rejection must leave the state as it was.
    fn on_event(&self, event: E) -> (r: (Self, TransitionOutcome<Self::Output, Self::Reason>))
        ensures
            self.accepts(event) ==> r.0 == self.next(event) && r.1 == (TransitionOutcome::<
                Self::Output,
                Self::Reason,
            >::Accepted { output: self.output_of(event) }),
            !self.accepts(event) ==> r.0 == *self && r.1 == (TransitionOutcome::<
                Self::Output,
                Self::Reason,
            >::Rejected { reason: self.reason_of(event) }),
    ;
}

/// The state after one event: the successor when the event is accepted,
/// the same state when it is rejected.
pub open spec fn spec_step<E, S: State<E>>(s: S, event: E) -> S {
    if s.accepts(event) {
        s.next(event)
    } else {
        s
    }
}

/// The outcome reported for one event.
pub open spec fn spec_outcome<E, S: State<E>>(s: S, event: E) -> TransitionOutcome<
    S::Output,
    S::Reason,
> {
    if s.accepts(event) {
        TransitionOutcome::Accepted { output: s.output_of(event) }
    } else {
        TransitionOutcome::Rejected { reason: s.reason_of(event) }
    }
}

/// The state after a whole sequence of events, applied in order.
pub open spec fn run<E, S: State<E>>(s: S, events: Seq<E>) -> S
    decreases events.len(),
{
    if events.len() == 0 {
        s
    } else {
        run(spec_step(s, events[0]), events.drop_first())
    }
}

/// The outcomes reported for a whole sequence of events, in order.
pub open spec fn outcomes<E, S: State<E>>(s: S, events: Seq<E>) -> Seq<
    TransitionOutcome<S::Output, S::Reason>,
>
    decreases events.len(),
{
    if events.len() == 0 {
        Seq::empty()
    } else {
        seq![spec_outcome(s, events[0])] + outcomes(spec_step(s, events[0]), events.drop_first())
    }
}

/// A machine that owns exactly one current state and drives transitions in
/// response to events.  The state is exclusively owned and is mutated only
/// through [`StateMachine::dispatch`]; at every observable instant the
/// machine holds exactly one of the declared state values, never none.
pub struct StateMachine<S> {
    current: S,
}

impl<S> View for StateMachine<S> {
    type V = S;

    /// A machine is abstractly just its current state.
    closed spec fn view(&self) -> S {
        self.current
    }
}

impl<S> StateMachine<S> {
    /// A machine whose current state is exactly `initial`.  There is no
    /// implicit default state.
    pub fn new(initial: S) -> (m: Self)
        ensures
            m@ == initial,
    {
        StateMachine { current: initial }
    }

    /// Read-only inspection of the current state.
    pub fn current(&self) -> (s: &S)
        ensures
            *s == self@,
    {
        &self.current
    }

    /// Apply one event.  The current state is replaced by the successor its
    /// own table names, and the outcome says whether the event was accepted;
    /// a rejected event leaves the machine exactly as it was.
    pub fn dispatch<E>(&mut self, event: E) -> (r: TransitionOutcome<S::Output, S::Reason>) where
        S: State<E>

        ensures
            final(self)@ == spec_step(old(self)@, event),
            r == spec_outcome(old(self)@, event),
            r is Accepted <==> old(self)@.accepts(event),
            r is Rejected ==> final(self)@ == old(self)@,
    {
        let (next, outcome) = self.current.on_event(event);
        self.current = next;
        outcome
    }

    /// Tell the machine that an event occurred, discarding the outcome.
    pub fn on_event<E>(&mut self, event: E) where S: State<E>
        ensures
            final(self)@ == spec_step(old(self)@, event),
    {
        let _ = self.dispatch(event);
    }

    /// Drive the machine through a whole sequence of events, returning the
    /// outcomes in order.
    pub fn replay<E: Copy>(&mut self, events: &Vec<E>) -> (r: Vec<
        TransitionOutcome<S::Output, S::Reason>,
    >) where S: State<E>
        ensures
            final(self)@ == run(old(self)@, events@),
            r@ == outcomes(old(self)@, events@),
    {
        let mut out: Vec<TransitionOutcome<S::Output, S::Reason>> = Vec::new();
        let mut i: usize = 0;
        while i < events.len()
            invariant
                i <= events@.len(),
                self@ == run(old(self)@, events@.take(i as int)),
                out@ == outcomes(old(self)@, events@.take(i as int)),
            decreases events@.len() - i,
        {
            proof {
                lemma_run_take_step(old(self)@, events@, i as int);
            }
            let o = self.dispatch(events[i]);
            out.push(o);
            i += 1;
        }
        proof {
            assert(events@.take(events@.len() as int) =~= events@);
        }
        out
    }
}

/// Appending one event to a sequence runs the sequence first and then takes
/// the single extra step.
proof fn lemma_run_snoc<E, S: State<E>>(s: S, events: Seq<E>, event: E)
    ensures
        run(s, events.push(event)) == spec_step(run(s, events), event),
        outcomes(s, events.push(event)) == outcomes(s, events).push(
            spec_outcome(run(s, events), event),
        ),
    decreases events.len(),
{
    let snoc = events.push(event);
    if events.len() == 0 {
        assert(snoc[0] == event);
        assert(snoc.drop_first() =~= Seq::<E>::empty());
        let stepped = spec_step(s, event);
        assert(run(stepped, snoc.drop_first()) == stepped);
        assert(run(s, snoc) == stepped);
        assert(outcomes(stepped, snoc.drop_first()) =~= Seq::<
            TransitionOutcome<S::Output, S::Reason>,
        >::empty());
        assert(outcomes(s, snoc) =~= seq![spec_outcome(s, event)]);
        assert(outcomes(s, events) =~= Seq::<TransitionOutcome<S::Output, S::Reason>>::empty());
        assert(outcomes(s, snoc) =~= outcomes(s, events).push(spec_outcome(run(s, events), event)));
    } else {
        assert(snoc[0] == events[0]);
        assert(snoc.drop_first() =~= events.drop_first().push(event));
        let stepped = spec_step(s, events[0]);
        lemma_run_snoc(stepped, events.drop_first(), event);
        assert(run(s, snoc) == run(stepped, snoc.drop_first()));
        assert(run(s, events) == run(stepped, events.drop_first()));
        assert(outcomes(s, snoc) =~= seq![spec_outcome(s, events[0])] + outcomes(
            stepped,
            snoc.drop_first(),
        ));
        assert(outcomes(s, events) =~= seq![spec_outcome(s, events[0])] + outcomes(
            stepped,
            events.drop_first(),
        ));
        assert(outcomes(s, snoc) =~= outcomes(s, events).push(spec_outcome(run(s, events), event)));
    }
}

/// One more step of a replay: taking `i + 1` events runs the first `i` and
/// then steps once with the `i`-th.
proof fn lemma_run_take_step<E, S: State<E>>(s: S, events: Seq<E>, i: int)
    requires
        0 <= i < events.len(),
    ensures
        run(s, events.take(i + 1)) == spec_step(run(s, events.take(i)), events[i]),
        outcomes(s, events.take(i + 1)) == outcomes(s, events.take(i)).push(
            spec_outcome(run(s, events.take(i)), events[i]),
        ),
{
    assert(events.take(i + 1) =~= events.take(i).push(events[i]));
    lemma_run_snoc(s, events.take(i), events[i]);
}

/// Replay determinism: the same initial state and the same ordered sequence
/// of events always give the same final state and the same sequence of
/// outcomes, however many independent machines replay them.
pub proof fn lemma_replay_deterministic<E, S: State<E>>(s1: S, s2: S, es1: Seq<E>, es2: Seq<E>)
    requires
        s1 == s2,
        es1 == es2,
    ensures
        run(s1, es1) == run(s2, es2),
        outcomes(s1, es1) == outcomes(s2, es2),
{
}

/// Rejection is idempotent: an event the current state rejects leaves the
/// state unchanged, and dispatching it any number of times yields the same
/// rejected outcome every time and still the same state.
pub proof fn lemma_rejection_idempotent<E, S: State<E>>(s: S, event: E, n: nat)
    requires
        !s.accepts(event),
    ensures
        run(s, Seq::new(n, |i: int| event)) == s,
        outcomes(s, Seq::new(n, |i: int| event)) == Seq::new(
            n,
            |i: int| spec_outcome(s, event),
        ),
    decreases n,
{
    let events = Seq::new(n, |i: int| event);
    if n == 0 {
        assert(outcomes(s, events) =~= Seq::new(n, |i: int| spec_outcome(s, event)));
    } else {
        assert(spec_step(s, event) == s);
        assert(events.drop_first() =~= Seq::new((n - 1) as nat, |i: int| event));
        lemma_rejection_idempotent(s, event, (n - 1) as nat);
        assert(outcomes(s, events) =~= Seq::new(n, |i: int| spec_outcome(s, event)));
    }
}

} // verus!
