//! State machines that turn events into actions, and their traces.

use vstd::prelude::*;

verus! {

/// A state machine: an event takes it to its next state and may ask for an
/// action.
///
/// An event that does not answer what the machine is waiting for leaves it as
/// it is and asks for nothing.
pub trait Machine<Event, Action: View>: Sized {
    /// The state after `event`, and the action asked for, if any.
    spec fn next(self, event: Event) -> (Self, Option<Action::V>);

    /// Takes the machine through `event`.
    fn step(self, event: Event) -> (out: (Self, Option<Action>))
        ensures
            out.0 == self.next(event).0,
            option_view(out.1) == self.next(event).1,
            out.1 is None ==> self.next(event).1 is None,
            out.1 matches Some(action) ==> self.next(event).1 == Some(action@),
    ;
}

/// The view of what is inside an option.
pub open spec fn option_view<T: View>(value: Option<T>) -> Option<T::V> {
    match value {
        Some(inner) => Some(inner@),
        None => None,
    }
}

/// What an event does to a state and to the actions asked for so far.
pub open spec fn advance<Event, Action: View, M: Machine<Event, Action>>(
    at: (M, Seq<Action::V>),
    event: Event,
) -> (M, Seq<Action::V>) {
    let (after, action) = at.0.next(event);
    (
        after,
        match action {
            Some(a) => at.1.push(a),
            None => at.1,
        },
    )
}

/// The state that a machine reaches from `start` through `events`, and all
/// actions that it asks for on the way, in order.
pub open spec fn trace<Event, Action: View, M: Machine<Event, Action>>(
    start: M,
    events: Seq<Event>,
) -> (M, Seq<Action::V>)
    decreases events.len(),
{
    if events.len() == 0 {
        (start, Seq::empty())
    } else {
        advance::<Event, Action, M>(
            trace::<Event, Action, M>(start, events.drop_last()),
            events.last(),
        )
    }
}

/// A property of past events, state and past actions that holds at the start,
/// and that every step keeps, holds after every sequence of events.
pub proof fn invariant_holds_on_every_trace<Event, Action: View, M: Machine<Event, Action>>(
    start: M,
    events: Seq<Event>,
    inv: spec_fn(Seq<Event>, (M, Seq<Action::V>)) -> bool,
)
    requires
        inv(Seq::empty(), (start, Seq::empty())),
        forall|past: Seq<Event>, at: (M, Seq<Action::V>), event: Event|
            inv(past, at) ==> inv(
                #[trigger] past.push(event),
                #[trigger] advance::<Event, Action, M>(at, event),
            ),
    ensures
        inv(events, trace::<Event, Action, M>(start, events)),
    decreases events.len(),
{
    if events.len() == 0 {
        assert(events =~= Seq::empty());
    } else {
        let past = events.drop_last();
        let at = trace::<Event, Action, M>(start, past);
        invariant_holds_on_every_trace::<Event, Action, M>(start, past, inv);
        assert(past.push(events.last()) =~= events);
        assert(inv(past.push(events.last()), advance::<Event, Action, M>(at, events.last())));
    }
}

/// A sequence that grew by an element holds it and all that it held before.
pub(crate) proof fn lemma_push_contains<T>(s: Seq<T>, last: T)
    ensures
        s.push(last).contains(last),
        forall|x: T| #[trigger] s.contains(x) ==> s.push(last).contains(x),
{
    assert(s.push(last)[s.len() as int] == last);
    assert forall|x: T| #[trigger] s.contains(x) implies s.push(last).contains(x) by {
        let i = choose|i: int| 0 <= i < s.len() && s[i] == x;
        assert(s.push(last)[i] == x);
    }
}

/// A trace begins with the start and no action. Each further event takes the state
/// that was reached to its next one, and adds the action that is asked for, if any.
pub proof fn trace_goes_on_event_by_event<Event, Action: View, M: Machine<Event, Action>>(
    start: M,
    events: Seq<Event>,
    event: Event,
)
    ensures
        ({
            let (state, actions) = trace::<Event, Action, M>(start, events);
            let (after, action) = state.next(event);
            let longer = trace::<Event, Action, M>(start, events.push(event));
            &&& trace::<Event, Action, M>(start, Seq::empty()) == (start, Seq::<Action::V>::empty())
            &&& longer.0 == after
            &&& action is None ==> longer.1 == actions
            &&& action is Some ==> longer.1 == actions.push(action->0)
        }),
{
    assert(events.push(event).drop_last() =~= events);
}

} // verus!
