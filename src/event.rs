//! The top-level event type: input events and idle ticks.

use vstd::prelude::*;

use crate::generic_event::{args_fit, Args, EventId, GenericEvent};
use crate::idle::IdleArgs;
use crate::input::Input;

verus! {

/// An event: either input from the user, or an idle tick.
#[derive(Copy, Clone, PartialEq, Debug)]
pub enum Event<S> {
    /// Input from the user.
    Input(Input<S>),
    /// Background tasks may run.
    Idle(IdleArgs<S>),
}

impl<S: Copy> GenericEvent<S> for Event<S> {
    open spec fn spec_event_id(&self) -> EventId {
        match *self {
            Event::Input(i) => i.spec_event_id(),
            Event::Idle(_) => EventId::Idle,
        }
    }

    open spec fn spec_args(&self) -> Args<S> {
        match *self {
            Event::Input(i) => i.spec_args(),
            Event::Idle(a) => Args::Idle(a),
        }
    }

    /// An idle event can always be built. An input event is built only from
    /// an old input event, in whose place the new input goes; from an idle
    /// event there is none.
    open spec fn spec_from_args(id: EventId, args: Args<S>, old_event: Self) -> Option<Self> {
        if id == EventId::Idle {
            match args {
                Args::Idle(a) => Some(Event::Idle(a)),
                _ => None,
            }
        } else {
            match old_event {
                Event::Input(old_input) => match Input::<S>::spec_from_args(id, args, old_input) {
                    Some(i) => Some(Event::Input(i)),
                    None => None,
                },
                Event::Idle(_) => None,
            }
        }
    }

    proof fn lemma_args_fit(&self) {
        match *self {
            Event::Input(i) => i.lemma_args_fit(),
            Event::Idle(_) => {},
        }
    }

    proof fn lemma_from_args(id: EventId, args: Args<S>, old_event: Self) {
        if let Event::Input(old_input) = old_event {
            Input::<S>::lemma_from_args(id, args, old_input);
        }
    }

    fn event_id(&self) -> (r: EventId) {
        match self {
            Event::Input(i) => i.event_id(),
            Event::Idle(_) => EventId::Idle,
        }
    }

    fn with_args<R, F: FnOnce(&Args<S>) -> R>(&self, f: F) -> (r: R) {
        match self {
            Event::Input(i) => i.with_args(f),
            Event::Idle(a) => f(&Args::Idle(*a)),
        }
    }

    fn from_args(id: EventId, args: &Args<S>, old_event: &Self) -> (r: Option<Self>) {
        if id == EventId::Idle {
            match args {
                Args::Idle(a) => Some(Event::Idle(*a)),
                _ => None,
            }
        } else {
            match old_event {
                Event::Input(old_input) => match Input::<S>::from_args(id, args, old_input) {
                    Some(i) => Some(Event::Input(i)),
                    None => None,
                },
                Event::Idle(_) => None,
            }
        }
    }
}

/// Building an event never moves it to another branch behind the old
/// event's back: an idle event is always built, as an idle event; an input
/// event is built, as an input event, exactly when the old event is an input
/// event.
pub proof fn lemma_event_keeps_branch<S: Copy>(id: EventId, args: Args<S>, old_event: Event<S>)
    requires
        args_fit(id, args),
    ensures
        id == EventId::Idle ==> Event::<S>::spec_from_args(id, args, old_event) == Some(
            Event::<S>::Idle(args->Idle_0),
        ),
        id != EventId::Idle ==> (Event::<S>::spec_from_args(id, args, old_event) is Some
            <==> old_event is Input),
        id != EventId::Idle ==> (Event::<S>::spec_from_args(id, args, old_event) matches Some(e)
            ==> e is Input),
{
}

} // verus!
