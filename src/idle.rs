//! Idle events.

use vstd::prelude::*;

use crate::generic_event::{Args, EventId, GenericEvent};

verus! {

/// Idle arguments, such as expected idle time in seconds.
#[derive(Copy, Clone, PartialEq, Debug)]
pub struct IdleArgs<S> {
    /// Expected idle time in seconds.
    pub dt: S,
}

/// The idle arguments of `e`, where `e` is an idle event.
pub open spec fn idle_of<S, T: GenericEvent<S>>(e: T) -> Option<IdleArgs<S>> {
    if e.spec_event_id() == EventId::Idle {
        match e.spec_args() {
            Args::Idle(a) => Some(a),
            _ => None,
        }
    } else {
        None
    }
}

/// The payload that `with_args` is asked for when reading an idle event.
pub open spec fn idle_payload<S>(args: Args<S>) -> Option<IdleArgs<S>> {
    match args {
        Args::Idle(a) => Some(a),
        _ => None,
    }
}

/// Copies idle arguments out of a reference.
fn copy_idle_args<S: Copy>(args: &IdleArgs<S>) -> (r: IdleArgs<S>)
    ensures
        r == *args,
{
    *args
}

/// Copies the idle arguments out of a payload, if it holds them.
fn read_idle_payload<S: Copy>(args: &Args<S>) -> (r: Option<IdleArgs<S>>)
    ensures
        r == idle_payload(*args),
{
    match args {
        Args::Idle(a) => Some(*a),
        _ => None,
    }
}

/// When background tasks should be performed
pub trait IdleEvent<S: Copy>: GenericEvent<S> {
    /// Creates an idle event.
    fn from_idle_args(args: &IdleArgs<S>, old_event: &Self) -> (r: Option<Self>)
        ensures
            r == Self::spec_from_args(EventId::Idle, Args::Idle(*args), *old_event),
    ;

    /// Creates an idle event with delta time.
    fn from_dt(dt: S, old_event: &Self) -> (r: Option<Self>)
        ensures
            r == Self::spec_from_args(EventId::Idle, Args::Idle(IdleArgs { dt }), *old_event),
    {
        Self::from_idle_args(&IdleArgs { dt: dt }, old_event)
    }

    /// Calls closure if this is an idle event.
    fn idle<U, F: FnOnce(&IdleArgs<S>) -> U>(&self, f: F) -> (r: Option<U>)
        requires
            idle_of(*self) matches Some(a) ==> f.requires((&a,)),
        ensures
            match idle_of(*self) {
                None => r is None,
                Some(a) => r matches Some(u) && f.ensures((&a,), u),
            },
    ;

    /// Returns idle arguments.
    fn idle_args(&self) -> (r: Option<IdleArgs<S>>)
        ensures
            r == idle_of(*self),
    {
        self.idle(copy_idle_args)
    }
}

impl<S: Copy, T: GenericEvent<S>> IdleEvent<S> for T {
    fn from_idle_args(args: &IdleArgs<S>, old_event: &Self) -> (r: Option<Self>) {
        T::from_args(EventId::Idle, &Args::Idle(*args), old_event)
    }

    fn idle<U, F: FnOnce(&IdleArgs<S>) -> U>(&self, f: F) -> (r: Option<U>) {
        if self.event_id() != EventId::Idle {
            return None;
        }
        proof {
            self.lemma_args_fit();
        }
        let payload = self.with_args(read_idle_payload);
        match payload {
            Some(a) => Some(f(&a)),
            None => None,
        }
    }
}

/// Round trip: where building an idle event from `args` and `old_event`
/// succeeds with `e`, reading `e` gives `args` back, and building again from
/// what was read and the same old event gives `e` again.
pub proof fn lemma_idle_round_trip<S, T: GenericEvent<S>>(args: IdleArgs<S>, old_event: T, e: T)
    requires
        T::spec_from_args(EventId::Idle, Args::Idle(args), old_event) == Some(e),
    ensures
        idle_of(e) == Some(args),
        T::spec_from_args(EventId::Idle, Args::Idle(idle_of(e)->0), old_event) == Some(e),
{
    T::lemma_from_args(EventId::Idle, Args::Idle(args), old_event);
}

} // verus!
