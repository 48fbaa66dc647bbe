//! The generic event mechanism: event identifiers, the payload carrier and the
//! capability that every concrete event representation implements.

use vstd::prelude::*;

use crate::idle::IdleArgs;
use crate::mouse::MouseButton;

verus! {

/// Names the kind of an event. Identifiers are compared for equality only.
#[derive(Copy, Clone, PartialEq, Eq, Structural, Debug)]
pub enum EventId {
    /// Background tasks may run.
    Idle,
    /// The position of the mouse cursor.
    MouseCursor,
    /// The relative movement of the mouse cursor.
    MouseRelative,
    /// The scroll of the mouse wheel.
    MouseScroll,
    /// A button was pressed.
    Press,
    /// A button was released.
    Release,
}

/// Identifier of idle events.
pub const IDLE: EventId = EventId::Idle;

/// Identifier of mouse cursor events.
pub const MOUSE_CURSOR: EventId = EventId::MouseCursor;

/// Identifier of mouse relative events.
pub const MOUSE_RELATIVE: EventId = EventId::MouseRelative;

/// Identifier of mouse scroll events.
pub const MOUSE_SCROLL: EventId = EventId::MouseScroll;

/// Identifier of button press events.
pub const PRESS: EventId = EventId::Press;

/// Identifier of button release events.
pub const RELEASE: EventId = EventId::Release;

/// The payload of an event, whatever its kind: a closed union over the
/// payload shapes that events carry. `S` is the scalar type of durations and
/// coordinates.
#[derive(Copy, Clone, PartialEq, Debug)]
pub enum Args<S> {
    /// The payload of idle events.
    Idle(IdleArgs<S>),
    /// The payload of the mouse motion kinds: a pair `(x, y)`.
    Xy(S, S),
    /// The payload of button events.
    Button(MouseButton),
}

/// Whether `args` has the payload shape that events of kind `id` carry.
pub open spec fn args_fit<S>(id: EventId, args: Args<S>) -> bool {
    match id {
        EventId::Idle => args is Idle,
        EventId::MouseCursor | EventId::MouseRelative | EventId::MouseScroll => args is Xy,
        EventId::Press | EventId::Release => args is Button,
    }
}

/// Implemented by every concrete event representation.
///
/// A value reports the kind of event it holds and its payload, and a new
/// value of the same representation can be built from an identifier, a
/// payload and an old value that supplies whatever the pair does not
/// determine.
pub trait GenericEvent<S>: Sized {
    /// The kind of event that the value holds.
    spec fn spec_event_id(&self) -> EventId;

    /// The payload that the value holds.
    spec fn spec_args(&self) -> Args<S>;

    /// What `from_args` returns: `None` exactly where the representation has
    /// no place for events of kind `id` built from `old_event`.
    spec fn spec_from_args(id: EventId, args: Args<S>, old_event: Self) -> Option<Self>;

    /// The payload of a value always has the shape of its kind.
    proof fn lemma_args_fit(&self)
        ensures
            args_fit(self.spec_event_id(), self.spec_args()),
    ;

    /// A built value holds the identifier and the payload that it was built from.
    proof fn lemma_from_args(id: EventId, args: Args<S>, old_event: Self)
        requires
            args_fit(id, args),
        ensures
            Self::spec_from_args(id, args, old_event) matches Some(e) ==> e.spec_event_id() == id
                && e.spec_args() == args,
    ;

    /// Returns the kind of event that the value holds.
    fn event_id(&self) -> (r: EventId)
        ensures
            r == self.spec_event_id(),
    ;

    /// Calls `f` once with the payload of the value and returns its result.
    fn with_args<R, F: FnOnce(&Args<S>) -> R>(&self, f: F) -> (r: R)
        requires
            f.requires((&self.spec_args(),)),
        ensures
            f.ensures((&self.spec_args(),), r),
    ;

    /// Builds an event of kind `id` that carries `args`, taking every other
    /// part from `old_event`.
    fn from_args(id: EventId, args: &Args<S>, old_event: &Self) -> (r: Option<Self>)
        requires
            args_fit(id, *args),
        ensures
            r == Self::spec_from_args(id, *args, *old_event),
    ;
}

} // verus!
