//! Input events: button presses and releases, and mouse motion.

use vstd::prelude::*;

use crate::generic_event::{Args, EventId, GenericEvent};
use crate::mouse::MouseButton;

verus! {

/// Mouse motion, with the coordinates it carries.
#[derive(Copy, Clone, PartialEq, Debug)]
pub enum Motion<S> {
    /// The position of the mouse cursor.
    MouseCursor(S, S),
    /// The relative movement of the mouse cursor.
    MouseRelative(S, S),
    /// The scroll of the mouse wheel.
    MouseScroll(S, S),
}

/// An input event.
#[derive(Copy, Clone, PartialEq, Debug)]
pub enum Input<S> {
    /// A button was pressed.
    Press(MouseButton),
    /// A button was released.
    Release(MouseButton),
    /// The mouse moved.
    Move(Motion<S>),
}

impl<S: Copy> GenericEvent<S> for Input<S> {
    open spec fn spec_event_id(&self) -> EventId {
        match *self {
            Input::Press(_) => EventId::Press,
            Input::Release(_) => EventId::Release,
            Input::Move(Motion::MouseCursor(_, _)) => EventId::MouseCursor,
            Input::Move(Motion::MouseRelative(_, _)) => EventId::MouseRelative,
            Input::Move(Motion::MouseScroll(_, _)) => EventId::MouseScroll,
        }
    }

    open spec fn spec_args(&self) -> Args<S> {
        match *self {
            Input::Press(b) => Args::Button(b),
            Input::Release(b) => Args::Button(b),
            Input::Move(Motion::MouseCursor(x, y)) => Args::Xy(x, y),
            Input::Move(Motion::MouseRelative(x, y)) => Args::Xy(x, y),
            Input::Move(Motion::MouseScroll(x, y)) => Args::Xy(x, y),
        }
    }

    /// Every kind but `Idle` has a place here; the old event plays no part,
    /// as an input event holds nothing beside its kind and payload.
    open spec fn spec_from_args(id: EventId, args: Args<S>, old_event: Self) -> Option<Self> {
        match args {
            Args::Xy(x, y) => match id {
                EventId::MouseCursor => Some(Input::Move(Motion::MouseCursor(x, y))),
                EventId::MouseRelative => Some(Input::Move(Motion::MouseRelative(x, y))),
                EventId::MouseScroll => Some(Input::Move(Motion::MouseScroll(x, y))),
                _ => None,
            },
            Args::Button(b) => match id {
                EventId::Press => Some(Input::Press(b)),
                EventId::Release => Some(Input::Release(b)),
                _ => None,
            },
            Args::Idle(_) => None,
        }
    }

    proof fn lemma_args_fit(&self) {
    }

    proof fn lemma_from_args(id: EventId, args: Args<S>, old_event: Self) {
    }

    fn event_id(&self) -> (r: EventId) {
        match self {
            Input::Press(_) => EventId::Press,
            Input::Release(_) => EventId::Release,
            Input::Move(Motion::MouseCursor(_, _)) => EventId::MouseCursor,
            Input::Move(Motion::MouseRelative(_, _)) => EventId::MouseRelative,
            Input::Move(Motion::MouseScroll(_, _)) => EventId::MouseScroll,
        }
    }

    fn with_args<R, F: FnOnce(&Args<S>) -> R>(&self, f: F) -> (r: R) {
        let args = match self {
            Input::Press(b) => Args::Button(*b),
            Input::Release(b) => Args::Button(*b),
            Input::Move(Motion::MouseCursor(x, y)) => Args::Xy(*x, *y),
            Input::Move(Motion::MouseRelative(x, y)) => Args::Xy(*x, *y),
            Input::Move(Motion::MouseScroll(x, y)) => Args::Xy(*x, *y),
        };
        f(&args)
    }

    fn from_args(id: EventId, args: &Args<S>, old_event: &Self) -> (r: Option<Self>) {
        match args {
            Args::Xy(x, y) => match id {
                EventId::MouseCursor => Some(Input::Move(Motion::MouseCursor(*x, *y))),
                EventId::MouseRelative => Some(Input::Move(Motion::MouseRelative(*x, *y))),
                EventId::MouseScroll => Some(Input::Move(Motion::MouseScroll(*x, *y))),
                _ => None,
            },
            Args::Button(b) => match id {
                EventId::Press => Some(Input::Press(*b)),
                EventId::Release => Some(Input::Release(*b)),
                _ => None,
            },
            Args::Idle(_) => None,
        }
    }
}

} // verus!
