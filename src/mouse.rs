//! Back-end agnostic mouse buttons, and the mouse motion events.

use vstd::prelude::*;

use crate::generic_event::{Args, EventId, GenericEvent};
use crate::idle::idle_of;

verus! {

/// Represent a mouse button.
#[derive(Copy, Clone, PartialEq, Eq, Structural, Ord, PartialOrd, Hash, Debug)]
pub enum MouseButton {
    /// Unknown mouse button.
    Unknown,
    /// Left mouse button.
    Left,
    /// Right mouse button.
    Right,
    /// Middle mouse button.
    Middle,
    /// Extra mouse button number 1.
    X1,
    /// Extra mouse button number 2.
    X2,
    /// Mouse button number 6.
    Button6,
    /// Mouse button number 7.
    Button7,
    /// Mouse button number 8.
    Button8,
}

/// The wire code of a button: its position in the table, `Unknown` being 0.
pub open spec fn button_to_code(b: MouseButton) -> u32 {
    match b {
        MouseButton::Unknown => 0,
        MouseButton::Left => 1,
        MouseButton::Right => 2,
        MouseButton::Middle => 3,
        MouseButton::X1 => 4,
        MouseButton::X2 => 5,
        MouseButton::Button6 => 6,
        MouseButton::Button7 => 7,
        MouseButton::Button8 => 8,
    }
}

/// The button of a wire code; every code outside `1..=8` is `Unknown`.
pub open spec fn code_to_button(n: u32) -> MouseButton {
    if n == 1 {
        MouseButton::Left
    } else if n == 2 {
        MouseButton::Right
    } else if n == 3 {
        MouseButton::Middle
    } else if n == 4 {
        MouseButton::X1
    } else if n == 5 {
        MouseButton::X2
    } else if n == 6 {
        MouseButton::Button6
    } else if n == 7 {
        MouseButton::Button7
    } else if n == 8 {
        MouseButton::Button8
    } else {
        MouseButton::Unknown
    }
}

impl From<u32> for MouseButton {
    fn from(n: u32) -> (r: MouseButton)
        ensures
            r == code_to_button(n),
    {
        match n {
            0 => MouseButton::Unknown,
            1 => MouseButton::Left,
            2 => MouseButton::Right,
            3 => MouseButton::Middle,
            4 => MouseButton::X1,
            5 => MouseButton::X2,
            6 => MouseButton::Button6,
            7 => MouseButton::Button7,
            8 => MouseButton::Button8,
            _ => MouseButton::Unknown,
        }
    }
}

impl vstd::std_specs::convert::FromSpecImpl<u32> for MouseButton {
    open spec fn obeys_from_spec() -> bool {
        true
    }

    open spec fn from_spec(n: u32) -> MouseButton {
        code_to_button(n)
    }
}

impl From<MouseButton> for u32 {
    fn from(button: MouseButton) -> (r: u32)
        ensures
            r == button_to_code(button),
    {
        match button {
            MouseButton::Unknown => 0,
            MouseButton::Left => 1,
            MouseButton::Right => 2,
            MouseButton::Middle => 3,
            MouseButton::X1 => 4,
            MouseButton::X2 => 5,
            MouseButton::Button6 => 6,
            MouseButton::Button7 => 7,
            MouseButton::Button8 => 8,
        }
    }
}

impl vstd::std_specs::convert::FromSpecImpl<MouseButton> for u32 {
    open spec fn obeys_from_spec() -> bool {
        true
    }

    open spec fn from_spec(button: MouseButton) -> u32 {
        button_to_code(button)
    }
}

/// Decoding the code of a button gives the button back, for all nine buttons.
pub proof fn lemma_button_code_round_trip(b: MouseButton)
    ensures
        code_to_button(button_to_code(b)) == b,
{
}

/// Every code in `0..=8` is the code of the button it decodes to; every
/// other code decodes to `Unknown`.
pub proof fn lemma_code_button_round_trip(n: u32)
    ensures
        n <= 8 ==> button_to_code(code_to_button(n)) == n,
        n > 8 ==> code_to_button(n) == MouseButton::Unknown,
{
}

/// The coordinates of `e`, where `e` is an event of the mouse motion kind `id`.
pub open spec fn xy_of<S, T: GenericEvent<S>>(e: T, id: EventId) -> Option<(S, S)> {
    if e.spec_event_id() == id {
        xy_payload(e.spec_args())
    } else {
        None
    }
}

/// The coordinates in a payload, if it holds a pair.
pub open spec fn xy_payload<S>(args: Args<S>) -> Option<(S, S)> {
    match args {
        Args::Xy(x, y) => Some((x, y)),
        _ => None,
    }
}

/// Copies the coordinates out of a payload, if it holds a pair.
fn read_xy_payload<S: Copy>(args: &Args<S>) -> (r: Option<(S, S)>)
    ensures
        r == xy_payload(*args),
{
    match args {
        Args::Xy(x, y) => Some((*x, *y)),
        _ => None,
    }
}

/// The payload that carries the pair `p`.
pub open spec fn xy_args<S>(p: (S, S)) -> Args<S> {
    Args::Xy(p.0, p.1)
}

/// Whether `id` is one of the mouse motion kinds, whose payload is `(x, y)`.
pub open spec fn is_mouse_motion(id: EventId) -> bool {
    id == EventId::MouseCursor || id == EventId::MouseRelative || id == EventId::MouseScroll
}

/// Round trip: where building a mouse motion event of kind `id` from `(x, y)`
/// and `old_event` succeeds with `e`, reading `e` as that kind gives `(x, y)`
/// back, and building again from what was read and the same old event gives
/// `e` again.
pub proof fn lemma_xy_round_trip<S, T: GenericEvent<S>>(id: EventId, x: S, y: S, old_event: T, e: T)
    requires
        is_mouse_motion(id),
        T::spec_from_args(id, Args::Xy(x, y), old_event) == Some(e),
    ensures
        xy_of(e, id) == Some((x, y)),
        T::spec_from_args(id, xy_args(xy_of(e, id)->0), old_event) == Some(e),
{
    T::lemma_from_args(id, Args::Xy(x, y), old_event);
}

/// Kinds exclude each other: an event is read as a kind only if it reports
/// that kind's identifier, and an event that reports the identifier of a
/// typed kind is always read as that kind.
pub proof fn lemma_kinds_exclusive<S, T: GenericEvent<S>>(e: T, id: EventId)
    requires
        is_mouse_motion(id),
    ensures
        idle_of(e) is Some <==> e.spec_event_id() == EventId::Idle,
        xy_of(e, id) is Some <==> e.spec_event_id() == id,
{
    e.lemma_args_fit();
}

/// Puts two coordinates into an array.
fn xy_array<S: Copy>(x: S, y: S) -> (r: [S; 2])
    ensures
        r@ == seq![x, y],
{
    [x, y]
}

/// The position of the mouse cursor
pub trait MouseCursorEvent<S: Copy>: GenericEvent<S> {
    /// Creates a mouse cursor event.
    fn from_xy(x: S, y: S, old_event: &Self) -> (r: Option<Self>)
        ensures
            r == Self::spec_from_args(EventId::MouseCursor, Args::Xy(x, y), *old_event),
    ;

    /// Calls closure if this is a mouse cursor event.
    fn mouse_cursor<U, F: FnOnce(S, S) -> U>(&self, f: F) -> (r: Option<U>)
        requires
            xy_of(*self, EventId::MouseCursor) matches Some((x, y)) ==> f.requires((x, y)),
        ensures
            match xy_of(*self, EventId::MouseCursor) {
                None => r is None,
                Some((x, y)) => r matches Some(u) && f.ensures((x, y), u),
            },
    ;

    /// Returns mouse cursor arguments.
    fn mouse_cursor_args(&self) -> (r: Option<[S; 2]>)
        ensures
            match xy_of(*self, EventId::MouseCursor) {
                None => r is None,
                Some((x, y)) => r matches Some(a) && a@ == seq![x, y],
            },
    {
        self.mouse_cursor(xy_array)
    }
}

impl<S: Copy, T: GenericEvent<S>> MouseCursorEvent<S> for T {
    fn from_xy(x: S, y: S, old_event: &Self) -> (r: Option<Self>) {
        T::from_args(EventId::MouseCursor, &Args::Xy(x, y), old_event)
    }

    fn mouse_cursor<U, F: FnOnce(S, S) -> U>(&self, f: F) -> (r: Option<U>) {
        if self.event_id() != EventId::MouseCursor {
            return None;
        }
        proof {
            self.lemma_args_fit();
        }
        match self.with_args(read_xy_payload) {
            Some((x, y)) => Some(f(x, y)),
            None => None,
        }
    }
}

/// The relative movement of mouse cursor
pub trait MouseRelativeEvent<S: Copy>: GenericEvent<S> {
    /// Creates a mouse relative event.
    fn from_xy(x: S, y: S, old_event: &Self) -> (r: Option<Self>)
        ensures
            r == Self::spec_from_args(EventId::MouseRelative, Args::Xy(x, y), *old_event),
    ;

    /// Calls closure if this is a mouse relative event.
    fn mouse_relative<U, F: FnOnce(S, S) -> U>(&self, f: F) -> (r: Option<U>)
        requires
            xy_of(*self, EventId::MouseRelative) matches Some((x, y)) ==> f.requires((x, y)),
        ensures
            match xy_of(*self, EventId::MouseRelative) {
                None => r is None,
                Some((x, y)) => r matches Some(u) && f.ensures((x, y), u),
            },
    ;

    /// Returns mouse relative arguments.
    fn mouse_relative_args(&self) -> (r: Option<[S; 2]>)
        ensures
            match xy_of(*self, EventId::MouseRelative) {
                None => r is None,
                Some((x, y)) => r matches Some(a) && a@ == seq![x, y],
            },
    {
        self.mouse_relative(xy_array)
    }
}

impl<S: Copy, T: GenericEvent<S>> MouseRelativeEvent<S> for T {
    fn from_xy(x: S, y: S, old_event: &Self) -> (r: Option<Self>) {
        T::from_args(EventId::MouseRelative, &Args::Xy(x, y), old_event)
    }

    fn mouse_relative<U, F: FnOnce(S, S) -> U>(&self, f: F) -> (r: Option<U>) {
        if self.event_id() != EventId::MouseRelative {
            return None;
        }
        proof {
            self.lemma_args_fit();
        }
        match self.with_args(read_xy_payload) {
            Some((x, y)) => Some(f(x, y)),
            None => None,
        }
    }
}

/// The scroll of the mouse wheel
pub trait MouseScrollEvent<S: Copy>: GenericEvent<S> {
    /// Creates a mouse scroll event.
    fn from_xy(x: S, y: S, old_event: &Self) -> (r: Option<Self>)
        ensures
            r == Self::spec_from_args(EventId::MouseScroll, Args::Xy(x, y), *old_event),
    ;

    /// Calls a closure if this is a mouse scroll event.
    fn mouse_scroll<U, F: FnOnce(S, S) -> U>(&self, f: F) -> (r: Option<U>)
        requires
            xy_of(*self, EventId::MouseScroll) matches Some((x, y)) ==> f.requires((x, y)),
        ensures
            match xy_of(*self, EventId::MouseScroll) {
                None => r is None,
                Some((x, y)) => r matches Some(u) && f.ensures((x, y), u),
            },
    ;

    /// Returns mouse scroll arguments.
    fn mouse_scroll_args(&self) -> (r: Option<[S; 2]>)
        ensures
            match xy_of(*self, EventId::MouseScroll) {
                None => r is None,
                Some((x, y)) => r matches Some(a) && a@ == seq![x, y],
            },
    {
        self.mouse_scroll(xy_array)
    }
}

impl<S: Copy, T: GenericEvent<S>> MouseScrollEvent<S> for T {
    fn from_xy(x: S, y: S, old_event: &Self) -> (r: Option<Self>) {
        T::from_args(EventId::MouseScroll, &Args::Xy(x, y), old_event)
    }

    fn mouse_scroll<U, F: FnOnce(S, S) -> U>(&self, f: F) -> (r: Option<U>) {
        if self.event_id() != EventId::MouseScroll {
            return None;
        }
        proof {
            self.lemma_args_fit();
        }
        match self.with_args(read_xy_payload) {
            Some((x, y)) => Some(f(x, y)),
            None => None,
        }
    }
}

} // verus!
