use input::event::Event;
use input::generic_event::{Args, GenericEvent, MOUSE_CURSOR, PRESS, RELEASE};
use input::idle::{IdleArgs, IdleEvent};
use input::input::{Input, Motion};
use input::mouse::{MouseButton, MouseCursorEvent, MouseRelativeEvent, MouseScrollEvent};

#[test]
fn test_mouse_button_primitives() {
    for i in 0u32..9 {
        let button: MouseButton = i.into();
        let j: u32 = button.into();
        assert_eq!(i, j);
    }
}

#[test]
fn button_codes() {
    assert_eq!(u32::from(MouseButton::X2), 5);
    assert_eq!(MouseButton::from(5u32), MouseButton::X2);
    assert_eq!(MouseButton::from(42u32), MouseButton::Unknown);
    assert_eq!(MouseButton::from(255u32), MouseButton::Unknown);
    assert_eq!(MouseButton::from(u32::MAX), MouseButton::Unknown);
    assert_eq!(MouseButton::from(0u32), MouseButton::Unknown);
    assert_eq!(u32::from(MouseButton::Unknown), 0);
    assert_eq!(u32::from(MouseButton::Button8), 8);
}

#[test]
fn every_button_round_trips() {
    let all = [
        MouseButton::Unknown,
        MouseButton::Left,
        MouseButton::Right,
        MouseButton::Middle,
        MouseButton::X1,
        MouseButton::X2,
        MouseButton::Button6,
        MouseButton::Button7,
        MouseButton::Button8,
    ];
    for b in all {
        assert_eq!(MouseButton::from(u32::from(b)), b);
    }
}

#[test]
fn test_input_mouse_cursor() {
    let e = Input::Move(Motion::MouseCursor(0.0, 0.0));
    let a: Option<Input<f64>> = MouseCursorEvent::from_xy(1.0, 0.0, &e);
    let b: Option<Input<f64>> = a
        .clone()
        .unwrap()
        .mouse_cursor(|x, y| MouseCursorEvent::from_xy(x, y, a.as_ref().unwrap()))
        .unwrap();
    assert_eq!(a, b);
}

#[test]
fn test_event_mouse_cursor() {
    let e = Event::Input(Input::Move(Motion::MouseCursor(0.0, 0.0)));
    let a: Option<Event<f64>> = MouseCursorEvent::from_xy(1.0, 0.0, &e);
    let b: Option<Event<f64>> = a
        .clone()
        .unwrap()
        .mouse_cursor(|x, y| MouseCursorEvent::from_xy(x, y, a.as_ref().unwrap()))
        .unwrap();
    assert_eq!(a, b);
}

#[test]
fn test_input_mouse_relative() {
    let e = Input::Move(Motion::MouseRelative(0.0, 0.0));
    let a: Option<Input<f64>> = MouseRelativeEvent::from_xy(1.0, 0.0, &e);
    let b: Option<Input<f64>> = a
        .clone()
        .unwrap()
        .mouse_relative(|x, y| MouseRelativeEvent::from_xy(x, y, a.as_ref().unwrap()))
        .unwrap();
    assert_eq!(a, b);
}

#[test]
fn test_event_mouse_relative() {
    let e = Event::Input(Input::Move(Motion::MouseRelative(0.0, 0.0)));
    let a: Option<Event<f64>> = MouseRelativeEvent::from_xy(1.0, 0.0, &e);
    let b: Option<Event<f64>> = a
        .clone()
        .unwrap()
        .mouse_relative(|x, y| MouseRelativeEvent::from_xy(x, y, a.as_ref().unwrap()))
        .unwrap();
    assert_eq!(a, b);
}

#[test]
fn test_input_mouse_scroll() {
    let e = Input::Move(Motion::MouseScroll(0.0, 0.0));
    let a: Option<Input<f64>> = MouseScrollEvent::from_xy(1.0, 0.0, &e);
    let b: Option<Input<f64>> = a
        .clone()
        .unwrap()
        .mouse_scroll(|x, y| MouseScrollEvent::from_xy(x, y, a.as_ref().unwrap()))
        .unwrap();
    assert_eq!(a, b);
}

#[test]
fn test_event_mouse_scroll() {
    let e = Event::Input(Input::Move(Motion::MouseScroll(0.0, 0.0)));
    let a: Option<Event<f64>> = MouseScrollEvent::from_xy(1.0, 0.0, &e);
    let b: Option<Event<f64>> = a
        .clone()
        .unwrap()
        .mouse_scroll(|x, y| MouseScrollEvent::from_xy(x, y, a.as_ref().unwrap()))
        .unwrap();
    assert_eq!(a, b);
}

#[test]
fn cursor_event_is_not_relative_motion() {
    let e = Event::Input(Input::Move(Motion::MouseCursor(0.0, 0.0)));
    let a: Option<Event<f64>> = MouseCursorEvent::from_xy(1.0, 0.0, &e);
    assert_eq!(a, Some(Event::Input(Input::Move(Motion::MouseCursor(1.0, 0.0)))));
    let a = a.unwrap();
    assert_eq!(a.mouse_relative_args(), None);
    assert_eq!(a.mouse_scroll_args(), None);
    assert_eq!(a.idle_args(), None);
    assert_eq!(a.mouse_cursor_args(), Some([1.0, 0.0]));
    assert_eq!(a.event_id(), MOUSE_CURSOR);
}

#[test]
fn relative_callback_not_called_on_cursor_event() {
    let e: Event<f64> = Event::Input(Input::Move(Motion::MouseCursor(2.0, 3.0)));
    let mut calls = 0;
    let r = e.mouse_relative(|_, _| {
        calls += 1;
    });
    assert_eq!(r, None);
    assert_eq!(calls, 0);
}

#[test]
fn motion_args_read_back() {
    let s: Input<f64> = Input::Move(Motion::MouseScroll(-1.5, 2.5));
    assert_eq!(s.mouse_scroll_args(), Some([-1.5, 2.5]));
    assert_eq!(s.mouse_cursor_args(), None);
    let r: Input<f64> = Input::Move(Motion::MouseRelative(7.0, -3.0));
    assert_eq!(r.mouse_relative(|x, y| x + y), Some(4.0));
}

#[test]
fn motion_from_idle_event_is_refused() {
    let old = Event::Idle(IdleArgs { dt: 1.0 });
    let a: Option<Event<f64>> = MouseCursorEvent::from_xy(1.0, 2.0, &old);
    assert_eq!(a, None);
    let b: Option<Event<f64>> = MouseScrollEvent::from_xy(1.0, 2.0, &old);
    assert_eq!(b, None);
}

#[test]
fn motion_replaces_button_input() {
    let old: Event<f64> = Event::Input(Input::Press(MouseButton::Left));
    let a: Option<Event<f64>> = MouseRelativeEvent::from_xy(5.0, 6.0, &old);
    assert_eq!(a, Some(Event::Input(Input::Move(Motion::MouseRelative(5.0, 6.0)))));
}

#[test]
fn button_events_through_generic_capability() {
    let old: Event<f64> = Event::Input(Input::Move(Motion::MouseCursor(0.0, 0.0)));
    let p = Event::from_args(PRESS, &Args::Button(MouseButton::X1), &old);
    assert_eq!(p, Some(Event::Input(Input::Press(MouseButton::X1))));
    let r = Event::from_args(RELEASE, &Args::Button(MouseButton::Right), &old);
    assert_eq!(r, Some(Event::Input(Input::Release(MouseButton::Right))));
    let p = p.unwrap();
    assert_eq!(p.event_id(), PRESS);
    assert_eq!(p.with_args(|a| *a), Args::Button(MouseButton::X1));
}
