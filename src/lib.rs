//! Back-end agnostic input events: a generic event mechanism with typed
//! accessors for idle ticks and mouse motion, and mouse button codes.

pub mod event;
pub mod generic_event;
pub mod idle;
pub mod input;
pub mod mouse;
