//! The closed set of input events that the state machines consume.
use vstd::prelude::*;

verus! {

/// The mouse event kinds.
#[derive(PartialEq, Eq, Structural, Clone, Copy, Debug)]
pub enum MouseEventType {
    Mousedown,
    Mouseup,
    Mousemove,
    Mouseover,
    Mouseout,
    Mouseenter,
    Mouseleave,
    Click,
    Auxclick,
}

/// The touch event kinds.
#[derive(PartialEq, Eq, Structural, Clone, Copy, Debug)]
pub enum TouchEventType {
    Touchstart,
    Touchend,
    Touchmove,
}

/// The key event kinds.
#[derive(PartialEq, Eq, Structural, Clone, Copy, Debug)]
pub enum KeyEventType {
    Keydown,
    Keyup,
}

/// The supported event kinds.
#[derive(PartialEq, Eq, Structural, Clone, Copy, Debug)]
pub enum EventType {
    Mouse(MouseEventType),
    Touch(TouchEventType),
    Key(KeyEventType),
    Input,
    Scroll,
    Change,
    Wheel,
}

/// An immutable input event: its kind and a kind-specific value
/// (a coordinate, a key code, a wheel delta).
#[derive(PartialEq, Eq, Structural, Clone, Copy, Debug)]
pub struct Event {
    pub kind: EventType,
    pub value: i64,
}

impl Event {
    pub fn new(kind: EventType, value: i64) -> (r: Event)
        ensures
            r.kind == kind,
            r.value == value,
    {
        Event { kind, value }
    }
}

} // verus!
