use vstd::prelude::*;
use crate::native;

verus! {

/// Events are sent when something happens that may interest the user, e.g.
/// when an object is clicked, dragged, or its value has changed.
///
/// All objects (buttons, labels, sliders, ...) receive these generic events
/// regardless of their type; `Special` carries the events of one object type.
#[derive(Debug, Copy, Clone, PartialEq, Eq, Structural, PartialOrd, Ord)]
pub enum Event<T> {
    /// The object has been pressed.
    Pressed,

    /// The object is being pressed (sent continuously while pressing).
    Pressing,

    /// The input device is still being pressed but is no longer on the object.
    PressLost,

    /// Released before `long_press_time`. Not sent if dragged.
    ShortClicked,

    /// Sent on release if not dragged (regardless of long press).
    Clicked,

    /// Pressed for `long_press_time`. Not sent if dragged.
    LongPressed,

    /// Sent after `long_press_time` every `long_press_rep_time` ms. Not sent if
    /// dragged.
    LongPressedRepeat,

    /// Sent whenever the object has been released, even if it was dragged. Not
    /// sent if the pointer slid off the object and was released outside it: in
    /// that case `PressLost` is sent.
    Released,

    /// An underlying value has changed, e.g. the position of a slider.
    ValueChanged,

    /// Perform the main drawing.
    DrawMain,

    /// Starting the main drawing phase.
    DrawMainBegin,

    /// Finishing the main drawing phase.
    DrawMainEnd,

    /// Starting to draw a part.
    DrawPartBegin,

    /// Finishing to draw a part.
    DrawPartEnd,

    /// Perform the post draw phase (when all children are drawn).
    DrawPost,

    /// Starting the post draw phase.
    DrawPostBegin,

    /// Finishing the post draw phase.
    DrawPostEnd,

    /// The object has been focused.
    Focused,

    /// Events of pointer-like input devices (e.g. mouse or touchpad).
    Pointer(PointerEvent),

    /// Special event of the object type.
    Special(T),
}

/// Events sent only by pointer-like input devices (e.g. mouse or touchpad).
#[derive(Debug, Copy, Clone, PartialEq, Eq, Structural, PartialOrd, Ord)]
pub enum PointerEvent {
    DragBegin,
    DragEnd,
    DragThrowBegin,
}

/// The event that a native event code stands for, if the taxonomy lists it.
pub open spec fn event_of_code<S>(code: u32) -> Option<Event<S>> {
    if code == native::LV_EVENT_PRESSED {
        Some(Event::Pressed)
    } else if code == native::LV_EVENT_PRESSING {
        Some(Event::Pressing)
    } else if code == native::LV_EVENT_PRESS_LOST {
        Some(Event::PressLost)
    } else if code == native::LV_EVENT_SHORT_CLICKED {
        Some(Event::ShortClicked)
    } else if code == native::LV_EVENT_CLICKED {
        Some(Event::Clicked)
    } else if code == native::LV_EVENT_LONG_PRESSED {
        Some(Event::LongPressed)
    } else if code == native::LV_EVENT_LONG_PRESSED_REPEAT {
        Some(Event::LongPressedRepeat)
    } else if code == native::LV_EVENT_RELEASED {
        Some(Event::Released)
    } else if code == native::LV_EVENT_VALUE_CHANGED {
        Some(Event::ValueChanged)
    } else if code == native::LV_EVENT_DRAW_MAIN {
        Some(Event::DrawMain)
    } else if code == native::LV_EVENT_DRAW_MAIN_BEGIN {
        Some(Event::DrawMainBegin)
    } else if code == native::LV_EVENT_DRAW_MAIN_END {
        Some(Event::DrawMainEnd)
    } else if code == native::LV_EVENT_DRAW_PART_BEGIN {
        Some(Event::DrawPartBegin)
    } else if code == native::LV_EVENT_DRAW_PART_END {
        Some(Event::DrawPartEnd)
    } else if code == native::LV_EVENT_DRAW_POST {
        Some(Event::DrawPost)
    } else if code == native::LV_EVENT_DRAW_POST_BEGIN {
        Some(Event::DrawPostBegin)
    } else if code == native::LV_EVENT_DRAW_POST_END {
        Some(Event::DrawPostEnd)
    } else if code == native::LV_EVENT_FOCUSED {
        Some(Event::Focused)
    } else {
        None
    }
}

/// The native code of an event; none for pointer and special events, which
/// have no generic native code.
pub open spec fn code_of_event<S>(e: Event<S>) -> Option<u32> {
    match e {
        Event::Pressed => Some(native::LV_EVENT_PRESSED),
        Event::Pressing => Some(native::LV_EVENT_PRESSING),
        Event::PressLost => Some(native::LV_EVENT_PRESS_LOST),
        Event::ShortClicked => Some(native::LV_EVENT_SHORT_CLICKED),
        Event::Clicked => Some(native::LV_EVENT_CLICKED),
        Event::LongPressed => Some(native::LV_EVENT_LONG_PRESSED),
        Event::LongPressedRepeat => Some(native::LV_EVENT_LONG_PRESSED_REPEAT),
        Event::Released => Some(native::LV_EVENT_RELEASED),
        Event::ValueChanged => Some(native::LV_EVENT_VALUE_CHANGED),
        Event::DrawMain => Some(native::LV_EVENT_DRAW_MAIN),
        Event::DrawMainBegin => Some(native::LV_EVENT_DRAW_MAIN_BEGIN),
        Event::DrawMainEnd => Some(native::LV_EVENT_DRAW_MAIN_END),
        Event::DrawPartBegin => Some(native::LV_EVENT_DRAW_PART_BEGIN),
        Event::DrawPartEnd => Some(native::LV_EVENT_DRAW_PART_END),
        Event::DrawPost => Some(native::LV_EVENT_DRAW_POST),
        Event::DrawPostBegin => Some(native::LV_EVENT_DRAW_POST_BEGIN),
        Event::DrawPostEnd => Some(native::LV_EVENT_DRAW_POST_END),
        Event::Focused => Some(native::LV_EVENT_FOCUSED),
        Event::Pointer(_) => None,
        Event::Special(_) => None,
    }
}

impl<S> Event<S> {
    /// The native code of this event, or `None` where it has none.
    pub fn code(&self) -> (r: Option<u32>)
        ensures
            r == code_of_event(*self),
    {
        match self {
            Event::Pressed => Some(native::LV_EVENT_PRESSED),
            Event::Pressing => Some(native::LV_EVENT_PRESSING),
            Event::PressLost => Some(native::LV_EVENT_PRESS_LOST),
            Event::ShortClicked => Some(native::LV_EVENT_SHORT_CLICKED),
            Event::Clicked => Some(native::LV_EVENT_CLICKED),
            Event::LongPressed => Some(native::LV_EVENT_LONG_PRESSED),
            Event::LongPressedRepeat => Some(native::LV_EVENT_LONG_PRESSED_REPEAT),
            Event::Released => Some(native::LV_EVENT_RELEASED),
            Event::ValueChanged => Some(native::LV_EVENT_VALUE_CHANGED),
            Event::DrawMain => Some(native::LV_EVENT_DRAW_MAIN),
            Event::DrawMainBegin => Some(native::LV_EVENT_DRAW_MAIN_BEGIN),
            Event::DrawMainEnd => Some(native::LV_EVENT_DRAW_MAIN_END),
            Event::DrawPartBegin => Some(native::LV_EVENT_DRAW_PART_BEGIN),
            Event::DrawPartEnd => Some(native::LV_EVENT_DRAW_PART_END),
            Event::DrawPost => Some(native::LV_EVENT_DRAW_POST),
            Event::DrawPostBegin => Some(native::LV_EVENT_DRAW_POST_BEGIN),
            Event::DrawPostEnd => Some(native::LV_EVENT_DRAW_POST_END),
            Event::Focused => Some(native::LV_EVENT_FOCUSED),
            Event::Pointer(_) => None,
            Event::Special(_) => None,
        }
    }
}

impl<S> From<Event<S>> for Option<u32> {
    fn from(event: Event<S>) -> Self {
        event.code()
    }
}

impl<S> vstd::std_specs::convert::FromSpecImpl<Event<S>> for Option<u32> {
    open spec fn obeys_from_spec() -> bool {
        true
    }

    open spec fn from_spec(v: Event<S>) -> Self {
        code_of_event(v)
    }
}

impl<S> TryFrom<u32> for Event<S> {
    type Error = ();

    fn try_from(value: u32) -> Result<Self, Self::Error> {
        if value == native::LV_EVENT_PRESSED {
            Ok(Event::Pressed)
        } else if value == native::LV_EVENT_PRESSING {
            Ok(Event::Pressing)
        } else if value == native::LV_EVENT_PRESS_LOST {
            Ok(Event::PressLost)
        } else if value == native::LV_EVENT_SHORT_CLICKED {
            Ok(Event::ShortClicked)
        } else if value == native::LV_EVENT_CLICKED {
            Ok(Event::Clicked)
        } else if value == native::LV_EVENT_LONG_PRESSED {
            Ok(Event::LongPressed)
        } else if value == native::LV_EVENT_LONG_PRESSED_REPEAT {
            Ok(Event::LongPressedRepeat)
        } else if value == native::LV_EVENT_RELEASED {
            Ok(Event::Released)
        } else if value == native::LV_EVENT_VALUE_CHANGED {
            Ok(Event::ValueChanged)
        } else if value == native::LV_EVENT_DRAW_MAIN {
            Ok(Event::DrawMain)
        } else if value == native::LV_EVENT_DRAW_MAIN_BEGIN {
            Ok(Event::DrawMainBegin)
        } else if value == native::LV_EVENT_DRAW_MAIN_END {
            Ok(Event::DrawMainEnd)
        } else if value == native::LV_EVENT_DRAW_PART_BEGIN {
            Ok(Event::DrawPartBegin)
        } else if value == native::LV_EVENT_DRAW_PART_END {
            Ok(Event::DrawPartEnd)
        } else if value == native::LV_EVENT_DRAW_POST {
            Ok(Event::DrawPost)
        } else if value == native::LV_EVENT_DRAW_POST_BEGIN {
            Ok(Event::DrawPostBegin)
        } else if value == native::LV_EVENT_DRAW_POST_END {
            Ok(Event::DrawPostEnd)
        } else if value == native::LV_EVENT_FOCUSED {
            Ok(Event::Focused)
        } else {
            Err(())
        }
    }
}

impl<S> vstd::std_specs::convert::TryFromSpecImpl<u32> for Event<S> {
    open spec fn obeys_try_from_spec() -> bool {
        true
    }

    open spec fn try_from_spec(v: u32) -> Result<Self, Self::Error> {
        match event_of_code::<S>(v) {
            Some(e) => Ok(e),
            None => Err(()),
        }
    }
}

/// Decoding a code that the taxonomy lists, then encoding the event, gives
/// back the same code.
pub proof fn lemma_code_round_trip<S>(code: u32)
    requires
        event_of_code::<S>(code) is Some,
    ensures
        code_of_event(event_of_code::<S>(code).unwrap()) == Some(code),
{
}

/// Encoding an event that has a native code, then decoding that code, gives
/// back the same event.
pub proof fn lemma_event_round_trip<S>(e: Event<S>)
    requires
        code_of_event(e) is Some,
    ensures
        event_of_code::<S>(code_of_event(e).unwrap()) == Some(e),
{
}

/// A code that no event of the taxonomy has is rejected by decoding.
pub proof fn lemma_unknown_code_rejected<S>(code: u32)
    requires
        forall|e: Event<S>| code_of_event(e) != Some(code),
    ensures
        event_of_code::<S>(code) is None,
{
    if event_of_code::<S>(code) is Some {
        lemma_code_round_trip::<S>(code);
    }
}

} // verus!
