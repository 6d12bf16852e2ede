use core::convert::TryFrom;
use lvgl_support::event::{Event, PointerEvent};

const LISTED: [(u32, Event<()>); 18] = [
    (1, Event::Pressed),
    (2, Event::Pressing),
    (3, Event::PressLost),
    (4, Event::ShortClicked),
    (5, Event::LongPressed),
    (6, Event::LongPressedRepeat),
    (7, Event::Clicked),
    (8, Event::Released),
    (14, Event::Focused),
    (20, Event::DrawMainBegin),
    (21, Event::DrawMain),
    (22, Event::DrawMainEnd),
    (23, Event::DrawPostBegin),
    (24, Event::DrawPost),
    (25, Event::DrawPostEnd),
    (26, Event::DrawPartBegin),
    (27, Event::DrawPartEnd),
    (28, Event::ValueChanged),
];

#[test]
fn event_decodes_listed_codes() {
    for (code, event) in LISTED.iter() {
        assert_eq!(Event::<()>::try_from(*code), Ok(*event));
    }
}

#[test]
fn event_code_round_trip() {
    for (code, _) in LISTED.iter() {
        let event = Event::<()>::try_from(*code).unwrap();
        assert_eq!(event.code(), Some(*code));
    }
}

#[test]
fn event_rejects_unknown_codes() {
    for code in [0u32, 9, 10, 11, 12, 13, 15, 16, 17, 18, 19, 29, 30, 1000, u32::MAX] {
        assert_eq!(Event::<()>::try_from(code), Err(()));
    }
}

#[test]
fn event_without_native_code() {
    assert_eq!(Event::<u8>::Pointer(PointerEvent::DragBegin).code(), None);
    assert_eq!(Event::<u8>::Pointer(PointerEvent::DragThrowBegin).code(), None);
    assert_eq!(Event::<u8>::Special(3).code(), None);
    assert_eq!(Event::<u8>::Clicked.code(), Some(7));
}

#[test]
fn event_ordering_follows_variants() {
    assert!(Event::<u8>::Pressed < Event::<u8>::Pressing);
    assert!(Event::<u8>::Pointer(PointerEvent::DragEnd) < Event::<u8>::Special(0));
    assert!(Event::<u8>::Special(1) < Event::<u8>::Special(2));
    assert!(PointerEvent::DragBegin < PointerEvent::DragThrowBegin);
}

#[test]
fn event_encodes_through_from() {
    for (code, event) in LISTED.iter() {
        assert_eq!(Option::<u32>::from(*event), Some(*code));
    }
    assert_eq!(Option::<u32>::from(Event::<u8>::Special(1)), None);
    assert_eq!(Option::<u32>::from(Event::<u8>::Pointer(PointerEvent::DragEnd)), None);
}
