use std::cell::RefCell;
use std::rc::Rc;

use lvgl_support::callback::{dispatch, event_callback, route, CallbackSlot, Widget};
use lvgl_support::event::Event;

#[derive(Debug, PartialEq)]
struct Button {
    addr: usize,
}

impl Widget for Button {
    type SpecialEvent = u8;

    fn from_raw(addr: usize) -> Option<Self> {
        if addr % 8 == 0 {
            Some(Button { addr })
        } else {
            None
        }
    }
}

type Log = Rc<RefCell<Vec<(usize, Event<u8>)>>>;

fn recording_slot(log: &Log) -> CallbackSlot<impl FnMut(Button, Event<u8>)> {
    let log = log.clone();
    let mut slot = CallbackSlot::new();
    let released = slot.register(move |b: Button, e: Event<u8>| log.borrow_mut().push((b.addr, e)));
    assert!(released.is_none());
    slot
}

#[test]
fn trampoline_null_target_drops_event() {
    let log: Log = Rc::new(RefCell::new(Vec::new()));
    let mut slot = recording_slot(&log);
    assert!(!event_callback::<Button, _>(7, 0, &mut slot));
    assert!(log.borrow().is_empty());
}

#[test]
fn trampoline_unknown_code_drops_event() {
    let log: Log = Rc::new(RefCell::new(Vec::new()));
    let mut slot = recording_slot(&log);
    assert!(!event_callback::<Button, _>(9, 0x1000, &mut slot));
    assert!(!event_callback::<Button, _>(0, 0x1000, &mut slot));
    assert!(log.borrow().is_empty());
}

#[test]
fn trampoline_invalid_handle_drops_event() {
    let log: Log = Rc::new(RefCell::new(Vec::new()));
    let mut slot = recording_slot(&log);
    assert!(!event_callback::<Button, _>(7, 0x1001, &mut slot));
    assert!(log.borrow().is_empty());
}

#[test]
fn trampoline_invokes_closure_once_per_event() {
    let log: Log = Rc::new(RefCell::new(Vec::new()));
    let mut slot = recording_slot(&log);
    assert!(event_callback::<Button, _>(7, 0x1000, &mut slot));
    assert_eq!(*log.borrow(), vec![(0x1000, Event::Clicked)]);
    assert!(event_callback::<Button, _>(28, 0x2000, &mut slot));
    assert_eq!(*log.borrow(), vec![(0x1000, Event::Clicked), (0x2000, Event::ValueChanged)]);
}

#[test]
fn trampoline_without_closure_drops_event() {
    let mut slot: CallbackSlot<fn(Button, Event<u8>)> = CallbackSlot::new();
    assert!(!slot.is_registered());
    assert!(!event_callback::<Button, _>(7, 0x1000, &mut slot));
}

#[test]
fn route_decodes_for_non_null_target() {
    assert_eq!(route::<u8>(1, 0x40), Some(Event::Pressed));
    assert_eq!(route::<u8>(1, 0), None);
    assert_eq!(route::<u8>(29, 0x40), None);
}

#[test]
fn dispatch_calls_stored_closure() {
    let log: Log = Rc::new(RefCell::new(Vec::new()));
    let mut slot = recording_slot(&log);
    assert!(dispatch(Button { addr: 3 }, Event::Special(5), &mut slot));
    assert_eq!(*log.borrow(), vec![(3, Event::Special(5))]);
    slot.clear();
    assert!(!dispatch(Button { addr: 4 }, Event::Pressed, &mut slot));
    assert_eq!(log.borrow().len(), 1);
}

#[test]
fn register_releases_previous_closure_once() {
    let owned = Rc::new(());
    let mut slot = CallbackSlot::new();
    let first = owned.clone();
    assert!(slot.register(Box::new(move |_: Button, _: Event<u8>| drop(&first)) as Box<dyn FnMut(Button, Event<u8>)>).is_none());
    assert_eq!(Rc::strong_count(&owned), 2);
    let second = owned.clone();
    let released = slot.register(Box::new(move |_: Button, _: Event<u8>| drop(&second)));
    assert!(released.is_some());
    assert_eq!(Rc::strong_count(&owned), 3);
    drop(released);
    assert_eq!(Rc::strong_count(&owned), 2);
    let last = slot.clear();
    assert!(last.is_some());
    assert!(!slot.is_registered());
    drop(last);
    assert_eq!(Rc::strong_count(&owned), 1);
    assert!(slot.clear().is_none());
}
