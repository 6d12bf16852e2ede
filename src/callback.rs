use vstd::prelude::*;
use crate::event::{Event, event_of_code};

verus! {

/// A typed handle onto a native object, implemented by each widget type.
pub trait Widget: Sized {
    /// The events that only this widget type sends.
    type SpecialEvent;

    /// Rebuilds a handle from the address of a native object, or `None`
    /// where the address is not a valid object of this type.
    fn from_raw(addr: usize) -> Option<Self>
        requires
            addr != 0,
    ;
}

/// Holds the closure registered on one native object, and owns it.
pub struct CallbackSlot<F> {
    closure: Option<F>,
}

impl<F> View for CallbackSlot<F> {
    type V = Option<F>;

    /// The closure held, if any.
    closed spec fn view(&self) -> Option<F> {
        self.closure
    }
}

impl<F> CallbackSlot<F> {
    /// An empty slot.
    pub fn new() -> (s: Self)
        ensures
            s@ is None,
    {
        CallbackSlot { closure: None }
    }

    /// Stores `f` as the slot's closure and hands back the closure that was
    /// stored before, so that the caller releases it exactly once.
    pub fn register(&mut self, f: F) -> (released: Option<F>)
        ensures
            final(self)@ == Some(f),
            released == old(self)@,
    {
        let released = self.closure.take();
        self.closure = Some(f);
        released
    }

    /// Empties the slot and hands back the closure it held.
    pub fn clear(&mut self) -> (released: Option<F>)
        ensures
            final(self)@ is None,
            released == old(self)@,
    {
        self.closure.take()
    }

    /// Whether a closure is stored.
    pub fn is_registered(&self) -> (r: bool)
        ensures
            r == self@ is Some,
    {
        self.closure.is_some()
    }
}

/// The event to deliver for a native code on the object at `target`: none
/// where the address is null or the code is not one of the taxonomy.
pub fn route<S>(code: u32, target: usize) -> (r: Option<Event<S>>)
    ensures
        r == (if target == 0 {
            None
        } else {
            event_of_code::<S>(code)
        }),
{
    if target == 0 {
        None
    } else {
        match Event::<S>::try_from(code) {
            Ok(event) => Some(event),
            Err(()) => None,
        }
    }
}

/// Calls the stored closure once with `widget` and `event`; does nothing
/// where the slot is empty.
pub fn dispatch<W, S, F: FnMut(W, Event<S>)>(
    widget: W,
    event: Event<S>,
    slot: &mut CallbackSlot<F>,
) -> (delivered: bool)
    requires
        old(slot)@ is Some ==> call_requires(old(slot)@.unwrap(), (widget, event)),
    ensures
        delivered == old(slot)@ is Some,
        delivered ==> call_ensures(old(slot)@.unwrap(), (widget, event), ()),
        !delivered ==> final(slot)@ == old(slot)@,
        (final(slot)@ is Some) == (old(slot)@ is Some),
{
    match &mut slot.closure {
        None => false,
        Some(f) => {
            f(widget, event);
            true
        },
    }
}

/// Delivers a native event to the closure of the object it occurred on.
///
/// The event is dropped, and the closure not called, where the target address
/// is null, the code is not one of the taxonomy, the address is not an object
/// of type `W`, or no closure is stored. Otherwise the closure is called once
/// with the widget and the decoded event.
pub fn event_callback<W: Widget, F: FnMut(W, Event<W::SpecialEvent>)>(
    code: u32,
    target: usize,
    slot: &mut CallbackSlot<F>,
) -> (delivered: bool)
    requires
        old(slot)@ is Some ==> forall|w: W, e: Event<W::SpecialEvent>|
            call_requires(old(slot)@.unwrap(), (w, e)),
    ensures
        delivered ==> target != 0 && event_of_code::<W::SpecialEvent>(code) is Some
            && old(slot)@ is Some,
        delivered ==> exists|w: W|
            call_ensures(
                old(slot)@.unwrap(),
                (w, event_of_code::<W::SpecialEvent>(code).unwrap()),
                (),
            ),
        delivered ==> exists|w: W|
            call_ensures(W::from_raw, (target,), Some(w)) && call_ensures(
                old(slot)@.unwrap(),
                (w, event_of_code::<W::SpecialEvent>(code).unwrap()),
                (),
            ),
        !delivered ==> (target == 0 || event_of_code::<W::SpecialEvent>(code) is None
            || old(slot)@ is None || call_ensures(W::from_raw, (target,), None::<W>)),
        !delivered ==> final(slot)@ == old(slot)@,
        (final(slot)@ is Some) == (old(slot)@ is Some),
{
    match route::<W::SpecialEvent>(code, target) {
        None => false,
        Some(event) => match W::from_raw(target) {
            None => false,
            Some(widget) => dispatch(widget, event, slot),
        },
    }
}

} // verus!
