use vstd::prelude::*;

verus! {

/// Host event class for internet events (the four-character code `GURL`).
#[allow(non_upper_case_globals)]
pub const kInternetEventClass: u32 = 0x4755524c;

/// Host event id for "get URL" events (the four-character code `GURL`).
#[allow(non_upper_case_globals)]
pub const kAEGetURL: u32 = 0x4755524c;

/// One entry of the host's shared event manager: the event class / event
/// id pair a handler has been registered for.
#[derive(Clone, Copy, PartialEq, Eq, Structural, Debug)]
pub struct EventHandlerRegistration {
    pub event_class: u32,
    pub event_id: u32,
}

/// Model of the host's shared event manager as this subsystem uses it: a
/// single-slot registry.  The host keeps exactly one handler per event
/// class / event id pair, so registering a handler elsewhere overwrites
/// the previous registration; there is no teardown.
pub struct AppleEventRegistry {
    registration: Option<EventHandlerRegistration>,
}

impl AppleEventRegistry {
    /// The registration currently held by the slot, if any.
    pub closed spec fn current(self) -> Option<EventHandlerRegistration> {
        self.registration
    }

    /// The state of the registry before any handler has been registered.
    pub fn new() -> (r: AppleEventRegistry)
        ensures
            r.current() is None,
    {
        AppleEventRegistry { registration: None }
    }

    /// Registers a handler for the given event class / event id pair.
    /// The slot holds one registration at a time, so whatever was
    /// registered before is overwritten.
    pub fn set_event_handler(&mut self, event_class: u32, event_id: u32)
        ensures
            final(self).current() == Some(EventHandlerRegistration { event_class, event_id }),
    {
        self.registration = Some(EventHandlerRegistration { event_class, event_id });
    }

    /// Reports the registration currently held by the slot.
    pub fn registered_handler(&self) -> (r: Option<EventHandlerRegistration>)
        ensures
            r == self.current(),
    {
        self.registration
    }
}

} // verus!
