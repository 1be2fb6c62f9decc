use vstd::prelude::*;

verus! {

/// The function table of the registered delegate type: which hooks and
/// notification entry points are installed, and whether the opaque
/// per-instance storage slot has been reserved.  The host reaches this
/// subsystem only through these entries.
#[derive(Clone, Copy, PartialEq, Eq, Structural, Debug)]
pub struct DelegateTypeDescriptor {
    pub has_alloc_hook: bool,
    pub has_dealloc_hook: bool,
    pub has_launch_finished_entry: bool,
    pub has_will_terminate_entry: bool,
    pub has_will_become_active_entry: bool,
    pub has_service_event_entry: bool,
    pub has_reopen_entry: bool,
    pub aux_slot_reserved: bool,
}

impl DelegateTypeDescriptor {
    /// A descriptor is complete when every hook, every notification entry
    /// point and the opaque per-instance slot have been installed.  No
    /// delegate instance may be created from an incomplete descriptor.
    pub open spec fn is_complete(self) -> bool {
        &&& self.has_alloc_hook
        &&& self.has_dealloc_hook
        &&& self.has_launch_finished_entry
        &&& self.has_will_terminate_entry
        &&& self.has_will_become_active_entry
        &&& self.has_service_event_entry
        &&& self.has_reopen_entry
        &&& self.aux_slot_reserved
    }

    /// The full function table this subsystem registers: allocation and
    /// deallocation hooks, the three lifecycle entries, the two service
    /// entries, and the reserved storage slot.
    pub open spec fn spec_full_table() -> DelegateTypeDescriptor {
        DelegateTypeDescriptor {
            has_alloc_hook: true,
            has_dealloc_hook: true,
            has_launch_finished_entry: true,
            has_will_terminate_entry: true,
            has_will_become_active_entry: true,
            has_service_event_entry: true,
            has_reopen_entry: true,
            aux_slot_reserved: true,
        }
    }
}

/// Process-wide holder of the delegate type descriptor.  The descriptor
/// is built lazily on first access, cached, and never torn down; after
/// the first construction it is immutable.  (Failure to register the
/// native type is fatal at startup and never yields a descriptor at all,
/// so no degraded descriptor is modelled here.)
pub struct DelegateClassRegistry {
    descriptor: Option<DelegateTypeDescriptor>,
}

impl DelegateClassRegistry {
    /// An incomplete descriptor is never cached: registration either
    /// installs the whole function table or fails fatally at startup.
    #[verifier::type_invariant]
    spec fn wf(self) -> bool {
        self.descriptor matches Some(d) ==> d.is_complete()
    }

    /// The descriptor built so far, if any.
    pub closed spec fn cached(self) -> Option<DelegateTypeDescriptor> {
        self.descriptor
    }

    /// The state of the process before the delegate type exists.
    pub fn new() -> (r: DelegateClassRegistry)
        ensures
            r.cached() is None,
    {
        DelegateClassRegistry { descriptor: None }
    }

    /// Returns the delegate type descriptor, building the full function
    /// table exactly once: the first call constructs and caches it, every
    /// later call returns the cached descriptor unchanged.
    pub fn get_or_create_delegate_type(&mut self) -> (d: DelegateTypeDescriptor)
        ensures
            d.is_complete(),
            final(self).cached() == Some(d),
            old(self).cached() matches Some(c) ==> d == c,
            old(self).cached() is None ==> d == DelegateTypeDescriptor::spec_full_table(),
    {
        proof {
            use_type_invariant(&*self);
        }
        match self.descriptor {
            Some(d) => d,
            None => {
                let d = DelegateTypeDescriptor {
                    has_alloc_hook: true,
                    has_dealloc_hook: true,
                    has_launch_finished_entry: true,
                    has_will_terminate_entry: true,
                    has_will_become_active_entry: true,
                    has_service_event_entry: true,
                    has_reopen_entry: true,
                    aux_slot_reserved: true,
                };
                self.descriptor = Some(d);
                d
            }
        }
    }
}

} // verus!
