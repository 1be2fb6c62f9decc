use vstd::prelude::*;

use crate::aux_state::AuxDelegateState;
use crate::delegate_class::DelegateTypeDescriptor;
use crate::event_manager::kAEGetURL;
use crate::event_manager::kInternetEventClass;
use crate::event_manager::AppleEventRegistry;

verus! {

/// The heap-allocated cell a delegate instance keeps in its opaque
/// storage slot: the auxiliary record together with the runtime borrow
/// flag of its interior-mutability wrapper.
struct AuxStateCell {
    value: AuxDelegateState,
    borrowed: bool,
}

/// One delegate instance as the host sees it: the opaque per-instance
/// storage slot either holds the auxiliary state cell attached by the
/// allocation hook, or is empty after the deallocation hook has
/// reclaimed the cell.  The record is exclusively owned by its instance
/// and is never shared between instances.
pub struct DelegateInstance {
    slot: Option<AuxStateCell>,
}

impl DelegateInstance {
    /// Whether the opaque slot still holds the auxiliary state cell.
    pub closed spec fn has_aux_state(self) -> bool {
        self.slot is Some
    }

    /// The auxiliary record currently held in the slot.
    pub closed spec fn aux_state(self) -> AuxDelegateState {
        self.slot.unwrap().value
    }

    /// Whether the record is mutably borrowed somewhere in the current
    /// callback chain.
    pub closed spec fn aux_borrowed(self) -> bool {
        self.slot.unwrap().borrowed
    }

    /// The allocation hook: produces a new instance from the registered
    /// delegate type, attaches a fresh auxiliary record with the
    /// documented defaults, and registers the instance as the process's
    /// handler for the host's "open URL" event class / event id pair.
    /// That registration is process-global: whatever handler was
    /// registered before is overwritten.
    pub fn new(class: &DelegateTypeDescriptor, registry: &mut AppleEventRegistry) -> (d:
        DelegateInstance)
        requires
            class.is_complete(),
        ensures
            d.has_aux_state(),
            !d.aux_borrowed(),
            d.aux_state() == AuxDelegateState::spec_default(),
            final(registry).current() == Some(
                crate::event_manager::EventHandlerRegistration {
                    event_class: kInternetEventClass,
                    event_id: kAEGetURL,
                },
            ),
    {
        registry.set_event_handler(kInternetEventClass, kAEGetURL);
        DelegateInstance {
            slot: Some(AuxStateCell { value: AuxDelegateState::default(), borrowed: false }),
        }
    }

    /// The deallocation hook: reclaims the auxiliary state cell from the
    /// opaque slot and drops it, releasing the underlying allocation
    /// exactly once.  Calling it again without an intervening allocation
    /// is a double free, a programming-contract violation, and is ruled
    /// out by the precondition.
    pub fn dealloc(&mut self)
        requires
            old(self).has_aux_state(),
        ensures
            !final(self).has_aux_state(),
    {
        self.slot = None;
    }

    /// The checked form of the deallocation hook: reclaims the cell when
    /// the slot still holds it and reports whether it did.  A `false`
    /// result detects the contract violation of a second deallocation.
    pub fn try_dealloc(&mut self) -> (reclaimed: bool)
        ensures
            reclaimed == old(self).has_aux_state(),
            !final(self).has_aux_state(),
    {
        let had = self.slot.is_some();
        self.slot = None;
        had
    }

    /// Reports whether the opaque slot still holds the auxiliary record.
    pub fn has_aux_state_attached(&self) -> (r: bool)
        ensures
            r == self.has_aux_state(),
    {
        self.slot.is_some()
    }
}

/// The accessor: recovers the auxiliary record of an instance produced by
/// the allocation hook as an exclusive, mutably-borrowable handle.  The
/// returned value is the record at the time of the call; the borrow stays
/// open until `end_aux_state_mut` stores the (possibly updated) record
/// back.  The preconditions are the accessor's contract: the instance
/// must carry a record, and a reentrant borrow while one is already open
/// panics in the host process rather than aliasing the record, so it is
/// ruled out here.
pub fn get_aux_state_mut(this: &mut DelegateInstance) -> (r: AuxDelegateState)
    requires
        old(this).has_aux_state(),
        !old(this).aux_borrowed(),
    ensures
        r == old(this).aux_state(),
        final(this).has_aux_state(),
        final(this).aux_borrowed(),
        final(this).aux_state() == old(this).aux_state(),
{
    match &mut this.slot {
        Some(cell) => {
            cell.borrowed = true;
            cell.value
        },
        None => unreached(),
    }
}

/// The checked form of the accessor: fails fast with `None` when the
/// record is already mutably borrowed in the current callback chain,
/// instead of producing a second aliased mutable view.
pub fn try_get_aux_state_mut(this: &mut DelegateInstance) -> (r: Option<AuxDelegateState>)
    requires
        old(this).has_aux_state(),
    ensures
        old(this).aux_borrowed() ==> r is None && *final(this) == *old(this),
        !old(this).aux_borrowed() ==> {
            &&& r == Some(old(this).aux_state())
            &&& final(this).has_aux_state()
            &&& final(this).aux_borrowed()
            &&& final(this).aux_state() == old(this).aux_state()
        },
{
    match &mut this.slot {
        Some(cell) => {
            if cell.borrowed {
                None
            } else {
                cell.borrowed = true;
                Some(cell.value)
            }
        },
        None => unreached(),
    }
}

/// Closes the borrow opened by the accessor, storing the caller's
/// (possibly updated) record back into the instance's slot.
pub fn end_aux_state_mut(this: &mut DelegateInstance, updated: AuxDelegateState)
    requires
        old(this).has_aux_state(),
        old(this).aux_borrowed(),
    ensures
        final(this).has_aux_state(),
        !final(this).aux_borrowed(),
        final(this).aux_state() == updated,
{
    this.slot = Some(AuxStateCell { value: updated, borrowed: false });
}

} // verus!
