use vstd::prelude::*;

verus! {

/// How the host operating system should treat the application once it has
/// finished launching: as an ordinary foreground application, as a
/// background accessory, or as a process that never appears in the UI.
#[derive(Clone, Copy, PartialEq, Eq, Structural, Debug)]
pub enum ActivationPolicy {
    Regular,
    Accessory,
    Prohibited,
}

/// Configuration the engine wants to apply once the host's launch sequence
/// completes.  Applying the activation policy before the launch-finished
/// notification leaves the menu bar unresponsive on some host OS versions,
/// so the record is stored at allocation time and read back only when the
/// launch-finished notification arrives.
#[derive(Clone, Copy, PartialEq, Eq, Structural, Debug)]
pub struct AuxDelegateState {
    pub activation_policy: ActivationPolicy,
    pub create_default_menu: bool,
    pub activate_ignoring_other_apps: bool,
}

impl AuxDelegateState {
    /// The documented defaults every freshly allocated delegate instance
    /// starts with: regular activation, build the default menu, activate
    /// ignoring other running applications.
    pub open spec fn spec_default() -> AuxDelegateState {
        AuxDelegateState {
            activation_policy: ActivationPolicy::Regular,
            create_default_menu: true,
            activate_ignoring_other_apps: true,
        }
    }
}

impl Default for AuxDelegateState {
    fn default() -> (r: AuxDelegateState)
        ensures
            r == AuxDelegateState::spec_default(),
    {
        AuxDelegateState {
            activation_policy: ActivationPolicy::Regular,
            create_default_menu: true,
            activate_ignoring_other_apps: true,
        }
    }
}

} // verus!
