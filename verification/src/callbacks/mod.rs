//! The registry of kernel callbacks. It owns the identity of the one routine
//! that the driver registers, so that installing and removing name the same
//! routine.

pub mod process;

use process::{
    install_create_process_callback, uninstall_create_process_callback, NotifyRoutineRegistration,
};
use vstd::prelude::*;

verus! {

/// The callbacks of the driver: the process-notify routine, held by its
/// reference of type `C`. The library never calls through the reference.
#[derive(Debug, PartialEq, Eq)]
pub struct CallbackRegistry<C> {
    routine: C,
}

impl<C: Copy> CallbackRegistry<C> {
    /// The routine that this registry installs and removes.
    pub closed spec fn routine(&self) -> C {
        self.routine
    }

    /// A registry for `routine`.
    pub fn new(routine: C) -> (registry: Self)
        ensures
            registry.routine() == routine,
    {
        CallbackRegistry { routine }
    }
}

/// The call that installs the routine of `registry`.
pub open spec fn spec_install_callbacks<C: Copy>(
    registry: CallbackRegistry<C>,
) -> NotifyRoutineRegistration<C> {
    NotifyRoutineRegistration { routine: registry.routine(), remove: false }
}

/// The call that removes the routine of `registry`.
pub open spec fn spec_uninstall_callbacks<C: Copy>(
    registry: CallbackRegistry<C>,
) -> NotifyRoutineRegistration<C> {
    NotifyRoutineRegistration { routine: registry.routine(), remove: true }
}

/// The call that installs the registry's routine. Whether the routine was
/// installed before is the kernel's to say, in the status it returns.
pub fn install_callbacks<C: Copy>(registry: &CallbackRegistry<C>) -> (call:
    NotifyRoutineRegistration<C>)
    ensures
        call == spec_install_callbacks(*registry),
{
    install_create_process_callback(registry.routine)
}

/// The call that removes the registry's routine. Whether there was a
/// registration to remove is the kernel's to say, in the status it returns.
pub fn uninstall_callbacks<C: Copy>(registry: &CallbackRegistry<C>) -> (call:
    NotifyRoutineRegistration<C>)
    ensures
        call == spec_uninstall_callbacks(*registry),
{
    uninstall_create_process_callback(registry.routine)
}

/// Installing and removing through one registry name the same routine, the
/// registry's, and differ in nothing but the direction.
pub proof fn lemma_install_and_uninstall_name_one_routine<C: Copy>(registry: CallbackRegistry<C>)
    ensures
        spec_install_callbacks(registry).routine == spec_uninstall_callbacks(registry).routine,
        spec_install_callbacks(registry).routine == registry.routine(),
        !spec_install_callbacks(registry).remove,
        spec_uninstall_callbacks(registry).remove,
{
}

} // verus!
