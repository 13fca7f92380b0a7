//! The process-notify routine: how it is registered with the kernel and how
//! it reads the events the kernel hands it.

use vstd::prelude::*;

verus! {

/// The arguments of one call of the kernel's process-notify registration
/// primitive: the routine that the call is about, and whether the call
/// removes it (`true`) or adds it (`false`). The kernel finds a registration
/// again by the routine alone.
#[derive(Debug, PartialEq, Eq)]
pub struct NotifyRoutineRegistration<C> {
    pub routine: C,
    pub remove: bool,
}

/// The call that registers `routine` for every process creation and exit.
pub fn install_create_process_callback<C>(routine: C) -> (call: NotifyRoutineRegistration<C>)
    ensures
        call == (NotifyRoutineRegistration { routine, remove: false }),
{
    NotifyRoutineRegistration { routine, remove: false }
}

/// The call that takes the registration of `routine` back.
pub fn uninstall_create_process_callback<C>(routine: C) -> (call: NotifyRoutineRegistration<C>)
    ensures
        call == (NotifyRoutineRegistration { routine, remove: true }),
{
    NotifyRoutineRegistration { routine, remove: true }
}

/// What the kernel reports to the process-notify routine.
#[derive(Clone, Copy, Debug, PartialEq, Eq, Structural)]
pub enum ProcessEvent {
    /// The process is being created.
    Creation { process_id: u32 },
    /// The process is exiting.
    Exit { process_id: u32 },
}

/// The low 32 bits of a process identifier, which the kernel hands over in a
/// handle of pointer width.
pub open spec fn short_process_id(process_id: usize) -> u32 {
    (process_id as int % 0x1_0000_0000) as u32
}

/// The event that the routine's arguments stand for: a creation if the
/// kernel handed over creation information, an exit if it handed over none.
pub open spec fn classify(process_id: usize, create_info: usize) -> ProcessEvent {
    if create_info != 0 {
        ProcessEvent::Creation { process_id: short_process_id(process_id) }
    } else {
        ProcessEvent::Exit { process_id: short_process_id(process_id) }
    }
}

/// Reads the arguments of one invocation of the process-notify routine:
/// `process` is the kernel's reference to the process object, `process_id`
/// its identifier and `create_info` the address of the creation information,
/// null when the process exits. Nothing but `create_info` decides between
/// creation and exit, and the routine keeps no state.
pub fn create_process_callback(process: usize, process_id: usize, create_info: usize) -> (event:
    ProcessEvent)
    ensures
        event == classify(process_id, create_info),
        event is Creation <==> create_info != 0,
{
    let wide: u64 = process_id as u64;
    let short: u32 = (wide % 0x1_0000_0000) as u32;
    if create_info != 0 {
        ProcessEvent::Creation { process_id: short }
    } else {
        ProcessEvent::Exit { process_id: short }
    }
}

/// For one process identifier, creation information makes the event a
/// creation and its absence makes it an exit, whatever process object the
/// kernel names; both events carry the same identifier.
pub proof fn lemma_classification(process_id: usize, create_info: usize)
    requires
        create_info != 0,
    ensures
        classify(process_id, create_info) == (ProcessEvent::Creation {
            process_id: short_process_id(process_id),
        }),
        classify(process_id, 0) == (ProcessEvent::Exit {
            process_id: short_process_id(process_id),
        }),
{
}

} // verus!
