//! The decisions of the service host: which controls it takes, what each
//! does to the running engine, and the status it reports in each state. The
//! host itself registers with the service manager, waits and reports.

use vstd::prelude::*;

verus! {

/// The command line of the service host.
#[derive(Clone, Copy, Debug, PartialEq, Eq, Structural)]
pub struct Cli {
    /// Run in the foreground, with logging to the console.
    pub foreground: bool,
}

/// How the engine was started.
#[derive(Clone, Copy, Debug, PartialEq, Eq, Structural)]
pub enum RuntimeMode {
    /// By the service manager.
    Service,
    /// From a console.
    Foreground,
}

/// The mode that the command line asks for.
pub fn runtime_mode(args: Cli) -> (mode: RuntimeMode)
    ensures
        mode == (if args.foreground {
            RuntimeMode::Foreground
        } else {
            RuntimeMode::Service
        }),
{
    if args.foreground {
        RuntimeMode::Foreground
    } else {
        RuntimeMode::Service
    }
}

/// A control that the service manager sends, as far as the host tells
/// controls apart.
#[derive(Clone, Copy, Debug, PartialEq, Eq, Structural)]
pub enum ServiceControl {
    Stop,
    Shutdown,
    Pause,
    Continue,
    Interrogate,
    /// Any other control.
    Other,
}

/// What the control handler answers the service manager.
#[derive(Clone, Copy, Debug, PartialEq, Eq, Structural)]
pub enum ServiceControlHandlerResult {
    NoError,
    NotImplemented,
}

/// What the control handler does with a control: whether it hands the
/// control on to the engine's loop, and what it answers.
#[derive(Clone, Copy, Debug, PartialEq, Eq, Structural)]
pub struct Handled {
    pub forward: bool,
    pub result: ServiceControlHandlerResult,
}

/// What the handler does with `control`: stop, shutdown, pause and continue
/// go on to the loop, an interrogation is answered at once, and nothing else
/// is implemented.
pub open spec fn spec_handle_control(control: ServiceControl) -> Handled {
    match control {
        ServiceControl::Interrogate => Handled {
            forward: false,
            result: ServiceControlHandlerResult::NoError,
        },
        ServiceControl::Other => Handled {
            forward: false,
            result: ServiceControlHandlerResult::NotImplemented,
        },
        _ => Handled { forward: true, result: ServiceControlHandlerResult::NoError },
    }
}

/// Decides what the control handler does with `control`.
pub fn handle_control(control: ServiceControl) -> (handled: Handled)
    ensures
        handled == spec_handle_control(control),
{
    match control {
        ServiceControl::Interrogate => Handled {
            forward: false,
            result: ServiceControlHandlerResult::NoError,
        },
        ServiceControl::Stop
        | ServiceControl::Shutdown
        | ServiceControl::Pause
        | ServiceControl::Continue => Handled {
            forward: true,
            result: ServiceControlHandlerResult::NoError,
        },
        ServiceControl::Other => Handled {
            forward: false,
            result: ServiceControlHandlerResult::NotImplemented,
        },
    }
}

/// The states that the service reports.
#[derive(Clone, Copy, Debug, PartialEq, Eq, Structural)]
pub enum ServiceState {
    StartPending,
    Running,
    Paused,
    StopPending,
    Stopped,
}

/// What the service reports of itself besides its type and exit code:
/// the state, whether it takes stop, shutdown, pause and continue, and for a
/// pending state the checkpoint and the seconds it may take.
#[derive(Clone, Copy, Debug, PartialEq, Eq, Structural)]
pub struct ServiceStatus {
    pub current_state: ServiceState,
    pub accepts_controls: bool,
    pub checkpoint: u32,
    pub wait_hint_secs: u64,
}

/// The status that goes with `state`. While it starts, runs or pauses the
/// service takes controls; once it stops it takes none. A pending state is
/// at its first checkpoint and may take ten seconds.
pub open spec fn spec_service_status(state: ServiceState) -> ServiceStatus {
    match state {
        ServiceState::StartPending => ServiceStatus {
            current_state: state,
            accepts_controls: true,
            checkpoint: 1,
            wait_hint_secs: 10,
        },
        ServiceState::Running | ServiceState::Paused => ServiceStatus {
            current_state: state,
            accepts_controls: true,
            checkpoint: 0,
            wait_hint_secs: 0,
        },
        ServiceState::StopPending => ServiceStatus {
            current_state: state,
            accepts_controls: false,
            checkpoint: 1,
            wait_hint_secs: 10,
        },
        ServiceState::Stopped => ServiceStatus {
            current_state: state,
            accepts_controls: false,
            checkpoint: 0,
            wait_hint_secs: 0,
        },
    }
}

/// The status to report in `state`.
pub fn service_status(state: ServiceState) -> (status: ServiceStatus)
    ensures
        status == spec_service_status(state),
{
    let stopping = match state {
        ServiceState::StopPending | ServiceState::Stopped => true,
        _ => false,
    };
    let pending = match state {
        ServiceState::StartPending | ServiceState::StopPending => true,
        _ => false,
    };
    ServiceStatus {
        current_state: state,
        accepts_controls: !stopping,
        checkpoint: if pending {
            1
        } else {
            0
        },
        wait_hint_secs: if pending {
            10
        } else {
            0
        },
    }
}

/// The status that reaches the service manager: `status` where the engine
/// runs as a service, nothing where it runs in the foreground.
pub fn set_status(mode: RuntimeMode, status: ServiceStatus) -> (reported: Option<ServiceStatus>)
    ensures
        reported == (if mode == RuntimeMode::Service {
            Some(status)
        } else {
            None
        }),
{
    match mode {
        RuntimeMode::Service => Some(status),
        RuntimeMode::Foreground => None,
    }
}

/// What a wait on the control channel ended with.
#[derive(Clone, Copy, Debug, PartialEq, Eq, Structural)]
pub enum Received {
    /// A control from the handler.
    Control { control: ServiceControl },
    /// Nothing within the second.
    Timeout,
    /// The handler is gone.
    Disconnected,
}

/// One turn of the engine's loop: whether the engine is paused after it,
/// the state to report if the turn changed it, and whether the loop ends.
#[derive(Clone, Copy, Debug, PartialEq, Eq, Structural)]
pub struct Turn {
    pub paused: bool,
    pub report: Option<ServiceState>,
    pub stop: bool,
}

/// The turn that `received` makes of an engine that is paused or not. Stop,
/// shutdown and a lost channel end the loop. A pause pauses a running
/// engine and a continue resumes a paused one, each with a report; a pause
/// of a paused engine and a continue of a running one change nothing, nor
/// does anything else.
pub open spec fn spec_run_engine(paused: bool, received: Received) -> Turn {
    match received {
        Received::Control { control: ServiceControl::Stop }
        | Received::Control { control: ServiceControl::Shutdown }
        | Received::Disconnected => Turn { paused, report: None, stop: true },
        Received::Control { control: ServiceControl::Pause } => if !paused {
            Turn { paused: true, report: Some(ServiceState::Paused), stop: false }
        } else {
            Turn { paused, report: None, stop: false }
        },
        Received::Control { control: ServiceControl::Continue } => if paused {
            Turn { paused: false, report: Some(ServiceState::Running), stop: false }
        } else {
            Turn { paused, report: None, stop: false }
        },
        _ => Turn { paused, report: None, stop: false },
    }
}

/// Takes one turn of the engine's loop.
pub fn run_engine(paused: bool, received: Received) -> (turn: Turn)
    ensures
        turn == spec_run_engine(paused, received),
{
    match received {
        Received::Control { control } => match control {
            ServiceControl::Stop | ServiceControl::Shutdown => Turn {
                paused,
                report: None,
                stop: true,
            },
            ServiceControl::Pause => {
                if !paused {
                    Turn { paused: true, report: Some(ServiceState::Paused), stop: false }
                } else {
                    Turn { paused, report: None, stop: false }
                }
            },
            ServiceControl::Continue => {
                if paused {
                    Turn { paused: false, report: Some(ServiceState::Running), stop: false }
                } else {
                    Turn { paused, report: None, stop: false }
                }
            },
            _ => Turn { paused, report: None, stop: false },
        },
        Received::Timeout => Turn { paused, report: None, stop: false },
        Received::Disconnected => Turn { paused, report: None, stop: true },
    }
}

/// A turn reports a state exactly when it changes whether the engine is
/// paused, and the state it reports is the one the engine is then in; a turn
/// that ends the loop changes and reports nothing.
pub proof fn lemma_report_follows_change(paused: bool, received: Received)
    ensures
        spec_run_engine(paused, received).report is Some <==> spec_run_engine(
            paused,
            received,
        ).paused != paused,
        spec_run_engine(paused, received).report == Some(ServiceState::Paused)
            ==> spec_run_engine(paused, received).paused,
        spec_run_engine(paused, received).report == Some(ServiceState::Running)
            ==> !spec_run_engine(paused, received).paused,
        spec_run_engine(paused, received).stop ==> spec_run_engine(paused, received) == (Turn {
            paused,
            report: None,
            stop: true,
        }),
{
}

} // verus!
