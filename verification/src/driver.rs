//! The order in which the driver comes up: driver object, control device,
//! process-notify routine. The library makes no call into the framework. It
//! says which call is due, is told what the call returned, and says what is
//! due next; the first failure ends the sequence with its status.

use crate::callbacks::process::NotifyRoutineRegistration;
use crate::callbacks::{install_callbacks, spec_install_callbacks, CallbackRegistry};
use crate::status::{nt_success, spec_nt_success, NTSTATUS, STATUS_SUCCESS};
use crate::wdf::driver::{
    create_driver, driver_creation_result, DriverHandle, NativeDriverConfig, WDFDriverConfig,
};
use vstd::prelude::*;

verus! {

/// The security descriptor of the control device: a protected access list
/// that grants all access to System, to Administrators and to Everyone.
pub const CONTROL_DEVICE_SDDL: &'static str = "D:P(A;;GA;;;SY)(A;;GA;;;BA)(A;;GA;;;WD)";

/// The framework's handle of a device-init descriptor: what a control
/// device is created from. A successful creation consumes the descriptor; a
/// failed one leaves it with the driver, which has to free it.
#[derive(Clone, Copy, Debug, PartialEq, Eq, Structural)]
pub struct DeviceInitHandle {
    pub address: usize,
}

/// A call into the framework that control-device creation asks for.
#[derive(Debug, PartialEq, Eq)]
pub enum DeviceRequest {
    /// Allocate a device-init descriptor for a control device of `driver`,
    /// under the security descriptor `sddl`.
    ControlDeviceInitAllocate { driver: DriverHandle, sddl: &'static str },
    /// Create the device from `device_init`.
    DeviceCreate { device_init: DeviceInitHandle },
    /// Free `device_init`, which no device was created from.
    DeviceInitFree { device_init: DeviceInitHandle },
}

/// What a call of [`DeviceRequest`] returned.
#[derive(Clone, Copy, Debug, PartialEq, Eq, Structural)]
pub enum DeviceReply {
    /// The allocation returned `device_init`.
    ControlDeviceInitAllocated { device_init: DeviceInitHandle },
    /// The creation returned `ntstatus`.
    DeviceCreated { ntstatus: NTSTATUS },
    /// The descriptor was freed.
    DeviceInitFreed,
}

/// How far control-device creation has come: the call whose reply is awaited.
#[derive(Clone, Copy, Debug, PartialEq, Eq, Structural)]
pub enum DeviceCreation {
    /// The allocation of the device-init descriptor.
    AllocatingInit,
    /// The creation of the device from `device_init`.
    CreatingDevice { device_init: DeviceInitHandle },
    /// The freeing of the descriptor, after the creation failed with `ntstatus`.
    FreeingInit { ntstatus: NTSTATUS },
}

/// What follows a reply: another call, with the state that awaits its
/// reply, or the end of the operation with its status.
#[derive(Debug, PartialEq, Eq)]
pub enum Step<S, R> {
    Call { state: S, request: R },
    Return { ntstatus: NTSTATUS },
}

impl DeviceCreation {
    /// Whether `reply` answers the call that this state awaits.
    pub open spec fn awaits(self, reply: DeviceReply) -> bool {
        match self {
            DeviceCreation::AllocatingInit => reply is ControlDeviceInitAllocated,
            DeviceCreation::CreatingDevice { .. } => reply is DeviceCreated,
            DeviceCreation::FreeingInit { .. } => reply is DeviceInitFreed,
        }
    }

    /// The first call of control-device creation under `driver`, and the
    /// state that awaits its reply.
    pub open spec fn spec_begin(driver: DriverHandle) -> (DeviceCreation, DeviceRequest) {
        (
            DeviceCreation::AllocatingInit,
            DeviceRequest::ControlDeviceInitAllocate { driver, sddl: CONTROL_DEVICE_SDDL },
        )
    }

    /// Starts control-device creation under `driver`: the descriptor is to
    /// be allocated under the control device's security descriptor.
    pub fn begin(driver: DriverHandle) -> (start: (DeviceCreation, DeviceRequest))
        ensures
            start == Self::spec_begin(driver),
    {
        (
            DeviceCreation::AllocatingInit,
            DeviceRequest::ControlDeviceInitAllocate { driver, sddl: CONTROL_DEVICE_SDDL },
        )
    }
}

/// What control-device creation does in `state` on `reply`; `None` where
/// `reply` does not answer the call that `state` awaits.
///
/// An allocated descriptor is handed to the creation call. A creation that
/// succeeded ends the operation with its status, the framework having
/// consumed the descriptor. A creation that failed has the descriptor freed
/// and then ends the operation with the status of the creation.
pub open spec fn spec_create_device(state: DeviceCreation, reply: DeviceReply) -> Option<
    Step<DeviceCreation, DeviceRequest>,
> {
    match (state, reply) {
        (
            DeviceCreation::AllocatingInit,
            DeviceReply::ControlDeviceInitAllocated { device_init },
        ) => Some(
            Step::Call {
                state: DeviceCreation::CreatingDevice { device_init },
                request: DeviceRequest::DeviceCreate { device_init },
            },
        ),
        (DeviceCreation::CreatingDevice { device_init }, DeviceReply::DeviceCreated { ntstatus }) => {
            if spec_nt_success(ntstatus) {
                Some(Step::Return { ntstatus })
            } else {
                Some(
                    Step::Call {
                        state: DeviceCreation::FreeingInit { ntstatus },
                        request: DeviceRequest::DeviceInitFree { device_init },
                    },
                )
            }
        },
        (DeviceCreation::FreeingInit { ntstatus }, DeviceReply::DeviceInitFreed) => Some(
            Step::Return { ntstatus },
        ),
        _ => None,
    }
}

/// Carries control-device creation one reply further.
pub fn create_device(state: DeviceCreation, reply: DeviceReply) -> (step: Option<
    Step<DeviceCreation, DeviceRequest>,
>)
    ensures
        step == spec_create_device(state, reply),
        step is Some <==> state.awaits(reply),
{
    match state {
        DeviceCreation::AllocatingInit => match reply {
            DeviceReply::ControlDeviceInitAllocated { device_init } => Some(
                Step::Call {
                    state: DeviceCreation::CreatingDevice { device_init },
                    request: DeviceRequest::DeviceCreate { device_init },
                },
            ),
            _ => None,
        },
        DeviceCreation::CreatingDevice { device_init } => match reply {
            DeviceReply::DeviceCreated { ntstatus } => {
                if !nt_success(ntstatus) {
                    Some(
                        Step::Call {
                            state: DeviceCreation::FreeingInit { ntstatus },
                            request: DeviceRequest::DeviceInitFree { device_init },
                        },
                    )
                } else {
                    Some(Step::Return { ntstatus })
                }
            },
            _ => None,
        },
        DeviceCreation::FreeingInit { ntstatus } => match reply {
            DeviceReply::DeviceInitFreed => Some(Step::Return { ntstatus }),
            _ => None,
        },
    }
}

/// A call that driver initialisation asks for.
#[derive(Debug, PartialEq, Eq)]
pub enum Request<A, U, C> {
    /// Create the driver object from `config`.
    DriverCreate { config: NativeDriverConfig<A, U> },
    /// A call of control-device creation.
    Device { request: DeviceRequest },
    /// Register or remove the process-notify routine.
    SetCreateProcessNotifyRoutine { call: NotifyRoutineRegistration<C> },
}

/// What a call of [`Request`] returned.
#[derive(Clone, Copy, Debug, PartialEq, Eq, Structural)]
pub enum Reply {
    /// Driver creation returned `ntstatus` and left `driver` in the handle.
    DriverCreated { ntstatus: NTSTATUS, driver: DriverHandle },
    /// The reply to a call of control-device creation.
    Device { reply: DeviceReply },
    /// The registration primitive returned `ntstatus`.
    NotifyRoutineSet { ntstatus: NTSTATUS },
}

/// How far driver initialisation has come: the call whose reply is awaited.
#[derive(Clone, Copy, Debug, PartialEq, Eq, Structural)]
pub enum DriverInit {
    /// The creation of the driver object.
    CreatingDriver,
    /// A call of control-device creation, which is in state `creation`.
    CreatingDevice { creation: DeviceCreation },
    /// The registration of the process-notify routine.
    InstallingCallbacks,
}

impl DriverInit {
    /// Whether `reply` answers the call that this state awaits.
    pub open spec fn awaits(self, reply: Reply) -> bool {
        match self {
            DriverInit::CreatingDriver => reply is DriverCreated,
            DriverInit::CreatingDevice { creation } => reply matches Reply::Device { reply: inner }
                && creation.awaits(inner),
            DriverInit::InstallingCallbacks => reply is NotifyRoutineSet,
        }
    }

    /// The first call of driver initialisation and the state that awaits its
    /// reply: driver creation, from a configuration that binds the unload
    /// handler and nothing else.
    pub open spec fn spec_begin<A, U, C>(evt_driver_unload: Option<U>) -> (
        DriverInit,
        Request<A, U, C>,
    ) {
        (
            DriverInit::CreatingDriver,
            Request::DriverCreate {
                config: (WDFDriverConfig::<A, U> {
                    evt_driver_unload,
                    ..WDFDriverConfig::<A, U>::spec_new()
                }).native(),
            },
        )
    }

    /// Starts driver initialisation.
    pub fn begin<A, U, C>(evt_driver_unload: Option<U>) -> (start: (DriverInit, Request<A, U, C>))
        ensures
            start == Self::spec_begin::<A, U, C>(evt_driver_unload),
    {
        let config = WDFDriverConfig::<A, U>::new().driver_unload(evt_driver_unload);
        (DriverInit::CreatingDriver, Request::DriverCreate { config: config.into_native() })
    }
}

/// What driver initialisation does in `state` on `reply`; `None` where
/// `reply` does not answer the call that `state` awaits.
///
/// A driver that was not created ends initialisation with the failure of
/// [`driver_creation_result`]. Under a created driver the control device is
/// created by [`spec_create_device`]; a failure there ends initialisation
/// with its status. Only then is the registry's routine installed; a failed
/// registration ends initialisation with its status and a successful one
/// with [`STATUS_SUCCESS`].
pub open spec fn spec_initialize_driver<A, U, C: Copy>(
    state: DriverInit,
    reply: Reply,
    registry: CallbackRegistry<C>,
) -> Option<Step<DriverInit, Request<A, U, C>>> {
    match (state, reply) {
        (DriverInit::CreatingDriver, Reply::DriverCreated { ntstatus, driver }) => {
            match driver_creation_result(ntstatus, driver) {
                Err(ntstatus) => Some(Step::Return { ntstatus }),
                Ok(driver) => Some(
                    Step::Call {
                        state: DriverInit::CreatingDevice {
                            creation: DeviceCreation::spec_begin(driver).0,
                        },
                        request: Request::Device { request: DeviceCreation::spec_begin(driver).1 },
                    },
                ),
            }
        },
        (DriverInit::CreatingDevice { creation }, Reply::Device { reply }) => {
            match spec_create_device(creation, reply) {
                None => None,
                Some(Step::Call { state, request }) => Some(
                    Step::Call {
                        state: DriverInit::CreatingDevice { creation: state },
                        request: Request::Device { request },
                    },
                ),
                Some(Step::Return { ntstatus }) => {
                    if !spec_nt_success(ntstatus) {
                        Some(Step::Return { ntstatus })
                    } else {
                        Some(
                            Step::Call {
                                state: DriverInit::InstallingCallbacks,
                                request: Request::SetCreateProcessNotifyRoutine {
                                    call: spec_install_callbacks(registry),
                                },
                            },
                        )
                    }
                },
            }
        },
        (DriverInit::InstallingCallbacks, Reply::NotifyRoutineSet { ntstatus }) => {
            if spec_nt_success(ntstatus) {
                Some(Step::Return { ntstatus: STATUS_SUCCESS })
            } else {
                Some(Step::Return { ntstatus })
            }
        },
        _ => None,
    }
}

/// Carries driver initialisation one reply further. `registry` holds the
/// routine that is installed once the control device stands.
pub fn initialize_driver<A, U, C: Copy>(
    state: DriverInit,
    reply: Reply,
    registry: &CallbackRegistry<C>,
) -> (step: Option<Step<DriverInit, Request<A, U, C>>>)
    ensures
        step == spec_initialize_driver::<A, U, C>(state, reply, *registry),
        step is Some <==> state.awaits(reply),
{
    match state {
        DriverInit::CreatingDriver => match reply {
            Reply::DriverCreated { ntstatus, driver } => {
                let driver = match create_driver(ntstatus, driver) {
                    Ok(driver) => driver,
                    Err(ntstatus) => {
                        return Some(Step::Return { ntstatus });
                    },
                };
                let (creation, request) = DeviceCreation::begin(driver);
                Some(
                    Step::Call {
                        state: DriverInit::CreatingDevice { creation },
                        request: Request::Device { request },
                    },
                )
            },
            _ => None,
        },
        DriverInit::CreatingDevice { creation } => match reply {
            Reply::Device { reply } => match create_device(creation, reply) {
                None => None,
                Some(Step::Call { state, request }) => Some(
                    Step::Call {
                        state: DriverInit::CreatingDevice { creation: state },
                        request: Request::Device { request },
                    },
                ),
                Some(Step::Return { ntstatus }) => {
                    if !nt_success(ntstatus) {
                        return Some(Step::Return { ntstatus });
                    }
                    Some(
                        Step::Call {
                            state: DriverInit::InstallingCallbacks,
                            request: Request::SetCreateProcessNotifyRoutine {
                                call: install_callbacks(registry),
                            },
                        },
                    )
                },
            },
            _ => None,
        },
        DriverInit::InstallingCallbacks => match reply {
            Reply::NotifyRoutineSet { ntstatus } => {
                if !nt_success(ntstatus) {
                    return Some(Step::Return { ntstatus });
                }
                Some(Step::Return { ntstatus: STATUS_SUCCESS })
            },
            _ => None,
        },
    }
}

} // verus!
