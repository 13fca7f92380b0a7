//! Whole runs of driver initialisation: the calls that the library asks for
//! over any sequence of replies, and what holds of every such run.

use crate::callbacks::{spec_install_callbacks, CallbackRegistry};
use crate::driver::{
    spec_initialize_driver, DeviceInitHandle, DeviceReply, DeviceRequest, DriverInit, Reply,
    Request, Step, CONTROL_DEVICE_SDDL,
};
use crate::status::{spec_nt_success, NTSTATUS, STATUS_INVALID_PARAMETER, STATUS_SUCCESS};
use crate::wdf::driver::{driver_creation_result, WDFDriverConfig};
use vstd::prelude::*;

verus! {

/// Where a run stands: a call is out and its reply awaited, or
/// initialisation has returned.
pub enum Progress {
    Awaiting { state: DriverInit },
    Finished { ntstatus: NTSTATUS },
}

/// A run of driver initialisation: every call asked for so far, in order,
/// and where the run stands.
pub struct Run<A, U, C> {
    pub requests: Seq<Request<A, U, C>>,
    pub progress: Progress,
}

/// The run that the replies `replies`, in this order, lead to; `None` where
/// one of them does not answer the call that was out, or comes after
/// initialisation has returned.
pub open spec fn run<A, U, C: Copy>(
    evt_driver_unload: Option<U>,
    registry: CallbackRegistry<C>,
    replies: Seq<Reply>,
) -> Option<Run<A, U, C>>
    decreases replies.len(),
{
    if replies.len() == 0 {
        let start = DriverInit::spec_begin::<A, U, C>(evt_driver_unload);
        Some(Run { requests: seq![start.1], progress: Progress::Awaiting { state: start.0 } })
    } else {
        match run::<A, U, C>(evt_driver_unload, registry, replies.drop_last()) {
            Some(Run { requests, progress: Progress::Awaiting { state } }) => {
                match spec_initialize_driver::<A, U, C>(state, replies.last(), registry) {
                    Some(Step::Call { state, request }) => Some(
                        Run {
                            requests: requests.push(request),
                            progress: Progress::Awaiting { state },
                        },
                    ),
                    Some(Step::Return { ntstatus }) => Some(
                        Run { requests, progress: Progress::Finished { ntstatus } },
                    ),
                    None => None,
                }
            },
            _ => None,
        }
    }
}

/// The first request of every run: driver creation, from the configuration
/// that binds `evt_driver_unload` and nothing else.
pub open spec fn driver_create_request<A, U, C>(evt_driver_unload: Option<U>) -> Request<A, U, C> {
    Request::DriverCreate {
        config: (WDFDriverConfig::<A, U> {
            evt_driver_unload,
            ..WDFDriverConfig::<A, U>::spec_new()
        }).native(),
    }
}

/// Every run, read from its first reply on.
///
/// A run starts with driver creation. Its first reply is that of driver
/// creation; where the driver was not created the run is over, with that
/// failure and no further call. Else the init descriptor is allocated under
/// the driver and the control device's security descriptor, and the device
/// created from what the allocation returned. Where that creation failed the
/// descriptor is freed and the run ends with the creation's status; where it
/// succeeded the registry's routine is installed and the run ends with the
/// failure of the registration or with success. No run has a fifth reply.
pub proof fn lemma_run_shape<A, U, C: Copy>(
    evt_driver_unload: Option<U>,
    registry: CallbackRegistry<C>,
    replies: Seq<Reply>,
)
    requires
        run::<A, U, C>(evt_driver_unload, registry, replies) is Some,
    ensures
        ({
            let r = run::<A, U, C>(evt_driver_unload, registry, replies)->0;
            let n = replies.len();
            &&& n <= 4
            &&& 1 <= r.requests.len() <= n + 1
            &&& r.requests[0] == driver_create_request::<A, U, C>(evt_driver_unload)
            &&& n == 0 ==> r.requests.len() == 1 && r.progress == (Progress::Awaiting {
                state: DriverInit::CreatingDriver,
            })
            &&& n >= 1 ==> (replies[0] matches Reply::DriverCreated { ntstatus, driver } && (
            match driver_creation_result(ntstatus, driver) {
                Err(failure) => n == 1 && r.requests.len() == 1 && r.progress == (
                Progress::Finished { ntstatus: failure }),
                Ok(created) => {
                    &&& created == driver
                    &&& r.requests.len() == (if n == 4 {
                        4
                    } else {
                        n + 1
                    })
                    &&& r.requests[1] == Request::<A, U, C>::Device {
                        request: DeviceRequest::ControlDeviceInitAllocate {
                            driver,
                            sddl: CONTROL_DEVICE_SDDL,
                        },
                    }
                    &&& n == 1 ==> r.progress is Awaiting
                    &&& n >= 2 ==> (replies[1] matches Reply::Device {
                        reply: DeviceReply::ControlDeviceInitAllocated { device_init },
                    } && {
                        &&& r.requests[2] == Request::<A, U, C>::Device {
                            request: DeviceRequest::DeviceCreate { device_init },
                        }
                        &&& n == 2 ==> r.progress is Awaiting
                        &&& n >= 3 ==> (replies[2] matches Reply::Device {
                            reply: DeviceReply::DeviceCreated { ntstatus: created_status },
                        } && {
                            &&& r.requests[3] == (if spec_nt_success(created_status) {
                                Request::<A, U, C>::SetCreateProcessNotifyRoutine {
                                    call: spec_install_callbacks(registry),
                                }
                            } else {
                                Request::<A, U, C>::Device {
                                    request: DeviceRequest::DeviceInitFree { device_init },
                                }
                            })
                            &&& n == 3 ==> r.progress is Awaiting
                            &&& n == 4 ==> (if spec_nt_success(created_status) {
                                replies[3] matches Reply::NotifyRoutineSet { ntstatus: set_status }
                                    && r.progress == (Progress::Finished {
                                    ntstatus: if spec_nt_success(set_status) {
                                        STATUS_SUCCESS
                                    } else {
                                        set_status
                                    },
                                })
                            } else {
                                replies[3] == (Reply::Device { reply: DeviceReply::DeviceInitFreed })
                                    && r.progress == (Progress::Finished {
                                    ntstatus: created_status,
                                })
                            })
                        })
                    })
                },
            }))
        }),
    decreases replies.len(),
{
    if replies.len() > 0 {
        let prefix = replies.drop_last();
        lemma_run_shape::<A, U, C>(evt_driver_unload, registry, prefix);
        assert(forall|i: int| 0 <= i < prefix.len() ==> prefix[i] == replies[i]);
    }
}

/// Whether `request` frees a device-init descriptor.
pub open spec fn frees_descriptor<A, U, C>(request: Request<A, U, C>) -> bool {
    request matches Request::Device { request: DeviceRequest::DeviceInitFree { .. } }
}

/// Whether `request` belongs to control-device creation.
pub open spec fn creates_device<A, U, C>(request: Request<A, U, C>) -> bool {
    request is Device
}

/// Whether `request` registers or removes the process-notify routine.
pub open spec fn sets_notify_routine<A, U, C>(request: Request<A, U, C>) -> bool {
    request is SetCreateProcessNotifyRoutine
}

/// The request that frees `device_init`.
pub open spec fn free_request<A, U, C>(device_init: DeviceInitHandle) -> Request<A, U, C> {
    Request::Device { request: DeviceRequest::DeviceInitFree { device_init } }
}

/// The request that installs the routine of `registry`.
pub open spec fn install_request<A, U, C: Copy>(registry: CallbackRegistry<C>) -> Request<A, U, C> {
    Request::SetCreateProcessNotifyRoutine { call: spec_install_callbacks(registry) }
}

/// Whether `reply` says that the driver was created: success, and a handle.
pub open spec fn driver_was_created(reply: Reply) -> bool {
    reply matches Reply::DriverCreated { ntstatus, driver } && spec_nt_success(ntstatus)
        && !driver.spec_is_null()
}

/// Whether `reply` says that the device was created.
pub open spec fn device_was_created(reply: Reply) -> bool {
    reply matches Reply::Device { reply: DeviceReply::DeviceCreated { ntstatus } }
        && spec_nt_success(ntstatus)
}

/// Whether `reply` says that device creation failed with `failure`.
pub open spec fn device_creation_failed(reply: Reply, failure: NTSTATUS) -> bool {
    reply == (Reply::Device { reply: DeviceReply::DeviceCreated { ntstatus: failure } })
        && !spec_nt_success(failure)
}

/// Whether `reply` says that the allocation returned `device_init`.
pub open spec fn descriptor_was_allocated(reply: Reply, device_init: DeviceInitHandle) -> bool {
    reply == (Reply::Device { reply: DeviceReply::ControlDeviceInitAllocated { device_init } })
}

/// Whether `reply` says that the routine was registered.
pub open spec fn routine_was_set(reply: Reply) -> bool {
    reply matches Reply::NotifyRoutineSet { ntstatus } && spec_nt_success(ntstatus)
}

/// The calls that the run on `replies` has asked for; empty where there is
/// no such run.
pub open spec fn requests_of<A, U, C: Copy>(
    evt_driver_unload: Option<U>,
    registry: CallbackRegistry<C>,
    replies: Seq<Reply>,
) -> Seq<Request<A, U, C>> {
    match run::<A, U, C>(evt_driver_unload, registry, replies) {
        Some(r) => r.requests,
        None => Seq::empty(),
    }
}

/// The status that the run on `replies` has returned; `None` where there is
/// no such run or a reply is still awaited.
pub open spec fn returned<A, U, C: Copy>(
    evt_driver_unload: Option<U>,
    registry: CallbackRegistry<C>,
    replies: Seq<Reply>,
) -> Option<NTSTATUS> {
    match run::<A, U, C>(evt_driver_unload, registry, replies) {
        Some(Run { progress: Progress::Finished { ntstatus }, .. }) => Some(ntstatus),
        _ => None,
    }
}

/// Control-device creation is attempted only under a driver that was
/// created: a run asks for a call of it only after driver creation reported
/// success and left a handle.
pub proof fn lemma_device_only_under_created_driver<A, U, C: Copy>(
    evt_driver_unload: Option<U>,
    registry: CallbackRegistry<C>,
    replies: Seq<Reply>,
    k: int,
)
    requires
        0 <= k < requests_of::<A, U, C>(evt_driver_unload, registry, replies).len(),
        creates_device(requests_of::<A, U, C>(evt_driver_unload, registry, replies)[k]),
    ensures
        k >= 1,
        replies.len() >= 1,
        driver_was_created(replies[0]),
{
    lemma_run_shape::<A, U, C>(evt_driver_unload, registry, replies);
}

/// The process-notify routine is installed only over a control device that
/// was created: a run asks for the registration only as its fourth call,
/// after driver creation and device creation reported success. The call
/// names the registry's routine and does not remove it.
pub proof fn lemma_callbacks_only_over_created_device<A, U, C: Copy>(
    evt_driver_unload: Option<U>,
    registry: CallbackRegistry<C>,
    replies: Seq<Reply>,
    k: int,
)
    requires
        0 <= k < requests_of::<A, U, C>(evt_driver_unload, registry, replies).len(),
        sets_notify_routine(requests_of::<A, U, C>(evt_driver_unload, registry, replies)[k]),
    ensures
        k == 3,
        replies.len() >= 3,
        driver_was_created(replies[0]),
        device_was_created(replies[2]),
        requests_of::<A, U, C>(evt_driver_unload, registry, replies)[k] == install_request::<
            A,
            U,
            C,
        >(registry),
{
    lemma_run_shape::<A, U, C>(evt_driver_unload, registry, replies);
}

/// A device-init descriptor that no device was created from is freed
/// exactly once, before initialisation returns. In a run whose device
/// creation failed, the call that follows the failure frees the descriptor
/// that the allocation returned, no other call of the run frees anything,
/// and the run returns, once that call is answered, the status of the
/// failed creation.
pub proof fn lemma_failed_creation_frees_descriptor_once<A, U, C: Copy>(
    evt_driver_unload: Option<U>,
    registry: CallbackRegistry<C>,
    replies: Seq<Reply>,
    device_init: DeviceInitHandle,
    failure: NTSTATUS,
)
    requires
        run::<A, U, C>(evt_driver_unload, registry, replies) is Some,
        replies.len() >= 3,
        descriptor_was_allocated(replies[1], device_init),
        device_creation_failed(replies[2], failure),
    ensures
        requests_of::<A, U, C>(evt_driver_unload, registry, replies).len() == 4,
        requests_of::<A, U, C>(evt_driver_unload, registry, replies)[3] == free_request::<A, U, C>(
            device_init,
        ),
        forall|k: int|
            0 <= k < 4 ==> (frees_descriptor(
                #[trigger] requests_of::<A, U, C>(evt_driver_unload, registry, replies)[k],
            ) <==> k == 3),
        replies.len() == 3 ==> returned::<A, U, C>(evt_driver_unload, registry, replies) is None,
        replies.len() > 3 ==> returned::<A, U, C>(evt_driver_unload, registry, replies) == Some(
            failure,
        ),
{
    lemma_run_shape::<A, U, C>(evt_driver_unload, registry, replies);
}

/// A device-init descriptor that a device was created from is never freed
/// by the driver: a run whose device creation did not fail asks for no call
/// that frees a descriptor.
pub proof fn lemma_consumed_descriptor_is_not_freed<A, U, C: Copy>(
    evt_driver_unload: Option<U>,
    registry: CallbackRegistry<C>,
    replies: Seq<Reply>,
    k: int,
)
    requires
        0 <= k < requests_of::<A, U, C>(evt_driver_unload, registry, replies).len(),
        replies.len() >= 3 ==> device_was_created(replies[2]),
    ensures
        !frees_descriptor(requests_of::<A, U, C>(evt_driver_unload, registry, replies)[k]),
{
    lemma_run_shape::<A, U, C>(evt_driver_unload, registry, replies);
}

/// Initialisation succeeds only if every step did: a run that returns a
/// success status returns [`STATUS_SUCCESS`], after exactly four calls,
/// the last of which installs the routine, and after driver creation, device
/// creation and the registration have each reported success.
pub proof fn lemma_success_needs_every_step<A, U, C: Copy>(
    evt_driver_unload: Option<U>,
    registry: CallbackRegistry<C>,
    replies: Seq<Reply>,
    ntstatus: NTSTATUS,
)
    requires
        returned::<A, U, C>(evt_driver_unload, registry, replies) == Some(ntstatus),
        spec_nt_success(ntstatus),
    ensures
        ntstatus == STATUS_SUCCESS,
        replies.len() == 4,
        requests_of::<A, U, C>(evt_driver_unload, registry, replies).len() == 4,
        requests_of::<A, U, C>(evt_driver_unload, registry, replies)[3] == install_request::<
            A,
            U,
            C,
        >(registry),
        driver_was_created(replies[0]),
        device_was_created(replies[2]),
        routine_was_set(replies[3]),
{
    lemma_run_shape::<A, U, C>(evt_driver_unload, registry, replies);
}

/// The status that a failed initialisation owes, given its replies: that of
/// the first call that failed, where a driver creation that reported success
/// and left no handle fails with [`STATUS_INVALID_PARAMETER`].
pub open spec fn first_failure(replies: Seq<Reply>) -> NTSTATUS {
    match replies[0] {
        Reply::DriverCreated { ntstatus, driver } => {
            if !spec_nt_success(ntstatus) {
                ntstatus
            } else if driver.spec_is_null() {
                STATUS_INVALID_PARAMETER
            } else {
                match replies[2] {
                    Reply::Device { reply: DeviceReply::DeviceCreated { ntstatus } } => {
                        if !spec_nt_success(ntstatus) {
                            ntstatus
                        } else {
                            match replies[3] {
                                Reply::NotifyRoutineSet { ntstatus } => ntstatus,
                                _ => arbitrary(),
                            }
                        }
                    },
                    _ => arbitrary(),
                }
            }
        },
        _ => arbitrary(),
    }
}

/// Initialisation fails fast: a run that returns a failure returns the
/// status of the first call that failed, unchanged, and has asked for no
/// call of a later step: none at all after a failed driver creation, and no
/// registration after a failed device creation.
pub proof fn lemma_first_failure_is_returned<A, U, C: Copy>(
    evt_driver_unload: Option<U>,
    registry: CallbackRegistry<C>,
    replies: Seq<Reply>,
    ntstatus: NTSTATUS,
)
    requires
        returned::<A, U, C>(evt_driver_unload, registry, replies) == Some(ntstatus),
        !spec_nt_success(ntstatus),
    ensures
        ntstatus == first_failure(replies),
        !driver_was_created(replies[0]) ==> replies.len() == 1 && requests_of::<A, U, C>(
            evt_driver_unload,
            registry,
            replies,
        ).len() == 1,
        driver_was_created(replies[0]) ==> replies.len() == 4,
        forall|k: int|
            0 <= k < requests_of::<A, U, C>(evt_driver_unload, registry, replies).len()
                && sets_notify_routine(
                #[trigger] requests_of::<A, U, C>(evt_driver_unload, registry, replies)[k],
            ) ==> device_was_created(replies[2]),
{
    lemma_run_shape::<A, U, C>(evt_driver_unload, registry, replies);
}

} // verus!
