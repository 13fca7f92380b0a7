use hestia::callbacks::process::NotifyRoutineRegistration;
use hestia::callbacks::{uninstall_callbacks, CallbackRegistry};
use hestia::driver::{
    create_device, initialize_driver, DeviceCreation, DeviceInitHandle, DeviceReply,
    DeviceRequest, DriverInit, Reply, Request, Step, CONTROL_DEVICE_SDDL,
};
use hestia::status::{NTSTATUS, STATUS_INVALID_PARAMETER, STATUS_SUCCESS};
use hestia::wdf::driver::DriverHandle;

const STATUS_INSUFFICIENT_RESOURCES: NTSTATUS = -1_073_741_670;
const STATUS_ACCESS_DENIED: NTSTATUS = -1_073_741_790;
const STATUS_OBJECT_NAME_COLLISION: NTSTATUS = -1_073_741_771;

type Req = Request<&'static str, &'static str, &'static str>;

/// A framework that answers as it is told to and writes down what it was
/// asked for.
struct FakeFramework {
    driver_status: NTSTATUS,
    driver: usize,
    device_init: usize,
    device_status: NTSTATUS,
    notify_status: NTSTATUS,
    calls: Vec<&'static str>,
    allocated: Vec<usize>,
    freed: Vec<usize>,
    routines: Vec<(&'static str, bool)>,
    unload_handlers: Vec<Option<&'static str>>,
    sddls: Vec<&'static str>,
}

impl FakeFramework {
    fn succeeding() -> Self {
        FakeFramework {
            driver_status: STATUS_SUCCESS,
            driver: 0xd000,
            device_init: 0x1100,
            device_status: STATUS_SUCCESS,
            notify_status: STATUS_SUCCESS,
            calls: vec!["configure"],
            allocated: Vec::new(),
            freed: Vec::new(),
            routines: Vec::new(),
            unload_handlers: Vec::new(),
            sddls: Vec::new(),
        }
    }

    fn perform(&mut self, request: Req) -> Reply {
        match request {
            Request::DriverCreate { config } => {
                self.calls.push("create-driver");
                self.unload_handlers.push(config.evt_driver_unload);
                assert_eq!(config.evt_driver_device_add, None);
                assert_eq!(config.size as usize, 8 + 3 * core::mem::size_of::<usize>());
                Reply::DriverCreated {
                    ntstatus: self.driver_status,
                    driver: DriverHandle { address: self.driver },
                }
            }
            Request::Device { request } => Reply::Device { reply: self.perform_device(request) },
            Request::SetCreateProcessNotifyRoutine { call } => {
                self.calls.push(if call.remove { "uninstall-callback" } else { "install-callback" });
                self.routines.push((call.routine, call.remove));
                Reply::NotifyRoutineSet { ntstatus: self.notify_status }
            }
        }
    }

    fn perform_device(&mut self, request: DeviceRequest) -> DeviceReply {
        match request {
            DeviceRequest::ControlDeviceInitAllocate { driver, sddl } => {
                self.calls.push("allocate-init");
                assert_eq!(driver.address, self.driver);
                self.sddls.push(sddl);
                self.allocated.push(self.device_init);
                DeviceReply::ControlDeviceInitAllocated {
                    device_init: DeviceInitHandle { address: self.device_init },
                }
            }
            DeviceRequest::DeviceCreate { device_init } => {
                self.calls.push("create-device");
                assert_eq!(device_init.address, self.device_init);
                DeviceReply::DeviceCreated { ntstatus: self.device_status }
            }
            DeviceRequest::DeviceInitFree { device_init } => {
                self.calls.push("free-init");
                self.freed.push(device_init.address);
                DeviceReply::DeviceInitFreed
            }
        }
    }

    /// Runs driver initialisation against this framework to its end.
    fn initialize(&mut self, registry: &CallbackRegistry<&'static str>) -> NTSTATUS {
        let (mut state, mut request): (DriverInit, Req) = DriverInit::begin(Some("unload"));
        loop {
            let reply = self.perform(request);
            match initialize_driver(state, reply, registry) {
                Some(Step::Call { state: next, request: due }) => {
                    state = next;
                    request = due;
                }
                Some(Step::Return { ntstatus }) => return ntstatus,
                None => panic!("the reply did not answer the request"),
            }
        }
    }
}

#[test]
fn all_primitives_succeed() {
    let registry = CallbackRegistry::new("notify");
    let mut framework = FakeFramework::succeeding();
    assert_eq!(framework.initialize(&registry), STATUS_SUCCESS);
    assert_eq!(
        framework.calls,
        vec!["configure", "create-driver", "allocate-init", "create-device", "install-callback"]
    );
    assert_eq!(framework.unload_handlers, vec![Some("unload")]);
    assert_eq!(framework.sddls, vec!["D:P(A;;GA;;;SY)(A;;GA;;;BA)(A;;GA;;;WD)"]);
    assert_eq!(framework.routines, vec![("notify", false)]);
    assert!(framework.freed.is_empty());
}

#[test]
fn success_is_plain_success_whatever_success_codes_came() {
    let registry = CallbackRegistry::new("notify");
    let mut framework = FakeFramework::succeeding();
    framework.driver_status = 1;
    framework.device_status = 0x4000_0000;
    framework.notify_status = 0x103;
    assert_eq!(framework.initialize(&registry), STATUS_SUCCESS);
    assert_eq!(framework.calls.len(), 5);
}

#[test]
fn driver_creation_fails_with_invalid_parameter() {
    let registry = CallbackRegistry::new("notify");
    let mut framework = FakeFramework::succeeding();
    framework.driver_status = STATUS_INVALID_PARAMETER;
    assert_eq!(framework.initialize(&registry), STATUS_INVALID_PARAMETER);
    assert_eq!(framework.calls, vec!["configure", "create-driver"]);
    assert!(framework.allocated.is_empty());
    assert!(framework.routines.is_empty());
}

#[test]
fn driver_creation_without_a_handle_fails() {
    let registry = CallbackRegistry::new("notify");
    let mut framework = FakeFramework::succeeding();
    framework.driver = 0;
    assert_eq!(framework.initialize(&registry), STATUS_INVALID_PARAMETER);
    assert_eq!(framework.calls, vec!["configure", "create-driver"]);
}

#[test]
fn device_creation_fails_after_allocation() {
    let registry = CallbackRegistry::new("notify");
    let mut framework = FakeFramework::succeeding();
    framework.device_status = STATUS_ACCESS_DENIED;
    assert_eq!(framework.initialize(&registry), STATUS_ACCESS_DENIED);
    assert_eq!(
        framework.calls,
        vec!["configure", "create-driver", "allocate-init", "create-device", "free-init"]
    );
    assert_eq!(framework.allocated, vec![0x1100]);
    assert_eq!(framework.freed, vec![0x1100]);
    assert!(framework.routines.is_empty());
}

#[test]
fn callback_installation_fails() {
    let registry = CallbackRegistry::new("notify");
    let mut framework = FakeFramework::succeeding();
    framework.notify_status = STATUS_OBJECT_NAME_COLLISION;
    assert_eq!(framework.initialize(&registry), STATUS_OBJECT_NAME_COLLISION);
    assert_eq!(
        framework.calls,
        vec!["configure", "create-driver", "allocate-init", "create-device", "install-callback"]
    );
    assert!(framework.freed.is_empty());
}

#[test]
fn each_stage_in_turn_ends_the_sequence() {
    let registry = CallbackRegistry::new("notify");
    let stages = ["create-driver", "create-device", "install-callback"];
    for (failing, stage) in stages.iter().enumerate() {
        let mut framework = FakeFramework::succeeding();
        match failing {
            0 => framework.driver_status = STATUS_INSUFFICIENT_RESOURCES,
            1 => framework.device_status = STATUS_INSUFFICIENT_RESOURCES,
            _ => framework.notify_status = STATUS_INSUFFICIENT_RESOURCES,
        }
        assert_eq!(framework.initialize(&registry), STATUS_INSUFFICIENT_RESOURCES);
        for later in &stages[failing + 1..] {
            assert!(!framework.calls.contains(later), "{} ran after {} failed", later, stage);
        }
        assert!(framework.calls.contains(stage));
        assert_eq!(framework.freed.len(), if failing == 1 { 1 } else { 0 });
    }
}

#[test]
fn install_then_uninstall_pass_one_identity() {
    let registry = CallbackRegistry::new("notify");
    let mut framework = FakeFramework::succeeding();
    assert_eq!(framework.initialize(&registry), STATUS_SUCCESS);
    let removal = uninstall_callbacks(&registry);
    let reply = framework.perform(Request::SetCreateProcessNotifyRoutine { call: removal });
    assert_eq!(reply, Reply::NotifyRoutineSet { ntstatus: STATUS_SUCCESS });
    assert_eq!(framework.routines, vec![("notify", false), ("notify", true)]);
    assert_eq!(framework.routines[0].0, framework.routines[1].0);
}

#[test]
fn initialisation_begins_with_driver_creation() {
    let (state, request): (DriverInit, Req) = DriverInit::begin(Some("unload"));
    assert_eq!(state, DriverInit::CreatingDriver);
    match request {
        Request::DriverCreate { config } => {
            assert_eq!(config.evt_driver_unload, Some("unload"));
            assert_eq!(config.evt_driver_device_add, None);
            assert_eq!(config.driver_init_flags, 0);
            assert_eq!(config.driver_pool_tag, 0);
        }
        other => panic!("unexpected request {:?}", other),
    }
}

#[test]
fn device_creation_steps() {
    let driver = DriverHandle { address: 0xd000 };
    let init = DeviceInitHandle { address: 0x1100 };
    let (state, request) = DeviceCreation::begin(driver);
    assert_eq!(state, DeviceCreation::AllocatingInit);
    assert_eq!(
        request,
        DeviceRequest::ControlDeviceInitAllocate { driver, sddl: CONTROL_DEVICE_SDDL }
    );
    let step = create_device(state, DeviceReply::ControlDeviceInitAllocated { device_init: init });
    assert_eq!(
        step,
        Some(Step::Call {
            state: DeviceCreation::CreatingDevice { device_init: init },
            request: DeviceRequest::DeviceCreate { device_init: init },
        })
    );
    let creating = DeviceCreation::CreatingDevice { device_init: init };
    assert_eq!(
        create_device(creating, DeviceReply::DeviceCreated { ntstatus: 0 }),
        Some(Step::Return { ntstatus: 0 })
    );
    assert_eq!(
        create_device(creating, DeviceReply::DeviceCreated { ntstatus: 0x4000_0000 }),
        Some(Step::Return { ntstatus: 0x4000_0000 })
    );
    assert_eq!(
        create_device(creating, DeviceReply::DeviceCreated { ntstatus: STATUS_ACCESS_DENIED }),
        Some(Step::Call {
            state: DeviceCreation::FreeingInit { ntstatus: STATUS_ACCESS_DENIED },
            request: DeviceRequest::DeviceInitFree { device_init: init },
        })
    );
    assert_eq!(
        create_device(
            DeviceCreation::FreeingInit { ntstatus: STATUS_ACCESS_DENIED },
            DeviceReply::DeviceInitFreed
        ),
        Some(Step::Return { ntstatus: STATUS_ACCESS_DENIED })
    );
}

#[test]
fn a_null_descriptor_is_passed_on_unexamined() {
    let null = DeviceInitHandle { address: 0 };
    assert_eq!(
        create_device(
            DeviceCreation::AllocatingInit,
            DeviceReply::ControlDeviceInitAllocated { device_init: null }
        ),
        Some(Step::Call {
            state: DeviceCreation::CreatingDevice { device_init: null },
            request: DeviceRequest::DeviceCreate { device_init: null },
        })
    );
}

#[test]
fn replies_out_of_turn_are_not_taken() {
    let init = DeviceInitHandle { address: 0x1100 };
    assert_eq!(create_device(DeviceCreation::AllocatingInit, DeviceReply::DeviceInitFreed), None);
    assert_eq!(
        create_device(
            DeviceCreation::CreatingDevice { device_init: init },
            DeviceReply::ControlDeviceInitAllocated { device_init: init }
        ),
        None
    );
    assert_eq!(
        create_device(
            DeviceCreation::FreeingInit { ntstatus: -1 },
            DeviceReply::DeviceCreated { ntstatus: 0 }
        ),
        None
    );
    let registry = CallbackRegistry::new("notify");
    let step: Option<Step<DriverInit, Req>> = initialize_driver(
        DriverInit::CreatingDriver,
        Reply::NotifyRoutineSet { ntstatus: 0 },
        &registry,
    );
    assert_eq!(step, None);
    let step: Option<Step<DriverInit, Req>> = initialize_driver(
        DriverInit::InstallingCallbacks,
        Reply::DriverCreated { ntstatus: 0, driver: DriverHandle { address: 1 } },
        &registry,
    );
    assert_eq!(step, None);
    let step: Option<Step<DriverInit, Req>> = initialize_driver(
        DriverInit::CreatingDevice { creation: DeviceCreation::AllocatingInit },
        Reply::Device { reply: DeviceReply::DeviceInitFreed },
        &registry,
    );
    assert_eq!(step, None);
}

#[test]
fn installation_request_names_the_registrys_routine() {
    let registry = CallbackRegistry::new("notify");
    let step: Option<Step<DriverInit, Req>> = initialize_driver(
        DriverInit::CreatingDevice {
            creation: DeviceCreation::CreatingDevice {
                device_init: DeviceInitHandle { address: 0x1100 },
            },
        },
        Reply::Device { reply: DeviceReply::DeviceCreated { ntstatus: 0 } },
        &registry,
    );
    assert_eq!(
        step,
        Some(Step::Call {
            state: DriverInit::InstallingCallbacks,
            request: Request::SetCreateProcessNotifyRoutine {
                call: NotifyRoutineRegistration { routine: "notify", remove: false },
            },
        })
    );
}
