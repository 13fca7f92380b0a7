use hestia::wdf::driver::{
    compute_native_record_size, create_driver, DriverHandle, NativeDriverConfig, WDFDriverConfig,
};
use hestia::status::STATUS_INVALID_PARAMETER;

type Config = WDFDriverConfig<&'static str, &'static str>;

fn expected_size() -> u32 {
    if core::mem::size_of::<usize>() == 8 {
        32
    } else {
        20
    }
}

#[test]
fn new_configuration_is_zero_valued() {
    let config = Config::new();
    assert_eq!(config.evt_driver_device_add, None);
    assert_eq!(config.evt_driver_unload, None);
    assert_eq!(config.driver_init_flags, 0);
    assert_eq!(config.driver_pool_tag, 0);
    assert_eq!(config, Config::default());
}

#[test]
fn setters_change_one_field_each() {
    let config = Config::new()
        .driver_device_add(Some("add"))
        .driver_unload(Some("unload"))
        .int_flags(0x10)
        .pool_tags(0x4845_5354);
    assert_eq!(
        config,
        WDFDriverConfig {
            evt_driver_device_add: Some("add"),
            evt_driver_unload: Some("unload"),
            driver_init_flags: 0x10,
            driver_pool_tag: 0x4845_5354,
        }
    );
    let cleared = config.driver_unload(None);
    assert_eq!(cleared.evt_driver_unload, None);
    assert_eq!(cleared.evt_driver_device_add, Some("add"));
}

#[test]
fn native_record_carries_its_size_whatever_was_set() {
    assert_eq!(compute_native_record_size(), expected_size());
    assert_eq!(Config::new().into_native().size, expected_size());
    let one = Config::new().int_flags(3).driver_unload(Some("u")).pool_tags(9);
    let other = Config::new().pool_tags(9).int_flags(3).driver_unload(Some("u"));
    assert_eq!(one.into_native(), other.into_native());
    let record = Config::new().pool_tags(9).driver_device_add(Some("a")).into_native();
    assert_eq!(
        record,
        NativeDriverConfig {
            size: expected_size(),
            evt_driver_device_add: Some("a"),
            evt_driver_unload: None,
            driver_init_flags: 0,
            driver_pool_tag: 9,
        }
    );
}

#[test]
fn native_record_comes_from_the_configuration_by_from() {
    let record: NativeDriverConfig<&str, &str> = Config::new().int_flags(1).into();
    assert_eq!(record.size, expected_size());
    assert_eq!(record.driver_init_flags, 1);
}

#[test]
fn created_driver_is_handed_on() {
    let driver = DriverHandle { address: 0x1000 };
    assert_eq!(create_driver(0, driver), Ok(driver));
    assert_eq!(create_driver(0x4000_0001, driver), Ok(driver));
}

#[test]
fn failed_creation_keeps_the_frameworks_status() {
    let driver = DriverHandle { address: 0x1000 };
    assert_eq!(create_driver(-1_073_741_670, driver), Err(-1_073_741_670));
    assert_eq!(create_driver(-1, DriverHandle::null()), Err(-1));
}

#[test]
fn success_without_a_handle_is_an_invalid_parameter() {
    assert_eq!(create_driver(0, DriverHandle::null()), Err(STATUS_INVALID_PARAMETER));
    assert_eq!(create_driver(5, DriverHandle { address: 0 }), Err(STATUS_INVALID_PARAMETER));
    assert!(DriverHandle::null().is_null());
    assert!(!DriverHandle { address: 1 }.is_null());
}
