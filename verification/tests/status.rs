use hestia::status::{
    nt_success, NtResult, NtStatus, NTSTATUS, STATUS_INVALID_PARAMETER, STATUS_SUCCESS,
};

#[test]
fn success_is_the_non_negative_half() {
    assert!(nt_success(STATUS_SUCCESS));
    assert!(nt_success(1));
    assert!(nt_success(0x4000_0000));
    assert!(nt_success(i32::MAX));
    assert!(!nt_success(-1));
    assert!(!nt_success(STATUS_INVALID_PARAMETER));
    assert!(!nt_success(i32::MIN));
}

#[test]
fn status_constants_have_their_native_values() {
    assert_eq!(STATUS_SUCCESS, 0);
    assert_eq!(STATUS_INVALID_PARAMETER as u32, 0xC000_000D);
}

#[test]
fn status_converts_into_unit_result() {
    let ok: NtResult<()> = NtStatus::new(STATUS_SUCCESS).into();
    assert_eq!(ok, Ok(()));
    let informational: NtResult<()> = NtStatus::new(0x4000_0000).into();
    assert_eq!(informational, Ok(()));
    let failed: NtResult<()> = NtStatus::new(STATUS_INVALID_PARAMETER).into();
    assert_eq!(failed, Err(STATUS_INVALID_PARAMETER));
}

#[test]
fn status_converts_into_result_with_value() {
    assert_eq!(NtStatus::new(7).into_result("handle"), Ok("handle"));
    assert_eq!(NtStatus::new(-5).into_result("handle"), Err(-5));
}

#[test]
fn status_gives_its_code_back() {
    let status = NtStatus::new(-1_073_741_790);
    assert_eq!(*status, -1_073_741_790);
    let code: NTSTATUS = status.into();
    assert_eq!(code, -1_073_741_790);
    assert!(!status.is_success());
    assert!(NtStatus::new(0).is_success());
}
