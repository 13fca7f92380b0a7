//! Native status codes and their conversion into `Result`.

use vstd::prelude::*;

verus! {

/// The operating system's signed result code.
#[allow(non_camel_case_types)]
pub type NTSTATUS = i32;

/// A fallible operation: success carries `T`, failure carries the native status.
pub type NtResult<T> = core::result::Result<T, NTSTATUS>;

/// The operation completed.
pub const STATUS_SUCCESS: NTSTATUS = 0;

/// An argument handed to a routine was not acceptable.
pub const STATUS_INVALID_PARAMETER: NTSTATUS = -1_073_741_811;

/// Success and informational codes are the non-negative ones; warnings and
/// errors have the top bit set and are negative.
pub open spec fn spec_nt_success(nt_status: NTSTATUS) -> bool {
    nt_status >= 0
}

/// Whether `nt_status` denotes success.
#[verifier::when_used_as_spec(spec_nt_success)]
pub fn nt_success(nt_status: NTSTATUS) -> (success: bool)
    ensures
        success == spec_nt_success(nt_status),
{
    nt_status >= 0
}

/// A native status code, wrapped so that it converts into a `Result`.
#[derive(Clone, Copy, Debug, PartialEq, Eq, Structural)]
pub struct NtStatus(NTSTATUS);

impl NtStatus {
    /// The wrapped code.
    pub closed spec fn code(self) -> NTSTATUS {
        self.0
    }

    /// Wraps `code`.
    pub fn new(code: NTSTATUS) -> (status: Self)
        ensures
            status.code() == code,
    {
        NtStatus(code)
    }

    /// What the status becomes as a `Result` that carries `value` on success.
    pub open spec fn spec_into_result<T>(self, value: T) -> NtResult<T> {
        if spec_nt_success(self.code()) {
            Ok(value)
        } else {
            Err(self.code())
        }
    }

    /// Whether the wrapped code denotes success.
    pub fn is_success(&self) -> (success: bool)
        ensures
            success == spec_nt_success(self.code()),
    {
        nt_success(self.0)
    }

    /// `Ok(value)` if the code denotes success, else `Err` of the code.
    pub fn into_result<T>(self, value: T) -> (result: NtResult<T>)
        ensures
            result == self.spec_into_result(value),
    {
        if nt_success(self.0) {
            Ok(value)
        } else {
            Err(self.0)
        }
    }
}

impl core::ops::Deref for NtStatus {
    type Target = NTSTATUS;

    fn deref(&self) -> (code: &NTSTATUS)
        ensures
            *code == self.code(),
    {
        &self.0
    }
}

impl From<NtStatus> for NTSTATUS {
    fn from(value: NtStatus) -> (code: NTSTATUS) {
        value.0
    }
}

impl vstd::std_specs::convert::FromSpecImpl<NtStatus> for NTSTATUS {
    open spec fn obeys_from_spec() -> bool {
        true
    }

    open spec fn from_spec(value: NtStatus) -> NTSTATUS {
        value.code()
    }
}

impl From<NtStatus> for NtResult<()> {
    fn from(value: NtStatus) -> (result: NtResult<()>) {
        if nt_success(value.0) {
            Ok(())
        } else {
            Err(value.0)
        }
    }
}

impl vstd::std_specs::convert::FromSpecImpl<NtStatus> for NtResult<()> {
    open spec fn obeys_from_spec() -> bool {
        true
    }

    open spec fn from_spec(value: NtStatus) -> NtResult<()> {
        value.spec_into_result(())
    }
}

} // verus!
