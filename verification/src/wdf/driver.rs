//! The driver configuration, its native record, and the check that follows
//! the framework's driver-creation call.

use crate::status::{nt_success, spec_nt_success, NtResult, NTSTATUS, STATUS_INVALID_PARAMETER};
use vstd::prelude::*;

verus! {

/// The framework's 32-bit unsigned integer.
#[allow(non_camel_case_types)]
pub type ULONG = u32;

/// What the framework is to call and how it is to initialise the driver
/// object. `A` and `U` are the types of the references to the device-add and
/// unload handlers; the library never calls through them.
#[derive(Debug, PartialEq, Eq)]
pub struct WDFDriverConfig<A, U> {
    pub evt_driver_device_add: Option<A>,
    pub evt_driver_unload: Option<U>,
    pub driver_init_flags: ULONG,
    pub driver_pool_tag: ULONG,
}

/// The record that the framework's driver-creation call reads. Its first
/// field declares the record's own size, by which the framework recognises
/// the layout it was compiled against.
#[derive(Debug, PartialEq, Eq)]
pub struct NativeDriverConfig<A, U> {
    pub size: ULONG,
    pub evt_driver_device_add: Option<A>,
    pub evt_driver_unload: Option<U>,
    pub driver_init_flags: ULONG,
    pub driver_pool_tag: ULONG,
}

/// `offset` rounded up to the next multiple of `align`.
pub open spec fn align_up(offset: nat, align: nat) -> nat
    recommends
        align > 0,
{
    if offset % align == 0 {
        offset
    } else {
        (offset + align - offset % align) as nat
    }
}

/// The size in bytes of the native record where a handler reference takes
/// `pointer_size` bytes and is aligned to as many: a `ULONG`, two handler
/// references and two more `ULONG`s, each at the next offset that its
/// alignment allows, the whole rounded up to the largest alignment.
pub open spec fn record_size(pointer_size: nat) -> nat {
    let handlers = align_up(4, pointer_size);
    let flags = handlers + 2 * pointer_size;
    let end = flags + 4 + 4;
    align_up(end, if pointer_size > 4 { pointer_size } else { 4 })
}

/// The size in bytes of the native record on the machine the code runs on.
pub open spec fn native_record_size() -> nat {
    record_size(vstd::layout::size_of::<usize>())
}

/// The native record's size is 20 bytes with 32-bit handler references and 32
/// bytes with 64-bit ones; there is no other width.
pub proof fn lemma_native_record_size()
    ensures
        record_size(4) == 20,
        record_size(8) == 32,
        native_record_size() == 20 || native_record_size() == 32,
        native_record_size() == 20 <==> usize::BITS == 32,
{
    broadcast use vstd::layout::layout_of_primitives;

}

/// Computes [`native_record_size`].
pub fn compute_native_record_size() -> (size: ULONG)
    ensures
        size == native_record_size(),
{
    proof {
        lemma_native_record_size();
    }
    let pointer_size = core::mem::size_of::<usize>();
    assert(pointer_size == 4 || pointer_size == 8) by {
        broadcast use vstd::layout::layout_of_primitives;

    }
    if pointer_size == 8 {
        32
    } else {
        20
    }
}

impl<A, U> WDFDriverConfig<A, U> {
    /// The configuration with no handler, no flag and a zero pool tag.
    pub open spec fn spec_new() -> Self {
        WDFDriverConfig {
            evt_driver_device_add: None,
            evt_driver_unload: None,
            driver_init_flags: 0,
            driver_pool_tag: 0,
        }
    }

    /// The native record of this configuration: the same four values under
    /// the record's size.
    pub open spec fn native(self) -> NativeDriverConfig<A, U> {
        NativeDriverConfig {
            size: native_record_size() as ULONG,
            evt_driver_device_add: self.evt_driver_device_add,
            evt_driver_unload: self.evt_driver_unload,
            driver_init_flags: self.driver_init_flags,
            driver_pool_tag: self.driver_pool_tag,
        }
    }

    /// A configuration with every handler absent and every number zero.
    pub fn new() -> (config: Self)
        ensures
            config == Self::spec_new(),
    {
        WDFDriverConfig {
            evt_driver_device_add: None,
            evt_driver_unload: None,
            driver_init_flags: 0,
            driver_pool_tag: 0,
        }
    }

    /// Sets the device-add handler and leaves the rest as it is.
    pub fn driver_device_add(self, evt_driver_device_add: Option<A>) -> (config: Self)
        ensures
            config == (WDFDriverConfig { evt_driver_device_add, ..self }),
    {
        let mut config = self;
        config.evt_driver_device_add = evt_driver_device_add;
        config
    }

    /// Sets the unload handler and leaves the rest as it is.
    pub fn driver_unload(self, evt_driver_unload: Option<U>) -> (config: Self)
        ensures
            config == (WDFDriverConfig { evt_driver_unload, ..self }),
    {
        let mut config = self;
        config.evt_driver_unload = evt_driver_unload;
        config
    }

    /// Sets the initialisation flags and leaves the rest as it is.
    pub fn int_flags(self, driver_init_flags: ULONG) -> (config: Self)
        ensures
            config == (WDFDriverConfig { driver_init_flags, ..self }),
    {
        let mut config = self;
        config.driver_init_flags = driver_init_flags;
        config
    }

    /// Sets the pool tag and leaves the rest as it is.
    pub fn pool_tags(self, driver_pool_tag: ULONG) -> (config: Self)
        ensures
            config == (WDFDriverConfig { driver_pool_tag, ..self }),
    {
        let mut config = self;
        config.driver_pool_tag = driver_pool_tag;
        config
    }

    /// Turns the configuration into the record that the framework reads,
    /// with the record's size in its first field.
    pub fn into_native(self) -> (record: NativeDriverConfig<A, U>)
        ensures
            record == self.native(),
            record.size == native_record_size(),
    {
        proof {
            lemma_native_record_size();
        }
        NativeDriverConfig {
            size: compute_native_record_size(),
            evt_driver_device_add: self.evt_driver_device_add,
            evt_driver_unload: self.evt_driver_unload,
            driver_init_flags: self.driver_init_flags,
            driver_pool_tag: self.driver_pool_tag,
        }
    }
}

/// Whatever a configuration holds, its native record declares the record's
/// size and nothing else there: no setter reaches the size field, in any
/// order or number of calls.
pub proof fn lemma_size_ignores_settings<A, U>(one: WDFDriverConfig<A, U>, other: WDFDriverConfig<A, U>)
    ensures
        one.native().size == native_record_size(),
        one.native().size == other.native().size,
{
    lemma_native_record_size();
}

impl<A, U> Default for WDFDriverConfig<A, U> {
    fn default() -> (config: Self)
        ensures
            config == Self::spec_new(),
    {
        Self::new()
    }
}

impl<A, U> From<WDFDriverConfig<A, U>> for NativeDriverConfig<A, U> {
    fn from(val: WDFDriverConfig<A, U>) -> (record: Self) {
        val.into_native()
    }
}

impl<A, U> vstd::std_specs::convert::FromSpecImpl<WDFDriverConfig<A, U>> for NativeDriverConfig<A, U> {
    open spec fn obeys_from_spec() -> bool {
        true
    }

    open spec fn from_spec(val: WDFDriverConfig<A, U>) -> Self {
        val.native()
    }
}

/// The framework's handle of a driver object. The framework owns the object;
/// the handle only names it. The null handle names none.
#[derive(Clone, Copy, Debug, PartialEq, Eq, Structural)]
pub struct DriverHandle {
    pub address: usize,
}

impl DriverHandle {
    /// Whether this is the null handle.
    pub open spec fn spec_is_null(&self) -> bool {
        self.address == 0
    }

    /// The null handle.
    pub fn null() -> (handle: Self)
        ensures
            handle.address == 0,
    {
        DriverHandle { address: 0 }
    }

    /// Whether this is the null handle.
    #[verifier::when_used_as_spec(spec_is_null)]
    pub fn is_null(&self) -> (null: bool)
        ensures
            null == self.spec_is_null(),
    {
        self.address == 0
    }
}

/// What driver creation amounts to once the framework's call has returned
/// `ntstatus` and left `driver` in the handle it was given: the framework's
/// failure if it reported one, an invalid-parameter failure if it reported
/// success and left no handle, the handle otherwise.
pub open spec fn driver_creation_result(ntstatus: NTSTATUS, driver: DriverHandle) -> NtResult<
    DriverHandle,
> {
    if !spec_nt_success(ntstatus) {
        Err(ntstatus)
    } else if driver.spec_is_null() {
        Err(STATUS_INVALID_PARAMETER)
    } else {
        Ok(driver)
    }
}

/// Judges the outcome of the framework's driver-creation call, which
/// returned `ntstatus` and left `driver` in the handle it was given. The
/// framework does not promise a handle whenever it reports success, so a
/// null handle is a failure of its own.
pub fn create_driver(ntstatus: NTSTATUS, driver: DriverHandle) -> (result: NtResult<DriverHandle>)
    ensures
        result == driver_creation_result(ntstatus, driver),
        result is Ok <==> spec_nt_success(ntstatus) && !driver.spec_is_null(),
        spec_nt_success(ntstatus) && driver.spec_is_null() ==> result == Err::<
            DriverHandle,
            NTSTATUS,
        >(STATUS_INVALID_PARAMETER),
{
    if !nt_success(ntstatus) {
        return Err(ntstatus);
    } else if driver.is_null() {
        return Err(STATUS_INVALID_PARAMETER);
    }
    Ok(driver)
}

} // verus!
