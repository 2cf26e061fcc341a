//! Ownership of one created virtual adapter.
//!
//! The driver's create call answers with a raw handle; this module turns
//! that answer into an owning value or the exact error it calls for, and
//! shapes the release protocol: `delete` and `free` both consume the
//! handle, so each created adapter is released through exactly one of them
//! and can never be released twice.  The value is not copyable, only
//! movable; its identity may be read without ownership.

use crate::driver::DriverBinding;
use crate::status::OsError;
use vstd::prelude::*;

verus! {

/// What the driver reported back for one create-adapter call: the native
/// adapter handle (zero when creation failed), the driver's raw
/// reboot-required flag, and the OS error code current when it failed.
#[derive(Clone, Copy, Debug, PartialEq, Eq, Structural)]
pub struct CreateAdapterOutcome {
    pub handle: u64,
    pub reboot_required: i32,
    pub error_code: u32,
}

/// What the driver reported back for one delete-adapter call: the driver's
/// raw success flag, its reboot-required flag, and the OS error code
/// current when it failed.
#[derive(Clone, Copy, Debug, PartialEq, Eq, Structural)]
pub struct DeleteAdapterOutcome {
    pub succeeded: i32,
    pub reboot_required: i32,
    pub error_code: u32,
}

/// A globally unique identifier in the OS's four-field layout.
#[derive(Clone, Copy, Debug, PartialEq, Eq)]
pub struct Guid {
    pub data1: u32,
    pub data2: u16,
    pub data3: u16,
    pub data4: [u8; 8],
}

/// The fixed stable identifier the tunnel adapter is requested under, so
/// that the OS recognises the adapter as the same device across
/// recreations.  Together with the fixed pool and alias this pins every
/// parameter of the create call.
pub fn adapter_guid() -> (g: Guid)
    ensures
        g.data1 == 0xAFE43773u32,
        g.data2 == 0xE1F8u16,
        g.data3 == 0x4EBBu16,
        g.data4@ == seq![0x85u8, 0x36u8, 0x57u8, 0x6Au8, 0xB8u8, 0x6Au8, 0xFEu8, 0x9Au8],
{
    let g = Guid {
        data1: 0xAFE43773,
        data2: 0xE1F8,
        data3: 0x4EBB,
        data4: [0x85, 0x36, 0x57, 0x6A, 0xB8, 0x6A, 0xFE, 0x9A],
    };
    proof {
        assert(g.data4@ =~= seq![0x85u8, 0x36u8, 0x57u8, 0x6Au8, 0xB8u8, 0x6Au8, 0xFEu8, 0x9Au8]);
    }
    g
}

/// One created virtual adapter: the native handle and the binding that
/// created it, which the handle keeps resident for its lifetime.
pub struct AdapterHandle {
    binding: DriverBinding,
    handle: u64,
}

impl AdapterHandle {
    /// The binding the adapter was created through.
    pub closed spec fn spec_binding(self) -> DriverBinding {
        self.binding
    }

    /// The adapter's native handle value.
    pub closed spec fn raw(self) -> u64 {
        self.handle
    }

    /// An adapter only ever exists for a non-sentinel handle created by a
    /// fully resolved binding.
    pub open spec fn wf(self) -> bool {
        self.spec_binding().wf() && self.raw() != 0
    }

    /// The adapter's native identity, readable without taking ownership.
    pub fn raw_handle(&self) -> (h: u64)
        ensures
            h == self.raw(),
    {
        self.handle
    }

    /// Packages the driver's answer to a create call: a failed creation —
    /// signalled by the sentinel handle — surfaces the native error code
    /// verbatim; a successful one yields the owning handle and the
    /// reboot-required flag.
    pub fn create(binding: DriverBinding, outcome: CreateAdapterOutcome) -> (r: Result<
        (AdapterHandle, bool),
        OsError,
    >)
        requires
            binding.wf(),
        ensures
            outcome.handle == 0 ==> r == Err::<(AdapterHandle, bool), OsError>(
                OsError { code: outcome.error_code },
            ),
            outcome.handle != 0 ==> (r matches Ok((a, reboot)) && a.spec_binding() == binding
                && a.raw() == outcome.handle && a.wf() && reboot == (outcome.reboot_required
                != 0)),
    {
        if outcome.handle == 0 {
            Err(OsError { code: outcome.error_code })
        } else {
            Ok((AdapterHandle { binding, handle: outcome.handle }, outcome.reboot_required != 0))
        }
    }

    /// Explicit deletion.  Consumes the handle — only one owner can ever
    /// delete, and the handle cannot be used, deleted or freed afterwards;
    /// whatever the driver answered, no free is owed for it any more.  A
    /// failed call surfaces the native error code verbatim; a successful
    /// one reports whether a reboot is required.
    pub fn delete(self, outcome: DeleteAdapterOutcome) -> (r: Result<bool, OsError>)
        ensures
            outcome.succeeded == 0 ==> r == Err::<bool, OsError>(
                OsError { code: outcome.error_code },
            ),
            outcome.succeeded != 0 ==> r == Ok::<bool, OsError>(outcome.reboot_required != 0),
    {
        if outcome.succeeded == 0 {
            Err(OsError { code: outcome.error_code })
        } else {
            Ok(outcome.reboot_required != 0)
        }
    }

    /// The implicit release path for an adapter that is discarded without
    /// deletion: consumes the handle and surrenders the raw value for the
    /// driver's one infallible free call.
    pub fn free(self) -> (h: u64)
        ensures
            h == self.raw(),
    {
        self.handle
    }
}

/// The disposition of an adapter slot when its owner's scope ends: an
/// adapter still held is freed — its raw handle comes back for the one
/// free call — and a slot already emptied by an explicit delete owes
/// nothing.  Together with the consuming signatures above this is the
/// whole release protocol: exactly one release per created adapter,
/// whichever way the owning scope exits.
pub fn release_on_drop(slot: Option<AdapterHandle>) -> (r: Option<u64>)
    ensures
        match slot {
            Some(a) => r == Some(a.raw()),
            None => r is None,
        },
{
    match slot {
        Some(a) => Some(a.free()),
        None => None,
    }
}

} // verus!
