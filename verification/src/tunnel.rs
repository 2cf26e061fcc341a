//! Bring-up of the tunnel: load the driver, create the adapter, and hand
//! back a tunnel value that owns it.
//!
//! The load and create phases are fatal when they fail; a reboot-required
//! report from the driver is an advisory recorded alongside success, never
//! an error.  The tunnel value owns the adapter, so tearing the tunnel
//! down releases the adapter through its one-shot release protocol.

use crate::adapter::AdapterHandle;
use crate::adapter::CreateAdapterOutcome;
use crate::driver::resolve_image_model;
use crate::driver::DllError;
use crate::driver::DriverBinding;
use crate::driver::DriverCache;
use crate::driver::RawDriverImage;
use crate::status::OsError;
use vstd::prelude::*;

verus! {

/// Why bring-up failed, tagged with the phase that failed.
#[derive(Clone, Copy, Debug, PartialEq, Eq, Structural)]
pub enum Error {
    /// The driver library could not be loaded or is missing an export.
    DllError(DllError),
    /// The driver refused to create the virtual adapter.
    CreateTunnelDeviceError(OsError),
}

/// A live tunnel, owning the adapter it was brought up on.
pub struct WgNtTunnel {
    adapter: AdapterHandle,
}

impl WgNtTunnel {
    /// The adapter the tunnel owns.
    pub closed spec fn spec_adapter(self) -> AdapterHandle {
        self.adapter
    }

    pub open spec fn wf(self) -> bool {
        self.spec_adapter().wf()
    }

    /// Driver phase of bring-up: commits the raw load outcome to the
    /// process-wide cache and tags a failure with the load phase.  Only a
    /// caller whose `begin_load` answered `LoadFromDisk` arrives here; on
    /// failure no adapter is created and the cache stays empty.
    pub fn load_driver(cache: &mut DriverCache, image: RawDriverImage) -> (r: Result<
        DriverBinding,
        Error,
    >)
        requires
            old(cache).cached() is None,
        ensures
            match resolve_image_model(image) {
                Ok(b) => r == Ok::<DriverBinding, Error>(b) && final(cache).cached() == Some(b)
                    && b.wf(),
                Err(e) => r == Err::<DriverBinding, Error>(Error::DllError(e))
                    && final(cache).cached() is None,
            },
    {
        match cache.finish_load(image) {
            Ok(b) => Ok(b),
            Err(e) => Err(Error::DllError(e)),
        }
    }

    /// Adapter phase of bring-up: packages the driver's answer to the
    /// create call.  A failed creation is fatal and carries the native
    /// code; a successful one yields the tunnel that owns the adapter,
    /// together with the reboot-required advisory — the advisory is
    /// reported for the caller to record, and never turns success into an
    /// error.
    pub fn start_tunnel(binding: DriverBinding, outcome: CreateAdapterOutcome) -> (r: Result<
        (WgNtTunnel, bool),
        Error,
    >)
        requires
            binding.wf(),
        ensures
            outcome.handle == 0 ==> r == Err::<(WgNtTunnel, bool), Error>(
                Error::CreateTunnelDeviceError(OsError { code: outcome.error_code }),
            ),
            outcome.handle != 0 ==> (r matches Ok((t, reboot)) && t.wf()
                && t.spec_adapter().spec_binding() == binding && t.spec_adapter().raw()
                == outcome.handle && reboot == (outcome.reboot_required != 0)),
    {
        match AdapterHandle::create(binding, outcome) {
            Ok((adapter, reboot_required)) => Ok((WgNtTunnel { adapter }, reboot_required)),
            Err(e) => Err(Error::CreateTunnelDeviceError(e)),
        }
    }

    /// Tear-down: surrenders the owned adapter so that it can be released
    /// — exactly once — through its consuming release protocol.
    pub fn stop(self) -> (a: AdapterHandle)
        ensures
            a == self.spec_adapter(),
    {
        self.adapter
    }
}

/// A driver library that cannot be mapped — for instance because the file
/// is absent from the resource directory — fails bring-up in the load
/// phase with `DllError::LoadFailed`, and the adapter-creation phase is
/// never reached.
pub proof fn lemma_missing_driver_fails_load(image: RawDriverImage)
    requires
        image.module == 0,
    ensures
        resolve_image_model(image) == Err::<DriverBinding, DllError>(DllError::LoadFailed),
{
}

} // verus!
