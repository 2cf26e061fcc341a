//! Loading the vendor driver library and resolving its entry points.
//!
//! The OS maps the library image and looks exports up by name; what it
//! found is handed back here as plain address values.  This module decides
//! when a load is needed at all (the process-wide cache is single-flight:
//! the library is loaded at most once and shared thereafter), turns the raw
//! outcome into a binding or the exact error the outcome calls for, and
//! prepares the wide strings the loader and the driver take.

use vstd::prelude::*;

verus! {

/// The three entry points the driver library must export.
#[derive(Clone, Copy, Debug, PartialEq, Eq, Structural)]
pub enum DriverExport {
    CreateAdapter,
    DeleteAdapter,
    FreeAdapter,
}

impl DriverExport {
    /// The symbol name under which the export is resolved.
    pub open spec fn symbol_model(self) -> Seq<char> {
        match self {
            DriverExport::CreateAdapter => "WireGuardCreateAdapter"@,
            DriverExport::DeleteAdapter => "WireGuardDeleteAdapter"@,
            DriverExport::FreeAdapter => "WireGuardFreeAdapter"@,
        }
    }

    /// The symbol name under which the export is resolved.
    pub fn symbol_name(self) -> (r: &'static str)
        ensures
            r@ == self.symbol_model(),
    {
        match self {
            DriverExport::CreateAdapter => "WireGuardCreateAdapter",
            DriverExport::DeleteAdapter => "WireGuardDeleteAdapter",
            DriverExport::FreeAdapter => "WireGuardFreeAdapter",
        }
    }
}

/// Why the driver library could not be taken into use.
#[derive(Clone, Copy, Debug, PartialEq, Eq, Structural)]
pub enum DllError {
    /// The library image could not be mapped into the process.
    LoadFailed,
    /// The image was mapped, but a required export is absent.
    SymbolMissing(DriverExport),
}

/// What the OS reported back for one attempt to load the driver library:
/// the module handle (zero when the image could not be mapped) and the
/// address of each required export (zero when the export is absent).
#[derive(Clone, Copy, Debug, PartialEq, Eq, Structural)]
pub struct RawDriverImage {
    pub module: u64,
    pub create_addr: u64,
    pub delete_addr: u64,
    pub free_addr: u64,
}

/// A loaded driver library with its three entry points resolved.  Shared,
/// read-only after construction; the process-wide cache keeps a permanent
/// reference, so the library is never unloaded once loaded.
#[derive(Clone, Copy, Debug, PartialEq, Eq, Structural)]
pub struct DriverBinding {
    pub module: u64,
    pub create_addr: u64,
    pub delete_addr: u64,
    pub free_addr: u64,
}

impl DriverBinding {
    /// A binding only ever exists for a mapped image with every export
    /// resolved.
    pub open spec fn wf(self) -> bool {
        self.module != 0 && self.create_addr != 0 && self.delete_addr != 0 && self.free_addr != 0
    }
}

/// The binding a raw load outcome resolves to, or the error it calls for:
/// a library that could not be mapped fails the load, and the first absent
/// export — in the order create, delete, free — names the missing symbol.
pub open spec fn resolve_image_model(image: RawDriverImage) -> Result<DriverBinding, DllError> {
    if image.module == 0 {
        Err(DllError::LoadFailed)
    } else if image.create_addr == 0 {
        Err(DllError::SymbolMissing(DriverExport::CreateAdapter))
    } else if image.delete_addr == 0 {
        Err(DllError::SymbolMissing(DriverExport::DeleteAdapter))
    } else if image.free_addr == 0 {
        Err(DllError::SymbolMissing(DriverExport::FreeAdapter))
    } else {
        Ok(
            DriverBinding {
                module: image.module,
                create_addr: image.create_addr,
                delete_addr: image.delete_addr,
                free_addr: image.free_addr,
            },
        )
    }
}

/// Turns a raw load outcome into a binding, or into the exact error the
/// outcome calls for.
pub fn resolve_driver_image(image: RawDriverImage) -> (r: Result<DriverBinding, DllError>)
    ensures
        r == resolve_image_model(image),
        r matches Ok(b) ==> b.wf(),
{
    if image.module == 0 {
        Err(DllError::LoadFailed)
    } else if image.create_addr == 0 {
        Err(DllError::SymbolMissing(DriverExport::CreateAdapter))
    } else if image.delete_addr == 0 {
        Err(DllError::SymbolMissing(DriverExport::DeleteAdapter))
    } else if image.free_addr == 0 {
        Err(DllError::SymbolMissing(DriverExport::FreeAdapter))
    } else {
        Ok(
            DriverBinding {
                module: image.module,
                create_addr: image.create_addr,
                delete_addr: image.delete_addr,
                free_addr: image.free_addr,
            },
        )
    }
}

/// What a load request should do next: reuse the binding the cache already
/// holds, or perform the one load of the library.
#[derive(Clone, Copy, Debug, PartialEq, Eq, Structural)]
pub enum LoadPlan {
    UseCached(DriverBinding),
    LoadFromDisk,
}

/// The process-wide cache of the loaded driver library.  Loading is
/// single-flight: the caller that finds the cache empty performs the load
/// under the cache's lock and commits the binding; everyone else is handed
/// the committed binding and loads nothing.
pub struct DriverCache {
    slot: Option<DriverBinding>,
}

impl DriverCache {
    /// The binding the cache holds, if a load has been committed.
    pub closed spec fn cached(self) -> Option<DriverBinding> {
        self.slot
    }

    /// Every binding the cache ever holds has all exports resolved.
    pub open spec fn wf(self) -> bool {
        self.cached() matches Some(b) ==> b.wf()
    }

    /// What a load request against this cache does next.
    pub open spec fn load_plan(self) -> LoadPlan {
        match self.cached() {
            Some(b) => LoadPlan::UseCached(b),
            None => LoadPlan::LoadFromDisk,
        }
    }

    /// An empty cache: no load has happened yet.
    pub fn new() -> (c: DriverCache)
        ensures
            c.cached() is None,
            c.wf(),
    {
        DriverCache { slot: None }
    }

    /// First half of a load request: consult the cache.  Only a
    /// `LoadFromDisk` answer licenses a load of the library.
    pub fn begin_load(&self) -> (p: LoadPlan)
        ensures
            p == self.load_plan(),
    {
        match &self.slot {
            Some(b) => LoadPlan::UseCached(*b),
            None => LoadPlan::LoadFromDisk,
        }
    }

    /// Second half of a load request that went to disk: resolve the raw
    /// outcome and commit the binding so that every later request shares
    /// it.  A failed load leaves the cache empty, so the load may be
    /// retried.
    pub fn finish_load(&mut self, image: RawDriverImage) -> (r: Result<DriverBinding, DllError>)
        requires
            old(self).cached() is None,
        ensures
            r == resolve_image_model(image),
            r matches Ok(b) ==> final(self).cached() == Some(b) && b.wf(),
            r is Err ==> final(self).cached() is None,
            final(self).wf(),
    {
        let r = resolve_driver_image(image);
        match &r {
            Ok(b) => {
                self.slot = Some(*b);
            },
            Err(_) => {},
        }
        r
    }
}

/// Single-flight loading: once a binding has been committed, every load
/// request — in particular each of two requests racing for the same library
/// — plans to reuse that one binding.  No second load of the library is
/// ever licensed, and every caller observes the same binding.
pub proof fn lemma_load_single_flight(c: DriverCache, b: DriverBinding)
    requires
        c.cached() == Some(b),
    ensures
        c.load_plan() == LoadPlan::UseCached(b),
{
}

} // verus!
