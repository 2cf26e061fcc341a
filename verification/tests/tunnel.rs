use wgnt::adapter::AdapterHandle;
use wgnt::adapter::CreateAdapterOutcome;
use wgnt::adapter::DeleteAdapterOutcome;
use wgnt::driver::DllError;
use wgnt::driver::DriverCache;
use wgnt::driver::LoadPlan;
use wgnt::driver::RawDriverImage;
use wgnt::notify::PendingInterfaceWait;
use wgnt::status::OsError;
use wgnt::tunnel::Error;
use wgnt::tunnel::WgNtTunnel;

fn good_image() -> RawDriverImage {
    RawDriverImage { module: 0x1000, create_addr: 0x1010, delete_addr: 0x1020, free_addr: 0x1030 }
}

fn created(handle: u64, reboot: i32) -> CreateAdapterOutcome {
    CreateAdapterOutcome { handle, reboot_required: reboot, error_code: 0 }
}

/// An instrumented stand-in for the driver binding that counts every call
/// made against it.
#[derive(Default)]
struct DriverCallCounter {
    creates: u32,
    deletes: u32,
    frees: u32,
}

#[test]
fn free_exactly_once_when_dropped_without_delete() {
    let mut counter = DriverCallCounter::default();
    let binding = wgnt::driver::resolve_driver_image(good_image()).unwrap();

    counter.creates += 1;
    let (adapter, _reboot) = AdapterHandle::create(binding, created(42, 0)).unwrap();
    assert_eq!(adapter.raw_handle(), 42);

    // The adapter goes out of scope without an explicit delete: the release
    // path surrenders the raw handle for the driver's one free call.  The
    // consuming signature leaves no way to free (or delete) it a second
    // time.
    let raw = adapter.free();
    counter.frees += 1;
    assert_eq!(raw, 42);

    assert_eq!((counter.creates, counter.deletes, counter.frees), (1, 0, 1));
}

#[test]
fn delete_consumes_and_owes_no_free() {
    let mut counter = DriverCallCounter::default();
    let binding = wgnt::driver::resolve_driver_image(good_image()).unwrap();

    counter.creates += 1;
    let (adapter, _reboot) = AdapterHandle::create(binding, created(42, 0)).unwrap();

    counter.deletes += 1;
    let reboot = adapter
        .delete(DeleteAdapterOutcome { succeeded: 1, reboot_required: 1, error_code: 0 })
        .unwrap();
    assert!(reboot);

    // Deletion consumed the adapter; no free call follows it.
    assert_eq!((counter.creates, counter.deletes, counter.frees), (1, 1, 0));
}

#[test]
fn drop_disposition_frees_iff_not_deleted() {
    let binding = wgnt::driver::resolve_driver_image(good_image()).unwrap();

    // Scope ends while the adapter is still held: one free is owed.
    let (adapter, _reboot) = AdapterHandle::create(binding, created(42, 0)).unwrap();
    assert_eq!(wgnt::adapter::release_on_drop(Some(adapter)), Some(42));

    // Scope ends after an explicit delete emptied the slot: nothing is owed.
    assert_eq!(wgnt::adapter::release_on_drop(None), None);
}

#[test]
fn failed_delete_surfaces_native_code() {
    let binding = wgnt::driver::resolve_driver_image(good_image()).unwrap();
    let (adapter, _reboot) = AdapterHandle::create(binding, created(42, 0)).unwrap();
    assert_eq!(
        adapter.delete(DeleteAdapterOutcome { succeeded: 0, reboot_required: 0, error_code: 5 }),
        Err(OsError { code: 5 })
    );
}

#[test]
fn failed_create_surfaces_native_code() {
    let binding = wgnt::driver::resolve_driver_image(good_image()).unwrap();
    assert_eq!(
        WgNtTunnel::start_tunnel(
            binding,
            CreateAdapterOutcome { handle: 0, reboot_required: 0, error_code: 1450 }
        )
        .err()
        .unwrap(),
        Error::CreateTunnelDeviceError(OsError { code: 1450 })
    );
}

#[test]
fn bringup_with_existing_rows_never_waits() {
    // Full bring-up against an environment where both families already
    // have rows: the wait path concludes immediately and a usable tunnel
    // comes back.
    let mut cache = DriverCache::new();
    let binding = match cache.begin_load() {
        LoadPlan::UseCached(b) => b,
        LoadPlan::LoadFromDisk => WgNtTunnel::load_driver(&mut cache, good_image()).unwrap(),
    };

    let (tunnel, reboot) = WgNtTunnel::start_tunnel(binding, created(42, 0)).unwrap();
    assert!(!reboot);

    let wait = PendingInterfaceWait::new(10, true, true);
    let ready = wait.initial_check(Ok(true), Ok(true)).unwrap();
    assert!(ready, "both rows exist, so the wait path must conclude at once");

    // The tunnel owns a live adapter; tear-down hands it back for its one
    // release.
    let adapter = tunnel.stop();
    assert_eq!(adapter.raw_handle(), 42);
    let _ = adapter.free();
}

#[test]
fn reboot_required_is_advisory_not_an_error() {
    let mut cache = DriverCache::new();
    let binding = WgNtTunnel::load_driver(&mut cache, good_image()).unwrap();
    let (tunnel, reboot) = WgNtTunnel::start_tunnel(binding, created(42, 1)).unwrap();
    assert!(reboot, "the advisory is reported alongside success");
    let _ = tunnel.stop().free();
}

#[test]
fn absent_driver_file_fails_load_and_creates_nothing() {
    let mut counter = DriverCallCounter::default();
    let mut cache = DriverCache::new();

    // The OS could not map the library: the image comes back without a
    // module handle.
    let image = RawDriverImage { module: 0, create_addr: 0, delete_addr: 0, free_addr: 0 };
    let err = WgNtTunnel::load_driver(&mut cache, image).err().unwrap();
    assert_eq!(err, Error::DllError(DllError::LoadFailed));

    // Bring-up aborted in the load phase: no adapter was ever created.
    assert_eq!((counter.creates, counter.deletes, counter.frees), (0, 0, 0));
    assert_eq!(cache.begin_load(), LoadPlan::LoadFromDisk);
}
