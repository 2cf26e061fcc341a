use wgnt::driver::resolve_driver_image;
use wgnt::driver::DllError;
use wgnt::driver::DriverCache;
use wgnt::driver::DriverExport;
use wgnt::driver::LoadPlan;
use wgnt::driver::RawDriverImage;
use wgnt::wide::adapter_alias_wide;
use wgnt::wide::adapter_pool_wide;
use wgnt::wide::driver_dll_path_wide;

fn good_image() -> RawDriverImage {
    RawDriverImage { module: 0x1000, create_addr: 0x1010, delete_addr: 0x1020, free_addr: 0x1030 }
}

#[test]
fn load_single_flight() {
    // Two load requests against one cache: only the first is licensed to
    // load, and both observe the same binding.
    let mut cache = DriverCache::new();
    let mut loads = 0;

    let first = match cache.begin_load() {
        LoadPlan::UseCached(b) => b,
        LoadPlan::LoadFromDisk => {
            loads += 1;
            cache.finish_load(good_image()).unwrap()
        }
    };
    let second = match cache.begin_load() {
        LoadPlan::UseCached(b) => b,
        LoadPlan::LoadFromDisk => {
            loads += 1;
            cache.finish_load(good_image()).unwrap()
        }
    };

    assert_eq!(loads, 1);
    assert_eq!(first, second);
}

#[test]
fn failed_load_leaves_cache_empty() {
    let mut cache = DriverCache::new();
    let image = RawDriverImage { module: 0, create_addr: 0, delete_addr: 0, free_addr: 0 };
    assert_eq!(cache.finish_load(image), Err(DllError::LoadFailed));
    // The next request must plan a fresh load.
    assert_eq!(cache.begin_load(), LoadPlan::LoadFromDisk);
}

#[test]
fn resolve_reports_first_missing_symbol() {
    let mut image = good_image();
    image.create_addr = 0;
    assert_eq!(
        resolve_driver_image(image),
        Err(DllError::SymbolMissing(DriverExport::CreateAdapter))
    );

    let mut image = good_image();
    image.delete_addr = 0;
    assert_eq!(
        resolve_driver_image(image),
        Err(DllError::SymbolMissing(DriverExport::DeleteAdapter))
    );

    let mut image = good_image();
    image.free_addr = 0;
    assert_eq!(
        resolve_driver_image(image),
        Err(DllError::SymbolMissing(DriverExport::FreeAdapter))
    );

    let image = RawDriverImage { module: 0, create_addr: 0x1010, delete_addr: 0, free_addr: 0 };
    assert_eq!(resolve_driver_image(image), Err(DllError::LoadFailed));
}

#[test]
fn resolve_keeps_addresses() {
    let b = resolve_driver_image(good_image()).unwrap();
    assert_eq!(b.module, 0x1000);
    assert_eq!(b.create_addr, 0x1010);
    assert_eq!(b.delete_addr, 0x1020);
    assert_eq!(b.free_addr, 0x1030);
}

#[test]
fn export_symbol_names() {
    assert_eq!(DriverExport::CreateAdapter.symbol_name(), "WireGuardCreateAdapter");
    assert_eq!(DriverExport::DeleteAdapter.symbol_name(), "WireGuardDeleteAdapter");
    assert_eq!(DriverExport::FreeAdapter.symbol_name(), "WireGuardFreeAdapter");
}

#[test]
fn pool_and_alias_are_wide_nul_terminated() {
    let expected: Vec<u16> = "Mullvad".encode_utf16().chain([0u16]).collect();
    assert_eq!(adapter_pool_wide(), expected);
    assert_eq!(adapter_alias_wide(), expected);
    // Concrete code units, so a wrong encoding cannot slip through.
    assert_eq!(adapter_pool_wide(), vec![77, 117, 108, 108, 118, 97, 100, 0]);
}

#[test]
fn driver_dll_path_appends_fixed_file_name() {
    let got = driver_dll_path_wide("C:\\resources").unwrap();
    let expected: Vec<u16> = "C:\\resources\\wireguard.dll"
        .encode_utf16()
        .chain([0u16])
        .collect();
    assert_eq!(got, expected);
}

#[test]
fn driver_dll_path_rejects_nul_in_directory() {
    assert_eq!(driver_dll_path_wide("C:\\re\u{0}sources"), None);
    // A nul as the directory's final character is refused too: nothing of
    // the directory may be dropped silently.
    assert_eq!(driver_dll_path_wide("C:\\resources\u{0}"), None);
}

#[test]
fn adapter_guid_is_fixed() {
    let g = wgnt::adapter::adapter_guid();
    assert_eq!(g.data1, 0xAFE43773);
    assert_eq!(g.data2, 0xE1F8);
    assert_eq!(g.data3, 0x4EBB);
    assert_eq!(g.data4, [0x85, 0x36, 0x57, 0x6A, 0xB8, 0x6A, 0xFE, 0x9A]);
}
