use nvapi::boolu32::BoolU32;
use nvapi::version::{NvVersion, MAKE_NVAPI_VERSION, GET_NVAPI_VERSION, GET_NVAPI_SIZE};
use nvapi::clock_mask::ClockMask;
use nvapi::array::{Array, Truncated, CountRange, Padding};
use nvapi::status::{Status, ArgumentRangeError};
use nvapi::error::{Api, NvapiError, Error};
use nvapi::status::NvAPI_Status;
use nvapi::sys_power::NV_GPU_CLOCK_CLIENT_CLK_VF_POINT;
use nvapi::sys_power::NV_GPU_CLOCK_CLIENT_CLK_VF_POINT_STATUS_V3;
use nvapi::clock::{VfpEntry, VfPoint, VfpMaskType, vfp_mask_type};
use nvapi::pstate::{Delta, PStateDelta, NV_GPU_PERF_PSTATES20_PARAM_DELTA};
use nvapi::types::{KilohertzDelta, MicrovoltsDelta, Rpm};
use nvapi::i2c::{I2c, NVAPI_I2C_SPEED_100KHZ, NVAPI_I2C_SPEED_400KHZ, smbus_word, smbus_block_header, smbus_block_read};
use nvapi::gpu::{PhysicalGpu, NvPhysicalGpuHandle};
use nvapi::gsync::{GSyncDevice, NvGSyncDeviceHandle, NV_GSYNC_STATUS, NV_GSYNC_CAPABILITIES_V1, NV_GSYNC_CAPABILITIES_V2, GSyncStatus, GSyncCapabilities};
use nvapi::info::{driver_version, unload, chipset_info, chipset_info_version, ChipsetInfo, NV_CHIPSET_INFO_v1, NV_CHIPSET_INFO_v2, NV_CHIPSET_INFO_v3, NV_CHIPSET_INFO_v4};
use nvapi::gpu::VersionStep;
use nvapi::string::NvString;
use nvapi::value::{NvValueData, NvValueBits};
use nvapi::sys_cooler::{FanArbiterInfoFlags, FanArbiterControlFlags};
use nvapi::ecc::{EccStatus, EccErrors, EccConfigurationInfo, NV_GPU_ECC_STATUS_INFO, NV_GPU_ECC_ERROR_INFO, NV_GPU_ECC_ERROR_INFO_ERRORS};
use nvapi::sys_clock::NV_GPU_ECC_CONFIGURATION_INFO;
use nvapi::error::allowable_result_fallback;
use nvapi::version::{StructVersion, VersionedStruct};
use nvapi::gpu::{NV_DISPLAY_DRIVER_MEMORY_INFO_V3, NV_DISPLAY_DRIVER_MEMORY_INFO_V1, NV_GPU_ARCH_INFO_V1};
use nvapi::nvapi::{library_entry, nvapi_QueryInterface, NvapiFnCache};

#[test]
fn boolu32_set_keeps_reserved_bits() {
    let mut b = BoolU32::new(false, 0x30);
    assert!(!b.get());
    b.set(true);
    assert!(b.get());
    assert_eq!(b.flags(), 0x30);
    assert_eq!(b.value(), 0x31);
    assert_eq!(BoolU32::from(true).value(), 1);
    assert_eq!(BoolU32(0x8000_0003).flags(), 0x8000_0002);
    assert!(BoolU32(0x8000_0003).get());
    let mut high = BoolU32(0xf000_0000);
    high.set(true);
    assert_eq!(high.value(), 0xf000_0001);
    assert_eq!(BoolU32::new(true, 0xf000_0000).flags(), 0xf000_0000);
}

#[test]
fn version_pack_and_unpack() {
    let v = NvVersion::new(0x24, 3);
    assert_eq!(v.version(), 3);
    assert_eq!(v.size(), 0x24);
    assert_eq!(v.data, 0x30024);
    assert_eq!(GET_NVAPI_VERSION(0x30024), 3);
    assert_eq!(GET_NVAPI_SIZE(0x30024), 0x24);
    assert_eq!(MAKE_NVAPI_VERSION::<u32>(1), 0x10004);
}

#[test]
fn clock_mask_bits() {
    let mut m = ClockMask::<2> { mask: [0, 0] };
    m.set_bit(3);
    m.set_bit(40);
    assert!(m.get_bit(3));
    assert!(m.get_bit(40));
    assert!(!m.get_bit(4));
    assert_eq!(m.mask, [8, 1 << 8]);
    let entries: Vec<u32> = (0..64).collect();
    assert_eq!(m.index(&entries), vec![(3, 3), (40, 40)]);
}

#[test]
fn truncated_views() {
    let t = Truncated::new_with([1u32, 2, 3, 4], CountRange::to(2));
    assert_eq!(t.as_slice(), &[1, 2]);
    assert_eq!(t.len(), 2);
    let over = Truncated::try_with([1u32, 2], CountRange::to(5));
    assert!(over.is_err());
    let a = Array::new([5u8, 6, 7, 8]);
    // An excluded end bound counts one past itself, as `take` computes it.
    assert_eq!(a.get_iter(CountRange::between(1, 3)), vec![6, 7, 8]);
    assert_eq!(Array::new([5u8, 6, 7, 8]).get_iter(CountRange::full()), vec![5, 6, 7, 8]);
    assert_eq!(Array::new([5u8, 6, 7, 8]).get_iter(CountRange::to(0)), vec![5]);
}

#[test]
fn truncated_items() {
    // Iteration skips `start` entries and then takes up to `end` of them.
    let t = Truncated::new_with([10u32, 20, 30, 40, 50], CountRange::between(1, 3));
    assert_eq!(t.into_items(), vec![20, 30, 40]);
    let u = Truncated::new_with([10u32, 20, 30, 40, 50], CountRange::to(2));
    assert_eq!(u.into_items(), vec![10, 20]);
    let w = Truncated::new_with([10u32, 20], CountRange::to(9));
    assert_eq!(w.into_items(), vec![10, 20]);
}

#[test]
fn zero_checks() {
    assert!(Array::new([0u32; 4]).all_zero());
    assert_eq!(Array::new([0u8, 1]).check_zero(), Err(ArgumentRangeError));
    assert_eq!(Padding { data: [0i32; 3] }.check_zero(), Ok(()));
}

#[test]
fn vf_entry_points() {
    let p = |f, v| NV_GPU_CLOCK_CLIENT_CLK_VF_POINT { freq_kHz: f, voltage_uV: v };
    let e = VfpEntry::V3(NV_GPU_CLOCK_CLIENT_CLK_VF_POINT_STATUS_V3 { clock_type: 0, point: p(100, 700), point_default: p(0, 0), point_overclocked: p(120, 700) });
    assert_eq!(e.default_point(), None);
    assert_eq!(e.overclocked_point(), Some(VfPoint::V1(p(120, 700))));
    assert_eq!(e.configured_point(), VfPoint::V1(p(120, 700)));
    let f = VfpEntry::V3(NV_GPU_CLOCK_CLIENT_CLK_VF_POINT_STATUS_V3 { clock_type: 0, point: p(100, 700), point_default: p(90, 700), point_overclocked: p(0, 0) });
    assert_eq!(f.configured_point(), VfPoint::V1(p(100, 700)));
    assert_eq!(f.default_point(), Some(VfPoint::V1(p(90, 700))));
    assert_eq!(vfp_mask_type(1, 0), Some(VfpMaskType::Memory));
    assert_eq!(vfp_mask_type(0, 1), Some(VfpMaskType::Graphics));
    assert_eq!(vfp_mask_type(0, 0), Some(VfpMaskType::Unknown));
    assert_eq!(vfp_mask_type(1, 1), None);
}

#[test]
fn pstate_deltas() {
    let d: Delta<KilohertzDelta> = Delta::new(PStateDelta::V1(NV_GPU_PERF_PSTATES20_PARAM_DELTA { value: -100, min: -200, max: 300 }));
    assert_eq!(d.frequency(), KilohertzDelta(-100));
    assert_eq!(d.value(), KilohertzDelta(-100));
    assert_eq!(d.range().max, KilohertzDelta(300));
    let v: Delta<MicrovoltsDelta> = Delta::new(PStateDelta::V1(NV_GPU_PERF_PSTATES20_PARAM_DELTA { value: 5, min: 0, max: 9 }));
    assert_eq!(v.voltage(), MicrovoltsDelta(5));
}

#[test]
fn i2c_bus_settings_and_request() {
    let gpu = PhysicalGpu::with_handle(NvPhysicalGpuHandle(1));
    let mut bus = I2c::new(gpu, 0x100);
    assert_eq!(bus.speed, NVAPI_I2C_SPEED_100KHZ);
    bus.set_port(Some(2), true);
    bus.set_speed(NVAPI_I2C_SPEED_400KHZ);
    assert!(bus.set_slave_address(0x150, true).is_err());
    assert_eq!(bus.address, 0);
    assert!(bus.set_slave_address(0x150, false).is_ok());
    assert_eq!(bus.address, 0x50);
    let req = bus.request(1, 4);
    assert_eq!(req.i2cDevAddress, 0xa0);
    assert_eq!(req.bIsDDCPort, 1);
    assert_eq!(req.portId, 2);
    assert_eq!(req.bIsPortIdSet, 1);
    assert_eq!(req.i2cSpeed, 0xffff);
    assert_eq!(req.cbSize, 4);
    assert_eq!(bus.nvapi_read(Ok(req)), Ok(4));
    let mut shorter = req;
    shorter.cbSize = 3;
    assert_eq!(bus.nvapi_read(Ok(shorter)), Ok(3));
    assert!(!req.register_is_null());
    assert_eq!(bus.nvapi_write(Err(Status::Error)), Err(NvapiError::new(NvAPI_Status::new(Status::Error), Api::NvAPI_I2CWrite)));
    assert_eq!(smbus_word([0x12, 0x34]), 0x1212);
    assert_eq!(smbus_block_header(7, 300), [7, 44]);
    let _ = Error::ArgumentRange(ArgumentRangeError);
}

#[test]
fn gsync_conversions() {
    let s = NV_GSYNC_STATUS { version: NvVersion::with_version(0), bIsSynced: BoolU32(1), bIsStereoSynced: BoolU32(0), bIsSyncSignalAvailable: BoolU32(3) };
    assert_eq!(s.convert_raw(), GSyncStatus { synced: true, stereo_synced: false, sync_signal_available: true });
    let c1 = NV_GSYNC_CAPABILITIES_V1 { version: NvVersion::with_version(0), boardId: 856, revision: 2, capFlags: 0 };
    let c2 = NV_GSYNC_CAPABILITIES_V2 { v1: c1, extendedRevision: 9 };
    assert_eq!(c2.convert_raw(), GSyncCapabilities { board_id: 856, revision: 2, extended_revision: 9, max_mul_div: None });
    let dev = GSyncDevice::with_handle(NvGSyncDeviceHandle(5));
    assert_eq!(dev.capabilities(Ok(c2)).unwrap().board_id, 856);
    assert_eq!(GSyncDevice::enumerate(Err(Status::NvidiaDeviceNotFound)).unwrap().len(), 0);
    let devs = GSyncDevice::enumerate(Ok(([NvGSyncDeviceHandle(1), NvGSyncDeviceHandle(2), NvGSyncDeviceHandle(0), NvGSyncDeviceHandle(0)], 2))).unwrap();
    assert_eq!(devs[1].handle(), &NvGSyncDeviceHandle(2));
}

#[test]
fn info_queries() {
    let mut branch = [0u8; 64];
    branch[..4].copy_from_slice(b"r531");
    assert_eq!(driver_version(Ok((53112, NvString(branch)))), Ok((53112, String::from("r531"))));
    assert_eq!(unload(Err(Status::ApiNotInitialized)), Err(NvapiError::new(NvAPI_Status::new(Status::ApiNotInitialized), Api::NvAPI_Unload)));
    let v1 = NV_CHIPSET_INFO_v1 { version: NvVersion::with_version(0), vendorId: 0x8086, deviceId: 0x1234, szVendorName: NvString([0u8; 64]), szChipsetName: NvString([0u8; 64]) };
    let raw = NV_CHIPSET_INFO_v4 {
        v3: NV_CHIPSET_INFO_v3 { v2: NV_CHIPSET_INFO_v2 { v1, flags: 0 }, subSysVendorId: 7, subSysDeviceId: 8, szSubSysVendorName: NvString([0u8; 64]) },
        HBvendorId: 1, HBdeviceId: 2, HBsubSysVendorId: 3, HBsubSysDeviceId: 4,
    };
    match chipset_info(2, Ok(raw.clone())) {
        VersionStep::Done(Ok(c)) => {
            assert!(matches!(c, ChipsetInfo::V2(..)));
            assert_eq!(c.vendor(), 0x8086);
            assert_eq!(c.subsystem(), None);
        },
        _ => panic!("expected the info"),
    }
    match chipset_info(4, Ok(raw.clone())) {
        VersionStep::Done(Ok(c)) => {
            assert_eq!(c.subsystem(), Some((7, 8)));
            assert_eq!(c.host_bridge(), Some((1, 2, 3, 4)));
        },
        _ => panic!("expected the info"),
    }
    match chipset_info(3, Ok(raw)) {
        VersionStep::Done(Ok(c)) => assert!(matches!(c, ChipsetInfo::V3(..))),
        _ => panic!("expected the info"),
    }
    assert_eq!(chipset_info_version(4).data, (4 << 16) | 232);
    assert_eq!(chipset_info_version(1).data, (1 << 16) | 140);
    match chipset_info(4, Err(Status::IncompatibleStructVersion)) {
        VersionStep::Retry(v) => assert_eq!(v, 3),
        _ => panic!("expected a retry"),
    }
    let _ = Rpm(0);
}

#[test]
fn nv_string_text() {
    let mut b = [0u8; 8];
    b[..3].copy_from_slice(b"abc");
    b[4] = b'z';
    let s = NvString(b);
    assert_eq!(s.len(), 3);
    assert_eq!(s.to_slice(), b"abc");
    assert_eq!(s.to_string_lossy(), "abc");
    let full = NvString(*b"12345678");
    assert_eq!(full.len(), 8);
    assert_eq!(full.to_string_lossy(), "12345678");
    assert_eq!(NvString([0u8; 4]).len(), 0);
}

#[test]
fn value_traits() {
    assert_eq!(Status::NotSupported.repr(), -104);
    assert_eq!(<Status as NvValueData>::from_repr(-6), Ok(Status::NvidiaDeviceNotFound));
    assert_eq!(<Status as NvValueData>::from_repr(7), Err(ArgumentRangeError));
    assert_eq!(FanArbiterInfoFlags::from_repr(3).map(|f| f.bits), Ok(3));
    assert_eq!(FanArbiterInfoFlags::from_repr(4).map(|f| f.bits), Err(ArgumentRangeError));
    assert_eq!(FanArbiterInfoFlags::from_repr_truncate(7).bits, 3);
    assert_eq!(FanArbiterControlFlags::from_repr_truncate(6).bits, 0);
    assert_eq!(FanArbiterControlFlags::from_repr(1).map(|f| f.repr()), Ok(1));
}

#[test]
fn ecc_views() {
    let s = EccStatus::V1(NV_GPU_ECC_STATUS_INFO { version: NvVersion::with_version(0), isSupported: BoolU32(1), configurationOptions: 2, isEnabled: BoolU32(0) });
    assert!(s.supported());
    assert!(!s.enabled());
    assert_eq!(s.configuration(), 2);
    let e = EccErrors::V1(NV_GPU_ECC_ERROR_INFO {
        version: NvVersion::with_version(0), padding: 0,
        current: NV_GPU_ECC_ERROR_INFO_ERRORS { single_bit_errors: 1, double_bit_errors: 2 },
        aggregate: NV_GPU_ECC_ERROR_INFO_ERRORS { single_bit_errors: 10, double_bit_errors: 20 },
    });
    assert_eq!(e.current().double_bit(), 2);
    assert_eq!(e.aggregate().single_bit(), 10);
    let c = EccConfigurationInfo::V1(NV_GPU_ECC_CONFIGURATION_INFO { version: NvVersion::with_version(0), isEnabled: BoolU32(3) });
    assert!(c.enabled());
    assert!(c.enabled_by_default());
    let d = EccConfigurationInfo::V1(NV_GPU_ECC_CONFIGURATION_INFO { version: NvVersion::with_version(0), isEnabled: BoolU32(1) });
    assert!(!d.enabled_by_default());
    let gpu = PhysicalGpu::with_handle(NvPhysicalGpuHandle(1));
    assert_eq!(gpu.ecc_configuration(Err(Status::NotSupported)), Err(NvapiError::new(NvAPI_Status::new(Status::NotSupported), Api::NvAPI_GPU_GetECCConfigurationInfo)));
}

#[test]
fn allowable_fallback() {
    let ok: Result<u32, Error> = Ok(4);
    assert_eq!(allowable_result_fallback(ok, 9), Ok(4));
    let incompat: Result<u32, Error> = Err(Error::Nvapi(NvapiError::new(NvAPI_Status::new(Status::NotSupported), Api::NvAPI_GPU_GetUsages)));
    assert_eq!(allowable_result_fallback(incompat, 9), Ok(9));
    let hard = Error::Nvapi(NvapiError::new(NvAPI_Status::new(Status::Error), Api::NvAPI_GPU_GetUsages));
    assert_eq!(allowable_result_fallback(Err(hard), 9), Err(hard));
}

#[test]
fn struct_versions() {
    let m = <NV_DISPLAY_DRIVER_MEMORY_INFO_V3 as StructVersion<3>>::versioned();
    assert_eq!(m.nvapi_version().data, 0x30020);
    assert_eq!(m.v2.curAvailableDedicatedVideoMemory, 0);
    let v1 = <NV_DISPLAY_DRIVER_MEMORY_INFO_V1 as StructVersion<1>>::versioned();
    assert_eq!(v1.version.version(), 1);
    assert_eq!(v1.version.size(), 20);
    let a = <NV_GPU_ARCH_INFO_V1 as StructVersion<2>>::versioned();
    assert_eq!(a.version.data, 0x20010);
}

#[test]
fn library_loading_decisions() {
    assert_eq!(library_entry(0), Err(Status::LibraryNotFound));
    assert_eq!(library_entry(0x1000), Ok(0x1000));
    assert_eq!(nvapi_QueryInterface(Ok(0x1000), 0), Err(Status::NoImplementation));
    assert_eq!(nvapi_QueryInterface(Ok(0x1000), 0x2000), Ok(0x2000));
    assert_eq!(nvapi_QueryInterface(Err(Status::LibraryNotFound), 0x2000), Err(Status::LibraryNotFound));
    let mut cache = NvapiFnCache::empty();
    assert_eq!(cache.get(), None);
    assert!(cache.needs_lookup());
    assert_eq!(cache.query_ptr(Ok(0x1000), 0), Err(Status::NoImplementation));
    assert_eq!(cache.get(), None);
    assert_eq!(cache.query_ptr(Err(Status::LibraryNotFound), 0x40), Err(Status::LibraryNotFound));
    assert_eq!(cache.get(), None);
    assert_eq!(cache.query_ptr(Ok(0x1000), 0x40), Ok(0x40));
    assert!(!cache.needs_lookup());
    assert_eq!(cache.query_ptr(Ok(0x1000), 0x80), Ok(0x40));
    cache.set(None);
    assert_eq!(cache.get(), None);
    assert_eq!(NvapiFnCache::new_usize(5).get(), Some(5));
}

#[test]
fn truncate_to_ref_view() {
    let a = Array::new([9u32, 8, 7]);
    let t = a.truncate_to_ref(2);
    assert_eq!(t.count, CountRange::to(2));
}

#[test]
fn smbus_block_reads() {
    let mut buf = [0u8; 33];
    buf[0] = 3;
    buf[1] = 10;
    buf[2] = 20;
    buf[3] = 30;
    buf[4] = 40;
    let mut value = [0u8; 2];
    assert_eq!(smbus_block_read(Ok(33), &buf, &mut value).unwrap(), 3);
    assert_eq!(value, [10, 20]);
    let mut wide = [9u8; 5];
    assert_eq!(smbus_block_read(Ok(33), &buf, &mut wide).unwrap(), 3);
    assert_eq!(wide, [10, 20, 30, 9, 9]);
    let mut short = [9u8; 5];
    assert_eq!(smbus_block_read(Ok(2), &buf, &mut short).unwrap(), 3);
    assert_eq!(short, [10, 20, 9, 9, 9]);
    let mut one = [9u8; 5];
    assert_eq!(smbus_block_read(Ok(1), &buf, &mut one).unwrap(), 3);
    assert_eq!(one, [10, 9, 9, 9, 9]);
    let e = NvapiError::new(NvAPI_Status::new(Status::Error), Api::NvAPI_I2CRead);
    let mut untouched = [1u8; 2];
    assert_eq!(smbus_block_read(Err(e), &buf, &mut untouched), Err(Error::Nvapi(e)));
    assert_eq!(untouched, [1, 1]);
}

#[test]
fn fn_cache_asks_the_driver_only_while_empty() {
    let calls = std::cell::Cell::new(0u32);
    let mut cache = NvapiFnCache::empty();
    let answer = |a: usize| {
        calls.set(calls.get() + 1);
        (Ok(0x1000), a)
    };
    assert_eq!(cache.query_ptr_with(|| answer(0)), Err(Status::NoImplementation));
    assert_eq!(cache.get(), None);
    assert_eq!(cache.query_ptr_with(|| answer(0x40)), Ok(0x40));
    assert_eq!(cache.query_ptr_with(|| answer(0x80)), Ok(0x40));
    assert_eq!(cache.get(), Some(0x40));
    assert_eq!(calls.get(), 2);
}
