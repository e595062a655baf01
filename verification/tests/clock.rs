use nvapi::clock::{
    ClockLockEntry, ClockLimits, VoltageSettings, NV_GPU_CLIENT_VOLT_RAILS_CONTROL_V1, PerfInfo, PerfStatus,
    NV_GPU_PERF_POLICIES_INFO_PARAMS_V1, NV_GPU_PERF_POLICIES_STATUS_PARAMS_V1, VoltageTable, NV_VOLT_TABLE_V1,
    NV_VOLT_TABLE_ENTRY, VoltageEntry, vfp_mask_type, VfpMaskType, NVAPI_GPU_CLOCK_LOCK_MANUAL_FREQUENCY,
    NVAPI_GPU_CLOCK_LOCK_MANUAL_VOLTAGE, NVAPI_GPU_CLOCK_LOCK_NONE,
};
use nvapi::sys_clock::{NV_GPU_PERF_CLIENT_LIMITS_ENTRY, NV_GPU_PERF_CLIENT_LIMITS_V2};
use nvapi::types::{Kilohertz, Microvolts, Percentage};
use nvapi::version::NvVersion;
use nvapi::gpu::{PhysicalGpu, NvPhysicalGpuHandle};
use nvapi::status::{Status, NvAPI_Status};
use nvapi::error::{Api, NvapiError};

fn lock() -> ClockLockEntry {
    ClockLockEntry::V2(NV_GPU_PERF_CLIENT_LIMITS_ENTRY { id: 1, b: 0, mode: NVAPI_GPU_CLOCK_LOCK_NONE, d: 0, value: 0, clock_id: 7 })
}

#[test]
fn lock_reads_back_frequency_and_voltage() {
    let mut e = lock();
    assert_eq!(e.value(), None);
    e.set_frequency(Kilohertz(1_800_000));
    assert_eq!(e.mode(), NVAPI_GPU_CLOCK_LOCK_MANUAL_FREQUENCY);
    assert_eq!(e.frequency(), Some(Kilohertz(1_800_000)));
    assert_eq!(e.voltage(), None);
    assert_eq!(e.value(), Some(1_800_000));
    e.set_voltage(Microvolts(950_000));
    assert_eq!(e.mode(), NVAPI_GPU_CLOCK_LOCK_MANUAL_VOLTAGE);
    assert_eq!(e.voltage(), Some(Microvolts(950_000)));
    assert_eq!(e.frequency(), None);
    e.set_value(None);
    assert_eq!(e.value(), None);
    assert_eq!(e.voltage(), None);
    assert_eq!(e.id(), 1);
    assert_eq!(e.domain(), 7);
    e.set_id(3);
    e.set_domain(0);
    assert_eq!((e.id(), e.domain()), (3, 0));
}

#[test]
fn clock_limits_keep_count_entries() {
    let mut entries = [NV_GPU_PERF_CLIENT_LIMITS_ENTRY { id: 0, b: 0, mode: 0, d: 0, value: 0, clock_id: 0 }; 32];
    entries[0].id = 5;
    entries[1].id = 6;
    entries[2].id = 9;
    let l = ClockLimits::V2(NV_GPU_PERF_CLIENT_LIMITS_V2 { version: NvVersion::new(4 * 3 + 32 * 24, 2), flags: 0, count: 2, entries });
    let out = l.into_entries();
    assert_eq!(out.len(), 2);
    assert_eq!(out[0].id(), 5);
    assert_eq!(out[1].id(), 6);
}

#[test]
fn voltage_boost_request() {
    let r = VoltageSettings::request(Percentage(40));
    assert_eq!(r.percent, 40);
    assert_eq!(r.version.data, (1 << 16) | 40);
    let mut s = VoltageSettings::V1(NV_GPU_CLIENT_VOLT_RAILS_CONTROL_V1 { version: NvVersion::new(40, 1), percent: 10 });
    assert_eq!(s.core_voltage_boost(), Percentage(10));
    s.set_core_voltage_boost(Percentage(100));
    assert_eq!(s.core_voltage_boost(), Percentage(100));
}

#[test]
fn perf_limits_drop_unknown_flags() {
    let i = PerfInfo::V1(NV_GPU_PERF_POLICIES_INFO_PARAMS_V1 { version: NvVersion::new(76, 1), maxUnknown: 3, limitSupport: 0x1c3 });
    assert_eq!(i.limits(), 0x03);
    assert_eq!(i.max_unknown(), 3);
    let s = PerfStatus::V1(NV_GPU_PERF_POLICIES_STATUS_PARAMS_V1 {
        version: NvVersion::new(1360, 1), flags: 0, timer: 0, limits: 0xff, zero0: 0, unknown: 4, zero1: 0, timers: [0; 3],
    });
    assert_eq!(s.limits(), 0x3f);
    assert_eq!(s.unknown(), 4);
}

#[test]
fn voltage_table_keeps_count_entries() {
    let mut entries = [NV_VOLT_TABLE_ENTRY { voltage_domain: 0, voltage_uV: 0 }; 16];
    entries[0].voltage_uV = 700_000;
    entries[1].voltage_uV = 712_500;
    entries[1].voltage_domain = 2;
    let t = VoltageTable::V1(NV_VOLT_TABLE_V1 { version: NvVersion::new(12 + 16 * 8, 1), flags: 0, count: 2, entries });
    let out = t.into_entries();
    assert_eq!(out.len(), 2);
    assert_eq!(out[1].voltage(), Microvolts(712_500));
    assert_eq!(out[1].domain(), 2);
    assert_eq!(out[0], VoltageEntry::V1(NV_VOLT_TABLE_ENTRY { voltage_domain: 0, voltage_uV: 700_000 }));
}

#[test]
fn vfp_mask_kinds() {
    assert_eq!(vfp_mask_type(1, 0), Some(VfpMaskType::Memory));
    assert_eq!(vfp_mask_type(0, 1), Some(VfpMaskType::Graphics));
    assert_eq!(vfp_mask_type(0, 0), Some(VfpMaskType::Unknown));
    assert_eq!(vfp_mask_type(1, 1), None);
}

#[test]
fn performance_decrease_passes_flags_and_errors() {
    let g = PhysicalGpu::with_handle(NvPhysicalGpuHandle(1));
    assert_eq!(g.performance_decrease(Ok(0x5)), Ok(0x5));
    assert_eq!(
        g.performance_decrease(Err(Status::NvidiaDeviceNotFound)),
        Err(NvapiError::new(NvAPI_Status::new(Status::NvidiaDeviceNotFound), Api::NvAPI_GPU_GetPerfDecreaseInfo)),
    );
}
