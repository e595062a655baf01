use nvapi::hi::{gpu_settings, GpuSettingsReplies, PStateEntry, ClockEntry, BaseVoltage, ThermalLimit, PffStatus, PffCurve, PffPoint, PStateLimit, OvervoltLimit, VfpRange, VfpPoint, VOLTAGE_DOMAIN_UNDEFINED};
use nvapi::thermal::ThermalInfo;
use nvapi::sys_thermal::{NV_GPU_CLIENT_THERMAL_POLICY_INFO_V3, NV_GPU_CLIENT_PFF_CURVE_V1, NV_GPU_CLIENT_PFF_CURVE_POINT_V1};
use nvapi::power::PowerPolicyStatus;
use nvapi::sys_power::{NV_GPU_CLIENT_POWER_POLICY_STATUS_V2, NV_GPU_CLOCK_CLIENT_CLK_VF_POINT, NV_GPU_CLOCK_CLIENT_CLK_VF_POINT_STATUS_V3, NV_GPU_CLOCK_CLIENT_CLK_VF_POINT_STATUS_V1};
use nvapi::clock::VfpEntry;
use nvapi::types::CelsiusShifted;
use nvapi::types::{KilohertzDelta, MicrovoltsDelta};
use nvapi::hi::{set_vfp_lock, set_vfp_lock_voltage, reset_vfp_lock, gpu_info, gpu_status, GpuInfoReplies, GpuStatusReplies, PowerLimit, SensorDesc, ClockFrequencies};
use nvapi::clock::{ClockLockEntry, PerfStatus, NV_GPU_PERF_POLICIES_STATUS_PARAMS_V1};
use nvapi::sys_clock::NV_GPU_PERF_CLIENT_LIMITS_ENTRY;
use nvapi::types::{Microvolts, Kilohertz};
use nvapi::status::ArgumentRangeError;
use nvapi::gpu::{DriverModel, BusInfo, Bus, ArchInfo, NV_GPU_ARCH_INFO_V1};
use nvapi::clock::{PerfInfo, NV_GPU_PERF_POLICIES_INFO_PARAMS_V1};
use nvapi::sys_clock::{NV_GPU_CLOCK_FREQUENCIES_V1, NV_GPU_CLOCK_FREQUENCIES_DOMAIN};
use nvapi::thermal::NV_GPU_THERMAL_SETTINGS_SENSOR;
use nvapi::power::{PowerInfoEntry, NV_GPU_CLIENT_POWER_POLICY_INFO_V2};
use nvapi::error::{Api, Error, NvapiError};
use nvapi::status::{Status, NvAPI_Status};
use nvapi::types::{NvData, Range, Celsius, Percentage};
use nvapi::version::NvVersion;
use nvapi::boolu32::BoolU32;

fn clocks() -> ClockFrequencies {
    NvData::with_sys(NV_GPU_CLOCK_FREQUENCIES_V1 {
        version: NvVersion::with_version(0),
        reserved: 1,
        domain: [NV_GPU_CLOCK_FREQUENCIES_DOMAIN { bIsPresent: BoolU32(1), frequency: 1500000 }; 32],
    })
}

fn err(s: Status) -> Error {
    Error::Nvapi(NvapiError::new(NvAPI_Status::new(s), Api::NvAPI_GPU_GetArchInfo))
}

fn replies() -> GpuInfoReplies {
    GpuInfoReplies {
        id: 7,
        pstates: Err(err(Status::NotSupported)),
        full_name: Ok(String::from("GeForce")),
        short_name: Ok(String::from("GP104")),
        vbios_version: Ok(String::from("86.04")),
        driver_model: Ok(DriverModel::new(0x2000)),
        bus_info: Err(err(Status::NotSupported)),
        memory_info: Err(err(Status::IncompatibleStructVersion)),
        ecc_configuration: Ok((false, true)),
        ecc_status: Err(err(Status::NotSupported)),
        system_type: Ok(2),
        gpu_type: Err(err(Status::NoImplementation)),
        architecture: Ok(ArchInfo::V1(NV_GPU_ARCH_INFO_V1 { version: NvVersion::with_version(0), architecture: 0x130, implementation: 4, revision: 0xa1 })),
        ram_type: Ok(8),
        ram_maker: Ok(6),
        ram_bus_width: Ok(256),
        ram_bank_count: Ok(8),
        ram_partition_count: Ok(4),
        foundry: Ok(1),
        core_count: Ok(2560),
        shader_pipe_count: Ok(20),
        shader_sub_pipe_count: Ok(128),
        base_clocks: Ok(clocks()),
        boost_clocks: Ok(clocks()),
        thermal_settings: Ok(vec![NvData::with_sys(NV_GPU_THERMAL_SETTINGS_SENSOR { controller: 1, defaultMinTemp: 0, defaultMaxTemp: 127, currentTemp: 50, target: 1 })]),
        cooler_info: Err(err(Status::NotSupported)),
        perf_info: Ok(PerfInfo::V1(NV_GPU_PERF_POLICIES_INFO_PARAMS_V1 { version: NvVersion::with_version(0), maxUnknown: 0, limitSupport: 3 })),
        thermal_limit_info: Ok(vec![]),
        power_limit_info: Ok(vec![PowerInfoEntry::V2(NV_GPU_CLIENT_POWER_POLICY_INFO_V2 { policy_id: 0, min_power: 50000, def_power: 100000, max_power: 120000 })]),
        vfp_ranges: Err(err(Status::NotSupported)),
    }
}

#[test]
fn gpu_info_assembles_with_fallbacks() {
    let g = gpu_info(replies()).ok().unwrap();
    assert_eq!(g.id, 7);
    assert_eq!(g.name, "GeForce");
    assert_eq!(g.driver_model, Some(DriverModel::new(0x2000)));
    assert_eq!(g.bus, BusInfo { id: 0, slot_id: 0, irq: 0, bus: Bus::Other(0) });
    assert!(g.memory.is_none());
    assert!(g.ecc.enabled_by_default);
    assert_eq!(g.gpu_type, 0);
    assert_eq!(g.system_type, 2);
    assert_eq!(g.core_count, 2560);
    assert_eq!(g.sensors, vec![SensorDesc { controller: 1, target: 1, range: Range { min: Celsius(0), max: Celsius(127) } }]);
    assert!(g.coolers.is_empty() && g.pstate_limits.is_empty() && g.vfp_limits.is_empty());
    assert_eq!(g.power_limits, vec![PowerLimit { range: Range { min: Percentage(50), max: Percentage(120) }, default: Percentage(100) }]);
}

#[test]
fn gpu_info_fails_at_first_real_error() {
    let mut r = replies();
    r.short_name = Err(err(Status::NotSupported));
    assert_eq!(gpu_info(r).err(), Some(err(Status::NotSupported)));
    let mut r = replies();
    r.bus_info = Err(err(Status::InvalidArgument));
    r.core_count = Err(err(Status::Error));
    assert_eq!(gpu_info(r).err(), Some(err(Status::InvalidArgument)));
    let mut r = replies();
    r.vfp_ranges = Err(err(Status::ApiNotInitialized));
    assert_eq!(gpu_info(r).err(), Some(err(Status::ApiNotInitialized)));
}

fn status_replies() -> GpuStatusReplies {
    let lock = |id: i32, mode: i32, value: u32| ClockLockEntry::V2(NV_GPU_PERF_CLIENT_LIMITS_ENTRY { id, b: 0, mode, d: 0, value, clock_id: 0 });
    GpuStatusReplies {
        vfp_info: Ok(()),
        current_pstate: Ok(0),
        clocks: Ok(clocks()),
        memory_info: Err(err(Status::NotSupported)),
        bus_type: Ok(3),
        pcie_lanes: Ok(16),
        ecc_configuration: Err(err(Status::NotSupported)),
        ecc_errors: Err(err(Status::NotSupported)),
        core_voltage: Ok(Microvolts(850000)),
        voltage_domains: Err(err(Status::NotSupported)),
        voltage_step: Err(err(Status::NotSupported)),
        voltage_table: Err(err(Status::NotSupported)),
        tachometer: Ok(1200),
        utilization: Ok(vec![(0, Percentage(40))]),
        power: Ok(vec![(0, Percentage(55))]),
        thermal_settings: Ok(vec![NvData::with_sys(NV_GPU_THERMAL_SETTINGS_SENSOR { controller: 1, defaultMinTemp: 0, defaultMaxTemp: 127, currentTemp: 50, target: 1 })]),
        cooler_status: Ok(vec![]),
        perf_status: Ok(PerfStatus::V1(NV_GPU_PERF_POLICIES_STATUS_PARAMS_V1 {
            version: NvVersion::with_version(0), flags: 0, timer: 0, limits: 1, zero0: 0, unknown: 0, zero1: 0, timers: [0; 3],
        })),
        vfp_curve: Ok(vec![(0, vec![
            (2, VfpEntry::V3(NV_GPU_CLOCK_CLIENT_CLK_VF_POINT_STATUS_V3 {
                clock_type: 0,
                point: vf_point(1_500_000, 800_000),
                point_default: vf_point(1_400_000, 800_000),
                point_overclocked: vf_point(1_550_000, 812_500),
            })),
            (3, VfpEntry::V1(NV_GPU_CLOCK_CLIENT_CLK_VF_POINT_STATUS_V1 { clock_type: 0, point: vf_point(1_600_000, 850_000) })),
        ])]),
        vfp_locks: Ok(vec![lock(0, 2, 1_800_000), lock(1, 0, 5), lock(6, 3, 900_000)]),
    }
}

#[test]
fn gpu_status_assembles() {
    let g = gpu_status(status_replies()).ok().unwrap();
    assert_eq!(g.pcie_lanes, Some(16));
    assert!(!g.ecc.enabled);
    assert_eq!(g.voltage, Some(Microvolts(850000)));
    assert!(g.voltage_domains.is_none());
    assert_eq!(g.sensors[0].1, Celsius(50));
    // The point in effect is the overclocked one where it is set; an entry
    // without a default point shows a default frequency of 0.
    let vfp = g.vfp.as_ref().unwrap();
    assert_eq!(vfp.graphics, vec![
        (2, VfpPoint { default_frequency: Kilohertz(1_400_000), frequency: Kilohertz(1_550_000), voltage: Microvolts(812_500) }),
        (3, VfpPoint { default_frequency: Kilohertz(0), frequency: Kilohertz(1_600_000), voltage: Microvolts(850_000) }),
    ]);
    assert!(vfp.memory.is_empty());
    assert_eq!(g.vfp_locks, vec![(0, 1_800_000), (6, 900_000)]);

    let mut r = status_replies();
    r.bus_type = Ok(1);
    r.pcie_lanes = Err(err(Status::Error));
    assert_eq!(gpu_status(r).ok().unwrap().pcie_lanes, None);
    let mut r = status_replies();
    r.pcie_lanes = Err(err(Status::Error));
    assert_eq!(gpu_status(r).err(), Some(err(Status::Error)));
    let mut r = status_replies();
    r.vfp_info = Err(err(Status::NotSupported));
    r.vfp_curve = Err(err(Status::Error));
    assert!(gpu_status(r).ok().unwrap().vfp.is_none());
    let mut r = status_replies();
    r.perf_status = Err(err(Status::InvalidHandle));
    assert_eq!(gpu_status(r).err(), Some(err(Status::InvalidHandle)));
}

#[test]
fn vfp_lock_plans() {
    let l = set_vfp_lock(0, Some(Kilohertz(1_800_000))).unwrap();
    assert_eq!((l[0].id(), l[1].id()), (0, 1));
    assert_eq!(l[0].frequency(), Some(Kilohertz(1_800_000)));
    assert_eq!(l[1].domain(), 0);
    let m = set_vfp_lock(4, None).unwrap();
    assert_eq!((m[0].id(), m[1].id()), (2, 3));
    assert_eq!(m[0].value(), None);
    assert_eq!(set_vfp_lock(7, None).err(), Some(ArgumentRangeError));
    let v = set_vfp_lock_voltage(Some(Microvolts(900_000)));
    assert_eq!((v.id(), v.voltage()), (6, Some(Microvolts(900_000))));
    let reset = reset_vfp_lock(&vec![v, l[0]]);
    assert_eq!(reset[0].value(), None);
    assert_eq!(reset[1].id(), 0);
}

fn single(domain: i32, editable: bool, delta: i32) -> ClockEntry {
    ClockEntry::Single {
        domain,
        editable,
        frequency_delta: KilohertzDelta(delta),
        delta_range: Range { min: KilohertzDelta(-100_000), max: KilohertzDelta(200_000) },
        frequency: Kilohertz(1_500_000),
    }
}

fn pstates() -> (Vec<PStateEntry>, Vec<BaseVoltage>) {
    let range = ClockEntry::Range {
        domain: 4,
        editable: false,
        frequency_delta: KilohertzDelta(0),
        delta_range: Range { min: KilohertzDelta(0), max: KilohertzDelta(0) },
        frequency_range: Range { min: Kilohertz(400_000), max: Kilohertz(5_000_000) },
        voltage_domain: 0,
        voltage_range: Range { min: Microvolts(600_000), max: Microvolts(1_100_000) },
    };
    let volt = |editable: bool, delta: i32| BaseVoltage {
        domain: 0,
        editable,
        voltage: Microvolts(800_000),
        voltage_delta: MicrovoltsDelta(delta),
        delta_range: Range { min: MicrovoltsDelta(0), max: MicrovoltsDelta(100_000) },
    };
    (
        vec![
            PStateEntry { id: 0, editable: true, clocks: vec![single(0, true, 100_000), range, single(8, true, -50_000)] },
            PStateEntry { id: 8, editable: false, clocks: vec![single(0, true, 7)] },
        ],
        vec![volt(false, 1), volt(true, 25_000)],
    )
}

fn vf_point(freq_kHz: u32, voltage_uV: u32) -> NV_GPU_CLOCK_CLIENT_CLK_VF_POINT {
    NV_GPU_CLOCK_CLIENT_CLK_VF_POINT { freq_kHz, voltage_uV }
}

fn settings_replies() -> GpuSettingsReplies<u32> {
    let lock = |id: i32, mode: i32, value: u32| ClockLockEntry::V2(NV_GPU_PERF_CLIENT_LIMITS_ENTRY { id, b: 0, mode, d: 0, value, clock_id: 0 });
    GpuSettingsReplies {
        vfp_info: Ok(()),
        pstates: Ok(pstates()),
        voltage_boost: Err(err(Status::NotSupported)),
        sensor_limits: Ok(vec![
            ThermalLimit { policy: 1, value: CelsiusShifted(83 << 8), remove_tdp_limit: true, pff: None },
            ThermalLimit {
                policy: 1,
                value: CelsiusShifted(90 << 8),
                remove_tdp_limit: false,
                pff: Some(PffStatus {
                    curve: PffCurve { points: vec![PffPoint { x: CelsiusShifted(70 << 8), y: Kilohertz(1) }, PffPoint { x: CelsiusShifted(80 << 8), y: Kilohertz(2) }] },
                    values: vec![Kilohertz(1_800_000), Kilohertz(1_200_000)],
                }),
            },
        ]),
        power_limits: Ok(vec![PowerPolicyStatus::V2(NV_GPU_CLIENT_POWER_POLICY_STATUS_V2 { policy_id: 0, flags: 0, power_target: 112_500 })]),
        coolers: Ok(vec![(1, 60)]),
        vfp: Ok(vec![(4, vec![(3, KilohertzDelta(-7))]), (0, vec![(0, KilohertzDelta(15_000)), (1, KilohertzDelta(20_000))])]),
        vfp_locks: Ok(vec![lock(0, 2, 1_800_000), lock(1, 0, 5)]),
    }
}

#[test]
fn gpu_settings_assembles() {
    let s = gpu_settings(settings_replies()).ok().unwrap();
    assert_eq!(s.voltage_boost, None);
    assert_eq!(s.power_limits, vec![Percentage(112)]);
    assert_eq!(s.coolers, vec![(1, 60)]);
    // Each thermal limit becomes the setting it applies: degrees, the TDP flag,
    // and the curve of each point's temperature with the value at it.
    assert_eq!(s.sensor_limits.len(), 2);
    assert_eq!(s.sensor_limits[0].value, Celsius(83));
    assert!(s.sensor_limits[0].remove_tdp_limit && s.sensor_limits[0].curve.is_none());
    assert_eq!(s.sensor_limits[1].value, Celsius(90));
    assert_eq!(s.sensor_limits[1].curve.as_ref().unwrap().points,
        vec![PffPoint { x: CelsiusShifted(70 << 8), y: Kilohertz(1_800_000) }, PffPoint { x: CelsiusShifted(80 << 8), y: Kilohertz(1_200_000) }]);
    let vfp = s.vfp.as_ref().unwrap();
    assert_eq!(vfp.graphics, vec![(0, KilohertzDelta(15_000)), (1, KilohertzDelta(20_000))]);
    assert_eq!(vfp.memory, vec![(3, KilohertzDelta(-7))]);
    assert_eq!(s.pstate_deltas, vec![(0, vec![(0, KilohertzDelta(100_000)), (8, KilohertzDelta(-50_000))])]);
    assert_eq!(s.overvolt, vec![MicrovoltsDelta(25_000)]);
    assert_eq!(s.vfp_locks.iter().map(|l| l.0).collect::<Vec<_>>(), vec![0, 1]);

    let mut r = settings_replies();
    r.vfp_info = Err(err(Status::NotSupported));
    r.vfp = Err(err(Status::Error));
    assert!(gpu_settings(r).ok().unwrap().vfp.is_none());
    let mut r = settings_replies();
    r.pstates = Err(err(Status::NotSupported));
    let s = gpu_settings(r).ok().unwrap();
    assert!(s.pstate_deltas.is_empty() && s.overvolt.is_empty());
    let mut r = settings_replies();
    r.power_limits = Err(err(Status::InvalidHandle));
    r.vfp_locks = Err(err(Status::Error));
    assert_eq!(gpu_settings(r).err(), Some(err(Status::InvalidHandle)));
}

#[test]
fn gpu_info_converts_driver_data() {
    let pff_point = |enabled: u32, temp: u32, freq: u32| NV_GPU_CLIENT_PFF_CURVE_POINT_V1 { enabled: BoolU32(enabled), uiT_Y: freq, temp };
    let mut r = replies();
    r.pstates = Ok(pstates());
    r.thermal_limit_info = Ok(vec![ThermalInfo::V3(NV_GPU_CLIENT_THERMAL_POLICY_INFO_V3 {
        policy_id: 1,
        flags: 1,
        unknown: 0,
        minTemp: 65 << 8,
        defaultTemp: 83 << 8,
        maxTemp: 91 << 8,
        defaultFlags: 3,
        pff_curve: NV_GPU_CLIENT_PFF_CURVE_V1 { points: [pff_point(1, 70 << 8, 1_900_000), pff_point(1, 80 << 8, 1_500_000), pff_point(0, 0, 0)] },
    })]);
    r.vfp_ranges = Ok(vec![(0, Range { min: KilohertzDelta(-200_000), max: KilohertzDelta(1_000_000) })]);
    let g = gpu_info(r).ok().unwrap();
    // Every performance state, with each clock's limit.
    assert_eq!(g.pstate_limits.len(), 2);
    assert_eq!(g.pstate_limits[0].0, 0);
    assert_eq!(g.pstate_limits[0].1[0], (0, PStateLimit {
        frequency_delta: Some(Range { min: KilohertzDelta(-100_000), max: KilohertzDelta(200_000) }),
        frequency: Range { min: Kilohertz(1_500_000), max: Kilohertz(1_500_000) },
        voltage: Range { min: Microvolts(0), max: Microvolts(0) },
        voltage_domain: VOLTAGE_DOMAIN_UNDEFINED,
    }));
    assert_eq!(g.pstate_limits[0].1[1], (4, PStateLimit {
        frequency_delta: None,
        frequency: Range { min: Kilohertz(400_000), max: Kilohertz(5_000_000) },
        voltage: Range { min: Microvolts(600_000), max: Microvolts(1_100_000) },
        voltage_domain: 0,
    }));
    assert_eq!(g.pstate_limits[1].0, 8);
    assert_eq!(g.overvolt_limits, vec![
        OvervoltLimit { domain: 0, voltage: Microvolts(800_000), range: None },
        OvervoltLimit { domain: 0, voltage: Microvolts(800_000), range: Some(Range { min: MicrovoltsDelta(0), max: MicrovoltsDelta(100_000) }) },
    ]);
    // The sensor limit in degrees, with the policy's leading enabled curve points.
    let l = &g.sensor_limits[0];
    assert_eq!(l.range, Range { min: Celsius(65), max: Celsius(91) });
    assert_eq!(l.default, Celsius(83));
    assert_eq!(l.flags, 3);
    assert_eq!(l.throttle_curve.as_ref().unwrap().points, vec![
        PffPoint { x: CelsiusShifted(70 << 8), y: Kilohertz(1_900_000) },
        PffPoint { x: CelsiusShifted(80 << 8), y: Kilohertz(1_500_000) },
    ]);
    assert_eq!(g.vfp_limits, vec![(0, VfpRange { range: Range { min: KilohertzDelta(-200_000), max: KilohertzDelta(1_000_000) } })]);
}
