use nvapi::boolu32::BoolU32;
use nvapi::types::{Rpm, Range, Percentage, CelsiusShifted, NvData};
use nvapi::version::NvVersion;
use nvapi::sys_thermal::{
    NV_GPU_CLIENT_THERMAL_POLICY_STATUS_V3, NV_GPU_CLIENT_THERMAL_POLICIES_STATUS_ENTRY_V2,
    NV_GPU_CLIENT_PFF_CURVE_V1, NV_GPU_CLIENT_PFF_CURVE_POINT_V1, NV_GPU_CLIENT_THERMAL_POLICIES_STATUS_V2,
};
use nvapi::sys_cooler::{NV_GPU_GETCOOLER_SETTING_V1, NV_GPU_GETCOOLER_SETTING_V3, NV_GPU_GETCOOLER_SETTING_V4, NV_COOLER_TACHOMETER};
use nvapi::thermal::{
    ThermalLimit, ThermalLimits, GetCoolerSettings, CoolerPolicyTable, NV_GPU_COOLER_POLICY_TABLE_V1,
    NV_GPU_COOLER_POLICY_LEVEL, CoolerInfo, CoolerStatus,
};
use nvapi::thermal::{Sensors, NV_GPU_THERMAL_SETTINGS_V1, NV_GPU_THERMAL_SETTINGS_SENSOR, ThermalPolicies, ThermalInfo};
use nvapi::sys_thermal::{NV_GPU_CLIENT_THERMAL_POLICIES_INFO_V2, NV_GPU_CLIENT_THERMAL_POLICIES_INFO_ENTRY_V2};

fn point(enabled: bool, temp: u32, y: u32) -> NV_GPU_CLIENT_PFF_CURVE_POINT_V1 {
    NV_GPU_CLIENT_PFF_CURVE_POINT_V1 { enabled: BoolU32(if enabled { 1 } else { 0 }), uiT_Y: y, temp }
}

fn v3_limit(flags: u32) -> NV_GPU_CLIENT_THERMAL_POLICY_STATUS_V3 {
    NV_GPU_CLIENT_THERMAL_POLICY_STATUS_V3 {
        policy_id: 1,
        flags,
        temp_limit_C: 83 << 8,
        remove_tdp_limit: BoolU32(0x10),
        pff_curve: NV_GPU_CLIENT_PFF_CURVE_V1 { points: [point(true, 80, 1500), point(true, 85, 1200), point(false, 90, 900)] },
        pff_freqs: [1500000, 1200000, 900000],
    }
}

fn v2_limit() -> NV_GPU_CLIENT_THERMAL_POLICIES_STATUS_ENTRY_V2 {
    NV_GPU_CLIENT_THERMAL_POLICIES_STATUS_ENTRY_V2 { policy_id: 1, temp_limit_C: 80 << 8, pstate: 0 }
}

#[test]
fn thermal_limit_temperature_and_id() {
    let mut l = ThermalLimit::V3(v3_limit(0));
    assert_eq!(l.temperature(), CelsiusShifted(83 << 8));
    assert_eq!(l.id(), 1);
    l.set_temperature(CelsiusShifted(70 << 8));
    l.set_id(2);
    assert_eq!(l.temperature(), CelsiusShifted(70 << 8));
    assert_eq!(l.id(), 2);
}

#[test]
fn tdp_unlimited_only_in_third_version() {
    let mut l = ThermalLimit::V3(v3_limit(0));
    assert!(!l.tdp_unlimited());
    assert!(l.set_tdp_unlimited(true));
    assert!(l.tdp_unlimited());
    match l {
        ThermalLimit::V3(v) => assert_eq!(v.remove_tdp_limit, BoolU32(0x11)),
        _ => unreachable!(),
    }
    let mut old = ThermalLimit::V2(v2_limit());
    assert!(!old.set_tdp_unlimited(true));
    assert!(!old.tdp_unlimited());
    assert_eq!(old, ThermalLimit::V2(v2_limit()));
}

#[test]
fn pff_frequencies_follow_enabled_points() {
    let l = ThermalLimit::V3(v3_limit(1));
    assert_eq!(l.pff_frequencies(), Some(vec![1500000, 1200000]));
    assert!(l.pff_curve().is_some());
    assert_eq!(ThermalLimit::V3(v3_limit(0)).pff_frequencies(), None);
    assert_eq!(ThermalLimit::V2(v2_limit()).pff_frequencies(), None);
    assert_eq!(ThermalLimit::V2(v2_limit()).pff_curve(), None);
}

#[test]
fn thermal_limits_into_policies() {
    let all = NV_GPU_CLIENT_THERMAL_POLICIES_STATUS_V2 { version: NvVersion::with_version(0), count: 2, entries: [v2_limit(); 4] };
    let p = ThermalLimits::V2(all).into_policies();
    assert_eq!(p.len(), 2);
    assert_eq!(p[0], ThermalLimit::V2(v2_limit()));
}

fn cooler_v1() -> NV_GPU_GETCOOLER_SETTING_V1 {
    NV_GPU_GETCOOLER_SETTING_V1 {
        type_: 1, controller: 2, defaultMinLevel: 30, defaultMaxLevel: 100, currentMinLevel: 35,
        currentMaxLevel: 90, currentLevel: 50, defaultPolicy: 0, currentPolicy: 1, target: 1, controlType: 1, active: 1,
    }
}

fn tach(supported: bool) -> NV_COOLER_TACHOMETER {
    NV_COOLER_TACHOMETER { speedRPM: 1200, bSupported: BoolU32(if supported { 1 } else { 0 }), maxSpeedRPM: 3000, minSpeedRPM: 500 }
}

#[test]
fn cooler_levels() {
    let s = GetCoolerSettings::V1(cooler_v1());
    assert_eq!(s.level(), Percentage(50));
    assert_eq!(s.policy(), 1);
    assert_eq!(s.default_level_range(), Range { min: Percentage(30), max: Percentage(100) });
    assert_eq!(s.level_range(), Range { min: Percentage(35), max: Percentage(90) });
}

#[test]
fn tachometer_only_reported_by_fourth_version() {
    let v3 = NV_GPU_GETCOOLER_SETTING_V3 { v1: cooler_v1(), tachometer: tach(true) };
    let v4 = GetCoolerSettings::V4(NV_GPU_GETCOOLER_SETTING_V4 { v3, unknown: 0 });
    assert_eq!(v4.tach(), Some(Rpm(1200)));
    assert_eq!(v4.tach_range(), Some(Range { min: Rpm(500), max: Rpm(3000) }));
    assert_eq!(GetCoolerSettings::V3(v3).tach(), None);
    assert_eq!(GetCoolerSettings::V3(v3).tach_range(), None);
    let v4_none = GetCoolerSettings::V4(NV_GPU_GETCOOLER_SETTING_V4 { v3: NV_GPU_GETCOOLER_SETTING_V3 { v1: cooler_v1(), tachometer: tach(false) }, unknown: 0 });
    assert_eq!(v4_none.tach(), None);
}

#[test]
fn set_tach_then_read_back() {
    let v3 = NV_GPU_GETCOOLER_SETTING_V3 { v1: cooler_v1(), tachometer: tach(false) };
    let mut s = GetCoolerSettings::V4(NV_GPU_GETCOOLER_SETTING_V4 { v3, unknown: 0 });
    s.set_tach(Some(Rpm(900)));
    assert_eq!(s.tach(), Some(Rpm(900)));
    s.set_tach(None);
    assert_eq!(s.tach(), None);
    let mut v1 = GetCoolerSettings::V1(cooler_v1());
    v1.set_tach(Some(Rpm(900)));
    assert_eq!(v1, GetCoolerSettings::V1(cooler_v1()));
}

#[test]
fn set_tach_range_writes_the_minimum_twice() {
    let v3 = NV_GPU_GETCOOLER_SETTING_V3 { v1: cooler_v1(), tachometer: tach(false) };
    let mut s = GetCoolerSettings::V3(v3);
    s.set_tach_range(Some(Range { min: Rpm(100), max: Rpm(4000) }));
    match s {
        GetCoolerSettings::V3(v) => {
            assert!(v.tachometer.bSupported.get());
            assert_eq!(v.tachometer.minSpeedRPM, 4000);
            assert_eq!(v.tachometer.maxSpeedRPM, 3000);
        },
        _ => unreachable!(),
    }
}

#[test]
fn cooler_policy_table_levels() {
    let level = |i: u32| NV_GPU_COOLER_POLICY_LEVEL { levelId: i, currentLevel: 10 * i, defaultLevel: 5 * i };
    let mut levels = [level(0); 24];
    for i in 0..24 {
        levels[i] = level(i as u32);
    }
    let table = CoolerPolicyTable::V1(NvData::with_sys(NV_GPU_COOLER_POLICY_TABLE_V1 { version: NvVersion::with_version(0), policy: 1, policyCoolerLevel: levels }));
    let l = table.levels(3);
    assert_eq!(l.len(), 3);
    assert_eq!(l[2], level(2));
    assert_eq!(table.policy(), 1);
    assert_eq!(table.levels(0).len(), 0);
}

#[test]
fn cooler_info_from_settings() {
    let v3 = NV_GPU_GETCOOLER_SETTING_V3 { v1: cooler_v1(), tachometer: tach(true) };
    let v4 = GetCoolerSettings::V4(NV_GPU_GETCOOLER_SETTING_V4 { v3, unknown: 0 });
    let info = CoolerInfo::from_settings(2, v4);
    assert_eq!(info.id(), 2);
    assert_eq!(info.tach_range(), Some(Range { min: Rpm(500), max: Rpm(3000) }));
    let none = CoolerInfo::from_settings(1, GetCoolerSettings::V1(cooler_v1()));
    assert_eq!(none.tach_range(), None);
    let mut i = none;
    i.set_tach_range(Some(Range { min: Rpm(1), max: Rpm(2) }));
    assert_eq!(i.tach_range(), Some(Range { min: Rpm(1), max: Rpm(2) }));
}

#[test]
fn cooler_status_from_settings() {
    let v3 = NV_GPU_GETCOOLER_SETTING_V3 { v1: cooler_v1(), tachometer: tach(true) };
    let st = CoolerStatus::from(GetCoolerSettings::V4(NV_GPU_GETCOOLER_SETTING_V4 { v3, unknown: 0 }));
    assert_eq!(st.level(), Percentage(50));
    assert_eq!(st.level_range(), Range { min: Percentage(35), max: Percentage(90) });
    assert_eq!(st.tach(), Rpm(1200));
    assert_eq!(st.id(), 0);
    let old = CoolerStatus::from(GetCoolerSettings::V3(v3));
    assert_eq!(old.tach(), Rpm(0));
}

#[test]
fn thermal_sensors_and_policies() {
    let sensor = NV_GPU_THERMAL_SETTINGS_SENSOR { controller: 1, defaultMinTemp: 0, defaultMaxTemp: 127, currentTemp: 45, target: 1 };
    let all = Sensors::V1(NV_GPU_THERMAL_SETTINGS_V1 { version: NvVersion::with_version(0), count: 2, sensor: [sensor; 3] });
    let s = all.into_sensors();
    assert_eq!(s.len(), 2);
    assert_eq!(s[1].current_temperature(), nvapi::types::Celsius(45));
    assert_eq!(s[0].default_temperature_range(), Range { min: nvapi::types::Celsius(0), max: nvapi::types::Celsius(127) });
    let entry = NV_GPU_CLIENT_THERMAL_POLICIES_INFO_ENTRY_V2 { policy_id: 1, unknown: 0, minTemp: 60 << 8, defaultTemp: 83 << 8, maxTemp: 90 << 8, defaultFlags: 1 };
    let p = ThermalPolicies::V2(NV_GPU_CLIENT_THERMAL_POLICIES_INFO_V2 { version: NvVersion::with_version(0), count: 1, flags: 0, entries: [entry; 4] }).into_policies();
    assert_eq!(p.len(), 1);
    assert_eq!(p[0].default_temperature(), CelsiusShifted(83 << 8));
    assert_eq!(p[0].temperature_range().max, CelsiusShifted(90 << 8));
    assert_eq!(p[0].pff_curve(), None);
    assert_eq!(ThermalInfo::V2(entry).id(), 1);
}

#[test]
fn thermal_limit_temperature_wraps() {
    // The raw word is read as an `i32` and a negative limit is stored by its bits.
    let mut l = ThermalLimit::V3(v3_limit(0));
    l.set_temperature(CelsiusShifted(-(5 << 8)));
    assert_eq!(l.temperature(), CelsiusShifted(-(5 << 8)));
    match l {
        ThermalLimit::V3(v) => assert_eq!(v.temp_limit_C, 0xFFFF_FB00),
        _ => unreachable!(),
    }
}
