use nvapi::types::{Celsius, CelsiusShifted, Kilohertz, KilohertzDelta, Microvolts, MicrovoltsDelta, Range};
use nvapi::hi::{SensorThrottle, SensorLimit, PffCurve, PffPoint, PffStatus, ThermalLimit, VfPoint, VfpPoint, OvervoltLimit, PStateLimit};
use nvapi::power::{PowerInfoEntry, NV_GPU_CLIENT_POWER_POLICY_INFO_V2, PowerInfo, NV_GPU_CLIENT_POWER_POLICIES_INFO_V2};
use nvapi::hi::{PowerLimit, SensorDesc};
use nvapi::types::{Percentage, NvData};
use nvapi::thermal::NV_GPU_THERMAL_SETTINGS_SENSOR;
use nvapi::version::NvVersion;

fn curve() -> PffCurve {
    PffCurve { points: vec![
        PffPoint { x: CelsiusShifted(80 << 8), y: Kilohertz(1500000) },
        PffPoint { x: CelsiusShifted(85 << 8), y: Kilohertz(1200000) },
    ] }
}

#[test]
fn throttle_to_limit_and_back() {
    let t = SensorThrottle { value: Celsius(83), remove_tdp_limit: true, curve: Some(curve()) };
    let limit = t.to_limit(1, None);
    assert_eq!(limit.policy, 1);
    assert_eq!(limit.value, CelsiusShifted(83 << 8));
    let pff = limit.pff.as_ref().unwrap();
    assert_eq!(pff.values, vec![Kilohertz(1500000), Kilohertz(1200000)]);
    let back = SensorThrottle::from_limit(&limit);
    assert_eq!(back.value, Celsius(83));
    assert!(back.remove_tdp_limit);
    assert_eq!(back.curve.unwrap().points, curve().points);
}

#[test]
fn throttle_to_limit_with_replacement_curve() {
    let t = SensorThrottle { value: Celsius(-5), remove_tdp_limit: false, curve: Some(curve()) };
    let info = PffCurve { points: vec![PffPoint { x: CelsiusShifted(70 << 8), y: Kilohertz(1) }] };
    let limit = t.to_limit(2, Some(&info));
    assert_eq!(limit.value, CelsiusShifted(-5 << 8));
    let pff = limit.pff.unwrap();
    assert_eq!(pff.curve.points, info.points);
    let c = pff.curve();
    assert_eq!(c.points, vec![PffPoint { x: CelsiusShifted(70 << 8), y: Kilohertz(1500000) }]);
    let none = SensorThrottle { value: Celsius(90), remove_tdp_limit: false, curve: None }.to_limit(1, Some(&info));
    assert!(none.pff.is_none());
}

#[test]
fn from_limit_without_curve() {
    let limit = ThermalLimit { policy: 1, value: CelsiusShifted(0x5280), remove_tdp_limit: false, pff: None };
    let t = SensorThrottle::from_limit(&limit);
    assert_eq!(t.value, Celsius(0x52));
    assert!(t.curve.is_none());
    let status = PffStatus { curve: curve(), values: vec![Kilohertz(7)] };
    assert_eq!(status.curve().points.len(), 1);
}

#[test]
fn throttle_defaults() {
    let info = SensorLimit { range: Range { min: Celsius(60), max: Celsius(90) }, default: Celsius(83), flags: 0, throttle_curve: Some(curve()) };
    let t = SensorThrottle::from_default(info);
    assert_eq!(t.value, Celsius(83));
    assert!(!t.remove_tdp_limit);
    assert_eq!(t.curve.unwrap().points.len(), 2);
    let c = SensorThrottle::from(Celsius(70));
    assert_eq!(c.value, Celsius(70));
    assert!(c.curve.is_none());
}

#[test]
fn hi_constructors() {
    let p = VfpPoint { default_frequency: Kilohertz(1000), frequency: Kilohertz(1100), voltage: Microvolts(800000) };
    let v = VfPoint::new(p, KilohertzDelta(-50));
    assert_eq!(v.frequency, Kilohertz(1100));
    assert_eq!(v.delta, KilohertzDelta(-50));
    let r = Range { min: MicrovoltsDelta(0), max: MicrovoltsDelta(100000) };
    assert_eq!(OvervoltLimit::from_base_voltage(0, Microvolts(1), false, r).range, None);
    assert_eq!(OvervoltLimit::from_base_voltage(0, Microvolts(1), true, r).range, Some(r));
    let s = PStateLimit::from_single(true, Range { min: KilohertzDelta(-1), max: KilohertzDelta(1) }, Kilohertz(5));
    assert_eq!(s.frequency, Range { min: Kilohertz(5), max: Kilohertz(5) });
    assert_eq!(s.voltage_domain, 16);
}

#[test]
fn power_and_sensor_descriptions() {
    let e = NV_GPU_CLIENT_POWER_POLICY_INFO_V2 { policy_id: 0, min_power: 50000, def_power: 100000, max_power: 114999 };
    let l = PowerLimit::from(PowerInfoEntry::V2(e));
    assert_eq!(l.range, Range { min: Percentage(50), max: Percentage(114) });
    assert_eq!(l.default, Percentage(100));
    let info = PowerInfo::V2(NV_GPU_CLIENT_POWER_POLICIES_INFO_V2 { version: NvVersion::with_version(0), valid: 1, count: 1, entries: [e; 4] });
    assert!(info.valid());
    assert_eq!(info.into_entries().len(), 1);
    let d = SensorDesc::from(NvData::with_sys(NV_GPU_THERMAL_SETTINGS_SENSOR { controller: 1, defaultMinTemp: -5, defaultMaxTemp: 100, currentTemp: 40, target: 8 }));
    assert_eq!(d, SensorDesc { controller: 1, target: 8, range: Range { min: Celsius(-5), max: Celsius(100) } });
}
