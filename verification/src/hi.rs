use vstd::prelude::*;
use vstd::std_specs::convert::FromSpecImpl;
use crate::types::{
    Celsius, CelsiusShifted, Kilohertz, KilohertzDelta, Microvolts, MicrovoltsDelta, Percentage, Range,
};
use crate::sys_thermal::NV_GPU_CLIENT_THERMAL_POLICIES_POLICY_ID;
use crate::ecc::EccErrors;
use crate::power::PowerInfoEntry;
use crate::thermal::{Sensor, CoolerInfo, CoolerStatus};
use crate::gpu::{DriverModel, BusInfo, Bus, MemoryInfo, ArchInfo, NV_GPU_ARCH_INFO_V1};
use crate::clock::{PerfInfo, PerfStatus, VoltageStatus, VoltageTable, ClockLockEntry, spec_lock, spec_lock_value, NVAPI_GPU_CLOCK_LOCK_NONE, NVAPI_GPU_CLOCK_LOCK_MANUAL_FREQUENCY, NVAPI_GPU_CLOCK_LOCK_MANUAL_VOLTAGE};
use crate::sys_clock::NV_GPU_PERF_CLIENT_LIMITS_ENTRY;
use crate::status::ArgumentRangeError;
use crate::sys_clock::NV_GPU_CLOCK_FREQUENCIES_V1;
use crate::ecc::{NV_GPU_ECC_STATUS_INFO, NV_GPU_ECC_ERROR_INFO, NV_GPU_ECC_ERROR_INFO_ERRORS};
use crate::error::{Error, allowable_error};
use crate::types::NvData;
use crate::version::NvVersion;
use crate::boolu32::BoolU32;
use crate::thermal::ThermalInfo;
use crate::sys_thermal::{NV_GPU_CLIENT_PFF_CURVE_V1, enabled_prefix_len, lemma_enabled_prefix_len};
use crate::power::PowerPolicyStatus;
use crate::clock::{VfpEntry, spec_overclocked_point, spec_entry_point, spec_some_point};

verus! {

/// One point of a throttling curve: at temperature `x`, frequency `y`.
#[derive(Copy, Clone, Debug, PartialEq, Eq, Structural)]
pub struct PffPoint {
    pub x: CelsiusShifted,
    pub y: Kilohertz,
}

/// A throttling curve.
#[derive(Clone, Debug)]
pub struct PffCurve {
    pub points: Vec<PffPoint>,
}

/// A throttling curve with the frequency that applies at each of its points.
#[derive(Clone, Debug)]
pub struct PffStatus {
    pub curve: PffCurve,
    pub values: Vec<Kilohertz>,
}

/// The points of a status: each curve point's temperature with the value at it,
/// as far as both go.
pub open spec fn spec_status_points(curve: Seq<PffPoint>, values: Seq<Kilohertz>) -> Seq<PffPoint> {
    let n = if curve.len() <= values.len() { curve.len() } else { values.len() };
    Seq::new(n, |i: int| PffPoint { x: curve[i].x, y: values[i] })
}

impl PffStatus {
    /// The curve made of each point's temperature and the frequency at it.
    pub fn curve(&self) -> (r: PffCurve)
        ensures
            r.points@ == spec_status_points(self.curve.points@, self.values@),
    {
        let n = if self.curve.points.len() <= self.values.len() { self.curve.points.len() } else { self.values.len() };
        let mut points: Vec<PffPoint> = Vec::new();
        let mut i: usize = 0;
        while i < n
            invariant
                n <= self.curve.points@.len(),
                n <= self.values@.len(),
                n == (if self.curve.points@.len() <= self.values@.len() { self.curve.points@.len() } else { self.values@.len() }),
                i <= n,
                points@ == spec_status_points(self.curve.points@, self.values@).subrange(0, i as int),
            decreases n - i,
        {
            points.push(PffPoint { x: self.curve.points[i].x, y: self.values[i] });
            i += 1;
            assert(points@ =~= spec_status_points(self.curve.points@, self.values@).subrange(0, i as int));
        }
        assert(spec_status_points(self.curve.points@, self.values@).subrange(0, n as int)
            =~= spec_status_points(self.curve.points@, self.values@));
        PffCurve { points }
    }
}

/// A thermal limit to apply: the policy, its temperature, whether the TDP limit
/// is lifted, and an optional throttling curve.
#[derive(Clone, Debug)]
pub struct ThermalLimit {
    pub policy: NV_GPU_CLIENT_THERMAL_POLICIES_POLICY_ID,
    pub value: CelsiusShifted,
    pub remove_tdp_limit: bool,
    pub pff: Option<PffStatus>,
}

/// The limits of a thermal sensor and its default throttling curve.
#[derive(Clone, Debug)]
pub struct SensorLimit {
    pub range: Range<Celsius>,
    pub default: Celsius,
    pub flags: u32,
    pub throttle_curve: Option<PffCurve>,
}

/// A sensor throttle setting: the temperature, whether the TDP limit is lifted,
/// and an optional throttling curve.
#[derive(Clone, Debug)]
pub struct SensorThrottle {
    pub value: Celsius,
    pub remove_tdp_limit: bool,
    pub curve: Option<PffCurve>,
}

/// The frequencies of a curve's points.
pub open spec fn spec_curve_values(points: Seq<PffPoint>) -> Seq<Kilohertz> {
    Seq::new(points.len(), |i: int| points[i].y)
}

fn curve_values(curve: &PffCurve) -> (r: Vec<Kilohertz>)
    ensures
        r@ == spec_curve_values(curve.points@),
{
    let mut values: Vec<Kilohertz> = Vec::new();
    let mut i: usize = 0;
    while i < curve.points.len()
        invariant
            i <= curve.points@.len(),
            values@ == spec_curve_values(curve.points@).subrange(0, i as int),
        decreases curve.points@.len() - i,
    {
        values.push(curve.points[i].y);
        i += 1;
        assert(values@ =~= spec_curve_values(curve.points@).subrange(0, i as int));
    }
    assert(spec_curve_values(curve.points@).subrange(0, curve.points@.len() as int) =~= spec_curve_values(curve.points@));
    values
}

fn copy_curve(curve: &PffCurve) -> (r: PffCurve)
    ensures
        r.points@ == curve.points@,
{
    let mut points: Vec<PffPoint> = Vec::new();
    let mut i: usize = 0;
    while i < curve.points.len()
        invariant
            i <= curve.points@.len(),
            points@ == curve.points@.subrange(0, i as int),
        decreases curve.points@.len() - i,
    {
        points.push(curve.points[i]);
        i += 1;
    }
    assert(curve.points@.subrange(0, curve.points@.len() as int) =~= curve.points@);
    PffCurve { points }
}

/// The temperature of a limit encoded for the driver (shifted by 8 bits).
pub open spec fn spec_shift(c: Celsius) -> CelsiusShifted {
    CelsiusShifted(c.0 << 8i32)
}

/// The temperature of an encoded limit in degrees.
pub open spec fn spec_unshift(c: CelsiusShifted) -> Celsius {
    Celsius(c.0 >> 8i32)
}

impl SensorThrottle {
    /// The limit this setting asks for under `policy`. A curve of the setting
    /// gives the frequencies; the curve itself is `info` where given, else the
    /// setting's own curve.
    pub fn to_limit(&self, policy: NV_GPU_CLIENT_THERMAL_POLICIES_POLICY_ID, info: Option<&PffCurve>) -> (r: ThermalLimit)
        ensures
            r.policy == policy,
            r.value == spec_shift(self.value),
            r.remove_tdp_limit == self.remove_tdp_limit,
            match self.curve {
                None => r.pff is None,
                Some(c) => r.pff matches Some(p)
                    && p.values@ == spec_curve_values(c.points@)
                    && p.curve.points@ == (match info { Some(i) => i.points@, None => c.points@ }),
            },
    {
        let pff = match &self.curve {
            None => None,
            Some(c) => Some(PffStatus {
                values: curve_values(c),
                curve: match info {
                    Some(curve) => copy_curve(curve),
                    None => copy_curve(c),
                },
            }),
        };
        ThermalLimit {
            policy,
            value: CelsiusShifted(self.value.0 << 8i32),
            remove_tdp_limit: self.remove_tdp_limit,
            pff,
        }
    }

    /// The setting that a limit applies.
    pub fn from_limit(limit: &ThermalLimit) -> (r: Self)
        ensures
            r.value == spec_unshift(limit.value),
            r.remove_tdp_limit == limit.remove_tdp_limit,
            match limit.pff {
                None => r.curve is None,
                Some(p) => r.curve matches Some(c) && c.points@ == spec_status_points(p.curve.points@, p.values@),
            },
    {
        SensorThrottle {
            value: Celsius(limit.value.0 >> 8i32),
            remove_tdp_limit: limit.remove_tdp_limit,
            curve: match &limit.pff {
                None => None,
                Some(pff) => Some(pff.curve()),
            },
        }
    }

    /// The default setting of a sensor: its default temperature and curve, with
    /// the TDP limit kept.
    pub fn from_default(info: SensorLimit) -> (r: Self)
        ensures
            r.value == info.default,
            r.remove_tdp_limit == false,
            match info.throttle_curve {
                None => r.curve is None,
                Some(c) => r.curve matches Some(d) && d.points@ == c.points@,
            },
    {
        SensorThrottle {
            value: info.default,
            curve: match &info.throttle_curve {
                None => None,
                Some(c) => Some(copy_curve(c)),
            },
            remove_tdp_limit: false,
        }
    }

}

impl From<Celsius> for SensorThrottle {
    /// A setting of just a temperature.
    fn from(value: Celsius) -> (r: Self) {
        SensorThrottle { value, remove_tdp_limit: false, curve: None }
    }
}

impl FromSpecImpl<Celsius> for SensorThrottle {
    open spec fn obeys_from_spec() -> bool {
        true
    }

    open spec fn from_spec(value: Celsius) -> Self {
        SensorThrottle { value, remove_tdp_limit: false, curve: None }
    }
}

/// Turning a setting into a limit (without a replacement curve) and back gives
/// the setting again: the same temperature, the same TDP choice, the same curve.
pub proof fn lemma_throttle_limit_roundtrip(
    value: Celsius,
    remove: bool,
    curve: Option<Seq<PffPoint>>,
    limit_value: CelsiusShifted,
    limit_curve: Option<(Seq<PffPoint>, Seq<Kilohertz>)>,
)
    requires
        i32::MIN >> 8i32 <= value.0 <= i32::MAX >> 8i32,
        limit_value == spec_shift(value),
        match curve {
            None => limit_curve is None,
            Some(c) => limit_curve == Some((c, spec_curve_values(c))),
        },
    ensures
        spec_unshift(limit_value) == value,
        match (curve, limit_curve) {
            (Some(c), Some((points, values))) => spec_status_points(points, values) == c,
            _ => true,
        },
{
    let v = value.0;
    assert((i32::MIN >> 8i32 <= v && v <= i32::MAX >> 8i32) ==> (v << 8i32) >> 8i32 == v) by (bit_vector);
    if let Some(c) = curve {
        assert(spec_status_points(c, spec_curve_values(c)) =~= c);
    }
}

/// The range a clock of the VF curve may be moved by.
#[derive(Copy, Clone, Debug, PartialEq, Eq, Structural)]
pub struct VfpRange {
    pub range: Range<KilohertzDelta>,
}

/// The voltage of a domain and the range it may be moved by, if editable.
#[derive(Copy, Clone, Debug, PartialEq, Eq, Structural)]
pub struct OvervoltLimit {
    pub domain: i32,
    pub voltage: Microvolts,
    pub range: Option<Range<MicrovoltsDelta>>,
}

impl OvervoltLimit {
    /// The limit of a base voltage: its range only where it is editable.
    pub fn from_base_voltage(domain: i32, voltage: Microvolts, editable: bool, delta_range: Range<MicrovoltsDelta>) -> (r: Self)
        ensures
            r.domain == domain,
            r.voltage == voltage,
            r.range == (if editable { Some(delta_range) } else { None }),
    {
        OvervoltLimit { domain, voltage, range: if editable { Some(delta_range) } else { None } }
    }
}

/// The limits of one clock in one performance state.
#[derive(Copy, Clone, Debug, PartialEq, Eq, Structural)]
pub struct PStateLimit {
    pub frequency_delta: Option<Range<KilohertzDelta>>,
    pub frequency: Range<Kilohertz>,
    pub voltage: Range<Microvolts>,
    pub voltage_domain: i32,
}

/// The raw undefined voltage domain (`NVAPI_GPU_PERF_VOLTAGE_INFO_DOMAIN_UNDEFINED`,
/// one past the last of the sixteen voltage domains; 0 is the core domain).
pub const VOLTAGE_DOMAIN_UNDEFINED: i32 = 16;

impl PStateLimit {
    /// The limit of a clock given as a range of frequencies and voltages.
    pub fn from_range(editable: bool, frequency_delta: Range<KilohertzDelta>, frequency: Range<Kilohertz>, voltage_domain: i32, voltage: Range<Microvolts>) -> (r: Self)
        ensures
            r.frequency_delta == (if editable { Some(frequency_delta) } else { None }),
            r.frequency == frequency,
            r.voltage == voltage,
            r.voltage_domain == voltage_domain,
    {
        PStateLimit {
            frequency_delta: if editable { Some(frequency_delta) } else { None },
            frequency,
            voltage,
            voltage_domain,
        }
    }

    /// The limit of a clock given as a single frequency: no voltage range, an
    /// undefined voltage domain.
    pub fn from_single(editable: bool, frequency_delta: Range<KilohertzDelta>, frequency: Kilohertz) -> (r: Self)
        ensures
            r.frequency_delta == (if editable { Some(frequency_delta) } else { None }),
            r.frequency == (Range { min: frequency, max: frequency }),
            r.voltage == (Range { min: Microvolts(0), max: Microvolts(0) }),
            r.voltage_domain == VOLTAGE_DOMAIN_UNDEFINED,
    {
        PStateLimit {
            frequency_delta: if editable { Some(frequency_delta) } else { None },
            frequency: Range { min: frequency, max: frequency },
            voltage: Range { min: Microvolts(0), max: Microvolts(0) },
            voltage_domain: VOLTAGE_DOMAIN_UNDEFINED,
        }
    }
}

/// The range of a power limit and its default.
#[derive(Copy, Clone, Debug, PartialEq, Eq, Structural)]
pub struct PowerLimit {
    pub range: Range<Percentage>,
    pub default: Percentage,
}

/// The limit of a power policy: its range and default in whole percent.
pub open spec fn spec_power_limit(info: PowerInfoEntry) -> PowerLimit {
    match info {
        PowerInfoEntry::V2(e) => PowerLimit {
            range: Range { min: Percentage(e.min_power / 1000), max: Percentage(e.max_power / 1000) },
            default: Percentage(e.def_power / 1000),
        },
        PowerInfoEntry::V1(e) => PowerLimit {
            range: Range { min: Percentage(e.min_power / 1000), max: Percentage(e.max_power / 1000) },
            default: Percentage(e.def_power / 1000),
        },
    }
}

impl From<PowerInfoEntry> for PowerLimit {
    fn from(info: PowerInfoEntry) -> (r: Self) {
        let range = info.range();
        PowerLimit {
            range: Range { min: Percentage::from(range.min), max: Percentage::from(range.max) },
            default: Percentage::from(info.default_limit()),
        }
    }
}

impl FromSpecImpl<PowerInfoEntry> for PowerLimit {
    open spec fn obeys_from_spec() -> bool {
        true
    }

    open spec fn from_spec(info: PowerInfoEntry) -> Self {
        spec_power_limit(info)
    }
}

/// The description of a sensor: its controller, target and default range.
pub open spec fn spec_sensor_desc(sensor: Sensor) -> SensorDesc {
    SensorDesc {
        controller: sensor.sys.controller,
        target: sensor.sys.target,
        range: Range { min: Celsius(sensor.sys.defaultMinTemp), max: Celsius(sensor.sys.defaultMaxTemp) },
    }
}

/// A thermal sensor: its controller, target and temperature range.
#[derive(Copy, Clone, Debug, PartialEq, Eq, Structural)]
pub struct SensorDesc {
    pub controller: i32,
    pub target: i32,
    pub range: Range<Celsius>,
}

impl From<Sensor> for SensorDesc {
    fn from(sensor: Sensor) -> (r: Self) {
        SensorDesc {
            controller: sensor.controller(),
            target: sensor.target(),
            range: sensor.default_temperature_range(),
        }
    }
}

impl FromSpecImpl<Sensor> for SensorDesc {
    open spec fn obeys_from_spec() -> bool {
        true
    }

    open spec fn from_spec(sensor: Sensor) -> Self {
        spec_sensor_desc(sensor)
    }
}

/// A point of the VF curve: default and configured frequency at a voltage.
#[derive(Copy, Clone, Debug, PartialEq, Eq, Structural)]
pub struct VfpPoint {
    pub default_frequency: Kilohertz,
    pub frequency: Kilohertz,
    pub voltage: Microvolts,
}

/// A point of the VF curve with the offset applied to it.
#[derive(Copy, Clone, Debug, PartialEq, Eq, Structural)]
pub struct VfPoint {
    pub voltage: Microvolts,
    pub frequency: Kilohertz,
    pub delta: KilohertzDelta,
    pub default_frequency: Kilohertz,
}

impl VfPoint {
    pub fn new(point: VfpPoint, delta: KilohertzDelta) -> (r: Self)
        ensures
            r.voltage == point.voltage,
            r.frequency == point.frequency,
            r.default_frequency == point.default_frequency,
            r.delta == delta,
    {
        VfPoint {
            voltage: point.voltage,
            frequency: point.frequency,
            default_frequency: point.default_frequency,
            delta,
        }
    }
}

/// The VF curve points of the graphics and memory clocks, by index.
#[derive(Clone, Debug)]
pub struct VfpTable {
    pub graphics: Vec<(usize, VfpPoint)>,
    pub memory: Vec<(usize, VfpPoint)>,
}

/// The VF curve offsets of the graphics and memory clocks, by index.
#[derive(Clone, Debug)]
pub struct VfpDeltas {
    pub graphics: Vec<(usize, KilohertzDelta)>,
    pub memory: Vec<(usize, KilohertzDelta)>,
}

/// The ECC facts of a GPU: whether it is on by default, and its status.
#[derive(Copy, Clone, Debug, PartialEq, Eq, Structural)]
pub struct EccInfo {
    pub enabled_by_default: bool,
    pub info: crate::ecc::EccStatus,
}

/// The ECC state of a GPU: whether it is on, and its error counts.
#[derive(Copy, Clone, Debug, PartialEq, Eq, Structural)]
pub struct EccStatus {
    pub enabled: bool,
    pub errors: EccErrors,
}


// ---------------------------------------------------------------------------
// Driver data as the summary, the state and the settings read it.

/// The points of a raw throttling curve: its leading enabled points, each with
/// its temperature (the raw word read as an `i32`) and its frequency.
pub open spec fn spec_pff_points(raw: NV_GPU_CLIENT_PFF_CURVE_V1) -> Seq<PffPoint> {
    Seq::new(enabled_prefix_len(raw.points@), |i: int| PffPoint {
        x: CelsiusShifted(raw.points@[i].temp as i32),
        y: Kilohertz(raw.points@[i].uiT_Y),
    })
}

/// The throttling curve of a raw curve (see `spec_pff_points`).
pub fn pff_curve_of(raw: &NV_GPU_CLIENT_PFF_CURVE_V1) -> (r: PffCurve)
    ensures
        r.points@ == spec_pff_points(*raw),
{
    let pts = raw.points();
    proof {
        lemma_enabled_prefix_len(raw.points@);
    }
    let mut points: Vec<PffPoint> = Vec::new();
    let mut i: usize = 0;
    while i < pts.len()
        invariant
            i <= pts@.len(),
            pts@ == raw.points@.subrange(0, enabled_prefix_len(raw.points@) as int),
            enabled_prefix_len(raw.points@) <= raw.points@.len(),
            points@ == spec_pff_points(*raw).subrange(0, i as int),
        decreases pts@.len() - i,
    {
        points.push(PffPoint { x: CelsiusShifted(pts[i].temp as i32), y: Kilohertz(pts[i].uiT_Y) });
        i += 1;
        assert(points@ =~= spec_pff_points(*raw).subrange(0, i as int));
    }
    assert(spec_pff_points(*raw).subrange(0, pts@.len() as int) =~= spec_pff_points(*raw));
    PffCurve { points }
}

/// The range a thermal policy's limit may be set in (shifted by 8 bits).
pub open spec fn spec_info_range(info: ThermalInfo) -> Range<CelsiusShifted> {
    match info {
        ThermalInfo::V3(v) => Range { min: CelsiusShifted(v.minTemp), max: CelsiusShifted(v.maxTemp) },
        ThermalInfo::V2(v) => Range { min: CelsiusShifted(v.minTemp), max: CelsiusShifted(v.maxTemp) },
    }
}

/// The default limit of a thermal policy (shifted by 8 bits).
pub open spec fn spec_info_default(info: ThermalInfo) -> CelsiusShifted {
    match info {
        ThermalInfo::V3(v) => CelsiusShifted(v.defaultTemp),
        ThermalInfo::V2(v) => CelsiusShifted(v.defaultTemp),
    }
}

/// The default flags of a thermal policy.
pub open spec fn spec_info_flags(info: ThermalInfo) -> u32 {
    match info {
        ThermalInfo::V3(v) => v.defaultFlags,
        ThermalInfo::V2(v) => v.defaultFlags,
    }
}

/// The raw default throttling curve of a thermal policy, where it has one.
pub open spec fn spec_info_pff(info: ThermalInfo) -> Option<NV_GPU_CLIENT_PFF_CURVE_V1> {
    match info {
        ThermalInfo::V3(v) => if v.flags == 1 { Some(v.pff_curve) } else { None },
        ThermalInfo::V2(..) => None,
    }
}

/// Whether `s` is the sensor limit of the thermal policy `info`: its range and
/// default in degrees, its flags, and its default curve.
pub open spec fn is_sensor_limit_of(s: SensorLimit, info: ThermalInfo) -> bool {
    &&& s.range == (Range { min: spec_unshift(spec_info_range(info).min), max: spec_unshift(spec_info_range(info).max) })
    &&& s.default == spec_unshift(spec_info_default(info))
    &&& s.flags == spec_info_flags(info)
    &&& match spec_info_pff(info) {
        None => s.throttle_curve is None,
        Some(raw) => s.throttle_curve matches Some(c) && c.points@ == spec_pff_points(raw),
    }
}

impl SensorLimit {
    /// The limits of a thermal policy (`SensorLimit::from(ThermalInfo)`).
    pub fn from_info(info: &ThermalInfo) -> (r: Self)
        ensures
            is_sensor_limit_of(r, *info),
    {
        let range = info.temperature_range();
        let default = info.default_temperature();
        SensorLimit {
            range: Range { min: Celsius(range.min.0 >> 8i32), max: Celsius(range.max.0 >> 8i32) },
            default: Celsius(default.0 >> 8i32),
            flags: info.default_flags(),
            throttle_curve: match info.pff_curve() {
                None => None,
                Some(raw) => Some(pff_curve_of(&raw)),
            },
        }
    }
}

/// Whether `out` holds the sensor limit of each thermal policy of `v`, in order.
pub open spec fn is_sensor_limits_of(out: Seq<SensorLimit>, v: Seq<ThermalInfo>) -> bool {
    &&& out.len() == v.len()
    &&& forall|i: int| 0 <= i < v.len() ==> is_sensor_limit_of(#[trigger] out[i], v[i])
}

/// The sensor limits of thermal policies, in order.
pub fn sensor_limits(v: &Vec<ThermalInfo>) -> (r: Vec<SensorLimit>)
    ensures
        is_sensor_limits_of(r@, v@),
{
    let mut out: Vec<SensorLimit> = Vec::new();
    let mut i: usize = 0;
    while i < v.len()
        invariant
            i <= v@.len(),
            is_sensor_limits_of(out@, v@.subrange(0, i as int)),
        decreases v@.len() - i,
    {
        let s = SensorLimit::from_info(&v[i]);
        out.push(s);
        i += 1;
        assert(is_sensor_limits_of(out@, v@.subrange(0, i as int)));
    }
    assert(v@.subrange(0, v@.len() as int) =~= v@);
    out
}

/// Whether `t` is the setting that the thermal limit `l` applies (see
/// `SensorThrottle::from_limit`).
pub open spec fn is_throttle_of(t: SensorThrottle, l: ThermalLimit) -> bool {
    &&& t.value == spec_unshift(l.value)
    &&& t.remove_tdp_limit == l.remove_tdp_limit
    &&& match l.pff {
        None => t.curve is None,
        Some(p) => t.curve matches Some(c) && c.points@ == spec_status_points(p.curve.points@, p.values@),
    }
}

/// Whether `out` holds the setting of each thermal limit of `v`, in order.
pub open spec fn is_throttles_of(out: Seq<SensorThrottle>, v: Seq<ThermalLimit>) -> bool {
    &&& out.len() == v.len()
    &&& forall|i: int| 0 <= i < v.len() ==> is_throttle_of(#[trigger] out[i], v[i])
}

/// The settings that thermal limits apply, in order.
pub fn sensor_throttles(v: &Vec<ThermalLimit>) -> (r: Vec<SensorThrottle>)
    ensures
        is_throttles_of(r@, v@),
{
    let mut out: Vec<SensorThrottle> = Vec::new();
    let mut i: usize = 0;
    while i < v.len()
        invariant
            i <= v@.len(),
            is_throttles_of(out@, v@.subrange(0, i as int)),
        decreases v@.len() - i,
    {
        let t = SensorThrottle::from_limit(&v[i]);
        out.push(t);
        i += 1;
        assert(is_throttles_of(out@, v@.subrange(0, i as int)));
    }
    assert(v@.subrange(0, v@.len() as int) =~= v@);
    out
}

/// The power target of a power policy in whole percent.
pub open spec fn spec_power_target(p: PowerPolicyStatus) -> Percentage {
    match p {
        PowerPolicyStatus::V2(e) => Percentage(e.power_target / 1000),
        PowerPolicyStatus::V1(e) => Percentage(e.power_target / 1000),
    }
}

/// The power targets of power policies in whole percent, in order.
pub fn power_targets(v: &Vec<PowerPolicyStatus>) -> (r: Vec<Percentage>)
    ensures
        r@ == v@.map_values(|p: PowerPolicyStatus| spec_power_target(p)),
{
    let mut out: Vec<Percentage> = Vec::new();
    let mut i: usize = 0;
    while i < v.len()
        invariant
            i <= v@.len(),
            out@ == v@.subrange(0, i as int).map_values(|p: PowerPolicyStatus| spec_power_target(p)),
        decreases v@.len() - i,
    {
        out.push(Percentage::from(v[i].power_target()));
        i += 1;
        assert(out@ =~= v@.subrange(0, i as int).map_values(|p: PowerPolicyStatus| spec_power_target(p)));
    }
    assert(v@.subrange(0, v@.len() as int) =~= v@);
    out
}

/// The point of the VF curve that an entry shows: the default frequency (0
/// where the entry has no default point), and the frequency and voltage of
/// the point in effect.
pub open spec fn spec_vfp_point(e: VfpEntry) -> VfpPoint {
    let configured = match spec_overclocked_point(e) {
        Some(p) => p,
        None => spec_entry_point(e),
    };
    let default = match e {
        VfpEntry::V3(v) => spec_some_point(v.point_default),
        VfpEntry::V1(..) => None,
    };
    VfpPoint {
        default_frequency: match default {
            Some(crate::clock::VfPoint::V1(p)) => Kilohertz(p.freq_kHz),
            None => Kilohertz(0),
        },
        frequency: match configured { crate::clock::VfPoint::V1(p) => Kilohertz(p.freq_kHz) },
        voltage: match configured { crate::clock::VfPoint::V1(p) => Microvolts(p.voltage_uV) },
    }
}

impl VfpPoint {
    /// The point that an entry of the VF curve shows (`VfpPoint::from(VfpEntry)`).
    pub fn from_entry(e: &VfpEntry) -> (r: Self)
        ensures
            r == spec_vfp_point(*e),
    {
        let configured = e.configured_point();
        VfpPoint {
            default_frequency: match e.default_point() {
                Some(p) => p.frequency(),
                None => Kilohertz(0),
            },
            frequency: configured.frequency(),
            voltage: configured.voltage(),
        }
    }
}

impl VfpRange {
    /// The range of a clock domain of the VF curve (`VfpRange::from(ClockRange)`).
    pub fn from_range(range: Range<KilohertzDelta>) -> (r: Self)
        ensures
            r == (VfpRange { range }),
    {
        VfpRange { range }
    }
}

/// The entries of the clock domain `domain` among entries grouped by domain:
/// those of the first group of that domain, none where there is none.
pub open spec fn spec_domain_points<T>(v: Seq<(i32, Vec<(usize, T)>)>, domain: i32) -> Seq<(usize, T)>
    decreases v.len(),
{
    if v.len() == 0 {
        Seq::empty()
    } else if v[0].0 == domain {
        v[0].1@
    } else {
        spec_domain_points(v.drop_first(), domain)
    }
}

/// Where the group of `domain` stands (see `spec_domain_points`).
fn find_domain<T>(v: &Vec<(i32, Vec<(usize, T)>)>, domain: i32) -> (r: Option<usize>)
    ensures
        match r {
            Some(i) => i < v@.len() && spec_domain_points(v@, domain) == v@[i as int].1@,
            None => spec_domain_points(v@, domain) == Seq::<(usize, T)>::empty(),
        },
{
    let mut i: usize = 0;
    assert(v@.subrange(0, v@.len() as int) =~= v@);
    while i < v.len()
        invariant
            i <= v@.len(),
            spec_domain_points(v@, domain) == spec_domain_points(v@.subrange(i as int, v@.len() as int), domain),
        decreases v@.len() - i,
    {
        let ghost rest = v@.subrange(i as int, v@.len() as int);
        assert(rest.drop_first() =~= v@.subrange(i as int + 1, v@.len() as int));
        assert(rest[0] == v@[i as int]);
        if v[i].0 == domain {
            return Some(i);
        }
        i += 1;
    }
    None
}

/// The VF curve points of entries, by index.
pub open spec fn spec_vfp_points(v: Seq<(usize, VfpEntry)>) -> Seq<(usize, VfpPoint)> {
    v.map_values(|p: (usize, VfpEntry)| (p.0, spec_vfp_point(p.1)))
}

fn vfp_points(v: &Vec<(usize, VfpEntry)>) -> (r: Vec<(usize, VfpPoint)>)
    ensures
        r@ == spec_vfp_points(v@),
{
    let mut out: Vec<(usize, VfpPoint)> = Vec::new();
    let mut i: usize = 0;
    while i < v.len()
        invariant
            i <= v@.len(),
            out@ == spec_vfp_points(v@.subrange(0, i as int)),
        decreases v@.len() - i,
    {
        out.push((v[i].0, VfpPoint::from_entry(&v[i].1)));
        i += 1;
        assert(out@ =~= spec_vfp_points(v@.subrange(0, i as int)));
    }
    assert(v@.subrange(0, v@.len() as int) =~= v@);
    out
}

fn copy_points<T: Copy>(v: &Vec<(usize, T)>) -> (r: Vec<(usize, T)>)
    ensures
        r@ == v@,
{
    let mut out: Vec<(usize, T)> = Vec::new();
    let mut i: usize = 0;
    while i < v.len()
        invariant
            i <= v@.len(),
            out@ == v@.subrange(0, i as int),
        decreases v@.len() - i,
    {
        out.push(v[i]);
        i += 1;
    }
    assert(v@.subrange(0, v@.len() as int) =~= v@);
    out
}

/// The VF curve as the driver reports it: the entries of each clock domain, by index.
pub type VfpCurvePoints = Vec<(i32, Vec<(usize, VfpEntry)>)>;

/// The VF curve offsets as the driver reports them: those of each clock domain, by index.
pub type VfpCurveDeltas = Vec<(i32, Vec<(usize, KilohertzDelta)>)>;

impl VfpTable {
    /// The graphics and memory points of a VF curve (`VfpTable::from(VfpCurve)`).
    pub fn from_curve(curve: &VfpCurvePoints) -> (r: Self)
        ensures
            r.graphics@ == spec_vfp_points(spec_domain_points(curve@, CLOCK_DOMAIN_GRAPHICS)),
            r.memory@ == spec_vfp_points(spec_domain_points(curve@, CLOCK_DOMAIN_MEMORY)),
    {
        let graphics = match find_domain(curve, CLOCK_DOMAIN_GRAPHICS) {
            Some(i) => vfp_points(&curve[i].1),
            None => Vec::new(),
        };
        let memory = match find_domain(curve, CLOCK_DOMAIN_MEMORY) {
            Some(i) => vfp_points(&curve[i].1),
            None => Vec::new(),
        };
        proof {
            assert(spec_vfp_points(Seq::<(usize, VfpEntry)>::empty()) =~= Seq::<(usize, VfpPoint)>::empty());
        }
        VfpTable { graphics, memory }
    }
}

impl VfpDeltas {
    /// The graphics and memory offsets of a VF curve (`VfpDeltas::from(ClockTable)`).
    pub fn from_table(table: &VfpCurveDeltas) -> (r: Self)
        ensures
            r.graphics@ == spec_domain_points(table@, CLOCK_DOMAIN_GRAPHICS),
            r.memory@ == spec_domain_points(table@, CLOCK_DOMAIN_MEMORY),
    {
        let graphics = match find_domain(table, CLOCK_DOMAIN_GRAPHICS) {
            Some(i) => copy_points(&table[i].1),
            None => Vec::new(),
        };
        let memory = match find_domain(table, CLOCK_DOMAIN_MEMORY) {
            Some(i) => copy_points(&table[i].1),
            None => Vec::new(),
        };
        VfpDeltas { graphics, memory }
    }
}

/// One clock of a performance state: its domain, whether it can be changed,
/// its frequency offset with the range the offset may take, and either a
/// range of frequencies with its voltage domain and voltages, or one frequency.
#[derive(Copy, Clone, Debug, PartialEq, Eq, Structural)]
pub enum ClockEntry {
    Range {
        domain: i32,
        editable: bool,
        frequency_delta: KilohertzDelta,
        delta_range: Range<KilohertzDelta>,
        frequency_range: Range<Kilohertz>,
        voltage_domain: i32,
        voltage_range: Range<Microvolts>,
    },
    Single {
        domain: i32,
        editable: bool,
        frequency_delta: KilohertzDelta,
        delta_range: Range<KilohertzDelta>,
        frequency: Kilohertz,
    },
}

/// The clock domain of an entry.
pub open spec fn spec_clock_domain(e: ClockEntry) -> i32 {
    match e {
        ClockEntry::Range { domain, .. } => domain,
        ClockEntry::Single { domain, .. } => domain,
    }
}

/// Whether an entry can be changed.
pub open spec fn spec_clock_editable(e: ClockEntry) -> bool {
    match e {
        ClockEntry::Range { editable, .. } => editable,
        ClockEntry::Single { editable, .. } => editable,
    }
}

/// The frequency offset of an entry.
pub open spec fn spec_clock_delta(e: ClockEntry) -> KilohertzDelta {
    match e {
        ClockEntry::Range { frequency_delta, .. } => frequency_delta,
        ClockEntry::Single { frequency_delta, .. } => frequency_delta,
    }
}

/// The limit of a clock entry (`PStateLimit::from(ClockEntry)`).
pub open spec fn spec_pstate_limit(e: ClockEntry) -> PStateLimit {
    match e {
        ClockEntry::Range { editable, delta_range, frequency_range, voltage_domain, voltage_range, .. } => PStateLimit {
            frequency_delta: if editable { Some(delta_range) } else { None },
            frequency: frequency_range,
            voltage: voltage_range,
            voltage_domain,
        },
        ClockEntry::Single { editable, delta_range, frequency, .. } => PStateLimit {
            frequency_delta: if editable { Some(delta_range) } else { None },
            frequency: Range { min: frequency, max: frequency },
            voltage: Range { min: Microvolts(0), max: Microvolts(0) },
            voltage_domain: VOLTAGE_DOMAIN_UNDEFINED,
        },
    }
}

impl ClockEntry {
    pub fn domain(&self) -> (r: i32)
        ensures
            r == spec_clock_domain(*self),
    {
        match self {
            ClockEntry::Range { domain, .. } => *domain,
            ClockEntry::Single { domain, .. } => *domain,
        }
    }

    pub fn editable(&self) -> (r: bool)
        ensures
            r == spec_clock_editable(*self),
    {
        match self {
            ClockEntry::Range { editable, .. } => *editable,
            ClockEntry::Single { editable, .. } => *editable,
        }
    }

    pub fn frequency_delta(&self) -> (r: KilohertzDelta)
        ensures
            r == spec_clock_delta(*self),
    {
        match self {
            ClockEntry::Range { frequency_delta, .. } => *frequency_delta,
            ClockEntry::Single { frequency_delta, .. } => *frequency_delta,
        }
    }
}

impl PStateLimit {
    /// The limit of a clock entry (see `spec_pstate_limit`).
    pub fn from_entry(e: ClockEntry) -> (r: Self)
        ensures
            r == spec_pstate_limit(e),
    {
        match e {
            ClockEntry::Range { domain: _, editable, frequency_delta: _, delta_range, frequency_range, voltage_domain, voltage_range } =>
                Self::from_range(editable, delta_range, frequency_range, voltage_domain, voltage_range),
            ClockEntry::Single { domain: _, editable, frequency_delta: _, delta_range, frequency } =>
                Self::from_single(editable, delta_range, frequency),
        }
    }
}

/// One base voltage of the performance states: its voltage domain, whether it
/// can be changed, its voltage, and its offset with the range it may take.
#[derive(Copy, Clone, Debug, PartialEq, Eq, Structural)]
pub struct BaseVoltage {
    pub domain: i32,
    pub editable: bool,
    pub voltage: Microvolts,
    pub voltage_delta: MicrovoltsDelta,
    pub delta_range: Range<MicrovoltsDelta>,
}

/// The limit of a base voltage (`OvervoltLimit::from(BaseVoltage)`).
pub open spec fn spec_overvolt_limit(v: BaseVoltage) -> OvervoltLimit {
    OvervoltLimit { domain: v.domain, voltage: v.voltage, range: if v.editable { Some(v.delta_range) } else { None } }
}

impl OvervoltLimit {
    /// The limit of a base voltage (see `spec_overvolt_limit`).
    pub fn from_base(v: BaseVoltage) -> (r: Self)
        ensures
            r == spec_overvolt_limit(v),
    {
        Self::from_base_voltage(v.domain, v.voltage, v.editable, v.delta_range)
    }
}

/// One performance state: its id, whether it can be changed, and its clocks.
#[derive(Clone, Debug)]
pub struct PStateEntry {
    pub id: i32,
    pub editable: bool,
    pub clocks: Vec<ClockEntry>,
}

/// Whether `out` holds, for every performance state of `ps` in order, its id
/// and the domain and limit of each of its clocks.
pub open spec fn is_pstate_limits(out: Seq<(i32, Vec<(i32, PStateLimit)>)>, ps: Seq<PStateEntry>) -> bool {
    &&& out.len() == ps.len()
    &&& forall|i: int| 0 <= i < out.len() ==> {
        &&& (#[trigger] out[i]).0 == ps[i].id
        &&& out[i].1@ == ps[i].clocks@.map_values(|c: ClockEntry| (spec_clock_domain(c), spec_pstate_limit(c)))
    }
}

fn clock_limits(cs: &Vec<ClockEntry>) -> (r: Vec<(i32, PStateLimit)>)
    ensures
        r@ == cs@.map_values(|c: ClockEntry| (spec_clock_domain(c), spec_pstate_limit(c))),
{
    let mut out: Vec<(i32, PStateLimit)> = Vec::new();
    let mut i: usize = 0;
    while i < cs.len()
        invariant
            i <= cs@.len(),
            out@ == cs@.subrange(0, i as int).map_values(|c: ClockEntry| (spec_clock_domain(c), spec_pstate_limit(c))),
        decreases cs@.len() - i,
    {
        out.push((cs[i].domain(), PStateLimit::from_entry(cs[i])));
        i += 1;
        assert(out@ =~= cs@.subrange(0, i as int).map_values(|c: ClockEntry| (spec_clock_domain(c), spec_pstate_limit(c))));
    }
    assert(cs@.subrange(0, cs@.len() as int) =~= cs@);
    out
}

/// The clock limits of every performance state, by state and clock domain.
pub fn pstate_limits(ps: &Vec<PStateEntry>) -> (r: Vec<(i32, Vec<(i32, PStateLimit)>)>)
    ensures
        is_pstate_limits(r@, ps@),
{
    let mut out: Vec<(i32, Vec<(i32, PStateLimit)>)> = Vec::new();
    let mut i: usize = 0;
    while i < ps.len()
        invariant
            i <= ps@.len(),
            is_pstate_limits(out@, ps@.subrange(0, i as int)),
        decreases ps@.len() - i,
    {
        let limits = clock_limits(&ps[i].clocks);
        out.push((ps[i].id, limits));
        i += 1;
        assert(is_pstate_limits(out@, ps@.subrange(0, i as int)));
    }
    assert(ps@.subrange(0, ps@.len() as int) =~= ps@);
    out
}

/// The limits of base voltages, in order.
pub fn overvolt_limits(vs: &Vec<BaseVoltage>) -> (r: Vec<OvervoltLimit>)
    ensures
        r@ == vs@.map_values(|v: BaseVoltage| spec_overvolt_limit(v)),
{
    let mut out: Vec<OvervoltLimit> = Vec::new();
    let mut i: usize = 0;
    while i < vs.len()
        invariant
            i <= vs@.len(),
            out@ == vs@.subrange(0, i as int).map_values(|v: BaseVoltage| spec_overvolt_limit(v)),
        decreases vs@.len() - i,
    {
        out.push(OvervoltLimit::from_base(vs[i]));
        i += 1;
        assert(out@ =~= vs@.subrange(0, i as int).map_values(|v: BaseVoltage| spec_overvolt_limit(v)));
    }
    assert(vs@.subrange(0, vs@.len() as int) =~= vs@);
    out
}

// ---------------------------------------------------------------------------
// The summary of a GPU.

/// The clock frequencies of one kind, as the driver reports them.
pub type ClockFrequencies = NvData<NV_GPU_CLOCK_FREQUENCIES_V1>;

/// What each query of a GPU answered, in the order the summary asks them;
/// identifiers of driver enums are raw values.
pub struct GpuInfoReplies {
    pub id: usize,
    /// The performance states and the base voltages.
    pub pstates: Result<(Vec<PStateEntry>, Vec<BaseVoltage>), Error>,
    pub full_name: Result<String, Error>,
    pub short_name: Result<String, Error>,
    pub vbios_version: Result<String, Error>,
    pub driver_model: Result<DriverModel, Error>,
    pub bus_info: Result<BusInfo, Error>,
    pub memory_info: Result<MemoryInfo, Error>,
    /// Whether ECC is on, and whether it is on by default.
    pub ecc_configuration: Result<(bool, bool), Error>,
    pub ecc_status: Result<crate::ecc::EccStatus, Error>,
    pub system_type: Result<i32, Error>,
    pub gpu_type: Result<i32, Error>,
    pub architecture: Result<ArchInfo, Error>,
    pub ram_type: Result<i32, Error>,
    pub ram_maker: Result<i32, Error>,
    pub ram_bus_width: Result<u32, Error>,
    pub ram_bank_count: Result<u32, Error>,
    pub ram_partition_count: Result<u32, Error>,
    pub foundry: Result<i32, Error>,
    pub core_count: Result<u32, Error>,
    pub shader_pipe_count: Result<u32, Error>,
    pub shader_sub_pipe_count: Result<u32, Error>,
    pub base_clocks: Result<ClockFrequencies, Error>,
    pub boost_clocks: Result<ClockFrequencies, Error>,
    pub thermal_settings: Result<Vec<Sensor>, Error>,
    /// The coolers, by cooler id.
    pub cooler_info: Result<Vec<(u32, CoolerInfo)>, Error>,
    pub perf_info: Result<PerfInfo, Error>,
    pub thermal_limit_info: Result<Vec<ThermalInfo>, Error>,
    pub power_limit_info: Result<Vec<PowerInfoEntry>, Error>,
    /// The ranges of the VF curve's offsets, by clock domain.
    pub vfp_ranges: Result<Vec<(i32, Range<KilohertzDelta>)>, Error>,
}

/// The summary of a GPU (`GpuInfo`).
pub struct GpuInfo {
    pub id: usize,
    pub name: String,
    pub codename: String,
    pub bios_version: String,
    pub driver_model: Option<DriverModel>,
    pub bus: BusInfo,
    pub memory: Option<MemoryInfo>,
    pub system_type: i32,
    pub gpu_type: i32,
    pub arch: ArchInfo,
    pub ram_type: i32,
    pub ram_maker: i32,
    pub ram_bus_width: u32,
    pub ram_bank_count: u32,
    pub ram_partition_count: u32,
    pub foundry: i32,
    pub core_count: u32,
    pub shader_pipe_count: u32,
    pub shader_sub_pipe_count: u32,
    pub ecc: EccInfo,
    pub base_clocks: ClockFrequencies,
    pub boost_clocks: ClockFrequencies,
    pub sensors: Vec<SensorDesc>,
    pub coolers: Vec<(u32, CoolerInfo)>,
    pub perf: PerfInfo,
    pub sensor_limits: Vec<SensorLimit>,
    pub power_limits: Vec<PowerLimit>,
    pub pstate_limits: Vec<(i32, Vec<(i32, PStateLimit)>)>,
    pub overvolt_limits: Vec<OvervoltLimit>,
    pub vfp_limits: Vec<(i32, VfpRange)>,
}

/// The failure of a query that must answer.
pub open spec fn required_error<T>(r: Result<T, Error>) -> Option<Error> {
    match r {
        Ok(_) => None,
        Err(e) => Some(e),
    }
}

/// The failure of a query that may be unavailable (see `allowable_error`).
pub open spec fn allowed_error<T>(r: Result<T, Error>) -> Option<Error> {
    match r {
        Ok(_) => None,
        Err(e) => allowable_error(e),
    }
}

/// The first failure among the performance states, the names, the BIOS
/// version, the driver model, the bus and the memory.
pub open spec fn info_error_a(r: GpuInfoReplies) -> Option<Error> {
    if allowed_error(r.pstates) is Some { allowed_error(r.pstates) }
    else if required_error(r.full_name) is Some { required_error(r.full_name) }
    else if required_error(r.short_name) is Some { required_error(r.short_name) }
    else if required_error(r.vbios_version) is Some { required_error(r.vbios_version) }
    else if allowed_error(r.driver_model) is Some { allowed_error(r.driver_model) }
    else if allowed_error(r.bus_info) is Some { allowed_error(r.bus_info) }
    else { allowed_error(r.memory_info) }
}

/// The first failure among the ECC state, the system and GPU kinds, the
/// architecture and the memory kind and maker.
pub open spec fn info_error_b(r: GpuInfoReplies) -> Option<Error> {
    if allowed_error(r.ecc_configuration) is Some { allowed_error(r.ecc_configuration) }
    else if allowed_error(r.ecc_status) is Some { allowed_error(r.ecc_status) }
    else if allowed_error(r.system_type) is Some { allowed_error(r.system_type) }
    else if allowed_error(r.gpu_type) is Some { allowed_error(r.gpu_type) }
    else if allowed_error(r.architecture) is Some { allowed_error(r.architecture) }
    else if allowed_error(r.ram_type) is Some { allowed_error(r.ram_type) }
    else { allowed_error(r.ram_maker) }
}

/// The first failure among the memory bus and its counts, the foundry and the
/// core and shader counts.
pub open spec fn info_error_c(r: GpuInfoReplies) -> Option<Error> {
    if allowed_error(r.ram_bus_width) is Some { allowed_error(r.ram_bus_width) }
    else if allowed_error(r.ram_bank_count) is Some { allowed_error(r.ram_bank_count) }
    else if allowed_error(r.ram_partition_count) is Some { allowed_error(r.ram_partition_count) }
    else if allowed_error(r.foundry) is Some { allowed_error(r.foundry) }
    else if required_error(r.core_count) is Some { required_error(r.core_count) }
    else if required_error(r.shader_pipe_count) is Some { required_error(r.shader_pipe_count) }
    else { required_error(r.shader_sub_pipe_count) }
}

/// The first failure among the clocks, the sensors, the coolers, the
/// performance limits, the thermal and power limits and the VF curve ranges.
pub open spec fn info_error_d(r: GpuInfoReplies) -> Option<Error> {
    if required_error(r.base_clocks) is Some { required_error(r.base_clocks) }
    else if required_error(r.boost_clocks) is Some { required_error(r.boost_clocks) }
    else if allowed_error(r.thermal_settings) is Some { allowed_error(r.thermal_settings) }
    else if allowed_error(r.cooler_info) is Some { allowed_error(r.cooler_info) }
    else if required_error(r.perf_info) is Some { required_error(r.perf_info) }
    else if allowed_error(r.thermal_limit_info) is Some { allowed_error(r.thermal_limit_info) }
    else if allowed_error(r.power_limit_info) is Some { allowed_error(r.power_limit_info) }
    else { allowed_error(r.vfp_ranges) }
}

/// The first failure of the summary's queries, in the order it asks them (the
/// order of the four groups above, and within each). Queries that may be
/// unavailable fail only with an error that is not one of unavailability.
pub open spec fn spec_gpu_info_error(r: GpuInfoReplies) -> Option<Error> {
    if info_error_a(r) is Some { info_error_a(r) }
    else if info_error_b(r) is Some { info_error_b(r) }
    else if info_error_c(r) is Some { info_error_c(r) }
    else { info_error_d(r) }
}

/// A value, or `fallback` where the query was unavailable.
pub open spec fn or_fallback<T>(r: Result<T, Error>, fallback: T) -> T {
    match r {
        Ok(v) => v,
        Err(_) => fallback,
    }
}

/// The bus of a GPU whose bus query was unavailable.
pub open spec fn unknown_bus() -> BusInfo {
    BusInfo { id: 0, slot_id: 0, irq: 0, bus: Bus::Other(0) }
}

/// The architecture of a GPU whose architecture query was unavailable: the
/// newest version of the struct, all zero.
pub open spec fn unknown_arch() -> ArchInfo {
    ArchInfo::V1(NV_GPU_ARCH_INFO_V1 { version: NvVersion { data: 0 }, architecture: 0, implementation: 0, revision: 0 })
}

/// The ECC status of a GPU whose ECC status query was unavailable: all zero.
pub open spec fn unknown_ecc_status() -> crate::ecc::EccStatus {
    crate::ecc::EccStatus::V1(NV_GPU_ECC_STATUS_INFO {
        version: NvVersion { data: 0 }, isSupported: BoolU32(0), configurationOptions: 0, isEnabled: BoolU32(0),
    })
}

fn allowed<T>(r: Result<T, Error>) -> (out: Result<Option<T>, Error>)
    ensures
        match out {
            Ok(o) => allowed_error(r) is None && o == (match r { Ok(v) => Some(v), Err(_) => None::<T> }),
            Err(e) => allowed_error(r) == Some(e),
        },
{
    Error::allowable_result(r)
}

fn required<T>(r: Result<T, Error>) -> (out: Result<T, Error>)
    ensures
        match out {
            Ok(v) => required_error(r) is None && r == Ok::<T, Error>(v),
            Err(e) => required_error(r) == Some(e),
        },
{
    r
}

/// The summary of a GPU from its queries' answers (`Gpu::info`): the first
/// failure in the order of `spec_gpu_info_error`, else each value, with an
/// unavailable optional value left out, an unavailable value with a fallback
/// replaced by it, and an unavailable list empty.
pub fn gpu_info(replies: GpuInfoReplies) -> (r: Result<GpuInfo, Error>)
    ensures
        match r {
            Err(e) => spec_gpu_info_error(replies) == Some(e),
            Ok(g) => {
                &&& spec_gpu_info_error(replies) is None
                &&& g.id == replies.id
                &&& g.name == replies.full_name->Ok_0
                &&& g.codename == replies.short_name->Ok_0
                &&& g.bios_version == replies.vbios_version->Ok_0
                &&& g.driver_model == (match replies.driver_model { Ok(v) => Some(v), Err(_) => None })
                &&& g.bus == or_fallback(replies.bus_info, unknown_bus())
                &&& g.memory == (match replies.memory_info { Ok(v) => Some(v), Err(_) => None })
                &&& g.ecc.enabled_by_default == (match replies.ecc_configuration { Ok(c) => c.1, Err(_) => false })
                &&& g.ecc.info == or_fallback(replies.ecc_status, unknown_ecc_status())
                &&& g.system_type == or_fallback(replies.system_type, 0)
                &&& g.gpu_type == or_fallback(replies.gpu_type, 0)
                &&& g.arch == or_fallback(replies.architecture, unknown_arch())
                &&& g.ram_type == or_fallback(replies.ram_type, 0)
                &&& g.ram_maker == or_fallback(replies.ram_maker, 0)
                &&& g.ram_bus_width == or_fallback(replies.ram_bus_width, 0)
                &&& g.ram_bank_count == or_fallback(replies.ram_bank_count, 0)
                &&& g.ram_partition_count == or_fallback(replies.ram_partition_count, 0)
                &&& g.foundry == or_fallback(replies.foundry, 0)
                &&& g.core_count == replies.core_count->Ok_0
                &&& g.shader_pipe_count == replies.shader_pipe_count->Ok_0
                &&& g.shader_sub_pipe_count == replies.shader_sub_pipe_count->Ok_0
                &&& g.base_clocks == replies.base_clocks->Ok_0
                &&& g.boost_clocks == replies.boost_clocks->Ok_0
                &&& g.sensors@ == (match replies.thermal_settings {
                        Ok(v) => v@.map_values(|s: Sensor| spec_sensor_desc(s)),
                        Err(_) => Seq::empty(),
                    })
                &&& g.coolers@ == (match replies.cooler_info { Ok(v) => v@, Err(_) => Seq::empty() })
                &&& g.perf == replies.perf_info->Ok_0
                &&& is_sensor_limits_of(g.sensor_limits@, match replies.thermal_limit_info { Ok(v) => v@, Err(_) => Seq::empty() })
                &&& g.power_limits@ == (match replies.power_limit_info {
                        Ok(v) => v@.map_values(|i: PowerInfoEntry| spec_power_limit(i)),
                        Err(_) => Seq::empty(),
                    })
                &&& is_pstate_limits(g.pstate_limits@, match replies.pstates { Ok(p) => p.0@, Err(_) => Seq::empty() })
                &&& g.overvolt_limits@ == (match replies.pstates {
                        Ok(p) => p.1@.map_values(|v: BaseVoltage| spec_overvolt_limit(v)),
                        Err(_) => Seq::empty(),
                    })
                &&& g.vfp_limits@ == (match replies.vfp_ranges {
                        Ok(v) => v@.map_values(|p: (i32, Range<KilohertzDelta>)| (p.0, VfpRange { range: p.1 })),
                        Err(_) => Seq::empty(),
                    })
            },
        },
{
    let ghost rp = replies;
    let GpuInfoReplies {
        id, pstates, full_name, short_name, vbios_version, driver_model, bus_info, memory_info,
        ecc_configuration, ecc_status, system_type, gpu_type, architecture, ram_type, ram_maker,
        ram_bus_width, ram_bank_count, ram_partition_count, foundry, core_count, shader_pipe_count,
        shader_sub_pipe_count, base_clocks, boost_clocks, thermal_settings, cooler_info, perf_info,
        thermal_limit_info, power_limit_info, vfp_ranges,
    } = replies;
    let a = match info_part_a(pstates, full_name, short_name, vbios_version, driver_model, bus_info, memory_info) {
        Ok(a) => a,
        Err(e) => { return Err(e); },
    };
    let b = match info_part_b(ecc_configuration, ecc_status, system_type, gpu_type, architecture, ram_type, ram_maker) {
        Ok(b) => b,
        Err(e) => { return Err(e); },
    };
    let c = match info_part_c(ram_bus_width, ram_bank_count, ram_partition_count, foundry, core_count, shader_pipe_count, shader_sub_pipe_count) {
        Ok(c) => c,
        Err(e) => { return Err(e); },
    };
    let d = match info_part_d(base_clocks, boost_clocks, thermal_settings, cooler_info, perf_info, thermal_limit_info, power_limit_info, vfp_ranges) {
        Ok(d) => d,
        Err(e) => { return Err(e); },
    };
    Ok(GpuInfo {
        id, name: a.name, codename: a.codename, bios_version: a.bios_version, driver_model: a.driver_model,
        bus: a.bus, memory: a.memory, system_type: b.system_type, gpu_type: b.gpu_type, arch: b.arch,
        ram_type: b.ram_type, ram_maker: b.ram_maker, ram_bus_width: c.ram_bus_width,
        ram_bank_count: c.ram_bank_count, ram_partition_count: c.ram_partition_count, foundry: c.foundry,
        core_count: c.core_count, shader_pipe_count: c.shader_pipe_count, shader_sub_pipe_count: c.shader_sub_pipe_count,
        ecc: EccInfo { enabled_by_default: b.enabled_by_default, info: b.ecc_info },
        base_clocks: d.base_clocks, boost_clocks: d.boost_clocks, sensors: d.sensors, coolers: d.coolers,
        perf: d.perf, sensor_limits: d.sensor_limits, power_limits: d.power_limits,
        pstate_limits: a.pstate_limits, overvolt_limits: a.overvolt_limits, vfp_limits: d.vfp_limits,
    })
}

struct InfoA {
    pstate_limits: Vec<(i32, Vec<(i32, PStateLimit)>)>,
    overvolt_limits: Vec<OvervoltLimit>,
    name: String,
    codename: String,
    bios_version: String,
    driver_model: Option<DriverModel>,
    bus: BusInfo,
    memory: Option<MemoryInfo>,
}

fn info_part_a(
    pstates: Result<(Vec<PStateEntry>, Vec<BaseVoltage>), Error>,
    full_name: Result<String, Error>,
    short_name: Result<String, Error>,
    vbios_version: Result<String, Error>,
    driver_model: Result<DriverModel, Error>,
    bus_info: Result<BusInfo, Error>,
    memory_info: Result<MemoryInfo, Error>,
) -> (r: Result<InfoA, Error>)
    ensures
        ({
            let err = if allowed_error(pstates) is Some { allowed_error(pstates) }
                else if required_error(full_name) is Some { required_error(full_name) }
                else if required_error(short_name) is Some { required_error(short_name) }
                else if required_error(vbios_version) is Some { required_error(vbios_version) }
                else if allowed_error(driver_model) is Some { allowed_error(driver_model) }
                else if allowed_error(bus_info) is Some { allowed_error(bus_info) }
                else { allowed_error(memory_info) };
            match r {
                Err(e) => err == Some(e),
                Ok(a) => err is None
                    && a.name == full_name->Ok_0 && a.codename == short_name->Ok_0 && a.bios_version == vbios_version->Ok_0
                    && a.driver_model == (match driver_model { Ok(v) => Some(v), Err(_) => None })
                    && a.bus == or_fallback(bus_info, unknown_bus())
                    && a.memory == (match memory_info { Ok(v) => Some(v), Err(_) => None })
                    && is_pstate_limits(a.pstate_limits@, match pstates { Ok(p) => p.0@, Err(_) => Seq::empty() })
                    && a.overvolt_limits@ == (match pstates {
                        Ok(p) => p.1@.map_values(|v: BaseVoltage| spec_overvolt_limit(v)),
                        Err(_) => Seq::empty(),
                    }),
            }
        }),
{
    let (ps, ov) = match allowed(pstates) {
        Ok(Some(p)) => p,
        Ok(None) => (Vec::new(), Vec::new()),
        Err(e) => { return Err(e); },
    };
    let pstate_limits = pstate_limits(&ps);
    let overvolt_limits = overvolt_limits(&ov);
    let name = match required(full_name) { Ok(v) => v, Err(e) => { return Err(e); } };
    let codename = match required(short_name) { Ok(v) => v, Err(e) => { return Err(e); } };
    let bios_version = match required(vbios_version) { Ok(v) => v, Err(e) => { return Err(e); } };
    let driver_model = match allowed(driver_model) { Ok(v) => v, Err(e) => { return Err(e); } };
    let bus = match allowed(bus_info) {
        Ok(Some(v)) => v,
        Ok(None) => BusInfo { id: 0, slot_id: 0, irq: 0, bus: Bus::Other(0) },
        Err(e) => { return Err(e); },
    };
    let memory = match allowed(memory_info) { Ok(v) => v, Err(e) => { return Err(e); } };
    Ok(InfoA { pstate_limits, overvolt_limits, name, codename, bios_version, driver_model, bus, memory })
}

struct InfoB {
    enabled_by_default: bool,
    ecc_info: crate::ecc::EccStatus,
    system_type: i32,
    gpu_type: i32,
    arch: ArchInfo,
    ram_type: i32,
    ram_maker: i32,
}

fn info_part_b(
    ecc_configuration: Result<(bool, bool), Error>,
    ecc_status: Result<crate::ecc::EccStatus, Error>,
    system_type: Result<i32, Error>,
    gpu_type: Result<i32, Error>,
    architecture: Result<ArchInfo, Error>,
    ram_type: Result<i32, Error>,
    ram_maker: Result<i32, Error>,
) -> (r: Result<InfoB, Error>)
    ensures
        ({
            let err = if allowed_error(ecc_configuration) is Some { allowed_error(ecc_configuration) }
                else if allowed_error(ecc_status) is Some { allowed_error(ecc_status) }
                else if allowed_error(system_type) is Some { allowed_error(system_type) }
                else if allowed_error(gpu_type) is Some { allowed_error(gpu_type) }
                else if allowed_error(architecture) is Some { allowed_error(architecture) }
                else if allowed_error(ram_type) is Some { allowed_error(ram_type) }
                else { allowed_error(ram_maker) };
            match r {
                Err(e) => err == Some(e),
                Ok(b) => err is None
                    && b.enabled_by_default == (match ecc_configuration { Ok(c) => c.1, Err(_) => false })
                    && b.ecc_info == or_fallback(ecc_status, unknown_ecc_status())
                    && b.system_type == or_fallback(system_type, 0)
                    && b.gpu_type == or_fallback(gpu_type, 0)
                    && b.arch == or_fallback(architecture, unknown_arch())
                    && b.ram_type == or_fallback(ram_type, 0)
                    && b.ram_maker == or_fallback(ram_maker, 0),
            }
        }),
{
    let enabled_by_default = match allowed(ecc_configuration) {
        Ok(Some(c)) => c.1,
        Ok(None) => false,
        Err(e) => { return Err(e); },
    };
    let ecc_info = match allowed(ecc_status) {
        Ok(Some(v)) => v,
        Ok(None) => crate::ecc::EccStatus::V1(NV_GPU_ECC_STATUS_INFO {
            version: NvVersion { data: 0 }, isSupported: BoolU32(0), configurationOptions: 0, isEnabled: BoolU32(0),
        }),
        Err(e) => { return Err(e); },
    };
    let system_type = match allowed(system_type) { Ok(Some(v)) => v, Ok(None) => 0, Err(e) => { return Err(e); } };
    let gpu_type = match allowed(gpu_type) { Ok(Some(v)) => v, Ok(None) => 0, Err(e) => { return Err(e); } };
    let arch = match allowed(architecture) {
        Ok(Some(v)) => v,
        Ok(None) => ArchInfo::V1(NV_GPU_ARCH_INFO_V1 { version: NvVersion { data: 0 }, architecture: 0, implementation: 0, revision: 0 }),
        Err(e) => { return Err(e); },
    };
    let ram_type = match allowed(ram_type) { Ok(Some(v)) => v, Ok(None) => 0, Err(e) => { return Err(e); } };
    let ram_maker = match allowed(ram_maker) { Ok(Some(v)) => v, Ok(None) => 0, Err(e) => { return Err(e); } };
    Ok(InfoB { enabled_by_default, ecc_info, system_type, gpu_type, arch, ram_type, ram_maker })
}

struct InfoC {
    ram_bus_width: u32,
    ram_bank_count: u32,
    ram_partition_count: u32,
    foundry: i32,
    core_count: u32,
    shader_pipe_count: u32,
    shader_sub_pipe_count: u32,
}

fn info_part_c(
    ram_bus_width: Result<u32, Error>,
    ram_bank_count: Result<u32, Error>,
    ram_partition_count: Result<u32, Error>,
    foundry: Result<i32, Error>,
    core_count: Result<u32, Error>,
    shader_pipe_count: Result<u32, Error>,
    shader_sub_pipe_count: Result<u32, Error>,
) -> (r: Result<InfoC, Error>)
    ensures
        ({
            let err = if allowed_error(ram_bus_width) is Some { allowed_error(ram_bus_width) }
                else if allowed_error(ram_bank_count) is Some { allowed_error(ram_bank_count) }
                else if allowed_error(ram_partition_count) is Some { allowed_error(ram_partition_count) }
                else if allowed_error(foundry) is Some { allowed_error(foundry) }
                else if required_error(core_count) is Some { required_error(core_count) }
                else if required_error(shader_pipe_count) is Some { required_error(shader_pipe_count) }
                else { required_error(shader_sub_pipe_count) };
            match r {
                Err(e) => err == Some(e),
                Ok(c) => err is None
                    && c.ram_bus_width == or_fallback(ram_bus_width, 0)
                    && c.ram_bank_count == or_fallback(ram_bank_count, 0)
                    && c.ram_partition_count == or_fallback(ram_partition_count, 0)
                    && c.foundry == or_fallback(foundry, 0)
                    && c.core_count == core_count->Ok_0
                    && c.shader_pipe_count == shader_pipe_count->Ok_0
                    && c.shader_sub_pipe_count == shader_sub_pipe_count->Ok_0,
            }
        }),
{
    let ram_bus_width = match allowed(ram_bus_width) { Ok(Some(v)) => v, Ok(None) => 0, Err(e) => { return Err(e); } };
    let ram_bank_count = match allowed(ram_bank_count) { Ok(Some(v)) => v, Ok(None) => 0, Err(e) => { return Err(e); } };
    let ram_partition_count = match allowed(ram_partition_count) { Ok(Some(v)) => v, Ok(None) => 0, Err(e) => { return Err(e); } };
    let foundry = match allowed(foundry) { Ok(Some(v)) => v, Ok(None) => 0, Err(e) => { return Err(e); } };
    let core_count = match required(core_count) { Ok(v) => v, Err(e) => { return Err(e); } };
    let shader_pipe_count = match required(shader_pipe_count) { Ok(v) => v, Err(e) => { return Err(e); } };
    let shader_sub_pipe_count = match required(shader_sub_pipe_count) { Ok(v) => v, Err(e) => { return Err(e); } };
    Ok(InfoC { ram_bus_width, ram_bank_count, ram_partition_count, foundry, core_count, shader_pipe_count, shader_sub_pipe_count })
}

struct InfoD {
    base_clocks: ClockFrequencies,
    boost_clocks: ClockFrequencies,
    sensors: Vec<SensorDesc>,
    coolers: Vec<(u32, CoolerInfo)>,
    perf: PerfInfo,
    sensor_limits: Vec<SensorLimit>,
    power_limits: Vec<PowerLimit>,
    vfp_limits: Vec<(i32, VfpRange)>,
}

fn info_part_d(
    base_clocks: Result<ClockFrequencies, Error>,
    boost_clocks: Result<ClockFrequencies, Error>,
    thermal_settings: Result<Vec<Sensor>, Error>,
    cooler_info: Result<Vec<(u32, CoolerInfo)>, Error>,
    perf_info: Result<PerfInfo, Error>,
    thermal_limit_info: Result<Vec<ThermalInfo>, Error>,
    power_limit_info: Result<Vec<PowerInfoEntry>, Error>,
    vfp_ranges: Result<Vec<(i32, Range<KilohertzDelta>)>, Error>,
) -> (r: Result<InfoD, Error>)
    ensures
        ({
            let err = if required_error(base_clocks) is Some { required_error(base_clocks) }
                else if required_error(boost_clocks) is Some { required_error(boost_clocks) }
                else if allowed_error(thermal_settings) is Some { allowed_error(thermal_settings) }
                else if allowed_error(cooler_info) is Some { allowed_error(cooler_info) }
                else if required_error(perf_info) is Some { required_error(perf_info) }
                else if allowed_error(thermal_limit_info) is Some { allowed_error(thermal_limit_info) }
                else if allowed_error(power_limit_info) is Some { allowed_error(power_limit_info) }
                else { allowed_error(vfp_ranges) };
            match r {
                Err(e) => err == Some(e),
                Ok(d) => err is None
                    && d.base_clocks == base_clocks->Ok_0
                    && d.boost_clocks == boost_clocks->Ok_0
                    && d.sensors@ == (match thermal_settings {
                        Ok(v) => v@.map_values(|s: Sensor| spec_sensor_desc(s)),
                        Err(_) => Seq::empty(),
                    })
                    && d.coolers@ == (match cooler_info { Ok(v) => v@, Err(_) => Seq::empty() })
                    && d.perf == perf_info->Ok_0
                    && is_sensor_limits_of(d.sensor_limits@, match thermal_limit_info { Ok(v) => v@, Err(_) => Seq::empty() })
                    && d.power_limits@ == (match power_limit_info {
                        Ok(v) => v@.map_values(|i: PowerInfoEntry| spec_power_limit(i)),
                        Err(_) => Seq::empty(),
                    })
                    && d.vfp_limits@ == (match vfp_ranges {
                        Ok(v) => v@.map_values(|p: (i32, Range<KilohertzDelta>)| (p.0, VfpRange { range: p.1 })),
                        Err(_) => Seq::empty(),
                    }),
            }
        }),
{
    let base_clocks = match required(base_clocks) { Ok(v) => v, Err(e) => { return Err(e); } };
    let boost_clocks = match required(boost_clocks) { Ok(v) => v, Err(e) => { return Err(e); } };
    let sensors = match allowed(thermal_settings) {
        Ok(Some(v)) => sensor_descs(&v),
        Ok(None) => Vec::new(),
        Err(e) => { return Err(e); },
    };
    let coolers = match allowed(cooler_info) { Ok(Some(v)) => v, Ok(None) => Vec::new(), Err(e) => { return Err(e); } };
    let perf = match required(perf_info) { Ok(v) => v, Err(e) => { return Err(e); } };
    let sensor_limits = match allowed(thermal_limit_info) {
        Ok(Some(v)) => sensor_limits(&v),
        Ok(None) => Vec::new(),
        Err(e) => { return Err(e); },
    };
    let power_limits = match allowed(power_limit_info) {
        Ok(Some(v)) => power_limits(&v),
        Ok(None) => Vec::new(),
        Err(e) => { return Err(e); },
    };
    let vfp_limits = match allowed(vfp_ranges) {
        Ok(Some(v)) => vfp_limits(&v),
        Ok(None) => Vec::new(),
        Err(e) => { return Err(e); },
    };
    Ok(InfoD { base_clocks, boost_clocks, sensors, coolers, perf, sensor_limits, power_limits, vfp_limits })
}

/// The range of each clock domain of the VF curve, in order.
pub fn vfp_limits(v: &Vec<(i32, Range<KilohertzDelta>)>) -> (r: Vec<(i32, VfpRange)>)
    ensures
        r@ == v@.map_values(|p: (i32, Range<KilohertzDelta>)| (p.0, VfpRange { range: p.1 })),
{
    let mut out: Vec<(i32, VfpRange)> = Vec::new();
    let mut i: usize = 0;
    while i < v.len()
        invariant
            i <= v@.len(),
            out@ == v@.subrange(0, i as int).map_values(|p: (i32, Range<KilohertzDelta>)| (p.0, VfpRange { range: p.1 })),
        decreases v@.len() - i,
    {
        out.push((v[i].0, VfpRange::from_range(v[i].1)));
        i += 1;
        assert(out@ =~= v@.subrange(0, i as int).map_values(|p: (i32, Range<KilohertzDelta>)| (p.0, VfpRange { range: p.1 })));
    }
    assert(v@.subrange(0, v@.len() as int) =~= v@);
    out
}

/// The descriptions of sensors, in order.
pub fn sensor_descs(v: &Vec<Sensor>) -> (r: Vec<SensorDesc>)
    ensures
        r@ == v@.map_values(|s: Sensor| spec_sensor_desc(s)),
{
    let mut out: Vec<SensorDesc> = Vec::new();
    let mut i: usize = 0;
    while i < v.len()
        invariant
            i <= v@.len(),
            out@ == v@.subrange(0, i as int).map_values(|s: Sensor| spec_sensor_desc(s)),
        decreases v@.len() - i,
    {
        out.push(SensorDesc::from(v[i]));
        i += 1;
        assert(out@ =~= v@.subrange(0, i as int).map_values(|s: Sensor| spec_sensor_desc(s)));
    }
    assert(v@.subrange(0, v@.len() as int) =~= v@);
    out
}

/// The power limits of power policies, in order.
pub fn power_limits(v: &Vec<PowerInfoEntry>) -> (r: Vec<PowerLimit>)
    ensures
        r@ == v@.map_values(|i: PowerInfoEntry| spec_power_limit(i)),
{
    let mut out: Vec<PowerLimit> = Vec::new();
    let mut i: usize = 0;
    while i < v.len()
        invariant
            i <= v@.len(),
            out@ == v@.subrange(0, i as int).map_values(|e: PowerInfoEntry| spec_power_limit(e)),
        decreases v@.len() - i,
    {
        out.push(PowerLimit::from(v[i]));
        i += 1;
        assert(out@ =~= v@.subrange(0, i as int).map_values(|e: PowerInfoEntry| spec_power_limit(e)));
    }
    assert(v@.subrange(0, v@.len() as int) =~= v@);
    out
}

// ---------------------------------------------------------------------------
// The state of a GPU.

/// What each query of a GPU's state answered; identifiers of driver enums are
/// raw values.
pub struct GpuStatusReplies {
    /// Whether the VF curve can be described (its description query).
    pub vfp_info: Result<(), Error>,
    pub current_pstate: Result<i32, Error>,
    pub clocks: Result<ClockFrequencies, Error>,
    pub memory_info: Result<MemoryInfo, Error>,
    pub bus_type: Result<i32, Error>,
    /// The PCIe lane count (asked only of a PCIe bus).
    pub pcie_lanes: Result<u32, Error>,
    pub ecc_configuration: Result<(bool, bool), Error>,
    pub ecc_errors: Result<EccErrors, Error>,
    pub core_voltage: Result<Microvolts, Error>,
    pub voltage_domains: Result<VoltageStatus, Error>,
    pub voltage_step: Result<VoltageStatus, Error>,
    pub voltage_table: Result<VoltageTable, Error>,
    pub tachometer: Result<u32, Error>,
    /// The utilization, by domain.
    pub utilization: Result<Vec<(i32, Percentage)>, Error>,
    /// The power use, by channel.
    pub power: Result<Vec<(i32, Percentage)>, Error>,
    pub thermal_settings: Result<Vec<Sensor>, Error>,
    /// The coolers' status, by cooler id.
    pub cooler_status: Result<Vec<(u32, CoolerStatus)>, Error>,
    pub perf_status: Result<PerfStatus, Error>,
    /// The VF curve (asked only where it can be described).
    pub vfp_curve: Result<VfpCurvePoints, Error>,
    pub vfp_locks: Result<Vec<ClockLockEntry>, Error>,
}

/// The state of a GPU (`GpuStatus`).
pub struct GpuStatus {
    pub pstate: i32,
    pub clocks: ClockFrequencies,
    pub memory: Option<MemoryInfo>,
    pub pcie_lanes: Option<u32>,
    pub ecc: EccStatus,
    pub voltage: Option<Microvolts>,
    pub voltage_domains: Option<VoltageStatus>,
    pub voltage_step: Option<VoltageStatus>,
    pub voltage_table: Option<VoltageTable>,
    pub tachometer: Option<u32>,
    pub utilization: Vec<(i32, Percentage)>,
    pub power: Vec<(i32, Percentage)>,
    pub sensors: Vec<(SensorDesc, Celsius)>,
    pub coolers: Vec<(u32, CoolerStatus)>,
    pub perf: PerfStatus,
    pub vfp: Option<VfpTable>,
    /// The locks that hold a value, by limit id, with that value.
    pub vfp_locks: Vec<(i32, u32)>,
}

/// Whether a bus type is PCIe.
pub open spec fn is_pcie(bus_type: Result<i32, Error>) -> bool {
    bus_type == Ok::<i32, Error>(crate::gpu::NVAPI_GPU_BUS_TYPE_PCI_EXPRESS)
}

/// The first failure among the VF curve description, the performance state,
/// the clocks, the memory, the PCIe lanes (of a PCIe bus), the ECC state and
/// the voltages.
pub open spec fn status_error_a(r: GpuStatusReplies) -> Option<Error> {
    if allowed_error(r.vfp_info) is Some { allowed_error(r.vfp_info) }
    else if required_error(r.current_pstate) is Some { required_error(r.current_pstate) }
    else if required_error(r.clocks) is Some { required_error(r.clocks) }
    else if allowed_error(r.memory_info) is Some { allowed_error(r.memory_info) }
    else if is_pcie(r.bus_type) && allowed_error(r.pcie_lanes) is Some { allowed_error(r.pcie_lanes) }
    else if allowed_error(r.ecc_configuration) is Some { allowed_error(r.ecc_configuration) }
    else if allowed_error(r.ecc_errors) is Some { allowed_error(r.ecc_errors) }
    else if allowed_error(r.core_voltage) is Some { allowed_error(r.core_voltage) }
    else if allowed_error(r.voltage_domains) is Some { allowed_error(r.voltage_domains) }
    else { allowed_error(r.voltage_step) }
}

/// The first failure among the voltage table, the tachometer, the
/// utilization, the power use, the sensors, the coolers, the performance
/// limits, the VF curve (where it can be described) and the clock locks.
pub open spec fn status_error_b(r: GpuStatusReplies) -> Option<Error> {
    if allowed_error(r.voltage_table) is Some { allowed_error(r.voltage_table) }
    else if allowed_error(r.tachometer) is Some { allowed_error(r.tachometer) }
    else if required_error(r.utilization) is Some { required_error(r.utilization) }
    else if required_error(r.power) is Some { required_error(r.power) }
    else if allowed_error(r.thermal_settings) is Some { allowed_error(r.thermal_settings) }
    else if allowed_error(r.cooler_status) is Some { allowed_error(r.cooler_status) }
    else if required_error(r.perf_status) is Some { required_error(r.perf_status) }
    else if r.vfp_info is Ok && allowed_error(r.vfp_curve) is Some { allowed_error(r.vfp_curve) }
    else { allowed_error(r.vfp_locks) }
}

/// The first failure of the state's queries, in the order it asks them.
pub open spec fn spec_gpu_status_error(r: GpuStatusReplies) -> Option<Error> {
    if status_error_a(r) is Some { status_error_a(r) } else { status_error_b(r) }
}

/// An optional value: the answer, none where the query was unavailable.
pub open spec fn optional<T>(r: Result<T, Error>) -> Option<T> {
    match r {
        Ok(v) => Some(v),
        Err(_) => None,
    }
}

/// The ECC errors of a GPU whose ECC error query was unavailable: all zero.
pub open spec fn no_ecc_errors() -> EccErrors {
    EccErrors::V1(NV_GPU_ECC_ERROR_INFO {
        version: NvVersion { data: 0 },
        padding: 0,
        current: NV_GPU_ECC_ERROR_INFO_ERRORS { single_bit_errors: 0, double_bit_errors: 0 },
        aggregate: NV_GPU_ECC_ERROR_INFO_ERRORS { single_bit_errors: 0, double_bit_errors: 0 },
    })
}

/// The locks that hold a value, with their limit id and value, in order.
pub open spec fn locked_values(locks: Seq<ClockLockEntry>) -> Seq<(i32, u32)>
    decreases locks.len(),
{
    if locks.len() == 0 {
        seq![]
    } else {
        let p = locked_values(locks.drop_last());
        match spec_lock_value(locks.last()) {
            Some(v) => p.push((spec_lock(locks.last()).id, v)),
            None => p,
        }
    }
}

/// The locks that hold a value (see `locked_values`).
pub fn lock_values(locks: &Vec<ClockLockEntry>) -> (r: Vec<(i32, u32)>)
    ensures
        r@ == locked_values(locks@),
{
    let mut out: Vec<(i32, u32)> = Vec::new();
    let mut i: usize = 0;
    while i < locks.len()
        invariant
            i <= locks@.len(),
            out@ == locked_values(locks@.subrange(0, i as int)),
        decreases locks@.len() - i,
    {
        assert(locks@.subrange(0, i as int + 1).drop_last() =~= locks@.subrange(0, i as int));
        match locks[i].value() {
            Some(v) => { out.push((locks[i].id(), v)); },
            None => {},
        }
        i += 1;
    }
    assert(locks@.subrange(0, locks@.len() as int) =~= locks@);
    out
}

/// The sensors with their current temperatures, in order.
pub fn sensor_readings(v: &Vec<Sensor>) -> (r: Vec<(SensorDesc, Celsius)>)
    ensures
        r@ == v@.map_values(|s: Sensor| (spec_sensor_desc(s), Celsius(s.sys.currentTemp))),
{
    let mut out: Vec<(SensorDesc, Celsius)> = Vec::new();
    let mut i: usize = 0;
    while i < v.len()
        invariant
            i <= v@.len(),
            out@ == v@.subrange(0, i as int).map_values(|s: Sensor| (spec_sensor_desc(s), Celsius(s.sys.currentTemp))),
        decreases v@.len() - i,
    {
        out.push((SensorDesc::from(v[i]), Celsius(v[i].sys.currentTemp)));
        i += 1;
        assert(out@ =~= v@.subrange(0, i as int).map_values(|s: Sensor| (spec_sensor_desc(s), Celsius(s.sys.currentTemp))));
    }
    assert(v@.subrange(0, v@.len() as int) =~= v@);
    out
}

struct StatusA {
    pstate: i32,
    clocks: ClockFrequencies,
    memory: Option<MemoryInfo>,
    pcie_lanes: Option<u32>,
    ecc: EccStatus,
    voltage: Option<Microvolts>,
    voltage_domains: Option<VoltageStatus>,
    voltage_step: Option<VoltageStatus>,
}

fn status_part_a(
    vfp_info: &Result<(), Error>,
    current_pstate: Result<i32, Error>,
    clocks: Result<ClockFrequencies, Error>,
    memory_info: Result<MemoryInfo, Error>,
    bus_type: Result<i32, Error>,
    pcie_lanes: Result<u32, Error>,
    ecc_configuration: Result<(bool, bool), Error>,
    ecc_errors: Result<EccErrors, Error>,
    core_voltage: Result<Microvolts, Error>,
    voltage_domains: Result<VoltageStatus, Error>,
    voltage_step: Result<VoltageStatus, Error>,
) -> (r: Result<StatusA, Error>)
    ensures
        ({
            let err = if allowed_error(*vfp_info) is Some { allowed_error(*vfp_info) }
                else if required_error(current_pstate) is Some { required_error(current_pstate) }
                else if required_error(clocks) is Some { required_error(clocks) }
                else if allowed_error(memory_info) is Some { allowed_error(memory_info) }
                else if is_pcie(bus_type) && allowed_error(pcie_lanes) is Some { allowed_error(pcie_lanes) }
                else if allowed_error(ecc_configuration) is Some { allowed_error(ecc_configuration) }
                else if allowed_error(ecc_errors) is Some { allowed_error(ecc_errors) }
                else if allowed_error(core_voltage) is Some { allowed_error(core_voltage) }
                else if allowed_error(voltage_domains) is Some { allowed_error(voltage_domains) }
                else { allowed_error(voltage_step) };
            match r {
                Err(e) => err == Some(e),
                Ok(a) => err is None
                    && a.pstate == current_pstate->Ok_0
                    && a.clocks == clocks->Ok_0
                    && a.memory == optional(memory_info)
                    && a.pcie_lanes == (if is_pcie(bus_type) { optional(pcie_lanes) } else { None })
                    && a.ecc == (EccStatus {
                        enabled: match ecc_configuration { Ok(c) => c.0, Err(_) => false },
                        errors: or_fallback(ecc_errors, no_ecc_errors()),
                    })
                    && a.voltage == optional(core_voltage)
                    && a.voltage_domains == optional(voltage_domains)
                    && a.voltage_step == optional(voltage_step),
            }
        }),
{
    match vfp_info {
        Ok(()) => {},
        Err(e) => if let Err(e2) = Error::allowable_result(Err::<(), Error>(*e)) { return Err(e2); },
    }
    let pstate = match required(current_pstate) { Ok(v) => v, Err(e) => { return Err(e); } };
    let clocks = match required(clocks) { Ok(v) => v, Err(e) => { return Err(e); } };
    let memory = match allowed(memory_info) { Ok(v) => v, Err(e) => { return Err(e); } };
    let pcie = match bus_type {
        Ok(t) => t == crate::gpu::NVAPI_GPU_BUS_TYPE_PCI_EXPRESS,
        Err(_) => false,
    };
    let pcie_lanes = if pcie {
        match allowed(pcie_lanes) { Ok(v) => v, Err(e) => { return Err(e); } }
    } else {
        None
    };
    let enabled = match allowed(ecc_configuration) { Ok(Some(c)) => c.0, Ok(None) => false, Err(e) => { return Err(e); } };
    let errors = match allowed(ecc_errors) {
        Ok(Some(v)) => v,
        Ok(None) => EccErrors::V1(NV_GPU_ECC_ERROR_INFO {
            version: NvVersion { data: 0 },
            padding: 0,
            current: NV_GPU_ECC_ERROR_INFO_ERRORS { single_bit_errors: 0, double_bit_errors: 0 },
            aggregate: NV_GPU_ECC_ERROR_INFO_ERRORS { single_bit_errors: 0, double_bit_errors: 0 },
        }),
        Err(e) => { return Err(e); },
    };
    let voltage = match allowed(core_voltage) { Ok(v) => v, Err(e) => { return Err(e); } };
    let voltage_domains = match allowed(voltage_domains) { Ok(v) => v, Err(e) => { return Err(e); } };
    let voltage_step = match allowed(voltage_step) { Ok(v) => v, Err(e) => { return Err(e); } };
    Ok(StatusA { pstate, clocks, memory, pcie_lanes, ecc: EccStatus { enabled, errors }, voltage, voltage_domains, voltage_step })
}

struct StatusB {
    voltage_table: Option<VoltageTable>,
    tachometer: Option<u32>,
    utilization: Vec<(i32, Percentage)>,
    power: Vec<(i32, Percentage)>,
    sensors: Vec<(SensorDesc, Celsius)>,
    coolers: Vec<(u32, CoolerStatus)>,
    perf: PerfStatus,
    vfp: Option<VfpTable>,
    vfp_locks: Vec<(i32, u32)>,
}

fn status_part_b(
    vfp_info: &Result<(), Error>,
    voltage_table: Result<VoltageTable, Error>,
    tachometer: Result<u32, Error>,
    utilization: Result<Vec<(i32, Percentage)>, Error>,
    power: Result<Vec<(i32, Percentage)>, Error>,
    thermal_settings: Result<Vec<Sensor>, Error>,
    cooler_status: Result<Vec<(u32, CoolerStatus)>, Error>,
    perf_status: Result<PerfStatus, Error>,
    vfp_curve: Result<VfpCurvePoints, Error>,
    vfp_locks: Result<Vec<ClockLockEntry>, Error>,
) -> (r: Result<StatusB, Error>)
    ensures
        ({
            let err = if allowed_error(voltage_table) is Some { allowed_error(voltage_table) }
                else if allowed_error(tachometer) is Some { allowed_error(tachometer) }
                else if required_error(utilization) is Some { required_error(utilization) }
                else if required_error(power) is Some { required_error(power) }
                else if allowed_error(thermal_settings) is Some { allowed_error(thermal_settings) }
                else if allowed_error(cooler_status) is Some { allowed_error(cooler_status) }
                else if required_error(perf_status) is Some { required_error(perf_status) }
                else if *vfp_info is Ok && allowed_error(vfp_curve) is Some { allowed_error(vfp_curve) }
                else { allowed_error(vfp_locks) };
            match r {
                Err(e) => err == Some(e),
                Ok(b) => err is None
                    && b.voltage_table == optional(voltage_table)
                    && b.tachometer == optional(tachometer)
                    && b.utilization@ == utilization->Ok_0@
                    && b.power@ == power->Ok_0@
                    && b.sensors@ == (match thermal_settings {
                        Ok(v) => v@.map_values(|s: Sensor| (spec_sensor_desc(s), Celsius(s.sys.currentTemp))),
                        Err(_) => Seq::empty(),
                    })
                    && b.coolers@ == (match cooler_status { Ok(v) => v@, Err(_) => Seq::empty() })
                    && b.perf == perf_status->Ok_0
                    && (match (*vfp_info, vfp_curve) {
                        (Ok(()), Ok(c)) => b.vfp matches Some(x)
                            && x.graphics@ == spec_vfp_points(spec_domain_points(c@, CLOCK_DOMAIN_GRAPHICS))
                            && x.memory@ == spec_vfp_points(spec_domain_points(c@, CLOCK_DOMAIN_MEMORY)),
                        _ => b.vfp is None,
                    })
                    && b.vfp_locks@ == (match vfp_locks { Ok(l) => locked_values(l@), Err(_) => Seq::empty() }),
            }
        }),
{
    let voltage_table = match allowed(voltage_table) { Ok(v) => v, Err(e) => { return Err(e); } };
    let tachometer = match allowed(tachometer) { Ok(v) => v, Err(e) => { return Err(e); } };
    let utilization = match required(utilization) { Ok(v) => v, Err(e) => { return Err(e); } };
    let power = match required(power) { Ok(v) => v, Err(e) => { return Err(e); } };
    let sensors = match allowed(thermal_settings) {
        Ok(Some(v)) => sensor_readings(&v),
        Ok(None) => Vec::new(),
        Err(e) => { return Err(e); },
    };
    let coolers = match allowed(cooler_status) { Ok(Some(v)) => v, Ok(None) => Vec::new(), Err(e) => { return Err(e); } };
    let perf = match required(perf_status) { Ok(v) => v, Err(e) => { return Err(e); } };
    let vfp = match vfp_info {
        Ok(()) => match allowed(vfp_curve) {
            Ok(Some(c)) => Some(VfpTable::from_curve(&c)),
            Ok(None) => None,
            Err(e) => { return Err(e); },
        },
        Err(_) => None,
    };
    let vfp_locks = match allowed(vfp_locks) {
        Ok(Some(l)) => lock_values(&l),
        Ok(None) => Vec::new(),
        Err(e) => { return Err(e); },
    };
    Ok(StatusB { voltage_table, tachometer, utilization, power, sensors, coolers, perf, vfp, vfp_locks })
}

/// The state of a GPU from its queries' answers (`Gpu::status`): the first
/// failure in the order of `spec_gpu_status_error`, else each value, with an
/// unavailable optional value left out, the ECC state falling back to off and
/// no errors, an unavailable list empty, and the lock values of the locks
/// that hold one.
pub fn gpu_status(replies: GpuStatusReplies) -> (r: Result<GpuStatus, Error>)
    ensures
        match r {
            Err(e) => spec_gpu_status_error(replies) == Some(e),
            Ok(g) => {
                &&& spec_gpu_status_error(replies) is None
                &&& g.pstate == replies.current_pstate->Ok_0
                &&& g.clocks == replies.clocks->Ok_0
                &&& g.memory == optional(replies.memory_info)
                &&& g.pcie_lanes == (if is_pcie(replies.bus_type) { optional(replies.pcie_lanes) } else { None })
                &&& g.ecc == (EccStatus {
                        enabled: match replies.ecc_configuration { Ok(c) => c.0, Err(_) => false },
                        errors: or_fallback(replies.ecc_errors, no_ecc_errors()),
                    })
                &&& g.voltage == optional(replies.core_voltage)
                &&& g.voltage_domains == optional(replies.voltage_domains)
                &&& g.voltage_step == optional(replies.voltage_step)
                &&& g.voltage_table == optional(replies.voltage_table)
                &&& g.tachometer == optional(replies.tachometer)
                &&& g.utilization@ == replies.utilization->Ok_0@
                &&& g.power@ == replies.power->Ok_0@
                &&& g.sensors@ == (match replies.thermal_settings {
                        Ok(v) => v@.map_values(|s: Sensor| (spec_sensor_desc(s), Celsius(s.sys.currentTemp))),
                        Err(_) => Seq::empty(),
                    })
                &&& g.coolers@ == (match replies.cooler_status { Ok(v) => v@, Err(_) => Seq::empty() })
                &&& g.perf == replies.perf_status->Ok_0
                &&& (match (replies.vfp_info, replies.vfp_curve) {
                        (Ok(()), Ok(c)) => g.vfp matches Some(x)
                            && x.graphics@ == spec_vfp_points(spec_domain_points(c@, CLOCK_DOMAIN_GRAPHICS))
                            && x.memory@ == spec_vfp_points(spec_domain_points(c@, CLOCK_DOMAIN_MEMORY)),
                        _ => g.vfp is None,
                    })
                &&& g.vfp_locks@ == (match replies.vfp_locks { Ok(l) => locked_values(l@), Err(_) => Seq::empty() })
            },
        },
{
    let GpuStatusReplies {
        vfp_info, current_pstate, clocks, memory_info, bus_type, pcie_lanes, ecc_configuration, ecc_errors,
        core_voltage, voltage_domains, voltage_step, voltage_table, tachometer, utilization, power,
        thermal_settings, cooler_status, perf_status, vfp_curve, vfp_locks,
    } = replies;
    let a = match status_part_a(&vfp_info, current_pstate, clocks, memory_info, bus_type, pcie_lanes,
        ecc_configuration, ecc_errors, core_voltage, voltage_domains, voltage_step) {
        Ok(a) => a,
        Err(e) => { return Err(e); },
    };
    let b = match status_part_b(&vfp_info, voltage_table, tachometer, utilization, power, thermal_settings,
        cooler_status, perf_status, vfp_curve, vfp_locks) {
        Ok(b) => b,
        Err(e) => { return Err(e); },
    };
    Ok(GpuStatus {
        pstate: a.pstate, clocks: a.clocks, memory: a.memory, pcie_lanes: a.pcie_lanes, ecc: a.ecc,
        voltage: a.voltage, voltage_domains: a.voltage_domains, voltage_step: a.voltage_step,
        voltage_table: b.voltage_table, tachometer: b.tachometer, utilization: b.utilization, power: b.power,
        sensors: b.sensors, coolers: b.coolers, perf: b.perf, vfp: b.vfp, vfp_locks: b.vfp_locks,
    })
}

// ---------------------------------------------------------------------------
// Clock locks.

/// The graphics clock domain (`NVAPI_GPU_PUBLIC_CLOCK_GRAPHICS`).
pub const CLOCK_DOMAIN_GRAPHICS: i32 = 0;
/// The memory clock domain (`NVAPI_GPU_PUBLIC_CLOCK_MEMORY`).
pub const CLOCK_DOMAIN_MEMORY: i32 = 4;
/// The performance limits a lock can hold (`PerfLimitId`).
pub const PERF_LIMIT_GPU: i32 = 0;
pub const PERF_LIMIT_GPU_UNKNOWN: i32 = 1;
pub const PERF_LIMIT_MEMORY: i32 = 2;
pub const PERF_LIMIT_MEMORY_UNKNOWN: i32 = 3;
pub const PERF_LIMIT_VOLTAGE: i32 = 6;

/// The lock of limit `id` on clock `domain`: locked at `value` in `mode`
/// where there is a value, off otherwise.
pub open spec fn spec_lock_entry(id: i32, domain: i32, mode: i32, value: Option<u32>) -> ClockLockEntry {
    ClockLockEntry::V2(match value {
        Some(v) => NV_GPU_PERF_CLIENT_LIMITS_ENTRY { id, b: 0, mode, d: 0, value: v, clock_id: domain },
        None => NV_GPU_PERF_CLIENT_LIMITS_ENTRY { id, b: 0, mode: NVAPI_GPU_CLOCK_LOCK_NONE, d: 0, value: 0, clock_id: domain },
    })
}

fn lock_entry(id: i32, domain: i32, mode: i32, value: Option<u32>) -> (r: ClockLockEntry)
    ensures
        r == spec_lock_entry(id, domain, mode, value),
{
    match value {
        Some(v) => ClockLockEntry::V2(NV_GPU_PERF_CLIENT_LIMITS_ENTRY { id, b: 0, mode, d: 0, value: v, clock_id: domain }),
        None => ClockLockEntry::V2(NV_GPU_PERF_CLIENT_LIMITS_ENTRY { id, b: 0, mode: NVAPI_GPU_CLOCK_LOCK_NONE, d: 0, value: 0, clock_id: domain }),
    }
}

/// The locks that lock a clock at a frequency (or release it, `None`)
/// (`Gpu::set_vfp_lock`): the graphics clock's two GPU limits, or the memory
/// clock's two memory limits; another domain is refused.
pub fn set_vfp_lock(domain: i32, frequency: Option<Kilohertz>) -> (r: Result<Vec<ClockLockEntry>, ArgumentRangeError>)
    ensures
        ({
            let v = match frequency { Some(f) => Some(f.0), None => None::<u32> };
            let m = NVAPI_GPU_CLOCK_LOCK_MANUAL_FREQUENCY;
            if domain == CLOCK_DOMAIN_GRAPHICS {
                r matches Ok(l) && l@ == seq![spec_lock_entry(PERF_LIMIT_GPU, domain, m, v), spec_lock_entry(PERF_LIMIT_GPU_UNKNOWN, domain, m, v)]
            } else if domain == CLOCK_DOMAIN_MEMORY {
                r matches Ok(l) && l@ == seq![spec_lock_entry(PERF_LIMIT_MEMORY, domain, m, v), spec_lock_entry(PERF_LIMIT_MEMORY_UNKNOWN, domain, m, v)]
            } else {
                r == Err::<Vec<ClockLockEntry>, ArgumentRangeError>(ArgumentRangeError)
            }
        }),
{
    let gpu = if domain == CLOCK_DOMAIN_GRAPHICS {
        true
    } else if domain == CLOCK_DOMAIN_MEMORY {
        false
    } else {
        return Err(ArgumentRangeError);
    };
    let v = match frequency { Some(f) => Some(f.0), None => None };
    let (first, second) = if gpu { (PERF_LIMIT_GPU, PERF_LIMIT_GPU_UNKNOWN) } else { (PERF_LIMIT_MEMORY, PERF_LIMIT_MEMORY_UNKNOWN) };
    let l = vec![
        lock_entry(first, domain, NVAPI_GPU_CLOCK_LOCK_MANUAL_FREQUENCY, v),
        lock_entry(second, domain, NVAPI_GPU_CLOCK_LOCK_MANUAL_FREQUENCY, v),
    ];
    Ok(l)
}

/// The lock that locks the voltage (or releases it, `None`)
/// (`Gpu::set_vfp_lock_voltage`): the voltage limit on the graphics clock.
pub fn set_vfp_lock_voltage(voltage: Option<Microvolts>) -> (r: ClockLockEntry)
    ensures
        r == spec_lock_entry(PERF_LIMIT_VOLTAGE, CLOCK_DOMAIN_GRAPHICS, NVAPI_GPU_CLOCK_LOCK_MANUAL_VOLTAGE,
            match voltage { Some(u) => Some(u.0), None => None::<u32> }),
{
    let v = match voltage { Some(u) => Some(u.0), None => None };
    lock_entry(PERF_LIMIT_VOLTAGE, CLOCK_DOMAIN_GRAPHICS, NVAPI_GPU_CLOCK_LOCK_MANUAL_VOLTAGE, v)
}

/// A lock released: off, with no value, its limit and clock kept.
pub open spec fn spec_released(e: ClockLockEntry) -> ClockLockEntry {
    ClockLockEntry::V2(NV_GPU_PERF_CLIENT_LIMITS_ENTRY { value: 0, mode: NVAPI_GPU_CLOCK_LOCK_NONE, ..spec_lock(e) })
}

/// The current locks, each released (`Gpu::reset_vfp_lock`).
pub fn reset_vfp_lock(locks: &Vec<ClockLockEntry>) -> (r: Vec<ClockLockEntry>)
    ensures
        r@ == locks@.map_values(|e: ClockLockEntry| spec_released(e)),
{
    let mut out: Vec<ClockLockEntry> = Vec::new();
    let mut i: usize = 0;
    while i < locks.len()
        invariant
            i <= locks@.len(),
            out@ == locks@.subrange(0, i as int).map_values(|e: ClockLockEntry| spec_released(e)),
        decreases locks@.len() - i,
    {
        let mut e = locks[i];
        e.set_value(None);
        out.push(e);
        i += 1;
        assert(out@ =~= locks@.subrange(0, i as int).map_values(|e: ClockLockEntry| spec_released(e)));
    }
    assert(locks@.subrange(0, locks@.len() as int) =~= locks@);
    out
}

/// What each query of a GPU's settings answered; `C` is a cooler's settings as
/// the cooler control query gives them.
pub struct GpuSettingsReplies<C> {
    /// Whether the VF curve can be described (its description query).
    pub vfp_info: Result<(), Error>,
    /// The performance states and the base voltages.
    pub pstates: Result<(Vec<PStateEntry>, Vec<BaseVoltage>), Error>,
    pub voltage_boost: Result<Percentage, Error>,
    /// The thermal limits in effect.
    pub sensor_limits: Result<Vec<ThermalLimit>, Error>,
    /// The power policies in effect.
    pub power_limits: Result<Vec<PowerPolicyStatus>, Error>,
    /// The coolers' settings, by cooler id.
    pub coolers: Result<Vec<(u32, C)>, Error>,
    /// The VF curve offsets (asked only where the curve can be described).
    pub vfp: Result<VfpCurveDeltas, Error>,
    pub vfp_locks: Result<Vec<ClockLockEntry>, Error>,
}

/// The settings of a GPU (`GpuSettings`).
pub struct GpuSettings<C> {
    pub voltage_boost: Option<Percentage>,
    pub sensor_limits: Vec<SensorThrottle>,
    pub power_limits: Vec<Percentage>,
    pub coolers: Vec<(u32, C)>,
    pub vfp: Option<VfpDeltas>,
    /// The offsets of the editable clocks of each editable performance state.
    pub pstate_deltas: Vec<(i32, Vec<(i32, KilohertzDelta)>)>,
    /// The offsets of the editable base voltages.
    pub overvolt: Vec<MicrovoltsDelta>,
    /// Each clock lock with its limit id.
    pub vfp_locks: Vec<(i32, ClockLockEntry)>,
}

/// The first failure among a GPU's settings queries, in the order in which they
/// are made; only the VF curve is skipped where it cannot be described.
pub open spec fn spec_gpu_settings_error<C>(r: GpuSettingsReplies<C>) -> Option<Error> {
    if allowed_error(r.vfp_info) is Some { allowed_error(r.vfp_info) }
    else if allowed_error(r.pstates) is Some { allowed_error(r.pstates) }
    else if allowed_error(r.voltage_boost) is Some { allowed_error(r.voltage_boost) }
    else if allowed_error(r.sensor_limits) is Some { allowed_error(r.sensor_limits) }
    else if allowed_error(r.power_limits) is Some { allowed_error(r.power_limits) }
    else if allowed_error(r.coolers) is Some { allowed_error(r.coolers) }
    else if r.vfp_info is Ok && allowed_error(r.vfp) is Some { allowed_error(r.vfp) }
    else { allowed_error(r.vfp_locks) }
}

/// The domains and offsets of the editable clocks, in order.
pub open spec fn editable_clock_deltas(cs: Seq<ClockEntry>) -> Seq<(i32, KilohertzDelta)>
    decreases cs.len(),
{
    if cs.len() == 0 {
        seq![]
    } else {
        let p = editable_clock_deltas(cs.drop_last());
        if spec_clock_editable(cs.last()) { p.push((spec_clock_domain(cs.last()), spec_clock_delta(cs.last()))) } else { p }
    }
}

/// The editable performance states, in order.
pub open spec fn editable_pstates(ps: Seq<PStateEntry>) -> Seq<PStateEntry>
    decreases ps.len(),
{
    if ps.len() == 0 {
        seq![]
    } else {
        let p = editable_pstates(ps.drop_last());
        if ps.last().editable { p.push(ps.last()) } else { p }
    }
}

/// The offsets of the editable base voltages, in order.
pub open spec fn editable_overvolt(vs: Seq<BaseVoltage>) -> Seq<MicrovoltsDelta>
    decreases vs.len(),
{
    if vs.len() == 0 {
        seq![]
    } else {
        let p = editable_overvolt(vs.drop_last());
        if vs.last().editable { p.push(vs.last().voltage_delta) } else { p }
    }
}

/// Whether `out` holds, for each editable performance state of `ps` in order,
/// its id and the offsets of its editable clocks.
pub open spec fn is_pstate_deltas(out: Seq<(i32, Vec<(i32, KilohertzDelta)>)>, ps: Seq<PStateEntry>) -> bool {
    &&& out.len() == editable_pstates(ps).len()
    &&& forall|i: int| 0 <= i < out.len() ==> {
        &&& (#[trigger] out[i]).0 == editable_pstates(ps)[i].id
        &&& out[i].1@ == editable_clock_deltas(editable_pstates(ps)[i].clocks@)
    }
}

/// The domains and offsets of the editable clocks (see `editable_clock_deltas`).
pub fn clock_deltas(cs: &Vec<ClockEntry>) -> (r: Vec<(i32, KilohertzDelta)>)
    ensures
        r@ == editable_clock_deltas(cs@),
{
    let mut out: Vec<(i32, KilohertzDelta)> = Vec::new();
    let mut i: usize = 0;
    while i < cs.len()
        invariant
            i <= cs@.len(),
            out@ == editable_clock_deltas(cs@.subrange(0, i as int)),
        decreases cs@.len() - i,
    {
        assert(cs@.subrange(0, i as int + 1).drop_last() =~= cs@.subrange(0, i as int));
        if cs[i].editable() {
            out.push((cs[i].domain(), cs[i].frequency_delta()));
        }
        i += 1;
    }
    assert(cs@.subrange(0, cs@.len() as int) =~= cs@);
    out
}

/// The offsets of the editable clocks of each editable performance state.
pub fn pstate_deltas(ps: &Vec<PStateEntry>) -> (r: Vec<(i32, Vec<(i32, KilohertzDelta)>)>)
    ensures
        is_pstate_deltas(r@, ps@),
{
    let mut out: Vec<(i32, Vec<(i32, KilohertzDelta)>)> = Vec::new();
    let mut i: usize = 0;
    while i < ps.len()
        invariant
            i <= ps@.len(),
            is_pstate_deltas(out@, ps@.subrange(0, i as int)),
        decreases ps@.len() - i,
    {
        let ghost sub = ps@.subrange(0, i as int);
        assert(ps@.subrange(0, i as int + 1).drop_last() =~= sub);
        if ps[i].editable {
            let deltas = clock_deltas(&ps[i].clocks);
            out.push((ps[i].id, deltas));
        }
        i += 1;
        assert(is_pstate_deltas(out@, ps@.subrange(0, i as int)));
    }
    assert(ps@.subrange(0, ps@.len() as int) =~= ps@);
    out
}

/// The offsets of the editable overvolting entries (see `editable_overvolt`).
pub fn overvolt_deltas(vs: &Vec<BaseVoltage>) -> (r: Vec<MicrovoltsDelta>)
    ensures
        r@ == editable_overvolt(vs@),
{
    let mut out: Vec<MicrovoltsDelta> = Vec::new();
    let mut i: usize = 0;
    while i < vs.len()
        invariant
            i <= vs@.len(),
            out@ == editable_overvolt(vs@.subrange(0, i as int)),
        decreases vs@.len() - i,
    {
        assert(vs@.subrange(0, i as int + 1).drop_last() =~= vs@.subrange(0, i as int));
        if vs[i].editable {
            out.push(vs[i].voltage_delta);
        }
        i += 1;
    }
    assert(vs@.subrange(0, vs@.len() as int) =~= vs@);
    out
}

/// Each clock lock with its limit id, in order.
pub fn locks_by_limit(locks: &Vec<ClockLockEntry>) -> (r: Vec<(i32, ClockLockEntry)>)
    ensures
        r@ == locks@.map_values(|l: ClockLockEntry| (spec_lock(l).id, l)),
{
    let mut out: Vec<(i32, ClockLockEntry)> = Vec::new();
    let mut i: usize = 0;
    while i < locks.len()
        invariant
            i <= locks@.len(),
            out@ == locks@.subrange(0, i as int).map_values(|l: ClockLockEntry| (spec_lock(l).id, l)),
        decreases locks@.len() - i,
    {
        out.push((locks[i].id(), locks[i]));
        i += 1;
        assert(out@ =~= locks@.subrange(0, i as int).map_values(|l: ClockLockEntry| (spec_lock(l).id, l)));
    }
    assert(locks@.subrange(0, locks@.len() as int) =~= locks@);
    out
}

/// The settings of a GPU from its queries' answers (`Gpu::settings`): the first
/// failure in the order of `spec_gpu_settings_error`, else each value, with an
/// unavailable optional value left out and an unavailable list empty; only the
/// editable performance state clocks and overvolting entries are kept.
pub fn gpu_settings<C>(replies: GpuSettingsReplies<C>) -> (r: Result<GpuSettings<C>, Error>)
    ensures
        match r {
            Err(e) => spec_gpu_settings_error(replies) == Some(e),
            Ok(s) => {
                &&& spec_gpu_settings_error(replies) is None
                &&& s.voltage_boost == optional(replies.voltage_boost)
                &&& is_throttles_of(s.sensor_limits@, match replies.sensor_limits { Ok(v) => v@, Err(_) => Seq::empty() })
                &&& s.power_limits@ == (match replies.power_limits {
                        Ok(v) => v@.map_values(|p: PowerPolicyStatus| spec_power_target(p)),
                        Err(_) => Seq::empty(),
                    })
                &&& s.coolers@ == (match replies.coolers { Ok(v) => v@, Err(_) => Seq::empty() })
                &&& (match (replies.vfp_info, replies.vfp) {
                        (Ok(()), Ok(t)) => s.vfp matches Some(d)
                            && d.graphics@ == spec_domain_points(t@, CLOCK_DOMAIN_GRAPHICS)
                            && d.memory@ == spec_domain_points(t@, CLOCK_DOMAIN_MEMORY),
                        _ => s.vfp is None,
                    })
                &&& is_pstate_deltas(s.pstate_deltas@, match replies.pstates { Ok(p) => p.0@, Err(_) => Seq::empty() })
                &&& s.overvolt@ == editable_overvolt(match replies.pstates { Ok(p) => p.1@, Err(_) => Seq::empty() })
                &&& s.vfp_locks@ == (match replies.vfp_locks {
                        Ok(v) => v@.map_values(|l: ClockLockEntry| (spec_lock(l).id, l)),
                        Err(_) => Seq::empty(),
                    })
            },
        },
{
    let GpuSettingsReplies { vfp_info, pstates, voltage_boost, sensor_limits, power_limits, coolers, vfp, vfp_locks } = replies;
    let vfp_ok = vfp_info.is_ok();
    match allowed(vfp_info) { Ok(_) => {}, Err(e) => { return Err(e); } }
    let (ps, ov) = match allowed(pstates) {
        Ok(Some(p)) => p,
        Ok(None) => (Vec::new(), Vec::new()),
        Err(e) => { return Err(e); },
    };
    let voltage_boost = match allowed(voltage_boost) { Ok(v) => v, Err(e) => { return Err(e); } };
    let sensor_limits = match allowed(sensor_limits) {
        Ok(Some(v)) => sensor_throttles(&v),
        Ok(None) => Vec::new(),
        Err(e) => { return Err(e); },
    };
    let power_limits = match allowed(power_limits) {
        Ok(Some(v)) => power_targets(&v),
        Ok(None) => Vec::new(),
        Err(e) => { return Err(e); },
    };
    let coolers = match allowed(coolers) { Ok(Some(v)) => v, Ok(None) => Vec::new(), Err(e) => { return Err(e); } };
    let vfp = if vfp_ok {
        match allowed(vfp) {
            Ok(Some(t)) => Some(VfpDeltas::from_table(&t)),
            Ok(None) => None,
            Err(e) => { return Err(e); },
        }
    } else {
        None
    };
    let locks = match allowed(vfp_locks) { Ok(Some(v)) => v, Ok(None) => Vec::new(), Err(e) => { return Err(e); } };
    let pstate_deltas = pstate_deltas(&ps);
    let overvolt = overvolt_deltas(&ov);
    let vfp_locks = locks_by_limit(&locks);
    Ok(GpuSettings { voltage_boost, sensor_limits, power_limits, coolers, vfp, pstate_deltas, overvolt, vfp_locks })
}

} // verus!
