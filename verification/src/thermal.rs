#![allow(non_camel_case_types, non_snake_case)]
use vstd::prelude::*;
use crate::types::{Celsius, CelsiusShifted, Rpm, Percentage, Range, NvData};
use crate::version::NvVersion;
use crate::boolu32::BoolU32;
use crate::sys_thermal::{
    NV_GPU_CLIENT_THERMAL_POLICIES_POLICY_ID, NV_GPU_CLIENT_PFF_CURVE_V1,
    NV_GPU_CLIENT_THERMAL_POLICY_STATUS_V3, NV_GPU_CLIENT_THERMAL_POLICIES_STATUS_ENTRY_V2,
    NV_GPU_CLIENT_THERMAL_POLICIES_STATUS_V3, NV_GPU_CLIENT_THERMAL_POLICIES_STATUS_V2,
    NV_GPU_CLIENT_THERMAL_POLICIES_INFO_V3, NV_GPU_CLIENT_THERMAL_POLICIES_INFO_V2,
    NV_GPU_CLIENT_THERMAL_POLICY_INFO_V3, NV_GPU_CLIENT_THERMAL_POLICIES_INFO_ENTRY_V2,
    enabled_prefix_len,
};
use crate::sys_cooler::{
    NV_GPU_GETCOOLER_SETTING_V1, NV_GPU_GETCOOLER_SETTING_V3, NV_GPU_GETCOOLER_SETTING_V4,
    NV_COOLER_TACHOMETER, NVAPI_MAX_COOLER_LEVELS, NV_GPU_CLIENT_FAN_COOLER_INFO_V1,
    NV_GPU_CLIENT_FAN_COOLER_STATUS_V1,
};
use vstd::std_specs::convert::FromSpecImpl;

verus! {

/// One thermal limit of a GPU, in the version the driver answered with.
#[derive(Copy, Clone, Debug, PartialEq, Eq)]
pub enum ThermalLimit {
    V3(NV_GPU_CLIENT_THERMAL_POLICY_STATUS_V3),
    V2(NV_GPU_CLIENT_THERMAL_POLICIES_STATUS_ENTRY_V2),
}

/// The raw shifted temperature of a limit.
pub open spec fn spec_limit_temp(l: ThermalLimit) -> u32 {
    match l {
        ThermalLimit::V3(v) => v.temp_limit_C,
        ThermalLimit::V2(v) => v.temp_limit_C,
    }
}

/// The policy id of a limit.
pub open spec fn spec_limit_id(l: ThermalLimit) -> NV_GPU_CLIENT_THERMAL_POLICIES_POLICY_ID {
    match l {
        ThermalLimit::V3(v) => v.policy_id,
        ThermalLimit::V2(v) => v.policy_id,
    }
}

/// A limit with its raw shifted temperature replaced.
pub open spec fn spec_set_limit_temp(l: ThermalLimit, t: u32) -> ThermalLimit {
    match l {
        ThermalLimit::V3(v) => ThermalLimit::V3(NV_GPU_CLIENT_THERMAL_POLICY_STATUS_V3 { temp_limit_C: t, ..v }),
        ThermalLimit::V2(v) => ThermalLimit::V2(NV_GPU_CLIENT_THERMAL_POLICIES_STATUS_ENTRY_V2 { temp_limit_C: t, ..v }),
    }
}

/// Setting a limit's temperature and reading it back gives it unchanged, and
/// the policy stays.
pub proof fn lemma_limit_temperature_set_get(l: ThermalLimit, t: CelsiusShifted)
    ensures
        CelsiusShifted(spec_limit_temp(spec_set_limit_temp(l, t.0 as u32)) as i32) == t,
        spec_limit_id(spec_set_limit_temp(l, t.0 as u32)) == spec_limit_id(l),
{
    let x: i32 = t.0;
    assert((x as u32) as i32 == x) by (bit_vector);
}

/// Whether a limit lifts the TDP limit (only the third version can).
pub open spec fn spec_tdp_unlimited(l: ThermalLimit) -> bool {
    match l {
        ThermalLimit::V3(v) => v.remove_tdp_limit.spec_get(),
        ThermalLimit::V2(..) => false,
    }
}

/// How `set_tdp_unlimited(value)` relates a limit before and after: a
/// third-version limit gets the flag set and keeps the rest (the reserved bits
/// of the flag word too); a second-version limit is left as it was.
pub open spec fn spec_set_tdp(before: ThermalLimit, after: ThermalLimit, value: bool) -> bool {
    match (before, after) {
        (ThermalLimit::V3(a), ThermalLimit::V3(b)) =>
            b == (NV_GPU_CLIENT_THERMAL_POLICY_STATUS_V3 { remove_tdp_limit: b.remove_tdp_limit, ..a })
            && b.remove_tdp_limit.spec_get() == value
            && b.remove_tdp_limit.spec_flags() == a.remove_tdp_limit.spec_flags(),
        (ThermalLimit::V2(a), ThermalLimit::V2(b)) => a == b,
        _ => false,
    }
}

/// Setting whether the TDP limit is lifted and reading it back gives the value
/// set where the version can hold it, and `false` where it cannot.
pub proof fn lemma_tdp_set_get(before: ThermalLimit, after: ThermalLimit, value: bool)
    requires
        spec_set_tdp(before, after, value),
    ensures
        spec_tdp_unlimited(after) == (before is V3 && value),
        spec_limit_temp(after) == spec_limit_temp(before),
        spec_limit_id(after) == spec_limit_id(before),
{
}

impl ThermalLimit {
    /// The policy this limit belongs to.
    pub fn id(&self) -> (r: NV_GPU_CLIENT_THERMAL_POLICIES_POLICY_ID)
        ensures
            r == spec_limit_id(*self),
    {
        match self {
            ThermalLimit::V3(v) => v.policy_id,
            ThermalLimit::V2(v) => v.policy_id,
        }
    }

    pub fn set_id(&mut self, id: NV_GPU_CLIENT_THERMAL_POLICIES_POLICY_ID)
        ensures
            *final(self) == (match *old(self) {
                ThermalLimit::V3(v) => ThermalLimit::V3(NV_GPU_CLIENT_THERMAL_POLICY_STATUS_V3 { policy_id: id, ..v }),
                ThermalLimit::V2(v) => ThermalLimit::V2(NV_GPU_CLIENT_THERMAL_POLICIES_STATUS_ENTRY_V2 { policy_id: id, ..v }),
            }),
    {
        match self {
            ThermalLimit::V3(v) => v.policy_id = id,
            ThermalLimit::V2(v) => v.policy_id = id,
        }
    }

    /// The temperature limit (shifted by 8 bits): the raw word read as an `i32`.
    pub fn temperature(&self) -> (r: CelsiusShifted)
        ensures
            r == CelsiusShifted(spec_limit_temp(*self) as i32),
    {
        let t = match self {
            ThermalLimit::V3(v) => v.temp_limit_C,
            ThermalLimit::V2(v) => v.temp_limit_C,
        };
        CelsiusShifted(t as i32)
    }

    /// Sets the temperature limit: its bits stored as the raw word.
    pub fn set_temperature(&mut self, temperature: CelsiusShifted)
        ensures
            *final(self) == spec_set_limit_temp(*old(self), temperature.0 as u32),
    {
        let t = temperature.0 as u32;
        match self {
            ThermalLimit::V3(v) => v.temp_limit_C = t,
            ThermalLimit::V2(v) => v.temp_limit_C = t,
        }
    }

    /// Whether the limit lifts the TDP limit; only the third version can say so.
    pub fn tdp_unlimited(&self) -> (r: bool)
        ensures
            r == spec_tdp_unlimited(*self),
    {
        match self {
            ThermalLimit::V3(v) => v.remove_tdp_limit.get(),
            ThermalLimit::V2(..) => false,
        }
    }

    /// Sets whether the limit lifts the TDP limit, where the version can hold it;
    /// returns whether it could.
    pub fn set_tdp_unlimited(&mut self, value: bool) -> (r: bool)
        ensures
            r == (*old(self) is V3),
            spec_set_tdp(*old(self), *final(self), value),
    {
        match self {
            ThermalLimit::V3(v) => {
                v.remove_tdp_limit.set(value);
                true
            },
            ThermalLimit::V2(..) => false,
        }
    }

    /// The throttling curve, where the limit carries one.
    pub fn pff_curve(&self) -> (r: Option<NV_GPU_CLIENT_PFF_CURVE_V1>)
        ensures
            r == (match *self {
                ThermalLimit::V3(v) => if v.flags == 1 { Some(v.pff_curve) } else { None },
                ThermalLimit::V2(..) => None,
            }),
    {
        match self {
            ThermalLimit::V3(v) => if v.has_pff() { Some(v.pff_curve) } else { None },
            ThermalLimit::V2(..) => None,
        }
    }

    /// The frequencies of the enabled curve points, where the limit carries a curve.
    pub fn pff_frequencies(&self) -> (r: Option<Vec<u32>>)
        ensures
            match *self {
                ThermalLimit::V3(v) => if v.flags == 1 {
                    r matches Some(f) && f@ == v.pff_freqs@.subrange(0, enabled_prefix_len(v.pff_curve.points@) as int)
                } else {
                    r is None
                },
                ThermalLimit::V2(..) => r is None,
            },
    {
        match self {
            ThermalLimit::V3(v) => if v.has_pff() {
                let f = v.pff_freqs();
                let mut out: Vec<u32> = Vec::new();
                let mut i: usize = 0;
                while i < f.len()
                    invariant
                        i <= f@.len(),
                        out@ == f@.subrange(0, i as int),
                    decreases f@.len() - i,
                {
                    out.push(f[i]);
                    i += 1;
                }
                assert(f@.subrange(0, f@.len() as int) =~= f@);
                Some(out)
            } else {
                None
            },
            ThermalLimit::V2(..) => None,
        }
    }
}

/// The thermal limits of a GPU, in the version the driver answered with.
#[derive(Copy, Clone, Debug, PartialEq, Eq)]
pub enum ThermalLimits {
    V3(NV_GPU_CLIENT_THERMAL_POLICIES_STATUS_V3),
    V2(NV_GPU_CLIENT_THERMAL_POLICIES_STATUS_V2),
}

impl ThermalLimits {
    /// The limits that the answer holds, each in the answer's version.
    pub fn into_policies(self) -> (r: Vec<ThermalLimit>)
        requires
            match self {
                ThermalLimits::V3(v) => v.count <= 4,
                ThermalLimits::V2(v) => v.count <= 4,
            },
        ensures
            match self {
                ThermalLimits::V3(v) => r@ == Seq::new(v.count as nat, |i: int| ThermalLimit::V3(v.entries@[i])),
                ThermalLimits::V2(v) => r@ == Seq::new(v.count as nat, |i: int| ThermalLimit::V2(v.entries@[i])),
            },
    {
        let mut out: Vec<ThermalLimit> = Vec::new();
        match self {
            ThermalLimits::V3(v) => {
                let e = v.entries();
                let mut i: usize = 0;
                while i < e.len()
                    invariant
                        i <= e@.len(),
                        v.count <= 4,
                        e@ == v.entries@.subrange(0, v.count as int),
                        out@ == Seq::new(i as nat, |j: int| ThermalLimit::V3(v.entries@[j])),
                    decreases e@.len() - i,
                {
                    assert(e@[i as int] == v.entries@[i as int]);
                    out.push(ThermalLimit::V3(e[i]));
                    i += 1;
                    assert(out@ =~= Seq::new(i as nat, |j: int| ThermalLimit::V3(v.entries@[j])));
                }
            },
            ThermalLimits::V2(v) => {
                let e = v.entries();
                let mut i: usize = 0;
                while i < e.len()
                    invariant
                        i <= e@.len(),
                        v.count <= 4,
                        e@ == v.entries@.subrange(0, v.count as int),
                        out@ == Seq::new(i as nat, |j: int| ThermalLimit::V2(v.entries@[j])),
                    decreases e@.len() - i,
                {
                    assert(e@[i as int] == v.entries@[i as int]);
                    out.push(ThermalLimit::V2(e[i]));
                    i += 1;
                    assert(out@ =~= Seq::new(i as nat, |j: int| ThermalLimit::V2(v.entries@[j])));
                }
            },
        }
        out
    }
}

/// The thermal policies of a GPU, in the version the driver answered with.
#[derive(Copy, Clone, Debug, PartialEq, Eq)]
pub enum ThermalPolicies {
    V3(NV_GPU_CLIENT_THERMAL_POLICIES_INFO_V3),
    V2(NV_GPU_CLIENT_THERMAL_POLICIES_INFO_V2),
}

/// One thermal policy of a GPU, in the version the driver answered with.
#[derive(Copy, Clone, Debug, PartialEq, Eq)]
pub enum ThermalInfo {
    V3(NV_GPU_CLIENT_THERMAL_POLICY_INFO_V3),
    V2(NV_GPU_CLIENT_THERMAL_POLICIES_INFO_ENTRY_V2),
}

impl ThermalInfo {
    /// The raw policy id.
    pub fn id(&self) -> (r: NV_GPU_CLIENT_THERMAL_POLICIES_POLICY_ID)
        ensures
            r == (match *self { ThermalInfo::V3(v) => v.policy_id, ThermalInfo::V2(v) => v.policy_id }),
    {
        match self {
            ThermalInfo::V3(v) => v.policy_id,
            ThermalInfo::V2(v) => v.policy_id,
        }
    }

    pub fn unknown(&self) -> (r: u32)
        ensures
            r == (match *self { ThermalInfo::V3(v) => v.unknown, ThermalInfo::V2(v) => v.unknown }),
    {
        match self {
            ThermalInfo::V3(v) => v.unknown,
            ThermalInfo::V2(v) => v.unknown,
        }
    }

    /// The range the limit may be set in (shifted by 8 bits).
    pub fn temperature_range(&self) -> (r: Range<CelsiusShifted>)
        ensures
            r == (match *self {
                ThermalInfo::V3(v) => Range { min: CelsiusShifted(v.minTemp), max: CelsiusShifted(v.maxTemp) },
                ThermalInfo::V2(v) => Range { min: CelsiusShifted(v.minTemp), max: CelsiusShifted(v.maxTemp) },
            }),
    {
        match self {
            ThermalInfo::V3(v) => Range { min: CelsiusShifted(v.minTemp), max: CelsiusShifted(v.maxTemp) },
            ThermalInfo::V2(v) => Range { min: CelsiusShifted(v.minTemp), max: CelsiusShifted(v.maxTemp) },
        }
    }

    /// The default limit (shifted by 8 bits).
    pub fn default_temperature(&self) -> (r: CelsiusShifted)
        ensures
            r == (match *self {
                ThermalInfo::V3(v) => CelsiusShifted(v.defaultTemp),
                ThermalInfo::V2(v) => CelsiusShifted(v.defaultTemp),
            }),
    {
        match self {
            ThermalInfo::V3(v) => CelsiusShifted(v.defaultTemp),
            ThermalInfo::V2(v) => CelsiusShifted(v.defaultTemp),
        }
    }

    pub fn default_flags(&self) -> (r: u32)
        ensures
            r == (match *self { ThermalInfo::V3(v) => v.defaultFlags, ThermalInfo::V2(v) => v.defaultFlags }),
    {
        match self {
            ThermalInfo::V3(v) => v.defaultFlags,
            ThermalInfo::V2(v) => v.defaultFlags,
        }
    }

    /// The default throttling curve, where the policy carries one.
    pub fn pff_curve(&self) -> (r: Option<NV_GPU_CLIENT_PFF_CURVE_V1>)
        ensures
            r == (match *self {
                ThermalInfo::V3(v) => if v.flags == 1 { Some(v.pff_curve) } else { None },
                ThermalInfo::V2(..) => None,
            }),
    {
        match self {
            ThermalInfo::V3(v) => if v.has_pff() { Some(v.pff_curve) } else { None },
            ThermalInfo::V2(..) => None,
        }
    }
}

impl ThermalPolicies {
    /// The policies that the answer holds, each in the answer's version.
    pub fn into_policies(self) -> (r: Vec<ThermalInfo>)
        requires
            match self {
                ThermalPolicies::V3(v) => v.count <= 4,
                ThermalPolicies::V2(v) => v.count <= 4,
            },
        ensures
            match self {
                ThermalPolicies::V3(v) => r@ == Seq::new(v.count as nat, |i: int| ThermalInfo::V3(v.entries@[i])),
                ThermalPolicies::V2(v) => r@ == Seq::new(v.count as nat, |i: int| ThermalInfo::V2(v.entries@[i])),
            },
    {
        let mut out: Vec<ThermalInfo> = Vec::new();
        match self {
            ThermalPolicies::V3(v) => {
                let e = v.entries();
                let mut i: usize = 0;
                while i < e.len()
                    invariant
                        i <= e@.len(),
                        v.count <= 4,
                        e@ == v.entries@.subrange(0, v.count as int),
                        out@ == Seq::new(i as nat, |j: int| ThermalInfo::V3(v.entries@[j])),
                    decreases e@.len() - i,
                {
                    assert(e@[i as int] == v.entries@[i as int]);
                    out.push(ThermalInfo::V3(e[i]));
                    i += 1;
                    assert(out@ =~= Seq::new(i as nat, |j: int| ThermalInfo::V3(v.entries@[j])));
                }
            },
            ThermalPolicies::V2(v) => {
                let e = v.entries();
                let mut i: usize = 0;
                while i < e.len()
                    invariant
                        i <= e@.len(),
                        v.count <= 4,
                        e@ == v.entries@.subrange(0, v.count as int),
                        out@ == Seq::new(i as nat, |j: int| ThermalInfo::V2(v.entries@[j])),
                    decreases e@.len() - i,
                {
                    assert(e@[i as int] == v.entries@[i as int]);
                    out.push(ThermalInfo::V2(e[i]));
                    i += 1;
                    assert(out@ =~= Seq::new(i as nat, |j: int| ThermalInfo::V2(v.entries@[j])));
                }
            },
        }
        out
    }
}

/// The most thermal sensors a GPU reports.
pub const NVAPI_MAX_THERMAL_SENSORS_PER_GPU: usize = 3;

/// Raw thermal controller (`ThermalController`).
pub type NV_THERMAL_CONTROLLER = i32;
/// Raw thermal target (`ThermalTarget`).
pub type NV_THERMAL_TARGET = i32;

/// One thermal sensor of a GPU as the driver reports it.
#[derive(Copy, Clone, Debug, PartialEq, Eq, Structural)]
pub struct NV_GPU_THERMAL_SETTINGS_SENSOR {
    pub controller: NV_THERMAL_CONTROLLER,
    pub defaultMinTemp: i32,
    pub defaultMaxTemp: i32,
    pub currentTemp: i32,
    pub target: NV_THERMAL_TARGET,
}

/// The thermal sensors of a GPU as the driver reports them.
#[derive(Copy, Clone, Debug, PartialEq, Eq)]
pub struct NV_GPU_THERMAL_SETTINGS_V1 {
    pub version: crate::version::NvVersion,
    pub count: u32,
    pub sensor: [NV_GPU_THERMAL_SETTINGS_SENSOR; 3],
}

/// One thermal sensor.
pub type Sensor = NvData<NV_GPU_THERMAL_SETTINGS_SENSOR>;

impl Sensor {
    /// The raw controller.
    pub fn controller(&self) -> (r: NV_THERMAL_CONTROLLER)
        ensures
            r == self.sys.controller,
    {
        self.sys.controller
    }

    /// The default temperature range.
    pub fn default_temperature_range(&self) -> (r: Range<Celsius>)
        ensures
            r == (Range { min: Celsius(self.sys.defaultMinTemp), max: Celsius(self.sys.defaultMaxTemp) }),
    {
        Range { min: Celsius(self.sys.defaultMinTemp), max: Celsius(self.sys.defaultMaxTemp) }
    }

    /// The current temperature.
    pub fn current_temperature(&self) -> (r: Celsius)
        ensures
            r == Celsius(self.sys.currentTemp),
    {
        Celsius(self.sys.currentTemp)
    }

    /// The raw target.
    pub fn target(&self) -> (r: NV_THERMAL_TARGET)
        ensures
            r == self.sys.target,
    {
        self.sys.target
    }
}

/// The thermal sensors of a GPU.
#[derive(Copy, Clone, Debug, PartialEq, Eq)]
pub enum Sensors {
    V1(NV_GPU_THERMAL_SETTINGS_V1),
}

impl Sensors {
    /// The `count` sensors that hold data.
    pub fn into_sensors(self) -> (r: Vec<Sensor>)
        requires
            match self { Sensors::V1(v) => v.count <= 3 },
        ensures
            match self { Sensors::V1(v) => r@ == Seq::new(v.count as nat, |i: int| NvData { sys: v.sensor@[i] }) },
    {
        let mut out: Vec<Sensor> = Vec::new();
        match self {
            Sensors::V1(v) => {
                let n = v.count as usize;
                let mut i: usize = 0;
                while i < n
                    invariant
                        n <= 3,
                        n == v.count,
                        i <= n,
                        out@ == Seq::new(i as nat, |j: int| NvData { sys: v.sensor@[j] }),
                    decreases n - i,
                {
                    out.push(NvData::with_sys(v.sensor[i]));
                    i += 1;
                    assert(out@ =~= Seq::new(i as nat, |j: int| NvData { sys: v.sensor@[j] }));
                }
            },
        }
        out
    }
}

/// The tachometer range of a cooler, where it has a tachometer.
pub open spec fn spec_tach_range(t: NV_COOLER_TACHOMETER) -> Option<Range<Rpm>> {
    if t.bSupported.spec_get() {
        Some(Range { min: Rpm(t.minSpeedRPM), max: Rpm(t.maxSpeedRPM) })
    } else {
        None
    }
}

/// The tachometer reading of a cooler, where it has a tachometer.
pub open spec fn spec_tach(t: NV_COOLER_TACHOMETER) -> Option<Rpm> {
    if t.bSupported.spec_get() { Some(Rpm(t.speedRPM)) } else { None }
}

/// A tachometer after `set_tach_range(value)`. The minimum is written twice,
/// with the maximum the second time, and the maximum is left as it was.
pub open spec fn spec_set_tach_range(t: NV_COOLER_TACHOMETER, value: Option<Range<Rpm>>) -> NV_COOLER_TACHOMETER {
    let (supported, max) = match value {
        None => (false, 0u32),
        Some(r) => (true, r.max.0),
    };
    NV_COOLER_TACHOMETER {
        bSupported: BoolU32((t.bSupported.0 & 0xfffffffe) | (if supported { 1u32 } else { 0u32 })),
        minSpeedRPM: max,
        ..t
    }
}

/// A tachometer after `set_tach(value)`.
pub open spec fn spec_set_tach(t: NV_COOLER_TACHOMETER, value: Option<Rpm>) -> NV_COOLER_TACHOMETER {
    let (supported, speed) = match value {
        None => (false, 0u32),
        Some(v) => (true, v.0),
    };
    NV_COOLER_TACHOMETER {
        bSupported: BoolU32((t.bSupported.0 & 0xfffffffe) | (if supported { 1u32 } else { 0u32 })),
        speedRPM: speed,
        ..t
    }
}

fn tach_set_range(t: &mut NV_COOLER_TACHOMETER, value: Option<Range<Rpm>>)
    ensures
        *final(t) == spec_set_tach_range(*old(t), value),
{
    let (supported, min, max) = match value {
        None => (false, 0u32, 0u32),
        Some(value) => (true, value.min.0, value.max.0),
    };
    t.bSupported.set(supported);
    t.minSpeedRPM = min;
    t.minSpeedRPM = max;
}

fn tach_set(t: &mut NV_COOLER_TACHOMETER, value: Option<Rpm>)
    ensures
        *final(t) == spec_set_tach(*old(t), value),
{
    let (supported, speed) = match value {
        None => (false, 0u32),
        Some(value) => (true, value.0),
    };
    t.bSupported.set(supported);
    t.speedRPM = speed;
}

/// The settings of one cooler, in the version the driver answered with.
#[derive(Copy, Clone, Debug, PartialEq, Eq)]
pub enum GetCoolerSettings {
    V4(NV_GPU_GETCOOLER_SETTING_V4),
    V3(NV_GPU_GETCOOLER_SETTING_V3),
    V1(NV_GPU_GETCOOLER_SETTING_V1),
}

/// The first-version part of cooler settings.
pub open spec fn spec_cooler_v1(s: GetCoolerSettings) -> NV_GPU_GETCOOLER_SETTING_V1 {
    match s {
        GetCoolerSettings::V4(v) => v.v3.v1,
        GetCoolerSettings::V3(v) => v.v1,
        GetCoolerSettings::V1(v) => v,
    }
}

impl GetCoolerSettings {
    fn v1(&self) -> (r: &NV_GPU_GETCOOLER_SETTING_V1)
        ensures
            *r == spec_cooler_v1(*self),
    {
        match self {
            GetCoolerSettings::V4(v) => &v.v3.v1,
            GetCoolerSettings::V3(v) => &v.v1,
            GetCoolerSettings::V1(v) => v,
        }
    }

    /// The current cooler level.
    pub fn level(&self) -> (r: Percentage)
        ensures
            r == Percentage(spec_cooler_v1(*self).currentLevel),
    {
        Percentage(self.v1().currentLevel)
    }

    /// The raw current cooler policy.
    pub fn policy(&self) -> (r: i32)
        ensures
            r == spec_cooler_v1(*self).currentPolicy,
    {
        self.v1().currentPolicy
    }

    /// The default level range.
    pub fn default_level_range(&self) -> (r: Range<Percentage>)
        ensures
            r == (Range {
                min: Percentage(spec_cooler_v1(*self).defaultMinLevel),
                max: Percentage(spec_cooler_v1(*self).defaultMaxLevel),
            }),
    {
        let v = self.v1();
        Range { min: Percentage(v.defaultMinLevel), max: Percentage(v.defaultMaxLevel) }
    }

    /// The current level range.
    pub fn level_range(&self) -> (r: Range<Percentage>)
        ensures
            r == (Range {
                min: Percentage(spec_cooler_v1(*self).currentMinLevel),
                max: Percentage(spec_cooler_v1(*self).currentMaxLevel),
            }),
    {
        let v = self.v1();
        Range { min: Percentage(v.currentMinLevel), max: Percentage(v.currentMaxLevel) }
    }

    /// The tachometer range; only the fourth version reports it.
    pub fn tach_range(&self) -> (r: Option<Range<Rpm>>)
        ensures
            r == (match *self {
                GetCoolerSettings::V4(v) => spec_tach_range(v.v3.tachometer),
                _ => None,
            }),
    {
        match self {
            GetCoolerSettings::V4(v) => {
                let t = &v.v3.tachometer;
                if t.bSupported.get() {
                    Some(Range { min: Rpm(t.minSpeedRPM), max: Rpm(t.maxSpeedRPM) })
                } else {
                    None
                }
            },
            _ => None,
        }
    }

    /// The tachometer reading; only the fourth version reports it.
    pub fn tach(&self) -> (r: Option<Rpm>)
        ensures
            r == (match *self {
                GetCoolerSettings::V4(v) => spec_tach(v.v3.tachometer),
                _ => None,
            }),
    {
        match self {
            GetCoolerSettings::V4(v) => {
                let t = &v.v3.tachometer;
                if t.bSupported.get() { Some(Rpm(t.speedRPM)) } else { None }
            },
            _ => None,
        }
    }

    /// Sets the tachometer reading where the version has a tachometer (the
    /// third and fourth); the first version is left unchanged.
    pub fn set_tach(&mut self, value: Option<Rpm>)
        ensures
            *final(self) == (match *old(self) {
                GetCoolerSettings::V4(v) => GetCoolerSettings::V4(NV_GPU_GETCOOLER_SETTING_V4 {
                    v3: NV_GPU_GETCOOLER_SETTING_V3 { tachometer: spec_set_tach(v.v3.tachometer, value), ..v.v3 },
                    ..v
                }),
                GetCoolerSettings::V3(v) => GetCoolerSettings::V3(NV_GPU_GETCOOLER_SETTING_V3 {
                    tachometer: spec_set_tach(v.tachometer, value),
                    ..v
                }),
                GetCoolerSettings::V1(v) => GetCoolerSettings::V1(v),
            }),
    {
        match self {
            GetCoolerSettings::V4(v) => tach_set(&mut v.v3.tachometer, value),
            GetCoolerSettings::V3(v) => tach_set(&mut v.tachometer, value),
            GetCoolerSettings::V1(..) => (),
        }
    }

    /// Sets the tachometer range where the version has a tachometer (see
    /// `spec_set_tach_range` for what is stored); the first version is left
    /// unchanged.
    pub fn set_tach_range(&mut self, value: Option<Range<Rpm>>)
        ensures
            *final(self) == (match *old(self) {
                GetCoolerSettings::V4(v) => GetCoolerSettings::V4(NV_GPU_GETCOOLER_SETTING_V4 {
                    v3: NV_GPU_GETCOOLER_SETTING_V3 { tachometer: spec_set_tach_range(v.v3.tachometer, value), ..v.v3 },
                    ..v
                }),
                GetCoolerSettings::V3(v) => GetCoolerSettings::V3(NV_GPU_GETCOOLER_SETTING_V3 {
                    tachometer: spec_set_tach_range(v.tachometer, value),
                    ..v
                }),
                GetCoolerSettings::V1(v) => GetCoolerSettings::V1(v),
            }),
    {
        match self {
            GetCoolerSettings::V4(v) => tach_set_range(&mut v.v3.tachometer, value),
            GetCoolerSettings::V3(v) => tach_set_range(&mut v.tachometer, value),
            GetCoolerSettings::V1(..) => (),
        }
    }
}

/// Setting a tachometer reading on fourth-version settings and reading it back
/// gives the reading set.
pub proof fn lemma_tach_set_get(s: NV_GPU_GETCOOLER_SETTING_V4, value: Option<Rpm>)
    ensures
        spec_tach(spec_set_tach(s.v3.tachometer, value)) == value,
{
    let x = s.v3.tachometer.bSupported.0;
    assert((((x & 0xfffffffe) | 1u32) & 1 == 1) && (((x & 0xfffffffe) | 0u32) & 1 == 0)) by (bit_vector);
}

/// The description of one fan cooler.
#[derive(Copy, Clone, Debug, PartialEq, Eq, Structural)]
pub enum CoolerInfo {
    V1(NV_GPU_CLIENT_FAN_COOLER_INFO_V1),
}

/// A cooler description with the tachometer range set (none: not supported, zeros).
pub open spec fn spec_info_with_tach(c: NV_GPU_CLIENT_FAN_COOLER_INFO_V1, tach_range: Option<Range<Rpm>>) -> NV_GPU_CLIENT_FAN_COOLER_INFO_V1 {
    match tach_range {
        Some(r) => NV_GPU_CLIENT_FAN_COOLER_INFO_V1 { tach_supported: BoolU32(1), tach_min_rpm: r.min.0, tach_max_rpm: r.max.0, ..c },
        None => NV_GPU_CLIENT_FAN_COOLER_INFO_V1 { tach_supported: BoolU32(0), tach_min_rpm: 0, tach_max_rpm: 0, ..c },
    }
}

impl CoolerInfo {
    /// The raw fan cooler id.
    pub fn id(&self) -> (r: i32)
        ensures
            r == (match *self { CoolerInfo::V1(c) => c.cooler_id }),
    {
        match self {
            CoolerInfo::V1(c) => c.cooler_id,
        }
    }

    pub fn set_id(&mut self, id: i32)
        ensures
            *final(self) == (match *old(self) { CoolerInfo::V1(c) => CoolerInfo::V1(NV_GPU_CLIENT_FAN_COOLER_INFO_V1 { cooler_id: id, ..c }) }),
    {
        match self {
            CoolerInfo::V1(c) => c.cooler_id = id,
        }
    }

    /// The tachometer range, where the cooler has a tachometer.
    pub fn tach_range(&self) -> (r: Option<Range<Rpm>>)
        ensures
            r == (match *self {
                CoolerInfo::V1(c) => if c.tach_supported.spec_get() {
                    Some(Range { min: Rpm(c.tach_min_rpm), max: Rpm(c.tach_max_rpm) })
                } else {
                    None
                },
            }),
    {
        match self {
            CoolerInfo::V1(c) => if c.tach_supported.get() {
                Some(Range { min: Rpm(c.tach_min_rpm), max: Rpm(c.tach_max_rpm) })
            } else {
                None
            },
        }
    }

    /// Sets the tachometer range; `None` marks the tachometer unsupported.
    pub fn set_tach_range(&mut self, tach_range: Option<Range<Rpm>>)
        ensures
            *final(self) == (match *old(self) { CoolerInfo::V1(c) => CoolerInfo::V1(spec_info_with_tach(c, tach_range)) }),
    {
        match self {
            CoolerInfo::V1(c) => {
                let (supported, min, max) = match tach_range {
                    Some(r) => (1u32, r.min.0, r.max.0),
                    None => (0u32, 0u32, 0u32),
                };
                c.tach_supported = BoolU32(supported);
                c.tach_min_rpm = min;
                c.tach_max_rpm = max;
            },
        }
    }

    /// The description of cooler `id` built from its settings: no tachometer
    /// beyond what the settings report.
    pub fn from_settings(id: i32, settings: GetCoolerSettings) -> (r: Self)
        ensures
            r == CoolerInfo::V1(spec_info_with_tach(
                NV_GPU_CLIENT_FAN_COOLER_INFO_V1 { cooler_id: id, tach_supported: BoolU32(0), tach_min_rpm: 0, tach_max_rpm: 0 },
                spec_settings_tach_range(settings),
            )),
    {
        let mut info = CoolerInfo::V1(NV_GPU_CLIENT_FAN_COOLER_INFO_V1 { cooler_id: 0, tach_supported: BoolU32(0), tach_min_rpm: 0, tach_max_rpm: 0 });
        info.set_id(id);
        info.set_tach_range(settings.tach_range());
        info
    }
}

/// Reading back the tachometer range just set gives it.
pub proof fn lemma_info_tach_set_get(c: NV_GPU_CLIENT_FAN_COOLER_INFO_V1, tach_range: Option<Range<Rpm>>)
    ensures
        ({
            let d = spec_info_with_tach(c, tach_range);
            (if d.tach_supported.spec_get() {
                Some(Range { min: Rpm(d.tach_min_rpm), max: Rpm(d.tach_max_rpm) })
            } else {
                None
            }) == tach_range
        }),
{
    assert((1u32 & 1u32 == 1u32) && (0u32 & 1u32 == 0u32)) by (bit_vector);
}

/// The status of one fan cooler.
#[derive(Copy, Clone, Debug, PartialEq, Eq, Structural)]
pub enum CoolerStatus {
    V1(NV_GPU_CLIENT_FAN_COOLER_STATUS_V1),
}

impl CoolerStatus {
    pub fn id(&self) -> (r: i32)
        ensures
            r == (match *self { CoolerStatus::V1(c) => c.cooler_id }),
    {
        match self {
            CoolerStatus::V1(c) => c.cooler_id,
        }
    }

    pub fn level(&self) -> (r: Percentage)
        ensures
            r == (match *self { CoolerStatus::V1(c) => Percentage(c.level) }),
    {
        match self {
            CoolerStatus::V1(c) => Percentage(c.level),
        }
    }

    pub fn level_range(&self) -> (r: Range<Percentage>)
        ensures
            r == (match *self { CoolerStatus::V1(c) => Range { min: Percentage(c.level_minimum), max: Percentage(c.level_maximum) } }),
    {
        match self {
            CoolerStatus::V1(c) => Range { min: Percentage(c.level_minimum), max: Percentage(c.level_maximum) },
        }
    }

    pub fn tach(&self) -> (r: Rpm)
        ensures
            r == (match *self { CoolerStatus::V1(c) => Rpm(c.tach_rpm) }),
    {
        match self {
            CoolerStatus::V1(c) => Rpm(c.tach_rpm),
        }
    }
}

/// The tachometer range of settings (see `GetCoolerSettings::tach_range`).
pub open spec fn spec_settings_tach_range(s: GetCoolerSettings) -> Option<Range<Rpm>> {
    match s {
        GetCoolerSettings::V4(v) => spec_tach_range(v.v3.tachometer),
        _ => None,
    }
}

/// The tachometer reading of settings, zero where none is reported.
pub open spec fn spec_settings_tach_or_zero(s: GetCoolerSettings) -> u32 {
    match s {
        GetCoolerSettings::V4(v) => match spec_tach(v.v3.tachometer) { Some(t) => t.0, None => 0 },
        _ => 0,
    }
}

/// The status that cooler settings describe: their level, level range and
/// tachometer reading (zero where none is reported); the id is left zero.
pub open spec fn spec_status_of_settings(s: GetCoolerSettings) -> CoolerStatus {
    let v1 = spec_cooler_v1(s);
    CoolerStatus::V1(NV_GPU_CLIENT_FAN_COOLER_STATUS_V1 {
        cooler_id: 0,
        tach_rpm: spec_settings_tach_or_zero(s),
        level_minimum: v1.currentMinLevel,
        level_maximum: v1.currentMaxLevel,
        level: v1.currentLevel,
    })
}

impl From<GetCoolerSettings> for CoolerStatus {
    fn from(settings: GetCoolerSettings) -> (r: Self) {
        let level = settings.level();
        let range = settings.level_range();
        let tach = match settings.tach() {
            Some(t) => t.0,
            None => 0,
        };
        CoolerStatus::V1(NV_GPU_CLIENT_FAN_COOLER_STATUS_V1 {
            cooler_id: 0,
            tach_rpm: tach,
            level_minimum: range.min.0,
            level_maximum: range.max.0,
            level: level.0,
        })
    }
}

impl FromSpecImpl<GetCoolerSettings> for CoolerStatus {
    open spec fn obeys_from_spec() -> bool {
        true
    }

    open spec fn from_spec(settings: GetCoolerSettings) -> Self {
        spec_status_of_settings(settings)
    }
}

/// One level of a cooler policy table.
#[derive(Copy, Clone, Debug, PartialEq, Eq, Structural)]
pub struct NV_GPU_COOLER_POLICY_LEVEL {
    pub levelId: u32,
    pub currentLevel: u32,
    pub defaultLevel: u32,
}

/// The cooler levels of a policy (version 1).
#[derive(Copy, Clone, Debug, PartialEq, Eq)]
pub struct NV_GPU_COOLER_POLICY_TABLE_V1 {
    pub version: NvVersion,
    pub policy: i32,
    pub policyCoolerLevel: [NV_GPU_COOLER_POLICY_LEVEL; 24],
}

/// A cooler policy table as typed data.
pub type CoolerPolicyTableV1 = NvData<NV_GPU_COOLER_POLICY_TABLE_V1>;

impl CoolerPolicyTableV1 {
    /// The first `count` levels.
    pub fn levels(&self, count: usize) -> (r: &[NV_GPU_COOLER_POLICY_LEVEL])
        requires
            count <= NVAPI_MAX_COOLER_LEVELS,
        ensures
            r@ == self.sys.policyCoolerLevel@.subrange(0, count as int),
    {
        crate::sys_thermal::entries_prefix(self.sys.policyCoolerLevel.as_slice(), count)
    }
}

/// A cooler policy table, in the version the driver answered with.
#[derive(Copy, Clone, Debug, PartialEq, Eq)]
pub enum CoolerPolicyTable {
    V1(CoolerPolicyTableV1),
}

impl CoolerPolicyTable {
    /// The raw policy of the table.
    pub fn policy(&self) -> (r: i32)
        ensures
            r == (match *self { CoolerPolicyTable::V1(t) => t.sys.policy }),
    {
        match self {
            CoolerPolicyTable::V1(t) => t.sys.policy,
        }
    }

    /// The first `count` levels.
    pub fn levels(&self, count: usize) -> (r: Vec<NV_GPU_COOLER_POLICY_LEVEL>)
        requires
            count <= NVAPI_MAX_COOLER_LEVELS,
        ensures
            r@ == (match *self { CoolerPolicyTable::V1(t) => t.sys.policyCoolerLevel@.subrange(0, count as int) }),
    {
        match self {
            CoolerPolicyTable::V1(t) => {
                let l = t.levels(count);
                let mut out: Vec<NV_GPU_COOLER_POLICY_LEVEL> = Vec::new();
                let mut i: usize = 0;
                while i < l.len()
                    invariant
                        i <= l@.len(),
                        out@ == l@.subrange(0, i as int),
                    decreases l@.len() - i,
                {
                    out.push(l[i]);
                    i += 1;
                }
                assert(l@.subrange(0, l@.len() as int) =~= l@);
                out
            },
        }
    }
}

} // verus!
