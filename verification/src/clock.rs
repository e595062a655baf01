use vstd::prelude::*;
use crate::types::{Kilohertz, Microvolts, Percentage};
use crate::version::{NvVersion, pack_version};
use crate::sys_clock::{NV_GPU_PERF_CLIENT_LIMITS_ENTRY, NV_GPU_PERF_CLIENT_LIMITS_V2};
use crate::sys_power::{
    NV_GPU_CLOCK_CLIENT_CLK_VF_POINT, NV_GPU_CLOCK_CLIENT_CLK_VF_POINT_STATUS_V1,
    NV_GPU_CLOCK_CLIENT_CLK_VF_POINT_STATUS_V3,
};

verus! {

/// The kind of clock a VF point mask entry belongs to.
#[derive(Copy, Clone, Debug, PartialEq, Eq, Structural, Hash)]
pub enum VfpMaskType {
    Graphics,
    Memory,
    Unknown,
}

/// The kind of a VF point clock from its memory and graphics delta flags: one
/// flag names the kind, neither is unknown, both is no kind.
pub open spec fn spec_vfp_mask_type(mem_delta: u32, gpu_delta: u32) -> Option<VfpMaskType> {
    if mem_delta == 1 && gpu_delta == 0 {
        Some(VfpMaskType::Memory)
    } else if mem_delta == 0 && gpu_delta == 1 {
        Some(VfpMaskType::Graphics)
    } else if mem_delta == 0 && gpu_delta == 0 {
        Some(VfpMaskType::Unknown)
    } else {
        None
    }
}

/// The kind of a VF point clock (see `spec_vfp_mask_type`).
pub fn vfp_mask_type(mem_delta: u32, gpu_delta: u32) -> (r: Option<VfpMaskType>)
    ensures
        r == spec_vfp_mask_type(mem_delta, gpu_delta),
{
    if mem_delta == 1 && gpu_delta == 0 {
        Some(VfpMaskType::Memory)
    } else if mem_delta == 0 && gpu_delta == 1 {
        Some(VfpMaskType::Graphics)
    } else if mem_delta == 0 && gpu_delta == 0 {
        Some(VfpMaskType::Unknown)
    } else {
        None
    }
}

/// A point of the voltage/frequency curve.
#[derive(Copy, Clone, Debug, PartialEq, Eq, Structural)]
pub enum VfPoint {
    V1(NV_GPU_CLOCK_CLIENT_CLK_VF_POINT),
}

impl VfPoint {
    pub fn frequency(&self) -> (r: Kilohertz)
        ensures
            r == (match *self { VfPoint::V1(p) => Kilohertz(p.freq_kHz) }),
    {
        match self {
            VfPoint::V1(p) => Kilohertz(p.freq_kHz),
        }
    }

    pub fn voltage(&self) -> (r: Microvolts)
        ensures
            r == (match *self { VfPoint::V1(p) => Microvolts(p.voltage_uV) }),
    {
        match self {
            VfPoint::V1(p) => Microvolts(p.voltage_uV),
        }
    }
}

/// A raw point, where it is one: the all-zero point stands for none.
pub open spec fn spec_some_point(p: NV_GPU_CLOCK_CLIENT_CLK_VF_POINT) -> Option<VfPoint> {
    if p.freq_kHz == 0 && p.voltage_uV == 0 { None } else { Some(VfPoint::V1(p)) }
}

/// The status of one point of the VF curve, in the version the driver answered with.
#[derive(Copy, Clone, Debug, PartialEq, Eq, Structural)]
pub enum VfpEntry {
    V3(NV_GPU_CLOCK_CLIENT_CLK_VF_POINT_STATUS_V3),
    V1(NV_GPU_CLOCK_CLIENT_CLK_VF_POINT_STATUS_V1),
}

/// The current point of an entry.
pub open spec fn spec_entry_point(e: VfpEntry) -> VfPoint {
    match e {
        VfpEntry::V3(v) => VfPoint::V1(v.point),
        VfpEntry::V1(v) => VfPoint::V1(v.point),
    }
}

/// The overclocked point of an entry, where the version has one.
pub open spec fn spec_overclocked_point(e: VfpEntry) -> Option<VfPoint> {
    match e {
        VfpEntry::V3(v) => spec_some_point(v.point_overclocked),
        VfpEntry::V1(..) => None,
    }
}

fn some_point(p: NV_GPU_CLOCK_CLIENT_CLK_VF_POINT) -> (r: Option<VfPoint>)
    ensures
        r == spec_some_point(p),
{
    match p.to_option() {
        Some(p) => Some(VfPoint::V1(p)),
        None => None,
    }
}

impl VfpEntry {
    /// The raw clock type word of the entry.
    pub fn unknown(&self) -> (r: u32)
        ensures
            r == (match *self { VfpEntry::V3(v) => v.clock_type, VfpEntry::V1(v) => v.clock_type }),
    {
        match self {
            VfpEntry::V3(v) => v.clock_type,
            VfpEntry::V1(v) => v.clock_type,
        }
    }

    /// The current point.
    pub fn point(&self) -> (r: VfPoint)
        ensures
            r == spec_entry_point(*self),
    {
        match self {
            VfpEntry::V3(v) => VfPoint::V1(v.point),
            VfpEntry::V1(v) => VfPoint::V1(v.point),
        }
    }

    /// The default point, where the version has one and it is set.
    pub fn default_point(&self) -> (r: Option<VfPoint>)
        ensures
            r == (match *self {
                VfpEntry::V3(v) => spec_some_point(v.point_default),
                VfpEntry::V1(..) => None,
            }),
    {
        match self {
            VfpEntry::V3(v) => some_point(v.point_default),
            VfpEntry::V1(..) => None,
        }
    }

    /// The overclocked point, where the version has one and it is set.
    pub fn overclocked_point(&self) -> (r: Option<VfPoint>)
        ensures
            r == spec_overclocked_point(*self),
    {
        match self {
            VfpEntry::V3(v) => some_point(v.point_overclocked),
            VfpEntry::V1(..) => None,
        }
    }

    /// The point in effect: the overclocked point if set, else the current one.
    pub fn configured_point(&self) -> (r: VfPoint)
        ensures
            r == (match spec_overclocked_point(*self) {
                Some(p) => p,
                None => spec_entry_point(*self),
            }),
    {
        match self.overclocked_point() {
            Some(p) => p,
            None => self.point(),
        }
    }
}

/// Raw clock lock mode (`ClockLockMode`).
pub type NV_GPU_CLOCK_LOCK_MODE = i32;

pub const NVAPI_GPU_CLOCK_LOCK_NONE: i32 = 0;
pub const NVAPI_GPU_CLOCK_LOCK_MANUAL_FREQUENCY: i32 = 2;
pub const NVAPI_GPU_CLOCK_LOCK_MANUAL_VOLTAGE: i32 = 3;

/// One clock lock, in the version the driver answered with.
#[derive(Copy, Clone, Debug, PartialEq, Eq, Structural)]
pub enum ClockLockEntry {
    V2(NV_GPU_PERF_CLIENT_LIMITS_ENTRY),
}

/// The raw entry of a lock.
pub open spec fn spec_lock(e: ClockLockEntry) -> NV_GPU_PERF_CLIENT_LIMITS_ENTRY {
    match e {
        ClockLockEntry::V2(v) => v,
    }
}

/// The locked value, unless the lock is off.
pub open spec fn spec_lock_value(e: ClockLockEntry) -> Option<u32> {
    if spec_lock(e).mode == NVAPI_GPU_CLOCK_LOCK_NONE { None } else { Some(spec_lock(e).value) }
}

/// The locked voltage, where the lock is a manual voltage one.
pub open spec fn spec_lock_voltage(e: ClockLockEntry) -> Option<Microvolts> {
    if spec_lock(e).mode == NVAPI_GPU_CLOCK_LOCK_MANUAL_VOLTAGE { Some(Microvolts(spec_lock(e).value)) } else { None }
}

/// The locked frequency, where the lock is a manual frequency one.
pub open spec fn spec_lock_frequency(e: ClockLockEntry) -> Option<Kilohertz> {
    if spec_lock(e).mode == NVAPI_GPU_CLOCK_LOCK_MANUAL_FREQUENCY { Some(Kilohertz(spec_lock(e).value)) } else { None }
}

impl ClockLockEntry {
    /// The raw limit id.
    pub fn id(&self) -> (r: i32)
        ensures
            r == spec_lock(*self).id,
    {
        match self {
            ClockLockEntry::V2(v) => v.id,
        }
    }

    pub fn set_id(&mut self, id: i32)
        ensures
            *final(self) == ClockLockEntry::V2(NV_GPU_PERF_CLIENT_LIMITS_ENTRY { id, ..spec_lock(*old(self)) }),
    {
        match self {
            ClockLockEntry::V2(v) => v.id = id,
        }
    }

    /// The raw clock domain.
    pub fn domain(&self) -> (r: i32)
        ensures
            r == spec_lock(*self).clock_id,
    {
        match self {
            ClockLockEntry::V2(v) => v.clock_id,
        }
    }

    pub fn set_domain(&mut self, domain: i32)
        ensures
            *final(self) == ClockLockEntry::V2(NV_GPU_PERF_CLIENT_LIMITS_ENTRY { clock_id: domain, ..spec_lock(*old(self)) }),
    {
        match self {
            ClockLockEntry::V2(v) => v.clock_id = domain,
        }
    }

    /// The raw lock mode.
    pub fn mode(&self) -> (r: NV_GPU_CLOCK_LOCK_MODE)
        ensures
            r == spec_lock(*self).mode,
    {
        match self {
            ClockLockEntry::V2(v) => v.mode,
        }
    }

    pub fn set_mode(&mut self, mode: NV_GPU_CLOCK_LOCK_MODE)
        ensures
            *final(self) == ClockLockEntry::V2(NV_GPU_PERF_CLIENT_LIMITS_ENTRY { mode, ..spec_lock(*old(self)) }),
    {
        match self {
            ClockLockEntry::V2(v) => v.mode = mode,
        }
    }

    /// The locked value, unless the lock is off.
    pub fn value(&self) -> (r: Option<u32>)
        ensures
            r == spec_lock_value(*self),
    {
        match self {
            ClockLockEntry::V2(v) => if v.mode == NVAPI_GPU_CLOCK_LOCK_NONE { None } else { Some(v.value) },
        }
    }

    /// Sets the locked value; `None` turns the lock off and clears the value.
    pub fn set_value(&mut self, value: Option<u32>)
        ensures
            *final(self) == ClockLockEntry::V2(match value {
                Some(x) => NV_GPU_PERF_CLIENT_LIMITS_ENTRY { value: x, ..spec_lock(*old(self)) },
                None => NV_GPU_PERF_CLIENT_LIMITS_ENTRY { value: 0, mode: NVAPI_GPU_CLOCK_LOCK_NONE, ..spec_lock(*old(self)) },
            }),
    {
        match self {
            ClockLockEntry::V2(v) => match value {
                Some(x) => v.value = x,
                None => {
                    v.mode = NVAPI_GPU_CLOCK_LOCK_NONE;
                    v.value = 0;
                },
            },
        }
    }

    /// The locked voltage, where the lock is a manual voltage one.
    pub fn voltage(&self) -> (r: Option<Microvolts>)
        ensures
            r == spec_lock_voltage(*self),
    {
        match self {
            ClockLockEntry::V2(v) => if v.mode == NVAPI_GPU_CLOCK_LOCK_MANUAL_VOLTAGE {
                match self.value() {
                    Some(x) => Some(Microvolts(x)),
                    None => None,
                }
            } else {
                None
            },
        }
    }

    /// Locks the voltage.
    pub fn set_voltage(&mut self, voltage: Microvolts)
        ensures
            *final(self) == ClockLockEntry::V2(NV_GPU_PERF_CLIENT_LIMITS_ENTRY {
                mode: NVAPI_GPU_CLOCK_LOCK_MANUAL_VOLTAGE,
                value: voltage.0,
                ..spec_lock(*old(self))
            }),
    {
        match self {
            ClockLockEntry::V2(v) => {
                v.mode = NVAPI_GPU_CLOCK_LOCK_MANUAL_VOLTAGE;
                v.value = voltage.0;
            },
        }
    }

    /// The locked frequency, where the lock is a manual frequency one.
    pub fn frequency(&self) -> (r: Option<Kilohertz>)
        ensures
            r == spec_lock_frequency(*self),
    {
        match self {
            ClockLockEntry::V2(v) => if v.mode == NVAPI_GPU_CLOCK_LOCK_MANUAL_FREQUENCY {
                match self.value() {
                    Some(x) => Some(Kilohertz(x)),
                    None => None,
                }
            } else {
                None
            },
        }
    }

    /// Locks the frequency.
    pub fn set_frequency(&mut self, frequency: Kilohertz)
        ensures
            *final(self) == ClockLockEntry::V2(NV_GPU_PERF_CLIENT_LIMITS_ENTRY {
                mode: NVAPI_GPU_CLOCK_LOCK_MANUAL_FREQUENCY,
                value: frequency.0,
                ..spec_lock(*old(self))
            }),
    {
        match self {
            ClockLockEntry::V2(v) => {
                v.mode = NVAPI_GPU_CLOCK_LOCK_MANUAL_FREQUENCY;
                v.value = frequency.0;
            },
        }
    }
}

/// A lock reads back what was set on it: a frequency lock gives its frequency
/// and no voltage, a voltage lock its voltage and no frequency, and a cleared
/// lock no value at all; the limit and the domain stay.
pub proof fn lemma_lock_set_get(e: ClockLockEntry, f: Kilohertz, v: Microvolts)
    ensures
        ({
            let a = ClockLockEntry::V2(NV_GPU_PERF_CLIENT_LIMITS_ENTRY { mode: NVAPI_GPU_CLOCK_LOCK_MANUAL_FREQUENCY, value: f.0, ..spec_lock(e) });
            spec_lock_frequency(a) == Some(f) && spec_lock_voltage(a) is None && spec_lock_value(a) == Some(f.0)
                && spec_lock(a).id == spec_lock(e).id && spec_lock(a).clock_id == spec_lock(e).clock_id
        }),
        ({
            let b = ClockLockEntry::V2(NV_GPU_PERF_CLIENT_LIMITS_ENTRY { mode: NVAPI_GPU_CLOCK_LOCK_MANUAL_VOLTAGE, value: v.0, ..spec_lock(e) });
            spec_lock_voltage(b) == Some(v) && spec_lock_frequency(b) is None && spec_lock_value(b) == Some(v.0)
        }),
        ({
            let c = ClockLockEntry::V2(NV_GPU_PERF_CLIENT_LIMITS_ENTRY { value: 0, mode: NVAPI_GPU_CLOCK_LOCK_NONE, ..spec_lock(e) });
            spec_lock_value(c) is None && spec_lock_voltage(c) is None && spec_lock_frequency(c) is None
        }),
{
}

/// The clock locks of a GPU, in the version the driver answered with.
#[derive(Copy, Clone, Debug, PartialEq, Eq)]
pub enum ClockLimits {
    V2(NV_GPU_PERF_CLIENT_LIMITS_V2),
}

impl ClockLimits {
    /// The `count` locks of the answer.
    pub fn into_entries(self) -> (r: Vec<ClockLockEntry>)
        requires
            match self { ClockLimits::V2(l) => l.count <= 32 },
        ensures
            match self { ClockLimits::V2(l) => r@ == Seq::new(l.count as nat, |i: int| ClockLockEntry::V2(l.entries@[i])) },
    {
        let mut out: Vec<ClockLockEntry> = Vec::new();
        match self {
            ClockLimits::V2(l) => {
                let e = l.entries();
                let mut i: usize = 0;
                while i < e.len()
                    invariant
                        i <= e@.len(),
                        l.count <= 32,
                        e@ == l.entries@.subrange(0, l.count as int),
                        out@ == Seq::new(i as nat, |j: int| ClockLockEntry::V2(l.entries@[j])),
                    decreases e@.len() - i,
                {
                    assert(e@[i as int] == l.entries@[i as int]);
                    out.push(ClockLockEntry::V2(e[i]));
                    i += 1;
                    assert(out@ =~= Seq::new(i as nat, |j: int| ClockLockEntry::V2(l.entries@[j])));
                }
            },
        }
        out
    }
}

/// The core voltage as the driver reports it.
#[derive(Copy, Clone, Debug, PartialEq, Eq, Structural)]
pub struct NV_GPU_CLIENT_VOLT_RAILS_STATUS_V1 {
    pub version: NvVersion,
    pub flags: u32,
    pub value_uV: u32,
}

/// The core voltage boost as the driver reports or takes it.
#[derive(Copy, Clone, Debug, PartialEq, Eq, Structural)]
pub struct NV_GPU_CLIENT_VOLT_RAILS_CONTROL_V1 {
    pub version: NvVersion,
    pub percent: u32,
}

/// The core voltage of a GPU.
#[derive(Copy, Clone, Debug, PartialEq, Eq, Structural)]
pub enum VoltageRails {
    V1(NV_GPU_CLIENT_VOLT_RAILS_STATUS_V1),
}

impl VoltageRails {
    pub fn voltage(&self) -> (r: Microvolts)
        ensures
            r == (match *self { VoltageRails::V1(v) => Microvolts(v.value_uV) }),
    {
        match self {
            VoltageRails::V1(v) => Microvolts(v.value_uV),
        }
    }
}

/// The core voltage boost of a GPU.
#[derive(Copy, Clone, Debug, PartialEq, Eq, Structural)]
pub enum VoltageSettings {
    V1(NV_GPU_CLIENT_VOLT_RAILS_CONTROL_V1),
}

impl VoltageSettings {
    /// The boost, in percent.
    pub fn core_voltage_boost(&self) -> (r: Percentage)
        ensures
            r == (match *self { VoltageSettings::V1(v) => Percentage(v.percent) }),
    {
        match self {
            VoltageSettings::V1(v) => Percentage(v.percent),
        }
    }

    /// Sets the boost, keeping the version word.
    pub fn set_core_voltage_boost(&mut self, value: Percentage)
        ensures
            *final(self) == (match *old(self) {
                VoltageSettings::V1(v) => VoltageSettings::V1(NV_GPU_CLIENT_VOLT_RAILS_CONTROL_V1 { percent: value.0, ..v }),
            }),
    {
        match self {
            VoltageSettings::V1(v) => v.percent = value.0,
        }
    }

    /// The request that sets the boost to `value`: the first struct version
    /// (ten 32-bit words) with the boost set.
    pub fn request(value: Percentage) -> (r: NV_GPU_CLIENT_VOLT_RAILS_CONTROL_V1)
        ensures
            r == (NV_GPU_CLIENT_VOLT_RAILS_CONTROL_V1 { version: NvVersion { data: pack_version(40, 1) }, percent: value.0 }),
    {
        let mut settings = VoltageSettings::V1(NV_GPU_CLIENT_VOLT_RAILS_CONTROL_V1 { version: NvVersion::new(40, 1), percent: 0 });
        settings.set_core_voltage_boost(value);
        match settings {
            VoltageSettings::V1(v) => v,
        }
    }
}

/// The known performance limit flags (`PerfFlags`): power, thermal,
/// reliability voltage, operating voltage, no load, and one more.
pub const PERF_FLAGS_KNOWN: u32 = 0x3f;

/// The performance policy info as the driver reports it.
#[derive(Copy, Clone, Debug, PartialEq, Eq, Structural)]
pub struct NV_GPU_PERF_POLICIES_INFO_PARAMS_V1 {
    pub version: NvVersion,
    pub maxUnknown: u32,
    pub limitSupport: u32,
}

/// The performance policy status as the driver reports it.
#[derive(Copy, Clone, Debug, PartialEq, Eq)]
pub struct NV_GPU_PERF_POLICIES_STATUS_PARAMS_V1 {
    pub version: NvVersion,
    pub flags: u32,
    pub timer: u64,
    pub limits: u32,
    pub zero0: u32,
    pub unknown: u32,
    pub zero1: u32,
    pub timers: [u64; 3],
}

/// The performance limits a GPU supports.
#[derive(Copy, Clone, Debug, PartialEq, Eq, Structural)]
pub enum PerfInfo {
    V1(NV_GPU_PERF_POLICIES_INFO_PARAMS_V1),
}

impl PerfInfo {
    pub fn max_unknown(&self) -> (r: u32)
        ensures
            r == (match *self { PerfInfo::V1(v) => v.maxUnknown }),
    {
        match self {
            PerfInfo::V1(v) => v.maxUnknown,
        }
    }

    /// The supported limits, unknown flags dropped.
    pub fn limits(&self) -> (r: u32)
        ensures
            r == (match *self { PerfInfo::V1(v) => v.limitSupport & PERF_FLAGS_KNOWN }),
    {
        match self {
            PerfInfo::V1(v) => v.limitSupport & PERF_FLAGS_KNOWN,
        }
    }
}

/// The performance limits a GPU is held by.
#[derive(Copy, Clone, Debug, PartialEq, Eq)]
pub enum PerfStatus {
    V1(NV_GPU_PERF_POLICIES_STATUS_PARAMS_V1),
}

impl PerfStatus {
    pub fn unknown(&self) -> (r: u32)
        ensures
            r == (match *self { PerfStatus::V1(v) => v.unknown }),
    {
        match self {
            PerfStatus::V1(v) => v.unknown,
        }
    }

    /// The limits in effect, unknown flags dropped.
    pub fn limits(&self) -> (r: u32)
        ensures
            r == (match *self { PerfStatus::V1(v) => v.limits & PERF_FLAGS_KNOWN }),
    {
        match self {
            PerfStatus::V1(v) => v.limits & PERF_FLAGS_KNOWN,
        }
    }
}

/// A voltage reading as the driver reports it.
#[derive(Copy, Clone, Debug, PartialEq, Eq, Structural)]
pub struct NV_VOLT_STATUS_V1 {
    pub version: NvVersion,
    pub flags: u32,
    pub count: u32,
    pub unknown: u32,
    pub value_uV: u32,
}

/// A voltage reading (the domain voltage or the voltage step).
#[derive(Copy, Clone, Debug, PartialEq, Eq, Structural)]
pub enum VoltageStatus {
    V1(NV_VOLT_STATUS_V1),
}

impl VoltageStatus {
    pub fn voltage(&self) -> (r: Microvolts)
        ensures
            r == (match *self { VoltageStatus::V1(v) => Microvolts(v.value_uV) }),
    {
        match self {
            VoltageStatus::V1(v) => Microvolts(v.value_uV),
        }
    }
}

/// One voltage of the voltage table.
#[derive(Copy, Clone, Debug, PartialEq, Eq, Structural)]
pub struct NV_VOLT_TABLE_ENTRY {
    pub voltage_domain: i32,
    pub voltage_uV: u32,
}

/// The voltage table as the driver reports it.
#[derive(Copy, Clone, Debug, PartialEq, Eq)]
pub struct NV_VOLT_TABLE_V1 {
    pub version: NvVersion,
    pub flags: u32,
    pub count: u32,
    pub entries: [NV_VOLT_TABLE_ENTRY; 16],
}

/// One voltage of the voltage table.
#[derive(Copy, Clone, Debug, PartialEq, Eq, Structural)]
pub enum VoltageEntry {
    V1(NV_VOLT_TABLE_ENTRY),
}

impl VoltageEntry {
    /// The raw voltage domain.
    pub fn domain(&self) -> (r: i32)
        ensures
            r == (match *self { VoltageEntry::V1(e) => e.voltage_domain }),
    {
        match self {
            VoltageEntry::V1(e) => e.voltage_domain,
        }
    }

    pub fn voltage(&self) -> (r: Microvolts)
        ensures
            r == (match *self { VoltageEntry::V1(e) => Microvolts(e.voltage_uV) }),
    {
        match self {
            VoltageEntry::V1(e) => Microvolts(e.voltage_uV),
        }
    }
}

/// The voltage table of a GPU.
#[derive(Copy, Clone, Debug, PartialEq, Eq)]
pub enum VoltageTable {
    V1(NV_VOLT_TABLE_V1),
}

impl VoltageTable {
    /// The `count` voltages of the table.
    pub fn into_entries(self) -> (r: Vec<VoltageEntry>)
        requires
            match self { VoltageTable::V1(t) => t.count <= 16 },
        ensures
            match self { VoltageTable::V1(t) => r@ == Seq::new(t.count as nat, |i: int| VoltageEntry::V1(t.entries@[i])) },
    {
        let mut out: Vec<VoltageEntry> = Vec::new();
        match self {
            VoltageTable::V1(t) => {
                let n = t.count as usize;
                let mut i: usize = 0;
                while i < n
                    invariant
                        n <= 16,
                        n == t.count,
                        i <= n,
                        out@ == Seq::new(i as nat, |j: int| VoltageEntry::V1(t.entries@[j])),
                    decreases n - i,
                {
                    out.push(VoltageEntry::V1(t.entries[i]));
                    i += 1;
                    assert(out@ =~= Seq::new(i as nat, |j: int| VoltageEntry::V1(t.entries@[j])));
                }
            },
        }
        out
    }
}

} // verus!
