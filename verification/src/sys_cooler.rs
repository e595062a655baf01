#![allow(non_camel_case_types, non_snake_case)]
use vstd::prelude::*;
use crate::boolu32::BoolU32;
use crate::version::NvVersion;
use crate::sys_thermal::entries_prefix;

verus! {

pub const NVAPI_MIN_COOLER_LEVEL: usize = 0;
pub const NVAPI_MAX_COOLER_LEVEL: usize = 100;
pub const NVAPI_MAX_COOLER_LEVELS: usize = 24;
pub const NVAPI_MAX_COOLERS_PER_GPU: usize = 3;
pub const NVAPI_MAX_COOLERS_PER_GPU_VER2: usize = 20;
pub const NVAPI_MAX_COOLERS_PER_GPU_VER3: usize = 20;
pub const NVAPI_MAX_COOLERS_PER_GPU_VER4: usize = 20;

/// Whether a cooler is active (spinning).
#[derive(Copy, Clone, Debug, PartialEq, Eq, Structural, Hash)]
pub enum CoolerActivityLevel {
    Inactive,
    Active,
}

impl CoolerActivityLevel {
    pub fn get(&self) -> (r: bool)
        ensures
            r == (*self == CoolerActivityLevel::Active),
    {
        match *self {
            CoolerActivityLevel::Active => true,
            CoolerActivityLevel::Inactive => false,
        }
    }
}

/// Settings of one cooler (version 1); the enum fields hold raw driver values.
#[derive(Copy, Clone, Debug, PartialEq, Eq, Structural)]
pub struct NV_GPU_GETCOOLER_SETTING_V1 {
    pub type_: i32,
    pub controller: i32,
    pub defaultMinLevel: u32,
    pub defaultMaxLevel: u32,
    pub currentMinLevel: u32,
    pub currentMaxLevel: u32,
    pub currentLevel: u32,
    pub defaultPolicy: i32,
    pub currentPolicy: i32,
    pub target: i32,
    pub controlType: i32,
    pub active: i32,
}

/// Settings of the coolers of a GPU (version 1).
#[derive(Copy, Clone, Debug, PartialEq, Eq)]
pub struct NV_GPU_GETCOOLER_SETTINGS_V1 {
    pub version: NvVersion,
    pub count: u32,
    pub cooler: [NV_GPU_GETCOOLER_SETTING_V1; 3],
}

impl NV_GPU_GETCOOLER_SETTINGS_V1 {
    /// The `count` coolers that hold data.
    pub fn coolers(&self) -> (r: &[NV_GPU_GETCOOLER_SETTING_V1])
        requires
            self.count <= 3,
        ensures
            r@ == self.cooler@.subrange(0, self.count as int),
    {
        entries_prefix(self.cooler.as_slice(), self.count as usize)
    }
}

/// Tachometer reading of a cooler.
#[derive(Copy, Clone, Debug, PartialEq, Eq, Structural)]
pub struct NV_COOLER_TACHOMETER {
    pub speedRPM: u32,
    pub bSupported: BoolU32,
    pub maxSpeedRPM: u32,
    pub minSpeedRPM: u32,
}

/// Settings of one cooler with its tachometer (version 3).
#[derive(Copy, Clone, Debug, PartialEq, Eq, Structural)]
pub struct NV_GPU_GETCOOLER_SETTING_V3 {
    pub v1: NV_GPU_GETCOOLER_SETTING_V1,
    pub tachometer: NV_COOLER_TACHOMETER,
}

/// Settings of the coolers of a GPU (version 3).
#[derive(Copy, Clone, Debug, PartialEq, Eq)]
pub struct NV_GPU_GETCOOLER_SETTINGS_V3 {
    pub version: NvVersion,
    pub count: u32,
    pub cooler: [NV_GPU_GETCOOLER_SETTING_V3; 20],
}

impl NV_GPU_GETCOOLER_SETTINGS_V3 {
    /// The `count` coolers that hold data.
    pub fn coolers(&self) -> (r: &[NV_GPU_GETCOOLER_SETTING_V3])
        requires
            self.count <= 20,
        ensures
            r@ == self.cooler@.subrange(0, self.count as int),
    {
        entries_prefix(self.cooler.as_slice(), self.count as usize)
    }
}

/// Settings of one cooler (version 4).
#[derive(Copy, Clone, Debug, PartialEq, Eq, Structural)]
pub struct NV_GPU_GETCOOLER_SETTING_V4 {
    pub v3: NV_GPU_GETCOOLER_SETTING_V3,
    pub unknown: u32,
}

/// Settings of the coolers of a GPU (version 4).
#[derive(Copy, Clone, Debug, PartialEq, Eq)]
pub struct NV_GPU_GETCOOLER_SETTINGS_V4 {
    pub version: NvVersion,
    pub count: u32,
    pub cooler: [NV_GPU_GETCOOLER_SETTING_V4; 20],
}

impl NV_GPU_GETCOOLER_SETTINGS_V4 {
    /// The `count` coolers that hold data.
    pub fn coolers(&self) -> (r: &[NV_GPU_GETCOOLER_SETTING_V4])
        requires
            self.count <= 20,
        ensures
            r@ == self.cooler@.subrange(0, self.count as int),
    {
        entries_prefix(self.cooler.as_slice(), self.count as usize)
    }
}

/// Flags of a fan arbiter: `FAN_STOP` (1) and `FAN_STOP_DEFAULT` (2).
#[derive(Copy, Clone, Debug, PartialEq, Eq, Structural, Hash)]
pub struct FanArbiterInfoFlags {
    pub bits: u32,
}

impl FanArbiterInfoFlags {
    /// Supports full fan stop.
    pub const FAN_STOP: u32 = 1;
    /// Fan stop is enabled by default.
    pub const FAN_STOP_DEFAULT: u32 = 2;

    /// The known flags among `bits`; unknown bits are dropped.
    pub fn from_bits_truncate(bits: u32) -> (r: Self)
        ensures
            r.bits == bits & 3,
    {
        FanArbiterInfoFlags { bits: bits & 3 }
    }

    pub fn bits(&self) -> (r: u32)
        ensures
            r == self.bits,
    {
        self.bits
    }
}

/// Flags of a fan arbiter setting: `FAN_STOP` (1).
#[derive(Copy, Clone, Debug, PartialEq, Eq, Structural, Hash)]
pub struct FanArbiterControlFlags {
    pub bits: u32,
}

impl FanArbiterControlFlags {
    /// Fan stop enabled.
    pub const FAN_STOP: u32 = 1;

    /// The known flags among `bits`; unknown bits are dropped.
    pub fn from_bits_truncate(bits: u32) -> (r: Self)
        ensures
            r.bits == bits & 1,
    {
        FanArbiterControlFlags { bits: bits & 1 }
    }

    pub fn bits(&self) -> (r: u32)
        ensures
            r == self.bits,
    {
        self.bits
    }
}

/// One fan arbiter.
#[derive(Copy, Clone, Debug, PartialEq, Eq, Structural)]
pub struct NV_GPU_CLIENT_FAN_ARBITER_INFO_V1 {
    pub unknown: u32,
    pub flags: u32,
    pub arbiter_index: u32,
}

impl NV_GPU_CLIENT_FAN_ARBITER_INFO_V1 {
    /// The known flags.
    pub fn flags(&self) -> (r: FanArbiterInfoFlags)
        ensures
            r.bits == self.flags & 3,
    {
        FanArbiterInfoFlags::from_bits_truncate(self.flags)
    }
}

/// The fan arbiters of a GPU.
#[derive(Copy, Clone, Debug, PartialEq, Eq)]
pub struct NV_GPU_CLIENT_FAN_ARBITERS_INFO_V1 {
    pub version: NvVersion,
    pub count: u32,
    pub arbiters: [NV_GPU_CLIENT_FAN_ARBITER_INFO_V1; 32],
}

impl NV_GPU_CLIENT_FAN_ARBITERS_INFO_V1 {
    /// The `count` arbiters that hold data.
    pub fn arbiters(&self) -> (r: &[NV_GPU_CLIENT_FAN_ARBITER_INFO_V1])
        requires
            self.count <= 32,
        ensures
            r@ == self.arbiters@.subrange(0, self.count as int),
    {
        entries_prefix(self.arbiters.as_slice(), self.count as usize)
    }
}

/// The status of one fan arbiter.
#[derive(Copy, Clone, Debug, PartialEq, Eq, Structural)]
pub struct NV_GPU_CLIENT_FAN_ARBITER_STATUS_V1 {
    pub unknown0: u32,
    pub unknown1: u32,
}

impl NV_GPU_CLIENT_FAN_ARBITER_STATUS_V1 {
    /// Whether the fan is stopped.
    pub fn fan_stop_active(&self) -> (r: bool)
        ensures
            r == (self.unknown1 != 0),
    {
        self.unknown1 != 0
    }
}

/// The status of the fan arbiters of a GPU.
#[derive(Copy, Clone, Debug, PartialEq, Eq)]
pub struct NV_GPU_CLIENT_FAN_ARBITERS_STATUS_V1 {
    pub version: NvVersion,
    pub count: u32,
    pub arbiters: [NV_GPU_CLIENT_FAN_ARBITER_STATUS_V1; 32],
}

impl NV_GPU_CLIENT_FAN_ARBITERS_STATUS_V1 {
    /// The `count` arbiters that hold data.
    pub fn arbiters(&self) -> (r: &[NV_GPU_CLIENT_FAN_ARBITER_STATUS_V1])
        requires
            self.count <= 32,
        ensures
            r@ == self.arbiters@.subrange(0, self.count as int),
    {
        entries_prefix(self.arbiters.as_slice(), self.count as usize)
    }
}

/// The setting of one fan arbiter.
#[derive(Copy, Clone, Debug, PartialEq, Eq, Structural)]
pub struct NV_GPU_CLIENT_FAN_ARBITER_CONTROL_V1 {
    pub arbiter_index: u32,
    pub flags: u32,
}

impl NV_GPU_CLIENT_FAN_ARBITER_CONTROL_V1 {
    /// The known flags.
    pub fn flags(&self) -> (r: FanArbiterControlFlags)
        ensures
            r.bits == self.flags & 1,
    {
        FanArbiterControlFlags::from_bits_truncate(self.flags)
    }
}

/// The settings of the fan arbiters of a GPU.
#[derive(Copy, Clone, Debug, PartialEq, Eq)]
pub struct NV_GPU_CLIENT_FAN_ARBITERS_CONTROL_V1 {
    pub version: NvVersion,
    pub count: u32,
    pub arbiters: [NV_GPU_CLIENT_FAN_ARBITER_CONTROL_V1; 32],
}

impl NV_GPU_CLIENT_FAN_ARBITERS_CONTROL_V1 {
    /// The `count` arbiters that hold data.
    pub fn arbiters(&self) -> (r: &[NV_GPU_CLIENT_FAN_ARBITER_CONTROL_V1])
        requires
            self.count <= 32,
        ensures
            r@ == self.arbiters@.subrange(0, self.count as int),
    {
        entries_prefix(self.arbiters.as_slice(), self.count as usize)
    }
}

/// Description of one fan cooler; `cooler_id` is the raw `FanCoolerId`.
#[derive(Copy, Clone, Debug, PartialEq, Eq, Structural)]
pub struct NV_GPU_CLIENT_FAN_COOLER_INFO_V1 {
    pub cooler_id: i32,
    pub tach_supported: BoolU32,
    pub tach_min_rpm: u32,
    pub tach_max_rpm: u32,
}

/// Description of the fan coolers of a GPU.
#[derive(Copy, Clone, Debug, PartialEq, Eq)]
pub struct NV_GPU_CLIENT_FAN_COOLERS_INFO_V1 {
    pub version: NvVersion,
    pub flags: u32,
    pub count: u32,
    pub coolers: [NV_GPU_CLIENT_FAN_COOLER_INFO_V1; 32],
}

impl NV_GPU_CLIENT_FAN_COOLERS_INFO_V1 {
    /// Whether the valid flag is set.
    pub fn valid(&self) -> (r: bool)
        ensures
            r == (self.flags & 1 != 0),
    {
        self.flags & 1 != 0
    }

    /// The `count` coolers that hold data.
    pub fn coolers(&self) -> (r: &[NV_GPU_CLIENT_FAN_COOLER_INFO_V1])
        requires
            self.count <= 32,
        ensures
            r@ == self.coolers@.subrange(0, self.count as int),
    {
        entries_prefix(self.coolers.as_slice(), self.count as usize)
    }
}

/// Status of one fan cooler.
#[derive(Copy, Clone, Debug, PartialEq, Eq, Structural)]
pub struct NV_GPU_CLIENT_FAN_COOLER_STATUS_V1 {
    pub cooler_id: i32,
    pub tach_rpm: u32,
    pub level_minimum: u32,
    pub level_maximum: u32,
    pub level: u32,
}

/// Status of the fan coolers of a GPU.
#[derive(Copy, Clone, Debug, PartialEq, Eq)]
pub struct NV_GPU_CLIENT_FAN_COOLERS_STATUS_V1 {
    pub version: NvVersion,
    pub count: u32,
    pub coolers: [NV_GPU_CLIENT_FAN_COOLER_STATUS_V1; 32],
}

impl NV_GPU_CLIENT_FAN_COOLERS_STATUS_V1 {
    /// The `count` coolers that hold data.
    pub fn coolers(&self) -> (r: &[NV_GPU_CLIENT_FAN_COOLER_STATUS_V1])
        requires
            self.count <= 32,
        ensures
            r@ == self.coolers@.subrange(0, self.count as int),
    {
        entries_prefix(self.coolers.as_slice(), self.count as usize)
    }
}

/// Control of one fan cooler.
#[derive(Copy, Clone, Debug, PartialEq, Eq, Structural)]
pub struct NV_GPU_CLIENT_FAN_COOLER_CONTROL_V1 {
    pub cooler_id: i32,
    pub level: u32,
    pub flags: u32,
}

impl NV_GPU_CLIENT_FAN_COOLER_CONTROL_V1 {
    /// Whether the cooler is under manual control (bit 0 of the flags).
    pub fn manual(&self) -> (r: bool)
        ensures
            r == (self.flags & 1 != 0),
    {
        self.flags & 1 != 0
    }

    /// Sets manual control, keeping the other flag bits.
    pub fn set_manual(&mut self, manual: bool)
        ensures
            final(self).flags == (old(self).flags & 0xfffffffe) | (if manual { 1u32 } else { 0u32 }),
            final(self).cooler_id == old(self).cooler_id,
            final(self).level == old(self).level,
    {
        self.flags = self.flags & 0xfffffffe | if manual { 1 } else { 0 }
    }
}

/// Control of the fan coolers of a GPU.
#[derive(Copy, Clone, Debug, PartialEq, Eq)]
pub struct NV_GPU_CLIENT_FAN_COOLERS_CONTROL_V1 {
    pub version: NvVersion,
    pub flags: u32,
    pub count: u32,
    pub coolers: [NV_GPU_CLIENT_FAN_COOLER_CONTROL_V1; 32],
}

impl NV_GPU_CLIENT_FAN_COOLERS_CONTROL_V1 {
    /// Whether the valid flag is set.
    pub fn valid(&self) -> (r: bool)
        ensures
            r == (self.flags & 1 != 0),
    {
        self.flags & 1 != 0
    }

    /// Sets the valid flag, keeping the other flag bits.
    pub fn set_valid(&mut self, valid: bool)
        ensures
            final(self).flags == (old(self).flags & 0xfffffffe) | (if valid { 1u32 } else { 0u32 }),
            final(self).count == old(self).count,
            final(self).coolers == old(self).coolers,
    {
        self.flags = self.flags & 0xfffffffe | if valid { 1 } else { 0 }
    }

    /// The `count` coolers that hold data.
    pub fn coolers(&self) -> (r: &[NV_GPU_CLIENT_FAN_COOLER_CONTROL_V1])
        requires
            self.count <= 32,
        ensures
            r@ == self.coolers@.subrange(0, self.count as int),
    {
        entries_prefix(self.coolers.as_slice(), self.count as usize)
    }
}

/// Setting and reading back the manual bit of a cooler control gives the value
/// set, and the other flag bits stay.
pub proof fn lemma_flag_bit_set_get(flags: u32, value: bool)
    ensures
        (((flags & 0xfffffffe) | (if value { 1u32 } else { 0u32 })) & 1 != 0) == value,
        ((flags & 0xfffffffe) | (if value { 1u32 } else { 0u32 })) & 0xfffffffe == flags & 0xfffffffe,
{
    assert((((flags & 0xfffffffe) | 1u32) & 1 != 0) && (((flags & 0xfffffffe) | 0u32) & 1 == 0)) by (bit_vector);
    assert((((flags & 0xfffffffe) | 1u32) & 0xfffffffe == flags & 0xfffffffe)
        && (((flags & 0xfffffffe) | 0u32) & 0xfffffffe == flags & 0xfffffffe)) by (bit_vector);
}

} // verus!
