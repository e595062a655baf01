#![allow(non_camel_case_types, non_snake_case)]
use vstd::prelude::*;
use crate::version::NvVersion;
use crate::boolu32::BoolU32;
use crate::sys_thermal::entries_prefix;

verus! {

pub const NVAPI_MAX_GPU_CLOCKS: usize = 32;
pub const NVAPI_MAX_GPU_PUBLIC_CLOCKS: usize = 32;
pub const NVAPI_MAX_GPU_PERF_CLOCKS: usize = 32;
pub const NVAPI_MAX_GPU_PERF_VOLTAGES: usize = 16;
pub const NVAPI_MAX_GPU_PERF_PSTATES: usize = 16;

/// Raw clock frequency type (`ClockFrequencyType`).
pub type NV_GPU_CLOCK_FREQUENCIES_CLOCK_TYPE = i32;

/// The frequency of one clock domain.
#[derive(Copy, Clone, Debug, PartialEq, Eq, Structural)]
pub struct NV_GPU_CLOCK_FREQUENCIES_DOMAIN {
    pub bIsPresent: BoolU32,
    pub frequency: u32,
}

/// The clock frequencies of a GPU.
#[derive(Copy, Clone, Debug, PartialEq, Eq)]
pub struct NV_GPU_CLOCK_FREQUENCIES_V1 {
    pub version: NvVersion,
    /// Bits 0..2 hold the clock type.
    pub reserved: u32,
    pub domain: [NV_GPU_CLOCK_FREQUENCIES_DOMAIN; 32],
}

impl NV_GPU_CLOCK_FREQUENCIES_V1 {
    /// The clock type held in the low two bits.
    pub fn ClockType(&self) -> (r: NV_GPU_CLOCK_FREQUENCIES_CLOCK_TYPE)
        ensures
            r == (self.reserved & 3) as i32,
    {
        (self.reserved & 3) as i32
    }

    /// Stores the clock type (its low two bits), clearing the other reserved bits.
    pub fn set_ClockType(&mut self, value: NV_GPU_CLOCK_FREQUENCIES_CLOCK_TYPE)
        ensures
            final(self).reserved == (value as u32) & 3,
            final(self).version == old(self).version,
            final(self).domain == old(self).domain,
    {
        self.reserved = (value as u32) & 3;
    }
}

/// Setting a clock type in `0..4` and reading it back gives it unchanged.
pub proof fn lemma_clock_type_roundtrip(value: i32)
    requires
        0 <= value < 4,
    ensures
        (((value as u32) & 3) & 3) as i32 == value,
{
    let v = value as u32;
    assert(v < 4);
    assert((v & 3) & 3 == v) by (bit_vector)
        requires v < 4u32;
}

/// One clock lock of a GPU.
#[derive(Copy, Clone, Debug, PartialEq, Eq, Structural)]
pub struct NV_GPU_PERF_CLIENT_LIMITS_ENTRY {
    pub id: i32,
    pub b: u32,
    pub mode: i32,
    pub d: u32,
    /// Voltage in uV or frequency in kHz depending on `id`.
    pub value: u32,
    pub clock_id: i32,
}

/// The clock locks of a GPU (version 2).
#[derive(Copy, Clone, Debug, PartialEq, Eq)]
pub struct NV_GPU_PERF_CLIENT_LIMITS_V2 {
    pub version: NvVersion,
    pub flags: u32,
    pub count: u32,
    pub entries: [NV_GPU_PERF_CLIENT_LIMITS_ENTRY; 32],
}

impl NV_GPU_PERF_CLIENT_LIMITS_V2 {
    /// The `count` entries that hold data.
    pub fn entries(&self) -> (r: &[NV_GPU_PERF_CLIENT_LIMITS_ENTRY])
        requires
            self.count <= 32,
        ensures
            r@ == self.entries@.subrange(0, self.count as int),
    {
        entries_prefix(self.entries.as_slice(), self.count as usize)
    }
}

/// The ECC configuration of a GPU.
#[derive(Copy, Clone, Debug, PartialEq, Eq, Structural)]
pub struct NV_GPU_ECC_CONFIGURATION_INFO {
    pub version: NvVersion,
    /// Bit 0: ECC enabled; bit 1: enabled by factory default.
    pub isEnabled: BoolU32,
}

impl NV_GPU_ECC_CONFIGURATION_INFO {
    pub fn isEnabled(&self) -> (r: bool)
        ensures
            r == self.isEnabled.spec_get(),
    {
        self.isEnabled.get()
    }

    pub fn isEnabledByDefault(&self) -> (r: bool)
        ensures
            r == (self.isEnabled.spec_flags() & 2 != 0),
    {
        self.isEnabled.flags() & 2 != 0
    }
}

} // verus!
