#![allow(non_camel_case_types, non_snake_case)]
use vstd::prelude::*;
use crate::boolu32::BoolU32;
use crate::version::NvVersion;
use crate::sys_clock::NV_GPU_ECC_CONFIGURATION_INFO;

verus! {

/// Raw ECC configuration (`EccConfiguration`).
pub type NV_ECC_CONFIGURATION = i32;

pub const NV_ECC_CONFIGURATION_NOT_SUPPORTED: i32 = 0;
pub const NV_ECC_CONFIGURATION_DEFERRED: i32 = 1;
pub const NV_ECC_CONFIGURATION_IMMEDIATE: i32 = 2;

/// The ECC status of a GPU as the driver reports it.
#[derive(Copy, Clone, Debug, PartialEq, Eq, Structural)]
pub struct NV_GPU_ECC_STATUS_INFO {
    pub version: NvVersion,
    pub isSupported: BoolU32,
    pub configurationOptions: NV_ECC_CONFIGURATION,
    pub isEnabled: BoolU32,
}

/// Counts of ECC errors.
#[derive(Copy, Clone, Debug, Default, PartialEq, Eq, Structural, Hash)]
pub struct NV_GPU_ECC_ERROR_INFO_ERRORS {
    pub single_bit_errors: u64,
    pub double_bit_errors: u64,
}

/// The ECC error counts of a GPU as the driver reports them.
#[derive(Copy, Clone, Debug, PartialEq, Eq, Structural)]
pub struct NV_GPU_ECC_ERROR_INFO {
    pub version: NvVersion,
    pub padding: u32,
    pub current: NV_GPU_ECC_ERROR_INFO_ERRORS,
    pub aggregate: NV_GPU_ECC_ERROR_INFO_ERRORS,
}

/// The ECC status of a GPU.
#[derive(Copy, Clone, Debug, PartialEq, Eq, Structural)]
pub enum EccStatus {
    V1(NV_GPU_ECC_STATUS_INFO),
}

impl EccStatus {
    pub fn supported(&self) -> (r: bool)
        ensures
            r == (match *self { EccStatus::V1(s) => s.isSupported.spec_get() }),
    {
        match self {
            EccStatus::V1(s) => s.isSupported.get(),
        }
    }

    pub fn enabled(&self) -> (r: bool)
        ensures
            r == (match *self { EccStatus::V1(s) => s.isEnabled.spec_get() }),
    {
        match self {
            EccStatus::V1(s) => s.isEnabled.get(),
        }
    }

    /// The raw configuration options.
    pub fn configuration(&self) -> (r: NV_ECC_CONFIGURATION)
        ensures
            r == (match *self { EccStatus::V1(s) => s.configurationOptions }),
    {
        match self {
            EccStatus::V1(s) => s.configurationOptions,
        }
    }
}

/// Counts of ECC errors.
#[derive(Copy, Clone, Debug, PartialEq, Eq, Structural)]
pub enum EccErrorCount {
    V1(NV_GPU_ECC_ERROR_INFO_ERRORS),
}

impl EccErrorCount {
    pub fn single_bit(&self) -> (r: u64)
        ensures
            r == (match *self { EccErrorCount::V1(c) => c.single_bit_errors }),
    {
        match self {
            EccErrorCount::V1(c) => c.single_bit_errors,
        }
    }

    pub fn double_bit(&self) -> (r: u64)
        ensures
            r == (match *self { EccErrorCount::V1(c) => c.double_bit_errors }),
    {
        match self {
            EccErrorCount::V1(c) => c.double_bit_errors,
        }
    }
}

/// The ECC error counts of a GPU, current and aggregate.
#[derive(Copy, Clone, Debug, PartialEq, Eq, Structural)]
pub enum EccErrors {
    V1(NV_GPU_ECC_ERROR_INFO),
}

impl EccErrors {
    pub fn current(&self) -> (r: EccErrorCount)
        ensures
            r == (match *self { EccErrors::V1(e) => EccErrorCount::V1(e.current) }),
    {
        match self {
            EccErrors::V1(e) => EccErrorCount::V1(e.current),
        }
    }

    pub fn aggregate(&self) -> (r: EccErrorCount)
        ensures
            r == (match *self { EccErrors::V1(e) => EccErrorCount::V1(e.aggregate) }),
    {
        match self {
            EccErrors::V1(e) => EccErrorCount::V1(e.aggregate),
        }
    }
}

/// The ECC configuration of a GPU.
#[derive(Copy, Clone, Debug, PartialEq, Eq, Structural)]
pub enum EccConfigurationInfo {
    V1(NV_GPU_ECC_CONFIGURATION_INFO),
}

impl EccConfigurationInfo {
    pub fn enabled(&self) -> (r: bool)
        ensures
            r == (match *self { EccConfigurationInfo::V1(c) => c.isEnabled.spec_get() }),
    {
        match self {
            EccConfigurationInfo::V1(c) => c.isEnabled(),
        }
    }

    pub fn enabled_by_default(&self) -> (r: bool)
        ensures
            r == (match *self { EccConfigurationInfo::V1(c) => c.isEnabled.spec_flags() & 2 != 0 }),
    {
        match self {
            EccConfigurationInfo::V1(c) => c.isEnabledByDefault(),
        }
    }
}

} // verus!
