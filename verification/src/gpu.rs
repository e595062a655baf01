#![allow(non_camel_case_types, non_snake_case)]
use vstd::prelude::*;
use crate::status::{ArgumentRangeError, Status, NvAPI_Status, status_code};
use crate::types::{Kibibytes, Rpm, NvData};
use crate::version::{NvVersion, VersionedStruct, StructVersion, pack_version};
use crate::error::{Api, NvapiError, NvapiResult, is_version_incompat, spec_with_api, with_api};
use crate::array::{Truncated, CountRange, CountBound};
use crate::string::{NvAPI_ShortString, utf8_lossy, is_ascii_bytes, ascii_chars};
use crate::power::{PowerInfo, PowerPolicies};
use crate::clock::{
    VoltageRails, VoltageSettings, PerfInfo, PerfStatus, VoltageStatus, VoltageTable,
    NV_GPU_CLIENT_VOLT_RAILS_STATUS_V1, NV_GPU_CLIENT_VOLT_RAILS_CONTROL_V1,
    NV_GPU_PERF_POLICIES_INFO_PARAMS_V1, NV_GPU_PERF_POLICIES_STATUS_PARAMS_V1, NV_VOLT_STATUS_V1,
    NV_VOLT_TABLE_V1,
};
use crate::thermal::{ThermalLimits, ThermalPolicies, Sensors, NV_GPU_THERMAL_SETTINGS_V1};
use crate::ecc::{EccStatus, EccErrors, EccConfigurationInfo, NV_GPU_ECC_STATUS_INFO, NV_GPU_ECC_ERROR_INFO};
use crate::sys_clock::{NV_GPU_CLOCK_FREQUENCIES_V1, NV_GPU_ECC_CONFIGURATION_INFO, NV_GPU_CLOCK_FREQUENCIES_DOMAIN, NV_GPU_CLOCK_FREQUENCIES_CLOCK_TYPE};
use crate::boolu32::BoolU32;
use crate::sys_cooler::{
    NV_GPU_CLIENT_FAN_COOLERS_INFO_V1, NV_GPU_CLIENT_FAN_ARBITERS_INFO_V1,
    NV_GPU_CLIENT_FAN_ARBITERS_STATUS_V1, NV_GPU_CLIENT_FAN_ARBITERS_CONTROL_V1,
};

verus! {

/// Raw architecture id (`ArchitectureId`).
pub type NV_GPU_ARCHITECTURE_ID = u32;
/// Raw architecture implementation id.
pub type NV_GPU_ARCH_IMPLEMENTATION_ID = u32;
/// Raw chip revision (`ChipRevision`).
pub type NV_GPU_CHIP_REVISION = u32;
/// Raw bus type (`BusType`).
pub type NV_GPU_BUS_TYPE = i32;

pub const NV_GPU_ARCHITECTURE_T2X: u32 = 0xE0000020;
pub const NV_GPU_ARCHITECTURE_T3X: u32 = 0xE0000030;
pub const NV_GPU_ARCHITECTURE_NV40: u32 = 0x00000040;
pub const NV_GPU_ARCHITECTURE_NV50: u32 = 0x00000050;
pub const NV_GPU_ARCHITECTURE_G78: u32 = 0x00000060;
pub const NV_GPU_ARCHITECTURE_G80: u32 = 0x00000080;
pub const NV_GPU_ARCHITECTURE_G90: u32 = 0x00000090;
pub const NV_GPU_ARCHITECTURE_GT200: u32 = 0x000000A0;
pub const NV_GPU_ARCHITECTURE_GF100: u32 = 0x000000C0;
pub const NV_GPU_ARCHITECTURE_GF110: u32 = 0x000000D0;
pub const NV_GPU_ARCHITECTURE_GK100: u32 = 0x000000E0;
pub const NV_GPU_ARCHITECTURE_GK110: u32 = 0x000000F0;
pub const NV_GPU_ARCHITECTURE_GK200: u32 = 0x00000100;
pub const NV_GPU_ARCHITECTURE_GM000: u32 = 0x00000110;
pub const NV_GPU_ARCHITECTURE_GM200: u32 = 0x00000120;
pub const NV_GPU_ARCHITECTURE_GP100: u32 = 0x00000130;
pub const NV_GPU_ARCHITECTURE_GV100: u32 = 0x00000140;
pub const NV_GPU_ARCHITECTURE_GV110: u32 = 0x00000150;
pub const NV_GPU_ARCHITECTURE_TU100: u32 = 0x00000160;
pub const NV_GPU_ARCHITECTURE_GA100: u32 = 0x00000170;
pub const NV_GPU_ARCHITECTURE_AD100: u32 = 0x00000180;

pub const NVAPI_GPU_BUS_TYPE_UNDEFINED: i32 = 0;
pub const NVAPI_GPU_BUS_TYPE_PCI: i32 = 1;
pub const NVAPI_GPU_BUS_TYPE_AGP: i32 = 2;
pub const NVAPI_GPU_BUS_TYPE_PCI_EXPRESS: i32 = 3;
pub const NVAPI_GPU_BUS_TYPE_FPCI: i32 = 4;
pub const NVAPI_GPU_BUS_TYPE_AXI: i32 = 5;

/// The PCI vendor id of NVIDIA.
pub const NVIDIA_VENDOR_ID: u16 = 0x10de;

/// The low half of a 32-bit PCI id word.
pub open spec fn low16(x: u32) -> u16 {
    (x % 0x10000) as u16
}

/// The high half of a 32-bit PCI id word.
pub open spec fn high16(x: u32) -> u16 {
    (x / 0x10000) as u16
}

/// The PCI ids of a GPU, as the driver reports them.
#[derive(Copy, Clone, Debug, Default, PartialEq, Eq, Structural, Hash, PartialOrd, Ord)]
pub struct PciIdentifiers {
    pub device_id: u32,
    pub subsystem_id: u32,
    pub revision_id: u32,
    pub ext_device_id: u32,
}

/// The (vendor, product) pair of a GPU: that of the board's subsystem for an
/// NVIDIA chip on a board with a subsystem id (keeping the chip's product id
/// where the subsystem gives none), else that of the chip.
pub open spec fn spec_pci_ids(p: PciIdentifiers) -> (u16, u16) {
    let vid = low16(p.device_id);
    let pid = high16(p.device_id);
    if vid == NVIDIA_VENDOR_ID && p.subsystem_id != 0 {
        let spid = high16(p.subsystem_id);
        (low16(p.subsystem_id), if spid == 0 { pid } else { spid })
    } else {
        (vid, pid)
    }
}

impl PciIdentifiers {
    /// The vendor and product ids (see `spec_pci_ids`).
    pub fn ids(&self) -> (r: (u16, u16))
        ensures
            r == spec_pci_ids(*self),
    {
        let device_id = self.device_id;
        let subsystem_id = self.subsystem_id;
        let pid = (device_id >> 16) as u16;
        let vid = device_id as u16;
        assert(pid == high16(device_id) && vid == low16(device_id)) by (bit_vector)
            requires
                pid == (device_id >> 16) as u16,
                vid == device_id as u16,
        ;
        if vid == 0x10de && subsystem_id != 0 {
            let spid = (subsystem_id >> 16) as u16;
            let svid = subsystem_id as u16;
            assert(spid == high16(subsystem_id) && svid == low16(subsystem_id)) by (bit_vector)
                requires
                    spid == (subsystem_id >> 16) as u16,
                    svid == subsystem_id as u16,
            ;
            (svid, if spid == 0 { pid } else { spid })
        } else {
            (vid, pid)
        }
    }

    /// The product id of `ids`.
    pub fn product_id(&self) -> (r: u16)
        ensures
            r == spec_pci_ids(*self).1,
    {
        self.ids().1
    }

    /// The vendor id of `ids`, as a raw vendor value.
    pub fn vendor_id(&self) -> (r: i32)
        ensures
            r == spec_pci_ids(*self).0 as i32,
    {
        self.ids().0 as i32
    }
}

/// The bus a GPU sits on.
#[derive(Copy, Clone, Debug, PartialEq, Eq, Structural, Hash)]
pub enum Bus {
    Pci { ids: PciIdentifiers },
    PciExpress { ids: PciIdentifiers, lanes: u32 },
    Other(NV_GPU_BUS_TYPE),
}

impl Default for Bus {
    fn default() -> (r: Self)
        ensures
            r == Bus::Other(0),
    {
        Bus::Other(0)
    }
}

/// The PCI ids carried by a bus, if it is a PCI one.
pub open spec fn spec_bus_pci_ids(b: Bus) -> Option<PciIdentifiers> {
    match b {
        Bus::Pci { ids } => Some(ids),
        Bus::PciExpress { ids, .. } => Some(ids),
        Bus::Other(..) => None,
    }
}

impl Bus {
    /// The raw bus type of this bus.
    pub fn bus_type(&self) -> (r: NV_GPU_BUS_TYPE)
        ensures
            r == (match *self {
                Bus::Pci { .. } => NVAPI_GPU_BUS_TYPE_PCI,
                Bus::PciExpress { .. } => NVAPI_GPU_BUS_TYPE_PCI_EXPRESS,
                Bus::Other(ty) => ty,
            }),
    {
        match self {
            Bus::Pci { .. } => NVAPI_GPU_BUS_TYPE_PCI,
            Bus::PciExpress { .. } => NVAPI_GPU_BUS_TYPE_PCI_EXPRESS,
            Bus::Other(ty) => *ty,
        }
    }

    /// The PCI ids of a PCI or PCI Express bus.
    pub fn pci_ids(&self) -> (r: Option<&PciIdentifiers>)
        ensures
            r == (match spec_bus_pci_ids(*self) {
                Some(ids) => Some(&ids),
                None => None,
            }),
    {
        match self {
            Bus::Pci { ids } => Some(ids),
            Bus::PciExpress { ids, .. } => Some(ids),
            _ => None,
        }
    }

    /// The vendor id of a PCI or PCI Express bus.
    pub fn vendor_id(&self) -> (r: Option<i32>)
        ensures
            r == (match spec_bus_pci_ids(*self) {
                Some(ids) => Some(spec_pci_ids(ids).0 as i32),
                None => None,
            }),
    {
        match self.pci_ids() {
            Some(ids) => Some(ids.vendor_id()),
            None => None,
        }
    }
}

/// Where a GPU sits: its bus, bus id, slot and interrupt line.
#[derive(Copy, Clone, Debug, Default, PartialEq, Eq, Structural, Hash)]
pub struct BusInfo {
    pub id: u32,
    pub slot_id: u32,
    pub irq: u32,
    pub bus: Bus,
}

impl BusInfo {
    /// The vendor id of the bus, if it is a PCI one.
    pub fn vendor_id(&self) -> (r: Option<i32>)
        ensures
            r == (match spec_bus_pci_ids(self.bus) {
                Some(ids) => Some(spec_pci_ids(ids).0 as i32),
                None => None,
            }),
    {
        self.bus.vendor_id()
    }
}

/// The WDDM version that a driver model value encodes.
pub open spec fn spec_wddm(value: u32) -> (u8, u8) {
    let major = ((value / 0x1000) % 0x10) as u8;
    (major, if major == 2 { 0u8 } else { ((value / 0x100) % 0x10) as u8 })
}

/// The driver model of a GPU (its WDDM version, encoded).
#[derive(Copy, Clone, Debug, Default, PartialEq, Eq, Structural, Hash, PartialOrd, Ord)]
pub struct DriverModel {
    pub value: u32,
}

impl DriverModel {
    pub fn new(value: u32) -> (r: Self)
        ensures
            r.value == value,
    {
        DriverModel { value }
    }

    /// The WDDM version: 2.0, or 1.x with x from bits 8..12.
    pub fn wddm(&self) -> (r: (u8, u8))
        ensures
            r == spec_wddm(self.value),
    {
        let value = self.value;
        let major = ((value >> 12) & 0xf) as u8;
        assert(major == ((value / 0x1000) % 0x10) as u8) by (bit_vector)
            requires
                major == ((value >> 12) & 0xf) as u8,
        ;
        if major == 2 {
            (major, 0)
        } else {
            let minor = (value >> 8) as u8 & 0xf;
            assert(minor == ((value / 0x100) % 0x10) as u8) by (bit_vector)
                requires
                    minor == (value >> 8) as u8 & 0xf,
            ;
            (major, minor)
        }
    }
}

/// The architecture of a GPU with its implementation.
#[derive(Copy, Clone, Debug, PartialEq, Eq, Structural, Hash)]
pub enum Architecture {
    T2X(NV_GPU_ARCH_IMPLEMENTATION_ID),
    T3X(NV_GPU_ARCH_IMPLEMENTATION_ID),
    NV40(NV_GPU_ARCH_IMPLEMENTATION_ID),
    NV50(NV_GPU_ARCH_IMPLEMENTATION_ID),
    G78(NV_GPU_ARCH_IMPLEMENTATION_ID),
    G80(NV_GPU_ARCH_IMPLEMENTATION_ID),
    G90(NV_GPU_ARCH_IMPLEMENTATION_ID),
    GT200(NV_GPU_ARCH_IMPLEMENTATION_ID),
    GF100(NV_GPU_ARCH_IMPLEMENTATION_ID),
    GK100(NV_GPU_ARCH_IMPLEMENTATION_ID),
    GK110(NV_GPU_ARCH_IMPLEMENTATION_ID),
    GK200(NV_GPU_ARCH_IMPLEMENTATION_ID),
    GM000(NV_GPU_ARCH_IMPLEMENTATION_ID),
    GM200(NV_GPU_ARCH_IMPLEMENTATION_ID),
    GP100(NV_GPU_ARCH_IMPLEMENTATION_ID),
    GV100(NV_GPU_ARCH_IMPLEMENTATION_ID),
    GV110(NV_GPU_ARCH_IMPLEMENTATION_ID),
    TU100(NV_GPU_ARCH_IMPLEMENTATION_ID),
    GA100(NV_GPU_ARCH_IMPLEMENTATION_ID),
    AD100(NV_GPU_ARCH_IMPLEMENTATION_ID),
    Unknown { id: NV_GPU_ARCHITECTURE_ID, implementation: NV_GPU_ARCH_IMPLEMENTATION_ID },
}

impl Default for Architecture {
    fn default() -> (r: Self)
        ensures
            r == (Architecture::Unknown { id: 0, implementation: 0 }),
    {
        Architecture::Unknown { id: 0, implementation: 0 }
    }
}

/// The architecture that an architecture id names, where `try_with_arch` knows it.
pub open spec fn spec_arch_of(id: NV_GPU_ARCHITECTURE_ID, i: NV_GPU_ARCH_IMPLEMENTATION_ID) -> Option<Architecture> {
    if id == NV_GPU_ARCHITECTURE_T2X { Some(Architecture::T2X(i)) }
    else if id == NV_GPU_ARCHITECTURE_T3X { Some(Architecture::T3X(i)) }
    else if id == NV_GPU_ARCHITECTURE_NV40 { Some(Architecture::NV40(i)) }
    else if id == NV_GPU_ARCHITECTURE_NV50 { Some(Architecture::NV50(i)) }
    else if id == NV_GPU_ARCHITECTURE_G78 { Some(Architecture::G78(i)) }
    else if id == NV_GPU_ARCHITECTURE_G80 { Some(Architecture::G80(i)) }
    else if id == NV_GPU_ARCHITECTURE_G90 { Some(Architecture::G90(i)) }
    else if id == NV_GPU_ARCHITECTURE_GT200 { Some(Architecture::GT200(i)) }
    else if id == NV_GPU_ARCHITECTURE_GF100 { Some(Architecture::GF100(i)) }
    else if id == NV_GPU_ARCHITECTURE_GK100 { Some(Architecture::GK100(i)) }
    else if id == NV_GPU_ARCHITECTURE_GK110 { Some(Architecture::GK110(i)) }
    else if id == NV_GPU_ARCHITECTURE_GK200 { Some(Architecture::GK200(i)) }
    else if id == NV_GPU_ARCHITECTURE_GM000 { Some(Architecture::GM000(i)) }
    else if id == NV_GPU_ARCHITECTURE_GM200 { Some(Architecture::GM200(i)) }
    else if id == NV_GPU_ARCHITECTURE_GP100 { Some(Architecture::GP100(i)) }
    else if id == NV_GPU_ARCHITECTURE_GV100 { Some(Architecture::GV100(i)) }
    else if id == NV_GPU_ARCHITECTURE_GV110 { Some(Architecture::GV110(i)) }
    else if id == NV_GPU_ARCHITECTURE_TU100 { Some(Architecture::TU100(i)) }
    else if id == NV_GPU_ARCHITECTURE_GA100 { Some(Architecture::GA100(i)) }
    else { None }
}

/// The architecture id of an architecture.
pub open spec fn spec_arch_id(a: Architecture) -> NV_GPU_ARCHITECTURE_ID {
    match a {
        Architecture::T2X(..) => NV_GPU_ARCHITECTURE_T2X,
        Architecture::T3X(..) => NV_GPU_ARCHITECTURE_T3X,
        Architecture::NV40(..) => NV_GPU_ARCHITECTURE_NV40,
        Architecture::NV50(..) => NV_GPU_ARCHITECTURE_NV50,
        Architecture::G78(..) => NV_GPU_ARCHITECTURE_G78,
        Architecture::G80(..) => NV_GPU_ARCHITECTURE_G80,
        Architecture::G90(..) => NV_GPU_ARCHITECTURE_G90,
        Architecture::GT200(..) => NV_GPU_ARCHITECTURE_GT200,
        Architecture::GF100(..) => NV_GPU_ARCHITECTURE_GF100,
        Architecture::GK100(..) => NV_GPU_ARCHITECTURE_GK100,
        Architecture::GK110(..) => NV_GPU_ARCHITECTURE_GK110,
        Architecture::GK200(..) => NV_GPU_ARCHITECTURE_GK200,
        Architecture::GM000(..) => NV_GPU_ARCHITECTURE_GM000,
        Architecture::GM200(..) => NV_GPU_ARCHITECTURE_GM200,
        Architecture::GP100(..) => NV_GPU_ARCHITECTURE_GP100,
        Architecture::GV100(..) => NV_GPU_ARCHITECTURE_GV100,
        Architecture::GV110(..) => NV_GPU_ARCHITECTURE_GV110,
        Architecture::TU100(..) => NV_GPU_ARCHITECTURE_TU100,
        Architecture::GA100(..) => NV_GPU_ARCHITECTURE_GA100,
        Architecture::AD100(..) => NV_GPU_ARCHITECTURE_AD100,
        Architecture::Unknown { id, .. } => id,
    }
}

/// The implementation id carried by an architecture.
pub open spec fn spec_arch_implementation(a: Architecture) -> NV_GPU_ARCH_IMPLEMENTATION_ID {
    match a {
        Architecture::T2X(i) => i,
        Architecture::T3X(i) => i,
        Architecture::NV40(i) => i,
        Architecture::NV50(i) => i,
        Architecture::G78(i) => i,
        Architecture::G80(i) => i,
        Architecture::G90(i) => i,
        Architecture::GT200(i) => i,
        Architecture::GF100(i) => i,
        Architecture::GK100(i) => i,
        Architecture::GK110(i) => i,
        Architecture::GK200(i) => i,
        Architecture::GM000(i) => i,
        Architecture::GM200(i) => i,
        Architecture::GP100(i) => i,
        Architecture::GV100(i) => i,
        Architecture::GV110(i) => i,
        Architecture::TU100(i) => i,
        Architecture::GA100(i) => i,
        Architecture::AD100(i) => i,
        Architecture::Unknown { implementation, .. } => implementation,
    }
}

/// `with_arch`: the known architecture, else `Unknown` with both ids.
pub open spec fn spec_with_arch(id: NV_GPU_ARCHITECTURE_ID, i: NV_GPU_ARCH_IMPLEMENTATION_ID) -> Architecture {
    match spec_arch_of(id, i) {
        Some(a) => a,
        None => Architecture::Unknown { id, implementation: i },
    }
}

impl Architecture {
    /// The architecture that `id` names, or a range error for an id that this
    /// function does not know (among them GF110 and AD100).
    pub fn try_with_arch(id: NV_GPU_ARCHITECTURE_ID, implementation: NV_GPU_ARCH_IMPLEMENTATION_ID) -> (r: Result<Self, ArgumentRangeError>)
        ensures
            r == (match spec_arch_of(id, implementation) {
                Some(a) => Ok::<Self, ArgumentRangeError>(a),
                None => Err(ArgumentRangeError),
            }),
    {
        let i = implementation;
        if id == NV_GPU_ARCHITECTURE_T2X { Ok(Architecture::T2X(i)) }
        else if id == NV_GPU_ARCHITECTURE_T3X { Ok(Architecture::T3X(i)) }
        else if id == NV_GPU_ARCHITECTURE_NV40 { Ok(Architecture::NV40(i)) }
        else if id == NV_GPU_ARCHITECTURE_NV50 { Ok(Architecture::NV50(i)) }
        else if id == NV_GPU_ARCHITECTURE_G78 { Ok(Architecture::G78(i)) }
        else if id == NV_GPU_ARCHITECTURE_G80 { Ok(Architecture::G80(i)) }
        else if id == NV_GPU_ARCHITECTURE_G90 { Ok(Architecture::G90(i)) }
        else if id == NV_GPU_ARCHITECTURE_GT200 { Ok(Architecture::GT200(i)) }
        else if id == NV_GPU_ARCHITECTURE_GF100 { Ok(Architecture::GF100(i)) }
        else if id == NV_GPU_ARCHITECTURE_GK100 { Ok(Architecture::GK100(i)) }
        else if id == NV_GPU_ARCHITECTURE_GK110 { Ok(Architecture::GK110(i)) }
        else if id == NV_GPU_ARCHITECTURE_GK200 { Ok(Architecture::GK200(i)) }
        else if id == NV_GPU_ARCHITECTURE_GM000 { Ok(Architecture::GM000(i)) }
        else if id == NV_GPU_ARCHITECTURE_GM200 { Ok(Architecture::GM200(i)) }
        else if id == NV_GPU_ARCHITECTURE_GP100 { Ok(Architecture::GP100(i)) }
        else if id == NV_GPU_ARCHITECTURE_GV100 { Ok(Architecture::GV100(i)) }
        else if id == NV_GPU_ARCHITECTURE_GV110 { Ok(Architecture::GV110(i)) }
        else if id == NV_GPU_ARCHITECTURE_TU100 { Ok(Architecture::TU100(i)) }
        else if id == NV_GPU_ARCHITECTURE_GA100 { Ok(Architecture::GA100(i)) }
        else { Err(ArgumentRangeError) }
    }

    /// The architecture that `id` names, else `Unknown` with both ids.
    pub fn with_arch(id: NV_GPU_ARCHITECTURE_ID, implementation: NV_GPU_ARCH_IMPLEMENTATION_ID) -> (r: Self)
        ensures
            r == spec_with_arch(id, implementation),
    {
        match Self::try_with_arch(id, implementation) {
            Ok(a) => a,
            Err(..) => Architecture::Unknown { id, implementation },
        }
    }

    /// The architecture id of this architecture.
    pub fn id(&self) -> (r: NV_GPU_ARCHITECTURE_ID)
        ensures
            r == spec_arch_id(*self),
    {
        match *self {
            Architecture::T2X(..) => NV_GPU_ARCHITECTURE_T2X,
            Architecture::T3X(..) => NV_GPU_ARCHITECTURE_T3X,
            Architecture::NV40(..) => NV_GPU_ARCHITECTURE_NV40,
            Architecture::NV50(..) => NV_GPU_ARCHITECTURE_NV50,
            Architecture::G78(..) => NV_GPU_ARCHITECTURE_G78,
            Architecture::G80(..) => NV_GPU_ARCHITECTURE_G80,
            Architecture::G90(..) => NV_GPU_ARCHITECTURE_G90,
            Architecture::GT200(..) => NV_GPU_ARCHITECTURE_GT200,
            Architecture::GF100(..) => NV_GPU_ARCHITECTURE_GF100,
            Architecture::GK100(..) => NV_GPU_ARCHITECTURE_GK100,
            Architecture::GK110(..) => NV_GPU_ARCHITECTURE_GK110,
            Architecture::GK200(..) => NV_GPU_ARCHITECTURE_GK200,
            Architecture::GM000(..) => NV_GPU_ARCHITECTURE_GM000,
            Architecture::GM200(..) => NV_GPU_ARCHITECTURE_GM200,
            Architecture::GP100(..) => NV_GPU_ARCHITECTURE_GP100,
            Architecture::GV100(..) => NV_GPU_ARCHITECTURE_GV100,
            Architecture::GV110(..) => NV_GPU_ARCHITECTURE_GV110,
            Architecture::TU100(..) => NV_GPU_ARCHITECTURE_TU100,
            Architecture::GA100(..) => NV_GPU_ARCHITECTURE_GA100,
            Architecture::AD100(..) => NV_GPU_ARCHITECTURE_AD100,
            Architecture::Unknown { id, .. } => id,
        }
    }
}

/// Building an architecture from ids keeps both: its id is the id it was built
/// from, and so is its implementation.
pub proof fn lemma_with_arch_keeps_ids(id: NV_GPU_ARCHITECTURE_ID, implementation: NV_GPU_ARCH_IMPLEMENTATION_ID)
    ensures
        spec_arch_id(spec_with_arch(id, implementation)) == id,
        spec_arch_implementation(spec_with_arch(id, implementation)) == implementation,
{
}

/// Every named architecture but AD100 (which `try_with_arch` does not build) is
/// rebuilt from its own id and implementation.
pub proof fn lemma_arch_roundtrip(a: Architecture)
    requires
        !(a is Unknown),
        !(a is AD100),
    ensures
        spec_arch_of(spec_arch_id(a), spec_arch_implementation(a)) == Some(a),
{
}

/// Architecture info of a GPU (`NV_GPU_ARCH_INFO_V1`).
#[derive(Copy, Clone, Debug, PartialEq, Eq, Structural)]
pub struct NV_GPU_ARCH_INFO_V1 {
    pub version: NvVersion,
    pub architecture: NV_GPU_ARCHITECTURE_ID,
    pub implementation: NV_GPU_ARCH_IMPLEMENTATION_ID,
    pub revision: NV_GPU_CHIP_REVISION,
}

/// The architecture info of a GPU.
#[derive(Copy, Clone, Debug, PartialEq, Eq, Structural)]
pub enum ArchInfo {
    V1(NV_GPU_ARCH_INFO_V1),
}

impl ArchInfo {
    pub fn architecture(&self) -> (r: NV_GPU_ARCHITECTURE_ID)
        ensures
            r == (match *self { ArchInfo::V1(v) => v.architecture }),
    {
        match self {
            ArchInfo::V1(v) => v.architecture,
        }
    }

    pub fn implementation(&self) -> (r: NV_GPU_ARCH_IMPLEMENTATION_ID)
        ensures
            r == (match *self { ArchInfo::V1(v) => v.implementation }),
    {
        match self {
            ArchInfo::V1(v) => v.implementation,
        }
    }

    pub fn revision(&self) -> (r: NV_GPU_CHIP_REVISION)
        ensures
            r == (match *self { ArchInfo::V1(v) => v.revision }),
    {
        match self {
            ArchInfo::V1(v) => v.revision,
        }
    }

    /// The architecture named by this info.
    pub fn arch(&self) -> (r: Architecture)
        ensures
            r == (match *self { ArchInfo::V1(v) => spec_with_arch(v.architecture, v.implementation) }),
    {
        Architecture::with_arch(self.architecture(), self.implementation())
    }
}

/// Memory info, first version (`NV_DISPLAY_DRIVER_MEMORY_INFO_V1`); sizes in KiB.
#[derive(Copy, Clone, Debug, PartialEq, Eq, Structural)]
pub struct NV_DISPLAY_DRIVER_MEMORY_INFO_V1 {
    pub version: NvVersion,
    pub dedicatedVideoMemory: u32,
    pub availableDedicatedVideoMemory: u32,
    pub systemVideoMemory: u32,
    pub sharedSystemMemory: u32,
}

/// Memory info, second version: adds the memory available now.
#[derive(Copy, Clone, Debug, PartialEq, Eq, Structural)]
pub struct NV_DISPLAY_DRIVER_MEMORY_INFO_V2 {
    pub v1: NV_DISPLAY_DRIVER_MEMORY_INFO_V1,
    pub curAvailableDedicatedVideoMemory: u32,
}

/// Memory info, third version: adds the evictions.
#[derive(Copy, Clone, Debug, PartialEq, Eq, Structural)]
pub struct NV_DISPLAY_DRIVER_MEMORY_INFO_V3 {
    pub v2: NV_DISPLAY_DRIVER_MEMORY_INFO_V2,
    pub dedicatedVideoMemoryEvictionsSize: u32,
    pub dedicatedVideoMemoryEvictionCount: u32,
}

impl VersionedStruct for NV_GPU_ARCH_INFO_V1 {
    open spec fn spec_nvapi_version(&self) -> NvVersion {
        self.version
    }

    open spec fn spec_with_version(&self, version: NvVersion) -> Self {
        (NV_GPU_ARCH_INFO_V1 { version, ..*self })
    }

    fn nvapi_version(&self) -> (r: NvVersion) {
        self.version
    }

    fn set_nvapi_version(&mut self, version: NvVersion) {
        self.version = version;
    }
}

impl StructVersion<1> for NV_GPU_ARCH_INFO_V1 {
    open spec fn spec_struct_version() -> NvVersion {
        NvVersion { data: pack_version(16, 1) }
    }

    fn struct_version() -> (r: NvVersion) {
        NvVersion::new(16, 1)
    }

    open spec fn spec_zeroed() -> Self {
        NV_GPU_ARCH_INFO_V1 { version: NvVersion { data: 0 }, architecture: 0, implementation: 0, revision: 0 }
    }

    fn zeroed() -> (r: Self) {
        let r = NV_GPU_ARCH_INFO_V1 { version: NvVersion { data: 0 }, architecture: 0, implementation: 0, revision: 0 };
        assert(r == <Self as StructVersion<1>>::spec_zeroed());
        r
    }
}

impl StructVersion<2> for NV_GPU_ARCH_INFO_V1 {
    open spec fn spec_struct_version() -> NvVersion {
        NvVersion { data: pack_version(16, 2) }
    }

    fn struct_version() -> (r: NvVersion) {
        NvVersion::new(16, 2)
    }

    open spec fn spec_zeroed() -> Self {
        NV_GPU_ARCH_INFO_V1 { version: NvVersion { data: 0 }, architecture: 0, implementation: 0, revision: 0 }
    }

    fn zeroed() -> (r: Self) {
        let r = NV_GPU_ARCH_INFO_V1 { version: NvVersion { data: 0 }, architecture: 0, implementation: 0, revision: 0 };
        assert(r == <Self as StructVersion<2>>::spec_zeroed());
        r
    }
}

impl VersionedStruct for NV_DISPLAY_DRIVER_MEMORY_INFO_V1 {
    open spec fn spec_nvapi_version(&self) -> NvVersion {
        self.version
    }

    open spec fn spec_with_version(&self, version: NvVersion) -> Self {
        (NV_DISPLAY_DRIVER_MEMORY_INFO_V1 { version, ..*self })
    }

    fn nvapi_version(&self) -> (r: NvVersion) {
        self.version
    }

    fn set_nvapi_version(&mut self, version: NvVersion) {
        self.version = version;
    }
}

impl VersionedStruct for NV_DISPLAY_DRIVER_MEMORY_INFO_V2 {
    open spec fn spec_nvapi_version(&self) -> NvVersion {
        self.v1.version
    }

    open spec fn spec_with_version(&self, version: NvVersion) -> Self {
        (NV_DISPLAY_DRIVER_MEMORY_INFO_V2 { v1: NV_DISPLAY_DRIVER_MEMORY_INFO_V1 { version, ..self.v1 }, ..*self })
    }

    fn nvapi_version(&self) -> (r: NvVersion) {
        self.v1.version
    }

    fn set_nvapi_version(&mut self, version: NvVersion) {
        self.v1.version = version;
    }
}

impl VersionedStruct for NV_DISPLAY_DRIVER_MEMORY_INFO_V3 {
    open spec fn spec_nvapi_version(&self) -> NvVersion {
        self.v2.v1.version
    }

    open spec fn spec_with_version(&self, version: NvVersion) -> Self {
        (NV_DISPLAY_DRIVER_MEMORY_INFO_V3 { v2: NV_DISPLAY_DRIVER_MEMORY_INFO_V2 { v1: NV_DISPLAY_DRIVER_MEMORY_INFO_V1 { version, ..self.v2.v1 }, ..self.v2 }, ..*self })
    }

    fn nvapi_version(&self) -> (r: NvVersion) {
        self.v2.v1.version
    }

    fn set_nvapi_version(&mut self, version: NvVersion) {
        self.v2.v1.version = version;
    }
}

/// The first memory info version with every field zero.
pub open spec fn spec_zero_memory_info_v1() -> NV_DISPLAY_DRIVER_MEMORY_INFO_V1 {
    NV_DISPLAY_DRIVER_MEMORY_INFO_V1 {
        version: NvVersion { data: 0 },
        dedicatedVideoMemory: 0,
        availableDedicatedVideoMemory: 0,
        systemVideoMemory: 0,
        sharedSystemMemory: 0,
    }
}

fn zero_memory_info_v1() -> (r: NV_DISPLAY_DRIVER_MEMORY_INFO_V1)
    ensures
        r == spec_zero_memory_info_v1(),
{
    NV_DISPLAY_DRIVER_MEMORY_INFO_V1 {
        version: NvVersion { data: 0 },
        dedicatedVideoMemory: 0,
        availableDedicatedVideoMemory: 0,
        systemVideoMemory: 0,
        sharedSystemMemory: 0,
    }
}

impl StructVersion<1> for NV_DISPLAY_DRIVER_MEMORY_INFO_V1 {
    /// Five 32-bit words.
    open spec fn spec_struct_version() -> NvVersion {
        NvVersion { data: pack_version(20, 1) }
    }

    fn struct_version() -> (r: NvVersion) {
        NvVersion::new(20, 1)
    }

    open spec fn spec_zeroed() -> Self {
        spec_zero_memory_info_v1()
    }

    fn zeroed() -> (r: Self) {
        let r = zero_memory_info_v1();
        assert(r == Self::spec_zeroed());
        r
    }
}

impl StructVersion<2> for NV_DISPLAY_DRIVER_MEMORY_INFO_V2 {
    /// Six 32-bit words.
    open spec fn spec_struct_version() -> NvVersion {
        NvVersion { data: pack_version(24, 2) }
    }

    fn struct_version() -> (r: NvVersion) {
        NvVersion::new(24, 2)
    }

    open spec fn spec_zeroed() -> Self {
        NV_DISPLAY_DRIVER_MEMORY_INFO_V2 { v1: spec_zero_memory_info_v1(), curAvailableDedicatedVideoMemory: 0 }
    }

    fn zeroed() -> (r: Self) {
        let r = NV_DISPLAY_DRIVER_MEMORY_INFO_V2 { v1: zero_memory_info_v1(), curAvailableDedicatedVideoMemory: 0 };
        assert(r == Self::spec_zeroed());
        r
    }
}

impl StructVersion<3> for NV_DISPLAY_DRIVER_MEMORY_INFO_V3 {
    /// Eight 32-bit words.
    open spec fn spec_struct_version() -> NvVersion {
        NvVersion { data: pack_version(32, 3) }
    }

    fn struct_version() -> (r: NvVersion) {
        NvVersion::new(32, 3)
    }

    open spec fn spec_zeroed() -> Self {
        NV_DISPLAY_DRIVER_MEMORY_INFO_V3 {
            v2: NV_DISPLAY_DRIVER_MEMORY_INFO_V2 { v1: spec_zero_memory_info_v1(), curAvailableDedicatedVideoMemory: 0 },
            dedicatedVideoMemoryEvictionsSize: 0,
            dedicatedVideoMemoryEvictionCount: 0,
        }
    }

    fn zeroed() -> (r: Self) {
        let r = NV_DISPLAY_DRIVER_MEMORY_INFO_V3 {
            v2: NV_DISPLAY_DRIVER_MEMORY_INFO_V2 { v1: zero_memory_info_v1(), curAvailableDedicatedVideoMemory: 0 },
            dedicatedVideoMemoryEvictionsSize: 0,
            dedicatedVideoMemoryEvictionCount: 0,
        };
        assert(r == Self::spec_zeroed());
        r
    }
}

/// The size in bytes of the memory info struct of each version (8, 6 and 5 words).
pub open spec fn spec_memory_info_size(version: u16) -> usize {
    if version == 3 { 32 } else if version == 2 { 24 } else { 20 }
}

/// The words of the memory info request of `version`: the version word first,
/// zeros after it.
pub fn memory_info_request(version: u16) -> (r: [u32; 8])
    ensures
        r@ == seq![pack_version(spec_memory_info_size(version), version), 0u32, 0u32, 0u32, 0u32, 0u32, 0u32, 0u32],
{
    let size: usize = if version == 3 { 32 } else if version == 2 { 24 } else { 20 };
    let r = [NvVersion::new(size, version).data, 0, 0, 0, 0, 0, 0, 0];
    assert(r@ =~= seq![pack_version(spec_memory_info_size(version), version), 0u32, 0u32, 0u32, 0u32, 0u32, 0u32, 0u32]);
    r
}

/// The first-version memory info read from the first five words.
pub open spec fn spec_memory_v1_of_words(w: Seq<u32>) -> NV_DISPLAY_DRIVER_MEMORY_INFO_V1 {
    NV_DISPLAY_DRIVER_MEMORY_INFO_V1 {
        version: NvVersion { data: w[0] },
        dedicatedVideoMemory: w[1],
        availableDedicatedVideoMemory: w[2],
        systemVideoMemory: w[3],
        sharedSystemMemory: w[4],
    }
}

/// The answer of the memory query asked with `version`, read from the words
/// the driver filled: the third version from all eight, the second from the
/// first six, the first from the first five.
pub open spec fn spec_memory_of_words(version: u16, w: Seq<u32>) -> MemoryInfo {
    let v2 = NV_DISPLAY_DRIVER_MEMORY_INFO_V2 { v1: spec_memory_v1_of_words(w), curAvailableDedicatedVideoMemory: w[5] };
    if version == 3 {
        MemoryInfo::V3(NV_DISPLAY_DRIVER_MEMORY_INFO_V3 {
            v2,
            dedicatedVideoMemoryEvictionsSize: w[6],
            dedicatedVideoMemoryEvictionCount: w[7],
        })
    } else if version == 2 {
        MemoryInfo::V2(v2)
    } else {
        MemoryInfo::V1(spec_memory_v1_of_words(w))
    }
}

/// The memory info request of each version announces the size of that
/// version's struct: eight 32-bit words for the third, six for the second and
/// five for the first.
pub proof fn lemma_memory_request_sizes()
    ensures
        spec_memory_info_size(3) == 8 * 4,
        spec_memory_info_size(2) == 6 * 4,
        spec_memory_info_size(1) == 5 * 4,
{
}

/// The memory info read from the driver's words follows the C layout of
/// `NV_DISPLAY_DRIVER_MEMORY_INFO`: the version word, then the dedicated video
/// memory, the available dedicated video memory, the system video memory and
/// the shared system memory (all versions), then the currently available
/// dedicated memory (from the second version), then the eviction size and
/// count (third version); the variant is the version asked.
pub proof fn lemma_memory_words_layout(version: u16, w: Seq<u32>)
    requires
        w.len() == 8,
    ensures
        spec_memory_v1(spec_memory_of_words(version, w)).version.data == w[0],
        spec_memory_v1(spec_memory_of_words(version, w)).dedicatedVideoMemory == w[1],
        spec_memory_v1(spec_memory_of_words(version, w)).availableDedicatedVideoMemory == w[2],
        spec_memory_v1(spec_memory_of_words(version, w)).systemVideoMemory == w[3],
        spec_memory_v1(spec_memory_of_words(version, w)).sharedSystemMemory == w[4],
        version == 3 ==> (spec_memory_of_words(version, w) matches MemoryInfo::V3(v)
            && v.v2.curAvailableDedicatedVideoMemory == w[5]
            && v.dedicatedVideoMemoryEvictionsSize == w[6]
            && v.dedicatedVideoMemoryEvictionCount == w[7]),
        version == 2 ==> (spec_memory_of_words(version, w) matches MemoryInfo::V2(v)
            && v.curAvailableDedicatedVideoMemory == w[5]),
        version != 3 && version != 2 ==> spec_memory_of_words(version, w) is V1,
{
}

/// The memory info of the version asked (see `spec_memory_of_words`).
pub fn memory_of_words(version: u16, w: [u32; 8]) -> (r: MemoryInfo)
    ensures
        r == spec_memory_of_words(version, w@),
{
    let v1 = NV_DISPLAY_DRIVER_MEMORY_INFO_V1 {
        version: NvVersion { data: w[0] },
        dedicatedVideoMemory: w[1],
        availableDedicatedVideoMemory: w[2],
        systemVideoMemory: w[3],
        sharedSystemMemory: w[4],
    };
    let v2 = NV_DISPLAY_DRIVER_MEMORY_INFO_V2 { v1, curAvailableDedicatedVideoMemory: w[5] };
    if version == 3 {
        MemoryInfo::V3(NV_DISPLAY_DRIVER_MEMORY_INFO_V3 {
            v2,
            dedicatedVideoMemoryEvictionsSize: w[6],
            dedicatedVideoMemoryEvictionCount: w[7],
        })
    } else if version == 2 {
        MemoryInfo::V2(v2)
    } else {
        MemoryInfo::V1(v1)
    }
}

/// The memory info of a GPU, in the version the driver answered with.
#[derive(Copy, Clone, Debug, PartialEq, Eq, Structural)]
pub enum MemoryInfo {
    V3(NV_DISPLAY_DRIVER_MEMORY_INFO_V3),
    V2(NV_DISPLAY_DRIVER_MEMORY_INFO_V2),
    V1(NV_DISPLAY_DRIVER_MEMORY_INFO_V1),
}

/// The first-version part of any memory info.
pub open spec fn spec_memory_v1(m: MemoryInfo) -> NV_DISPLAY_DRIVER_MEMORY_INFO_V1 {
    match m {
        MemoryInfo::V3(v) => v.v2.v1,
        MemoryInfo::V2(v) => v.v1,
        MemoryInfo::V1(v) => v,
    }
}

impl MemoryInfo {
    fn v1(&self) -> (r: &NV_DISPLAY_DRIVER_MEMORY_INFO_V1)
        ensures
            *r == spec_memory_v1(*self),
    {
        match self {
            MemoryInfo::V3(v) => &v.v2.v1,
            MemoryInfo::V2(v) => &v.v1,
            MemoryInfo::V1(v) => v,
        }
    }

    /// The struct version of this info.
    pub fn version(&self) -> (r: u16)
        ensures
            r == (match *self { MemoryInfo::V3(..) => 3u16, MemoryInfo::V2(..) => 2u16, MemoryInfo::V1(..) => 1u16 }),
    {
        match self {
            MemoryInfo::V3(..) => 3,
            MemoryInfo::V2(..) => 2,
            MemoryInfo::V1(..) => 1,
        }
    }

    /// Size of the framebuffer.
    pub fn dedicated(&self) -> (r: Kibibytes)
        ensures
            r == Kibibytes(spec_memory_v1(*self).dedicatedVideoMemory),
    {
        Kibibytes(self.v1().dedicatedVideoMemory)
    }

    /// Framebuffer available for video memory surfaces.
    pub fn dedicated_available(&self) -> (r: Kibibytes)
        ensures
            r == Kibibytes(spec_memory_v1(*self).availableDedicatedVideoMemory),
    {
        Kibibytes(self.v1().availableDedicatedVideoMemory)
    }

    /// System memory the driver allocates at load time.
    pub fn system(&self) -> (r: Kibibytes)
        ensures
            r == Kibibytes(spec_memory_v1(*self).systemVideoMemory),
    {
        Kibibytes(self.v1().systemVideoMemory)
    }

    /// Shared system memory the driver may commit.
    pub fn shared(&self) -> (r: Kibibytes)
        ensures
            r == Kibibytes(spec_memory_v1(*self).sharedSystemMemory),
    {
        Kibibytes(self.v1().sharedSystemMemory)
    }

    /// Framebuffer available now: known from the second version on.
    pub fn dedicated_available_current(&self) -> (r: Option<Kibibytes>)
        ensures
            r == (match *self {
                MemoryInfo::V3(v) => Some(Kibibytes(v.v2.curAvailableDedicatedVideoMemory)),
                MemoryInfo::V2(v) => Some(Kibibytes(v.curAvailableDedicatedVideoMemory)),
                MemoryInfo::V1(..) => None,
            }),
    {
        match self {
            MemoryInfo::V3(v) => Some(Kibibytes(v.v2.curAvailableDedicatedVideoMemory)),
            MemoryInfo::V2(v) => Some(Kibibytes(v.curAvailableDedicatedVideoMemory)),
            MemoryInfo::V1(..) => None,
        }
    }

    /// Size of the memory released by evictions: known in the third version.
    pub fn dedicated_evictions_size(&self) -> (r: Option<Kibibytes>)
        ensures
            r == (match *self {
                MemoryInfo::V3(v) => Some(Kibibytes(v.dedicatedVideoMemoryEvictionsSize)),
                _ => None,
            }),
    {
        match self {
            MemoryInfo::V3(v) => Some(Kibibytes(v.dedicatedVideoMemoryEvictionsSize)),
            _ => None,
        }
    }

    /// Number of evictions: known in the third version.
    pub fn dedicated_evictions(&self) -> (r: Option<u32>)
        ensures
            r == (match *self {
                MemoryInfo::V3(v) => Some(v.dedicatedVideoMemoryEvictionCount),
                _ => None,
            }),
    {
        match self {
            MemoryInfo::V3(v) => Some(v.dedicatedVideoMemoryEvictionCount),
            _ => None,
        }
    }
}

/// Raw monitor connector type (`MonitorConnectorType`).
pub type NV_MONITOR_CONN_TYPE = i32;

/// A display id entry as the driver reports it (`NV_GPU_DISPLAYIDS`).
#[derive(Copy, Clone, Debug, PartialEq, Eq, Structural)]
pub struct NV_GPU_DISPLAYIDS {
    pub version: u32,
    pub connectorType: NV_MONITOR_CONN_TYPE,
    pub displayId: u32,
    pub flags: u32,
}

/// A display attached to a GPU.
#[derive(Copy, Clone, Debug, PartialEq, Eq, Structural)]
pub enum DisplayId {
    V1(NV_GPU_DISPLAYIDS),
}

impl DisplayId {
    /// The raw connector type.
    pub fn connector(&self) -> (r: NV_MONITOR_CONN_TYPE)
        ensures
            r == (match *self { DisplayId::V1(d) => d.connectorType }),
    {
        match self {
            DisplayId::V1(d) => d.connectorType,
        }
    }

    pub fn display_id(&self) -> (r: u32)
        ensures
            r == (match *self { DisplayId::V1(d) => d.displayId }),
    {
        match self {
            DisplayId::V1(d) => d.displayId,
        }
    }

    /// The display flags; every bit of the word is a known flag.
    pub fn flags(&self) -> (r: u32)
        ensures
            r == (match *self { DisplayId::V1(d) => d.flags }),
    {
        match self {
            DisplayId::V1(d) => d.flags,
        }
    }
}

/// Flags of the connected display id query (`NV_GPU_CONNECTED_IDS_FLAG`):
/// `UNCACHED` (1), `SLI` (2), `LID_STATE` (4), `FAKE` (8), `EXCLUDE_MST` (0x10).
#[derive(Copy, Clone, Debug, PartialEq, Eq, Structural, Hash)]
pub struct ConnectedIdsFlags {
    pub bits: u32,
}

impl ConnectedIdsFlags {
    /// Uncached connected devices.
    pub const UNCACHED: u32 = 0x01;
    /// Devices that can be selected in an SLI configuration.
    pub const SLI: u32 = 0x02;
    /// Devices as the lid state shows them.
    pub const LID_STATE: u32 = 0x04;
    /// Fake connected monitors included.
    pub const FAKE: u32 = 0x08;
    /// Devices of a multi stream topology left out.
    pub const EXCLUDE_MST: u32 = 0x10;

    /// The known flags among `bits`; unknown bits are dropped.
    pub fn from_bits_truncate(bits: u32) -> (r: Self)
        ensures
            r.bits == bits & 0x1f,
    {
        ConnectedIdsFlags { bits: bits & 0x1f }
    }

    /// The flags among `bits`, where every bit is a known flag.
    pub fn from_bits(bits: u32) -> (r: Option<Self>)
        ensures
            r == (if bits & 0x1f == bits { Some(ConnectedIdsFlags { bits }) } else { None::<Self> }),
    {
        if bits & 0x1f == bits { Some(ConnectedIdsFlags { bits }) } else { None }
    }

    /// The flag word handed to the driver.
    pub fn bits(&self) -> (r: u32)
        ensures
            r == self.bits,
    {
        self.bits
    }
}

/// The most GPUs the driver enumerates.
pub const NVAPI_MAX_PHYSICAL_GPUS: usize = 64;

/// The target index that asks for every thermal sensor.
pub const NVAPI_THERMAL_TARGET_ALL: i32 = 15;

/// The driver's handle for one physical GPU (its address, as the driver gave it).
#[derive(Copy, Clone, Debug, Default, PartialEq, Eq, Structural, Hash)]
pub struct NvPhysicalGpuHandle(pub usize);

impl NvPhysicalGpuHandle {
    /// The handles of the GPUs, from the driver's reply to `NvAPI_EnumPhysicalGPUs`
    /// (the handle array and the number of valid entries). No NVIDIA device is no
    /// GPU at all, not an error.
    pub fn EnumPhysicalGPUs(
        reply: Result<([NvPhysicalGpuHandle; 64], u32), Status>,
    ) -> (r: Result<Truncated<[NvPhysicalGpuHandle; 64]>, Status>)
        ensures
            match reply {
                Ok((handles, count)) => r == Ok::<Truncated<[NvPhysicalGpuHandle; 64]>, Status>(Truncated {
                    data: handles,
                    count: CountRange { start: CountBound::Unbounded, end: CountBound::Excluded(count as usize) },
                }),
                Err(s) => if s == Status::NvidiaDeviceNotFound {
                    r matches Ok(t) && t.count == (CountRange { start: CountBound::Unbounded, end: CountBound::Excluded(0) })
                        && forall|i: int| 0 <= i < 64 ==> #[trigger] t.data@[i] == NvPhysicalGpuHandle(0)
                } else {
                    r == Err::<Truncated<[NvPhysicalGpuHandle; 64]>, Status>(s)
                },
            },
    {
        let res = match reply {
            Err(Status::NvidiaDeviceNotFound) => Ok(([NvPhysicalGpuHandle(0); 64], 0u32)),
            res => res,
        };
        match res {
            Ok((handles, count)) => Ok(Truncated::new_with(handles, CountRange::to(count as usize))),
            Err(s) => Err(s),
        }
    }
}

/// What a caller of a versioned driver call does next.
#[derive(Debug)]
pub enum VersionStep<T> {
    /// Ask again with this older struct version.
    Retry(u16),
    /// The answer.
    Done(NvapiResult<T>),
}

/// A reply, and the older version still to try: a failure that only means
/// "this struct version is not supported" moves on to that version; anything
/// else is the answer.
pub open spec fn spec_version_step<T>(reply: NvapiResult<T>, older: Option<u16>) -> VersionStep<T> {
    match reply {
        Ok(v) => VersionStep::Done(Ok(v)),
        Err(e) => match older {
            Some(v) => if is_version_incompat(e.status) {
                VersionStep::Retry(v)
            } else {
                VersionStep::Done(Err(e))
            },
            None => VersionStep::Done(Err(e)),
        },
    }
}

/// A versioned query moves on only to an older version, never below the oldest
/// (so the attempts end), and answers with every reply but a failure that only
/// means "this struct version is not supported".
pub proof fn lemma_version_step_descends<T>(reply: NvapiResult<T>, version: u16, oldest: u16)
    ensures
        spec_version_step(reply, spec_older(version, oldest)) matches VersionStep::Retry(v) ==> oldest <= v < version,
        spec_version_step(reply, spec_older(version, oldest)) matches VersionStep::Retry(_) ==>
            reply matches Err(e) && is_version_incompat(e.status),
        !(reply matches Err(e) && is_version_incompat(e.status) && version > oldest) ==>
            spec_version_step(reply, spec_older(version, oldest)) == VersionStep::Done(reply),
{
}

/// `Ok(Some(..))` for a success, `Ok(None)` for a failure that only means that
/// the struct version is not supported, the error otherwise.
pub fn allow_version_compat<T>(res: NvapiResult<T>) -> (r: Result<Option<T>, NvapiError>)
    ensures
        r == (match res {
            Ok(v) => Ok::<Option<T>, NvapiError>(Some(v)),
            Err(e) => if is_version_incompat(e.status) { Ok(None) } else { Err(e) },
        }),
{
    match res {
        Ok(v) => Ok(Some(v)),
        Err(e) => match e.allow_version_incompat() {
            Ok(()) => Ok(None),
            Err(e) => Err(e),
        },
    }
}

/// The next step after `reply`, with `older` the version to fall back to.
pub fn version_step<T>(reply: NvapiResult<T>, older: Option<u16>) -> (r: VersionStep<T>)
    ensures
        r == spec_version_step(reply, older),
{
    match older {
        None => VersionStep::Done(reply),
        Some(v) => match allow_version_compat(reply) {
            Ok(Some(x)) => VersionStep::Done(Ok(x)),
            Ok(None) => VersionStep::Retry(v),
            Err(e) => VersionStep::Done(Err(e)),
        },
    }
}

/// The version below `version`, down to `oldest`.
pub open spec fn spec_older(version: u16, oldest: u16) -> Option<u16> {
    if version > oldest { Some((version - 1) as u16) } else { None }
}

fn older(version: u16, oldest: u16) -> (r: Option<u16>)
    ensures
        r == spec_older(version, oldest),
{
    if version > oldest { Some(version - 1) } else { None }
}

/// A driver reply wrapped as typed data, its failure naming `nvid`.
pub open spec fn spec_wrap_reply<T>(reply: Result<T, Status>, nvid: Api) -> NvapiResult<NvData<T>> {
    match reply {
        Ok(v) => Ok(NvData { sys: v }),
        Err(s) => Err(NvapiError { status: NvAPI_Status { value: status_code(s) }, nvid }),
    }
}

fn wrap_reply<T>(reply: Result<T, Status>, nvid: Api) -> (r: NvapiResult<NvData<T>>)
    ensures
        r == spec_wrap_reply(reply, nvid),
{
    match with_api(reply, nvid) {
        Ok(v) => Ok(NvData::with_sys(v)),
        Err(e) => Err(e),
    }
}

/// A string reply read as text (see `NvString::to_string_lossy`), or the
/// failure naming `nvid`.
pub open spec fn string_reply_ok(r: NvapiResult<String>, reply: Result<NvAPI_ShortString, Status>, nvid: Api) -> bool {
    match reply {
        Ok(s) => r matches Ok(t) && t@ == utf8_lossy(s.text())
            && (is_ascii_bytes(s.text()) ==> t@ == ascii_chars(s.text())),
        Err(s) => r == Err::<String, NvapiError>(spec_api_error(s, nvid)),
    }
}

pub fn string_reply(reply: Result<NvAPI_ShortString, Status>, nvid: Api) -> (r: NvapiResult<String>)
    ensures
        string_reply_ok(r, reply, nvid),
{
    match reply {
        Ok(s) => Ok(s.to_string_lossy()),
        Err(s) => Err(NvapiError::new(NvAPI_Status::new(s), nvid)),
    }
}

/// A failed call's status as the error that names `nvid`.
pub open spec fn spec_api_error(s: Status, nvid: Api) -> NvapiError {
    NvapiError { status: NvAPI_Status { value: status_code(s) }, nvid }
}

/// The index to ask `NvAPI_GPU_GetThermalSettings` for: the target given, else all.
pub fn thermal_settings_index(index: Option<i32>) -> (r: i32)
    ensures
        r == (match index { Some(i) => i, None => NVAPI_THERMAL_TARGET_ALL }),
{
    match index {
        Some(i) => i,
        None => NVAPI_THERMAL_TARGET_ALL,
    }
}

/// A physical GPU. Each query takes the driver's reply to the call behind it
/// (a `Status` on failure) and gives back what the query answers.
#[derive(Copy, Clone, Debug, PartialEq, Eq, Structural)]
pub struct PhysicalGpu {
    handle: NvPhysicalGpuHandle,
}

impl PhysicalGpu {
    pub closed spec fn spec_handle(&self) -> NvPhysicalGpuHandle {
        self.handle
    }

    pub fn with_handle(handle: NvPhysicalGpuHandle) -> (r: Self)
        ensures
            r.spec_handle() == handle,
    {
        PhysicalGpu { handle }
    }

    pub fn handle(&self) -> (r: &NvPhysicalGpuHandle)
        ensures
            *r == self.spec_handle(),
    {
        &self.handle
    }

    /// The GPUs of the system, from the enumerated handles.
    pub fn enumerate(reply: Result<Truncated<[NvPhysicalGpuHandle; 64]>, Status>) -> (r: NvapiResult<Vec<Self>>)
        requires
            reply matches Ok(t) ==> count_start_le_end(t),
        ensures
            reply is Err ==> r == Err::<Vec<Self>, NvapiError>(spec_api_error(reply->Err_0, Api::NvAPI_EnumPhysicalGPUs)),
            reply matches Ok(t) ==> (r matches Ok(v) && v@.len() == t.spec_end() - t.spec_start()
                && forall|i: int| 0 <= i < v@.len() ==>
                    #[trigger] v@[i].spec_handle() == t.data@[t.spec_start() + i]),
    {
        match reply {
            Err(s) => Err(NvapiError::new(NvAPI_Status::new(s), Api::NvAPI_EnumPhysicalGPUs)),
            Ok(t) => {
                let handles = t.as_slice();
                let mut gpus: Vec<Self> = Vec::new();
                let mut i: usize = 0;
                while i < handles.len()
                    invariant
                        i <= handles@.len(),
                        handles@ == t.data@.subrange(t.spec_start() as int, t.spec_end() as int),
                        gpus@.len() == i,
                        forall|j: int| 0 <= j < i ==> #[trigger] gpus@[j].spec_handle() == handles@[j],
                    decreases handles@.len() - i,
                {
                    gpus.push(Self::with_handle(handles[i]));
                    i += 1;
                }
                Ok(gpus)
            },
        }
    }

    /// The fan speed reading.
    pub fn tachometer(&self, reply: Result<u32, Status>) -> (r: NvapiResult<Rpm>)
        ensures
            r == (match reply {
                Ok(v) => Ok(Rpm(v)),
                Err(s) => Err(spec_api_error(s, Api::NvAPI_GPU_GetTachReading)),
            }),
    {
        match with_api(reply, Api::NvAPI_GPU_GetTachReading) {
            Ok(v) => Ok(Rpm(v)),
            Err(e) => Err(e),
        }
    }

    pub fn short_name(&self, reply: Result<NvAPI_ShortString, Status>) -> (r: NvapiResult<String>)
        ensures
            string_reply_ok(r, reply, Api::NvAPI_GPU_GetShortName),
    {
        string_reply(reply, Api::NvAPI_GPU_GetShortName)
    }

    pub fn full_name(&self, reply: Result<NvAPI_ShortString, Status>) -> (r: NvapiResult<String>)
        ensures
            string_reply_ok(r, reply, Api::NvAPI_GPU_GetFullName),
    {
        string_reply(reply, Api::NvAPI_GPU_GetFullName)
    }

    /// The VBIOS revision and OEM revision; the first failure is the answer.
    pub fn vbios_version(&self, revision: Result<u32, Status>, oem_revision: Result<u32, Status>) -> (r: NvapiResult<(u32, u32)>)
        ensures
            r == (match (revision, oem_revision) {
                (Err(s), _) => Err(spec_api_error(s, Api::NvAPI_GPU_GetVbiosRevision)),
                (Ok(_), Err(s)) => Err(spec_api_error(s, Api::NvAPI_GPU_GetVbiosOEMRevision)),
                (Ok(a), Ok(b)) => Ok((a, b)),
            }),
    {
        let a = match with_api(revision, Api::NvAPI_GPU_GetVbiosRevision) {
            Ok(a) => a,
            Err(e) => return Err(e),
        };
        let b = match with_api(oem_revision, Api::NvAPI_GPU_GetVbiosOEMRevision) {
            Ok(b) => b,
            Err(e) => return Err(e),
        };
        Ok((a, b))
    }

    pub fn vbios_version_string(&self, reply: Result<NvAPI_ShortString, Status>) -> (r: NvapiResult<String>)
        ensures
            string_reply_ok(r, reply, Api::NvAPI_GPU_GetVbiosVersionString),
    {
        string_reply(reply, Api::NvAPI_GPU_GetVbiosVersionString)
    }

    pub fn driver_model(&self, reply: Result<u32, Status>) -> (r: NvapiResult<DriverModel>)
        ensures
            r == (match reply {
                Ok(v) => Ok(DriverModel { value: v }),
                Err(s) => Err(spec_api_error(s, Api::NvAPI_GetDriverModel)),
            }),
    {
        match with_api(reply, Api::NvAPI_GetDriverModel) {
            Ok(v) => Ok(DriverModel::new(v)),
            Err(e) => Err(e),
        }
    }

    pub fn gpu_id(&self, reply: Result<u32, Status>) -> (r: NvapiResult<u32>)
        ensures
            r == spec_with_api(reply, Api::NvAPI_GetGPUIDfromPhysicalGPU),
    {
        with_api(reply, Api::NvAPI_GetGPUIDfromPhysicalGPU)
    }

    /// The PCI ids from the reply (device, subsystem, revision, extended device).
    pub fn pci_identifiers(&self, reply: Result<(u32, u32, u32, u32), Status>) -> (r: NvapiResult<PciIdentifiers>)
        ensures
            r == (match reply {
                Ok((d, s, rev, e)) => Ok(PciIdentifiers { device_id: d, subsystem_id: s, revision_id: rev, ext_device_id: e }),
                Err(s) => Err(spec_api_error(s, Api::NvAPI_GPU_GetPCIIdentifiers)),
            }),
    {
        match with_api(reply, Api::NvAPI_GPU_GetPCIIdentifiers) {
            Ok((device_id, subsystem_id, revision_id, ext_device_id)) => Ok(PciIdentifiers {
                device_id, subsystem_id, revision_id, ext_device_id,
            }),
            Err(e) => Err(e),
        }
    }

    /// The bus info, from the replies in the order the calls are made: bus
    /// type, IRQ, bus id, slot id, then the PCI ids (for PCI and PCI Express)
    /// and the lane count (for PCI Express). The first failure is the answer.
    pub fn bus_info(
        &self,
        bus_type: Result<NV_GPU_BUS_TYPE, Status>,
        irq: Result<u32, Status>,
        id: Result<u32, Status>,
        slot_id: Result<u32, Status>,
        pci_ids: Result<(u32, u32, u32, u32), Status>,
        lanes: Result<u32, Status>,
    ) -> (r: NvapiResult<BusInfo>)
        ensures
            bus_type is Err ==> r == Err::<BusInfo, NvapiError>(spec_api_error(bus_type->Err_0, Api::NvAPI_GPU_GetBusType)),
            bus_type is Ok && irq is Err ==> r == Err::<BusInfo, NvapiError>(spec_api_error(irq->Err_0, Api::NvAPI_GPU_GetIRQ)),
            bus_type is Ok && irq is Ok && id is Err ==> r == Err::<BusInfo, NvapiError>(spec_api_error(id->Err_0, Api::NvAPI_GPU_GetBusId)),
            bus_type is Ok && irq is Ok && id is Ok && slot_id is Err ==> r == Err::<BusInfo, NvapiError>(spec_api_error(slot_id->Err_0, Api::NvAPI_GPU_GetBusSlotId)),
            bus_type is Ok && irq is Ok && id is Ok && slot_id is Ok ==> {
                let ty = bus_type->Ok_0;
                let pci = ty == NVAPI_GPU_BUS_TYPE_PCI || ty == NVAPI_GPU_BUS_TYPE_PCI_EXPRESS;
                if pci && pci_ids is Err {
                    r == Err::<BusInfo, NvapiError>(spec_api_error(pci_ids->Err_0, Api::NvAPI_GPU_GetPCIIdentifiers))
                } else if ty == NVAPI_GPU_BUS_TYPE_PCI_EXPRESS && lanes is Err {
                    r == Err::<BusInfo, NvapiError>(spec_api_error(lanes->Err_0, Api::NvAPI_GPU_GetCurrentPCIEDownstreamWidth))
                } else {
                    r matches Ok(info) && info.irq == irq->Ok_0 && info.id == id->Ok_0
                        && info.slot_id == slot_id->Ok_0
                        && info.bus == (if ty == NVAPI_GPU_BUS_TYPE_PCI {
                            Bus::Pci { ids: spec_pci_identifiers(pci_ids->Ok_0) }
                        } else if ty == NVAPI_GPU_BUS_TYPE_PCI_EXPRESS {
                            Bus::PciExpress { ids: spec_pci_identifiers(pci_ids->Ok_0), lanes: lanes->Ok_0 }
                        } else {
                            Bus::Other(ty)
                        })
                }
            },
    {
        let ty = match with_api(bus_type, Api::NvAPI_GPU_GetBusType) {
            Ok(t) => t,
            Err(e) => return Err(e),
        };
        let irq = match with_api(irq, Api::NvAPI_GPU_GetIRQ) {
            Ok(v) => v,
            Err(e) => return Err(e),
        };
        let id = match with_api(id, Api::NvAPI_GPU_GetBusId) {
            Ok(v) => v,
            Err(e) => return Err(e),
        };
        let slot_id = match with_api(slot_id, Api::NvAPI_GPU_GetBusSlotId) {
            Ok(v) => v,
            Err(e) => return Err(e),
        };
        let bus = if ty == NVAPI_GPU_BUS_TYPE_PCI {
            match self.pci_identifiers(pci_ids) {
                Ok(ids) => Bus::Pci { ids },
                Err(e) => return Err(e),
            }
        } else if ty == NVAPI_GPU_BUS_TYPE_PCI_EXPRESS {
            let ids = match self.pci_identifiers(pci_ids) {
                Ok(ids) => ids,
                Err(e) => return Err(e),
            };
            let lanes = match with_api(lanes, Api::NvAPI_GPU_GetCurrentPCIEDownstreamWidth) {
                Ok(v) => v,
                Err(e) => return Err(e),
            };
            Bus::PciExpress { ids, lanes }
        } else {
            Bus::Other(ty)
        };
        Ok(BusInfo { irq, id, slot_id, bus })
    }

    /// The board number from the board info.
    pub fn board_number(&self, reply: Result<[u8; 16], Status>) -> (r: NvapiResult<[u8; 16]>)
        ensures
            r == spec_with_api(reply, Api::NvAPI_GPU_GetBoardInfo),
    {
        with_api(reply, Api::NvAPI_GPU_GetBoardInfo)
    }

    /// One attempt of the memory info query, newest version (3) first, down to
    /// 1: `reply` is the words the driver filled for the request of `version`
    /// (see `memory_info_request`), and the answer is the variant of that
    /// version (see `spec_memory_of_words`).
    pub fn memory_info(&self, version: u16, reply: Result<[u32; 8], Status>) -> (r: VersionStep<MemoryInfo>)
        ensures
            r == spec_version_step(
                spec_with_api(match reply { Ok(w) => Ok(spec_memory_of_words(version, w@)), Err(s) => Err(s) }, Api::NvAPI_GPU_GetMemoryInfo),
                spec_older(version, 1),
            ),
    {
        let res = match reply {
            Ok(w) => Ok(memory_of_words(version, w)),
            Err(s) => Err(s),
        };
        version_step(with_api(res, Api::NvAPI_GPU_GetMemoryInfo), older(version, 1))
    }

    /// One attempt of the architecture query, version 2 first, then 1.
    pub fn architecture(&self, version: u16, reply: Result<ArchInfo, Status>) -> (r: VersionStep<ArchInfo>)
        ensures
            r == spec_version_step(spec_with_api(reply, Api::NvAPI_GPU_GetArchInfo), spec_older(version, 1)),
    {
        version_step(with_api(reply, Api::NvAPI_GPU_GetArchInfo), older(version, 1))
    }

    pub fn ecc_status(&self, reply: Result<NV_GPU_ECC_STATUS_INFO, Status>) -> (r: NvapiResult<EccStatus>)
        ensures
            r == (match reply {
                Ok(v) => Ok(EccStatus::V1(v)),
                Err(s) => Err(spec_api_error(s, Api::NvAPI_GPU_GetECCStatusInfo)),
            }),
    {
        match with_api(reply, Api::NvAPI_GPU_GetECCStatusInfo) {
            Ok(v) => Ok(EccStatus::V1(v)),
            Err(e) => Err(e),
        }
    }

    pub fn ecc_errors(&self, reply: Result<NV_GPU_ECC_ERROR_INFO, Status>) -> (r: NvapiResult<EccErrors>)
        ensures
            r == (match reply {
                Ok(v) => Ok(EccErrors::V1(v)),
                Err(s) => Err(spec_api_error(s, Api::NvAPI_GPU_GetECCErrorInfo)),
            }),
    {
        match with_api(reply, Api::NvAPI_GPU_GetECCErrorInfo) {
            Ok(v) => Ok(EccErrors::V1(v)),
            Err(e) => Err(e),
        }
    }

    /// The outcome of resetting the ECC error counters.
    pub fn ecc_reset(&self, reply: Result<(), Status>) -> (r: NvapiResult<()>)
        ensures
            r == spec_with_api(reply, Api::NvAPI_GPU_ResetECCErrorInfo),
    {
        with_api(reply, Api::NvAPI_GPU_ResetECCErrorInfo)
    }

    pub fn ecc_configuration(&self, reply: Result<NV_GPU_ECC_CONFIGURATION_INFO, Status>) -> (r: NvapiResult<EccConfigurationInfo>)
        ensures
            r == (match reply {
                Ok(v) => Ok(EccConfigurationInfo::V1(v)),
                Err(s) => Err(spec_api_error(s, Api::NvAPI_GPU_GetECCConfigurationInfo)),
            }),
    {
        match with_api(reply, Api::NvAPI_GPU_GetECCConfigurationInfo) {
            Ok(v) => Ok(EccConfigurationInfo::V1(v)),
            Err(e) => Err(e),
        }
    }

    /// The outcome of configuring ECC.
    pub fn ecc_configure(&self, reply: Result<(), Status>) -> (r: NvapiResult<()>)
        ensures
            r == spec_with_api(reply, Api::NvAPI_GPU_SetECCConfiguration),
    {
        with_api(reply, Api::NvAPI_GPU_SetECCConfiguration)
    }

    /// The request of the clock frequency query of `version`: the struct with
    /// its version word (264 bytes in every version), the clock type asked for
    /// in the low two bits of the reserved word, and no domain yet.
    pub fn clock_frequencies_request(&self, version: u16, clock_type: NV_GPU_CLOCK_FREQUENCIES_CLOCK_TYPE) -> (r: NV_GPU_CLOCK_FREQUENCIES_V1)
        ensures
            r.version == (NvVersion { data: pack_version(264, version) }),
            r.reserved == (clock_type as u32) & 3,
            forall|i: int| 0 <= i < 32 ==> #[trigger] r.domain[i] == (NV_GPU_CLOCK_FREQUENCIES_DOMAIN { bIsPresent: BoolU32(0), frequency: 0 }),
    {
        let mut r = NV_GPU_CLOCK_FREQUENCIES_V1 {
            version: NvVersion::new(264, version),
            reserved: 0,
            domain: [NV_GPU_CLOCK_FREQUENCIES_DOMAIN { bIsPresent: BoolU32(0), frequency: 0 }; 32],
        };
        r.set_ClockType(clock_type);
        r
    }

    /// One attempt of the clock frequency query, version 3 first, down to 1.
    pub fn clock_frequencies(&self, version: u16, reply: Result<NV_GPU_CLOCK_FREQUENCIES_V1, Status>) -> (r: VersionStep<NvData<NV_GPU_CLOCK_FREQUENCIES_V1>>)
        ensures
            r == spec_version_step(spec_wrap_reply(reply, Api::NvAPI_GPU_GetAllClockFrequencies), spec_older(version, 1)),
    {
        version_step(wrap_reply(reply, Api::NvAPI_GPU_GetAllClockFrequencies), older(version, 1))
    }

    /// The current performance state.
    pub fn current_pstate(&self, reply: Result<i32, Status>) -> (r: NvapiResult<i32>)
        ensures
            r == spec_with_api(reply, Api::NvAPI_GPU_GetCurrentPstate),
    {
        with_api(reply, Api::NvAPI_GPU_GetCurrentPstate)
    }

    /// One attempt of the performance states query, version 3 first, down to 1.
    pub fn pstates<T>(&self, version: u16, reply: Result<T, Status>) -> (r: VersionStep<NvData<T>>)
        ensures
            r == spec_version_step(spec_wrap_reply(reply, Api::NvAPI_GPU_GetPstates20), spec_older(version, 1)),
    {
        version_step(wrap_reply(reply, Api::NvAPI_GPU_GetPstates20), older(version, 1))
    }

    pub fn dynamic_pstates_info<T>(&self, reply: Result<T, Status>) -> (r: NvapiResult<NvData<T>>)
        ensures
            r == spec_wrap_reply(reply, Api::NvAPI_GPU_GetDynamicPstatesInfoEx),
    {
        wrap_reply(reply, Api::NvAPI_GPU_GetDynamicPstatesInfoEx)
    }

    pub fn usages<T>(&self, reply: Result<T, Status>) -> (r: NvapiResult<NvData<T>>)
        ensures
            r == spec_wrap_reply(reply, Api::NvAPI_GPU_GetUsages),
    {
        wrap_reply(reply, Api::NvAPI_GPU_GetUsages)
    }

    pub fn vfp_ranges<T>(&self, reply: Result<T, Status>) -> (r: NvapiResult<NvData<T>>)
        ensures
            r == spec_wrap_reply(reply, Api::NvAPI_GPU_ClockClientClkDomainsGetInfo),
    {
        wrap_reply(reply, Api::NvAPI_GPU_ClockClientClkDomainsGetInfo)
    }

    pub fn core_voltage(&self, reply: Result<NV_GPU_CLIENT_VOLT_RAILS_STATUS_V1, Status>) -> (r: NvapiResult<VoltageRails>)
        ensures
            r == (match reply {
                Ok(v) => Ok(VoltageRails::V1(v)),
                Err(s) => Err(spec_api_error(s, Api::NvAPI_GPU_ClientVoltRailsGetStatus)),
            }),
    {
        match with_api(reply, Api::NvAPI_GPU_ClientVoltRailsGetStatus) {
            Ok(v) => Ok(VoltageRails::V1(v)),
            Err(e) => Err(e),
        }
    }

    pub fn core_voltage_boost(&self, reply: Result<NV_GPU_CLIENT_VOLT_RAILS_CONTROL_V1, Status>) -> (r: NvapiResult<VoltageSettings>)
        ensures
            r == (match reply {
                Ok(v) => Ok(VoltageSettings::V1(v)),
                Err(s) => Err(spec_api_error(s, Api::NvAPI_GPU_ClientVoltRailsGetControl)),
            }),
    {
        match with_api(reply, Api::NvAPI_GPU_ClientVoltRailsGetControl) {
            Ok(v) => Ok(VoltageSettings::V1(v)),
            Err(e) => Err(e),
        }
    }

    /// The outcome of setting the voltage boost.
    pub fn set_core_voltage_boost(&self, reply: Result<(), Status>) -> (r: NvapiResult<()>)
        ensures
            r == spec_with_api(reply, Api::NvAPI_GPU_ClientVoltRailsSetControl),
    {
        with_api(reply, Api::NvAPI_GPU_ClientVoltRailsSetControl)
    }

    pub fn power_usage_channels<T>(&self, reply: Result<T, Status>) -> (r: NvapiResult<NvData<T>>)
        ensures
            r == spec_wrap_reply(reply, Api::NvAPI_GPU_ClientPowerTopologyGetInfo),
    {
        wrap_reply(reply, Api::NvAPI_GPU_ClientPowerTopologyGetInfo)
    }

    /// One attempt of the power policy info query, version 2 first, then 1.
    pub fn power_limit_info(&self, version: u16, reply: Result<PowerInfo, Status>) -> (r: VersionStep<PowerInfo>)
        ensures
            r == spec_version_step(spec_with_api(reply, Api::NvAPI_GPU_ClientPowerPoliciesGetInfo), spec_older(version, 1)),
    {
        version_step(with_api(reply, Api::NvAPI_GPU_ClientPowerPoliciesGetInfo), older(version, 1))
    }

    /// One attempt of the power policy status query, version 2 first, then 1.
    pub fn power_limit(&self, version: u16, reply: Result<PowerPolicies, Status>) -> (r: VersionStep<PowerPolicies>)
        ensures
            r == spec_version_step(spec_with_api(reply, Api::NvAPI_GPU_ClientPowerPoliciesGetStatus), spec_older(version, 1)),
    {
        version_step(with_api(reply, Api::NvAPI_GPU_ClientPowerPoliciesGetStatus), older(version, 1))
    }

    /// One attempt of the thermal settings query, version 2 first, then 1.
    pub fn thermal_settings(&self, version: u16, reply: Result<NV_GPU_THERMAL_SETTINGS_V1, Status>) -> (r: VersionStep<Sensors>)
        ensures
            r == spec_version_step(match reply {
                Ok(v) => Ok(Sensors::V1(v)),
                Err(s) => Err(spec_api_error(s, Api::NvAPI_GPU_GetThermalSettings)),
            }, spec_older(version, 1)),
    {
        let res = match with_api(reply, Api::NvAPI_GPU_GetThermalSettings) {
            Ok(v) => Ok(Sensors::V1(v)),
            Err(e) => Err(e),
        };
        version_step(res, older(version, 1))
    }

    /// One attempt of the thermal policy info query, version 3 first, then 2.
    pub fn thermal_limit_info(&self, version: u16, reply: Result<ThermalPolicies, Status>) -> (r: VersionStep<ThermalPolicies>)
        ensures
            r == spec_version_step(spec_with_api(reply, Api::NvAPI_GPU_ClientThermalPoliciesGetInfo), spec_older(version, 2)),
    {
        version_step(with_api(reply, Api::NvAPI_GPU_ClientThermalPoliciesGetInfo), older(version, 2))
    }

    /// One attempt of the thermal policy status query, version 3 first, then 2.
    pub fn thermal_limit(&self, version: u16, reply: Result<ThermalLimits, Status>) -> (r: VersionStep<ThermalLimits>)
        ensures
            r == spec_version_step(spec_with_api(reply, Api::NvAPI_GPU_ClientThermalPoliciesGetStatus), spec_older(version, 2)),
    {
        version_step(with_api(reply, Api::NvAPI_GPU_ClientThermalPoliciesGetStatus), older(version, 2))
    }

    pub fn cooler_info(&self, reply: Result<NV_GPU_CLIENT_FAN_COOLERS_INFO_V1, Status>) -> (r: NvapiResult<NvData<NV_GPU_CLIENT_FAN_COOLERS_INFO_V1>>)
        ensures
            r == spec_wrap_reply(reply, Api::NvAPI_GPU_ClientFanCoolersGetInfo),
    {
        wrap_reply(reply, Api::NvAPI_GPU_ClientFanCoolersGetInfo)
    }

    /// The outcome of restoring the cooler policy table.
    pub fn restore_cooler_policy_table(&self, reply: Result<(), Status>) -> (r: NvapiResult<()>)
        ensures
            r == spec_with_api(reply, Api::NvAPI_GPU_RestoreCoolerPolicyTable),
    {
        with_api(reply, Api::NvAPI_GPU_RestoreCoolerPolicyTable)
    }

    pub fn fan_arbiter_info(&self, reply: Result<NV_GPU_CLIENT_FAN_ARBITERS_INFO_V1, Status>) -> (r: NvapiResult<NvData<NV_GPU_CLIENT_FAN_ARBITERS_INFO_V1>>)
        ensures
            r == spec_wrap_reply(reply, Api::NvAPI_GPU_ClientFanArbitersGetInfo),
    {
        wrap_reply(reply, Api::NvAPI_GPU_ClientFanArbitersGetInfo)
    }

    pub fn fan_arbiter_status(&self, reply: Result<NV_GPU_CLIENT_FAN_ARBITERS_STATUS_V1, Status>) -> (r: NvapiResult<NvData<NV_GPU_CLIENT_FAN_ARBITERS_STATUS_V1>>)
        ensures
            r == spec_wrap_reply(reply, Api::NvAPI_GPU_ClientFanArbitersGetStatus),
    {
        wrap_reply(reply, Api::NvAPI_GPU_ClientFanArbitersGetStatus)
    }

    pub fn fan_arbiter_control(&self, reply: Result<NV_GPU_CLIENT_FAN_ARBITERS_CONTROL_V1, Status>) -> (r: NvapiResult<NvData<NV_GPU_CLIENT_FAN_ARBITERS_CONTROL_V1>>)
        ensures
            r == spec_wrap_reply(reply, Api::NvAPI_GPU_ClientFanArbitersGetControl),
    {
        wrap_reply(reply, Api::NvAPI_GPU_ClientFanArbitersGetControl)
    }

    pub fn perf_info(&self, reply: Result<NV_GPU_PERF_POLICIES_INFO_PARAMS_V1, Status>) -> (r: NvapiResult<PerfInfo>)
        ensures
            r == (match reply {
                Ok(v) => Ok(PerfInfo::V1(v)),
                Err(s) => Err(spec_api_error(s, Api::NvAPI_GPU_PerfPoliciesGetInfo)),
            }),
    {
        match with_api(reply, Api::NvAPI_GPU_PerfPoliciesGetInfo) {
            Ok(v) => Ok(PerfInfo::V1(v)),
            Err(e) => Err(e),
        }
    }

    pub fn perf_status(&self, reply: Result<NV_GPU_PERF_POLICIES_STATUS_PARAMS_V1, Status>) -> (r: NvapiResult<PerfStatus>)
        ensures
            r == (match reply {
                Ok(v) => Ok(PerfStatus::V1(v)),
                Err(s) => Err(spec_api_error(s, Api::NvAPI_GPU_PerfPoliciesGetStatus)),
            }),
    {
        match with_api(reply, Api::NvAPI_GPU_PerfPoliciesGetStatus) {
            Ok(v) => Ok(PerfStatus::V1(v)),
            Err(e) => Err(e),
        }
    }

    pub fn voltage_domains_status(&self, reply: Result<NV_VOLT_STATUS_V1, Status>) -> (r: NvapiResult<VoltageStatus>)
        ensures
            r == (match reply {
                Ok(v) => Ok(VoltageStatus::V1(v)),
                Err(s) => Err(spec_api_error(s, Api::NvAPI_GPU_GetVoltageDomainsStatus)),
            }),
    {
        match with_api(reply, Api::NvAPI_GPU_GetVoltageDomainsStatus) {
            Ok(v) => Ok(VoltageStatus::V1(v)),
            Err(e) => Err(e),
        }
    }

    pub fn voltage_step(&self, reply: Result<NV_VOLT_STATUS_V1, Status>) -> (r: NvapiResult<VoltageStatus>)
        ensures
            r == (match reply {
                Ok(v) => Ok(VoltageStatus::V1(v)),
                Err(s) => Err(spec_api_error(s, Api::NvAPI_GPU_GetVoltageStep)),
            }),
    {
        match with_api(reply, Api::NvAPI_GPU_GetVoltageStep) {
            Ok(v) => Ok(VoltageStatus::V1(v)),
            Err(e) => Err(e),
        }
    }

    pub fn voltage_table(&self, reply: Result<NV_VOLT_TABLE_V1, Status>) -> (r: NvapiResult<VoltageTable>)
        ensures
            r == (match reply {
                Ok(v) => Ok(VoltageTable::V1(v)),
                Err(s) => Err(spec_api_error(s, Api::NvAPI_GPU_GetVoltages)),
            }),
    {
        match with_api(reply, Api::NvAPI_GPU_GetVoltages) {
            Ok(v) => Ok(VoltageTable::V1(v)),
            Err(e) => Err(e),
        }
    }

    /// The reasons for decreased performance (the flag word); only the known
    /// reasons (bits 0 to 4) can be read.
    pub fn performance_decrease(&self, reply: Result<u32, Status>) -> (r: NvapiResult<u32>)
        requires
            reply matches Ok(v) ==> v & 0x1f == v,
        ensures
            r == spec_with_api(reply, Api::NvAPI_GPU_GetPerfDecreaseInfo),
    {
        with_api(reply, Api::NvAPI_GPU_GetPerfDecreaseInfo)
    }

    /// One attempt of the display id query: the third version first, then the first.
    pub fn display_ids_all(&self, version: u16, reply: Result<Vec<NV_GPU_DISPLAYIDS>, Status>) -> (r: VersionStep<Vec<DisplayId>>)
        ensures
            display_step_ok(r, reply, Api::NvAPI_GPU_GetAllDisplayIds, spec_display_older(version)),
    {
        version_step(display_ids(reply, Api::NvAPI_GPU_GetAllDisplayIds), display_older(version))
    }

    /// One attempt of the connected display id query: the third version first,
    /// then the first.
    pub fn display_ids_connected(&self, version: u16, reply: Result<Vec<NV_GPU_DISPLAYIDS>, Status>) -> (r: VersionStep<Vec<DisplayId>>)
        ensures
            display_step_ok(r, reply, Api::NvAPI_GPU_GetConnectedDisplayIds, spec_display_older(version)),
    {
        version_step(display_ids(reply, Api::NvAPI_GPU_GetConnectedDisplayIds), display_older(version))
    }
}

/// PCI identifiers from the four words of the reply.
pub open spec fn spec_pci_identifiers(w: (u32, u32, u32, u32)) -> PciIdentifiers {
    PciIdentifiers { device_id: w.0, subsystem_id: w.1, revision_id: w.2, ext_device_id: w.3 }
}

/// Whether the count of a truncation selects a range that, clamped to the
/// handles, does not start after it ends.
pub open spec fn count_start_le_end(t: Truncated<[NvPhysicalGpuHandle; 64]>) -> bool {
    t.spec_start() <= t.spec_end()
}

/// The display ids of a reply's entries, each entry wrapped.
pub open spec fn spec_display_ids(v: Seq<NV_GPU_DISPLAYIDS>) -> Seq<DisplayId> {
    Seq::new(v.len(), |i: int| DisplayId::V1(v[i]))
}

/// The step after a display id reply: the wrapped entries, or the step for the failure.
pub open spec fn display_step_ok(
    r: VersionStep<Vec<DisplayId>>,
    reply: Result<Vec<NV_GPU_DISPLAYIDS>, Status>,
    nvid: Api,
    older: Option<u16>,
) -> bool {
    match reply {
        Ok(v) => r matches VersionStep::Done(Ok(ids)) && ids@ == spec_display_ids(v@),
        Err(s) => r == spec_version_step(Err::<Vec<DisplayId>, NvapiError>(spec_api_error(s, nvid)), older),
    }
}

/// The display id query falls back from the third version to the first.
pub open spec fn spec_display_older(version: u16) -> Option<u16> {
    if version == 3 { Some(1u16) } else { None }
}

fn display_older(version: u16) -> (r: Option<u16>)
    ensures
        r == spec_display_older(version),
{
    if version == 3 { Some(1) } else { None }
}

fn display_ids(reply: Result<Vec<NV_GPU_DISPLAYIDS>, Status>, nvid: Api) -> (r: NvapiResult<Vec<DisplayId>>)
    ensures
        match reply {
            Ok(v) => r matches Ok(ids) && ids@ == spec_display_ids(v@),
            Err(s) => r == Err::<Vec<DisplayId>, NvapiError>(spec_api_error(s, nvid)),
        },
{
    match reply {
        Err(s) => Err(NvapiError::new(NvAPI_Status::new(s), nvid)),
        Ok(v) => {
            let mut ids: Vec<DisplayId> = Vec::new();
            let mut i: usize = 0;
            while i < v.len()
                invariant
                    i <= v@.len(),
                    ids@ == spec_display_ids(v@.subrange(0, i as int)),
                decreases v@.len() - i,
            {
                ids.push(DisplayId::V1(v[i]));
                i += 1;
                assert(ids@ =~= spec_display_ids(v@.subrange(0, i as int)));
            }
            assert(v@.subrange(0, v@.len() as int) =~= v@);
            Ok(ids)
        },
    }
}

} // verus!
