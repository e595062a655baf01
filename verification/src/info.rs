#![allow(non_camel_case_types, non_snake_case)]
use vstd::prelude::*;
use crate::version::{NvVersion, pack_version};
use crate::status::Status;
use crate::error::{Api, NvapiResult, spec_with_api, with_api};
use crate::gpu::{VersionStep, spec_version_step, spec_older, version_step, string_reply, string_reply_ok, spec_api_error};
use crate::string::{NvAPI_ShortString, utf8_lossy, is_ascii_bytes, ascii_chars};
use crate::error::NvapiError;
use crate::status::NvAPI_Status;

verus! {

/// The driver version and its branch name.
pub fn driver_version(reply: Result<(u32, NvAPI_ShortString), Status>) -> (r: NvapiResult<(u32, String)>)
    ensures
        match reply {
            Ok((v, s)) => r matches Ok((v2, t)) && v2 == v && t@ == utf8_lossy(s.text())
                && (is_ascii_bytes(s.text()) ==> t@ == ascii_chars(s.text())),
            Err(s) => r == Err::<(u32, String), NvapiError>(spec_api_error(s, Api::NvAPI_SYS_GetDriverAndBranchVersion)),
        },
{
    match reply {
        Ok((v, s)) => Ok((v, s.to_string_lossy())),
        Err(s) => Err(NvapiError::new(NvAPI_Status::new(s), Api::NvAPI_SYS_GetDriverAndBranchVersion)),
    }
}

/// The version string of the NvAPI interface.
pub fn interface_version(reply: Result<NvAPI_ShortString, Status>) -> (r: NvapiResult<String>)
    ensures
        string_reply_ok(r, reply, Api::NvAPI_GetInterfaceVersionString),
{
    string_reply(reply, Api::NvAPI_GetInterfaceVersionString)
}

/// The outcome of initializing NvAPI.
pub fn initialize(reply: Result<(), Status>) -> (r: NvapiResult<()>)
    ensures
        r == spec_with_api(reply, Api::NvAPI_Initialize),
{
    with_api(reply, Api::NvAPI_Initialize)
}

/// The outcome of unloading NvAPI.
pub fn unload(reply: Result<(), Status>) -> (r: NvapiResult<()>)
    ensures
        r == spec_with_api(reply, Api::NvAPI_Unload),
{
    with_api(reply, Api::NvAPI_Unload)
}

/// Chipset info, first version: the chipset's ids and names.
#[derive(Clone, Debug)]
pub struct NV_CHIPSET_INFO_v1 {
    pub version: NvVersion,
    pub vendorId: u32,
    pub deviceId: u32,
    pub szVendorName: NvAPI_ShortString,
    pub szChipsetName: NvAPI_ShortString,
}

/// Chipset info, second version: adds flags.
#[derive(Clone, Debug)]
pub struct NV_CHIPSET_INFO_v2 {
    pub v1: NV_CHIPSET_INFO_v1,
    pub flags: u32,
}

/// Chipset info, third version: adds the subsystem.
#[derive(Clone, Debug)]
pub struct NV_CHIPSET_INFO_v3 {
    pub v2: NV_CHIPSET_INFO_v2,
    pub subSysVendorId: u32,
    pub subSysDeviceId: u32,
    pub szSubSysVendorName: NvAPI_ShortString,
}

/// Chipset info, fourth version: adds the host bridge.
#[derive(Clone, Debug)]
pub struct NV_CHIPSET_INFO_v4 {
    pub v3: NV_CHIPSET_INFO_v3,
    pub HBvendorId: u32,
    pub HBdeviceId: u32,
    pub HBsubSysVendorId: u32,
    pub HBsubSysDeviceId: u32,
}

/// The chipset info, in the version the driver answered with.
#[derive(Clone, Debug)]
pub enum ChipsetInfo {
    V4(NV_CHIPSET_INFO_v4),
    V3(NV_CHIPSET_INFO_v3),
    V2(NV_CHIPSET_INFO_v2),
    V1(NV_CHIPSET_INFO_v1),
}

/// The first-version part of any chipset info.
pub open spec fn spec_chipset_v1(c: ChipsetInfo) -> NV_CHIPSET_INFO_v1 {
    match c {
        ChipsetInfo::V4(v) => v.v3.v2.v1,
        ChipsetInfo::V3(v) => v.v2.v1,
        ChipsetInfo::V2(v) => v.v1,
        ChipsetInfo::V1(v) => v,
    }
}

impl ChipsetInfo {
    fn v1(&self) -> (r: &NV_CHIPSET_INFO_v1)
        ensures
            *r == spec_chipset_v1(*self),
    {
        match self {
            ChipsetInfo::V4(v) => &v.v3.v2.v1,
            ChipsetInfo::V3(v) => &v.v2.v1,
            ChipsetInfo::V2(v) => &v.v1,
            ChipsetInfo::V1(v) => v,
        }
    }

    /// The chipset's vendor id.
    pub fn vendor(&self) -> (r: u32)
        ensures
            r == spec_chipset_v1(*self).vendorId,
    {
        self.v1().vendorId
    }

    /// The chipset's device id.
    pub fn device(&self) -> (r: u32)
        ensures
            r == spec_chipset_v1(*self).deviceId,
    {
        self.v1().deviceId
    }

    /// The chipset's vendor name.
    pub fn vendor_name(&self) -> (r: NvAPI_ShortString)
        ensures
            r == spec_chipset_v1(*self).szVendorName,
    {
        self.v1().szVendorName
    }

    /// The chipset's name.
    pub fn name(&self) -> (r: NvAPI_ShortString)
        ensures
            r == spec_chipset_v1(*self).szChipsetName,
    {
        self.v1().szChipsetName
    }

    /// The subsystem vendor name, known from the third version on.
    pub fn subsystem_vendor_name(&self) -> (r: Option<NvAPI_ShortString>)
        ensures
            r == (match *self {
                ChipsetInfo::V4(v) => Some(v.v3.szSubSysVendorName),
                ChipsetInfo::V3(v) => Some(v.szSubSysVendorName),
                _ => None,
            }),
    {
        match self {
            ChipsetInfo::V4(v) => Some(v.v3.szSubSysVendorName),
            ChipsetInfo::V3(v) => Some(v.szSubSysVendorName),
            _ => None,
        }
    }

    /// The subsystem vendor and device ids, known from the third version on.
    pub fn subsystem(&self) -> (r: Option<(u32, u32)>)
        ensures
            r == (match *self {
                ChipsetInfo::V4(v) => Some((v.v3.subSysVendorId, v.v3.subSysDeviceId)),
                ChipsetInfo::V3(v) => Some((v.subSysVendorId, v.subSysDeviceId)),
                _ => None,
            }),
    {
        match self {
            ChipsetInfo::V4(v) => Some((v.v3.subSysVendorId, v.v3.subSysDeviceId)),
            ChipsetInfo::V3(v) => Some((v.subSysVendorId, v.subSysDeviceId)),
            _ => None,
        }
    }

    /// The host bridge ids (vendor, device, subsystem vendor, subsystem
    /// device), known in the fourth version.
    pub fn host_bridge(&self) -> (r: Option<(u32, u32, u32, u32)>)
        ensures
            r == (match *self {
                ChipsetInfo::V4(v) => Some((v.HBvendorId, v.HBdeviceId, v.HBsubSysVendorId, v.HBsubSysDeviceId)),
                _ => None,
            }),
    {
        match self {
            ChipsetInfo::V4(v) => Some((v.HBvendorId, v.HBdeviceId, v.HBsubSysVendorId, v.HBsubSysDeviceId)),
            _ => None,
        }
    }
}

/// The size in bytes of the chipset info struct of each version.
pub open spec fn spec_chipset_size(version: u16) -> usize {
    if version == 4 { 232 } else if version == 3 { 216 } else if version == 2 { 144 } else { 140 }
}

/// The version word of the chipset info request of `version` (4 down to 1).
pub fn chipset_info_version(version: u16) -> (r: NvVersion)
    ensures
        r == (NvVersion { data: pack_version(spec_chipset_size(version), version) }),
{
    let size: usize = if version == 4 { 232 } else if version == 3 { 216 } else if version == 2 { 144 } else { 140 };
    NvVersion::new(size, version)
}

/// The answer of the chipset query asked with `version`, read from the
/// fourth-version struct the driver filled: the part of that version.
pub open spec fn spec_chipset_of_version(version: u16, raw: NV_CHIPSET_INFO_v4) -> ChipsetInfo {
    if version == 4 {
        ChipsetInfo::V4(raw)
    } else if version == 3 {
        ChipsetInfo::V3(raw.v3)
    } else if version == 2 {
        ChipsetInfo::V2(raw.v3.v2)
    } else {
        ChipsetInfo::V1(raw.v3.v2.v1)
    }
}

/// The chipset info answered for the struct version asked is the variant of
/// that version (the first for any other version), and it keeps the parts of
/// the filled struct that the version has: the first-version fields in every
/// variant, the second-version ones from the second on, and so on.
pub proof fn lemma_chipset_version_parts(version: u16, raw: NV_CHIPSET_INFO_v4)
    ensures
        version == 4 ==> spec_chipset_of_version(version, raw) == ChipsetInfo::V4(raw),
        version == 3 ==> spec_chipset_of_version(version, raw) == ChipsetInfo::V3(raw.v3),
        version == 2 ==> spec_chipset_of_version(version, raw) == ChipsetInfo::V2(raw.v3.v2),
        version != 4 && version != 3 && version != 2 ==> spec_chipset_of_version(version, raw) == ChipsetInfo::V1(raw.v3.v2.v1),
        match spec_chipset_of_version(version, raw) {
            ChipsetInfo::V4(v) => v.v3.v2.v1 == raw.v3.v2.v1,
            ChipsetInfo::V3(v) => v.v2.v1 == raw.v3.v2.v1,
            ChipsetInfo::V2(v) => v.v1 == raw.v3.v2.v1,
            ChipsetInfo::V1(v) => v == raw.v3.v2.v1,
        },
{
}

/// The chipset info of the version asked (see `spec_chipset_of_version`).
pub fn chipset_of_version(version: u16, raw: NV_CHIPSET_INFO_v4) -> (r: ChipsetInfo)
    ensures
        r == spec_chipset_of_version(version, raw),
{
    if version == 4 {
        ChipsetInfo::V4(raw)
    } else if version == 3 {
        ChipsetInfo::V3(raw.v3)
    } else if version == 2 {
        ChipsetInfo::V2(raw.v3.v2)
    } else {
        ChipsetInfo::V1(raw.v3.v2.v1)
    }
}

/// One attempt of the chipset info query, the fourth version first, down to
/// the first: `reply` is the struct the driver filled for the request of
/// `version`, and the answer is the variant of that version.
pub fn chipset_info(version: u16, reply: Result<NV_CHIPSET_INFO_v4, Status>) -> (r: VersionStep<ChipsetInfo>)
    ensures
        r == spec_version_step(
            spec_with_api(match reply { Ok(raw) => Ok(spec_chipset_of_version(version, raw)), Err(s) => Err(s) }, Api::NvAPI_SYS_GetChipSetInfo),
            spec_older(version, 1),
        ),
{
    let older = if version > 1 { Some(version - 1) } else { None };
    let res = match reply {
        Ok(raw) => Ok(chipset_of_version(version, raw)),
        Err(s) => Err(s),
    };
    version_step(with_api(res, Api::NvAPI_SYS_GetChipSetInfo), older)
}

} // verus!
