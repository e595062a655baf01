use vstd::prelude::*;
use vstd::string::StringExecFns;
use crate::types::{Celsius, CelsiusShifted, Rpm, Percentage};
use crate::boolu32::BoolU32;
use crate::status::{ArgumentRangeError, Status, NvAPI_Status, status_of_code};
use crate::error::{NvapiError, Error};
use crate::nvid::api_name;
use crate::gpu::{
    DriverModel, PciIdentifiers, Bus, BusInfo, NV_GPU_BUS_TYPE, spec_wddm,
    NVAPI_GPU_BUS_TYPE_UNDEFINED, NVAPI_GPU_BUS_TYPE_PCI, NVAPI_GPU_BUS_TYPE_AGP,
    NVAPI_GPU_BUS_TYPE_PCI_EXPRESS, NVAPI_GPU_BUS_TYPE_FPCI, NVAPI_GPU_BUS_TYPE_AXI,
};

verus! {

/// The lower-case hexadecimal digit character of `d` (below sixteen).
pub open spec fn hex_digit(d: nat) -> char {
    if d == 0 { '0' } else if d == 1 { '1' } else if d == 2 { '2' } else if d == 3 { '3' }
    else if d == 4 { '4' } else if d == 5 { '5' } else if d == 6 { '6' } else if d == 7 { '7' }
    else if d == 8 { '8' } else if d == 9 { '9' } else if d == 10 { 'a' } else if d == 11 { 'b' }
    else if d == 12 { 'c' } else if d == 13 { 'd' } else if d == 14 { 'e' } else { 'f' }
}

/// The digits of `n` in base `b` (ten or sixteen), most significant first,
/// without leading zeros (`"0"` for zero).
pub open spec fn digits(n: nat, b: nat) -> Seq<char>
    recommends
        b == 10 || b == 16,
    decreases n,
{
    if n < b || b < 2 {
        seq![hex_digit(n)]
    } else {
        proof {
            assert(n / b < n) by (nonlinear_arith)
                requires
                    b >= 2,
                    n >= b,
            ;
        }
        digits(n / b, b).push(hex_digit(n % b))
    }
}

/// The decimal digits of `n`.
pub open spec fn dec_chars(n: nat) -> Seq<char> {
    digits(n, 10)
}

/// The decimal text of a signed number: a minus sign before the digits of a
/// negative one.
pub open spec fn signed_chars(n: int) -> Seq<char> {
    if n < 0 { seq!['-'] + dec_chars((-n) as nat) } else { dec_chars(n as nat) }
}

/// The decimal digits of `n`, at least two of them (`{:02}`).
pub open spec fn dec2_chars(n: nat) -> Seq<char> {
    if n < 10 { seq!['0'] + dec_chars(n) } else { dec_chars(n) }
}

/// The last `w` hexadecimal digits of `n` (`{:08x}` for `w` eight and `n` of 32 bits).
pub open spec fn hex_fixed(n: nat, w: nat) -> Seq<char>
    decreases w,
{
    if w == 0 { seq![] } else { hex_fixed(n / 16, (w - 1) as nat).push(hex_digit(n % 16)) }
}

fn digit_str(d: u32) -> (r: &'static str)
    requires
        d < 16,
    ensures
        r@ == seq![hex_digit(d as nat)],
{
    if d == 0 { proof { reveal_strlit("0"); } "0" }
    else if d == 1 { proof { reveal_strlit("1"); } "1" }
    else if d == 2 { proof { reveal_strlit("2"); } "2" }
    else if d == 3 { proof { reveal_strlit("3"); } "3" }
    else if d == 4 { proof { reveal_strlit("4"); } "4" }
    else if d == 5 { proof { reveal_strlit("5"); } "5" }
    else if d == 6 { proof { reveal_strlit("6"); } "6" }
    else if d == 7 { proof { reveal_strlit("7"); } "7" }
    else if d == 8 { proof { reveal_strlit("8"); } "8" }
    else if d == 9 { proof { reveal_strlit("9"); } "9" }
    else if d == 10 { proof { reveal_strlit("a"); } "a" }
    else if d == 11 { proof { reveal_strlit("b"); } "b" }
    else if d == 12 { proof { reveal_strlit("c"); } "c" }
    else if d == 13 { proof { reveal_strlit("d"); } "d" }
    else if d == 14 { proof { reveal_strlit("e"); } "e" }
    else { proof { reveal_strlit("f"); } "f" }
}

/// Appends the digits of `n` in base `b`.
fn push_digits(s: &mut String, n: u32, b: u32)
    requires
        b == 10 || b == 16,
    ensures
        final(s)@ == old(s)@ + digits(n as nat, b as nat),
    decreases n,
{
    if n < b {
        s.append(digit_str(n));
    } else {
        push_digits(s, n / b, b);
        s.append(digit_str(n % b));
        assert(old(s)@ + digits(n as nat, b as nat)
            =~= old(s)@ + digits((n / b) as nat, b as nat) + seq![hex_digit((n % b) as nat)]);
    }
}

/// Appends the decimal digits of `n`.
pub fn push_dec(s: &mut String, n: u32)
    ensures
        final(s)@ == old(s)@ + dec_chars(n as nat),
{
    push_digits(s, n, 10);
}

/// Appends the decimal text of the signed `n`.
pub fn push_signed(s: &mut String, n: i32)
    ensures
        final(s)@ == old(s)@ + signed_chars(n as int),
{
    if n < 0 {
        s.append("-");
        let m: u32 = (0i64 - n as i64) as u32;
        push_dec(s, m);
        proof { reveal_strlit("-"); }
        assert(final(s)@ =~= old(s)@ + signed_chars(n as int));
    } else {
        push_dec(s, n as u32);
    }
}

/// Appends the decimal digits of `n`, at least two.
pub fn push_dec2(s: &mut String, n: u32)
    ensures
        final(s)@ == old(s)@ + dec2_chars(n as nat),
{
    if n < 10 {
        s.append("0");
        push_dec(s, n);
        proof { reveal_strlit("0"); }
        assert(final(s)@ =~= old(s)@ + dec2_chars(n as nat));
    } else {
        push_dec(s, n);
    }
}

/// Appends the last `w` hexadecimal digits of `n`.
pub fn push_hex_fixed(s: &mut String, n: u32, w: u32)
    ensures
        final(s)@ == old(s)@ + hex_fixed(n as nat, w as nat),
    decreases w,
{
    if w > 0 {
        push_hex_fixed(s, n / 16, w - 1);
        s.append(digit_str(n % 16));
        assert(old(s)@ + hex_fixed(n as nat, w as nat)
            =~= old(s)@ + hex_fixed((n / 16) as nat, (w - 1) as nat) + seq![hex_digit((n % 16) as nat)]);
    } else {
        assert(old(s)@ + hex_fixed(n as nat, w as nat) =~= old(s)@);
    }
}

/// Appends the hexadecimal digits of `n` (`{:x}`).
pub fn push_hex(s: &mut String, n: u32)
    ensures
        final(s)@ == old(s)@ + digits(n as nat, 16),
{
    push_digits(s, n, 16);
}

impl Celsius {
    /// The temperature as text: the degrees and `C`.
    pub fn to_string(&self) -> (r: String)
        ensures
            r@ == signed_chars(self.0 as int) + "C"@,
    {
        let mut s = String::new();
        push_signed(&mut s, self.0);
        s.append("C");
        s
    }
}

impl CelsiusShifted {
    /// The temperature as text: the whole degrees and `C`.
    pub fn to_string(&self) -> (r: String)
        ensures
            r@ == signed_chars((self.0 >> 8i32) as int) + "C"@,
    {
        let mut s = String::new();
        push_signed(&mut s, self.get());
        s.append("C");
        s
    }
}

impl Rpm {
    /// The speed as text: the number and ` RPM`.
    pub fn to_string(&self) -> (r: String)
        ensures
            r@ == dec_chars(self.0 as nat) + " RPM"@,
    {
        let mut s = String::new();
        push_dec(&mut s, self.0);
        s.append(" RPM");
        s
    }
}

impl Percentage {
    /// The percentage as text: the number and `%`.
    pub fn to_string(&self) -> (r: String)
        ensures
            r@ == dec_chars(self.0 as nat) + "%"@,
    {
        let mut s = String::new();
        push_dec(&mut s, self.0);
        s.append("%");
        s
    }
}

impl BoolU32 {
    /// The raw word as decimal text.
    pub fn to_string(&self) -> (r: String)
        ensures
            r@ == dec_chars(self.0 as nat),
    {
        let mut s = String::new();
        push_dec(&mut s, self.0);
        s
    }
}

impl ArgumentRangeError {
    /// The message of the error.
    pub fn to_string(&self) -> (r: String)
        ensures
            r@ == "received data out of range"@,
    {
        String::from_str("received data out of range")
    }
}

impl DriverModel {
    /// The WDDM version as text: `WDDM`, the major version, a dot and the
    /// minor version in two digits.
    pub fn to_string(&self) -> (r: String)
        ensures
            r@ == "WDDM "@ + dec_chars(spec_wddm(self.value).0 as nat) + "."@ + dec2_chars(spec_wddm(self.value).1 as nat),
    {
        let (major, minor) = self.wddm();
        let mut s = String::from_str("WDDM ");
        push_dec(&mut s, major as u32);
        s.append(".");
        push_dec2(&mut s, minor as u32);
        s
    }
}

impl PciIdentifiers {
    /// The identifiers as text: the device, subsystem and extended device ids
    /// in eight hexadecimal digits each and the revision id in hexadecimal,
    /// separated by ` - `.
    pub fn to_string(&self) -> (r: String)
        ensures
            r@ == hex_fixed(self.device_id as nat, 8) + " - "@ + hex_fixed(self.subsystem_id as nat, 8) + " - "@
                + hex_fixed(self.ext_device_id as nat, 8) + " - "@ + digits(self.revision_id as nat, 16),
    {
        let mut s = String::new();
        push_hex_fixed(&mut s, self.device_id, 8);
        s.append(" - ");
        push_hex_fixed(&mut s, self.subsystem_id, 8);
        s.append(" - ");
        push_hex_fixed(&mut s, self.ext_device_id, 8);
        s.append(" - ");
        push_hex(&mut s, self.revision_id);
        s
    }
}

/// The name of a bus type, or the raw value in decimal for an unknown one.
pub open spec fn spec_bus_type_text(ty: NV_GPU_BUS_TYPE) -> Seq<char> {
    if ty == NVAPI_GPU_BUS_TYPE_UNDEFINED { "Unknown"@ }
    else if ty == NVAPI_GPU_BUS_TYPE_PCI { "PCI"@ }
    else if ty == NVAPI_GPU_BUS_TYPE_AGP { "AGP"@ }
    else if ty == NVAPI_GPU_BUS_TYPE_PCI_EXPRESS { "PCIe"@ }
    else if ty == NVAPI_GPU_BUS_TYPE_FPCI { "FPCI"@ }
    else if ty == NVAPI_GPU_BUS_TYPE_AXI { "AXI"@ }
    else { signed_chars(ty as int) }
}

/// The name of a bus type (see `spec_bus_type_text`).
pub fn bus_type_text(ty: NV_GPU_BUS_TYPE) -> (r: String)
    ensures
        r@ == spec_bus_type_text(ty),
{
    if ty == NVAPI_GPU_BUS_TYPE_UNDEFINED { String::from_str("Unknown") }
    else if ty == NVAPI_GPU_BUS_TYPE_PCI { String::from_str("PCI") }
    else if ty == NVAPI_GPU_BUS_TYPE_AGP { String::from_str("AGP") }
    else if ty == NVAPI_GPU_BUS_TYPE_PCI_EXPRESS { String::from_str("PCIe") }
    else if ty == NVAPI_GPU_BUS_TYPE_FPCI { String::from_str("FPCI") }
    else if ty == NVAPI_GPU_BUS_TYPE_AXI { String::from_str("AXI") }
    else {
        let mut s = String::new();
        push_signed(&mut s, ty);
        s
    }
}

/// The text of a bus: its type, and for PCIe the lane count where known.
pub open spec fn spec_bus_text(bus: Bus) -> Seq<char> {
    match bus {
        Bus::PciExpress { lanes, .. } =>
            if lanes > 0 { "PCIe"@ + " x"@ + dec_chars(lanes as nat) } else { "PCIe"@ },
        Bus::Pci { .. } => "PCI"@,
        Bus::Other(ty) => spec_bus_type_text(ty),
    }
}

impl Bus {
    /// The bus as text (see `spec_bus_text`).
    pub fn to_string(&self) -> (r: String)
        ensures
            r@ == spec_bus_text(*self),
    {
        match self {
            Bus::PciExpress { lanes, .. } => {
                let mut s = String::from_str("PCIe");
                if *lanes > 0 {
                    s.append(" x");
                    push_dec(&mut s, *lanes);
                }
                s
            },
            Bus::Pci { .. } => String::from_str("PCI"),
            Bus::Other(ty) => bus_type_text(*ty),
        }
    }
}

impl BusInfo {
    /// The bus as text with its id, slot and interrupt line.
    pub fn to_string(&self) -> (r: String)
        ensures
            r@ == spec_bus_text(self.bus) + " ("@ + dec_chars(self.id as nat) + ":"@ + dec_chars(self.slot_id as nat)
                + " routed to IRQ "@ + dec_chars(self.irq as nat) + ")"@,
    {
        let mut s = self.bus.to_string();
        s.append(" (");
        push_dec(&mut s, self.id);
        s.append(":");
        push_dec(&mut s, self.slot_id);
        s.append(" routed to IRQ ");
        push_dec(&mut s, self.irq);
        s.append(")");
        s
    }
}

/// The name of a status value, as the driver's status list calls it (`Ok`
/// for success).
pub open spec fn status_name(s: Status) -> Seq<char> {
    match s {
        Status::Success => "Ok"@,
        Status::Error => "Error"@,
        Status::LibraryNotFound => "LibraryNotFound"@,
        Status::NoImplementation => "NoImplementation"@,
        Status::ApiNotInitialized => "ApiNotInitialized"@,
        Status::InvalidArgument => "InvalidArgument"@,
        Status::NvidiaDeviceNotFound => "NvidiaDeviceNotFound"@,
        Status::EndEnumeration => "EndEnumeration"@,
        Status::InvalidHandle => "InvalidHandle"@,
        Status::IncompatibleStructVersion => "IncompatibleStructVersion"@,
        Status::HandleInvalidated => "HandleInvalidated"@,
        Status::OpenglContextNotCurrent => "OpenglContextNotCurrent"@,
        Status::InvalidPointer => "InvalidPointer"@,
        Status::NoGlExpert => "NoGlExpert"@,
        Status::InstrumentationDisabled => "InstrumentationDisabled"@,
        Status::NoGlNsight => "NoGlNsight"@,
        Status::ExpectedLogicalGpuHandle => "ExpectedLogicalGpuHandle"@,
        Status::ExpectedPhysicalGpuHandle => "ExpectedPhysicalGpuHandle"@,
        Status::ExpectedDisplayHandle => "ExpectedDisplayHandle"@,
        Status::InvalidCombination => "InvalidCombination"@,
        Status::NotSupported => "NotSupported"@,
        Status::PortidNotFound => "PortidNotFound"@,
        Status::ExpectedUnattachedDisplayHandle => "ExpectedUnattachedDisplayHandle"@,
        Status::InvalidPerfLevel => "InvalidPerfLevel"@,
        Status::DeviceBusy => "DeviceBusy"@,
        Status::NvPersistFileNotFound => "NvPersistFileNotFound"@,
        Status::PersistDataNotFound => "PersistDataNotFound"@,
        Status::ExpectedTvDisplay => "ExpectedTvDisplay"@,
        Status::ExpectedTvDisplayOnDconnector => "ExpectedTvDisplayOnDconnector"@,
        Status::NoActiveSliTopology => "NoActiveSliTopology"@,
        Status::SliRenderingModeNotallowed => "SliRenderingModeNotallowed"@,
        Status::ExpectedDigitalFlatPanel => "ExpectedDigitalFlatPanel"@,
        Status::ArgumentExceedMaxSize => "ArgumentExceedMaxSize"@,
        Status::DeviceSwitchingNotAllowed => "DeviceSwitchingNotAllowed"@,
        Status::TestingClocksNotSupported => "TestingClocksNotSupported"@,
        Status::UnknownUnderscanConfig => "UnknownUnderscanConfig"@,
        Status::TimeoutReconfiguringGpuTopo => "TimeoutReconfiguringGpuTopo"@,
        Status::DataNotFound => "DataNotFound"@,
        Status::ExpectedAnalogDisplay => "ExpectedAnalogDisplay"@,
        Status::NoVidlink => "NoVidlink"@,
        Status::RequiresReboot => "RequiresReboot"@,
        Status::InvalidHybridMode => "InvalidHybridMode"@,
        Status::MixedTargetTypes => "MixedTargetTypes"@,
        Status::Syswow64NotSupported => "Syswow64NotSupported"@,
        Status::ImplicitSetGpuTopologyChangeNotAllowed => "ImplicitSetGpuTopologyChangeNotAllowed"@,
        Status::RequestUserToCloseNonMigratableApps => "RequestUserToCloseNonMigratableApps"@,
        Status::OutOfMemory => "OutOfMemory"@,
        Status::WasStillDrawing => "WasStillDrawing"@,
        Status::FileNotFound => "FileNotFound"@,
        Status::TooManyUniqueStateObjects => "TooManyUniqueStateObjects"@,
        Status::InvalidCall => "InvalidCall"@,
        Status::D3d101LibraryNotFound => "D3d101LibraryNotFound"@,
        Status::FunctionNotFound => "FunctionNotFound"@,
        Status::InvalidUserPrivilege => "InvalidUserPrivilege"@,
        Status::ExpectedNonPrimaryDisplayHandle => "ExpectedNonPrimaryDisplayHandle"@,
        Status::ExpectedComputeGpuHandle => "ExpectedComputeGpuHandle"@,
        Status::StereoNotInitialized => "StereoNotInitialized"@,
        Status::StereoRegistryAccessFailed => "StereoRegistryAccessFailed"@,
        Status::StereoRegistryProfileTypeNotSupported => "StereoRegistryProfileTypeNotSupported"@,
        Status::StereoRegistryValueNotSupported => "StereoRegistryValueNotSupported"@,
        Status::StereoNotEnabled => "StereoNotEnabled"@,
        Status::StereoNotTurnedOn => "StereoNotTurnedOn"@,
        Status::StereoInvalidDeviceInterface => "StereoInvalidDeviceInterface"@,
        Status::StereoParameterOutOfRange => "StereoParameterOutOfRange"@,
        Status::StereoFrustumAdjustModeNotSupported => "StereoFrustumAdjustModeNotSupported"@,
        Status::TopoNotPossible => "TopoNotPossible"@,
        Status::ModeChangeFailed => "ModeChangeFailed"@,
        Status::D3d11LibraryNotFound => "D3d11LibraryNotFound"@,
        Status::InvalidAddress => "InvalidAddress"@,
        Status::StringTooSmall => "StringTooSmall"@,
        Status::MatchingDeviceNotFound => "MatchingDeviceNotFound"@,
        Status::DriverRunning => "DriverRunning"@,
        Status::DriverNotrunning => "DriverNotrunning"@,
        Status::ErrorDriverReloadRequired => "ErrorDriverReloadRequired"@,
        Status::SetNotAllowed => "SetNotAllowed"@,
        Status::AdvancedDisplayTopologyRequired => "AdvancedDisplayTopologyRequired"@,
        Status::SettingNotFound => "SettingNotFound"@,
        Status::SettingSizeTooLarge => "SettingSizeTooLarge"@,
        Status::TooManySettingsInProfile => "TooManySettingsInProfile"@,
        Status::ProfileNotFound => "ProfileNotFound"@,
        Status::ProfileNameInUse => "ProfileNameInUse"@,
        Status::ProfileNameEmpty => "ProfileNameEmpty"@,
        Status::ExecutableNotFound => "ExecutableNotFound"@,
        Status::ExecutableAlreadyInUse => "ExecutableAlreadyInUse"@,
        Status::DatatypeMismatch => "DatatypeMismatch"@,
        Status::ProfileRemoved => "ProfileRemoved"@,
        Status::UnregisteredResource => "UnregisteredResource"@,
        Status::IdOutOfRange => "IdOutOfRange"@,
        Status::DisplayconfigValidationFailed => "DisplayconfigValidationFailed"@,
        Status::DpmstChanged => "DpmstChanged"@,
        Status::InsufficientBuffer => "InsufficientBuffer"@,
        Status::AccessDenied => "AccessDenied"@,
        Status::MosaicNotActive => "MosaicNotActive"@,
        Status::ShareResourceRelocated => "ShareResourceRelocated"@,
        Status::RequestUserToDisableDwm => "RequestUserToDisableDwm"@,
        Status::D3dDeviceLost => "D3dDeviceLost"@,
        Status::InvalidConfiguration => "InvalidConfiguration"@,
        Status::StereoHandshakeNotDone => "StereoHandshakeNotDone"@,
        Status::ExecutablePathIsAmbiguous => "ExecutablePathIsAmbiguous"@,
        Status::DefaultStereoProfileIsNotDefined => "DefaultStereoProfileIsNotDefined"@,
        Status::DefaultStereoProfileDoesNotExist => "DefaultStereoProfileDoesNotExist"@,
        Status::ClusterAlreadyExists => "ClusterAlreadyExists"@,
        Status::DpmstDisplayIdExpected => "DpmstDisplayIdExpected"@,
        Status::InvalidDisplayId => "InvalidDisplayId"@,
        Status::StreamIsOutOfSync => "StreamIsOutOfSync"@,
        Status::IncompatibleAudioDriver => "IncompatibleAudioDriver"@,
        Status::ValueAlreadySet => "ValueAlreadySet"@,
        Status::Timeout => "Timeout"@,
        Status::GpuWorkstationFeatureIncomplete => "GpuWorkstationFeatureIncomplete"@,
        Status::StereoInitActivationNotDone => "StereoInitActivationNotDone"@,
        Status::SyncNotActive => "SyncNotActive"@,
        Status::SyncMasterNotFound => "SyncMasterNotFound"@,
        Status::InvalidSyncTopology => "InvalidSyncTopology"@,
        Status::EcidSignAlgoUnsupported => "EcidSignAlgoUnsupported"@,
        Status::EcidKeyVerificationFailed => "EcidKeyVerificationFailed"@,
        Status::FirmwareOutOfDate => "FirmwareOutOfDate"@,
        Status::FirmwareRevisionNotSupported => "FirmwareRevisionNotSupported"@,
        Status::LicenseCallerAuthenticationFailed => "LicenseCallerAuthenticationFailed"@,
        Status::D3dDeviceNotRegistered => "D3dDeviceNotRegistered"@,
        Status::ResourceNotAcquired => "ResourceNotAcquired"@,
        Status::TimingNotSupported => "TimingNotSupported"@,
        Status::HdcpEncryptionFailed => "HdcpEncryptionFailed"@,
        Status::PclkLimitationFailed => "PclkLimitationFailed"@,
        Status::NoConnectorFound => "NoConnectorFound"@,
        Status::HdcpDisabled => "HdcpDisabled"@,
        Status::ApiInUse => "ApiInUse"@,
        Status::NvidiaDisplayNotFound => "NvidiaDisplayNotFound"@,
        Status::PrivSecViolation => "PrivSecViolation"@,
        Status::IncorrectVendor => "IncorrectVendor"@,
        Status::DisplayInUse => "DisplayInUse"@,
        Status::UnsupportedConfigNonHdcpHmd => "UnsupportedConfigNonHdcpHmd"@,
        Status::MaxDisplayLimitReached => "MaxDisplayLimitReached"@,
        Status::InvalidDirectModeDisplay => "InvalidDirectModeDisplay"@,
        Status::GpuInDebugMode => "GpuInDebugMode"@,
    }
}

impl Status {
    /// The name of this status value (see `status_name`).
    pub fn name(&self) -> (r: &'static str)
        ensures
            r@ == status_name(*self),
    {
        match self {
            Status::Success => "Ok",
            Status::Error => "Error",
            Status::LibraryNotFound => "LibraryNotFound",
            Status::NoImplementation => "NoImplementation",
            Status::ApiNotInitialized => "ApiNotInitialized",
            Status::InvalidArgument => "InvalidArgument",
            Status::NvidiaDeviceNotFound => "NvidiaDeviceNotFound",
            Status::EndEnumeration => "EndEnumeration",
            Status::InvalidHandle => "InvalidHandle",
            Status::IncompatibleStructVersion => "IncompatibleStructVersion",
            Status::HandleInvalidated => "HandleInvalidated",
            Status::OpenglContextNotCurrent => "OpenglContextNotCurrent",
            Status::InvalidPointer => "InvalidPointer",
            Status::NoGlExpert => "NoGlExpert",
            Status::InstrumentationDisabled => "InstrumentationDisabled",
            Status::NoGlNsight => "NoGlNsight",
            Status::ExpectedLogicalGpuHandle => "ExpectedLogicalGpuHandle",
            Status::ExpectedPhysicalGpuHandle => "ExpectedPhysicalGpuHandle",
            Status::ExpectedDisplayHandle => "ExpectedDisplayHandle",
            Status::InvalidCombination => "InvalidCombination",
            Status::NotSupported => "NotSupported",
            Status::PortidNotFound => "PortidNotFound",
            Status::ExpectedUnattachedDisplayHandle => "ExpectedUnattachedDisplayHandle",
            Status::InvalidPerfLevel => "InvalidPerfLevel",
            Status::DeviceBusy => "DeviceBusy",
            Status::NvPersistFileNotFound => "NvPersistFileNotFound",
            Status::PersistDataNotFound => "PersistDataNotFound",
            Status::ExpectedTvDisplay => "ExpectedTvDisplay",
            Status::ExpectedTvDisplayOnDconnector => "ExpectedTvDisplayOnDconnector",
            Status::NoActiveSliTopology => "NoActiveSliTopology",
            Status::SliRenderingModeNotallowed => "SliRenderingModeNotallowed",
            Status::ExpectedDigitalFlatPanel => "ExpectedDigitalFlatPanel",
            Status::ArgumentExceedMaxSize => "ArgumentExceedMaxSize",
            Status::DeviceSwitchingNotAllowed => "DeviceSwitchingNotAllowed",
            Status::TestingClocksNotSupported => "TestingClocksNotSupported",
            Status::UnknownUnderscanConfig => "UnknownUnderscanConfig",
            Status::TimeoutReconfiguringGpuTopo => "TimeoutReconfiguringGpuTopo",
            Status::DataNotFound => "DataNotFound",
            Status::ExpectedAnalogDisplay => "ExpectedAnalogDisplay",
            Status::NoVidlink => "NoVidlink",
            Status::RequiresReboot => "RequiresReboot",
            Status::InvalidHybridMode => "InvalidHybridMode",
            Status::MixedTargetTypes => "MixedTargetTypes",
            Status::Syswow64NotSupported => "Syswow64NotSupported",
            Status::ImplicitSetGpuTopologyChangeNotAllowed => "ImplicitSetGpuTopologyChangeNotAllowed",
            Status::RequestUserToCloseNonMigratableApps => "RequestUserToCloseNonMigratableApps",
            Status::OutOfMemory => "OutOfMemory",
            Status::WasStillDrawing => "WasStillDrawing",
            Status::FileNotFound => "FileNotFound",
            Status::TooManyUniqueStateObjects => "TooManyUniqueStateObjects",
            Status::InvalidCall => "InvalidCall",
            Status::D3d101LibraryNotFound => "D3d101LibraryNotFound",
            Status::FunctionNotFound => "FunctionNotFound",
            Status::InvalidUserPrivilege => "InvalidUserPrivilege",
            Status::ExpectedNonPrimaryDisplayHandle => "ExpectedNonPrimaryDisplayHandle",
            Status::ExpectedComputeGpuHandle => "ExpectedComputeGpuHandle",
            Status::StereoNotInitialized => "StereoNotInitialized",
            Status::StereoRegistryAccessFailed => "StereoRegistryAccessFailed",
            Status::StereoRegistryProfileTypeNotSupported => "StereoRegistryProfileTypeNotSupported",
            Status::StereoRegistryValueNotSupported => "StereoRegistryValueNotSupported",
            Status::StereoNotEnabled => "StereoNotEnabled",
            Status::StereoNotTurnedOn => "StereoNotTurnedOn",
            Status::StereoInvalidDeviceInterface => "StereoInvalidDeviceInterface",
            Status::StereoParameterOutOfRange => "StereoParameterOutOfRange",
            Status::StereoFrustumAdjustModeNotSupported => "StereoFrustumAdjustModeNotSupported",
            Status::TopoNotPossible => "TopoNotPossible",
            Status::ModeChangeFailed => "ModeChangeFailed",
            Status::D3d11LibraryNotFound => "D3d11LibraryNotFound",
            Status::InvalidAddress => "InvalidAddress",
            Status::StringTooSmall => "StringTooSmall",
            Status::MatchingDeviceNotFound => "MatchingDeviceNotFound",
            Status::DriverRunning => "DriverRunning",
            Status::DriverNotrunning => "DriverNotrunning",
            Status::ErrorDriverReloadRequired => "ErrorDriverReloadRequired",
            Status::SetNotAllowed => "SetNotAllowed",
            Status::AdvancedDisplayTopologyRequired => "AdvancedDisplayTopologyRequired",
            Status::SettingNotFound => "SettingNotFound",
            Status::SettingSizeTooLarge => "SettingSizeTooLarge",
            Status::TooManySettingsInProfile => "TooManySettingsInProfile",
            Status::ProfileNotFound => "ProfileNotFound",
            Status::ProfileNameInUse => "ProfileNameInUse",
            Status::ProfileNameEmpty => "ProfileNameEmpty",
            Status::ExecutableNotFound => "ExecutableNotFound",
            Status::ExecutableAlreadyInUse => "ExecutableAlreadyInUse",
            Status::DatatypeMismatch => "DatatypeMismatch",
            Status::ProfileRemoved => "ProfileRemoved",
            Status::UnregisteredResource => "UnregisteredResource",
            Status::IdOutOfRange => "IdOutOfRange",
            Status::DisplayconfigValidationFailed => "DisplayconfigValidationFailed",
            Status::DpmstChanged => "DpmstChanged",
            Status::InsufficientBuffer => "InsufficientBuffer",
            Status::AccessDenied => "AccessDenied",
            Status::MosaicNotActive => "MosaicNotActive",
            Status::ShareResourceRelocated => "ShareResourceRelocated",
            Status::RequestUserToDisableDwm => "RequestUserToDisableDwm",
            Status::D3dDeviceLost => "D3dDeviceLost",
            Status::InvalidConfiguration => "InvalidConfiguration",
            Status::StereoHandshakeNotDone => "StereoHandshakeNotDone",
            Status::ExecutablePathIsAmbiguous => "ExecutablePathIsAmbiguous",
            Status::DefaultStereoProfileIsNotDefined => "DefaultStereoProfileIsNotDefined",
            Status::DefaultStereoProfileDoesNotExist => "DefaultStereoProfileDoesNotExist",
            Status::ClusterAlreadyExists => "ClusterAlreadyExists",
            Status::DpmstDisplayIdExpected => "DpmstDisplayIdExpected",
            Status::InvalidDisplayId => "InvalidDisplayId",
            Status::StreamIsOutOfSync => "StreamIsOutOfSync",
            Status::IncompatibleAudioDriver => "IncompatibleAudioDriver",
            Status::ValueAlreadySet => "ValueAlreadySet",
            Status::Timeout => "Timeout",
            Status::GpuWorkstationFeatureIncomplete => "GpuWorkstationFeatureIncomplete",
            Status::StereoInitActivationNotDone => "StereoInitActivationNotDone",
            Status::SyncNotActive => "SyncNotActive",
            Status::SyncMasterNotFound => "SyncMasterNotFound",
            Status::InvalidSyncTopology => "InvalidSyncTopology",
            Status::EcidSignAlgoUnsupported => "EcidSignAlgoUnsupported",
            Status::EcidKeyVerificationFailed => "EcidKeyVerificationFailed",
            Status::FirmwareOutOfDate => "FirmwareOutOfDate",
            Status::FirmwareRevisionNotSupported => "FirmwareRevisionNotSupported",
            Status::LicenseCallerAuthenticationFailed => "LicenseCallerAuthenticationFailed",
            Status::D3dDeviceNotRegistered => "D3dDeviceNotRegistered",
            Status::ResourceNotAcquired => "ResourceNotAcquired",
            Status::TimingNotSupported => "TimingNotSupported",
            Status::HdcpEncryptionFailed => "HdcpEncryptionFailed",
            Status::PclkLimitationFailed => "PclkLimitationFailed",
            Status::NoConnectorFound => "NoConnectorFound",
            Status::HdcpDisabled => "HdcpDisabled",
            Status::ApiInUse => "ApiInUse",
            Status::NvidiaDisplayNotFound => "NvidiaDisplayNotFound",
            Status::PrivSecViolation => "PrivSecViolation",
            Status::IncorrectVendor => "IncorrectVendor",
            Status::DisplayInUse => "DisplayInUse",
            Status::UnsupportedConfigNonHdcpHmd => "UnsupportedConfigNonHdcpHmd",
            Status::MaxDisplayLimitReached => "MaxDisplayLimitReached",
            Status::InvalidDirectModeDisplay => "InvalidDirectModeDisplay",
            Status::GpuInDebugMode => "GpuInDebugMode",
        }
    }

    /// The status as text: its name.
    pub fn to_string(&self) -> (r: String)
        ensures
            r@ == status_name(*self),
    {
        String::from_str(self.name())
    }
}

/// Each status value is shown by the name the NvAPI status listing gives it
/// (the value of `NVAPI_OK` shows as `Ok`).
pub proof fn lemma_status_listing_names()
    ensures
        status_name(Status::Success) == "Ok"@,
        status_name(Status::Error) == "Error"@,
        status_name(Status::LibraryNotFound) == "LibraryNotFound"@,
        status_name(Status::NoImplementation) == "NoImplementation"@,
        status_name(Status::ApiNotInitialized) == "ApiNotInitialized"@,
        status_name(Status::InvalidArgument) == "InvalidArgument"@,
        status_name(Status::NvidiaDeviceNotFound) == "NvidiaDeviceNotFound"@,
        status_name(Status::EndEnumeration) == "EndEnumeration"@,
        status_name(Status::InvalidHandle) == "InvalidHandle"@,
        status_name(Status::IncompatibleStructVersion) == "IncompatibleStructVersion"@,
        status_name(Status::HandleInvalidated) == "HandleInvalidated"@,
        status_name(Status::OpenglContextNotCurrent) == "OpenglContextNotCurrent"@,
        status_name(Status::InvalidPointer) == "InvalidPointer"@,
        status_name(Status::NoGlExpert) == "NoGlExpert"@,
        status_name(Status::InstrumentationDisabled) == "InstrumentationDisabled"@,
        status_name(Status::NoGlNsight) == "NoGlNsight"@,
        status_name(Status::ExpectedLogicalGpuHandle) == "ExpectedLogicalGpuHandle"@,
        status_name(Status::ExpectedPhysicalGpuHandle) == "ExpectedPhysicalGpuHandle"@,
        status_name(Status::ExpectedDisplayHandle) == "ExpectedDisplayHandle"@,
        status_name(Status::InvalidCombination) == "InvalidCombination"@,
        status_name(Status::NotSupported) == "NotSupported"@,
        status_name(Status::PortidNotFound) == "PortidNotFound"@,
        status_name(Status::ExpectedUnattachedDisplayHandle) == "ExpectedUnattachedDisplayHandle"@,
        status_name(Status::InvalidPerfLevel) == "InvalidPerfLevel"@,
        status_name(Status::DeviceBusy) == "DeviceBusy"@,
        status_name(Status::NvPersistFileNotFound) == "NvPersistFileNotFound"@,
        status_name(Status::PersistDataNotFound) == "PersistDataNotFound"@,
        status_name(Status::ExpectedTvDisplay) == "ExpectedTvDisplay"@,
        status_name(Status::ExpectedTvDisplayOnDconnector) == "ExpectedTvDisplayOnDconnector"@,
        status_name(Status::NoActiveSliTopology) == "NoActiveSliTopology"@,
        status_name(Status::SliRenderingModeNotallowed) == "SliRenderingModeNotallowed"@,
        status_name(Status::ExpectedDigitalFlatPanel) == "ExpectedDigitalFlatPanel"@,
        status_name(Status::ArgumentExceedMaxSize) == "ArgumentExceedMaxSize"@,
        status_name(Status::DeviceSwitchingNotAllowed) == "DeviceSwitchingNotAllowed"@,
        status_name(Status::TestingClocksNotSupported) == "TestingClocksNotSupported"@,
        status_name(Status::UnknownUnderscanConfig) == "UnknownUnderscanConfig"@,
        status_name(Status::TimeoutReconfiguringGpuTopo) == "TimeoutReconfiguringGpuTopo"@,
        status_name(Status::DataNotFound) == "DataNotFound"@,
        status_name(Status::ExpectedAnalogDisplay) == "ExpectedAnalogDisplay"@,
        status_name(Status::NoVidlink) == "NoVidlink"@,
        status_name(Status::RequiresReboot) == "RequiresReboot"@,
        status_name(Status::InvalidHybridMode) == "InvalidHybridMode"@,
        status_name(Status::MixedTargetTypes) == "MixedTargetTypes"@,
        status_name(Status::Syswow64NotSupported) == "Syswow64NotSupported"@,
        status_name(Status::ImplicitSetGpuTopologyChangeNotAllowed) == "ImplicitSetGpuTopologyChangeNotAllowed"@,
        status_name(Status::RequestUserToCloseNonMigratableApps) == "RequestUserToCloseNonMigratableApps"@,
        status_name(Status::OutOfMemory) == "OutOfMemory"@,
        status_name(Status::WasStillDrawing) == "WasStillDrawing"@,
        status_name(Status::FileNotFound) == "FileNotFound"@,
        status_name(Status::TooManyUniqueStateObjects) == "TooManyUniqueStateObjects"@,
        status_name(Status::InvalidCall) == "InvalidCall"@,
        status_name(Status::D3d101LibraryNotFound) == "D3d101LibraryNotFound"@,
        status_name(Status::FunctionNotFound) == "FunctionNotFound"@,
        status_name(Status::InvalidUserPrivilege) == "InvalidUserPrivilege"@,
        status_name(Status::ExpectedNonPrimaryDisplayHandle) == "ExpectedNonPrimaryDisplayHandle"@,
        status_name(Status::ExpectedComputeGpuHandle) == "ExpectedComputeGpuHandle"@,
        status_name(Status::StereoNotInitialized) == "StereoNotInitialized"@,
        status_name(Status::StereoRegistryAccessFailed) == "StereoRegistryAccessFailed"@,
        status_name(Status::StereoRegistryProfileTypeNotSupported) == "StereoRegistryProfileTypeNotSupported"@,
        status_name(Status::StereoRegistryValueNotSupported) == "StereoRegistryValueNotSupported"@,
        status_name(Status::StereoNotEnabled) == "StereoNotEnabled"@,
        status_name(Status::StereoNotTurnedOn) == "StereoNotTurnedOn"@,
        status_name(Status::StereoInvalidDeviceInterface) == "StereoInvalidDeviceInterface"@,
        status_name(Status::StereoParameterOutOfRange) == "StereoParameterOutOfRange"@,
        status_name(Status::StereoFrustumAdjustModeNotSupported) == "StereoFrustumAdjustModeNotSupported"@,
        status_name(Status::TopoNotPossible) == "TopoNotPossible"@,
        status_name(Status::ModeChangeFailed) == "ModeChangeFailed"@,
        status_name(Status::D3d11LibraryNotFound) == "D3d11LibraryNotFound"@,
        status_name(Status::InvalidAddress) == "InvalidAddress"@,
        status_name(Status::StringTooSmall) == "StringTooSmall"@,
        status_name(Status::MatchingDeviceNotFound) == "MatchingDeviceNotFound"@,
        status_name(Status::DriverRunning) == "DriverRunning"@,
        status_name(Status::DriverNotrunning) == "DriverNotrunning"@,
        status_name(Status::ErrorDriverReloadRequired) == "ErrorDriverReloadRequired"@,
        status_name(Status::SetNotAllowed) == "SetNotAllowed"@,
        status_name(Status::AdvancedDisplayTopologyRequired) == "AdvancedDisplayTopologyRequired"@,
        status_name(Status::SettingNotFound) == "SettingNotFound"@,
        status_name(Status::SettingSizeTooLarge) == "SettingSizeTooLarge"@,
        status_name(Status::TooManySettingsInProfile) == "TooManySettingsInProfile"@,
        status_name(Status::ProfileNotFound) == "ProfileNotFound"@,
        status_name(Status::ProfileNameInUse) == "ProfileNameInUse"@,
        status_name(Status::ProfileNameEmpty) == "ProfileNameEmpty"@,
        status_name(Status::ExecutableNotFound) == "ExecutableNotFound"@,
        status_name(Status::ExecutableAlreadyInUse) == "ExecutableAlreadyInUse"@,
        status_name(Status::DatatypeMismatch) == "DatatypeMismatch"@,
        status_name(Status::ProfileRemoved) == "ProfileRemoved"@,
        status_name(Status::UnregisteredResource) == "UnregisteredResource"@,
        status_name(Status::IdOutOfRange) == "IdOutOfRange"@,
        status_name(Status::DisplayconfigValidationFailed) == "DisplayconfigValidationFailed"@,
        status_name(Status::DpmstChanged) == "DpmstChanged"@,
        status_name(Status::InsufficientBuffer) == "InsufficientBuffer"@,
        status_name(Status::AccessDenied) == "AccessDenied"@,
        status_name(Status::MosaicNotActive) == "MosaicNotActive"@,
        status_name(Status::ShareResourceRelocated) == "ShareResourceRelocated"@,
        status_name(Status::RequestUserToDisableDwm) == "RequestUserToDisableDwm"@,
        status_name(Status::D3dDeviceLost) == "D3dDeviceLost"@,
        status_name(Status::InvalidConfiguration) == "InvalidConfiguration"@,
        status_name(Status::StereoHandshakeNotDone) == "StereoHandshakeNotDone"@,
        status_name(Status::ExecutablePathIsAmbiguous) == "ExecutablePathIsAmbiguous"@,
        status_name(Status::DefaultStereoProfileIsNotDefined) == "DefaultStereoProfileIsNotDefined"@,
        status_name(Status::DefaultStereoProfileDoesNotExist) == "DefaultStereoProfileDoesNotExist"@,
        status_name(Status::ClusterAlreadyExists) == "ClusterAlreadyExists"@,
        status_name(Status::DpmstDisplayIdExpected) == "DpmstDisplayIdExpected"@,
        status_name(Status::InvalidDisplayId) == "InvalidDisplayId"@,
        status_name(Status::StreamIsOutOfSync) == "StreamIsOutOfSync"@,
        status_name(Status::IncompatibleAudioDriver) == "IncompatibleAudioDriver"@,
        status_name(Status::ValueAlreadySet) == "ValueAlreadySet"@,
        status_name(Status::Timeout) == "Timeout"@,
        status_name(Status::GpuWorkstationFeatureIncomplete) == "GpuWorkstationFeatureIncomplete"@,
        status_name(Status::StereoInitActivationNotDone) == "StereoInitActivationNotDone"@,
        status_name(Status::SyncNotActive) == "SyncNotActive"@,
        status_name(Status::SyncMasterNotFound) == "SyncMasterNotFound"@,
        status_name(Status::InvalidSyncTopology) == "InvalidSyncTopology"@,
        status_name(Status::EcidSignAlgoUnsupported) == "EcidSignAlgoUnsupported"@,
        status_name(Status::EcidKeyVerificationFailed) == "EcidKeyVerificationFailed"@,
        status_name(Status::FirmwareOutOfDate) == "FirmwareOutOfDate"@,
        status_name(Status::FirmwareRevisionNotSupported) == "FirmwareRevisionNotSupported"@,
        status_name(Status::LicenseCallerAuthenticationFailed) == "LicenseCallerAuthenticationFailed"@,
        status_name(Status::D3dDeviceNotRegistered) == "D3dDeviceNotRegistered"@,
        status_name(Status::ResourceNotAcquired) == "ResourceNotAcquired"@,
        status_name(Status::TimingNotSupported) == "TimingNotSupported"@,
        status_name(Status::HdcpEncryptionFailed) == "HdcpEncryptionFailed"@,
        status_name(Status::PclkLimitationFailed) == "PclkLimitationFailed"@,
        status_name(Status::NoConnectorFound) == "NoConnectorFound"@,
        status_name(Status::HdcpDisabled) == "HdcpDisabled"@,
        status_name(Status::ApiInUse) == "ApiInUse"@,
        status_name(Status::NvidiaDisplayNotFound) == "NvidiaDisplayNotFound"@,
        status_name(Status::PrivSecViolation) == "PrivSecViolation"@,
        status_name(Status::IncorrectVendor) == "IncorrectVendor"@,
        status_name(Status::DisplayInUse) == "DisplayInUse"@,
        status_name(Status::UnsupportedConfigNonHdcpHmd) == "UnsupportedConfigNonHdcpHmd"@,
        status_name(Status::MaxDisplayLimitReached) == "MaxDisplayLimitReached"@,
        status_name(Status::InvalidDirectModeDisplay) == "InvalidDirectModeDisplay"@,
        status_name(Status::GpuInDebugMode) == "GpuInDebugMode"@,
{
}

/// The text of a raw status code: the name of a known one, else the code in decimal.
pub open spec fn spec_status_text(s: NvAPI_Status) -> Seq<char> {
    match status_of_code(s.value) {
        Some(st) => status_name(st),
        None => signed_chars(s.value as int),
    }
}

impl NvAPI_Status {
    /// The code as text (see `spec_status_text`).
    pub fn to_string(&self) -> (r: String)
        ensures
            r@ == spec_status_text(*self),
    {
        match self.try_get() {
            Ok(st) => st.to_string(),
            Err(..) => {
                let mut s = String::new();
                push_signed(&mut s, self.value);
                s
            },
        }
    }
}

/// The text of a failed call: the API's name, ` failed: ` and the status.
pub open spec fn spec_nvapi_error_text(e: NvapiError) -> Seq<char> {
    api_name(e.nvid) + " failed: "@ + spec_status_text(e.status)
}

impl NvapiError {
    /// The failure as text (see `spec_nvapi_error_text`).
    pub fn to_string(&self) -> (r: String)
        ensures
            r@ == spec_nvapi_error_text(*self),
    {
        let mut s = String::from_str(self.nvid.name());
        s.append(" failed: ");
        let status = self.status.to_string();
        s.append(status.as_str());
        s
    }
}

impl Error {
    /// The error as text: that of the failed call, or the range message.
    pub fn to_string(&self) -> (r: String)
        ensures
            r@ == (match *self {
                Error::Nvapi(e) => spec_nvapi_error_text(e),
                Error::ArgumentRange(..) => "received data out of range"@,
            }),
    {
        match self {
            Error::Nvapi(e) => e.to_string(),
            Error::ArgumentRange(e) => e.to_string(),
        }
    }
}

} // verus!
