use vstd::prelude::*;

verus! {

/// Error indicating that a raw value lies outside the range of known values.
#[derive(Copy, Clone, Debug, PartialEq, Eq, Structural, Hash)]
pub struct ArgumentRangeError;

/// NvAPI status values.
///
/// All NvAPI functions return one of these codes.
#[derive(Copy, Clone, Debug, PartialEq, Eq, Structural, Hash)]
#[non_exhaustive]
pub enum Status {
    /// Success. Request is completed.
    Success,
    /// Generic error
    Error,
    /// NVAPI support library cannot be loaded.
    LibraryNotFound,
    /// not implemented in current driver installation
    NoImplementation,
    /// NvAPI_Initialize has not been called (successfully)
    ApiNotInitialized,
    /// The argument/parameter value is not valid or NULL.
    InvalidArgument,
    /// No NVIDIA display driver, or NVIDIA GPU driving a display, was found.
    NvidiaDeviceNotFound,
    /// No more items to enumerate
    EndEnumeration,
    /// Invalid handle
    InvalidHandle,
    /// An argument's structure version is not supported
    IncompatibleStructVersion,
    /// The handle is no longer valid (likely due to GPU or display re-configuration)
    HandleInvalidated,
    /// No NVIDIA OpenGL context is current (but needs to be)
    OpenglContextNotCurrent,
    /// An invalid pointer, usually NULL, was passed as a parameter
    InvalidPointer,
    /// OpenGL Expert is not supported by the current drivers
    NoGlExpert,
    /// OpenGL Expert is supported, but driver instrumentation is currently disabled
    InstrumentationDisabled,
    /// OpenGL does not support Nsight
    NoGlNsight,
    /// Expected a logical GPU handle for one or more parameters
    ExpectedLogicalGpuHandle,
    /// Expected a physical GPU handle for one or more parameters
    ExpectedPhysicalGpuHandle,
    /// Expected an NV display handle for one or more parameters
    ExpectedDisplayHandle,
    /// The combination of parameters is not valid.
    InvalidCombination,
    /// Requested feature is not supported in the selected GPU
    NotSupported,
    /// No port ID was found for the I2C transaction
    PortidNotFound,
    /// Expected an unattached display handle as one of the input parameters.
    ExpectedUnattachedDisplayHandle,
    /// Invalid perf level
    InvalidPerfLevel,
    /// Device is busy; request not fulfilled
    DeviceBusy,
    /// NV persist file is not found
    NvPersistFileNotFound,
    /// NV persist data is not found
    PersistDataNotFound,
    /// Expected a TV output display
    ExpectedTvDisplay,
    /// Expected a TV output on the D Connector - HDTV_EIAJ4120.
    ExpectedTvDisplayOnDconnector,
    /// SLI is not active on this device.
    NoActiveSliTopology,
    /// Setup of SLI rendering mode is not possible right now.
    SliRenderingModeNotallowed,
    /// Expected a digital flat panel.
    ExpectedDigitalFlatPanel,
    /// Argument exceeds the expected size.
    ArgumentExceedMaxSize,
    /// Inhibit is ON due to one of the flags in NV_GPU_DISPLAY_CHANGE_INHIBIT or SLI active.
    DeviceSwitchingNotAllowed,
    /// Testing of clocks is not supported.
    TestingClocksNotSupported,
    /// The specified underscan config is from an unknown source (e.g. INF)
    UnknownUnderscanConfig,
    /// Timeout while reconfiguring GPUs
    TimeoutReconfiguringGpuTopo,
    /// Requested data was not found
    DataNotFound,
    /// Expected an analog display
    ExpectedAnalogDisplay,
    /// No SLI video bridge is present
    NoVidlink,
    /// NVAPI requires a reboot for the settings to take effect
    RequiresReboot,
    /// The function is not supported with the current Hybrid mode.
    InvalidHybridMode,
    /// The target types are not all the same
    MixedTargetTypes,
    /// The function is not supported from 32-bit on a 64-bit system.
    Syswow64NotSupported,
    /// There is no implicit GPU topology active. Use NVAPI_SetHybridMode to change topology.
    ImplicitSetGpuTopologyChangeNotAllowed,
    /// Prompt the user to close all non-migratable applications.
    RequestUserToCloseNonMigratableApps,
    /// Could not allocate sufficient memory to complete the call.
    OutOfMemory,
    /// The previous operation that is transferring information to or from this surface is incomplete.
    WasStillDrawing,
    /// The file was not found.
    FileNotFound,
    /// There are too many unique instances of a particular type of state object.
    TooManyUniqueStateObjects,
    /// The method call is invalid. For example, a method's parameter may not be a valid pointer.
    InvalidCall,
    /// d3d10_1.dll cannot be loaded.
    D3d101LibraryNotFound,
    /// Couldn't find the function in the loaded DLL.
    FunctionNotFound,
    /// Current User is not Admin.
    InvalidUserPrivilege,
    /// The handle corresponds to GDIPrimary.
    ExpectedNonPrimaryDisplayHandle,
    /// Setting Physx GPU requires that the GPU is compute-capable.
    ExpectedComputeGpuHandle,
    /// The Stereo part of NVAPI failed to initialize completely. Check if the stereo driver is installed.
    StereoNotInitialized,
    /// Access to stereo-related registry keys or values has failed.
    StereoRegistryAccessFailed,
    /// The given registry profile type is not supported.
    StereoRegistryProfileTypeNotSupported,
    /// The given registry value is not supported.
    StereoRegistryValueNotSupported,
    /// Stereo is not enabled and the function needed it to execute completely.
    StereoNotEnabled,
    /// Stereo is not turned on and the function needed it to execute completely.
    StereoNotTurnedOn,
    /// Invalid device interface.
    StereoInvalidDeviceInterface,
    /// Separation percentage or JPEG image capture quality is out of [0-100] range.
    StereoParameterOutOfRange,
    /// The given frustum adjust mode is not supported.
    StereoFrustumAdjustModeNotSupported,
    /// The mosaic topology is not possible given the current state of the hardware.
    TopoNotPossible,
    /// An attempt to do a display resolution mode change has failed.
    ModeChangeFailed,
    /// d3d11.dll/d3d11_beta.dll cannot be loaded.
    D3d11LibraryNotFound,
    /// Address is outside of valid range.
    InvalidAddress,
    /// The pre-allocated string is too small to hold the result.
    StringTooSmall,
    /// The input does not match any of the available devices.
    MatchingDeviceNotFound,
    /// Driver is running.
    DriverRunning,
    /// Driver is not running.
    DriverNotrunning,
    /// A driver reload is required to apply these settings.
    ErrorDriverReloadRequired,
    /// Intended setting is not allowed.
    SetNotAllowed,
    /// Information can't be returned due to "advanced display topology".
    AdvancedDisplayTopologyRequired,
    /// Setting is not found.
    SettingNotFound,
    /// Setting size is too large.
    SettingSizeTooLarge,
    /// There are too many settings for a profile.
    TooManySettingsInProfile,
    /// Profile is not found.
    ProfileNotFound,
    /// Profile name is duplicated.
    ProfileNameInUse,
    /// Profile name is empty.
    ProfileNameEmpty,
    /// Application not found in the Profile.
    ExecutableNotFound,
    /// Application already exists in the other profile.
    ExecutableAlreadyInUse,
    /// Data Type mismatch
    DatatypeMismatch,
    /// The profile passed as parameter has been removed and is no longer valid.
    ProfileRemoved,
    /// An unregistered resource was passed as a parameter.
    UnregisteredResource,
    /// The DisplayId corresponds to a display which is not within the normal outputId range.
    IdOutOfRange,
    /// Display topology is not valid so the driver cannot do a mode set on this configuration.
    DisplayconfigValidationFailed,
    /// Display Port Multi-Stream topology has been changed.
    DpmstChanged,
    /// Input buffer is insufficient to hold the contents.
    InsufficientBuffer,
    /// No access to the caller.
    AccessDenied,
    /// The requested action cannot be performed without Mosaic being enabled.
    MosaicNotActive,
    /// The surface is relocated away from video memory.
    ShareResourceRelocated,
    /// The user should disable DWM before calling NvAPI.
    RequestUserToDisableDwm,
    /// D3D device status is D3DERR_DEVICELOST or D3DERR_DEVICENOTRESET - the user has to reset the device.
    D3dDeviceLost,
    /// The requested action cannot be performed in the current state.
    InvalidConfiguration,
    /// Call failed as stereo handshake not completed.
    StereoHandshakeNotDone,
    /// The path provided was too short to determine the correct NVDRS_APPLICATION
    ExecutablePathIsAmbiguous,
    /// Default stereo profile is not currently defined
    DefaultStereoProfileIsNotDefined,
    /// Default stereo profile does not exist
    DefaultStereoProfileDoesNotExist,
    /// A cluster is already defined with the given configuration.
    ClusterAlreadyExists,
    /// The input display id is not that of a multi stream enabled connector or a display device in a multi stream topology
    DpmstDisplayIdExpected,
    /// The input display id is not valid or the monitor associated to it does not support the current operation
    InvalidDisplayId,
    /// While playing secure audio stream, stream goes out of sync
    StreamIsOutOfSync,
    /// Older audio driver version than required
    IncompatibleAudioDriver,
    /// Value already set, setting again not allowed.
    ValueAlreadySet,
    /// Requested operation timed out
    Timeout,
    /// The requested workstation feature set has incomplete driver internal allocation resources
    GpuWorkstationFeatureIncomplete,
    /// Call failed because InitActivation was not called.
    StereoInitActivationNotDone,
    /// The requested action cannot be performed without Sync being enabled.
    SyncNotActive,
    /// The requested action cannot be performed without Sync Master being enabled.
    SyncMasterNotFound,
    /// Invalid displays passed in the NV_GSYNC_DISPLAY pointer.
    InvalidSyncTopology,
    /// The specified signing algorithm is not supported.
    /// Either an incorrect value was entered or the current installed driver/hardware does not support the input value.
    EcidSignAlgoUnsupported,
    /// The encrypted public key verification has failed.
    EcidKeyVerificationFailed,
    /// The device's firmware is out of date.
    FirmwareOutOfDate,
    /// The device's firmware is not supported.
    FirmwareRevisionNotSupported,
    /// The caller is not authorized to modify the License.
    LicenseCallerAuthenticationFailed,
    /// The user tried to use a deferred context without registering the device first
    D3dDeviceNotRegistered,
    /// Head or SourceId was not reserved for the VR Display before doing the Modeset.
    ResourceNotAcquired,
    /// Provided timing is not supported.
    TimingNotSupported,
    /// HDCP Encryption Failed for the device. Would be applicable when the device is HDCP Capable.
    HdcpEncryptionFailed,
    /// Provided mode is over sink device pclk limitation.
    PclkLimitationFailed,
    /// No connector on GPU found.
    NoConnectorFound,
    /// When a non-HDCP capable HMD is connected, we would inform user by this code.
    HdcpDisabled,
    /// Atleast an API is still being called
    ApiInUse,
    /// No display found on Nvidia GPU(s).
    NvidiaDisplayNotFound,
    /// Priv security violation, improper access to a secured register.
    PrivSecViolation,
    /// NVAPI cannot be called by this vendor
    IncorrectVendor,
    /// DirectMode Display is already in use
    DisplayInUse,
    /// The Config is having Non-NVidia GPU with Non-HDCP HMD connected
    UnsupportedConfigNonHdcpHmd,
    /// GPU's Max Display Limit has Reached
    MaxDisplayLimitReached,
    /// DirectMode not Enabled on the Display
    InvalidDirectModeDisplay,
    /// GPU is in debug mode, OC is NOT allowed.
    GpuInDebugMode,
}

/// The raw code of each status value.
pub open spec fn status_code(s: Status) -> i32 {
    match s {
        Status::Success => 0i32,
        Status::Error => -1i32,
        Status::LibraryNotFound => -2i32,
        Status::NoImplementation => -3i32,
        Status::ApiNotInitialized => -4i32,
        Status::InvalidArgument => -5i32,
        Status::NvidiaDeviceNotFound => -6i32,
        Status::EndEnumeration => -7i32,
        Status::InvalidHandle => -8i32,
        Status::IncompatibleStructVersion => -9i32,
        Status::HandleInvalidated => -10i32,
        Status::OpenglContextNotCurrent => -11i32,
        Status::InvalidPointer => -14i32,
        Status::NoGlExpert => -12i32,
        Status::InstrumentationDisabled => -13i32,
        Status::NoGlNsight => -15i32,
        Status::ExpectedLogicalGpuHandle => -100i32,
        Status::ExpectedPhysicalGpuHandle => -101i32,
        Status::ExpectedDisplayHandle => -102i32,
        Status::InvalidCombination => -103i32,
        Status::NotSupported => -104i32,
        Status::PortidNotFound => -105i32,
        Status::ExpectedUnattachedDisplayHandle => -106i32,
        Status::InvalidPerfLevel => -107i32,
        Status::DeviceBusy => -108i32,
        Status::NvPersistFileNotFound => -109i32,
        Status::PersistDataNotFound => -110i32,
        Status::ExpectedTvDisplay => -111i32,
        Status::ExpectedTvDisplayOnDconnector => -112i32,
        Status::NoActiveSliTopology => -113i32,
        Status::SliRenderingModeNotallowed => -114i32,
        Status::ExpectedDigitalFlatPanel => -115i32,
        Status::ArgumentExceedMaxSize => -116i32,
        Status::DeviceSwitchingNotAllowed => -117i32,
        Status::TestingClocksNotSupported => -118i32,
        Status::UnknownUnderscanConfig => -119i32,
        Status::TimeoutReconfiguringGpuTopo => -120i32,
        Status::DataNotFound => -121i32,
        Status::ExpectedAnalogDisplay => -122i32,
        Status::NoVidlink => -123i32,
        Status::RequiresReboot => -124i32,
        Status::InvalidHybridMode => -125i32,
        Status::MixedTargetTypes => -126i32,
        Status::Syswow64NotSupported => -127i32,
        Status::ImplicitSetGpuTopologyChangeNotAllowed => -128i32,
        Status::RequestUserToCloseNonMigratableApps => -129i32,
        Status::OutOfMemory => -130i32,
        Status::WasStillDrawing => -131i32,
        Status::FileNotFound => -132i32,
        Status::TooManyUniqueStateObjects => -133i32,
        Status::InvalidCall => -134i32,
        Status::D3d101LibraryNotFound => -135i32,
        Status::FunctionNotFound => -136i32,
        Status::InvalidUserPrivilege => -137i32,
        Status::ExpectedNonPrimaryDisplayHandle => -138i32,
        Status::ExpectedComputeGpuHandle => -139i32,
        Status::StereoNotInitialized => -140i32,
        Status::StereoRegistryAccessFailed => -141i32,
        Status::StereoRegistryProfileTypeNotSupported => -142i32,
        Status::StereoRegistryValueNotSupported => -143i32,
        Status::StereoNotEnabled => -144i32,
        Status::StereoNotTurnedOn => -145i32,
        Status::StereoInvalidDeviceInterface => -146i32,
        Status::StereoParameterOutOfRange => -147i32,
        Status::StereoFrustumAdjustModeNotSupported => -148i32,
        Status::TopoNotPossible => -149i32,
        Status::ModeChangeFailed => -150i32,
        Status::D3d11LibraryNotFound => -151i32,
        Status::InvalidAddress => -152i32,
        Status::StringTooSmall => -153i32,
        Status::MatchingDeviceNotFound => -154i32,
        Status::DriverRunning => -155i32,
        Status::DriverNotrunning => -156i32,
        Status::ErrorDriverReloadRequired => -157i32,
        Status::SetNotAllowed => -158i32,
        Status::AdvancedDisplayTopologyRequired => -159i32,
        Status::SettingNotFound => -160i32,
        Status::SettingSizeTooLarge => -161i32,
        Status::TooManySettingsInProfile => -162i32,
        Status::ProfileNotFound => -163i32,
        Status::ProfileNameInUse => -164i32,
        Status::ProfileNameEmpty => -165i32,
        Status::ExecutableNotFound => -166i32,
        Status::ExecutableAlreadyInUse => -167i32,
        Status::DatatypeMismatch => -168i32,
        Status::ProfileRemoved => -169i32,
        Status::UnregisteredResource => -170i32,
        Status::IdOutOfRange => -171i32,
        Status::DisplayconfigValidationFailed => -172i32,
        Status::DpmstChanged => -173i32,
        Status::InsufficientBuffer => -174i32,
        Status::AccessDenied => -175i32,
        Status::MosaicNotActive => -176i32,
        Status::ShareResourceRelocated => -177i32,
        Status::RequestUserToDisableDwm => -178i32,
        Status::D3dDeviceLost => -179i32,
        Status::InvalidConfiguration => -180i32,
        Status::StereoHandshakeNotDone => -181i32,
        Status::ExecutablePathIsAmbiguous => -182i32,
        Status::DefaultStereoProfileIsNotDefined => -183i32,
        Status::DefaultStereoProfileDoesNotExist => -184i32,
        Status::ClusterAlreadyExists => -185i32,
        Status::DpmstDisplayIdExpected => -186i32,
        Status::InvalidDisplayId => -187i32,
        Status::StreamIsOutOfSync => -188i32,
        Status::IncompatibleAudioDriver => -189i32,
        Status::ValueAlreadySet => -190i32,
        Status::Timeout => -191i32,
        Status::GpuWorkstationFeatureIncomplete => -192i32,
        Status::StereoInitActivationNotDone => -193i32,
        Status::SyncNotActive => -194i32,
        Status::SyncMasterNotFound => -195i32,
        Status::InvalidSyncTopology => -196i32,
        Status::EcidSignAlgoUnsupported => -197i32,
        Status::EcidKeyVerificationFailed => -198i32,
        Status::FirmwareOutOfDate => -199i32,
        Status::FirmwareRevisionNotSupported => -200i32,
        Status::LicenseCallerAuthenticationFailed => -201i32,
        Status::D3dDeviceNotRegistered => -202i32,
        Status::ResourceNotAcquired => -203i32,
        Status::TimingNotSupported => -204i32,
        Status::HdcpEncryptionFailed => -205i32,
        Status::PclkLimitationFailed => -206i32,
        Status::NoConnectorFound => -207i32,
        Status::HdcpDisabled => -208i32,
        Status::ApiInUse => -209i32,
        Status::NvidiaDisplayNotFound => -210i32,
        Status::PrivSecViolation => -211i32,
        Status::IncorrectVendor => -212i32,
        Status::DisplayInUse => -213i32,
        Status::UnsupportedConfigNonHdcpHmd => -214i32,
        Status::MaxDisplayLimitReached => -215i32,
        Status::InvalidDirectModeDisplay => -216i32,
        Status::GpuInDebugMode => -217i32,
    }
}

/// The status value with a given raw code, if there is one.
pub open spec fn status_of_code(raw: i32) -> Option<Status> {
    match raw {
        0i32 => Some(Status::Success),
        -1i32 => Some(Status::Error),
        -2i32 => Some(Status::LibraryNotFound),
        -3i32 => Some(Status::NoImplementation),
        -4i32 => Some(Status::ApiNotInitialized),
        -5i32 => Some(Status::InvalidArgument),
        -6i32 => Some(Status::NvidiaDeviceNotFound),
        -7i32 => Some(Status::EndEnumeration),
        -8i32 => Some(Status::InvalidHandle),
        -9i32 => Some(Status::IncompatibleStructVersion),
        -10i32 => Some(Status::HandleInvalidated),
        -11i32 => Some(Status::OpenglContextNotCurrent),
        -14i32 => Some(Status::InvalidPointer),
        -12i32 => Some(Status::NoGlExpert),
        -13i32 => Some(Status::InstrumentationDisabled),
        -15i32 => Some(Status::NoGlNsight),
        -100i32 => Some(Status::ExpectedLogicalGpuHandle),
        -101i32 => Some(Status::ExpectedPhysicalGpuHandle),
        -102i32 => Some(Status::ExpectedDisplayHandle),
        -103i32 => Some(Status::InvalidCombination),
        -104i32 => Some(Status::NotSupported),
        -105i32 => Some(Status::PortidNotFound),
        -106i32 => Some(Status::ExpectedUnattachedDisplayHandle),
        -107i32 => Some(Status::InvalidPerfLevel),
        -108i32 => Some(Status::DeviceBusy),
        -109i32 => Some(Status::NvPersistFileNotFound),
        -110i32 => Some(Status::PersistDataNotFound),
        -111i32 => Some(Status::ExpectedTvDisplay),
        -112i32 => Some(Status::ExpectedTvDisplayOnDconnector),
        -113i32 => Some(Status::NoActiveSliTopology),
        -114i32 => Some(Status::SliRenderingModeNotallowed),
        -115i32 => Some(Status::ExpectedDigitalFlatPanel),
        -116i32 => Some(Status::ArgumentExceedMaxSize),
        -117i32 => Some(Status::DeviceSwitchingNotAllowed),
        -118i32 => Some(Status::TestingClocksNotSupported),
        -119i32 => Some(Status::UnknownUnderscanConfig),
        -120i32 => Some(Status::TimeoutReconfiguringGpuTopo),
        -121i32 => Some(Status::DataNotFound),
        -122i32 => Some(Status::ExpectedAnalogDisplay),
        -123i32 => Some(Status::NoVidlink),
        -124i32 => Some(Status::RequiresReboot),
        -125i32 => Some(Status::InvalidHybridMode),
        -126i32 => Some(Status::MixedTargetTypes),
        -127i32 => Some(Status::Syswow64NotSupported),
        -128i32 => Some(Status::ImplicitSetGpuTopologyChangeNotAllowed),
        -129i32 => Some(Status::RequestUserToCloseNonMigratableApps),
        -130i32 => Some(Status::OutOfMemory),
        -131i32 => Some(Status::WasStillDrawing),
        -132i32 => Some(Status::FileNotFound),
        -133i32 => Some(Status::TooManyUniqueStateObjects),
        -134i32 => Some(Status::InvalidCall),
        -135i32 => Some(Status::D3d101LibraryNotFound),
        -136i32 => Some(Status::FunctionNotFound),
        -137i32 => Some(Status::InvalidUserPrivilege),
        -138i32 => Some(Status::ExpectedNonPrimaryDisplayHandle),
        -139i32 => Some(Status::ExpectedComputeGpuHandle),
        -140i32 => Some(Status::StereoNotInitialized),
        -141i32 => Some(Status::StereoRegistryAccessFailed),
        -142i32 => Some(Status::StereoRegistryProfileTypeNotSupported),
        -143i32 => Some(Status::StereoRegistryValueNotSupported),
        -144i32 => Some(Status::StereoNotEnabled),
        -145i32 => Some(Status::StereoNotTurnedOn),
        -146i32 => Some(Status::StereoInvalidDeviceInterface),
        -147i32 => Some(Status::StereoParameterOutOfRange),
        -148i32 => Some(Status::StereoFrustumAdjustModeNotSupported),
        -149i32 => Some(Status::TopoNotPossible),
        -150i32 => Some(Status::ModeChangeFailed),
        -151i32 => Some(Status::D3d11LibraryNotFound),
        -152i32 => Some(Status::InvalidAddress),
        -153i32 => Some(Status::StringTooSmall),
        -154i32 => Some(Status::MatchingDeviceNotFound),
        -155i32 => Some(Status::DriverRunning),
        -156i32 => Some(Status::DriverNotrunning),
        -157i32 => Some(Status::ErrorDriverReloadRequired),
        -158i32 => Some(Status::SetNotAllowed),
        -159i32 => Some(Status::AdvancedDisplayTopologyRequired),
        -160i32 => Some(Status::SettingNotFound),
        -161i32 => Some(Status::SettingSizeTooLarge),
        -162i32 => Some(Status::TooManySettingsInProfile),
        -163i32 => Some(Status::ProfileNotFound),
        -164i32 => Some(Status::ProfileNameInUse),
        -165i32 => Some(Status::ProfileNameEmpty),
        -166i32 => Some(Status::ExecutableNotFound),
        -167i32 => Some(Status::ExecutableAlreadyInUse),
        -168i32 => Some(Status::DatatypeMismatch),
        -169i32 => Some(Status::ProfileRemoved),
        -170i32 => Some(Status::UnregisteredResource),
        -171i32 => Some(Status::IdOutOfRange),
        -172i32 => Some(Status::DisplayconfigValidationFailed),
        -173i32 => Some(Status::DpmstChanged),
        -174i32 => Some(Status::InsufficientBuffer),
        -175i32 => Some(Status::AccessDenied),
        -176i32 => Some(Status::MosaicNotActive),
        -177i32 => Some(Status::ShareResourceRelocated),
        -178i32 => Some(Status::RequestUserToDisableDwm),
        -179i32 => Some(Status::D3dDeviceLost),
        -180i32 => Some(Status::InvalidConfiguration),
        -181i32 => Some(Status::StereoHandshakeNotDone),
        -182i32 => Some(Status::ExecutablePathIsAmbiguous),
        -183i32 => Some(Status::DefaultStereoProfileIsNotDefined),
        -184i32 => Some(Status::DefaultStereoProfileDoesNotExist),
        -185i32 => Some(Status::ClusterAlreadyExists),
        -186i32 => Some(Status::DpmstDisplayIdExpected),
        -187i32 => Some(Status::InvalidDisplayId),
        -188i32 => Some(Status::StreamIsOutOfSync),
        -189i32 => Some(Status::IncompatibleAudioDriver),
        -190i32 => Some(Status::ValueAlreadySet),
        -191i32 => Some(Status::Timeout),
        -192i32 => Some(Status::GpuWorkstationFeatureIncomplete),
        -193i32 => Some(Status::StereoInitActivationNotDone),
        -194i32 => Some(Status::SyncNotActive),
        -195i32 => Some(Status::SyncMasterNotFound),
        -196i32 => Some(Status::InvalidSyncTopology),
        -197i32 => Some(Status::EcidSignAlgoUnsupported),
        -198i32 => Some(Status::EcidKeyVerificationFailed),
        -199i32 => Some(Status::FirmwareOutOfDate),
        -200i32 => Some(Status::FirmwareRevisionNotSupported),
        -201i32 => Some(Status::LicenseCallerAuthenticationFailed),
        -202i32 => Some(Status::D3dDeviceNotRegistered),
        -203i32 => Some(Status::ResourceNotAcquired),
        -204i32 => Some(Status::TimingNotSupported),
        -205i32 => Some(Status::HdcpEncryptionFailed),
        -206i32 => Some(Status::PclkLimitationFailed),
        -207i32 => Some(Status::NoConnectorFound),
        -208i32 => Some(Status::HdcpDisabled),
        -209i32 => Some(Status::ApiInUse),
        -210i32 => Some(Status::NvidiaDisplayNotFound),
        -211i32 => Some(Status::PrivSecViolation),
        -212i32 => Some(Status::IncorrectVendor),
        -213i32 => Some(Status::DisplayInUse),
        -214i32 => Some(Status::UnsupportedConfigNonHdcpHmd),
        -215i32 => Some(Status::MaxDisplayLimitReached),
        -216i32 => Some(Status::InvalidDirectModeDisplay),
        -217i32 => Some(Status::GpuInDebugMode),
        _ => None,
    }
}

pub open spec fn status_from_raw_spec(raw: i32) -> Result<Status, ArgumentRangeError> {
    match status_of_code(raw) {
        Some(s) => Ok(s),
        None => Err(ArgumentRangeError),
    }
}

/// Every status value, in declaration order.
pub open spec fn all_statuses() -> Seq<Status> {
    seq![
        Status::Success,
        Status::Error,
        Status::LibraryNotFound,
        Status::NoImplementation,
        Status::ApiNotInitialized,
        Status::InvalidArgument,
        Status::NvidiaDeviceNotFound,
        Status::EndEnumeration,
        Status::InvalidHandle,
        Status::IncompatibleStructVersion,
        Status::HandleInvalidated,
        Status::OpenglContextNotCurrent,
        Status::InvalidPointer,
        Status::NoGlExpert,
        Status::InstrumentationDisabled,
        Status::NoGlNsight,
        Status::ExpectedLogicalGpuHandle,
        Status::ExpectedPhysicalGpuHandle,
        Status::ExpectedDisplayHandle,
        Status::InvalidCombination,
        Status::NotSupported,
        Status::PortidNotFound,
        Status::ExpectedUnattachedDisplayHandle,
        Status::InvalidPerfLevel,
        Status::DeviceBusy,
        Status::NvPersistFileNotFound,
        Status::PersistDataNotFound,
        Status::ExpectedTvDisplay,
        Status::ExpectedTvDisplayOnDconnector,
        Status::NoActiveSliTopology,
        Status::SliRenderingModeNotallowed,
        Status::ExpectedDigitalFlatPanel,
        Status::ArgumentExceedMaxSize,
        Status::DeviceSwitchingNotAllowed,
        Status::TestingClocksNotSupported,
        Status::UnknownUnderscanConfig,
        Status::TimeoutReconfiguringGpuTopo,
        Status::DataNotFound,
        Status::ExpectedAnalogDisplay,
        Status::NoVidlink,
        Status::RequiresReboot,
        Status::InvalidHybridMode,
        Status::MixedTargetTypes,
        Status::Syswow64NotSupported,
        Status::ImplicitSetGpuTopologyChangeNotAllowed,
        Status::RequestUserToCloseNonMigratableApps,
        Status::OutOfMemory,
        Status::WasStillDrawing,
        Status::FileNotFound,
        Status::TooManyUniqueStateObjects,
        Status::InvalidCall,
        Status::D3d101LibraryNotFound,
        Status::FunctionNotFound,
        Status::InvalidUserPrivilege,
        Status::ExpectedNonPrimaryDisplayHandle,
        Status::ExpectedComputeGpuHandle,
        Status::StereoNotInitialized,
        Status::StereoRegistryAccessFailed,
        Status::StereoRegistryProfileTypeNotSupported,
        Status::StereoRegistryValueNotSupported,
        Status::StereoNotEnabled,
        Status::StereoNotTurnedOn,
        Status::StereoInvalidDeviceInterface,
        Status::StereoParameterOutOfRange,
        Status::StereoFrustumAdjustModeNotSupported,
        Status::TopoNotPossible,
        Status::ModeChangeFailed,
        Status::D3d11LibraryNotFound,
        Status::InvalidAddress,
        Status::StringTooSmall,
        Status::MatchingDeviceNotFound,
        Status::DriverRunning,
        Status::DriverNotrunning,
        Status::ErrorDriverReloadRequired,
        Status::SetNotAllowed,
        Status::AdvancedDisplayTopologyRequired,
        Status::SettingNotFound,
        Status::SettingSizeTooLarge,
        Status::TooManySettingsInProfile,
        Status::ProfileNotFound,
        Status::ProfileNameInUse,
        Status::ProfileNameEmpty,
        Status::ExecutableNotFound,
        Status::ExecutableAlreadyInUse,
        Status::DatatypeMismatch,
        Status::ProfileRemoved,
        Status::UnregisteredResource,
        Status::IdOutOfRange,
        Status::DisplayconfigValidationFailed,
        Status::DpmstChanged,
        Status::InsufficientBuffer,
        Status::AccessDenied,
        Status::MosaicNotActive,
        Status::ShareResourceRelocated,
        Status::RequestUserToDisableDwm,
        Status::D3dDeviceLost,
        Status::InvalidConfiguration,
        Status::StereoHandshakeNotDone,
        Status::ExecutablePathIsAmbiguous,
        Status::DefaultStereoProfileIsNotDefined,
        Status::DefaultStereoProfileDoesNotExist,
        Status::ClusterAlreadyExists,
        Status::DpmstDisplayIdExpected,
        Status::InvalidDisplayId,
        Status::StreamIsOutOfSync,
        Status::IncompatibleAudioDriver,
        Status::ValueAlreadySet,
        Status::Timeout,
        Status::GpuWorkstationFeatureIncomplete,
        Status::StereoInitActivationNotDone,
        Status::SyncNotActive,
        Status::SyncMasterNotFound,
        Status::InvalidSyncTopology,
        Status::EcidSignAlgoUnsupported,
        Status::EcidKeyVerificationFailed,
        Status::FirmwareOutOfDate,
        Status::FirmwareRevisionNotSupported,
        Status::LicenseCallerAuthenticationFailed,
        Status::D3dDeviceNotRegistered,
        Status::ResourceNotAcquired,
        Status::TimingNotSupported,
        Status::HdcpEncryptionFailed,
        Status::PclkLimitationFailed,
        Status::NoConnectorFound,
        Status::HdcpDisabled,
        Status::ApiInUse,
        Status::NvidiaDisplayNotFound,
        Status::PrivSecViolation,
        Status::IncorrectVendor,
        Status::DisplayInUse,
        Status::UnsupportedConfigNonHdcpHmd,
        Status::MaxDisplayLimitReached,
        Status::InvalidDirectModeDisplay,
        Status::GpuInDebugMode,
    ]
}

impl Status {
    /// Looks up the status value with the raw code `raw`.
    pub fn from_raw(raw: i32) -> (r: Result<Status, ArgumentRangeError>)
        ensures
            r == status_from_raw_spec(raw),
    {
        match raw {
            0i32 => Ok(Status::Success),
            -1i32 => Ok(Status::Error),
            -2i32 => Ok(Status::LibraryNotFound),
            -3i32 => Ok(Status::NoImplementation),
            -4i32 => Ok(Status::ApiNotInitialized),
            -5i32 => Ok(Status::InvalidArgument),
            -6i32 => Ok(Status::NvidiaDeviceNotFound),
            -7i32 => Ok(Status::EndEnumeration),
            -8i32 => Ok(Status::InvalidHandle),
            -9i32 => Ok(Status::IncompatibleStructVersion),
            -10i32 => Ok(Status::HandleInvalidated),
            -11i32 => Ok(Status::OpenglContextNotCurrent),
            -14i32 => Ok(Status::InvalidPointer),
            -12i32 => Ok(Status::NoGlExpert),
            -13i32 => Ok(Status::InstrumentationDisabled),
            -15i32 => Ok(Status::NoGlNsight),
            -100i32 => Ok(Status::ExpectedLogicalGpuHandle),
            -101i32 => Ok(Status::ExpectedPhysicalGpuHandle),
            -102i32 => Ok(Status::ExpectedDisplayHandle),
            -103i32 => Ok(Status::InvalidCombination),
            -104i32 => Ok(Status::NotSupported),
            -105i32 => Ok(Status::PortidNotFound),
            -106i32 => Ok(Status::ExpectedUnattachedDisplayHandle),
            -107i32 => Ok(Status::InvalidPerfLevel),
            -108i32 => Ok(Status::DeviceBusy),
            -109i32 => Ok(Status::NvPersistFileNotFound),
            -110i32 => Ok(Status::PersistDataNotFound),
            -111i32 => Ok(Status::ExpectedTvDisplay),
            -112i32 => Ok(Status::ExpectedTvDisplayOnDconnector),
            -113i32 => Ok(Status::NoActiveSliTopology),
            -114i32 => Ok(Status::SliRenderingModeNotallowed),
            -115i32 => Ok(Status::ExpectedDigitalFlatPanel),
            -116i32 => Ok(Status::ArgumentExceedMaxSize),
            -117i32 => Ok(Status::DeviceSwitchingNotAllowed),
            -118i32 => Ok(Status::TestingClocksNotSupported),
            -119i32 => Ok(Status::UnknownUnderscanConfig),
            -120i32 => Ok(Status::TimeoutReconfiguringGpuTopo),
            -121i32 => Ok(Status::DataNotFound),
            -122i32 => Ok(Status::ExpectedAnalogDisplay),
            -123i32 => Ok(Status::NoVidlink),
            -124i32 => Ok(Status::RequiresReboot),
            -125i32 => Ok(Status::InvalidHybridMode),
            -126i32 => Ok(Status::MixedTargetTypes),
            -127i32 => Ok(Status::Syswow64NotSupported),
            -128i32 => Ok(Status::ImplicitSetGpuTopologyChangeNotAllowed),
            -129i32 => Ok(Status::RequestUserToCloseNonMigratableApps),
            -130i32 => Ok(Status::OutOfMemory),
            -131i32 => Ok(Status::WasStillDrawing),
            -132i32 => Ok(Status::FileNotFound),
            -133i32 => Ok(Status::TooManyUniqueStateObjects),
            -134i32 => Ok(Status::InvalidCall),
            -135i32 => Ok(Status::D3d101LibraryNotFound),
            -136i32 => Ok(Status::FunctionNotFound),
            -137i32 => Ok(Status::InvalidUserPrivilege),
            -138i32 => Ok(Status::ExpectedNonPrimaryDisplayHandle),
            -139i32 => Ok(Status::ExpectedComputeGpuHandle),
            -140i32 => Ok(Status::StereoNotInitialized),
            -141i32 => Ok(Status::StereoRegistryAccessFailed),
            -142i32 => Ok(Status::StereoRegistryProfileTypeNotSupported),
            -143i32 => Ok(Status::StereoRegistryValueNotSupported),
            -144i32 => Ok(Status::StereoNotEnabled),
            -145i32 => Ok(Status::StereoNotTurnedOn),
            -146i32 => Ok(Status::StereoInvalidDeviceInterface),
            -147i32 => Ok(Status::StereoParameterOutOfRange),
            -148i32 => Ok(Status::StereoFrustumAdjustModeNotSupported),
            -149i32 => Ok(Status::TopoNotPossible),
            -150i32 => Ok(Status::ModeChangeFailed),
            -151i32 => Ok(Status::D3d11LibraryNotFound),
            -152i32 => Ok(Status::InvalidAddress),
            -153i32 => Ok(Status::StringTooSmall),
            -154i32 => Ok(Status::MatchingDeviceNotFound),
            -155i32 => Ok(Status::DriverRunning),
            -156i32 => Ok(Status::DriverNotrunning),
            -157i32 => Ok(Status::ErrorDriverReloadRequired),
            -158i32 => Ok(Status::SetNotAllowed),
            -159i32 => Ok(Status::AdvancedDisplayTopologyRequired),
            -160i32 => Ok(Status::SettingNotFound),
            -161i32 => Ok(Status::SettingSizeTooLarge),
            -162i32 => Ok(Status::TooManySettingsInProfile),
            -163i32 => Ok(Status::ProfileNotFound),
            -164i32 => Ok(Status::ProfileNameInUse),
            -165i32 => Ok(Status::ProfileNameEmpty),
            -166i32 => Ok(Status::ExecutableNotFound),
            -167i32 => Ok(Status::ExecutableAlreadyInUse),
            -168i32 => Ok(Status::DatatypeMismatch),
            -169i32 => Ok(Status::ProfileRemoved),
            -170i32 => Ok(Status::UnregisteredResource),
            -171i32 => Ok(Status::IdOutOfRange),
            -172i32 => Ok(Status::DisplayconfigValidationFailed),
            -173i32 => Ok(Status::DpmstChanged),
            -174i32 => Ok(Status::InsufficientBuffer),
            -175i32 => Ok(Status::AccessDenied),
            -176i32 => Ok(Status::MosaicNotActive),
            -177i32 => Ok(Status::ShareResourceRelocated),
            -178i32 => Ok(Status::RequestUserToDisableDwm),
            -179i32 => Ok(Status::D3dDeviceLost),
            -180i32 => Ok(Status::InvalidConfiguration),
            -181i32 => Ok(Status::StereoHandshakeNotDone),
            -182i32 => Ok(Status::ExecutablePathIsAmbiguous),
            -183i32 => Ok(Status::DefaultStereoProfileIsNotDefined),
            -184i32 => Ok(Status::DefaultStereoProfileDoesNotExist),
            -185i32 => Ok(Status::ClusterAlreadyExists),
            -186i32 => Ok(Status::DpmstDisplayIdExpected),
            -187i32 => Ok(Status::InvalidDisplayId),
            -188i32 => Ok(Status::StreamIsOutOfSync),
            -189i32 => Ok(Status::IncompatibleAudioDriver),
            -190i32 => Ok(Status::ValueAlreadySet),
            -191i32 => Ok(Status::Timeout),
            -192i32 => Ok(Status::GpuWorkstationFeatureIncomplete),
            -193i32 => Ok(Status::StereoInitActivationNotDone),
            -194i32 => Ok(Status::SyncNotActive),
            -195i32 => Ok(Status::SyncMasterNotFound),
            -196i32 => Ok(Status::InvalidSyncTopology),
            -197i32 => Ok(Status::EcidSignAlgoUnsupported),
            -198i32 => Ok(Status::EcidKeyVerificationFailed),
            -199i32 => Ok(Status::FirmwareOutOfDate),
            -200i32 => Ok(Status::FirmwareRevisionNotSupported),
            -201i32 => Ok(Status::LicenseCallerAuthenticationFailed),
            -202i32 => Ok(Status::D3dDeviceNotRegistered),
            -203i32 => Ok(Status::ResourceNotAcquired),
            -204i32 => Ok(Status::TimingNotSupported),
            -205i32 => Ok(Status::HdcpEncryptionFailed),
            -206i32 => Ok(Status::PclkLimitationFailed),
            -207i32 => Ok(Status::NoConnectorFound),
            -208i32 => Ok(Status::HdcpDisabled),
            -209i32 => Ok(Status::ApiInUse),
            -210i32 => Ok(Status::NvidiaDisplayNotFound),
            -211i32 => Ok(Status::PrivSecViolation),
            -212i32 => Ok(Status::IncorrectVendor),
            -213i32 => Ok(Status::DisplayInUse),
            -214i32 => Ok(Status::UnsupportedConfigNonHdcpHmd),
            -215i32 => Ok(Status::MaxDisplayLimitReached),
            -216i32 => Ok(Status::InvalidDirectModeDisplay),
            -217i32 => Ok(Status::GpuInDebugMode),
            _ => Err(ArgumentRangeError),
        }
    }

    /// The raw code of this status value.
    pub fn raw(&self) -> (r: i32)
        ensures
            r == status_code(*self),
    {
        match *self {
            Status::Success => 0i32,
            Status::Error => -1i32,
            Status::LibraryNotFound => -2i32,
            Status::NoImplementation => -3i32,
            Status::ApiNotInitialized => -4i32,
            Status::InvalidArgument => -5i32,
            Status::NvidiaDeviceNotFound => -6i32,
            Status::EndEnumeration => -7i32,
            Status::InvalidHandle => -8i32,
            Status::IncompatibleStructVersion => -9i32,
            Status::HandleInvalidated => -10i32,
            Status::OpenglContextNotCurrent => -11i32,
            Status::InvalidPointer => -14i32,
            Status::NoGlExpert => -12i32,
            Status::InstrumentationDisabled => -13i32,
            Status::NoGlNsight => -15i32,
            Status::ExpectedLogicalGpuHandle => -100i32,
            Status::ExpectedPhysicalGpuHandle => -101i32,
            Status::ExpectedDisplayHandle => -102i32,
            Status::InvalidCombination => -103i32,
            Status::NotSupported => -104i32,
            Status::PortidNotFound => -105i32,
            Status::ExpectedUnattachedDisplayHandle => -106i32,
            Status::InvalidPerfLevel => -107i32,
            Status::DeviceBusy => -108i32,
            Status::NvPersistFileNotFound => -109i32,
            Status::PersistDataNotFound => -110i32,
            Status::ExpectedTvDisplay => -111i32,
            Status::ExpectedTvDisplayOnDconnector => -112i32,
            Status::NoActiveSliTopology => -113i32,
            Status::SliRenderingModeNotallowed => -114i32,
            Status::ExpectedDigitalFlatPanel => -115i32,
            Status::ArgumentExceedMaxSize => -116i32,
            Status::DeviceSwitchingNotAllowed => -117i32,
            Status::TestingClocksNotSupported => -118i32,
            Status::UnknownUnderscanConfig => -119i32,
            Status::TimeoutReconfiguringGpuTopo => -120i32,
            Status::DataNotFound => -121i32,
            Status::ExpectedAnalogDisplay => -122i32,
            Status::NoVidlink => -123i32,
            Status::RequiresReboot => -124i32,
            Status::InvalidHybridMode => -125i32,
            Status::MixedTargetTypes => -126i32,
            Status::Syswow64NotSupported => -127i32,
            Status::ImplicitSetGpuTopologyChangeNotAllowed => -128i32,
            Status::RequestUserToCloseNonMigratableApps => -129i32,
            Status::OutOfMemory => -130i32,
            Status::WasStillDrawing => -131i32,
            Status::FileNotFound => -132i32,
            Status::TooManyUniqueStateObjects => -133i32,
            Status::InvalidCall => -134i32,
            Status::D3d101LibraryNotFound => -135i32,
            Status::FunctionNotFound => -136i32,
            Status::InvalidUserPrivilege => -137i32,
            Status::ExpectedNonPrimaryDisplayHandle => -138i32,
            Status::ExpectedComputeGpuHandle => -139i32,
            Status::StereoNotInitialized => -140i32,
            Status::StereoRegistryAccessFailed => -141i32,
            Status::StereoRegistryProfileTypeNotSupported => -142i32,
            Status::StereoRegistryValueNotSupported => -143i32,
            Status::StereoNotEnabled => -144i32,
            Status::StereoNotTurnedOn => -145i32,
            Status::StereoInvalidDeviceInterface => -146i32,
            Status::StereoParameterOutOfRange => -147i32,
            Status::StereoFrustumAdjustModeNotSupported => -148i32,
            Status::TopoNotPossible => -149i32,
            Status::ModeChangeFailed => -150i32,
            Status::D3d11LibraryNotFound => -151i32,
            Status::InvalidAddress => -152i32,
            Status::StringTooSmall => -153i32,
            Status::MatchingDeviceNotFound => -154i32,
            Status::DriverRunning => -155i32,
            Status::DriverNotrunning => -156i32,
            Status::ErrorDriverReloadRequired => -157i32,
            Status::SetNotAllowed => -158i32,
            Status::AdvancedDisplayTopologyRequired => -159i32,
            Status::SettingNotFound => -160i32,
            Status::SettingSizeTooLarge => -161i32,
            Status::TooManySettingsInProfile => -162i32,
            Status::ProfileNotFound => -163i32,
            Status::ProfileNameInUse => -164i32,
            Status::ProfileNameEmpty => -165i32,
            Status::ExecutableNotFound => -166i32,
            Status::ExecutableAlreadyInUse => -167i32,
            Status::DatatypeMismatch => -168i32,
            Status::ProfileRemoved => -169i32,
            Status::UnregisteredResource => -170i32,
            Status::IdOutOfRange => -171i32,
            Status::DisplayconfigValidationFailed => -172i32,
            Status::DpmstChanged => -173i32,
            Status::InsufficientBuffer => -174i32,
            Status::AccessDenied => -175i32,
            Status::MosaicNotActive => -176i32,
            Status::ShareResourceRelocated => -177i32,
            Status::RequestUserToDisableDwm => -178i32,
            Status::D3dDeviceLost => -179i32,
            Status::InvalidConfiguration => -180i32,
            Status::StereoHandshakeNotDone => -181i32,
            Status::ExecutablePathIsAmbiguous => -182i32,
            Status::DefaultStereoProfileIsNotDefined => -183i32,
            Status::DefaultStereoProfileDoesNotExist => -184i32,
            Status::ClusterAlreadyExists => -185i32,
            Status::DpmstDisplayIdExpected => -186i32,
            Status::InvalidDisplayId => -187i32,
            Status::StreamIsOutOfSync => -188i32,
            Status::IncompatibleAudioDriver => -189i32,
            Status::ValueAlreadySet => -190i32,
            Status::Timeout => -191i32,
            Status::GpuWorkstationFeatureIncomplete => -192i32,
            Status::StereoInitActivationNotDone => -193i32,
            Status::SyncNotActive => -194i32,
            Status::SyncMasterNotFound => -195i32,
            Status::InvalidSyncTopology => -196i32,
            Status::EcidSignAlgoUnsupported => -197i32,
            Status::EcidKeyVerificationFailed => -198i32,
            Status::FirmwareOutOfDate => -199i32,
            Status::FirmwareRevisionNotSupported => -200i32,
            Status::LicenseCallerAuthenticationFailed => -201i32,
            Status::D3dDeviceNotRegistered => -202i32,
            Status::ResourceNotAcquired => -203i32,
            Status::TimingNotSupported => -204i32,
            Status::HdcpEncryptionFailed => -205i32,
            Status::PclkLimitationFailed => -206i32,
            Status::NoConnectorFound => -207i32,
            Status::HdcpDisabled => -208i32,
            Status::ApiInUse => -209i32,
            Status::NvidiaDisplayNotFound => -210i32,
            Status::PrivSecViolation => -211i32,
            Status::IncorrectVendor => -212i32,
            Status::DisplayInUse => -213i32,
            Status::UnsupportedConfigNonHdcpHmd => -214i32,
            Status::MaxDisplayLimitReached => -215i32,
            Status::InvalidDirectModeDisplay => -216i32,
            Status::GpuInDebugMode => -217i32,
        }
    }

    /// Every status value, in declaration order.
    pub fn values() -> (r: Vec<Status>)
        ensures
            r@ == all_statuses(),
    {
        vec![
            Status::Success,
            Status::Error,
            Status::LibraryNotFound,
            Status::NoImplementation,
            Status::ApiNotInitialized,
            Status::InvalidArgument,
            Status::NvidiaDeviceNotFound,
            Status::EndEnumeration,
            Status::InvalidHandle,
            Status::IncompatibleStructVersion,
            Status::HandleInvalidated,
            Status::OpenglContextNotCurrent,
            Status::InvalidPointer,
            Status::NoGlExpert,
            Status::InstrumentationDisabled,
            Status::NoGlNsight,
            Status::ExpectedLogicalGpuHandle,
            Status::ExpectedPhysicalGpuHandle,
            Status::ExpectedDisplayHandle,
            Status::InvalidCombination,
            Status::NotSupported,
            Status::PortidNotFound,
            Status::ExpectedUnattachedDisplayHandle,
            Status::InvalidPerfLevel,
            Status::DeviceBusy,
            Status::NvPersistFileNotFound,
            Status::PersistDataNotFound,
            Status::ExpectedTvDisplay,
            Status::ExpectedTvDisplayOnDconnector,
            Status::NoActiveSliTopology,
            Status::SliRenderingModeNotallowed,
            Status::ExpectedDigitalFlatPanel,
            Status::ArgumentExceedMaxSize,
            Status::DeviceSwitchingNotAllowed,
            Status::TestingClocksNotSupported,
            Status::UnknownUnderscanConfig,
            Status::TimeoutReconfiguringGpuTopo,
            Status::DataNotFound,
            Status::ExpectedAnalogDisplay,
            Status::NoVidlink,
            Status::RequiresReboot,
            Status::InvalidHybridMode,
            Status::MixedTargetTypes,
            Status::Syswow64NotSupported,
            Status::ImplicitSetGpuTopologyChangeNotAllowed,
            Status::RequestUserToCloseNonMigratableApps,
            Status::OutOfMemory,
            Status::WasStillDrawing,
            Status::FileNotFound,
            Status::TooManyUniqueStateObjects,
            Status::InvalidCall,
            Status::D3d101LibraryNotFound,
            Status::FunctionNotFound,
            Status::InvalidUserPrivilege,
            Status::ExpectedNonPrimaryDisplayHandle,
            Status::ExpectedComputeGpuHandle,
            Status::StereoNotInitialized,
            Status::StereoRegistryAccessFailed,
            Status::StereoRegistryProfileTypeNotSupported,
            Status::StereoRegistryValueNotSupported,
            Status::StereoNotEnabled,
            Status::StereoNotTurnedOn,
            Status::StereoInvalidDeviceInterface,
            Status::StereoParameterOutOfRange,
            Status::StereoFrustumAdjustModeNotSupported,
            Status::TopoNotPossible,
            Status::ModeChangeFailed,
            Status::D3d11LibraryNotFound,
            Status::InvalidAddress,
            Status::StringTooSmall,
            Status::MatchingDeviceNotFound,
            Status::DriverRunning,
            Status::DriverNotrunning,
            Status::ErrorDriverReloadRequired,
            Status::SetNotAllowed,
            Status::AdvancedDisplayTopologyRequired,
            Status::SettingNotFound,
            Status::SettingSizeTooLarge,
            Status::TooManySettingsInProfile,
            Status::ProfileNotFound,
            Status::ProfileNameInUse,
            Status::ProfileNameEmpty,
            Status::ExecutableNotFound,
            Status::ExecutableAlreadyInUse,
            Status::DatatypeMismatch,
            Status::ProfileRemoved,
            Status::UnregisteredResource,
            Status::IdOutOfRange,
            Status::DisplayconfigValidationFailed,
            Status::DpmstChanged,
            Status::InsufficientBuffer,
            Status::AccessDenied,
            Status::MosaicNotActive,
            Status::ShareResourceRelocated,
            Status::RequestUserToDisableDwm,
            Status::D3dDeviceLost,
            Status::InvalidConfiguration,
            Status::StereoHandshakeNotDone,
            Status::ExecutablePathIsAmbiguous,
            Status::DefaultStereoProfileIsNotDefined,
            Status::DefaultStereoProfileDoesNotExist,
            Status::ClusterAlreadyExists,
            Status::DpmstDisplayIdExpected,
            Status::InvalidDisplayId,
            Status::StreamIsOutOfSync,
            Status::IncompatibleAudioDriver,
            Status::ValueAlreadySet,
            Status::Timeout,
            Status::GpuWorkstationFeatureIncomplete,
            Status::StereoInitActivationNotDone,
            Status::SyncNotActive,
            Status::SyncMasterNotFound,
            Status::InvalidSyncTopology,
            Status::EcidSignAlgoUnsupported,
            Status::EcidKeyVerificationFailed,
            Status::FirmwareOutOfDate,
            Status::FirmwareRevisionNotSupported,
            Status::LicenseCallerAuthenticationFailed,
            Status::D3dDeviceNotRegistered,
            Status::ResourceNotAcquired,
            Status::TimingNotSupported,
            Status::HdcpEncryptionFailed,
            Status::PclkLimitationFailed,
            Status::NoConnectorFound,
            Status::HdcpDisabled,
            Status::ApiInUse,
            Status::NvidiaDisplayNotFound,
            Status::PrivSecViolation,
            Status::IncorrectVendor,
            Status::DisplayInUse,
            Status::UnsupportedConfigNonHdcpHmd,
            Status::MaxDisplayLimitReached,
            Status::InvalidDirectModeDisplay,
            Status::GpuInDebugMode,
        ]
    }
}

/// Reading back the raw code of any status value gives that status value.
pub proof fn lemma_status_code_roundtrip(s: Status)
    ensures
        status_of_code(status_code(s)) == Some(s),
        status_from_raw_spec(status_code(s)) == Ok::<Status, ArgumentRangeError>(s),
{
}

/// A raw code that names a status value is exactly that value's code, so no two
/// status values share a code.
pub proof fn lemma_status_of_code_inverse(raw: i32)
    ensures
        status_of_code(raw) matches Some(s) ==> status_code(s) == raw,
{
}

/// Each status value has the code that the NvAPI header gives its constant
/// (`NVAPI_OK` 0, `NVAPI_ERROR` -1, ..., `NVAPI_INVALID_HANDLE` -8, ...,
/// `NVAPI_HANDLE_INVALIDATED` -10, ..., `NVAPI_GPU_IN_DEBUG_MODE` -217), in
/// both directions: `raw` gives the header's code, and `from_raw` of that code
/// gives the value back.
pub proof fn lemma_status_header_codes()
    ensures
        status_code(Status::Success) == 0i32,
        status_code(Status::Error) == -1i32,
        status_code(Status::LibraryNotFound) == -2i32,
        status_code(Status::NoImplementation) == -3i32,
        status_code(Status::ApiNotInitialized) == -4i32,
        status_code(Status::InvalidArgument) == -5i32,
        status_code(Status::NvidiaDeviceNotFound) == -6i32,
        status_code(Status::EndEnumeration) == -7i32,
        status_code(Status::InvalidHandle) == -8i32,
        status_code(Status::IncompatibleStructVersion) == -9i32,
        status_code(Status::HandleInvalidated) == -10i32,
        status_code(Status::OpenglContextNotCurrent) == -11i32,
        status_code(Status::InvalidPointer) == -14i32,
        status_code(Status::NoGlExpert) == -12i32,
        status_code(Status::InstrumentationDisabled) == -13i32,
        status_code(Status::NoGlNsight) == -15i32,
        status_code(Status::ExpectedLogicalGpuHandle) == -100i32,
        status_code(Status::ExpectedPhysicalGpuHandle) == -101i32,
        status_code(Status::ExpectedDisplayHandle) == -102i32,
        status_code(Status::InvalidCombination) == -103i32,
        status_code(Status::NotSupported) == -104i32,
        status_code(Status::PortidNotFound) == -105i32,
        status_code(Status::ExpectedUnattachedDisplayHandle) == -106i32,
        status_code(Status::InvalidPerfLevel) == -107i32,
        status_code(Status::DeviceBusy) == -108i32,
        status_code(Status::NvPersistFileNotFound) == -109i32,
        status_code(Status::PersistDataNotFound) == -110i32,
        status_code(Status::ExpectedTvDisplay) == -111i32,
        status_code(Status::ExpectedTvDisplayOnDconnector) == -112i32,
        status_code(Status::NoActiveSliTopology) == -113i32,
        status_code(Status::SliRenderingModeNotallowed) == -114i32,
        status_code(Status::ExpectedDigitalFlatPanel) == -115i32,
        status_code(Status::ArgumentExceedMaxSize) == -116i32,
        status_code(Status::DeviceSwitchingNotAllowed) == -117i32,
        status_code(Status::TestingClocksNotSupported) == -118i32,
        status_code(Status::UnknownUnderscanConfig) == -119i32,
        status_code(Status::TimeoutReconfiguringGpuTopo) == -120i32,
        status_code(Status::DataNotFound) == -121i32,
        status_code(Status::ExpectedAnalogDisplay) == -122i32,
        status_code(Status::NoVidlink) == -123i32,
        status_code(Status::RequiresReboot) == -124i32,
        status_code(Status::InvalidHybridMode) == -125i32,
        status_code(Status::MixedTargetTypes) == -126i32,
        status_code(Status::Syswow64NotSupported) == -127i32,
        status_code(Status::ImplicitSetGpuTopologyChangeNotAllowed) == -128i32,
        status_code(Status::RequestUserToCloseNonMigratableApps) == -129i32,
        status_code(Status::OutOfMemory) == -130i32,
        status_code(Status::WasStillDrawing) == -131i32,
        status_code(Status::FileNotFound) == -132i32,
        status_code(Status::TooManyUniqueStateObjects) == -133i32,
        status_code(Status::InvalidCall) == -134i32,
        status_code(Status::D3d101LibraryNotFound) == -135i32,
        status_code(Status::FunctionNotFound) == -136i32,
        status_code(Status::InvalidUserPrivilege) == -137i32,
        status_code(Status::ExpectedNonPrimaryDisplayHandle) == -138i32,
        status_code(Status::ExpectedComputeGpuHandle) == -139i32,
        status_code(Status::StereoNotInitialized) == -140i32,
        status_code(Status::StereoRegistryAccessFailed) == -141i32,
        status_code(Status::StereoRegistryProfileTypeNotSupported) == -142i32,
        status_code(Status::StereoRegistryValueNotSupported) == -143i32,
        status_code(Status::StereoNotEnabled) == -144i32,
        status_code(Status::StereoNotTurnedOn) == -145i32,
        status_code(Status::StereoInvalidDeviceInterface) == -146i32,
        status_code(Status::StereoParameterOutOfRange) == -147i32,
        status_code(Status::StereoFrustumAdjustModeNotSupported) == -148i32,
        status_code(Status::TopoNotPossible) == -149i32,
        status_code(Status::ModeChangeFailed) == -150i32,
        status_code(Status::D3d11LibraryNotFound) == -151i32,
        status_code(Status::InvalidAddress) == -152i32,
        status_code(Status::StringTooSmall) == -153i32,
        status_code(Status::MatchingDeviceNotFound) == -154i32,
        status_code(Status::DriverRunning) == -155i32,
        status_code(Status::DriverNotrunning) == -156i32,
        status_code(Status::ErrorDriverReloadRequired) == -157i32,
        status_code(Status::SetNotAllowed) == -158i32,
        status_code(Status::AdvancedDisplayTopologyRequired) == -159i32,
        status_code(Status::SettingNotFound) == -160i32,
        status_code(Status::SettingSizeTooLarge) == -161i32,
        status_code(Status::TooManySettingsInProfile) == -162i32,
        status_code(Status::ProfileNotFound) == -163i32,
        status_code(Status::ProfileNameInUse) == -164i32,
        status_code(Status::ProfileNameEmpty) == -165i32,
        status_code(Status::ExecutableNotFound) == -166i32,
        status_code(Status::ExecutableAlreadyInUse) == -167i32,
        status_code(Status::DatatypeMismatch) == -168i32,
        status_code(Status::ProfileRemoved) == -169i32,
        status_code(Status::UnregisteredResource) == -170i32,
        status_code(Status::IdOutOfRange) == -171i32,
        status_code(Status::DisplayconfigValidationFailed) == -172i32,
        status_code(Status::DpmstChanged) == -173i32,
        status_code(Status::InsufficientBuffer) == -174i32,
        status_code(Status::AccessDenied) == -175i32,
        status_code(Status::MosaicNotActive) == -176i32,
        status_code(Status::ShareResourceRelocated) == -177i32,
        status_code(Status::RequestUserToDisableDwm) == -178i32,
        status_code(Status::D3dDeviceLost) == -179i32,
        status_code(Status::InvalidConfiguration) == -180i32,
        status_code(Status::StereoHandshakeNotDone) == -181i32,
        status_code(Status::ExecutablePathIsAmbiguous) == -182i32,
        status_code(Status::DefaultStereoProfileIsNotDefined) == -183i32,
        status_code(Status::DefaultStereoProfileDoesNotExist) == -184i32,
        status_code(Status::ClusterAlreadyExists) == -185i32,
        status_code(Status::DpmstDisplayIdExpected) == -186i32,
        status_code(Status::InvalidDisplayId) == -187i32,
        status_code(Status::StreamIsOutOfSync) == -188i32,
        status_code(Status::IncompatibleAudioDriver) == -189i32,
        status_code(Status::ValueAlreadySet) == -190i32,
        status_code(Status::Timeout) == -191i32,
        status_code(Status::GpuWorkstationFeatureIncomplete) == -192i32,
        status_code(Status::StereoInitActivationNotDone) == -193i32,
        status_code(Status::SyncNotActive) == -194i32,
        status_code(Status::SyncMasterNotFound) == -195i32,
        status_code(Status::InvalidSyncTopology) == -196i32,
        status_code(Status::EcidSignAlgoUnsupported) == -197i32,
        status_code(Status::EcidKeyVerificationFailed) == -198i32,
        status_code(Status::FirmwareOutOfDate) == -199i32,
        status_code(Status::FirmwareRevisionNotSupported) == -200i32,
        status_code(Status::LicenseCallerAuthenticationFailed) == -201i32,
        status_code(Status::D3dDeviceNotRegistered) == -202i32,
        status_code(Status::ResourceNotAcquired) == -203i32,
        status_code(Status::TimingNotSupported) == -204i32,
        status_code(Status::HdcpEncryptionFailed) == -205i32,
        status_code(Status::PclkLimitationFailed) == -206i32,
        status_code(Status::NoConnectorFound) == -207i32,
        status_code(Status::HdcpDisabled) == -208i32,
        status_code(Status::ApiInUse) == -209i32,
        status_code(Status::NvidiaDisplayNotFound) == -210i32,
        status_code(Status::PrivSecViolation) == -211i32,
        status_code(Status::IncorrectVendor) == -212i32,
        status_code(Status::DisplayInUse) == -213i32,
        status_code(Status::UnsupportedConfigNonHdcpHmd) == -214i32,
        status_code(Status::MaxDisplayLimitReached) == -215i32,
        status_code(Status::InvalidDirectModeDisplay) == -216i32,
        status_code(Status::GpuInDebugMode) == -217i32,
        status_from_raw_spec(0i32) == Ok::<Status, ArgumentRangeError>(Status::Success),
        status_from_raw_spec(-1i32) == Ok::<Status, ArgumentRangeError>(Status::Error),
        status_from_raw_spec(-2i32) == Ok::<Status, ArgumentRangeError>(Status::LibraryNotFound),
        status_from_raw_spec(-3i32) == Ok::<Status, ArgumentRangeError>(Status::NoImplementation),
        status_from_raw_spec(-4i32) == Ok::<Status, ArgumentRangeError>(Status::ApiNotInitialized),
        status_from_raw_spec(-5i32) == Ok::<Status, ArgumentRangeError>(Status::InvalidArgument),
        status_from_raw_spec(-6i32) == Ok::<Status, ArgumentRangeError>(Status::NvidiaDeviceNotFound),
        status_from_raw_spec(-7i32) == Ok::<Status, ArgumentRangeError>(Status::EndEnumeration),
        status_from_raw_spec(-8i32) == Ok::<Status, ArgumentRangeError>(Status::InvalidHandle),
        status_from_raw_spec(-9i32) == Ok::<Status, ArgumentRangeError>(Status::IncompatibleStructVersion),
        status_from_raw_spec(-10i32) == Ok::<Status, ArgumentRangeError>(Status::HandleInvalidated),
        status_from_raw_spec(-11i32) == Ok::<Status, ArgumentRangeError>(Status::OpenglContextNotCurrent),
        status_from_raw_spec(-14i32) == Ok::<Status, ArgumentRangeError>(Status::InvalidPointer),
        status_from_raw_spec(-12i32) == Ok::<Status, ArgumentRangeError>(Status::NoGlExpert),
        status_from_raw_spec(-13i32) == Ok::<Status, ArgumentRangeError>(Status::InstrumentationDisabled),
        status_from_raw_spec(-15i32) == Ok::<Status, ArgumentRangeError>(Status::NoGlNsight),
        status_from_raw_spec(-100i32) == Ok::<Status, ArgumentRangeError>(Status::ExpectedLogicalGpuHandle),
        status_from_raw_spec(-101i32) == Ok::<Status, ArgumentRangeError>(Status::ExpectedPhysicalGpuHandle),
        status_from_raw_spec(-102i32) == Ok::<Status, ArgumentRangeError>(Status::ExpectedDisplayHandle),
        status_from_raw_spec(-103i32) == Ok::<Status, ArgumentRangeError>(Status::InvalidCombination),
        status_from_raw_spec(-104i32) == Ok::<Status, ArgumentRangeError>(Status::NotSupported),
        status_from_raw_spec(-105i32) == Ok::<Status, ArgumentRangeError>(Status::PortidNotFound),
        status_from_raw_spec(-106i32) == Ok::<Status, ArgumentRangeError>(Status::ExpectedUnattachedDisplayHandle),
        status_from_raw_spec(-107i32) == Ok::<Status, ArgumentRangeError>(Status::InvalidPerfLevel),
        status_from_raw_spec(-108i32) == Ok::<Status, ArgumentRangeError>(Status::DeviceBusy),
        status_from_raw_spec(-109i32) == Ok::<Status, ArgumentRangeError>(Status::NvPersistFileNotFound),
        status_from_raw_spec(-110i32) == Ok::<Status, ArgumentRangeError>(Status::PersistDataNotFound),
        status_from_raw_spec(-111i32) == Ok::<Status, ArgumentRangeError>(Status::ExpectedTvDisplay),
        status_from_raw_spec(-112i32) == Ok::<Status, ArgumentRangeError>(Status::ExpectedTvDisplayOnDconnector),
        status_from_raw_spec(-113i32) == Ok::<Status, ArgumentRangeError>(Status::NoActiveSliTopology),
        status_from_raw_spec(-114i32) == Ok::<Status, ArgumentRangeError>(Status::SliRenderingModeNotallowed),
        status_from_raw_spec(-115i32) == Ok::<Status, ArgumentRangeError>(Status::ExpectedDigitalFlatPanel),
        status_from_raw_spec(-116i32) == Ok::<Status, ArgumentRangeError>(Status::ArgumentExceedMaxSize),
        status_from_raw_spec(-117i32) == Ok::<Status, ArgumentRangeError>(Status::DeviceSwitchingNotAllowed),
        status_from_raw_spec(-118i32) == Ok::<Status, ArgumentRangeError>(Status::TestingClocksNotSupported),
        status_from_raw_spec(-119i32) == Ok::<Status, ArgumentRangeError>(Status::UnknownUnderscanConfig),
        status_from_raw_spec(-120i32) == Ok::<Status, ArgumentRangeError>(Status::TimeoutReconfiguringGpuTopo),
        status_from_raw_spec(-121i32) == Ok::<Status, ArgumentRangeError>(Status::DataNotFound),
        status_from_raw_spec(-122i32) == Ok::<Status, ArgumentRangeError>(Status::ExpectedAnalogDisplay),
        status_from_raw_spec(-123i32) == Ok::<Status, ArgumentRangeError>(Status::NoVidlink),
        status_from_raw_spec(-124i32) == Ok::<Status, ArgumentRangeError>(Status::RequiresReboot),
        status_from_raw_spec(-125i32) == Ok::<Status, ArgumentRangeError>(Status::InvalidHybridMode),
        status_from_raw_spec(-126i32) == Ok::<Status, ArgumentRangeError>(Status::MixedTargetTypes),
        status_from_raw_spec(-127i32) == Ok::<Status, ArgumentRangeError>(Status::Syswow64NotSupported),
        status_from_raw_spec(-128i32) == Ok::<Status, ArgumentRangeError>(Status::ImplicitSetGpuTopologyChangeNotAllowed),
        status_from_raw_spec(-129i32) == Ok::<Status, ArgumentRangeError>(Status::RequestUserToCloseNonMigratableApps),
        status_from_raw_spec(-130i32) == Ok::<Status, ArgumentRangeError>(Status::OutOfMemory),
        status_from_raw_spec(-131i32) == Ok::<Status, ArgumentRangeError>(Status::WasStillDrawing),
        status_from_raw_spec(-132i32) == Ok::<Status, ArgumentRangeError>(Status::FileNotFound),
        status_from_raw_spec(-133i32) == Ok::<Status, ArgumentRangeError>(Status::TooManyUniqueStateObjects),
        status_from_raw_spec(-134i32) == Ok::<Status, ArgumentRangeError>(Status::InvalidCall),
        status_from_raw_spec(-135i32) == Ok::<Status, ArgumentRangeError>(Status::D3d101LibraryNotFound),
        status_from_raw_spec(-136i32) == Ok::<Status, ArgumentRangeError>(Status::FunctionNotFound),
        status_from_raw_spec(-137i32) == Ok::<Status, ArgumentRangeError>(Status::InvalidUserPrivilege),
        status_from_raw_spec(-138i32) == Ok::<Status, ArgumentRangeError>(Status::ExpectedNonPrimaryDisplayHandle),
        status_from_raw_spec(-139i32) == Ok::<Status, ArgumentRangeError>(Status::ExpectedComputeGpuHandle),
        status_from_raw_spec(-140i32) == Ok::<Status, ArgumentRangeError>(Status::StereoNotInitialized),
        status_from_raw_spec(-141i32) == Ok::<Status, ArgumentRangeError>(Status::StereoRegistryAccessFailed),
        status_from_raw_spec(-142i32) == Ok::<Status, ArgumentRangeError>(Status::StereoRegistryProfileTypeNotSupported),
        status_from_raw_spec(-143i32) == Ok::<Status, ArgumentRangeError>(Status::StereoRegistryValueNotSupported),
        status_from_raw_spec(-144i32) == Ok::<Status, ArgumentRangeError>(Status::StereoNotEnabled),
        status_from_raw_spec(-145i32) == Ok::<Status, ArgumentRangeError>(Status::StereoNotTurnedOn),
        status_from_raw_spec(-146i32) == Ok::<Status, ArgumentRangeError>(Status::StereoInvalidDeviceInterface),
        status_from_raw_spec(-147i32) == Ok::<Status, ArgumentRangeError>(Status::StereoParameterOutOfRange),
        status_from_raw_spec(-148i32) == Ok::<Status, ArgumentRangeError>(Status::StereoFrustumAdjustModeNotSupported),
        status_from_raw_spec(-149i32) == Ok::<Status, ArgumentRangeError>(Status::TopoNotPossible),
        status_from_raw_spec(-150i32) == Ok::<Status, ArgumentRangeError>(Status::ModeChangeFailed),
        status_from_raw_spec(-151i32) == Ok::<Status, ArgumentRangeError>(Status::D3d11LibraryNotFound),
        status_from_raw_spec(-152i32) == Ok::<Status, ArgumentRangeError>(Status::InvalidAddress),
        status_from_raw_spec(-153i32) == Ok::<Status, ArgumentRangeError>(Status::StringTooSmall),
        status_from_raw_spec(-154i32) == Ok::<Status, ArgumentRangeError>(Status::MatchingDeviceNotFound),
        status_from_raw_spec(-155i32) == Ok::<Status, ArgumentRangeError>(Status::DriverRunning),
        status_from_raw_spec(-156i32) == Ok::<Status, ArgumentRangeError>(Status::DriverNotrunning),
        status_from_raw_spec(-157i32) == Ok::<Status, ArgumentRangeError>(Status::ErrorDriverReloadRequired),
        status_from_raw_spec(-158i32) == Ok::<Status, ArgumentRangeError>(Status::SetNotAllowed),
        status_from_raw_spec(-159i32) == Ok::<Status, ArgumentRangeError>(Status::AdvancedDisplayTopologyRequired),
        status_from_raw_spec(-160i32) == Ok::<Status, ArgumentRangeError>(Status::SettingNotFound),
        status_from_raw_spec(-161i32) == Ok::<Status, ArgumentRangeError>(Status::SettingSizeTooLarge),
        status_from_raw_spec(-162i32) == Ok::<Status, ArgumentRangeError>(Status::TooManySettingsInProfile),
        status_from_raw_spec(-163i32) == Ok::<Status, ArgumentRangeError>(Status::ProfileNotFound),
        status_from_raw_spec(-164i32) == Ok::<Status, ArgumentRangeError>(Status::ProfileNameInUse),
        status_from_raw_spec(-165i32) == Ok::<Status, ArgumentRangeError>(Status::ProfileNameEmpty),
        status_from_raw_spec(-166i32) == Ok::<Status, ArgumentRangeError>(Status::ExecutableNotFound),
        status_from_raw_spec(-167i32) == Ok::<Status, ArgumentRangeError>(Status::ExecutableAlreadyInUse),
        status_from_raw_spec(-168i32) == Ok::<Status, ArgumentRangeError>(Status::DatatypeMismatch),
        status_from_raw_spec(-169i32) == Ok::<Status, ArgumentRangeError>(Status::ProfileRemoved),
        status_from_raw_spec(-170i32) == Ok::<Status, ArgumentRangeError>(Status::UnregisteredResource),
        status_from_raw_spec(-171i32) == Ok::<Status, ArgumentRangeError>(Status::IdOutOfRange),
        status_from_raw_spec(-172i32) == Ok::<Status, ArgumentRangeError>(Status::DisplayconfigValidationFailed),
        status_from_raw_spec(-173i32) == Ok::<Status, ArgumentRangeError>(Status::DpmstChanged),
        status_from_raw_spec(-174i32) == Ok::<Status, ArgumentRangeError>(Status::InsufficientBuffer),
        status_from_raw_spec(-175i32) == Ok::<Status, ArgumentRangeError>(Status::AccessDenied),
        status_from_raw_spec(-176i32) == Ok::<Status, ArgumentRangeError>(Status::MosaicNotActive),
        status_from_raw_spec(-177i32) == Ok::<Status, ArgumentRangeError>(Status::ShareResourceRelocated),
        status_from_raw_spec(-178i32) == Ok::<Status, ArgumentRangeError>(Status::RequestUserToDisableDwm),
        status_from_raw_spec(-179i32) == Ok::<Status, ArgumentRangeError>(Status::D3dDeviceLost),
        status_from_raw_spec(-180i32) == Ok::<Status, ArgumentRangeError>(Status::InvalidConfiguration),
        status_from_raw_spec(-181i32) == Ok::<Status, ArgumentRangeError>(Status::StereoHandshakeNotDone),
        status_from_raw_spec(-182i32) == Ok::<Status, ArgumentRangeError>(Status::ExecutablePathIsAmbiguous),
        status_from_raw_spec(-183i32) == Ok::<Status, ArgumentRangeError>(Status::DefaultStereoProfileIsNotDefined),
        status_from_raw_spec(-184i32) == Ok::<Status, ArgumentRangeError>(Status::DefaultStereoProfileDoesNotExist),
        status_from_raw_spec(-185i32) == Ok::<Status, ArgumentRangeError>(Status::ClusterAlreadyExists),
        status_from_raw_spec(-186i32) == Ok::<Status, ArgumentRangeError>(Status::DpmstDisplayIdExpected),
        status_from_raw_spec(-187i32) == Ok::<Status, ArgumentRangeError>(Status::InvalidDisplayId),
        status_from_raw_spec(-188i32) == Ok::<Status, ArgumentRangeError>(Status::StreamIsOutOfSync),
        status_from_raw_spec(-189i32) == Ok::<Status, ArgumentRangeError>(Status::IncompatibleAudioDriver),
        status_from_raw_spec(-190i32) == Ok::<Status, ArgumentRangeError>(Status::ValueAlreadySet),
        status_from_raw_spec(-191i32) == Ok::<Status, ArgumentRangeError>(Status::Timeout),
        status_from_raw_spec(-192i32) == Ok::<Status, ArgumentRangeError>(Status::GpuWorkstationFeatureIncomplete),
        status_from_raw_spec(-193i32) == Ok::<Status, ArgumentRangeError>(Status::StereoInitActivationNotDone),
        status_from_raw_spec(-194i32) == Ok::<Status, ArgumentRangeError>(Status::SyncNotActive),
        status_from_raw_spec(-195i32) == Ok::<Status, ArgumentRangeError>(Status::SyncMasterNotFound),
        status_from_raw_spec(-196i32) == Ok::<Status, ArgumentRangeError>(Status::InvalidSyncTopology),
        status_from_raw_spec(-197i32) == Ok::<Status, ArgumentRangeError>(Status::EcidSignAlgoUnsupported),
        status_from_raw_spec(-198i32) == Ok::<Status, ArgumentRangeError>(Status::EcidKeyVerificationFailed),
        status_from_raw_spec(-199i32) == Ok::<Status, ArgumentRangeError>(Status::FirmwareOutOfDate),
        status_from_raw_spec(-200i32) == Ok::<Status, ArgumentRangeError>(Status::FirmwareRevisionNotSupported),
        status_from_raw_spec(-201i32) == Ok::<Status, ArgumentRangeError>(Status::LicenseCallerAuthenticationFailed),
        status_from_raw_spec(-202i32) == Ok::<Status, ArgumentRangeError>(Status::D3dDeviceNotRegistered),
        status_from_raw_spec(-203i32) == Ok::<Status, ArgumentRangeError>(Status::ResourceNotAcquired),
        status_from_raw_spec(-204i32) == Ok::<Status, ArgumentRangeError>(Status::TimingNotSupported),
        status_from_raw_spec(-205i32) == Ok::<Status, ArgumentRangeError>(Status::HdcpEncryptionFailed),
        status_from_raw_spec(-206i32) == Ok::<Status, ArgumentRangeError>(Status::PclkLimitationFailed),
        status_from_raw_spec(-207i32) == Ok::<Status, ArgumentRangeError>(Status::NoConnectorFound),
        status_from_raw_spec(-208i32) == Ok::<Status, ArgumentRangeError>(Status::HdcpDisabled),
        status_from_raw_spec(-209i32) == Ok::<Status, ArgumentRangeError>(Status::ApiInUse),
        status_from_raw_spec(-210i32) == Ok::<Status, ArgumentRangeError>(Status::NvidiaDisplayNotFound),
        status_from_raw_spec(-211i32) == Ok::<Status, ArgumentRangeError>(Status::PrivSecViolation),
        status_from_raw_spec(-212i32) == Ok::<Status, ArgumentRangeError>(Status::IncorrectVendor),
        status_from_raw_spec(-213i32) == Ok::<Status, ArgumentRangeError>(Status::DisplayInUse),
        status_from_raw_spec(-214i32) == Ok::<Status, ArgumentRangeError>(Status::UnsupportedConfigNonHdcpHmd),
        status_from_raw_spec(-215i32) == Ok::<Status, ArgumentRangeError>(Status::MaxDisplayLimitReached),
        status_from_raw_spec(-216i32) == Ok::<Status, ArgumentRangeError>(Status::InvalidDirectModeDisplay),
        status_from_raw_spec(-217i32) == Ok::<Status, ArgumentRangeError>(Status::GpuInDebugMode),
{
}

/// The status value that a raw code stands for, falling back to the generic
/// `Status::Error` for codes that name no known value.
pub open spec fn status_or_error(raw: i32) -> Status {
    match status_of_code(raw) {
        Some(s) => s,
        None => Status::Error,
    }
}

impl ArgumentRangeError {
    /// The status reported for out-of-range data.
    pub fn to_status(&self) -> (s: Status)
        ensures
            s == Status::ArgumentExceedMaxSize,
    {
        Status::ArgumentExceedMaxSize
    }
}

/// A raw NvAPI status code, as returned by the driver.
#[allow(non_camel_case_types)]
#[derive(Copy, Clone, Debug, PartialEq, Eq, Structural, Hash)]
pub struct NvAPI_Status {
    pub value: i32,
}

impl NvAPI_Status {
    /// Wraps a raw status code.
    pub fn with_repr(value: i32) -> (r: Self)
        ensures
            r.value == value,
    {
        NvAPI_Status { value }
    }

    /// The raw code of a known status value.
    pub fn new(status: Status) -> (r: Self)
        ensures
            r.value == status_code(status),
    {
        NvAPI_Status { value: status.raw() }
    }

    /// The raw code.
    pub fn repr(self) -> (r: i32)
        ensures
            r == self.value,
    {
        self.value
    }

    /// The known status value of this code, or an error if the code is unknown.
    pub fn try_get(self) -> (r: Result<Status, ArgumentRangeError>)
        ensures
            r == status_from_raw_spec(self.value),
    {
        Status::from_raw(self.value)
    }

    /// The known status value of this code, or `Status::Error` if it is unknown.
    pub fn to_status(self) -> (r: Status)
        ensures
            r == status_or_error(self.value),
    {
        match Status::from_raw(self.value) {
            Ok(s) => s,
            Err(..) => Status::Error,
        }
    }

    /// `Ok` for `NVAPI_OK`, otherwise this code as the error.
    pub fn to_result(self) -> (r: Result<(), NvAPI_Status>)
        ensures
            self.value == 0 ==> r == Ok::<(), NvAPI_Status>(()),
            self.value != 0 ==> r == Err::<(), NvAPI_Status>(self),
    {
        if self.value == 0 {
            Ok(())
        } else {
            Err(self)
        }
    }
}

} // verus!
