use vstd::prelude::*;

verus! {

/// The NvAPI interfaces, by name.
#[allow(non_camel_case_types)]
#[derive(Copy, Clone, Debug, PartialEq, Eq, Structural, Hash, PartialOrd, Ord)]
#[non_exhaustive]
pub enum Api {
    NvAPI_Initialize,
    NvAPI_Unload,
    NvAPI_GetErrorMessage,
    NvAPI_GetInterfaceVersionString,
    NvAPI_GetDisplayDriverVersion,
    NvAPI_SYS_GetDriverAndBranchVersion,
    NvAPI_EnumNvidiaDisplayHandle,
    NvAPI_EnumNvidiaUnAttachedDisplayHandle,
    NvAPI_EnumPhysicalGPUs,
    NvAPI_EnumTCCPhysicalGPUs,
    NvAPI_EnumLogicalGPUs,
    NvAPI_GetPhysicalGPUsFromDisplay,
    NvAPI_GetPhysicalGPUFromUnAttachedDisplay,
    NvAPI_CreateDisplayFromUnAttachedDisplay,
    NvAPI_GetLogicalGPUFromDisplay,
    NvAPI_GetLogicalGPUFromPhysicalGPU,
    NvAPI_GetPhysicalGPUsFromLogicalGPU,
    NvAPI_GetAssociatedNvidiaDisplayHandle,
    NvAPI_DISP_GetAssociatedUnAttachedNvidiaDisplayHandle,
    NvAPI_GetAssociatedNvidiaDisplayName,
    NvAPI_GetUnAttachedAssociatedDisplayName,
    NvAPI_EnableHWCursor,
    NvAPI_DisableHWCursor,
    NvAPI_GetVBlankCounter,
    NvAPI_SetRefreshRateOverride,
    NvAPI_GetAssociatedDisplayOutputId,
    NvAPI_GetDisplayPortInfo,
    NvAPI_SetDisplayPort,
    NvAPI_GetHDMISupportInfo,
    NvAPI_DISP_EnumHDMIStereoModes,
    NvAPI_GetInfoFrame,
    NvAPI_SetInfoFrame,
    NvAPI_SetInfoFrameState,
    NvAPI_GetInfoFrameState,
    NvAPI_Disp_InfoFrameControl,
    NvAPI_Disp_ColorControl,
    NvAPI_Disp_GetHdrCapabilities,
    NvAPI_Disp_HdrColorControl,
    NvAPI_DISP_GetVirtualModeData,
    NvAPI_DISP_OverrideDisplayModeList,
    NvAPI_GetDisplayDriverMemoryInfo,
    NvAPI_GetDriverMemoryInfo,
    NvAPI_GetDVCInfo,
    NvAPI_SetDVCLevel,
    NvAPI_GetDVCInfoEx,
    NvAPI_SetDVCLevelEx,
    NvAPI_GetHUEInfo,
    NvAPI_SetHUEAngle,
    NvAPI_GetImageSharpeningInfo,
    NvAPI_SetImageSharpeningLevel,
    NvAPI_D3D_GetCurrentSLIState,
    NvAPI_D3D9_RegisterResource,
    NvAPI_D3D9_UnregisterResource,
    NvAPI_D3D9_AliasSurfaceAsTexture,
    NvAPI_D3D9_StretchRectEx,
    NvAPI_D3D9_ClearRT,
    NvAPI_D3D_CreateQuery,
    NvAPI_D3D_DestroyQuery,
    NvAPI_D3D_Query_Begin,
    NvAPI_D3D_Query_End,
    NvAPI_D3D_Query_GetData,
    NvAPI_D3D_Query_GetDataSize,
    NvAPI_D3D_Query_GetType,
    NvAPI_D3D_RegisterApp,
    NvAPI_D3D9_CreatePathContextNV,
    NvAPI_D3D9_DestroyPathContextNV,
    NvAPI_D3D9_CreatePathNV,
    NvAPI_D3D9_DeletePathNV,
    NvAPI_D3D9_PathVerticesNV,
    NvAPI_D3D9_PathParameterfNV,
    NvAPI_D3D9_PathParameteriNV,
    NvAPI_D3D9_PathMatrixNV,
    NvAPI_D3D9_PathDepthNV,
    NvAPI_D3D9_PathClearDepthNV,
    NvAPI_D3D9_PathEnableDepthTestNV,
    NvAPI_D3D9_PathEnableColorWriteNV,
    NvAPI_D3D9_DrawPathNV,
    NvAPI_D3D9_GetSurfaceHandle,
    NvAPI_D3D9_GetOverlaySurfaceHandles,
    NvAPI_D3D9_GetTextureHandle,
    NvAPI_D3D9_GpuSyncGetHandleSize,
    NvAPI_D3D9_GpuSyncInit,
    NvAPI_D3D9_GpuSyncEnd,
    NvAPI_D3D9_GpuSyncMapTexBuffer,
    NvAPI_D3D9_GpuSyncMapSurfaceBuffer,
    NvAPI_D3D9_GpuSyncMapVertexBuffer,
    NvAPI_D3D9_GpuSyncMapIndexBuffer,
    NvAPI_D3D9_SetPitchSurfaceCreation,
    NvAPI_D3D9_GpuSyncAcquire,
    NvAPI_D3D9_GpuSyncRelease,
    NvAPI_D3D9_GetCurrentRenderTargetHandle,
    NvAPI_D3D9_GetCurrentZBufferHandle,
    NvAPI_D3D9_GetIndexBufferHandle,
    NvAPI_D3D9_GetVertexBufferHandle,
    NvAPI_D3D9_CreateTexture,
    NvAPI_D3D9_AliasPrimaryAsTexture,
    NvAPI_D3D9_PresentSurfaceToDesktop,
    NvAPI_D3D9_CreateVideoBegin,
    NvAPI_D3D9_CreateVideoEnd,
    NvAPI_D3D9_CreateVideo,
    NvAPI_D3D9_FreeVideo,
    NvAPI_D3D9_PresentVideo,
    NvAPI_D3D9_VideoSetStereoInfo,
    NvAPI_D3D9_SetGamutData,
    NvAPI_D3D9_SetSurfaceCreationLayout,
    NvAPI_D3D9_GetVideoCapabilities,
    NvAPI_D3D9_QueryVideoInfo,
    NvAPI_D3D9_AliasPrimaryFromDevice,
    NvAPI_D3D9_SetResourceHint,
    NvAPI_D3D9_Lock,
    NvAPI_D3D9_Unlock,
    NvAPI_D3D9_GetVideoState,
    NvAPI_D3D9_SetVideoState,
    NvAPI_D3D9_EnumVideoFeatures,
    NvAPI_D3D9_GetSLIInfo,
    NvAPI_D3D9_SetSLIMode,
    NvAPI_D3D9_QueryAAOverrideMode,
    NvAPI_D3D9_VideoSurfaceEncryptionControl,
    NvAPI_D3D9_DMA,
    NvAPI_D3D9_EnableStereo,
    NvAPI_D3D9_StretchRect,
    NvAPI_D3D9_CreateRenderTarget,
    NvAPI_D3D9_NVFBC_GetStatus,
    NvAPI_D3D9_IFR_SetUpTargetBufferToSys,
    NvAPI_D3D9_GPUBasedCPUSleep,
    NvAPI_D3D9_IFR_TransferRenderTarget,
    NvAPI_D3D9_IFR_SetUpTargetBufferToNV12BLVideoSurface,
    NvAPI_D3D9_IFR_TransferRenderTargetToNV12BLVideoSurface,
    NvAPI_D3D10_AliasPrimaryAsTexture,
    NvAPI_D3D10_SetPrimaryFlipChainCallbacks,
    NvAPI_D3D10_ProcessCallbacks,
    NvAPI_D3D10_GetRenderedCursorAsBitmap,
    NvAPI_D3D10_BeginShareResource,
    NvAPI_D3D10_BeginShareResourceEx,
    NvAPI_D3D10_EndShareResource,
    NvAPI_D3D10_SetDepthBoundsTest,
    NvAPI_D3D10_CreateDevice,
    NvAPI_D3D10_CreateDeviceAndSwapChain,
    NvAPI_D3D11_CreateDevice,
    NvAPI_D3D11_CreateDeviceAndSwapChain,
    NvAPI_D3D11_BeginShareResource,
    NvAPI_D3D11_EndShareResource,
    NvAPI_D3D11_SetDepthBoundsTest,
    NvAPI_D3D11_IsNvShaderExtnOpCodeSupported,
    NvAPI_D3D11_SetNvShaderExtnSlot,
    NvAPI_D3D12_SetNvShaderExtnSlotSpace,
    NvAPI_D3D12_SetNvShaderExtnSlotSpaceLocalThread,
    NvAPI_D3D11_SetNvShaderExtnSlotLocalThread,
    NvAPI_D3D11_BeginUAVOverlapEx,
    NvAPI_D3D11_BeginUAVOverlap,
    NvAPI_D3D11_EndUAVOverlap,
    NvAPI_D3D11_GetResourceHandle,
    NvAPI_GPU_GetShaderPipeCount,
    NvAPI_GPU_GetShaderSubPipeCount,
    NvAPI_GPU_GetPartitionCount,
    NvAPI_GPU_GetMemPartitionMask,
    NvAPI_GPU_GetTPCMask,
    NvAPI_GPU_GetSMMask,
    NvAPI_GPU_GetTotalTPCCount,
    NvAPI_GPU_GetTotalSMCount,
    NvAPI_GPU_GetTotalSPCount,
    NvAPI_GPU_GetGpuCoreCount,
    NvAPI_GPU_GetAllOutputs,
    NvAPI_GPU_GetConnectedOutputs,
    NvAPI_GPU_GetConnectedSLIOutputs,
    NvAPI_GPU_GetConnectedDisplayIds,
    NvAPI_GPU_GetAllDisplayIds,
    NvAPI_GPU_GetConnectedOutputsWithLidState,
    NvAPI_GPU_GetConnectedSLIOutputsWithLidState,
    NvAPI_GPU_GetSystemType,
    NvAPI_GPU_GetActiveOutputs,
    NvAPI_GPU_GetEDID,
    NvAPI_GPU_SetEDID,
    NvAPI_GPU_GetOutputType,
    NvAPI_GPU_GetDeviceDisplayMode,
    NvAPI_GPU_GetFlatPanelInfo,
    NvAPI_GPU_ValidateOutputCombination,
    NvAPI_GPU_GetConnectorInfo,
    NvAPI_GPU_GetFullName,
    NvAPI_GPU_GetPCIIdentifiers,
    NvAPI_GPU_GetGPUType,
    NvAPI_GPU_GetBusType,
    NvAPI_GPU_GetBusId,
    NvAPI_GPU_GetBusSlotId,
    NvAPI_GPU_GetIRQ,
    NvAPI_GPU_GetVbiosRevision,
    NvAPI_GPU_GetVbiosOEMRevision,
    NvAPI_GPU_GetVbiosVersionString,
    NvAPI_GPU_GetAGPAperture,
    NvAPI_GPU_GetCurrentAGPRate,
    NvAPI_GPU_GetCurrentPCIEDownstreamWidth,
    NvAPI_GPU_GetPhysicalFrameBufferSize,
    NvAPI_GPU_GetVirtualFrameBufferSize,
    NvAPI_GPU_GetQuadroStatus,
    NvAPI_GPU_GetBoardInfo,
    NvAPI_GPU_GetRamType,
    NvAPI_GPU_GetFBWidthAndLocation,
    NvAPI_GPU_GetAllClockFrequencies,
    NvAPI_GPU_GetPerfClocks,
    NvAPI_GPU_SetPerfClocks,
    NvAPI_GPU_GetCoolerSettings,
    NvAPI_GPU_SetCoolerLevels,
    NvAPI_GPU_RestoreCoolerSettings,
    NvAPI_GPU_GetCoolerPolicyTable,
    NvAPI_GPU_SetCoolerPolicyTable,
    NvAPI_GPU_RestoreCoolerPolicyTable,
    NvAPI_GPU_GetPstatesInfo,
    NvAPI_GPU_GetPstatesInfoEx,
    NvAPI_GPU_SetPstatesInfo,
    NvAPI_GPU_GetPstates20,
    NvAPI_GPU_SetPstates20,
    NvAPI_GPU_GetCurrentPstate,
    NvAPI_GPU_GetPstateClientLimits,
    NvAPI_GPU_SetPstateClientLimits,
    NvAPI_GPU_EnableOverclockedPstates,
    NvAPI_GPU_EnableDynamicPstates,
    NvAPI_GPU_GetDynamicPstatesInfoEx,
    NvAPI_GPU_GetVoltages,
    NvAPI_GPU_GetThermalSettings,
    NvAPI_GPU_SetDitherControl,
    NvAPI_GPU_GetDitherControl,
    NvAPI_GPU_GetColorSpaceConversion,
    NvAPI_GPU_SetColorSpaceConversion,
    NvAPI_GetTVOutputInfo,
    NvAPI_GetTVEncoderControls,
    NvAPI_SetTVEncoderControls,
    NvAPI_GetTVOutputBorderColor,
    NvAPI_SetTVOutputBorderColor,
    NvAPI_GetDisplayPosition,
    NvAPI_SetDisplayPosition,
    NvAPI_GetValidGpuTopologies,
    NvAPI_GetInvalidGpuTopologies,
    NvAPI_SetGpuTopologies,
    NvAPI_GPU_GetPerGpuTopologyStatus,
    NvAPI_SYS_GetChipSetTopologyStatus,
    NvAPI_GPU_Get_DisplayPort_DongleInfo,
    NvAPI_I2CRead,
    NvAPI_I2CWrite,
    NvAPI_I2CWriteEx,
    NvAPI_I2CReadEx,
    NvAPI_GPU_GetPowerMizerInfo,
    NvAPI_GPU_SetPowerMizerInfo,
    NvAPI_GPU_GetVoltageDomainsStatus,
    NvAPI_GPU_ClientPowerTopologyGetInfo,
    NvAPI_GPU_ClientPowerTopologyGetStatus,
    NvAPI_GPU_ClientPowerPoliciesGetInfo,
    NvAPI_GPU_ClientPowerPoliciesGetStatus,
    NvAPI_GPU_ClientPowerPoliciesSetStatus,
    NvAPI_GPU_WorkstationFeatureSetup,
    NvAPI_GPU_WorkstationFeatureQuery,
    NvAPI_GPU_QueryWorkstationFeatureSupport,
    NvAPI_SYS_GetChipSetInfo,
    NvAPI_SYS_GetLidAndDockInfo,
    NvAPI_OGL_ExpertModeSet,
    NvAPI_OGL_ExpertModeGet,
    NvAPI_OGL_ExpertModeDefaultsSet,
    NvAPI_OGL_ExpertModeDefaultsGet,
    NvAPI_SetDisplaySettings,
    NvAPI_GetDisplaySettings,
    NvAPI_GetTiming,
    NvAPI_DISP_GetTiming,
    NvAPI_DISP_GetMonitorCapabilities,
    NvAPI_DISP_GetMonitorColorCapabilities,
    NvAPI_DISP_EnumCustomDisplay,
    NvAPI_DISP_TryCustomDisplay,
    NvAPI_DISP_DeleteCustomDisplay,
    NvAPI_DISP_SaveCustomDisplay,
    NvAPI_DISP_RevertCustomDisplayTrial,
    NvAPI_EnumCustomDisplay,
    NvAPI_TryCustomDisplay,
    NvAPI_RevertCustomDisplayTrial,
    NvAPI_DeleteCustomDisplay,
    NvAPI_SaveCustomDisplay,
    NvAPI_QueryUnderscanCap,
    NvAPI_EnumUnderscanConfig,
    NvAPI_DeleteUnderscanConfig,
    NvAPI_SetUnderscanConfig,
    NvAPI_GetDisplayFeatureConfig,
    NvAPI_SetDisplayFeatureConfig,
    NvAPI_GetDisplayFeatureConfigDefaults,
    NvAPI_SetView,
    NvAPI_GetView,
    NvAPI_SetViewEx,
    NvAPI_GetViewEx,
    NvAPI_GetSupportedViews,
    NvAPI_GetHDCPLinkParameters,
    NvAPI_Disp_DpAuxChannelControl,
    NvAPI_SetHybridMode,
    NvAPI_GetHybridMode,
    NvAPI_Coproc_GetCoprocStatus,
    NvAPI_Coproc_SetCoprocInfoFlagsEx,
    NvAPI_Coproc_GetCoprocInfoFlagsEx,
    NvAPI_Coproc_NotifyCoprocPowerState,
    NvAPI_Coproc_GetApplicationCoprocInfo,
    NvAPI_GetVideoState,
    NvAPI_SetVideoState,
    NvAPI_SetFrameRateNotify,
    NvAPI_SetPVExtName,
    NvAPI_GetPVExtName,
    NvAPI_SetPVExtProfile,
    NvAPI_GetPVExtProfile,
    NvAPI_VideoSetStereoInfo,
    NvAPI_VideoGetStereoInfo,
    NvAPI_Mosaic_GetSupportedTopoInfo,
    NvAPI_Mosaic_GetTopoGroup,
    NvAPI_Mosaic_GetOverlapLimits,
    NvAPI_Mosaic_SetCurrentTopo,
    NvAPI_Mosaic_GetCurrentTopo,
    NvAPI_Mosaic_EnableCurrentTopo,
    NvAPI_Mosaic_SetGridTopology,
    NvAPI_Mosaic_GetMosaicCapabilities,
    NvAPI_Mosaic_GetDisplayCapabilities,
    NvAPI_Mosaic_EnumGridTopologies,
    NvAPI_Mosaic_GetDisplayViewportsByResolution,
    NvAPI_Mosaic_GetMosaicViewports,
    NvAPI_Mosaic_SetDisplayGrids,
    NvAPI_Mosaic_ValidateDisplayGridsWithSLI,
    NvAPI_Mosaic_ValidateDisplayGrids,
    NvAPI_Mosaic_EnumDisplayModes,
    NvAPI_Mosaic_ChooseGpuTopologies,
    NvAPI_Mosaic_EnumDisplayGrids,
    NvAPI_GetSupportedMosaicTopologies,
    NvAPI_GetCurrentMosaicTopology,
    NvAPI_SetCurrentMosaicTopology,
    NvAPI_EnableCurrentMosaicTopology,
    NvAPI_GSync_EnumSyncDevices,
    NvAPI_GSync_QueryCapabilities,
    NvAPI_GSync_GetTopology,
    NvAPI_GSync_SetSyncStateSettings,
    NvAPI_GSync_GetControlParameters,
    NvAPI_GSync_SetControlParameters,
    NvAPI_GSync_AdjustSyncDelay,
    NvAPI_GSync_GetSyncStatus,
    NvAPI_GSync_GetStatusParameters,
    NvAPI_QueryNonMigratableApps,
    NvAPI_GPU_QueryActiveApps,
    NvAPI_Hybrid_QueryUnblockedNonMigratableApps,
    NvAPI_Hybrid_QueryBlockedMigratableApps,
    NvAPI_Hybrid_SetAppMigrationState,
    NvAPI_Hybrid_IsAppMigrationStateChangeable,
    NvAPI_GPU_GPIOQueryLegalPins,
    NvAPI_GPU_GPIOReadFromPin,
    NvAPI_GPU_GPIOWriteToPin,
    NvAPI_GPU_GetHDCPSupportStatus,
    NvAPI_SetTopologyFocusDisplayAndView,
    NvAPI_Stereo_CreateConfigurationProfileRegistryKey,
    NvAPI_Stereo_DeleteConfigurationProfileRegistryKey,
    NvAPI_Stereo_SetConfigurationProfileValue,
    NvAPI_Stereo_DeleteConfigurationProfileValue,
    NvAPI_Stereo_Enable,
    NvAPI_Stereo_Disable,
    NvAPI_Stereo_IsEnabled,
    NvAPI_Stereo_GetStereoCaps,
    NvAPI_Stereo_GetStereoSupport,
    NvAPI_Stereo_CreateHandleFromIUnknown,
    NvAPI_Stereo_DestroyHandle,
    NvAPI_Stereo_Activate,
    NvAPI_Stereo_Deactivate,
    NvAPI_Stereo_IsActivated,
    NvAPI_Stereo_GetSeparation,
    NvAPI_Stereo_SetSeparation,
    NvAPI_Stereo_DecreaseSeparation,
    NvAPI_Stereo_IncreaseSeparation,
    NvAPI_Stereo_GetConvergence,
    NvAPI_Stereo_SetConvergence,
    NvAPI_Stereo_DecreaseConvergence,
    NvAPI_Stereo_IncreaseConvergence,
    NvAPI_Stereo_GetFrustumAdjustMode,
    NvAPI_Stereo_SetFrustumAdjustMode,
    NvAPI_Stereo_CaptureJpegImage,
    NvAPI_Stereo_InitActivation,
    NvAPI_Stereo_Trigger_Activation,
    NvAPI_Stereo_CapturePngImage,
    NvAPI_Stereo_ReverseStereoBlitControl,
    NvAPI_Stereo_SetNotificationMessage,
    NvAPI_Stereo_SetActiveEye,
    NvAPI_Stereo_SetDriverMode,
    NvAPI_Stereo_GetEyeSeparation,
    NvAPI_Stereo_IsWindowedModeSupported,
    NvAPI_Stereo_AppHandShake,
    NvAPI_Stereo_HandShake_Trigger_Activation,
    NvAPI_Stereo_HandShake_Message_Control,
    NvAPI_Stereo_SetSurfaceCreationMode,
    NvAPI_Stereo_GetSurfaceCreationMode,
    NvAPI_Stereo_Debug_WasLastDrawStereoized,
    NvAPI_Stereo_ForceToScreenDepth,
    NvAPI_Stereo_SetVertexShaderConstantF,
    NvAPI_Stereo_SetVertexShaderConstantB,
    NvAPI_Stereo_SetVertexShaderConstantI,
    NvAPI_Stereo_GetVertexShaderConstantF,
    NvAPI_Stereo_GetVertexShaderConstantB,
    NvAPI_Stereo_GetVertexShaderConstantI,
    NvAPI_Stereo_SetPixelShaderConstantF,
    NvAPI_Stereo_SetPixelShaderConstantB,
    NvAPI_Stereo_SetPixelShaderConstantI,
    NvAPI_Stereo_GetPixelShaderConstantF,
    NvAPI_Stereo_GetPixelShaderConstantB,
    NvAPI_Stereo_GetPixelShaderConstantI,
    NvAPI_Stereo_SetDefaultProfile,
    NvAPI_Stereo_GetDefaultProfile,
    NvAPI_Stereo_Is3DCursorSupported,
    NvAPI_Stereo_GetCursorSeparation,
    NvAPI_Stereo_SetCursorSeparation,
    NvAPI_VIO_GetCapabilities,
    NvAPI_VIO_Open,
    NvAPI_VIO_Close,
    NvAPI_VIO_Status,
    NvAPI_VIO_SyncFormatDetect,
    NvAPI_VIO_GetConfig,
    NvAPI_VIO_SetConfig,
    NvAPI_VIO_SetCSC,
    NvAPI_VIO_GetCSC,
    NvAPI_VIO_SetGamma,
    NvAPI_VIO_GetGamma,
    NvAPI_VIO_SetSyncDelay,
    NvAPI_VIO_GetSyncDelay,
    NvAPI_VIO_GetPCIInfo,
    NvAPI_VIO_IsRunning,
    NvAPI_VIO_Start,
    NvAPI_VIO_Stop,
    NvAPI_VIO_IsFrameLockModeCompatible,
    NvAPI_VIO_EnumDevices,
    NvAPI_VIO_QueryTopology,
    NvAPI_VIO_EnumSignalFormats,
    NvAPI_VIO_EnumDataFormats,
    NvAPI_GPU_GetTachReading,
    NvAPI_3D_GetProperty,
    NvAPI_3D_SetProperty,
    NvAPI_3D_GetPropertyRange,
    NvAPI_GPS_GetPowerSteeringStatus,
    NvAPI_GPS_SetPowerSteeringStatus,
    NvAPI_GPS_SetVPStateCap,
    NvAPI_GPS_GetVPStateCap,
    NvAPI_GPS_GetThermalLimit,
    NvAPI_GPS_SetThermalLimit,
    NvAPI_GPS_GetPerfSensors,
    NvAPI_SYS_GetDisplayIdFromGpuAndOutputId,
    NvAPI_SYS_GetGpuAndOutputIdFromDisplayId,
    NvAPI_GPU_ClientRegisterForUtilizationSampleUpdates,
    NvAPI_SYS_GetDisplayDriverInfo,
    NvAPI_SYS_GetPhysicalGpuFromDisplayId,
    NvAPI_DISP_GetDisplayIdByDisplayName,
    NvAPI_DISP_GetGDIPrimaryDisplayId,
    NvAPI_DISP_GetDisplayConfig,
    NvAPI_DISP_SetDisplayConfig,
    NvAPI_DISP_GetAdaptiveSyncData,
    NvAPI_DISP_SetAdaptiveSyncData,
    NvAPI_DISP_GetVirtualRefreshRateData,
    NvAPI_DISP_SetVirtualRefreshRateData,
    NvAPI_DISP_SetPreferredStereoDisplay,
    NvAPI_DISP_GetPreferredStereoDisplay,
    NvAPI_DISP_GetNvManagedDedicatedDisplays,
    NvAPI_DISP_AcquireDedicatedDisplay,
    NvAPI_DISP_ReleaseDedicatedDisplay,
    NvAPI_GPU_GetPixelClockRange,
    NvAPI_GPU_SetPixelClockRange,
    NvAPI_GPU_GetECCStatusInfo,
    NvAPI_GPU_GetECCErrorInfo,
    NvAPI_GPU_ResetECCErrorInfo,
    NvAPI_GPU_GetECCConfigurationInfo,
    NvAPI_GPU_SetECCConfiguration,
    NvAPI_D3D1x_CreateSwapChain,
    NvAPI_D3D9_CreateSwapChain,
    NvAPI_D3D_SetFPSIndicatorState,
    NvAPI_D3D9_Present,
    NvAPI_D3D9_QueryFrameCount,
    NvAPI_D3D9_ResetFrameCount,
    NvAPI_D3D9_QueryMaxSwapGroup,
    NvAPI_D3D9_QuerySwapGroup,
    NvAPI_D3D9_JoinSwapGroup,
    NvAPI_D3D9_BindSwapBarrier,
    NvAPI_D3D1x_Present,
    NvAPI_D3D1x_QueryFrameCount,
    NvAPI_D3D1x_ResetFrameCount,
    NvAPI_D3D1x_QueryMaxSwapGroup,
    NvAPI_D3D1x_QuerySwapGroup,
    NvAPI_D3D1x_JoinSwapGroup,
    NvAPI_D3D1x_BindSwapBarrier,
    NvAPI_SYS_VenturaGetState,
    NvAPI_SYS_VenturaSetState,
    NvAPI_SYS_VenturaGetCoolingBudget,
    NvAPI_SYS_VenturaSetCoolingBudget,
    NvAPI_SYS_VenturaGetPowerReading,
    NvAPI_DISP_GetDisplayBlankingState,
    NvAPI_DISP_SetDisplayBlankingState,
    NvAPI_DRS_CreateSession,
    NvAPI_DRS_DestroySession,
    NvAPI_DRS_LoadSettings,
    NvAPI_DRS_SaveSettings,
    NvAPI_DRS_LoadSettingsFromFile,
    NvAPI_DRS_SaveSettingsToFile,
    NvAPI_DRS_CreateProfile,
    NvAPI_DRS_DeleteProfile,
    NvAPI_DRS_SetCurrentGlobalProfile,
    NvAPI_DRS_GetCurrentGlobalProfile,
    NvAPI_DRS_GetProfileInfo,
    NvAPI_DRS_SetProfileInfo,
    NvAPI_DRS_FindProfileByName,
    NvAPI_DRS_EnumProfiles,
    NvAPI_DRS_GetNumProfiles,
    NvAPI_DRS_CreateApplication,
    NvAPI_DRS_DeleteApplicationEx,
    NvAPI_DRS_DeleteApplication,
    NvAPI_DRS_GetApplicationInfo,
    NvAPI_DRS_EnumApplications,
    NvAPI_DRS_FindApplicationByName,
    NvAPI_DRS_SetSetting,
    NvAPI_DRS_GetSetting,
    NvAPI_DRS_EnumSettings,
    NvAPI_DRS_EnumAvailableSettingIds,
    NvAPI_DRS_EnumAvailableSettingValues,
    NvAPI_DRS_GetSettingIdFromName,
    NvAPI_DRS_GetSettingNameFromId,
    NvAPI_DRS_DeleteProfileSetting,
    NvAPI_DRS_RestoreAllDefaults,
    NvAPI_DRS_RestoreProfileDefault,
    NvAPI_DRS_RestoreProfileDefaultSetting,
    NvAPI_DRS_GetBaseProfile,
    NvAPI_Event_RegisterCallback,
    NvAPI_Event_UnregisterCallback,
    NvAPI_GPU_GetCurrentThermalLevel,
    NvAPI_GPU_GetCurrentFanSpeedLevel,
    NvAPI_GPU_SetScanoutIntensity,
    NvAPI_GPU_GetScanoutIntensityState,
    NvAPI_GPU_SetScanoutWarping,
    NvAPI_GPU_GetScanoutWarpingState,
    NvAPI_GPU_SetScanoutCompositionParameter,
    NvAPI_GPU_GetScanoutCompositionParameter,
    NvAPI_GPU_GetScanoutConfiguration,
    NvAPI_GPU_GetScanoutConfigurationEx,
    NvAPI_DISP_SetHCloneTopology,
    NvAPI_DISP_GetHCloneTopology,
    NvAPI_DISP_ValidateHCloneTopology,
    NvAPI_GPU_GetAdapterIdFromPhysicalGpu,
    NvAPI_GPU_GetVirtualizationInfo,
    NvAPI_GPU_GetLogicalGpuInfo,
    NvAPI_GPU_GetLicensableFeatures,
    NvAPI_GPU_GetVRReadyData,
    NvAPI_GPU_GetPerfDecreaseInfo,
    NvAPI_GPU_QueryIlluminationSupport,
    NvAPI_GPU_GetIllumination,
    NvAPI_GPU_SetIllumination,
    NvAPI_D3D1x_IFR_SetUpTargetBufferToSys,
    NvAPI_D3D1x_IFR_TransferRenderTarget,
    NvAPI_GetPhysicalGPUFromDisplay,
    NvAPI_GetPhysicalGPUFromGPUID,
    NvAPI_GetGPUIDfromPhysicalGPU,
    NvAPI_GetInfoFrameStatePvt,
    NvAPI_GPU_GetMemoryInfo,
    NvAPI_GPU_GetMemoryInfoEx,
    NvAPI_LoadMicrocode,
    NvAPI_GetLoadedMicrocodePrograms,
    NvAPI_GetDisplayDriverBuildTitle,
    NvAPI_GetDisplayDriverCompileType,
    NvAPI_GetDisplayDriverSecurityLevel,
    NvAPI_AccessDisplayDriverRegistry,
    NvAPI_GetDisplayDriverRegistryPath,
    NvAPI_GetUnAttachedDisplayDriverRegistryPath,
    NvAPI_GPU_GetRawFuseData,
    NvAPI_GPU_GetFoundry,
    NvAPI_GPU_GetVPECount,
    NvAPI_GPU_GetTargetID,
    NvAPI_GPU_GetShortName,
    NvAPI_GPU_GetVbiosMxmVersion,
    NvAPI_GPU_GetVbiosImage,
    NvAPI_GPU_GetMXMBlock,
    NvAPI_GPU_SetCurrentPCIEWidth,
    NvAPI_GPU_SetCurrentPCIESpeed,
    NvAPI_GPU_GetPCIEInfo,
    NvAPI_GPU_ClearPCIELinkErrorInfo,
    NvAPI_GPU_ClearPCIELinkAERInfo,
    NvAPI_GPU_GetFrameBufferCalibrationLockFailures,
    NvAPI_GPU_SetDisplayUnderflowMode,
    NvAPI_GPU_GetDisplayUnderflowStatus,
    NvAPI_GPU_GetBarInfo,
    NvAPI_GPU_GetPSFloorSweepStatus,
    NvAPI_GPU_GetVSFloorSweepStatus,
    NvAPI_GPU_GetSerialNumber,
    NvAPI_GPU_GetManufacturingInfo,
    NvAPI_GPU_GetRamConfigStrap,
    NvAPI_GPU_GetRamBusWidth,
    NvAPI_GPU_GetRamBankCount,
    NvAPI_GPU_GetArchInfo,
    NvAPI_GPU_GetExtendedMinorRevision,
    NvAPI_GPU_GetSampleType,
    NvAPI_GPU_GetHardwareQualType,
    NvAPI_GPU_GetAllClocks,
    NvAPI_GPU_SetClocks,
    NvAPI_GPU_SetPerfHybridMode,
    NvAPI_GPU_GetPerfHybridMode,
    NvAPI_GPU_GetHybridControllerInfo,
    NvAPI_RestartDisplayDriver,
    NvAPI_GPU_GetAllGpusOnSameBoard,
    NvAPI_SetTopologyDisplayGPU,
    NvAPI_GetTopologyDisplayGPU,
    NvAPI_SYS_GetSliApprovalCookie,
    NvAPI_CreateUnAttachedDisplayFromDisplay,
    NvAPI_GetDriverModel,
    NvAPI_GPU_CudaEnumComputeCapableGpus,
    NvAPI_GPU_PhysxSetState,
    NvAPI_GPU_PhysxQueryRecommendedState,
    NvAPI_GPU_GetDeepIdleState,
    NvAPI_GPU_SetDeepIdleState,
    NvAPI_GetScalingCaps,
    NvAPI_GPU_GetThermalTable,
    NvAPI_SYS_SetPostOutput,
    NvAPI_GPU_PerfPoliciesGetInfo,
    NvAPI_GPU_PerfPoliciesGetStatus,
    NvAPI_GPU_ClientThermalPoliciesGetInfo,
    NvAPI_GPU_ClientThermalPoliciesGetStatus,
    NvAPI_GPU_ClientThermalPoliciesSetStatus,
    NvAPI_GPU_ClientVoltRailsGetStatus,
    NvAPI_GPU_GetVoltageStep,
    NvAPI_GPU_ClockClientClkDomainsGetInfo,
    NvAPI_GPU_ClockClientClkVfPointsGetInfo,
    NvAPI_GPU_ClockClientClkVfPointsGetControl,
    NvAPI_GPU_ClockClientClkVfPointsSetControl,
    NvAPI_GPU_ClockClientClkVfPointsGetStatus,
    NvAPI_GPU_PerfClientLimitsGetStatus,
    NvAPI_GPU_PerfClientLimitsSetStatus,
    NvAPI_GPU_ClientVoltRailsGetControl,
    NvAPI_GPU_ClientVoltRailsSetControl,
    NvAPI_GPU_ClientFanArbitersGetControl,
    NvAPI_GPU_ClientFanArbitersGetInfo,
    NvAPI_GPU_ClientFanArbitersGetStatus,
    NvAPI_GPU_ClientFanArbitersSetControl,
    NvAPI_GPU_ClientFanCoolersGetControl,
    NvAPI_GPU_ClientFanCoolersGetInfo,
    NvAPI_GPU_ClientFanCoolersGetStatus,
    NvAPI_GPU_ClientFanCoolersSetControl,
    NvAPI_GPU_ClientFanPoliciesGetControl,
    NvAPI_GPU_ClientFanPoliciesGetInfo,
    NvAPI_GPU_ClientFanPoliciesSetControl,
    NvAPI_GPU_ClientGetLastOcScannerResults,
    NvAPI_GPU_ClientGetOcConfig,
    NvAPI_GPU_ClientIllumDevicesGetInfo,
    NvAPI_GPU_ClientIllumDevicesGetControl,
    NvAPI_GPU_ClientIllumDevicesSetControl,
    NvAPI_GPU_ClientIllumZonesGetControl,
    NvAPI_GPU_ClientIllumZonesGetInfo,
    NvAPI_GPU_ClientIllumZonesSetControl,
    NvAPI_GPU_ClientRegisterForOcConfigChangedUpdates,
    NvAPI_GPU_ClientRegisterForOcScannerStatusUpdates,
    NvAPI_GPU_ClientRevertOc,
    NvAPI_GPU_ClientStartOcScanner,
    NvAPI_GPU_ClientStopOcScanner,
    NvAPI_GPU_GetUsages,
    NvAPI_GPU_GetRamMaker,
    NvAPI_D3D_GetObjectHandleForResource,
    NvAPI_D3D_SetResourceHint,
    NvAPI_D3D_BeginResourceRendering,
    NvAPI_D3D_EndResourceRendering,
    NvAPI_D3D12_QueryPresentBarrierSupport,
    NvAPI_D3D12_CreatePresentBarrierClient,
    NvAPI_D3D12_RegisterPresentBarrierResources,
    NvAPI_DestroyPresentBarrierClient,
    NvAPI_JoinPresentBarrier,
    NvAPI_LeavePresentBarrier,
    NvAPI_QueryPresentBarrierFrameStatistics,
    NvAPI_D3D12_CreateDDisplayPresentBarrierClient,
    NvAPI_D3D11_CreateRasterizerState,
    NvAPI_D3D_ConfigureAnsel,
    NvAPI_D3D11_CreateTiledTexture2DArray,
    NvAPI_D3D11_CheckFeatureSupport,
    NvAPI_D3D11_CreateImplicitMSAATexture2D,
    NvAPI_D3D12_CreateCommittedImplicitMSAATexture2D,
    NvAPI_D3D11_ResolveSubresourceRegion,
    NvAPI_D3D12_ResolveSubresourceRegion,
    NvAPI_D3D11_TiledTexture2DArrayGetDesc,
    NvAPI_D3D11_UpdateTileMappings,
    NvAPI_D3D11_CopyTileMappings,
    NvAPI_D3D11_TiledResourceBarrier,
    NvAPI_D3D11_AliasMSAATexture2DAsNonMSAA,
    NvAPI_D3D11_CreateGeometryShaderEx_2,
    NvAPI_D3D11_CreateVertexShaderEx,
    NvAPI_D3D11_CreateHullShaderEx,
    NvAPI_D3D11_CreateDomainShaderEx,
    NvAPI_D3D11_CreatePixelShaderEx_2,
    NvAPI_D3D11_CreateFastGeometryShaderExplicit,
    NvAPI_D3D11_CreateFastGeometryShader,
    NvAPI_D3D11_DecompressView,
    NvAPI_D3D12_CreateGraphicsPipelineState,
    NvAPI_D3D12_CreateComputePipelineState,
    NvAPI_D3D12_SetDepthBoundsTestValues,
    NvAPI_D3D12_CreateReservedResource,
    NvAPI_D3D12_CreateHeap,
    NvAPI_D3D12_CreateHeap2,
    NvAPI_D3D12_QueryCpuVisibleVidmem,
    NvAPI_D3D12_ReservedResourceGetDesc,
    NvAPI_D3D12_UpdateTileMappings,
    NvAPI_D3D12_CopyTileMappings,
    NvAPI_D3D12_ResourceAliasingBarrier,
    NvAPI_D3D12_CaptureUAVInfo,
    NvAPI_D3D11_GetResourceGPUVirtualAddressEx,
    NvAPI_D3D11_EnumerateMetaCommands,
    NvAPI_D3D11_CreateMetaCommand,
    NvAPI_D3D11_InitializeMetaCommand,
    NvAPI_D3D11_ExecuteMetaCommand,
    NvAPI_D3D12_EnumerateMetaCommands,
    NvAPI_D3D12_CreateMetaCommand,
    NvAPI_D3D12_InitializeMetaCommand,
    NvAPI_D3D12_ExecuteMetaCommand,
    NvAPI_D3D12_CreateCommittedResource,
    NvAPI_D3D12_GetCopyableFootprints,
    NvAPI_D3D12_CopyTextureRegion,
    NvAPI_D3D12_IsNvShaderExtnOpCodeSupported,
    NvAPI_D3D12_GetOptimalThreadCountForMesh,
    NvAPI_D3D_IsGSyncCapable,
    NvAPI_D3D_IsGSyncActive,
    NvAPI_D3D1x_DisableShaderDiskCache,
    NvAPI_D3D11_MultiGPU_GetCaps,
    NvAPI_D3D11_MultiGPU_Init,
    NvAPI_D3D11_CreateMultiGPUDevice,
    NvAPI_D3D_QuerySinglePassStereoSupport,
    NvAPI_D3D_SetSinglePassStereoMode,
    NvAPI_D3D12_QuerySinglePassStereoSupport,
    NvAPI_D3D12_SetSinglePassStereoMode,
    NvAPI_D3D_QueryMultiViewSupport,
    NvAPI_D3D_SetMultiViewMode,
    NvAPI_D3D_QueryModifiedWSupport,
    NvAPI_D3D_SetModifiedWMode,
    NvAPI_D3D12_QueryModifiedWSupport,
    NvAPI_D3D12_SetModifiedWMode,
    NvAPI_D3D_CreateLateLatchObject,
    NvAPI_D3D_QueryLateLatchSupport,
    NvAPI_D3D_RegisterDevice,
    NvAPI_D3D11_MultiDrawInstancedIndirect,
    NvAPI_D3D11_MultiDrawIndexedInstancedIndirect,
    NvAPI_D3D_ImplicitSLIControl,
    NvAPI_D3D12_UseDriverHeapPriorities,
    NvAPI_D3D12_Mosaic_GetCompanionAllocations,
    NvAPI_D3D12_Mosaic_GetViewportAndGpuPartitions,
    NvAPI_D3D1x_GetGraphicsCapabilities,
    NvAPI_D3D12_GetGraphicsCapabilities,
    NvAPI_D3D11_RSSetExclusiveScissorRects,
    NvAPI_D3D11_RSSetViewportsPixelShadingRates,
    NvAPI_D3D11_CreateShadingRateResourceView,
    NvAPI_D3D11_RSSetShadingRateResourceView,
    NvAPI_D3D11_RSGetPixelShadingRateSampleOrder,
    NvAPI_D3D11_RSSetPixelShadingRateSampleOrder,
    NvAPI_D3D_InitializeVRSHelper,
    NvAPI_D3D_InitializeNvGazeHandler,
    NvAPI_D3D_InitializeSMPAssist,
    NvAPI_D3D_QuerySMPAssistSupport,
    NvAPI_D3D_GetSleepStatus,
    NvAPI_D3D_SetSleepMode,
    NvAPI_D3D_Sleep,
    NvAPI_D3D_GetLatency,
    NvAPI_D3D_SetLatencyMarker,
    NvAPI_D3D12_SetAsyncFrameMarker,
    NvAPI_D3D12_NotifyOutOfBandCommandQueue,
    NvAPI_D3D12_CreateCubinComputeShader,
    NvAPI_D3D12_CreateCubinComputeShaderEx,
    NvAPI_D3D12_CreateCubinComputeShaderWithName,
    NvAPI_D3D12_LaunchCubinShader,
    NvAPI_D3D12_DestroyCubinComputeShader,
    NvAPI_D3D12_GetCudaTextureObject,
    NvAPI_D3D12_GetCudaSurfaceObject,
    NvAPI_D3D12_IsFatbinPTXSupported,
    NvAPI_D3D12_CreateCuModule,
    NvAPI_D3D12_EnumFunctionsInModule,
    NvAPI_D3D12_CreateCuFunction,
    NvAPI_D3D12_LaunchCuKernelChain,
    NvAPI_D3D12_DestroyCuModule,
    NvAPI_D3D12_DestroyCuFunction,
    NvAPI_D3D11_CreateCubinComputeShader,
    NvAPI_D3D11_CreateCubinComputeShaderEx,
    NvAPI_D3D11_CreateCubinComputeShaderWithName,
    NvAPI_D3D11_LaunchCubinShader,
    NvAPI_D3D11_DestroyCubinComputeShader,
    NvAPI_D3D11_IsFatbinPTXSupported,
    NvAPI_D3D11_CreateUnorderedAccessView,
    NvAPI_D3D11_CreateShaderResourceView,
    NvAPI_D3D11_CreateSamplerState,
    NvAPI_D3D11_GetCudaTextureObject,
    NvAPI_D3D11_GetResourceGPUVirtualAddress,
    NvAPI_D3D12_GetRaytracingCaps,
    NvAPI_D3D12_GetRaytracingOpacityMicromapArrayPrebuildInfo,
    NvAPI_D3D12_SetCreatePipelineStateOptions,
    NvAPI_D3D12_CheckDriverMatchingIdentifierEx,
    NvAPI_D3D12_GetRaytracingAccelerationStructurePrebuildInfoEx,
    NvAPI_D3D12_BuildRaytracingOpacityMicromapArray,
    NvAPI_D3D12_RelocateRaytracingOpacityMicromapArray,
    NvAPI_D3D12_EmitRaytracingOpacityMicromapArrayPostbuildInfo,
    NvAPI_D3D12_BuildRaytracingAccelerationStructureEx,
    Unknown_1629A173,
    Unknown_F1D2777B,
    Unknown_8EFC0978,
    Unknown_B7BCF50D,
    Unknown_36E39E6B,
    Unknown_GetROPCount,
}

/// The interface id of an API of the listing's part 0 (`None` for the others).
pub open spec fn api_id_part_0(a: Api) -> Option<u32> {
    match a {
        Api::NvAPI_Initialize => Some(0x0150e828u32),
        Api::NvAPI_Unload => Some(0xd22bdd7eu32),
        Api::NvAPI_GetErrorMessage => Some(0x6c2d048cu32),
        Api::NvAPI_GetInterfaceVersionString => Some(0x01053fa5u32),
        Api::NvAPI_GetDisplayDriverVersion => Some(0xf951a4d1u32),
        Api::NvAPI_SYS_GetDriverAndBranchVersion => Some(0x2926aaadu32),
        Api::NvAPI_EnumNvidiaDisplayHandle => Some(0x9abdd40du32),
        Api::NvAPI_EnumNvidiaUnAttachedDisplayHandle => Some(0x20de9260u32),
        Api::NvAPI_EnumPhysicalGPUs => Some(0xe5ac921fu32),
        Api::NvAPI_EnumTCCPhysicalGPUs => Some(0xd9930b07u32),
        Api::NvAPI_EnumLogicalGPUs => Some(0x48b3ea59u32),
        Api::NvAPI_GetPhysicalGPUsFromDisplay => Some(0x34ef9506u32),
        Api::NvAPI_GetPhysicalGPUFromUnAttachedDisplay => Some(0x5018ed61u32),
        Api::NvAPI_CreateDisplayFromUnAttachedDisplay => Some(0x63f9799eu32),
        Api::NvAPI_GetLogicalGPUFromDisplay => Some(0xee1370cfu32),
        Api::NvAPI_GetLogicalGPUFromPhysicalGPU => Some(0xadd604d1u32),
        Api::NvAPI_GetPhysicalGPUsFromLogicalGPU => Some(0xaea3fa32u32),
        Api::NvAPI_GetAssociatedNvidiaDisplayHandle => Some(0x35c29134u32),
        Api::NvAPI_DISP_GetAssociatedUnAttachedNvidiaDisplayHandle => Some(0xa70503b2u32),
        Api::NvAPI_GetAssociatedNvidiaDisplayName => Some(0x22a78b05u32),
        Api::NvAPI_GetUnAttachedAssociatedDisplayName => Some(0x4888d790u32),
        Api::NvAPI_EnableHWCursor => Some(0x2863148du32),
        Api::NvAPI_DisableHWCursor => Some(0xab163097u32),
        Api::NvAPI_GetVBlankCounter => Some(0x67b5db55u32),
        Api::NvAPI_SetRefreshRateOverride => Some(0x3092ac32u32),
        Api::NvAPI_GetAssociatedDisplayOutputId => Some(0xd995937eu32),
        Api::NvAPI_GetDisplayPortInfo => Some(0xc64ff367u32),
        Api::NvAPI_SetDisplayPort => Some(0xfa13e65au32),
        Api::NvAPI_GetHDMISupportInfo => Some(0x6ae16ec3u32),
        Api::NvAPI_DISP_EnumHDMIStereoModes => Some(0xd2ccf5d6u32),
        Api::NvAPI_GetInfoFrame => Some(0x09734f1du32),
        Api::NvAPI_SetInfoFrame => Some(0x69c6f365u32),
        Api::NvAPI_SetInfoFrameState => Some(0x67efd887u32),
        Api::NvAPI_GetInfoFrameState => Some(0x41511594u32),
        Api::NvAPI_Disp_InfoFrameControl => Some(0x6067af3fu32),
        Api::NvAPI_Disp_ColorControl => Some(0x92f9d80du32),
        Api::NvAPI_Disp_GetHdrCapabilities => Some(0x84f2a8dfu32),
        Api::NvAPI_Disp_HdrColorControl => Some(0x351da224u32),
        Api::NvAPI_DISP_GetVirtualModeData => Some(0x3230d69au32),
        Api::NvAPI_DISP_OverrideDisplayModeList => Some(0x0291bff2u32),
        Api::NvAPI_GetDisplayDriverMemoryInfo => Some(0x774aa982u32),
        Api::NvAPI_GetDriverMemoryInfo => Some(0x2dc95125u32),
        Api::NvAPI_GetDVCInfo => Some(0x4085de45u32),
        Api::NvAPI_SetDVCLevel => Some(0x172409b4u32),
        Api::NvAPI_GetDVCInfoEx => Some(0x0e45002du32),
        Api::NvAPI_SetDVCLevelEx => Some(0x4a82c2b1u32),
        Api::NvAPI_GetHUEInfo => Some(0x95b64341u32),
        Api::NvAPI_SetHUEAngle => Some(0xf5a0f22cu32),
        Api::NvAPI_GetImageSharpeningInfo => Some(0x9fb063dfu32),
        Api::NvAPI_SetImageSharpeningLevel => Some(0x3fc9a59cu32),
        _ => None,
    }
}

/// The interface id of an API of the listing's part 1 (`None` for the others).
pub open spec fn api_id_part_1(a: Api) -> Option<u32> {
    match a {
        Api::NvAPI_D3D_GetCurrentSLIState => Some(0x4b708b54u32),
        Api::NvAPI_D3D9_RegisterResource => Some(0xa064bdfcu32),
        Api::NvAPI_D3D9_UnregisterResource => Some(0xbb2b17aau32),
        Api::NvAPI_D3D9_AliasSurfaceAsTexture => Some(0xe5ceae41u32),
        Api::NvAPI_D3D9_StretchRectEx => Some(0x22de03aau32),
        Api::NvAPI_D3D9_ClearRT => Some(0x332d3942u32),
        Api::NvAPI_D3D_CreateQuery => Some(0x5d19bca4u32),
        Api::NvAPI_D3D_DestroyQuery => Some(0xc8ff7258u32),
        Api::NvAPI_D3D_Query_Begin => Some(0xe5a9aae0u32),
        Api::NvAPI_D3D_Query_End => Some(0x2ac084fau32),
        Api::NvAPI_D3D_Query_GetData => Some(0xf8b53c69u32),
        Api::NvAPI_D3D_Query_GetDataSize => Some(0xf2a54796u32),
        Api::NvAPI_D3D_Query_GetType => Some(0x4aceeaf7u32),
        Api::NvAPI_D3D_RegisterApp => Some(0xd44d3c4eu32),
        Api::NvAPI_D3D9_CreatePathContextNV => Some(0xa342f682u32),
        Api::NvAPI_D3D9_DestroyPathContextNV => Some(0x667c2929u32),
        Api::NvAPI_D3D9_CreatePathNV => Some(0x71329df3u32),
        Api::NvAPI_D3D9_DeletePathNV => Some(0x73e0019au32),
        Api::NvAPI_D3D9_PathVerticesNV => Some(0xc23df926u32),
        Api::NvAPI_D3D9_PathParameterfNV => Some(0xf7ff00c1u32),
        Api::NvAPI_D3D9_PathParameteriNV => Some(0xfc31236cu32),
        Api::NvAPI_D3D9_PathMatrixNV => Some(0xd2f6c499u32),
        Api::NvAPI_D3D9_PathDepthNV => Some(0xfcb16330u32),
        Api::NvAPI_D3D9_PathClearDepthNV => Some(0x157e45c4u32),
        Api::NvAPI_D3D9_PathEnableDepthTestNV => Some(0xe99ba7f3u32),
        Api::NvAPI_D3D9_PathEnableColorWriteNV => Some(0x3e2804a2u32),
        Api::NvAPI_D3D9_DrawPathNV => Some(0x13199b3du32),
        Api::NvAPI_D3D9_GetSurfaceHandle => Some(0x0f2dd3f2u32),
        Api::NvAPI_D3D9_GetOverlaySurfaceHandles => Some(0x6800f5fcu32),
        Api::NvAPI_D3D9_GetTextureHandle => Some(0xc7985ed5u32),
        Api::NvAPI_D3D9_GpuSyncGetHandleSize => Some(0x80c9fd3bu32),
        Api::NvAPI_D3D9_GpuSyncInit => Some(0x6d6fdad4u32),
        Api::NvAPI_D3D9_GpuSyncEnd => Some(0x754033f0u32),
        Api::NvAPI_D3D9_GpuSyncMapTexBuffer => Some(0xcde4a28au32),
        Api::NvAPI_D3D9_GpuSyncMapSurfaceBuffer => Some(0x2ab714abu32),
        Api::NvAPI_D3D9_GpuSyncMapVertexBuffer => Some(0xdbc803ecu32),
        Api::NvAPI_D3D9_GpuSyncMapIndexBuffer => Some(0x12ee68f2u32),
        Api::NvAPI_D3D9_SetPitchSurfaceCreation => Some(0x18cdf365u32),
        Api::NvAPI_D3D9_GpuSyncAcquire => Some(0xd00b8317u32),
        Api::NvAPI_D3D9_GpuSyncRelease => Some(0x3d7a86bbu32),
        Api::NvAPI_D3D9_GetCurrentRenderTargetHandle => Some(0x022cad61u32),
        Api::NvAPI_D3D9_GetCurrentZBufferHandle => Some(0xb380f218u32),
        Api::NvAPI_D3D9_GetIndexBufferHandle => Some(0xfc5a155bu32),
        Api::NvAPI_D3D9_GetVertexBufferHandle => Some(0x72b19155u32),
        Api::NvAPI_D3D9_CreateTexture => Some(0xd5e13573u32),
        Api::NvAPI_D3D9_AliasPrimaryAsTexture => Some(0x13c7112eu32),
        Api::NvAPI_D3D9_PresentSurfaceToDesktop => Some(0x0f7029c5u32),
        Api::NvAPI_D3D9_CreateVideoBegin => Some(0x84c9d553u32),
        Api::NvAPI_D3D9_CreateVideoEnd => Some(0xb476bf61u32),
        Api::NvAPI_D3D9_CreateVideo => Some(0x89ffd9a3u32),
        _ => None,
    }
}

/// The interface id of an API of the listing's part 2 (`None` for the others).
pub open spec fn api_id_part_2(a: Api) -> Option<u32> {
    match a {
        Api::NvAPI_D3D9_FreeVideo => Some(0x3111bed1u32),
        Api::NvAPI_D3D9_PresentVideo => Some(0x5cf7f862u32),
        Api::NvAPI_D3D9_VideoSetStereoInfo => Some(0xb852f4dbu32),
        Api::NvAPI_D3D9_SetGamutData => Some(0x2bbda32eu32),
        Api::NvAPI_D3D9_SetSurfaceCreationLayout => Some(0x5609b86au32),
        Api::NvAPI_D3D9_GetVideoCapabilities => Some(0x3d596b93u32),
        Api::NvAPI_D3D9_QueryVideoInfo => Some(0x1e6634b3u32),
        Api::NvAPI_D3D9_AliasPrimaryFromDevice => Some(0x7c20c5beu32),
        Api::NvAPI_D3D9_SetResourceHint => Some(0x905f5c27u32),
        Api::NvAPI_D3D9_Lock => Some(0x6317345cu32),
        Api::NvAPI_D3D9_Unlock => Some(0xc182027eu32),
        Api::NvAPI_D3D9_GetVideoState => Some(0xa4527bf8u32),
        Api::NvAPI_D3D9_SetVideoState => Some(0xbd4bc56fu32),
        Api::NvAPI_D3D9_EnumVideoFeatures => Some(0x1db7c52cu32),
        Api::NvAPI_D3D9_GetSLIInfo => Some(0x694bff4du32),
        Api::NvAPI_D3D9_SetSLIMode => Some(0xbfdc062cu32),
        Api::NvAPI_D3D9_QueryAAOverrideMode => Some(0xddf5643cu32),
        Api::NvAPI_D3D9_VideoSurfaceEncryptionControl => Some(0x9d2509efu32),
        Api::NvAPI_D3D9_DMA => Some(0x962b8af6u32),
        Api::NvAPI_D3D9_EnableStereo => Some(0x492a6954u32),
        Api::NvAPI_D3D9_StretchRect => Some(0xaeaecd41u32),
        Api::NvAPI_D3D9_CreateRenderTarget => Some(0x0b3827c8u32),
        Api::NvAPI_D3D9_NVFBC_GetStatus => Some(0xbd3eb475u32),
        Api::NvAPI_D3D9_IFR_SetUpTargetBufferToSys => Some(0x55255d05u32),
        Api::NvAPI_D3D9_GPUBasedCPUSleep => Some(0xd504dda7u32),
        Api::NvAPI_D3D9_IFR_TransferRenderTarget => Some(0x0ab7c2dcu32),
        Api::NvAPI_D3D9_IFR_SetUpTargetBufferToNV12BLVideoSurface => Some(0xcfc92c15u32),
        Api::NvAPI_D3D9_IFR_TransferRenderTargetToNV12BLVideoSurface => Some(0x5fe72f64u32),
        Api::NvAPI_D3D10_AliasPrimaryAsTexture => Some(0x8aac133du32),
        Api::NvAPI_D3D10_SetPrimaryFlipChainCallbacks => Some(0x73eb9329u32),
        Api::NvAPI_D3D10_ProcessCallbacks => Some(0xae9c2019u32),
        Api::NvAPI_D3D10_GetRenderedCursorAsBitmap => Some(0xcac3ce5du32),
        Api::NvAPI_D3D10_BeginShareResource => Some(0x35233210u32),
        Api::NvAPI_D3D10_BeginShareResourceEx => Some(0xef303a9du32),
        Api::NvAPI_D3D10_EndShareResource => Some(0x0e9c5853u32),
        Api::NvAPI_D3D10_SetDepthBoundsTest => Some(0x4eadf5d2u32),
        Api::NvAPI_D3D10_CreateDevice => Some(0x2de11d61u32),
        Api::NvAPI_D3D10_CreateDeviceAndSwapChain => Some(0x5b803dafu32),
        Api::NvAPI_D3D11_CreateDevice => Some(0x6a16d3a0u32),
        Api::NvAPI_D3D11_CreateDeviceAndSwapChain => Some(0xbb939ee5u32),
        Api::NvAPI_D3D11_BeginShareResource => Some(0x0121bdc6u32),
        Api::NvAPI_D3D11_EndShareResource => Some(0x8ffb8e26u32),
        Api::NvAPI_D3D11_SetDepthBoundsTest => Some(0x7aaf7a04u32),
        Api::NvAPI_D3D11_IsNvShaderExtnOpCodeSupported => Some(0x5f68da40u32),
        Api::NvAPI_D3D11_SetNvShaderExtnSlot => Some(0x8e90bb9fu32),
        Api::NvAPI_D3D12_SetNvShaderExtnSlotSpace => Some(0xac2dfeb5u32),
        Api::NvAPI_D3D12_SetNvShaderExtnSlotSpaceLocalThread => Some(0x43d867c0u32),
        Api::NvAPI_D3D11_SetNvShaderExtnSlotLocalThread => Some(0x0e6482a0u32),
        Api::NvAPI_D3D11_BeginUAVOverlapEx => Some(0xba08208au32),
        Api::NvAPI_D3D11_BeginUAVOverlap => Some(0x65b93ca8u32),
        _ => None,
    }
}

/// The interface id of an API of the listing's part 3 (`None` for the others).
pub open spec fn api_id_part_3(a: Api) -> Option<u32> {
    match a {
        Api::NvAPI_D3D11_EndUAVOverlap => Some(0x2216a357u32),
        Api::NvAPI_D3D11_GetResourceHandle => Some(0x09d52986u32),
        Api::NvAPI_GPU_GetShaderPipeCount => Some(0x63e2f56fu32),
        Api::NvAPI_GPU_GetShaderSubPipeCount => Some(0x0be17923u32),
        Api::NvAPI_GPU_GetPartitionCount => Some(0x86f05d7au32),
        Api::NvAPI_GPU_GetMemPartitionMask => Some(0x329d77cdu32),
        Api::NvAPI_GPU_GetTPCMask => Some(0x4a35df54u32),
        Api::NvAPI_GPU_GetSMMask => Some(0xeb7af173u32),
        Api::NvAPI_GPU_GetTotalTPCCount => Some(0x4e2f76a8u32),
        Api::NvAPI_GPU_GetTotalSMCount => Some(0xae5fbcfeu32),
        Api::NvAPI_GPU_GetTotalSPCount => Some(0xb6d62591u32),
        Api::NvAPI_GPU_GetGpuCoreCount => Some(0xc7026a87u32),
        Api::NvAPI_GPU_GetAllOutputs => Some(0x7d554f8eu32),
        Api::NvAPI_GPU_GetConnectedOutputs => Some(0x1730bfc9u32),
        Api::NvAPI_GPU_GetConnectedSLIOutputs => Some(0x0680de09u32),
        Api::NvAPI_GPU_GetConnectedDisplayIds => Some(0x0078dba2u32),
        Api::NvAPI_GPU_GetAllDisplayIds => Some(0x785210a2u32),
        Api::NvAPI_GPU_GetConnectedOutputsWithLidState => Some(0xcf8caf39u32),
        Api::NvAPI_GPU_GetConnectedSLIOutputsWithLidState => Some(0x96043cc7u32),
        Api::NvAPI_GPU_GetSystemType => Some(0xbaaabfccu32),
        Api::NvAPI_GPU_GetActiveOutputs => Some(0xe3e89b6fu32),
        Api::NvAPI_GPU_GetEDID => Some(0x37d32e69u32),
        Api::NvAPI_GPU_SetEDID => Some(0xe83d6456u32),
        Api::NvAPI_GPU_GetOutputType => Some(0x40a505e4u32),
        Api::NvAPI_GPU_GetDeviceDisplayMode => Some(0xd2277e3au32),
        Api::NvAPI_GPU_GetFlatPanelInfo => Some(0x36cff969u32),
        Api::NvAPI_GPU_ValidateOutputCombination => Some(0x34c9c2d4u32),
        Api::NvAPI_GPU_GetConnectorInfo => Some(0x4eca2c10u32),
        Api::NvAPI_GPU_GetFullName => Some(0xceee8e9fu32),
        Api::NvAPI_GPU_GetPCIIdentifiers => Some(0x2ddfb66eu32),
        Api::NvAPI_GPU_GetGPUType => Some(0xc33baeb1u32),
        Api::NvAPI_GPU_GetBusType => Some(0x1bb18724u32),
        Api::NvAPI_GPU_GetBusId => Some(0x1be0b8e5u32),
        Api::NvAPI_GPU_GetBusSlotId => Some(0x2a0a350fu32),
        Api::NvAPI_GPU_GetIRQ => Some(0xe4715417u32),
        Api::NvAPI_GPU_GetVbiosRevision => Some(0xacc3da0au32),
        Api::NvAPI_GPU_GetVbiosOEMRevision => Some(0x2d43fb31u32),
        Api::NvAPI_GPU_GetVbiosVersionString => Some(0xa561fd7du32),
        Api::NvAPI_GPU_GetAGPAperture => Some(0x6e042794u32),
        Api::NvAPI_GPU_GetCurrentAGPRate => Some(0xc74925a0u32),
        Api::NvAPI_GPU_GetCurrentPCIEDownstreamWidth => Some(0xd048c3b1u32),
        Api::NvAPI_GPU_GetPhysicalFrameBufferSize => Some(0x46fbeb03u32),
        Api::NvAPI_GPU_GetVirtualFrameBufferSize => Some(0x5a04b644u32),
        Api::NvAPI_GPU_GetQuadroStatus => Some(0xe332fa47u32),
        Api::NvAPI_GPU_GetBoardInfo => Some(0x22d54523u32),
        Api::NvAPI_GPU_GetRamType => Some(0x57f7caacu32),
        Api::NvAPI_GPU_GetFBWidthAndLocation => Some(0x11104158u32),
        Api::NvAPI_GPU_GetAllClockFrequencies => Some(0xdcb616c3u32),
        Api::NvAPI_GPU_GetPerfClocks => Some(0x1ea54a3bu32),
        Api::NvAPI_GPU_SetPerfClocks => Some(0x07bcf4acu32),
        _ => None,
    }
}

/// The interface id of an API of the listing's part 4 (`None` for the others).
pub open spec fn api_id_part_4(a: Api) -> Option<u32> {
    match a {
        Api::NvAPI_GPU_GetCoolerSettings => Some(0xda141340u32),
        Api::NvAPI_GPU_SetCoolerLevels => Some(0x891fa0aeu32),
        Api::NvAPI_GPU_RestoreCoolerSettings => Some(0x8f6ed0fbu32),
        Api::NvAPI_GPU_GetCoolerPolicyTable => Some(0x0518a32cu32),
        Api::NvAPI_GPU_SetCoolerPolicyTable => Some(0x987947cdu32),
        Api::NvAPI_GPU_RestoreCoolerPolicyTable => Some(0xd8c4fe63u32),
        Api::NvAPI_GPU_GetPstatesInfo => Some(0xba94c56eu32),
        Api::NvAPI_GPU_GetPstatesInfoEx => Some(0x843c0256u32),
        Api::NvAPI_GPU_SetPstatesInfo => Some(0xcdf27911u32),
        Api::NvAPI_GPU_GetPstates20 => Some(0x6ff81213u32),
        Api::NvAPI_GPU_SetPstates20 => Some(0x0f4dae6bu32),
        Api::NvAPI_GPU_GetCurrentPstate => Some(0x927da4f6u32),
        Api::NvAPI_GPU_GetPstateClientLimits => Some(0x88c82104u32),
        Api::NvAPI_GPU_SetPstateClientLimits => Some(0xfdfc7d49u32),
        Api::NvAPI_GPU_EnableOverclockedPstates => Some(0xb23b70eeu32),
        Api::NvAPI_GPU_EnableDynamicPstates => Some(0xfa579a0fu32),
        Api::NvAPI_GPU_GetDynamicPstatesInfoEx => Some(0x60ded2edu32),
        Api::NvAPI_GPU_GetVoltages => Some(0x7d656244u32),
        Api::NvAPI_GPU_GetThermalSettings => Some(0xe3640a56u32),
        Api::NvAPI_GPU_SetDitherControl => Some(0xdf0dfcddu32),
        Api::NvAPI_GPU_GetDitherControl => Some(0x932ac8fbu32),
        Api::NvAPI_GPU_GetColorSpaceConversion => Some(0x8159e87au32),
        Api::NvAPI_GPU_SetColorSpaceConversion => Some(0xfcabd23au32),
        Api::NvAPI_GetTVOutputInfo => Some(0x30c805d5u32),
        Api::NvAPI_GetTVEncoderControls => Some(0x5757474au32),
        Api::NvAPI_SetTVEncoderControls => Some(0xca36a3abu32),
        Api::NvAPI_GetTVOutputBorderColor => Some(0x6dfd1c8cu32),
        Api::NvAPI_SetTVOutputBorderColor => Some(0xaed02700u32),
        Api::NvAPI_GetDisplayPosition => Some(0x6bb1ee5du32),
        Api::NvAPI_SetDisplayPosition => Some(0x57d9060fu32),
        Api::NvAPI_GetValidGpuTopologies => Some(0x5dfab48au32),
        Api::NvAPI_GetInvalidGpuTopologies => Some(0x15658be6u32),
        Api::NvAPI_SetGpuTopologies => Some(0x25201f3du32),
        Api::NvAPI_GPU_GetPerGpuTopologyStatus => Some(0xa81f8992u32),
        Api::NvAPI_SYS_GetChipSetTopologyStatus => Some(0x8a50f126u32),
        Api::NvAPI_GPU_Get_DisplayPort_DongleInfo => Some(0x76a70e8du32),
        Api::NvAPI_I2CRead => Some(0x2fde12c5u32),
        Api::NvAPI_I2CWrite => Some(0xe812eb07u32),
        Api::NvAPI_I2CWriteEx => Some(0x283ac65au32),
        Api::NvAPI_I2CReadEx => Some(0x4d7b0709u32),
        Api::NvAPI_GPU_GetPowerMizerInfo => Some(0x76bfa16bu32),
        Api::NvAPI_GPU_SetPowerMizerInfo => Some(0x50016c78u32),
        Api::NvAPI_GPU_GetVoltageDomainsStatus => Some(0xc16c7e2cu32),
        Api::NvAPI_GPU_ClientPowerTopologyGetInfo => Some(0xa4dfd3f2u32),
        Api::NvAPI_GPU_ClientPowerTopologyGetStatus => Some(0xedcf624eu32),
        Api::NvAPI_GPU_ClientPowerPoliciesGetInfo => Some(0x34206d86u32),
        Api::NvAPI_GPU_ClientPowerPoliciesGetStatus => Some(0x70916171u32),
        Api::NvAPI_GPU_ClientPowerPoliciesSetStatus => Some(0xad95f5edu32),
        Api::NvAPI_GPU_WorkstationFeatureSetup => Some(0x6c1f3fe4u32),
        Api::NvAPI_GPU_WorkstationFeatureQuery => Some(0x004537dfu32),
        _ => None,
    }
}

/// The interface id of an API of the listing's part 5 (`None` for the others).
pub open spec fn api_id_part_5(a: Api) -> Option<u32> {
    match a {
        Api::NvAPI_GPU_QueryWorkstationFeatureSupport => Some(0x80b1abb9u32),
        Api::NvAPI_SYS_GetChipSetInfo => Some(0x53dabbcau32),
        Api::NvAPI_SYS_GetLidAndDockInfo => Some(0xcda14d8au32),
        Api::NvAPI_OGL_ExpertModeSet => Some(0x3805ef7au32),
        Api::NvAPI_OGL_ExpertModeGet => Some(0x22ed9516u32),
        Api::NvAPI_OGL_ExpertModeDefaultsSet => Some(0xb47a657eu32),
        Api::NvAPI_OGL_ExpertModeDefaultsGet => Some(0xae921f12u32),
        Api::NvAPI_SetDisplaySettings => Some(0xe04f3d86u32),
        Api::NvAPI_GetDisplaySettings => Some(0xdc27d5d4u32),
        Api::NvAPI_GetTiming => Some(0xafc4833eu32),
        Api::NvAPI_DISP_GetTiming => Some(0x175167e9u32),
        Api::NvAPI_DISP_GetMonitorCapabilities => Some(0x3b05c7e1u32),
        Api::NvAPI_DISP_GetMonitorColorCapabilities => Some(0x6ae4cfb5u32),
        Api::NvAPI_DISP_EnumCustomDisplay => Some(0xa2072d59u32),
        Api::NvAPI_DISP_TryCustomDisplay => Some(0x1f7db630u32),
        Api::NvAPI_DISP_DeleteCustomDisplay => Some(0x552e5b9bu32),
        Api::NvAPI_DISP_SaveCustomDisplay => Some(0x49882876u32),
        Api::NvAPI_DISP_RevertCustomDisplayTrial => Some(0xcbbd40f0u32),
        Api::NvAPI_EnumCustomDisplay => Some(0x42892957u32),
        Api::NvAPI_TryCustomDisplay => Some(0xbf6c1762u32),
        Api::NvAPI_RevertCustomDisplayTrial => Some(0x854ba405u32),
        Api::NvAPI_DeleteCustomDisplay => Some(0xe7cb998du32),
        Api::NvAPI_SaveCustomDisplay => Some(0xa9062c78u32),
        Api::NvAPI_QueryUnderscanCap => Some(0x61d7b624u32),
        Api::NvAPI_EnumUnderscanConfig => Some(0x4144111au32),
        Api::NvAPI_DeleteUnderscanConfig => Some(0xf98854c8u32),
        Api::NvAPI_SetUnderscanConfig => Some(0x3efada1du32),
        Api::NvAPI_GetDisplayFeatureConfig => Some(0x8e985ccdu32),
        Api::NvAPI_SetDisplayFeatureConfig => Some(0xf36a668du32),
        Api::NvAPI_GetDisplayFeatureConfigDefaults => Some(0x0f5f4d01u32),
        Api::NvAPI_SetView => Some(0x0957d7b6u32),
        Api::NvAPI_GetView => Some(0xd6b99d89u32),
        Api::NvAPI_SetViewEx => Some(0x06b89e68u32),
        Api::NvAPI_GetViewEx => Some(0xdbbc0af4u32),
        Api::NvAPI_GetSupportedViews => Some(0x66fb7fc0u32),
        Api::NvAPI_GetHDCPLinkParameters => Some(0xb3bb0772u32),
        Api::NvAPI_Disp_DpAuxChannelControl => Some(0x8eb56969u32),
        Api::NvAPI_SetHybridMode => Some(0xfb22d656u32),
        Api::NvAPI_GetHybridMode => Some(0xe23b68c1u32),
        Api::NvAPI_Coproc_GetCoprocStatus => Some(0x1efc3957u32),
        Api::NvAPI_Coproc_SetCoprocInfoFlagsEx => Some(0xf4c863acu32),
        Api::NvAPI_Coproc_GetCoprocInfoFlagsEx => Some(0x69a9874du32),
        Api::NvAPI_Coproc_NotifyCoprocPowerState => Some(0xcadcb956u32),
        Api::NvAPI_Coproc_GetApplicationCoprocInfo => Some(0x79232685u32),
        Api::NvAPI_GetVideoState => Some(0x1c5659cdu32),
        Api::NvAPI_SetVideoState => Some(0x054fe75au32),
        Api::NvAPI_SetFrameRateNotify => Some(0x18919887u32),
        Api::NvAPI_SetPVExtName => Some(0x4feeb498u32),
        Api::NvAPI_GetPVExtName => Some(0x2f5b08e0u32),
        Api::NvAPI_SetPVExtProfile => Some(0x8354a8f4u32),
        _ => None,
    }
}

/// The interface id of an API of the listing's part 6 (`None` for the others).
pub open spec fn api_id_part_6(a: Api) -> Option<u32> {
    match a {
        Api::NvAPI_GetPVExtProfile => Some(0x1b1b9a16u32),
        Api::NvAPI_VideoSetStereoInfo => Some(0x97063269u32),
        Api::NvAPI_VideoGetStereoInfo => Some(0x8e1f8cfeu32),
        Api::NvAPI_Mosaic_GetSupportedTopoInfo => Some(0xfdb63c81u32),
        Api::NvAPI_Mosaic_GetTopoGroup => Some(0xcb89381du32),
        Api::NvAPI_Mosaic_GetOverlapLimits => Some(0x989685f0u32),
        Api::NvAPI_Mosaic_SetCurrentTopo => Some(0x9b542831u32),
        Api::NvAPI_Mosaic_GetCurrentTopo => Some(0xec32944eu32),
        Api::NvAPI_Mosaic_EnableCurrentTopo => Some(0x5f1aa66cu32),
        Api::NvAPI_Mosaic_SetGridTopology => Some(0x3f113c77u32),
        Api::NvAPI_Mosaic_GetMosaicCapabilities => Some(0xda97071eu32),
        Api::NvAPI_Mosaic_GetDisplayCapabilities => Some(0xd58026b9u32),
        Api::NvAPI_Mosaic_EnumGridTopologies => Some(0xa3c55220u32),
        Api::NvAPI_Mosaic_GetDisplayViewportsByResolution => Some(0xdc6dc8d3u32),
        Api::NvAPI_Mosaic_GetMosaicViewports => Some(0x07eba036u32),
        Api::NvAPI_Mosaic_SetDisplayGrids => Some(0x4d959a89u32),
        Api::NvAPI_Mosaic_ValidateDisplayGridsWithSLI => Some(0x1ecfd263u32),
        Api::NvAPI_Mosaic_ValidateDisplayGrids => Some(0xcf43903du32),
        Api::NvAPI_Mosaic_EnumDisplayModes => Some(0x78db97d7u32),
        Api::NvAPI_Mosaic_ChooseGpuTopologies => Some(0xb033b140u32),
        Api::NvAPI_Mosaic_EnumDisplayGrids => Some(0xdf2887afu32),
        Api::NvAPI_GetSupportedMosaicTopologies => Some(0x410b5c25u32),
        Api::NvAPI_GetCurrentMosaicTopology => Some(0xf60852bdu32),
        Api::NvAPI_SetCurrentMosaicTopology => Some(0xd54b8989u32),
        Api::NvAPI_EnableCurrentMosaicTopology => Some(0x74073cc9u32),
        Api::NvAPI_GSync_EnumSyncDevices => Some(0xd9639601u32),
        Api::NvAPI_GSync_QueryCapabilities => Some(0x44a3f1d1u32),
        Api::NvAPI_GSync_GetTopology => Some(0x4562bc38u32),
        Api::NvAPI_GSync_SetSyncStateSettings => Some(0x60acdfddu32),
        Api::NvAPI_GSync_GetControlParameters => Some(0x16de1c6au32),
        Api::NvAPI_GSync_SetControlParameters => Some(0x8bbff88bu32),
        Api::NvAPI_GSync_AdjustSyncDelay => Some(0x2d11ff51u32),
        Api::NvAPI_GSync_GetSyncStatus => Some(0xf1f5b434u32),
        Api::NvAPI_GSync_GetStatusParameters => Some(0x70d404ecu32),
        Api::NvAPI_QueryNonMigratableApps => Some(0xbb9ef1c3u32),
        Api::NvAPI_GPU_QueryActiveApps => Some(0x65b1c5f5u32),
        Api::NvAPI_Hybrid_QueryUnblockedNonMigratableApps => Some(0x5f35bcb5u32),
        Api::NvAPI_Hybrid_QueryBlockedMigratableApps => Some(0xf4c2f8ccu32),
        Api::NvAPI_Hybrid_SetAppMigrationState => Some(0xfa0b9a59u32),
        Api::NvAPI_Hybrid_IsAppMigrationStateChangeable => Some(0x584cb0b6u32),
        Api::NvAPI_GPU_GPIOQueryLegalPins => Some(0xfab69565u32),
        Api::NvAPI_GPU_GPIOReadFromPin => Some(0xf5e10439u32),
        Api::NvAPI_GPU_GPIOWriteToPin => Some(0xf3b11e68u32),
        Api::NvAPI_GPU_GetHDCPSupportStatus => Some(0xf089eef5u32),
        Api::NvAPI_SetTopologyFocusDisplayAndView => Some(0x0a8064f9u32),
        Api::NvAPI_Stereo_CreateConfigurationProfileRegistryKey => Some(0xbe7692ecu32),
        Api::NvAPI_Stereo_DeleteConfigurationProfileRegistryKey => Some(0xf117b834u32),
        Api::NvAPI_Stereo_SetConfigurationProfileValue => Some(0x24409f48u32),
        Api::NvAPI_Stereo_DeleteConfigurationProfileValue => Some(0x49bceecfu32),
        Api::NvAPI_Stereo_Enable => Some(0x239c4545u32),
        _ => None,
    }
}

/// The interface id of an API of the listing's part 7 (`None` for the others).
pub open spec fn api_id_part_7(a: Api) -> Option<u32> {
    match a {
        Api::NvAPI_Stereo_Disable => Some(0x2ec50c2bu32),
        Api::NvAPI_Stereo_IsEnabled => Some(0x348ff8e1u32),
        Api::NvAPI_Stereo_GetStereoCaps => Some(0xdfc063b7u32),
        Api::NvAPI_Stereo_GetStereoSupport => Some(0x296c434du32),
        Api::NvAPI_Stereo_CreateHandleFromIUnknown => Some(0xac7e37f4u32),
        Api::NvAPI_Stereo_DestroyHandle => Some(0x3a153134u32),
        Api::NvAPI_Stereo_Activate => Some(0xf6a1ad68u32),
        Api::NvAPI_Stereo_Deactivate => Some(0x2d68de96u32),
        Api::NvAPI_Stereo_IsActivated => Some(0x1fb0bc30u32),
        Api::NvAPI_Stereo_GetSeparation => Some(0x451f2134u32),
        Api::NvAPI_Stereo_SetSeparation => Some(0x5c069fa3u32),
        Api::NvAPI_Stereo_DecreaseSeparation => Some(0xda044458u32),
        Api::NvAPI_Stereo_IncreaseSeparation => Some(0xc9a8ececu32),
        Api::NvAPI_Stereo_GetConvergence => Some(0x4ab00934u32),
        Api::NvAPI_Stereo_SetConvergence => Some(0x3dd6b54bu32),
        Api::NvAPI_Stereo_DecreaseConvergence => Some(0x4c87e317u32),
        Api::NvAPI_Stereo_IncreaseConvergence => Some(0xa17daabeu32),
        Api::NvAPI_Stereo_GetFrustumAdjustMode => Some(0xe6839b43u32),
        Api::NvAPI_Stereo_SetFrustumAdjustMode => Some(0x7be27fa2u32),
        Api::NvAPI_Stereo_CaptureJpegImage => Some(0x932cb140u32),
        Api::NvAPI_Stereo_InitActivation => Some(0xc7177702u32),
        Api::NvAPI_Stereo_Trigger_Activation => Some(0x0d6c6cd2u32),
        Api::NvAPI_Stereo_CapturePngImage => Some(0x8b7e99b5u32),
        Api::NvAPI_Stereo_ReverseStereoBlitControl => Some(0x3cd58f89u32),
        Api::NvAPI_Stereo_SetNotificationMessage => Some(0x6b9b409eu32),
        Api::NvAPI_Stereo_SetActiveEye => Some(0x96eea9f8u32),
        Api::NvAPI_Stereo_SetDriverMode => Some(0x5e8f0becu32),
        Api::NvAPI_Stereo_GetEyeSeparation => Some(0xce653127u32),
        Api::NvAPI_Stereo_IsWindowedModeSupported => Some(0x40c8ed5eu32),
        Api::NvAPI_Stereo_AppHandShake => Some(0x8c610bdau32),
        Api::NvAPI_Stereo_HandShake_Trigger_Activation => Some(0xb30cd1a7u32),
        Api::NvAPI_Stereo_HandShake_Message_Control => Some(0x315e0ef0u32),
        Api::NvAPI_Stereo_SetSurfaceCreationMode => Some(0xf5dcfcbau32),
        Api::NvAPI_Stereo_GetSurfaceCreationMode => Some(0x36f1c736u32),
        Api::NvAPI_Stereo_Debug_WasLastDrawStereoized => Some(0xed4416c5u32),
        Api::NvAPI_Stereo_ForceToScreenDepth => Some(0x2d495758u32),
        Api::NvAPI_Stereo_SetVertexShaderConstantF => Some(0x416c07b3u32),
        Api::NvAPI_Stereo_SetVertexShaderConstantB => Some(0x5268716fu32),
        Api::NvAPI_Stereo_SetVertexShaderConstantI => Some(0x7923ba0eu32),
        Api::NvAPI_Stereo_GetVertexShaderConstantF => Some(0x622fdc87u32),
        Api::NvAPI_Stereo_GetVertexShaderConstantB => Some(0x712baa5bu32),
        Api::NvAPI_Stereo_GetVertexShaderConstantI => Some(0x5a60613au32),
        Api::NvAPI_Stereo_SetPixelShaderConstantF => Some(0xa9657f32u32),
        Api::NvAPI_Stereo_SetPixelShaderConstantB => Some(0xba6109eeu32),
        Api::NvAPI_Stereo_SetPixelShaderConstantI => Some(0x912ac28fu32),
        Api::NvAPI_Stereo_GetPixelShaderConstantF => Some(0xd4974572u32),
        Api::NvAPI_Stereo_GetPixelShaderConstantB => Some(0xc79333aeu32),
        Api::NvAPI_Stereo_GetPixelShaderConstantI => Some(0xecd8f8cfu32),
        Api::NvAPI_Stereo_SetDefaultProfile => Some(0x44f0ecd1u32),
        Api::NvAPI_Stereo_GetDefaultProfile => Some(0x624e21c2u32),
        _ => None,
    }
}

/// The interface id of an API of the listing's part 8 (`None` for the others).
pub open spec fn api_id_part_8(a: Api) -> Option<u32> {
    match a {
        Api::NvAPI_Stereo_Is3DCursorSupported => Some(0xd7c9ec09u32),
        Api::NvAPI_Stereo_GetCursorSeparation => Some(0x72162b35u32),
        Api::NvAPI_Stereo_SetCursorSeparation => Some(0xfbc08fc1u32),
        Api::NvAPI_VIO_GetCapabilities => Some(0x1dc91303u32),
        Api::NvAPI_VIO_Open => Some(0x44ee4841u32),
        Api::NvAPI_VIO_Close => Some(0xd01bd237u32),
        Api::NvAPI_VIO_Status => Some(0x0e6ce4f1u32),
        Api::NvAPI_VIO_SyncFormatDetect => Some(0x118d48a3u32),
        Api::NvAPI_VIO_GetConfig => Some(0xd34a789bu32),
        Api::NvAPI_VIO_SetConfig => Some(0x0e4eec07u32),
        Api::NvAPI_VIO_SetCSC => Some(0xa1ec8d74u32),
        Api::NvAPI_VIO_GetCSC => Some(0x7b0d72a3u32),
        Api::NvAPI_VIO_SetGamma => Some(0x964bf452u32),
        Api::NvAPI_VIO_GetGamma => Some(0x51d53d06u32),
        Api::NvAPI_VIO_SetSyncDelay => Some(0x2697a8d1u32),
        Api::NvAPI_VIO_GetSyncDelay => Some(0x462214a9u32),
        Api::NvAPI_VIO_GetPCIInfo => Some(0xb981d935u32),
        Api::NvAPI_VIO_IsRunning => Some(0x96bd040eu32),
        Api::NvAPI_VIO_Start => Some(0xcde8e1a3u32),
        Api::NvAPI_VIO_Stop => Some(0x6ba2a5d6u32),
        Api::NvAPI_VIO_IsFrameLockModeCompatible => Some(0x7bf0a94du32),
        Api::NvAPI_VIO_EnumDevices => Some(0xfd7c5557u32),
        Api::NvAPI_VIO_QueryTopology => Some(0x869534e2u32),
        Api::NvAPI_VIO_EnumSignalFormats => Some(0xead72fe4u32),
        Api::NvAPI_VIO_EnumDataFormats => Some(0x221fa8e8u32),
        Api::NvAPI_GPU_GetTachReading => Some(0x5f608315u32),
        Api::NvAPI_3D_GetProperty => Some(0x8061a4b1u32),
        Api::NvAPI_3D_SetProperty => Some(0xc9175e8du32),
        Api::NvAPI_3D_GetPropertyRange => Some(0xb85de27cu32),
        Api::NvAPI_GPS_GetPowerSteeringStatus => Some(0x540ee82eu32),
        Api::NvAPI_GPS_SetPowerSteeringStatus => Some(0x9723d3a2u32),
        Api::NvAPI_GPS_SetVPStateCap => Some(0x68888eb4u32),
        Api::NvAPI_GPS_GetVPStateCap => Some(0x71913023u32),
        Api::NvAPI_GPS_GetThermalLimit => Some(0x583113edu32),
        Api::NvAPI_GPS_SetThermalLimit => Some(0xc07e210fu32),
        Api::NvAPI_GPS_GetPerfSensors => Some(0x271c1109u32),
        Api::NvAPI_SYS_GetDisplayIdFromGpuAndOutputId => Some(0x08f2bab4u32),
        Api::NvAPI_SYS_GetGpuAndOutputIdFromDisplayId => Some(0x112ba1a5u32),
        Api::NvAPI_GPU_ClientRegisterForUtilizationSampleUpdates => Some(0xadeeaf67u32),
        Api::NvAPI_SYS_GetDisplayDriverInfo => Some(0x721facebu32),
        Api::NvAPI_SYS_GetPhysicalGpuFromDisplayId => Some(0x9ea74659u32),
        Api::NvAPI_DISP_GetDisplayIdByDisplayName => Some(0xae457190u32),
        Api::NvAPI_DISP_GetGDIPrimaryDisplayId => Some(0x1e9d8a31u32),
        Api::NvAPI_DISP_GetDisplayConfig => Some(0x11abccf8u32),
        Api::NvAPI_DISP_SetDisplayConfig => Some(0x5d8cf8deu32),
        Api::NvAPI_DISP_GetAdaptiveSyncData => Some(0xb73d1ee9u32),
        Api::NvAPI_DISP_SetAdaptiveSyncData => Some(0x3eebba1du32),
        Api::NvAPI_DISP_GetVirtualRefreshRateData => Some(0x8c00429au32),
        Api::NvAPI_DISP_SetVirtualRefreshRateData => Some(0x5abbe6a3u32),
        Api::NvAPI_DISP_SetPreferredStereoDisplay => Some(0xc9d0e25fu32),
        _ => None,
    }
}

/// The interface id of an API of the listing's part 9 (`None` for the others).
pub open spec fn api_id_part_9(a: Api) -> Option<u32> {
    match a {
        Api::NvAPI_DISP_GetPreferredStereoDisplay => Some(0x1f6b4666u32),
        Api::NvAPI_DISP_GetNvManagedDedicatedDisplays => Some(0xdbdf0cb2u32),
        Api::NvAPI_DISP_AcquireDedicatedDisplay => Some(0x47c917bau32),
        Api::NvAPI_DISP_ReleaseDedicatedDisplay => Some(0x1247825fu32),
        Api::NvAPI_GPU_GetPixelClockRange => Some(0x66af10b7u32),
        Api::NvAPI_GPU_SetPixelClockRange => Some(0x5ac7f8e5u32),
        Api::NvAPI_GPU_GetECCStatusInfo => Some(0xca1ddaf3u32),
        Api::NvAPI_GPU_GetECCErrorInfo => Some(0xc71f85a6u32),
        Api::NvAPI_GPU_ResetECCErrorInfo => Some(0xc02eec20u32),
        Api::NvAPI_GPU_GetECCConfigurationInfo => Some(0x77a796f3u32),
        Api::NvAPI_GPU_SetECCConfiguration => Some(0x1cf639d9u32),
        Api::NvAPI_D3D1x_CreateSwapChain => Some(0x1bc21b66u32),
        Api::NvAPI_D3D9_CreateSwapChain => Some(0x1a131e09u32),
        Api::NvAPI_D3D_SetFPSIndicatorState => Some(0xa776e8dbu32),
        Api::NvAPI_D3D9_Present => Some(0x05650bebu32),
        Api::NvAPI_D3D9_QueryFrameCount => Some(0x9083e53au32),
        Api::NvAPI_D3D9_ResetFrameCount => Some(0xfa6a0675u32),
        Api::NvAPI_D3D9_QueryMaxSwapGroup => Some(0x5995410du32),
        Api::NvAPI_D3D9_QuerySwapGroup => Some(0xeba4d232u32),
        Api::NvAPI_D3D9_JoinSwapGroup => Some(0x7d44bb54u32),
        Api::NvAPI_D3D9_BindSwapBarrier => Some(0x9c39c246u32),
        Api::NvAPI_D3D1x_Present => Some(0x03b845a1u32),
        Api::NvAPI_D3D1x_QueryFrameCount => Some(0x9152e055u32),
        Api::NvAPI_D3D1x_ResetFrameCount => Some(0xfbbb031au32),
        Api::NvAPI_D3D1x_QueryMaxSwapGroup => Some(0x9bb9d68fu32),
        Api::NvAPI_D3D1x_QuerySwapGroup => Some(0x407f67aau32),
        Api::NvAPI_D3D1x_JoinSwapGroup => Some(0x14610cd7u32),
        Api::NvAPI_D3D1x_BindSwapBarrier => Some(0x9de8c729u32),
        Api::NvAPI_SYS_VenturaGetState => Some(0xcb7c208du32),
        Api::NvAPI_SYS_VenturaSetState => Some(0x0ce2e9d9u32),
        Api::NvAPI_SYS_VenturaGetCoolingBudget => Some(0xc9d86e33u32),
        Api::NvAPI_SYS_VenturaSetCoolingBudget => Some(0x85ff5a15u32),
        Api::NvAPI_SYS_VenturaGetPowerReading => Some(0x63685979u32),
        Api::NvAPI_DISP_GetDisplayBlankingState => Some(0x63e5d8dbu32),
        Api::NvAPI_DISP_SetDisplayBlankingState => Some(0x1e17e29bu32),
        Api::NvAPI_DRS_CreateSession => Some(0x0694d52eu32),
        Api::NvAPI_DRS_DestroySession => Some(0xdad9cff8u32),
        Api::NvAPI_DRS_LoadSettings => Some(0x375dbd6bu32),
        Api::NvAPI_DRS_SaveSettings => Some(0xfcbc7e14u32),
        Api::NvAPI_DRS_LoadSettingsFromFile => Some(0xd3ede889u32),
        Api::NvAPI_DRS_SaveSettingsToFile => Some(0x2be25df8u32),
        Api::NvAPI_DRS_CreateProfile => Some(0xcc176068u32),
        Api::NvAPI_DRS_DeleteProfile => Some(0x17093206u32),
        Api::NvAPI_DRS_SetCurrentGlobalProfile => Some(0x1c89c5dfu32),
        Api::NvAPI_DRS_GetCurrentGlobalProfile => Some(0x617bff9fu32),
        Api::NvAPI_DRS_GetProfileInfo => Some(0x61cd6fd6u32),
        Api::NvAPI_DRS_SetProfileInfo => Some(0x16abd3a9u32),
        Api::NvAPI_DRS_FindProfileByName => Some(0x7e4a9a0bu32),
        Api::NvAPI_DRS_EnumProfiles => Some(0xbc371ee0u32),
        Api::NvAPI_DRS_GetNumProfiles => Some(0x1dae4fbcu32),
        _ => None,
    }
}

/// The interface id of an API of the listing's part 10 (`None` for the others).
pub open spec fn api_id_part_10(a: Api) -> Option<u32> {
    match a {
        Api::NvAPI_DRS_CreateApplication => Some(0x4347a9deu32),
        Api::NvAPI_DRS_DeleteApplicationEx => Some(0xc5ea85a1u32),
        Api::NvAPI_DRS_DeleteApplication => Some(0x2c694bc6u32),
        Api::NvAPI_DRS_GetApplicationInfo => Some(0xed1f8c69u32),
        Api::NvAPI_DRS_EnumApplications => Some(0x7fa2173au32),
        Api::NvAPI_DRS_FindApplicationByName => Some(0xeee566b2u32),
        Api::NvAPI_DRS_SetSetting => Some(0x577dd202u32),
        Api::NvAPI_DRS_GetSetting => Some(0x73bf8338u32),
        Api::NvAPI_DRS_EnumSettings => Some(0xae3039dau32),
        Api::NvAPI_DRS_EnumAvailableSettingIds => Some(0xf020614au32),
        Api::NvAPI_DRS_EnumAvailableSettingValues => Some(0x2ec39f90u32),
        Api::NvAPI_DRS_GetSettingIdFromName => Some(0xcb7309cdu32),
        Api::NvAPI_DRS_GetSettingNameFromId => Some(0xd61cbe6eu32),
        Api::NvAPI_DRS_DeleteProfileSetting => Some(0xe4a26362u32),
        Api::NvAPI_DRS_RestoreAllDefaults => Some(0x5927b094u32),
        Api::NvAPI_DRS_RestoreProfileDefault => Some(0xfa5f6134u32),
        Api::NvAPI_DRS_RestoreProfileDefaultSetting => Some(0x53f0381eu32),
        Api::NvAPI_DRS_GetBaseProfile => Some(0xda8466a0u32),
        Api::NvAPI_Event_RegisterCallback => Some(0xe6dbea69u32),
        Api::NvAPI_Event_UnregisterCallback => Some(0xde1f9b45u32),
        Api::NvAPI_GPU_GetCurrentThermalLevel => Some(0xd2488b79u32),
        Api::NvAPI_GPU_GetCurrentFanSpeedLevel => Some(0xbd71f0c9u32),
        Api::NvAPI_GPU_SetScanoutIntensity => Some(0xa57457a4u32),
        Api::NvAPI_GPU_GetScanoutIntensityState => Some(0xe81ce836u32),
        Api::NvAPI_GPU_SetScanoutWarping => Some(0xb34bab4fu32),
        Api::NvAPI_GPU_GetScanoutWarpingState => Some(0x6f5435afu32),
        Api::NvAPI_GPU_SetScanoutCompositionParameter => Some(0xf898247du32),
        Api::NvAPI_GPU_GetScanoutCompositionParameter => Some(0x58fe51e6u32),
        Api::NvAPI_GPU_GetScanoutConfiguration => Some(0x6a9f5b63u32),
        Api::NvAPI_GPU_GetScanoutConfigurationEx => Some(0xe2e1e6f0u32),
        Api::NvAPI_DISP_SetHCloneTopology => Some(0x61041c24u32),
        Api::NvAPI_DISP_GetHCloneTopology => Some(0x47bad137u32),
        Api::NvAPI_DISP_ValidateHCloneTopology => Some(0x5f4c2664u32),
        Api::NvAPI_GPU_GetAdapterIdFromPhysicalGpu => Some(0x0ff07fdeu32),
        Api::NvAPI_GPU_GetVirtualizationInfo => Some(0x44e022a9u32),
        Api::NvAPI_GPU_GetLogicalGpuInfo => Some(0x842b066eu32),
        Api::NvAPI_GPU_GetLicensableFeatures => Some(0x3fc596aau32),
        Api::NvAPI_GPU_GetVRReadyData => Some(0x81d629c5u32),
        Api::NvAPI_GPU_GetPerfDecreaseInfo => Some(0x7f7f4600u32),
        Api::NvAPI_GPU_QueryIlluminationSupport => Some(0xa629da31u32),
        Api::NvAPI_GPU_GetIllumination => Some(0x9a1b9365u32),
        Api::NvAPI_GPU_SetIllumination => Some(0x0254a187u32),
        Api::NvAPI_D3D1x_IFR_SetUpTargetBufferToSys => Some(0x473f7828u32),
        Api::NvAPI_D3D1x_IFR_TransferRenderTarget => Some(0x9fbae4ebu32),
        Api::NvAPI_GetPhysicalGPUFromDisplay => Some(0x1890e8dau32),
        Api::NvAPI_GetPhysicalGPUFromGPUID => Some(0x5380ad1au32),
        Api::NvAPI_GetGPUIDfromPhysicalGPU => Some(0x6533ea3eu32),
        Api::NvAPI_GetInfoFrameStatePvt => Some(0x7fc17574u32),
        Api::NvAPI_GPU_GetMemoryInfo => Some(0x07f9b368u32),
        Api::NvAPI_GPU_GetMemoryInfoEx => Some(0xc0599498u32),
        _ => None,
    }
}

/// The interface id of an API of the listing's part 11 (`None` for the others).
pub open spec fn api_id_part_11(a: Api) -> Option<u32> {
    match a {
        Api::NvAPI_LoadMicrocode => Some(0x3119f36eu32),
        Api::NvAPI_GetLoadedMicrocodePrograms => Some(0x919b3136u32),
        Api::NvAPI_GetDisplayDriverBuildTitle => Some(0x7562e947u32),
        Api::NvAPI_GetDisplayDriverCompileType => Some(0x988aea78u32),
        Api::NvAPI_GetDisplayDriverSecurityLevel => Some(0x9d772bbau32),
        Api::NvAPI_AccessDisplayDriverRegistry => Some(0xf5579360u32),
        Api::NvAPI_GetDisplayDriverRegistryPath => Some(0x0e24ceeeu32),
        Api::NvAPI_GetUnAttachedDisplayDriverRegistryPath => Some(0x633252d8u32),
        Api::NvAPI_GPU_GetRawFuseData => Some(0xe0b1dce9u32),
        Api::NvAPI_GPU_GetFoundry => Some(0x5d857a00u32),
        Api::NvAPI_GPU_GetVPECount => Some(0xd8cbf37bu32),
        Api::NvAPI_GPU_GetTargetID => Some(0x35b5fd2fu32),
        Api::NvAPI_GPU_GetShortName => Some(0xd988f0f3u32),
        Api::NvAPI_GPU_GetVbiosMxmVersion => Some(0xe1d5dabau32),
        Api::NvAPI_GPU_GetVbiosImage => Some(0xfc13ee11u32),
        Api::NvAPI_GPU_GetMXMBlock => Some(0xb7ab19b9u32),
        Api::NvAPI_GPU_SetCurrentPCIEWidth => Some(0x3f28e1b9u32),
        Api::NvAPI_GPU_SetCurrentPCIESpeed => Some(0x3bd32008u32),
        Api::NvAPI_GPU_GetPCIEInfo => Some(0xe3795199u32),
        Api::NvAPI_GPU_ClearPCIELinkErrorInfo => Some(0x8456ff3du32),
        Api::NvAPI_GPU_ClearPCIELinkAERInfo => Some(0x521566bbu32),
        Api::NvAPI_GPU_GetFrameBufferCalibrationLockFailures => Some(0x524b9773u32),
        Api::NvAPI_GPU_SetDisplayUnderflowMode => Some(0x387b2e41u32),
        Api::NvAPI_GPU_GetDisplayUnderflowStatus => Some(0xed9e8057u32),
        Api::NvAPI_GPU_GetBarInfo => Some(0xe4b701e3u32),
        Api::NvAPI_GPU_GetPSFloorSweepStatus => Some(0xdee047abu32),
        Api::NvAPI_GPU_GetVSFloorSweepStatus => Some(0xd4f3944cu32),
        Api::NvAPI_GPU_GetSerialNumber => Some(0x14b83a5fu32),
        Api::NvAPI_GPU_GetManufacturingInfo => Some(0xa4218928u32),
        Api::NvAPI_GPU_GetRamConfigStrap => Some(0x51ccdb2au32),
        Api::NvAPI_GPU_GetRamBusWidth => Some(0x7975c581u32),
        Api::NvAPI_GPU_GetRamBankCount => Some(0x17073a3cu32),
        Api::NvAPI_GPU_GetArchInfo => Some(0xd8265d24u32),
        Api::NvAPI_GPU_GetExtendedMinorRevision => Some(0x25f17421u32),
        Api::NvAPI_GPU_GetSampleType => Some(0x32e1d697u32),
        Api::NvAPI_GPU_GetHardwareQualType => Some(0xf91e777bu32),
        Api::NvAPI_GPU_GetAllClocks => Some(0x1bd69f49u32),
        Api::NvAPI_GPU_SetClocks => Some(0x6f151055u32),
        Api::NvAPI_GPU_SetPerfHybridMode => Some(0x7bc207f8u32),
        Api::NvAPI_GPU_GetPerfHybridMode => Some(0x5d7ccaebu32),
        Api::NvAPI_GPU_GetHybridControllerInfo => Some(0xd26b8a58u32),
        Api::NvAPI_RestartDisplayDriver => Some(0xb4b26b65u32),
        Api::NvAPI_GPU_GetAllGpusOnSameBoard => Some(0x4db019e6u32),
        Api::NvAPI_SetTopologyDisplayGPU => Some(0xf409d5e5u32),
        Api::NvAPI_GetTopologyDisplayGPU => Some(0x813d89a8u32),
        Api::NvAPI_SYS_GetSliApprovalCookie => Some(0xb539a26eu32),
        Api::NvAPI_CreateUnAttachedDisplayFromDisplay => Some(0xa0c72ee4u32),
        Api::NvAPI_GetDriverModel => Some(0x25eeb2c4u32),
        Api::NvAPI_GPU_CudaEnumComputeCapableGpus => Some(0x5786cc6eu32),
        Api::NvAPI_GPU_PhysxSetState => Some(0x4071b85eu32),
        _ => None,
    }
}

/// The interface id of an API of the listing's part 12 (`None` for the others).
pub open spec fn api_id_part_12(a: Api) -> Option<u32> {
    match a {
        Api::NvAPI_GPU_PhysxQueryRecommendedState => Some(0x7a4174f4u32),
        Api::NvAPI_GPU_GetDeepIdleState => Some(0x1aad16b4u32),
        Api::NvAPI_GPU_SetDeepIdleState => Some(0x568a2292u32),
        Api::NvAPI_GetScalingCaps => Some(0x8e875cf9u32),
        Api::NvAPI_GPU_GetThermalTable => Some(0xc729203cu32),
        Api::NvAPI_SYS_SetPostOutput => Some(0xd3a092b1u32),
        Api::NvAPI_GPU_PerfPoliciesGetInfo => Some(0x409d9841u32),
        Api::NvAPI_GPU_PerfPoliciesGetStatus => Some(0x3d358a0cu32),
        Api::NvAPI_GPU_ClientThermalPoliciesGetInfo => Some(0x0d258bb5u32),
        Api::NvAPI_GPU_ClientThermalPoliciesGetStatus => Some(0xe9c425a1u32),
        Api::NvAPI_GPU_ClientThermalPoliciesSetStatus => Some(0x34c0b13du32),
        Api::NvAPI_GPU_ClientVoltRailsGetStatus => Some(0x465f9bcfu32),
        Api::NvAPI_GPU_GetVoltageStep => Some(0x28766157u32),
        Api::NvAPI_GPU_ClockClientClkDomainsGetInfo => Some(0x64b43a6au32),
        Api::NvAPI_GPU_ClockClientClkVfPointsGetInfo => Some(0x507b4b59u32),
        Api::NvAPI_GPU_ClockClientClkVfPointsGetControl => Some(0x23f1b133u32),
        Api::NvAPI_GPU_ClockClientClkVfPointsSetControl => Some(0x0733e009u32),
        Api::NvAPI_GPU_ClockClientClkVfPointsGetStatus => Some(0x21537ad4u32),
        Api::NvAPI_GPU_PerfClientLimitsGetStatus => Some(0xe440b867u32),
        Api::NvAPI_GPU_PerfClientLimitsSetStatus => Some(0x39442cfbu32),
        Api::NvAPI_GPU_ClientVoltRailsGetControl => Some(0x9df23ca1u32),
        Api::NvAPI_GPU_ClientVoltRailsSetControl => Some(0xb9306d9bu32),
        Api::NvAPI_GPU_ClientFanArbitersGetControl => Some(0x600f612eu32),
        Api::NvAPI_GPU_ClientFanArbitersGetInfo => Some(0xdddfda38u32),
        Api::NvAPI_GPU_ClientFanArbitersGetStatus => Some(0xcde021b9u32),
        Api::NvAPI_GPU_ClientFanArbitersSetControl => Some(0x44cd3014u32),
        Api::NvAPI_GPU_ClientFanCoolersGetControl => Some(0x814b209fu32),
        Api::NvAPI_GPU_ClientFanCoolersGetInfo => Some(0xfb85b01eu32),
        Api::NvAPI_GPU_ClientFanCoolersGetStatus => Some(0x35aed5e8u32),
        Api::NvAPI_GPU_ClientFanCoolersSetControl => Some(0xa58971a5u32),
        Api::NvAPI_GPU_ClientFanPoliciesGetControl => Some(0xe543c540u32),
        Api::NvAPI_GPU_ClientFanPoliciesGetInfo => Some(0x52b76d12u32),
        Api::NvAPI_GPU_ClientFanPoliciesSetControl => Some(0xc181947au32),
        Api::NvAPI_GPU_ClientGetLastOcScannerResults => Some(0x593e8e72u32),
        Api::NvAPI_GPU_ClientGetOcConfig => Some(0x210f1841u32),
        Api::NvAPI_GPU_ClientIllumDevicesGetInfo => Some(0xd4100e58u32),
        Api::NvAPI_GPU_ClientIllumDevicesGetControl => Some(0x73c01d58u32),
        Api::NvAPI_GPU_ClientIllumDevicesSetControl => Some(0x57024c62u32),
        Api::NvAPI_GPU_ClientIllumZonesGetControl => Some(0x3dbf5764u32),
        Api::NvAPI_GPU_ClientIllumZonesGetInfo => Some(0x4b81241bu32),
        Api::NvAPI_GPU_ClientIllumZonesSetControl => Some(0x197d065eu32),
        Api::NvAPI_GPU_ClientRegisterForOcConfigChangedUpdates => Some(0xf627074fu32),
        Api::NvAPI_GPU_ClientRegisterForOcScannerStatusUpdates => Some(0x1cb41116u32),
        Api::NvAPI_GPU_ClientRevertOc => Some(0xcc727b22u32),
        Api::NvAPI_GPU_ClientStartOcScanner => Some(0xbc4aee25u32),
        Api::NvAPI_GPU_ClientStopOcScanner => Some(0xc28b73deu32),
        Api::NvAPI_GPU_GetUsages => Some(0x189a1fdfu32),
        Api::NvAPI_GPU_GetRamMaker => Some(0x42aea16au32),
        Api::NvAPI_D3D_GetObjectHandleForResource => Some(0xfceac864u32),
        Api::NvAPI_D3D_SetResourceHint => Some(0x6c0ed98cu32),
        _ => None,
    }
}

/// The interface id of an API of the listing's part 13 (`None` for the others).
pub open spec fn api_id_part_13(a: Api) -> Option<u32> {
    match a {
        Api::NvAPI_D3D_BeginResourceRendering => Some(0x91123d6au32),
        Api::NvAPI_D3D_EndResourceRendering => Some(0x37e7191cu32),
        Api::NvAPI_D3D12_QueryPresentBarrierSupport => Some(0xa15faef7u32),
        Api::NvAPI_D3D12_CreatePresentBarrierClient => Some(0x4d815de9u32),
        Api::NvAPI_D3D12_RegisterPresentBarrierResources => Some(0xd53c9ef0u32),
        Api::NvAPI_DestroyPresentBarrierClient => Some(0x3c5c351bu32),
        Api::NvAPI_JoinPresentBarrier => Some(0x17f6bf82u32),
        Api::NvAPI_LeavePresentBarrier => Some(0xc3ec5a7fu32),
        Api::NvAPI_QueryPresentBarrierFrameStatistics => Some(0x61b844a1u32),
        Api::NvAPI_D3D12_CreateDDisplayPresentBarrierClient => Some(0xb5a21987u32),
        Api::NvAPI_D3D11_CreateRasterizerState => Some(0xdb8d28afu32),
        Api::NvAPI_D3D_ConfigureAnsel => Some(0x341c6c7fu32),
        Api::NvAPI_D3D11_CreateTiledTexture2DArray => Some(0x7886981au32),
        Api::NvAPI_D3D11_CheckFeatureSupport => Some(0x106a487eu32),
        Api::NvAPI_D3D11_CreateImplicitMSAATexture2D => Some(0xb8f79632u32),
        Api::NvAPI_D3D12_CreateCommittedImplicitMSAATexture2D => Some(0x24c6a07bu32),
        Api::NvAPI_D3D11_ResolveSubresourceRegion => Some(0xe6bfedd6u32),
        Api::NvAPI_D3D12_ResolveSubresourceRegion => Some(0xc24a15bfu32),
        Api::NvAPI_D3D11_TiledTexture2DArrayGetDesc => Some(0xf1a2b9d5u32),
        Api::NvAPI_D3D11_UpdateTileMappings => Some(0x9a06ea07u32),
        Api::NvAPI_D3D11_CopyTileMappings => Some(0xc09ee6bcu32),
        Api::NvAPI_D3D11_TiledResourceBarrier => Some(0xd6839099u32),
        Api::NvAPI_D3D11_AliasMSAATexture2DAsNonMSAA => Some(0xf1c54fc9u32),
        Api::NvAPI_D3D11_CreateGeometryShaderEx_2 => Some(0x99ed5c1cu32),
        Api::NvAPI_D3D11_CreateVertexShaderEx => Some(0x0beaa0b2u32),
        Api::NvAPI_D3D11_CreateHullShaderEx => Some(0xb53cab00u32),
        Api::NvAPI_D3D11_CreateDomainShaderEx => Some(0xa0d7180du32),
        Api::NvAPI_D3D11_CreatePixelShaderEx_2 => Some(0x4162822bu32),
        Api::NvAPI_D3D11_CreateFastGeometryShaderExplicit => Some(0x71ab7c9cu32),
        Api::NvAPI_D3D11_CreateFastGeometryShader => Some(0x525d43beu32),
        Api::NvAPI_D3D11_DecompressView => Some(0x3a94e822u32),
        Api::NvAPI_D3D12_CreateGraphicsPipelineState => Some(0x2fc28856u32),
        Api::NvAPI_D3D12_CreateComputePipelineState => Some(0x2762deacu32),
        Api::NvAPI_D3D12_SetDepthBoundsTestValues => Some(0xb9333fe9u32),
        Api::NvAPI_D3D12_CreateReservedResource => Some(0x2c85f101u32),
        Api::NvAPI_D3D12_CreateHeap => Some(0x5cb397cfu32),
        Api::NvAPI_D3D12_CreateHeap2 => Some(0x924be9d6u32),
        Api::NvAPI_D3D12_QueryCpuVisibleVidmem => Some(0x26322bc3u32),
        Api::NvAPI_D3D12_ReservedResourceGetDesc => Some(0x9aa2aabbu32),
        Api::NvAPI_D3D12_UpdateTileMappings => Some(0xc6017a7du32),
        Api::NvAPI_D3D12_CopyTileMappings => Some(0x47f78194u32),
        Api::NvAPI_D3D12_ResourceAliasingBarrier => Some(0xb942bab7u32),
        Api::NvAPI_D3D12_CaptureUAVInfo => Some(0x6e5ea9dbu32),
        Api::NvAPI_D3D11_GetResourceGPUVirtualAddressEx => Some(0xaf6d14dau32),
        Api::NvAPI_D3D11_EnumerateMetaCommands => Some(0xc7453ba8u32),
        Api::NvAPI_D3D11_CreateMetaCommand => Some(0xf505fba0u32),
        Api::NvAPI_D3D11_InitializeMetaCommand => Some(0xaec629e9u32),
        Api::NvAPI_D3D11_ExecuteMetaCommand => Some(0x82236c47u32),
        Api::NvAPI_D3D12_EnumerateMetaCommands => Some(0xcd9141d8u32),
        Api::NvAPI_D3D12_CreateMetaCommand => Some(0xeb29634bu32),
        _ => None,
    }
}

/// The interface id of an API of the listing's part 14 (`None` for the others).
pub open spec fn api_id_part_14(a: Api) -> Option<u32> {
    match a {
        Api::NvAPI_D3D12_InitializeMetaCommand => Some(0xa4125399u32),
        Api::NvAPI_D3D12_ExecuteMetaCommand => Some(0xde24fc3du32),
        Api::NvAPI_D3D12_CreateCommittedResource => Some(0x027e98aeu32),
        Api::NvAPI_D3D12_GetCopyableFootprints => Some(0xf6305eb5u32),
        Api::NvAPI_D3D12_CopyTextureRegion => Some(0x82b91b25u32),
        Api::NvAPI_D3D12_IsNvShaderExtnOpCodeSupported => Some(0x3dfacec8u32),
        Api::NvAPI_D3D12_GetOptimalThreadCountForMesh => Some(0xb43995cbu32),
        Api::NvAPI_D3D_IsGSyncCapable => Some(0x9c1eed78u32),
        Api::NvAPI_D3D_IsGSyncActive => Some(0xe942b0ffu32),
        Api::NvAPI_D3D1x_DisableShaderDiskCache => Some(0xd0cbca7du32),
        Api::NvAPI_D3D11_MultiGPU_GetCaps => Some(0xd2d25687u32),
        Api::NvAPI_D3D11_MultiGPU_Init => Some(0x017be49eu32),
        Api::NvAPI_D3D11_CreateMultiGPUDevice => Some(0xbdb20007u32),
        Api::NvAPI_D3D_QuerySinglePassStereoSupport => Some(0x6f5f0a6du32),
        Api::NvAPI_D3D_SetSinglePassStereoMode => Some(0xa39e6e6eu32),
        Api::NvAPI_D3D12_QuerySinglePassStereoSupport => Some(0x3b03791bu32),
        Api::NvAPI_D3D12_SetSinglePassStereoMode => Some(0x83556d87u32),
        Api::NvAPI_D3D_QueryMultiViewSupport => Some(0xb6e0a41cu32),
        Api::NvAPI_D3D_SetMultiViewMode => Some(0x8285c8dau32),
        Api::NvAPI_D3D_QueryModifiedWSupport => Some(0xcbf9f4f5u32),
        Api::NvAPI_D3D_SetModifiedWMode => Some(0x06ea4bf4u32),
        Api::NvAPI_D3D12_QueryModifiedWSupport => Some(0x51235248u32),
        Api::NvAPI_D3D12_SetModifiedWMode => Some(0xe1fdaba7u32),
        Api::NvAPI_D3D_CreateLateLatchObject => Some(0x2db27d09u32),
        Api::NvAPI_D3D_QueryLateLatchSupport => Some(0x8ceca0ecu32),
        Api::NvAPI_D3D_RegisterDevice => Some(0x8c02c4d0u32),
        Api::NvAPI_D3D11_MultiDrawInstancedIndirect => Some(0xd4e26bbfu32),
        Api::NvAPI_D3D11_MultiDrawIndexedInstancedIndirect => Some(0x59e890f9u32),
        Api::NvAPI_D3D_ImplicitSLIControl => Some(0x2aede111u32),
        Api::NvAPI_D3D12_UseDriverHeapPriorities => Some(0xf0d978a8u32),
        Api::NvAPI_D3D12_Mosaic_GetCompanionAllocations => Some(0xa46022c7u32),
        Api::NvAPI_D3D12_Mosaic_GetViewportAndGpuPartitions => Some(0xb092b818u32),
        Api::NvAPI_D3D1x_GetGraphicsCapabilities => Some(0x52b1499au32),
        Api::NvAPI_D3D12_GetGraphicsCapabilities => Some(0x01e87354u32),
        Api::NvAPI_D3D11_RSSetExclusiveScissorRects => Some(0xae4d73efu32),
        Api::NvAPI_D3D11_RSSetViewportsPixelShadingRates => Some(0x34f7938fu32),
        Api::NvAPI_D3D11_CreateShadingRateResourceView => Some(0x99ca2dffu32),
        Api::NvAPI_D3D11_RSSetShadingRateResourceView => Some(0x1b0c2f83u32),
        Api::NvAPI_D3D11_RSGetPixelShadingRateSampleOrder => Some(0x092442a1u32),
        Api::NvAPI_D3D11_RSSetPixelShadingRateSampleOrder => Some(0xa942373au32),
        Api::NvAPI_D3D_InitializeVRSHelper => Some(0x4780d70bu32),
        Api::NvAPI_D3D_InitializeNvGazeHandler => Some(0x5b3b7479u32),
        Api::NvAPI_D3D_InitializeSMPAssist => Some(0x42763d0cu32),
        Api::NvAPI_D3D_QuerySMPAssistSupport => Some(0xc57921deu32),
        Api::NvAPI_D3D_GetSleepStatus => Some(0xaef96ca1u32),
        Api::NvAPI_D3D_SetSleepMode => Some(0xac1ca9e0u32),
        Api::NvAPI_D3D_Sleep => Some(0x852cd1d2u32),
        Api::NvAPI_D3D_GetLatency => Some(0x1a587f9cu32),
        Api::NvAPI_D3D_SetLatencyMarker => Some(0xd9984c05u32),
        Api::NvAPI_D3D12_SetAsyncFrameMarker => Some(0x13c98f73u32),
        _ => None,
    }
}

/// The interface id of an API of the listing's part 15 (`None` for the others).
pub open spec fn api_id_part_15(a: Api) -> Option<u32> {
    match a {
        Api::NvAPI_D3D12_NotifyOutOfBandCommandQueue => Some(0x03d6e8cbu32),
        Api::NvAPI_D3D12_CreateCubinComputeShader => Some(0x2a2c79e8u32),
        Api::NvAPI_D3D12_CreateCubinComputeShaderEx => Some(0x3151211bu32),
        Api::NvAPI_D3D12_CreateCubinComputeShaderWithName => Some(0x1dc7261fu32),
        Api::NvAPI_D3D12_LaunchCubinShader => Some(0x5c52bb86u32),
        Api::NvAPI_D3D12_DestroyCubinComputeShader => Some(0x7fb785bau32),
        Api::NvAPI_D3D12_GetCudaTextureObject => Some(0x80403fc9u32),
        Api::NvAPI_D3D12_GetCudaSurfaceObject => Some(0x48f5b2eeu32),
        Api::NvAPI_D3D12_IsFatbinPTXSupported => Some(0x70c07832u32),
        Api::NvAPI_D3D12_CreateCuModule => Some(0xad1a677du32),
        Api::NvAPI_D3D12_EnumFunctionsInModule => Some(0x7ab88d88u32),
        Api::NvAPI_D3D12_CreateCuFunction => Some(0xe2436e22u32),
        Api::NvAPI_D3D12_LaunchCuKernelChain => Some(0x24973538u32),
        Api::NvAPI_D3D12_DestroyCuModule => Some(0x41c65285u32),
        Api::NvAPI_D3D12_DestroyCuFunction => Some(0xdf295ea6u32),
        Api::NvAPI_D3D11_CreateCubinComputeShader => Some(0x0ed98181u32),
        Api::NvAPI_D3D11_CreateCubinComputeShaderEx => Some(0x32c2a0f6u32),
        Api::NvAPI_D3D11_CreateCubinComputeShaderWithName => Some(0xb672be19u32),
        Api::NvAPI_D3D11_LaunchCubinShader => Some(0x427e236du32),
        Api::NvAPI_D3D11_DestroyCubinComputeShader => Some(0x01682c86u32),
        Api::NvAPI_D3D11_IsFatbinPTXSupported => Some(0x6086bd93u32),
        Api::NvAPI_D3D11_CreateUnorderedAccessView => Some(0x74a497a1u32),
        Api::NvAPI_D3D11_CreateShaderResourceView => Some(0x65cb431eu32),
        Api::NvAPI_D3D11_CreateSamplerState => Some(0x89eca416u32),
        Api::NvAPI_D3D11_GetCudaTextureObject => Some(0x9006fa68u32),
        Api::NvAPI_D3D11_GetResourceGPUVirtualAddress => Some(0x1819b423u32),
        Api::NvAPI_D3D12_GetRaytracingCaps => Some(0x85a6c2a0u32),
        Api::NvAPI_D3D12_GetRaytracingOpacityMicromapArrayPrebuildInfo => Some(0x4726d180u32),
        Api::NvAPI_D3D12_SetCreatePipelineStateOptions => Some(0x5c607a27u32),
        Api::NvAPI_D3D12_CheckDriverMatchingIdentifierEx => Some(0xafb237d4u32),
        Api::NvAPI_D3D12_GetRaytracingAccelerationStructurePrebuildInfoEx => Some(0x8d025b77u32),
        Api::NvAPI_D3D12_BuildRaytracingOpacityMicromapArray => Some(0x814f8d11u32),
        Api::NvAPI_D3D12_RelocateRaytracingOpacityMicromapArray => Some(0x0425c538u32),
        Api::NvAPI_D3D12_EmitRaytracingOpacityMicromapArrayPostbuildInfo => Some(0x1d9a39b6u32),
        Api::NvAPI_D3D12_BuildRaytracingAccelerationStructureEx => Some(0xe24ead45u32),
        Api::Unknown_1629A173 => Some(0x1629a173u32),
        Api::Unknown_F1D2777B => Some(0xf1d2777bu32),
        Api::Unknown_8EFC0978 => Some(0x8efc0978u32),
        Api::Unknown_B7BCF50D => Some(0xb7bcf50du32),
        Api::Unknown_36E39E6B => Some(0x36e39e6bu32),
        Api::Unknown_GetROPCount => Some(0xfdc129fau32),
        _ => None,
    }
}

/// The interface id under which each API is queried, by the part of the
/// listing it lies in.
pub open spec fn api_id(a: Api) -> u32 {
    match a {
        Api::NvAPI_Initialize
        | Api::NvAPI_Unload
        | Api::NvAPI_GetErrorMessage
        | Api::NvAPI_GetInterfaceVersionString
        | Api::NvAPI_GetDisplayDriverVersion
        | Api::NvAPI_SYS_GetDriverAndBranchVersion
        | Api::NvAPI_EnumNvidiaDisplayHandle
        | Api::NvAPI_EnumNvidiaUnAttachedDisplayHandle
        | Api::NvAPI_EnumPhysicalGPUs
        | Api::NvAPI_EnumTCCPhysicalGPUs
        | Api::NvAPI_EnumLogicalGPUs
        | Api::NvAPI_GetPhysicalGPUsFromDisplay
        | Api::NvAPI_GetPhysicalGPUFromUnAttachedDisplay
        | Api::NvAPI_CreateDisplayFromUnAttachedDisplay
        | Api::NvAPI_GetLogicalGPUFromDisplay
        | Api::NvAPI_GetLogicalGPUFromPhysicalGPU
        | Api::NvAPI_GetPhysicalGPUsFromLogicalGPU
        | Api::NvAPI_GetAssociatedNvidiaDisplayHandle
        | Api::NvAPI_DISP_GetAssociatedUnAttachedNvidiaDisplayHandle
        | Api::NvAPI_GetAssociatedNvidiaDisplayName
        | Api::NvAPI_GetUnAttachedAssociatedDisplayName
        | Api::NvAPI_EnableHWCursor
        | Api::NvAPI_DisableHWCursor
        | Api::NvAPI_GetVBlankCounter
        | Api::NvAPI_SetRefreshRateOverride
        | Api::NvAPI_GetAssociatedDisplayOutputId
        | Api::NvAPI_GetDisplayPortInfo
        | Api::NvAPI_SetDisplayPort
        | Api::NvAPI_GetHDMISupportInfo
        | Api::NvAPI_DISP_EnumHDMIStereoModes
        | Api::NvAPI_GetInfoFrame
        | Api::NvAPI_SetInfoFrame
        | Api::NvAPI_SetInfoFrameState
        | Api::NvAPI_GetInfoFrameState
        | Api::NvAPI_Disp_InfoFrameControl
        | Api::NvAPI_Disp_ColorControl
        | Api::NvAPI_Disp_GetHdrCapabilities
        | Api::NvAPI_Disp_HdrColorControl
        | Api::NvAPI_DISP_GetVirtualModeData
        | Api::NvAPI_DISP_OverrideDisplayModeList
        | Api::NvAPI_GetDisplayDriverMemoryInfo
        | Api::NvAPI_GetDriverMemoryInfo
        | Api::NvAPI_GetDVCInfo
        | Api::NvAPI_SetDVCLevel
        | Api::NvAPI_GetDVCInfoEx
        | Api::NvAPI_SetDVCLevelEx
        | Api::NvAPI_GetHUEInfo
        | Api::NvAPI_SetHUEAngle
        | Api::NvAPI_GetImageSharpeningInfo
        | Api::NvAPI_SetImageSharpeningLevel => api_id_part_0(a).unwrap(),
        Api::NvAPI_D3D_GetCurrentSLIState
        | Api::NvAPI_D3D9_RegisterResource
        | Api::NvAPI_D3D9_UnregisterResource
        | Api::NvAPI_D3D9_AliasSurfaceAsTexture
        | Api::NvAPI_D3D9_StretchRectEx
        | Api::NvAPI_D3D9_ClearRT
        | Api::NvAPI_D3D_CreateQuery
        | Api::NvAPI_D3D_DestroyQuery
        | Api::NvAPI_D3D_Query_Begin
        | Api::NvAPI_D3D_Query_End
        | Api::NvAPI_D3D_Query_GetData
        | Api::NvAPI_D3D_Query_GetDataSize
        | Api::NvAPI_D3D_Query_GetType
        | Api::NvAPI_D3D_RegisterApp
        | Api::NvAPI_D3D9_CreatePathContextNV
        | Api::NvAPI_D3D9_DestroyPathContextNV
        | Api::NvAPI_D3D9_CreatePathNV
        | Api::NvAPI_D3D9_DeletePathNV
        | Api::NvAPI_D3D9_PathVerticesNV
        | Api::NvAPI_D3D9_PathParameterfNV
        | Api::NvAPI_D3D9_PathParameteriNV
        | Api::NvAPI_D3D9_PathMatrixNV
        | Api::NvAPI_D3D9_PathDepthNV
        | Api::NvAPI_D3D9_PathClearDepthNV
        | Api::NvAPI_D3D9_PathEnableDepthTestNV
        | Api::NvAPI_D3D9_PathEnableColorWriteNV
        | Api::NvAPI_D3D9_DrawPathNV
        | Api::NvAPI_D3D9_GetSurfaceHandle
        | Api::NvAPI_D3D9_GetOverlaySurfaceHandles
        | Api::NvAPI_D3D9_GetTextureHandle
        | Api::NvAPI_D3D9_GpuSyncGetHandleSize
        | Api::NvAPI_D3D9_GpuSyncInit
        | Api::NvAPI_D3D9_GpuSyncEnd
        | Api::NvAPI_D3D9_GpuSyncMapTexBuffer
        | Api::NvAPI_D3D9_GpuSyncMapSurfaceBuffer
        | Api::NvAPI_D3D9_GpuSyncMapVertexBuffer
        | Api::NvAPI_D3D9_GpuSyncMapIndexBuffer
        | Api::NvAPI_D3D9_SetPitchSurfaceCreation
        | Api::NvAPI_D3D9_GpuSyncAcquire
        | Api::NvAPI_D3D9_GpuSyncRelease
        | Api::NvAPI_D3D9_GetCurrentRenderTargetHandle
        | Api::NvAPI_D3D9_GetCurrentZBufferHandle
        | Api::NvAPI_D3D9_GetIndexBufferHandle
        | Api::NvAPI_D3D9_GetVertexBufferHandle
        | Api::NvAPI_D3D9_CreateTexture
        | Api::NvAPI_D3D9_AliasPrimaryAsTexture
        | Api::NvAPI_D3D9_PresentSurfaceToDesktop
        | Api::NvAPI_D3D9_CreateVideoBegin
        | Api::NvAPI_D3D9_CreateVideoEnd
        | Api::NvAPI_D3D9_CreateVideo => api_id_part_1(a).unwrap(),
        Api::NvAPI_D3D9_FreeVideo
        | Api::NvAPI_D3D9_PresentVideo
        | Api::NvAPI_D3D9_VideoSetStereoInfo
        | Api::NvAPI_D3D9_SetGamutData
        | Api::NvAPI_D3D9_SetSurfaceCreationLayout
        | Api::NvAPI_D3D9_GetVideoCapabilities
        | Api::NvAPI_D3D9_QueryVideoInfo
        | Api::NvAPI_D3D9_AliasPrimaryFromDevice
        | Api::NvAPI_D3D9_SetResourceHint
        | Api::NvAPI_D3D9_Lock
        | Api::NvAPI_D3D9_Unlock
        | Api::NvAPI_D3D9_GetVideoState
        | Api::NvAPI_D3D9_SetVideoState
        | Api::NvAPI_D3D9_EnumVideoFeatures
        | Api::NvAPI_D3D9_GetSLIInfo
        | Api::NvAPI_D3D9_SetSLIMode
        | Api::NvAPI_D3D9_QueryAAOverrideMode
        | Api::NvAPI_D3D9_VideoSurfaceEncryptionControl
        | Api::NvAPI_D3D9_DMA
        | Api::NvAPI_D3D9_EnableStereo
        | Api::NvAPI_D3D9_StretchRect
        | Api::NvAPI_D3D9_CreateRenderTarget
        | Api::NvAPI_D3D9_NVFBC_GetStatus
        | Api::NvAPI_D3D9_IFR_SetUpTargetBufferToSys
        | Api::NvAPI_D3D9_GPUBasedCPUSleep
        | Api::NvAPI_D3D9_IFR_TransferRenderTarget
        | Api::NvAPI_D3D9_IFR_SetUpTargetBufferToNV12BLVideoSurface
        | Api::NvAPI_D3D9_IFR_TransferRenderTargetToNV12BLVideoSurface
        | Api::NvAPI_D3D10_AliasPrimaryAsTexture
        | Api::NvAPI_D3D10_SetPrimaryFlipChainCallbacks
        | Api::NvAPI_D3D10_ProcessCallbacks
        | Api::NvAPI_D3D10_GetRenderedCursorAsBitmap
        | Api::NvAPI_D3D10_BeginShareResource
        | Api::NvAPI_D3D10_BeginShareResourceEx
        | Api::NvAPI_D3D10_EndShareResource
        | Api::NvAPI_D3D10_SetDepthBoundsTest
        | Api::NvAPI_D3D10_CreateDevice
        | Api::NvAPI_D3D10_CreateDeviceAndSwapChain
        | Api::NvAPI_D3D11_CreateDevice
        | Api::NvAPI_D3D11_CreateDeviceAndSwapChain
        | Api::NvAPI_D3D11_BeginShareResource
        | Api::NvAPI_D3D11_EndShareResource
        | Api::NvAPI_D3D11_SetDepthBoundsTest
        | Api::NvAPI_D3D11_IsNvShaderExtnOpCodeSupported
        | Api::NvAPI_D3D11_SetNvShaderExtnSlot
        | Api::NvAPI_D3D12_SetNvShaderExtnSlotSpace
        | Api::NvAPI_D3D12_SetNvShaderExtnSlotSpaceLocalThread
        | Api::NvAPI_D3D11_SetNvShaderExtnSlotLocalThread
        | Api::NvAPI_D3D11_BeginUAVOverlapEx
        | Api::NvAPI_D3D11_BeginUAVOverlap => api_id_part_2(a).unwrap(),
        Api::NvAPI_D3D11_EndUAVOverlap
        | Api::NvAPI_D3D11_GetResourceHandle
        | Api::NvAPI_GPU_GetShaderPipeCount
        | Api::NvAPI_GPU_GetShaderSubPipeCount
        | Api::NvAPI_GPU_GetPartitionCount
        | Api::NvAPI_GPU_GetMemPartitionMask
        | Api::NvAPI_GPU_GetTPCMask
        | Api::NvAPI_GPU_GetSMMask
        | Api::NvAPI_GPU_GetTotalTPCCount
        | Api::NvAPI_GPU_GetTotalSMCount
        | Api::NvAPI_GPU_GetTotalSPCount
        | Api::NvAPI_GPU_GetGpuCoreCount
        | Api::NvAPI_GPU_GetAllOutputs
        | Api::NvAPI_GPU_GetConnectedOutputs
        | Api::NvAPI_GPU_GetConnectedSLIOutputs
        | Api::NvAPI_GPU_GetConnectedDisplayIds
        | Api::NvAPI_GPU_GetAllDisplayIds
        | Api::NvAPI_GPU_GetConnectedOutputsWithLidState
        | Api::NvAPI_GPU_GetConnectedSLIOutputsWithLidState
        | Api::NvAPI_GPU_GetSystemType
        | Api::NvAPI_GPU_GetActiveOutputs
        | Api::NvAPI_GPU_GetEDID
        | Api::NvAPI_GPU_SetEDID
        | Api::NvAPI_GPU_GetOutputType
        | Api::NvAPI_GPU_GetDeviceDisplayMode
        | Api::NvAPI_GPU_GetFlatPanelInfo
        | Api::NvAPI_GPU_ValidateOutputCombination
        | Api::NvAPI_GPU_GetConnectorInfo
        | Api::NvAPI_GPU_GetFullName
        | Api::NvAPI_GPU_GetPCIIdentifiers
        | Api::NvAPI_GPU_GetGPUType
        | Api::NvAPI_GPU_GetBusType
        | Api::NvAPI_GPU_GetBusId
        | Api::NvAPI_GPU_GetBusSlotId
        | Api::NvAPI_GPU_GetIRQ
        | Api::NvAPI_GPU_GetVbiosRevision
        | Api::NvAPI_GPU_GetVbiosOEMRevision
        | Api::NvAPI_GPU_GetVbiosVersionString
        | Api::NvAPI_GPU_GetAGPAperture
        | Api::NvAPI_GPU_GetCurrentAGPRate
        | Api::NvAPI_GPU_GetCurrentPCIEDownstreamWidth
        | Api::NvAPI_GPU_GetPhysicalFrameBufferSize
        | Api::NvAPI_GPU_GetVirtualFrameBufferSize
        | Api::NvAPI_GPU_GetQuadroStatus
        | Api::NvAPI_GPU_GetBoardInfo
        | Api::NvAPI_GPU_GetRamType
        | Api::NvAPI_GPU_GetFBWidthAndLocation
        | Api::NvAPI_GPU_GetAllClockFrequencies
        | Api::NvAPI_GPU_GetPerfClocks
        | Api::NvAPI_GPU_SetPerfClocks => api_id_part_3(a).unwrap(),
        Api::NvAPI_GPU_GetCoolerSettings
        | Api::NvAPI_GPU_SetCoolerLevels
        | Api::NvAPI_GPU_RestoreCoolerSettings
        | Api::NvAPI_GPU_GetCoolerPolicyTable
        | Api::NvAPI_GPU_SetCoolerPolicyTable
        | Api::NvAPI_GPU_RestoreCoolerPolicyTable
        | Api::NvAPI_GPU_GetPstatesInfo
        | Api::NvAPI_GPU_GetPstatesInfoEx
        | Api::NvAPI_GPU_SetPstatesInfo
        | Api::NvAPI_GPU_GetPstates20
        | Api::NvAPI_GPU_SetPstates20
        | Api::NvAPI_GPU_GetCurrentPstate
        | Api::NvAPI_GPU_GetPstateClientLimits
        | Api::NvAPI_GPU_SetPstateClientLimits
        | Api::NvAPI_GPU_EnableOverclockedPstates
        | Api::NvAPI_GPU_EnableDynamicPstates
        | Api::NvAPI_GPU_GetDynamicPstatesInfoEx
        | Api::NvAPI_GPU_GetVoltages
        | Api::NvAPI_GPU_GetThermalSettings
        | Api::NvAPI_GPU_SetDitherControl
        | Api::NvAPI_GPU_GetDitherControl
        | Api::NvAPI_GPU_GetColorSpaceConversion
        | Api::NvAPI_GPU_SetColorSpaceConversion
        | Api::NvAPI_GetTVOutputInfo
        | Api::NvAPI_GetTVEncoderControls
        | Api::NvAPI_SetTVEncoderControls
        | Api::NvAPI_GetTVOutputBorderColor
        | Api::NvAPI_SetTVOutputBorderColor
        | Api::NvAPI_GetDisplayPosition
        | Api::NvAPI_SetDisplayPosition
        | Api::NvAPI_GetValidGpuTopologies
        | Api::NvAPI_GetInvalidGpuTopologies
        | Api::NvAPI_SetGpuTopologies
        | Api::NvAPI_GPU_GetPerGpuTopologyStatus
        | Api::NvAPI_SYS_GetChipSetTopologyStatus
        | Api::NvAPI_GPU_Get_DisplayPort_DongleInfo
        | Api::NvAPI_I2CRead
        | Api::NvAPI_I2CWrite
        | Api::NvAPI_I2CWriteEx
        | Api::NvAPI_I2CReadEx
        | Api::NvAPI_GPU_GetPowerMizerInfo
        | Api::NvAPI_GPU_SetPowerMizerInfo
        | Api::NvAPI_GPU_GetVoltageDomainsStatus
        | Api::NvAPI_GPU_ClientPowerTopologyGetInfo
        | Api::NvAPI_GPU_ClientPowerTopologyGetStatus
        | Api::NvAPI_GPU_ClientPowerPoliciesGetInfo
        | Api::NvAPI_GPU_ClientPowerPoliciesGetStatus
        | Api::NvAPI_GPU_ClientPowerPoliciesSetStatus
        | Api::NvAPI_GPU_WorkstationFeatureSetup
        | Api::NvAPI_GPU_WorkstationFeatureQuery => api_id_part_4(a).unwrap(),
        Api::NvAPI_GPU_QueryWorkstationFeatureSupport
        | Api::NvAPI_SYS_GetChipSetInfo
        | Api::NvAPI_SYS_GetLidAndDockInfo
        | Api::NvAPI_OGL_ExpertModeSet
        | Api::NvAPI_OGL_ExpertModeGet
        | Api::NvAPI_OGL_ExpertModeDefaultsSet
        | Api::NvAPI_OGL_ExpertModeDefaultsGet
        | Api::NvAPI_SetDisplaySettings
        | Api::NvAPI_GetDisplaySettings
        | Api::NvAPI_GetTiming
        | Api::NvAPI_DISP_GetTiming
        | Api::NvAPI_DISP_GetMonitorCapabilities
        | Api::NvAPI_DISP_GetMonitorColorCapabilities
        | Api::NvAPI_DISP_EnumCustomDisplay
        | Api::NvAPI_DISP_TryCustomDisplay
        | Api::NvAPI_DISP_DeleteCustomDisplay
        | Api::NvAPI_DISP_SaveCustomDisplay
        | Api::NvAPI_DISP_RevertCustomDisplayTrial
        | Api::NvAPI_EnumCustomDisplay
        | Api::NvAPI_TryCustomDisplay
        | Api::NvAPI_RevertCustomDisplayTrial
        | Api::NvAPI_DeleteCustomDisplay
        | Api::NvAPI_SaveCustomDisplay
        | Api::NvAPI_QueryUnderscanCap
        | Api::NvAPI_EnumUnderscanConfig
        | Api::NvAPI_DeleteUnderscanConfig
        | Api::NvAPI_SetUnderscanConfig
        | Api::NvAPI_GetDisplayFeatureConfig
        | Api::NvAPI_SetDisplayFeatureConfig
        | Api::NvAPI_GetDisplayFeatureConfigDefaults
        | Api::NvAPI_SetView
        | Api::NvAPI_GetView
        | Api::NvAPI_SetViewEx
        | Api::NvAPI_GetViewEx
        | Api::NvAPI_GetSupportedViews
        | Api::NvAPI_GetHDCPLinkParameters
        | Api::NvAPI_Disp_DpAuxChannelControl
        | Api::NvAPI_SetHybridMode
        | Api::NvAPI_GetHybridMode
        | Api::NvAPI_Coproc_GetCoprocStatus
        | Api::NvAPI_Coproc_SetCoprocInfoFlagsEx
        | Api::NvAPI_Coproc_GetCoprocInfoFlagsEx
        | Api::NvAPI_Coproc_NotifyCoprocPowerState
        | Api::NvAPI_Coproc_GetApplicationCoprocInfo
        | Api::NvAPI_GetVideoState
        | Api::NvAPI_SetVideoState
        | Api::NvAPI_SetFrameRateNotify
        | Api::NvAPI_SetPVExtName
        | Api::NvAPI_GetPVExtName
        | Api::NvAPI_SetPVExtProfile => api_id_part_5(a).unwrap(),
        Api::NvAPI_GetPVExtProfile
        | Api::NvAPI_VideoSetStereoInfo
        | Api::NvAPI_VideoGetStereoInfo
        | Api::NvAPI_Mosaic_GetSupportedTopoInfo
        | Api::NvAPI_Mosaic_GetTopoGroup
        | Api::NvAPI_Mosaic_GetOverlapLimits
        | Api::NvAPI_Mosaic_SetCurrentTopo
        | Api::NvAPI_Mosaic_GetCurrentTopo
        | Api::NvAPI_Mosaic_EnableCurrentTopo
        | Api::NvAPI_Mosaic_SetGridTopology
        | Api::NvAPI_Mosaic_GetMosaicCapabilities
        | Api::NvAPI_Mosaic_GetDisplayCapabilities
        | Api::NvAPI_Mosaic_EnumGridTopologies
        | Api::NvAPI_Mosaic_GetDisplayViewportsByResolution
        | Api::NvAPI_Mosaic_GetMosaicViewports
        | Api::NvAPI_Mosaic_SetDisplayGrids
        | Api::NvAPI_Mosaic_ValidateDisplayGridsWithSLI
        | Api::NvAPI_Mosaic_ValidateDisplayGrids
        | Api::NvAPI_Mosaic_EnumDisplayModes
        | Api::NvAPI_Mosaic_ChooseGpuTopologies
        | Api::NvAPI_Mosaic_EnumDisplayGrids
        | Api::NvAPI_GetSupportedMosaicTopologies
        | Api::NvAPI_GetCurrentMosaicTopology
        | Api::NvAPI_SetCurrentMosaicTopology
        | Api::NvAPI_EnableCurrentMosaicTopology
        | Api::NvAPI_GSync_EnumSyncDevices
        | Api::NvAPI_GSync_QueryCapabilities
        | Api::NvAPI_GSync_GetTopology
        | Api::NvAPI_GSync_SetSyncStateSettings
        | Api::NvAPI_GSync_GetControlParameters
        | Api::NvAPI_GSync_SetControlParameters
        | Api::NvAPI_GSync_AdjustSyncDelay
        | Api::NvAPI_GSync_GetSyncStatus
        | Api::NvAPI_GSync_GetStatusParameters
        | Api::NvAPI_QueryNonMigratableApps
        | Api::NvAPI_GPU_QueryActiveApps
        | Api::NvAPI_Hybrid_QueryUnblockedNonMigratableApps
        | Api::NvAPI_Hybrid_QueryBlockedMigratableApps
        | Api::NvAPI_Hybrid_SetAppMigrationState
        | Api::NvAPI_Hybrid_IsAppMigrationStateChangeable
        | Api::NvAPI_GPU_GPIOQueryLegalPins
        | Api::NvAPI_GPU_GPIOReadFromPin
        | Api::NvAPI_GPU_GPIOWriteToPin
        | Api::NvAPI_GPU_GetHDCPSupportStatus
        | Api::NvAPI_SetTopologyFocusDisplayAndView
        | Api::NvAPI_Stereo_CreateConfigurationProfileRegistryKey
        | Api::NvAPI_Stereo_DeleteConfigurationProfileRegistryKey
        | Api::NvAPI_Stereo_SetConfigurationProfileValue
        | Api::NvAPI_Stereo_DeleteConfigurationProfileValue
        | Api::NvAPI_Stereo_Enable => api_id_part_6(a).unwrap(),
        Api::NvAPI_Stereo_Disable
        | Api::NvAPI_Stereo_IsEnabled
        | Api::NvAPI_Stereo_GetStereoCaps
        | Api::NvAPI_Stereo_GetStereoSupport
        | Api::NvAPI_Stereo_CreateHandleFromIUnknown
        | Api::NvAPI_Stereo_DestroyHandle
        | Api::NvAPI_Stereo_Activate
        | Api::NvAPI_Stereo_Deactivate
        | Api::NvAPI_Stereo_IsActivated
        | Api::NvAPI_Stereo_GetSeparation
        | Api::NvAPI_Stereo_SetSeparation
        | Api::NvAPI_Stereo_DecreaseSeparation
        | Api::NvAPI_Stereo_IncreaseSeparation
        | Api::NvAPI_Stereo_GetConvergence
        | Api::NvAPI_Stereo_SetConvergence
        | Api::NvAPI_Stereo_DecreaseConvergence
        | Api::NvAPI_Stereo_IncreaseConvergence
        | Api::NvAPI_Stereo_GetFrustumAdjustMode
        | Api::NvAPI_Stereo_SetFrustumAdjustMode
        | Api::NvAPI_Stereo_CaptureJpegImage
        | Api::NvAPI_Stereo_InitActivation
        | Api::NvAPI_Stereo_Trigger_Activation
        | Api::NvAPI_Stereo_CapturePngImage
        | Api::NvAPI_Stereo_ReverseStereoBlitControl
        | Api::NvAPI_Stereo_SetNotificationMessage
        | Api::NvAPI_Stereo_SetActiveEye
        | Api::NvAPI_Stereo_SetDriverMode
        | Api::NvAPI_Stereo_GetEyeSeparation
        | Api::NvAPI_Stereo_IsWindowedModeSupported
        | Api::NvAPI_Stereo_AppHandShake
        | Api::NvAPI_Stereo_HandShake_Trigger_Activation
        | Api::NvAPI_Stereo_HandShake_Message_Control
        | Api::NvAPI_Stereo_SetSurfaceCreationMode
        | Api::NvAPI_Stereo_GetSurfaceCreationMode
        | Api::NvAPI_Stereo_Debug_WasLastDrawStereoized
        | Api::NvAPI_Stereo_ForceToScreenDepth
        | Api::NvAPI_Stereo_SetVertexShaderConstantF
        | Api::NvAPI_Stereo_SetVertexShaderConstantB
        | Api::NvAPI_Stereo_SetVertexShaderConstantI
        | Api::NvAPI_Stereo_GetVertexShaderConstantF
        | Api::NvAPI_Stereo_GetVertexShaderConstantB
        | Api::NvAPI_Stereo_GetVertexShaderConstantI
        | Api::NvAPI_Stereo_SetPixelShaderConstantF
        | Api::NvAPI_Stereo_SetPixelShaderConstantB
        | Api::NvAPI_Stereo_SetPixelShaderConstantI
        | Api::NvAPI_Stereo_GetPixelShaderConstantF
        | Api::NvAPI_Stereo_GetPixelShaderConstantB
        | Api::NvAPI_Stereo_GetPixelShaderConstantI
        | Api::NvAPI_Stereo_SetDefaultProfile
        | Api::NvAPI_Stereo_GetDefaultProfile => api_id_part_7(a).unwrap(),
        Api::NvAPI_Stereo_Is3DCursorSupported
        | Api::NvAPI_Stereo_GetCursorSeparation
        | Api::NvAPI_Stereo_SetCursorSeparation
        | Api::NvAPI_VIO_GetCapabilities
        | Api::NvAPI_VIO_Open
        | Api::NvAPI_VIO_Close
        | Api::NvAPI_VIO_Status
        | Api::NvAPI_VIO_SyncFormatDetect
        | Api::NvAPI_VIO_GetConfig
        | Api::NvAPI_VIO_SetConfig
        | Api::NvAPI_VIO_SetCSC
        | Api::NvAPI_VIO_GetCSC
        | Api::NvAPI_VIO_SetGamma
        | Api::NvAPI_VIO_GetGamma
        | Api::NvAPI_VIO_SetSyncDelay
        | Api::NvAPI_VIO_GetSyncDelay
        | Api::NvAPI_VIO_GetPCIInfo
        | Api::NvAPI_VIO_IsRunning
        | Api::NvAPI_VIO_Start
        | Api::NvAPI_VIO_Stop
        | Api::NvAPI_VIO_IsFrameLockModeCompatible
        | Api::NvAPI_VIO_EnumDevices
        | Api::NvAPI_VIO_QueryTopology
        | Api::NvAPI_VIO_EnumSignalFormats
        | Api::NvAPI_VIO_EnumDataFormats
        | Api::NvAPI_GPU_GetTachReading
        | Api::NvAPI_3D_GetProperty
        | Api::NvAPI_3D_SetProperty
        | Api::NvAPI_3D_GetPropertyRange
        | Api::NvAPI_GPS_GetPowerSteeringStatus
        | Api::NvAPI_GPS_SetPowerSteeringStatus
        | Api::NvAPI_GPS_SetVPStateCap
        | Api::NvAPI_GPS_GetVPStateCap
        | Api::NvAPI_GPS_GetThermalLimit
        | Api::NvAPI_GPS_SetThermalLimit
        | Api::NvAPI_GPS_GetPerfSensors
        | Api::NvAPI_SYS_GetDisplayIdFromGpuAndOutputId
        | Api::NvAPI_SYS_GetGpuAndOutputIdFromDisplayId
        | Api::NvAPI_GPU_ClientRegisterForUtilizationSampleUpdates
        | Api::NvAPI_SYS_GetDisplayDriverInfo
        | Api::NvAPI_SYS_GetPhysicalGpuFromDisplayId
        | Api::NvAPI_DISP_GetDisplayIdByDisplayName
        | Api::NvAPI_DISP_GetGDIPrimaryDisplayId
        | Api::NvAPI_DISP_GetDisplayConfig
        | Api::NvAPI_DISP_SetDisplayConfig
        | Api::NvAPI_DISP_GetAdaptiveSyncData
        | Api::NvAPI_DISP_SetAdaptiveSyncData
        | Api::NvAPI_DISP_GetVirtualRefreshRateData
        | Api::NvAPI_DISP_SetVirtualRefreshRateData
        | Api::NvAPI_DISP_SetPreferredStereoDisplay => api_id_part_8(a).unwrap(),
        Api::NvAPI_DISP_GetPreferredStereoDisplay
        | Api::NvAPI_DISP_GetNvManagedDedicatedDisplays
        | Api::NvAPI_DISP_AcquireDedicatedDisplay
        | Api::NvAPI_DISP_ReleaseDedicatedDisplay
        | Api::NvAPI_GPU_GetPixelClockRange
        | Api::NvAPI_GPU_SetPixelClockRange
        | Api::NvAPI_GPU_GetECCStatusInfo
        | Api::NvAPI_GPU_GetECCErrorInfo
        | Api::NvAPI_GPU_ResetECCErrorInfo
        | Api::NvAPI_GPU_GetECCConfigurationInfo
        | Api::NvAPI_GPU_SetECCConfiguration
        | Api::NvAPI_D3D1x_CreateSwapChain
        | Api::NvAPI_D3D9_CreateSwapChain
        | Api::NvAPI_D3D_SetFPSIndicatorState
        | Api::NvAPI_D3D9_Present
        | Api::NvAPI_D3D9_QueryFrameCount
        | Api::NvAPI_D3D9_ResetFrameCount
        | Api::NvAPI_D3D9_QueryMaxSwapGroup
        | Api::NvAPI_D3D9_QuerySwapGroup
        | Api::NvAPI_D3D9_JoinSwapGroup
        | Api::NvAPI_D3D9_BindSwapBarrier
        | Api::NvAPI_D3D1x_Present
        | Api::NvAPI_D3D1x_QueryFrameCount
        | Api::NvAPI_D3D1x_ResetFrameCount
        | Api::NvAPI_D3D1x_QueryMaxSwapGroup
        | Api::NvAPI_D3D1x_QuerySwapGroup
        | Api::NvAPI_D3D1x_JoinSwapGroup
        | Api::NvAPI_D3D1x_BindSwapBarrier
        | Api::NvAPI_SYS_VenturaGetState
        | Api::NvAPI_SYS_VenturaSetState
        | Api::NvAPI_SYS_VenturaGetCoolingBudget
        | Api::NvAPI_SYS_VenturaSetCoolingBudget
        | Api::NvAPI_SYS_VenturaGetPowerReading
        | Api::NvAPI_DISP_GetDisplayBlankingState
        | Api::NvAPI_DISP_SetDisplayBlankingState
        | Api::NvAPI_DRS_CreateSession
        | Api::NvAPI_DRS_DestroySession
        | Api::NvAPI_DRS_LoadSettings
        | Api::NvAPI_DRS_SaveSettings
        | Api::NvAPI_DRS_LoadSettingsFromFile
        | Api::NvAPI_DRS_SaveSettingsToFile
        | Api::NvAPI_DRS_CreateProfile
        | Api::NvAPI_DRS_DeleteProfile
        | Api::NvAPI_DRS_SetCurrentGlobalProfile
        | Api::NvAPI_DRS_GetCurrentGlobalProfile
        | Api::NvAPI_DRS_GetProfileInfo
        | Api::NvAPI_DRS_SetProfileInfo
        | Api::NvAPI_DRS_FindProfileByName
        | Api::NvAPI_DRS_EnumProfiles
        | Api::NvAPI_DRS_GetNumProfiles => api_id_part_9(a).unwrap(),
        Api::NvAPI_DRS_CreateApplication
        | Api::NvAPI_DRS_DeleteApplicationEx
        | Api::NvAPI_DRS_DeleteApplication
        | Api::NvAPI_DRS_GetApplicationInfo
        | Api::NvAPI_DRS_EnumApplications
        | Api::NvAPI_DRS_FindApplicationByName
        | Api::NvAPI_DRS_SetSetting
        | Api::NvAPI_DRS_GetSetting
        | Api::NvAPI_DRS_EnumSettings
        | Api::NvAPI_DRS_EnumAvailableSettingIds
        | Api::NvAPI_DRS_EnumAvailableSettingValues
        | Api::NvAPI_DRS_GetSettingIdFromName
        | Api::NvAPI_DRS_GetSettingNameFromId
        | Api::NvAPI_DRS_DeleteProfileSetting
        | Api::NvAPI_DRS_RestoreAllDefaults
        | Api::NvAPI_DRS_RestoreProfileDefault
        | Api::NvAPI_DRS_RestoreProfileDefaultSetting
        | Api::NvAPI_DRS_GetBaseProfile
        | Api::NvAPI_Event_RegisterCallback
        | Api::NvAPI_Event_UnregisterCallback
        | Api::NvAPI_GPU_GetCurrentThermalLevel
        | Api::NvAPI_GPU_GetCurrentFanSpeedLevel
        | Api::NvAPI_GPU_SetScanoutIntensity
        | Api::NvAPI_GPU_GetScanoutIntensityState
        | Api::NvAPI_GPU_SetScanoutWarping
        | Api::NvAPI_GPU_GetScanoutWarpingState
        | Api::NvAPI_GPU_SetScanoutCompositionParameter
        | Api::NvAPI_GPU_GetScanoutCompositionParameter
        | Api::NvAPI_GPU_GetScanoutConfiguration
        | Api::NvAPI_GPU_GetScanoutConfigurationEx
        | Api::NvAPI_DISP_SetHCloneTopology
        | Api::NvAPI_DISP_GetHCloneTopology
        | Api::NvAPI_DISP_ValidateHCloneTopology
        | Api::NvAPI_GPU_GetAdapterIdFromPhysicalGpu
        | Api::NvAPI_GPU_GetVirtualizationInfo
        | Api::NvAPI_GPU_GetLogicalGpuInfo
        | Api::NvAPI_GPU_GetLicensableFeatures
        | Api::NvAPI_GPU_GetVRReadyData
        | Api::NvAPI_GPU_GetPerfDecreaseInfo
        | Api::NvAPI_GPU_QueryIlluminationSupport
        | Api::NvAPI_GPU_GetIllumination
        | Api::NvAPI_GPU_SetIllumination
        | Api::NvAPI_D3D1x_IFR_SetUpTargetBufferToSys
        | Api::NvAPI_D3D1x_IFR_TransferRenderTarget
        | Api::NvAPI_GetPhysicalGPUFromDisplay
        | Api::NvAPI_GetPhysicalGPUFromGPUID
        | Api::NvAPI_GetGPUIDfromPhysicalGPU
        | Api::NvAPI_GetInfoFrameStatePvt
        | Api::NvAPI_GPU_GetMemoryInfo
        | Api::NvAPI_GPU_GetMemoryInfoEx => api_id_part_10(a).unwrap(),
        Api::NvAPI_LoadMicrocode
        | Api::NvAPI_GetLoadedMicrocodePrograms
        | Api::NvAPI_GetDisplayDriverBuildTitle
        | Api::NvAPI_GetDisplayDriverCompileType
        | Api::NvAPI_GetDisplayDriverSecurityLevel
        | Api::NvAPI_AccessDisplayDriverRegistry
        | Api::NvAPI_GetDisplayDriverRegistryPath
        | Api::NvAPI_GetUnAttachedDisplayDriverRegistryPath
        | Api::NvAPI_GPU_GetRawFuseData
        | Api::NvAPI_GPU_GetFoundry
        | Api::NvAPI_GPU_GetVPECount
        | Api::NvAPI_GPU_GetTargetID
        | Api::NvAPI_GPU_GetShortName
        | Api::NvAPI_GPU_GetVbiosMxmVersion
        | Api::NvAPI_GPU_GetVbiosImage
        | Api::NvAPI_GPU_GetMXMBlock
        | Api::NvAPI_GPU_SetCurrentPCIEWidth
        | Api::NvAPI_GPU_SetCurrentPCIESpeed
        | Api::NvAPI_GPU_GetPCIEInfo
        | Api::NvAPI_GPU_ClearPCIELinkErrorInfo
        | Api::NvAPI_GPU_ClearPCIELinkAERInfo
        | Api::NvAPI_GPU_GetFrameBufferCalibrationLockFailures
        | Api::NvAPI_GPU_SetDisplayUnderflowMode
        | Api::NvAPI_GPU_GetDisplayUnderflowStatus
        | Api::NvAPI_GPU_GetBarInfo
        | Api::NvAPI_GPU_GetPSFloorSweepStatus
        | Api::NvAPI_GPU_GetVSFloorSweepStatus
        | Api::NvAPI_GPU_GetSerialNumber
        | Api::NvAPI_GPU_GetManufacturingInfo
        | Api::NvAPI_GPU_GetRamConfigStrap
        | Api::NvAPI_GPU_GetRamBusWidth
        | Api::NvAPI_GPU_GetRamBankCount
        | Api::NvAPI_GPU_GetArchInfo
        | Api::NvAPI_GPU_GetExtendedMinorRevision
        | Api::NvAPI_GPU_GetSampleType
        | Api::NvAPI_GPU_GetHardwareQualType
        | Api::NvAPI_GPU_GetAllClocks
        | Api::NvAPI_GPU_SetClocks
        | Api::NvAPI_GPU_SetPerfHybridMode
        | Api::NvAPI_GPU_GetPerfHybridMode
        | Api::NvAPI_GPU_GetHybridControllerInfo
        | Api::NvAPI_RestartDisplayDriver
        | Api::NvAPI_GPU_GetAllGpusOnSameBoard
        | Api::NvAPI_SetTopologyDisplayGPU
        | Api::NvAPI_GetTopologyDisplayGPU
        | Api::NvAPI_SYS_GetSliApprovalCookie
        | Api::NvAPI_CreateUnAttachedDisplayFromDisplay
        | Api::NvAPI_GetDriverModel
        | Api::NvAPI_GPU_CudaEnumComputeCapableGpus
        | Api::NvAPI_GPU_PhysxSetState => api_id_part_11(a).unwrap(),
        Api::NvAPI_GPU_PhysxQueryRecommendedState
        | Api::NvAPI_GPU_GetDeepIdleState
        | Api::NvAPI_GPU_SetDeepIdleState
        | Api::NvAPI_GetScalingCaps
        | Api::NvAPI_GPU_GetThermalTable
        | Api::NvAPI_SYS_SetPostOutput
        | Api::NvAPI_GPU_PerfPoliciesGetInfo
        | Api::NvAPI_GPU_PerfPoliciesGetStatus
        | Api::NvAPI_GPU_ClientThermalPoliciesGetInfo
        | Api::NvAPI_GPU_ClientThermalPoliciesGetStatus
        | Api::NvAPI_GPU_ClientThermalPoliciesSetStatus
        | Api::NvAPI_GPU_ClientVoltRailsGetStatus
        | Api::NvAPI_GPU_GetVoltageStep
        | Api::NvAPI_GPU_ClockClientClkDomainsGetInfo
        | Api::NvAPI_GPU_ClockClientClkVfPointsGetInfo
        | Api::NvAPI_GPU_ClockClientClkVfPointsGetControl
        | Api::NvAPI_GPU_ClockClientClkVfPointsSetControl
        | Api::NvAPI_GPU_ClockClientClkVfPointsGetStatus
        | Api::NvAPI_GPU_PerfClientLimitsGetStatus
        | Api::NvAPI_GPU_PerfClientLimitsSetStatus
        | Api::NvAPI_GPU_ClientVoltRailsGetControl
        | Api::NvAPI_GPU_ClientVoltRailsSetControl
        | Api::NvAPI_GPU_ClientFanArbitersGetControl
        | Api::NvAPI_GPU_ClientFanArbitersGetInfo
        | Api::NvAPI_GPU_ClientFanArbitersGetStatus
        | Api::NvAPI_GPU_ClientFanArbitersSetControl
        | Api::NvAPI_GPU_ClientFanCoolersGetControl
        | Api::NvAPI_GPU_ClientFanCoolersGetInfo
        | Api::NvAPI_GPU_ClientFanCoolersGetStatus
        | Api::NvAPI_GPU_ClientFanCoolersSetControl
        | Api::NvAPI_GPU_ClientFanPoliciesGetControl
        | Api::NvAPI_GPU_ClientFanPoliciesGetInfo
        | Api::NvAPI_GPU_ClientFanPoliciesSetControl
        | Api::NvAPI_GPU_ClientGetLastOcScannerResults
        | Api::NvAPI_GPU_ClientGetOcConfig
        | Api::NvAPI_GPU_ClientIllumDevicesGetInfo
        | Api::NvAPI_GPU_ClientIllumDevicesGetControl
        | Api::NvAPI_GPU_ClientIllumDevicesSetControl
        | Api::NvAPI_GPU_ClientIllumZonesGetControl
        | Api::NvAPI_GPU_ClientIllumZonesGetInfo
        | Api::NvAPI_GPU_ClientIllumZonesSetControl
        | Api::NvAPI_GPU_ClientRegisterForOcConfigChangedUpdates
        | Api::NvAPI_GPU_ClientRegisterForOcScannerStatusUpdates
        | Api::NvAPI_GPU_ClientRevertOc
        | Api::NvAPI_GPU_ClientStartOcScanner
        | Api::NvAPI_GPU_ClientStopOcScanner
        | Api::NvAPI_GPU_GetUsages
        | Api::NvAPI_GPU_GetRamMaker
        | Api::NvAPI_D3D_GetObjectHandleForResource
        | Api::NvAPI_D3D_SetResourceHint => api_id_part_12(a).unwrap(),
        Api::NvAPI_D3D_BeginResourceRendering
        | Api::NvAPI_D3D_EndResourceRendering
        | Api::NvAPI_D3D12_QueryPresentBarrierSupport
        | Api::NvAPI_D3D12_CreatePresentBarrierClient
        | Api::NvAPI_D3D12_RegisterPresentBarrierResources
        | Api::NvAPI_DestroyPresentBarrierClient
        | Api::NvAPI_JoinPresentBarrier
        | Api::NvAPI_LeavePresentBarrier
        | Api::NvAPI_QueryPresentBarrierFrameStatistics
        | Api::NvAPI_D3D12_CreateDDisplayPresentBarrierClient
        | Api::NvAPI_D3D11_CreateRasterizerState
        | Api::NvAPI_D3D_ConfigureAnsel
        | Api::NvAPI_D3D11_CreateTiledTexture2DArray
        | Api::NvAPI_D3D11_CheckFeatureSupport
        | Api::NvAPI_D3D11_CreateImplicitMSAATexture2D
        | Api::NvAPI_D3D12_CreateCommittedImplicitMSAATexture2D
        | Api::NvAPI_D3D11_ResolveSubresourceRegion
        | Api::NvAPI_D3D12_ResolveSubresourceRegion
        | Api::NvAPI_D3D11_TiledTexture2DArrayGetDesc
        | Api::NvAPI_D3D11_UpdateTileMappings
        | Api::NvAPI_D3D11_CopyTileMappings
        | Api::NvAPI_D3D11_TiledResourceBarrier
        | Api::NvAPI_D3D11_AliasMSAATexture2DAsNonMSAA
        | Api::NvAPI_D3D11_CreateGeometryShaderEx_2
        | Api::NvAPI_D3D11_CreateVertexShaderEx
        | Api::NvAPI_D3D11_CreateHullShaderEx
        | Api::NvAPI_D3D11_CreateDomainShaderEx
        | Api::NvAPI_D3D11_CreatePixelShaderEx_2
        | Api::NvAPI_D3D11_CreateFastGeometryShaderExplicit
        | Api::NvAPI_D3D11_CreateFastGeometryShader
        | Api::NvAPI_D3D11_DecompressView
        | Api::NvAPI_D3D12_CreateGraphicsPipelineState
        | Api::NvAPI_D3D12_CreateComputePipelineState
        | Api::NvAPI_D3D12_SetDepthBoundsTestValues
        | Api::NvAPI_D3D12_CreateReservedResource
        | Api::NvAPI_D3D12_CreateHeap
        | Api::NvAPI_D3D12_CreateHeap2
        | Api::NvAPI_D3D12_QueryCpuVisibleVidmem
        | Api::NvAPI_D3D12_ReservedResourceGetDesc
        | Api::NvAPI_D3D12_UpdateTileMappings
        | Api::NvAPI_D3D12_CopyTileMappings
        | Api::NvAPI_D3D12_ResourceAliasingBarrier
        | Api::NvAPI_D3D12_CaptureUAVInfo
        | Api::NvAPI_D3D11_GetResourceGPUVirtualAddressEx
        | Api::NvAPI_D3D11_EnumerateMetaCommands
        | Api::NvAPI_D3D11_CreateMetaCommand
        | Api::NvAPI_D3D11_InitializeMetaCommand
        | Api::NvAPI_D3D11_ExecuteMetaCommand
        | Api::NvAPI_D3D12_EnumerateMetaCommands
        | Api::NvAPI_D3D12_CreateMetaCommand => api_id_part_13(a).unwrap(),
        Api::NvAPI_D3D12_InitializeMetaCommand
        | Api::NvAPI_D3D12_ExecuteMetaCommand
        | Api::NvAPI_D3D12_CreateCommittedResource
        | Api::NvAPI_D3D12_GetCopyableFootprints
        | Api::NvAPI_D3D12_CopyTextureRegion
        | Api::NvAPI_D3D12_IsNvShaderExtnOpCodeSupported
        | Api::NvAPI_D3D12_GetOptimalThreadCountForMesh
        | Api::NvAPI_D3D_IsGSyncCapable
        | Api::NvAPI_D3D_IsGSyncActive
        | Api::NvAPI_D3D1x_DisableShaderDiskCache
        | Api::NvAPI_D3D11_MultiGPU_GetCaps
        | Api::NvAPI_D3D11_MultiGPU_Init
        | Api::NvAPI_D3D11_CreateMultiGPUDevice
        | Api::NvAPI_D3D_QuerySinglePassStereoSupport
        | Api::NvAPI_D3D_SetSinglePassStereoMode
        | Api::NvAPI_D3D12_QuerySinglePassStereoSupport
        | Api::NvAPI_D3D12_SetSinglePassStereoMode
        | Api::NvAPI_D3D_QueryMultiViewSupport
        | Api::NvAPI_D3D_SetMultiViewMode
        | Api::NvAPI_D3D_QueryModifiedWSupport
        | Api::NvAPI_D3D_SetModifiedWMode
        | Api::NvAPI_D3D12_QueryModifiedWSupport
        | Api::NvAPI_D3D12_SetModifiedWMode
        | Api::NvAPI_D3D_CreateLateLatchObject
        | Api::NvAPI_D3D_QueryLateLatchSupport
        | Api::NvAPI_D3D_RegisterDevice
        | Api::NvAPI_D3D11_MultiDrawInstancedIndirect
        | Api::NvAPI_D3D11_MultiDrawIndexedInstancedIndirect
        | Api::NvAPI_D3D_ImplicitSLIControl
        | Api::NvAPI_D3D12_UseDriverHeapPriorities
        | Api::NvAPI_D3D12_Mosaic_GetCompanionAllocations
        | Api::NvAPI_D3D12_Mosaic_GetViewportAndGpuPartitions
        | Api::NvAPI_D3D1x_GetGraphicsCapabilities
        | Api::NvAPI_D3D12_GetGraphicsCapabilities
        | Api::NvAPI_D3D11_RSSetExclusiveScissorRects
        | Api::NvAPI_D3D11_RSSetViewportsPixelShadingRates
        | Api::NvAPI_D3D11_CreateShadingRateResourceView
        | Api::NvAPI_D3D11_RSSetShadingRateResourceView
        | Api::NvAPI_D3D11_RSGetPixelShadingRateSampleOrder
        | Api::NvAPI_D3D11_RSSetPixelShadingRateSampleOrder
        | Api::NvAPI_D3D_InitializeVRSHelper
        | Api::NvAPI_D3D_InitializeNvGazeHandler
        | Api::NvAPI_D3D_InitializeSMPAssist
        | Api::NvAPI_D3D_QuerySMPAssistSupport
        | Api::NvAPI_D3D_GetSleepStatus
        | Api::NvAPI_D3D_SetSleepMode
        | Api::NvAPI_D3D_Sleep
        | Api::NvAPI_D3D_GetLatency
        | Api::NvAPI_D3D_SetLatencyMarker
        | Api::NvAPI_D3D12_SetAsyncFrameMarker => api_id_part_14(a).unwrap(),
        Api::NvAPI_D3D12_NotifyOutOfBandCommandQueue
        | Api::NvAPI_D3D12_CreateCubinComputeShader
        | Api::NvAPI_D3D12_CreateCubinComputeShaderEx
        | Api::NvAPI_D3D12_CreateCubinComputeShaderWithName
        | Api::NvAPI_D3D12_LaunchCubinShader
        | Api::NvAPI_D3D12_DestroyCubinComputeShader
        | Api::NvAPI_D3D12_GetCudaTextureObject
        | Api::NvAPI_D3D12_GetCudaSurfaceObject
        | Api::NvAPI_D3D12_IsFatbinPTXSupported
        | Api::NvAPI_D3D12_CreateCuModule
        | Api::NvAPI_D3D12_EnumFunctionsInModule
        | Api::NvAPI_D3D12_CreateCuFunction
        | Api::NvAPI_D3D12_LaunchCuKernelChain
        | Api::NvAPI_D3D12_DestroyCuModule
        | Api::NvAPI_D3D12_DestroyCuFunction
        | Api::NvAPI_D3D11_CreateCubinComputeShader
        | Api::NvAPI_D3D11_CreateCubinComputeShaderEx
        | Api::NvAPI_D3D11_CreateCubinComputeShaderWithName
        | Api::NvAPI_D3D11_LaunchCubinShader
        | Api::NvAPI_D3D11_DestroyCubinComputeShader
        | Api::NvAPI_D3D11_IsFatbinPTXSupported
        | Api::NvAPI_D3D11_CreateUnorderedAccessView
        | Api::NvAPI_D3D11_CreateShaderResourceView
        | Api::NvAPI_D3D11_CreateSamplerState
        | Api::NvAPI_D3D11_GetCudaTextureObject
        | Api::NvAPI_D3D11_GetResourceGPUVirtualAddress
        | Api::NvAPI_D3D12_GetRaytracingCaps
        | Api::NvAPI_D3D12_GetRaytracingOpacityMicromapArrayPrebuildInfo
        | Api::NvAPI_D3D12_SetCreatePipelineStateOptions
        | Api::NvAPI_D3D12_CheckDriverMatchingIdentifierEx
        | Api::NvAPI_D3D12_GetRaytracingAccelerationStructurePrebuildInfoEx
        | Api::NvAPI_D3D12_BuildRaytracingOpacityMicromapArray
        | Api::NvAPI_D3D12_RelocateRaytracingOpacityMicromapArray
        | Api::NvAPI_D3D12_EmitRaytracingOpacityMicromapArrayPostbuildInfo
        | Api::NvAPI_D3D12_BuildRaytracingAccelerationStructureEx
        | Api::Unknown_1629A173
        | Api::Unknown_F1D2777B
        | Api::Unknown_8EFC0978
        | Api::Unknown_B7BCF50D
        | Api::Unknown_36E39E6B
        | Api::Unknown_GetROPCount => api_id_part_15(a).unwrap(),
    }
}

/// The API with a given interface id, if it is a known one; the ids are
/// looked up by their top four bits first.
pub open spec fn api_of_id(id: u32) -> Option<Api> {
    let top = id / 0x1000_0000;
    if top == 0 {
        api_of_id_0(id)
    } else if top == 1 {
        api_of_id_1(id)
    } else if top == 2 {
        api_of_id_2(id)
    } else if top == 3 {
        api_of_id_3(id)
    } else if top == 4 {
        api_of_id_4(id)
    } else if top == 5 {
        api_of_id_5(id)
    } else if top == 6 {
        api_of_id_6(id)
    } else if top == 7 {
        api_of_id_7(id)
    } else if top == 8 {
        api_of_id_8(id)
    } else if top == 9 {
        api_of_id_9(id)
    } else if top == 10 {
        api_of_id_a(id)
    } else if top == 11 {
        api_of_id_b(id)
    } else if top == 12 {
        api_of_id_c(id)
    } else if top == 13 {
        api_of_id_d(id)
    } else if top == 14 {
        api_of_id_e(id)
    } else {
        api_of_id_f(id)
    }
}

/// The API with a given interface id among those whose top four bits are 0.
pub open spec fn api_of_id_0(id: u32) -> Option<Api> {
    match id {
        0x0150e828u32 => Some(Api::NvAPI_Initialize),
        0x01053fa5u32 => Some(Api::NvAPI_GetInterfaceVersionString),
        0x09734f1du32 => Some(Api::NvAPI_GetInfoFrame),
        0x0291bff2u32 => Some(Api::NvAPI_DISP_OverrideDisplayModeList),
        0x0e45002du32 => Some(Api::NvAPI_GetDVCInfoEx),
        0x0f2dd3f2u32 => Some(Api::NvAPI_D3D9_GetSurfaceHandle),
        0x022cad61u32 => Some(Api::NvAPI_D3D9_GetCurrentRenderTargetHandle),
        0x0f7029c5u32 => Some(Api::NvAPI_D3D9_PresentSurfaceToDesktop),
        0x0b3827c8u32 => Some(Api::NvAPI_D3D9_CreateRenderTarget),
        0x0ab7c2dcu32 => Some(Api::NvAPI_D3D9_IFR_TransferRenderTarget),
        0x0e9c5853u32 => Some(Api::NvAPI_D3D10_EndShareResource),
        0x0121bdc6u32 => Some(Api::NvAPI_D3D11_BeginShareResource),
        0x0e6482a0u32 => Some(Api::NvAPI_D3D11_SetNvShaderExtnSlotLocalThread),
        0x09d52986u32 => Some(Api::NvAPI_D3D11_GetResourceHandle),
        0x0be17923u32 => Some(Api::NvAPI_GPU_GetShaderSubPipeCount),
        0x0680de09u32 => Some(Api::NvAPI_GPU_GetConnectedSLIOutputs),
        0x0078dba2u32 => Some(Api::NvAPI_GPU_GetConnectedDisplayIds),
        0x07bcf4acu32 => Some(Api::NvAPI_GPU_SetPerfClocks),
        0x0518a32cu32 => Some(Api::NvAPI_GPU_GetCoolerPolicyTable),
        0x0f4dae6bu32 => Some(Api::NvAPI_GPU_SetPstates20),
        0x004537dfu32 => Some(Api::NvAPI_GPU_WorkstationFeatureQuery),
        0x0f5f4d01u32 => Some(Api::NvAPI_GetDisplayFeatureConfigDefaults),
        0x0957d7b6u32 => Some(Api::NvAPI_SetView),
        0x06b89e68u32 => Some(Api::NvAPI_SetViewEx),
        0x054fe75au32 => Some(Api::NvAPI_SetVideoState),
        0x07eba036u32 => Some(Api::NvAPI_Mosaic_GetMosaicViewports),
        0x0a8064f9u32 => Some(Api::NvAPI_SetTopologyFocusDisplayAndView),
        0x0d6c6cd2u32 => Some(Api::NvAPI_Stereo_Trigger_Activation),
        0x0e6ce4f1u32 => Some(Api::NvAPI_VIO_Status),
        0x0e4eec07u32 => Some(Api::NvAPI_VIO_SetConfig),
        0x08f2bab4u32 => Some(Api::NvAPI_SYS_GetDisplayIdFromGpuAndOutputId),
        0x05650bebu32 => Some(Api::NvAPI_D3D9_Present),
        0x03b845a1u32 => Some(Api::NvAPI_D3D1x_Present),
        0x0ce2e9d9u32 => Some(Api::NvAPI_SYS_VenturaSetState),
        0x0694d52eu32 => Some(Api::NvAPI_DRS_CreateSession),
        0x0ff07fdeu32 => Some(Api::NvAPI_GPU_GetAdapterIdFromPhysicalGpu),
        0x0254a187u32 => Some(Api::NvAPI_GPU_SetIllumination),
        0x07f9b368u32 => Some(Api::NvAPI_GPU_GetMemoryInfo),
        0x0e24ceeeu32 => Some(Api::NvAPI_GetDisplayDriverRegistryPath),
        0x0d258bb5u32 => Some(Api::NvAPI_GPU_ClientThermalPoliciesGetInfo),
        0x0733e009u32 => Some(Api::NvAPI_GPU_ClockClientClkVfPointsSetControl),
        0x0beaa0b2u32 => Some(Api::NvAPI_D3D11_CreateVertexShaderEx),
        0x027e98aeu32 => Some(Api::NvAPI_D3D12_CreateCommittedResource),
        0x017be49eu32 => Some(Api::NvAPI_D3D11_MultiGPU_Init),
        0x06ea4bf4u32 => Some(Api::NvAPI_D3D_SetModifiedWMode),
        0x01e87354u32 => Some(Api::NvAPI_D3D12_GetGraphicsCapabilities),
        0x092442a1u32 => Some(Api::NvAPI_D3D11_RSGetPixelShadingRateSampleOrder),
        0x03d6e8cbu32 => Some(Api::NvAPI_D3D12_NotifyOutOfBandCommandQueue),
        0x0ed98181u32 => Some(Api::NvAPI_D3D11_CreateCubinComputeShader),
        0x01682c86u32 => Some(Api::NvAPI_D3D11_DestroyCubinComputeShader),
        0x0425c538u32 => Some(Api::NvAPI_D3D12_RelocateRaytracingOpacityMicromapArray),
        _ => None,
    }
}

/// The API with a given interface id among those whose top four bits are 1.
pub open spec fn api_of_id_1(id: u32) -> Option<Api> {
    match id {
        0x172409b4u32 => Some(Api::NvAPI_SetDVCLevel),
        0x157e45c4u32 => Some(Api::NvAPI_D3D9_PathClearDepthNV),
        0x13199b3du32 => Some(Api::NvAPI_D3D9_DrawPathNV),
        0x12ee68f2u32 => Some(Api::NvAPI_D3D9_GpuSyncMapIndexBuffer),
        0x18cdf365u32 => Some(Api::NvAPI_D3D9_SetPitchSurfaceCreation),
        0x13c7112eu32 => Some(Api::NvAPI_D3D9_AliasPrimaryAsTexture),
        0x1e6634b3u32 => Some(Api::NvAPI_D3D9_QueryVideoInfo),
        0x1db7c52cu32 => Some(Api::NvAPI_D3D9_EnumVideoFeatures),
        0x1730bfc9u32 => Some(Api::NvAPI_GPU_GetConnectedOutputs),
        0x1bb18724u32 => Some(Api::NvAPI_GPU_GetBusType),
        0x1be0b8e5u32 => Some(Api::NvAPI_GPU_GetBusId),
        0x11104158u32 => Some(Api::NvAPI_GPU_GetFBWidthAndLocation),
        0x1ea54a3bu32 => Some(Api::NvAPI_GPU_GetPerfClocks),
        0x15658be6u32 => Some(Api::NvAPI_GetInvalidGpuTopologies),
        0x175167e9u32 => Some(Api::NvAPI_DISP_GetTiming),
        0x1f7db630u32 => Some(Api::NvAPI_DISP_TryCustomDisplay),
        0x1efc3957u32 => Some(Api::NvAPI_Coproc_GetCoprocStatus),
        0x1c5659cdu32 => Some(Api::NvAPI_GetVideoState),
        0x18919887u32 => Some(Api::NvAPI_SetFrameRateNotify),
        0x1b1b9a16u32 => Some(Api::NvAPI_GetPVExtProfile),
        0x1ecfd263u32 => Some(Api::NvAPI_Mosaic_ValidateDisplayGridsWithSLI),
        0x16de1c6au32 => Some(Api::NvAPI_GSync_GetControlParameters),
        0x1fb0bc30u32 => Some(Api::NvAPI_Stereo_IsActivated),
        0x1dc91303u32 => Some(Api::NvAPI_VIO_GetCapabilities),
        0x118d48a3u32 => Some(Api::NvAPI_VIO_SyncFormatDetect),
        0x112ba1a5u32 => Some(Api::NvAPI_SYS_GetGpuAndOutputIdFromDisplayId),
        0x1e9d8a31u32 => Some(Api::NvAPI_DISP_GetGDIPrimaryDisplayId),
        0x11abccf8u32 => Some(Api::NvAPI_DISP_GetDisplayConfig),
        0x1f6b4666u32 => Some(Api::NvAPI_DISP_GetPreferredStereoDisplay),
        0x1247825fu32 => Some(Api::NvAPI_DISP_ReleaseDedicatedDisplay),
        0x1cf639d9u32 => Some(Api::NvAPI_GPU_SetECCConfiguration),
        0x1bc21b66u32 => Some(Api::NvAPI_D3D1x_CreateSwapChain),
        0x1a131e09u32 => Some(Api::NvAPI_D3D9_CreateSwapChain),
        0x14610cd7u32 => Some(Api::NvAPI_D3D1x_JoinSwapGroup),
        0x1e17e29bu32 => Some(Api::NvAPI_DISP_SetDisplayBlankingState),
        0x17093206u32 => Some(Api::NvAPI_DRS_DeleteProfile),
        0x1c89c5dfu32 => Some(Api::NvAPI_DRS_SetCurrentGlobalProfile),
        0x16abd3a9u32 => Some(Api::NvAPI_DRS_SetProfileInfo),
        0x1dae4fbcu32 => Some(Api::NvAPI_DRS_GetNumProfiles),
        0x1890e8dau32 => Some(Api::NvAPI_GetPhysicalGPUFromDisplay),
        0x14b83a5fu32 => Some(Api::NvAPI_GPU_GetSerialNumber),
        0x17073a3cu32 => Some(Api::NvAPI_GPU_GetRamBankCount),
        0x1bd69f49u32 => Some(Api::NvAPI_GPU_GetAllClocks),
        0x1aad16b4u32 => Some(Api::NvAPI_GPU_GetDeepIdleState),
        0x197d065eu32 => Some(Api::NvAPI_GPU_ClientIllumZonesSetControl),
        0x1cb41116u32 => Some(Api::NvAPI_GPU_ClientRegisterForOcScannerStatusUpdates),
        0x189a1fdfu32 => Some(Api::NvAPI_GPU_GetUsages),
        0x17f6bf82u32 => Some(Api::NvAPI_JoinPresentBarrier),
        0x106a487eu32 => Some(Api::NvAPI_D3D11_CheckFeatureSupport),
        0x1b0c2f83u32 => Some(Api::NvAPI_D3D11_RSSetShadingRateResourceView),
        0x1a587f9cu32 => Some(Api::NvAPI_D3D_GetLatency),
        0x13c98f73u32 => Some(Api::NvAPI_D3D12_SetAsyncFrameMarker),
        0x1dc7261fu32 => Some(Api::NvAPI_D3D12_CreateCubinComputeShaderWithName),
        0x1819b423u32 => Some(Api::NvAPI_D3D11_GetResourceGPUVirtualAddress),
        0x1d9a39b6u32 => Some(Api::NvAPI_D3D12_EmitRaytracingOpacityMicromapArrayPostbuildInfo),
        0x1629a173u32 => Some(Api::Unknown_1629A173),
        _ => None,
    }
}

/// The API with a given interface id among those whose top four bits are 2.
pub open spec fn api_of_id_2(id: u32) -> Option<Api> {
    match id {
        0x2926aaadu32 => Some(Api::NvAPI_SYS_GetDriverAndBranchVersion),
        0x20de9260u32 => Some(Api::NvAPI_EnumNvidiaUnAttachedDisplayHandle),
        0x22a78b05u32 => Some(Api::NvAPI_GetAssociatedNvidiaDisplayName),
        0x2863148du32 => Some(Api::NvAPI_EnableHWCursor),
        0x2dc95125u32 => Some(Api::NvAPI_GetDriverMemoryInfo),
        0x22de03aau32 => Some(Api::NvAPI_D3D9_StretchRectEx),
        0x2ac084fau32 => Some(Api::NvAPI_D3D_Query_End),
        0x2ab714abu32 => Some(Api::NvAPI_D3D9_GpuSyncMapSurfaceBuffer),
        0x2bbda32eu32 => Some(Api::NvAPI_D3D9_SetGamutData),
        0x2de11d61u32 => Some(Api::NvAPI_D3D10_CreateDevice),
        0x2216a357u32 => Some(Api::NvAPI_D3D11_EndUAVOverlap),
        0x2ddfb66eu32 => Some(Api::NvAPI_GPU_GetPCIIdentifiers),
        0x2a0a350fu32 => Some(Api::NvAPI_GPU_GetBusSlotId),
        0x2d43fb31u32 => Some(Api::NvAPI_GPU_GetVbiosOEMRevision),
        0x22d54523u32 => Some(Api::NvAPI_GPU_GetBoardInfo),
        0x25201f3du32 => Some(Api::NvAPI_SetGpuTopologies),
        0x2fde12c5u32 => Some(Api::NvAPI_I2CRead),
        0x283ac65au32 => Some(Api::NvAPI_I2CWriteEx),
        0x22ed9516u32 => Some(Api::NvAPI_OGL_ExpertModeGet),
        0x2f5b08e0u32 => Some(Api::NvAPI_GetPVExtName),
        0x2d11ff51u32 => Some(Api::NvAPI_GSync_AdjustSyncDelay),
        0x24409f48u32 => Some(Api::NvAPI_Stereo_SetConfigurationProfileValue),
        0x239c4545u32 => Some(Api::NvAPI_Stereo_Enable),
        0x2ec50c2bu32 => Some(Api::NvAPI_Stereo_Disable),
        0x296c434du32 => Some(Api::NvAPI_Stereo_GetStereoSupport),
        0x2d68de96u32 => Some(Api::NvAPI_Stereo_Deactivate),
        0x2d495758u32 => Some(Api::NvAPI_Stereo_ForceToScreenDepth),
        0x2697a8d1u32 => Some(Api::NvAPI_VIO_SetSyncDelay),
        0x221fa8e8u32 => Some(Api::NvAPI_VIO_EnumDataFormats),
        0x271c1109u32 => Some(Api::NvAPI_GPS_GetPerfSensors),
        0x2be25df8u32 => Some(Api::NvAPI_DRS_SaveSettingsToFile),
        0x2c694bc6u32 => Some(Api::NvAPI_DRS_DeleteApplication),
        0x2ec39f90u32 => Some(Api::NvAPI_DRS_EnumAvailableSettingValues),
        0x25f17421u32 => Some(Api::NvAPI_GPU_GetExtendedMinorRevision),
        0x25eeb2c4u32 => Some(Api::NvAPI_GetDriverModel),
        0x28766157u32 => Some(Api::NvAPI_GPU_GetVoltageStep),
        0x23f1b133u32 => Some(Api::NvAPI_GPU_ClockClientClkVfPointsGetControl),
        0x21537ad4u32 => Some(Api::NvAPI_GPU_ClockClientClkVfPointsGetStatus),
        0x210f1841u32 => Some(Api::NvAPI_GPU_ClientGetOcConfig),
        0x24c6a07bu32 => Some(Api::NvAPI_D3D12_CreateCommittedImplicitMSAATexture2D),
        0x2fc28856u32 => Some(Api::NvAPI_D3D12_CreateGraphicsPipelineState),
        0x2762deacu32 => Some(Api::NvAPI_D3D12_CreateComputePipelineState),
        0x2c85f101u32 => Some(Api::NvAPI_D3D12_CreateReservedResource),
        0x26322bc3u32 => Some(Api::NvAPI_D3D12_QueryCpuVisibleVidmem),
        0x2db27d09u32 => Some(Api::NvAPI_D3D_CreateLateLatchObject),
        0x2aede111u32 => Some(Api::NvAPI_D3D_ImplicitSLIControl),
        0x2a2c79e8u32 => Some(Api::NvAPI_D3D12_CreateCubinComputeShader),
        0x24973538u32 => Some(Api::NvAPI_D3D12_LaunchCuKernelChain),
        _ => None,
    }
}

/// The API with a given interface id among those whose top four bits are 3.
pub open spec fn api_of_id_3(id: u32) -> Option<Api> {
    match id {
        0x34ef9506u32 => Some(Api::NvAPI_GetPhysicalGPUsFromDisplay),
        0x35c29134u32 => Some(Api::NvAPI_GetAssociatedNvidiaDisplayHandle),
        0x3092ac32u32 => Some(Api::NvAPI_SetRefreshRateOverride),
        0x351da224u32 => Some(Api::NvAPI_Disp_HdrColorControl),
        0x3230d69au32 => Some(Api::NvAPI_DISP_GetVirtualModeData),
        0x3fc9a59cu32 => Some(Api::NvAPI_SetImageSharpeningLevel),
        0x332d3942u32 => Some(Api::NvAPI_D3D9_ClearRT),
        0x3e2804a2u32 => Some(Api::NvAPI_D3D9_PathEnableColorWriteNV),
        0x3d7a86bbu32 => Some(Api::NvAPI_D3D9_GpuSyncRelease),
        0x3111bed1u32 => Some(Api::NvAPI_D3D9_FreeVideo),
        0x3d596b93u32 => Some(Api::NvAPI_D3D9_GetVideoCapabilities),
        0x35233210u32 => Some(Api::NvAPI_D3D10_BeginShareResource),
        0x329d77cdu32 => Some(Api::NvAPI_GPU_GetMemPartitionMask),
        0x37d32e69u32 => Some(Api::NvAPI_GPU_GetEDID),
        0x36cff969u32 => Some(Api::NvAPI_GPU_GetFlatPanelInfo),
        0x34c9c2d4u32 => Some(Api::NvAPI_GPU_ValidateOutputCombination),
        0x30c805d5u32 => Some(Api::NvAPI_GetTVOutputInfo),
        0x34206d86u32 => Some(Api::NvAPI_GPU_ClientPowerPoliciesGetInfo),
        0x3805ef7au32 => Some(Api::NvAPI_OGL_ExpertModeSet),
        0x3b05c7e1u32 => Some(Api::NvAPI_DISP_GetMonitorCapabilities),
        0x3efada1du32 => Some(Api::NvAPI_SetUnderscanConfig),
        0x3f113c77u32 => Some(Api::NvAPI_Mosaic_SetGridTopology),
        0x348ff8e1u32 => Some(Api::NvAPI_Stereo_IsEnabled),
        0x3a153134u32 => Some(Api::NvAPI_Stereo_DestroyHandle),
        0x3dd6b54bu32 => Some(Api::NvAPI_Stereo_SetConvergence),
        0x3cd58f89u32 => Some(Api::NvAPI_Stereo_ReverseStereoBlitControl),
        0x315e0ef0u32 => Some(Api::NvAPI_Stereo_HandShake_Message_Control),
        0x36f1c736u32 => Some(Api::NvAPI_Stereo_GetSurfaceCreationMode),
        0x3eebba1du32 => Some(Api::NvAPI_DISP_SetAdaptiveSyncData),
        0x375dbd6bu32 => Some(Api::NvAPI_DRS_LoadSettings),
        0x3fc596aau32 => Some(Api::NvAPI_GPU_GetLicensableFeatures),
        0x3119f36eu32 => Some(Api::NvAPI_LoadMicrocode),
        0x35b5fd2fu32 => Some(Api::NvAPI_GPU_GetTargetID),
        0x3f28e1b9u32 => Some(Api::NvAPI_GPU_SetCurrentPCIEWidth),
        0x3bd32008u32 => Some(Api::NvAPI_GPU_SetCurrentPCIESpeed),
        0x387b2e41u32 => Some(Api::NvAPI_GPU_SetDisplayUnderflowMode),
        0x32e1d697u32 => Some(Api::NvAPI_GPU_GetSampleType),
        0x3d358a0cu32 => Some(Api::NvAPI_GPU_PerfPoliciesGetStatus),
        0x34c0b13du32 => Some(Api::NvAPI_GPU_ClientThermalPoliciesSetStatus),
        0x39442cfbu32 => Some(Api::NvAPI_GPU_PerfClientLimitsSetStatus),
        0x35aed5e8u32 => Some(Api::NvAPI_GPU_ClientFanCoolersGetStatus),
        0x3dbf5764u32 => Some(Api::NvAPI_GPU_ClientIllumZonesGetControl),
        0x37e7191cu32 => Some(Api::NvAPI_D3D_EndResourceRendering),
        0x3c5c351bu32 => Some(Api::NvAPI_DestroyPresentBarrierClient),
        0x341c6c7fu32 => Some(Api::NvAPI_D3D_ConfigureAnsel),
        0x3a94e822u32 => Some(Api::NvAPI_D3D11_DecompressView),
        0x3dfacec8u32 => Some(Api::NvAPI_D3D12_IsNvShaderExtnOpCodeSupported),
        0x3b03791bu32 => Some(Api::NvAPI_D3D12_QuerySinglePassStereoSupport),
        0x34f7938fu32 => Some(Api::NvAPI_D3D11_RSSetViewportsPixelShadingRates),
        0x3151211bu32 => Some(Api::NvAPI_D3D12_CreateCubinComputeShaderEx),
        0x32c2a0f6u32 => Some(Api::NvAPI_D3D11_CreateCubinComputeShaderEx),
        0x36e39e6bu32 => Some(Api::Unknown_36E39E6B),
        _ => None,
    }
}

/// The API with a given interface id among those whose top four bits are 4.
pub open spec fn api_of_id_4(id: u32) -> Option<Api> {
    match id {
        0x48b3ea59u32 => Some(Api::NvAPI_EnumLogicalGPUs),
        0x4888d790u32 => Some(Api::NvAPI_GetUnAttachedAssociatedDisplayName),
        0x41511594u32 => Some(Api::NvAPI_GetInfoFrameState),
        0x4085de45u32 => Some(Api::NvAPI_GetDVCInfo),
        0x4a82c2b1u32 => Some(Api::NvAPI_SetDVCLevelEx),
        0x4b708b54u32 => Some(Api::NvAPI_D3D_GetCurrentSLIState),
        0x4aceeaf7u32 => Some(Api::NvAPI_D3D_Query_GetType),
        0x492a6954u32 => Some(Api::NvAPI_D3D9_EnableStereo),
        0x4eadf5d2u32 => Some(Api::NvAPI_D3D10_SetDepthBoundsTest),
        0x43d867c0u32 => Some(Api::NvAPI_D3D12_SetNvShaderExtnSlotSpaceLocalThread),
        0x4a35df54u32 => Some(Api::NvAPI_GPU_GetTPCMask),
        0x4e2f76a8u32 => Some(Api::NvAPI_GPU_GetTotalTPCCount),
        0x40a505e4u32 => Some(Api::NvAPI_GPU_GetOutputType),
        0x4eca2c10u32 => Some(Api::NvAPI_GPU_GetConnectorInfo),
        0x46fbeb03u32 => Some(Api::NvAPI_GPU_GetPhysicalFrameBufferSize),
        0x4d7b0709u32 => Some(Api::NvAPI_I2CReadEx),
        0x49882876u32 => Some(Api::NvAPI_DISP_SaveCustomDisplay),
        0x42892957u32 => Some(Api::NvAPI_EnumCustomDisplay),
        0x4144111au32 => Some(Api::NvAPI_EnumUnderscanConfig),
        0x4feeb498u32 => Some(Api::NvAPI_SetPVExtName),
        0x4d959a89u32 => Some(Api::NvAPI_Mosaic_SetDisplayGrids),
        0x410b5c25u32 => Some(Api::NvAPI_GetSupportedMosaicTopologies),
        0x44a3f1d1u32 => Some(Api::NvAPI_GSync_QueryCapabilities),
        0x4562bc38u32 => Some(Api::NvAPI_GSync_GetTopology),
        0x49bceecfu32 => Some(Api::NvAPI_Stereo_DeleteConfigurationProfileValue),
        0x451f2134u32 => Some(Api::NvAPI_Stereo_GetSeparation),
        0x4ab00934u32 => Some(Api::NvAPI_Stereo_GetConvergence),
        0x4c87e317u32 => Some(Api::NvAPI_Stereo_DecreaseConvergence),
        0x40c8ed5eu32 => Some(Api::NvAPI_Stereo_IsWindowedModeSupported),
        0x416c07b3u32 => Some(Api::NvAPI_Stereo_SetVertexShaderConstantF),
        0x44f0ecd1u32 => Some(Api::NvAPI_Stereo_SetDefaultProfile),
        0x44ee4841u32 => Some(Api::NvAPI_VIO_Open),
        0x462214a9u32 => Some(Api::NvAPI_VIO_GetSyncDelay),
        0x47c917bau32 => Some(Api::NvAPI_DISP_AcquireDedicatedDisplay),
        0x407f67aau32 => Some(Api::NvAPI_D3D1x_QuerySwapGroup),
        0x4347a9deu32 => Some(Api::NvAPI_DRS_CreateApplication),
        0x47bad137u32 => Some(Api::NvAPI_DISP_GetHCloneTopology),
        0x44e022a9u32 => Some(Api::NvAPI_GPU_GetVirtualizationInfo),
        0x473f7828u32 => Some(Api::NvAPI_D3D1x_IFR_SetUpTargetBufferToSys),
        0x4db019e6u32 => Some(Api::NvAPI_GPU_GetAllGpusOnSameBoard),
        0x4071b85eu32 => Some(Api::NvAPI_GPU_PhysxSetState),
        0x409d9841u32 => Some(Api::NvAPI_GPU_PerfPoliciesGetInfo),
        0x465f9bcfu32 => Some(Api::NvAPI_GPU_ClientVoltRailsGetStatus),
        0x44cd3014u32 => Some(Api::NvAPI_GPU_ClientFanArbitersSetControl),
        0x4b81241bu32 => Some(Api::NvAPI_GPU_ClientIllumZonesGetInfo),
        0x42aea16au32 => Some(Api::NvAPI_GPU_GetRamMaker),
        0x4d815de9u32 => Some(Api::NvAPI_D3D12_CreatePresentBarrierClient),
        0x4162822bu32 => Some(Api::NvAPI_D3D11_CreatePixelShaderEx_2),
        0x47f78194u32 => Some(Api::NvAPI_D3D12_CopyTileMappings),
        0x4780d70bu32 => Some(Api::NvAPI_D3D_InitializeVRSHelper),
        0x42763d0cu32 => Some(Api::NvAPI_D3D_InitializeSMPAssist),
        0x48f5b2eeu32 => Some(Api::NvAPI_D3D12_GetCudaSurfaceObject),
        0x41c65285u32 => Some(Api::NvAPI_D3D12_DestroyCuModule),
        0x427e236du32 => Some(Api::NvAPI_D3D11_LaunchCubinShader),
        0x4726d180u32 => Some(Api::NvAPI_D3D12_GetRaytracingOpacityMicromapArrayPrebuildInfo),
        _ => None,
    }
}

/// The API with a given interface id among those whose top four bits are 5.
pub open spec fn api_of_id_5(id: u32) -> Option<Api> {
    match id {
        0x5018ed61u32 => Some(Api::NvAPI_GetPhysicalGPUFromUnAttachedDisplay),
        0x5d19bca4u32 => Some(Api::NvAPI_D3D_CreateQuery),
        0x5cf7f862u32 => Some(Api::NvAPI_D3D9_PresentVideo),
        0x5609b86au32 => Some(Api::NvAPI_D3D9_SetSurfaceCreationLayout),
        0x55255d05u32 => Some(Api::NvAPI_D3D9_IFR_SetUpTargetBufferToSys),
        0x5fe72f64u32 => Some(Api::NvAPI_D3D9_IFR_TransferRenderTargetToNV12BLVideoSurface),
        0x5b803dafu32 => Some(Api::NvAPI_D3D10_CreateDeviceAndSwapChain),
        0x5f68da40u32 => Some(Api::NvAPI_D3D11_IsNvShaderExtnOpCodeSupported),
        0x5a04b644u32 => Some(Api::NvAPI_GPU_GetVirtualFrameBufferSize),
        0x57f7caacu32 => Some(Api::NvAPI_GPU_GetRamType),
        0x5757474au32 => Some(Api::NvAPI_GetTVEncoderControls),
        0x57d9060fu32 => Some(Api::NvAPI_SetDisplayPosition),
        0x5dfab48au32 => Some(Api::NvAPI_GetValidGpuTopologies),
        0x50016c78u32 => Some(Api::NvAPI_GPU_SetPowerMizerInfo),
        0x53dabbcau32 => Some(Api::NvAPI_SYS_GetChipSetInfo),
        0x552e5b9bu32 => Some(Api::NvAPI_DISP_DeleteCustomDisplay),
        0x5f1aa66cu32 => Some(Api::NvAPI_Mosaic_EnableCurrentTopo),
        0x5f35bcb5u32 => Some(Api::NvAPI_Hybrid_QueryUnblockedNonMigratableApps),
        0x584cb0b6u32 => Some(Api::NvAPI_Hybrid_IsAppMigrationStateChangeable),
        0x5c069fa3u32 => Some(Api::NvAPI_Stereo_SetSeparation),
        0x5e8f0becu32 => Some(Api::NvAPI_Stereo_SetDriverMode),
        0x5268716fu32 => Some(Api::NvAPI_Stereo_SetVertexShaderConstantB),
        0x5a60613au32 => Some(Api::NvAPI_Stereo_GetVertexShaderConstantI),
        0x51d53d06u32 => Some(Api::NvAPI_VIO_GetGamma),
        0x5f608315u32 => Some(Api::NvAPI_GPU_GetTachReading),
        0x540ee82eu32 => Some(Api::NvAPI_GPS_GetPowerSteeringStatus),
        0x583113edu32 => Some(Api::NvAPI_GPS_GetThermalLimit),
        0x5d8cf8deu32 => Some(Api::NvAPI_DISP_SetDisplayConfig),
        0x5abbe6a3u32 => Some(Api::NvAPI_DISP_SetVirtualRefreshRateData),
        0x5ac7f8e5u32 => Some(Api::NvAPI_GPU_SetPixelClockRange),
        0x5995410du32 => Some(Api::NvAPI_D3D9_QueryMaxSwapGroup),
        0x577dd202u32 => Some(Api::NvAPI_DRS_SetSetting),
        0x5927b094u32 => Some(Api::NvAPI_DRS_RestoreAllDefaults),
        0x53f0381eu32 => Some(Api::NvAPI_DRS_RestoreProfileDefaultSetting),
        0x58fe51e6u32 => Some(Api::NvAPI_GPU_GetScanoutCompositionParameter),
        0x5f4c2664u32 => Some(Api::NvAPI_DISP_ValidateHCloneTopology),
        0x5380ad1au32 => Some(Api::NvAPI_GetPhysicalGPUFromGPUID),
        0x5d857a00u32 => Some(Api::NvAPI_GPU_GetFoundry),
        0x521566bbu32 => Some(Api::NvAPI_GPU_ClearPCIELinkAERInfo),
        0x524b9773u32 => Some(Api::NvAPI_GPU_GetFrameBufferCalibrationLockFailures),
        0x51ccdb2au32 => Some(Api::NvAPI_GPU_GetRamConfigStrap),
        0x5d7ccaebu32 => Some(Api::NvAPI_GPU_GetPerfHybridMode),
        0x5786cc6eu32 => Some(Api::NvAPI_GPU_CudaEnumComputeCapableGpus),
        0x568a2292u32 => Some(Api::NvAPI_GPU_SetDeepIdleState),
        0x507b4b59u32 => Some(Api::NvAPI_GPU_ClockClientClkVfPointsGetInfo),
        0x52b76d12u32 => Some(Api::NvAPI_GPU_ClientFanPoliciesGetInfo),
        0x593e8e72u32 => Some(Api::NvAPI_GPU_ClientGetLastOcScannerResults),
        0x57024c62u32 => Some(Api::NvAPI_GPU_ClientIllumDevicesSetControl),
        0x525d43beu32 => Some(Api::NvAPI_D3D11_CreateFastGeometryShader),
        0x5cb397cfu32 => Some(Api::NvAPI_D3D12_CreateHeap),
        0x51235248u32 => Some(Api::NvAPI_D3D12_QueryModifiedWSupport),
        0x59e890f9u32 => Some(Api::NvAPI_D3D11_MultiDrawIndexedInstancedIndirect),
        0x52b1499au32 => Some(Api::NvAPI_D3D1x_GetGraphicsCapabilities),
        0x5b3b7479u32 => Some(Api::NvAPI_D3D_InitializeNvGazeHandler),
        0x5c52bb86u32 => Some(Api::NvAPI_D3D12_LaunchCubinShader),
        0x5c607a27u32 => Some(Api::NvAPI_D3D12_SetCreatePipelineStateOptions),
        _ => None,
    }
}

/// The API with a given interface id among those whose top four bits are 6.
pub open spec fn api_of_id_6(id: u32) -> Option<Api> {
    match id {
        0x6c2d048cu32 => Some(Api::NvAPI_GetErrorMessage),
        0x63f9799eu32 => Some(Api::NvAPI_CreateDisplayFromUnAttachedDisplay),
        0x67b5db55u32 => Some(Api::NvAPI_GetVBlankCounter),
        0x6ae16ec3u32 => Some(Api::NvAPI_GetHDMISupportInfo),
        0x69c6f365u32 => Some(Api::NvAPI_SetInfoFrame),
        0x67efd887u32 => Some(Api::NvAPI_SetInfoFrameState),
        0x6067af3fu32 => Some(Api::NvAPI_Disp_InfoFrameControl),
        0x667c2929u32 => Some(Api::NvAPI_D3D9_DestroyPathContextNV),
        0x6800f5fcu32 => Some(Api::NvAPI_D3D9_GetOverlaySurfaceHandles),
        0x6d6fdad4u32 => Some(Api::NvAPI_D3D9_GpuSyncInit),
        0x6317345cu32 => Some(Api::NvAPI_D3D9_Lock),
        0x694bff4du32 => Some(Api::NvAPI_D3D9_GetSLIInfo),
        0x6a16d3a0u32 => Some(Api::NvAPI_D3D11_CreateDevice),
        0x65b93ca8u32 => Some(Api::NvAPI_D3D11_BeginUAVOverlap),
        0x63e2f56fu32 => Some(Api::NvAPI_GPU_GetShaderPipeCount),
        0x6e042794u32 => Some(Api::NvAPI_GPU_GetAGPAperture),
        0x6ff81213u32 => Some(Api::NvAPI_GPU_GetPstates20),
        0x60ded2edu32 => Some(Api::NvAPI_GPU_GetDynamicPstatesInfoEx),
        0x6dfd1c8cu32 => Some(Api::NvAPI_GetTVOutputBorderColor),
        0x6bb1ee5du32 => Some(Api::NvAPI_GetDisplayPosition),
        0x6c1f3fe4u32 => Some(Api::NvAPI_GPU_WorkstationFeatureSetup),
        0x6ae4cfb5u32 => Some(Api::NvAPI_DISP_GetMonitorColorCapabilities),
        0x61d7b624u32 => Some(Api::NvAPI_QueryUnderscanCap),
        0x66fb7fc0u32 => Some(Api::NvAPI_GetSupportedViews),
        0x69a9874du32 => Some(Api::NvAPI_Coproc_GetCoprocInfoFlagsEx),
        0x60acdfddu32 => Some(Api::NvAPI_GSync_SetSyncStateSettings),
        0x65b1c5f5u32 => Some(Api::NvAPI_GPU_QueryActiveApps),
        0x6b9b409eu32 => Some(Api::NvAPI_Stereo_SetNotificationMessage),
        0x622fdc87u32 => Some(Api::NvAPI_Stereo_GetVertexShaderConstantF),
        0x624e21c2u32 => Some(Api::NvAPI_Stereo_GetDefaultProfile),
        0x6ba2a5d6u32 => Some(Api::NvAPI_VIO_Stop),
        0x68888eb4u32 => Some(Api::NvAPI_GPS_SetVPStateCap),
        0x66af10b7u32 => Some(Api::NvAPI_GPU_GetPixelClockRange),
        0x63685979u32 => Some(Api::NvAPI_SYS_VenturaGetPowerReading),
        0x63e5d8dbu32 => Some(Api::NvAPI_DISP_GetDisplayBlankingState),
        0x617bff9fu32 => Some(Api::NvAPI_DRS_GetCurrentGlobalProfile),
        0x61cd6fd6u32 => Some(Api::NvAPI_DRS_GetProfileInfo),
        0x6f5435afu32 => Some(Api::NvAPI_GPU_GetScanoutWarpingState),
        0x6a9f5b63u32 => Some(Api::NvAPI_GPU_GetScanoutConfiguration),
        0x61041c24u32 => Some(Api::NvAPI_DISP_SetHCloneTopology),
        0x6533ea3eu32 => Some(Api::NvAPI_GetGPUIDfromPhysicalGPU),
        0x633252d8u32 => Some(Api::NvAPI_GetUnAttachedDisplayDriverRegistryPath),
        0x6f151055u32 => Some(Api::NvAPI_GPU_SetClocks),
        0x64b43a6au32 => Some(Api::NvAPI_GPU_ClockClientClkDomainsGetInfo),
        0x600f612eu32 => Some(Api::NvAPI_GPU_ClientFanArbitersGetControl),
        0x6c0ed98cu32 => Some(Api::NvAPI_D3D_SetResourceHint),
        0x61b844a1u32 => Some(Api::NvAPI_QueryPresentBarrierFrameStatistics),
        0x6e5ea9dbu32 => Some(Api::NvAPI_D3D12_CaptureUAVInfo),
        0x6f5f0a6du32 => Some(Api::NvAPI_D3D_QuerySinglePassStereoSupport),
        0x6086bd93u32 => Some(Api::NvAPI_D3D11_IsFatbinPTXSupported),
        0x65cb431eu32 => Some(Api::NvAPI_D3D11_CreateShaderResourceView),
        _ => None,
    }
}

/// The API with a given interface id among those whose top four bits are 7.
pub open spec fn api_of_id_7(id: u32) -> Option<Api> {
    match id {
        0x774aa982u32 => Some(Api::NvAPI_GetDisplayDriverMemoryInfo),
        0x71329df3u32 => Some(Api::NvAPI_D3D9_CreatePathNV),
        0x73e0019au32 => Some(Api::NvAPI_D3D9_DeletePathNV),
        0x754033f0u32 => Some(Api::NvAPI_D3D9_GpuSyncEnd),
        0x72b19155u32 => Some(Api::NvAPI_D3D9_GetVertexBufferHandle),
        0x7c20c5beu32 => Some(Api::NvAPI_D3D9_AliasPrimaryFromDevice),
        0x73eb9329u32 => Some(Api::NvAPI_D3D10_SetPrimaryFlipChainCallbacks),
        0x7aaf7a04u32 => Some(Api::NvAPI_D3D11_SetDepthBoundsTest),
        0x7d554f8eu32 => Some(Api::NvAPI_GPU_GetAllOutputs),
        0x785210a2u32 => Some(Api::NvAPI_GPU_GetAllDisplayIds),
        0x7d656244u32 => Some(Api::NvAPI_GPU_GetVoltages),
        0x76a70e8du32 => Some(Api::NvAPI_GPU_Get_DisplayPort_DongleInfo),
        0x76bfa16bu32 => Some(Api::NvAPI_GPU_GetPowerMizerInfo),
        0x70916171u32 => Some(Api::NvAPI_GPU_ClientPowerPoliciesGetStatus),
        0x79232685u32 => Some(Api::NvAPI_Coproc_GetApplicationCoprocInfo),
        0x78db97d7u32 => Some(Api::NvAPI_Mosaic_EnumDisplayModes),
        0x74073cc9u32 => Some(Api::NvAPI_EnableCurrentMosaicTopology),
        0x70d404ecu32 => Some(Api::NvAPI_GSync_GetStatusParameters),
        0x7be27fa2u32 => Some(Api::NvAPI_Stereo_SetFrustumAdjustMode),
        0x7923ba0eu32 => Some(Api::NvAPI_Stereo_SetVertexShaderConstantI),
        0x712baa5bu32 => Some(Api::NvAPI_Stereo_GetVertexShaderConstantB),
        0x72162b35u32 => Some(Api::NvAPI_Stereo_GetCursorSeparation),
        0x7b0d72a3u32 => Some(Api::NvAPI_VIO_GetCSC),
        0x7bf0a94du32 => Some(Api::NvAPI_VIO_IsFrameLockModeCompatible),
        0x71913023u32 => Some(Api::NvAPI_GPS_GetVPStateCap),
        0x721facebu32 => Some(Api::NvAPI_SYS_GetDisplayDriverInfo),
        0x77a796f3u32 => Some(Api::NvAPI_GPU_GetECCConfigurationInfo),
        0x7d44bb54u32 => Some(Api::NvAPI_D3D9_JoinSwapGroup),
        0x7e4a9a0bu32 => Some(Api::NvAPI_DRS_FindProfileByName),
        0x7fa2173au32 => Some(Api::NvAPI_DRS_EnumApplications),
        0x73bf8338u32 => Some(Api::NvAPI_DRS_GetSetting),
        0x7f7f4600u32 => Some(Api::NvAPI_GPU_GetPerfDecreaseInfo),
        0x7fc17574u32 => Some(Api::NvAPI_GetInfoFrameStatePvt),
        0x7562e947u32 => Some(Api::NvAPI_GetDisplayDriverBuildTitle),
        0x7975c581u32 => Some(Api::NvAPI_GPU_GetRamBusWidth),
        0x7bc207f8u32 => Some(Api::NvAPI_GPU_SetPerfHybridMode),
        0x7a4174f4u32 => Some(Api::NvAPI_GPU_PhysxQueryRecommendedState),
        0x73c01d58u32 => Some(Api::NvAPI_GPU_ClientIllumDevicesGetControl),
        0x7886981au32 => Some(Api::NvAPI_D3D11_CreateTiledTexture2DArray),
        0x71ab7c9cu32 => Some(Api::NvAPI_D3D11_CreateFastGeometryShaderExplicit),
        0x7fb785bau32 => Some(Api::NvAPI_D3D12_DestroyCubinComputeShader),
        0x70c07832u32 => Some(Api::NvAPI_D3D12_IsFatbinPTXSupported),
        0x7ab88d88u32 => Some(Api::NvAPI_D3D12_EnumFunctionsInModule),
        0x74a497a1u32 => Some(Api::NvAPI_D3D11_CreateUnorderedAccessView),
        _ => None,
    }
}

/// The API with a given interface id among those whose top four bits are 8.
pub open spec fn api_of_id_8(id: u32) -> Option<Api> {
    match id {
        0x84f2a8dfu32 => Some(Api::NvAPI_Disp_GetHdrCapabilities),
        0x80c9fd3bu32 => Some(Api::NvAPI_D3D9_GpuSyncGetHandleSize),
        0x84c9d553u32 => Some(Api::NvAPI_D3D9_CreateVideoBegin),
        0x89ffd9a3u32 => Some(Api::NvAPI_D3D9_CreateVideo),
        0x8aac133du32 => Some(Api::NvAPI_D3D10_AliasPrimaryAsTexture),
        0x8ffb8e26u32 => Some(Api::NvAPI_D3D11_EndShareResource),
        0x8e90bb9fu32 => Some(Api::NvAPI_D3D11_SetNvShaderExtnSlot),
        0x86f05d7au32 => Some(Api::NvAPI_GPU_GetPartitionCount),
        0x891fa0aeu32 => Some(Api::NvAPI_GPU_SetCoolerLevels),
        0x8f6ed0fbu32 => Some(Api::NvAPI_GPU_RestoreCoolerSettings),
        0x843c0256u32 => Some(Api::NvAPI_GPU_GetPstatesInfoEx),
        0x88c82104u32 => Some(Api::NvAPI_GPU_GetPstateClientLimits),
        0x8159e87au32 => Some(Api::NvAPI_GPU_GetColorSpaceConversion),
        0x8a50f126u32 => Some(Api::NvAPI_SYS_GetChipSetTopologyStatus),
        0x80b1abb9u32 => Some(Api::NvAPI_GPU_QueryWorkstationFeatureSupport),
        0x854ba405u32 => Some(Api::NvAPI_RevertCustomDisplayTrial),
        0x8e985ccdu32 => Some(Api::NvAPI_GetDisplayFeatureConfig),
        0x8eb56969u32 => Some(Api::NvAPI_Disp_DpAuxChannelControl),
        0x8354a8f4u32 => Some(Api::NvAPI_SetPVExtProfile),
        0x8e1f8cfeu32 => Some(Api::NvAPI_VideoGetStereoInfo),
        0x8bbff88bu32 => Some(Api::NvAPI_GSync_SetControlParameters),
        0x8b7e99b5u32 => Some(Api::NvAPI_Stereo_CapturePngImage),
        0x8c610bdau32 => Some(Api::NvAPI_Stereo_AppHandShake),
        0x869534e2u32 => Some(Api::NvAPI_VIO_QueryTopology),
        0x8061a4b1u32 => Some(Api::NvAPI_3D_GetProperty),
        0x8c00429au32 => Some(Api::NvAPI_DISP_GetVirtualRefreshRateData),
        0x85ff5a15u32 => Some(Api::NvAPI_SYS_VenturaSetCoolingBudget),
        0x842b066eu32 => Some(Api::NvAPI_GPU_GetLogicalGpuInfo),
        0x81d629c5u32 => Some(Api::NvAPI_GPU_GetVRReadyData),
        0x8456ff3du32 => Some(Api::NvAPI_GPU_ClearPCIELinkErrorInfo),
        0x813d89a8u32 => Some(Api::NvAPI_GetTopologyDisplayGPU),
        0x8e875cf9u32 => Some(Api::NvAPI_GetScalingCaps),
        0x814b209fu32 => Some(Api::NvAPI_GPU_ClientFanCoolersGetControl),
        0x82236c47u32 => Some(Api::NvAPI_D3D11_ExecuteMetaCommand),
        0x82b91b25u32 => Some(Api::NvAPI_D3D12_CopyTextureRegion),
        0x83556d87u32 => Some(Api::NvAPI_D3D12_SetSinglePassStereoMode),
        0x8285c8dau32 => Some(Api::NvAPI_D3D_SetMultiViewMode),
        0x8ceca0ecu32 => Some(Api::NvAPI_D3D_QueryLateLatchSupport),
        0x8c02c4d0u32 => Some(Api::NvAPI_D3D_RegisterDevice),
        0x852cd1d2u32 => Some(Api::NvAPI_D3D_Sleep),
        0x80403fc9u32 => Some(Api::NvAPI_D3D12_GetCudaTextureObject),
        0x89eca416u32 => Some(Api::NvAPI_D3D11_CreateSamplerState),
        0x85a6c2a0u32 => Some(Api::NvAPI_D3D12_GetRaytracingCaps),
        0x8d025b77u32 => Some(Api::NvAPI_D3D12_GetRaytracingAccelerationStructurePrebuildInfoEx),
        0x814f8d11u32 => Some(Api::NvAPI_D3D12_BuildRaytracingOpacityMicromapArray),
        0x8efc0978u32 => Some(Api::Unknown_8EFC0978),
        _ => None,
    }
}

/// The API with a given interface id among those whose top four bits are 9.
pub open spec fn api_of_id_9(id: u32) -> Option<Api> {
    match id {
        0x9abdd40du32 => Some(Api::NvAPI_EnumNvidiaDisplayHandle),
        0x92f9d80du32 => Some(Api::NvAPI_Disp_ColorControl),
        0x95b64341u32 => Some(Api::NvAPI_GetHUEInfo),
        0x9fb063dfu32 => Some(Api::NvAPI_GetImageSharpeningInfo),
        0x905f5c27u32 => Some(Api::NvAPI_D3D9_SetResourceHint),
        0x9d2509efu32 => Some(Api::NvAPI_D3D9_VideoSurfaceEncryptionControl),
        0x962b8af6u32 => Some(Api::NvAPI_D3D9_DMA),
        0x96043cc7u32 => Some(Api::NvAPI_GPU_GetConnectedSLIOutputsWithLidState),
        0x987947cdu32 => Some(Api::NvAPI_GPU_SetCoolerPolicyTable),
        0x927da4f6u32 => Some(Api::NvAPI_GPU_GetCurrentPstate),
        0x932ac8fbu32 => Some(Api::NvAPI_GPU_GetDitherControl),
        0x97063269u32 => Some(Api::NvAPI_VideoSetStereoInfo),
        0x989685f0u32 => Some(Api::NvAPI_Mosaic_GetOverlapLimits),
        0x9b542831u32 => Some(Api::NvAPI_Mosaic_SetCurrentTopo),
        0x932cb140u32 => Some(Api::NvAPI_Stereo_CaptureJpegImage),
        0x96eea9f8u32 => Some(Api::NvAPI_Stereo_SetActiveEye),
        0x912ac28fu32 => Some(Api::NvAPI_Stereo_SetPixelShaderConstantI),
        0x964bf452u32 => Some(Api::NvAPI_VIO_SetGamma),
        0x96bd040eu32 => Some(Api::NvAPI_VIO_IsRunning),
        0x9723d3a2u32 => Some(Api::NvAPI_GPS_SetPowerSteeringStatus),
        0x9ea74659u32 => Some(Api::NvAPI_SYS_GetPhysicalGpuFromDisplayId),
        0x9083e53au32 => Some(Api::NvAPI_D3D9_QueryFrameCount),
        0x9c39c246u32 => Some(Api::NvAPI_D3D9_BindSwapBarrier),
        0x9152e055u32 => Some(Api::NvAPI_D3D1x_QueryFrameCount),
        0x9bb9d68fu32 => Some(Api::NvAPI_D3D1x_QueryMaxSwapGroup),
        0x9de8c729u32 => Some(Api::NvAPI_D3D1x_BindSwapBarrier),
        0x9a1b9365u32 => Some(Api::NvAPI_GPU_GetIllumination),
        0x9fbae4ebu32 => Some(Api::NvAPI_D3D1x_IFR_TransferRenderTarget),
        0x919b3136u32 => Some(Api::NvAPI_GetLoadedMicrocodePrograms),
        0x988aea78u32 => Some(Api::NvAPI_GetDisplayDriverCompileType),
        0x9d772bbau32 => Some(Api::NvAPI_GetDisplayDriverSecurityLevel),
        0x9df23ca1u32 => Some(Api::NvAPI_GPU_ClientVoltRailsGetControl),
        0x91123d6au32 => Some(Api::NvAPI_D3D_BeginResourceRendering),
        0x9a06ea07u32 => Some(Api::NvAPI_D3D11_UpdateTileMappings),
        0x99ed5c1cu32 => Some(Api::NvAPI_D3D11_CreateGeometryShaderEx_2),
        0x924be9d6u32 => Some(Api::NvAPI_D3D12_CreateHeap2),
        0x9aa2aabbu32 => Some(Api::NvAPI_D3D12_ReservedResourceGetDesc),
        0x9c1eed78u32 => Some(Api::NvAPI_D3D_IsGSyncCapable),
        0x99ca2dffu32 => Some(Api::NvAPI_D3D11_CreateShadingRateResourceView),
        0x9006fa68u32 => Some(Api::NvAPI_D3D11_GetCudaTextureObject),
        _ => None,
    }
}

/// The API with a given interface id among those whose top four bits are 10.
pub open spec fn api_of_id_a(id: u32) -> Option<Api> {
    match id {
        0xadd604d1u32 => Some(Api::NvAPI_GetLogicalGPUFromPhysicalGPU),
        0xaea3fa32u32 => Some(Api::NvAPI_GetPhysicalGPUsFromLogicalGPU),
        0xa70503b2u32 => Some(Api::NvAPI_DISP_GetAssociatedUnAttachedNvidiaDisplayHandle),
        0xab163097u32 => Some(Api::NvAPI_DisableHWCursor),
        0xa064bdfcu32 => Some(Api::NvAPI_D3D9_RegisterResource),
        0xa342f682u32 => Some(Api::NvAPI_D3D9_CreatePathContextNV),
        0xa4527bf8u32 => Some(Api::NvAPI_D3D9_GetVideoState),
        0xaeaecd41u32 => Some(Api::NvAPI_D3D9_StretchRect),
        0xae9c2019u32 => Some(Api::NvAPI_D3D10_ProcessCallbacks),
        0xac2dfeb5u32 => Some(Api::NvAPI_D3D12_SetNvShaderExtnSlotSpace),
        0xae5fbcfeu32 => Some(Api::NvAPI_GPU_GetTotalSMCount),
        0xacc3da0au32 => Some(Api::NvAPI_GPU_GetVbiosRevision),
        0xa561fd7du32 => Some(Api::NvAPI_GPU_GetVbiosVersionString),
        0xaed02700u32 => Some(Api::NvAPI_SetTVOutputBorderColor),
        0xa81f8992u32 => Some(Api::NvAPI_GPU_GetPerGpuTopologyStatus),
        0xa4dfd3f2u32 => Some(Api::NvAPI_GPU_ClientPowerTopologyGetInfo),
        0xad95f5edu32 => Some(Api::NvAPI_GPU_ClientPowerPoliciesSetStatus),
        0xae921f12u32 => Some(Api::NvAPI_OGL_ExpertModeDefaultsGet),
        0xafc4833eu32 => Some(Api::NvAPI_GetTiming),
        0xa2072d59u32 => Some(Api::NvAPI_DISP_EnumCustomDisplay),
        0xa9062c78u32 => Some(Api::NvAPI_SaveCustomDisplay),
        0xa3c55220u32 => Some(Api::NvAPI_Mosaic_EnumGridTopologies),
        0xac7e37f4u32 => Some(Api::NvAPI_Stereo_CreateHandleFromIUnknown),
        0xa17daabeu32 => Some(Api::NvAPI_Stereo_IncreaseConvergence),
        0xa9657f32u32 => Some(Api::NvAPI_Stereo_SetPixelShaderConstantF),
        0xa1ec8d74u32 => Some(Api::NvAPI_VIO_SetCSC),
        0xadeeaf67u32 => Some(Api::NvAPI_GPU_ClientRegisterForUtilizationSampleUpdates),
        0xae457190u32 => Some(Api::NvAPI_DISP_GetDisplayIdByDisplayName),
        0xa776e8dbu32 => Some(Api::NvAPI_D3D_SetFPSIndicatorState),
        0xae3039dau32 => Some(Api::NvAPI_DRS_EnumSettings),
        0xa57457a4u32 => Some(Api::NvAPI_GPU_SetScanoutIntensity),
        0xa629da31u32 => Some(Api::NvAPI_GPU_QueryIlluminationSupport),
        0xa4218928u32 => Some(Api::NvAPI_GPU_GetManufacturingInfo),
        0xa0c72ee4u32 => Some(Api::NvAPI_CreateUnAttachedDisplayFromDisplay),
        0xa58971a5u32 => Some(Api::NvAPI_GPU_ClientFanCoolersSetControl),
        0xa15faef7u32 => Some(Api::NvAPI_D3D12_QueryPresentBarrierSupport),
        0xa0d7180du32 => Some(Api::NvAPI_D3D11_CreateDomainShaderEx),
        0xaf6d14dau32 => Some(Api::NvAPI_D3D11_GetResourceGPUVirtualAddressEx),
        0xaec629e9u32 => Some(Api::NvAPI_D3D11_InitializeMetaCommand),
        0xa4125399u32 => Some(Api::NvAPI_D3D12_InitializeMetaCommand),
        0xa39e6e6eu32 => Some(Api::NvAPI_D3D_SetSinglePassStereoMode),
        0xa46022c7u32 => Some(Api::NvAPI_D3D12_Mosaic_GetCompanionAllocations),
        0xae4d73efu32 => Some(Api::NvAPI_D3D11_RSSetExclusiveScissorRects),
        0xa942373au32 => Some(Api::NvAPI_D3D11_RSSetPixelShadingRateSampleOrder),
        0xaef96ca1u32 => Some(Api::NvAPI_D3D_GetSleepStatus),
        0xac1ca9e0u32 => Some(Api::NvAPI_D3D_SetSleepMode),
        0xad1a677du32 => Some(Api::NvAPI_D3D12_CreateCuModule),
        0xafb237d4u32 => Some(Api::NvAPI_D3D12_CheckDriverMatchingIdentifierEx),
        _ => None,
    }
}

/// The API with a given interface id among those whose top four bits are 11.
pub open spec fn api_of_id_b(id: u32) -> Option<Api> {
    match id {
        0xbb2b17aau32 => Some(Api::NvAPI_D3D9_UnregisterResource),
        0xb380f218u32 => Some(Api::NvAPI_D3D9_GetCurrentZBufferHandle),
        0xb476bf61u32 => Some(Api::NvAPI_D3D9_CreateVideoEnd),
        0xb852f4dbu32 => Some(Api::NvAPI_D3D9_VideoSetStereoInfo),
        0xbd4bc56fu32 => Some(Api::NvAPI_D3D9_SetVideoState),
        0xbfdc062cu32 => Some(Api::NvAPI_D3D9_SetSLIMode),
        0xbd3eb475u32 => Some(Api::NvAPI_D3D9_NVFBC_GetStatus),
        0xbb939ee5u32 => Some(Api::NvAPI_D3D11_CreateDeviceAndSwapChain),
        0xba08208au32 => Some(Api::NvAPI_D3D11_BeginUAVOverlapEx),
        0xb6d62591u32 => Some(Api::NvAPI_GPU_GetTotalSPCount),
        0xbaaabfccu32 => Some(Api::NvAPI_GPU_GetSystemType),
        0xba94c56eu32 => Some(Api::NvAPI_GPU_GetPstatesInfo),
        0xb23b70eeu32 => Some(Api::NvAPI_GPU_EnableOverclockedPstates),
        0xb47a657eu32 => Some(Api::NvAPI_OGL_ExpertModeDefaultsSet),
        0xbf6c1762u32 => Some(Api::NvAPI_TryCustomDisplay),
        0xb3bb0772u32 => Some(Api::NvAPI_GetHDCPLinkParameters),
        0xb033b140u32 => Some(Api::NvAPI_Mosaic_ChooseGpuTopologies),
        0xbb9ef1c3u32 => Some(Api::NvAPI_QueryNonMigratableApps),
        0xbe7692ecu32 => Some(Api::NvAPI_Stereo_CreateConfigurationProfileRegistryKey),
        0xb30cd1a7u32 => Some(Api::NvAPI_Stereo_HandShake_Trigger_Activation),
        0xba6109eeu32 => Some(Api::NvAPI_Stereo_SetPixelShaderConstantB),
        0xb981d935u32 => Some(Api::NvAPI_VIO_GetPCIInfo),
        0xb85de27cu32 => Some(Api::NvAPI_3D_GetPropertyRange),
        0xb73d1ee9u32 => Some(Api::NvAPI_DISP_GetAdaptiveSyncData),
        0xbc371ee0u32 => Some(Api::NvAPI_DRS_EnumProfiles),
        0xbd71f0c9u32 => Some(Api::NvAPI_GPU_GetCurrentFanSpeedLevel),
        0xb34bab4fu32 => Some(Api::NvAPI_GPU_SetScanoutWarping),
        0xb7ab19b9u32 => Some(Api::NvAPI_GPU_GetMXMBlock),
        0xb4b26b65u32 => Some(Api::NvAPI_RestartDisplayDriver),
        0xb539a26eu32 => Some(Api::NvAPI_SYS_GetSliApprovalCookie),
        0xb9306d9bu32 => Some(Api::NvAPI_GPU_ClientVoltRailsSetControl),
        0xbc4aee25u32 => Some(Api::NvAPI_GPU_ClientStartOcScanner),
        0xb5a21987u32 => Some(Api::NvAPI_D3D12_CreateDDisplayPresentBarrierClient),
        0xb8f79632u32 => Some(Api::NvAPI_D3D11_CreateImplicitMSAATexture2D),
        0xb53cab00u32 => Some(Api::NvAPI_D3D11_CreateHullShaderEx),
        0xb9333fe9u32 => Some(Api::NvAPI_D3D12_SetDepthBoundsTestValues),
        0xb942bab7u32 => Some(Api::NvAPI_D3D12_ResourceAliasingBarrier),
        0xb43995cbu32 => Some(Api::NvAPI_D3D12_GetOptimalThreadCountForMesh),
        0xbdb20007u32 => Some(Api::NvAPI_D3D11_CreateMultiGPUDevice),
        0xb6e0a41cu32 => Some(Api::NvAPI_D3D_QueryMultiViewSupport),
        0xb092b818u32 => Some(Api::NvAPI_D3D12_Mosaic_GetViewportAndGpuPartitions),
        0xb672be19u32 => Some(Api::NvAPI_D3D11_CreateCubinComputeShaderWithName),
        0xb7bcf50du32 => Some(Api::Unknown_B7BCF50D),
        _ => None,
    }
}

/// The API with a given interface id among those whose top four bits are 12.
pub open spec fn api_of_id_c(id: u32) -> Option<Api> {
    match id {
        0xc64ff367u32 => Some(Api::NvAPI_GetDisplayPortInfo),
        0xc8ff7258u32 => Some(Api::NvAPI_D3D_DestroyQuery),
        0xc23df926u32 => Some(Api::NvAPI_D3D9_PathVerticesNV),
        0xc7985ed5u32 => Some(Api::NvAPI_D3D9_GetTextureHandle),
        0xcde4a28au32 => Some(Api::NvAPI_D3D9_GpuSyncMapTexBuffer),
        0xc182027eu32 => Some(Api::NvAPI_D3D9_Unlock),
        0xcfc92c15u32 => Some(Api::NvAPI_D3D9_IFR_SetUpTargetBufferToNV12BLVideoSurface),
        0xcac3ce5du32 => Some(Api::NvAPI_D3D10_GetRenderedCursorAsBitmap),
        0xc7026a87u32 => Some(Api::NvAPI_GPU_GetGpuCoreCount),
        0xcf8caf39u32 => Some(Api::NvAPI_GPU_GetConnectedOutputsWithLidState),
        0xceee8e9fu32 => Some(Api::NvAPI_GPU_GetFullName),
        0xc33baeb1u32 => Some(Api::NvAPI_GPU_GetGPUType),
        0xc74925a0u32 => Some(Api::NvAPI_GPU_GetCurrentAGPRate),
        0xcdf27911u32 => Some(Api::NvAPI_GPU_SetPstatesInfo),
        0xca36a3abu32 => Some(Api::NvAPI_SetTVEncoderControls),
        0xc16c7e2cu32 => Some(Api::NvAPI_GPU_GetVoltageDomainsStatus),
        0xcda14d8au32 => Some(Api::NvAPI_SYS_GetLidAndDockInfo),
        0xcbbd40f0u32 => Some(Api::NvAPI_DISP_RevertCustomDisplayTrial),
        0xcadcb956u32 => Some(Api::NvAPI_Coproc_NotifyCoprocPowerState),
        0xcb89381du32 => Some(Api::NvAPI_Mosaic_GetTopoGroup),
        0xcf43903du32 => Some(Api::NvAPI_Mosaic_ValidateDisplayGrids),
        0xc9a8ececu32 => Some(Api::NvAPI_Stereo_IncreaseSeparation),
        0xc7177702u32 => Some(Api::NvAPI_Stereo_InitActivation),
        0xce653127u32 => Some(Api::NvAPI_Stereo_GetEyeSeparation),
        0xc79333aeu32 => Some(Api::NvAPI_Stereo_GetPixelShaderConstantB),
        0xcde8e1a3u32 => Some(Api::NvAPI_VIO_Start),
        0xc9175e8du32 => Some(Api::NvAPI_3D_SetProperty),
        0xc07e210fu32 => Some(Api::NvAPI_GPS_SetThermalLimit),
        0xc9d0e25fu32 => Some(Api::NvAPI_DISP_SetPreferredStereoDisplay),
        0xca1ddaf3u32 => Some(Api::NvAPI_GPU_GetECCStatusInfo),
        0xc71f85a6u32 => Some(Api::NvAPI_GPU_GetECCErrorInfo),
        0xc02eec20u32 => Some(Api::NvAPI_GPU_ResetECCErrorInfo),
        0xcb7c208du32 => Some(Api::NvAPI_SYS_VenturaGetState),
        0xc9d86e33u32 => Some(Api::NvAPI_SYS_VenturaGetCoolingBudget),
        0xcc176068u32 => Some(Api::NvAPI_DRS_CreateProfile),
        0xc5ea85a1u32 => Some(Api::NvAPI_DRS_DeleteApplicationEx),
        0xcb7309cdu32 => Some(Api::NvAPI_DRS_GetSettingIdFromName),
        0xc0599498u32 => Some(Api::NvAPI_GPU_GetMemoryInfoEx),
        0xc729203cu32 => Some(Api::NvAPI_GPU_GetThermalTable),
        0xcde021b9u32 => Some(Api::NvAPI_GPU_ClientFanArbitersGetStatus),
        0xc181947au32 => Some(Api::NvAPI_GPU_ClientFanPoliciesSetControl),
        0xcc727b22u32 => Some(Api::NvAPI_GPU_ClientRevertOc),
        0xc28b73deu32 => Some(Api::NvAPI_GPU_ClientStopOcScanner),
        0xc3ec5a7fu32 => Some(Api::NvAPI_LeavePresentBarrier),
        0xc24a15bfu32 => Some(Api::NvAPI_D3D12_ResolveSubresourceRegion),
        0xc09ee6bcu32 => Some(Api::NvAPI_D3D11_CopyTileMappings),
        0xc6017a7du32 => Some(Api::NvAPI_D3D12_UpdateTileMappings),
        0xc7453ba8u32 => Some(Api::NvAPI_D3D11_EnumerateMetaCommands),
        0xcd9141d8u32 => Some(Api::NvAPI_D3D12_EnumerateMetaCommands),
        0xcbf9f4f5u32 => Some(Api::NvAPI_D3D_QueryModifiedWSupport),
        0xc57921deu32 => Some(Api::NvAPI_D3D_QuerySMPAssistSupport),
        _ => None,
    }
}

/// The API with a given interface id among those whose top four bits are 13.
pub open spec fn api_of_id_d(id: u32) -> Option<Api> {
    match id {
        0xd22bdd7eu32 => Some(Api::NvAPI_Unload),
        0xd9930b07u32 => Some(Api::NvAPI_EnumTCCPhysicalGPUs),
        0xd995937eu32 => Some(Api::NvAPI_GetAssociatedDisplayOutputId),
        0xd2ccf5d6u32 => Some(Api::NvAPI_DISP_EnumHDMIStereoModes),
        0xd44d3c4eu32 => Some(Api::NvAPI_D3D_RegisterApp),
        0xd2f6c499u32 => Some(Api::NvAPI_D3D9_PathMatrixNV),
        0xdbc803ecu32 => Some(Api::NvAPI_D3D9_GpuSyncMapVertexBuffer),
        0xd00b8317u32 => Some(Api::NvAPI_D3D9_GpuSyncAcquire),
        0xd5e13573u32 => Some(Api::NvAPI_D3D9_CreateTexture),
        0xddf5643cu32 => Some(Api::NvAPI_D3D9_QueryAAOverrideMode),
        0xd504dda7u32 => Some(Api::NvAPI_D3D9_GPUBasedCPUSleep),
        0xd2277e3au32 => Some(Api::NvAPI_GPU_GetDeviceDisplayMode),
        0xd048c3b1u32 => Some(Api::NvAPI_GPU_GetCurrentPCIEDownstreamWidth),
        0xdcb616c3u32 => Some(Api::NvAPI_GPU_GetAllClockFrequencies),
        0xda141340u32 => Some(Api::NvAPI_GPU_GetCoolerSettings),
        0xd8c4fe63u32 => Some(Api::NvAPI_GPU_RestoreCoolerPolicyTable),
        0xdf0dfcddu32 => Some(Api::NvAPI_GPU_SetDitherControl),
        0xdc27d5d4u32 => Some(Api::NvAPI_GetDisplaySettings),
        0xd6b99d89u32 => Some(Api::NvAPI_GetView),
        0xdbbc0af4u32 => Some(Api::NvAPI_GetViewEx),
        0xda97071eu32 => Some(Api::NvAPI_Mosaic_GetMosaicCapabilities),
        0xd58026b9u32 => Some(Api::NvAPI_Mosaic_GetDisplayCapabilities),
        0xdc6dc8d3u32 => Some(Api::NvAPI_Mosaic_GetDisplayViewportsByResolution),
        0xdf2887afu32 => Some(Api::NvAPI_Mosaic_EnumDisplayGrids),
        0xd54b8989u32 => Some(Api::NvAPI_SetCurrentMosaicTopology),
        0xd9639601u32 => Some(Api::NvAPI_GSync_EnumSyncDevices),
        0xdfc063b7u32 => Some(Api::NvAPI_Stereo_GetStereoCaps),
        0xda044458u32 => Some(Api::NvAPI_Stereo_DecreaseSeparation),
        0xd4974572u32 => Some(Api::NvAPI_Stereo_GetPixelShaderConstantF),
        0xd7c9ec09u32 => Some(Api::NvAPI_Stereo_Is3DCursorSupported),
        0xd01bd237u32 => Some(Api::NvAPI_VIO_Close),
        0xd34a789bu32 => Some(Api::NvAPI_VIO_GetConfig),
        0xdbdf0cb2u32 => Some(Api::NvAPI_DISP_GetNvManagedDedicatedDisplays),
        0xdad9cff8u32 => Some(Api::NvAPI_DRS_DestroySession),
        0xd3ede889u32 => Some(Api::NvAPI_DRS_LoadSettingsFromFile),
        0xd61cbe6eu32 => Some(Api::NvAPI_DRS_GetSettingNameFromId),
        0xda8466a0u32 => Some(Api::NvAPI_DRS_GetBaseProfile),
        0xde1f9b45u32 => Some(Api::NvAPI_Event_UnregisterCallback),
        0xd2488b79u32 => Some(Api::NvAPI_GPU_GetCurrentThermalLevel),
        0xd8cbf37bu32 => Some(Api::NvAPI_GPU_GetVPECount),
        0xd988f0f3u32 => Some(Api::NvAPI_GPU_GetShortName),
        0xdee047abu32 => Some(Api::NvAPI_GPU_GetPSFloorSweepStatus),
        0xd4f3944cu32 => Some(Api::NvAPI_GPU_GetVSFloorSweepStatus),
        0xd8265d24u32 => Some(Api::NvAPI_GPU_GetArchInfo),
        0xd26b8a58u32 => Some(Api::NvAPI_GPU_GetHybridControllerInfo),
        0xd3a092b1u32 => Some(Api::NvAPI_SYS_SetPostOutput),
        0xdddfda38u32 => Some(Api::NvAPI_GPU_ClientFanArbitersGetInfo),
        0xd4100e58u32 => Some(Api::NvAPI_GPU_ClientIllumDevicesGetInfo),
        0xd53c9ef0u32 => Some(Api::NvAPI_D3D12_RegisterPresentBarrierResources),
        0xdb8d28afu32 => Some(Api::NvAPI_D3D11_CreateRasterizerState),
        0xd6839099u32 => Some(Api::NvAPI_D3D11_TiledResourceBarrier),
        0xde24fc3du32 => Some(Api::NvAPI_D3D12_ExecuteMetaCommand),
        0xd0cbca7du32 => Some(Api::NvAPI_D3D1x_DisableShaderDiskCache),
        0xd2d25687u32 => Some(Api::NvAPI_D3D11_MultiGPU_GetCaps),
        0xd4e26bbfu32 => Some(Api::NvAPI_D3D11_MultiDrawInstancedIndirect),
        0xd9984c05u32 => Some(Api::NvAPI_D3D_SetLatencyMarker),
        0xdf295ea6u32 => Some(Api::NvAPI_D3D12_DestroyCuFunction),
        _ => None,
    }
}

/// The API with a given interface id among those whose top four bits are 14.
pub open spec fn api_of_id_e(id: u32) -> Option<Api> {
    match id {
        0xe5ac921fu32 => Some(Api::NvAPI_EnumPhysicalGPUs),
        0xee1370cfu32 => Some(Api::NvAPI_GetLogicalGPUFromDisplay),
        0xe5ceae41u32 => Some(Api::NvAPI_D3D9_AliasSurfaceAsTexture),
        0xe5a9aae0u32 => Some(Api::NvAPI_D3D_Query_Begin),
        0xe99ba7f3u32 => Some(Api::NvAPI_D3D9_PathEnableDepthTestNV),
        0xef303a9du32 => Some(Api::NvAPI_D3D10_BeginShareResourceEx),
        0xeb7af173u32 => Some(Api::NvAPI_GPU_GetSMMask),
        0xe3e89b6fu32 => Some(Api::NvAPI_GPU_GetActiveOutputs),
        0xe83d6456u32 => Some(Api::NvAPI_GPU_SetEDID),
        0xe4715417u32 => Some(Api::NvAPI_GPU_GetIRQ),
        0xe332fa47u32 => Some(Api::NvAPI_GPU_GetQuadroStatus),
        0xe3640a56u32 => Some(Api::NvAPI_GPU_GetThermalSettings),
        0xe812eb07u32 => Some(Api::NvAPI_I2CWrite),
        0xedcf624eu32 => Some(Api::NvAPI_GPU_ClientPowerTopologyGetStatus),
        0xe04f3d86u32 => Some(Api::NvAPI_SetDisplaySettings),
        0xe7cb998du32 => Some(Api::NvAPI_DeleteCustomDisplay),
        0xe23b68c1u32 => Some(Api::NvAPI_GetHybridMode),
        0xec32944eu32 => Some(Api::NvAPI_Mosaic_GetCurrentTopo),
        0xe6839b43u32 => Some(Api::NvAPI_Stereo_GetFrustumAdjustMode),
        0xed4416c5u32 => Some(Api::NvAPI_Stereo_Debug_WasLastDrawStereoized),
        0xecd8f8cfu32 => Some(Api::NvAPI_Stereo_GetPixelShaderConstantI),
        0xead72fe4u32 => Some(Api::NvAPI_VIO_EnumSignalFormats),
        0xeba4d232u32 => Some(Api::NvAPI_D3D9_QuerySwapGroup),
        0xed1f8c69u32 => Some(Api::NvAPI_DRS_GetApplicationInfo),
        0xeee566b2u32 => Some(Api::NvAPI_DRS_FindApplicationByName),
        0xe4a26362u32 => Some(Api::NvAPI_DRS_DeleteProfileSetting),
        0xe6dbea69u32 => Some(Api::NvAPI_Event_RegisterCallback),
        0xe81ce836u32 => Some(Api::NvAPI_GPU_GetScanoutIntensityState),
        0xe2e1e6f0u32 => Some(Api::NvAPI_GPU_GetScanoutConfigurationEx),
        0xe0b1dce9u32 => Some(Api::NvAPI_GPU_GetRawFuseData),
        0xe1d5dabau32 => Some(Api::NvAPI_GPU_GetVbiosMxmVersion),
        0xe3795199u32 => Some(Api::NvAPI_GPU_GetPCIEInfo),
        0xed9e8057u32 => Some(Api::NvAPI_GPU_GetDisplayUnderflowStatus),
        0xe4b701e3u32 => Some(Api::NvAPI_GPU_GetBarInfo),
        0xe9c425a1u32 => Some(Api::NvAPI_GPU_ClientThermalPoliciesGetStatus),
        0xe440b867u32 => Some(Api::NvAPI_GPU_PerfClientLimitsGetStatus),
        0xe543c540u32 => Some(Api::NvAPI_GPU_ClientFanPoliciesGetControl),
        0xe6bfedd6u32 => Some(Api::NvAPI_D3D11_ResolveSubresourceRegion),
        0xeb29634bu32 => Some(Api::NvAPI_D3D12_CreateMetaCommand),
        0xe942b0ffu32 => Some(Api::NvAPI_D3D_IsGSyncActive),
        0xe1fdaba7u32 => Some(Api::NvAPI_D3D12_SetModifiedWMode),
        0xe2436e22u32 => Some(Api::NvAPI_D3D12_CreateCuFunction),
        0xe24ead45u32 => Some(Api::NvAPI_D3D12_BuildRaytracingAccelerationStructureEx),
        _ => None,
    }
}

/// The API with a given interface id among those whose top four bits are 15.
pub open spec fn api_of_id_f(id: u32) -> Option<Api> {
    match id {
        0xf951a4d1u32 => Some(Api::NvAPI_GetDisplayDriverVersion),
        0xfa13e65au32 => Some(Api::NvAPI_SetDisplayPort),
        0xf5a0f22cu32 => Some(Api::NvAPI_SetHUEAngle),
        0xf8b53c69u32 => Some(Api::NvAPI_D3D_Query_GetData),
        0xf2a54796u32 => Some(Api::NvAPI_D3D_Query_GetDataSize),
        0xf7ff00c1u32 => Some(Api::NvAPI_D3D9_PathParameterfNV),
        0xfc31236cu32 => Some(Api::NvAPI_D3D9_PathParameteriNV),
        0xfcb16330u32 => Some(Api::NvAPI_D3D9_PathDepthNV),
        0xfc5a155bu32 => Some(Api::NvAPI_D3D9_GetIndexBufferHandle),
        0xfdfc7d49u32 => Some(Api::NvAPI_GPU_SetPstateClientLimits),
        0xfa579a0fu32 => Some(Api::NvAPI_GPU_EnableDynamicPstates),
        0xfcabd23au32 => Some(Api::NvAPI_GPU_SetColorSpaceConversion),
        0xf98854c8u32 => Some(Api::NvAPI_DeleteUnderscanConfig),
        0xf36a668du32 => Some(Api::NvAPI_SetDisplayFeatureConfig),
        0xfb22d656u32 => Some(Api::NvAPI_SetHybridMode),
        0xf4c863acu32 => Some(Api::NvAPI_Coproc_SetCoprocInfoFlagsEx),
        0xfdb63c81u32 => Some(Api::NvAPI_Mosaic_GetSupportedTopoInfo),
        0xf60852bdu32 => Some(Api::NvAPI_GetCurrentMosaicTopology),
        0xf1f5b434u32 => Some(Api::NvAPI_GSync_GetSyncStatus),
        0xf4c2f8ccu32 => Some(Api::NvAPI_Hybrid_QueryBlockedMigratableApps),
        0xfa0b9a59u32 => Some(Api::NvAPI_Hybrid_SetAppMigrationState),
        0xfab69565u32 => Some(Api::NvAPI_GPU_GPIOQueryLegalPins),
        0xf5e10439u32 => Some(Api::NvAPI_GPU_GPIOReadFromPin),
        0xf3b11e68u32 => Some(Api::NvAPI_GPU_GPIOWriteToPin),
        0xf089eef5u32 => Some(Api::NvAPI_GPU_GetHDCPSupportStatus),
        0xf117b834u32 => Some(Api::NvAPI_Stereo_DeleteConfigurationProfileRegistryKey),
        0xf6a1ad68u32 => Some(Api::NvAPI_Stereo_Activate),
        0xf5dcfcbau32 => Some(Api::NvAPI_Stereo_SetSurfaceCreationMode),
        0xfbc08fc1u32 => Some(Api::NvAPI_Stereo_SetCursorSeparation),
        0xfd7c5557u32 => Some(Api::NvAPI_VIO_EnumDevices),
        0xfa6a0675u32 => Some(Api::NvAPI_D3D9_ResetFrameCount),
        0xfbbb031au32 => Some(Api::NvAPI_D3D1x_ResetFrameCount),
        0xfcbc7e14u32 => Some(Api::NvAPI_DRS_SaveSettings),
        0xf020614au32 => Some(Api::NvAPI_DRS_EnumAvailableSettingIds),
        0xfa5f6134u32 => Some(Api::NvAPI_DRS_RestoreProfileDefault),
        0xf898247du32 => Some(Api::NvAPI_GPU_SetScanoutCompositionParameter),
        0xf5579360u32 => Some(Api::NvAPI_AccessDisplayDriverRegistry),
        0xfc13ee11u32 => Some(Api::NvAPI_GPU_GetVbiosImage),
        0xf91e777bu32 => Some(Api::NvAPI_GPU_GetHardwareQualType),
        0xf409d5e5u32 => Some(Api::NvAPI_SetTopologyDisplayGPU),
        0xfb85b01eu32 => Some(Api::NvAPI_GPU_ClientFanCoolersGetInfo),
        0xf627074fu32 => Some(Api::NvAPI_GPU_ClientRegisterForOcConfigChangedUpdates),
        0xfceac864u32 => Some(Api::NvAPI_D3D_GetObjectHandleForResource),
        0xf1a2b9d5u32 => Some(Api::NvAPI_D3D11_TiledTexture2DArrayGetDesc),
        0xf1c54fc9u32 => Some(Api::NvAPI_D3D11_AliasMSAATexture2DAsNonMSAA),
        0xf505fba0u32 => Some(Api::NvAPI_D3D11_CreateMetaCommand),
        0xf6305eb5u32 => Some(Api::NvAPI_D3D12_GetCopyableFootprints),
        0xf0d978a8u32 => Some(Api::NvAPI_D3D12_UseDriverHeapPriorities),
        0xf1d2777bu32 => Some(Api::Unknown_F1D2777B),
        0xfdc129fau32 => Some(Api::Unknown_GetROPCount),
        _ => None,
    }
}

fn from_id_0(id: u32) -> (r: Option<Api>)
    ensures
        r == api_of_id_0(id),
{
    match id {
        0x0150e828u32 => Some(Api::NvAPI_Initialize),
        0x01053fa5u32 => Some(Api::NvAPI_GetInterfaceVersionString),
        0x09734f1du32 => Some(Api::NvAPI_GetInfoFrame),
        0x0291bff2u32 => Some(Api::NvAPI_DISP_OverrideDisplayModeList),
        0x0e45002du32 => Some(Api::NvAPI_GetDVCInfoEx),
        0x0f2dd3f2u32 => Some(Api::NvAPI_D3D9_GetSurfaceHandle),
        0x022cad61u32 => Some(Api::NvAPI_D3D9_GetCurrentRenderTargetHandle),
        0x0f7029c5u32 => Some(Api::NvAPI_D3D9_PresentSurfaceToDesktop),
        0x0b3827c8u32 => Some(Api::NvAPI_D3D9_CreateRenderTarget),
        0x0ab7c2dcu32 => Some(Api::NvAPI_D3D9_IFR_TransferRenderTarget),
        0x0e9c5853u32 => Some(Api::NvAPI_D3D10_EndShareResource),
        0x0121bdc6u32 => Some(Api::NvAPI_D3D11_BeginShareResource),
        0x0e6482a0u32 => Some(Api::NvAPI_D3D11_SetNvShaderExtnSlotLocalThread),
        0x09d52986u32 => Some(Api::NvAPI_D3D11_GetResourceHandle),
        0x0be17923u32 => Some(Api::NvAPI_GPU_GetShaderSubPipeCount),
        0x0680de09u32 => Some(Api::NvAPI_GPU_GetConnectedSLIOutputs),
        0x0078dba2u32 => Some(Api::NvAPI_GPU_GetConnectedDisplayIds),
        0x07bcf4acu32 => Some(Api::NvAPI_GPU_SetPerfClocks),
        0x0518a32cu32 => Some(Api::NvAPI_GPU_GetCoolerPolicyTable),
        0x0f4dae6bu32 => Some(Api::NvAPI_GPU_SetPstates20),
        0x004537dfu32 => Some(Api::NvAPI_GPU_WorkstationFeatureQuery),
        0x0f5f4d01u32 => Some(Api::NvAPI_GetDisplayFeatureConfigDefaults),
        0x0957d7b6u32 => Some(Api::NvAPI_SetView),
        0x06b89e68u32 => Some(Api::NvAPI_SetViewEx),
        0x054fe75au32 => Some(Api::NvAPI_SetVideoState),
        0x07eba036u32 => Some(Api::NvAPI_Mosaic_GetMosaicViewports),
        0x0a8064f9u32 => Some(Api::NvAPI_SetTopologyFocusDisplayAndView),
        0x0d6c6cd2u32 => Some(Api::NvAPI_Stereo_Trigger_Activation),
        0x0e6ce4f1u32 => Some(Api::NvAPI_VIO_Status),
        0x0e4eec07u32 => Some(Api::NvAPI_VIO_SetConfig),
        0x08f2bab4u32 => Some(Api::NvAPI_SYS_GetDisplayIdFromGpuAndOutputId),
        0x05650bebu32 => Some(Api::NvAPI_D3D9_Present),
        0x03b845a1u32 => Some(Api::NvAPI_D3D1x_Present),
        0x0ce2e9d9u32 => Some(Api::NvAPI_SYS_VenturaSetState),
        0x0694d52eu32 => Some(Api::NvAPI_DRS_CreateSession),
        0x0ff07fdeu32 => Some(Api::NvAPI_GPU_GetAdapterIdFromPhysicalGpu),
        0x0254a187u32 => Some(Api::NvAPI_GPU_SetIllumination),
        0x07f9b368u32 => Some(Api::NvAPI_GPU_GetMemoryInfo),
        0x0e24ceeeu32 => Some(Api::NvAPI_GetDisplayDriverRegistryPath),
        0x0d258bb5u32 => Some(Api::NvAPI_GPU_ClientThermalPoliciesGetInfo),
        0x0733e009u32 => Some(Api::NvAPI_GPU_ClockClientClkVfPointsSetControl),
        0x0beaa0b2u32 => Some(Api::NvAPI_D3D11_CreateVertexShaderEx),
        0x027e98aeu32 => Some(Api::NvAPI_D3D12_CreateCommittedResource),
        0x017be49eu32 => Some(Api::NvAPI_D3D11_MultiGPU_Init),
        0x06ea4bf4u32 => Some(Api::NvAPI_D3D_SetModifiedWMode),
        0x01e87354u32 => Some(Api::NvAPI_D3D12_GetGraphicsCapabilities),
        0x092442a1u32 => Some(Api::NvAPI_D3D11_RSGetPixelShadingRateSampleOrder),
        0x03d6e8cbu32 => Some(Api::NvAPI_D3D12_NotifyOutOfBandCommandQueue),
        0x0ed98181u32 => Some(Api::NvAPI_D3D11_CreateCubinComputeShader),
        0x01682c86u32 => Some(Api::NvAPI_D3D11_DestroyCubinComputeShader),
        0x0425c538u32 => Some(Api::NvAPI_D3D12_RelocateRaytracingOpacityMicromapArray),
        _ => None,
    }
}

fn from_id_1(id: u32) -> (r: Option<Api>)
    ensures
        r == api_of_id_1(id),
{
    match id {
        0x172409b4u32 => Some(Api::NvAPI_SetDVCLevel),
        0x157e45c4u32 => Some(Api::NvAPI_D3D9_PathClearDepthNV),
        0x13199b3du32 => Some(Api::NvAPI_D3D9_DrawPathNV),
        0x12ee68f2u32 => Some(Api::NvAPI_D3D9_GpuSyncMapIndexBuffer),
        0x18cdf365u32 => Some(Api::NvAPI_D3D9_SetPitchSurfaceCreation),
        0x13c7112eu32 => Some(Api::NvAPI_D3D9_AliasPrimaryAsTexture),
        0x1e6634b3u32 => Some(Api::NvAPI_D3D9_QueryVideoInfo),
        0x1db7c52cu32 => Some(Api::NvAPI_D3D9_EnumVideoFeatures),
        0x1730bfc9u32 => Some(Api::NvAPI_GPU_GetConnectedOutputs),
        0x1bb18724u32 => Some(Api::NvAPI_GPU_GetBusType),
        0x1be0b8e5u32 => Some(Api::NvAPI_GPU_GetBusId),
        0x11104158u32 => Some(Api::NvAPI_GPU_GetFBWidthAndLocation),
        0x1ea54a3bu32 => Some(Api::NvAPI_GPU_GetPerfClocks),
        0x15658be6u32 => Some(Api::NvAPI_GetInvalidGpuTopologies),
        0x175167e9u32 => Some(Api::NvAPI_DISP_GetTiming),
        0x1f7db630u32 => Some(Api::NvAPI_DISP_TryCustomDisplay),
        0x1efc3957u32 => Some(Api::NvAPI_Coproc_GetCoprocStatus),
        0x1c5659cdu32 => Some(Api::NvAPI_GetVideoState),
        0x18919887u32 => Some(Api::NvAPI_SetFrameRateNotify),
        0x1b1b9a16u32 => Some(Api::NvAPI_GetPVExtProfile),
        0x1ecfd263u32 => Some(Api::NvAPI_Mosaic_ValidateDisplayGridsWithSLI),
        0x16de1c6au32 => Some(Api::NvAPI_GSync_GetControlParameters),
        0x1fb0bc30u32 => Some(Api::NvAPI_Stereo_IsActivated),
        0x1dc91303u32 => Some(Api::NvAPI_VIO_GetCapabilities),
        0x118d48a3u32 => Some(Api::NvAPI_VIO_SyncFormatDetect),
        0x112ba1a5u32 => Some(Api::NvAPI_SYS_GetGpuAndOutputIdFromDisplayId),
        0x1e9d8a31u32 => Some(Api::NvAPI_DISP_GetGDIPrimaryDisplayId),
        0x11abccf8u32 => Some(Api::NvAPI_DISP_GetDisplayConfig),
        0x1f6b4666u32 => Some(Api::NvAPI_DISP_GetPreferredStereoDisplay),
        0x1247825fu32 => Some(Api::NvAPI_DISP_ReleaseDedicatedDisplay),
        0x1cf639d9u32 => Some(Api::NvAPI_GPU_SetECCConfiguration),
        0x1bc21b66u32 => Some(Api::NvAPI_D3D1x_CreateSwapChain),
        0x1a131e09u32 => Some(Api::NvAPI_D3D9_CreateSwapChain),
        0x14610cd7u32 => Some(Api::NvAPI_D3D1x_JoinSwapGroup),
        0x1e17e29bu32 => Some(Api::NvAPI_DISP_SetDisplayBlankingState),
        0x17093206u32 => Some(Api::NvAPI_DRS_DeleteProfile),
        0x1c89c5dfu32 => Some(Api::NvAPI_DRS_SetCurrentGlobalProfile),
        0x16abd3a9u32 => Some(Api::NvAPI_DRS_SetProfileInfo),
        0x1dae4fbcu32 => Some(Api::NvAPI_DRS_GetNumProfiles),
        0x1890e8dau32 => Some(Api::NvAPI_GetPhysicalGPUFromDisplay),
        0x14b83a5fu32 => Some(Api::NvAPI_GPU_GetSerialNumber),
        0x17073a3cu32 => Some(Api::NvAPI_GPU_GetRamBankCount),
        0x1bd69f49u32 => Some(Api::NvAPI_GPU_GetAllClocks),
        0x1aad16b4u32 => Some(Api::NvAPI_GPU_GetDeepIdleState),
        0x197d065eu32 => Some(Api::NvAPI_GPU_ClientIllumZonesSetControl),
        0x1cb41116u32 => Some(Api::NvAPI_GPU_ClientRegisterForOcScannerStatusUpdates),
        0x189a1fdfu32 => Some(Api::NvAPI_GPU_GetUsages),
        0x17f6bf82u32 => Some(Api::NvAPI_JoinPresentBarrier),
        0x106a487eu32 => Some(Api::NvAPI_D3D11_CheckFeatureSupport),
        0x1b0c2f83u32 => Some(Api::NvAPI_D3D11_RSSetShadingRateResourceView),
        0x1a587f9cu32 => Some(Api::NvAPI_D3D_GetLatency),
        0x13c98f73u32 => Some(Api::NvAPI_D3D12_SetAsyncFrameMarker),
        0x1dc7261fu32 => Some(Api::NvAPI_D3D12_CreateCubinComputeShaderWithName),
        0x1819b423u32 => Some(Api::NvAPI_D3D11_GetResourceGPUVirtualAddress),
        0x1d9a39b6u32 => Some(Api::NvAPI_D3D12_EmitRaytracingOpacityMicromapArrayPostbuildInfo),
        0x1629a173u32 => Some(Api::Unknown_1629A173),
        _ => None,
    }
}

fn from_id_2(id: u32) -> (r: Option<Api>)
    ensures
        r == api_of_id_2(id),
{
    match id {
        0x2926aaadu32 => Some(Api::NvAPI_SYS_GetDriverAndBranchVersion),
        0x20de9260u32 => Some(Api::NvAPI_EnumNvidiaUnAttachedDisplayHandle),
        0x22a78b05u32 => Some(Api::NvAPI_GetAssociatedNvidiaDisplayName),
        0x2863148du32 => Some(Api::NvAPI_EnableHWCursor),
        0x2dc95125u32 => Some(Api::NvAPI_GetDriverMemoryInfo),
        0x22de03aau32 => Some(Api::NvAPI_D3D9_StretchRectEx),
        0x2ac084fau32 => Some(Api::NvAPI_D3D_Query_End),
        0x2ab714abu32 => Some(Api::NvAPI_D3D9_GpuSyncMapSurfaceBuffer),
        0x2bbda32eu32 => Some(Api::NvAPI_D3D9_SetGamutData),
        0x2de11d61u32 => Some(Api::NvAPI_D3D10_CreateDevice),
        0x2216a357u32 => Some(Api::NvAPI_D3D11_EndUAVOverlap),
        0x2ddfb66eu32 => Some(Api::NvAPI_GPU_GetPCIIdentifiers),
        0x2a0a350fu32 => Some(Api::NvAPI_GPU_GetBusSlotId),
        0x2d43fb31u32 => Some(Api::NvAPI_GPU_GetVbiosOEMRevision),
        0x22d54523u32 => Some(Api::NvAPI_GPU_GetBoardInfo),
        0x25201f3du32 => Some(Api::NvAPI_SetGpuTopologies),
        0x2fde12c5u32 => Some(Api::NvAPI_I2CRead),
        0x283ac65au32 => Some(Api::NvAPI_I2CWriteEx),
        0x22ed9516u32 => Some(Api::NvAPI_OGL_ExpertModeGet),
        0x2f5b08e0u32 => Some(Api::NvAPI_GetPVExtName),
        0x2d11ff51u32 => Some(Api::NvAPI_GSync_AdjustSyncDelay),
        0x24409f48u32 => Some(Api::NvAPI_Stereo_SetConfigurationProfileValue),
        0x239c4545u32 => Some(Api::NvAPI_Stereo_Enable),
        0x2ec50c2bu32 => Some(Api::NvAPI_Stereo_Disable),
        0x296c434du32 => Some(Api::NvAPI_Stereo_GetStereoSupport),
        0x2d68de96u32 => Some(Api::NvAPI_Stereo_Deactivate),
        0x2d495758u32 => Some(Api::NvAPI_Stereo_ForceToScreenDepth),
        0x2697a8d1u32 => Some(Api::NvAPI_VIO_SetSyncDelay),
        0x221fa8e8u32 => Some(Api::NvAPI_VIO_EnumDataFormats),
        0x271c1109u32 => Some(Api::NvAPI_GPS_GetPerfSensors),
        0x2be25df8u32 => Some(Api::NvAPI_DRS_SaveSettingsToFile),
        0x2c694bc6u32 => Some(Api::NvAPI_DRS_DeleteApplication),
        0x2ec39f90u32 => Some(Api::NvAPI_DRS_EnumAvailableSettingValues),
        0x25f17421u32 => Some(Api::NvAPI_GPU_GetExtendedMinorRevision),
        0x25eeb2c4u32 => Some(Api::NvAPI_GetDriverModel),
        0x28766157u32 => Some(Api::NvAPI_GPU_GetVoltageStep),
        0x23f1b133u32 => Some(Api::NvAPI_GPU_ClockClientClkVfPointsGetControl),
        0x21537ad4u32 => Some(Api::NvAPI_GPU_ClockClientClkVfPointsGetStatus),
        0x210f1841u32 => Some(Api::NvAPI_GPU_ClientGetOcConfig),
        0x24c6a07bu32 => Some(Api::NvAPI_D3D12_CreateCommittedImplicitMSAATexture2D),
        0x2fc28856u32 => Some(Api::NvAPI_D3D12_CreateGraphicsPipelineState),
        0x2762deacu32 => Some(Api::NvAPI_D3D12_CreateComputePipelineState),
        0x2c85f101u32 => Some(Api::NvAPI_D3D12_CreateReservedResource),
        0x26322bc3u32 => Some(Api::NvAPI_D3D12_QueryCpuVisibleVidmem),
        0x2db27d09u32 => Some(Api::NvAPI_D3D_CreateLateLatchObject),
        0x2aede111u32 => Some(Api::NvAPI_D3D_ImplicitSLIControl),
        0x2a2c79e8u32 => Some(Api::NvAPI_D3D12_CreateCubinComputeShader),
        0x24973538u32 => Some(Api::NvAPI_D3D12_LaunchCuKernelChain),
        _ => None,
    }
}

fn from_id_3(id: u32) -> (r: Option<Api>)
    ensures
        r == api_of_id_3(id),
{
    match id {
        0x34ef9506u32 => Some(Api::NvAPI_GetPhysicalGPUsFromDisplay),
        0x35c29134u32 => Some(Api::NvAPI_GetAssociatedNvidiaDisplayHandle),
        0x3092ac32u32 => Some(Api::NvAPI_SetRefreshRateOverride),
        0x351da224u32 => Some(Api::NvAPI_Disp_HdrColorControl),
        0x3230d69au32 => Some(Api::NvAPI_DISP_GetVirtualModeData),
        0x3fc9a59cu32 => Some(Api::NvAPI_SetImageSharpeningLevel),
        0x332d3942u32 => Some(Api::NvAPI_D3D9_ClearRT),
        0x3e2804a2u32 => Some(Api::NvAPI_D3D9_PathEnableColorWriteNV),
        0x3d7a86bbu32 => Some(Api::NvAPI_D3D9_GpuSyncRelease),
        0x3111bed1u32 => Some(Api::NvAPI_D3D9_FreeVideo),
        0x3d596b93u32 => Some(Api::NvAPI_D3D9_GetVideoCapabilities),
        0x35233210u32 => Some(Api::NvAPI_D3D10_BeginShareResource),
        0x329d77cdu32 => Some(Api::NvAPI_GPU_GetMemPartitionMask),
        0x37d32e69u32 => Some(Api::NvAPI_GPU_GetEDID),
        0x36cff969u32 => Some(Api::NvAPI_GPU_GetFlatPanelInfo),
        0x34c9c2d4u32 => Some(Api::NvAPI_GPU_ValidateOutputCombination),
        0x30c805d5u32 => Some(Api::NvAPI_GetTVOutputInfo),
        0x34206d86u32 => Some(Api::NvAPI_GPU_ClientPowerPoliciesGetInfo),
        0x3805ef7au32 => Some(Api::NvAPI_OGL_ExpertModeSet),
        0x3b05c7e1u32 => Some(Api::NvAPI_DISP_GetMonitorCapabilities),
        0x3efada1du32 => Some(Api::NvAPI_SetUnderscanConfig),
        0x3f113c77u32 => Some(Api::NvAPI_Mosaic_SetGridTopology),
        0x348ff8e1u32 => Some(Api::NvAPI_Stereo_IsEnabled),
        0x3a153134u32 => Some(Api::NvAPI_Stereo_DestroyHandle),
        0x3dd6b54bu32 => Some(Api::NvAPI_Stereo_SetConvergence),
        0x3cd58f89u32 => Some(Api::NvAPI_Stereo_ReverseStereoBlitControl),
        0x315e0ef0u32 => Some(Api::NvAPI_Stereo_HandShake_Message_Control),
        0x36f1c736u32 => Some(Api::NvAPI_Stereo_GetSurfaceCreationMode),
        0x3eebba1du32 => Some(Api::NvAPI_DISP_SetAdaptiveSyncData),
        0x375dbd6bu32 => Some(Api::NvAPI_DRS_LoadSettings),
        0x3fc596aau32 => Some(Api::NvAPI_GPU_GetLicensableFeatures),
        0x3119f36eu32 => Some(Api::NvAPI_LoadMicrocode),
        0x35b5fd2fu32 => Some(Api::NvAPI_GPU_GetTargetID),
        0x3f28e1b9u32 => Some(Api::NvAPI_GPU_SetCurrentPCIEWidth),
        0x3bd32008u32 => Some(Api::NvAPI_GPU_SetCurrentPCIESpeed),
        0x387b2e41u32 => Some(Api::NvAPI_GPU_SetDisplayUnderflowMode),
        0x32e1d697u32 => Some(Api::NvAPI_GPU_GetSampleType),
        0x3d358a0cu32 => Some(Api::NvAPI_GPU_PerfPoliciesGetStatus),
        0x34c0b13du32 => Some(Api::NvAPI_GPU_ClientThermalPoliciesSetStatus),
        0x39442cfbu32 => Some(Api::NvAPI_GPU_PerfClientLimitsSetStatus),
        0x35aed5e8u32 => Some(Api::NvAPI_GPU_ClientFanCoolersGetStatus),
        0x3dbf5764u32 => Some(Api::NvAPI_GPU_ClientIllumZonesGetControl),
        0x37e7191cu32 => Some(Api::NvAPI_D3D_EndResourceRendering),
        0x3c5c351bu32 => Some(Api::NvAPI_DestroyPresentBarrierClient),
        0x341c6c7fu32 => Some(Api::NvAPI_D3D_ConfigureAnsel),
        0x3a94e822u32 => Some(Api::NvAPI_D3D11_DecompressView),
        0x3dfacec8u32 => Some(Api::NvAPI_D3D12_IsNvShaderExtnOpCodeSupported),
        0x3b03791bu32 => Some(Api::NvAPI_D3D12_QuerySinglePassStereoSupport),
        0x34f7938fu32 => Some(Api::NvAPI_D3D11_RSSetViewportsPixelShadingRates),
        0x3151211bu32 => Some(Api::NvAPI_D3D12_CreateCubinComputeShaderEx),
        0x32c2a0f6u32 => Some(Api::NvAPI_D3D11_CreateCubinComputeShaderEx),
        0x36e39e6bu32 => Some(Api::Unknown_36E39E6B),
        _ => None,
    }
}

fn from_id_4(id: u32) -> (r: Option<Api>)
    ensures
        r == api_of_id_4(id),
{
    match id {
        0x48b3ea59u32 => Some(Api::NvAPI_EnumLogicalGPUs),
        0x4888d790u32 => Some(Api::NvAPI_GetUnAttachedAssociatedDisplayName),
        0x41511594u32 => Some(Api::NvAPI_GetInfoFrameState),
        0x4085de45u32 => Some(Api::NvAPI_GetDVCInfo),
        0x4a82c2b1u32 => Some(Api::NvAPI_SetDVCLevelEx),
        0x4b708b54u32 => Some(Api::NvAPI_D3D_GetCurrentSLIState),
        0x4aceeaf7u32 => Some(Api::NvAPI_D3D_Query_GetType),
        0x492a6954u32 => Some(Api::NvAPI_D3D9_EnableStereo),
        0x4eadf5d2u32 => Some(Api::NvAPI_D3D10_SetDepthBoundsTest),
        0x43d867c0u32 => Some(Api::NvAPI_D3D12_SetNvShaderExtnSlotSpaceLocalThread),
        0x4a35df54u32 => Some(Api::NvAPI_GPU_GetTPCMask),
        0x4e2f76a8u32 => Some(Api::NvAPI_GPU_GetTotalTPCCount),
        0x40a505e4u32 => Some(Api::NvAPI_GPU_GetOutputType),
        0x4eca2c10u32 => Some(Api::NvAPI_GPU_GetConnectorInfo),
        0x46fbeb03u32 => Some(Api::NvAPI_GPU_GetPhysicalFrameBufferSize),
        0x4d7b0709u32 => Some(Api::NvAPI_I2CReadEx),
        0x49882876u32 => Some(Api::NvAPI_DISP_SaveCustomDisplay),
        0x42892957u32 => Some(Api::NvAPI_EnumCustomDisplay),
        0x4144111au32 => Some(Api::NvAPI_EnumUnderscanConfig),
        0x4feeb498u32 => Some(Api::NvAPI_SetPVExtName),
        0x4d959a89u32 => Some(Api::NvAPI_Mosaic_SetDisplayGrids),
        0x410b5c25u32 => Some(Api::NvAPI_GetSupportedMosaicTopologies),
        0x44a3f1d1u32 => Some(Api::NvAPI_GSync_QueryCapabilities),
        0x4562bc38u32 => Some(Api::NvAPI_GSync_GetTopology),
        0x49bceecfu32 => Some(Api::NvAPI_Stereo_DeleteConfigurationProfileValue),
        0x451f2134u32 => Some(Api::NvAPI_Stereo_GetSeparation),
        0x4ab00934u32 => Some(Api::NvAPI_Stereo_GetConvergence),
        0x4c87e317u32 => Some(Api::NvAPI_Stereo_DecreaseConvergence),
        0x40c8ed5eu32 => Some(Api::NvAPI_Stereo_IsWindowedModeSupported),
        0x416c07b3u32 => Some(Api::NvAPI_Stereo_SetVertexShaderConstantF),
        0x44f0ecd1u32 => Some(Api::NvAPI_Stereo_SetDefaultProfile),
        0x44ee4841u32 => Some(Api::NvAPI_VIO_Open),
        0x462214a9u32 => Some(Api::NvAPI_VIO_GetSyncDelay),
        0x47c917bau32 => Some(Api::NvAPI_DISP_AcquireDedicatedDisplay),
        0x407f67aau32 => Some(Api::NvAPI_D3D1x_QuerySwapGroup),
        0x4347a9deu32 => Some(Api::NvAPI_DRS_CreateApplication),
        0x47bad137u32 => Some(Api::NvAPI_DISP_GetHCloneTopology),
        0x44e022a9u32 => Some(Api::NvAPI_GPU_GetVirtualizationInfo),
        0x473f7828u32 => Some(Api::NvAPI_D3D1x_IFR_SetUpTargetBufferToSys),
        0x4db019e6u32 => Some(Api::NvAPI_GPU_GetAllGpusOnSameBoard),
        0x4071b85eu32 => Some(Api::NvAPI_GPU_PhysxSetState),
        0x409d9841u32 => Some(Api::NvAPI_GPU_PerfPoliciesGetInfo),
        0x465f9bcfu32 => Some(Api::NvAPI_GPU_ClientVoltRailsGetStatus),
        0x44cd3014u32 => Some(Api::NvAPI_GPU_ClientFanArbitersSetControl),
        0x4b81241bu32 => Some(Api::NvAPI_GPU_ClientIllumZonesGetInfo),
        0x42aea16au32 => Some(Api::NvAPI_GPU_GetRamMaker),
        0x4d815de9u32 => Some(Api::NvAPI_D3D12_CreatePresentBarrierClient),
        0x4162822bu32 => Some(Api::NvAPI_D3D11_CreatePixelShaderEx_2),
        0x47f78194u32 => Some(Api::NvAPI_D3D12_CopyTileMappings),
        0x4780d70bu32 => Some(Api::NvAPI_D3D_InitializeVRSHelper),
        0x42763d0cu32 => Some(Api::NvAPI_D3D_InitializeSMPAssist),
        0x48f5b2eeu32 => Some(Api::NvAPI_D3D12_GetCudaSurfaceObject),
        0x41c65285u32 => Some(Api::NvAPI_D3D12_DestroyCuModule),
        0x427e236du32 => Some(Api::NvAPI_D3D11_LaunchCubinShader),
        0x4726d180u32 => Some(Api::NvAPI_D3D12_GetRaytracingOpacityMicromapArrayPrebuildInfo),
        _ => None,
    }
}

fn from_id_5(id: u32) -> (r: Option<Api>)
    ensures
        r == api_of_id_5(id),
{
    match id {
        0x5018ed61u32 => Some(Api::NvAPI_GetPhysicalGPUFromUnAttachedDisplay),
        0x5d19bca4u32 => Some(Api::NvAPI_D3D_CreateQuery),
        0x5cf7f862u32 => Some(Api::NvAPI_D3D9_PresentVideo),
        0x5609b86au32 => Some(Api::NvAPI_D3D9_SetSurfaceCreationLayout),
        0x55255d05u32 => Some(Api::NvAPI_D3D9_IFR_SetUpTargetBufferToSys),
        0x5fe72f64u32 => Some(Api::NvAPI_D3D9_IFR_TransferRenderTargetToNV12BLVideoSurface),
        0x5b803dafu32 => Some(Api::NvAPI_D3D10_CreateDeviceAndSwapChain),
        0x5f68da40u32 => Some(Api::NvAPI_D3D11_IsNvShaderExtnOpCodeSupported),
        0x5a04b644u32 => Some(Api::NvAPI_GPU_GetVirtualFrameBufferSize),
        0x57f7caacu32 => Some(Api::NvAPI_GPU_GetRamType),
        0x5757474au32 => Some(Api::NvAPI_GetTVEncoderControls),
        0x57d9060fu32 => Some(Api::NvAPI_SetDisplayPosition),
        0x5dfab48au32 => Some(Api::NvAPI_GetValidGpuTopologies),
        0x50016c78u32 => Some(Api::NvAPI_GPU_SetPowerMizerInfo),
        0x53dabbcau32 => Some(Api::NvAPI_SYS_GetChipSetInfo),
        0x552e5b9bu32 => Some(Api::NvAPI_DISP_DeleteCustomDisplay),
        0x5f1aa66cu32 => Some(Api::NvAPI_Mosaic_EnableCurrentTopo),
        0x5f35bcb5u32 => Some(Api::NvAPI_Hybrid_QueryUnblockedNonMigratableApps),
        0x584cb0b6u32 => Some(Api::NvAPI_Hybrid_IsAppMigrationStateChangeable),
        0x5c069fa3u32 => Some(Api::NvAPI_Stereo_SetSeparation),
        0x5e8f0becu32 => Some(Api::NvAPI_Stereo_SetDriverMode),
        0x5268716fu32 => Some(Api::NvAPI_Stereo_SetVertexShaderConstantB),
        0x5a60613au32 => Some(Api::NvAPI_Stereo_GetVertexShaderConstantI),
        0x51d53d06u32 => Some(Api::NvAPI_VIO_GetGamma),
        0x5f608315u32 => Some(Api::NvAPI_GPU_GetTachReading),
        0x540ee82eu32 => Some(Api::NvAPI_GPS_GetPowerSteeringStatus),
        0x583113edu32 => Some(Api::NvAPI_GPS_GetThermalLimit),
        0x5d8cf8deu32 => Some(Api::NvAPI_DISP_SetDisplayConfig),
        0x5abbe6a3u32 => Some(Api::NvAPI_DISP_SetVirtualRefreshRateData),
        0x5ac7f8e5u32 => Some(Api::NvAPI_GPU_SetPixelClockRange),
        0x5995410du32 => Some(Api::NvAPI_D3D9_QueryMaxSwapGroup),
        0x577dd202u32 => Some(Api::NvAPI_DRS_SetSetting),
        0x5927b094u32 => Some(Api::NvAPI_DRS_RestoreAllDefaults),
        0x53f0381eu32 => Some(Api::NvAPI_DRS_RestoreProfileDefaultSetting),
        0x58fe51e6u32 => Some(Api::NvAPI_GPU_GetScanoutCompositionParameter),
        0x5f4c2664u32 => Some(Api::NvAPI_DISP_ValidateHCloneTopology),
        0x5380ad1au32 => Some(Api::NvAPI_GetPhysicalGPUFromGPUID),
        0x5d857a00u32 => Some(Api::NvAPI_GPU_GetFoundry),
        0x521566bbu32 => Some(Api::NvAPI_GPU_ClearPCIELinkAERInfo),
        0x524b9773u32 => Some(Api::NvAPI_GPU_GetFrameBufferCalibrationLockFailures),
        0x51ccdb2au32 => Some(Api::NvAPI_GPU_GetRamConfigStrap),
        0x5d7ccaebu32 => Some(Api::NvAPI_GPU_GetPerfHybridMode),
        0x5786cc6eu32 => Some(Api::NvAPI_GPU_CudaEnumComputeCapableGpus),
        0x568a2292u32 => Some(Api::NvAPI_GPU_SetDeepIdleState),
        0x507b4b59u32 => Some(Api::NvAPI_GPU_ClockClientClkVfPointsGetInfo),
        0x52b76d12u32 => Some(Api::NvAPI_GPU_ClientFanPoliciesGetInfo),
        0x593e8e72u32 => Some(Api::NvAPI_GPU_ClientGetLastOcScannerResults),
        0x57024c62u32 => Some(Api::NvAPI_GPU_ClientIllumDevicesSetControl),
        0x525d43beu32 => Some(Api::NvAPI_D3D11_CreateFastGeometryShader),
        0x5cb397cfu32 => Some(Api::NvAPI_D3D12_CreateHeap),
        0x51235248u32 => Some(Api::NvAPI_D3D12_QueryModifiedWSupport),
        0x59e890f9u32 => Some(Api::NvAPI_D3D11_MultiDrawIndexedInstancedIndirect),
        0x52b1499au32 => Some(Api::NvAPI_D3D1x_GetGraphicsCapabilities),
        0x5b3b7479u32 => Some(Api::NvAPI_D3D_InitializeNvGazeHandler),
        0x5c52bb86u32 => Some(Api::NvAPI_D3D12_LaunchCubinShader),
        0x5c607a27u32 => Some(Api::NvAPI_D3D12_SetCreatePipelineStateOptions),
        _ => None,
    }
}

fn from_id_6(id: u32) -> (r: Option<Api>)
    ensures
        r == api_of_id_6(id),
{
    match id {
        0x6c2d048cu32 => Some(Api::NvAPI_GetErrorMessage),
        0x63f9799eu32 => Some(Api::NvAPI_CreateDisplayFromUnAttachedDisplay),
        0x67b5db55u32 => Some(Api::NvAPI_GetVBlankCounter),
        0x6ae16ec3u32 => Some(Api::NvAPI_GetHDMISupportInfo),
        0x69c6f365u32 => Some(Api::NvAPI_SetInfoFrame),
        0x67efd887u32 => Some(Api::NvAPI_SetInfoFrameState),
        0x6067af3fu32 => Some(Api::NvAPI_Disp_InfoFrameControl),
        0x667c2929u32 => Some(Api::NvAPI_D3D9_DestroyPathContextNV),
        0x6800f5fcu32 => Some(Api::NvAPI_D3D9_GetOverlaySurfaceHandles),
        0x6d6fdad4u32 => Some(Api::NvAPI_D3D9_GpuSyncInit),
        0x6317345cu32 => Some(Api::NvAPI_D3D9_Lock),
        0x694bff4du32 => Some(Api::NvAPI_D3D9_GetSLIInfo),
        0x6a16d3a0u32 => Some(Api::NvAPI_D3D11_CreateDevice),
        0x65b93ca8u32 => Some(Api::NvAPI_D3D11_BeginUAVOverlap),
        0x63e2f56fu32 => Some(Api::NvAPI_GPU_GetShaderPipeCount),
        0x6e042794u32 => Some(Api::NvAPI_GPU_GetAGPAperture),
        0x6ff81213u32 => Some(Api::NvAPI_GPU_GetPstates20),
        0x60ded2edu32 => Some(Api::NvAPI_GPU_GetDynamicPstatesInfoEx),
        0x6dfd1c8cu32 => Some(Api::NvAPI_GetTVOutputBorderColor),
        0x6bb1ee5du32 => Some(Api::NvAPI_GetDisplayPosition),
        0x6c1f3fe4u32 => Some(Api::NvAPI_GPU_WorkstationFeatureSetup),
        0x6ae4cfb5u32 => Some(Api::NvAPI_DISP_GetMonitorColorCapabilities),
        0x61d7b624u32 => Some(Api::NvAPI_QueryUnderscanCap),
        0x66fb7fc0u32 => Some(Api::NvAPI_GetSupportedViews),
        0x69a9874du32 => Some(Api::NvAPI_Coproc_GetCoprocInfoFlagsEx),
        0x60acdfddu32 => Some(Api::NvAPI_GSync_SetSyncStateSettings),
        0x65b1c5f5u32 => Some(Api::NvAPI_GPU_QueryActiveApps),
        0x6b9b409eu32 => Some(Api::NvAPI_Stereo_SetNotificationMessage),
        0x622fdc87u32 => Some(Api::NvAPI_Stereo_GetVertexShaderConstantF),
        0x624e21c2u32 => Some(Api::NvAPI_Stereo_GetDefaultProfile),
        0x6ba2a5d6u32 => Some(Api::NvAPI_VIO_Stop),
        0x68888eb4u32 => Some(Api::NvAPI_GPS_SetVPStateCap),
        0x66af10b7u32 => Some(Api::NvAPI_GPU_GetPixelClockRange),
        0x63685979u32 => Some(Api::NvAPI_SYS_VenturaGetPowerReading),
        0x63e5d8dbu32 => Some(Api::NvAPI_DISP_GetDisplayBlankingState),
        0x617bff9fu32 => Some(Api::NvAPI_DRS_GetCurrentGlobalProfile),
        0x61cd6fd6u32 => Some(Api::NvAPI_DRS_GetProfileInfo),
        0x6f5435afu32 => Some(Api::NvAPI_GPU_GetScanoutWarpingState),
        0x6a9f5b63u32 => Some(Api::NvAPI_GPU_GetScanoutConfiguration),
        0x61041c24u32 => Some(Api::NvAPI_DISP_SetHCloneTopology),
        0x6533ea3eu32 => Some(Api::NvAPI_GetGPUIDfromPhysicalGPU),
        0x633252d8u32 => Some(Api::NvAPI_GetUnAttachedDisplayDriverRegistryPath),
        0x6f151055u32 => Some(Api::NvAPI_GPU_SetClocks),
        0x64b43a6au32 => Some(Api::NvAPI_GPU_ClockClientClkDomainsGetInfo),
        0x600f612eu32 => Some(Api::NvAPI_GPU_ClientFanArbitersGetControl),
        0x6c0ed98cu32 => Some(Api::NvAPI_D3D_SetResourceHint),
        0x61b844a1u32 => Some(Api::NvAPI_QueryPresentBarrierFrameStatistics),
        0x6e5ea9dbu32 => Some(Api::NvAPI_D3D12_CaptureUAVInfo),
        0x6f5f0a6du32 => Some(Api::NvAPI_D3D_QuerySinglePassStereoSupport),
        0x6086bd93u32 => Some(Api::NvAPI_D3D11_IsFatbinPTXSupported),
        0x65cb431eu32 => Some(Api::NvAPI_D3D11_CreateShaderResourceView),
        _ => None,
    }
}

fn from_id_7(id: u32) -> (r: Option<Api>)
    ensures
        r == api_of_id_7(id),
{
    match id {
        0x774aa982u32 => Some(Api::NvAPI_GetDisplayDriverMemoryInfo),
        0x71329df3u32 => Some(Api::NvAPI_D3D9_CreatePathNV),
        0x73e0019au32 => Some(Api::NvAPI_D3D9_DeletePathNV),
        0x754033f0u32 => Some(Api::NvAPI_D3D9_GpuSyncEnd),
        0x72b19155u32 => Some(Api::NvAPI_D3D9_GetVertexBufferHandle),
        0x7c20c5beu32 => Some(Api::NvAPI_D3D9_AliasPrimaryFromDevice),
        0x73eb9329u32 => Some(Api::NvAPI_D3D10_SetPrimaryFlipChainCallbacks),
        0x7aaf7a04u32 => Some(Api::NvAPI_D3D11_SetDepthBoundsTest),
        0x7d554f8eu32 => Some(Api::NvAPI_GPU_GetAllOutputs),
        0x785210a2u32 => Some(Api::NvAPI_GPU_GetAllDisplayIds),
        0x7d656244u32 => Some(Api::NvAPI_GPU_GetVoltages),
        0x76a70e8du32 => Some(Api::NvAPI_GPU_Get_DisplayPort_DongleInfo),
        0x76bfa16bu32 => Some(Api::NvAPI_GPU_GetPowerMizerInfo),
        0x70916171u32 => Some(Api::NvAPI_GPU_ClientPowerPoliciesGetStatus),
        0x79232685u32 => Some(Api::NvAPI_Coproc_GetApplicationCoprocInfo),
        0x78db97d7u32 => Some(Api::NvAPI_Mosaic_EnumDisplayModes),
        0x74073cc9u32 => Some(Api::NvAPI_EnableCurrentMosaicTopology),
        0x70d404ecu32 => Some(Api::NvAPI_GSync_GetStatusParameters),
        0x7be27fa2u32 => Some(Api::NvAPI_Stereo_SetFrustumAdjustMode),
        0x7923ba0eu32 => Some(Api::NvAPI_Stereo_SetVertexShaderConstantI),
        0x712baa5bu32 => Some(Api::NvAPI_Stereo_GetVertexShaderConstantB),
        0x72162b35u32 => Some(Api::NvAPI_Stereo_GetCursorSeparation),
        0x7b0d72a3u32 => Some(Api::NvAPI_VIO_GetCSC),
        0x7bf0a94du32 => Some(Api::NvAPI_VIO_IsFrameLockModeCompatible),
        0x71913023u32 => Some(Api::NvAPI_GPS_GetVPStateCap),
        0x721facebu32 => Some(Api::NvAPI_SYS_GetDisplayDriverInfo),
        0x77a796f3u32 => Some(Api::NvAPI_GPU_GetECCConfigurationInfo),
        0x7d44bb54u32 => Some(Api::NvAPI_D3D9_JoinSwapGroup),
        0x7e4a9a0bu32 => Some(Api::NvAPI_DRS_FindProfileByName),
        0x7fa2173au32 => Some(Api::NvAPI_DRS_EnumApplications),
        0x73bf8338u32 => Some(Api::NvAPI_DRS_GetSetting),
        0x7f7f4600u32 => Some(Api::NvAPI_GPU_GetPerfDecreaseInfo),
        0x7fc17574u32 => Some(Api::NvAPI_GetInfoFrameStatePvt),
        0x7562e947u32 => Some(Api::NvAPI_GetDisplayDriverBuildTitle),
        0x7975c581u32 => Some(Api::NvAPI_GPU_GetRamBusWidth),
        0x7bc207f8u32 => Some(Api::NvAPI_GPU_SetPerfHybridMode),
        0x7a4174f4u32 => Some(Api::NvAPI_GPU_PhysxQueryRecommendedState),
        0x73c01d58u32 => Some(Api::NvAPI_GPU_ClientIllumDevicesGetControl),
        0x7886981au32 => Some(Api::NvAPI_D3D11_CreateTiledTexture2DArray),
        0x71ab7c9cu32 => Some(Api::NvAPI_D3D11_CreateFastGeometryShaderExplicit),
        0x7fb785bau32 => Some(Api::NvAPI_D3D12_DestroyCubinComputeShader),
        0x70c07832u32 => Some(Api::NvAPI_D3D12_IsFatbinPTXSupported),
        0x7ab88d88u32 => Some(Api::NvAPI_D3D12_EnumFunctionsInModule),
        0x74a497a1u32 => Some(Api::NvAPI_D3D11_CreateUnorderedAccessView),
        _ => None,
    }
}

fn from_id_8(id: u32) -> (r: Option<Api>)
    ensures
        r == api_of_id_8(id),
{
    match id {
        0x84f2a8dfu32 => Some(Api::NvAPI_Disp_GetHdrCapabilities),
        0x80c9fd3bu32 => Some(Api::NvAPI_D3D9_GpuSyncGetHandleSize),
        0x84c9d553u32 => Some(Api::NvAPI_D3D9_CreateVideoBegin),
        0x89ffd9a3u32 => Some(Api::NvAPI_D3D9_CreateVideo),
        0x8aac133du32 => Some(Api::NvAPI_D3D10_AliasPrimaryAsTexture),
        0x8ffb8e26u32 => Some(Api::NvAPI_D3D11_EndShareResource),
        0x8e90bb9fu32 => Some(Api::NvAPI_D3D11_SetNvShaderExtnSlot),
        0x86f05d7au32 => Some(Api::NvAPI_GPU_GetPartitionCount),
        0x891fa0aeu32 => Some(Api::NvAPI_GPU_SetCoolerLevels),
        0x8f6ed0fbu32 => Some(Api::NvAPI_GPU_RestoreCoolerSettings),
        0x843c0256u32 => Some(Api::NvAPI_GPU_GetPstatesInfoEx),
        0x88c82104u32 => Some(Api::NvAPI_GPU_GetPstateClientLimits),
        0x8159e87au32 => Some(Api::NvAPI_GPU_GetColorSpaceConversion),
        0x8a50f126u32 => Some(Api::NvAPI_SYS_GetChipSetTopologyStatus),
        0x80b1abb9u32 => Some(Api::NvAPI_GPU_QueryWorkstationFeatureSupport),
        0x854ba405u32 => Some(Api::NvAPI_RevertCustomDisplayTrial),
        0x8e985ccdu32 => Some(Api::NvAPI_GetDisplayFeatureConfig),
        0x8eb56969u32 => Some(Api::NvAPI_Disp_DpAuxChannelControl),
        0x8354a8f4u32 => Some(Api::NvAPI_SetPVExtProfile),
        0x8e1f8cfeu32 => Some(Api::NvAPI_VideoGetStereoInfo),
        0x8bbff88bu32 => Some(Api::NvAPI_GSync_SetControlParameters),
        0x8b7e99b5u32 => Some(Api::NvAPI_Stereo_CapturePngImage),
        0x8c610bdau32 => Some(Api::NvAPI_Stereo_AppHandShake),
        0x869534e2u32 => Some(Api::NvAPI_VIO_QueryTopology),
        0x8061a4b1u32 => Some(Api::NvAPI_3D_GetProperty),
        0x8c00429au32 => Some(Api::NvAPI_DISP_GetVirtualRefreshRateData),
        0x85ff5a15u32 => Some(Api::NvAPI_SYS_VenturaSetCoolingBudget),
        0x842b066eu32 => Some(Api::NvAPI_GPU_GetLogicalGpuInfo),
        0x81d629c5u32 => Some(Api::NvAPI_GPU_GetVRReadyData),
        0x8456ff3du32 => Some(Api::NvAPI_GPU_ClearPCIELinkErrorInfo),
        0x813d89a8u32 => Some(Api::NvAPI_GetTopologyDisplayGPU),
        0x8e875cf9u32 => Some(Api::NvAPI_GetScalingCaps),
        0x814b209fu32 => Some(Api::NvAPI_GPU_ClientFanCoolersGetControl),
        0x82236c47u32 => Some(Api::NvAPI_D3D11_ExecuteMetaCommand),
        0x82b91b25u32 => Some(Api::NvAPI_D3D12_CopyTextureRegion),
        0x83556d87u32 => Some(Api::NvAPI_D3D12_SetSinglePassStereoMode),
        0x8285c8dau32 => Some(Api::NvAPI_D3D_SetMultiViewMode),
        0x8ceca0ecu32 => Some(Api::NvAPI_D3D_QueryLateLatchSupport),
        0x8c02c4d0u32 => Some(Api::NvAPI_D3D_RegisterDevice),
        0x852cd1d2u32 => Some(Api::NvAPI_D3D_Sleep),
        0x80403fc9u32 => Some(Api::NvAPI_D3D12_GetCudaTextureObject),
        0x89eca416u32 => Some(Api::NvAPI_D3D11_CreateSamplerState),
        0x85a6c2a0u32 => Some(Api::NvAPI_D3D12_GetRaytracingCaps),
        0x8d025b77u32 => Some(Api::NvAPI_D3D12_GetRaytracingAccelerationStructurePrebuildInfoEx),
        0x814f8d11u32 => Some(Api::NvAPI_D3D12_BuildRaytracingOpacityMicromapArray),
        0x8efc0978u32 => Some(Api::Unknown_8EFC0978),
        _ => None,
    }
}

fn from_id_9(id: u32) -> (r: Option<Api>)
    ensures
        r == api_of_id_9(id),
{
    match id {
        0x9abdd40du32 => Some(Api::NvAPI_EnumNvidiaDisplayHandle),
        0x92f9d80du32 => Some(Api::NvAPI_Disp_ColorControl),
        0x95b64341u32 => Some(Api::NvAPI_GetHUEInfo),
        0x9fb063dfu32 => Some(Api::NvAPI_GetImageSharpeningInfo),
        0x905f5c27u32 => Some(Api::NvAPI_D3D9_SetResourceHint),
        0x9d2509efu32 => Some(Api::NvAPI_D3D9_VideoSurfaceEncryptionControl),
        0x962b8af6u32 => Some(Api::NvAPI_D3D9_DMA),
        0x96043cc7u32 => Some(Api::NvAPI_GPU_GetConnectedSLIOutputsWithLidState),
        0x987947cdu32 => Some(Api::NvAPI_GPU_SetCoolerPolicyTable),
        0x927da4f6u32 => Some(Api::NvAPI_GPU_GetCurrentPstate),
        0x932ac8fbu32 => Some(Api::NvAPI_GPU_GetDitherControl),
        0x97063269u32 => Some(Api::NvAPI_VideoSetStereoInfo),
        0x989685f0u32 => Some(Api::NvAPI_Mosaic_GetOverlapLimits),
        0x9b542831u32 => Some(Api::NvAPI_Mosaic_SetCurrentTopo),
        0x932cb140u32 => Some(Api::NvAPI_Stereo_CaptureJpegImage),
        0x96eea9f8u32 => Some(Api::NvAPI_Stereo_SetActiveEye),
        0x912ac28fu32 => Some(Api::NvAPI_Stereo_SetPixelShaderConstantI),
        0x964bf452u32 => Some(Api::NvAPI_VIO_SetGamma),
        0x96bd040eu32 => Some(Api::NvAPI_VIO_IsRunning),
        0x9723d3a2u32 => Some(Api::NvAPI_GPS_SetPowerSteeringStatus),
        0x9ea74659u32 => Some(Api::NvAPI_SYS_GetPhysicalGpuFromDisplayId),
        0x9083e53au32 => Some(Api::NvAPI_D3D9_QueryFrameCount),
        0x9c39c246u32 => Some(Api::NvAPI_D3D9_BindSwapBarrier),
        0x9152e055u32 => Some(Api::NvAPI_D3D1x_QueryFrameCount),
        0x9bb9d68fu32 => Some(Api::NvAPI_D3D1x_QueryMaxSwapGroup),
        0x9de8c729u32 => Some(Api::NvAPI_D3D1x_BindSwapBarrier),
        0x9a1b9365u32 => Some(Api::NvAPI_GPU_GetIllumination),
        0x9fbae4ebu32 => Some(Api::NvAPI_D3D1x_IFR_TransferRenderTarget),
        0x919b3136u32 => Some(Api::NvAPI_GetLoadedMicrocodePrograms),
        0x988aea78u32 => Some(Api::NvAPI_GetDisplayDriverCompileType),
        0x9d772bbau32 => Some(Api::NvAPI_GetDisplayDriverSecurityLevel),
        0x9df23ca1u32 => Some(Api::NvAPI_GPU_ClientVoltRailsGetControl),
        0x91123d6au32 => Some(Api::NvAPI_D3D_BeginResourceRendering),
        0x9a06ea07u32 => Some(Api::NvAPI_D3D11_UpdateTileMappings),
        0x99ed5c1cu32 => Some(Api::NvAPI_D3D11_CreateGeometryShaderEx_2),
        0x924be9d6u32 => Some(Api::NvAPI_D3D12_CreateHeap2),
        0x9aa2aabbu32 => Some(Api::NvAPI_D3D12_ReservedResourceGetDesc),
        0x9c1eed78u32 => Some(Api::NvAPI_D3D_IsGSyncCapable),
        0x99ca2dffu32 => Some(Api::NvAPI_D3D11_CreateShadingRateResourceView),
        0x9006fa68u32 => Some(Api::NvAPI_D3D11_GetCudaTextureObject),
        _ => None,
    }
}

fn from_id_a(id: u32) -> (r: Option<Api>)
    ensures
        r == api_of_id_a(id),
{
    match id {
        0xadd604d1u32 => Some(Api::NvAPI_GetLogicalGPUFromPhysicalGPU),
        0xaea3fa32u32 => Some(Api::NvAPI_GetPhysicalGPUsFromLogicalGPU),
        0xa70503b2u32 => Some(Api::NvAPI_DISP_GetAssociatedUnAttachedNvidiaDisplayHandle),
        0xab163097u32 => Some(Api::NvAPI_DisableHWCursor),
        0xa064bdfcu32 => Some(Api::NvAPI_D3D9_RegisterResource),
        0xa342f682u32 => Some(Api::NvAPI_D3D9_CreatePathContextNV),
        0xa4527bf8u32 => Some(Api::NvAPI_D3D9_GetVideoState),
        0xaeaecd41u32 => Some(Api::NvAPI_D3D9_StretchRect),
        0xae9c2019u32 => Some(Api::NvAPI_D3D10_ProcessCallbacks),
        0xac2dfeb5u32 => Some(Api::NvAPI_D3D12_SetNvShaderExtnSlotSpace),
        0xae5fbcfeu32 => Some(Api::NvAPI_GPU_GetTotalSMCount),
        0xacc3da0au32 => Some(Api::NvAPI_GPU_GetVbiosRevision),
        0xa561fd7du32 => Some(Api::NvAPI_GPU_GetVbiosVersionString),
        0xaed02700u32 => Some(Api::NvAPI_SetTVOutputBorderColor),
        0xa81f8992u32 => Some(Api::NvAPI_GPU_GetPerGpuTopologyStatus),
        0xa4dfd3f2u32 => Some(Api::NvAPI_GPU_ClientPowerTopologyGetInfo),
        0xad95f5edu32 => Some(Api::NvAPI_GPU_ClientPowerPoliciesSetStatus),
        0xae921f12u32 => Some(Api::NvAPI_OGL_ExpertModeDefaultsGet),
        0xafc4833eu32 => Some(Api::NvAPI_GetTiming),
        0xa2072d59u32 => Some(Api::NvAPI_DISP_EnumCustomDisplay),
        0xa9062c78u32 => Some(Api::NvAPI_SaveCustomDisplay),
        0xa3c55220u32 => Some(Api::NvAPI_Mosaic_EnumGridTopologies),
        0xac7e37f4u32 => Some(Api::NvAPI_Stereo_CreateHandleFromIUnknown),
        0xa17daabeu32 => Some(Api::NvAPI_Stereo_IncreaseConvergence),
        0xa9657f32u32 => Some(Api::NvAPI_Stereo_SetPixelShaderConstantF),
        0xa1ec8d74u32 => Some(Api::NvAPI_VIO_SetCSC),
        0xadeeaf67u32 => Some(Api::NvAPI_GPU_ClientRegisterForUtilizationSampleUpdates),
        0xae457190u32 => Some(Api::NvAPI_DISP_GetDisplayIdByDisplayName),
        0xa776e8dbu32 => Some(Api::NvAPI_D3D_SetFPSIndicatorState),
        0xae3039dau32 => Some(Api::NvAPI_DRS_EnumSettings),
        0xa57457a4u32 => Some(Api::NvAPI_GPU_SetScanoutIntensity),
        0xa629da31u32 => Some(Api::NvAPI_GPU_QueryIlluminationSupport),
        0xa4218928u32 => Some(Api::NvAPI_GPU_GetManufacturingInfo),
        0xa0c72ee4u32 => Some(Api::NvAPI_CreateUnAttachedDisplayFromDisplay),
        0xa58971a5u32 => Some(Api::NvAPI_GPU_ClientFanCoolersSetControl),
        0xa15faef7u32 => Some(Api::NvAPI_D3D12_QueryPresentBarrierSupport),
        0xa0d7180du32 => Some(Api::NvAPI_D3D11_CreateDomainShaderEx),
        0xaf6d14dau32 => Some(Api::NvAPI_D3D11_GetResourceGPUVirtualAddressEx),
        0xaec629e9u32 => Some(Api::NvAPI_D3D11_InitializeMetaCommand),
        0xa4125399u32 => Some(Api::NvAPI_D3D12_InitializeMetaCommand),
        0xa39e6e6eu32 => Some(Api::NvAPI_D3D_SetSinglePassStereoMode),
        0xa46022c7u32 => Some(Api::NvAPI_D3D12_Mosaic_GetCompanionAllocations),
        0xae4d73efu32 => Some(Api::NvAPI_D3D11_RSSetExclusiveScissorRects),
        0xa942373au32 => Some(Api::NvAPI_D3D11_RSSetPixelShadingRateSampleOrder),
        0xaef96ca1u32 => Some(Api::NvAPI_D3D_GetSleepStatus),
        0xac1ca9e0u32 => Some(Api::NvAPI_D3D_SetSleepMode),
        0xad1a677du32 => Some(Api::NvAPI_D3D12_CreateCuModule),
        0xafb237d4u32 => Some(Api::NvAPI_D3D12_CheckDriverMatchingIdentifierEx),
        _ => None,
    }
}

fn from_id_b(id: u32) -> (r: Option<Api>)
    ensures
        r == api_of_id_b(id),
{
    match id {
        0xbb2b17aau32 => Some(Api::NvAPI_D3D9_UnregisterResource),
        0xb380f218u32 => Some(Api::NvAPI_D3D9_GetCurrentZBufferHandle),
        0xb476bf61u32 => Some(Api::NvAPI_D3D9_CreateVideoEnd),
        0xb852f4dbu32 => Some(Api::NvAPI_D3D9_VideoSetStereoInfo),
        0xbd4bc56fu32 => Some(Api::NvAPI_D3D9_SetVideoState),
        0xbfdc062cu32 => Some(Api::NvAPI_D3D9_SetSLIMode),
        0xbd3eb475u32 => Some(Api::NvAPI_D3D9_NVFBC_GetStatus),
        0xbb939ee5u32 => Some(Api::NvAPI_D3D11_CreateDeviceAndSwapChain),
        0xba08208au32 => Some(Api::NvAPI_D3D11_BeginUAVOverlapEx),
        0xb6d62591u32 => Some(Api::NvAPI_GPU_GetTotalSPCount),
        0xbaaabfccu32 => Some(Api::NvAPI_GPU_GetSystemType),
        0xba94c56eu32 => Some(Api::NvAPI_GPU_GetPstatesInfo),
        0xb23b70eeu32 => Some(Api::NvAPI_GPU_EnableOverclockedPstates),
        0xb47a657eu32 => Some(Api::NvAPI_OGL_ExpertModeDefaultsSet),
        0xbf6c1762u32 => Some(Api::NvAPI_TryCustomDisplay),
        0xb3bb0772u32 => Some(Api::NvAPI_GetHDCPLinkParameters),
        0xb033b140u32 => Some(Api::NvAPI_Mosaic_ChooseGpuTopologies),
        0xbb9ef1c3u32 => Some(Api::NvAPI_QueryNonMigratableApps),
        0xbe7692ecu32 => Some(Api::NvAPI_Stereo_CreateConfigurationProfileRegistryKey),
        0xb30cd1a7u32 => Some(Api::NvAPI_Stereo_HandShake_Trigger_Activation),
        0xba6109eeu32 => Some(Api::NvAPI_Stereo_SetPixelShaderConstantB),
        0xb981d935u32 => Some(Api::NvAPI_VIO_GetPCIInfo),
        0xb85de27cu32 => Some(Api::NvAPI_3D_GetPropertyRange),
        0xb73d1ee9u32 => Some(Api::NvAPI_DISP_GetAdaptiveSyncData),
        0xbc371ee0u32 => Some(Api::NvAPI_DRS_EnumProfiles),
        0xbd71f0c9u32 => Some(Api::NvAPI_GPU_GetCurrentFanSpeedLevel),
        0xb34bab4fu32 => Some(Api::NvAPI_GPU_SetScanoutWarping),
        0xb7ab19b9u32 => Some(Api::NvAPI_GPU_GetMXMBlock),
        0xb4b26b65u32 => Some(Api::NvAPI_RestartDisplayDriver),
        0xb539a26eu32 => Some(Api::NvAPI_SYS_GetSliApprovalCookie),
        0xb9306d9bu32 => Some(Api::NvAPI_GPU_ClientVoltRailsSetControl),
        0xbc4aee25u32 => Some(Api::NvAPI_GPU_ClientStartOcScanner),
        0xb5a21987u32 => Some(Api::NvAPI_D3D12_CreateDDisplayPresentBarrierClient),
        0xb8f79632u32 => Some(Api::NvAPI_D3D11_CreateImplicitMSAATexture2D),
        0xb53cab00u32 => Some(Api::NvAPI_D3D11_CreateHullShaderEx),
        0xb9333fe9u32 => Some(Api::NvAPI_D3D12_SetDepthBoundsTestValues),
        0xb942bab7u32 => Some(Api::NvAPI_D3D12_ResourceAliasingBarrier),
        0xb43995cbu32 => Some(Api::NvAPI_D3D12_GetOptimalThreadCountForMesh),
        0xbdb20007u32 => Some(Api::NvAPI_D3D11_CreateMultiGPUDevice),
        0xb6e0a41cu32 => Some(Api::NvAPI_D3D_QueryMultiViewSupport),
        0xb092b818u32 => Some(Api::NvAPI_D3D12_Mosaic_GetViewportAndGpuPartitions),
        0xb672be19u32 => Some(Api::NvAPI_D3D11_CreateCubinComputeShaderWithName),
        0xb7bcf50du32 => Some(Api::Unknown_B7BCF50D),
        _ => None,
    }
}

fn from_id_c(id: u32) -> (r: Option<Api>)
    ensures
        r == api_of_id_c(id),
{
    match id {
        0xc64ff367u32 => Some(Api::NvAPI_GetDisplayPortInfo),
        0xc8ff7258u32 => Some(Api::NvAPI_D3D_DestroyQuery),
        0xc23df926u32 => Some(Api::NvAPI_D3D9_PathVerticesNV),
        0xc7985ed5u32 => Some(Api::NvAPI_D3D9_GetTextureHandle),
        0xcde4a28au32 => Some(Api::NvAPI_D3D9_GpuSyncMapTexBuffer),
        0xc182027eu32 => Some(Api::NvAPI_D3D9_Unlock),
        0xcfc92c15u32 => Some(Api::NvAPI_D3D9_IFR_SetUpTargetBufferToNV12BLVideoSurface),
        0xcac3ce5du32 => Some(Api::NvAPI_D3D10_GetRenderedCursorAsBitmap),
        0xc7026a87u32 => Some(Api::NvAPI_GPU_GetGpuCoreCount),
        0xcf8caf39u32 => Some(Api::NvAPI_GPU_GetConnectedOutputsWithLidState),
        0xceee8e9fu32 => Some(Api::NvAPI_GPU_GetFullName),
        0xc33baeb1u32 => Some(Api::NvAPI_GPU_GetGPUType),
        0xc74925a0u32 => Some(Api::NvAPI_GPU_GetCurrentAGPRate),
        0xcdf27911u32 => Some(Api::NvAPI_GPU_SetPstatesInfo),
        0xca36a3abu32 => Some(Api::NvAPI_SetTVEncoderControls),
        0xc16c7e2cu32 => Some(Api::NvAPI_GPU_GetVoltageDomainsStatus),
        0xcda14d8au32 => Some(Api::NvAPI_SYS_GetLidAndDockInfo),
        0xcbbd40f0u32 => Some(Api::NvAPI_DISP_RevertCustomDisplayTrial),
        0xcadcb956u32 => Some(Api::NvAPI_Coproc_NotifyCoprocPowerState),
        0xcb89381du32 => Some(Api::NvAPI_Mosaic_GetTopoGroup),
        0xcf43903du32 => Some(Api::NvAPI_Mosaic_ValidateDisplayGrids),
        0xc9a8ececu32 => Some(Api::NvAPI_Stereo_IncreaseSeparation),
        0xc7177702u32 => Some(Api::NvAPI_Stereo_InitActivation),
        0xce653127u32 => Some(Api::NvAPI_Stereo_GetEyeSeparation),
        0xc79333aeu32 => Some(Api::NvAPI_Stereo_GetPixelShaderConstantB),
        0xcde8e1a3u32 => Some(Api::NvAPI_VIO_Start),
        0xc9175e8du32 => Some(Api::NvAPI_3D_SetProperty),
        0xc07e210fu32 => Some(Api::NvAPI_GPS_SetThermalLimit),
        0xc9d0e25fu32 => Some(Api::NvAPI_DISP_SetPreferredStereoDisplay),
        0xca1ddaf3u32 => Some(Api::NvAPI_GPU_GetECCStatusInfo),
        0xc71f85a6u32 => Some(Api::NvAPI_GPU_GetECCErrorInfo),
        0xc02eec20u32 => Some(Api::NvAPI_GPU_ResetECCErrorInfo),
        0xcb7c208du32 => Some(Api::NvAPI_SYS_VenturaGetState),
        0xc9d86e33u32 => Some(Api::NvAPI_SYS_VenturaGetCoolingBudget),
        0xcc176068u32 => Some(Api::NvAPI_DRS_CreateProfile),
        0xc5ea85a1u32 => Some(Api::NvAPI_DRS_DeleteApplicationEx),
        0xcb7309cdu32 => Some(Api::NvAPI_DRS_GetSettingIdFromName),
        0xc0599498u32 => Some(Api::NvAPI_GPU_GetMemoryInfoEx),
        0xc729203cu32 => Some(Api::NvAPI_GPU_GetThermalTable),
        0xcde021b9u32 => Some(Api::NvAPI_GPU_ClientFanArbitersGetStatus),
        0xc181947au32 => Some(Api::NvAPI_GPU_ClientFanPoliciesSetControl),
        0xcc727b22u32 => Some(Api::NvAPI_GPU_ClientRevertOc),
        0xc28b73deu32 => Some(Api::NvAPI_GPU_ClientStopOcScanner),
        0xc3ec5a7fu32 => Some(Api::NvAPI_LeavePresentBarrier),
        0xc24a15bfu32 => Some(Api::NvAPI_D3D12_ResolveSubresourceRegion),
        0xc09ee6bcu32 => Some(Api::NvAPI_D3D11_CopyTileMappings),
        0xc6017a7du32 => Some(Api::NvAPI_D3D12_UpdateTileMappings),
        0xc7453ba8u32 => Some(Api::NvAPI_D3D11_EnumerateMetaCommands),
        0xcd9141d8u32 => Some(Api::NvAPI_D3D12_EnumerateMetaCommands),
        0xcbf9f4f5u32 => Some(Api::NvAPI_D3D_QueryModifiedWSupport),
        0xc57921deu32 => Some(Api::NvAPI_D3D_QuerySMPAssistSupport),
        _ => None,
    }
}

fn from_id_d(id: u32) -> (r: Option<Api>)
    ensures
        r == api_of_id_d(id),
{
    match id {
        0xd22bdd7eu32 => Some(Api::NvAPI_Unload),
        0xd9930b07u32 => Some(Api::NvAPI_EnumTCCPhysicalGPUs),
        0xd995937eu32 => Some(Api::NvAPI_GetAssociatedDisplayOutputId),
        0xd2ccf5d6u32 => Some(Api::NvAPI_DISP_EnumHDMIStereoModes),
        0xd44d3c4eu32 => Some(Api::NvAPI_D3D_RegisterApp),
        0xd2f6c499u32 => Some(Api::NvAPI_D3D9_PathMatrixNV),
        0xdbc803ecu32 => Some(Api::NvAPI_D3D9_GpuSyncMapVertexBuffer),
        0xd00b8317u32 => Some(Api::NvAPI_D3D9_GpuSyncAcquire),
        0xd5e13573u32 => Some(Api::NvAPI_D3D9_CreateTexture),
        0xddf5643cu32 => Some(Api::NvAPI_D3D9_QueryAAOverrideMode),
        0xd504dda7u32 => Some(Api::NvAPI_D3D9_GPUBasedCPUSleep),
        0xd2277e3au32 => Some(Api::NvAPI_GPU_GetDeviceDisplayMode),
        0xd048c3b1u32 => Some(Api::NvAPI_GPU_GetCurrentPCIEDownstreamWidth),
        0xdcb616c3u32 => Some(Api::NvAPI_GPU_GetAllClockFrequencies),
        0xda141340u32 => Some(Api::NvAPI_GPU_GetCoolerSettings),
        0xd8c4fe63u32 => Some(Api::NvAPI_GPU_RestoreCoolerPolicyTable),
        0xdf0dfcddu32 => Some(Api::NvAPI_GPU_SetDitherControl),
        0xdc27d5d4u32 => Some(Api::NvAPI_GetDisplaySettings),
        0xd6b99d89u32 => Some(Api::NvAPI_GetView),
        0xdbbc0af4u32 => Some(Api::NvAPI_GetViewEx),
        0xda97071eu32 => Some(Api::NvAPI_Mosaic_GetMosaicCapabilities),
        0xd58026b9u32 => Some(Api::NvAPI_Mosaic_GetDisplayCapabilities),
        0xdc6dc8d3u32 => Some(Api::NvAPI_Mosaic_GetDisplayViewportsByResolution),
        0xdf2887afu32 => Some(Api::NvAPI_Mosaic_EnumDisplayGrids),
        0xd54b8989u32 => Some(Api::NvAPI_SetCurrentMosaicTopology),
        0xd9639601u32 => Some(Api::NvAPI_GSync_EnumSyncDevices),
        0xdfc063b7u32 => Some(Api::NvAPI_Stereo_GetStereoCaps),
        0xda044458u32 => Some(Api::NvAPI_Stereo_DecreaseSeparation),
        0xd4974572u32 => Some(Api::NvAPI_Stereo_GetPixelShaderConstantF),
        0xd7c9ec09u32 => Some(Api::NvAPI_Stereo_Is3DCursorSupported),
        0xd01bd237u32 => Some(Api::NvAPI_VIO_Close),
        0xd34a789bu32 => Some(Api::NvAPI_VIO_GetConfig),
        0xdbdf0cb2u32 => Some(Api::NvAPI_DISP_GetNvManagedDedicatedDisplays),
        0xdad9cff8u32 => Some(Api::NvAPI_DRS_DestroySession),
        0xd3ede889u32 => Some(Api::NvAPI_DRS_LoadSettingsFromFile),
        0xd61cbe6eu32 => Some(Api::NvAPI_DRS_GetSettingNameFromId),
        0xda8466a0u32 => Some(Api::NvAPI_DRS_GetBaseProfile),
        0xde1f9b45u32 => Some(Api::NvAPI_Event_UnregisterCallback),
        0xd2488b79u32 => Some(Api::NvAPI_GPU_GetCurrentThermalLevel),
        0xd8cbf37bu32 => Some(Api::NvAPI_GPU_GetVPECount),
        0xd988f0f3u32 => Some(Api::NvAPI_GPU_GetShortName),
        0xdee047abu32 => Some(Api::NvAPI_GPU_GetPSFloorSweepStatus),
        0xd4f3944cu32 => Some(Api::NvAPI_GPU_GetVSFloorSweepStatus),
        0xd8265d24u32 => Some(Api::NvAPI_GPU_GetArchInfo),
        0xd26b8a58u32 => Some(Api::NvAPI_GPU_GetHybridControllerInfo),
        0xd3a092b1u32 => Some(Api::NvAPI_SYS_SetPostOutput),
        0xdddfda38u32 => Some(Api::NvAPI_GPU_ClientFanArbitersGetInfo),
        0xd4100e58u32 => Some(Api::NvAPI_GPU_ClientIllumDevicesGetInfo),
        0xd53c9ef0u32 => Some(Api::NvAPI_D3D12_RegisterPresentBarrierResources),
        0xdb8d28afu32 => Some(Api::NvAPI_D3D11_CreateRasterizerState),
        0xd6839099u32 => Some(Api::NvAPI_D3D11_TiledResourceBarrier),
        0xde24fc3du32 => Some(Api::NvAPI_D3D12_ExecuteMetaCommand),
        0xd0cbca7du32 => Some(Api::NvAPI_D3D1x_DisableShaderDiskCache),
        0xd2d25687u32 => Some(Api::NvAPI_D3D11_MultiGPU_GetCaps),
        0xd4e26bbfu32 => Some(Api::NvAPI_D3D11_MultiDrawInstancedIndirect),
        0xd9984c05u32 => Some(Api::NvAPI_D3D_SetLatencyMarker),
        0xdf295ea6u32 => Some(Api::NvAPI_D3D12_DestroyCuFunction),
        _ => None,
    }
}

fn from_id_e(id: u32) -> (r: Option<Api>)
    ensures
        r == api_of_id_e(id),
{
    match id {
        0xe5ac921fu32 => Some(Api::NvAPI_EnumPhysicalGPUs),
        0xee1370cfu32 => Some(Api::NvAPI_GetLogicalGPUFromDisplay),
        0xe5ceae41u32 => Some(Api::NvAPI_D3D9_AliasSurfaceAsTexture),
        0xe5a9aae0u32 => Some(Api::NvAPI_D3D_Query_Begin),
        0xe99ba7f3u32 => Some(Api::NvAPI_D3D9_PathEnableDepthTestNV),
        0xef303a9du32 => Some(Api::NvAPI_D3D10_BeginShareResourceEx),
        0xeb7af173u32 => Some(Api::NvAPI_GPU_GetSMMask),
        0xe3e89b6fu32 => Some(Api::NvAPI_GPU_GetActiveOutputs),
        0xe83d6456u32 => Some(Api::NvAPI_GPU_SetEDID),
        0xe4715417u32 => Some(Api::NvAPI_GPU_GetIRQ),
        0xe332fa47u32 => Some(Api::NvAPI_GPU_GetQuadroStatus),
        0xe3640a56u32 => Some(Api::NvAPI_GPU_GetThermalSettings),
        0xe812eb07u32 => Some(Api::NvAPI_I2CWrite),
        0xedcf624eu32 => Some(Api::NvAPI_GPU_ClientPowerTopologyGetStatus),
        0xe04f3d86u32 => Some(Api::NvAPI_SetDisplaySettings),
        0xe7cb998du32 => Some(Api::NvAPI_DeleteCustomDisplay),
        0xe23b68c1u32 => Some(Api::NvAPI_GetHybridMode),
        0xec32944eu32 => Some(Api::NvAPI_Mosaic_GetCurrentTopo),
        0xe6839b43u32 => Some(Api::NvAPI_Stereo_GetFrustumAdjustMode),
        0xed4416c5u32 => Some(Api::NvAPI_Stereo_Debug_WasLastDrawStereoized),
        0xecd8f8cfu32 => Some(Api::NvAPI_Stereo_GetPixelShaderConstantI),
        0xead72fe4u32 => Some(Api::NvAPI_VIO_EnumSignalFormats),
        0xeba4d232u32 => Some(Api::NvAPI_D3D9_QuerySwapGroup),
        0xed1f8c69u32 => Some(Api::NvAPI_DRS_GetApplicationInfo),
        0xeee566b2u32 => Some(Api::NvAPI_DRS_FindApplicationByName),
        0xe4a26362u32 => Some(Api::NvAPI_DRS_DeleteProfileSetting),
        0xe6dbea69u32 => Some(Api::NvAPI_Event_RegisterCallback),
        0xe81ce836u32 => Some(Api::NvAPI_GPU_GetScanoutIntensityState),
        0xe2e1e6f0u32 => Some(Api::NvAPI_GPU_GetScanoutConfigurationEx),
        0xe0b1dce9u32 => Some(Api::NvAPI_GPU_GetRawFuseData),
        0xe1d5dabau32 => Some(Api::NvAPI_GPU_GetVbiosMxmVersion),
        0xe3795199u32 => Some(Api::NvAPI_GPU_GetPCIEInfo),
        0xed9e8057u32 => Some(Api::NvAPI_GPU_GetDisplayUnderflowStatus),
        0xe4b701e3u32 => Some(Api::NvAPI_GPU_GetBarInfo),
        0xe9c425a1u32 => Some(Api::NvAPI_GPU_ClientThermalPoliciesGetStatus),
        0xe440b867u32 => Some(Api::NvAPI_GPU_PerfClientLimitsGetStatus),
        0xe543c540u32 => Some(Api::NvAPI_GPU_ClientFanPoliciesGetControl),
        0xe6bfedd6u32 => Some(Api::NvAPI_D3D11_ResolveSubresourceRegion),
        0xeb29634bu32 => Some(Api::NvAPI_D3D12_CreateMetaCommand),
        0xe942b0ffu32 => Some(Api::NvAPI_D3D_IsGSyncActive),
        0xe1fdaba7u32 => Some(Api::NvAPI_D3D12_SetModifiedWMode),
        0xe2436e22u32 => Some(Api::NvAPI_D3D12_CreateCuFunction),
        0xe24ead45u32 => Some(Api::NvAPI_D3D12_BuildRaytracingAccelerationStructureEx),
        _ => None,
    }
}

fn from_id_f(id: u32) -> (r: Option<Api>)
    ensures
        r == api_of_id_f(id),
{
    match id {
        0xf951a4d1u32 => Some(Api::NvAPI_GetDisplayDriverVersion),
        0xfa13e65au32 => Some(Api::NvAPI_SetDisplayPort),
        0xf5a0f22cu32 => Some(Api::NvAPI_SetHUEAngle),
        0xf8b53c69u32 => Some(Api::NvAPI_D3D_Query_GetData),
        0xf2a54796u32 => Some(Api::NvAPI_D3D_Query_GetDataSize),
        0xf7ff00c1u32 => Some(Api::NvAPI_D3D9_PathParameterfNV),
        0xfc31236cu32 => Some(Api::NvAPI_D3D9_PathParameteriNV),
        0xfcb16330u32 => Some(Api::NvAPI_D3D9_PathDepthNV),
        0xfc5a155bu32 => Some(Api::NvAPI_D3D9_GetIndexBufferHandle),
        0xfdfc7d49u32 => Some(Api::NvAPI_GPU_SetPstateClientLimits),
        0xfa579a0fu32 => Some(Api::NvAPI_GPU_EnableDynamicPstates),
        0xfcabd23au32 => Some(Api::NvAPI_GPU_SetColorSpaceConversion),
        0xf98854c8u32 => Some(Api::NvAPI_DeleteUnderscanConfig),
        0xf36a668du32 => Some(Api::NvAPI_SetDisplayFeatureConfig),
        0xfb22d656u32 => Some(Api::NvAPI_SetHybridMode),
        0xf4c863acu32 => Some(Api::NvAPI_Coproc_SetCoprocInfoFlagsEx),
        0xfdb63c81u32 => Some(Api::NvAPI_Mosaic_GetSupportedTopoInfo),
        0xf60852bdu32 => Some(Api::NvAPI_GetCurrentMosaicTopology),
        0xf1f5b434u32 => Some(Api::NvAPI_GSync_GetSyncStatus),
        0xf4c2f8ccu32 => Some(Api::NvAPI_Hybrid_QueryBlockedMigratableApps),
        0xfa0b9a59u32 => Some(Api::NvAPI_Hybrid_SetAppMigrationState),
        0xfab69565u32 => Some(Api::NvAPI_GPU_GPIOQueryLegalPins),
        0xf5e10439u32 => Some(Api::NvAPI_GPU_GPIOReadFromPin),
        0xf3b11e68u32 => Some(Api::NvAPI_GPU_GPIOWriteToPin),
        0xf089eef5u32 => Some(Api::NvAPI_GPU_GetHDCPSupportStatus),
        0xf117b834u32 => Some(Api::NvAPI_Stereo_DeleteConfigurationProfileRegistryKey),
        0xf6a1ad68u32 => Some(Api::NvAPI_Stereo_Activate),
        0xf5dcfcbau32 => Some(Api::NvAPI_Stereo_SetSurfaceCreationMode),
        0xfbc08fc1u32 => Some(Api::NvAPI_Stereo_SetCursorSeparation),
        0xfd7c5557u32 => Some(Api::NvAPI_VIO_EnumDevices),
        0xfa6a0675u32 => Some(Api::NvAPI_D3D9_ResetFrameCount),
        0xfbbb031au32 => Some(Api::NvAPI_D3D1x_ResetFrameCount),
        0xfcbc7e14u32 => Some(Api::NvAPI_DRS_SaveSettings),
        0xf020614au32 => Some(Api::NvAPI_DRS_EnumAvailableSettingIds),
        0xfa5f6134u32 => Some(Api::NvAPI_DRS_RestoreProfileDefault),
        0xf898247du32 => Some(Api::NvAPI_GPU_SetScanoutCompositionParameter),
        0xf5579360u32 => Some(Api::NvAPI_AccessDisplayDriverRegistry),
        0xfc13ee11u32 => Some(Api::NvAPI_GPU_GetVbiosImage),
        0xf91e777bu32 => Some(Api::NvAPI_GPU_GetHardwareQualType),
        0xf409d5e5u32 => Some(Api::NvAPI_SetTopologyDisplayGPU),
        0xfb85b01eu32 => Some(Api::NvAPI_GPU_ClientFanCoolersGetInfo),
        0xf627074fu32 => Some(Api::NvAPI_GPU_ClientRegisterForOcConfigChangedUpdates),
        0xfceac864u32 => Some(Api::NvAPI_D3D_GetObjectHandleForResource),
        0xf1a2b9d5u32 => Some(Api::NvAPI_D3D11_TiledTexture2DArrayGetDesc),
        0xf1c54fc9u32 => Some(Api::NvAPI_D3D11_AliasMSAATexture2DAsNonMSAA),
        0xf505fba0u32 => Some(Api::NvAPI_D3D11_CreateMetaCommand),
        0xf6305eb5u32 => Some(Api::NvAPI_D3D12_GetCopyableFootprints),
        0xf0d978a8u32 => Some(Api::NvAPI_D3D12_UseDriverHeapPriorities),
        0xf1d2777bu32 => Some(Api::Unknown_F1D2777B),
        0xfdc129fau32 => Some(Api::Unknown_GetROPCount),
        _ => None,
    }
}

fn id_part_0(a: Api) -> (r: Option<u32>)
    ensures
        r == api_id_part_0(a),
{
    match a {
        Api::NvAPI_Initialize => Some(0x0150e828u32),
        Api::NvAPI_Unload => Some(0xd22bdd7eu32),
        Api::NvAPI_GetErrorMessage => Some(0x6c2d048cu32),
        Api::NvAPI_GetInterfaceVersionString => Some(0x01053fa5u32),
        Api::NvAPI_GetDisplayDriverVersion => Some(0xf951a4d1u32),
        Api::NvAPI_SYS_GetDriverAndBranchVersion => Some(0x2926aaadu32),
        Api::NvAPI_EnumNvidiaDisplayHandle => Some(0x9abdd40du32),
        Api::NvAPI_EnumNvidiaUnAttachedDisplayHandle => Some(0x20de9260u32),
        Api::NvAPI_EnumPhysicalGPUs => Some(0xe5ac921fu32),
        Api::NvAPI_EnumTCCPhysicalGPUs => Some(0xd9930b07u32),
        Api::NvAPI_EnumLogicalGPUs => Some(0x48b3ea59u32),
        Api::NvAPI_GetPhysicalGPUsFromDisplay => Some(0x34ef9506u32),
        Api::NvAPI_GetPhysicalGPUFromUnAttachedDisplay => Some(0x5018ed61u32),
        Api::NvAPI_CreateDisplayFromUnAttachedDisplay => Some(0x63f9799eu32),
        Api::NvAPI_GetLogicalGPUFromDisplay => Some(0xee1370cfu32),
        Api::NvAPI_GetLogicalGPUFromPhysicalGPU => Some(0xadd604d1u32),
        Api::NvAPI_GetPhysicalGPUsFromLogicalGPU => Some(0xaea3fa32u32),
        Api::NvAPI_GetAssociatedNvidiaDisplayHandle => Some(0x35c29134u32),
        Api::NvAPI_DISP_GetAssociatedUnAttachedNvidiaDisplayHandle => Some(0xa70503b2u32),
        Api::NvAPI_GetAssociatedNvidiaDisplayName => Some(0x22a78b05u32),
        Api::NvAPI_GetUnAttachedAssociatedDisplayName => Some(0x4888d790u32),
        Api::NvAPI_EnableHWCursor => Some(0x2863148du32),
        Api::NvAPI_DisableHWCursor => Some(0xab163097u32),
        Api::NvAPI_GetVBlankCounter => Some(0x67b5db55u32),
        Api::NvAPI_SetRefreshRateOverride => Some(0x3092ac32u32),
        Api::NvAPI_GetAssociatedDisplayOutputId => Some(0xd995937eu32),
        Api::NvAPI_GetDisplayPortInfo => Some(0xc64ff367u32),
        Api::NvAPI_SetDisplayPort => Some(0xfa13e65au32),
        Api::NvAPI_GetHDMISupportInfo => Some(0x6ae16ec3u32),
        Api::NvAPI_DISP_EnumHDMIStereoModes => Some(0xd2ccf5d6u32),
        Api::NvAPI_GetInfoFrame => Some(0x09734f1du32),
        Api::NvAPI_SetInfoFrame => Some(0x69c6f365u32),
        Api::NvAPI_SetInfoFrameState => Some(0x67efd887u32),
        Api::NvAPI_GetInfoFrameState => Some(0x41511594u32),
        Api::NvAPI_Disp_InfoFrameControl => Some(0x6067af3fu32),
        Api::NvAPI_Disp_ColorControl => Some(0x92f9d80du32),
        Api::NvAPI_Disp_GetHdrCapabilities => Some(0x84f2a8dfu32),
        Api::NvAPI_Disp_HdrColorControl => Some(0x351da224u32),
        Api::NvAPI_DISP_GetVirtualModeData => Some(0x3230d69au32),
        Api::NvAPI_DISP_OverrideDisplayModeList => Some(0x0291bff2u32),
        Api::NvAPI_GetDisplayDriverMemoryInfo => Some(0x774aa982u32),
        Api::NvAPI_GetDriverMemoryInfo => Some(0x2dc95125u32),
        Api::NvAPI_GetDVCInfo => Some(0x4085de45u32),
        Api::NvAPI_SetDVCLevel => Some(0x172409b4u32),
        Api::NvAPI_GetDVCInfoEx => Some(0x0e45002du32),
        Api::NvAPI_SetDVCLevelEx => Some(0x4a82c2b1u32),
        Api::NvAPI_GetHUEInfo => Some(0x95b64341u32),
        Api::NvAPI_SetHUEAngle => Some(0xf5a0f22cu32),
        Api::NvAPI_GetImageSharpeningInfo => Some(0x9fb063dfu32),
        Api::NvAPI_SetImageSharpeningLevel => Some(0x3fc9a59cu32),
        _ => None,
    }
}

fn id_part_1(a: Api) -> (r: Option<u32>)
    ensures
        r == api_id_part_1(a),
{
    match a {
        Api::NvAPI_D3D_GetCurrentSLIState => Some(0x4b708b54u32),
        Api::NvAPI_D3D9_RegisterResource => Some(0xa064bdfcu32),
        Api::NvAPI_D3D9_UnregisterResource => Some(0xbb2b17aau32),
        Api::NvAPI_D3D9_AliasSurfaceAsTexture => Some(0xe5ceae41u32),
        Api::NvAPI_D3D9_StretchRectEx => Some(0x22de03aau32),
        Api::NvAPI_D3D9_ClearRT => Some(0x332d3942u32),
        Api::NvAPI_D3D_CreateQuery => Some(0x5d19bca4u32),
        Api::NvAPI_D3D_DestroyQuery => Some(0xc8ff7258u32),
        Api::NvAPI_D3D_Query_Begin => Some(0xe5a9aae0u32),
        Api::NvAPI_D3D_Query_End => Some(0x2ac084fau32),
        Api::NvAPI_D3D_Query_GetData => Some(0xf8b53c69u32),
        Api::NvAPI_D3D_Query_GetDataSize => Some(0xf2a54796u32),
        Api::NvAPI_D3D_Query_GetType => Some(0x4aceeaf7u32),
        Api::NvAPI_D3D_RegisterApp => Some(0xd44d3c4eu32),
        Api::NvAPI_D3D9_CreatePathContextNV => Some(0xa342f682u32),
        Api::NvAPI_D3D9_DestroyPathContextNV => Some(0x667c2929u32),
        Api::NvAPI_D3D9_CreatePathNV => Some(0x71329df3u32),
        Api::NvAPI_D3D9_DeletePathNV => Some(0x73e0019au32),
        Api::NvAPI_D3D9_PathVerticesNV => Some(0xc23df926u32),
        Api::NvAPI_D3D9_PathParameterfNV => Some(0xf7ff00c1u32),
        Api::NvAPI_D3D9_PathParameteriNV => Some(0xfc31236cu32),
        Api::NvAPI_D3D9_PathMatrixNV => Some(0xd2f6c499u32),
        Api::NvAPI_D3D9_PathDepthNV => Some(0xfcb16330u32),
        Api::NvAPI_D3D9_PathClearDepthNV => Some(0x157e45c4u32),
        Api::NvAPI_D3D9_PathEnableDepthTestNV => Some(0xe99ba7f3u32),
        Api::NvAPI_D3D9_PathEnableColorWriteNV => Some(0x3e2804a2u32),
        Api::NvAPI_D3D9_DrawPathNV => Some(0x13199b3du32),
        Api::NvAPI_D3D9_GetSurfaceHandle => Some(0x0f2dd3f2u32),
        Api::NvAPI_D3D9_GetOverlaySurfaceHandles => Some(0x6800f5fcu32),
        Api::NvAPI_D3D9_GetTextureHandle => Some(0xc7985ed5u32),
        Api::NvAPI_D3D9_GpuSyncGetHandleSize => Some(0x80c9fd3bu32),
        Api::NvAPI_D3D9_GpuSyncInit => Some(0x6d6fdad4u32),
        Api::NvAPI_D3D9_GpuSyncEnd => Some(0x754033f0u32),
        Api::NvAPI_D3D9_GpuSyncMapTexBuffer => Some(0xcde4a28au32),
        Api::NvAPI_D3D9_GpuSyncMapSurfaceBuffer => Some(0x2ab714abu32),
        Api::NvAPI_D3D9_GpuSyncMapVertexBuffer => Some(0xdbc803ecu32),
        Api::NvAPI_D3D9_GpuSyncMapIndexBuffer => Some(0x12ee68f2u32),
        Api::NvAPI_D3D9_SetPitchSurfaceCreation => Some(0x18cdf365u32),
        Api::NvAPI_D3D9_GpuSyncAcquire => Some(0xd00b8317u32),
        Api::NvAPI_D3D9_GpuSyncRelease => Some(0x3d7a86bbu32),
        Api::NvAPI_D3D9_GetCurrentRenderTargetHandle => Some(0x022cad61u32),
        Api::NvAPI_D3D9_GetCurrentZBufferHandle => Some(0xb380f218u32),
        Api::NvAPI_D3D9_GetIndexBufferHandle => Some(0xfc5a155bu32),
        Api::NvAPI_D3D9_GetVertexBufferHandle => Some(0x72b19155u32),
        Api::NvAPI_D3D9_CreateTexture => Some(0xd5e13573u32),
        Api::NvAPI_D3D9_AliasPrimaryAsTexture => Some(0x13c7112eu32),
        Api::NvAPI_D3D9_PresentSurfaceToDesktop => Some(0x0f7029c5u32),
        Api::NvAPI_D3D9_CreateVideoBegin => Some(0x84c9d553u32),
        Api::NvAPI_D3D9_CreateVideoEnd => Some(0xb476bf61u32),
        Api::NvAPI_D3D9_CreateVideo => Some(0x89ffd9a3u32),
        _ => None,
    }
}

fn id_part_2(a: Api) -> (r: Option<u32>)
    ensures
        r == api_id_part_2(a),
{
    match a {
        Api::NvAPI_D3D9_FreeVideo => Some(0x3111bed1u32),
        Api::NvAPI_D3D9_PresentVideo => Some(0x5cf7f862u32),
        Api::NvAPI_D3D9_VideoSetStereoInfo => Some(0xb852f4dbu32),
        Api::NvAPI_D3D9_SetGamutData => Some(0x2bbda32eu32),
        Api::NvAPI_D3D9_SetSurfaceCreationLayout => Some(0x5609b86au32),
        Api::NvAPI_D3D9_GetVideoCapabilities => Some(0x3d596b93u32),
        Api::NvAPI_D3D9_QueryVideoInfo => Some(0x1e6634b3u32),
        Api::NvAPI_D3D9_AliasPrimaryFromDevice => Some(0x7c20c5beu32),
        Api::NvAPI_D3D9_SetResourceHint => Some(0x905f5c27u32),
        Api::NvAPI_D3D9_Lock => Some(0x6317345cu32),
        Api::NvAPI_D3D9_Unlock => Some(0xc182027eu32),
        Api::NvAPI_D3D9_GetVideoState => Some(0xa4527bf8u32),
        Api::NvAPI_D3D9_SetVideoState => Some(0xbd4bc56fu32),
        Api::NvAPI_D3D9_EnumVideoFeatures => Some(0x1db7c52cu32),
        Api::NvAPI_D3D9_GetSLIInfo => Some(0x694bff4du32),
        Api::NvAPI_D3D9_SetSLIMode => Some(0xbfdc062cu32),
        Api::NvAPI_D3D9_QueryAAOverrideMode => Some(0xddf5643cu32),
        Api::NvAPI_D3D9_VideoSurfaceEncryptionControl => Some(0x9d2509efu32),
        Api::NvAPI_D3D9_DMA => Some(0x962b8af6u32),
        Api::NvAPI_D3D9_EnableStereo => Some(0x492a6954u32),
        Api::NvAPI_D3D9_StretchRect => Some(0xaeaecd41u32),
        Api::NvAPI_D3D9_CreateRenderTarget => Some(0x0b3827c8u32),
        Api::NvAPI_D3D9_NVFBC_GetStatus => Some(0xbd3eb475u32),
        Api::NvAPI_D3D9_IFR_SetUpTargetBufferToSys => Some(0x55255d05u32),
        Api::NvAPI_D3D9_GPUBasedCPUSleep => Some(0xd504dda7u32),
        Api::NvAPI_D3D9_IFR_TransferRenderTarget => Some(0x0ab7c2dcu32),
        Api::NvAPI_D3D9_IFR_SetUpTargetBufferToNV12BLVideoSurface => Some(0xcfc92c15u32),
        Api::NvAPI_D3D9_IFR_TransferRenderTargetToNV12BLVideoSurface => Some(0x5fe72f64u32),
        Api::NvAPI_D3D10_AliasPrimaryAsTexture => Some(0x8aac133du32),
        Api::NvAPI_D3D10_SetPrimaryFlipChainCallbacks => Some(0x73eb9329u32),
        Api::NvAPI_D3D10_ProcessCallbacks => Some(0xae9c2019u32),
        Api::NvAPI_D3D10_GetRenderedCursorAsBitmap => Some(0xcac3ce5du32),
        Api::NvAPI_D3D10_BeginShareResource => Some(0x35233210u32),
        Api::NvAPI_D3D10_BeginShareResourceEx => Some(0xef303a9du32),
        Api::NvAPI_D3D10_EndShareResource => Some(0x0e9c5853u32),
        Api::NvAPI_D3D10_SetDepthBoundsTest => Some(0x4eadf5d2u32),
        Api::NvAPI_D3D10_CreateDevice => Some(0x2de11d61u32),
        Api::NvAPI_D3D10_CreateDeviceAndSwapChain => Some(0x5b803dafu32),
        Api::NvAPI_D3D11_CreateDevice => Some(0x6a16d3a0u32),
        Api::NvAPI_D3D11_CreateDeviceAndSwapChain => Some(0xbb939ee5u32),
        Api::NvAPI_D3D11_BeginShareResource => Some(0x0121bdc6u32),
        Api::NvAPI_D3D11_EndShareResource => Some(0x8ffb8e26u32),
        Api::NvAPI_D3D11_SetDepthBoundsTest => Some(0x7aaf7a04u32),
        Api::NvAPI_D3D11_IsNvShaderExtnOpCodeSupported => Some(0x5f68da40u32),
        Api::NvAPI_D3D11_SetNvShaderExtnSlot => Some(0x8e90bb9fu32),
        Api::NvAPI_D3D12_SetNvShaderExtnSlotSpace => Some(0xac2dfeb5u32),
        Api::NvAPI_D3D12_SetNvShaderExtnSlotSpaceLocalThread => Some(0x43d867c0u32),
        Api::NvAPI_D3D11_SetNvShaderExtnSlotLocalThread => Some(0x0e6482a0u32),
        Api::NvAPI_D3D11_BeginUAVOverlapEx => Some(0xba08208au32),
        Api::NvAPI_D3D11_BeginUAVOverlap => Some(0x65b93ca8u32),
        _ => None,
    }
}

fn id_part_3(a: Api) -> (r: Option<u32>)
    ensures
        r == api_id_part_3(a),
{
    match a {
        Api::NvAPI_D3D11_EndUAVOverlap => Some(0x2216a357u32),
        Api::NvAPI_D3D11_GetResourceHandle => Some(0x09d52986u32),
        Api::NvAPI_GPU_GetShaderPipeCount => Some(0x63e2f56fu32),
        Api::NvAPI_GPU_GetShaderSubPipeCount => Some(0x0be17923u32),
        Api::NvAPI_GPU_GetPartitionCount => Some(0x86f05d7au32),
        Api::NvAPI_GPU_GetMemPartitionMask => Some(0x329d77cdu32),
        Api::NvAPI_GPU_GetTPCMask => Some(0x4a35df54u32),
        Api::NvAPI_GPU_GetSMMask => Some(0xeb7af173u32),
        Api::NvAPI_GPU_GetTotalTPCCount => Some(0x4e2f76a8u32),
        Api::NvAPI_GPU_GetTotalSMCount => Some(0xae5fbcfeu32),
        Api::NvAPI_GPU_GetTotalSPCount => Some(0xb6d62591u32),
        Api::NvAPI_GPU_GetGpuCoreCount => Some(0xc7026a87u32),
        Api::NvAPI_GPU_GetAllOutputs => Some(0x7d554f8eu32),
        Api::NvAPI_GPU_GetConnectedOutputs => Some(0x1730bfc9u32),
        Api::NvAPI_GPU_GetConnectedSLIOutputs => Some(0x0680de09u32),
        Api::NvAPI_GPU_GetConnectedDisplayIds => Some(0x0078dba2u32),
        Api::NvAPI_GPU_GetAllDisplayIds => Some(0x785210a2u32),
        Api::NvAPI_GPU_GetConnectedOutputsWithLidState => Some(0xcf8caf39u32),
        Api::NvAPI_GPU_GetConnectedSLIOutputsWithLidState => Some(0x96043cc7u32),
        Api::NvAPI_GPU_GetSystemType => Some(0xbaaabfccu32),
        Api::NvAPI_GPU_GetActiveOutputs => Some(0xe3e89b6fu32),
        Api::NvAPI_GPU_GetEDID => Some(0x37d32e69u32),
        Api::NvAPI_GPU_SetEDID => Some(0xe83d6456u32),
        Api::NvAPI_GPU_GetOutputType => Some(0x40a505e4u32),
        Api::NvAPI_GPU_GetDeviceDisplayMode => Some(0xd2277e3au32),
        Api::NvAPI_GPU_GetFlatPanelInfo => Some(0x36cff969u32),
        Api::NvAPI_GPU_ValidateOutputCombination => Some(0x34c9c2d4u32),
        Api::NvAPI_GPU_GetConnectorInfo => Some(0x4eca2c10u32),
        Api::NvAPI_GPU_GetFullName => Some(0xceee8e9fu32),
        Api::NvAPI_GPU_GetPCIIdentifiers => Some(0x2ddfb66eu32),
        Api::NvAPI_GPU_GetGPUType => Some(0xc33baeb1u32),
        Api::NvAPI_GPU_GetBusType => Some(0x1bb18724u32),
        Api::NvAPI_GPU_GetBusId => Some(0x1be0b8e5u32),
        Api::NvAPI_GPU_GetBusSlotId => Some(0x2a0a350fu32),
        Api::NvAPI_GPU_GetIRQ => Some(0xe4715417u32),
        Api::NvAPI_GPU_GetVbiosRevision => Some(0xacc3da0au32),
        Api::NvAPI_GPU_GetVbiosOEMRevision => Some(0x2d43fb31u32),
        Api::NvAPI_GPU_GetVbiosVersionString => Some(0xa561fd7du32),
        Api::NvAPI_GPU_GetAGPAperture => Some(0x6e042794u32),
        Api::NvAPI_GPU_GetCurrentAGPRate => Some(0xc74925a0u32),
        Api::NvAPI_GPU_GetCurrentPCIEDownstreamWidth => Some(0xd048c3b1u32),
        Api::NvAPI_GPU_GetPhysicalFrameBufferSize => Some(0x46fbeb03u32),
        Api::NvAPI_GPU_GetVirtualFrameBufferSize => Some(0x5a04b644u32),
        Api::NvAPI_GPU_GetQuadroStatus => Some(0xe332fa47u32),
        Api::NvAPI_GPU_GetBoardInfo => Some(0x22d54523u32),
        Api::NvAPI_GPU_GetRamType => Some(0x57f7caacu32),
        Api::NvAPI_GPU_GetFBWidthAndLocation => Some(0x11104158u32),
        Api::NvAPI_GPU_GetAllClockFrequencies => Some(0xdcb616c3u32),
        Api::NvAPI_GPU_GetPerfClocks => Some(0x1ea54a3bu32),
        Api::NvAPI_GPU_SetPerfClocks => Some(0x07bcf4acu32),
        _ => None,
    }
}

fn id_part_4(a: Api) -> (r: Option<u32>)
    ensures
        r == api_id_part_4(a),
{
    match a {
        Api::NvAPI_GPU_GetCoolerSettings => Some(0xda141340u32),
        Api::NvAPI_GPU_SetCoolerLevels => Some(0x891fa0aeu32),
        Api::NvAPI_GPU_RestoreCoolerSettings => Some(0x8f6ed0fbu32),
        Api::NvAPI_GPU_GetCoolerPolicyTable => Some(0x0518a32cu32),
        Api::NvAPI_GPU_SetCoolerPolicyTable => Some(0x987947cdu32),
        Api::NvAPI_GPU_RestoreCoolerPolicyTable => Some(0xd8c4fe63u32),
        Api::NvAPI_GPU_GetPstatesInfo => Some(0xba94c56eu32),
        Api::NvAPI_GPU_GetPstatesInfoEx => Some(0x843c0256u32),
        Api::NvAPI_GPU_SetPstatesInfo => Some(0xcdf27911u32),
        Api::NvAPI_GPU_GetPstates20 => Some(0x6ff81213u32),
        Api::NvAPI_GPU_SetPstates20 => Some(0x0f4dae6bu32),
        Api::NvAPI_GPU_GetCurrentPstate => Some(0x927da4f6u32),
        Api::NvAPI_GPU_GetPstateClientLimits => Some(0x88c82104u32),
        Api::NvAPI_GPU_SetPstateClientLimits => Some(0xfdfc7d49u32),
        Api::NvAPI_GPU_EnableOverclockedPstates => Some(0xb23b70eeu32),
        Api::NvAPI_GPU_EnableDynamicPstates => Some(0xfa579a0fu32),
        Api::NvAPI_GPU_GetDynamicPstatesInfoEx => Some(0x60ded2edu32),
        Api::NvAPI_GPU_GetVoltages => Some(0x7d656244u32),
        Api::NvAPI_GPU_GetThermalSettings => Some(0xe3640a56u32),
        Api::NvAPI_GPU_SetDitherControl => Some(0xdf0dfcddu32),
        Api::NvAPI_GPU_GetDitherControl => Some(0x932ac8fbu32),
        Api::NvAPI_GPU_GetColorSpaceConversion => Some(0x8159e87au32),
        Api::NvAPI_GPU_SetColorSpaceConversion => Some(0xfcabd23au32),
        Api::NvAPI_GetTVOutputInfo => Some(0x30c805d5u32),
        Api::NvAPI_GetTVEncoderControls => Some(0x5757474au32),
        Api::NvAPI_SetTVEncoderControls => Some(0xca36a3abu32),
        Api::NvAPI_GetTVOutputBorderColor => Some(0x6dfd1c8cu32),
        Api::NvAPI_SetTVOutputBorderColor => Some(0xaed02700u32),
        Api::NvAPI_GetDisplayPosition => Some(0x6bb1ee5du32),
        Api::NvAPI_SetDisplayPosition => Some(0x57d9060fu32),
        Api::NvAPI_GetValidGpuTopologies => Some(0x5dfab48au32),
        Api::NvAPI_GetInvalidGpuTopologies => Some(0x15658be6u32),
        Api::NvAPI_SetGpuTopologies => Some(0x25201f3du32),
        Api::NvAPI_GPU_GetPerGpuTopologyStatus => Some(0xa81f8992u32),
        Api::NvAPI_SYS_GetChipSetTopologyStatus => Some(0x8a50f126u32),
        Api::NvAPI_GPU_Get_DisplayPort_DongleInfo => Some(0x76a70e8du32),
        Api::NvAPI_I2CRead => Some(0x2fde12c5u32),
        Api::NvAPI_I2CWrite => Some(0xe812eb07u32),
        Api::NvAPI_I2CWriteEx => Some(0x283ac65au32),
        Api::NvAPI_I2CReadEx => Some(0x4d7b0709u32),
        Api::NvAPI_GPU_GetPowerMizerInfo => Some(0x76bfa16bu32),
        Api::NvAPI_GPU_SetPowerMizerInfo => Some(0x50016c78u32),
        Api::NvAPI_GPU_GetVoltageDomainsStatus => Some(0xc16c7e2cu32),
        Api::NvAPI_GPU_ClientPowerTopologyGetInfo => Some(0xa4dfd3f2u32),
        Api::NvAPI_GPU_ClientPowerTopologyGetStatus => Some(0xedcf624eu32),
        Api::NvAPI_GPU_ClientPowerPoliciesGetInfo => Some(0x34206d86u32),
        Api::NvAPI_GPU_ClientPowerPoliciesGetStatus => Some(0x70916171u32),
        Api::NvAPI_GPU_ClientPowerPoliciesSetStatus => Some(0xad95f5edu32),
        Api::NvAPI_GPU_WorkstationFeatureSetup => Some(0x6c1f3fe4u32),
        Api::NvAPI_GPU_WorkstationFeatureQuery => Some(0x004537dfu32),
        _ => None,
    }
}

fn id_part_5(a: Api) -> (r: Option<u32>)
    ensures
        r == api_id_part_5(a),
{
    match a {
        Api::NvAPI_GPU_QueryWorkstationFeatureSupport => Some(0x80b1abb9u32),
        Api::NvAPI_SYS_GetChipSetInfo => Some(0x53dabbcau32),
        Api::NvAPI_SYS_GetLidAndDockInfo => Some(0xcda14d8au32),
        Api::NvAPI_OGL_ExpertModeSet => Some(0x3805ef7au32),
        Api::NvAPI_OGL_ExpertModeGet => Some(0x22ed9516u32),
        Api::NvAPI_OGL_ExpertModeDefaultsSet => Some(0xb47a657eu32),
        Api::NvAPI_OGL_ExpertModeDefaultsGet => Some(0xae921f12u32),
        Api::NvAPI_SetDisplaySettings => Some(0xe04f3d86u32),
        Api::NvAPI_GetDisplaySettings => Some(0xdc27d5d4u32),
        Api::NvAPI_GetTiming => Some(0xafc4833eu32),
        Api::NvAPI_DISP_GetTiming => Some(0x175167e9u32),
        Api::NvAPI_DISP_GetMonitorCapabilities => Some(0x3b05c7e1u32),
        Api::NvAPI_DISP_GetMonitorColorCapabilities => Some(0x6ae4cfb5u32),
        Api::NvAPI_DISP_EnumCustomDisplay => Some(0xa2072d59u32),
        Api::NvAPI_DISP_TryCustomDisplay => Some(0x1f7db630u32),
        Api::NvAPI_DISP_DeleteCustomDisplay => Some(0x552e5b9bu32),
        Api::NvAPI_DISP_SaveCustomDisplay => Some(0x49882876u32),
        Api::NvAPI_DISP_RevertCustomDisplayTrial => Some(0xcbbd40f0u32),
        Api::NvAPI_EnumCustomDisplay => Some(0x42892957u32),
        Api::NvAPI_TryCustomDisplay => Some(0xbf6c1762u32),
        Api::NvAPI_RevertCustomDisplayTrial => Some(0x854ba405u32),
        Api::NvAPI_DeleteCustomDisplay => Some(0xe7cb998du32),
        Api::NvAPI_SaveCustomDisplay => Some(0xa9062c78u32),
        Api::NvAPI_QueryUnderscanCap => Some(0x61d7b624u32),
        Api::NvAPI_EnumUnderscanConfig => Some(0x4144111au32),
        Api::NvAPI_DeleteUnderscanConfig => Some(0xf98854c8u32),
        Api::NvAPI_SetUnderscanConfig => Some(0x3efada1du32),
        Api::NvAPI_GetDisplayFeatureConfig => Some(0x8e985ccdu32),
        Api::NvAPI_SetDisplayFeatureConfig => Some(0xf36a668du32),
        Api::NvAPI_GetDisplayFeatureConfigDefaults => Some(0x0f5f4d01u32),
        Api::NvAPI_SetView => Some(0x0957d7b6u32),
        Api::NvAPI_GetView => Some(0xd6b99d89u32),
        Api::NvAPI_SetViewEx => Some(0x06b89e68u32),
        Api::NvAPI_GetViewEx => Some(0xdbbc0af4u32),
        Api::NvAPI_GetSupportedViews => Some(0x66fb7fc0u32),
        Api::NvAPI_GetHDCPLinkParameters => Some(0xb3bb0772u32),
        Api::NvAPI_Disp_DpAuxChannelControl => Some(0x8eb56969u32),
        Api::NvAPI_SetHybridMode => Some(0xfb22d656u32),
        Api::NvAPI_GetHybridMode => Some(0xe23b68c1u32),
        Api::NvAPI_Coproc_GetCoprocStatus => Some(0x1efc3957u32),
        Api::NvAPI_Coproc_SetCoprocInfoFlagsEx => Some(0xf4c863acu32),
        Api::NvAPI_Coproc_GetCoprocInfoFlagsEx => Some(0x69a9874du32),
        Api::NvAPI_Coproc_NotifyCoprocPowerState => Some(0xcadcb956u32),
        Api::NvAPI_Coproc_GetApplicationCoprocInfo => Some(0x79232685u32),
        Api::NvAPI_GetVideoState => Some(0x1c5659cdu32),
        Api::NvAPI_SetVideoState => Some(0x054fe75au32),
        Api::NvAPI_SetFrameRateNotify => Some(0x18919887u32),
        Api::NvAPI_SetPVExtName => Some(0x4feeb498u32),
        Api::NvAPI_GetPVExtName => Some(0x2f5b08e0u32),
        Api::NvAPI_SetPVExtProfile => Some(0x8354a8f4u32),
        _ => None,
    }
}

fn id_part_6(a: Api) -> (r: Option<u32>)
    ensures
        r == api_id_part_6(a),
{
    match a {
        Api::NvAPI_GetPVExtProfile => Some(0x1b1b9a16u32),
        Api::NvAPI_VideoSetStereoInfo => Some(0x97063269u32),
        Api::NvAPI_VideoGetStereoInfo => Some(0x8e1f8cfeu32),
        Api::NvAPI_Mosaic_GetSupportedTopoInfo => Some(0xfdb63c81u32),
        Api::NvAPI_Mosaic_GetTopoGroup => Some(0xcb89381du32),
        Api::NvAPI_Mosaic_GetOverlapLimits => Some(0x989685f0u32),
        Api::NvAPI_Mosaic_SetCurrentTopo => Some(0x9b542831u32),
        Api::NvAPI_Mosaic_GetCurrentTopo => Some(0xec32944eu32),
        Api::NvAPI_Mosaic_EnableCurrentTopo => Some(0x5f1aa66cu32),
        Api::NvAPI_Mosaic_SetGridTopology => Some(0x3f113c77u32),
        Api::NvAPI_Mosaic_GetMosaicCapabilities => Some(0xda97071eu32),
        Api::NvAPI_Mosaic_GetDisplayCapabilities => Some(0xd58026b9u32),
        Api::NvAPI_Mosaic_EnumGridTopologies => Some(0xa3c55220u32),
        Api::NvAPI_Mosaic_GetDisplayViewportsByResolution => Some(0xdc6dc8d3u32),
        Api::NvAPI_Mosaic_GetMosaicViewports => Some(0x07eba036u32),
        Api::NvAPI_Mosaic_SetDisplayGrids => Some(0x4d959a89u32),
        Api::NvAPI_Mosaic_ValidateDisplayGridsWithSLI => Some(0x1ecfd263u32),
        Api::NvAPI_Mosaic_ValidateDisplayGrids => Some(0xcf43903du32),
        Api::NvAPI_Mosaic_EnumDisplayModes => Some(0x78db97d7u32),
        Api::NvAPI_Mosaic_ChooseGpuTopologies => Some(0xb033b140u32),
        Api::NvAPI_Mosaic_EnumDisplayGrids => Some(0xdf2887afu32),
        Api::NvAPI_GetSupportedMosaicTopologies => Some(0x410b5c25u32),
        Api::NvAPI_GetCurrentMosaicTopology => Some(0xf60852bdu32),
        Api::NvAPI_SetCurrentMosaicTopology => Some(0xd54b8989u32),
        Api::NvAPI_EnableCurrentMosaicTopology => Some(0x74073cc9u32),
        Api::NvAPI_GSync_EnumSyncDevices => Some(0xd9639601u32),
        Api::NvAPI_GSync_QueryCapabilities => Some(0x44a3f1d1u32),
        Api::NvAPI_GSync_GetTopology => Some(0x4562bc38u32),
        Api::NvAPI_GSync_SetSyncStateSettings => Some(0x60acdfddu32),
        Api::NvAPI_GSync_GetControlParameters => Some(0x16de1c6au32),
        Api::NvAPI_GSync_SetControlParameters => Some(0x8bbff88bu32),
        Api::NvAPI_GSync_AdjustSyncDelay => Some(0x2d11ff51u32),
        Api::NvAPI_GSync_GetSyncStatus => Some(0xf1f5b434u32),
        Api::NvAPI_GSync_GetStatusParameters => Some(0x70d404ecu32),
        Api::NvAPI_QueryNonMigratableApps => Some(0xbb9ef1c3u32),
        Api::NvAPI_GPU_QueryActiveApps => Some(0x65b1c5f5u32),
        Api::NvAPI_Hybrid_QueryUnblockedNonMigratableApps => Some(0x5f35bcb5u32),
        Api::NvAPI_Hybrid_QueryBlockedMigratableApps => Some(0xf4c2f8ccu32),
        Api::NvAPI_Hybrid_SetAppMigrationState => Some(0xfa0b9a59u32),
        Api::NvAPI_Hybrid_IsAppMigrationStateChangeable => Some(0x584cb0b6u32),
        Api::NvAPI_GPU_GPIOQueryLegalPins => Some(0xfab69565u32),
        Api::NvAPI_GPU_GPIOReadFromPin => Some(0xf5e10439u32),
        Api::NvAPI_GPU_GPIOWriteToPin => Some(0xf3b11e68u32),
        Api::NvAPI_GPU_GetHDCPSupportStatus => Some(0xf089eef5u32),
        Api::NvAPI_SetTopologyFocusDisplayAndView => Some(0x0a8064f9u32),
        Api::NvAPI_Stereo_CreateConfigurationProfileRegistryKey => Some(0xbe7692ecu32),
        Api::NvAPI_Stereo_DeleteConfigurationProfileRegistryKey => Some(0xf117b834u32),
        Api::NvAPI_Stereo_SetConfigurationProfileValue => Some(0x24409f48u32),
        Api::NvAPI_Stereo_DeleteConfigurationProfileValue => Some(0x49bceecfu32),
        Api::NvAPI_Stereo_Enable => Some(0x239c4545u32),
        _ => None,
    }
}

fn id_part_7(a: Api) -> (r: Option<u32>)
    ensures
        r == api_id_part_7(a),
{
    match a {
        Api::NvAPI_Stereo_Disable => Some(0x2ec50c2bu32),
        Api::NvAPI_Stereo_IsEnabled => Some(0x348ff8e1u32),
        Api::NvAPI_Stereo_GetStereoCaps => Some(0xdfc063b7u32),
        Api::NvAPI_Stereo_GetStereoSupport => Some(0x296c434du32),
        Api::NvAPI_Stereo_CreateHandleFromIUnknown => Some(0xac7e37f4u32),
        Api::NvAPI_Stereo_DestroyHandle => Some(0x3a153134u32),
        Api::NvAPI_Stereo_Activate => Some(0xf6a1ad68u32),
        Api::NvAPI_Stereo_Deactivate => Some(0x2d68de96u32),
        Api::NvAPI_Stereo_IsActivated => Some(0x1fb0bc30u32),
        Api::NvAPI_Stereo_GetSeparation => Some(0x451f2134u32),
        Api::NvAPI_Stereo_SetSeparation => Some(0x5c069fa3u32),
        Api::NvAPI_Stereo_DecreaseSeparation => Some(0xda044458u32),
        Api::NvAPI_Stereo_IncreaseSeparation => Some(0xc9a8ececu32),
        Api::NvAPI_Stereo_GetConvergence => Some(0x4ab00934u32),
        Api::NvAPI_Stereo_SetConvergence => Some(0x3dd6b54bu32),
        Api::NvAPI_Stereo_DecreaseConvergence => Some(0x4c87e317u32),
        Api::NvAPI_Stereo_IncreaseConvergence => Some(0xa17daabeu32),
        Api::NvAPI_Stereo_GetFrustumAdjustMode => Some(0xe6839b43u32),
        Api::NvAPI_Stereo_SetFrustumAdjustMode => Some(0x7be27fa2u32),
        Api::NvAPI_Stereo_CaptureJpegImage => Some(0x932cb140u32),
        Api::NvAPI_Stereo_InitActivation => Some(0xc7177702u32),
        Api::NvAPI_Stereo_Trigger_Activation => Some(0x0d6c6cd2u32),
        Api::NvAPI_Stereo_CapturePngImage => Some(0x8b7e99b5u32),
        Api::NvAPI_Stereo_ReverseStereoBlitControl => Some(0x3cd58f89u32),
        Api::NvAPI_Stereo_SetNotificationMessage => Some(0x6b9b409eu32),
        Api::NvAPI_Stereo_SetActiveEye => Some(0x96eea9f8u32),
        Api::NvAPI_Stereo_SetDriverMode => Some(0x5e8f0becu32),
        Api::NvAPI_Stereo_GetEyeSeparation => Some(0xce653127u32),
        Api::NvAPI_Stereo_IsWindowedModeSupported => Some(0x40c8ed5eu32),
        Api::NvAPI_Stereo_AppHandShake => Some(0x8c610bdau32),
        Api::NvAPI_Stereo_HandShake_Trigger_Activation => Some(0xb30cd1a7u32),
        Api::NvAPI_Stereo_HandShake_Message_Control => Some(0x315e0ef0u32),
        Api::NvAPI_Stereo_SetSurfaceCreationMode => Some(0xf5dcfcbau32),
        Api::NvAPI_Stereo_GetSurfaceCreationMode => Some(0x36f1c736u32),
        Api::NvAPI_Stereo_Debug_WasLastDrawStereoized => Some(0xed4416c5u32),
        Api::NvAPI_Stereo_ForceToScreenDepth => Some(0x2d495758u32),
        Api::NvAPI_Stereo_SetVertexShaderConstantF => Some(0x416c07b3u32),
        Api::NvAPI_Stereo_SetVertexShaderConstantB => Some(0x5268716fu32),
        Api::NvAPI_Stereo_SetVertexShaderConstantI => Some(0x7923ba0eu32),
        Api::NvAPI_Stereo_GetVertexShaderConstantF => Some(0x622fdc87u32),
        Api::NvAPI_Stereo_GetVertexShaderConstantB => Some(0x712baa5bu32),
        Api::NvAPI_Stereo_GetVertexShaderConstantI => Some(0x5a60613au32),
        Api::NvAPI_Stereo_SetPixelShaderConstantF => Some(0xa9657f32u32),
        Api::NvAPI_Stereo_SetPixelShaderConstantB => Some(0xba6109eeu32),
        Api::NvAPI_Stereo_SetPixelShaderConstantI => Some(0x912ac28fu32),
        Api::NvAPI_Stereo_GetPixelShaderConstantF => Some(0xd4974572u32),
        Api::NvAPI_Stereo_GetPixelShaderConstantB => Some(0xc79333aeu32),
        Api::NvAPI_Stereo_GetPixelShaderConstantI => Some(0xecd8f8cfu32),
        Api::NvAPI_Stereo_SetDefaultProfile => Some(0x44f0ecd1u32),
        Api::NvAPI_Stereo_GetDefaultProfile => Some(0x624e21c2u32),
        _ => None,
    }
}

fn id_part_8(a: Api) -> (r: Option<u32>)
    ensures
        r == api_id_part_8(a),
{
    match a {
        Api::NvAPI_Stereo_Is3DCursorSupported => Some(0xd7c9ec09u32),
        Api::NvAPI_Stereo_GetCursorSeparation => Some(0x72162b35u32),
        Api::NvAPI_Stereo_SetCursorSeparation => Some(0xfbc08fc1u32),
        Api::NvAPI_VIO_GetCapabilities => Some(0x1dc91303u32),
        Api::NvAPI_VIO_Open => Some(0x44ee4841u32),
        Api::NvAPI_VIO_Close => Some(0xd01bd237u32),
        Api::NvAPI_VIO_Status => Some(0x0e6ce4f1u32),
        Api::NvAPI_VIO_SyncFormatDetect => Some(0x118d48a3u32),
        Api::NvAPI_VIO_GetConfig => Some(0xd34a789bu32),
        Api::NvAPI_VIO_SetConfig => Some(0x0e4eec07u32),
        Api::NvAPI_VIO_SetCSC => Some(0xa1ec8d74u32),
        Api::NvAPI_VIO_GetCSC => Some(0x7b0d72a3u32),
        Api::NvAPI_VIO_SetGamma => Some(0x964bf452u32),
        Api::NvAPI_VIO_GetGamma => Some(0x51d53d06u32),
        Api::NvAPI_VIO_SetSyncDelay => Some(0x2697a8d1u32),
        Api::NvAPI_VIO_GetSyncDelay => Some(0x462214a9u32),
        Api::NvAPI_VIO_GetPCIInfo => Some(0xb981d935u32),
        Api::NvAPI_VIO_IsRunning => Some(0x96bd040eu32),
        Api::NvAPI_VIO_Start => Some(0xcde8e1a3u32),
        Api::NvAPI_VIO_Stop => Some(0x6ba2a5d6u32),
        Api::NvAPI_VIO_IsFrameLockModeCompatible => Some(0x7bf0a94du32),
        Api::NvAPI_VIO_EnumDevices => Some(0xfd7c5557u32),
        Api::NvAPI_VIO_QueryTopology => Some(0x869534e2u32),
        Api::NvAPI_VIO_EnumSignalFormats => Some(0xead72fe4u32),
        Api::NvAPI_VIO_EnumDataFormats => Some(0x221fa8e8u32),
        Api::NvAPI_GPU_GetTachReading => Some(0x5f608315u32),
        Api::NvAPI_3D_GetProperty => Some(0x8061a4b1u32),
        Api::NvAPI_3D_SetProperty => Some(0xc9175e8du32),
        Api::NvAPI_3D_GetPropertyRange => Some(0xb85de27cu32),
        Api::NvAPI_GPS_GetPowerSteeringStatus => Some(0x540ee82eu32),
        Api::NvAPI_GPS_SetPowerSteeringStatus => Some(0x9723d3a2u32),
        Api::NvAPI_GPS_SetVPStateCap => Some(0x68888eb4u32),
        Api::NvAPI_GPS_GetVPStateCap => Some(0x71913023u32),
        Api::NvAPI_GPS_GetThermalLimit => Some(0x583113edu32),
        Api::NvAPI_GPS_SetThermalLimit => Some(0xc07e210fu32),
        Api::NvAPI_GPS_GetPerfSensors => Some(0x271c1109u32),
        Api::NvAPI_SYS_GetDisplayIdFromGpuAndOutputId => Some(0x08f2bab4u32),
        Api::NvAPI_SYS_GetGpuAndOutputIdFromDisplayId => Some(0x112ba1a5u32),
        Api::NvAPI_GPU_ClientRegisterForUtilizationSampleUpdates => Some(0xadeeaf67u32),
        Api::NvAPI_SYS_GetDisplayDriverInfo => Some(0x721facebu32),
        Api::NvAPI_SYS_GetPhysicalGpuFromDisplayId => Some(0x9ea74659u32),
        Api::NvAPI_DISP_GetDisplayIdByDisplayName => Some(0xae457190u32),
        Api::NvAPI_DISP_GetGDIPrimaryDisplayId => Some(0x1e9d8a31u32),
        Api::NvAPI_DISP_GetDisplayConfig => Some(0x11abccf8u32),
        Api::NvAPI_DISP_SetDisplayConfig => Some(0x5d8cf8deu32),
        Api::NvAPI_DISP_GetAdaptiveSyncData => Some(0xb73d1ee9u32),
        Api::NvAPI_DISP_SetAdaptiveSyncData => Some(0x3eebba1du32),
        Api::NvAPI_DISP_GetVirtualRefreshRateData => Some(0x8c00429au32),
        Api::NvAPI_DISP_SetVirtualRefreshRateData => Some(0x5abbe6a3u32),
        Api::NvAPI_DISP_SetPreferredStereoDisplay => Some(0xc9d0e25fu32),
        _ => None,
    }
}

fn id_part_9(a: Api) -> (r: Option<u32>)
    ensures
        r == api_id_part_9(a),
{
    match a {
        Api::NvAPI_DISP_GetPreferredStereoDisplay => Some(0x1f6b4666u32),
        Api::NvAPI_DISP_GetNvManagedDedicatedDisplays => Some(0xdbdf0cb2u32),
        Api::NvAPI_DISP_AcquireDedicatedDisplay => Some(0x47c917bau32),
        Api::NvAPI_DISP_ReleaseDedicatedDisplay => Some(0x1247825fu32),
        Api::NvAPI_GPU_GetPixelClockRange => Some(0x66af10b7u32),
        Api::NvAPI_GPU_SetPixelClockRange => Some(0x5ac7f8e5u32),
        Api::NvAPI_GPU_GetECCStatusInfo => Some(0xca1ddaf3u32),
        Api::NvAPI_GPU_GetECCErrorInfo => Some(0xc71f85a6u32),
        Api::NvAPI_GPU_ResetECCErrorInfo => Some(0xc02eec20u32),
        Api::NvAPI_GPU_GetECCConfigurationInfo => Some(0x77a796f3u32),
        Api::NvAPI_GPU_SetECCConfiguration => Some(0x1cf639d9u32),
        Api::NvAPI_D3D1x_CreateSwapChain => Some(0x1bc21b66u32),
        Api::NvAPI_D3D9_CreateSwapChain => Some(0x1a131e09u32),
        Api::NvAPI_D3D_SetFPSIndicatorState => Some(0xa776e8dbu32),
        Api::NvAPI_D3D9_Present => Some(0x05650bebu32),
        Api::NvAPI_D3D9_QueryFrameCount => Some(0x9083e53au32),
        Api::NvAPI_D3D9_ResetFrameCount => Some(0xfa6a0675u32),
        Api::NvAPI_D3D9_QueryMaxSwapGroup => Some(0x5995410du32),
        Api::NvAPI_D3D9_QuerySwapGroup => Some(0xeba4d232u32),
        Api::NvAPI_D3D9_JoinSwapGroup => Some(0x7d44bb54u32),
        Api::NvAPI_D3D9_BindSwapBarrier => Some(0x9c39c246u32),
        Api::NvAPI_D3D1x_Present => Some(0x03b845a1u32),
        Api::NvAPI_D3D1x_QueryFrameCount => Some(0x9152e055u32),
        Api::NvAPI_D3D1x_ResetFrameCount => Some(0xfbbb031au32),
        Api::NvAPI_D3D1x_QueryMaxSwapGroup => Some(0x9bb9d68fu32),
        Api::NvAPI_D3D1x_QuerySwapGroup => Some(0x407f67aau32),
        Api::NvAPI_D3D1x_JoinSwapGroup => Some(0x14610cd7u32),
        Api::NvAPI_D3D1x_BindSwapBarrier => Some(0x9de8c729u32),
        Api::NvAPI_SYS_VenturaGetState => Some(0xcb7c208du32),
        Api::NvAPI_SYS_VenturaSetState => Some(0x0ce2e9d9u32),
        Api::NvAPI_SYS_VenturaGetCoolingBudget => Some(0xc9d86e33u32),
        Api::NvAPI_SYS_VenturaSetCoolingBudget => Some(0x85ff5a15u32),
        Api::NvAPI_SYS_VenturaGetPowerReading => Some(0x63685979u32),
        Api::NvAPI_DISP_GetDisplayBlankingState => Some(0x63e5d8dbu32),
        Api::NvAPI_DISP_SetDisplayBlankingState => Some(0x1e17e29bu32),
        Api::NvAPI_DRS_CreateSession => Some(0x0694d52eu32),
        Api::NvAPI_DRS_DestroySession => Some(0xdad9cff8u32),
        Api::NvAPI_DRS_LoadSettings => Some(0x375dbd6bu32),
        Api::NvAPI_DRS_SaveSettings => Some(0xfcbc7e14u32),
        Api::NvAPI_DRS_LoadSettingsFromFile => Some(0xd3ede889u32),
        Api::NvAPI_DRS_SaveSettingsToFile => Some(0x2be25df8u32),
        Api::NvAPI_DRS_CreateProfile => Some(0xcc176068u32),
        Api::NvAPI_DRS_DeleteProfile => Some(0x17093206u32),
        Api::NvAPI_DRS_SetCurrentGlobalProfile => Some(0x1c89c5dfu32),
        Api::NvAPI_DRS_GetCurrentGlobalProfile => Some(0x617bff9fu32),
        Api::NvAPI_DRS_GetProfileInfo => Some(0x61cd6fd6u32),
        Api::NvAPI_DRS_SetProfileInfo => Some(0x16abd3a9u32),
        Api::NvAPI_DRS_FindProfileByName => Some(0x7e4a9a0bu32),
        Api::NvAPI_DRS_EnumProfiles => Some(0xbc371ee0u32),
        Api::NvAPI_DRS_GetNumProfiles => Some(0x1dae4fbcu32),
        _ => None,
    }
}

fn id_part_10(a: Api) -> (r: Option<u32>)
    ensures
        r == api_id_part_10(a),
{
    match a {
        Api::NvAPI_DRS_CreateApplication => Some(0x4347a9deu32),
        Api::NvAPI_DRS_DeleteApplicationEx => Some(0xc5ea85a1u32),
        Api::NvAPI_DRS_DeleteApplication => Some(0x2c694bc6u32),
        Api::NvAPI_DRS_GetApplicationInfo => Some(0xed1f8c69u32),
        Api::NvAPI_DRS_EnumApplications => Some(0x7fa2173au32),
        Api::NvAPI_DRS_FindApplicationByName => Some(0xeee566b2u32),
        Api::NvAPI_DRS_SetSetting => Some(0x577dd202u32),
        Api::NvAPI_DRS_GetSetting => Some(0x73bf8338u32),
        Api::NvAPI_DRS_EnumSettings => Some(0xae3039dau32),
        Api::NvAPI_DRS_EnumAvailableSettingIds => Some(0xf020614au32),
        Api::NvAPI_DRS_EnumAvailableSettingValues => Some(0x2ec39f90u32),
        Api::NvAPI_DRS_GetSettingIdFromName => Some(0xcb7309cdu32),
        Api::NvAPI_DRS_GetSettingNameFromId => Some(0xd61cbe6eu32),
        Api::NvAPI_DRS_DeleteProfileSetting => Some(0xe4a26362u32),
        Api::NvAPI_DRS_RestoreAllDefaults => Some(0x5927b094u32),
        Api::NvAPI_DRS_RestoreProfileDefault => Some(0xfa5f6134u32),
        Api::NvAPI_DRS_RestoreProfileDefaultSetting => Some(0x53f0381eu32),
        Api::NvAPI_DRS_GetBaseProfile => Some(0xda8466a0u32),
        Api::NvAPI_Event_RegisterCallback => Some(0xe6dbea69u32),
        Api::NvAPI_Event_UnregisterCallback => Some(0xde1f9b45u32),
        Api::NvAPI_GPU_GetCurrentThermalLevel => Some(0xd2488b79u32),
        Api::NvAPI_GPU_GetCurrentFanSpeedLevel => Some(0xbd71f0c9u32),
        Api::NvAPI_GPU_SetScanoutIntensity => Some(0xa57457a4u32),
        Api::NvAPI_GPU_GetScanoutIntensityState => Some(0xe81ce836u32),
        Api::NvAPI_GPU_SetScanoutWarping => Some(0xb34bab4fu32),
        Api::NvAPI_GPU_GetScanoutWarpingState => Some(0x6f5435afu32),
        Api::NvAPI_GPU_SetScanoutCompositionParameter => Some(0xf898247du32),
        Api::NvAPI_GPU_GetScanoutCompositionParameter => Some(0x58fe51e6u32),
        Api::NvAPI_GPU_GetScanoutConfiguration => Some(0x6a9f5b63u32),
        Api::NvAPI_GPU_GetScanoutConfigurationEx => Some(0xe2e1e6f0u32),
        Api::NvAPI_DISP_SetHCloneTopology => Some(0x61041c24u32),
        Api::NvAPI_DISP_GetHCloneTopology => Some(0x47bad137u32),
        Api::NvAPI_DISP_ValidateHCloneTopology => Some(0x5f4c2664u32),
        Api::NvAPI_GPU_GetAdapterIdFromPhysicalGpu => Some(0x0ff07fdeu32),
        Api::NvAPI_GPU_GetVirtualizationInfo => Some(0x44e022a9u32),
        Api::NvAPI_GPU_GetLogicalGpuInfo => Some(0x842b066eu32),
        Api::NvAPI_GPU_GetLicensableFeatures => Some(0x3fc596aau32),
        Api::NvAPI_GPU_GetVRReadyData => Some(0x81d629c5u32),
        Api::NvAPI_GPU_GetPerfDecreaseInfo => Some(0x7f7f4600u32),
        Api::NvAPI_GPU_QueryIlluminationSupport => Some(0xa629da31u32),
        Api::NvAPI_GPU_GetIllumination => Some(0x9a1b9365u32),
        Api::NvAPI_GPU_SetIllumination => Some(0x0254a187u32),
        Api::NvAPI_D3D1x_IFR_SetUpTargetBufferToSys => Some(0x473f7828u32),
        Api::NvAPI_D3D1x_IFR_TransferRenderTarget => Some(0x9fbae4ebu32),
        Api::NvAPI_GetPhysicalGPUFromDisplay => Some(0x1890e8dau32),
        Api::NvAPI_GetPhysicalGPUFromGPUID => Some(0x5380ad1au32),
        Api::NvAPI_GetGPUIDfromPhysicalGPU => Some(0x6533ea3eu32),
        Api::NvAPI_GetInfoFrameStatePvt => Some(0x7fc17574u32),
        Api::NvAPI_GPU_GetMemoryInfo => Some(0x07f9b368u32),
        Api::NvAPI_GPU_GetMemoryInfoEx => Some(0xc0599498u32),
        _ => None,
    }
}

fn id_part_11(a: Api) -> (r: Option<u32>)
    ensures
        r == api_id_part_11(a),
{
    match a {
        Api::NvAPI_LoadMicrocode => Some(0x3119f36eu32),
        Api::NvAPI_GetLoadedMicrocodePrograms => Some(0x919b3136u32),
        Api::NvAPI_GetDisplayDriverBuildTitle => Some(0x7562e947u32),
        Api::NvAPI_GetDisplayDriverCompileType => Some(0x988aea78u32),
        Api::NvAPI_GetDisplayDriverSecurityLevel => Some(0x9d772bbau32),
        Api::NvAPI_AccessDisplayDriverRegistry => Some(0xf5579360u32),
        Api::NvAPI_GetDisplayDriverRegistryPath => Some(0x0e24ceeeu32),
        Api::NvAPI_GetUnAttachedDisplayDriverRegistryPath => Some(0x633252d8u32),
        Api::NvAPI_GPU_GetRawFuseData => Some(0xe0b1dce9u32),
        Api::NvAPI_GPU_GetFoundry => Some(0x5d857a00u32),
        Api::NvAPI_GPU_GetVPECount => Some(0xd8cbf37bu32),
        Api::NvAPI_GPU_GetTargetID => Some(0x35b5fd2fu32),
        Api::NvAPI_GPU_GetShortName => Some(0xd988f0f3u32),
        Api::NvAPI_GPU_GetVbiosMxmVersion => Some(0xe1d5dabau32),
        Api::NvAPI_GPU_GetVbiosImage => Some(0xfc13ee11u32),
        Api::NvAPI_GPU_GetMXMBlock => Some(0xb7ab19b9u32),
        Api::NvAPI_GPU_SetCurrentPCIEWidth => Some(0x3f28e1b9u32),
        Api::NvAPI_GPU_SetCurrentPCIESpeed => Some(0x3bd32008u32),
        Api::NvAPI_GPU_GetPCIEInfo => Some(0xe3795199u32),
        Api::NvAPI_GPU_ClearPCIELinkErrorInfo => Some(0x8456ff3du32),
        Api::NvAPI_GPU_ClearPCIELinkAERInfo => Some(0x521566bbu32),
        Api::NvAPI_GPU_GetFrameBufferCalibrationLockFailures => Some(0x524b9773u32),
        Api::NvAPI_GPU_SetDisplayUnderflowMode => Some(0x387b2e41u32),
        Api::NvAPI_GPU_GetDisplayUnderflowStatus => Some(0xed9e8057u32),
        Api::NvAPI_GPU_GetBarInfo => Some(0xe4b701e3u32),
        Api::NvAPI_GPU_GetPSFloorSweepStatus => Some(0xdee047abu32),
        Api::NvAPI_GPU_GetVSFloorSweepStatus => Some(0xd4f3944cu32),
        Api::NvAPI_GPU_GetSerialNumber => Some(0x14b83a5fu32),
        Api::NvAPI_GPU_GetManufacturingInfo => Some(0xa4218928u32),
        Api::NvAPI_GPU_GetRamConfigStrap => Some(0x51ccdb2au32),
        Api::NvAPI_GPU_GetRamBusWidth => Some(0x7975c581u32),
        Api::NvAPI_GPU_GetRamBankCount => Some(0x17073a3cu32),
        Api::NvAPI_GPU_GetArchInfo => Some(0xd8265d24u32),
        Api::NvAPI_GPU_GetExtendedMinorRevision => Some(0x25f17421u32),
        Api::NvAPI_GPU_GetSampleType => Some(0x32e1d697u32),
        Api::NvAPI_GPU_GetHardwareQualType => Some(0xf91e777bu32),
        Api::NvAPI_GPU_GetAllClocks => Some(0x1bd69f49u32),
        Api::NvAPI_GPU_SetClocks => Some(0x6f151055u32),
        Api::NvAPI_GPU_SetPerfHybridMode => Some(0x7bc207f8u32),
        Api::NvAPI_GPU_GetPerfHybridMode => Some(0x5d7ccaebu32),
        Api::NvAPI_GPU_GetHybridControllerInfo => Some(0xd26b8a58u32),
        Api::NvAPI_RestartDisplayDriver => Some(0xb4b26b65u32),
        Api::NvAPI_GPU_GetAllGpusOnSameBoard => Some(0x4db019e6u32),
        Api::NvAPI_SetTopologyDisplayGPU => Some(0xf409d5e5u32),
        Api::NvAPI_GetTopologyDisplayGPU => Some(0x813d89a8u32),
        Api::NvAPI_SYS_GetSliApprovalCookie => Some(0xb539a26eu32),
        Api::NvAPI_CreateUnAttachedDisplayFromDisplay => Some(0xa0c72ee4u32),
        Api::NvAPI_GetDriverModel => Some(0x25eeb2c4u32),
        Api::NvAPI_GPU_CudaEnumComputeCapableGpus => Some(0x5786cc6eu32),
        Api::NvAPI_GPU_PhysxSetState => Some(0x4071b85eu32),
        _ => None,
    }
}

fn id_part_12(a: Api) -> (r: Option<u32>)
    ensures
        r == api_id_part_12(a),
{
    match a {
        Api::NvAPI_GPU_PhysxQueryRecommendedState => Some(0x7a4174f4u32),
        Api::NvAPI_GPU_GetDeepIdleState => Some(0x1aad16b4u32),
        Api::NvAPI_GPU_SetDeepIdleState => Some(0x568a2292u32),
        Api::NvAPI_GetScalingCaps => Some(0x8e875cf9u32),
        Api::NvAPI_GPU_GetThermalTable => Some(0xc729203cu32),
        Api::NvAPI_SYS_SetPostOutput => Some(0xd3a092b1u32),
        Api::NvAPI_GPU_PerfPoliciesGetInfo => Some(0x409d9841u32),
        Api::NvAPI_GPU_PerfPoliciesGetStatus => Some(0x3d358a0cu32),
        Api::NvAPI_GPU_ClientThermalPoliciesGetInfo => Some(0x0d258bb5u32),
        Api::NvAPI_GPU_ClientThermalPoliciesGetStatus => Some(0xe9c425a1u32),
        Api::NvAPI_GPU_ClientThermalPoliciesSetStatus => Some(0x34c0b13du32),
        Api::NvAPI_GPU_ClientVoltRailsGetStatus => Some(0x465f9bcfu32),
        Api::NvAPI_GPU_GetVoltageStep => Some(0x28766157u32),
        Api::NvAPI_GPU_ClockClientClkDomainsGetInfo => Some(0x64b43a6au32),
        Api::NvAPI_GPU_ClockClientClkVfPointsGetInfo => Some(0x507b4b59u32),
        Api::NvAPI_GPU_ClockClientClkVfPointsGetControl => Some(0x23f1b133u32),
        Api::NvAPI_GPU_ClockClientClkVfPointsSetControl => Some(0x0733e009u32),
        Api::NvAPI_GPU_ClockClientClkVfPointsGetStatus => Some(0x21537ad4u32),
        Api::NvAPI_GPU_PerfClientLimitsGetStatus => Some(0xe440b867u32),
        Api::NvAPI_GPU_PerfClientLimitsSetStatus => Some(0x39442cfbu32),
        Api::NvAPI_GPU_ClientVoltRailsGetControl => Some(0x9df23ca1u32),
        Api::NvAPI_GPU_ClientVoltRailsSetControl => Some(0xb9306d9bu32),
        Api::NvAPI_GPU_ClientFanArbitersGetControl => Some(0x600f612eu32),
        Api::NvAPI_GPU_ClientFanArbitersGetInfo => Some(0xdddfda38u32),
        Api::NvAPI_GPU_ClientFanArbitersGetStatus => Some(0xcde021b9u32),
        Api::NvAPI_GPU_ClientFanArbitersSetControl => Some(0x44cd3014u32),
        Api::NvAPI_GPU_ClientFanCoolersGetControl => Some(0x814b209fu32),
        Api::NvAPI_GPU_ClientFanCoolersGetInfo => Some(0xfb85b01eu32),
        Api::NvAPI_GPU_ClientFanCoolersGetStatus => Some(0x35aed5e8u32),
        Api::NvAPI_GPU_ClientFanCoolersSetControl => Some(0xa58971a5u32),
        Api::NvAPI_GPU_ClientFanPoliciesGetControl => Some(0xe543c540u32),
        Api::NvAPI_GPU_ClientFanPoliciesGetInfo => Some(0x52b76d12u32),
        Api::NvAPI_GPU_ClientFanPoliciesSetControl => Some(0xc181947au32),
        Api::NvAPI_GPU_ClientGetLastOcScannerResults => Some(0x593e8e72u32),
        Api::NvAPI_GPU_ClientGetOcConfig => Some(0x210f1841u32),
        Api::NvAPI_GPU_ClientIllumDevicesGetInfo => Some(0xd4100e58u32),
        Api::NvAPI_GPU_ClientIllumDevicesGetControl => Some(0x73c01d58u32),
        Api::NvAPI_GPU_ClientIllumDevicesSetControl => Some(0x57024c62u32),
        Api::NvAPI_GPU_ClientIllumZonesGetControl => Some(0x3dbf5764u32),
        Api::NvAPI_GPU_ClientIllumZonesGetInfo => Some(0x4b81241bu32),
        Api::NvAPI_GPU_ClientIllumZonesSetControl => Some(0x197d065eu32),
        Api::NvAPI_GPU_ClientRegisterForOcConfigChangedUpdates => Some(0xf627074fu32),
        Api::NvAPI_GPU_ClientRegisterForOcScannerStatusUpdates => Some(0x1cb41116u32),
        Api::NvAPI_GPU_ClientRevertOc => Some(0xcc727b22u32),
        Api::NvAPI_GPU_ClientStartOcScanner => Some(0xbc4aee25u32),
        Api::NvAPI_GPU_ClientStopOcScanner => Some(0xc28b73deu32),
        Api::NvAPI_GPU_GetUsages => Some(0x189a1fdfu32),
        Api::NvAPI_GPU_GetRamMaker => Some(0x42aea16au32),
        Api::NvAPI_D3D_GetObjectHandleForResource => Some(0xfceac864u32),
        Api::NvAPI_D3D_SetResourceHint => Some(0x6c0ed98cu32),
        _ => None,
    }
}

fn id_part_13(a: Api) -> (r: Option<u32>)
    ensures
        r == api_id_part_13(a),
{
    match a {
        Api::NvAPI_D3D_BeginResourceRendering => Some(0x91123d6au32),
        Api::NvAPI_D3D_EndResourceRendering => Some(0x37e7191cu32),
        Api::NvAPI_D3D12_QueryPresentBarrierSupport => Some(0xa15faef7u32),
        Api::NvAPI_D3D12_CreatePresentBarrierClient => Some(0x4d815de9u32),
        Api::NvAPI_D3D12_RegisterPresentBarrierResources => Some(0xd53c9ef0u32),
        Api::NvAPI_DestroyPresentBarrierClient => Some(0x3c5c351bu32),
        Api::NvAPI_JoinPresentBarrier => Some(0x17f6bf82u32),
        Api::NvAPI_LeavePresentBarrier => Some(0xc3ec5a7fu32),
        Api::NvAPI_QueryPresentBarrierFrameStatistics => Some(0x61b844a1u32),
        Api::NvAPI_D3D12_CreateDDisplayPresentBarrierClient => Some(0xb5a21987u32),
        Api::NvAPI_D3D11_CreateRasterizerState => Some(0xdb8d28afu32),
        Api::NvAPI_D3D_ConfigureAnsel => Some(0x341c6c7fu32),
        Api::NvAPI_D3D11_CreateTiledTexture2DArray => Some(0x7886981au32),
        Api::NvAPI_D3D11_CheckFeatureSupport => Some(0x106a487eu32),
        Api::NvAPI_D3D11_CreateImplicitMSAATexture2D => Some(0xb8f79632u32),
        Api::NvAPI_D3D12_CreateCommittedImplicitMSAATexture2D => Some(0x24c6a07bu32),
        Api::NvAPI_D3D11_ResolveSubresourceRegion => Some(0xe6bfedd6u32),
        Api::NvAPI_D3D12_ResolveSubresourceRegion => Some(0xc24a15bfu32),
        Api::NvAPI_D3D11_TiledTexture2DArrayGetDesc => Some(0xf1a2b9d5u32),
        Api::NvAPI_D3D11_UpdateTileMappings => Some(0x9a06ea07u32),
        Api::NvAPI_D3D11_CopyTileMappings => Some(0xc09ee6bcu32),
        Api::NvAPI_D3D11_TiledResourceBarrier => Some(0xd6839099u32),
        Api::NvAPI_D3D11_AliasMSAATexture2DAsNonMSAA => Some(0xf1c54fc9u32),
        Api::NvAPI_D3D11_CreateGeometryShaderEx_2 => Some(0x99ed5c1cu32),
        Api::NvAPI_D3D11_CreateVertexShaderEx => Some(0x0beaa0b2u32),
        Api::NvAPI_D3D11_CreateHullShaderEx => Some(0xb53cab00u32),
        Api::NvAPI_D3D11_CreateDomainShaderEx => Some(0xa0d7180du32),
        Api::NvAPI_D3D11_CreatePixelShaderEx_2 => Some(0x4162822bu32),
        Api::NvAPI_D3D11_CreateFastGeometryShaderExplicit => Some(0x71ab7c9cu32),
        Api::NvAPI_D3D11_CreateFastGeometryShader => Some(0x525d43beu32),
        Api::NvAPI_D3D11_DecompressView => Some(0x3a94e822u32),
        Api::NvAPI_D3D12_CreateGraphicsPipelineState => Some(0x2fc28856u32),
        Api::NvAPI_D3D12_CreateComputePipelineState => Some(0x2762deacu32),
        Api::NvAPI_D3D12_SetDepthBoundsTestValues => Some(0xb9333fe9u32),
        Api::NvAPI_D3D12_CreateReservedResource => Some(0x2c85f101u32),
        Api::NvAPI_D3D12_CreateHeap => Some(0x5cb397cfu32),
        Api::NvAPI_D3D12_CreateHeap2 => Some(0x924be9d6u32),
        Api::NvAPI_D3D12_QueryCpuVisibleVidmem => Some(0x26322bc3u32),
        Api::NvAPI_D3D12_ReservedResourceGetDesc => Some(0x9aa2aabbu32),
        Api::NvAPI_D3D12_UpdateTileMappings => Some(0xc6017a7du32),
        Api::NvAPI_D3D12_CopyTileMappings => Some(0x47f78194u32),
        Api::NvAPI_D3D12_ResourceAliasingBarrier => Some(0xb942bab7u32),
        Api::NvAPI_D3D12_CaptureUAVInfo => Some(0x6e5ea9dbu32),
        Api::NvAPI_D3D11_GetResourceGPUVirtualAddressEx => Some(0xaf6d14dau32),
        Api::NvAPI_D3D11_EnumerateMetaCommands => Some(0xc7453ba8u32),
        Api::NvAPI_D3D11_CreateMetaCommand => Some(0xf505fba0u32),
        Api::NvAPI_D3D11_InitializeMetaCommand => Some(0xaec629e9u32),
        Api::NvAPI_D3D11_ExecuteMetaCommand => Some(0x82236c47u32),
        Api::NvAPI_D3D12_EnumerateMetaCommands => Some(0xcd9141d8u32),
        Api::NvAPI_D3D12_CreateMetaCommand => Some(0xeb29634bu32),
        _ => None,
    }
}

fn id_part_14(a: Api) -> (r: Option<u32>)
    ensures
        r == api_id_part_14(a),
{
    match a {
        Api::NvAPI_D3D12_InitializeMetaCommand => Some(0xa4125399u32),
        Api::NvAPI_D3D12_ExecuteMetaCommand => Some(0xde24fc3du32),
        Api::NvAPI_D3D12_CreateCommittedResource => Some(0x027e98aeu32),
        Api::NvAPI_D3D12_GetCopyableFootprints => Some(0xf6305eb5u32),
        Api::NvAPI_D3D12_CopyTextureRegion => Some(0x82b91b25u32),
        Api::NvAPI_D3D12_IsNvShaderExtnOpCodeSupported => Some(0x3dfacec8u32),
        Api::NvAPI_D3D12_GetOptimalThreadCountForMesh => Some(0xb43995cbu32),
        Api::NvAPI_D3D_IsGSyncCapable => Some(0x9c1eed78u32),
        Api::NvAPI_D3D_IsGSyncActive => Some(0xe942b0ffu32),
        Api::NvAPI_D3D1x_DisableShaderDiskCache => Some(0xd0cbca7du32),
        Api::NvAPI_D3D11_MultiGPU_GetCaps => Some(0xd2d25687u32),
        Api::NvAPI_D3D11_MultiGPU_Init => Some(0x017be49eu32),
        Api::NvAPI_D3D11_CreateMultiGPUDevice => Some(0xbdb20007u32),
        Api::NvAPI_D3D_QuerySinglePassStereoSupport => Some(0x6f5f0a6du32),
        Api::NvAPI_D3D_SetSinglePassStereoMode => Some(0xa39e6e6eu32),
        Api::NvAPI_D3D12_QuerySinglePassStereoSupport => Some(0x3b03791bu32),
        Api::NvAPI_D3D12_SetSinglePassStereoMode => Some(0x83556d87u32),
        Api::NvAPI_D3D_QueryMultiViewSupport => Some(0xb6e0a41cu32),
        Api::NvAPI_D3D_SetMultiViewMode => Some(0x8285c8dau32),
        Api::NvAPI_D3D_QueryModifiedWSupport => Some(0xcbf9f4f5u32),
        Api::NvAPI_D3D_SetModifiedWMode => Some(0x06ea4bf4u32),
        Api::NvAPI_D3D12_QueryModifiedWSupport => Some(0x51235248u32),
        Api::NvAPI_D3D12_SetModifiedWMode => Some(0xe1fdaba7u32),
        Api::NvAPI_D3D_CreateLateLatchObject => Some(0x2db27d09u32),
        Api::NvAPI_D3D_QueryLateLatchSupport => Some(0x8ceca0ecu32),
        Api::NvAPI_D3D_RegisterDevice => Some(0x8c02c4d0u32),
        Api::NvAPI_D3D11_MultiDrawInstancedIndirect => Some(0xd4e26bbfu32),
        Api::NvAPI_D3D11_MultiDrawIndexedInstancedIndirect => Some(0x59e890f9u32),
        Api::NvAPI_D3D_ImplicitSLIControl => Some(0x2aede111u32),
        Api::NvAPI_D3D12_UseDriverHeapPriorities => Some(0xf0d978a8u32),
        Api::NvAPI_D3D12_Mosaic_GetCompanionAllocations => Some(0xa46022c7u32),
        Api::NvAPI_D3D12_Mosaic_GetViewportAndGpuPartitions => Some(0xb092b818u32),
        Api::NvAPI_D3D1x_GetGraphicsCapabilities => Some(0x52b1499au32),
        Api::NvAPI_D3D12_GetGraphicsCapabilities => Some(0x01e87354u32),
        Api::NvAPI_D3D11_RSSetExclusiveScissorRects => Some(0xae4d73efu32),
        Api::NvAPI_D3D11_RSSetViewportsPixelShadingRates => Some(0x34f7938fu32),
        Api::NvAPI_D3D11_CreateShadingRateResourceView => Some(0x99ca2dffu32),
        Api::NvAPI_D3D11_RSSetShadingRateResourceView => Some(0x1b0c2f83u32),
        Api::NvAPI_D3D11_RSGetPixelShadingRateSampleOrder => Some(0x092442a1u32),
        Api::NvAPI_D3D11_RSSetPixelShadingRateSampleOrder => Some(0xa942373au32),
        Api::NvAPI_D3D_InitializeVRSHelper => Some(0x4780d70bu32),
        Api::NvAPI_D3D_InitializeNvGazeHandler => Some(0x5b3b7479u32),
        Api::NvAPI_D3D_InitializeSMPAssist => Some(0x42763d0cu32),
        Api::NvAPI_D3D_QuerySMPAssistSupport => Some(0xc57921deu32),
        Api::NvAPI_D3D_GetSleepStatus => Some(0xaef96ca1u32),
        Api::NvAPI_D3D_SetSleepMode => Some(0xac1ca9e0u32),
        Api::NvAPI_D3D_Sleep => Some(0x852cd1d2u32),
        Api::NvAPI_D3D_GetLatency => Some(0x1a587f9cu32),
        Api::NvAPI_D3D_SetLatencyMarker => Some(0xd9984c05u32),
        Api::NvAPI_D3D12_SetAsyncFrameMarker => Some(0x13c98f73u32),
        _ => None,
    }
}

fn id_part_15(a: Api) -> (r: Option<u32>)
    ensures
        r == api_id_part_15(a),
{
    match a {
        Api::NvAPI_D3D12_NotifyOutOfBandCommandQueue => Some(0x03d6e8cbu32),
        Api::NvAPI_D3D12_CreateCubinComputeShader => Some(0x2a2c79e8u32),
        Api::NvAPI_D3D12_CreateCubinComputeShaderEx => Some(0x3151211bu32),
        Api::NvAPI_D3D12_CreateCubinComputeShaderWithName => Some(0x1dc7261fu32),
        Api::NvAPI_D3D12_LaunchCubinShader => Some(0x5c52bb86u32),
        Api::NvAPI_D3D12_DestroyCubinComputeShader => Some(0x7fb785bau32),
        Api::NvAPI_D3D12_GetCudaTextureObject => Some(0x80403fc9u32),
        Api::NvAPI_D3D12_GetCudaSurfaceObject => Some(0x48f5b2eeu32),
        Api::NvAPI_D3D12_IsFatbinPTXSupported => Some(0x70c07832u32),
        Api::NvAPI_D3D12_CreateCuModule => Some(0xad1a677du32),
        Api::NvAPI_D3D12_EnumFunctionsInModule => Some(0x7ab88d88u32),
        Api::NvAPI_D3D12_CreateCuFunction => Some(0xe2436e22u32),
        Api::NvAPI_D3D12_LaunchCuKernelChain => Some(0x24973538u32),
        Api::NvAPI_D3D12_DestroyCuModule => Some(0x41c65285u32),
        Api::NvAPI_D3D12_DestroyCuFunction => Some(0xdf295ea6u32),
        Api::NvAPI_D3D11_CreateCubinComputeShader => Some(0x0ed98181u32),
        Api::NvAPI_D3D11_CreateCubinComputeShaderEx => Some(0x32c2a0f6u32),
        Api::NvAPI_D3D11_CreateCubinComputeShaderWithName => Some(0xb672be19u32),
        Api::NvAPI_D3D11_LaunchCubinShader => Some(0x427e236du32),
        Api::NvAPI_D3D11_DestroyCubinComputeShader => Some(0x01682c86u32),
        Api::NvAPI_D3D11_IsFatbinPTXSupported => Some(0x6086bd93u32),
        Api::NvAPI_D3D11_CreateUnorderedAccessView => Some(0x74a497a1u32),
        Api::NvAPI_D3D11_CreateShaderResourceView => Some(0x65cb431eu32),
        Api::NvAPI_D3D11_CreateSamplerState => Some(0x89eca416u32),
        Api::NvAPI_D3D11_GetCudaTextureObject => Some(0x9006fa68u32),
        Api::NvAPI_D3D11_GetResourceGPUVirtualAddress => Some(0x1819b423u32),
        Api::NvAPI_D3D12_GetRaytracingCaps => Some(0x85a6c2a0u32),
        Api::NvAPI_D3D12_GetRaytracingOpacityMicromapArrayPrebuildInfo => Some(0x4726d180u32),
        Api::NvAPI_D3D12_SetCreatePipelineStateOptions => Some(0x5c607a27u32),
        Api::NvAPI_D3D12_CheckDriverMatchingIdentifierEx => Some(0xafb237d4u32),
        Api::NvAPI_D3D12_GetRaytracingAccelerationStructurePrebuildInfoEx => Some(0x8d025b77u32),
        Api::NvAPI_D3D12_BuildRaytracingOpacityMicromapArray => Some(0x814f8d11u32),
        Api::NvAPI_D3D12_RelocateRaytracingOpacityMicromapArray => Some(0x0425c538u32),
        Api::NvAPI_D3D12_EmitRaytracingOpacityMicromapArrayPostbuildInfo => Some(0x1d9a39b6u32),
        Api::NvAPI_D3D12_BuildRaytracingAccelerationStructureEx => Some(0xe24ead45u32),
        Api::Unknown_1629A173 => Some(0x1629a173u32),
        Api::Unknown_F1D2777B => Some(0xf1d2777bu32),
        Api::Unknown_8EFC0978 => Some(0x8efc0978u32),
        Api::Unknown_B7BCF50D => Some(0xb7bcf50du32),
        Api::Unknown_36E39E6B => Some(0x36e39e6bu32),
        Api::Unknown_GetROPCount => Some(0xfdc129fau32),
        _ => None,
    }
}

impl Api {
    /// Looks up the API with interface id `id`.
    pub fn from_id(id: u32) -> (r: Result<Api, ()>)
        ensures
            r == (match api_of_id(id) {
                Some(a) => Ok::<Api, ()>(a),
                None => Err(()),
            }),
    {
        let top = id / 0x1000_0000;
        let found = if top == 0 {
            from_id_0(id)
        } else if top == 1 {
            from_id_1(id)
        } else if top == 2 {
            from_id_2(id)
        } else if top == 3 {
            from_id_3(id)
        } else if top == 4 {
            from_id_4(id)
        } else if top == 5 {
            from_id_5(id)
        } else if top == 6 {
            from_id_6(id)
        } else if top == 7 {
            from_id_7(id)
        } else if top == 8 {
            from_id_8(id)
        } else if top == 9 {
            from_id_9(id)
        } else if top == 10 {
            from_id_a(id)
        } else if top == 11 {
            from_id_b(id)
        } else if top == 12 {
            from_id_c(id)
        } else if top == 13 {
            from_id_d(id)
        } else if top == 14 {
            from_id_e(id)
        } else {
            from_id_f(id)
        };
        match found {
            Some(a) => Ok(a),
            None => Err(()),
        }
    }

    /// The interface id of this API.
    pub fn id(&self) -> (r: u32)
        ensures
            r == api_id(*self),
    {
        proof { lemma_api_id_parts(*self); }
        if let Some(i) = id_part_0(*self) {
            i
        } else if let Some(i) = id_part_1(*self) {
            i
        } else if let Some(i) = id_part_2(*self) {
            i
        } else if let Some(i) = id_part_3(*self) {
            i
        } else if let Some(i) = id_part_4(*self) {
            i
        } else if let Some(i) = id_part_5(*self) {
            i
        } else if let Some(i) = id_part_6(*self) {
            i
        } else if let Some(i) = id_part_7(*self) {
            i
        } else if let Some(i) = id_part_8(*self) {
            i
        } else if let Some(i) = id_part_9(*self) {
            i
        } else if let Some(i) = id_part_10(*self) {
            i
        } else if let Some(i) = id_part_11(*self) {
            i
        } else if let Some(i) = id_part_12(*self) {
            i
        } else if let Some(i) = id_part_13(*self) {
            i
        } else if let Some(i) = id_part_14(*self) {
            i
        } else {
            id_part_15(*self).unwrap()
        }
    }
}

/// The name of an API of the listing's part 0 (`None` for the others).
pub open spec fn api_name_part_0(a: Api) -> Option<Seq<char>> {
    match a {
        Api::NvAPI_Initialize => Some("NvAPI_Initialize"@),
        Api::NvAPI_Unload => Some("NvAPI_Unload"@),
        Api::NvAPI_GetErrorMessage => Some("NvAPI_GetErrorMessage"@),
        Api::NvAPI_GetInterfaceVersionString => Some("NvAPI_GetInterfaceVersionString"@),
        Api::NvAPI_GetDisplayDriverVersion => Some("NvAPI_GetDisplayDriverVersion"@),
        Api::NvAPI_SYS_GetDriverAndBranchVersion => Some("NvAPI_SYS_GetDriverAndBranchVersion"@),
        Api::NvAPI_EnumNvidiaDisplayHandle => Some("NvAPI_EnumNvidiaDisplayHandle"@),
        Api::NvAPI_EnumNvidiaUnAttachedDisplayHandle => Some("NvAPI_EnumNvidiaUnAttachedDisplayHandle"@),
        Api::NvAPI_EnumPhysicalGPUs => Some("NvAPI_EnumPhysicalGPUs"@),
        Api::NvAPI_EnumTCCPhysicalGPUs => Some("NvAPI_EnumTCCPhysicalGPUs"@),
        Api::NvAPI_EnumLogicalGPUs => Some("NvAPI_EnumLogicalGPUs"@),
        Api::NvAPI_GetPhysicalGPUsFromDisplay => Some("NvAPI_GetPhysicalGPUsFromDisplay"@),
        Api::NvAPI_GetPhysicalGPUFromUnAttachedDisplay => Some("NvAPI_GetPhysicalGPUFromUnAttachedDisplay"@),
        Api::NvAPI_CreateDisplayFromUnAttachedDisplay => Some("NvAPI_CreateDisplayFromUnAttachedDisplay"@),
        Api::NvAPI_GetLogicalGPUFromDisplay => Some("NvAPI_GetLogicalGPUFromDisplay"@),
        Api::NvAPI_GetLogicalGPUFromPhysicalGPU => Some("NvAPI_GetLogicalGPUFromPhysicalGPU"@),
        Api::NvAPI_GetPhysicalGPUsFromLogicalGPU => Some("NvAPI_GetPhysicalGPUsFromLogicalGPU"@),
        Api::NvAPI_GetAssociatedNvidiaDisplayHandle => Some("NvAPI_GetAssociatedNvidiaDisplayHandle"@),
        Api::NvAPI_DISP_GetAssociatedUnAttachedNvidiaDisplayHandle => Some("NvAPI_DISP_GetAssociatedUnAttachedNvidiaDisplayHandle"@),
        Api::NvAPI_GetAssociatedNvidiaDisplayName => Some("NvAPI_GetAssociatedNvidiaDisplayName"@),
        Api::NvAPI_GetUnAttachedAssociatedDisplayName => Some("NvAPI_GetUnAttachedAssociatedDisplayName"@),
        Api::NvAPI_EnableHWCursor => Some("NvAPI_EnableHWCursor"@),
        Api::NvAPI_DisableHWCursor => Some("NvAPI_DisableHWCursor"@),
        Api::NvAPI_GetVBlankCounter => Some("NvAPI_GetVBlankCounter"@),
        Api::NvAPI_SetRefreshRateOverride => Some("NvAPI_SetRefreshRateOverride"@),
        Api::NvAPI_GetAssociatedDisplayOutputId => Some("NvAPI_GetAssociatedDisplayOutputId"@),
        Api::NvAPI_GetDisplayPortInfo => Some("NvAPI_GetDisplayPortInfo"@),
        Api::NvAPI_SetDisplayPort => Some("NvAPI_SetDisplayPort"@),
        Api::NvAPI_GetHDMISupportInfo => Some("NvAPI_GetHDMISupportInfo"@),
        Api::NvAPI_DISP_EnumHDMIStereoModes => Some("NvAPI_DISP_EnumHDMIStereoModes"@),
        Api::NvAPI_GetInfoFrame => Some("NvAPI_GetInfoFrame"@),
        Api::NvAPI_SetInfoFrame => Some("NvAPI_SetInfoFrame"@),
        Api::NvAPI_SetInfoFrameState => Some("NvAPI_SetInfoFrameState"@),
        Api::NvAPI_GetInfoFrameState => Some("NvAPI_GetInfoFrameState"@),
        Api::NvAPI_Disp_InfoFrameControl => Some("NvAPI_Disp_InfoFrameControl"@),
        Api::NvAPI_Disp_ColorControl => Some("NvAPI_Disp_ColorControl"@),
        Api::NvAPI_Disp_GetHdrCapabilities => Some("NvAPI_Disp_GetHdrCapabilities"@),
        Api::NvAPI_Disp_HdrColorControl => Some("NvAPI_Disp_HdrColorControl"@),
        Api::NvAPI_DISP_GetVirtualModeData => Some("NvAPI_DISP_GetVirtualModeData"@),
        Api::NvAPI_DISP_OverrideDisplayModeList => Some("NvAPI_DISP_OverrideDisplayModeList"@),
        Api::NvAPI_GetDisplayDriverMemoryInfo => Some("NvAPI_GetDisplayDriverMemoryInfo"@),
        Api::NvAPI_GetDriverMemoryInfo => Some("NvAPI_GetDriverMemoryInfo"@),
        Api::NvAPI_GetDVCInfo => Some("NvAPI_GetDVCInfo"@),
        Api::NvAPI_SetDVCLevel => Some("NvAPI_SetDVCLevel"@),
        Api::NvAPI_GetDVCInfoEx => Some("NvAPI_GetDVCInfoEx"@),
        Api::NvAPI_SetDVCLevelEx => Some("NvAPI_SetDVCLevelEx"@),
        Api::NvAPI_GetHUEInfo => Some("NvAPI_GetHUEInfo"@),
        Api::NvAPI_SetHUEAngle => Some("NvAPI_SetHUEAngle"@),
        Api::NvAPI_GetImageSharpeningInfo => Some("NvAPI_GetImageSharpeningInfo"@),
        Api::NvAPI_SetImageSharpeningLevel => Some("NvAPI_SetImageSharpeningLevel"@),
        _ => None,
    }
}

/// The name of an API of the listing's part 1 (`None` for the others).
pub open spec fn api_name_part_1(a: Api) -> Option<Seq<char>> {
    match a {
        Api::NvAPI_D3D_GetCurrentSLIState => Some("NvAPI_D3D_GetCurrentSLIState"@),
        Api::NvAPI_D3D9_RegisterResource => Some("NvAPI_D3D9_RegisterResource"@),
        Api::NvAPI_D3D9_UnregisterResource => Some("NvAPI_D3D9_UnregisterResource"@),
        Api::NvAPI_D3D9_AliasSurfaceAsTexture => Some("NvAPI_D3D9_AliasSurfaceAsTexture"@),
        Api::NvAPI_D3D9_StretchRectEx => Some("NvAPI_D3D9_StretchRectEx"@),
        Api::NvAPI_D3D9_ClearRT => Some("NvAPI_D3D9_ClearRT"@),
        Api::NvAPI_D3D_CreateQuery => Some("NvAPI_D3D_CreateQuery"@),
        Api::NvAPI_D3D_DestroyQuery => Some("NvAPI_D3D_DestroyQuery"@),
        Api::NvAPI_D3D_Query_Begin => Some("NvAPI_D3D_Query_Begin"@),
        Api::NvAPI_D3D_Query_End => Some("NvAPI_D3D_Query_End"@),
        Api::NvAPI_D3D_Query_GetData => Some("NvAPI_D3D_Query_GetData"@),
        Api::NvAPI_D3D_Query_GetDataSize => Some("NvAPI_D3D_Query_GetDataSize"@),
        Api::NvAPI_D3D_Query_GetType => Some("NvAPI_D3D_Query_GetType"@),
        Api::NvAPI_D3D_RegisterApp => Some("NvAPI_D3D_RegisterApp"@),
        Api::NvAPI_D3D9_CreatePathContextNV => Some("NvAPI_D3D9_CreatePathContextNV"@),
        Api::NvAPI_D3D9_DestroyPathContextNV => Some("NvAPI_D3D9_DestroyPathContextNV"@),
        Api::NvAPI_D3D9_CreatePathNV => Some("NvAPI_D3D9_CreatePathNV"@),
        Api::NvAPI_D3D9_DeletePathNV => Some("NvAPI_D3D9_DeletePathNV"@),
        Api::NvAPI_D3D9_PathVerticesNV => Some("NvAPI_D3D9_PathVerticesNV"@),
        Api::NvAPI_D3D9_PathParameterfNV => Some("NvAPI_D3D9_PathParameterfNV"@),
        Api::NvAPI_D3D9_PathParameteriNV => Some("NvAPI_D3D9_PathParameteriNV"@),
        Api::NvAPI_D3D9_PathMatrixNV => Some("NvAPI_D3D9_PathMatrixNV"@),
        Api::NvAPI_D3D9_PathDepthNV => Some("NvAPI_D3D9_PathDepthNV"@),
        Api::NvAPI_D3D9_PathClearDepthNV => Some("NvAPI_D3D9_PathClearDepthNV"@),
        Api::NvAPI_D3D9_PathEnableDepthTestNV => Some("NvAPI_D3D9_PathEnableDepthTestNV"@),
        Api::NvAPI_D3D9_PathEnableColorWriteNV => Some("NvAPI_D3D9_PathEnableColorWriteNV"@),
        Api::NvAPI_D3D9_DrawPathNV => Some("NvAPI_D3D9_DrawPathNV"@),
        Api::NvAPI_D3D9_GetSurfaceHandle => Some("NvAPI_D3D9_GetSurfaceHandle"@),
        Api::NvAPI_D3D9_GetOverlaySurfaceHandles => Some("NvAPI_D3D9_GetOverlaySurfaceHandles"@),
        Api::NvAPI_D3D9_GetTextureHandle => Some("NvAPI_D3D9_GetTextureHandle"@),
        Api::NvAPI_D3D9_GpuSyncGetHandleSize => Some("NvAPI_D3D9_GpuSyncGetHandleSize"@),
        Api::NvAPI_D3D9_GpuSyncInit => Some("NvAPI_D3D9_GpuSyncInit"@),
        Api::NvAPI_D3D9_GpuSyncEnd => Some("NvAPI_D3D9_GpuSyncEnd"@),
        Api::NvAPI_D3D9_GpuSyncMapTexBuffer => Some("NvAPI_D3D9_GpuSyncMapTexBuffer"@),
        Api::NvAPI_D3D9_GpuSyncMapSurfaceBuffer => Some("NvAPI_D3D9_GpuSyncMapSurfaceBuffer"@),
        Api::NvAPI_D3D9_GpuSyncMapVertexBuffer => Some("NvAPI_D3D9_GpuSyncMapVertexBuffer"@),
        Api::NvAPI_D3D9_GpuSyncMapIndexBuffer => Some("NvAPI_D3D9_GpuSyncMapIndexBuffer"@),
        Api::NvAPI_D3D9_SetPitchSurfaceCreation => Some("NvAPI_D3D9_SetPitchSurfaceCreation"@),
        Api::NvAPI_D3D9_GpuSyncAcquire => Some("NvAPI_D3D9_GpuSyncAcquire"@),
        Api::NvAPI_D3D9_GpuSyncRelease => Some("NvAPI_D3D9_GpuSyncRelease"@),
        Api::NvAPI_D3D9_GetCurrentRenderTargetHandle => Some("NvAPI_D3D9_GetCurrentRenderTargetHandle"@),
        Api::NvAPI_D3D9_GetCurrentZBufferHandle => Some("NvAPI_D3D9_GetCurrentZBufferHandle"@),
        Api::NvAPI_D3D9_GetIndexBufferHandle => Some("NvAPI_D3D9_GetIndexBufferHandle"@),
        Api::NvAPI_D3D9_GetVertexBufferHandle => Some("NvAPI_D3D9_GetVertexBufferHandle"@),
        Api::NvAPI_D3D9_CreateTexture => Some("NvAPI_D3D9_CreateTexture"@),
        Api::NvAPI_D3D9_AliasPrimaryAsTexture => Some("NvAPI_D3D9_AliasPrimaryAsTexture"@),
        Api::NvAPI_D3D9_PresentSurfaceToDesktop => Some("NvAPI_D3D9_PresentSurfaceToDesktop"@),
        Api::NvAPI_D3D9_CreateVideoBegin => Some("NvAPI_D3D9_CreateVideoBegin"@),
        Api::NvAPI_D3D9_CreateVideoEnd => Some("NvAPI_D3D9_CreateVideoEnd"@),
        Api::NvAPI_D3D9_CreateVideo => Some("NvAPI_D3D9_CreateVideo"@),
        _ => None,
    }
}

/// The name of an API of the listing's part 2 (`None` for the others).
pub open spec fn api_name_part_2(a: Api) -> Option<Seq<char>> {
    match a {
        Api::NvAPI_D3D9_FreeVideo => Some("NvAPI_D3D9_FreeVideo"@),
        Api::NvAPI_D3D9_PresentVideo => Some("NvAPI_D3D9_PresentVideo"@),
        Api::NvAPI_D3D9_VideoSetStereoInfo => Some("NvAPI_D3D9_VideoSetStereoInfo"@),
        Api::NvAPI_D3D9_SetGamutData => Some("NvAPI_D3D9_SetGamutData"@),
        Api::NvAPI_D3D9_SetSurfaceCreationLayout => Some("NvAPI_D3D9_SetSurfaceCreationLayout"@),
        Api::NvAPI_D3D9_GetVideoCapabilities => Some("NvAPI_D3D9_GetVideoCapabilities"@),
        Api::NvAPI_D3D9_QueryVideoInfo => Some("NvAPI_D3D9_QueryVideoInfo"@),
        Api::NvAPI_D3D9_AliasPrimaryFromDevice => Some("NvAPI_D3D9_AliasPrimaryFromDevice"@),
        Api::NvAPI_D3D9_SetResourceHint => Some("NvAPI_D3D9_SetResourceHint"@),
        Api::NvAPI_D3D9_Lock => Some("NvAPI_D3D9_Lock"@),
        Api::NvAPI_D3D9_Unlock => Some("NvAPI_D3D9_Unlock"@),
        Api::NvAPI_D3D9_GetVideoState => Some("NvAPI_D3D9_GetVideoState"@),
        Api::NvAPI_D3D9_SetVideoState => Some("NvAPI_D3D9_SetVideoState"@),
        Api::NvAPI_D3D9_EnumVideoFeatures => Some("NvAPI_D3D9_EnumVideoFeatures"@),
        Api::NvAPI_D3D9_GetSLIInfo => Some("NvAPI_D3D9_GetSLIInfo"@),
        Api::NvAPI_D3D9_SetSLIMode => Some("NvAPI_D3D9_SetSLIMode"@),
        Api::NvAPI_D3D9_QueryAAOverrideMode => Some("NvAPI_D3D9_QueryAAOverrideMode"@),
        Api::NvAPI_D3D9_VideoSurfaceEncryptionControl => Some("NvAPI_D3D9_VideoSurfaceEncryptionControl"@),
        Api::NvAPI_D3D9_DMA => Some("NvAPI_D3D9_DMA"@),
        Api::NvAPI_D3D9_EnableStereo => Some("NvAPI_D3D9_EnableStereo"@),
        Api::NvAPI_D3D9_StretchRect => Some("NvAPI_D3D9_StretchRect"@),
        Api::NvAPI_D3D9_CreateRenderTarget => Some("NvAPI_D3D9_CreateRenderTarget"@),
        Api::NvAPI_D3D9_NVFBC_GetStatus => Some("NvAPI_D3D9_NVFBC_GetStatus"@),
        Api::NvAPI_D3D9_IFR_SetUpTargetBufferToSys => Some("NvAPI_D3D9_IFR_SetUpTargetBufferToSys"@),
        Api::NvAPI_D3D9_GPUBasedCPUSleep => Some("NvAPI_D3D9_GPUBasedCPUSleep"@),
        Api::NvAPI_D3D9_IFR_TransferRenderTarget => Some("NvAPI_D3D9_IFR_TransferRenderTarget"@),
        Api::NvAPI_D3D9_IFR_SetUpTargetBufferToNV12BLVideoSurface => Some("NvAPI_D3D9_IFR_SetUpTargetBufferToNV12BLVideoSurface"@),
        Api::NvAPI_D3D9_IFR_TransferRenderTargetToNV12BLVideoSurface => Some("NvAPI_D3D9_IFR_TransferRenderTargetToNV12BLVideoSurface"@),
        Api::NvAPI_D3D10_AliasPrimaryAsTexture => Some("NvAPI_D3D10_AliasPrimaryAsTexture"@),
        Api::NvAPI_D3D10_SetPrimaryFlipChainCallbacks => Some("NvAPI_D3D10_SetPrimaryFlipChainCallbacks"@),
        Api::NvAPI_D3D10_ProcessCallbacks => Some("NvAPI_D3D10_ProcessCallbacks"@),
        Api::NvAPI_D3D10_GetRenderedCursorAsBitmap => Some("NvAPI_D3D10_GetRenderedCursorAsBitmap"@),
        Api::NvAPI_D3D10_BeginShareResource => Some("NvAPI_D3D10_BeginShareResource"@),
        Api::NvAPI_D3D10_BeginShareResourceEx => Some("NvAPI_D3D10_BeginShareResourceEx"@),
        Api::NvAPI_D3D10_EndShareResource => Some("NvAPI_D3D10_EndShareResource"@),
        Api::NvAPI_D3D10_SetDepthBoundsTest => Some("NvAPI_D3D10_SetDepthBoundsTest"@),
        Api::NvAPI_D3D10_CreateDevice => Some("NvAPI_D3D10_CreateDevice"@),
        Api::NvAPI_D3D10_CreateDeviceAndSwapChain => Some("NvAPI_D3D10_CreateDeviceAndSwapChain"@),
        Api::NvAPI_D3D11_CreateDevice => Some("NvAPI_D3D11_CreateDevice"@),
        Api::NvAPI_D3D11_CreateDeviceAndSwapChain => Some("NvAPI_D3D11_CreateDeviceAndSwapChain"@),
        Api::NvAPI_D3D11_BeginShareResource => Some("NvAPI_D3D11_BeginShareResource"@),
        Api::NvAPI_D3D11_EndShareResource => Some("NvAPI_D3D11_EndShareResource"@),
        Api::NvAPI_D3D11_SetDepthBoundsTest => Some("NvAPI_D3D11_SetDepthBoundsTest"@),
        Api::NvAPI_D3D11_IsNvShaderExtnOpCodeSupported => Some("NvAPI_D3D11_IsNvShaderExtnOpCodeSupported"@),
        Api::NvAPI_D3D11_SetNvShaderExtnSlot => Some("NvAPI_D3D11_SetNvShaderExtnSlot"@),
        Api::NvAPI_D3D12_SetNvShaderExtnSlotSpace => Some("NvAPI_D3D12_SetNvShaderExtnSlotSpace"@),
        Api::NvAPI_D3D12_SetNvShaderExtnSlotSpaceLocalThread => Some("NvAPI_D3D12_SetNvShaderExtnSlotSpaceLocalThread"@),
        Api::NvAPI_D3D11_SetNvShaderExtnSlotLocalThread => Some("NvAPI_D3D11_SetNvShaderExtnSlotLocalThread"@),
        Api::NvAPI_D3D11_BeginUAVOverlapEx => Some("NvAPI_D3D11_BeginUAVOverlapEx"@),
        Api::NvAPI_D3D11_BeginUAVOverlap => Some("NvAPI_D3D11_BeginUAVOverlap"@),
        _ => None,
    }
}

/// The name of an API of the listing's part 3 (`None` for the others).
pub open spec fn api_name_part_3(a: Api) -> Option<Seq<char>> {
    match a {
        Api::NvAPI_D3D11_EndUAVOverlap => Some("NvAPI_D3D11_EndUAVOverlap"@),
        Api::NvAPI_D3D11_GetResourceHandle => Some("NvAPI_D3D11_GetResourceHandle"@),
        Api::NvAPI_GPU_GetShaderPipeCount => Some("NvAPI_GPU_GetShaderPipeCount"@),
        Api::NvAPI_GPU_GetShaderSubPipeCount => Some("NvAPI_GPU_GetShaderSubPipeCount"@),
        Api::NvAPI_GPU_GetPartitionCount => Some("NvAPI_GPU_GetPartitionCount"@),
        Api::NvAPI_GPU_GetMemPartitionMask => Some("NvAPI_GPU_GetMemPartitionMask"@),
        Api::NvAPI_GPU_GetTPCMask => Some("NvAPI_GPU_GetTPCMask"@),
        Api::NvAPI_GPU_GetSMMask => Some("NvAPI_GPU_GetSMMask"@),
        Api::NvAPI_GPU_GetTotalTPCCount => Some("NvAPI_GPU_GetTotalTPCCount"@),
        Api::NvAPI_GPU_GetTotalSMCount => Some("NvAPI_GPU_GetTotalSMCount"@),
        Api::NvAPI_GPU_GetTotalSPCount => Some("NvAPI_GPU_GetTotalSPCount"@),
        Api::NvAPI_GPU_GetGpuCoreCount => Some("NvAPI_GPU_GetGpuCoreCount"@),
        Api::NvAPI_GPU_GetAllOutputs => Some("NvAPI_GPU_GetAllOutputs"@),
        Api::NvAPI_GPU_GetConnectedOutputs => Some("NvAPI_GPU_GetConnectedOutputs"@),
        Api::NvAPI_GPU_GetConnectedSLIOutputs => Some("NvAPI_GPU_GetConnectedSLIOutputs"@),
        Api::NvAPI_GPU_GetConnectedDisplayIds => Some("NvAPI_GPU_GetConnectedDisplayIds"@),
        Api::NvAPI_GPU_GetAllDisplayIds => Some("NvAPI_GPU_GetAllDisplayIds"@),
        Api::NvAPI_GPU_GetConnectedOutputsWithLidState => Some("NvAPI_GPU_GetConnectedOutputsWithLidState"@),
        Api::NvAPI_GPU_GetConnectedSLIOutputsWithLidState => Some("NvAPI_GPU_GetConnectedSLIOutputsWithLidState"@),
        Api::NvAPI_GPU_GetSystemType => Some("NvAPI_GPU_GetSystemType"@),
        Api::NvAPI_GPU_GetActiveOutputs => Some("NvAPI_GPU_GetActiveOutputs"@),
        Api::NvAPI_GPU_GetEDID => Some("NvAPI_GPU_GetEDID"@),
        Api::NvAPI_GPU_SetEDID => Some("NvAPI_GPU_SetEDID"@),
        Api::NvAPI_GPU_GetOutputType => Some("NvAPI_GPU_GetOutputType"@),
        Api::NvAPI_GPU_GetDeviceDisplayMode => Some("NvAPI_GPU_GetDeviceDisplayMode"@),
        Api::NvAPI_GPU_GetFlatPanelInfo => Some("NvAPI_GPU_GetFlatPanelInfo"@),
        Api::NvAPI_GPU_ValidateOutputCombination => Some("NvAPI_GPU_ValidateOutputCombination"@),
        Api::NvAPI_GPU_GetConnectorInfo => Some("NvAPI_GPU_GetConnectorInfo"@),
        Api::NvAPI_GPU_GetFullName => Some("NvAPI_GPU_GetFullName"@),
        Api::NvAPI_GPU_GetPCIIdentifiers => Some("NvAPI_GPU_GetPCIIdentifiers"@),
        Api::NvAPI_GPU_GetGPUType => Some("NvAPI_GPU_GetGPUType"@),
        Api::NvAPI_GPU_GetBusType => Some("NvAPI_GPU_GetBusType"@),
        Api::NvAPI_GPU_GetBusId => Some("NvAPI_GPU_GetBusId"@),
        Api::NvAPI_GPU_GetBusSlotId => Some("NvAPI_GPU_GetBusSlotId"@),
        Api::NvAPI_GPU_GetIRQ => Some("NvAPI_GPU_GetIRQ"@),
        Api::NvAPI_GPU_GetVbiosRevision => Some("NvAPI_GPU_GetVbiosRevision"@),
        Api::NvAPI_GPU_GetVbiosOEMRevision => Some("NvAPI_GPU_GetVbiosOEMRevision"@),
        Api::NvAPI_GPU_GetVbiosVersionString => Some("NvAPI_GPU_GetVbiosVersionString"@),
        Api::NvAPI_GPU_GetAGPAperture => Some("NvAPI_GPU_GetAGPAperture"@),
        Api::NvAPI_GPU_GetCurrentAGPRate => Some("NvAPI_GPU_GetCurrentAGPRate"@),
        Api::NvAPI_GPU_GetCurrentPCIEDownstreamWidth => Some("NvAPI_GPU_GetCurrentPCIEDownstreamWidth"@),
        Api::NvAPI_GPU_GetPhysicalFrameBufferSize => Some("NvAPI_GPU_GetPhysicalFrameBufferSize"@),
        Api::NvAPI_GPU_GetVirtualFrameBufferSize => Some("NvAPI_GPU_GetVirtualFrameBufferSize"@),
        Api::NvAPI_GPU_GetQuadroStatus => Some("NvAPI_GPU_GetQuadroStatus"@),
        Api::NvAPI_GPU_GetBoardInfo => Some("NvAPI_GPU_GetBoardInfo"@),
        Api::NvAPI_GPU_GetRamType => Some("NvAPI_GPU_GetRamType"@),
        Api::NvAPI_GPU_GetFBWidthAndLocation => Some("NvAPI_GPU_GetFBWidthAndLocation"@),
        Api::NvAPI_GPU_GetAllClockFrequencies => Some("NvAPI_GPU_GetAllClockFrequencies"@),
        Api::NvAPI_GPU_GetPerfClocks => Some("NvAPI_GPU_GetPerfClocks"@),
        Api::NvAPI_GPU_SetPerfClocks => Some("NvAPI_GPU_SetPerfClocks"@),
        _ => None,
    }
}

/// The name of an API of the listing's part 4 (`None` for the others).
pub open spec fn api_name_part_4(a: Api) -> Option<Seq<char>> {
    match a {
        Api::NvAPI_GPU_GetCoolerSettings => Some("NvAPI_GPU_GetCoolerSettings"@),
        Api::NvAPI_GPU_SetCoolerLevels => Some("NvAPI_GPU_SetCoolerLevels"@),
        Api::NvAPI_GPU_RestoreCoolerSettings => Some("NvAPI_GPU_RestoreCoolerSettings"@),
        Api::NvAPI_GPU_GetCoolerPolicyTable => Some("NvAPI_GPU_GetCoolerPolicyTable"@),
        Api::NvAPI_GPU_SetCoolerPolicyTable => Some("NvAPI_GPU_SetCoolerPolicyTable"@),
        Api::NvAPI_GPU_RestoreCoolerPolicyTable => Some("NvAPI_GPU_RestoreCoolerPolicyTable"@),
        Api::NvAPI_GPU_GetPstatesInfo => Some("NvAPI_GPU_GetPstatesInfo"@),
        Api::NvAPI_GPU_GetPstatesInfoEx => Some("NvAPI_GPU_GetPstatesInfoEx"@),
        Api::NvAPI_GPU_SetPstatesInfo => Some("NvAPI_GPU_SetPstatesInfo"@),
        Api::NvAPI_GPU_GetPstates20 => Some("NvAPI_GPU_GetPstates20"@),
        Api::NvAPI_GPU_SetPstates20 => Some("NvAPI_GPU_SetPstates20"@),
        Api::NvAPI_GPU_GetCurrentPstate => Some("NvAPI_GPU_GetCurrentPstate"@),
        Api::NvAPI_GPU_GetPstateClientLimits => Some("NvAPI_GPU_GetPstateClientLimits"@),
        Api::NvAPI_GPU_SetPstateClientLimits => Some("NvAPI_GPU_SetPstateClientLimits"@),
        Api::NvAPI_GPU_EnableOverclockedPstates => Some("NvAPI_GPU_EnableOverclockedPstates"@),
        Api::NvAPI_GPU_EnableDynamicPstates => Some("NvAPI_GPU_EnableDynamicPstates"@),
        Api::NvAPI_GPU_GetDynamicPstatesInfoEx => Some("NvAPI_GPU_GetDynamicPstatesInfoEx"@),
        Api::NvAPI_GPU_GetVoltages => Some("NvAPI_GPU_GetVoltages"@),
        Api::NvAPI_GPU_GetThermalSettings => Some("NvAPI_GPU_GetThermalSettings"@),
        Api::NvAPI_GPU_SetDitherControl => Some("NvAPI_GPU_SetDitherControl"@),
        Api::NvAPI_GPU_GetDitherControl => Some("NvAPI_GPU_GetDitherControl"@),
        Api::NvAPI_GPU_GetColorSpaceConversion => Some("NvAPI_GPU_GetColorSpaceConversion"@),
        Api::NvAPI_GPU_SetColorSpaceConversion => Some("NvAPI_GPU_SetColorSpaceConversion"@),
        Api::NvAPI_GetTVOutputInfo => Some("NvAPI_GetTVOutputInfo"@),
        Api::NvAPI_GetTVEncoderControls => Some("NvAPI_GetTVEncoderControls"@),
        Api::NvAPI_SetTVEncoderControls => Some("NvAPI_SetTVEncoderControls"@),
        Api::NvAPI_GetTVOutputBorderColor => Some("NvAPI_GetTVOutputBorderColor"@),
        Api::NvAPI_SetTVOutputBorderColor => Some("NvAPI_SetTVOutputBorderColor"@),
        Api::NvAPI_GetDisplayPosition => Some("NvAPI_GetDisplayPosition"@),
        Api::NvAPI_SetDisplayPosition => Some("NvAPI_SetDisplayPosition"@),
        Api::NvAPI_GetValidGpuTopologies => Some("NvAPI_GetValidGpuTopologies"@),
        Api::NvAPI_GetInvalidGpuTopologies => Some("NvAPI_GetInvalidGpuTopologies"@),
        Api::NvAPI_SetGpuTopologies => Some("NvAPI_SetGpuTopologies"@),
        Api::NvAPI_GPU_GetPerGpuTopologyStatus => Some("NvAPI_GPU_GetPerGpuTopologyStatus"@),
        Api::NvAPI_SYS_GetChipSetTopologyStatus => Some("NvAPI_SYS_GetChipSetTopologyStatus"@),
        Api::NvAPI_GPU_Get_DisplayPort_DongleInfo => Some("NvAPI_GPU_Get_DisplayPort_DongleInfo"@),
        Api::NvAPI_I2CRead => Some("NvAPI_I2CRead"@),
        Api::NvAPI_I2CWrite => Some("NvAPI_I2CWrite"@),
        Api::NvAPI_I2CWriteEx => Some("NvAPI_I2CWriteEx"@),
        Api::NvAPI_I2CReadEx => Some("NvAPI_I2CReadEx"@),
        Api::NvAPI_GPU_GetPowerMizerInfo => Some("NvAPI_GPU_GetPowerMizerInfo"@),
        Api::NvAPI_GPU_SetPowerMizerInfo => Some("NvAPI_GPU_SetPowerMizerInfo"@),
        Api::NvAPI_GPU_GetVoltageDomainsStatus => Some("NvAPI_GPU_GetVoltageDomainsStatus"@),
        Api::NvAPI_GPU_ClientPowerTopologyGetInfo => Some("NvAPI_GPU_ClientPowerTopologyGetInfo"@),
        Api::NvAPI_GPU_ClientPowerTopologyGetStatus => Some("NvAPI_GPU_ClientPowerTopologyGetStatus"@),
        Api::NvAPI_GPU_ClientPowerPoliciesGetInfo => Some("NvAPI_GPU_ClientPowerPoliciesGetInfo"@),
        Api::NvAPI_GPU_ClientPowerPoliciesGetStatus => Some("NvAPI_GPU_ClientPowerPoliciesGetStatus"@),
        Api::NvAPI_GPU_ClientPowerPoliciesSetStatus => Some("NvAPI_GPU_ClientPowerPoliciesSetStatus"@),
        Api::NvAPI_GPU_WorkstationFeatureSetup => Some("NvAPI_GPU_WorkstationFeatureSetup"@),
        Api::NvAPI_GPU_WorkstationFeatureQuery => Some("NvAPI_GPU_WorkstationFeatureQuery"@),
        _ => None,
    }
}

/// The name of an API of the listing's part 5 (`None` for the others).
pub open spec fn api_name_part_5(a: Api) -> Option<Seq<char>> {
    match a {
        Api::NvAPI_GPU_QueryWorkstationFeatureSupport => Some("NvAPI_GPU_QueryWorkstationFeatureSupport"@),
        Api::NvAPI_SYS_GetChipSetInfo => Some("NvAPI_SYS_GetChipSetInfo"@),
        Api::NvAPI_SYS_GetLidAndDockInfo => Some("NvAPI_SYS_GetLidAndDockInfo"@),
        Api::NvAPI_OGL_ExpertModeSet => Some("NvAPI_OGL_ExpertModeSet"@),
        Api::NvAPI_OGL_ExpertModeGet => Some("NvAPI_OGL_ExpertModeGet"@),
        Api::NvAPI_OGL_ExpertModeDefaultsSet => Some("NvAPI_OGL_ExpertModeDefaultsSet"@),
        Api::NvAPI_OGL_ExpertModeDefaultsGet => Some("NvAPI_OGL_ExpertModeDefaultsGet"@),
        Api::NvAPI_SetDisplaySettings => Some("NvAPI_SetDisplaySettings"@),
        Api::NvAPI_GetDisplaySettings => Some("NvAPI_GetDisplaySettings"@),
        Api::NvAPI_GetTiming => Some("NvAPI_GetTiming"@),
        Api::NvAPI_DISP_GetTiming => Some("NvAPI_DISP_GetTiming"@),
        Api::NvAPI_DISP_GetMonitorCapabilities => Some("NvAPI_DISP_GetMonitorCapabilities"@),
        Api::NvAPI_DISP_GetMonitorColorCapabilities => Some("NvAPI_DISP_GetMonitorColorCapabilities"@),
        Api::NvAPI_DISP_EnumCustomDisplay => Some("NvAPI_DISP_EnumCustomDisplay"@),
        Api::NvAPI_DISP_TryCustomDisplay => Some("NvAPI_DISP_TryCustomDisplay"@),
        Api::NvAPI_DISP_DeleteCustomDisplay => Some("NvAPI_DISP_DeleteCustomDisplay"@),
        Api::NvAPI_DISP_SaveCustomDisplay => Some("NvAPI_DISP_SaveCustomDisplay"@),
        Api::NvAPI_DISP_RevertCustomDisplayTrial => Some("NvAPI_DISP_RevertCustomDisplayTrial"@),
        Api::NvAPI_EnumCustomDisplay => Some("NvAPI_EnumCustomDisplay"@),
        Api::NvAPI_TryCustomDisplay => Some("NvAPI_TryCustomDisplay"@),
        Api::NvAPI_RevertCustomDisplayTrial => Some("NvAPI_RevertCustomDisplayTrial"@),
        Api::NvAPI_DeleteCustomDisplay => Some("NvAPI_DeleteCustomDisplay"@),
        Api::NvAPI_SaveCustomDisplay => Some("NvAPI_SaveCustomDisplay"@),
        Api::NvAPI_QueryUnderscanCap => Some("NvAPI_QueryUnderscanCap"@),
        Api::NvAPI_EnumUnderscanConfig => Some("NvAPI_EnumUnderscanConfig"@),
        Api::NvAPI_DeleteUnderscanConfig => Some("NvAPI_DeleteUnderscanConfig"@),
        Api::NvAPI_SetUnderscanConfig => Some("NvAPI_SetUnderscanConfig"@),
        Api::NvAPI_GetDisplayFeatureConfig => Some("NvAPI_GetDisplayFeatureConfig"@),
        Api::NvAPI_SetDisplayFeatureConfig => Some("NvAPI_SetDisplayFeatureConfig"@),
        Api::NvAPI_GetDisplayFeatureConfigDefaults => Some("NvAPI_GetDisplayFeatureConfigDefaults"@),
        Api::NvAPI_SetView => Some("NvAPI_SetView"@),
        Api::NvAPI_GetView => Some("NvAPI_GetView"@),
        Api::NvAPI_SetViewEx => Some("NvAPI_SetViewEx"@),
        Api::NvAPI_GetViewEx => Some("NvAPI_GetViewEx"@),
        Api::NvAPI_GetSupportedViews => Some("NvAPI_GetSupportedViews"@),
        Api::NvAPI_GetHDCPLinkParameters => Some("NvAPI_GetHDCPLinkParameters"@),
        Api::NvAPI_Disp_DpAuxChannelControl => Some("NvAPI_Disp_DpAuxChannelControl"@),
        Api::NvAPI_SetHybridMode => Some("NvAPI_SetHybridMode"@),
        Api::NvAPI_GetHybridMode => Some("NvAPI_GetHybridMode"@),
        Api::NvAPI_Coproc_GetCoprocStatus => Some("NvAPI_Coproc_GetCoprocStatus"@),
        Api::NvAPI_Coproc_SetCoprocInfoFlagsEx => Some("NvAPI_Coproc_SetCoprocInfoFlagsEx"@),
        Api::NvAPI_Coproc_GetCoprocInfoFlagsEx => Some("NvAPI_Coproc_GetCoprocInfoFlagsEx"@),
        Api::NvAPI_Coproc_NotifyCoprocPowerState => Some("NvAPI_Coproc_NotifyCoprocPowerState"@),
        Api::NvAPI_Coproc_GetApplicationCoprocInfo => Some("NvAPI_Coproc_GetApplicationCoprocInfo"@),
        Api::NvAPI_GetVideoState => Some("NvAPI_GetVideoState"@),
        Api::NvAPI_SetVideoState => Some("NvAPI_SetVideoState"@),
        Api::NvAPI_SetFrameRateNotify => Some("NvAPI_SetFrameRateNotify"@),
        Api::NvAPI_SetPVExtName => Some("NvAPI_SetPVExtName"@),
        Api::NvAPI_GetPVExtName => Some("NvAPI_GetPVExtName"@),
        Api::NvAPI_SetPVExtProfile => Some("NvAPI_SetPVExtProfile"@),
        _ => None,
    }
}

/// The name of an API of the listing's part 6 (`None` for the others).
pub open spec fn api_name_part_6(a: Api) -> Option<Seq<char>> {
    match a {
        Api::NvAPI_GetPVExtProfile => Some("NvAPI_GetPVExtProfile"@),
        Api::NvAPI_VideoSetStereoInfo => Some("NvAPI_VideoSetStereoInfo"@),
        Api::NvAPI_VideoGetStereoInfo => Some("NvAPI_VideoGetStereoInfo"@),
        Api::NvAPI_Mosaic_GetSupportedTopoInfo => Some("NvAPI_Mosaic_GetSupportedTopoInfo"@),
        Api::NvAPI_Mosaic_GetTopoGroup => Some("NvAPI_Mosaic_GetTopoGroup"@),
        Api::NvAPI_Mosaic_GetOverlapLimits => Some("NvAPI_Mosaic_GetOverlapLimits"@),
        Api::NvAPI_Mosaic_SetCurrentTopo => Some("NvAPI_Mosaic_SetCurrentTopo"@),
        Api::NvAPI_Mosaic_GetCurrentTopo => Some("NvAPI_Mosaic_GetCurrentTopo"@),
        Api::NvAPI_Mosaic_EnableCurrentTopo => Some("NvAPI_Mosaic_EnableCurrentTopo"@),
        Api::NvAPI_Mosaic_SetGridTopology => Some("NvAPI_Mosaic_SetGridTopology"@),
        Api::NvAPI_Mosaic_GetMosaicCapabilities => Some("NvAPI_Mosaic_GetMosaicCapabilities"@),
        Api::NvAPI_Mosaic_GetDisplayCapabilities => Some("NvAPI_Mosaic_GetDisplayCapabilities"@),
        Api::NvAPI_Mosaic_EnumGridTopologies => Some("NvAPI_Mosaic_EnumGridTopologies"@),
        Api::NvAPI_Mosaic_GetDisplayViewportsByResolution => Some("NvAPI_Mosaic_GetDisplayViewportsByResolution"@),
        Api::NvAPI_Mosaic_GetMosaicViewports => Some("NvAPI_Mosaic_GetMosaicViewports"@),
        Api::NvAPI_Mosaic_SetDisplayGrids => Some("NvAPI_Mosaic_SetDisplayGrids"@),
        Api::NvAPI_Mosaic_ValidateDisplayGridsWithSLI => Some("NvAPI_Mosaic_ValidateDisplayGridsWithSLI"@),
        Api::NvAPI_Mosaic_ValidateDisplayGrids => Some("NvAPI_Mosaic_ValidateDisplayGrids"@),
        Api::NvAPI_Mosaic_EnumDisplayModes => Some("NvAPI_Mosaic_EnumDisplayModes"@),
        Api::NvAPI_Mosaic_ChooseGpuTopologies => Some("NvAPI_Mosaic_ChooseGpuTopologies"@),
        Api::NvAPI_Mosaic_EnumDisplayGrids => Some("NvAPI_Mosaic_EnumDisplayGrids"@),
        Api::NvAPI_GetSupportedMosaicTopologies => Some("NvAPI_GetSupportedMosaicTopologies"@),
        Api::NvAPI_GetCurrentMosaicTopology => Some("NvAPI_GetCurrentMosaicTopology"@),
        Api::NvAPI_SetCurrentMosaicTopology => Some("NvAPI_SetCurrentMosaicTopology"@),
        Api::NvAPI_EnableCurrentMosaicTopology => Some("NvAPI_EnableCurrentMosaicTopology"@),
        Api::NvAPI_GSync_EnumSyncDevices => Some("NvAPI_GSync_EnumSyncDevices"@),
        Api::NvAPI_GSync_QueryCapabilities => Some("NvAPI_GSync_QueryCapabilities"@),
        Api::NvAPI_GSync_GetTopology => Some("NvAPI_GSync_GetTopology"@),
        Api::NvAPI_GSync_SetSyncStateSettings => Some("NvAPI_GSync_SetSyncStateSettings"@),
        Api::NvAPI_GSync_GetControlParameters => Some("NvAPI_GSync_GetControlParameters"@),
        Api::NvAPI_GSync_SetControlParameters => Some("NvAPI_GSync_SetControlParameters"@),
        Api::NvAPI_GSync_AdjustSyncDelay => Some("NvAPI_GSync_AdjustSyncDelay"@),
        Api::NvAPI_GSync_GetSyncStatus => Some("NvAPI_GSync_GetSyncStatus"@),
        Api::NvAPI_GSync_GetStatusParameters => Some("NvAPI_GSync_GetStatusParameters"@),
        Api::NvAPI_QueryNonMigratableApps => Some("NvAPI_QueryNonMigratableApps"@),
        Api::NvAPI_GPU_QueryActiveApps => Some("NvAPI_GPU_QueryActiveApps"@),
        Api::NvAPI_Hybrid_QueryUnblockedNonMigratableApps => Some("NvAPI_Hybrid_QueryUnblockedNonMigratableApps"@),
        Api::NvAPI_Hybrid_QueryBlockedMigratableApps => Some("NvAPI_Hybrid_QueryBlockedMigratableApps"@),
        Api::NvAPI_Hybrid_SetAppMigrationState => Some("NvAPI_Hybrid_SetAppMigrationState"@),
        Api::NvAPI_Hybrid_IsAppMigrationStateChangeable => Some("NvAPI_Hybrid_IsAppMigrationStateChangeable"@),
        Api::NvAPI_GPU_GPIOQueryLegalPins => Some("NvAPI_GPU_GPIOQueryLegalPins"@),
        Api::NvAPI_GPU_GPIOReadFromPin => Some("NvAPI_GPU_GPIOReadFromPin"@),
        Api::NvAPI_GPU_GPIOWriteToPin => Some("NvAPI_GPU_GPIOWriteToPin"@),
        Api::NvAPI_GPU_GetHDCPSupportStatus => Some("NvAPI_GPU_GetHDCPSupportStatus"@),
        Api::NvAPI_SetTopologyFocusDisplayAndView => Some("NvAPI_SetTopologyFocusDisplayAndView"@),
        Api::NvAPI_Stereo_CreateConfigurationProfileRegistryKey => Some("NvAPI_Stereo_CreateConfigurationProfileRegistryKey"@),
        Api::NvAPI_Stereo_DeleteConfigurationProfileRegistryKey => Some("NvAPI_Stereo_DeleteConfigurationProfileRegistryKey"@),
        Api::NvAPI_Stereo_SetConfigurationProfileValue => Some("NvAPI_Stereo_SetConfigurationProfileValue"@),
        Api::NvAPI_Stereo_DeleteConfigurationProfileValue => Some("NvAPI_Stereo_DeleteConfigurationProfileValue"@),
        Api::NvAPI_Stereo_Enable => Some("NvAPI_Stereo_Enable"@),
        _ => None,
    }
}

/// The name of an API of the listing's part 7 (`None` for the others).
pub open spec fn api_name_part_7(a: Api) -> Option<Seq<char>> {
    match a {
        Api::NvAPI_Stereo_Disable => Some("NvAPI_Stereo_Disable"@),
        Api::NvAPI_Stereo_IsEnabled => Some("NvAPI_Stereo_IsEnabled"@),
        Api::NvAPI_Stereo_GetStereoCaps => Some("NvAPI_Stereo_GetStereoCaps"@),
        Api::NvAPI_Stereo_GetStereoSupport => Some("NvAPI_Stereo_GetStereoSupport"@),
        Api::NvAPI_Stereo_CreateHandleFromIUnknown => Some("NvAPI_Stereo_CreateHandleFromIUnknown"@),
        Api::NvAPI_Stereo_DestroyHandle => Some("NvAPI_Stereo_DestroyHandle"@),
        Api::NvAPI_Stereo_Activate => Some("NvAPI_Stereo_Activate"@),
        Api::NvAPI_Stereo_Deactivate => Some("NvAPI_Stereo_Deactivate"@),
        Api::NvAPI_Stereo_IsActivated => Some("NvAPI_Stereo_IsActivated"@),
        Api::NvAPI_Stereo_GetSeparation => Some("NvAPI_Stereo_GetSeparation"@),
        Api::NvAPI_Stereo_SetSeparation => Some("NvAPI_Stereo_SetSeparation"@),
        Api::NvAPI_Stereo_DecreaseSeparation => Some("NvAPI_Stereo_DecreaseSeparation"@),
        Api::NvAPI_Stereo_IncreaseSeparation => Some("NvAPI_Stereo_IncreaseSeparation"@),
        Api::NvAPI_Stereo_GetConvergence => Some("NvAPI_Stereo_GetConvergence"@),
        Api::NvAPI_Stereo_SetConvergence => Some("NvAPI_Stereo_SetConvergence"@),
        Api::NvAPI_Stereo_DecreaseConvergence => Some("NvAPI_Stereo_DecreaseConvergence"@),
        Api::NvAPI_Stereo_IncreaseConvergence => Some("NvAPI_Stereo_IncreaseConvergence"@),
        Api::NvAPI_Stereo_GetFrustumAdjustMode => Some("NvAPI_Stereo_GetFrustumAdjustMode"@),
        Api::NvAPI_Stereo_SetFrustumAdjustMode => Some("NvAPI_Stereo_SetFrustumAdjustMode"@),
        Api::NvAPI_Stereo_CaptureJpegImage => Some("NvAPI_Stereo_CaptureJpegImage"@),
        Api::NvAPI_Stereo_InitActivation => Some("NvAPI_Stereo_InitActivation"@),
        Api::NvAPI_Stereo_Trigger_Activation => Some("NvAPI_Stereo_Trigger_Activation"@),
        Api::NvAPI_Stereo_CapturePngImage => Some("NvAPI_Stereo_CapturePngImage"@),
        Api::NvAPI_Stereo_ReverseStereoBlitControl => Some("NvAPI_Stereo_ReverseStereoBlitControl"@),
        Api::NvAPI_Stereo_SetNotificationMessage => Some("NvAPI_Stereo_SetNotificationMessage"@),
        Api::NvAPI_Stereo_SetActiveEye => Some("NvAPI_Stereo_SetActiveEye"@),
        Api::NvAPI_Stereo_SetDriverMode => Some("NvAPI_Stereo_SetDriverMode"@),
        Api::NvAPI_Stereo_GetEyeSeparation => Some("NvAPI_Stereo_GetEyeSeparation"@),
        Api::NvAPI_Stereo_IsWindowedModeSupported => Some("NvAPI_Stereo_IsWindowedModeSupported"@),
        Api::NvAPI_Stereo_AppHandShake => Some("NvAPI_Stereo_AppHandShake"@),
        Api::NvAPI_Stereo_HandShake_Trigger_Activation => Some("NvAPI_Stereo_HandShake_Trigger_Activation"@),
        Api::NvAPI_Stereo_HandShake_Message_Control => Some("NvAPI_Stereo_HandShake_Message_Control"@),
        Api::NvAPI_Stereo_SetSurfaceCreationMode => Some("NvAPI_Stereo_SetSurfaceCreationMode"@),
        Api::NvAPI_Stereo_GetSurfaceCreationMode => Some("NvAPI_Stereo_GetSurfaceCreationMode"@),
        Api::NvAPI_Stereo_Debug_WasLastDrawStereoized => Some("NvAPI_Stereo_Debug_WasLastDrawStereoized"@),
        Api::NvAPI_Stereo_ForceToScreenDepth => Some("NvAPI_Stereo_ForceToScreenDepth"@),
        Api::NvAPI_Stereo_SetVertexShaderConstantF => Some("NvAPI_Stereo_SetVertexShaderConstantF"@),
        Api::NvAPI_Stereo_SetVertexShaderConstantB => Some("NvAPI_Stereo_SetVertexShaderConstantB"@),
        Api::NvAPI_Stereo_SetVertexShaderConstantI => Some("NvAPI_Stereo_SetVertexShaderConstantI"@),
        Api::NvAPI_Stereo_GetVertexShaderConstantF => Some("NvAPI_Stereo_GetVertexShaderConstantF"@),
        Api::NvAPI_Stereo_GetVertexShaderConstantB => Some("NvAPI_Stereo_GetVertexShaderConstantB"@),
        Api::NvAPI_Stereo_GetVertexShaderConstantI => Some("NvAPI_Stereo_GetVertexShaderConstantI"@),
        Api::NvAPI_Stereo_SetPixelShaderConstantF => Some("NvAPI_Stereo_SetPixelShaderConstantF"@),
        Api::NvAPI_Stereo_SetPixelShaderConstantB => Some("NvAPI_Stereo_SetPixelShaderConstantB"@),
        Api::NvAPI_Stereo_SetPixelShaderConstantI => Some("NvAPI_Stereo_SetPixelShaderConstantI"@),
        Api::NvAPI_Stereo_GetPixelShaderConstantF => Some("NvAPI_Stereo_GetPixelShaderConstantF"@),
        Api::NvAPI_Stereo_GetPixelShaderConstantB => Some("NvAPI_Stereo_GetPixelShaderConstantB"@),
        Api::NvAPI_Stereo_GetPixelShaderConstantI => Some("NvAPI_Stereo_GetPixelShaderConstantI"@),
        Api::NvAPI_Stereo_SetDefaultProfile => Some("NvAPI_Stereo_SetDefaultProfile"@),
        Api::NvAPI_Stereo_GetDefaultProfile => Some("NvAPI_Stereo_GetDefaultProfile"@),
        _ => None,
    }
}

/// The name of an API of the listing's part 8 (`None` for the others).
pub open spec fn api_name_part_8(a: Api) -> Option<Seq<char>> {
    match a {
        Api::NvAPI_Stereo_Is3DCursorSupported => Some("NvAPI_Stereo_Is3DCursorSupported"@),
        Api::NvAPI_Stereo_GetCursorSeparation => Some("NvAPI_Stereo_GetCursorSeparation"@),
        Api::NvAPI_Stereo_SetCursorSeparation => Some("NvAPI_Stereo_SetCursorSeparation"@),
        Api::NvAPI_VIO_GetCapabilities => Some("NvAPI_VIO_GetCapabilities"@),
        Api::NvAPI_VIO_Open => Some("NvAPI_VIO_Open"@),
        Api::NvAPI_VIO_Close => Some("NvAPI_VIO_Close"@),
        Api::NvAPI_VIO_Status => Some("NvAPI_VIO_Status"@),
        Api::NvAPI_VIO_SyncFormatDetect => Some("NvAPI_VIO_SyncFormatDetect"@),
        Api::NvAPI_VIO_GetConfig => Some("NvAPI_VIO_GetConfig"@),
        Api::NvAPI_VIO_SetConfig => Some("NvAPI_VIO_SetConfig"@),
        Api::NvAPI_VIO_SetCSC => Some("NvAPI_VIO_SetCSC"@),
        Api::NvAPI_VIO_GetCSC => Some("NvAPI_VIO_GetCSC"@),
        Api::NvAPI_VIO_SetGamma => Some("NvAPI_VIO_SetGamma"@),
        Api::NvAPI_VIO_GetGamma => Some("NvAPI_VIO_GetGamma"@),
        Api::NvAPI_VIO_SetSyncDelay => Some("NvAPI_VIO_SetSyncDelay"@),
        Api::NvAPI_VIO_GetSyncDelay => Some("NvAPI_VIO_GetSyncDelay"@),
        Api::NvAPI_VIO_GetPCIInfo => Some("NvAPI_VIO_GetPCIInfo"@),
        Api::NvAPI_VIO_IsRunning => Some("NvAPI_VIO_IsRunning"@),
        Api::NvAPI_VIO_Start => Some("NvAPI_VIO_Start"@),
        Api::NvAPI_VIO_Stop => Some("NvAPI_VIO_Stop"@),
        Api::NvAPI_VIO_IsFrameLockModeCompatible => Some("NvAPI_VIO_IsFrameLockModeCompatible"@),
        Api::NvAPI_VIO_EnumDevices => Some("NvAPI_VIO_EnumDevices"@),
        Api::NvAPI_VIO_QueryTopology => Some("NvAPI_VIO_QueryTopology"@),
        Api::NvAPI_VIO_EnumSignalFormats => Some("NvAPI_VIO_EnumSignalFormats"@),
        Api::NvAPI_VIO_EnumDataFormats => Some("NvAPI_VIO_EnumDataFormats"@),
        Api::NvAPI_GPU_GetTachReading => Some("NvAPI_GPU_GetTachReading"@),
        Api::NvAPI_3D_GetProperty => Some("NvAPI_3D_GetProperty"@),
        Api::NvAPI_3D_SetProperty => Some("NvAPI_3D_SetProperty"@),
        Api::NvAPI_3D_GetPropertyRange => Some("NvAPI_3D_GetPropertyRange"@),
        Api::NvAPI_GPS_GetPowerSteeringStatus => Some("NvAPI_GPS_GetPowerSteeringStatus"@),
        Api::NvAPI_GPS_SetPowerSteeringStatus => Some("NvAPI_GPS_SetPowerSteeringStatus"@),
        Api::NvAPI_GPS_SetVPStateCap => Some("NvAPI_GPS_SetVPStateCap"@),
        Api::NvAPI_GPS_GetVPStateCap => Some("NvAPI_GPS_GetVPStateCap"@),
        Api::NvAPI_GPS_GetThermalLimit => Some("NvAPI_GPS_GetThermalLimit"@),
        Api::NvAPI_GPS_SetThermalLimit => Some("NvAPI_GPS_SetThermalLimit"@),
        Api::NvAPI_GPS_GetPerfSensors => Some("NvAPI_GPS_GetPerfSensors"@),
        Api::NvAPI_SYS_GetDisplayIdFromGpuAndOutputId => Some("NvAPI_SYS_GetDisplayIdFromGpuAndOutputId"@),
        Api::NvAPI_SYS_GetGpuAndOutputIdFromDisplayId => Some("NvAPI_SYS_GetGpuAndOutputIdFromDisplayId"@),
        Api::NvAPI_GPU_ClientRegisterForUtilizationSampleUpdates => Some("NvAPI_GPU_ClientRegisterForUtilizationSampleUpdates"@),
        Api::NvAPI_SYS_GetDisplayDriverInfo => Some("NvAPI_SYS_GetDisplayDriverInfo"@),
        Api::NvAPI_SYS_GetPhysicalGpuFromDisplayId => Some("NvAPI_SYS_GetPhysicalGpuFromDisplayId"@),
        Api::NvAPI_DISP_GetDisplayIdByDisplayName => Some("NvAPI_DISP_GetDisplayIdByDisplayName"@),
        Api::NvAPI_DISP_GetGDIPrimaryDisplayId => Some("NvAPI_DISP_GetGDIPrimaryDisplayId"@),
        Api::NvAPI_DISP_GetDisplayConfig => Some("NvAPI_DISP_GetDisplayConfig"@),
        Api::NvAPI_DISP_SetDisplayConfig => Some("NvAPI_DISP_SetDisplayConfig"@),
        Api::NvAPI_DISP_GetAdaptiveSyncData => Some("NvAPI_DISP_GetAdaptiveSyncData"@),
        Api::NvAPI_DISP_SetAdaptiveSyncData => Some("NvAPI_DISP_SetAdaptiveSyncData"@),
        Api::NvAPI_DISP_GetVirtualRefreshRateData => Some("NvAPI_DISP_GetVirtualRefreshRateData"@),
        Api::NvAPI_DISP_SetVirtualRefreshRateData => Some("NvAPI_DISP_SetVirtualRefreshRateData"@),
        Api::NvAPI_DISP_SetPreferredStereoDisplay => Some("NvAPI_DISP_SetPreferredStereoDisplay"@),
        _ => None,
    }
}

/// The name of an API of the listing's part 9 (`None` for the others).
pub open spec fn api_name_part_9(a: Api) -> Option<Seq<char>> {
    match a {
        Api::NvAPI_DISP_GetPreferredStereoDisplay => Some("NvAPI_DISP_GetPreferredStereoDisplay"@),
        Api::NvAPI_DISP_GetNvManagedDedicatedDisplays => Some("NvAPI_DISP_GetNvManagedDedicatedDisplays"@),
        Api::NvAPI_DISP_AcquireDedicatedDisplay => Some("NvAPI_DISP_AcquireDedicatedDisplay"@),
        Api::NvAPI_DISP_ReleaseDedicatedDisplay => Some("NvAPI_DISP_ReleaseDedicatedDisplay"@),
        Api::NvAPI_GPU_GetPixelClockRange => Some("NvAPI_GPU_GetPixelClockRange"@),
        Api::NvAPI_GPU_SetPixelClockRange => Some("NvAPI_GPU_SetPixelClockRange"@),
        Api::NvAPI_GPU_GetECCStatusInfo => Some("NvAPI_GPU_GetECCStatusInfo"@),
        Api::NvAPI_GPU_GetECCErrorInfo => Some("NvAPI_GPU_GetECCErrorInfo"@),
        Api::NvAPI_GPU_ResetECCErrorInfo => Some("NvAPI_GPU_ResetECCErrorInfo"@),
        Api::NvAPI_GPU_GetECCConfigurationInfo => Some("NvAPI_GPU_GetECCConfigurationInfo"@),
        Api::NvAPI_GPU_SetECCConfiguration => Some("NvAPI_GPU_SetECCConfiguration"@),
        Api::NvAPI_D3D1x_CreateSwapChain => Some("NvAPI_D3D1x_CreateSwapChain"@),
        Api::NvAPI_D3D9_CreateSwapChain => Some("NvAPI_D3D9_CreateSwapChain"@),
        Api::NvAPI_D3D_SetFPSIndicatorState => Some("NvAPI_D3D_SetFPSIndicatorState"@),
        Api::NvAPI_D3D9_Present => Some("NvAPI_D3D9_Present"@),
        Api::NvAPI_D3D9_QueryFrameCount => Some("NvAPI_D3D9_QueryFrameCount"@),
        Api::NvAPI_D3D9_ResetFrameCount => Some("NvAPI_D3D9_ResetFrameCount"@),
        Api::NvAPI_D3D9_QueryMaxSwapGroup => Some("NvAPI_D3D9_QueryMaxSwapGroup"@),
        Api::NvAPI_D3D9_QuerySwapGroup => Some("NvAPI_D3D9_QuerySwapGroup"@),
        Api::NvAPI_D3D9_JoinSwapGroup => Some("NvAPI_D3D9_JoinSwapGroup"@),
        Api::NvAPI_D3D9_BindSwapBarrier => Some("NvAPI_D3D9_BindSwapBarrier"@),
        Api::NvAPI_D3D1x_Present => Some("NvAPI_D3D1x_Present"@),
        Api::NvAPI_D3D1x_QueryFrameCount => Some("NvAPI_D3D1x_QueryFrameCount"@),
        Api::NvAPI_D3D1x_ResetFrameCount => Some("NvAPI_D3D1x_ResetFrameCount"@),
        Api::NvAPI_D3D1x_QueryMaxSwapGroup => Some("NvAPI_D3D1x_QueryMaxSwapGroup"@),
        Api::NvAPI_D3D1x_QuerySwapGroup => Some("NvAPI_D3D1x_QuerySwapGroup"@),
        Api::NvAPI_D3D1x_JoinSwapGroup => Some("NvAPI_D3D1x_JoinSwapGroup"@),
        Api::NvAPI_D3D1x_BindSwapBarrier => Some("NvAPI_D3D1x_BindSwapBarrier"@),
        Api::NvAPI_SYS_VenturaGetState => Some("NvAPI_SYS_VenturaGetState"@),
        Api::NvAPI_SYS_VenturaSetState => Some("NvAPI_SYS_VenturaSetState"@),
        Api::NvAPI_SYS_VenturaGetCoolingBudget => Some("NvAPI_SYS_VenturaGetCoolingBudget"@),
        Api::NvAPI_SYS_VenturaSetCoolingBudget => Some("NvAPI_SYS_VenturaSetCoolingBudget"@),
        Api::NvAPI_SYS_VenturaGetPowerReading => Some("NvAPI_SYS_VenturaGetPowerReading"@),
        Api::NvAPI_DISP_GetDisplayBlankingState => Some("NvAPI_DISP_GetDisplayBlankingState"@),
        Api::NvAPI_DISP_SetDisplayBlankingState => Some("NvAPI_DISP_SetDisplayBlankingState"@),
        Api::NvAPI_DRS_CreateSession => Some("NvAPI_DRS_CreateSession"@),
        Api::NvAPI_DRS_DestroySession => Some("NvAPI_DRS_DestroySession"@),
        Api::NvAPI_DRS_LoadSettings => Some("NvAPI_DRS_LoadSettings"@),
        Api::NvAPI_DRS_SaveSettings => Some("NvAPI_DRS_SaveSettings"@),
        Api::NvAPI_DRS_LoadSettingsFromFile => Some("NvAPI_DRS_LoadSettingsFromFile"@),
        Api::NvAPI_DRS_SaveSettingsToFile => Some("NvAPI_DRS_SaveSettingsToFile"@),
        Api::NvAPI_DRS_CreateProfile => Some("NvAPI_DRS_CreateProfile"@),
        Api::NvAPI_DRS_DeleteProfile => Some("NvAPI_DRS_DeleteProfile"@),
        Api::NvAPI_DRS_SetCurrentGlobalProfile => Some("NvAPI_DRS_SetCurrentGlobalProfile"@),
        Api::NvAPI_DRS_GetCurrentGlobalProfile => Some("NvAPI_DRS_GetCurrentGlobalProfile"@),
        Api::NvAPI_DRS_GetProfileInfo => Some("NvAPI_DRS_GetProfileInfo"@),
        Api::NvAPI_DRS_SetProfileInfo => Some("NvAPI_DRS_SetProfileInfo"@),
        Api::NvAPI_DRS_FindProfileByName => Some("NvAPI_DRS_FindProfileByName"@),
        Api::NvAPI_DRS_EnumProfiles => Some("NvAPI_DRS_EnumProfiles"@),
        Api::NvAPI_DRS_GetNumProfiles => Some("NvAPI_DRS_GetNumProfiles"@),
        _ => None,
    }
}

/// The name of an API of the listing's part 10 (`None` for the others).
pub open spec fn api_name_part_10(a: Api) -> Option<Seq<char>> {
    match a {
        Api::NvAPI_DRS_CreateApplication => Some("NvAPI_DRS_CreateApplication"@),
        Api::NvAPI_DRS_DeleteApplicationEx => Some("NvAPI_DRS_DeleteApplicationEx"@),
        Api::NvAPI_DRS_DeleteApplication => Some("NvAPI_DRS_DeleteApplication"@),
        Api::NvAPI_DRS_GetApplicationInfo => Some("NvAPI_DRS_GetApplicationInfo"@),
        Api::NvAPI_DRS_EnumApplications => Some("NvAPI_DRS_EnumApplications"@),
        Api::NvAPI_DRS_FindApplicationByName => Some("NvAPI_DRS_FindApplicationByName"@),
        Api::NvAPI_DRS_SetSetting => Some("NvAPI_DRS_SetSetting"@),
        Api::NvAPI_DRS_GetSetting => Some("NvAPI_DRS_GetSetting"@),
        Api::NvAPI_DRS_EnumSettings => Some("NvAPI_DRS_EnumSettings"@),
        Api::NvAPI_DRS_EnumAvailableSettingIds => Some("NvAPI_DRS_EnumAvailableSettingIds"@),
        Api::NvAPI_DRS_EnumAvailableSettingValues => Some("NvAPI_DRS_EnumAvailableSettingValues"@),
        Api::NvAPI_DRS_GetSettingIdFromName => Some("NvAPI_DRS_GetSettingIdFromName"@),
        Api::NvAPI_DRS_GetSettingNameFromId => Some("NvAPI_DRS_GetSettingNameFromId"@),
        Api::NvAPI_DRS_DeleteProfileSetting => Some("NvAPI_DRS_DeleteProfileSetting"@),
        Api::NvAPI_DRS_RestoreAllDefaults => Some("NvAPI_DRS_RestoreAllDefaults"@),
        Api::NvAPI_DRS_RestoreProfileDefault => Some("NvAPI_DRS_RestoreProfileDefault"@),
        Api::NvAPI_DRS_RestoreProfileDefaultSetting => Some("NvAPI_DRS_RestoreProfileDefaultSetting"@),
        Api::NvAPI_DRS_GetBaseProfile => Some("NvAPI_DRS_GetBaseProfile"@),
        Api::NvAPI_Event_RegisterCallback => Some("NvAPI_Event_RegisterCallback"@),
        Api::NvAPI_Event_UnregisterCallback => Some("NvAPI_Event_UnregisterCallback"@),
        Api::NvAPI_GPU_GetCurrentThermalLevel => Some("NvAPI_GPU_GetCurrentThermalLevel"@),
        Api::NvAPI_GPU_GetCurrentFanSpeedLevel => Some("NvAPI_GPU_GetCurrentFanSpeedLevel"@),
        Api::NvAPI_GPU_SetScanoutIntensity => Some("NvAPI_GPU_SetScanoutIntensity"@),
        Api::NvAPI_GPU_GetScanoutIntensityState => Some("NvAPI_GPU_GetScanoutIntensityState"@),
        Api::NvAPI_GPU_SetScanoutWarping => Some("NvAPI_GPU_SetScanoutWarping"@),
        Api::NvAPI_GPU_GetScanoutWarpingState => Some("NvAPI_GPU_GetScanoutWarpingState"@),
        Api::NvAPI_GPU_SetScanoutCompositionParameter => Some("NvAPI_GPU_SetScanoutCompositionParameter"@),
        Api::NvAPI_GPU_GetScanoutCompositionParameter => Some("NvAPI_GPU_GetScanoutCompositionParameter"@),
        Api::NvAPI_GPU_GetScanoutConfiguration => Some("NvAPI_GPU_GetScanoutConfiguration"@),
        Api::NvAPI_GPU_GetScanoutConfigurationEx => Some("NvAPI_GPU_GetScanoutConfigurationEx"@),
        Api::NvAPI_DISP_SetHCloneTopology => Some("NvAPI_DISP_SetHCloneTopology"@),
        Api::NvAPI_DISP_GetHCloneTopology => Some("NvAPI_DISP_GetHCloneTopology"@),
        Api::NvAPI_DISP_ValidateHCloneTopology => Some("NvAPI_DISP_ValidateHCloneTopology"@),
        Api::NvAPI_GPU_GetAdapterIdFromPhysicalGpu => Some("NvAPI_GPU_GetAdapterIdFromPhysicalGpu"@),
        Api::NvAPI_GPU_GetVirtualizationInfo => Some("NvAPI_GPU_GetVirtualizationInfo"@),
        Api::NvAPI_GPU_GetLogicalGpuInfo => Some("NvAPI_GPU_GetLogicalGpuInfo"@),
        Api::NvAPI_GPU_GetLicensableFeatures => Some("NvAPI_GPU_GetLicensableFeatures"@),
        Api::NvAPI_GPU_GetVRReadyData => Some("NvAPI_GPU_GetVRReadyData"@),
        Api::NvAPI_GPU_GetPerfDecreaseInfo => Some("NvAPI_GPU_GetPerfDecreaseInfo"@),
        Api::NvAPI_GPU_QueryIlluminationSupport => Some("NvAPI_GPU_QueryIlluminationSupport"@),
        Api::NvAPI_GPU_GetIllumination => Some("NvAPI_GPU_GetIllumination"@),
        Api::NvAPI_GPU_SetIllumination => Some("NvAPI_GPU_SetIllumination"@),
        Api::NvAPI_D3D1x_IFR_SetUpTargetBufferToSys => Some("NvAPI_D3D1x_IFR_SetUpTargetBufferToSys"@),
        Api::NvAPI_D3D1x_IFR_TransferRenderTarget => Some("NvAPI_D3D1x_IFR_TransferRenderTarget"@),
        Api::NvAPI_GetPhysicalGPUFromDisplay => Some("NvAPI_GetPhysicalGPUFromDisplay"@),
        Api::NvAPI_GetPhysicalGPUFromGPUID => Some("NvAPI_GetPhysicalGPUFromGPUID"@),
        Api::NvAPI_GetGPUIDfromPhysicalGPU => Some("NvAPI_GetGPUIDfromPhysicalGPU"@),
        Api::NvAPI_GetInfoFrameStatePvt => Some("NvAPI_GetInfoFrameStatePvt"@),
        Api::NvAPI_GPU_GetMemoryInfo => Some("NvAPI_GPU_GetMemoryInfo"@),
        Api::NvAPI_GPU_GetMemoryInfoEx => Some("NvAPI_GPU_GetMemoryInfoEx"@),
        _ => None,
    }
}

/// The name of an API of the listing's part 11 (`None` for the others).
pub open spec fn api_name_part_11(a: Api) -> Option<Seq<char>> {
    match a {
        Api::NvAPI_LoadMicrocode => Some("NvAPI_LoadMicrocode"@),
        Api::NvAPI_GetLoadedMicrocodePrograms => Some("NvAPI_GetLoadedMicrocodePrograms"@),
        Api::NvAPI_GetDisplayDriverBuildTitle => Some("NvAPI_GetDisplayDriverBuildTitle"@),
        Api::NvAPI_GetDisplayDriverCompileType => Some("NvAPI_GetDisplayDriverCompileType"@),
        Api::NvAPI_GetDisplayDriverSecurityLevel => Some("NvAPI_GetDisplayDriverSecurityLevel"@),
        Api::NvAPI_AccessDisplayDriverRegistry => Some("NvAPI_AccessDisplayDriverRegistry"@),
        Api::NvAPI_GetDisplayDriverRegistryPath => Some("NvAPI_GetDisplayDriverRegistryPath"@),
        Api::NvAPI_GetUnAttachedDisplayDriverRegistryPath => Some("NvAPI_GetUnAttachedDisplayDriverRegistryPath"@),
        Api::NvAPI_GPU_GetRawFuseData => Some("NvAPI_GPU_GetRawFuseData"@),
        Api::NvAPI_GPU_GetFoundry => Some("NvAPI_GPU_GetFoundry"@),
        Api::NvAPI_GPU_GetVPECount => Some("NvAPI_GPU_GetVPECount"@),
        Api::NvAPI_GPU_GetTargetID => Some("NvAPI_GPU_GetTargetID"@),
        Api::NvAPI_GPU_GetShortName => Some("NvAPI_GPU_GetShortName"@),
        Api::NvAPI_GPU_GetVbiosMxmVersion => Some("NvAPI_GPU_GetVbiosMxmVersion"@),
        Api::NvAPI_GPU_GetVbiosImage => Some("NvAPI_GPU_GetVbiosImage"@),
        Api::NvAPI_GPU_GetMXMBlock => Some("NvAPI_GPU_GetMXMBlock"@),
        Api::NvAPI_GPU_SetCurrentPCIEWidth => Some("NvAPI_GPU_SetCurrentPCIEWidth"@),
        Api::NvAPI_GPU_SetCurrentPCIESpeed => Some("NvAPI_GPU_SetCurrentPCIESpeed"@),
        Api::NvAPI_GPU_GetPCIEInfo => Some("NvAPI_GPU_GetPCIEInfo"@),
        Api::NvAPI_GPU_ClearPCIELinkErrorInfo => Some("NvAPI_GPU_ClearPCIELinkErrorInfo"@),
        Api::NvAPI_GPU_ClearPCIELinkAERInfo => Some("NvAPI_GPU_ClearPCIELinkAERInfo"@),
        Api::NvAPI_GPU_GetFrameBufferCalibrationLockFailures => Some("NvAPI_GPU_GetFrameBufferCalibrationLockFailures"@),
        Api::NvAPI_GPU_SetDisplayUnderflowMode => Some("NvAPI_GPU_SetDisplayUnderflowMode"@),
        Api::NvAPI_GPU_GetDisplayUnderflowStatus => Some("NvAPI_GPU_GetDisplayUnderflowStatus"@),
        Api::NvAPI_GPU_GetBarInfo => Some("NvAPI_GPU_GetBarInfo"@),
        Api::NvAPI_GPU_GetPSFloorSweepStatus => Some("NvAPI_GPU_GetPSFloorSweepStatus"@),
        Api::NvAPI_GPU_GetVSFloorSweepStatus => Some("NvAPI_GPU_GetVSFloorSweepStatus"@),
        Api::NvAPI_GPU_GetSerialNumber => Some("NvAPI_GPU_GetSerialNumber"@),
        Api::NvAPI_GPU_GetManufacturingInfo => Some("NvAPI_GPU_GetManufacturingInfo"@),
        Api::NvAPI_GPU_GetRamConfigStrap => Some("NvAPI_GPU_GetRamConfigStrap"@),
        Api::NvAPI_GPU_GetRamBusWidth => Some("NvAPI_GPU_GetRamBusWidth"@),
        Api::NvAPI_GPU_GetRamBankCount => Some("NvAPI_GPU_GetRamBankCount"@),
        Api::NvAPI_GPU_GetArchInfo => Some("NvAPI_GPU_GetArchInfo"@),
        Api::NvAPI_GPU_GetExtendedMinorRevision => Some("NvAPI_GPU_GetExtendedMinorRevision"@),
        Api::NvAPI_GPU_GetSampleType => Some("NvAPI_GPU_GetSampleType"@),
        Api::NvAPI_GPU_GetHardwareQualType => Some("NvAPI_GPU_GetHardwareQualType"@),
        Api::NvAPI_GPU_GetAllClocks => Some("NvAPI_GPU_GetAllClocks"@),
        Api::NvAPI_GPU_SetClocks => Some("NvAPI_GPU_SetClocks"@),
        Api::NvAPI_GPU_SetPerfHybridMode => Some("NvAPI_GPU_SetPerfHybridMode"@),
        Api::NvAPI_GPU_GetPerfHybridMode => Some("NvAPI_GPU_GetPerfHybridMode"@),
        Api::NvAPI_GPU_GetHybridControllerInfo => Some("NvAPI_GPU_GetHybridControllerInfo"@),
        Api::NvAPI_RestartDisplayDriver => Some("NvAPI_RestartDisplayDriver"@),
        Api::NvAPI_GPU_GetAllGpusOnSameBoard => Some("NvAPI_GPU_GetAllGpusOnSameBoard"@),
        Api::NvAPI_SetTopologyDisplayGPU => Some("NvAPI_SetTopologyDisplayGPU"@),
        Api::NvAPI_GetTopologyDisplayGPU => Some("NvAPI_GetTopologyDisplayGPU"@),
        Api::NvAPI_SYS_GetSliApprovalCookie => Some("NvAPI_SYS_GetSliApprovalCookie"@),
        Api::NvAPI_CreateUnAttachedDisplayFromDisplay => Some("NvAPI_CreateUnAttachedDisplayFromDisplay"@),
        Api::NvAPI_GetDriverModel => Some("NvAPI_GetDriverModel"@),
        Api::NvAPI_GPU_CudaEnumComputeCapableGpus => Some("NvAPI_GPU_CudaEnumComputeCapableGpus"@),
        Api::NvAPI_GPU_PhysxSetState => Some("NvAPI_GPU_PhysxSetState"@),
        _ => None,
    }
}

/// The name of an API of the listing's part 12 (`None` for the others).
pub open spec fn api_name_part_12(a: Api) -> Option<Seq<char>> {
    match a {
        Api::NvAPI_GPU_PhysxQueryRecommendedState => Some("NvAPI_GPU_PhysxQueryRecommendedState"@),
        Api::NvAPI_GPU_GetDeepIdleState => Some("NvAPI_GPU_GetDeepIdleState"@),
        Api::NvAPI_GPU_SetDeepIdleState => Some("NvAPI_GPU_SetDeepIdleState"@),
        Api::NvAPI_GetScalingCaps => Some("NvAPI_GetScalingCaps"@),
        Api::NvAPI_GPU_GetThermalTable => Some("NvAPI_GPU_GetThermalTable"@),
        Api::NvAPI_SYS_SetPostOutput => Some("NvAPI_SYS_SetPostOutput"@),
        Api::NvAPI_GPU_PerfPoliciesGetInfo => Some("NvAPI_GPU_PerfPoliciesGetInfo"@),
        Api::NvAPI_GPU_PerfPoliciesGetStatus => Some("NvAPI_GPU_PerfPoliciesGetStatus"@),
        Api::NvAPI_GPU_ClientThermalPoliciesGetInfo => Some("NvAPI_GPU_ClientThermalPoliciesGetInfo"@),
        Api::NvAPI_GPU_ClientThermalPoliciesGetStatus => Some("NvAPI_GPU_ClientThermalPoliciesGetStatus"@),
        Api::NvAPI_GPU_ClientThermalPoliciesSetStatus => Some("NvAPI_GPU_ClientThermalPoliciesSetStatus"@),
        Api::NvAPI_GPU_ClientVoltRailsGetStatus => Some("NvAPI_GPU_ClientVoltRailsGetStatus"@),
        Api::NvAPI_GPU_GetVoltageStep => Some("NvAPI_GPU_GetVoltageStep"@),
        Api::NvAPI_GPU_ClockClientClkDomainsGetInfo => Some("NvAPI_GPU_ClockClientClkDomainsGetInfo"@),
        Api::NvAPI_GPU_ClockClientClkVfPointsGetInfo => Some("NvAPI_GPU_ClockClientClkVfPointsGetInfo"@),
        Api::NvAPI_GPU_ClockClientClkVfPointsGetControl => Some("NvAPI_GPU_ClockClientClkVfPointsGetControl"@),
        Api::NvAPI_GPU_ClockClientClkVfPointsSetControl => Some("NvAPI_GPU_ClockClientClkVfPointsSetControl"@),
        Api::NvAPI_GPU_ClockClientClkVfPointsGetStatus => Some("NvAPI_GPU_ClockClientClkVfPointsGetStatus"@),
        Api::NvAPI_GPU_PerfClientLimitsGetStatus => Some("NvAPI_GPU_PerfClientLimitsGetStatus"@),
        Api::NvAPI_GPU_PerfClientLimitsSetStatus => Some("NvAPI_GPU_PerfClientLimitsSetStatus"@),
        Api::NvAPI_GPU_ClientVoltRailsGetControl => Some("NvAPI_GPU_ClientVoltRailsGetControl"@),
        Api::NvAPI_GPU_ClientVoltRailsSetControl => Some("NvAPI_GPU_ClientVoltRailsSetControl"@),
        Api::NvAPI_GPU_ClientFanArbitersGetControl => Some("NvAPI_GPU_ClientFanArbitersGetControl"@),
        Api::NvAPI_GPU_ClientFanArbitersGetInfo => Some("NvAPI_GPU_ClientFanArbitersGetInfo"@),
        Api::NvAPI_GPU_ClientFanArbitersGetStatus => Some("NvAPI_GPU_ClientFanArbitersGetStatus"@),
        Api::NvAPI_GPU_ClientFanArbitersSetControl => Some("NvAPI_GPU_ClientFanArbitersSetControl"@),
        Api::NvAPI_GPU_ClientFanCoolersGetControl => Some("NvAPI_GPU_ClientFanCoolersGetControl"@),
        Api::NvAPI_GPU_ClientFanCoolersGetInfo => Some("NvAPI_GPU_ClientFanCoolersGetInfo"@),
        Api::NvAPI_GPU_ClientFanCoolersGetStatus => Some("NvAPI_GPU_ClientFanCoolersGetStatus"@),
        Api::NvAPI_GPU_ClientFanCoolersSetControl => Some("NvAPI_GPU_ClientFanCoolersSetControl"@),
        Api::NvAPI_GPU_ClientFanPoliciesGetControl => Some("NvAPI_GPU_ClientFanPoliciesGetControl"@),
        Api::NvAPI_GPU_ClientFanPoliciesGetInfo => Some("NvAPI_GPU_ClientFanPoliciesGetInfo"@),
        Api::NvAPI_GPU_ClientFanPoliciesSetControl => Some("NvAPI_GPU_ClientFanPoliciesSetControl"@),
        Api::NvAPI_GPU_ClientGetLastOcScannerResults => Some("NvAPI_GPU_ClientGetLastOcScannerResults"@),
        Api::NvAPI_GPU_ClientGetOcConfig => Some("NvAPI_GPU_ClientGetOcConfig"@),
        Api::NvAPI_GPU_ClientIllumDevicesGetInfo => Some("NvAPI_GPU_ClientIllumDevicesGetInfo"@),
        Api::NvAPI_GPU_ClientIllumDevicesGetControl => Some("NvAPI_GPU_ClientIllumDevicesGetControl"@),
        Api::NvAPI_GPU_ClientIllumDevicesSetControl => Some("NvAPI_GPU_ClientIllumDevicesSetControl"@),
        Api::NvAPI_GPU_ClientIllumZonesGetControl => Some("NvAPI_GPU_ClientIllumZonesGetControl"@),
        Api::NvAPI_GPU_ClientIllumZonesGetInfo => Some("NvAPI_GPU_ClientIllumZonesGetInfo"@),
        Api::NvAPI_GPU_ClientIllumZonesSetControl => Some("NvAPI_GPU_ClientIllumZonesSetControl"@),
        Api::NvAPI_GPU_ClientRegisterForOcConfigChangedUpdates => Some("NvAPI_GPU_ClientRegisterForOcConfigChangedUpdates"@),
        Api::NvAPI_GPU_ClientRegisterForOcScannerStatusUpdates => Some("NvAPI_GPU_ClientRegisterForOcScannerStatusUpdates"@),
        Api::NvAPI_GPU_ClientRevertOc => Some("NvAPI_GPU_ClientRevertOc"@),
        Api::NvAPI_GPU_ClientStartOcScanner => Some("NvAPI_GPU_ClientStartOcScanner"@),
        Api::NvAPI_GPU_ClientStopOcScanner => Some("NvAPI_GPU_ClientStopOcScanner"@),
        Api::NvAPI_GPU_GetUsages => Some("NvAPI_GPU_GetUsages"@),
        Api::NvAPI_GPU_GetRamMaker => Some("NvAPI_GPU_GetRamMaker"@),
        Api::NvAPI_D3D_GetObjectHandleForResource => Some("NvAPI_D3D_GetObjectHandleForResource"@),
        Api::NvAPI_D3D_SetResourceHint => Some("NvAPI_D3D_SetResourceHint"@),
        _ => None,
    }
}

/// The name of an API of the listing's part 13 (`None` for the others).
pub open spec fn api_name_part_13(a: Api) -> Option<Seq<char>> {
    match a {
        Api::NvAPI_D3D_BeginResourceRendering => Some("NvAPI_D3D_BeginResourceRendering"@),
        Api::NvAPI_D3D_EndResourceRendering => Some("NvAPI_D3D_EndResourceRendering"@),
        Api::NvAPI_D3D12_QueryPresentBarrierSupport => Some("NvAPI_D3D12_QueryPresentBarrierSupport"@),
        Api::NvAPI_D3D12_CreatePresentBarrierClient => Some("NvAPI_D3D12_CreatePresentBarrierClient"@),
        Api::NvAPI_D3D12_RegisterPresentBarrierResources => Some("NvAPI_D3D12_RegisterPresentBarrierResources"@),
        Api::NvAPI_DestroyPresentBarrierClient => Some("NvAPI_DestroyPresentBarrierClient"@),
        Api::NvAPI_JoinPresentBarrier => Some("NvAPI_JoinPresentBarrier"@),
        Api::NvAPI_LeavePresentBarrier => Some("NvAPI_LeavePresentBarrier"@),
        Api::NvAPI_QueryPresentBarrierFrameStatistics => Some("NvAPI_QueryPresentBarrierFrameStatistics"@),
        Api::NvAPI_D3D12_CreateDDisplayPresentBarrierClient => Some("NvAPI_D3D12_CreateDDisplayPresentBarrierClient"@),
        Api::NvAPI_D3D11_CreateRasterizerState => Some("NvAPI_D3D11_CreateRasterizerState"@),
        Api::NvAPI_D3D_ConfigureAnsel => Some("NvAPI_D3D_ConfigureAnsel"@),
        Api::NvAPI_D3D11_CreateTiledTexture2DArray => Some("NvAPI_D3D11_CreateTiledTexture2DArray"@),
        Api::NvAPI_D3D11_CheckFeatureSupport => Some("NvAPI_D3D11_CheckFeatureSupport"@),
        Api::NvAPI_D3D11_CreateImplicitMSAATexture2D => Some("NvAPI_D3D11_CreateImplicitMSAATexture2D"@),
        Api::NvAPI_D3D12_CreateCommittedImplicitMSAATexture2D => Some("NvAPI_D3D12_CreateCommittedImplicitMSAATexture2D"@),
        Api::NvAPI_D3D11_ResolveSubresourceRegion => Some("NvAPI_D3D11_ResolveSubresourceRegion"@),
        Api::NvAPI_D3D12_ResolveSubresourceRegion => Some("NvAPI_D3D12_ResolveSubresourceRegion"@),
        Api::NvAPI_D3D11_TiledTexture2DArrayGetDesc => Some("NvAPI_D3D11_TiledTexture2DArrayGetDesc"@),
        Api::NvAPI_D3D11_UpdateTileMappings => Some("NvAPI_D3D11_UpdateTileMappings"@),
        Api::NvAPI_D3D11_CopyTileMappings => Some("NvAPI_D3D11_CopyTileMappings"@),
        Api::NvAPI_D3D11_TiledResourceBarrier => Some("NvAPI_D3D11_TiledResourceBarrier"@),
        Api::NvAPI_D3D11_AliasMSAATexture2DAsNonMSAA => Some("NvAPI_D3D11_AliasMSAATexture2DAsNonMSAA"@),
        Api::NvAPI_D3D11_CreateGeometryShaderEx_2 => Some("NvAPI_D3D11_CreateGeometryShaderEx_2"@),
        Api::NvAPI_D3D11_CreateVertexShaderEx => Some("NvAPI_D3D11_CreateVertexShaderEx"@),
        Api::NvAPI_D3D11_CreateHullShaderEx => Some("NvAPI_D3D11_CreateHullShaderEx"@),
        Api::NvAPI_D3D11_CreateDomainShaderEx => Some("NvAPI_D3D11_CreateDomainShaderEx"@),
        Api::NvAPI_D3D11_CreatePixelShaderEx_2 => Some("NvAPI_D3D11_CreatePixelShaderEx_2"@),
        Api::NvAPI_D3D11_CreateFastGeometryShaderExplicit => Some("NvAPI_D3D11_CreateFastGeometryShaderExplicit"@),
        Api::NvAPI_D3D11_CreateFastGeometryShader => Some("NvAPI_D3D11_CreateFastGeometryShader"@),
        Api::NvAPI_D3D11_DecompressView => Some("NvAPI_D3D11_DecompressView"@),
        Api::NvAPI_D3D12_CreateGraphicsPipelineState => Some("NvAPI_D3D12_CreateGraphicsPipelineState"@),
        Api::NvAPI_D3D12_CreateComputePipelineState => Some("NvAPI_D3D12_CreateComputePipelineState"@),
        Api::NvAPI_D3D12_SetDepthBoundsTestValues => Some("NvAPI_D3D12_SetDepthBoundsTestValues"@),
        Api::NvAPI_D3D12_CreateReservedResource => Some("NvAPI_D3D12_CreateReservedResource"@),
        Api::NvAPI_D3D12_CreateHeap => Some("NvAPI_D3D12_CreateHeap"@),
        Api::NvAPI_D3D12_CreateHeap2 => Some("NvAPI_D3D12_CreateHeap2"@),
        Api::NvAPI_D3D12_QueryCpuVisibleVidmem => Some("NvAPI_D3D12_QueryCpuVisibleVidmem"@),
        Api::NvAPI_D3D12_ReservedResourceGetDesc => Some("NvAPI_D3D12_ReservedResourceGetDesc"@),
        Api::NvAPI_D3D12_UpdateTileMappings => Some("NvAPI_D3D12_UpdateTileMappings"@),
        Api::NvAPI_D3D12_CopyTileMappings => Some("NvAPI_D3D12_CopyTileMappings"@),
        Api::NvAPI_D3D12_ResourceAliasingBarrier => Some("NvAPI_D3D12_ResourceAliasingBarrier"@),
        Api::NvAPI_D3D12_CaptureUAVInfo => Some("NvAPI_D3D12_CaptureUAVInfo"@),
        Api::NvAPI_D3D11_GetResourceGPUVirtualAddressEx => Some("NvAPI_D3D11_GetResourceGPUVirtualAddressEx"@),
        Api::NvAPI_D3D11_EnumerateMetaCommands => Some("NvAPI_D3D11_EnumerateMetaCommands"@),
        Api::NvAPI_D3D11_CreateMetaCommand => Some("NvAPI_D3D11_CreateMetaCommand"@),
        Api::NvAPI_D3D11_InitializeMetaCommand => Some("NvAPI_D3D11_InitializeMetaCommand"@),
        Api::NvAPI_D3D11_ExecuteMetaCommand => Some("NvAPI_D3D11_ExecuteMetaCommand"@),
        Api::NvAPI_D3D12_EnumerateMetaCommands => Some("NvAPI_D3D12_EnumerateMetaCommands"@),
        Api::NvAPI_D3D12_CreateMetaCommand => Some("NvAPI_D3D12_CreateMetaCommand"@),
        _ => None,
    }
}

/// The name of an API of the listing's part 14 (`None` for the others).
pub open spec fn api_name_part_14(a: Api) -> Option<Seq<char>> {
    match a {
        Api::NvAPI_D3D12_InitializeMetaCommand => Some("NvAPI_D3D12_InitializeMetaCommand"@),
        Api::NvAPI_D3D12_ExecuteMetaCommand => Some("NvAPI_D3D12_ExecuteMetaCommand"@),
        Api::NvAPI_D3D12_CreateCommittedResource => Some("NvAPI_D3D12_CreateCommittedResource"@),
        Api::NvAPI_D3D12_GetCopyableFootprints => Some("NvAPI_D3D12_GetCopyableFootprints"@),
        Api::NvAPI_D3D12_CopyTextureRegion => Some("NvAPI_D3D12_CopyTextureRegion"@),
        Api::NvAPI_D3D12_IsNvShaderExtnOpCodeSupported => Some("NvAPI_D3D12_IsNvShaderExtnOpCodeSupported"@),
        Api::NvAPI_D3D12_GetOptimalThreadCountForMesh => Some("NvAPI_D3D12_GetOptimalThreadCountForMesh"@),
        Api::NvAPI_D3D_IsGSyncCapable => Some("NvAPI_D3D_IsGSyncCapable"@),
        Api::NvAPI_D3D_IsGSyncActive => Some("NvAPI_D3D_IsGSyncActive"@),
        Api::NvAPI_D3D1x_DisableShaderDiskCache => Some("NvAPI_D3D1x_DisableShaderDiskCache"@),
        Api::NvAPI_D3D11_MultiGPU_GetCaps => Some("NvAPI_D3D11_MultiGPU_GetCaps"@),
        Api::NvAPI_D3D11_MultiGPU_Init => Some("NvAPI_D3D11_MultiGPU_Init"@),
        Api::NvAPI_D3D11_CreateMultiGPUDevice => Some("NvAPI_D3D11_CreateMultiGPUDevice"@),
        Api::NvAPI_D3D_QuerySinglePassStereoSupport => Some("NvAPI_D3D_QuerySinglePassStereoSupport"@),
        Api::NvAPI_D3D_SetSinglePassStereoMode => Some("NvAPI_D3D_SetSinglePassStereoMode"@),
        Api::NvAPI_D3D12_QuerySinglePassStereoSupport => Some("NvAPI_D3D12_QuerySinglePassStereoSupport"@),
        Api::NvAPI_D3D12_SetSinglePassStereoMode => Some("NvAPI_D3D12_SetSinglePassStereoMode"@),
        Api::NvAPI_D3D_QueryMultiViewSupport => Some("NvAPI_D3D_QueryMultiViewSupport"@),
        Api::NvAPI_D3D_SetMultiViewMode => Some("NvAPI_D3D_SetMultiViewMode"@),
        Api::NvAPI_D3D_QueryModifiedWSupport => Some("NvAPI_D3D_QueryModifiedWSupport"@),
        Api::NvAPI_D3D_SetModifiedWMode => Some("NvAPI_D3D_SetModifiedWMode"@),
        Api::NvAPI_D3D12_QueryModifiedWSupport => Some("NvAPI_D3D12_QueryModifiedWSupport"@),
        Api::NvAPI_D3D12_SetModifiedWMode => Some("NvAPI_D3D12_SetModifiedWMode"@),
        Api::NvAPI_D3D_CreateLateLatchObject => Some("NvAPI_D3D_CreateLateLatchObject"@),
        Api::NvAPI_D3D_QueryLateLatchSupport => Some("NvAPI_D3D_QueryLateLatchSupport"@),
        Api::NvAPI_D3D_RegisterDevice => Some("NvAPI_D3D_RegisterDevice"@),
        Api::NvAPI_D3D11_MultiDrawInstancedIndirect => Some("NvAPI_D3D11_MultiDrawInstancedIndirect"@),
        Api::NvAPI_D3D11_MultiDrawIndexedInstancedIndirect => Some("NvAPI_D3D11_MultiDrawIndexedInstancedIndirect"@),
        Api::NvAPI_D3D_ImplicitSLIControl => Some("NvAPI_D3D_ImplicitSLIControl"@),
        Api::NvAPI_D3D12_UseDriverHeapPriorities => Some("NvAPI_D3D12_UseDriverHeapPriorities"@),
        Api::NvAPI_D3D12_Mosaic_GetCompanionAllocations => Some("NvAPI_D3D12_Mosaic_GetCompanionAllocations"@),
        Api::NvAPI_D3D12_Mosaic_GetViewportAndGpuPartitions => Some("NvAPI_D3D12_Mosaic_GetViewportAndGpuPartitions"@),
        Api::NvAPI_D3D1x_GetGraphicsCapabilities => Some("NvAPI_D3D1x_GetGraphicsCapabilities"@),
        Api::NvAPI_D3D12_GetGraphicsCapabilities => Some("NvAPI_D3D12_GetGraphicsCapabilities"@),
        Api::NvAPI_D3D11_RSSetExclusiveScissorRects => Some("NvAPI_D3D11_RSSetExclusiveScissorRects"@),
        Api::NvAPI_D3D11_RSSetViewportsPixelShadingRates => Some("NvAPI_D3D11_RSSetViewportsPixelShadingRates"@),
        Api::NvAPI_D3D11_CreateShadingRateResourceView => Some("NvAPI_D3D11_CreateShadingRateResourceView"@),
        Api::NvAPI_D3D11_RSSetShadingRateResourceView => Some("NvAPI_D3D11_RSSetShadingRateResourceView"@),
        Api::NvAPI_D3D11_RSGetPixelShadingRateSampleOrder => Some("NvAPI_D3D11_RSGetPixelShadingRateSampleOrder"@),
        Api::NvAPI_D3D11_RSSetPixelShadingRateSampleOrder => Some("NvAPI_D3D11_RSSetPixelShadingRateSampleOrder"@),
        Api::NvAPI_D3D_InitializeVRSHelper => Some("NvAPI_D3D_InitializeVRSHelper"@),
        Api::NvAPI_D3D_InitializeNvGazeHandler => Some("NvAPI_D3D_InitializeNvGazeHandler"@),
        Api::NvAPI_D3D_InitializeSMPAssist => Some("NvAPI_D3D_InitializeSMPAssist"@),
        Api::NvAPI_D3D_QuerySMPAssistSupport => Some("NvAPI_D3D_QuerySMPAssistSupport"@),
        Api::NvAPI_D3D_GetSleepStatus => Some("NvAPI_D3D_GetSleepStatus"@),
        Api::NvAPI_D3D_SetSleepMode => Some("NvAPI_D3D_SetSleepMode"@),
        Api::NvAPI_D3D_Sleep => Some("NvAPI_D3D_Sleep"@),
        Api::NvAPI_D3D_GetLatency => Some("NvAPI_D3D_GetLatency"@),
        Api::NvAPI_D3D_SetLatencyMarker => Some("NvAPI_D3D_SetLatencyMarker"@),
        Api::NvAPI_D3D12_SetAsyncFrameMarker => Some("NvAPI_D3D12_SetAsyncFrameMarker"@),
        _ => None,
    }
}

/// The name of an API of the listing's part 15 (`None` for the others).
pub open spec fn api_name_part_15(a: Api) -> Option<Seq<char>> {
    match a {
        Api::NvAPI_D3D12_NotifyOutOfBandCommandQueue => Some("NvAPI_D3D12_NotifyOutOfBandCommandQueue"@),
        Api::NvAPI_D3D12_CreateCubinComputeShader => Some("NvAPI_D3D12_CreateCubinComputeShader"@),
        Api::NvAPI_D3D12_CreateCubinComputeShaderEx => Some("NvAPI_D3D12_CreateCubinComputeShaderEx"@),
        Api::NvAPI_D3D12_CreateCubinComputeShaderWithName => Some("NvAPI_D3D12_CreateCubinComputeShaderWithName"@),
        Api::NvAPI_D3D12_LaunchCubinShader => Some("NvAPI_D3D12_LaunchCubinShader"@),
        Api::NvAPI_D3D12_DestroyCubinComputeShader => Some("NvAPI_D3D12_DestroyCubinComputeShader"@),
        Api::NvAPI_D3D12_GetCudaTextureObject => Some("NvAPI_D3D12_GetCudaTextureObject"@),
        Api::NvAPI_D3D12_GetCudaSurfaceObject => Some("NvAPI_D3D12_GetCudaSurfaceObject"@),
        Api::NvAPI_D3D12_IsFatbinPTXSupported => Some("NvAPI_D3D12_IsFatbinPTXSupported"@),
        Api::NvAPI_D3D12_CreateCuModule => Some("NvAPI_D3D12_CreateCuModule"@),
        Api::NvAPI_D3D12_EnumFunctionsInModule => Some("NvAPI_D3D12_EnumFunctionsInModule"@),
        Api::NvAPI_D3D12_CreateCuFunction => Some("NvAPI_D3D12_CreateCuFunction"@),
        Api::NvAPI_D3D12_LaunchCuKernelChain => Some("NvAPI_D3D12_LaunchCuKernelChain"@),
        Api::NvAPI_D3D12_DestroyCuModule => Some("NvAPI_D3D12_DestroyCuModule"@),
        Api::NvAPI_D3D12_DestroyCuFunction => Some("NvAPI_D3D12_DestroyCuFunction"@),
        Api::NvAPI_D3D11_CreateCubinComputeShader => Some("NvAPI_D3D11_CreateCubinComputeShader"@),
        Api::NvAPI_D3D11_CreateCubinComputeShaderEx => Some("NvAPI_D3D11_CreateCubinComputeShaderEx"@),
        Api::NvAPI_D3D11_CreateCubinComputeShaderWithName => Some("NvAPI_D3D11_CreateCubinComputeShaderWithName"@),
        Api::NvAPI_D3D11_LaunchCubinShader => Some("NvAPI_D3D11_LaunchCubinShader"@),
        Api::NvAPI_D3D11_DestroyCubinComputeShader => Some("NvAPI_D3D11_DestroyCubinComputeShader"@),
        Api::NvAPI_D3D11_IsFatbinPTXSupported => Some("NvAPI_D3D11_IsFatbinPTXSupported"@),
        Api::NvAPI_D3D11_CreateUnorderedAccessView => Some("NvAPI_D3D11_CreateUnorderedAccessView"@),
        Api::NvAPI_D3D11_CreateShaderResourceView => Some("NvAPI_D3D11_CreateShaderResourceView"@),
        Api::NvAPI_D3D11_CreateSamplerState => Some("NvAPI_D3D11_CreateSamplerState"@),
        Api::NvAPI_D3D11_GetCudaTextureObject => Some("NvAPI_D3D11_GetCudaTextureObject"@),
        Api::NvAPI_D3D11_GetResourceGPUVirtualAddress => Some("NvAPI_D3D11_GetResourceGPUVirtualAddress"@),
        Api::NvAPI_D3D12_GetRaytracingCaps => Some("NvAPI_D3D12_GetRaytracingCaps"@),
        Api::NvAPI_D3D12_GetRaytracingOpacityMicromapArrayPrebuildInfo => Some("NvAPI_D3D12_GetRaytracingOpacityMicromapArrayPrebuildInfo"@),
        Api::NvAPI_D3D12_SetCreatePipelineStateOptions => Some("NvAPI_D3D12_SetCreatePipelineStateOptions"@),
        Api::NvAPI_D3D12_CheckDriverMatchingIdentifierEx => Some("NvAPI_D3D12_CheckDriverMatchingIdentifierEx"@),
        Api::NvAPI_D3D12_GetRaytracingAccelerationStructurePrebuildInfoEx => Some("NvAPI_D3D12_GetRaytracingAccelerationStructurePrebuildInfoEx"@),
        Api::NvAPI_D3D12_BuildRaytracingOpacityMicromapArray => Some("NvAPI_D3D12_BuildRaytracingOpacityMicromapArray"@),
        Api::NvAPI_D3D12_RelocateRaytracingOpacityMicromapArray => Some("NvAPI_D3D12_RelocateRaytracingOpacityMicromapArray"@),
        Api::NvAPI_D3D12_EmitRaytracingOpacityMicromapArrayPostbuildInfo => Some("NvAPI_D3D12_EmitRaytracingOpacityMicromapArrayPostbuildInfo"@),
        Api::NvAPI_D3D12_BuildRaytracingAccelerationStructureEx => Some("NvAPI_D3D12_BuildRaytracingAccelerationStructureEx"@),
        Api::Unknown_1629A173 => Some("Unknown_1629A173"@),
        Api::Unknown_F1D2777B => Some("Unknown_F1D2777B"@),
        Api::Unknown_8EFC0978 => Some("Unknown_8EFC0978"@),
        Api::Unknown_B7BCF50D => Some("Unknown_B7BCF50D"@),
        Api::Unknown_36E39E6B => Some("Unknown_36E39E6B"@),
        Api::Unknown_GetROPCount => Some("Unknown_GetROPCount"@),
        _ => None,
    }
}

/// The name of each API, as its interface is called.
pub open spec fn api_name(a: Api) -> Seq<char> {
    match a {
        Api::NvAPI_Initialize
        | Api::NvAPI_Unload
        | Api::NvAPI_GetErrorMessage
        | Api::NvAPI_GetInterfaceVersionString
        | Api::NvAPI_GetDisplayDriverVersion
        | Api::NvAPI_SYS_GetDriverAndBranchVersion
        | Api::NvAPI_EnumNvidiaDisplayHandle
        | Api::NvAPI_EnumNvidiaUnAttachedDisplayHandle
        | Api::NvAPI_EnumPhysicalGPUs
        | Api::NvAPI_EnumTCCPhysicalGPUs
        | Api::NvAPI_EnumLogicalGPUs
        | Api::NvAPI_GetPhysicalGPUsFromDisplay
        | Api::NvAPI_GetPhysicalGPUFromUnAttachedDisplay
        | Api::NvAPI_CreateDisplayFromUnAttachedDisplay
        | Api::NvAPI_GetLogicalGPUFromDisplay
        | Api::NvAPI_GetLogicalGPUFromPhysicalGPU
        | Api::NvAPI_GetPhysicalGPUsFromLogicalGPU
        | Api::NvAPI_GetAssociatedNvidiaDisplayHandle
        | Api::NvAPI_DISP_GetAssociatedUnAttachedNvidiaDisplayHandle
        | Api::NvAPI_GetAssociatedNvidiaDisplayName
        | Api::NvAPI_GetUnAttachedAssociatedDisplayName
        | Api::NvAPI_EnableHWCursor
        | Api::NvAPI_DisableHWCursor
        | Api::NvAPI_GetVBlankCounter
        | Api::NvAPI_SetRefreshRateOverride
        | Api::NvAPI_GetAssociatedDisplayOutputId
        | Api::NvAPI_GetDisplayPortInfo
        | Api::NvAPI_SetDisplayPort
        | Api::NvAPI_GetHDMISupportInfo
        | Api::NvAPI_DISP_EnumHDMIStereoModes
        | Api::NvAPI_GetInfoFrame
        | Api::NvAPI_SetInfoFrame
        | Api::NvAPI_SetInfoFrameState
        | Api::NvAPI_GetInfoFrameState
        | Api::NvAPI_Disp_InfoFrameControl
        | Api::NvAPI_Disp_ColorControl
        | Api::NvAPI_Disp_GetHdrCapabilities
        | Api::NvAPI_Disp_HdrColorControl
        | Api::NvAPI_DISP_GetVirtualModeData
        | Api::NvAPI_DISP_OverrideDisplayModeList
        | Api::NvAPI_GetDisplayDriverMemoryInfo
        | Api::NvAPI_GetDriverMemoryInfo
        | Api::NvAPI_GetDVCInfo
        | Api::NvAPI_SetDVCLevel
        | Api::NvAPI_GetDVCInfoEx
        | Api::NvAPI_SetDVCLevelEx
        | Api::NvAPI_GetHUEInfo
        | Api::NvAPI_SetHUEAngle
        | Api::NvAPI_GetImageSharpeningInfo
        | Api::NvAPI_SetImageSharpeningLevel => api_name_part_0(a).unwrap(),
        Api::NvAPI_D3D_GetCurrentSLIState
        | Api::NvAPI_D3D9_RegisterResource
        | Api::NvAPI_D3D9_UnregisterResource
        | Api::NvAPI_D3D9_AliasSurfaceAsTexture
        | Api::NvAPI_D3D9_StretchRectEx
        | Api::NvAPI_D3D9_ClearRT
        | Api::NvAPI_D3D_CreateQuery
        | Api::NvAPI_D3D_DestroyQuery
        | Api::NvAPI_D3D_Query_Begin
        | Api::NvAPI_D3D_Query_End
        | Api::NvAPI_D3D_Query_GetData
        | Api::NvAPI_D3D_Query_GetDataSize
        | Api::NvAPI_D3D_Query_GetType
        | Api::NvAPI_D3D_RegisterApp
        | Api::NvAPI_D3D9_CreatePathContextNV
        | Api::NvAPI_D3D9_DestroyPathContextNV
        | Api::NvAPI_D3D9_CreatePathNV
        | Api::NvAPI_D3D9_DeletePathNV
        | Api::NvAPI_D3D9_PathVerticesNV
        | Api::NvAPI_D3D9_PathParameterfNV
        | Api::NvAPI_D3D9_PathParameteriNV
        | Api::NvAPI_D3D9_PathMatrixNV
        | Api::NvAPI_D3D9_PathDepthNV
        | Api::NvAPI_D3D9_PathClearDepthNV
        | Api::NvAPI_D3D9_PathEnableDepthTestNV
        | Api::NvAPI_D3D9_PathEnableColorWriteNV
        | Api::NvAPI_D3D9_DrawPathNV
        | Api::NvAPI_D3D9_GetSurfaceHandle
        | Api::NvAPI_D3D9_GetOverlaySurfaceHandles
        | Api::NvAPI_D3D9_GetTextureHandle
        | Api::NvAPI_D3D9_GpuSyncGetHandleSize
        | Api::NvAPI_D3D9_GpuSyncInit
        | Api::NvAPI_D3D9_GpuSyncEnd
        | Api::NvAPI_D3D9_GpuSyncMapTexBuffer
        | Api::NvAPI_D3D9_GpuSyncMapSurfaceBuffer
        | Api::NvAPI_D3D9_GpuSyncMapVertexBuffer
        | Api::NvAPI_D3D9_GpuSyncMapIndexBuffer
        | Api::NvAPI_D3D9_SetPitchSurfaceCreation
        | Api::NvAPI_D3D9_GpuSyncAcquire
        | Api::NvAPI_D3D9_GpuSyncRelease
        | Api::NvAPI_D3D9_GetCurrentRenderTargetHandle
        | Api::NvAPI_D3D9_GetCurrentZBufferHandle
        | Api::NvAPI_D3D9_GetIndexBufferHandle
        | Api::NvAPI_D3D9_GetVertexBufferHandle
        | Api::NvAPI_D3D9_CreateTexture
        | Api::NvAPI_D3D9_AliasPrimaryAsTexture
        | Api::NvAPI_D3D9_PresentSurfaceToDesktop
        | Api::NvAPI_D3D9_CreateVideoBegin
        | Api::NvAPI_D3D9_CreateVideoEnd
        | Api::NvAPI_D3D9_CreateVideo => api_name_part_1(a).unwrap(),
        Api::NvAPI_D3D9_FreeVideo
        | Api::NvAPI_D3D9_PresentVideo
        | Api::NvAPI_D3D9_VideoSetStereoInfo
        | Api::NvAPI_D3D9_SetGamutData
        | Api::NvAPI_D3D9_SetSurfaceCreationLayout
        | Api::NvAPI_D3D9_GetVideoCapabilities
        | Api::NvAPI_D3D9_QueryVideoInfo
        | Api::NvAPI_D3D9_AliasPrimaryFromDevice
        | Api::NvAPI_D3D9_SetResourceHint
        | Api::NvAPI_D3D9_Lock
        | Api::NvAPI_D3D9_Unlock
        | Api::NvAPI_D3D9_GetVideoState
        | Api::NvAPI_D3D9_SetVideoState
        | Api::NvAPI_D3D9_EnumVideoFeatures
        | Api::NvAPI_D3D9_GetSLIInfo
        | Api::NvAPI_D3D9_SetSLIMode
        | Api::NvAPI_D3D9_QueryAAOverrideMode
        | Api::NvAPI_D3D9_VideoSurfaceEncryptionControl
        | Api::NvAPI_D3D9_DMA
        | Api::NvAPI_D3D9_EnableStereo
        | Api::NvAPI_D3D9_StretchRect
        | Api::NvAPI_D3D9_CreateRenderTarget
        | Api::NvAPI_D3D9_NVFBC_GetStatus
        | Api::NvAPI_D3D9_IFR_SetUpTargetBufferToSys
        | Api::NvAPI_D3D9_GPUBasedCPUSleep
        | Api::NvAPI_D3D9_IFR_TransferRenderTarget
        | Api::NvAPI_D3D9_IFR_SetUpTargetBufferToNV12BLVideoSurface
        | Api::NvAPI_D3D9_IFR_TransferRenderTargetToNV12BLVideoSurface
        | Api::NvAPI_D3D10_AliasPrimaryAsTexture
        | Api::NvAPI_D3D10_SetPrimaryFlipChainCallbacks
        | Api::NvAPI_D3D10_ProcessCallbacks
        | Api::NvAPI_D3D10_GetRenderedCursorAsBitmap
        | Api::NvAPI_D3D10_BeginShareResource
        | Api::NvAPI_D3D10_BeginShareResourceEx
        | Api::NvAPI_D3D10_EndShareResource
        | Api::NvAPI_D3D10_SetDepthBoundsTest
        | Api::NvAPI_D3D10_CreateDevice
        | Api::NvAPI_D3D10_CreateDeviceAndSwapChain
        | Api::NvAPI_D3D11_CreateDevice
        | Api::NvAPI_D3D11_CreateDeviceAndSwapChain
        | Api::NvAPI_D3D11_BeginShareResource
        | Api::NvAPI_D3D11_EndShareResource
        | Api::NvAPI_D3D11_SetDepthBoundsTest
        | Api::NvAPI_D3D11_IsNvShaderExtnOpCodeSupported
        | Api::NvAPI_D3D11_SetNvShaderExtnSlot
        | Api::NvAPI_D3D12_SetNvShaderExtnSlotSpace
        | Api::NvAPI_D3D12_SetNvShaderExtnSlotSpaceLocalThread
        | Api::NvAPI_D3D11_SetNvShaderExtnSlotLocalThread
        | Api::NvAPI_D3D11_BeginUAVOverlapEx
        | Api::NvAPI_D3D11_BeginUAVOverlap => api_name_part_2(a).unwrap(),
        Api::NvAPI_D3D11_EndUAVOverlap
        | Api::NvAPI_D3D11_GetResourceHandle
        | Api::NvAPI_GPU_GetShaderPipeCount
        | Api::NvAPI_GPU_GetShaderSubPipeCount
        | Api::NvAPI_GPU_GetPartitionCount
        | Api::NvAPI_GPU_GetMemPartitionMask
        | Api::NvAPI_GPU_GetTPCMask
        | Api::NvAPI_GPU_GetSMMask
        | Api::NvAPI_GPU_GetTotalTPCCount
        | Api::NvAPI_GPU_GetTotalSMCount
        | Api::NvAPI_GPU_GetTotalSPCount
        | Api::NvAPI_GPU_GetGpuCoreCount
        | Api::NvAPI_GPU_GetAllOutputs
        | Api::NvAPI_GPU_GetConnectedOutputs
        | Api::NvAPI_GPU_GetConnectedSLIOutputs
        | Api::NvAPI_GPU_GetConnectedDisplayIds
        | Api::NvAPI_GPU_GetAllDisplayIds
        | Api::NvAPI_GPU_GetConnectedOutputsWithLidState
        | Api::NvAPI_GPU_GetConnectedSLIOutputsWithLidState
        | Api::NvAPI_GPU_GetSystemType
        | Api::NvAPI_GPU_GetActiveOutputs
        | Api::NvAPI_GPU_GetEDID
        | Api::NvAPI_GPU_SetEDID
        | Api::NvAPI_GPU_GetOutputType
        | Api::NvAPI_GPU_GetDeviceDisplayMode
        | Api::NvAPI_GPU_GetFlatPanelInfo
        | Api::NvAPI_GPU_ValidateOutputCombination
        | Api::NvAPI_GPU_GetConnectorInfo
        | Api::NvAPI_GPU_GetFullName
        | Api::NvAPI_GPU_GetPCIIdentifiers
        | Api::NvAPI_GPU_GetGPUType
        | Api::NvAPI_GPU_GetBusType
        | Api::NvAPI_GPU_GetBusId
        | Api::NvAPI_GPU_GetBusSlotId
        | Api::NvAPI_GPU_GetIRQ
        | Api::NvAPI_GPU_GetVbiosRevision
        | Api::NvAPI_GPU_GetVbiosOEMRevision
        | Api::NvAPI_GPU_GetVbiosVersionString
        | Api::NvAPI_GPU_GetAGPAperture
        | Api::NvAPI_GPU_GetCurrentAGPRate
        | Api::NvAPI_GPU_GetCurrentPCIEDownstreamWidth
        | Api::NvAPI_GPU_GetPhysicalFrameBufferSize
        | Api::NvAPI_GPU_GetVirtualFrameBufferSize
        | Api::NvAPI_GPU_GetQuadroStatus
        | Api::NvAPI_GPU_GetBoardInfo
        | Api::NvAPI_GPU_GetRamType
        | Api::NvAPI_GPU_GetFBWidthAndLocation
        | Api::NvAPI_GPU_GetAllClockFrequencies
        | Api::NvAPI_GPU_GetPerfClocks
        | Api::NvAPI_GPU_SetPerfClocks => api_name_part_3(a).unwrap(),
        Api::NvAPI_GPU_GetCoolerSettings
        | Api::NvAPI_GPU_SetCoolerLevels
        | Api::NvAPI_GPU_RestoreCoolerSettings
        | Api::NvAPI_GPU_GetCoolerPolicyTable
        | Api::NvAPI_GPU_SetCoolerPolicyTable
        | Api::NvAPI_GPU_RestoreCoolerPolicyTable
        | Api::NvAPI_GPU_GetPstatesInfo
        | Api::NvAPI_GPU_GetPstatesInfoEx
        | Api::NvAPI_GPU_SetPstatesInfo
        | Api::NvAPI_GPU_GetPstates20
        | Api::NvAPI_GPU_SetPstates20
        | Api::NvAPI_GPU_GetCurrentPstate
        | Api::NvAPI_GPU_GetPstateClientLimits
        | Api::NvAPI_GPU_SetPstateClientLimits
        | Api::NvAPI_GPU_EnableOverclockedPstates
        | Api::NvAPI_GPU_EnableDynamicPstates
        | Api::NvAPI_GPU_GetDynamicPstatesInfoEx
        | Api::NvAPI_GPU_GetVoltages
        | Api::NvAPI_GPU_GetThermalSettings
        | Api::NvAPI_GPU_SetDitherControl
        | Api::NvAPI_GPU_GetDitherControl
        | Api::NvAPI_GPU_GetColorSpaceConversion
        | Api::NvAPI_GPU_SetColorSpaceConversion
        | Api::NvAPI_GetTVOutputInfo
        | Api::NvAPI_GetTVEncoderControls
        | Api::NvAPI_SetTVEncoderControls
        | Api::NvAPI_GetTVOutputBorderColor
        | Api::NvAPI_SetTVOutputBorderColor
        | Api::NvAPI_GetDisplayPosition
        | Api::NvAPI_SetDisplayPosition
        | Api::NvAPI_GetValidGpuTopologies
        | Api::NvAPI_GetInvalidGpuTopologies
        | Api::NvAPI_SetGpuTopologies
        | Api::NvAPI_GPU_GetPerGpuTopologyStatus
        | Api::NvAPI_SYS_GetChipSetTopologyStatus
        | Api::NvAPI_GPU_Get_DisplayPort_DongleInfo
        | Api::NvAPI_I2CRead
        | Api::NvAPI_I2CWrite
        | Api::NvAPI_I2CWriteEx
        | Api::NvAPI_I2CReadEx
        | Api::NvAPI_GPU_GetPowerMizerInfo
        | Api::NvAPI_GPU_SetPowerMizerInfo
        | Api::NvAPI_GPU_GetVoltageDomainsStatus
        | Api::NvAPI_GPU_ClientPowerTopologyGetInfo
        | Api::NvAPI_GPU_ClientPowerTopologyGetStatus
        | Api::NvAPI_GPU_ClientPowerPoliciesGetInfo
        | Api::NvAPI_GPU_ClientPowerPoliciesGetStatus
        | Api::NvAPI_GPU_ClientPowerPoliciesSetStatus
        | Api::NvAPI_GPU_WorkstationFeatureSetup
        | Api::NvAPI_GPU_WorkstationFeatureQuery => api_name_part_4(a).unwrap(),
        Api::NvAPI_GPU_QueryWorkstationFeatureSupport
        | Api::NvAPI_SYS_GetChipSetInfo
        | Api::NvAPI_SYS_GetLidAndDockInfo
        | Api::NvAPI_OGL_ExpertModeSet
        | Api::NvAPI_OGL_ExpertModeGet
        | Api::NvAPI_OGL_ExpertModeDefaultsSet
        | Api::NvAPI_OGL_ExpertModeDefaultsGet
        | Api::NvAPI_SetDisplaySettings
        | Api::NvAPI_GetDisplaySettings
        | Api::NvAPI_GetTiming
        | Api::NvAPI_DISP_GetTiming
        | Api::NvAPI_DISP_GetMonitorCapabilities
        | Api::NvAPI_DISP_GetMonitorColorCapabilities
        | Api::NvAPI_DISP_EnumCustomDisplay
        | Api::NvAPI_DISP_TryCustomDisplay
        | Api::NvAPI_DISP_DeleteCustomDisplay
        | Api::NvAPI_DISP_SaveCustomDisplay
        | Api::NvAPI_DISP_RevertCustomDisplayTrial
        | Api::NvAPI_EnumCustomDisplay
        | Api::NvAPI_TryCustomDisplay
        | Api::NvAPI_RevertCustomDisplayTrial
        | Api::NvAPI_DeleteCustomDisplay
        | Api::NvAPI_SaveCustomDisplay
        | Api::NvAPI_QueryUnderscanCap
        | Api::NvAPI_EnumUnderscanConfig
        | Api::NvAPI_DeleteUnderscanConfig
        | Api::NvAPI_SetUnderscanConfig
        | Api::NvAPI_GetDisplayFeatureConfig
        | Api::NvAPI_SetDisplayFeatureConfig
        | Api::NvAPI_GetDisplayFeatureConfigDefaults
        | Api::NvAPI_SetView
        | Api::NvAPI_GetView
        | Api::NvAPI_SetViewEx
        | Api::NvAPI_GetViewEx
        | Api::NvAPI_GetSupportedViews
        | Api::NvAPI_GetHDCPLinkParameters
        | Api::NvAPI_Disp_DpAuxChannelControl
        | Api::NvAPI_SetHybridMode
        | Api::NvAPI_GetHybridMode
        | Api::NvAPI_Coproc_GetCoprocStatus
        | Api::NvAPI_Coproc_SetCoprocInfoFlagsEx
        | Api::NvAPI_Coproc_GetCoprocInfoFlagsEx
        | Api::NvAPI_Coproc_NotifyCoprocPowerState
        | Api::NvAPI_Coproc_GetApplicationCoprocInfo
        | Api::NvAPI_GetVideoState
        | Api::NvAPI_SetVideoState
        | Api::NvAPI_SetFrameRateNotify
        | Api::NvAPI_SetPVExtName
        | Api::NvAPI_GetPVExtName
        | Api::NvAPI_SetPVExtProfile => api_name_part_5(a).unwrap(),
        Api::NvAPI_GetPVExtProfile
        | Api::NvAPI_VideoSetStereoInfo
        | Api::NvAPI_VideoGetStereoInfo
        | Api::NvAPI_Mosaic_GetSupportedTopoInfo
        | Api::NvAPI_Mosaic_GetTopoGroup
        | Api::NvAPI_Mosaic_GetOverlapLimits
        | Api::NvAPI_Mosaic_SetCurrentTopo
        | Api::NvAPI_Mosaic_GetCurrentTopo
        | Api::NvAPI_Mosaic_EnableCurrentTopo
        | Api::NvAPI_Mosaic_SetGridTopology
        | Api::NvAPI_Mosaic_GetMosaicCapabilities
        | Api::NvAPI_Mosaic_GetDisplayCapabilities
        | Api::NvAPI_Mosaic_EnumGridTopologies
        | Api::NvAPI_Mosaic_GetDisplayViewportsByResolution
        | Api::NvAPI_Mosaic_GetMosaicViewports
        | Api::NvAPI_Mosaic_SetDisplayGrids
        | Api::NvAPI_Mosaic_ValidateDisplayGridsWithSLI
        | Api::NvAPI_Mosaic_ValidateDisplayGrids
        | Api::NvAPI_Mosaic_EnumDisplayModes
        | Api::NvAPI_Mosaic_ChooseGpuTopologies
        | Api::NvAPI_Mosaic_EnumDisplayGrids
        | Api::NvAPI_GetSupportedMosaicTopologies
        | Api::NvAPI_GetCurrentMosaicTopology
        | Api::NvAPI_SetCurrentMosaicTopology
        | Api::NvAPI_EnableCurrentMosaicTopology
        | Api::NvAPI_GSync_EnumSyncDevices
        | Api::NvAPI_GSync_QueryCapabilities
        | Api::NvAPI_GSync_GetTopology
        | Api::NvAPI_GSync_SetSyncStateSettings
        | Api::NvAPI_GSync_GetControlParameters
        | Api::NvAPI_GSync_SetControlParameters
        | Api::NvAPI_GSync_AdjustSyncDelay
        | Api::NvAPI_GSync_GetSyncStatus
        | Api::NvAPI_GSync_GetStatusParameters
        | Api::NvAPI_QueryNonMigratableApps
        | Api::NvAPI_GPU_QueryActiveApps
        | Api::NvAPI_Hybrid_QueryUnblockedNonMigratableApps
        | Api::NvAPI_Hybrid_QueryBlockedMigratableApps
        | Api::NvAPI_Hybrid_SetAppMigrationState
        | Api::NvAPI_Hybrid_IsAppMigrationStateChangeable
        | Api::NvAPI_GPU_GPIOQueryLegalPins
        | Api::NvAPI_GPU_GPIOReadFromPin
        | Api::NvAPI_GPU_GPIOWriteToPin
        | Api::NvAPI_GPU_GetHDCPSupportStatus
        | Api::NvAPI_SetTopologyFocusDisplayAndView
        | Api::NvAPI_Stereo_CreateConfigurationProfileRegistryKey
        | Api::NvAPI_Stereo_DeleteConfigurationProfileRegistryKey
        | Api::NvAPI_Stereo_SetConfigurationProfileValue
        | Api::NvAPI_Stereo_DeleteConfigurationProfileValue
        | Api::NvAPI_Stereo_Enable => api_name_part_6(a).unwrap(),
        Api::NvAPI_Stereo_Disable
        | Api::NvAPI_Stereo_IsEnabled
        | Api::NvAPI_Stereo_GetStereoCaps
        | Api::NvAPI_Stereo_GetStereoSupport
        | Api::NvAPI_Stereo_CreateHandleFromIUnknown
        | Api::NvAPI_Stereo_DestroyHandle
        | Api::NvAPI_Stereo_Activate
        | Api::NvAPI_Stereo_Deactivate
        | Api::NvAPI_Stereo_IsActivated
        | Api::NvAPI_Stereo_GetSeparation
        | Api::NvAPI_Stereo_SetSeparation
        | Api::NvAPI_Stereo_DecreaseSeparation
        | Api::NvAPI_Stereo_IncreaseSeparation
        | Api::NvAPI_Stereo_GetConvergence
        | Api::NvAPI_Stereo_SetConvergence
        | Api::NvAPI_Stereo_DecreaseConvergence
        | Api::NvAPI_Stereo_IncreaseConvergence
        | Api::NvAPI_Stereo_GetFrustumAdjustMode
        | Api::NvAPI_Stereo_SetFrustumAdjustMode
        | Api::NvAPI_Stereo_CaptureJpegImage
        | Api::NvAPI_Stereo_InitActivation
        | Api::NvAPI_Stereo_Trigger_Activation
        | Api::NvAPI_Stereo_CapturePngImage
        | Api::NvAPI_Stereo_ReverseStereoBlitControl
        | Api::NvAPI_Stereo_SetNotificationMessage
        | Api::NvAPI_Stereo_SetActiveEye
        | Api::NvAPI_Stereo_SetDriverMode
        | Api::NvAPI_Stereo_GetEyeSeparation
        | Api::NvAPI_Stereo_IsWindowedModeSupported
        | Api::NvAPI_Stereo_AppHandShake
        | Api::NvAPI_Stereo_HandShake_Trigger_Activation
        | Api::NvAPI_Stereo_HandShake_Message_Control
        | Api::NvAPI_Stereo_SetSurfaceCreationMode
        | Api::NvAPI_Stereo_GetSurfaceCreationMode
        | Api::NvAPI_Stereo_Debug_WasLastDrawStereoized
        | Api::NvAPI_Stereo_ForceToScreenDepth
        | Api::NvAPI_Stereo_SetVertexShaderConstantF
        | Api::NvAPI_Stereo_SetVertexShaderConstantB
        | Api::NvAPI_Stereo_SetVertexShaderConstantI
        | Api::NvAPI_Stereo_GetVertexShaderConstantF
        | Api::NvAPI_Stereo_GetVertexShaderConstantB
        | Api::NvAPI_Stereo_GetVertexShaderConstantI
        | Api::NvAPI_Stereo_SetPixelShaderConstantF
        | Api::NvAPI_Stereo_SetPixelShaderConstantB
        | Api::NvAPI_Stereo_SetPixelShaderConstantI
        | Api::NvAPI_Stereo_GetPixelShaderConstantF
        | Api::NvAPI_Stereo_GetPixelShaderConstantB
        | Api::NvAPI_Stereo_GetPixelShaderConstantI
        | Api::NvAPI_Stereo_SetDefaultProfile
        | Api::NvAPI_Stereo_GetDefaultProfile => api_name_part_7(a).unwrap(),
        Api::NvAPI_Stereo_Is3DCursorSupported
        | Api::NvAPI_Stereo_GetCursorSeparation
        | Api::NvAPI_Stereo_SetCursorSeparation
        | Api::NvAPI_VIO_GetCapabilities
        | Api::NvAPI_VIO_Open
        | Api::NvAPI_VIO_Close
        | Api::NvAPI_VIO_Status
        | Api::NvAPI_VIO_SyncFormatDetect
        | Api::NvAPI_VIO_GetConfig
        | Api::NvAPI_VIO_SetConfig
        | Api::NvAPI_VIO_SetCSC
        | Api::NvAPI_VIO_GetCSC
        | Api::NvAPI_VIO_SetGamma
        | Api::NvAPI_VIO_GetGamma
        | Api::NvAPI_VIO_SetSyncDelay
        | Api::NvAPI_VIO_GetSyncDelay
        | Api::NvAPI_VIO_GetPCIInfo
        | Api::NvAPI_VIO_IsRunning
        | Api::NvAPI_VIO_Start
        | Api::NvAPI_VIO_Stop
        | Api::NvAPI_VIO_IsFrameLockModeCompatible
        | Api::NvAPI_VIO_EnumDevices
        | Api::NvAPI_VIO_QueryTopology
        | Api::NvAPI_VIO_EnumSignalFormats
        | Api::NvAPI_VIO_EnumDataFormats
        | Api::NvAPI_GPU_GetTachReading
        | Api::NvAPI_3D_GetProperty
        | Api::NvAPI_3D_SetProperty
        | Api::NvAPI_3D_GetPropertyRange
        | Api::NvAPI_GPS_GetPowerSteeringStatus
        | Api::NvAPI_GPS_SetPowerSteeringStatus
        | Api::NvAPI_GPS_SetVPStateCap
        | Api::NvAPI_GPS_GetVPStateCap
        | Api::NvAPI_GPS_GetThermalLimit
        | Api::NvAPI_GPS_SetThermalLimit
        | Api::NvAPI_GPS_GetPerfSensors
        | Api::NvAPI_SYS_GetDisplayIdFromGpuAndOutputId
        | Api::NvAPI_SYS_GetGpuAndOutputIdFromDisplayId
        | Api::NvAPI_GPU_ClientRegisterForUtilizationSampleUpdates
        | Api::NvAPI_SYS_GetDisplayDriverInfo
        | Api::NvAPI_SYS_GetPhysicalGpuFromDisplayId
        | Api::NvAPI_DISP_GetDisplayIdByDisplayName
        | Api::NvAPI_DISP_GetGDIPrimaryDisplayId
        | Api::NvAPI_DISP_GetDisplayConfig
        | Api::NvAPI_DISP_SetDisplayConfig
        | Api::NvAPI_DISP_GetAdaptiveSyncData
        | Api::NvAPI_DISP_SetAdaptiveSyncData
        | Api::NvAPI_DISP_GetVirtualRefreshRateData
        | Api::NvAPI_DISP_SetVirtualRefreshRateData
        | Api::NvAPI_DISP_SetPreferredStereoDisplay => api_name_part_8(a).unwrap(),
        Api::NvAPI_DISP_GetPreferredStereoDisplay
        | Api::NvAPI_DISP_GetNvManagedDedicatedDisplays
        | Api::NvAPI_DISP_AcquireDedicatedDisplay
        | Api::NvAPI_DISP_ReleaseDedicatedDisplay
        | Api::NvAPI_GPU_GetPixelClockRange
        | Api::NvAPI_GPU_SetPixelClockRange
        | Api::NvAPI_GPU_GetECCStatusInfo
        | Api::NvAPI_GPU_GetECCErrorInfo
        | Api::NvAPI_GPU_ResetECCErrorInfo
        | Api::NvAPI_GPU_GetECCConfigurationInfo
        | Api::NvAPI_GPU_SetECCConfiguration
        | Api::NvAPI_D3D1x_CreateSwapChain
        | Api::NvAPI_D3D9_CreateSwapChain
        | Api::NvAPI_D3D_SetFPSIndicatorState
        | Api::NvAPI_D3D9_Present
        | Api::NvAPI_D3D9_QueryFrameCount
        | Api::NvAPI_D3D9_ResetFrameCount
        | Api::NvAPI_D3D9_QueryMaxSwapGroup
        | Api::NvAPI_D3D9_QuerySwapGroup
        | Api::NvAPI_D3D9_JoinSwapGroup
        | Api::NvAPI_D3D9_BindSwapBarrier
        | Api::NvAPI_D3D1x_Present
        | Api::NvAPI_D3D1x_QueryFrameCount
        | Api::NvAPI_D3D1x_ResetFrameCount
        | Api::NvAPI_D3D1x_QueryMaxSwapGroup
        | Api::NvAPI_D3D1x_QuerySwapGroup
        | Api::NvAPI_D3D1x_JoinSwapGroup
        | Api::NvAPI_D3D1x_BindSwapBarrier
        | Api::NvAPI_SYS_VenturaGetState
        | Api::NvAPI_SYS_VenturaSetState
        | Api::NvAPI_SYS_VenturaGetCoolingBudget
        | Api::NvAPI_SYS_VenturaSetCoolingBudget
        | Api::NvAPI_SYS_VenturaGetPowerReading
        | Api::NvAPI_DISP_GetDisplayBlankingState
        | Api::NvAPI_DISP_SetDisplayBlankingState
        | Api::NvAPI_DRS_CreateSession
        | Api::NvAPI_DRS_DestroySession
        | Api::NvAPI_DRS_LoadSettings
        | Api::NvAPI_DRS_SaveSettings
        | Api::NvAPI_DRS_LoadSettingsFromFile
        | Api::NvAPI_DRS_SaveSettingsToFile
        | Api::NvAPI_DRS_CreateProfile
        | Api::NvAPI_DRS_DeleteProfile
        | Api::NvAPI_DRS_SetCurrentGlobalProfile
        | Api::NvAPI_DRS_GetCurrentGlobalProfile
        | Api::NvAPI_DRS_GetProfileInfo
        | Api::NvAPI_DRS_SetProfileInfo
        | Api::NvAPI_DRS_FindProfileByName
        | Api::NvAPI_DRS_EnumProfiles
        | Api::NvAPI_DRS_GetNumProfiles => api_name_part_9(a).unwrap(),
        Api::NvAPI_DRS_CreateApplication
        | Api::NvAPI_DRS_DeleteApplicationEx
        | Api::NvAPI_DRS_DeleteApplication
        | Api::NvAPI_DRS_GetApplicationInfo
        | Api::NvAPI_DRS_EnumApplications
        | Api::NvAPI_DRS_FindApplicationByName
        | Api::NvAPI_DRS_SetSetting
        | Api::NvAPI_DRS_GetSetting
        | Api::NvAPI_DRS_EnumSettings
        | Api::NvAPI_DRS_EnumAvailableSettingIds
        | Api::NvAPI_DRS_EnumAvailableSettingValues
        | Api::NvAPI_DRS_GetSettingIdFromName
        | Api::NvAPI_DRS_GetSettingNameFromId
        | Api::NvAPI_DRS_DeleteProfileSetting
        | Api::NvAPI_DRS_RestoreAllDefaults
        | Api::NvAPI_DRS_RestoreProfileDefault
        | Api::NvAPI_DRS_RestoreProfileDefaultSetting
        | Api::NvAPI_DRS_GetBaseProfile
        | Api::NvAPI_Event_RegisterCallback
        | Api::NvAPI_Event_UnregisterCallback
        | Api::NvAPI_GPU_GetCurrentThermalLevel
        | Api::NvAPI_GPU_GetCurrentFanSpeedLevel
        | Api::NvAPI_GPU_SetScanoutIntensity
        | Api::NvAPI_GPU_GetScanoutIntensityState
        | Api::NvAPI_GPU_SetScanoutWarping
        | Api::NvAPI_GPU_GetScanoutWarpingState
        | Api::NvAPI_GPU_SetScanoutCompositionParameter
        | Api::NvAPI_GPU_GetScanoutCompositionParameter
        | Api::NvAPI_GPU_GetScanoutConfiguration
        | Api::NvAPI_GPU_GetScanoutConfigurationEx
        | Api::NvAPI_DISP_SetHCloneTopology
        | Api::NvAPI_DISP_GetHCloneTopology
        | Api::NvAPI_DISP_ValidateHCloneTopology
        | Api::NvAPI_GPU_GetAdapterIdFromPhysicalGpu
        | Api::NvAPI_GPU_GetVirtualizationInfo
        | Api::NvAPI_GPU_GetLogicalGpuInfo
        | Api::NvAPI_GPU_GetLicensableFeatures
        | Api::NvAPI_GPU_GetVRReadyData
        | Api::NvAPI_GPU_GetPerfDecreaseInfo
        | Api::NvAPI_GPU_QueryIlluminationSupport
        | Api::NvAPI_GPU_GetIllumination
        | Api::NvAPI_GPU_SetIllumination
        | Api::NvAPI_D3D1x_IFR_SetUpTargetBufferToSys
        | Api::NvAPI_D3D1x_IFR_TransferRenderTarget
        | Api::NvAPI_GetPhysicalGPUFromDisplay
        | Api::NvAPI_GetPhysicalGPUFromGPUID
        | Api::NvAPI_GetGPUIDfromPhysicalGPU
        | Api::NvAPI_GetInfoFrameStatePvt
        | Api::NvAPI_GPU_GetMemoryInfo
        | Api::NvAPI_GPU_GetMemoryInfoEx => api_name_part_10(a).unwrap(),
        Api::NvAPI_LoadMicrocode
        | Api::NvAPI_GetLoadedMicrocodePrograms
        | Api::NvAPI_GetDisplayDriverBuildTitle
        | Api::NvAPI_GetDisplayDriverCompileType
        | Api::NvAPI_GetDisplayDriverSecurityLevel
        | Api::NvAPI_AccessDisplayDriverRegistry
        | Api::NvAPI_GetDisplayDriverRegistryPath
        | Api::NvAPI_GetUnAttachedDisplayDriverRegistryPath
        | Api::NvAPI_GPU_GetRawFuseData
        | Api::NvAPI_GPU_GetFoundry
        | Api::NvAPI_GPU_GetVPECount
        | Api::NvAPI_GPU_GetTargetID
        | Api::NvAPI_GPU_GetShortName
        | Api::NvAPI_GPU_GetVbiosMxmVersion
        | Api::NvAPI_GPU_GetVbiosImage
        | Api::NvAPI_GPU_GetMXMBlock
        | Api::NvAPI_GPU_SetCurrentPCIEWidth
        | Api::NvAPI_GPU_SetCurrentPCIESpeed
        | Api::NvAPI_GPU_GetPCIEInfo
        | Api::NvAPI_GPU_ClearPCIELinkErrorInfo
        | Api::NvAPI_GPU_ClearPCIELinkAERInfo
        | Api::NvAPI_GPU_GetFrameBufferCalibrationLockFailures
        | Api::NvAPI_GPU_SetDisplayUnderflowMode
        | Api::NvAPI_GPU_GetDisplayUnderflowStatus
        | Api::NvAPI_GPU_GetBarInfo
        | Api::NvAPI_GPU_GetPSFloorSweepStatus
        | Api::NvAPI_GPU_GetVSFloorSweepStatus
        | Api::NvAPI_GPU_GetSerialNumber
        | Api::NvAPI_GPU_GetManufacturingInfo
        | Api::NvAPI_GPU_GetRamConfigStrap
        | Api::NvAPI_GPU_GetRamBusWidth
        | Api::NvAPI_GPU_GetRamBankCount
        | Api::NvAPI_GPU_GetArchInfo
        | Api::NvAPI_GPU_GetExtendedMinorRevision
        | Api::NvAPI_GPU_GetSampleType
        | Api::NvAPI_GPU_GetHardwareQualType
        | Api::NvAPI_GPU_GetAllClocks
        | Api::NvAPI_GPU_SetClocks
        | Api::NvAPI_GPU_SetPerfHybridMode
        | Api::NvAPI_GPU_GetPerfHybridMode
        | Api::NvAPI_GPU_GetHybridControllerInfo
        | Api::NvAPI_RestartDisplayDriver
        | Api::NvAPI_GPU_GetAllGpusOnSameBoard
        | Api::NvAPI_SetTopologyDisplayGPU
        | Api::NvAPI_GetTopologyDisplayGPU
        | Api::NvAPI_SYS_GetSliApprovalCookie
        | Api::NvAPI_CreateUnAttachedDisplayFromDisplay
        | Api::NvAPI_GetDriverModel
        | Api::NvAPI_GPU_CudaEnumComputeCapableGpus
        | Api::NvAPI_GPU_PhysxSetState => api_name_part_11(a).unwrap(),
        Api::NvAPI_GPU_PhysxQueryRecommendedState
        | Api::NvAPI_GPU_GetDeepIdleState
        | Api::NvAPI_GPU_SetDeepIdleState
        | Api::NvAPI_GetScalingCaps
        | Api::NvAPI_GPU_GetThermalTable
        | Api::NvAPI_SYS_SetPostOutput
        | Api::NvAPI_GPU_PerfPoliciesGetInfo
        | Api::NvAPI_GPU_PerfPoliciesGetStatus
        | Api::NvAPI_GPU_ClientThermalPoliciesGetInfo
        | Api::NvAPI_GPU_ClientThermalPoliciesGetStatus
        | Api::NvAPI_GPU_ClientThermalPoliciesSetStatus
        | Api::NvAPI_GPU_ClientVoltRailsGetStatus
        | Api::NvAPI_GPU_GetVoltageStep
        | Api::NvAPI_GPU_ClockClientClkDomainsGetInfo
        | Api::NvAPI_GPU_ClockClientClkVfPointsGetInfo
        | Api::NvAPI_GPU_ClockClientClkVfPointsGetControl
        | Api::NvAPI_GPU_ClockClientClkVfPointsSetControl
        | Api::NvAPI_GPU_ClockClientClkVfPointsGetStatus
        | Api::NvAPI_GPU_PerfClientLimitsGetStatus
        | Api::NvAPI_GPU_PerfClientLimitsSetStatus
        | Api::NvAPI_GPU_ClientVoltRailsGetControl
        | Api::NvAPI_GPU_ClientVoltRailsSetControl
        | Api::NvAPI_GPU_ClientFanArbitersGetControl
        | Api::NvAPI_GPU_ClientFanArbitersGetInfo
        | Api::NvAPI_GPU_ClientFanArbitersGetStatus
        | Api::NvAPI_GPU_ClientFanArbitersSetControl
        | Api::NvAPI_GPU_ClientFanCoolersGetControl
        | Api::NvAPI_GPU_ClientFanCoolersGetInfo
        | Api::NvAPI_GPU_ClientFanCoolersGetStatus
        | Api::NvAPI_GPU_ClientFanCoolersSetControl
        | Api::NvAPI_GPU_ClientFanPoliciesGetControl
        | Api::NvAPI_GPU_ClientFanPoliciesGetInfo
        | Api::NvAPI_GPU_ClientFanPoliciesSetControl
        | Api::NvAPI_GPU_ClientGetLastOcScannerResults
        | Api::NvAPI_GPU_ClientGetOcConfig
        | Api::NvAPI_GPU_ClientIllumDevicesGetInfo
        | Api::NvAPI_GPU_ClientIllumDevicesGetControl
        | Api::NvAPI_GPU_ClientIllumDevicesSetControl
        | Api::NvAPI_GPU_ClientIllumZonesGetControl
        | Api::NvAPI_GPU_ClientIllumZonesGetInfo
        | Api::NvAPI_GPU_ClientIllumZonesSetControl
        | Api::NvAPI_GPU_ClientRegisterForOcConfigChangedUpdates
        | Api::NvAPI_GPU_ClientRegisterForOcScannerStatusUpdates
        | Api::NvAPI_GPU_ClientRevertOc
        | Api::NvAPI_GPU_ClientStartOcScanner
        | Api::NvAPI_GPU_ClientStopOcScanner
        | Api::NvAPI_GPU_GetUsages
        | Api::NvAPI_GPU_GetRamMaker
        | Api::NvAPI_D3D_GetObjectHandleForResource
        | Api::NvAPI_D3D_SetResourceHint => api_name_part_12(a).unwrap(),
        Api::NvAPI_D3D_BeginResourceRendering
        | Api::NvAPI_D3D_EndResourceRendering
        | Api::NvAPI_D3D12_QueryPresentBarrierSupport
        | Api::NvAPI_D3D12_CreatePresentBarrierClient
        | Api::NvAPI_D3D12_RegisterPresentBarrierResources
        | Api::NvAPI_DestroyPresentBarrierClient
        | Api::NvAPI_JoinPresentBarrier
        | Api::NvAPI_LeavePresentBarrier
        | Api::NvAPI_QueryPresentBarrierFrameStatistics
        | Api::NvAPI_D3D12_CreateDDisplayPresentBarrierClient
        | Api::NvAPI_D3D11_CreateRasterizerState
        | Api::NvAPI_D3D_ConfigureAnsel
        | Api::NvAPI_D3D11_CreateTiledTexture2DArray
        | Api::NvAPI_D3D11_CheckFeatureSupport
        | Api::NvAPI_D3D11_CreateImplicitMSAATexture2D
        | Api::NvAPI_D3D12_CreateCommittedImplicitMSAATexture2D
        | Api::NvAPI_D3D11_ResolveSubresourceRegion
        | Api::NvAPI_D3D12_ResolveSubresourceRegion
        | Api::NvAPI_D3D11_TiledTexture2DArrayGetDesc
        | Api::NvAPI_D3D11_UpdateTileMappings
        | Api::NvAPI_D3D11_CopyTileMappings
        | Api::NvAPI_D3D11_TiledResourceBarrier
        | Api::NvAPI_D3D11_AliasMSAATexture2DAsNonMSAA
        | Api::NvAPI_D3D11_CreateGeometryShaderEx_2
        | Api::NvAPI_D3D11_CreateVertexShaderEx
        | Api::NvAPI_D3D11_CreateHullShaderEx
        | Api::NvAPI_D3D11_CreateDomainShaderEx
        | Api::NvAPI_D3D11_CreatePixelShaderEx_2
        | Api::NvAPI_D3D11_CreateFastGeometryShaderExplicit
        | Api::NvAPI_D3D11_CreateFastGeometryShader
        | Api::NvAPI_D3D11_DecompressView
        | Api::NvAPI_D3D12_CreateGraphicsPipelineState
        | Api::NvAPI_D3D12_CreateComputePipelineState
        | Api::NvAPI_D3D12_SetDepthBoundsTestValues
        | Api::NvAPI_D3D12_CreateReservedResource
        | Api::NvAPI_D3D12_CreateHeap
        | Api::NvAPI_D3D12_CreateHeap2
        | Api::NvAPI_D3D12_QueryCpuVisibleVidmem
        | Api::NvAPI_D3D12_ReservedResourceGetDesc
        | Api::NvAPI_D3D12_UpdateTileMappings
        | Api::NvAPI_D3D12_CopyTileMappings
        | Api::NvAPI_D3D12_ResourceAliasingBarrier
        | Api::NvAPI_D3D12_CaptureUAVInfo
        | Api::NvAPI_D3D11_GetResourceGPUVirtualAddressEx
        | Api::NvAPI_D3D11_EnumerateMetaCommands
        | Api::NvAPI_D3D11_CreateMetaCommand
        | Api::NvAPI_D3D11_InitializeMetaCommand
        | Api::NvAPI_D3D11_ExecuteMetaCommand
        | Api::NvAPI_D3D12_EnumerateMetaCommands
        | Api::NvAPI_D3D12_CreateMetaCommand => api_name_part_13(a).unwrap(),
        Api::NvAPI_D3D12_InitializeMetaCommand
        | Api::NvAPI_D3D12_ExecuteMetaCommand
        | Api::NvAPI_D3D12_CreateCommittedResource
        | Api::NvAPI_D3D12_GetCopyableFootprints
        | Api::NvAPI_D3D12_CopyTextureRegion
        | Api::NvAPI_D3D12_IsNvShaderExtnOpCodeSupported
        | Api::NvAPI_D3D12_GetOptimalThreadCountForMesh
        | Api::NvAPI_D3D_IsGSyncCapable
        | Api::NvAPI_D3D_IsGSyncActive
        | Api::NvAPI_D3D1x_DisableShaderDiskCache
        | Api::NvAPI_D3D11_MultiGPU_GetCaps
        | Api::NvAPI_D3D11_MultiGPU_Init
        | Api::NvAPI_D3D11_CreateMultiGPUDevice
        | Api::NvAPI_D3D_QuerySinglePassStereoSupport
        | Api::NvAPI_D3D_SetSinglePassStereoMode
        | Api::NvAPI_D3D12_QuerySinglePassStereoSupport
        | Api::NvAPI_D3D12_SetSinglePassStereoMode
        | Api::NvAPI_D3D_QueryMultiViewSupport
        | Api::NvAPI_D3D_SetMultiViewMode
        | Api::NvAPI_D3D_QueryModifiedWSupport
        | Api::NvAPI_D3D_SetModifiedWMode
        | Api::NvAPI_D3D12_QueryModifiedWSupport
        | Api::NvAPI_D3D12_SetModifiedWMode
        | Api::NvAPI_D3D_CreateLateLatchObject
        | Api::NvAPI_D3D_QueryLateLatchSupport
        | Api::NvAPI_D3D_RegisterDevice
        | Api::NvAPI_D3D11_MultiDrawInstancedIndirect
        | Api::NvAPI_D3D11_MultiDrawIndexedInstancedIndirect
        | Api::NvAPI_D3D_ImplicitSLIControl
        | Api::NvAPI_D3D12_UseDriverHeapPriorities
        | Api::NvAPI_D3D12_Mosaic_GetCompanionAllocations
        | Api::NvAPI_D3D12_Mosaic_GetViewportAndGpuPartitions
        | Api::NvAPI_D3D1x_GetGraphicsCapabilities
        | Api::NvAPI_D3D12_GetGraphicsCapabilities
        | Api::NvAPI_D3D11_RSSetExclusiveScissorRects
        | Api::NvAPI_D3D11_RSSetViewportsPixelShadingRates
        | Api::NvAPI_D3D11_CreateShadingRateResourceView
        | Api::NvAPI_D3D11_RSSetShadingRateResourceView
        | Api::NvAPI_D3D11_RSGetPixelShadingRateSampleOrder
        | Api::NvAPI_D3D11_RSSetPixelShadingRateSampleOrder
        | Api::NvAPI_D3D_InitializeVRSHelper
        | Api::NvAPI_D3D_InitializeNvGazeHandler
        | Api::NvAPI_D3D_InitializeSMPAssist
        | Api::NvAPI_D3D_QuerySMPAssistSupport
        | Api::NvAPI_D3D_GetSleepStatus
        | Api::NvAPI_D3D_SetSleepMode
        | Api::NvAPI_D3D_Sleep
        | Api::NvAPI_D3D_GetLatency
        | Api::NvAPI_D3D_SetLatencyMarker
        | Api::NvAPI_D3D12_SetAsyncFrameMarker => api_name_part_14(a).unwrap(),
        Api::NvAPI_D3D12_NotifyOutOfBandCommandQueue
        | Api::NvAPI_D3D12_CreateCubinComputeShader
        | Api::NvAPI_D3D12_CreateCubinComputeShaderEx
        | Api::NvAPI_D3D12_CreateCubinComputeShaderWithName
        | Api::NvAPI_D3D12_LaunchCubinShader
        | Api::NvAPI_D3D12_DestroyCubinComputeShader
        | Api::NvAPI_D3D12_GetCudaTextureObject
        | Api::NvAPI_D3D12_GetCudaSurfaceObject
        | Api::NvAPI_D3D12_IsFatbinPTXSupported
        | Api::NvAPI_D3D12_CreateCuModule
        | Api::NvAPI_D3D12_EnumFunctionsInModule
        | Api::NvAPI_D3D12_CreateCuFunction
        | Api::NvAPI_D3D12_LaunchCuKernelChain
        | Api::NvAPI_D3D12_DestroyCuModule
        | Api::NvAPI_D3D12_DestroyCuFunction
        | Api::NvAPI_D3D11_CreateCubinComputeShader
        | Api::NvAPI_D3D11_CreateCubinComputeShaderEx
        | Api::NvAPI_D3D11_CreateCubinComputeShaderWithName
        | Api::NvAPI_D3D11_LaunchCubinShader
        | Api::NvAPI_D3D11_DestroyCubinComputeShader
        | Api::NvAPI_D3D11_IsFatbinPTXSupported
        | Api::NvAPI_D3D11_CreateUnorderedAccessView
        | Api::NvAPI_D3D11_CreateShaderResourceView
        | Api::NvAPI_D3D11_CreateSamplerState
        | Api::NvAPI_D3D11_GetCudaTextureObject
        | Api::NvAPI_D3D11_GetResourceGPUVirtualAddress
        | Api::NvAPI_D3D12_GetRaytracingCaps
        | Api::NvAPI_D3D12_GetRaytracingOpacityMicromapArrayPrebuildInfo
        | Api::NvAPI_D3D12_SetCreatePipelineStateOptions
        | Api::NvAPI_D3D12_CheckDriverMatchingIdentifierEx
        | Api::NvAPI_D3D12_GetRaytracingAccelerationStructurePrebuildInfoEx
        | Api::NvAPI_D3D12_BuildRaytracingOpacityMicromapArray
        | Api::NvAPI_D3D12_RelocateRaytracingOpacityMicromapArray
        | Api::NvAPI_D3D12_EmitRaytracingOpacityMicromapArrayPostbuildInfo
        | Api::NvAPI_D3D12_BuildRaytracingAccelerationStructureEx
        | Api::Unknown_1629A173
        | Api::Unknown_F1D2777B
        | Api::Unknown_8EFC0978
        | Api::Unknown_B7BCF50D
        | Api::Unknown_36E39E6B
        | Api::Unknown_GetROPCount => api_name_part_15(a).unwrap(),
    }
}

fn name_part_0(a: Api) -> (r: Option<&'static str>)
    ensures
        api_name_part_0(a) == (match r { Some(s) => Some(s@), None => None }),
{
    match a {
        Api::NvAPI_Initialize => Some("NvAPI_Initialize"),
        Api::NvAPI_Unload => Some("NvAPI_Unload"),
        Api::NvAPI_GetErrorMessage => Some("NvAPI_GetErrorMessage"),
        Api::NvAPI_GetInterfaceVersionString => Some("NvAPI_GetInterfaceVersionString"),
        Api::NvAPI_GetDisplayDriverVersion => Some("NvAPI_GetDisplayDriverVersion"),
        Api::NvAPI_SYS_GetDriverAndBranchVersion => Some("NvAPI_SYS_GetDriverAndBranchVersion"),
        Api::NvAPI_EnumNvidiaDisplayHandle => Some("NvAPI_EnumNvidiaDisplayHandle"),
        Api::NvAPI_EnumNvidiaUnAttachedDisplayHandle => Some("NvAPI_EnumNvidiaUnAttachedDisplayHandle"),
        Api::NvAPI_EnumPhysicalGPUs => Some("NvAPI_EnumPhysicalGPUs"),
        Api::NvAPI_EnumTCCPhysicalGPUs => Some("NvAPI_EnumTCCPhysicalGPUs"),
        Api::NvAPI_EnumLogicalGPUs => Some("NvAPI_EnumLogicalGPUs"),
        Api::NvAPI_GetPhysicalGPUsFromDisplay => Some("NvAPI_GetPhysicalGPUsFromDisplay"),
        Api::NvAPI_GetPhysicalGPUFromUnAttachedDisplay => Some("NvAPI_GetPhysicalGPUFromUnAttachedDisplay"),
        Api::NvAPI_CreateDisplayFromUnAttachedDisplay => Some("NvAPI_CreateDisplayFromUnAttachedDisplay"),
        Api::NvAPI_GetLogicalGPUFromDisplay => Some("NvAPI_GetLogicalGPUFromDisplay"),
        Api::NvAPI_GetLogicalGPUFromPhysicalGPU => Some("NvAPI_GetLogicalGPUFromPhysicalGPU"),
        Api::NvAPI_GetPhysicalGPUsFromLogicalGPU => Some("NvAPI_GetPhysicalGPUsFromLogicalGPU"),
        Api::NvAPI_GetAssociatedNvidiaDisplayHandle => Some("NvAPI_GetAssociatedNvidiaDisplayHandle"),
        Api::NvAPI_DISP_GetAssociatedUnAttachedNvidiaDisplayHandle => Some("NvAPI_DISP_GetAssociatedUnAttachedNvidiaDisplayHandle"),
        Api::NvAPI_GetAssociatedNvidiaDisplayName => Some("NvAPI_GetAssociatedNvidiaDisplayName"),
        Api::NvAPI_GetUnAttachedAssociatedDisplayName => Some("NvAPI_GetUnAttachedAssociatedDisplayName"),
        Api::NvAPI_EnableHWCursor => Some("NvAPI_EnableHWCursor"),
        Api::NvAPI_DisableHWCursor => Some("NvAPI_DisableHWCursor"),
        Api::NvAPI_GetVBlankCounter => Some("NvAPI_GetVBlankCounter"),
        Api::NvAPI_SetRefreshRateOverride => Some("NvAPI_SetRefreshRateOverride"),
        Api::NvAPI_GetAssociatedDisplayOutputId => Some("NvAPI_GetAssociatedDisplayOutputId"),
        Api::NvAPI_GetDisplayPortInfo => Some("NvAPI_GetDisplayPortInfo"),
        Api::NvAPI_SetDisplayPort => Some("NvAPI_SetDisplayPort"),
        Api::NvAPI_GetHDMISupportInfo => Some("NvAPI_GetHDMISupportInfo"),
        Api::NvAPI_DISP_EnumHDMIStereoModes => Some("NvAPI_DISP_EnumHDMIStereoModes"),
        Api::NvAPI_GetInfoFrame => Some("NvAPI_GetInfoFrame"),
        Api::NvAPI_SetInfoFrame => Some("NvAPI_SetInfoFrame"),
        Api::NvAPI_SetInfoFrameState => Some("NvAPI_SetInfoFrameState"),
        Api::NvAPI_GetInfoFrameState => Some("NvAPI_GetInfoFrameState"),
        Api::NvAPI_Disp_InfoFrameControl => Some("NvAPI_Disp_InfoFrameControl"),
        Api::NvAPI_Disp_ColorControl => Some("NvAPI_Disp_ColorControl"),
        Api::NvAPI_Disp_GetHdrCapabilities => Some("NvAPI_Disp_GetHdrCapabilities"),
        Api::NvAPI_Disp_HdrColorControl => Some("NvAPI_Disp_HdrColorControl"),
        Api::NvAPI_DISP_GetVirtualModeData => Some("NvAPI_DISP_GetVirtualModeData"),
        Api::NvAPI_DISP_OverrideDisplayModeList => Some("NvAPI_DISP_OverrideDisplayModeList"),
        Api::NvAPI_GetDisplayDriverMemoryInfo => Some("NvAPI_GetDisplayDriverMemoryInfo"),
        Api::NvAPI_GetDriverMemoryInfo => Some("NvAPI_GetDriverMemoryInfo"),
        Api::NvAPI_GetDVCInfo => Some("NvAPI_GetDVCInfo"),
        Api::NvAPI_SetDVCLevel => Some("NvAPI_SetDVCLevel"),
        Api::NvAPI_GetDVCInfoEx => Some("NvAPI_GetDVCInfoEx"),
        Api::NvAPI_SetDVCLevelEx => Some("NvAPI_SetDVCLevelEx"),
        Api::NvAPI_GetHUEInfo => Some("NvAPI_GetHUEInfo"),
        Api::NvAPI_SetHUEAngle => Some("NvAPI_SetHUEAngle"),
        Api::NvAPI_GetImageSharpeningInfo => Some("NvAPI_GetImageSharpeningInfo"),
        Api::NvAPI_SetImageSharpeningLevel => Some("NvAPI_SetImageSharpeningLevel"),
        _ => None,
    }
}

fn name_part_1(a: Api) -> (r: Option<&'static str>)
    ensures
        api_name_part_1(a) == (match r { Some(s) => Some(s@), None => None }),
{
    match a {
        Api::NvAPI_D3D_GetCurrentSLIState => Some("NvAPI_D3D_GetCurrentSLIState"),
        Api::NvAPI_D3D9_RegisterResource => Some("NvAPI_D3D9_RegisterResource"),
        Api::NvAPI_D3D9_UnregisterResource => Some("NvAPI_D3D9_UnregisterResource"),
        Api::NvAPI_D3D9_AliasSurfaceAsTexture => Some("NvAPI_D3D9_AliasSurfaceAsTexture"),
        Api::NvAPI_D3D9_StretchRectEx => Some("NvAPI_D3D9_StretchRectEx"),
        Api::NvAPI_D3D9_ClearRT => Some("NvAPI_D3D9_ClearRT"),
        Api::NvAPI_D3D_CreateQuery => Some("NvAPI_D3D_CreateQuery"),
        Api::NvAPI_D3D_DestroyQuery => Some("NvAPI_D3D_DestroyQuery"),
        Api::NvAPI_D3D_Query_Begin => Some("NvAPI_D3D_Query_Begin"),
        Api::NvAPI_D3D_Query_End => Some("NvAPI_D3D_Query_End"),
        Api::NvAPI_D3D_Query_GetData => Some("NvAPI_D3D_Query_GetData"),
        Api::NvAPI_D3D_Query_GetDataSize => Some("NvAPI_D3D_Query_GetDataSize"),
        Api::NvAPI_D3D_Query_GetType => Some("NvAPI_D3D_Query_GetType"),
        Api::NvAPI_D3D_RegisterApp => Some("NvAPI_D3D_RegisterApp"),
        Api::NvAPI_D3D9_CreatePathContextNV => Some("NvAPI_D3D9_CreatePathContextNV"),
        Api::NvAPI_D3D9_DestroyPathContextNV => Some("NvAPI_D3D9_DestroyPathContextNV"),
        Api::NvAPI_D3D9_CreatePathNV => Some("NvAPI_D3D9_CreatePathNV"),
        Api::NvAPI_D3D9_DeletePathNV => Some("NvAPI_D3D9_DeletePathNV"),
        Api::NvAPI_D3D9_PathVerticesNV => Some("NvAPI_D3D9_PathVerticesNV"),
        Api::NvAPI_D3D9_PathParameterfNV => Some("NvAPI_D3D9_PathParameterfNV"),
        Api::NvAPI_D3D9_PathParameteriNV => Some("NvAPI_D3D9_PathParameteriNV"),
        Api::NvAPI_D3D9_PathMatrixNV => Some("NvAPI_D3D9_PathMatrixNV"),
        Api::NvAPI_D3D9_PathDepthNV => Some("NvAPI_D3D9_PathDepthNV"),
        Api::NvAPI_D3D9_PathClearDepthNV => Some("NvAPI_D3D9_PathClearDepthNV"),
        Api::NvAPI_D3D9_PathEnableDepthTestNV => Some("NvAPI_D3D9_PathEnableDepthTestNV"),
        Api::NvAPI_D3D9_PathEnableColorWriteNV => Some("NvAPI_D3D9_PathEnableColorWriteNV"),
        Api::NvAPI_D3D9_DrawPathNV => Some("NvAPI_D3D9_DrawPathNV"),
        Api::NvAPI_D3D9_GetSurfaceHandle => Some("NvAPI_D3D9_GetSurfaceHandle"),
        Api::NvAPI_D3D9_GetOverlaySurfaceHandles => Some("NvAPI_D3D9_GetOverlaySurfaceHandles"),
        Api::NvAPI_D3D9_GetTextureHandle => Some("NvAPI_D3D9_GetTextureHandle"),
        Api::NvAPI_D3D9_GpuSyncGetHandleSize => Some("NvAPI_D3D9_GpuSyncGetHandleSize"),
        Api::NvAPI_D3D9_GpuSyncInit => Some("NvAPI_D3D9_GpuSyncInit"),
        Api::NvAPI_D3D9_GpuSyncEnd => Some("NvAPI_D3D9_GpuSyncEnd"),
        Api::NvAPI_D3D9_GpuSyncMapTexBuffer => Some("NvAPI_D3D9_GpuSyncMapTexBuffer"),
        Api::NvAPI_D3D9_GpuSyncMapSurfaceBuffer => Some("NvAPI_D3D9_GpuSyncMapSurfaceBuffer"),
        Api::NvAPI_D3D9_GpuSyncMapVertexBuffer => Some("NvAPI_D3D9_GpuSyncMapVertexBuffer"),
        Api::NvAPI_D3D9_GpuSyncMapIndexBuffer => Some("NvAPI_D3D9_GpuSyncMapIndexBuffer"),
        Api::NvAPI_D3D9_SetPitchSurfaceCreation => Some("NvAPI_D3D9_SetPitchSurfaceCreation"),
        Api::NvAPI_D3D9_GpuSyncAcquire => Some("NvAPI_D3D9_GpuSyncAcquire"),
        Api::NvAPI_D3D9_GpuSyncRelease => Some("NvAPI_D3D9_GpuSyncRelease"),
        Api::NvAPI_D3D9_GetCurrentRenderTargetHandle => Some("NvAPI_D3D9_GetCurrentRenderTargetHandle"),
        Api::NvAPI_D3D9_GetCurrentZBufferHandle => Some("NvAPI_D3D9_GetCurrentZBufferHandle"),
        Api::NvAPI_D3D9_GetIndexBufferHandle => Some("NvAPI_D3D9_GetIndexBufferHandle"),
        Api::NvAPI_D3D9_GetVertexBufferHandle => Some("NvAPI_D3D9_GetVertexBufferHandle"),
        Api::NvAPI_D3D9_CreateTexture => Some("NvAPI_D3D9_CreateTexture"),
        Api::NvAPI_D3D9_AliasPrimaryAsTexture => Some("NvAPI_D3D9_AliasPrimaryAsTexture"),
        Api::NvAPI_D3D9_PresentSurfaceToDesktop => Some("NvAPI_D3D9_PresentSurfaceToDesktop"),
        Api::NvAPI_D3D9_CreateVideoBegin => Some("NvAPI_D3D9_CreateVideoBegin"),
        Api::NvAPI_D3D9_CreateVideoEnd => Some("NvAPI_D3D9_CreateVideoEnd"),
        Api::NvAPI_D3D9_CreateVideo => Some("NvAPI_D3D9_CreateVideo"),
        _ => None,
    }
}

fn name_part_2(a: Api) -> (r: Option<&'static str>)
    ensures
        api_name_part_2(a) == (match r { Some(s) => Some(s@), None => None }),
{
    match a {
        Api::NvAPI_D3D9_FreeVideo => Some("NvAPI_D3D9_FreeVideo"),
        Api::NvAPI_D3D9_PresentVideo => Some("NvAPI_D3D9_PresentVideo"),
        Api::NvAPI_D3D9_VideoSetStereoInfo => Some("NvAPI_D3D9_VideoSetStereoInfo"),
        Api::NvAPI_D3D9_SetGamutData => Some("NvAPI_D3D9_SetGamutData"),
        Api::NvAPI_D3D9_SetSurfaceCreationLayout => Some("NvAPI_D3D9_SetSurfaceCreationLayout"),
        Api::NvAPI_D3D9_GetVideoCapabilities => Some("NvAPI_D3D9_GetVideoCapabilities"),
        Api::NvAPI_D3D9_QueryVideoInfo => Some("NvAPI_D3D9_QueryVideoInfo"),
        Api::NvAPI_D3D9_AliasPrimaryFromDevice => Some("NvAPI_D3D9_AliasPrimaryFromDevice"),
        Api::NvAPI_D3D9_SetResourceHint => Some("NvAPI_D3D9_SetResourceHint"),
        Api::NvAPI_D3D9_Lock => Some("NvAPI_D3D9_Lock"),
        Api::NvAPI_D3D9_Unlock => Some("NvAPI_D3D9_Unlock"),
        Api::NvAPI_D3D9_GetVideoState => Some("NvAPI_D3D9_GetVideoState"),
        Api::NvAPI_D3D9_SetVideoState => Some("NvAPI_D3D9_SetVideoState"),
        Api::NvAPI_D3D9_EnumVideoFeatures => Some("NvAPI_D3D9_EnumVideoFeatures"),
        Api::NvAPI_D3D9_GetSLIInfo => Some("NvAPI_D3D9_GetSLIInfo"),
        Api::NvAPI_D3D9_SetSLIMode => Some("NvAPI_D3D9_SetSLIMode"),
        Api::NvAPI_D3D9_QueryAAOverrideMode => Some("NvAPI_D3D9_QueryAAOverrideMode"),
        Api::NvAPI_D3D9_VideoSurfaceEncryptionControl => Some("NvAPI_D3D9_VideoSurfaceEncryptionControl"),
        Api::NvAPI_D3D9_DMA => Some("NvAPI_D3D9_DMA"),
        Api::NvAPI_D3D9_EnableStereo => Some("NvAPI_D3D9_EnableStereo"),
        Api::NvAPI_D3D9_StretchRect => Some("NvAPI_D3D9_StretchRect"),
        Api::NvAPI_D3D9_CreateRenderTarget => Some("NvAPI_D3D9_CreateRenderTarget"),
        Api::NvAPI_D3D9_NVFBC_GetStatus => Some("NvAPI_D3D9_NVFBC_GetStatus"),
        Api::NvAPI_D3D9_IFR_SetUpTargetBufferToSys => Some("NvAPI_D3D9_IFR_SetUpTargetBufferToSys"),
        Api::NvAPI_D3D9_GPUBasedCPUSleep => Some("NvAPI_D3D9_GPUBasedCPUSleep"),
        Api::NvAPI_D3D9_IFR_TransferRenderTarget => Some("NvAPI_D3D9_IFR_TransferRenderTarget"),
        Api::NvAPI_D3D9_IFR_SetUpTargetBufferToNV12BLVideoSurface => Some("NvAPI_D3D9_IFR_SetUpTargetBufferToNV12BLVideoSurface"),
        Api::NvAPI_D3D9_IFR_TransferRenderTargetToNV12BLVideoSurface => Some("NvAPI_D3D9_IFR_TransferRenderTargetToNV12BLVideoSurface"),
        Api::NvAPI_D3D10_AliasPrimaryAsTexture => Some("NvAPI_D3D10_AliasPrimaryAsTexture"),
        Api::NvAPI_D3D10_SetPrimaryFlipChainCallbacks => Some("NvAPI_D3D10_SetPrimaryFlipChainCallbacks"),
        Api::NvAPI_D3D10_ProcessCallbacks => Some("NvAPI_D3D10_ProcessCallbacks"),
        Api::NvAPI_D3D10_GetRenderedCursorAsBitmap => Some("NvAPI_D3D10_GetRenderedCursorAsBitmap"),
        Api::NvAPI_D3D10_BeginShareResource => Some("NvAPI_D3D10_BeginShareResource"),
        Api::NvAPI_D3D10_BeginShareResourceEx => Some("NvAPI_D3D10_BeginShareResourceEx"),
        Api::NvAPI_D3D10_EndShareResource => Some("NvAPI_D3D10_EndShareResource"),
        Api::NvAPI_D3D10_SetDepthBoundsTest => Some("NvAPI_D3D10_SetDepthBoundsTest"),
        Api::NvAPI_D3D10_CreateDevice => Some("NvAPI_D3D10_CreateDevice"),
        Api::NvAPI_D3D10_CreateDeviceAndSwapChain => Some("NvAPI_D3D10_CreateDeviceAndSwapChain"),
        Api::NvAPI_D3D11_CreateDevice => Some("NvAPI_D3D11_CreateDevice"),
        Api::NvAPI_D3D11_CreateDeviceAndSwapChain => Some("NvAPI_D3D11_CreateDeviceAndSwapChain"),
        Api::NvAPI_D3D11_BeginShareResource => Some("NvAPI_D3D11_BeginShareResource"),
        Api::NvAPI_D3D11_EndShareResource => Some("NvAPI_D3D11_EndShareResource"),
        Api::NvAPI_D3D11_SetDepthBoundsTest => Some("NvAPI_D3D11_SetDepthBoundsTest"),
        Api::NvAPI_D3D11_IsNvShaderExtnOpCodeSupported => Some("NvAPI_D3D11_IsNvShaderExtnOpCodeSupported"),
        Api::NvAPI_D3D11_SetNvShaderExtnSlot => Some("NvAPI_D3D11_SetNvShaderExtnSlot"),
        Api::NvAPI_D3D12_SetNvShaderExtnSlotSpace => Some("NvAPI_D3D12_SetNvShaderExtnSlotSpace"),
        Api::NvAPI_D3D12_SetNvShaderExtnSlotSpaceLocalThread => Some("NvAPI_D3D12_SetNvShaderExtnSlotSpaceLocalThread"),
        Api::NvAPI_D3D11_SetNvShaderExtnSlotLocalThread => Some("NvAPI_D3D11_SetNvShaderExtnSlotLocalThread"),
        Api::NvAPI_D3D11_BeginUAVOverlapEx => Some("NvAPI_D3D11_BeginUAVOverlapEx"),
        Api::NvAPI_D3D11_BeginUAVOverlap => Some("NvAPI_D3D11_BeginUAVOverlap"),
        _ => None,
    }
}

fn name_part_3(a: Api) -> (r: Option<&'static str>)
    ensures
        api_name_part_3(a) == (match r { Some(s) => Some(s@), None => None }),
{
    match a {
        Api::NvAPI_D3D11_EndUAVOverlap => Some("NvAPI_D3D11_EndUAVOverlap"),
        Api::NvAPI_D3D11_GetResourceHandle => Some("NvAPI_D3D11_GetResourceHandle"),
        Api::NvAPI_GPU_GetShaderPipeCount => Some("NvAPI_GPU_GetShaderPipeCount"),
        Api::NvAPI_GPU_GetShaderSubPipeCount => Some("NvAPI_GPU_GetShaderSubPipeCount"),
        Api::NvAPI_GPU_GetPartitionCount => Some("NvAPI_GPU_GetPartitionCount"),
        Api::NvAPI_GPU_GetMemPartitionMask => Some("NvAPI_GPU_GetMemPartitionMask"),
        Api::NvAPI_GPU_GetTPCMask => Some("NvAPI_GPU_GetTPCMask"),
        Api::NvAPI_GPU_GetSMMask => Some("NvAPI_GPU_GetSMMask"),
        Api::NvAPI_GPU_GetTotalTPCCount => Some("NvAPI_GPU_GetTotalTPCCount"),
        Api::NvAPI_GPU_GetTotalSMCount => Some("NvAPI_GPU_GetTotalSMCount"),
        Api::NvAPI_GPU_GetTotalSPCount => Some("NvAPI_GPU_GetTotalSPCount"),
        Api::NvAPI_GPU_GetGpuCoreCount => Some("NvAPI_GPU_GetGpuCoreCount"),
        Api::NvAPI_GPU_GetAllOutputs => Some("NvAPI_GPU_GetAllOutputs"),
        Api::NvAPI_GPU_GetConnectedOutputs => Some("NvAPI_GPU_GetConnectedOutputs"),
        Api::NvAPI_GPU_GetConnectedSLIOutputs => Some("NvAPI_GPU_GetConnectedSLIOutputs"),
        Api::NvAPI_GPU_GetConnectedDisplayIds => Some("NvAPI_GPU_GetConnectedDisplayIds"),
        Api::NvAPI_GPU_GetAllDisplayIds => Some("NvAPI_GPU_GetAllDisplayIds"),
        Api::NvAPI_GPU_GetConnectedOutputsWithLidState => Some("NvAPI_GPU_GetConnectedOutputsWithLidState"),
        Api::NvAPI_GPU_GetConnectedSLIOutputsWithLidState => Some("NvAPI_GPU_GetConnectedSLIOutputsWithLidState"),
        Api::NvAPI_GPU_GetSystemType => Some("NvAPI_GPU_GetSystemType"),
        Api::NvAPI_GPU_GetActiveOutputs => Some("NvAPI_GPU_GetActiveOutputs"),
        Api::NvAPI_GPU_GetEDID => Some("NvAPI_GPU_GetEDID"),
        Api::NvAPI_GPU_SetEDID => Some("NvAPI_GPU_SetEDID"),
        Api::NvAPI_GPU_GetOutputType => Some("NvAPI_GPU_GetOutputType"),
        Api::NvAPI_GPU_GetDeviceDisplayMode => Some("NvAPI_GPU_GetDeviceDisplayMode"),
        Api::NvAPI_GPU_GetFlatPanelInfo => Some("NvAPI_GPU_GetFlatPanelInfo"),
        Api::NvAPI_GPU_ValidateOutputCombination => Some("NvAPI_GPU_ValidateOutputCombination"),
        Api::NvAPI_GPU_GetConnectorInfo => Some("NvAPI_GPU_GetConnectorInfo"),
        Api::NvAPI_GPU_GetFullName => Some("NvAPI_GPU_GetFullName"),
        Api::NvAPI_GPU_GetPCIIdentifiers => Some("NvAPI_GPU_GetPCIIdentifiers"),
        Api::NvAPI_GPU_GetGPUType => Some("NvAPI_GPU_GetGPUType"),
        Api::NvAPI_GPU_GetBusType => Some("NvAPI_GPU_GetBusType"),
        Api::NvAPI_GPU_GetBusId => Some("NvAPI_GPU_GetBusId"),
        Api::NvAPI_GPU_GetBusSlotId => Some("NvAPI_GPU_GetBusSlotId"),
        Api::NvAPI_GPU_GetIRQ => Some("NvAPI_GPU_GetIRQ"),
        Api::NvAPI_GPU_GetVbiosRevision => Some("NvAPI_GPU_GetVbiosRevision"),
        Api::NvAPI_GPU_GetVbiosOEMRevision => Some("NvAPI_GPU_GetVbiosOEMRevision"),
        Api::NvAPI_GPU_GetVbiosVersionString => Some("NvAPI_GPU_GetVbiosVersionString"),
        Api::NvAPI_GPU_GetAGPAperture => Some("NvAPI_GPU_GetAGPAperture"),
        Api::NvAPI_GPU_GetCurrentAGPRate => Some("NvAPI_GPU_GetCurrentAGPRate"),
        Api::NvAPI_GPU_GetCurrentPCIEDownstreamWidth => Some("NvAPI_GPU_GetCurrentPCIEDownstreamWidth"),
        Api::NvAPI_GPU_GetPhysicalFrameBufferSize => Some("NvAPI_GPU_GetPhysicalFrameBufferSize"),
        Api::NvAPI_GPU_GetVirtualFrameBufferSize => Some("NvAPI_GPU_GetVirtualFrameBufferSize"),
        Api::NvAPI_GPU_GetQuadroStatus => Some("NvAPI_GPU_GetQuadroStatus"),
        Api::NvAPI_GPU_GetBoardInfo => Some("NvAPI_GPU_GetBoardInfo"),
        Api::NvAPI_GPU_GetRamType => Some("NvAPI_GPU_GetRamType"),
        Api::NvAPI_GPU_GetFBWidthAndLocation => Some("NvAPI_GPU_GetFBWidthAndLocation"),
        Api::NvAPI_GPU_GetAllClockFrequencies => Some("NvAPI_GPU_GetAllClockFrequencies"),
        Api::NvAPI_GPU_GetPerfClocks => Some("NvAPI_GPU_GetPerfClocks"),
        Api::NvAPI_GPU_SetPerfClocks => Some("NvAPI_GPU_SetPerfClocks"),
        _ => None,
    }
}

fn name_part_4(a: Api) -> (r: Option<&'static str>)
    ensures
        api_name_part_4(a) == (match r { Some(s) => Some(s@), None => None }),
{
    match a {
        Api::NvAPI_GPU_GetCoolerSettings => Some("NvAPI_GPU_GetCoolerSettings"),
        Api::NvAPI_GPU_SetCoolerLevels => Some("NvAPI_GPU_SetCoolerLevels"),
        Api::NvAPI_GPU_RestoreCoolerSettings => Some("NvAPI_GPU_RestoreCoolerSettings"),
        Api::NvAPI_GPU_GetCoolerPolicyTable => Some("NvAPI_GPU_GetCoolerPolicyTable"),
        Api::NvAPI_GPU_SetCoolerPolicyTable => Some("NvAPI_GPU_SetCoolerPolicyTable"),
        Api::NvAPI_GPU_RestoreCoolerPolicyTable => Some("NvAPI_GPU_RestoreCoolerPolicyTable"),
        Api::NvAPI_GPU_GetPstatesInfo => Some("NvAPI_GPU_GetPstatesInfo"),
        Api::NvAPI_GPU_GetPstatesInfoEx => Some("NvAPI_GPU_GetPstatesInfoEx"),
        Api::NvAPI_GPU_SetPstatesInfo => Some("NvAPI_GPU_SetPstatesInfo"),
        Api::NvAPI_GPU_GetPstates20 => Some("NvAPI_GPU_GetPstates20"),
        Api::NvAPI_GPU_SetPstates20 => Some("NvAPI_GPU_SetPstates20"),
        Api::NvAPI_GPU_GetCurrentPstate => Some("NvAPI_GPU_GetCurrentPstate"),
        Api::NvAPI_GPU_GetPstateClientLimits => Some("NvAPI_GPU_GetPstateClientLimits"),
        Api::NvAPI_GPU_SetPstateClientLimits => Some("NvAPI_GPU_SetPstateClientLimits"),
        Api::NvAPI_GPU_EnableOverclockedPstates => Some("NvAPI_GPU_EnableOverclockedPstates"),
        Api::NvAPI_GPU_EnableDynamicPstates => Some("NvAPI_GPU_EnableDynamicPstates"),
        Api::NvAPI_GPU_GetDynamicPstatesInfoEx => Some("NvAPI_GPU_GetDynamicPstatesInfoEx"),
        Api::NvAPI_GPU_GetVoltages => Some("NvAPI_GPU_GetVoltages"),
        Api::NvAPI_GPU_GetThermalSettings => Some("NvAPI_GPU_GetThermalSettings"),
        Api::NvAPI_GPU_SetDitherControl => Some("NvAPI_GPU_SetDitherControl"),
        Api::NvAPI_GPU_GetDitherControl => Some("NvAPI_GPU_GetDitherControl"),
        Api::NvAPI_GPU_GetColorSpaceConversion => Some("NvAPI_GPU_GetColorSpaceConversion"),
        Api::NvAPI_GPU_SetColorSpaceConversion => Some("NvAPI_GPU_SetColorSpaceConversion"),
        Api::NvAPI_GetTVOutputInfo => Some("NvAPI_GetTVOutputInfo"),
        Api::NvAPI_GetTVEncoderControls => Some("NvAPI_GetTVEncoderControls"),
        Api::NvAPI_SetTVEncoderControls => Some("NvAPI_SetTVEncoderControls"),
        Api::NvAPI_GetTVOutputBorderColor => Some("NvAPI_GetTVOutputBorderColor"),
        Api::NvAPI_SetTVOutputBorderColor => Some("NvAPI_SetTVOutputBorderColor"),
        Api::NvAPI_GetDisplayPosition => Some("NvAPI_GetDisplayPosition"),
        Api::NvAPI_SetDisplayPosition => Some("NvAPI_SetDisplayPosition"),
        Api::NvAPI_GetValidGpuTopologies => Some("NvAPI_GetValidGpuTopologies"),
        Api::NvAPI_GetInvalidGpuTopologies => Some("NvAPI_GetInvalidGpuTopologies"),
        Api::NvAPI_SetGpuTopologies => Some("NvAPI_SetGpuTopologies"),
        Api::NvAPI_GPU_GetPerGpuTopologyStatus => Some("NvAPI_GPU_GetPerGpuTopologyStatus"),
        Api::NvAPI_SYS_GetChipSetTopologyStatus => Some("NvAPI_SYS_GetChipSetTopologyStatus"),
        Api::NvAPI_GPU_Get_DisplayPort_DongleInfo => Some("NvAPI_GPU_Get_DisplayPort_DongleInfo"),
        Api::NvAPI_I2CRead => Some("NvAPI_I2CRead"),
        Api::NvAPI_I2CWrite => Some("NvAPI_I2CWrite"),
        Api::NvAPI_I2CWriteEx => Some("NvAPI_I2CWriteEx"),
        Api::NvAPI_I2CReadEx => Some("NvAPI_I2CReadEx"),
        Api::NvAPI_GPU_GetPowerMizerInfo => Some("NvAPI_GPU_GetPowerMizerInfo"),
        Api::NvAPI_GPU_SetPowerMizerInfo => Some("NvAPI_GPU_SetPowerMizerInfo"),
        Api::NvAPI_GPU_GetVoltageDomainsStatus => Some("NvAPI_GPU_GetVoltageDomainsStatus"),
        Api::NvAPI_GPU_ClientPowerTopologyGetInfo => Some("NvAPI_GPU_ClientPowerTopologyGetInfo"),
        Api::NvAPI_GPU_ClientPowerTopologyGetStatus => Some("NvAPI_GPU_ClientPowerTopologyGetStatus"),
        Api::NvAPI_GPU_ClientPowerPoliciesGetInfo => Some("NvAPI_GPU_ClientPowerPoliciesGetInfo"),
        Api::NvAPI_GPU_ClientPowerPoliciesGetStatus => Some("NvAPI_GPU_ClientPowerPoliciesGetStatus"),
        Api::NvAPI_GPU_ClientPowerPoliciesSetStatus => Some("NvAPI_GPU_ClientPowerPoliciesSetStatus"),
        Api::NvAPI_GPU_WorkstationFeatureSetup => Some("NvAPI_GPU_WorkstationFeatureSetup"),
        Api::NvAPI_GPU_WorkstationFeatureQuery => Some("NvAPI_GPU_WorkstationFeatureQuery"),
        _ => None,
    }
}

fn name_part_5(a: Api) -> (r: Option<&'static str>)
    ensures
        api_name_part_5(a) == (match r { Some(s) => Some(s@), None => None }),
{
    match a {
        Api::NvAPI_GPU_QueryWorkstationFeatureSupport => Some("NvAPI_GPU_QueryWorkstationFeatureSupport"),
        Api::NvAPI_SYS_GetChipSetInfo => Some("NvAPI_SYS_GetChipSetInfo"),
        Api::NvAPI_SYS_GetLidAndDockInfo => Some("NvAPI_SYS_GetLidAndDockInfo"),
        Api::NvAPI_OGL_ExpertModeSet => Some("NvAPI_OGL_ExpertModeSet"),
        Api::NvAPI_OGL_ExpertModeGet => Some("NvAPI_OGL_ExpertModeGet"),
        Api::NvAPI_OGL_ExpertModeDefaultsSet => Some("NvAPI_OGL_ExpertModeDefaultsSet"),
        Api::NvAPI_OGL_ExpertModeDefaultsGet => Some("NvAPI_OGL_ExpertModeDefaultsGet"),
        Api::NvAPI_SetDisplaySettings => Some("NvAPI_SetDisplaySettings"),
        Api::NvAPI_GetDisplaySettings => Some("NvAPI_GetDisplaySettings"),
        Api::NvAPI_GetTiming => Some("NvAPI_GetTiming"),
        Api::NvAPI_DISP_GetTiming => Some("NvAPI_DISP_GetTiming"),
        Api::NvAPI_DISP_GetMonitorCapabilities => Some("NvAPI_DISP_GetMonitorCapabilities"),
        Api::NvAPI_DISP_GetMonitorColorCapabilities => Some("NvAPI_DISP_GetMonitorColorCapabilities"),
        Api::NvAPI_DISP_EnumCustomDisplay => Some("NvAPI_DISP_EnumCustomDisplay"),
        Api::NvAPI_DISP_TryCustomDisplay => Some("NvAPI_DISP_TryCustomDisplay"),
        Api::NvAPI_DISP_DeleteCustomDisplay => Some("NvAPI_DISP_DeleteCustomDisplay"),
        Api::NvAPI_DISP_SaveCustomDisplay => Some("NvAPI_DISP_SaveCustomDisplay"),
        Api::NvAPI_DISP_RevertCustomDisplayTrial => Some("NvAPI_DISP_RevertCustomDisplayTrial"),
        Api::NvAPI_EnumCustomDisplay => Some("NvAPI_EnumCustomDisplay"),
        Api::NvAPI_TryCustomDisplay => Some("NvAPI_TryCustomDisplay"),
        Api::NvAPI_RevertCustomDisplayTrial => Some("NvAPI_RevertCustomDisplayTrial"),
        Api::NvAPI_DeleteCustomDisplay => Some("NvAPI_DeleteCustomDisplay"),
        Api::NvAPI_SaveCustomDisplay => Some("NvAPI_SaveCustomDisplay"),
        Api::NvAPI_QueryUnderscanCap => Some("NvAPI_QueryUnderscanCap"),
        Api::NvAPI_EnumUnderscanConfig => Some("NvAPI_EnumUnderscanConfig"),
        Api::NvAPI_DeleteUnderscanConfig => Some("NvAPI_DeleteUnderscanConfig"),
        Api::NvAPI_SetUnderscanConfig => Some("NvAPI_SetUnderscanConfig"),
        Api::NvAPI_GetDisplayFeatureConfig => Some("NvAPI_GetDisplayFeatureConfig"),
        Api::NvAPI_SetDisplayFeatureConfig => Some("NvAPI_SetDisplayFeatureConfig"),
        Api::NvAPI_GetDisplayFeatureConfigDefaults => Some("NvAPI_GetDisplayFeatureConfigDefaults"),
        Api::NvAPI_SetView => Some("NvAPI_SetView"),
        Api::NvAPI_GetView => Some("NvAPI_GetView"),
        Api::NvAPI_SetViewEx => Some("NvAPI_SetViewEx"),
        Api::NvAPI_GetViewEx => Some("NvAPI_GetViewEx"),
        Api::NvAPI_GetSupportedViews => Some("NvAPI_GetSupportedViews"),
        Api::NvAPI_GetHDCPLinkParameters => Some("NvAPI_GetHDCPLinkParameters"),
        Api::NvAPI_Disp_DpAuxChannelControl => Some("NvAPI_Disp_DpAuxChannelControl"),
        Api::NvAPI_SetHybridMode => Some("NvAPI_SetHybridMode"),
        Api::NvAPI_GetHybridMode => Some("NvAPI_GetHybridMode"),
        Api::NvAPI_Coproc_GetCoprocStatus => Some("NvAPI_Coproc_GetCoprocStatus"),
        Api::NvAPI_Coproc_SetCoprocInfoFlagsEx => Some("NvAPI_Coproc_SetCoprocInfoFlagsEx"),
        Api::NvAPI_Coproc_GetCoprocInfoFlagsEx => Some("NvAPI_Coproc_GetCoprocInfoFlagsEx"),
        Api::NvAPI_Coproc_NotifyCoprocPowerState => Some("NvAPI_Coproc_NotifyCoprocPowerState"),
        Api::NvAPI_Coproc_GetApplicationCoprocInfo => Some("NvAPI_Coproc_GetApplicationCoprocInfo"),
        Api::NvAPI_GetVideoState => Some("NvAPI_GetVideoState"),
        Api::NvAPI_SetVideoState => Some("NvAPI_SetVideoState"),
        Api::NvAPI_SetFrameRateNotify => Some("NvAPI_SetFrameRateNotify"),
        Api::NvAPI_SetPVExtName => Some("NvAPI_SetPVExtName"),
        Api::NvAPI_GetPVExtName => Some("NvAPI_GetPVExtName"),
        Api::NvAPI_SetPVExtProfile => Some("NvAPI_SetPVExtProfile"),
        _ => None,
    }
}

fn name_part_6(a: Api) -> (r: Option<&'static str>)
    ensures
        api_name_part_6(a) == (match r { Some(s) => Some(s@), None => None }),
{
    match a {
        Api::NvAPI_GetPVExtProfile => Some("NvAPI_GetPVExtProfile"),
        Api::NvAPI_VideoSetStereoInfo => Some("NvAPI_VideoSetStereoInfo"),
        Api::NvAPI_VideoGetStereoInfo => Some("NvAPI_VideoGetStereoInfo"),
        Api::NvAPI_Mosaic_GetSupportedTopoInfo => Some("NvAPI_Mosaic_GetSupportedTopoInfo"),
        Api::NvAPI_Mosaic_GetTopoGroup => Some("NvAPI_Mosaic_GetTopoGroup"),
        Api::NvAPI_Mosaic_GetOverlapLimits => Some("NvAPI_Mosaic_GetOverlapLimits"),
        Api::NvAPI_Mosaic_SetCurrentTopo => Some("NvAPI_Mosaic_SetCurrentTopo"),
        Api::NvAPI_Mosaic_GetCurrentTopo => Some("NvAPI_Mosaic_GetCurrentTopo"),
        Api::NvAPI_Mosaic_EnableCurrentTopo => Some("NvAPI_Mosaic_EnableCurrentTopo"),
        Api::NvAPI_Mosaic_SetGridTopology => Some("NvAPI_Mosaic_SetGridTopology"),
        Api::NvAPI_Mosaic_GetMosaicCapabilities => Some("NvAPI_Mosaic_GetMosaicCapabilities"),
        Api::NvAPI_Mosaic_GetDisplayCapabilities => Some("NvAPI_Mosaic_GetDisplayCapabilities"),
        Api::NvAPI_Mosaic_EnumGridTopologies => Some("NvAPI_Mosaic_EnumGridTopologies"),
        Api::NvAPI_Mosaic_GetDisplayViewportsByResolution => Some("NvAPI_Mosaic_GetDisplayViewportsByResolution"),
        Api::NvAPI_Mosaic_GetMosaicViewports => Some("NvAPI_Mosaic_GetMosaicViewports"),
        Api::NvAPI_Mosaic_SetDisplayGrids => Some("NvAPI_Mosaic_SetDisplayGrids"),
        Api::NvAPI_Mosaic_ValidateDisplayGridsWithSLI => Some("NvAPI_Mosaic_ValidateDisplayGridsWithSLI"),
        Api::NvAPI_Mosaic_ValidateDisplayGrids => Some("NvAPI_Mosaic_ValidateDisplayGrids"),
        Api::NvAPI_Mosaic_EnumDisplayModes => Some("NvAPI_Mosaic_EnumDisplayModes"),
        Api::NvAPI_Mosaic_ChooseGpuTopologies => Some("NvAPI_Mosaic_ChooseGpuTopologies"),
        Api::NvAPI_Mosaic_EnumDisplayGrids => Some("NvAPI_Mosaic_EnumDisplayGrids"),
        Api::NvAPI_GetSupportedMosaicTopologies => Some("NvAPI_GetSupportedMosaicTopologies"),
        Api::NvAPI_GetCurrentMosaicTopology => Some("NvAPI_GetCurrentMosaicTopology"),
        Api::NvAPI_SetCurrentMosaicTopology => Some("NvAPI_SetCurrentMosaicTopology"),
        Api::NvAPI_EnableCurrentMosaicTopology => Some("NvAPI_EnableCurrentMosaicTopology"),
        Api::NvAPI_GSync_EnumSyncDevices => Some("NvAPI_GSync_EnumSyncDevices"),
        Api::NvAPI_GSync_QueryCapabilities => Some("NvAPI_GSync_QueryCapabilities"),
        Api::NvAPI_GSync_GetTopology => Some("NvAPI_GSync_GetTopology"),
        Api::NvAPI_GSync_SetSyncStateSettings => Some("NvAPI_GSync_SetSyncStateSettings"),
        Api::NvAPI_GSync_GetControlParameters => Some("NvAPI_GSync_GetControlParameters"),
        Api::NvAPI_GSync_SetControlParameters => Some("NvAPI_GSync_SetControlParameters"),
        Api::NvAPI_GSync_AdjustSyncDelay => Some("NvAPI_GSync_AdjustSyncDelay"),
        Api::NvAPI_GSync_GetSyncStatus => Some("NvAPI_GSync_GetSyncStatus"),
        Api::NvAPI_GSync_GetStatusParameters => Some("NvAPI_GSync_GetStatusParameters"),
        Api::NvAPI_QueryNonMigratableApps => Some("NvAPI_QueryNonMigratableApps"),
        Api::NvAPI_GPU_QueryActiveApps => Some("NvAPI_GPU_QueryActiveApps"),
        Api::NvAPI_Hybrid_QueryUnblockedNonMigratableApps => Some("NvAPI_Hybrid_QueryUnblockedNonMigratableApps"),
        Api::NvAPI_Hybrid_QueryBlockedMigratableApps => Some("NvAPI_Hybrid_QueryBlockedMigratableApps"),
        Api::NvAPI_Hybrid_SetAppMigrationState => Some("NvAPI_Hybrid_SetAppMigrationState"),
        Api::NvAPI_Hybrid_IsAppMigrationStateChangeable => Some("NvAPI_Hybrid_IsAppMigrationStateChangeable"),
        Api::NvAPI_GPU_GPIOQueryLegalPins => Some("NvAPI_GPU_GPIOQueryLegalPins"),
        Api::NvAPI_GPU_GPIOReadFromPin => Some("NvAPI_GPU_GPIOReadFromPin"),
        Api::NvAPI_GPU_GPIOWriteToPin => Some("NvAPI_GPU_GPIOWriteToPin"),
        Api::NvAPI_GPU_GetHDCPSupportStatus => Some("NvAPI_GPU_GetHDCPSupportStatus"),
        Api::NvAPI_SetTopologyFocusDisplayAndView => Some("NvAPI_SetTopologyFocusDisplayAndView"),
        Api::NvAPI_Stereo_CreateConfigurationProfileRegistryKey => Some("NvAPI_Stereo_CreateConfigurationProfileRegistryKey"),
        Api::NvAPI_Stereo_DeleteConfigurationProfileRegistryKey => Some("NvAPI_Stereo_DeleteConfigurationProfileRegistryKey"),
        Api::NvAPI_Stereo_SetConfigurationProfileValue => Some("NvAPI_Stereo_SetConfigurationProfileValue"),
        Api::NvAPI_Stereo_DeleteConfigurationProfileValue => Some("NvAPI_Stereo_DeleteConfigurationProfileValue"),
        Api::NvAPI_Stereo_Enable => Some("NvAPI_Stereo_Enable"),
        _ => None,
    }
}

fn name_part_7(a: Api) -> (r: Option<&'static str>)
    ensures
        api_name_part_7(a) == (match r { Some(s) => Some(s@), None => None }),
{
    match a {
        Api::NvAPI_Stereo_Disable => Some("NvAPI_Stereo_Disable"),
        Api::NvAPI_Stereo_IsEnabled => Some("NvAPI_Stereo_IsEnabled"),
        Api::NvAPI_Stereo_GetStereoCaps => Some("NvAPI_Stereo_GetStereoCaps"),
        Api::NvAPI_Stereo_GetStereoSupport => Some("NvAPI_Stereo_GetStereoSupport"),
        Api::NvAPI_Stereo_CreateHandleFromIUnknown => Some("NvAPI_Stereo_CreateHandleFromIUnknown"),
        Api::NvAPI_Stereo_DestroyHandle => Some("NvAPI_Stereo_DestroyHandle"),
        Api::NvAPI_Stereo_Activate => Some("NvAPI_Stereo_Activate"),
        Api::NvAPI_Stereo_Deactivate => Some("NvAPI_Stereo_Deactivate"),
        Api::NvAPI_Stereo_IsActivated => Some("NvAPI_Stereo_IsActivated"),
        Api::NvAPI_Stereo_GetSeparation => Some("NvAPI_Stereo_GetSeparation"),
        Api::NvAPI_Stereo_SetSeparation => Some("NvAPI_Stereo_SetSeparation"),
        Api::NvAPI_Stereo_DecreaseSeparation => Some("NvAPI_Stereo_DecreaseSeparation"),
        Api::NvAPI_Stereo_IncreaseSeparation => Some("NvAPI_Stereo_IncreaseSeparation"),
        Api::NvAPI_Stereo_GetConvergence => Some("NvAPI_Stereo_GetConvergence"),
        Api::NvAPI_Stereo_SetConvergence => Some("NvAPI_Stereo_SetConvergence"),
        Api::NvAPI_Stereo_DecreaseConvergence => Some("NvAPI_Stereo_DecreaseConvergence"),
        Api::NvAPI_Stereo_IncreaseConvergence => Some("NvAPI_Stereo_IncreaseConvergence"),
        Api::NvAPI_Stereo_GetFrustumAdjustMode => Some("NvAPI_Stereo_GetFrustumAdjustMode"),
        Api::NvAPI_Stereo_SetFrustumAdjustMode => Some("NvAPI_Stereo_SetFrustumAdjustMode"),
        Api::NvAPI_Stereo_CaptureJpegImage => Some("NvAPI_Stereo_CaptureJpegImage"),
        Api::NvAPI_Stereo_InitActivation => Some("NvAPI_Stereo_InitActivation"),
        Api::NvAPI_Stereo_Trigger_Activation => Some("NvAPI_Stereo_Trigger_Activation"),
        Api::NvAPI_Stereo_CapturePngImage => Some("NvAPI_Stereo_CapturePngImage"),
        Api::NvAPI_Stereo_ReverseStereoBlitControl => Some("NvAPI_Stereo_ReverseStereoBlitControl"),
        Api::NvAPI_Stereo_SetNotificationMessage => Some("NvAPI_Stereo_SetNotificationMessage"),
        Api::NvAPI_Stereo_SetActiveEye => Some("NvAPI_Stereo_SetActiveEye"),
        Api::NvAPI_Stereo_SetDriverMode => Some("NvAPI_Stereo_SetDriverMode"),
        Api::NvAPI_Stereo_GetEyeSeparation => Some("NvAPI_Stereo_GetEyeSeparation"),
        Api::NvAPI_Stereo_IsWindowedModeSupported => Some("NvAPI_Stereo_IsWindowedModeSupported"),
        Api::NvAPI_Stereo_AppHandShake => Some("NvAPI_Stereo_AppHandShake"),
        Api::NvAPI_Stereo_HandShake_Trigger_Activation => Some("NvAPI_Stereo_HandShake_Trigger_Activation"),
        Api::NvAPI_Stereo_HandShake_Message_Control => Some("NvAPI_Stereo_HandShake_Message_Control"),
        Api::NvAPI_Stereo_SetSurfaceCreationMode => Some("NvAPI_Stereo_SetSurfaceCreationMode"),
        Api::NvAPI_Stereo_GetSurfaceCreationMode => Some("NvAPI_Stereo_GetSurfaceCreationMode"),
        Api::NvAPI_Stereo_Debug_WasLastDrawStereoized => Some("NvAPI_Stereo_Debug_WasLastDrawStereoized"),
        Api::NvAPI_Stereo_ForceToScreenDepth => Some("NvAPI_Stereo_ForceToScreenDepth"),
        Api::NvAPI_Stereo_SetVertexShaderConstantF => Some("NvAPI_Stereo_SetVertexShaderConstantF"),
        Api::NvAPI_Stereo_SetVertexShaderConstantB => Some("NvAPI_Stereo_SetVertexShaderConstantB"),
        Api::NvAPI_Stereo_SetVertexShaderConstantI => Some("NvAPI_Stereo_SetVertexShaderConstantI"),
        Api::NvAPI_Stereo_GetVertexShaderConstantF => Some("NvAPI_Stereo_GetVertexShaderConstantF"),
        Api::NvAPI_Stereo_GetVertexShaderConstantB => Some("NvAPI_Stereo_GetVertexShaderConstantB"),
        Api::NvAPI_Stereo_GetVertexShaderConstantI => Some("NvAPI_Stereo_GetVertexShaderConstantI"),
        Api::NvAPI_Stereo_SetPixelShaderConstantF => Some("NvAPI_Stereo_SetPixelShaderConstantF"),
        Api::NvAPI_Stereo_SetPixelShaderConstantB => Some("NvAPI_Stereo_SetPixelShaderConstantB"),
        Api::NvAPI_Stereo_SetPixelShaderConstantI => Some("NvAPI_Stereo_SetPixelShaderConstantI"),
        Api::NvAPI_Stereo_GetPixelShaderConstantF => Some("NvAPI_Stereo_GetPixelShaderConstantF"),
        Api::NvAPI_Stereo_GetPixelShaderConstantB => Some("NvAPI_Stereo_GetPixelShaderConstantB"),
        Api::NvAPI_Stereo_GetPixelShaderConstantI => Some("NvAPI_Stereo_GetPixelShaderConstantI"),
        Api::NvAPI_Stereo_SetDefaultProfile => Some("NvAPI_Stereo_SetDefaultProfile"),
        Api::NvAPI_Stereo_GetDefaultProfile => Some("NvAPI_Stereo_GetDefaultProfile"),
        _ => None,
    }
}

fn name_part_8(a: Api) -> (r: Option<&'static str>)
    ensures
        api_name_part_8(a) == (match r { Some(s) => Some(s@), None => None }),
{
    match a {
        Api::NvAPI_Stereo_Is3DCursorSupported => Some("NvAPI_Stereo_Is3DCursorSupported"),
        Api::NvAPI_Stereo_GetCursorSeparation => Some("NvAPI_Stereo_GetCursorSeparation"),
        Api::NvAPI_Stereo_SetCursorSeparation => Some("NvAPI_Stereo_SetCursorSeparation"),
        Api::NvAPI_VIO_GetCapabilities => Some("NvAPI_VIO_GetCapabilities"),
        Api::NvAPI_VIO_Open => Some("NvAPI_VIO_Open"),
        Api::NvAPI_VIO_Close => Some("NvAPI_VIO_Close"),
        Api::NvAPI_VIO_Status => Some("NvAPI_VIO_Status"),
        Api::NvAPI_VIO_SyncFormatDetect => Some("NvAPI_VIO_SyncFormatDetect"),
        Api::NvAPI_VIO_GetConfig => Some("NvAPI_VIO_GetConfig"),
        Api::NvAPI_VIO_SetConfig => Some("NvAPI_VIO_SetConfig"),
        Api::NvAPI_VIO_SetCSC => Some("NvAPI_VIO_SetCSC"),
        Api::NvAPI_VIO_GetCSC => Some("NvAPI_VIO_GetCSC"),
        Api::NvAPI_VIO_SetGamma => Some("NvAPI_VIO_SetGamma"),
        Api::NvAPI_VIO_GetGamma => Some("NvAPI_VIO_GetGamma"),
        Api::NvAPI_VIO_SetSyncDelay => Some("NvAPI_VIO_SetSyncDelay"),
        Api::NvAPI_VIO_GetSyncDelay => Some("NvAPI_VIO_GetSyncDelay"),
        Api::NvAPI_VIO_GetPCIInfo => Some("NvAPI_VIO_GetPCIInfo"),
        Api::NvAPI_VIO_IsRunning => Some("NvAPI_VIO_IsRunning"),
        Api::NvAPI_VIO_Start => Some("NvAPI_VIO_Start"),
        Api::NvAPI_VIO_Stop => Some("NvAPI_VIO_Stop"),
        Api::NvAPI_VIO_IsFrameLockModeCompatible => Some("NvAPI_VIO_IsFrameLockModeCompatible"),
        Api::NvAPI_VIO_EnumDevices => Some("NvAPI_VIO_EnumDevices"),
        Api::NvAPI_VIO_QueryTopology => Some("NvAPI_VIO_QueryTopology"),
        Api::NvAPI_VIO_EnumSignalFormats => Some("NvAPI_VIO_EnumSignalFormats"),
        Api::NvAPI_VIO_EnumDataFormats => Some("NvAPI_VIO_EnumDataFormats"),
        Api::NvAPI_GPU_GetTachReading => Some("NvAPI_GPU_GetTachReading"),
        Api::NvAPI_3D_GetProperty => Some("NvAPI_3D_GetProperty"),
        Api::NvAPI_3D_SetProperty => Some("NvAPI_3D_SetProperty"),
        Api::NvAPI_3D_GetPropertyRange => Some("NvAPI_3D_GetPropertyRange"),
        Api::NvAPI_GPS_GetPowerSteeringStatus => Some("NvAPI_GPS_GetPowerSteeringStatus"),
        Api::NvAPI_GPS_SetPowerSteeringStatus => Some("NvAPI_GPS_SetPowerSteeringStatus"),
        Api::NvAPI_GPS_SetVPStateCap => Some("NvAPI_GPS_SetVPStateCap"),
        Api::NvAPI_GPS_GetVPStateCap => Some("NvAPI_GPS_GetVPStateCap"),
        Api::NvAPI_GPS_GetThermalLimit => Some("NvAPI_GPS_GetThermalLimit"),
        Api::NvAPI_GPS_SetThermalLimit => Some("NvAPI_GPS_SetThermalLimit"),
        Api::NvAPI_GPS_GetPerfSensors => Some("NvAPI_GPS_GetPerfSensors"),
        Api::NvAPI_SYS_GetDisplayIdFromGpuAndOutputId => Some("NvAPI_SYS_GetDisplayIdFromGpuAndOutputId"),
        Api::NvAPI_SYS_GetGpuAndOutputIdFromDisplayId => Some("NvAPI_SYS_GetGpuAndOutputIdFromDisplayId"),
        Api::NvAPI_GPU_ClientRegisterForUtilizationSampleUpdates => Some("NvAPI_GPU_ClientRegisterForUtilizationSampleUpdates"),
        Api::NvAPI_SYS_GetDisplayDriverInfo => Some("NvAPI_SYS_GetDisplayDriverInfo"),
        Api::NvAPI_SYS_GetPhysicalGpuFromDisplayId => Some("NvAPI_SYS_GetPhysicalGpuFromDisplayId"),
        Api::NvAPI_DISP_GetDisplayIdByDisplayName => Some("NvAPI_DISP_GetDisplayIdByDisplayName"),
        Api::NvAPI_DISP_GetGDIPrimaryDisplayId => Some("NvAPI_DISP_GetGDIPrimaryDisplayId"),
        Api::NvAPI_DISP_GetDisplayConfig => Some("NvAPI_DISP_GetDisplayConfig"),
        Api::NvAPI_DISP_SetDisplayConfig => Some("NvAPI_DISP_SetDisplayConfig"),
        Api::NvAPI_DISP_GetAdaptiveSyncData => Some("NvAPI_DISP_GetAdaptiveSyncData"),
        Api::NvAPI_DISP_SetAdaptiveSyncData => Some("NvAPI_DISP_SetAdaptiveSyncData"),
        Api::NvAPI_DISP_GetVirtualRefreshRateData => Some("NvAPI_DISP_GetVirtualRefreshRateData"),
        Api::NvAPI_DISP_SetVirtualRefreshRateData => Some("NvAPI_DISP_SetVirtualRefreshRateData"),
        Api::NvAPI_DISP_SetPreferredStereoDisplay => Some("NvAPI_DISP_SetPreferredStereoDisplay"),
        _ => None,
    }
}

fn name_part_9(a: Api) -> (r: Option<&'static str>)
    ensures
        api_name_part_9(a) == (match r { Some(s) => Some(s@), None => None }),
{
    match a {
        Api::NvAPI_DISP_GetPreferredStereoDisplay => Some("NvAPI_DISP_GetPreferredStereoDisplay"),
        Api::NvAPI_DISP_GetNvManagedDedicatedDisplays => Some("NvAPI_DISP_GetNvManagedDedicatedDisplays"),
        Api::NvAPI_DISP_AcquireDedicatedDisplay => Some("NvAPI_DISP_AcquireDedicatedDisplay"),
        Api::NvAPI_DISP_ReleaseDedicatedDisplay => Some("NvAPI_DISP_ReleaseDedicatedDisplay"),
        Api::NvAPI_GPU_GetPixelClockRange => Some("NvAPI_GPU_GetPixelClockRange"),
        Api::NvAPI_GPU_SetPixelClockRange => Some("NvAPI_GPU_SetPixelClockRange"),
        Api::NvAPI_GPU_GetECCStatusInfo => Some("NvAPI_GPU_GetECCStatusInfo"),
        Api::NvAPI_GPU_GetECCErrorInfo => Some("NvAPI_GPU_GetECCErrorInfo"),
        Api::NvAPI_GPU_ResetECCErrorInfo => Some("NvAPI_GPU_ResetECCErrorInfo"),
        Api::NvAPI_GPU_GetECCConfigurationInfo => Some("NvAPI_GPU_GetECCConfigurationInfo"),
        Api::NvAPI_GPU_SetECCConfiguration => Some("NvAPI_GPU_SetECCConfiguration"),
        Api::NvAPI_D3D1x_CreateSwapChain => Some("NvAPI_D3D1x_CreateSwapChain"),
        Api::NvAPI_D3D9_CreateSwapChain => Some("NvAPI_D3D9_CreateSwapChain"),
        Api::NvAPI_D3D_SetFPSIndicatorState => Some("NvAPI_D3D_SetFPSIndicatorState"),
        Api::NvAPI_D3D9_Present => Some("NvAPI_D3D9_Present"),
        Api::NvAPI_D3D9_QueryFrameCount => Some("NvAPI_D3D9_QueryFrameCount"),
        Api::NvAPI_D3D9_ResetFrameCount => Some("NvAPI_D3D9_ResetFrameCount"),
        Api::NvAPI_D3D9_QueryMaxSwapGroup => Some("NvAPI_D3D9_QueryMaxSwapGroup"),
        Api::NvAPI_D3D9_QuerySwapGroup => Some("NvAPI_D3D9_QuerySwapGroup"),
        Api::NvAPI_D3D9_JoinSwapGroup => Some("NvAPI_D3D9_JoinSwapGroup"),
        Api::NvAPI_D3D9_BindSwapBarrier => Some("NvAPI_D3D9_BindSwapBarrier"),
        Api::NvAPI_D3D1x_Present => Some("NvAPI_D3D1x_Present"),
        Api::NvAPI_D3D1x_QueryFrameCount => Some("NvAPI_D3D1x_QueryFrameCount"),
        Api::NvAPI_D3D1x_ResetFrameCount => Some("NvAPI_D3D1x_ResetFrameCount"),
        Api::NvAPI_D3D1x_QueryMaxSwapGroup => Some("NvAPI_D3D1x_QueryMaxSwapGroup"),
        Api::NvAPI_D3D1x_QuerySwapGroup => Some("NvAPI_D3D1x_QuerySwapGroup"),
        Api::NvAPI_D3D1x_JoinSwapGroup => Some("NvAPI_D3D1x_JoinSwapGroup"),
        Api::NvAPI_D3D1x_BindSwapBarrier => Some("NvAPI_D3D1x_BindSwapBarrier"),
        Api::NvAPI_SYS_VenturaGetState => Some("NvAPI_SYS_VenturaGetState"),
        Api::NvAPI_SYS_VenturaSetState => Some("NvAPI_SYS_VenturaSetState"),
        Api::NvAPI_SYS_VenturaGetCoolingBudget => Some("NvAPI_SYS_VenturaGetCoolingBudget"),
        Api::NvAPI_SYS_VenturaSetCoolingBudget => Some("NvAPI_SYS_VenturaSetCoolingBudget"),
        Api::NvAPI_SYS_VenturaGetPowerReading => Some("NvAPI_SYS_VenturaGetPowerReading"),
        Api::NvAPI_DISP_GetDisplayBlankingState => Some("NvAPI_DISP_GetDisplayBlankingState"),
        Api::NvAPI_DISP_SetDisplayBlankingState => Some("NvAPI_DISP_SetDisplayBlankingState"),
        Api::NvAPI_DRS_CreateSession => Some("NvAPI_DRS_CreateSession"),
        Api::NvAPI_DRS_DestroySession => Some("NvAPI_DRS_DestroySession"),
        Api::NvAPI_DRS_LoadSettings => Some("NvAPI_DRS_LoadSettings"),
        Api::NvAPI_DRS_SaveSettings => Some("NvAPI_DRS_SaveSettings"),
        Api::NvAPI_DRS_LoadSettingsFromFile => Some("NvAPI_DRS_LoadSettingsFromFile"),
        Api::NvAPI_DRS_SaveSettingsToFile => Some("NvAPI_DRS_SaveSettingsToFile"),
        Api::NvAPI_DRS_CreateProfile => Some("NvAPI_DRS_CreateProfile"),
        Api::NvAPI_DRS_DeleteProfile => Some("NvAPI_DRS_DeleteProfile"),
        Api::NvAPI_DRS_SetCurrentGlobalProfile => Some("NvAPI_DRS_SetCurrentGlobalProfile"),
        Api::NvAPI_DRS_GetCurrentGlobalProfile => Some("NvAPI_DRS_GetCurrentGlobalProfile"),
        Api::NvAPI_DRS_GetProfileInfo => Some("NvAPI_DRS_GetProfileInfo"),
        Api::NvAPI_DRS_SetProfileInfo => Some("NvAPI_DRS_SetProfileInfo"),
        Api::NvAPI_DRS_FindProfileByName => Some("NvAPI_DRS_FindProfileByName"),
        Api::NvAPI_DRS_EnumProfiles => Some("NvAPI_DRS_EnumProfiles"),
        Api::NvAPI_DRS_GetNumProfiles => Some("NvAPI_DRS_GetNumProfiles"),
        _ => None,
    }
}

fn name_part_10(a: Api) -> (r: Option<&'static str>)
    ensures
        api_name_part_10(a) == (match r { Some(s) => Some(s@), None => None }),
{
    match a {
        Api::NvAPI_DRS_CreateApplication => Some("NvAPI_DRS_CreateApplication"),
        Api::NvAPI_DRS_DeleteApplicationEx => Some("NvAPI_DRS_DeleteApplicationEx"),
        Api::NvAPI_DRS_DeleteApplication => Some("NvAPI_DRS_DeleteApplication"),
        Api::NvAPI_DRS_GetApplicationInfo => Some("NvAPI_DRS_GetApplicationInfo"),
        Api::NvAPI_DRS_EnumApplications => Some("NvAPI_DRS_EnumApplications"),
        Api::NvAPI_DRS_FindApplicationByName => Some("NvAPI_DRS_FindApplicationByName"),
        Api::NvAPI_DRS_SetSetting => Some("NvAPI_DRS_SetSetting"),
        Api::NvAPI_DRS_GetSetting => Some("NvAPI_DRS_GetSetting"),
        Api::NvAPI_DRS_EnumSettings => Some("NvAPI_DRS_EnumSettings"),
        Api::NvAPI_DRS_EnumAvailableSettingIds => Some("NvAPI_DRS_EnumAvailableSettingIds"),
        Api::NvAPI_DRS_EnumAvailableSettingValues => Some("NvAPI_DRS_EnumAvailableSettingValues"),
        Api::NvAPI_DRS_GetSettingIdFromName => Some("NvAPI_DRS_GetSettingIdFromName"),
        Api::NvAPI_DRS_GetSettingNameFromId => Some("NvAPI_DRS_GetSettingNameFromId"),
        Api::NvAPI_DRS_DeleteProfileSetting => Some("NvAPI_DRS_DeleteProfileSetting"),
        Api::NvAPI_DRS_RestoreAllDefaults => Some("NvAPI_DRS_RestoreAllDefaults"),
        Api::NvAPI_DRS_RestoreProfileDefault => Some("NvAPI_DRS_RestoreProfileDefault"),
        Api::NvAPI_DRS_RestoreProfileDefaultSetting => Some("NvAPI_DRS_RestoreProfileDefaultSetting"),
        Api::NvAPI_DRS_GetBaseProfile => Some("NvAPI_DRS_GetBaseProfile"),
        Api::NvAPI_Event_RegisterCallback => Some("NvAPI_Event_RegisterCallback"),
        Api::NvAPI_Event_UnregisterCallback => Some("NvAPI_Event_UnregisterCallback"),
        Api::NvAPI_GPU_GetCurrentThermalLevel => Some("NvAPI_GPU_GetCurrentThermalLevel"),
        Api::NvAPI_GPU_GetCurrentFanSpeedLevel => Some("NvAPI_GPU_GetCurrentFanSpeedLevel"),
        Api::NvAPI_GPU_SetScanoutIntensity => Some("NvAPI_GPU_SetScanoutIntensity"),
        Api::NvAPI_GPU_GetScanoutIntensityState => Some("NvAPI_GPU_GetScanoutIntensityState"),
        Api::NvAPI_GPU_SetScanoutWarping => Some("NvAPI_GPU_SetScanoutWarping"),
        Api::NvAPI_GPU_GetScanoutWarpingState => Some("NvAPI_GPU_GetScanoutWarpingState"),
        Api::NvAPI_GPU_SetScanoutCompositionParameter => Some("NvAPI_GPU_SetScanoutCompositionParameter"),
        Api::NvAPI_GPU_GetScanoutCompositionParameter => Some("NvAPI_GPU_GetScanoutCompositionParameter"),
        Api::NvAPI_GPU_GetScanoutConfiguration => Some("NvAPI_GPU_GetScanoutConfiguration"),
        Api::NvAPI_GPU_GetScanoutConfigurationEx => Some("NvAPI_GPU_GetScanoutConfigurationEx"),
        Api::NvAPI_DISP_SetHCloneTopology => Some("NvAPI_DISP_SetHCloneTopology"),
        Api::NvAPI_DISP_GetHCloneTopology => Some("NvAPI_DISP_GetHCloneTopology"),
        Api::NvAPI_DISP_ValidateHCloneTopology => Some("NvAPI_DISP_ValidateHCloneTopology"),
        Api::NvAPI_GPU_GetAdapterIdFromPhysicalGpu => Some("NvAPI_GPU_GetAdapterIdFromPhysicalGpu"),
        Api::NvAPI_GPU_GetVirtualizationInfo => Some("NvAPI_GPU_GetVirtualizationInfo"),
        Api::NvAPI_GPU_GetLogicalGpuInfo => Some("NvAPI_GPU_GetLogicalGpuInfo"),
        Api::NvAPI_GPU_GetLicensableFeatures => Some("NvAPI_GPU_GetLicensableFeatures"),
        Api::NvAPI_GPU_GetVRReadyData => Some("NvAPI_GPU_GetVRReadyData"),
        Api::NvAPI_GPU_GetPerfDecreaseInfo => Some("NvAPI_GPU_GetPerfDecreaseInfo"),
        Api::NvAPI_GPU_QueryIlluminationSupport => Some("NvAPI_GPU_QueryIlluminationSupport"),
        Api::NvAPI_GPU_GetIllumination => Some("NvAPI_GPU_GetIllumination"),
        Api::NvAPI_GPU_SetIllumination => Some("NvAPI_GPU_SetIllumination"),
        Api::NvAPI_D3D1x_IFR_SetUpTargetBufferToSys => Some("NvAPI_D3D1x_IFR_SetUpTargetBufferToSys"),
        Api::NvAPI_D3D1x_IFR_TransferRenderTarget => Some("NvAPI_D3D1x_IFR_TransferRenderTarget"),
        Api::NvAPI_GetPhysicalGPUFromDisplay => Some("NvAPI_GetPhysicalGPUFromDisplay"),
        Api::NvAPI_GetPhysicalGPUFromGPUID => Some("NvAPI_GetPhysicalGPUFromGPUID"),
        Api::NvAPI_GetGPUIDfromPhysicalGPU => Some("NvAPI_GetGPUIDfromPhysicalGPU"),
        Api::NvAPI_GetInfoFrameStatePvt => Some("NvAPI_GetInfoFrameStatePvt"),
        Api::NvAPI_GPU_GetMemoryInfo => Some("NvAPI_GPU_GetMemoryInfo"),
        Api::NvAPI_GPU_GetMemoryInfoEx => Some("NvAPI_GPU_GetMemoryInfoEx"),
        _ => None,
    }
}

fn name_part_11(a: Api) -> (r: Option<&'static str>)
    ensures
        api_name_part_11(a) == (match r { Some(s) => Some(s@), None => None }),
{
    match a {
        Api::NvAPI_LoadMicrocode => Some("NvAPI_LoadMicrocode"),
        Api::NvAPI_GetLoadedMicrocodePrograms => Some("NvAPI_GetLoadedMicrocodePrograms"),
        Api::NvAPI_GetDisplayDriverBuildTitle => Some("NvAPI_GetDisplayDriverBuildTitle"),
        Api::NvAPI_GetDisplayDriverCompileType => Some("NvAPI_GetDisplayDriverCompileType"),
        Api::NvAPI_GetDisplayDriverSecurityLevel => Some("NvAPI_GetDisplayDriverSecurityLevel"),
        Api::NvAPI_AccessDisplayDriverRegistry => Some("NvAPI_AccessDisplayDriverRegistry"),
        Api::NvAPI_GetDisplayDriverRegistryPath => Some("NvAPI_GetDisplayDriverRegistryPath"),
        Api::NvAPI_GetUnAttachedDisplayDriverRegistryPath => Some("NvAPI_GetUnAttachedDisplayDriverRegistryPath"),
        Api::NvAPI_GPU_GetRawFuseData => Some("NvAPI_GPU_GetRawFuseData"),
        Api::NvAPI_GPU_GetFoundry => Some("NvAPI_GPU_GetFoundry"),
        Api::NvAPI_GPU_GetVPECount => Some("NvAPI_GPU_GetVPECount"),
        Api::NvAPI_GPU_GetTargetID => Some("NvAPI_GPU_GetTargetID"),
        Api::NvAPI_GPU_GetShortName => Some("NvAPI_GPU_GetShortName"),
        Api::NvAPI_GPU_GetVbiosMxmVersion => Some("NvAPI_GPU_GetVbiosMxmVersion"),
        Api::NvAPI_GPU_GetVbiosImage => Some("NvAPI_GPU_GetVbiosImage"),
        Api::NvAPI_GPU_GetMXMBlock => Some("NvAPI_GPU_GetMXMBlock"),
        Api::NvAPI_GPU_SetCurrentPCIEWidth => Some("NvAPI_GPU_SetCurrentPCIEWidth"),
        Api::NvAPI_GPU_SetCurrentPCIESpeed => Some("NvAPI_GPU_SetCurrentPCIESpeed"),
        Api::NvAPI_GPU_GetPCIEInfo => Some("NvAPI_GPU_GetPCIEInfo"),
        Api::NvAPI_GPU_ClearPCIELinkErrorInfo => Some("NvAPI_GPU_ClearPCIELinkErrorInfo"),
        Api::NvAPI_GPU_ClearPCIELinkAERInfo => Some("NvAPI_GPU_ClearPCIELinkAERInfo"),
        Api::NvAPI_GPU_GetFrameBufferCalibrationLockFailures => Some("NvAPI_GPU_GetFrameBufferCalibrationLockFailures"),
        Api::NvAPI_GPU_SetDisplayUnderflowMode => Some("NvAPI_GPU_SetDisplayUnderflowMode"),
        Api::NvAPI_GPU_GetDisplayUnderflowStatus => Some("NvAPI_GPU_GetDisplayUnderflowStatus"),
        Api::NvAPI_GPU_GetBarInfo => Some("NvAPI_GPU_GetBarInfo"),
        Api::NvAPI_GPU_GetPSFloorSweepStatus => Some("NvAPI_GPU_GetPSFloorSweepStatus"),
        Api::NvAPI_GPU_GetVSFloorSweepStatus => Some("NvAPI_GPU_GetVSFloorSweepStatus"),
        Api::NvAPI_GPU_GetSerialNumber => Some("NvAPI_GPU_GetSerialNumber"),
        Api::NvAPI_GPU_GetManufacturingInfo => Some("NvAPI_GPU_GetManufacturingInfo"),
        Api::NvAPI_GPU_GetRamConfigStrap => Some("NvAPI_GPU_GetRamConfigStrap"),
        Api::NvAPI_GPU_GetRamBusWidth => Some("NvAPI_GPU_GetRamBusWidth"),
        Api::NvAPI_GPU_GetRamBankCount => Some("NvAPI_GPU_GetRamBankCount"),
        Api::NvAPI_GPU_GetArchInfo => Some("NvAPI_GPU_GetArchInfo"),
        Api::NvAPI_GPU_GetExtendedMinorRevision => Some("NvAPI_GPU_GetExtendedMinorRevision"),
        Api::NvAPI_GPU_GetSampleType => Some("NvAPI_GPU_GetSampleType"),
        Api::NvAPI_GPU_GetHardwareQualType => Some("NvAPI_GPU_GetHardwareQualType"),
        Api::NvAPI_GPU_GetAllClocks => Some("NvAPI_GPU_GetAllClocks"),
        Api::NvAPI_GPU_SetClocks => Some("NvAPI_GPU_SetClocks"),
        Api::NvAPI_GPU_SetPerfHybridMode => Some("NvAPI_GPU_SetPerfHybridMode"),
        Api::NvAPI_GPU_GetPerfHybridMode => Some("NvAPI_GPU_GetPerfHybridMode"),
        Api::NvAPI_GPU_GetHybridControllerInfo => Some("NvAPI_GPU_GetHybridControllerInfo"),
        Api::NvAPI_RestartDisplayDriver => Some("NvAPI_RestartDisplayDriver"),
        Api::NvAPI_GPU_GetAllGpusOnSameBoard => Some("NvAPI_GPU_GetAllGpusOnSameBoard"),
        Api::NvAPI_SetTopologyDisplayGPU => Some("NvAPI_SetTopologyDisplayGPU"),
        Api::NvAPI_GetTopologyDisplayGPU => Some("NvAPI_GetTopologyDisplayGPU"),
        Api::NvAPI_SYS_GetSliApprovalCookie => Some("NvAPI_SYS_GetSliApprovalCookie"),
        Api::NvAPI_CreateUnAttachedDisplayFromDisplay => Some("NvAPI_CreateUnAttachedDisplayFromDisplay"),
        Api::NvAPI_GetDriverModel => Some("NvAPI_GetDriverModel"),
        Api::NvAPI_GPU_CudaEnumComputeCapableGpus => Some("NvAPI_GPU_CudaEnumComputeCapableGpus"),
        Api::NvAPI_GPU_PhysxSetState => Some("NvAPI_GPU_PhysxSetState"),
        _ => None,
    }
}

fn name_part_12(a: Api) -> (r: Option<&'static str>)
    ensures
        api_name_part_12(a) == (match r { Some(s) => Some(s@), None => None }),
{
    match a {
        Api::NvAPI_GPU_PhysxQueryRecommendedState => Some("NvAPI_GPU_PhysxQueryRecommendedState"),
        Api::NvAPI_GPU_GetDeepIdleState => Some("NvAPI_GPU_GetDeepIdleState"),
        Api::NvAPI_GPU_SetDeepIdleState => Some("NvAPI_GPU_SetDeepIdleState"),
        Api::NvAPI_GetScalingCaps => Some("NvAPI_GetScalingCaps"),
        Api::NvAPI_GPU_GetThermalTable => Some("NvAPI_GPU_GetThermalTable"),
        Api::NvAPI_SYS_SetPostOutput => Some("NvAPI_SYS_SetPostOutput"),
        Api::NvAPI_GPU_PerfPoliciesGetInfo => Some("NvAPI_GPU_PerfPoliciesGetInfo"),
        Api::NvAPI_GPU_PerfPoliciesGetStatus => Some("NvAPI_GPU_PerfPoliciesGetStatus"),
        Api::NvAPI_GPU_ClientThermalPoliciesGetInfo => Some("NvAPI_GPU_ClientThermalPoliciesGetInfo"),
        Api::NvAPI_GPU_ClientThermalPoliciesGetStatus => Some("NvAPI_GPU_ClientThermalPoliciesGetStatus"),
        Api::NvAPI_GPU_ClientThermalPoliciesSetStatus => Some("NvAPI_GPU_ClientThermalPoliciesSetStatus"),
        Api::NvAPI_GPU_ClientVoltRailsGetStatus => Some("NvAPI_GPU_ClientVoltRailsGetStatus"),
        Api::NvAPI_GPU_GetVoltageStep => Some("NvAPI_GPU_GetVoltageStep"),
        Api::NvAPI_GPU_ClockClientClkDomainsGetInfo => Some("NvAPI_GPU_ClockClientClkDomainsGetInfo"),
        Api::NvAPI_GPU_ClockClientClkVfPointsGetInfo => Some("NvAPI_GPU_ClockClientClkVfPointsGetInfo"),
        Api::NvAPI_GPU_ClockClientClkVfPointsGetControl => Some("NvAPI_GPU_ClockClientClkVfPointsGetControl"),
        Api::NvAPI_GPU_ClockClientClkVfPointsSetControl => Some("NvAPI_GPU_ClockClientClkVfPointsSetControl"),
        Api::NvAPI_GPU_ClockClientClkVfPointsGetStatus => Some("NvAPI_GPU_ClockClientClkVfPointsGetStatus"),
        Api::NvAPI_GPU_PerfClientLimitsGetStatus => Some("NvAPI_GPU_PerfClientLimitsGetStatus"),
        Api::NvAPI_GPU_PerfClientLimitsSetStatus => Some("NvAPI_GPU_PerfClientLimitsSetStatus"),
        Api::NvAPI_GPU_ClientVoltRailsGetControl => Some("NvAPI_GPU_ClientVoltRailsGetControl"),
        Api::NvAPI_GPU_ClientVoltRailsSetControl => Some("NvAPI_GPU_ClientVoltRailsSetControl"),
        Api::NvAPI_GPU_ClientFanArbitersGetControl => Some("NvAPI_GPU_ClientFanArbitersGetControl"),
        Api::NvAPI_GPU_ClientFanArbitersGetInfo => Some("NvAPI_GPU_ClientFanArbitersGetInfo"),
        Api::NvAPI_GPU_ClientFanArbitersGetStatus => Some("NvAPI_GPU_ClientFanArbitersGetStatus"),
        Api::NvAPI_GPU_ClientFanArbitersSetControl => Some("NvAPI_GPU_ClientFanArbitersSetControl"),
        Api::NvAPI_GPU_ClientFanCoolersGetControl => Some("NvAPI_GPU_ClientFanCoolersGetControl"),
        Api::NvAPI_GPU_ClientFanCoolersGetInfo => Some("NvAPI_GPU_ClientFanCoolersGetInfo"),
        Api::NvAPI_GPU_ClientFanCoolersGetStatus => Some("NvAPI_GPU_ClientFanCoolersGetStatus"),
        Api::NvAPI_GPU_ClientFanCoolersSetControl => Some("NvAPI_GPU_ClientFanCoolersSetControl"),
        Api::NvAPI_GPU_ClientFanPoliciesGetControl => Some("NvAPI_GPU_ClientFanPoliciesGetControl"),
        Api::NvAPI_GPU_ClientFanPoliciesGetInfo => Some("NvAPI_GPU_ClientFanPoliciesGetInfo"),
        Api::NvAPI_GPU_ClientFanPoliciesSetControl => Some("NvAPI_GPU_ClientFanPoliciesSetControl"),
        Api::NvAPI_GPU_ClientGetLastOcScannerResults => Some("NvAPI_GPU_ClientGetLastOcScannerResults"),
        Api::NvAPI_GPU_ClientGetOcConfig => Some("NvAPI_GPU_ClientGetOcConfig"),
        Api::NvAPI_GPU_ClientIllumDevicesGetInfo => Some("NvAPI_GPU_ClientIllumDevicesGetInfo"),
        Api::NvAPI_GPU_ClientIllumDevicesGetControl => Some("NvAPI_GPU_ClientIllumDevicesGetControl"),
        Api::NvAPI_GPU_ClientIllumDevicesSetControl => Some("NvAPI_GPU_ClientIllumDevicesSetControl"),
        Api::NvAPI_GPU_ClientIllumZonesGetControl => Some("NvAPI_GPU_ClientIllumZonesGetControl"),
        Api::NvAPI_GPU_ClientIllumZonesGetInfo => Some("NvAPI_GPU_ClientIllumZonesGetInfo"),
        Api::NvAPI_GPU_ClientIllumZonesSetControl => Some("NvAPI_GPU_ClientIllumZonesSetControl"),
        Api::NvAPI_GPU_ClientRegisterForOcConfigChangedUpdates => Some("NvAPI_GPU_ClientRegisterForOcConfigChangedUpdates"),
        Api::NvAPI_GPU_ClientRegisterForOcScannerStatusUpdates => Some("NvAPI_GPU_ClientRegisterForOcScannerStatusUpdates"),
        Api::NvAPI_GPU_ClientRevertOc => Some("NvAPI_GPU_ClientRevertOc"),
        Api::NvAPI_GPU_ClientStartOcScanner => Some("NvAPI_GPU_ClientStartOcScanner"),
        Api::NvAPI_GPU_ClientStopOcScanner => Some("NvAPI_GPU_ClientStopOcScanner"),
        Api::NvAPI_GPU_GetUsages => Some("NvAPI_GPU_GetUsages"),
        Api::NvAPI_GPU_GetRamMaker => Some("NvAPI_GPU_GetRamMaker"),
        Api::NvAPI_D3D_GetObjectHandleForResource => Some("NvAPI_D3D_GetObjectHandleForResource"),
        Api::NvAPI_D3D_SetResourceHint => Some("NvAPI_D3D_SetResourceHint"),
        _ => None,
    }
}

fn name_part_13(a: Api) -> (r: Option<&'static str>)
    ensures
        api_name_part_13(a) == (match r { Some(s) => Some(s@), None => None }),
{
    match a {
        Api::NvAPI_D3D_BeginResourceRendering => Some("NvAPI_D3D_BeginResourceRendering"),
        Api::NvAPI_D3D_EndResourceRendering => Some("NvAPI_D3D_EndResourceRendering"),
        Api::NvAPI_D3D12_QueryPresentBarrierSupport => Some("NvAPI_D3D12_QueryPresentBarrierSupport"),
        Api::NvAPI_D3D12_CreatePresentBarrierClient => Some("NvAPI_D3D12_CreatePresentBarrierClient"),
        Api::NvAPI_D3D12_RegisterPresentBarrierResources => Some("NvAPI_D3D12_RegisterPresentBarrierResources"),
        Api::NvAPI_DestroyPresentBarrierClient => Some("NvAPI_DestroyPresentBarrierClient"),
        Api::NvAPI_JoinPresentBarrier => Some("NvAPI_JoinPresentBarrier"),
        Api::NvAPI_LeavePresentBarrier => Some("NvAPI_LeavePresentBarrier"),
        Api::NvAPI_QueryPresentBarrierFrameStatistics => Some("NvAPI_QueryPresentBarrierFrameStatistics"),
        Api::NvAPI_D3D12_CreateDDisplayPresentBarrierClient => Some("NvAPI_D3D12_CreateDDisplayPresentBarrierClient"),
        Api::NvAPI_D3D11_CreateRasterizerState => Some("NvAPI_D3D11_CreateRasterizerState"),
        Api::NvAPI_D3D_ConfigureAnsel => Some("NvAPI_D3D_ConfigureAnsel"),
        Api::NvAPI_D3D11_CreateTiledTexture2DArray => Some("NvAPI_D3D11_CreateTiledTexture2DArray"),
        Api::NvAPI_D3D11_CheckFeatureSupport => Some("NvAPI_D3D11_CheckFeatureSupport"),
        Api::NvAPI_D3D11_CreateImplicitMSAATexture2D => Some("NvAPI_D3D11_CreateImplicitMSAATexture2D"),
        Api::NvAPI_D3D12_CreateCommittedImplicitMSAATexture2D => Some("NvAPI_D3D12_CreateCommittedImplicitMSAATexture2D"),
        Api::NvAPI_D3D11_ResolveSubresourceRegion => Some("NvAPI_D3D11_ResolveSubresourceRegion"),
        Api::NvAPI_D3D12_ResolveSubresourceRegion => Some("NvAPI_D3D12_ResolveSubresourceRegion"),
        Api::NvAPI_D3D11_TiledTexture2DArrayGetDesc => Some("NvAPI_D3D11_TiledTexture2DArrayGetDesc"),
        Api::NvAPI_D3D11_UpdateTileMappings => Some("NvAPI_D3D11_UpdateTileMappings"),
        Api::NvAPI_D3D11_CopyTileMappings => Some("NvAPI_D3D11_CopyTileMappings"),
        Api::NvAPI_D3D11_TiledResourceBarrier => Some("NvAPI_D3D11_TiledResourceBarrier"),
        Api::NvAPI_D3D11_AliasMSAATexture2DAsNonMSAA => Some("NvAPI_D3D11_AliasMSAATexture2DAsNonMSAA"),
        Api::NvAPI_D3D11_CreateGeometryShaderEx_2 => Some("NvAPI_D3D11_CreateGeometryShaderEx_2"),
        Api::NvAPI_D3D11_CreateVertexShaderEx => Some("NvAPI_D3D11_CreateVertexShaderEx"),
        Api::NvAPI_D3D11_CreateHullShaderEx => Some("NvAPI_D3D11_CreateHullShaderEx"),
        Api::NvAPI_D3D11_CreateDomainShaderEx => Some("NvAPI_D3D11_CreateDomainShaderEx"),
        Api::NvAPI_D3D11_CreatePixelShaderEx_2 => Some("NvAPI_D3D11_CreatePixelShaderEx_2"),
        Api::NvAPI_D3D11_CreateFastGeometryShaderExplicit => Some("NvAPI_D3D11_CreateFastGeometryShaderExplicit"),
        Api::NvAPI_D3D11_CreateFastGeometryShader => Some("NvAPI_D3D11_CreateFastGeometryShader"),
        Api::NvAPI_D3D11_DecompressView => Some("NvAPI_D3D11_DecompressView"),
        Api::NvAPI_D3D12_CreateGraphicsPipelineState => Some("NvAPI_D3D12_CreateGraphicsPipelineState"),
        Api::NvAPI_D3D12_CreateComputePipelineState => Some("NvAPI_D3D12_CreateComputePipelineState"),
        Api::NvAPI_D3D12_SetDepthBoundsTestValues => Some("NvAPI_D3D12_SetDepthBoundsTestValues"),
        Api::NvAPI_D3D12_CreateReservedResource => Some("NvAPI_D3D12_CreateReservedResource"),
        Api::NvAPI_D3D12_CreateHeap => Some("NvAPI_D3D12_CreateHeap"),
        Api::NvAPI_D3D12_CreateHeap2 => Some("NvAPI_D3D12_CreateHeap2"),
        Api::NvAPI_D3D12_QueryCpuVisibleVidmem => Some("NvAPI_D3D12_QueryCpuVisibleVidmem"),
        Api::NvAPI_D3D12_ReservedResourceGetDesc => Some("NvAPI_D3D12_ReservedResourceGetDesc"),
        Api::NvAPI_D3D12_UpdateTileMappings => Some("NvAPI_D3D12_UpdateTileMappings"),
        Api::NvAPI_D3D12_CopyTileMappings => Some("NvAPI_D3D12_CopyTileMappings"),
        Api::NvAPI_D3D12_ResourceAliasingBarrier => Some("NvAPI_D3D12_ResourceAliasingBarrier"),
        Api::NvAPI_D3D12_CaptureUAVInfo => Some("NvAPI_D3D12_CaptureUAVInfo"),
        Api::NvAPI_D3D11_GetResourceGPUVirtualAddressEx => Some("NvAPI_D3D11_GetResourceGPUVirtualAddressEx"),
        Api::NvAPI_D3D11_EnumerateMetaCommands => Some("NvAPI_D3D11_EnumerateMetaCommands"),
        Api::NvAPI_D3D11_CreateMetaCommand => Some("NvAPI_D3D11_CreateMetaCommand"),
        Api::NvAPI_D3D11_InitializeMetaCommand => Some("NvAPI_D3D11_InitializeMetaCommand"),
        Api::NvAPI_D3D11_ExecuteMetaCommand => Some("NvAPI_D3D11_ExecuteMetaCommand"),
        Api::NvAPI_D3D12_EnumerateMetaCommands => Some("NvAPI_D3D12_EnumerateMetaCommands"),
        Api::NvAPI_D3D12_CreateMetaCommand => Some("NvAPI_D3D12_CreateMetaCommand"),
        _ => None,
    }
}

fn name_part_14(a: Api) -> (r: Option<&'static str>)
    ensures
        api_name_part_14(a) == (match r { Some(s) => Some(s@), None => None }),
{
    match a {
        Api::NvAPI_D3D12_InitializeMetaCommand => Some("NvAPI_D3D12_InitializeMetaCommand"),
        Api::NvAPI_D3D12_ExecuteMetaCommand => Some("NvAPI_D3D12_ExecuteMetaCommand"),
        Api::NvAPI_D3D12_CreateCommittedResource => Some("NvAPI_D3D12_CreateCommittedResource"),
        Api::NvAPI_D3D12_GetCopyableFootprints => Some("NvAPI_D3D12_GetCopyableFootprints"),
        Api::NvAPI_D3D12_CopyTextureRegion => Some("NvAPI_D3D12_CopyTextureRegion"),
        Api::NvAPI_D3D12_IsNvShaderExtnOpCodeSupported => Some("NvAPI_D3D12_IsNvShaderExtnOpCodeSupported"),
        Api::NvAPI_D3D12_GetOptimalThreadCountForMesh => Some("NvAPI_D3D12_GetOptimalThreadCountForMesh"),
        Api::NvAPI_D3D_IsGSyncCapable => Some("NvAPI_D3D_IsGSyncCapable"),
        Api::NvAPI_D3D_IsGSyncActive => Some("NvAPI_D3D_IsGSyncActive"),
        Api::NvAPI_D3D1x_DisableShaderDiskCache => Some("NvAPI_D3D1x_DisableShaderDiskCache"),
        Api::NvAPI_D3D11_MultiGPU_GetCaps => Some("NvAPI_D3D11_MultiGPU_GetCaps"),
        Api::NvAPI_D3D11_MultiGPU_Init => Some("NvAPI_D3D11_MultiGPU_Init"),
        Api::NvAPI_D3D11_CreateMultiGPUDevice => Some("NvAPI_D3D11_CreateMultiGPUDevice"),
        Api::NvAPI_D3D_QuerySinglePassStereoSupport => Some("NvAPI_D3D_QuerySinglePassStereoSupport"),
        Api::NvAPI_D3D_SetSinglePassStereoMode => Some("NvAPI_D3D_SetSinglePassStereoMode"),
        Api::NvAPI_D3D12_QuerySinglePassStereoSupport => Some("NvAPI_D3D12_QuerySinglePassStereoSupport"),
        Api::NvAPI_D3D12_SetSinglePassStereoMode => Some("NvAPI_D3D12_SetSinglePassStereoMode"),
        Api::NvAPI_D3D_QueryMultiViewSupport => Some("NvAPI_D3D_QueryMultiViewSupport"),
        Api::NvAPI_D3D_SetMultiViewMode => Some("NvAPI_D3D_SetMultiViewMode"),
        Api::NvAPI_D3D_QueryModifiedWSupport => Some("NvAPI_D3D_QueryModifiedWSupport"),
        Api::NvAPI_D3D_SetModifiedWMode => Some("NvAPI_D3D_SetModifiedWMode"),
        Api::NvAPI_D3D12_QueryModifiedWSupport => Some("NvAPI_D3D12_QueryModifiedWSupport"),
        Api::NvAPI_D3D12_SetModifiedWMode => Some("NvAPI_D3D12_SetModifiedWMode"),
        Api::NvAPI_D3D_CreateLateLatchObject => Some("NvAPI_D3D_CreateLateLatchObject"),
        Api::NvAPI_D3D_QueryLateLatchSupport => Some("NvAPI_D3D_QueryLateLatchSupport"),
        Api::NvAPI_D3D_RegisterDevice => Some("NvAPI_D3D_RegisterDevice"),
        Api::NvAPI_D3D11_MultiDrawInstancedIndirect => Some("NvAPI_D3D11_MultiDrawInstancedIndirect"),
        Api::NvAPI_D3D11_MultiDrawIndexedInstancedIndirect => Some("NvAPI_D3D11_MultiDrawIndexedInstancedIndirect"),
        Api::NvAPI_D3D_ImplicitSLIControl => Some("NvAPI_D3D_ImplicitSLIControl"),
        Api::NvAPI_D3D12_UseDriverHeapPriorities => Some("NvAPI_D3D12_UseDriverHeapPriorities"),
        Api::NvAPI_D3D12_Mosaic_GetCompanionAllocations => Some("NvAPI_D3D12_Mosaic_GetCompanionAllocations"),
        Api::NvAPI_D3D12_Mosaic_GetViewportAndGpuPartitions => Some("NvAPI_D3D12_Mosaic_GetViewportAndGpuPartitions"),
        Api::NvAPI_D3D1x_GetGraphicsCapabilities => Some("NvAPI_D3D1x_GetGraphicsCapabilities"),
        Api::NvAPI_D3D12_GetGraphicsCapabilities => Some("NvAPI_D3D12_GetGraphicsCapabilities"),
        Api::NvAPI_D3D11_RSSetExclusiveScissorRects => Some("NvAPI_D3D11_RSSetExclusiveScissorRects"),
        Api::NvAPI_D3D11_RSSetViewportsPixelShadingRates => Some("NvAPI_D3D11_RSSetViewportsPixelShadingRates"),
        Api::NvAPI_D3D11_CreateShadingRateResourceView => Some("NvAPI_D3D11_CreateShadingRateResourceView"),
        Api::NvAPI_D3D11_RSSetShadingRateResourceView => Some("NvAPI_D3D11_RSSetShadingRateResourceView"),
        Api::NvAPI_D3D11_RSGetPixelShadingRateSampleOrder => Some("NvAPI_D3D11_RSGetPixelShadingRateSampleOrder"),
        Api::NvAPI_D3D11_RSSetPixelShadingRateSampleOrder => Some("NvAPI_D3D11_RSSetPixelShadingRateSampleOrder"),
        Api::NvAPI_D3D_InitializeVRSHelper => Some("NvAPI_D3D_InitializeVRSHelper"),
        Api::NvAPI_D3D_InitializeNvGazeHandler => Some("NvAPI_D3D_InitializeNvGazeHandler"),
        Api::NvAPI_D3D_InitializeSMPAssist => Some("NvAPI_D3D_InitializeSMPAssist"),
        Api::NvAPI_D3D_QuerySMPAssistSupport => Some("NvAPI_D3D_QuerySMPAssistSupport"),
        Api::NvAPI_D3D_GetSleepStatus => Some("NvAPI_D3D_GetSleepStatus"),
        Api::NvAPI_D3D_SetSleepMode => Some("NvAPI_D3D_SetSleepMode"),
        Api::NvAPI_D3D_Sleep => Some("NvAPI_D3D_Sleep"),
        Api::NvAPI_D3D_GetLatency => Some("NvAPI_D3D_GetLatency"),
        Api::NvAPI_D3D_SetLatencyMarker => Some("NvAPI_D3D_SetLatencyMarker"),
        Api::NvAPI_D3D12_SetAsyncFrameMarker => Some("NvAPI_D3D12_SetAsyncFrameMarker"),
        _ => None,
    }
}

fn name_part_15(a: Api) -> (r: Option<&'static str>)
    ensures
        api_name_part_15(a) == (match r { Some(s) => Some(s@), None => None }),
{
    match a {
        Api::NvAPI_D3D12_NotifyOutOfBandCommandQueue => Some("NvAPI_D3D12_NotifyOutOfBandCommandQueue"),
        Api::NvAPI_D3D12_CreateCubinComputeShader => Some("NvAPI_D3D12_CreateCubinComputeShader"),
        Api::NvAPI_D3D12_CreateCubinComputeShaderEx => Some("NvAPI_D3D12_CreateCubinComputeShaderEx"),
        Api::NvAPI_D3D12_CreateCubinComputeShaderWithName => Some("NvAPI_D3D12_CreateCubinComputeShaderWithName"),
        Api::NvAPI_D3D12_LaunchCubinShader => Some("NvAPI_D3D12_LaunchCubinShader"),
        Api::NvAPI_D3D12_DestroyCubinComputeShader => Some("NvAPI_D3D12_DestroyCubinComputeShader"),
        Api::NvAPI_D3D12_GetCudaTextureObject => Some("NvAPI_D3D12_GetCudaTextureObject"),
        Api::NvAPI_D3D12_GetCudaSurfaceObject => Some("NvAPI_D3D12_GetCudaSurfaceObject"),
        Api::NvAPI_D3D12_IsFatbinPTXSupported => Some("NvAPI_D3D12_IsFatbinPTXSupported"),
        Api::NvAPI_D3D12_CreateCuModule => Some("NvAPI_D3D12_CreateCuModule"),
        Api::NvAPI_D3D12_EnumFunctionsInModule => Some("NvAPI_D3D12_EnumFunctionsInModule"),
        Api::NvAPI_D3D12_CreateCuFunction => Some("NvAPI_D3D12_CreateCuFunction"),
        Api::NvAPI_D3D12_LaunchCuKernelChain => Some("NvAPI_D3D12_LaunchCuKernelChain"),
        Api::NvAPI_D3D12_DestroyCuModule => Some("NvAPI_D3D12_DestroyCuModule"),
        Api::NvAPI_D3D12_DestroyCuFunction => Some("NvAPI_D3D12_DestroyCuFunction"),
        Api::NvAPI_D3D11_CreateCubinComputeShader => Some("NvAPI_D3D11_CreateCubinComputeShader"),
        Api::NvAPI_D3D11_CreateCubinComputeShaderEx => Some("NvAPI_D3D11_CreateCubinComputeShaderEx"),
        Api::NvAPI_D3D11_CreateCubinComputeShaderWithName => Some("NvAPI_D3D11_CreateCubinComputeShaderWithName"),
        Api::NvAPI_D3D11_LaunchCubinShader => Some("NvAPI_D3D11_LaunchCubinShader"),
        Api::NvAPI_D3D11_DestroyCubinComputeShader => Some("NvAPI_D3D11_DestroyCubinComputeShader"),
        Api::NvAPI_D3D11_IsFatbinPTXSupported => Some("NvAPI_D3D11_IsFatbinPTXSupported"),
        Api::NvAPI_D3D11_CreateUnorderedAccessView => Some("NvAPI_D3D11_CreateUnorderedAccessView"),
        Api::NvAPI_D3D11_CreateShaderResourceView => Some("NvAPI_D3D11_CreateShaderResourceView"),
        Api::NvAPI_D3D11_CreateSamplerState => Some("NvAPI_D3D11_CreateSamplerState"),
        Api::NvAPI_D3D11_GetCudaTextureObject => Some("NvAPI_D3D11_GetCudaTextureObject"),
        Api::NvAPI_D3D11_GetResourceGPUVirtualAddress => Some("NvAPI_D3D11_GetResourceGPUVirtualAddress"),
        Api::NvAPI_D3D12_GetRaytracingCaps => Some("NvAPI_D3D12_GetRaytracingCaps"),
        Api::NvAPI_D3D12_GetRaytracingOpacityMicromapArrayPrebuildInfo => Some("NvAPI_D3D12_GetRaytracingOpacityMicromapArrayPrebuildInfo"),
        Api::NvAPI_D3D12_SetCreatePipelineStateOptions => Some("NvAPI_D3D12_SetCreatePipelineStateOptions"),
        Api::NvAPI_D3D12_CheckDriverMatchingIdentifierEx => Some("NvAPI_D3D12_CheckDriverMatchingIdentifierEx"),
        Api::NvAPI_D3D12_GetRaytracingAccelerationStructurePrebuildInfoEx => Some("NvAPI_D3D12_GetRaytracingAccelerationStructurePrebuildInfoEx"),
        Api::NvAPI_D3D12_BuildRaytracingOpacityMicromapArray => Some("NvAPI_D3D12_BuildRaytracingOpacityMicromapArray"),
        Api::NvAPI_D3D12_RelocateRaytracingOpacityMicromapArray => Some("NvAPI_D3D12_RelocateRaytracingOpacityMicromapArray"),
        Api::NvAPI_D3D12_EmitRaytracingOpacityMicromapArrayPostbuildInfo => Some("NvAPI_D3D12_EmitRaytracingOpacityMicromapArrayPostbuildInfo"),
        Api::NvAPI_D3D12_BuildRaytracingAccelerationStructureEx => Some("NvAPI_D3D12_BuildRaytracingAccelerationStructureEx"),
        Api::Unknown_1629A173 => Some("Unknown_1629A173"),
        Api::Unknown_F1D2777B => Some("Unknown_F1D2777B"),
        Api::Unknown_8EFC0978 => Some("Unknown_8EFC0978"),
        Api::Unknown_B7BCF50D => Some("Unknown_B7BCF50D"),
        Api::Unknown_36E39E6B => Some("Unknown_36E39E6B"),
        Api::Unknown_GetROPCount => Some("Unknown_GetROPCount"),
        _ => None,
    }
}

impl Api {
    /// The name of this API, as its interface is called.
    pub fn name(&self) -> (r: &'static str)
        ensures
            r@ == api_name(*self),
    {
        proof { lemma_api_id_parts(*self); }
        if let Some(n) = name_part_0(*self) {
            n
        } else if let Some(n) = name_part_1(*self) {
            n
        } else if let Some(n) = name_part_2(*self) {
            n
        } else if let Some(n) = name_part_3(*self) {
            n
        } else if let Some(n) = name_part_4(*self) {
            n
        } else if let Some(n) = name_part_5(*self) {
            n
        } else if let Some(n) = name_part_6(*self) {
            n
        } else if let Some(n) = name_part_7(*self) {
            n
        } else if let Some(n) = name_part_8(*self) {
            n
        } else if let Some(n) = name_part_9(*self) {
            n
        } else if let Some(n) = name_part_10(*self) {
            n
        } else if let Some(n) = name_part_11(*self) {
            n
        } else if let Some(n) = name_part_12(*self) {
            n
        } else if let Some(n) = name_part_13(*self) {
            n
        } else if let Some(n) = name_part_14(*self) {
            n
        } else {
            name_part_15(*self).unwrap()
        }
    }
}

/// Every API lies in one part of the listing.
proof fn lemma_api_id_parts(a: Api)
    ensures
        api_id_part_0(a) is Some || api_id_part_1(a) is Some || api_id_part_2(a) is Some || api_id_part_3(a) is Some || api_id_part_4(a) is Some || api_id_part_5(a) is Some || api_id_part_6(a) is Some || api_id_part_7(a) is Some || api_id_part_8(a) is Some || api_id_part_9(a) is Some || api_id_part_10(a) is Some || api_id_part_11(a) is Some || api_id_part_12(a) is Some || api_id_part_13(a) is Some || api_id_part_14(a) is Some || api_id_part_15(a) is Some,
{
}

#[verifier::spinoff_prover]
proof fn lemma_api_id_roundtrip_part_0_0(a: Api)
    requires
        a == Api::NvAPI_Initialize
        || a == Api::NvAPI_Unload
        || a == Api::NvAPI_GetErrorMessage
        || a == Api::NvAPI_GetInterfaceVersionString
        || a == Api::NvAPI_GetDisplayDriverVersion
        || a == Api::NvAPI_SYS_GetDriverAndBranchVersion
        || a == Api::NvAPI_EnumNvidiaDisplayHandle
        || a == Api::NvAPI_EnumNvidiaUnAttachedDisplayHandle
        || a == Api::NvAPI_EnumPhysicalGPUs
        || a == Api::NvAPI_EnumTCCPhysicalGPUs,
    ensures
        api_of_id(api_id(a)) == Some(a),
{
    match a {
        Api::NvAPI_Initialize => assert(api_of_id(0x0150e828u32) == Some(Api::NvAPI_Initialize)),
        Api::NvAPI_Unload => assert(api_of_id(0xd22bdd7eu32) == Some(Api::NvAPI_Unload)),
        Api::NvAPI_GetErrorMessage => assert(api_of_id(0x6c2d048cu32) == Some(Api::NvAPI_GetErrorMessage)),
        Api::NvAPI_GetInterfaceVersionString => assert(api_of_id(0x01053fa5u32) == Some(Api::NvAPI_GetInterfaceVersionString)),
        Api::NvAPI_GetDisplayDriverVersion => assert(api_of_id(0xf951a4d1u32) == Some(Api::NvAPI_GetDisplayDriverVersion)),
        Api::NvAPI_SYS_GetDriverAndBranchVersion => assert(api_of_id(0x2926aaadu32) == Some(Api::NvAPI_SYS_GetDriverAndBranchVersion)),
        Api::NvAPI_EnumNvidiaDisplayHandle => assert(api_of_id(0x9abdd40du32) == Some(Api::NvAPI_EnumNvidiaDisplayHandle)),
        Api::NvAPI_EnumNvidiaUnAttachedDisplayHandle => assert(api_of_id(0x20de9260u32) == Some(Api::NvAPI_EnumNvidiaUnAttachedDisplayHandle)),
        Api::NvAPI_EnumPhysicalGPUs => assert(api_of_id(0xe5ac921fu32) == Some(Api::NvAPI_EnumPhysicalGPUs)),
        Api::NvAPI_EnumTCCPhysicalGPUs => assert(api_of_id(0xd9930b07u32) == Some(Api::NvAPI_EnumTCCPhysicalGPUs)),
        _ => {},
    }
}

#[verifier::spinoff_prover]
proof fn lemma_api_id_roundtrip_part_0_1(a: Api)
    requires
        a == Api::NvAPI_EnumLogicalGPUs
        || a == Api::NvAPI_GetPhysicalGPUsFromDisplay
        || a == Api::NvAPI_GetPhysicalGPUFromUnAttachedDisplay
        || a == Api::NvAPI_CreateDisplayFromUnAttachedDisplay
        || a == Api::NvAPI_GetLogicalGPUFromDisplay
        || a == Api::NvAPI_GetLogicalGPUFromPhysicalGPU
        || a == Api::NvAPI_GetPhysicalGPUsFromLogicalGPU
        || a == Api::NvAPI_GetAssociatedNvidiaDisplayHandle
        || a == Api::NvAPI_DISP_GetAssociatedUnAttachedNvidiaDisplayHandle
        || a == Api::NvAPI_GetAssociatedNvidiaDisplayName,
    ensures
        api_of_id(api_id(a)) == Some(a),
{
    match a {
        Api::NvAPI_EnumLogicalGPUs => assert(api_of_id(0x48b3ea59u32) == Some(Api::NvAPI_EnumLogicalGPUs)),
        Api::NvAPI_GetPhysicalGPUsFromDisplay => assert(api_of_id(0x34ef9506u32) == Some(Api::NvAPI_GetPhysicalGPUsFromDisplay)),
        Api::NvAPI_GetPhysicalGPUFromUnAttachedDisplay => assert(api_of_id(0x5018ed61u32) == Some(Api::NvAPI_GetPhysicalGPUFromUnAttachedDisplay)),
        Api::NvAPI_CreateDisplayFromUnAttachedDisplay => assert(api_of_id(0x63f9799eu32) == Some(Api::NvAPI_CreateDisplayFromUnAttachedDisplay)),
        Api::NvAPI_GetLogicalGPUFromDisplay => assert(api_of_id(0xee1370cfu32) == Some(Api::NvAPI_GetLogicalGPUFromDisplay)),
        Api::NvAPI_GetLogicalGPUFromPhysicalGPU => assert(api_of_id(0xadd604d1u32) == Some(Api::NvAPI_GetLogicalGPUFromPhysicalGPU)),
        Api::NvAPI_GetPhysicalGPUsFromLogicalGPU => assert(api_of_id(0xaea3fa32u32) == Some(Api::NvAPI_GetPhysicalGPUsFromLogicalGPU)),
        Api::NvAPI_GetAssociatedNvidiaDisplayHandle => assert(api_of_id(0x35c29134u32) == Some(Api::NvAPI_GetAssociatedNvidiaDisplayHandle)),
        Api::NvAPI_DISP_GetAssociatedUnAttachedNvidiaDisplayHandle => assert(api_of_id(0xa70503b2u32) == Some(Api::NvAPI_DISP_GetAssociatedUnAttachedNvidiaDisplayHandle)),
        Api::NvAPI_GetAssociatedNvidiaDisplayName => assert(api_of_id(0x22a78b05u32) == Some(Api::NvAPI_GetAssociatedNvidiaDisplayName)),
        _ => {},
    }
}

#[verifier::spinoff_prover]
proof fn lemma_api_id_roundtrip_part_0_2(a: Api)
    requires
        a == Api::NvAPI_GetUnAttachedAssociatedDisplayName
        || a == Api::NvAPI_EnableHWCursor
        || a == Api::NvAPI_DisableHWCursor
        || a == Api::NvAPI_GetVBlankCounter
        || a == Api::NvAPI_SetRefreshRateOverride
        || a == Api::NvAPI_GetAssociatedDisplayOutputId
        || a == Api::NvAPI_GetDisplayPortInfo
        || a == Api::NvAPI_SetDisplayPort
        || a == Api::NvAPI_GetHDMISupportInfo
        || a == Api::NvAPI_DISP_EnumHDMIStereoModes,
    ensures
        api_of_id(api_id(a)) == Some(a),
{
    match a {
        Api::NvAPI_GetUnAttachedAssociatedDisplayName => assert(api_of_id(0x4888d790u32) == Some(Api::NvAPI_GetUnAttachedAssociatedDisplayName)),
        Api::NvAPI_EnableHWCursor => assert(api_of_id(0x2863148du32) == Some(Api::NvAPI_EnableHWCursor)),
        Api::NvAPI_DisableHWCursor => assert(api_of_id(0xab163097u32) == Some(Api::NvAPI_DisableHWCursor)),
        Api::NvAPI_GetVBlankCounter => assert(api_of_id(0x67b5db55u32) == Some(Api::NvAPI_GetVBlankCounter)),
        Api::NvAPI_SetRefreshRateOverride => assert(api_of_id(0x3092ac32u32) == Some(Api::NvAPI_SetRefreshRateOverride)),
        Api::NvAPI_GetAssociatedDisplayOutputId => assert(api_of_id(0xd995937eu32) == Some(Api::NvAPI_GetAssociatedDisplayOutputId)),
        Api::NvAPI_GetDisplayPortInfo => assert(api_of_id(0xc64ff367u32) == Some(Api::NvAPI_GetDisplayPortInfo)),
        Api::NvAPI_SetDisplayPort => assert(api_of_id(0xfa13e65au32) == Some(Api::NvAPI_SetDisplayPort)),
        Api::NvAPI_GetHDMISupportInfo => assert(api_of_id(0x6ae16ec3u32) == Some(Api::NvAPI_GetHDMISupportInfo)),
        Api::NvAPI_DISP_EnumHDMIStereoModes => assert(api_of_id(0xd2ccf5d6u32) == Some(Api::NvAPI_DISP_EnumHDMIStereoModes)),
        _ => {},
    }
}

#[verifier::spinoff_prover]
proof fn lemma_api_id_roundtrip_part_0_3(a: Api)
    requires
        a == Api::NvAPI_GetInfoFrame
        || a == Api::NvAPI_SetInfoFrame
        || a == Api::NvAPI_SetInfoFrameState
        || a == Api::NvAPI_GetInfoFrameState
        || a == Api::NvAPI_Disp_InfoFrameControl
        || a == Api::NvAPI_Disp_ColorControl
        || a == Api::NvAPI_Disp_GetHdrCapabilities
        || a == Api::NvAPI_Disp_HdrColorControl
        || a == Api::NvAPI_DISP_GetVirtualModeData
        || a == Api::NvAPI_DISP_OverrideDisplayModeList,
    ensures
        api_of_id(api_id(a)) == Some(a),
{
    match a {
        Api::NvAPI_GetInfoFrame => assert(api_of_id(0x09734f1du32) == Some(Api::NvAPI_GetInfoFrame)),
        Api::NvAPI_SetInfoFrame => assert(api_of_id(0x69c6f365u32) == Some(Api::NvAPI_SetInfoFrame)),
        Api::NvAPI_SetInfoFrameState => assert(api_of_id(0x67efd887u32) == Some(Api::NvAPI_SetInfoFrameState)),
        Api::NvAPI_GetInfoFrameState => assert(api_of_id(0x41511594u32) == Some(Api::NvAPI_GetInfoFrameState)),
        Api::NvAPI_Disp_InfoFrameControl => assert(api_of_id(0x6067af3fu32) == Some(Api::NvAPI_Disp_InfoFrameControl)),
        Api::NvAPI_Disp_ColorControl => assert(api_of_id(0x92f9d80du32) == Some(Api::NvAPI_Disp_ColorControl)),
        Api::NvAPI_Disp_GetHdrCapabilities => assert(api_of_id(0x84f2a8dfu32) == Some(Api::NvAPI_Disp_GetHdrCapabilities)),
        Api::NvAPI_Disp_HdrColorControl => assert(api_of_id(0x351da224u32) == Some(Api::NvAPI_Disp_HdrColorControl)),
        Api::NvAPI_DISP_GetVirtualModeData => assert(api_of_id(0x3230d69au32) == Some(Api::NvAPI_DISP_GetVirtualModeData)),
        Api::NvAPI_DISP_OverrideDisplayModeList => assert(api_of_id(0x0291bff2u32) == Some(Api::NvAPI_DISP_OverrideDisplayModeList)),
        _ => {},
    }
}

#[verifier::spinoff_prover]
proof fn lemma_api_id_roundtrip_part_0_4(a: Api)
    requires
        a == Api::NvAPI_GetDisplayDriverMemoryInfo
        || a == Api::NvAPI_GetDriverMemoryInfo
        || a == Api::NvAPI_GetDVCInfo
        || a == Api::NvAPI_SetDVCLevel
        || a == Api::NvAPI_GetDVCInfoEx
        || a == Api::NvAPI_SetDVCLevelEx
        || a == Api::NvAPI_GetHUEInfo
        || a == Api::NvAPI_SetHUEAngle
        || a == Api::NvAPI_GetImageSharpeningInfo
        || a == Api::NvAPI_SetImageSharpeningLevel,
    ensures
        api_of_id(api_id(a)) == Some(a),
{
    match a {
        Api::NvAPI_GetDisplayDriverMemoryInfo => assert(api_of_id(0x774aa982u32) == Some(Api::NvAPI_GetDisplayDriverMemoryInfo)),
        Api::NvAPI_GetDriverMemoryInfo => assert(api_of_id(0x2dc95125u32) == Some(Api::NvAPI_GetDriverMemoryInfo)),
        Api::NvAPI_GetDVCInfo => assert(api_of_id(0x4085de45u32) == Some(Api::NvAPI_GetDVCInfo)),
        Api::NvAPI_SetDVCLevel => assert(api_of_id(0x172409b4u32) == Some(Api::NvAPI_SetDVCLevel)),
        Api::NvAPI_GetDVCInfoEx => assert(api_of_id(0x0e45002du32) == Some(Api::NvAPI_GetDVCInfoEx)),
        Api::NvAPI_SetDVCLevelEx => assert(api_of_id(0x4a82c2b1u32) == Some(Api::NvAPI_SetDVCLevelEx)),
        Api::NvAPI_GetHUEInfo => assert(api_of_id(0x95b64341u32) == Some(Api::NvAPI_GetHUEInfo)),
        Api::NvAPI_SetHUEAngle => assert(api_of_id(0xf5a0f22cu32) == Some(Api::NvAPI_SetHUEAngle)),
        Api::NvAPI_GetImageSharpeningInfo => assert(api_of_id(0x9fb063dfu32) == Some(Api::NvAPI_GetImageSharpeningInfo)),
        Api::NvAPI_SetImageSharpeningLevel => assert(api_of_id(0x3fc9a59cu32) == Some(Api::NvAPI_SetImageSharpeningLevel)),
        _ => {},
    }
}

proof fn lemma_api_id_roundtrip_part_0(a: Api)
    requires
        api_id_part_0(a) is Some,
    ensures
        api_of_id(api_id(a)) == Some(a),
{
    if a == Api::NvAPI_Initialize || a == Api::NvAPI_Unload || a == Api::NvAPI_GetErrorMessage || a == Api::NvAPI_GetInterfaceVersionString || a == Api::NvAPI_GetDisplayDriverVersion || a == Api::NvAPI_SYS_GetDriverAndBranchVersion || a == Api::NvAPI_EnumNvidiaDisplayHandle || a == Api::NvAPI_EnumNvidiaUnAttachedDisplayHandle || a == Api::NvAPI_EnumPhysicalGPUs || a == Api::NvAPI_EnumTCCPhysicalGPUs {
        lemma_api_id_roundtrip_part_0_0(a);
    } else if a == Api::NvAPI_EnumLogicalGPUs || a == Api::NvAPI_GetPhysicalGPUsFromDisplay || a == Api::NvAPI_GetPhysicalGPUFromUnAttachedDisplay || a == Api::NvAPI_CreateDisplayFromUnAttachedDisplay || a == Api::NvAPI_GetLogicalGPUFromDisplay || a == Api::NvAPI_GetLogicalGPUFromPhysicalGPU || a == Api::NvAPI_GetPhysicalGPUsFromLogicalGPU || a == Api::NvAPI_GetAssociatedNvidiaDisplayHandle || a == Api::NvAPI_DISP_GetAssociatedUnAttachedNvidiaDisplayHandle || a == Api::NvAPI_GetAssociatedNvidiaDisplayName {
        lemma_api_id_roundtrip_part_0_1(a);
    } else if a == Api::NvAPI_GetUnAttachedAssociatedDisplayName || a == Api::NvAPI_EnableHWCursor || a == Api::NvAPI_DisableHWCursor || a == Api::NvAPI_GetVBlankCounter || a == Api::NvAPI_SetRefreshRateOverride || a == Api::NvAPI_GetAssociatedDisplayOutputId || a == Api::NvAPI_GetDisplayPortInfo || a == Api::NvAPI_SetDisplayPort || a == Api::NvAPI_GetHDMISupportInfo || a == Api::NvAPI_DISP_EnumHDMIStereoModes {
        lemma_api_id_roundtrip_part_0_2(a);
    } else if a == Api::NvAPI_GetInfoFrame || a == Api::NvAPI_SetInfoFrame || a == Api::NvAPI_SetInfoFrameState || a == Api::NvAPI_GetInfoFrameState || a == Api::NvAPI_Disp_InfoFrameControl || a == Api::NvAPI_Disp_ColorControl || a == Api::NvAPI_Disp_GetHdrCapabilities || a == Api::NvAPI_Disp_HdrColorControl || a == Api::NvAPI_DISP_GetVirtualModeData || a == Api::NvAPI_DISP_OverrideDisplayModeList {
        lemma_api_id_roundtrip_part_0_3(a);
    } else {
        lemma_api_id_roundtrip_part_0_4(a);
    }
}

#[verifier::spinoff_prover]
proof fn lemma_api_id_roundtrip_part_1_0(a: Api)
    requires
        a == Api::NvAPI_D3D_GetCurrentSLIState
        || a == Api::NvAPI_D3D9_RegisterResource
        || a == Api::NvAPI_D3D9_UnregisterResource
        || a == Api::NvAPI_D3D9_AliasSurfaceAsTexture
        || a == Api::NvAPI_D3D9_StretchRectEx
        || a == Api::NvAPI_D3D9_ClearRT
        || a == Api::NvAPI_D3D_CreateQuery
        || a == Api::NvAPI_D3D_DestroyQuery
        || a == Api::NvAPI_D3D_Query_Begin
        || a == Api::NvAPI_D3D_Query_End,
    ensures
        api_of_id(api_id(a)) == Some(a),
{
    match a {
        Api::NvAPI_D3D_GetCurrentSLIState => assert(api_of_id(0x4b708b54u32) == Some(Api::NvAPI_D3D_GetCurrentSLIState)),
        Api::NvAPI_D3D9_RegisterResource => assert(api_of_id(0xa064bdfcu32) == Some(Api::NvAPI_D3D9_RegisterResource)),
        Api::NvAPI_D3D9_UnregisterResource => assert(api_of_id(0xbb2b17aau32) == Some(Api::NvAPI_D3D9_UnregisterResource)),
        Api::NvAPI_D3D9_AliasSurfaceAsTexture => assert(api_of_id(0xe5ceae41u32) == Some(Api::NvAPI_D3D9_AliasSurfaceAsTexture)),
        Api::NvAPI_D3D9_StretchRectEx => assert(api_of_id(0x22de03aau32) == Some(Api::NvAPI_D3D9_StretchRectEx)),
        Api::NvAPI_D3D9_ClearRT => assert(api_of_id(0x332d3942u32) == Some(Api::NvAPI_D3D9_ClearRT)),
        Api::NvAPI_D3D_CreateQuery => assert(api_of_id(0x5d19bca4u32) == Some(Api::NvAPI_D3D_CreateQuery)),
        Api::NvAPI_D3D_DestroyQuery => assert(api_of_id(0xc8ff7258u32) == Some(Api::NvAPI_D3D_DestroyQuery)),
        Api::NvAPI_D3D_Query_Begin => assert(api_of_id(0xe5a9aae0u32) == Some(Api::NvAPI_D3D_Query_Begin)),
        Api::NvAPI_D3D_Query_End => assert(api_of_id(0x2ac084fau32) == Some(Api::NvAPI_D3D_Query_End)),
        _ => {},
    }
}

#[verifier::spinoff_prover]
proof fn lemma_api_id_roundtrip_part_1_1(a: Api)
    requires
        a == Api::NvAPI_D3D_Query_GetData
        || a == Api::NvAPI_D3D_Query_GetDataSize
        || a == Api::NvAPI_D3D_Query_GetType
        || a == Api::NvAPI_D3D_RegisterApp
        || a == Api::NvAPI_D3D9_CreatePathContextNV
        || a == Api::NvAPI_D3D9_DestroyPathContextNV
        || a == Api::NvAPI_D3D9_CreatePathNV
        || a == Api::NvAPI_D3D9_DeletePathNV
        || a == Api::NvAPI_D3D9_PathVerticesNV
        || a == Api::NvAPI_D3D9_PathParameterfNV,
    ensures
        api_of_id(api_id(a)) == Some(a),
{
    match a {
        Api::NvAPI_D3D_Query_GetData => assert(api_of_id(0xf8b53c69u32) == Some(Api::NvAPI_D3D_Query_GetData)),
        Api::NvAPI_D3D_Query_GetDataSize => assert(api_of_id(0xf2a54796u32) == Some(Api::NvAPI_D3D_Query_GetDataSize)),
        Api::NvAPI_D3D_Query_GetType => assert(api_of_id(0x4aceeaf7u32) == Some(Api::NvAPI_D3D_Query_GetType)),
        Api::NvAPI_D3D_RegisterApp => assert(api_of_id(0xd44d3c4eu32) == Some(Api::NvAPI_D3D_RegisterApp)),
        Api::NvAPI_D3D9_CreatePathContextNV => assert(api_of_id(0xa342f682u32) == Some(Api::NvAPI_D3D9_CreatePathContextNV)),
        Api::NvAPI_D3D9_DestroyPathContextNV => assert(api_of_id(0x667c2929u32) == Some(Api::NvAPI_D3D9_DestroyPathContextNV)),
        Api::NvAPI_D3D9_CreatePathNV => assert(api_of_id(0x71329df3u32) == Some(Api::NvAPI_D3D9_CreatePathNV)),
        Api::NvAPI_D3D9_DeletePathNV => assert(api_of_id(0x73e0019au32) == Some(Api::NvAPI_D3D9_DeletePathNV)),
        Api::NvAPI_D3D9_PathVerticesNV => assert(api_of_id(0xc23df926u32) == Some(Api::NvAPI_D3D9_PathVerticesNV)),
        Api::NvAPI_D3D9_PathParameterfNV => assert(api_of_id(0xf7ff00c1u32) == Some(Api::NvAPI_D3D9_PathParameterfNV)),
        _ => {},
    }
}

#[verifier::spinoff_prover]
proof fn lemma_api_id_roundtrip_part_1_2(a: Api)
    requires
        a == Api::NvAPI_D3D9_PathParameteriNV
        || a == Api::NvAPI_D3D9_PathMatrixNV
        || a == Api::NvAPI_D3D9_PathDepthNV
        || a == Api::NvAPI_D3D9_PathClearDepthNV
        || a == Api::NvAPI_D3D9_PathEnableDepthTestNV
        || a == Api::NvAPI_D3D9_PathEnableColorWriteNV
        || a == Api::NvAPI_D3D9_DrawPathNV
        || a == Api::NvAPI_D3D9_GetSurfaceHandle
        || a == Api::NvAPI_D3D9_GetOverlaySurfaceHandles
        || a == Api::NvAPI_D3D9_GetTextureHandle,
    ensures
        api_of_id(api_id(a)) == Some(a),
{
    match a {
        Api::NvAPI_D3D9_PathParameteriNV => assert(api_of_id(0xfc31236cu32) == Some(Api::NvAPI_D3D9_PathParameteriNV)),
        Api::NvAPI_D3D9_PathMatrixNV => assert(api_of_id(0xd2f6c499u32) == Some(Api::NvAPI_D3D9_PathMatrixNV)),
        Api::NvAPI_D3D9_PathDepthNV => assert(api_of_id(0xfcb16330u32) == Some(Api::NvAPI_D3D9_PathDepthNV)),
        Api::NvAPI_D3D9_PathClearDepthNV => assert(api_of_id(0x157e45c4u32) == Some(Api::NvAPI_D3D9_PathClearDepthNV)),
        Api::NvAPI_D3D9_PathEnableDepthTestNV => assert(api_of_id(0xe99ba7f3u32) == Some(Api::NvAPI_D3D9_PathEnableDepthTestNV)),
        Api::NvAPI_D3D9_PathEnableColorWriteNV => assert(api_of_id(0x3e2804a2u32) == Some(Api::NvAPI_D3D9_PathEnableColorWriteNV)),
        Api::NvAPI_D3D9_DrawPathNV => assert(api_of_id(0x13199b3du32) == Some(Api::NvAPI_D3D9_DrawPathNV)),
        Api::NvAPI_D3D9_GetSurfaceHandle => assert(api_of_id(0x0f2dd3f2u32) == Some(Api::NvAPI_D3D9_GetSurfaceHandle)),
        Api::NvAPI_D3D9_GetOverlaySurfaceHandles => assert(api_of_id(0x6800f5fcu32) == Some(Api::NvAPI_D3D9_GetOverlaySurfaceHandles)),
        Api::NvAPI_D3D9_GetTextureHandle => assert(api_of_id(0xc7985ed5u32) == Some(Api::NvAPI_D3D9_GetTextureHandle)),
        _ => {},
    }
}

#[verifier::spinoff_prover]
proof fn lemma_api_id_roundtrip_part_1_3(a: Api)
    requires
        a == Api::NvAPI_D3D9_GpuSyncGetHandleSize
        || a == Api::NvAPI_D3D9_GpuSyncInit
        || a == Api::NvAPI_D3D9_GpuSyncEnd
        || a == Api::NvAPI_D3D9_GpuSyncMapTexBuffer
        || a == Api::NvAPI_D3D9_GpuSyncMapSurfaceBuffer
        || a == Api::NvAPI_D3D9_GpuSyncMapVertexBuffer
        || a == Api::NvAPI_D3D9_GpuSyncMapIndexBuffer
        || a == Api::NvAPI_D3D9_SetPitchSurfaceCreation
        || a == Api::NvAPI_D3D9_GpuSyncAcquire
        || a == Api::NvAPI_D3D9_GpuSyncRelease,
    ensures
        api_of_id(api_id(a)) == Some(a),
{
    match a {
        Api::NvAPI_D3D9_GpuSyncGetHandleSize => assert(api_of_id(0x80c9fd3bu32) == Some(Api::NvAPI_D3D9_GpuSyncGetHandleSize)),
        Api::NvAPI_D3D9_GpuSyncInit => assert(api_of_id(0x6d6fdad4u32) == Some(Api::NvAPI_D3D9_GpuSyncInit)),
        Api::NvAPI_D3D9_GpuSyncEnd => assert(api_of_id(0x754033f0u32) == Some(Api::NvAPI_D3D9_GpuSyncEnd)),
        Api::NvAPI_D3D9_GpuSyncMapTexBuffer => assert(api_of_id(0xcde4a28au32) == Some(Api::NvAPI_D3D9_GpuSyncMapTexBuffer)),
        Api::NvAPI_D3D9_GpuSyncMapSurfaceBuffer => assert(api_of_id(0x2ab714abu32) == Some(Api::NvAPI_D3D9_GpuSyncMapSurfaceBuffer)),
        Api::NvAPI_D3D9_GpuSyncMapVertexBuffer => assert(api_of_id(0xdbc803ecu32) == Some(Api::NvAPI_D3D9_GpuSyncMapVertexBuffer)),
        Api::NvAPI_D3D9_GpuSyncMapIndexBuffer => assert(api_of_id(0x12ee68f2u32) == Some(Api::NvAPI_D3D9_GpuSyncMapIndexBuffer)),
        Api::NvAPI_D3D9_SetPitchSurfaceCreation => assert(api_of_id(0x18cdf365u32) == Some(Api::NvAPI_D3D9_SetPitchSurfaceCreation)),
        Api::NvAPI_D3D9_GpuSyncAcquire => assert(api_of_id(0xd00b8317u32) == Some(Api::NvAPI_D3D9_GpuSyncAcquire)),
        Api::NvAPI_D3D9_GpuSyncRelease => assert(api_of_id(0x3d7a86bbu32) == Some(Api::NvAPI_D3D9_GpuSyncRelease)),
        _ => {},
    }
}

#[verifier::spinoff_prover]
proof fn lemma_api_id_roundtrip_part_1_4(a: Api)
    requires
        a == Api::NvAPI_D3D9_GetCurrentRenderTargetHandle
        || a == Api::NvAPI_D3D9_GetCurrentZBufferHandle
        || a == Api::NvAPI_D3D9_GetIndexBufferHandle
        || a == Api::NvAPI_D3D9_GetVertexBufferHandle
        || a == Api::NvAPI_D3D9_CreateTexture
        || a == Api::NvAPI_D3D9_AliasPrimaryAsTexture
        || a == Api::NvAPI_D3D9_PresentSurfaceToDesktop
        || a == Api::NvAPI_D3D9_CreateVideoBegin
        || a == Api::NvAPI_D3D9_CreateVideoEnd
        || a == Api::NvAPI_D3D9_CreateVideo,
    ensures
        api_of_id(api_id(a)) == Some(a),
{
    match a {
        Api::NvAPI_D3D9_GetCurrentRenderTargetHandle => assert(api_of_id(0x022cad61u32) == Some(Api::NvAPI_D3D9_GetCurrentRenderTargetHandle)),
        Api::NvAPI_D3D9_GetCurrentZBufferHandle => assert(api_of_id(0xb380f218u32) == Some(Api::NvAPI_D3D9_GetCurrentZBufferHandle)),
        Api::NvAPI_D3D9_GetIndexBufferHandle => assert(api_of_id(0xfc5a155bu32) == Some(Api::NvAPI_D3D9_GetIndexBufferHandle)),
        Api::NvAPI_D3D9_GetVertexBufferHandle => assert(api_of_id(0x72b19155u32) == Some(Api::NvAPI_D3D9_GetVertexBufferHandle)),
        Api::NvAPI_D3D9_CreateTexture => assert(api_of_id(0xd5e13573u32) == Some(Api::NvAPI_D3D9_CreateTexture)),
        Api::NvAPI_D3D9_AliasPrimaryAsTexture => assert(api_of_id(0x13c7112eu32) == Some(Api::NvAPI_D3D9_AliasPrimaryAsTexture)),
        Api::NvAPI_D3D9_PresentSurfaceToDesktop => assert(api_of_id(0x0f7029c5u32) == Some(Api::NvAPI_D3D9_PresentSurfaceToDesktop)),
        Api::NvAPI_D3D9_CreateVideoBegin => assert(api_of_id(0x84c9d553u32) == Some(Api::NvAPI_D3D9_CreateVideoBegin)),
        Api::NvAPI_D3D9_CreateVideoEnd => assert(api_of_id(0xb476bf61u32) == Some(Api::NvAPI_D3D9_CreateVideoEnd)),
        Api::NvAPI_D3D9_CreateVideo => assert(api_of_id(0x89ffd9a3u32) == Some(Api::NvAPI_D3D9_CreateVideo)),
        _ => {},
    }
}

proof fn lemma_api_id_roundtrip_part_1(a: Api)
    requires
        api_id_part_1(a) is Some,
    ensures
        api_of_id(api_id(a)) == Some(a),
{
    if a == Api::NvAPI_D3D_GetCurrentSLIState || a == Api::NvAPI_D3D9_RegisterResource || a == Api::NvAPI_D3D9_UnregisterResource || a == Api::NvAPI_D3D9_AliasSurfaceAsTexture || a == Api::NvAPI_D3D9_StretchRectEx || a == Api::NvAPI_D3D9_ClearRT || a == Api::NvAPI_D3D_CreateQuery || a == Api::NvAPI_D3D_DestroyQuery || a == Api::NvAPI_D3D_Query_Begin || a == Api::NvAPI_D3D_Query_End {
        lemma_api_id_roundtrip_part_1_0(a);
    } else if a == Api::NvAPI_D3D_Query_GetData || a == Api::NvAPI_D3D_Query_GetDataSize || a == Api::NvAPI_D3D_Query_GetType || a == Api::NvAPI_D3D_RegisterApp || a == Api::NvAPI_D3D9_CreatePathContextNV || a == Api::NvAPI_D3D9_DestroyPathContextNV || a == Api::NvAPI_D3D9_CreatePathNV || a == Api::NvAPI_D3D9_DeletePathNV || a == Api::NvAPI_D3D9_PathVerticesNV || a == Api::NvAPI_D3D9_PathParameterfNV {
        lemma_api_id_roundtrip_part_1_1(a);
    } else if a == Api::NvAPI_D3D9_PathParameteriNV || a == Api::NvAPI_D3D9_PathMatrixNV || a == Api::NvAPI_D3D9_PathDepthNV || a == Api::NvAPI_D3D9_PathClearDepthNV || a == Api::NvAPI_D3D9_PathEnableDepthTestNV || a == Api::NvAPI_D3D9_PathEnableColorWriteNV || a == Api::NvAPI_D3D9_DrawPathNV || a == Api::NvAPI_D3D9_GetSurfaceHandle || a == Api::NvAPI_D3D9_GetOverlaySurfaceHandles || a == Api::NvAPI_D3D9_GetTextureHandle {
        lemma_api_id_roundtrip_part_1_2(a);
    } else if a == Api::NvAPI_D3D9_GpuSyncGetHandleSize || a == Api::NvAPI_D3D9_GpuSyncInit || a == Api::NvAPI_D3D9_GpuSyncEnd || a == Api::NvAPI_D3D9_GpuSyncMapTexBuffer || a == Api::NvAPI_D3D9_GpuSyncMapSurfaceBuffer || a == Api::NvAPI_D3D9_GpuSyncMapVertexBuffer || a == Api::NvAPI_D3D9_GpuSyncMapIndexBuffer || a == Api::NvAPI_D3D9_SetPitchSurfaceCreation || a == Api::NvAPI_D3D9_GpuSyncAcquire || a == Api::NvAPI_D3D9_GpuSyncRelease {
        lemma_api_id_roundtrip_part_1_3(a);
    } else {
        lemma_api_id_roundtrip_part_1_4(a);
    }
}

#[verifier::spinoff_prover]
proof fn lemma_api_id_roundtrip_part_2_0(a: Api)
    requires
        a == Api::NvAPI_D3D9_FreeVideo
        || a == Api::NvAPI_D3D9_PresentVideo
        || a == Api::NvAPI_D3D9_VideoSetStereoInfo
        || a == Api::NvAPI_D3D9_SetGamutData
        || a == Api::NvAPI_D3D9_SetSurfaceCreationLayout
        || a == Api::NvAPI_D3D9_GetVideoCapabilities
        || a == Api::NvAPI_D3D9_QueryVideoInfo
        || a == Api::NvAPI_D3D9_AliasPrimaryFromDevice
        || a == Api::NvAPI_D3D9_SetResourceHint
        || a == Api::NvAPI_D3D9_Lock,
    ensures
        api_of_id(api_id(a)) == Some(a),
{
    match a {
        Api::NvAPI_D3D9_FreeVideo => assert(api_of_id(0x3111bed1u32) == Some(Api::NvAPI_D3D9_FreeVideo)),
        Api::NvAPI_D3D9_PresentVideo => assert(api_of_id(0x5cf7f862u32) == Some(Api::NvAPI_D3D9_PresentVideo)),
        Api::NvAPI_D3D9_VideoSetStereoInfo => assert(api_of_id(0xb852f4dbu32) == Some(Api::NvAPI_D3D9_VideoSetStereoInfo)),
        Api::NvAPI_D3D9_SetGamutData => assert(api_of_id(0x2bbda32eu32) == Some(Api::NvAPI_D3D9_SetGamutData)),
        Api::NvAPI_D3D9_SetSurfaceCreationLayout => assert(api_of_id(0x5609b86au32) == Some(Api::NvAPI_D3D9_SetSurfaceCreationLayout)),
        Api::NvAPI_D3D9_GetVideoCapabilities => assert(api_of_id(0x3d596b93u32) == Some(Api::NvAPI_D3D9_GetVideoCapabilities)),
        Api::NvAPI_D3D9_QueryVideoInfo => assert(api_of_id(0x1e6634b3u32) == Some(Api::NvAPI_D3D9_QueryVideoInfo)),
        Api::NvAPI_D3D9_AliasPrimaryFromDevice => assert(api_of_id(0x7c20c5beu32) == Some(Api::NvAPI_D3D9_AliasPrimaryFromDevice)),
        Api::NvAPI_D3D9_SetResourceHint => assert(api_of_id(0x905f5c27u32) == Some(Api::NvAPI_D3D9_SetResourceHint)),
        Api::NvAPI_D3D9_Lock => assert(api_of_id(0x6317345cu32) == Some(Api::NvAPI_D3D9_Lock)),
        _ => {},
    }
}

#[verifier::spinoff_prover]
proof fn lemma_api_id_roundtrip_part_2_1(a: Api)
    requires
        a == Api::NvAPI_D3D9_Unlock
        || a == Api::NvAPI_D3D9_GetVideoState
        || a == Api::NvAPI_D3D9_SetVideoState
        || a == Api::NvAPI_D3D9_EnumVideoFeatures
        || a == Api::NvAPI_D3D9_GetSLIInfo
        || a == Api::NvAPI_D3D9_SetSLIMode
        || a == Api::NvAPI_D3D9_QueryAAOverrideMode
        || a == Api::NvAPI_D3D9_VideoSurfaceEncryptionControl
        || a == Api::NvAPI_D3D9_DMA
        || a == Api::NvAPI_D3D9_EnableStereo,
    ensures
        api_of_id(api_id(a)) == Some(a),
{
    match a {
        Api::NvAPI_D3D9_Unlock => assert(api_of_id(0xc182027eu32) == Some(Api::NvAPI_D3D9_Unlock)),
        Api::NvAPI_D3D9_GetVideoState => assert(api_of_id(0xa4527bf8u32) == Some(Api::NvAPI_D3D9_GetVideoState)),
        Api::NvAPI_D3D9_SetVideoState => assert(api_of_id(0xbd4bc56fu32) == Some(Api::NvAPI_D3D9_SetVideoState)),
        Api::NvAPI_D3D9_EnumVideoFeatures => assert(api_of_id(0x1db7c52cu32) == Some(Api::NvAPI_D3D9_EnumVideoFeatures)),
        Api::NvAPI_D3D9_GetSLIInfo => assert(api_of_id(0x694bff4du32) == Some(Api::NvAPI_D3D9_GetSLIInfo)),
        Api::NvAPI_D3D9_SetSLIMode => assert(api_of_id(0xbfdc062cu32) == Some(Api::NvAPI_D3D9_SetSLIMode)),
        Api::NvAPI_D3D9_QueryAAOverrideMode => assert(api_of_id(0xddf5643cu32) == Some(Api::NvAPI_D3D9_QueryAAOverrideMode)),
        Api::NvAPI_D3D9_VideoSurfaceEncryptionControl => assert(api_of_id(0x9d2509efu32) == Some(Api::NvAPI_D3D9_VideoSurfaceEncryptionControl)),
        Api::NvAPI_D3D9_DMA => assert(api_of_id(0x962b8af6u32) == Some(Api::NvAPI_D3D9_DMA)),
        Api::NvAPI_D3D9_EnableStereo => assert(api_of_id(0x492a6954u32) == Some(Api::NvAPI_D3D9_EnableStereo)),
        _ => {},
    }
}

#[verifier::spinoff_prover]
proof fn lemma_api_id_roundtrip_part_2_2(a: Api)
    requires
        a == Api::NvAPI_D3D9_StretchRect
        || a == Api::NvAPI_D3D9_CreateRenderTarget
        || a == Api::NvAPI_D3D9_NVFBC_GetStatus
        || a == Api::NvAPI_D3D9_IFR_SetUpTargetBufferToSys
        || a == Api::NvAPI_D3D9_GPUBasedCPUSleep
        || a == Api::NvAPI_D3D9_IFR_TransferRenderTarget
        || a == Api::NvAPI_D3D9_IFR_SetUpTargetBufferToNV12BLVideoSurface
        || a == Api::NvAPI_D3D9_IFR_TransferRenderTargetToNV12BLVideoSurface
        || a == Api::NvAPI_D3D10_AliasPrimaryAsTexture
        || a == Api::NvAPI_D3D10_SetPrimaryFlipChainCallbacks,
    ensures
        api_of_id(api_id(a)) == Some(a),
{
    match a {
        Api::NvAPI_D3D9_StretchRect => assert(api_of_id(0xaeaecd41u32) == Some(Api::NvAPI_D3D9_StretchRect)),
        Api::NvAPI_D3D9_CreateRenderTarget => assert(api_of_id(0x0b3827c8u32) == Some(Api::NvAPI_D3D9_CreateRenderTarget)),
        Api::NvAPI_D3D9_NVFBC_GetStatus => assert(api_of_id(0xbd3eb475u32) == Some(Api::NvAPI_D3D9_NVFBC_GetStatus)),
        Api::NvAPI_D3D9_IFR_SetUpTargetBufferToSys => assert(api_of_id(0x55255d05u32) == Some(Api::NvAPI_D3D9_IFR_SetUpTargetBufferToSys)),
        Api::NvAPI_D3D9_GPUBasedCPUSleep => assert(api_of_id(0xd504dda7u32) == Some(Api::NvAPI_D3D9_GPUBasedCPUSleep)),
        Api::NvAPI_D3D9_IFR_TransferRenderTarget => assert(api_of_id(0x0ab7c2dcu32) == Some(Api::NvAPI_D3D9_IFR_TransferRenderTarget)),
        Api::NvAPI_D3D9_IFR_SetUpTargetBufferToNV12BLVideoSurface => assert(api_of_id(0xcfc92c15u32) == Some(Api::NvAPI_D3D9_IFR_SetUpTargetBufferToNV12BLVideoSurface)),
        Api::NvAPI_D3D9_IFR_TransferRenderTargetToNV12BLVideoSurface => assert(api_of_id(0x5fe72f64u32) == Some(Api::NvAPI_D3D9_IFR_TransferRenderTargetToNV12BLVideoSurface)),
        Api::NvAPI_D3D10_AliasPrimaryAsTexture => assert(api_of_id(0x8aac133du32) == Some(Api::NvAPI_D3D10_AliasPrimaryAsTexture)),
        Api::NvAPI_D3D10_SetPrimaryFlipChainCallbacks => assert(api_of_id(0x73eb9329u32) == Some(Api::NvAPI_D3D10_SetPrimaryFlipChainCallbacks)),
        _ => {},
    }
}

#[verifier::spinoff_prover]
proof fn lemma_api_id_roundtrip_part_2_3(a: Api)
    requires
        a == Api::NvAPI_D3D10_ProcessCallbacks
        || a == Api::NvAPI_D3D10_GetRenderedCursorAsBitmap
        || a == Api::NvAPI_D3D10_BeginShareResource
        || a == Api::NvAPI_D3D10_BeginShareResourceEx
        || a == Api::NvAPI_D3D10_EndShareResource
        || a == Api::NvAPI_D3D10_SetDepthBoundsTest
        || a == Api::NvAPI_D3D10_CreateDevice
        || a == Api::NvAPI_D3D10_CreateDeviceAndSwapChain
        || a == Api::NvAPI_D3D11_CreateDevice
        || a == Api::NvAPI_D3D11_CreateDeviceAndSwapChain,
    ensures
        api_of_id(api_id(a)) == Some(a),
{
    match a {
        Api::NvAPI_D3D10_ProcessCallbacks => assert(api_of_id(0xae9c2019u32) == Some(Api::NvAPI_D3D10_ProcessCallbacks)),
        Api::NvAPI_D3D10_GetRenderedCursorAsBitmap => assert(api_of_id(0xcac3ce5du32) == Some(Api::NvAPI_D3D10_GetRenderedCursorAsBitmap)),
        Api::NvAPI_D3D10_BeginShareResource => assert(api_of_id(0x35233210u32) == Some(Api::NvAPI_D3D10_BeginShareResource)),
        Api::NvAPI_D3D10_BeginShareResourceEx => assert(api_of_id(0xef303a9du32) == Some(Api::NvAPI_D3D10_BeginShareResourceEx)),
        Api::NvAPI_D3D10_EndShareResource => assert(api_of_id(0x0e9c5853u32) == Some(Api::NvAPI_D3D10_EndShareResource)),
        Api::NvAPI_D3D10_SetDepthBoundsTest => assert(api_of_id(0x4eadf5d2u32) == Some(Api::NvAPI_D3D10_SetDepthBoundsTest)),
        Api::NvAPI_D3D10_CreateDevice => assert(api_of_id(0x2de11d61u32) == Some(Api::NvAPI_D3D10_CreateDevice)),
        Api::NvAPI_D3D10_CreateDeviceAndSwapChain => assert(api_of_id(0x5b803dafu32) == Some(Api::NvAPI_D3D10_CreateDeviceAndSwapChain)),
        Api::NvAPI_D3D11_CreateDevice => assert(api_of_id(0x6a16d3a0u32) == Some(Api::NvAPI_D3D11_CreateDevice)),
        Api::NvAPI_D3D11_CreateDeviceAndSwapChain => assert(api_of_id(0xbb939ee5u32) == Some(Api::NvAPI_D3D11_CreateDeviceAndSwapChain)),
        _ => {},
    }
}

#[verifier::spinoff_prover]
proof fn lemma_api_id_roundtrip_part_2_4(a: Api)
    requires
        a == Api::NvAPI_D3D11_BeginShareResource
        || a == Api::NvAPI_D3D11_EndShareResource
        || a == Api::NvAPI_D3D11_SetDepthBoundsTest
        || a == Api::NvAPI_D3D11_IsNvShaderExtnOpCodeSupported
        || a == Api::NvAPI_D3D11_SetNvShaderExtnSlot
        || a == Api::NvAPI_D3D12_SetNvShaderExtnSlotSpace
        || a == Api::NvAPI_D3D12_SetNvShaderExtnSlotSpaceLocalThread
        || a == Api::NvAPI_D3D11_SetNvShaderExtnSlotLocalThread
        || a == Api::NvAPI_D3D11_BeginUAVOverlapEx
        || a == Api::NvAPI_D3D11_BeginUAVOverlap,
    ensures
        api_of_id(api_id(a)) == Some(a),
{
    match a {
        Api::NvAPI_D3D11_BeginShareResource => assert(api_of_id(0x0121bdc6u32) == Some(Api::NvAPI_D3D11_BeginShareResource)),
        Api::NvAPI_D3D11_EndShareResource => assert(api_of_id(0x8ffb8e26u32) == Some(Api::NvAPI_D3D11_EndShareResource)),
        Api::NvAPI_D3D11_SetDepthBoundsTest => assert(api_of_id(0x7aaf7a04u32) == Some(Api::NvAPI_D3D11_SetDepthBoundsTest)),
        Api::NvAPI_D3D11_IsNvShaderExtnOpCodeSupported => assert(api_of_id(0x5f68da40u32) == Some(Api::NvAPI_D3D11_IsNvShaderExtnOpCodeSupported)),
        Api::NvAPI_D3D11_SetNvShaderExtnSlot => assert(api_of_id(0x8e90bb9fu32) == Some(Api::NvAPI_D3D11_SetNvShaderExtnSlot)),
        Api::NvAPI_D3D12_SetNvShaderExtnSlotSpace => assert(api_of_id(0xac2dfeb5u32) == Some(Api::NvAPI_D3D12_SetNvShaderExtnSlotSpace)),
        Api::NvAPI_D3D12_SetNvShaderExtnSlotSpaceLocalThread => assert(api_of_id(0x43d867c0u32) == Some(Api::NvAPI_D3D12_SetNvShaderExtnSlotSpaceLocalThread)),
        Api::NvAPI_D3D11_SetNvShaderExtnSlotLocalThread => assert(api_of_id(0x0e6482a0u32) == Some(Api::NvAPI_D3D11_SetNvShaderExtnSlotLocalThread)),
        Api::NvAPI_D3D11_BeginUAVOverlapEx => assert(api_of_id(0xba08208au32) == Some(Api::NvAPI_D3D11_BeginUAVOverlapEx)),
        Api::NvAPI_D3D11_BeginUAVOverlap => assert(api_of_id(0x65b93ca8u32) == Some(Api::NvAPI_D3D11_BeginUAVOverlap)),
        _ => {},
    }
}

proof fn lemma_api_id_roundtrip_part_2(a: Api)
    requires
        api_id_part_2(a) is Some,
    ensures
        api_of_id(api_id(a)) == Some(a),
{
    if a == Api::NvAPI_D3D9_FreeVideo || a == Api::NvAPI_D3D9_PresentVideo || a == Api::NvAPI_D3D9_VideoSetStereoInfo || a == Api::NvAPI_D3D9_SetGamutData || a == Api::NvAPI_D3D9_SetSurfaceCreationLayout || a == Api::NvAPI_D3D9_GetVideoCapabilities || a == Api::NvAPI_D3D9_QueryVideoInfo || a == Api::NvAPI_D3D9_AliasPrimaryFromDevice || a == Api::NvAPI_D3D9_SetResourceHint || a == Api::NvAPI_D3D9_Lock {
        lemma_api_id_roundtrip_part_2_0(a);
    } else if a == Api::NvAPI_D3D9_Unlock || a == Api::NvAPI_D3D9_GetVideoState || a == Api::NvAPI_D3D9_SetVideoState || a == Api::NvAPI_D3D9_EnumVideoFeatures || a == Api::NvAPI_D3D9_GetSLIInfo || a == Api::NvAPI_D3D9_SetSLIMode || a == Api::NvAPI_D3D9_QueryAAOverrideMode || a == Api::NvAPI_D3D9_VideoSurfaceEncryptionControl || a == Api::NvAPI_D3D9_DMA || a == Api::NvAPI_D3D9_EnableStereo {
        lemma_api_id_roundtrip_part_2_1(a);
    } else if a == Api::NvAPI_D3D9_StretchRect || a == Api::NvAPI_D3D9_CreateRenderTarget || a == Api::NvAPI_D3D9_NVFBC_GetStatus || a == Api::NvAPI_D3D9_IFR_SetUpTargetBufferToSys || a == Api::NvAPI_D3D9_GPUBasedCPUSleep || a == Api::NvAPI_D3D9_IFR_TransferRenderTarget || a == Api::NvAPI_D3D9_IFR_SetUpTargetBufferToNV12BLVideoSurface || a == Api::NvAPI_D3D9_IFR_TransferRenderTargetToNV12BLVideoSurface || a == Api::NvAPI_D3D10_AliasPrimaryAsTexture || a == Api::NvAPI_D3D10_SetPrimaryFlipChainCallbacks {
        lemma_api_id_roundtrip_part_2_2(a);
    } else if a == Api::NvAPI_D3D10_ProcessCallbacks || a == Api::NvAPI_D3D10_GetRenderedCursorAsBitmap || a == Api::NvAPI_D3D10_BeginShareResource || a == Api::NvAPI_D3D10_BeginShareResourceEx || a == Api::NvAPI_D3D10_EndShareResource || a == Api::NvAPI_D3D10_SetDepthBoundsTest || a == Api::NvAPI_D3D10_CreateDevice || a == Api::NvAPI_D3D10_CreateDeviceAndSwapChain || a == Api::NvAPI_D3D11_CreateDevice || a == Api::NvAPI_D3D11_CreateDeviceAndSwapChain {
        lemma_api_id_roundtrip_part_2_3(a);
    } else {
        lemma_api_id_roundtrip_part_2_4(a);
    }
}

#[verifier::spinoff_prover]
proof fn lemma_api_id_roundtrip_part_3_0(a: Api)
    requires
        a == Api::NvAPI_D3D11_EndUAVOverlap
        || a == Api::NvAPI_D3D11_GetResourceHandle
        || a == Api::NvAPI_GPU_GetShaderPipeCount
        || a == Api::NvAPI_GPU_GetShaderSubPipeCount
        || a == Api::NvAPI_GPU_GetPartitionCount
        || a == Api::NvAPI_GPU_GetMemPartitionMask
        || a == Api::NvAPI_GPU_GetTPCMask
        || a == Api::NvAPI_GPU_GetSMMask
        || a == Api::NvAPI_GPU_GetTotalTPCCount
        || a == Api::NvAPI_GPU_GetTotalSMCount,
    ensures
        api_of_id(api_id(a)) == Some(a),
{
    match a {
        Api::NvAPI_D3D11_EndUAVOverlap => assert(api_of_id(0x2216a357u32) == Some(Api::NvAPI_D3D11_EndUAVOverlap)),
        Api::NvAPI_D3D11_GetResourceHandle => assert(api_of_id(0x09d52986u32) == Some(Api::NvAPI_D3D11_GetResourceHandle)),
        Api::NvAPI_GPU_GetShaderPipeCount => assert(api_of_id(0x63e2f56fu32) == Some(Api::NvAPI_GPU_GetShaderPipeCount)),
        Api::NvAPI_GPU_GetShaderSubPipeCount => assert(api_of_id(0x0be17923u32) == Some(Api::NvAPI_GPU_GetShaderSubPipeCount)),
        Api::NvAPI_GPU_GetPartitionCount => assert(api_of_id(0x86f05d7au32) == Some(Api::NvAPI_GPU_GetPartitionCount)),
        Api::NvAPI_GPU_GetMemPartitionMask => assert(api_of_id(0x329d77cdu32) == Some(Api::NvAPI_GPU_GetMemPartitionMask)),
        Api::NvAPI_GPU_GetTPCMask => assert(api_of_id(0x4a35df54u32) == Some(Api::NvAPI_GPU_GetTPCMask)),
        Api::NvAPI_GPU_GetSMMask => assert(api_of_id(0xeb7af173u32) == Some(Api::NvAPI_GPU_GetSMMask)),
        Api::NvAPI_GPU_GetTotalTPCCount => assert(api_of_id(0x4e2f76a8u32) == Some(Api::NvAPI_GPU_GetTotalTPCCount)),
        Api::NvAPI_GPU_GetTotalSMCount => assert(api_of_id(0xae5fbcfeu32) == Some(Api::NvAPI_GPU_GetTotalSMCount)),
        _ => {},
    }
}

#[verifier::spinoff_prover]
proof fn lemma_api_id_roundtrip_part_3_1(a: Api)
    requires
        a == Api::NvAPI_GPU_GetTotalSPCount
        || a == Api::NvAPI_GPU_GetGpuCoreCount
        || a == Api::NvAPI_GPU_GetAllOutputs
        || a == Api::NvAPI_GPU_GetConnectedOutputs
        || a == Api::NvAPI_GPU_GetConnectedSLIOutputs
        || a == Api::NvAPI_GPU_GetConnectedDisplayIds
        || a == Api::NvAPI_GPU_GetAllDisplayIds
        || a == Api::NvAPI_GPU_GetConnectedOutputsWithLidState
        || a == Api::NvAPI_GPU_GetConnectedSLIOutputsWithLidState
        || a == Api::NvAPI_GPU_GetSystemType,
    ensures
        api_of_id(api_id(a)) == Some(a),
{
    match a {
        Api::NvAPI_GPU_GetTotalSPCount => assert(api_of_id(0xb6d62591u32) == Some(Api::NvAPI_GPU_GetTotalSPCount)),
        Api::NvAPI_GPU_GetGpuCoreCount => assert(api_of_id(0xc7026a87u32) == Some(Api::NvAPI_GPU_GetGpuCoreCount)),
        Api::NvAPI_GPU_GetAllOutputs => assert(api_of_id(0x7d554f8eu32) == Some(Api::NvAPI_GPU_GetAllOutputs)),
        Api::NvAPI_GPU_GetConnectedOutputs => assert(api_of_id(0x1730bfc9u32) == Some(Api::NvAPI_GPU_GetConnectedOutputs)),
        Api::NvAPI_GPU_GetConnectedSLIOutputs => assert(api_of_id(0x0680de09u32) == Some(Api::NvAPI_GPU_GetConnectedSLIOutputs)),
        Api::NvAPI_GPU_GetConnectedDisplayIds => assert(api_of_id(0x0078dba2u32) == Some(Api::NvAPI_GPU_GetConnectedDisplayIds)),
        Api::NvAPI_GPU_GetAllDisplayIds => assert(api_of_id(0x785210a2u32) == Some(Api::NvAPI_GPU_GetAllDisplayIds)),
        Api::NvAPI_GPU_GetConnectedOutputsWithLidState => assert(api_of_id(0xcf8caf39u32) == Some(Api::NvAPI_GPU_GetConnectedOutputsWithLidState)),
        Api::NvAPI_GPU_GetConnectedSLIOutputsWithLidState => assert(api_of_id(0x96043cc7u32) == Some(Api::NvAPI_GPU_GetConnectedSLIOutputsWithLidState)),
        Api::NvAPI_GPU_GetSystemType => assert(api_of_id(0xbaaabfccu32) == Some(Api::NvAPI_GPU_GetSystemType)),
        _ => {},
    }
}

#[verifier::spinoff_prover]
proof fn lemma_api_id_roundtrip_part_3_2(a: Api)
    requires
        a == Api::NvAPI_GPU_GetActiveOutputs
        || a == Api::NvAPI_GPU_GetEDID
        || a == Api::NvAPI_GPU_SetEDID
        || a == Api::NvAPI_GPU_GetOutputType
        || a == Api::NvAPI_GPU_GetDeviceDisplayMode
        || a == Api::NvAPI_GPU_GetFlatPanelInfo
        || a == Api::NvAPI_GPU_ValidateOutputCombination
        || a == Api::NvAPI_GPU_GetConnectorInfo
        || a == Api::NvAPI_GPU_GetFullName
        || a == Api::NvAPI_GPU_GetPCIIdentifiers,
    ensures
        api_of_id(api_id(a)) == Some(a),
{
    match a {
        Api::NvAPI_GPU_GetActiveOutputs => assert(api_of_id(0xe3e89b6fu32) == Some(Api::NvAPI_GPU_GetActiveOutputs)),
        Api::NvAPI_GPU_GetEDID => assert(api_of_id(0x37d32e69u32) == Some(Api::NvAPI_GPU_GetEDID)),
        Api::NvAPI_GPU_SetEDID => assert(api_of_id(0xe83d6456u32) == Some(Api::NvAPI_GPU_SetEDID)),
        Api::NvAPI_GPU_GetOutputType => assert(api_of_id(0x40a505e4u32) == Some(Api::NvAPI_GPU_GetOutputType)),
        Api::NvAPI_GPU_GetDeviceDisplayMode => assert(api_of_id(0xd2277e3au32) == Some(Api::NvAPI_GPU_GetDeviceDisplayMode)),
        Api::NvAPI_GPU_GetFlatPanelInfo => assert(api_of_id(0x36cff969u32) == Some(Api::NvAPI_GPU_GetFlatPanelInfo)),
        Api::NvAPI_GPU_ValidateOutputCombination => assert(api_of_id(0x34c9c2d4u32) == Some(Api::NvAPI_GPU_ValidateOutputCombination)),
        Api::NvAPI_GPU_GetConnectorInfo => assert(api_of_id(0x4eca2c10u32) == Some(Api::NvAPI_GPU_GetConnectorInfo)),
        Api::NvAPI_GPU_GetFullName => assert(api_of_id(0xceee8e9fu32) == Some(Api::NvAPI_GPU_GetFullName)),
        Api::NvAPI_GPU_GetPCIIdentifiers => assert(api_of_id(0x2ddfb66eu32) == Some(Api::NvAPI_GPU_GetPCIIdentifiers)),
        _ => {},
    }
}

#[verifier::spinoff_prover]
proof fn lemma_api_id_roundtrip_part_3_3(a: Api)
    requires
        a == Api::NvAPI_GPU_GetGPUType
        || a == Api::NvAPI_GPU_GetBusType
        || a == Api::NvAPI_GPU_GetBusId
        || a == Api::NvAPI_GPU_GetBusSlotId
        || a == Api::NvAPI_GPU_GetIRQ
        || a == Api::NvAPI_GPU_GetVbiosRevision
        || a == Api::NvAPI_GPU_GetVbiosOEMRevision
        || a == Api::NvAPI_GPU_GetVbiosVersionString
        || a == Api::NvAPI_GPU_GetAGPAperture
        || a == Api::NvAPI_GPU_GetCurrentAGPRate,
    ensures
        api_of_id(api_id(a)) == Some(a),
{
    match a {
        Api::NvAPI_GPU_GetGPUType => assert(api_of_id(0xc33baeb1u32) == Some(Api::NvAPI_GPU_GetGPUType)),
        Api::NvAPI_GPU_GetBusType => assert(api_of_id(0x1bb18724u32) == Some(Api::NvAPI_GPU_GetBusType)),
        Api::NvAPI_GPU_GetBusId => assert(api_of_id(0x1be0b8e5u32) == Some(Api::NvAPI_GPU_GetBusId)),
        Api::NvAPI_GPU_GetBusSlotId => assert(api_of_id(0x2a0a350fu32) == Some(Api::NvAPI_GPU_GetBusSlotId)),
        Api::NvAPI_GPU_GetIRQ => assert(api_of_id(0xe4715417u32) == Some(Api::NvAPI_GPU_GetIRQ)),
        Api::NvAPI_GPU_GetVbiosRevision => assert(api_of_id(0xacc3da0au32) == Some(Api::NvAPI_GPU_GetVbiosRevision)),
        Api::NvAPI_GPU_GetVbiosOEMRevision => assert(api_of_id(0x2d43fb31u32) == Some(Api::NvAPI_GPU_GetVbiosOEMRevision)),
        Api::NvAPI_GPU_GetVbiosVersionString => assert(api_of_id(0xa561fd7du32) == Some(Api::NvAPI_GPU_GetVbiosVersionString)),
        Api::NvAPI_GPU_GetAGPAperture => assert(api_of_id(0x6e042794u32) == Some(Api::NvAPI_GPU_GetAGPAperture)),
        Api::NvAPI_GPU_GetCurrentAGPRate => assert(api_of_id(0xc74925a0u32) == Some(Api::NvAPI_GPU_GetCurrentAGPRate)),
        _ => {},
    }
}

#[verifier::spinoff_prover]
proof fn lemma_api_id_roundtrip_part_3_4(a: Api)
    requires
        a == Api::NvAPI_GPU_GetCurrentPCIEDownstreamWidth
        || a == Api::NvAPI_GPU_GetPhysicalFrameBufferSize
        || a == Api::NvAPI_GPU_GetVirtualFrameBufferSize
        || a == Api::NvAPI_GPU_GetQuadroStatus
        || a == Api::NvAPI_GPU_GetBoardInfo
        || a == Api::NvAPI_GPU_GetRamType
        || a == Api::NvAPI_GPU_GetFBWidthAndLocation
        || a == Api::NvAPI_GPU_GetAllClockFrequencies
        || a == Api::NvAPI_GPU_GetPerfClocks
        || a == Api::NvAPI_GPU_SetPerfClocks,
    ensures
        api_of_id(api_id(a)) == Some(a),
{
    match a {
        Api::NvAPI_GPU_GetCurrentPCIEDownstreamWidth => assert(api_of_id(0xd048c3b1u32) == Some(Api::NvAPI_GPU_GetCurrentPCIEDownstreamWidth)),
        Api::NvAPI_GPU_GetPhysicalFrameBufferSize => assert(api_of_id(0x46fbeb03u32) == Some(Api::NvAPI_GPU_GetPhysicalFrameBufferSize)),
        Api::NvAPI_GPU_GetVirtualFrameBufferSize => assert(api_of_id(0x5a04b644u32) == Some(Api::NvAPI_GPU_GetVirtualFrameBufferSize)),
        Api::NvAPI_GPU_GetQuadroStatus => assert(api_of_id(0xe332fa47u32) == Some(Api::NvAPI_GPU_GetQuadroStatus)),
        Api::NvAPI_GPU_GetBoardInfo => assert(api_of_id(0x22d54523u32) == Some(Api::NvAPI_GPU_GetBoardInfo)),
        Api::NvAPI_GPU_GetRamType => assert(api_of_id(0x57f7caacu32) == Some(Api::NvAPI_GPU_GetRamType)),
        Api::NvAPI_GPU_GetFBWidthAndLocation => assert(api_of_id(0x11104158u32) == Some(Api::NvAPI_GPU_GetFBWidthAndLocation)),
        Api::NvAPI_GPU_GetAllClockFrequencies => assert(api_of_id(0xdcb616c3u32) == Some(Api::NvAPI_GPU_GetAllClockFrequencies)),
        Api::NvAPI_GPU_GetPerfClocks => assert(api_of_id(0x1ea54a3bu32) == Some(Api::NvAPI_GPU_GetPerfClocks)),
        Api::NvAPI_GPU_SetPerfClocks => assert(api_of_id(0x07bcf4acu32) == Some(Api::NvAPI_GPU_SetPerfClocks)),
        _ => {},
    }
}

proof fn lemma_api_id_roundtrip_part_3(a: Api)
    requires
        api_id_part_3(a) is Some,
    ensures
        api_of_id(api_id(a)) == Some(a),
{
    if a == Api::NvAPI_D3D11_EndUAVOverlap || a == Api::NvAPI_D3D11_GetResourceHandle || a == Api::NvAPI_GPU_GetShaderPipeCount || a == Api::NvAPI_GPU_GetShaderSubPipeCount || a == Api::NvAPI_GPU_GetPartitionCount || a == Api::NvAPI_GPU_GetMemPartitionMask || a == Api::NvAPI_GPU_GetTPCMask || a == Api::NvAPI_GPU_GetSMMask || a == Api::NvAPI_GPU_GetTotalTPCCount || a == Api::NvAPI_GPU_GetTotalSMCount {
        lemma_api_id_roundtrip_part_3_0(a);
    } else if a == Api::NvAPI_GPU_GetTotalSPCount || a == Api::NvAPI_GPU_GetGpuCoreCount || a == Api::NvAPI_GPU_GetAllOutputs || a == Api::NvAPI_GPU_GetConnectedOutputs || a == Api::NvAPI_GPU_GetConnectedSLIOutputs || a == Api::NvAPI_GPU_GetConnectedDisplayIds || a == Api::NvAPI_GPU_GetAllDisplayIds || a == Api::NvAPI_GPU_GetConnectedOutputsWithLidState || a == Api::NvAPI_GPU_GetConnectedSLIOutputsWithLidState || a == Api::NvAPI_GPU_GetSystemType {
        lemma_api_id_roundtrip_part_3_1(a);
    } else if a == Api::NvAPI_GPU_GetActiveOutputs || a == Api::NvAPI_GPU_GetEDID || a == Api::NvAPI_GPU_SetEDID || a == Api::NvAPI_GPU_GetOutputType || a == Api::NvAPI_GPU_GetDeviceDisplayMode || a == Api::NvAPI_GPU_GetFlatPanelInfo || a == Api::NvAPI_GPU_ValidateOutputCombination || a == Api::NvAPI_GPU_GetConnectorInfo || a == Api::NvAPI_GPU_GetFullName || a == Api::NvAPI_GPU_GetPCIIdentifiers {
        lemma_api_id_roundtrip_part_3_2(a);
    } else if a == Api::NvAPI_GPU_GetGPUType || a == Api::NvAPI_GPU_GetBusType || a == Api::NvAPI_GPU_GetBusId || a == Api::NvAPI_GPU_GetBusSlotId || a == Api::NvAPI_GPU_GetIRQ || a == Api::NvAPI_GPU_GetVbiosRevision || a == Api::NvAPI_GPU_GetVbiosOEMRevision || a == Api::NvAPI_GPU_GetVbiosVersionString || a == Api::NvAPI_GPU_GetAGPAperture || a == Api::NvAPI_GPU_GetCurrentAGPRate {
        lemma_api_id_roundtrip_part_3_3(a);
    } else {
        lemma_api_id_roundtrip_part_3_4(a);
    }
}

#[verifier::spinoff_prover]
proof fn lemma_api_id_roundtrip_part_4_0(a: Api)
    requires
        a == Api::NvAPI_GPU_GetCoolerSettings
        || a == Api::NvAPI_GPU_SetCoolerLevels
        || a == Api::NvAPI_GPU_RestoreCoolerSettings
        || a == Api::NvAPI_GPU_GetCoolerPolicyTable
        || a == Api::NvAPI_GPU_SetCoolerPolicyTable
        || a == Api::NvAPI_GPU_RestoreCoolerPolicyTable
        || a == Api::NvAPI_GPU_GetPstatesInfo
        || a == Api::NvAPI_GPU_GetPstatesInfoEx
        || a == Api::NvAPI_GPU_SetPstatesInfo
        || a == Api::NvAPI_GPU_GetPstates20,
    ensures
        api_of_id(api_id(a)) == Some(a),
{
    match a {
        Api::NvAPI_GPU_GetCoolerSettings => assert(api_of_id(0xda141340u32) == Some(Api::NvAPI_GPU_GetCoolerSettings)),
        Api::NvAPI_GPU_SetCoolerLevels => assert(api_of_id(0x891fa0aeu32) == Some(Api::NvAPI_GPU_SetCoolerLevels)),
        Api::NvAPI_GPU_RestoreCoolerSettings => assert(api_of_id(0x8f6ed0fbu32) == Some(Api::NvAPI_GPU_RestoreCoolerSettings)),
        Api::NvAPI_GPU_GetCoolerPolicyTable => assert(api_of_id(0x0518a32cu32) == Some(Api::NvAPI_GPU_GetCoolerPolicyTable)),
        Api::NvAPI_GPU_SetCoolerPolicyTable => assert(api_of_id(0x987947cdu32) == Some(Api::NvAPI_GPU_SetCoolerPolicyTable)),
        Api::NvAPI_GPU_RestoreCoolerPolicyTable => assert(api_of_id(0xd8c4fe63u32) == Some(Api::NvAPI_GPU_RestoreCoolerPolicyTable)),
        Api::NvAPI_GPU_GetPstatesInfo => assert(api_of_id(0xba94c56eu32) == Some(Api::NvAPI_GPU_GetPstatesInfo)),
        Api::NvAPI_GPU_GetPstatesInfoEx => assert(api_of_id(0x843c0256u32) == Some(Api::NvAPI_GPU_GetPstatesInfoEx)),
        Api::NvAPI_GPU_SetPstatesInfo => assert(api_of_id(0xcdf27911u32) == Some(Api::NvAPI_GPU_SetPstatesInfo)),
        Api::NvAPI_GPU_GetPstates20 => assert(api_of_id(0x6ff81213u32) == Some(Api::NvAPI_GPU_GetPstates20)),
        _ => {},
    }
}

#[verifier::spinoff_prover]
proof fn lemma_api_id_roundtrip_part_4_1(a: Api)
    requires
        a == Api::NvAPI_GPU_SetPstates20
        || a == Api::NvAPI_GPU_GetCurrentPstate
        || a == Api::NvAPI_GPU_GetPstateClientLimits
        || a == Api::NvAPI_GPU_SetPstateClientLimits
        || a == Api::NvAPI_GPU_EnableOverclockedPstates
        || a == Api::NvAPI_GPU_EnableDynamicPstates
        || a == Api::NvAPI_GPU_GetDynamicPstatesInfoEx
        || a == Api::NvAPI_GPU_GetVoltages
        || a == Api::NvAPI_GPU_GetThermalSettings
        || a == Api::NvAPI_GPU_SetDitherControl,
    ensures
        api_of_id(api_id(a)) == Some(a),
{
    match a {
        Api::NvAPI_GPU_SetPstates20 => assert(api_of_id(0x0f4dae6bu32) == Some(Api::NvAPI_GPU_SetPstates20)),
        Api::NvAPI_GPU_GetCurrentPstate => assert(api_of_id(0x927da4f6u32) == Some(Api::NvAPI_GPU_GetCurrentPstate)),
        Api::NvAPI_GPU_GetPstateClientLimits => assert(api_of_id(0x88c82104u32) == Some(Api::NvAPI_GPU_GetPstateClientLimits)),
        Api::NvAPI_GPU_SetPstateClientLimits => assert(api_of_id(0xfdfc7d49u32) == Some(Api::NvAPI_GPU_SetPstateClientLimits)),
        Api::NvAPI_GPU_EnableOverclockedPstates => assert(api_of_id(0xb23b70eeu32) == Some(Api::NvAPI_GPU_EnableOverclockedPstates)),
        Api::NvAPI_GPU_EnableDynamicPstates => assert(api_of_id(0xfa579a0fu32) == Some(Api::NvAPI_GPU_EnableDynamicPstates)),
        Api::NvAPI_GPU_GetDynamicPstatesInfoEx => assert(api_of_id(0x60ded2edu32) == Some(Api::NvAPI_GPU_GetDynamicPstatesInfoEx)),
        Api::NvAPI_GPU_GetVoltages => assert(api_of_id(0x7d656244u32) == Some(Api::NvAPI_GPU_GetVoltages)),
        Api::NvAPI_GPU_GetThermalSettings => assert(api_of_id(0xe3640a56u32) == Some(Api::NvAPI_GPU_GetThermalSettings)),
        Api::NvAPI_GPU_SetDitherControl => assert(api_of_id(0xdf0dfcddu32) == Some(Api::NvAPI_GPU_SetDitherControl)),
        _ => {},
    }
}

#[verifier::spinoff_prover]
proof fn lemma_api_id_roundtrip_part_4_2(a: Api)
    requires
        a == Api::NvAPI_GPU_GetDitherControl
        || a == Api::NvAPI_GPU_GetColorSpaceConversion
        || a == Api::NvAPI_GPU_SetColorSpaceConversion
        || a == Api::NvAPI_GetTVOutputInfo
        || a == Api::NvAPI_GetTVEncoderControls
        || a == Api::NvAPI_SetTVEncoderControls
        || a == Api::NvAPI_GetTVOutputBorderColor
        || a == Api::NvAPI_SetTVOutputBorderColor
        || a == Api::NvAPI_GetDisplayPosition
        || a == Api::NvAPI_SetDisplayPosition,
    ensures
        api_of_id(api_id(a)) == Some(a),
{
    match a {
        Api::NvAPI_GPU_GetDitherControl => assert(api_of_id(0x932ac8fbu32) == Some(Api::NvAPI_GPU_GetDitherControl)),
        Api::NvAPI_GPU_GetColorSpaceConversion => assert(api_of_id(0x8159e87au32) == Some(Api::NvAPI_GPU_GetColorSpaceConversion)),
        Api::NvAPI_GPU_SetColorSpaceConversion => assert(api_of_id(0xfcabd23au32) == Some(Api::NvAPI_GPU_SetColorSpaceConversion)),
        Api::NvAPI_GetTVOutputInfo => assert(api_of_id(0x30c805d5u32) == Some(Api::NvAPI_GetTVOutputInfo)),
        Api::NvAPI_GetTVEncoderControls => assert(api_of_id(0x5757474au32) == Some(Api::NvAPI_GetTVEncoderControls)),
        Api::NvAPI_SetTVEncoderControls => assert(api_of_id(0xca36a3abu32) == Some(Api::NvAPI_SetTVEncoderControls)),
        Api::NvAPI_GetTVOutputBorderColor => assert(api_of_id(0x6dfd1c8cu32) == Some(Api::NvAPI_GetTVOutputBorderColor)),
        Api::NvAPI_SetTVOutputBorderColor => assert(api_of_id(0xaed02700u32) == Some(Api::NvAPI_SetTVOutputBorderColor)),
        Api::NvAPI_GetDisplayPosition => assert(api_of_id(0x6bb1ee5du32) == Some(Api::NvAPI_GetDisplayPosition)),
        Api::NvAPI_SetDisplayPosition => assert(api_of_id(0x57d9060fu32) == Some(Api::NvAPI_SetDisplayPosition)),
        _ => {},
    }
}

#[verifier::spinoff_prover]
proof fn lemma_api_id_roundtrip_part_4_3(a: Api)
    requires
        a == Api::NvAPI_GetValidGpuTopologies
        || a == Api::NvAPI_GetInvalidGpuTopologies
        || a == Api::NvAPI_SetGpuTopologies
        || a == Api::NvAPI_GPU_GetPerGpuTopologyStatus
        || a == Api::NvAPI_SYS_GetChipSetTopologyStatus
        || a == Api::NvAPI_GPU_Get_DisplayPort_DongleInfo
        || a == Api::NvAPI_I2CRead
        || a == Api::NvAPI_I2CWrite
        || a == Api::NvAPI_I2CWriteEx
        || a == Api::NvAPI_I2CReadEx,
    ensures
        api_of_id(api_id(a)) == Some(a),
{
    match a {
        Api::NvAPI_GetValidGpuTopologies => assert(api_of_id(0x5dfab48au32) == Some(Api::NvAPI_GetValidGpuTopologies)),
        Api::NvAPI_GetInvalidGpuTopologies => assert(api_of_id(0x15658be6u32) == Some(Api::NvAPI_GetInvalidGpuTopologies)),
        Api::NvAPI_SetGpuTopologies => assert(api_of_id(0x25201f3du32) == Some(Api::NvAPI_SetGpuTopologies)),
        Api::NvAPI_GPU_GetPerGpuTopologyStatus => assert(api_of_id(0xa81f8992u32) == Some(Api::NvAPI_GPU_GetPerGpuTopologyStatus)),
        Api::NvAPI_SYS_GetChipSetTopologyStatus => assert(api_of_id(0x8a50f126u32) == Some(Api::NvAPI_SYS_GetChipSetTopologyStatus)),
        Api::NvAPI_GPU_Get_DisplayPort_DongleInfo => assert(api_of_id(0x76a70e8du32) == Some(Api::NvAPI_GPU_Get_DisplayPort_DongleInfo)),
        Api::NvAPI_I2CRead => assert(api_of_id(0x2fde12c5u32) == Some(Api::NvAPI_I2CRead)),
        Api::NvAPI_I2CWrite => assert(api_of_id(0xe812eb07u32) == Some(Api::NvAPI_I2CWrite)),
        Api::NvAPI_I2CWriteEx => assert(api_of_id(0x283ac65au32) == Some(Api::NvAPI_I2CWriteEx)),
        Api::NvAPI_I2CReadEx => assert(api_of_id(0x4d7b0709u32) == Some(Api::NvAPI_I2CReadEx)),
        _ => {},
    }
}

#[verifier::spinoff_prover]
proof fn lemma_api_id_roundtrip_part_4_4(a: Api)
    requires
        a == Api::NvAPI_GPU_GetPowerMizerInfo
        || a == Api::NvAPI_GPU_SetPowerMizerInfo
        || a == Api::NvAPI_GPU_GetVoltageDomainsStatus
        || a == Api::NvAPI_GPU_ClientPowerTopologyGetInfo
        || a == Api::NvAPI_GPU_ClientPowerTopologyGetStatus
        || a == Api::NvAPI_GPU_ClientPowerPoliciesGetInfo
        || a == Api::NvAPI_GPU_ClientPowerPoliciesGetStatus
        || a == Api::NvAPI_GPU_ClientPowerPoliciesSetStatus
        || a == Api::NvAPI_GPU_WorkstationFeatureSetup
        || a == Api::NvAPI_GPU_WorkstationFeatureQuery,
    ensures
        api_of_id(api_id(a)) == Some(a),
{
    match a {
        Api::NvAPI_GPU_GetPowerMizerInfo => assert(api_of_id(0x76bfa16bu32) == Some(Api::NvAPI_GPU_GetPowerMizerInfo)),
        Api::NvAPI_GPU_SetPowerMizerInfo => assert(api_of_id(0x50016c78u32) == Some(Api::NvAPI_GPU_SetPowerMizerInfo)),
        Api::NvAPI_GPU_GetVoltageDomainsStatus => assert(api_of_id(0xc16c7e2cu32) == Some(Api::NvAPI_GPU_GetVoltageDomainsStatus)),
        Api::NvAPI_GPU_ClientPowerTopologyGetInfo => assert(api_of_id(0xa4dfd3f2u32) == Some(Api::NvAPI_GPU_ClientPowerTopologyGetInfo)),
        Api::NvAPI_GPU_ClientPowerTopologyGetStatus => assert(api_of_id(0xedcf624eu32) == Some(Api::NvAPI_GPU_ClientPowerTopologyGetStatus)),
        Api::NvAPI_GPU_ClientPowerPoliciesGetInfo => assert(api_of_id(0x34206d86u32) == Some(Api::NvAPI_GPU_ClientPowerPoliciesGetInfo)),
        Api::NvAPI_GPU_ClientPowerPoliciesGetStatus => assert(api_of_id(0x70916171u32) == Some(Api::NvAPI_GPU_ClientPowerPoliciesGetStatus)),
        Api::NvAPI_GPU_ClientPowerPoliciesSetStatus => assert(api_of_id(0xad95f5edu32) == Some(Api::NvAPI_GPU_ClientPowerPoliciesSetStatus)),
        Api::NvAPI_GPU_WorkstationFeatureSetup => assert(api_of_id(0x6c1f3fe4u32) == Some(Api::NvAPI_GPU_WorkstationFeatureSetup)),
        Api::NvAPI_GPU_WorkstationFeatureQuery => assert(api_of_id(0x004537dfu32) == Some(Api::NvAPI_GPU_WorkstationFeatureQuery)),
        _ => {},
    }
}

proof fn lemma_api_id_roundtrip_part_4(a: Api)
    requires
        api_id_part_4(a) is Some,
    ensures
        api_of_id(api_id(a)) == Some(a),
{
    if a == Api::NvAPI_GPU_GetCoolerSettings || a == Api::NvAPI_GPU_SetCoolerLevels || a == Api::NvAPI_GPU_RestoreCoolerSettings || a == Api::NvAPI_GPU_GetCoolerPolicyTable || a == Api::NvAPI_GPU_SetCoolerPolicyTable || a == Api::NvAPI_GPU_RestoreCoolerPolicyTable || a == Api::NvAPI_GPU_GetPstatesInfo || a == Api::NvAPI_GPU_GetPstatesInfoEx || a == Api::NvAPI_GPU_SetPstatesInfo || a == Api::NvAPI_GPU_GetPstates20 {
        lemma_api_id_roundtrip_part_4_0(a);
    } else if a == Api::NvAPI_GPU_SetPstates20 || a == Api::NvAPI_GPU_GetCurrentPstate || a == Api::NvAPI_GPU_GetPstateClientLimits || a == Api::NvAPI_GPU_SetPstateClientLimits || a == Api::NvAPI_GPU_EnableOverclockedPstates || a == Api::NvAPI_GPU_EnableDynamicPstates || a == Api::NvAPI_GPU_GetDynamicPstatesInfoEx || a == Api::NvAPI_GPU_GetVoltages || a == Api::NvAPI_GPU_GetThermalSettings || a == Api::NvAPI_GPU_SetDitherControl {
        lemma_api_id_roundtrip_part_4_1(a);
    } else if a == Api::NvAPI_GPU_GetDitherControl || a == Api::NvAPI_GPU_GetColorSpaceConversion || a == Api::NvAPI_GPU_SetColorSpaceConversion || a == Api::NvAPI_GetTVOutputInfo || a == Api::NvAPI_GetTVEncoderControls || a == Api::NvAPI_SetTVEncoderControls || a == Api::NvAPI_GetTVOutputBorderColor || a == Api::NvAPI_SetTVOutputBorderColor || a == Api::NvAPI_GetDisplayPosition || a == Api::NvAPI_SetDisplayPosition {
        lemma_api_id_roundtrip_part_4_2(a);
    } else if a == Api::NvAPI_GetValidGpuTopologies || a == Api::NvAPI_GetInvalidGpuTopologies || a == Api::NvAPI_SetGpuTopologies || a == Api::NvAPI_GPU_GetPerGpuTopologyStatus || a == Api::NvAPI_SYS_GetChipSetTopologyStatus || a == Api::NvAPI_GPU_Get_DisplayPort_DongleInfo || a == Api::NvAPI_I2CRead || a == Api::NvAPI_I2CWrite || a == Api::NvAPI_I2CWriteEx || a == Api::NvAPI_I2CReadEx {
        lemma_api_id_roundtrip_part_4_3(a);
    } else {
        lemma_api_id_roundtrip_part_4_4(a);
    }
}

#[verifier::spinoff_prover]
proof fn lemma_api_id_roundtrip_part_5_0(a: Api)
    requires
        a == Api::NvAPI_GPU_QueryWorkstationFeatureSupport
        || a == Api::NvAPI_SYS_GetChipSetInfo
        || a == Api::NvAPI_SYS_GetLidAndDockInfo
        || a == Api::NvAPI_OGL_ExpertModeSet
        || a == Api::NvAPI_OGL_ExpertModeGet
        || a == Api::NvAPI_OGL_ExpertModeDefaultsSet
        || a == Api::NvAPI_OGL_ExpertModeDefaultsGet
        || a == Api::NvAPI_SetDisplaySettings
        || a == Api::NvAPI_GetDisplaySettings
        || a == Api::NvAPI_GetTiming,
    ensures
        api_of_id(api_id(a)) == Some(a),
{
    match a {
        Api::NvAPI_GPU_QueryWorkstationFeatureSupport => assert(api_of_id(0x80b1abb9u32) == Some(Api::NvAPI_GPU_QueryWorkstationFeatureSupport)),
        Api::NvAPI_SYS_GetChipSetInfo => assert(api_of_id(0x53dabbcau32) == Some(Api::NvAPI_SYS_GetChipSetInfo)),
        Api::NvAPI_SYS_GetLidAndDockInfo => assert(api_of_id(0xcda14d8au32) == Some(Api::NvAPI_SYS_GetLidAndDockInfo)),
        Api::NvAPI_OGL_ExpertModeSet => assert(api_of_id(0x3805ef7au32) == Some(Api::NvAPI_OGL_ExpertModeSet)),
        Api::NvAPI_OGL_ExpertModeGet => assert(api_of_id(0x22ed9516u32) == Some(Api::NvAPI_OGL_ExpertModeGet)),
        Api::NvAPI_OGL_ExpertModeDefaultsSet => assert(api_of_id(0xb47a657eu32) == Some(Api::NvAPI_OGL_ExpertModeDefaultsSet)),
        Api::NvAPI_OGL_ExpertModeDefaultsGet => assert(api_of_id(0xae921f12u32) == Some(Api::NvAPI_OGL_ExpertModeDefaultsGet)),
        Api::NvAPI_SetDisplaySettings => assert(api_of_id(0xe04f3d86u32) == Some(Api::NvAPI_SetDisplaySettings)),
        Api::NvAPI_GetDisplaySettings => assert(api_of_id(0xdc27d5d4u32) == Some(Api::NvAPI_GetDisplaySettings)),
        Api::NvAPI_GetTiming => assert(api_of_id(0xafc4833eu32) == Some(Api::NvAPI_GetTiming)),
        _ => {},
    }
}

#[verifier::spinoff_prover]
proof fn lemma_api_id_roundtrip_part_5_1(a: Api)
    requires
        a == Api::NvAPI_DISP_GetTiming
        || a == Api::NvAPI_DISP_GetMonitorCapabilities
        || a == Api::NvAPI_DISP_GetMonitorColorCapabilities
        || a == Api::NvAPI_DISP_EnumCustomDisplay
        || a == Api::NvAPI_DISP_TryCustomDisplay
        || a == Api::NvAPI_DISP_DeleteCustomDisplay
        || a == Api::NvAPI_DISP_SaveCustomDisplay
        || a == Api::NvAPI_DISP_RevertCustomDisplayTrial
        || a == Api::NvAPI_EnumCustomDisplay
        || a == Api::NvAPI_TryCustomDisplay,
    ensures
        api_of_id(api_id(a)) == Some(a),
{
    match a {
        Api::NvAPI_DISP_GetTiming => assert(api_of_id(0x175167e9u32) == Some(Api::NvAPI_DISP_GetTiming)),
        Api::NvAPI_DISP_GetMonitorCapabilities => assert(api_of_id(0x3b05c7e1u32) == Some(Api::NvAPI_DISP_GetMonitorCapabilities)),
        Api::NvAPI_DISP_GetMonitorColorCapabilities => assert(api_of_id(0x6ae4cfb5u32) == Some(Api::NvAPI_DISP_GetMonitorColorCapabilities)),
        Api::NvAPI_DISP_EnumCustomDisplay => assert(api_of_id(0xa2072d59u32) == Some(Api::NvAPI_DISP_EnumCustomDisplay)),
        Api::NvAPI_DISP_TryCustomDisplay => assert(api_of_id(0x1f7db630u32) == Some(Api::NvAPI_DISP_TryCustomDisplay)),
        Api::NvAPI_DISP_DeleteCustomDisplay => assert(api_of_id(0x552e5b9bu32) == Some(Api::NvAPI_DISP_DeleteCustomDisplay)),
        Api::NvAPI_DISP_SaveCustomDisplay => assert(api_of_id(0x49882876u32) == Some(Api::NvAPI_DISP_SaveCustomDisplay)),
        Api::NvAPI_DISP_RevertCustomDisplayTrial => assert(api_of_id(0xcbbd40f0u32) == Some(Api::NvAPI_DISP_RevertCustomDisplayTrial)),
        Api::NvAPI_EnumCustomDisplay => assert(api_of_id(0x42892957u32) == Some(Api::NvAPI_EnumCustomDisplay)),
        Api::NvAPI_TryCustomDisplay => assert(api_of_id(0xbf6c1762u32) == Some(Api::NvAPI_TryCustomDisplay)),
        _ => {},
    }
}

#[verifier::spinoff_prover]
proof fn lemma_api_id_roundtrip_part_5_2(a: Api)
    requires
        a == Api::NvAPI_RevertCustomDisplayTrial
        || a == Api::NvAPI_DeleteCustomDisplay
        || a == Api::NvAPI_SaveCustomDisplay
        || a == Api::NvAPI_QueryUnderscanCap
        || a == Api::NvAPI_EnumUnderscanConfig
        || a == Api::NvAPI_DeleteUnderscanConfig
        || a == Api::NvAPI_SetUnderscanConfig
        || a == Api::NvAPI_GetDisplayFeatureConfig
        || a == Api::NvAPI_SetDisplayFeatureConfig
        || a == Api::NvAPI_GetDisplayFeatureConfigDefaults,
    ensures
        api_of_id(api_id(a)) == Some(a),
{
    match a {
        Api::NvAPI_RevertCustomDisplayTrial => assert(api_of_id(0x854ba405u32) == Some(Api::NvAPI_RevertCustomDisplayTrial)),
        Api::NvAPI_DeleteCustomDisplay => assert(api_of_id(0xe7cb998du32) == Some(Api::NvAPI_DeleteCustomDisplay)),
        Api::NvAPI_SaveCustomDisplay => assert(api_of_id(0xa9062c78u32) == Some(Api::NvAPI_SaveCustomDisplay)),
        Api::NvAPI_QueryUnderscanCap => assert(api_of_id(0x61d7b624u32) == Some(Api::NvAPI_QueryUnderscanCap)),
        Api::NvAPI_EnumUnderscanConfig => assert(api_of_id(0x4144111au32) == Some(Api::NvAPI_EnumUnderscanConfig)),
        Api::NvAPI_DeleteUnderscanConfig => assert(api_of_id(0xf98854c8u32) == Some(Api::NvAPI_DeleteUnderscanConfig)),
        Api::NvAPI_SetUnderscanConfig => assert(api_of_id(0x3efada1du32) == Some(Api::NvAPI_SetUnderscanConfig)),
        Api::NvAPI_GetDisplayFeatureConfig => assert(api_of_id(0x8e985ccdu32) == Some(Api::NvAPI_GetDisplayFeatureConfig)),
        Api::NvAPI_SetDisplayFeatureConfig => assert(api_of_id(0xf36a668du32) == Some(Api::NvAPI_SetDisplayFeatureConfig)),
        Api::NvAPI_GetDisplayFeatureConfigDefaults => assert(api_of_id(0x0f5f4d01u32) == Some(Api::NvAPI_GetDisplayFeatureConfigDefaults)),
        _ => {},
    }
}

#[verifier::spinoff_prover]
proof fn lemma_api_id_roundtrip_part_5_3(a: Api)
    requires
        a == Api::NvAPI_SetView
        || a == Api::NvAPI_GetView
        || a == Api::NvAPI_SetViewEx
        || a == Api::NvAPI_GetViewEx
        || a == Api::NvAPI_GetSupportedViews
        || a == Api::NvAPI_GetHDCPLinkParameters
        || a == Api::NvAPI_Disp_DpAuxChannelControl
        || a == Api::NvAPI_SetHybridMode
        || a == Api::NvAPI_GetHybridMode
        || a == Api::NvAPI_Coproc_GetCoprocStatus,
    ensures
        api_of_id(api_id(a)) == Some(a),
{
    match a {
        Api::NvAPI_SetView => assert(api_of_id(0x0957d7b6u32) == Some(Api::NvAPI_SetView)),
        Api::NvAPI_GetView => assert(api_of_id(0xd6b99d89u32) == Some(Api::NvAPI_GetView)),
        Api::NvAPI_SetViewEx => assert(api_of_id(0x06b89e68u32) == Some(Api::NvAPI_SetViewEx)),
        Api::NvAPI_GetViewEx => assert(api_of_id(0xdbbc0af4u32) == Some(Api::NvAPI_GetViewEx)),
        Api::NvAPI_GetSupportedViews => assert(api_of_id(0x66fb7fc0u32) == Some(Api::NvAPI_GetSupportedViews)),
        Api::NvAPI_GetHDCPLinkParameters => assert(api_of_id(0xb3bb0772u32) == Some(Api::NvAPI_GetHDCPLinkParameters)),
        Api::NvAPI_Disp_DpAuxChannelControl => assert(api_of_id(0x8eb56969u32) == Some(Api::NvAPI_Disp_DpAuxChannelControl)),
        Api::NvAPI_SetHybridMode => assert(api_of_id(0xfb22d656u32) == Some(Api::NvAPI_SetHybridMode)),
        Api::NvAPI_GetHybridMode => assert(api_of_id(0xe23b68c1u32) == Some(Api::NvAPI_GetHybridMode)),
        Api::NvAPI_Coproc_GetCoprocStatus => assert(api_of_id(0x1efc3957u32) == Some(Api::NvAPI_Coproc_GetCoprocStatus)),
        _ => {},
    }
}

#[verifier::spinoff_prover]
proof fn lemma_api_id_roundtrip_part_5_4(a: Api)
    requires
        a == Api::NvAPI_Coproc_SetCoprocInfoFlagsEx
        || a == Api::NvAPI_Coproc_GetCoprocInfoFlagsEx
        || a == Api::NvAPI_Coproc_NotifyCoprocPowerState
        || a == Api::NvAPI_Coproc_GetApplicationCoprocInfo
        || a == Api::NvAPI_GetVideoState
        || a == Api::NvAPI_SetVideoState
        || a == Api::NvAPI_SetFrameRateNotify
        || a == Api::NvAPI_SetPVExtName
        || a == Api::NvAPI_GetPVExtName
        || a == Api::NvAPI_SetPVExtProfile,
    ensures
        api_of_id(api_id(a)) == Some(a),
{
    match a {
        Api::NvAPI_Coproc_SetCoprocInfoFlagsEx => assert(api_of_id(0xf4c863acu32) == Some(Api::NvAPI_Coproc_SetCoprocInfoFlagsEx)),
        Api::NvAPI_Coproc_GetCoprocInfoFlagsEx => assert(api_of_id(0x69a9874du32) == Some(Api::NvAPI_Coproc_GetCoprocInfoFlagsEx)),
        Api::NvAPI_Coproc_NotifyCoprocPowerState => assert(api_of_id(0xcadcb956u32) == Some(Api::NvAPI_Coproc_NotifyCoprocPowerState)),
        Api::NvAPI_Coproc_GetApplicationCoprocInfo => assert(api_of_id(0x79232685u32) == Some(Api::NvAPI_Coproc_GetApplicationCoprocInfo)),
        Api::NvAPI_GetVideoState => assert(api_of_id(0x1c5659cdu32) == Some(Api::NvAPI_GetVideoState)),
        Api::NvAPI_SetVideoState => assert(api_of_id(0x054fe75au32) == Some(Api::NvAPI_SetVideoState)),
        Api::NvAPI_SetFrameRateNotify => assert(api_of_id(0x18919887u32) == Some(Api::NvAPI_SetFrameRateNotify)),
        Api::NvAPI_SetPVExtName => assert(api_of_id(0x4feeb498u32) == Some(Api::NvAPI_SetPVExtName)),
        Api::NvAPI_GetPVExtName => assert(api_of_id(0x2f5b08e0u32) == Some(Api::NvAPI_GetPVExtName)),
        Api::NvAPI_SetPVExtProfile => assert(api_of_id(0x8354a8f4u32) == Some(Api::NvAPI_SetPVExtProfile)),
        _ => {},
    }
}

proof fn lemma_api_id_roundtrip_part_5(a: Api)
    requires
        api_id_part_5(a) is Some,
    ensures
        api_of_id(api_id(a)) == Some(a),
{
    if a == Api::NvAPI_GPU_QueryWorkstationFeatureSupport || a == Api::NvAPI_SYS_GetChipSetInfo || a == Api::NvAPI_SYS_GetLidAndDockInfo || a == Api::NvAPI_OGL_ExpertModeSet || a == Api::NvAPI_OGL_ExpertModeGet || a == Api::NvAPI_OGL_ExpertModeDefaultsSet || a == Api::NvAPI_OGL_ExpertModeDefaultsGet || a == Api::NvAPI_SetDisplaySettings || a == Api::NvAPI_GetDisplaySettings || a == Api::NvAPI_GetTiming {
        lemma_api_id_roundtrip_part_5_0(a);
    } else if a == Api::NvAPI_DISP_GetTiming || a == Api::NvAPI_DISP_GetMonitorCapabilities || a == Api::NvAPI_DISP_GetMonitorColorCapabilities || a == Api::NvAPI_DISP_EnumCustomDisplay || a == Api::NvAPI_DISP_TryCustomDisplay || a == Api::NvAPI_DISP_DeleteCustomDisplay || a == Api::NvAPI_DISP_SaveCustomDisplay || a == Api::NvAPI_DISP_RevertCustomDisplayTrial || a == Api::NvAPI_EnumCustomDisplay || a == Api::NvAPI_TryCustomDisplay {
        lemma_api_id_roundtrip_part_5_1(a);
    } else if a == Api::NvAPI_RevertCustomDisplayTrial || a == Api::NvAPI_DeleteCustomDisplay || a == Api::NvAPI_SaveCustomDisplay || a == Api::NvAPI_QueryUnderscanCap || a == Api::NvAPI_EnumUnderscanConfig || a == Api::NvAPI_DeleteUnderscanConfig || a == Api::NvAPI_SetUnderscanConfig || a == Api::NvAPI_GetDisplayFeatureConfig || a == Api::NvAPI_SetDisplayFeatureConfig || a == Api::NvAPI_GetDisplayFeatureConfigDefaults {
        lemma_api_id_roundtrip_part_5_2(a);
    } else if a == Api::NvAPI_SetView || a == Api::NvAPI_GetView || a == Api::NvAPI_SetViewEx || a == Api::NvAPI_GetViewEx || a == Api::NvAPI_GetSupportedViews || a == Api::NvAPI_GetHDCPLinkParameters || a == Api::NvAPI_Disp_DpAuxChannelControl || a == Api::NvAPI_SetHybridMode || a == Api::NvAPI_GetHybridMode || a == Api::NvAPI_Coproc_GetCoprocStatus {
        lemma_api_id_roundtrip_part_5_3(a);
    } else {
        lemma_api_id_roundtrip_part_5_4(a);
    }
}

#[verifier::spinoff_prover]
proof fn lemma_api_id_roundtrip_part_6_0(a: Api)
    requires
        a == Api::NvAPI_GetPVExtProfile
        || a == Api::NvAPI_VideoSetStereoInfo
        || a == Api::NvAPI_VideoGetStereoInfo
        || a == Api::NvAPI_Mosaic_GetSupportedTopoInfo
        || a == Api::NvAPI_Mosaic_GetTopoGroup
        || a == Api::NvAPI_Mosaic_GetOverlapLimits
        || a == Api::NvAPI_Mosaic_SetCurrentTopo
        || a == Api::NvAPI_Mosaic_GetCurrentTopo
        || a == Api::NvAPI_Mosaic_EnableCurrentTopo
        || a == Api::NvAPI_Mosaic_SetGridTopology,
    ensures
        api_of_id(api_id(a)) == Some(a),
{
    match a {
        Api::NvAPI_GetPVExtProfile => assert(api_of_id(0x1b1b9a16u32) == Some(Api::NvAPI_GetPVExtProfile)),
        Api::NvAPI_VideoSetStereoInfo => assert(api_of_id(0x97063269u32) == Some(Api::NvAPI_VideoSetStereoInfo)),
        Api::NvAPI_VideoGetStereoInfo => assert(api_of_id(0x8e1f8cfeu32) == Some(Api::NvAPI_VideoGetStereoInfo)),
        Api::NvAPI_Mosaic_GetSupportedTopoInfo => assert(api_of_id(0xfdb63c81u32) == Some(Api::NvAPI_Mosaic_GetSupportedTopoInfo)),
        Api::NvAPI_Mosaic_GetTopoGroup => assert(api_of_id(0xcb89381du32) == Some(Api::NvAPI_Mosaic_GetTopoGroup)),
        Api::NvAPI_Mosaic_GetOverlapLimits => assert(api_of_id(0x989685f0u32) == Some(Api::NvAPI_Mosaic_GetOverlapLimits)),
        Api::NvAPI_Mosaic_SetCurrentTopo => assert(api_of_id(0x9b542831u32) == Some(Api::NvAPI_Mosaic_SetCurrentTopo)),
        Api::NvAPI_Mosaic_GetCurrentTopo => assert(api_of_id(0xec32944eu32) == Some(Api::NvAPI_Mosaic_GetCurrentTopo)),
        Api::NvAPI_Mosaic_EnableCurrentTopo => assert(api_of_id(0x5f1aa66cu32) == Some(Api::NvAPI_Mosaic_EnableCurrentTopo)),
        Api::NvAPI_Mosaic_SetGridTopology => assert(api_of_id(0x3f113c77u32) == Some(Api::NvAPI_Mosaic_SetGridTopology)),
        _ => {},
    }
}

#[verifier::spinoff_prover]
proof fn lemma_api_id_roundtrip_part_6_1(a: Api)
    requires
        a == Api::NvAPI_Mosaic_GetMosaicCapabilities
        || a == Api::NvAPI_Mosaic_GetDisplayCapabilities
        || a == Api::NvAPI_Mosaic_EnumGridTopologies
        || a == Api::NvAPI_Mosaic_GetDisplayViewportsByResolution
        || a == Api::NvAPI_Mosaic_GetMosaicViewports
        || a == Api::NvAPI_Mosaic_SetDisplayGrids
        || a == Api::NvAPI_Mosaic_ValidateDisplayGridsWithSLI
        || a == Api::NvAPI_Mosaic_ValidateDisplayGrids
        || a == Api::NvAPI_Mosaic_EnumDisplayModes
        || a == Api::NvAPI_Mosaic_ChooseGpuTopologies,
    ensures
        api_of_id(api_id(a)) == Some(a),
{
    match a {
        Api::NvAPI_Mosaic_GetMosaicCapabilities => assert(api_of_id(0xda97071eu32) == Some(Api::NvAPI_Mosaic_GetMosaicCapabilities)),
        Api::NvAPI_Mosaic_GetDisplayCapabilities => assert(api_of_id(0xd58026b9u32) == Some(Api::NvAPI_Mosaic_GetDisplayCapabilities)),
        Api::NvAPI_Mosaic_EnumGridTopologies => assert(api_of_id(0xa3c55220u32) == Some(Api::NvAPI_Mosaic_EnumGridTopologies)),
        Api::NvAPI_Mosaic_GetDisplayViewportsByResolution => assert(api_of_id(0xdc6dc8d3u32) == Some(Api::NvAPI_Mosaic_GetDisplayViewportsByResolution)),
        Api::NvAPI_Mosaic_GetMosaicViewports => assert(api_of_id(0x07eba036u32) == Some(Api::NvAPI_Mosaic_GetMosaicViewports)),
        Api::NvAPI_Mosaic_SetDisplayGrids => assert(api_of_id(0x4d959a89u32) == Some(Api::NvAPI_Mosaic_SetDisplayGrids)),
        Api::NvAPI_Mosaic_ValidateDisplayGridsWithSLI => assert(api_of_id(0x1ecfd263u32) == Some(Api::NvAPI_Mosaic_ValidateDisplayGridsWithSLI)),
        Api::NvAPI_Mosaic_ValidateDisplayGrids => assert(api_of_id(0xcf43903du32) == Some(Api::NvAPI_Mosaic_ValidateDisplayGrids)),
        Api::NvAPI_Mosaic_EnumDisplayModes => assert(api_of_id(0x78db97d7u32) == Some(Api::NvAPI_Mosaic_EnumDisplayModes)),
        Api::NvAPI_Mosaic_ChooseGpuTopologies => assert(api_of_id(0xb033b140u32) == Some(Api::NvAPI_Mosaic_ChooseGpuTopologies)),
        _ => {},
    }
}

#[verifier::spinoff_prover]
proof fn lemma_api_id_roundtrip_part_6_2(a: Api)
    requires
        a == Api::NvAPI_Mosaic_EnumDisplayGrids
        || a == Api::NvAPI_GetSupportedMosaicTopologies
        || a == Api::NvAPI_GetCurrentMosaicTopology
        || a == Api::NvAPI_SetCurrentMosaicTopology
        || a == Api::NvAPI_EnableCurrentMosaicTopology
        || a == Api::NvAPI_GSync_EnumSyncDevices
        || a == Api::NvAPI_GSync_QueryCapabilities
        || a == Api::NvAPI_GSync_GetTopology
        || a == Api::NvAPI_GSync_SetSyncStateSettings
        || a == Api::NvAPI_GSync_GetControlParameters,
    ensures
        api_of_id(api_id(a)) == Some(a),
{
    match a {
        Api::NvAPI_Mosaic_EnumDisplayGrids => assert(api_of_id(0xdf2887afu32) == Some(Api::NvAPI_Mosaic_EnumDisplayGrids)),
        Api::NvAPI_GetSupportedMosaicTopologies => assert(api_of_id(0x410b5c25u32) == Some(Api::NvAPI_GetSupportedMosaicTopologies)),
        Api::NvAPI_GetCurrentMosaicTopology => assert(api_of_id(0xf60852bdu32) == Some(Api::NvAPI_GetCurrentMosaicTopology)),
        Api::NvAPI_SetCurrentMosaicTopology => assert(api_of_id(0xd54b8989u32) == Some(Api::NvAPI_SetCurrentMosaicTopology)),
        Api::NvAPI_EnableCurrentMosaicTopology => assert(api_of_id(0x74073cc9u32) == Some(Api::NvAPI_EnableCurrentMosaicTopology)),
        Api::NvAPI_GSync_EnumSyncDevices => assert(api_of_id(0xd9639601u32) == Some(Api::NvAPI_GSync_EnumSyncDevices)),
        Api::NvAPI_GSync_QueryCapabilities => assert(api_of_id(0x44a3f1d1u32) == Some(Api::NvAPI_GSync_QueryCapabilities)),
        Api::NvAPI_GSync_GetTopology => assert(api_of_id(0x4562bc38u32) == Some(Api::NvAPI_GSync_GetTopology)),
        Api::NvAPI_GSync_SetSyncStateSettings => assert(api_of_id(0x60acdfddu32) == Some(Api::NvAPI_GSync_SetSyncStateSettings)),
        Api::NvAPI_GSync_GetControlParameters => assert(api_of_id(0x16de1c6au32) == Some(Api::NvAPI_GSync_GetControlParameters)),
        _ => {},
    }
}

#[verifier::spinoff_prover]
proof fn lemma_api_id_roundtrip_part_6_3(a: Api)
    requires
        a == Api::NvAPI_GSync_SetControlParameters
        || a == Api::NvAPI_GSync_AdjustSyncDelay
        || a == Api::NvAPI_GSync_GetSyncStatus
        || a == Api::NvAPI_GSync_GetStatusParameters
        || a == Api::NvAPI_QueryNonMigratableApps
        || a == Api::NvAPI_GPU_QueryActiveApps
        || a == Api::NvAPI_Hybrid_QueryUnblockedNonMigratableApps
        || a == Api::NvAPI_Hybrid_QueryBlockedMigratableApps
        || a == Api::NvAPI_Hybrid_SetAppMigrationState
        || a == Api::NvAPI_Hybrid_IsAppMigrationStateChangeable,
    ensures
        api_of_id(api_id(a)) == Some(a),
{
    match a {
        Api::NvAPI_GSync_SetControlParameters => assert(api_of_id(0x8bbff88bu32) == Some(Api::NvAPI_GSync_SetControlParameters)),
        Api::NvAPI_GSync_AdjustSyncDelay => assert(api_of_id(0x2d11ff51u32) == Some(Api::NvAPI_GSync_AdjustSyncDelay)),
        Api::NvAPI_GSync_GetSyncStatus => assert(api_of_id(0xf1f5b434u32) == Some(Api::NvAPI_GSync_GetSyncStatus)),
        Api::NvAPI_GSync_GetStatusParameters => assert(api_of_id(0x70d404ecu32) == Some(Api::NvAPI_GSync_GetStatusParameters)),
        Api::NvAPI_QueryNonMigratableApps => assert(api_of_id(0xbb9ef1c3u32) == Some(Api::NvAPI_QueryNonMigratableApps)),
        Api::NvAPI_GPU_QueryActiveApps => assert(api_of_id(0x65b1c5f5u32) == Some(Api::NvAPI_GPU_QueryActiveApps)),
        Api::NvAPI_Hybrid_QueryUnblockedNonMigratableApps => assert(api_of_id(0x5f35bcb5u32) == Some(Api::NvAPI_Hybrid_QueryUnblockedNonMigratableApps)),
        Api::NvAPI_Hybrid_QueryBlockedMigratableApps => assert(api_of_id(0xf4c2f8ccu32) == Some(Api::NvAPI_Hybrid_QueryBlockedMigratableApps)),
        Api::NvAPI_Hybrid_SetAppMigrationState => assert(api_of_id(0xfa0b9a59u32) == Some(Api::NvAPI_Hybrid_SetAppMigrationState)),
        Api::NvAPI_Hybrid_IsAppMigrationStateChangeable => assert(api_of_id(0x584cb0b6u32) == Some(Api::NvAPI_Hybrid_IsAppMigrationStateChangeable)),
        _ => {},
    }
}

#[verifier::spinoff_prover]
proof fn lemma_api_id_roundtrip_part_6_4(a: Api)
    requires
        a == Api::NvAPI_GPU_GPIOQueryLegalPins
        || a == Api::NvAPI_GPU_GPIOReadFromPin
        || a == Api::NvAPI_GPU_GPIOWriteToPin
        || a == Api::NvAPI_GPU_GetHDCPSupportStatus
        || a == Api::NvAPI_SetTopologyFocusDisplayAndView
        || a == Api::NvAPI_Stereo_CreateConfigurationProfileRegistryKey
        || a == Api::NvAPI_Stereo_DeleteConfigurationProfileRegistryKey
        || a == Api::NvAPI_Stereo_SetConfigurationProfileValue
        || a == Api::NvAPI_Stereo_DeleteConfigurationProfileValue
        || a == Api::NvAPI_Stereo_Enable,
    ensures
        api_of_id(api_id(a)) == Some(a),
{
    match a {
        Api::NvAPI_GPU_GPIOQueryLegalPins => assert(api_of_id(0xfab69565u32) == Some(Api::NvAPI_GPU_GPIOQueryLegalPins)),
        Api::NvAPI_GPU_GPIOReadFromPin => assert(api_of_id(0xf5e10439u32) == Some(Api::NvAPI_GPU_GPIOReadFromPin)),
        Api::NvAPI_GPU_GPIOWriteToPin => assert(api_of_id(0xf3b11e68u32) == Some(Api::NvAPI_GPU_GPIOWriteToPin)),
        Api::NvAPI_GPU_GetHDCPSupportStatus => assert(api_of_id(0xf089eef5u32) == Some(Api::NvAPI_GPU_GetHDCPSupportStatus)),
        Api::NvAPI_SetTopologyFocusDisplayAndView => assert(api_of_id(0x0a8064f9u32) == Some(Api::NvAPI_SetTopologyFocusDisplayAndView)),
        Api::NvAPI_Stereo_CreateConfigurationProfileRegistryKey => assert(api_of_id(0xbe7692ecu32) == Some(Api::NvAPI_Stereo_CreateConfigurationProfileRegistryKey)),
        Api::NvAPI_Stereo_DeleteConfigurationProfileRegistryKey => assert(api_of_id(0xf117b834u32) == Some(Api::NvAPI_Stereo_DeleteConfigurationProfileRegistryKey)),
        Api::NvAPI_Stereo_SetConfigurationProfileValue => assert(api_of_id(0x24409f48u32) == Some(Api::NvAPI_Stereo_SetConfigurationProfileValue)),
        Api::NvAPI_Stereo_DeleteConfigurationProfileValue => assert(api_of_id(0x49bceecfu32) == Some(Api::NvAPI_Stereo_DeleteConfigurationProfileValue)),
        Api::NvAPI_Stereo_Enable => assert(api_of_id(0x239c4545u32) == Some(Api::NvAPI_Stereo_Enable)),
        _ => {},
    }
}

proof fn lemma_api_id_roundtrip_part_6(a: Api)
    requires
        api_id_part_6(a) is Some,
    ensures
        api_of_id(api_id(a)) == Some(a),
{
    if a == Api::NvAPI_GetPVExtProfile || a == Api::NvAPI_VideoSetStereoInfo || a == Api::NvAPI_VideoGetStereoInfo || a == Api::NvAPI_Mosaic_GetSupportedTopoInfo || a == Api::NvAPI_Mosaic_GetTopoGroup || a == Api::NvAPI_Mosaic_GetOverlapLimits || a == Api::NvAPI_Mosaic_SetCurrentTopo || a == Api::NvAPI_Mosaic_GetCurrentTopo || a == Api::NvAPI_Mosaic_EnableCurrentTopo || a == Api::NvAPI_Mosaic_SetGridTopology {
        lemma_api_id_roundtrip_part_6_0(a);
    } else if a == Api::NvAPI_Mosaic_GetMosaicCapabilities || a == Api::NvAPI_Mosaic_GetDisplayCapabilities || a == Api::NvAPI_Mosaic_EnumGridTopologies || a == Api::NvAPI_Mosaic_GetDisplayViewportsByResolution || a == Api::NvAPI_Mosaic_GetMosaicViewports || a == Api::NvAPI_Mosaic_SetDisplayGrids || a == Api::NvAPI_Mosaic_ValidateDisplayGridsWithSLI || a == Api::NvAPI_Mosaic_ValidateDisplayGrids || a == Api::NvAPI_Mosaic_EnumDisplayModes || a == Api::NvAPI_Mosaic_ChooseGpuTopologies {
        lemma_api_id_roundtrip_part_6_1(a);
    } else if a == Api::NvAPI_Mosaic_EnumDisplayGrids || a == Api::NvAPI_GetSupportedMosaicTopologies || a == Api::NvAPI_GetCurrentMosaicTopology || a == Api::NvAPI_SetCurrentMosaicTopology || a == Api::NvAPI_EnableCurrentMosaicTopology || a == Api::NvAPI_GSync_EnumSyncDevices || a == Api::NvAPI_GSync_QueryCapabilities || a == Api::NvAPI_GSync_GetTopology || a == Api::NvAPI_GSync_SetSyncStateSettings || a == Api::NvAPI_GSync_GetControlParameters {
        lemma_api_id_roundtrip_part_6_2(a);
    } else if a == Api::NvAPI_GSync_SetControlParameters || a == Api::NvAPI_GSync_AdjustSyncDelay || a == Api::NvAPI_GSync_GetSyncStatus || a == Api::NvAPI_GSync_GetStatusParameters || a == Api::NvAPI_QueryNonMigratableApps || a == Api::NvAPI_GPU_QueryActiveApps || a == Api::NvAPI_Hybrid_QueryUnblockedNonMigratableApps || a == Api::NvAPI_Hybrid_QueryBlockedMigratableApps || a == Api::NvAPI_Hybrid_SetAppMigrationState || a == Api::NvAPI_Hybrid_IsAppMigrationStateChangeable {
        lemma_api_id_roundtrip_part_6_3(a);
    } else {
        lemma_api_id_roundtrip_part_6_4(a);
    }
}

#[verifier::spinoff_prover]
proof fn lemma_api_id_roundtrip_part_7_0(a: Api)
    requires
        a == Api::NvAPI_Stereo_Disable
        || a == Api::NvAPI_Stereo_IsEnabled
        || a == Api::NvAPI_Stereo_GetStereoCaps
        || a == Api::NvAPI_Stereo_GetStereoSupport
        || a == Api::NvAPI_Stereo_CreateHandleFromIUnknown
        || a == Api::NvAPI_Stereo_DestroyHandle
        || a == Api::NvAPI_Stereo_Activate
        || a == Api::NvAPI_Stereo_Deactivate
        || a == Api::NvAPI_Stereo_IsActivated
        || a == Api::NvAPI_Stereo_GetSeparation,
    ensures
        api_of_id(api_id(a)) == Some(a),
{
    match a {
        Api::NvAPI_Stereo_Disable => assert(api_of_id(0x2ec50c2bu32) == Some(Api::NvAPI_Stereo_Disable)),
        Api::NvAPI_Stereo_IsEnabled => assert(api_of_id(0x348ff8e1u32) == Some(Api::NvAPI_Stereo_IsEnabled)),
        Api::NvAPI_Stereo_GetStereoCaps => assert(api_of_id(0xdfc063b7u32) == Some(Api::NvAPI_Stereo_GetStereoCaps)),
        Api::NvAPI_Stereo_GetStereoSupport => assert(api_of_id(0x296c434du32) == Some(Api::NvAPI_Stereo_GetStereoSupport)),
        Api::NvAPI_Stereo_CreateHandleFromIUnknown => assert(api_of_id(0xac7e37f4u32) == Some(Api::NvAPI_Stereo_CreateHandleFromIUnknown)),
        Api::NvAPI_Stereo_DestroyHandle => assert(api_of_id(0x3a153134u32) == Some(Api::NvAPI_Stereo_DestroyHandle)),
        Api::NvAPI_Stereo_Activate => assert(api_of_id(0xf6a1ad68u32) == Some(Api::NvAPI_Stereo_Activate)),
        Api::NvAPI_Stereo_Deactivate => assert(api_of_id(0x2d68de96u32) == Some(Api::NvAPI_Stereo_Deactivate)),
        Api::NvAPI_Stereo_IsActivated => assert(api_of_id(0x1fb0bc30u32) == Some(Api::NvAPI_Stereo_IsActivated)),
        Api::NvAPI_Stereo_GetSeparation => assert(api_of_id(0x451f2134u32) == Some(Api::NvAPI_Stereo_GetSeparation)),
        _ => {},
    }
}

#[verifier::spinoff_prover]
proof fn lemma_api_id_roundtrip_part_7_1(a: Api)
    requires
        a == Api::NvAPI_Stereo_SetSeparation
        || a == Api::NvAPI_Stereo_DecreaseSeparation
        || a == Api::NvAPI_Stereo_IncreaseSeparation
        || a == Api::NvAPI_Stereo_GetConvergence
        || a == Api::NvAPI_Stereo_SetConvergence
        || a == Api::NvAPI_Stereo_DecreaseConvergence
        || a == Api::NvAPI_Stereo_IncreaseConvergence
        || a == Api::NvAPI_Stereo_GetFrustumAdjustMode
        || a == Api::NvAPI_Stereo_SetFrustumAdjustMode
        || a == Api::NvAPI_Stereo_CaptureJpegImage,
    ensures
        api_of_id(api_id(a)) == Some(a),
{
    match a {
        Api::NvAPI_Stereo_SetSeparation => assert(api_of_id(0x5c069fa3u32) == Some(Api::NvAPI_Stereo_SetSeparation)),
        Api::NvAPI_Stereo_DecreaseSeparation => assert(api_of_id(0xda044458u32) == Some(Api::NvAPI_Stereo_DecreaseSeparation)),
        Api::NvAPI_Stereo_IncreaseSeparation => assert(api_of_id(0xc9a8ececu32) == Some(Api::NvAPI_Stereo_IncreaseSeparation)),
        Api::NvAPI_Stereo_GetConvergence => assert(api_of_id(0x4ab00934u32) == Some(Api::NvAPI_Stereo_GetConvergence)),
        Api::NvAPI_Stereo_SetConvergence => assert(api_of_id(0x3dd6b54bu32) == Some(Api::NvAPI_Stereo_SetConvergence)),
        Api::NvAPI_Stereo_DecreaseConvergence => assert(api_of_id(0x4c87e317u32) == Some(Api::NvAPI_Stereo_DecreaseConvergence)),
        Api::NvAPI_Stereo_IncreaseConvergence => assert(api_of_id(0xa17daabeu32) == Some(Api::NvAPI_Stereo_IncreaseConvergence)),
        Api::NvAPI_Stereo_GetFrustumAdjustMode => assert(api_of_id(0xe6839b43u32) == Some(Api::NvAPI_Stereo_GetFrustumAdjustMode)),
        Api::NvAPI_Stereo_SetFrustumAdjustMode => assert(api_of_id(0x7be27fa2u32) == Some(Api::NvAPI_Stereo_SetFrustumAdjustMode)),
        Api::NvAPI_Stereo_CaptureJpegImage => assert(api_of_id(0x932cb140u32) == Some(Api::NvAPI_Stereo_CaptureJpegImage)),
        _ => {},
    }
}

#[verifier::spinoff_prover]
proof fn lemma_api_id_roundtrip_part_7_2(a: Api)
    requires
        a == Api::NvAPI_Stereo_InitActivation
        || a == Api::NvAPI_Stereo_Trigger_Activation
        || a == Api::NvAPI_Stereo_CapturePngImage
        || a == Api::NvAPI_Stereo_ReverseStereoBlitControl
        || a == Api::NvAPI_Stereo_SetNotificationMessage
        || a == Api::NvAPI_Stereo_SetActiveEye
        || a == Api::NvAPI_Stereo_SetDriverMode
        || a == Api::NvAPI_Stereo_GetEyeSeparation
        || a == Api::NvAPI_Stereo_IsWindowedModeSupported
        || a == Api::NvAPI_Stereo_AppHandShake,
    ensures
        api_of_id(api_id(a)) == Some(a),
{
    match a {
        Api::NvAPI_Stereo_InitActivation => assert(api_of_id(0xc7177702u32) == Some(Api::NvAPI_Stereo_InitActivation)),
        Api::NvAPI_Stereo_Trigger_Activation => assert(api_of_id(0x0d6c6cd2u32) == Some(Api::NvAPI_Stereo_Trigger_Activation)),
        Api::NvAPI_Stereo_CapturePngImage => assert(api_of_id(0x8b7e99b5u32) == Some(Api::NvAPI_Stereo_CapturePngImage)),
        Api::NvAPI_Stereo_ReverseStereoBlitControl => assert(api_of_id(0x3cd58f89u32) == Some(Api::NvAPI_Stereo_ReverseStereoBlitControl)),
        Api::NvAPI_Stereo_SetNotificationMessage => assert(api_of_id(0x6b9b409eu32) == Some(Api::NvAPI_Stereo_SetNotificationMessage)),
        Api::NvAPI_Stereo_SetActiveEye => assert(api_of_id(0x96eea9f8u32) == Some(Api::NvAPI_Stereo_SetActiveEye)),
        Api::NvAPI_Stereo_SetDriverMode => assert(api_of_id(0x5e8f0becu32) == Some(Api::NvAPI_Stereo_SetDriverMode)),
        Api::NvAPI_Stereo_GetEyeSeparation => assert(api_of_id(0xce653127u32) == Some(Api::NvAPI_Stereo_GetEyeSeparation)),
        Api::NvAPI_Stereo_IsWindowedModeSupported => assert(api_of_id(0x40c8ed5eu32) == Some(Api::NvAPI_Stereo_IsWindowedModeSupported)),
        Api::NvAPI_Stereo_AppHandShake => assert(api_of_id(0x8c610bdau32) == Some(Api::NvAPI_Stereo_AppHandShake)),
        _ => {},
    }
}

#[verifier::spinoff_prover]
proof fn lemma_api_id_roundtrip_part_7_3(a: Api)
    requires
        a == Api::NvAPI_Stereo_HandShake_Trigger_Activation
        || a == Api::NvAPI_Stereo_HandShake_Message_Control
        || a == Api::NvAPI_Stereo_SetSurfaceCreationMode
        || a == Api::NvAPI_Stereo_GetSurfaceCreationMode
        || a == Api::NvAPI_Stereo_Debug_WasLastDrawStereoized
        || a == Api::NvAPI_Stereo_ForceToScreenDepth
        || a == Api::NvAPI_Stereo_SetVertexShaderConstantF
        || a == Api::NvAPI_Stereo_SetVertexShaderConstantB
        || a == Api::NvAPI_Stereo_SetVertexShaderConstantI
        || a == Api::NvAPI_Stereo_GetVertexShaderConstantF,
    ensures
        api_of_id(api_id(a)) == Some(a),
{
    match a {
        Api::NvAPI_Stereo_HandShake_Trigger_Activation => assert(api_of_id(0xb30cd1a7u32) == Some(Api::NvAPI_Stereo_HandShake_Trigger_Activation)),
        Api::NvAPI_Stereo_HandShake_Message_Control => assert(api_of_id(0x315e0ef0u32) == Some(Api::NvAPI_Stereo_HandShake_Message_Control)),
        Api::NvAPI_Stereo_SetSurfaceCreationMode => assert(api_of_id(0xf5dcfcbau32) == Some(Api::NvAPI_Stereo_SetSurfaceCreationMode)),
        Api::NvAPI_Stereo_GetSurfaceCreationMode => assert(api_of_id(0x36f1c736u32) == Some(Api::NvAPI_Stereo_GetSurfaceCreationMode)),
        Api::NvAPI_Stereo_Debug_WasLastDrawStereoized => assert(api_of_id(0xed4416c5u32) == Some(Api::NvAPI_Stereo_Debug_WasLastDrawStereoized)),
        Api::NvAPI_Stereo_ForceToScreenDepth => assert(api_of_id(0x2d495758u32) == Some(Api::NvAPI_Stereo_ForceToScreenDepth)),
        Api::NvAPI_Stereo_SetVertexShaderConstantF => assert(api_of_id(0x416c07b3u32) == Some(Api::NvAPI_Stereo_SetVertexShaderConstantF)),
        Api::NvAPI_Stereo_SetVertexShaderConstantB => assert(api_of_id(0x5268716fu32) == Some(Api::NvAPI_Stereo_SetVertexShaderConstantB)),
        Api::NvAPI_Stereo_SetVertexShaderConstantI => assert(api_of_id(0x7923ba0eu32) == Some(Api::NvAPI_Stereo_SetVertexShaderConstantI)),
        Api::NvAPI_Stereo_GetVertexShaderConstantF => assert(api_of_id(0x622fdc87u32) == Some(Api::NvAPI_Stereo_GetVertexShaderConstantF)),
        _ => {},
    }
}

#[verifier::spinoff_prover]
proof fn lemma_api_id_roundtrip_part_7_4(a: Api)
    requires
        a == Api::NvAPI_Stereo_GetVertexShaderConstantB
        || a == Api::NvAPI_Stereo_GetVertexShaderConstantI
        || a == Api::NvAPI_Stereo_SetPixelShaderConstantF
        || a == Api::NvAPI_Stereo_SetPixelShaderConstantB
        || a == Api::NvAPI_Stereo_SetPixelShaderConstantI
        || a == Api::NvAPI_Stereo_GetPixelShaderConstantF
        || a == Api::NvAPI_Stereo_GetPixelShaderConstantB
        || a == Api::NvAPI_Stereo_GetPixelShaderConstantI
        || a == Api::NvAPI_Stereo_SetDefaultProfile
        || a == Api::NvAPI_Stereo_GetDefaultProfile,
    ensures
        api_of_id(api_id(a)) == Some(a),
{
    match a {
        Api::NvAPI_Stereo_GetVertexShaderConstantB => assert(api_of_id(0x712baa5bu32) == Some(Api::NvAPI_Stereo_GetVertexShaderConstantB)),
        Api::NvAPI_Stereo_GetVertexShaderConstantI => assert(api_of_id(0x5a60613au32) == Some(Api::NvAPI_Stereo_GetVertexShaderConstantI)),
        Api::NvAPI_Stereo_SetPixelShaderConstantF => assert(api_of_id(0xa9657f32u32) == Some(Api::NvAPI_Stereo_SetPixelShaderConstantF)),
        Api::NvAPI_Stereo_SetPixelShaderConstantB => assert(api_of_id(0xba6109eeu32) == Some(Api::NvAPI_Stereo_SetPixelShaderConstantB)),
        Api::NvAPI_Stereo_SetPixelShaderConstantI => assert(api_of_id(0x912ac28fu32) == Some(Api::NvAPI_Stereo_SetPixelShaderConstantI)),
        Api::NvAPI_Stereo_GetPixelShaderConstantF => assert(api_of_id(0xd4974572u32) == Some(Api::NvAPI_Stereo_GetPixelShaderConstantF)),
        Api::NvAPI_Stereo_GetPixelShaderConstantB => assert(api_of_id(0xc79333aeu32) == Some(Api::NvAPI_Stereo_GetPixelShaderConstantB)),
        Api::NvAPI_Stereo_GetPixelShaderConstantI => assert(api_of_id(0xecd8f8cfu32) == Some(Api::NvAPI_Stereo_GetPixelShaderConstantI)),
        Api::NvAPI_Stereo_SetDefaultProfile => assert(api_of_id(0x44f0ecd1u32) == Some(Api::NvAPI_Stereo_SetDefaultProfile)),
        Api::NvAPI_Stereo_GetDefaultProfile => assert(api_of_id(0x624e21c2u32) == Some(Api::NvAPI_Stereo_GetDefaultProfile)),
        _ => {},
    }
}

proof fn lemma_api_id_roundtrip_part_7(a: Api)
    requires
        api_id_part_7(a) is Some,
    ensures
        api_of_id(api_id(a)) == Some(a),
{
    if a == Api::NvAPI_Stereo_Disable || a == Api::NvAPI_Stereo_IsEnabled || a == Api::NvAPI_Stereo_GetStereoCaps || a == Api::NvAPI_Stereo_GetStereoSupport || a == Api::NvAPI_Stereo_CreateHandleFromIUnknown || a == Api::NvAPI_Stereo_DestroyHandle || a == Api::NvAPI_Stereo_Activate || a == Api::NvAPI_Stereo_Deactivate || a == Api::NvAPI_Stereo_IsActivated || a == Api::NvAPI_Stereo_GetSeparation {
        lemma_api_id_roundtrip_part_7_0(a);
    } else if a == Api::NvAPI_Stereo_SetSeparation || a == Api::NvAPI_Stereo_DecreaseSeparation || a == Api::NvAPI_Stereo_IncreaseSeparation || a == Api::NvAPI_Stereo_GetConvergence || a == Api::NvAPI_Stereo_SetConvergence || a == Api::NvAPI_Stereo_DecreaseConvergence || a == Api::NvAPI_Stereo_IncreaseConvergence || a == Api::NvAPI_Stereo_GetFrustumAdjustMode || a == Api::NvAPI_Stereo_SetFrustumAdjustMode || a == Api::NvAPI_Stereo_CaptureJpegImage {
        lemma_api_id_roundtrip_part_7_1(a);
    } else if a == Api::NvAPI_Stereo_InitActivation || a == Api::NvAPI_Stereo_Trigger_Activation || a == Api::NvAPI_Stereo_CapturePngImage || a == Api::NvAPI_Stereo_ReverseStereoBlitControl || a == Api::NvAPI_Stereo_SetNotificationMessage || a == Api::NvAPI_Stereo_SetActiveEye || a == Api::NvAPI_Stereo_SetDriverMode || a == Api::NvAPI_Stereo_GetEyeSeparation || a == Api::NvAPI_Stereo_IsWindowedModeSupported || a == Api::NvAPI_Stereo_AppHandShake {
        lemma_api_id_roundtrip_part_7_2(a);
    } else if a == Api::NvAPI_Stereo_HandShake_Trigger_Activation || a == Api::NvAPI_Stereo_HandShake_Message_Control || a == Api::NvAPI_Stereo_SetSurfaceCreationMode || a == Api::NvAPI_Stereo_GetSurfaceCreationMode || a == Api::NvAPI_Stereo_Debug_WasLastDrawStereoized || a == Api::NvAPI_Stereo_ForceToScreenDepth || a == Api::NvAPI_Stereo_SetVertexShaderConstantF || a == Api::NvAPI_Stereo_SetVertexShaderConstantB || a == Api::NvAPI_Stereo_SetVertexShaderConstantI || a == Api::NvAPI_Stereo_GetVertexShaderConstantF {
        lemma_api_id_roundtrip_part_7_3(a);
    } else {
        lemma_api_id_roundtrip_part_7_4(a);
    }
}

#[verifier::spinoff_prover]
proof fn lemma_api_id_roundtrip_part_8_0(a: Api)
    requires
        a == Api::NvAPI_Stereo_Is3DCursorSupported
        || a == Api::NvAPI_Stereo_GetCursorSeparation
        || a == Api::NvAPI_Stereo_SetCursorSeparation
        || a == Api::NvAPI_VIO_GetCapabilities
        || a == Api::NvAPI_VIO_Open
        || a == Api::NvAPI_VIO_Close
        || a == Api::NvAPI_VIO_Status
        || a == Api::NvAPI_VIO_SyncFormatDetect
        || a == Api::NvAPI_VIO_GetConfig
        || a == Api::NvAPI_VIO_SetConfig,
    ensures
        api_of_id(api_id(a)) == Some(a),
{
    match a {
        Api::NvAPI_Stereo_Is3DCursorSupported => assert(api_of_id(0xd7c9ec09u32) == Some(Api::NvAPI_Stereo_Is3DCursorSupported)),
        Api::NvAPI_Stereo_GetCursorSeparation => assert(api_of_id(0x72162b35u32) == Some(Api::NvAPI_Stereo_GetCursorSeparation)),
        Api::NvAPI_Stereo_SetCursorSeparation => assert(api_of_id(0xfbc08fc1u32) == Some(Api::NvAPI_Stereo_SetCursorSeparation)),
        Api::NvAPI_VIO_GetCapabilities => assert(api_of_id(0x1dc91303u32) == Some(Api::NvAPI_VIO_GetCapabilities)),
        Api::NvAPI_VIO_Open => assert(api_of_id(0x44ee4841u32) == Some(Api::NvAPI_VIO_Open)),
        Api::NvAPI_VIO_Close => assert(api_of_id(0xd01bd237u32) == Some(Api::NvAPI_VIO_Close)),
        Api::NvAPI_VIO_Status => assert(api_of_id(0x0e6ce4f1u32) == Some(Api::NvAPI_VIO_Status)),
        Api::NvAPI_VIO_SyncFormatDetect => assert(api_of_id(0x118d48a3u32) == Some(Api::NvAPI_VIO_SyncFormatDetect)),
        Api::NvAPI_VIO_GetConfig => assert(api_of_id(0xd34a789bu32) == Some(Api::NvAPI_VIO_GetConfig)),
        Api::NvAPI_VIO_SetConfig => assert(api_of_id(0x0e4eec07u32) == Some(Api::NvAPI_VIO_SetConfig)),
        _ => {},
    }
}

#[verifier::spinoff_prover]
proof fn lemma_api_id_roundtrip_part_8_1(a: Api)
    requires
        a == Api::NvAPI_VIO_SetCSC
        || a == Api::NvAPI_VIO_GetCSC
        || a == Api::NvAPI_VIO_SetGamma
        || a == Api::NvAPI_VIO_GetGamma
        || a == Api::NvAPI_VIO_SetSyncDelay
        || a == Api::NvAPI_VIO_GetSyncDelay
        || a == Api::NvAPI_VIO_GetPCIInfo
        || a == Api::NvAPI_VIO_IsRunning
        || a == Api::NvAPI_VIO_Start
        || a == Api::NvAPI_VIO_Stop,
    ensures
        api_of_id(api_id(a)) == Some(a),
{
    match a {
        Api::NvAPI_VIO_SetCSC => assert(api_of_id(0xa1ec8d74u32) == Some(Api::NvAPI_VIO_SetCSC)),
        Api::NvAPI_VIO_GetCSC => assert(api_of_id(0x7b0d72a3u32) == Some(Api::NvAPI_VIO_GetCSC)),
        Api::NvAPI_VIO_SetGamma => assert(api_of_id(0x964bf452u32) == Some(Api::NvAPI_VIO_SetGamma)),
        Api::NvAPI_VIO_GetGamma => assert(api_of_id(0x51d53d06u32) == Some(Api::NvAPI_VIO_GetGamma)),
        Api::NvAPI_VIO_SetSyncDelay => assert(api_of_id(0x2697a8d1u32) == Some(Api::NvAPI_VIO_SetSyncDelay)),
        Api::NvAPI_VIO_GetSyncDelay => assert(api_of_id(0x462214a9u32) == Some(Api::NvAPI_VIO_GetSyncDelay)),
        Api::NvAPI_VIO_GetPCIInfo => assert(api_of_id(0xb981d935u32) == Some(Api::NvAPI_VIO_GetPCIInfo)),
        Api::NvAPI_VIO_IsRunning => assert(api_of_id(0x96bd040eu32) == Some(Api::NvAPI_VIO_IsRunning)),
        Api::NvAPI_VIO_Start => assert(api_of_id(0xcde8e1a3u32) == Some(Api::NvAPI_VIO_Start)),
        Api::NvAPI_VIO_Stop => assert(api_of_id(0x6ba2a5d6u32) == Some(Api::NvAPI_VIO_Stop)),
        _ => {},
    }
}

#[verifier::spinoff_prover]
proof fn lemma_api_id_roundtrip_part_8_2(a: Api)
    requires
        a == Api::NvAPI_VIO_IsFrameLockModeCompatible
        || a == Api::NvAPI_VIO_EnumDevices
        || a == Api::NvAPI_VIO_QueryTopology
        || a == Api::NvAPI_VIO_EnumSignalFormats
        || a == Api::NvAPI_VIO_EnumDataFormats
        || a == Api::NvAPI_GPU_GetTachReading
        || a == Api::NvAPI_3D_GetProperty
        || a == Api::NvAPI_3D_SetProperty
        || a == Api::NvAPI_3D_GetPropertyRange
        || a == Api::NvAPI_GPS_GetPowerSteeringStatus,
    ensures
        api_of_id(api_id(a)) == Some(a),
{
    match a {
        Api::NvAPI_VIO_IsFrameLockModeCompatible => assert(api_of_id(0x7bf0a94du32) == Some(Api::NvAPI_VIO_IsFrameLockModeCompatible)),
        Api::NvAPI_VIO_EnumDevices => assert(api_of_id(0xfd7c5557u32) == Some(Api::NvAPI_VIO_EnumDevices)),
        Api::NvAPI_VIO_QueryTopology => assert(api_of_id(0x869534e2u32) == Some(Api::NvAPI_VIO_QueryTopology)),
        Api::NvAPI_VIO_EnumSignalFormats => assert(api_of_id(0xead72fe4u32) == Some(Api::NvAPI_VIO_EnumSignalFormats)),
        Api::NvAPI_VIO_EnumDataFormats => assert(api_of_id(0x221fa8e8u32) == Some(Api::NvAPI_VIO_EnumDataFormats)),
        Api::NvAPI_GPU_GetTachReading => assert(api_of_id(0x5f608315u32) == Some(Api::NvAPI_GPU_GetTachReading)),
        Api::NvAPI_3D_GetProperty => assert(api_of_id(0x8061a4b1u32) == Some(Api::NvAPI_3D_GetProperty)),
        Api::NvAPI_3D_SetProperty => assert(api_of_id(0xc9175e8du32) == Some(Api::NvAPI_3D_SetProperty)),
        Api::NvAPI_3D_GetPropertyRange => assert(api_of_id(0xb85de27cu32) == Some(Api::NvAPI_3D_GetPropertyRange)),
        Api::NvAPI_GPS_GetPowerSteeringStatus => assert(api_of_id(0x540ee82eu32) == Some(Api::NvAPI_GPS_GetPowerSteeringStatus)),
        _ => {},
    }
}

#[verifier::spinoff_prover]
proof fn lemma_api_id_roundtrip_part_8_3(a: Api)
    requires
        a == Api::NvAPI_GPS_SetPowerSteeringStatus
        || a == Api::NvAPI_GPS_SetVPStateCap
        || a == Api::NvAPI_GPS_GetVPStateCap
        || a == Api::NvAPI_GPS_GetThermalLimit
        || a == Api::NvAPI_GPS_SetThermalLimit
        || a == Api::NvAPI_GPS_GetPerfSensors
        || a == Api::NvAPI_SYS_GetDisplayIdFromGpuAndOutputId
        || a == Api::NvAPI_SYS_GetGpuAndOutputIdFromDisplayId
        || a == Api::NvAPI_GPU_ClientRegisterForUtilizationSampleUpdates
        || a == Api::NvAPI_SYS_GetDisplayDriverInfo,
    ensures
        api_of_id(api_id(a)) == Some(a),
{
    match a {
        Api::NvAPI_GPS_SetPowerSteeringStatus => assert(api_of_id(0x9723d3a2u32) == Some(Api::NvAPI_GPS_SetPowerSteeringStatus)),
        Api::NvAPI_GPS_SetVPStateCap => assert(api_of_id(0x68888eb4u32) == Some(Api::NvAPI_GPS_SetVPStateCap)),
        Api::NvAPI_GPS_GetVPStateCap => assert(api_of_id(0x71913023u32) == Some(Api::NvAPI_GPS_GetVPStateCap)),
        Api::NvAPI_GPS_GetThermalLimit => assert(api_of_id(0x583113edu32) == Some(Api::NvAPI_GPS_GetThermalLimit)),
        Api::NvAPI_GPS_SetThermalLimit => assert(api_of_id(0xc07e210fu32) == Some(Api::NvAPI_GPS_SetThermalLimit)),
        Api::NvAPI_GPS_GetPerfSensors => assert(api_of_id(0x271c1109u32) == Some(Api::NvAPI_GPS_GetPerfSensors)),
        Api::NvAPI_SYS_GetDisplayIdFromGpuAndOutputId => assert(api_of_id(0x08f2bab4u32) == Some(Api::NvAPI_SYS_GetDisplayIdFromGpuAndOutputId)),
        Api::NvAPI_SYS_GetGpuAndOutputIdFromDisplayId => assert(api_of_id(0x112ba1a5u32) == Some(Api::NvAPI_SYS_GetGpuAndOutputIdFromDisplayId)),
        Api::NvAPI_GPU_ClientRegisterForUtilizationSampleUpdates => assert(api_of_id(0xadeeaf67u32) == Some(Api::NvAPI_GPU_ClientRegisterForUtilizationSampleUpdates)),
        Api::NvAPI_SYS_GetDisplayDriverInfo => assert(api_of_id(0x721facebu32) == Some(Api::NvAPI_SYS_GetDisplayDriverInfo)),
        _ => {},
    }
}

#[verifier::spinoff_prover]
proof fn lemma_api_id_roundtrip_part_8_4(a: Api)
    requires
        a == Api::NvAPI_SYS_GetPhysicalGpuFromDisplayId
        || a == Api::NvAPI_DISP_GetDisplayIdByDisplayName
        || a == Api::NvAPI_DISP_GetGDIPrimaryDisplayId
        || a == Api::NvAPI_DISP_GetDisplayConfig
        || a == Api::NvAPI_DISP_SetDisplayConfig
        || a == Api::NvAPI_DISP_GetAdaptiveSyncData
        || a == Api::NvAPI_DISP_SetAdaptiveSyncData
        || a == Api::NvAPI_DISP_GetVirtualRefreshRateData
        || a == Api::NvAPI_DISP_SetVirtualRefreshRateData
        || a == Api::NvAPI_DISP_SetPreferredStereoDisplay,
    ensures
        api_of_id(api_id(a)) == Some(a),
{
    match a {
        Api::NvAPI_SYS_GetPhysicalGpuFromDisplayId => assert(api_of_id(0x9ea74659u32) == Some(Api::NvAPI_SYS_GetPhysicalGpuFromDisplayId)),
        Api::NvAPI_DISP_GetDisplayIdByDisplayName => assert(api_of_id(0xae457190u32) == Some(Api::NvAPI_DISP_GetDisplayIdByDisplayName)),
        Api::NvAPI_DISP_GetGDIPrimaryDisplayId => assert(api_of_id(0x1e9d8a31u32) == Some(Api::NvAPI_DISP_GetGDIPrimaryDisplayId)),
        Api::NvAPI_DISP_GetDisplayConfig => assert(api_of_id(0x11abccf8u32) == Some(Api::NvAPI_DISP_GetDisplayConfig)),
        Api::NvAPI_DISP_SetDisplayConfig => assert(api_of_id(0x5d8cf8deu32) == Some(Api::NvAPI_DISP_SetDisplayConfig)),
        Api::NvAPI_DISP_GetAdaptiveSyncData => assert(api_of_id(0xb73d1ee9u32) == Some(Api::NvAPI_DISP_GetAdaptiveSyncData)),
        Api::NvAPI_DISP_SetAdaptiveSyncData => assert(api_of_id(0x3eebba1du32) == Some(Api::NvAPI_DISP_SetAdaptiveSyncData)),
        Api::NvAPI_DISP_GetVirtualRefreshRateData => assert(api_of_id(0x8c00429au32) == Some(Api::NvAPI_DISP_GetVirtualRefreshRateData)),
        Api::NvAPI_DISP_SetVirtualRefreshRateData => assert(api_of_id(0x5abbe6a3u32) == Some(Api::NvAPI_DISP_SetVirtualRefreshRateData)),
        Api::NvAPI_DISP_SetPreferredStereoDisplay => assert(api_of_id(0xc9d0e25fu32) == Some(Api::NvAPI_DISP_SetPreferredStereoDisplay)),
        _ => {},
    }
}

proof fn lemma_api_id_roundtrip_part_8(a: Api)
    requires
        api_id_part_8(a) is Some,
    ensures
        api_of_id(api_id(a)) == Some(a),
{
    if a == Api::NvAPI_Stereo_Is3DCursorSupported || a == Api::NvAPI_Stereo_GetCursorSeparation || a == Api::NvAPI_Stereo_SetCursorSeparation || a == Api::NvAPI_VIO_GetCapabilities || a == Api::NvAPI_VIO_Open || a == Api::NvAPI_VIO_Close || a == Api::NvAPI_VIO_Status || a == Api::NvAPI_VIO_SyncFormatDetect || a == Api::NvAPI_VIO_GetConfig || a == Api::NvAPI_VIO_SetConfig {
        lemma_api_id_roundtrip_part_8_0(a);
    } else if a == Api::NvAPI_VIO_SetCSC || a == Api::NvAPI_VIO_GetCSC || a == Api::NvAPI_VIO_SetGamma || a == Api::NvAPI_VIO_GetGamma || a == Api::NvAPI_VIO_SetSyncDelay || a == Api::NvAPI_VIO_GetSyncDelay || a == Api::NvAPI_VIO_GetPCIInfo || a == Api::NvAPI_VIO_IsRunning || a == Api::NvAPI_VIO_Start || a == Api::NvAPI_VIO_Stop {
        lemma_api_id_roundtrip_part_8_1(a);
    } else if a == Api::NvAPI_VIO_IsFrameLockModeCompatible || a == Api::NvAPI_VIO_EnumDevices || a == Api::NvAPI_VIO_QueryTopology || a == Api::NvAPI_VIO_EnumSignalFormats || a == Api::NvAPI_VIO_EnumDataFormats || a == Api::NvAPI_GPU_GetTachReading || a == Api::NvAPI_3D_GetProperty || a == Api::NvAPI_3D_SetProperty || a == Api::NvAPI_3D_GetPropertyRange || a == Api::NvAPI_GPS_GetPowerSteeringStatus {
        lemma_api_id_roundtrip_part_8_2(a);
    } else if a == Api::NvAPI_GPS_SetPowerSteeringStatus || a == Api::NvAPI_GPS_SetVPStateCap || a == Api::NvAPI_GPS_GetVPStateCap || a == Api::NvAPI_GPS_GetThermalLimit || a == Api::NvAPI_GPS_SetThermalLimit || a == Api::NvAPI_GPS_GetPerfSensors || a == Api::NvAPI_SYS_GetDisplayIdFromGpuAndOutputId || a == Api::NvAPI_SYS_GetGpuAndOutputIdFromDisplayId || a == Api::NvAPI_GPU_ClientRegisterForUtilizationSampleUpdates || a == Api::NvAPI_SYS_GetDisplayDriverInfo {
        lemma_api_id_roundtrip_part_8_3(a);
    } else {
        lemma_api_id_roundtrip_part_8_4(a);
    }
}

#[verifier::spinoff_prover]
proof fn lemma_api_id_roundtrip_part_9_0(a: Api)
    requires
        a == Api::NvAPI_DISP_GetPreferredStereoDisplay
        || a == Api::NvAPI_DISP_GetNvManagedDedicatedDisplays
        || a == Api::NvAPI_DISP_AcquireDedicatedDisplay
        || a == Api::NvAPI_DISP_ReleaseDedicatedDisplay
        || a == Api::NvAPI_GPU_GetPixelClockRange
        || a == Api::NvAPI_GPU_SetPixelClockRange
        || a == Api::NvAPI_GPU_GetECCStatusInfo
        || a == Api::NvAPI_GPU_GetECCErrorInfo
        || a == Api::NvAPI_GPU_ResetECCErrorInfo
        || a == Api::NvAPI_GPU_GetECCConfigurationInfo,
    ensures
        api_of_id(api_id(a)) == Some(a),
{
    match a {
        Api::NvAPI_DISP_GetPreferredStereoDisplay => assert(api_of_id(0x1f6b4666u32) == Some(Api::NvAPI_DISP_GetPreferredStereoDisplay)),
        Api::NvAPI_DISP_GetNvManagedDedicatedDisplays => assert(api_of_id(0xdbdf0cb2u32) == Some(Api::NvAPI_DISP_GetNvManagedDedicatedDisplays)),
        Api::NvAPI_DISP_AcquireDedicatedDisplay => assert(api_of_id(0x47c917bau32) == Some(Api::NvAPI_DISP_AcquireDedicatedDisplay)),
        Api::NvAPI_DISP_ReleaseDedicatedDisplay => assert(api_of_id(0x1247825fu32) == Some(Api::NvAPI_DISP_ReleaseDedicatedDisplay)),
        Api::NvAPI_GPU_GetPixelClockRange => assert(api_of_id(0x66af10b7u32) == Some(Api::NvAPI_GPU_GetPixelClockRange)),
        Api::NvAPI_GPU_SetPixelClockRange => assert(api_of_id(0x5ac7f8e5u32) == Some(Api::NvAPI_GPU_SetPixelClockRange)),
        Api::NvAPI_GPU_GetECCStatusInfo => assert(api_of_id(0xca1ddaf3u32) == Some(Api::NvAPI_GPU_GetECCStatusInfo)),
        Api::NvAPI_GPU_GetECCErrorInfo => assert(api_of_id(0xc71f85a6u32) == Some(Api::NvAPI_GPU_GetECCErrorInfo)),
        Api::NvAPI_GPU_ResetECCErrorInfo => assert(api_of_id(0xc02eec20u32) == Some(Api::NvAPI_GPU_ResetECCErrorInfo)),
        Api::NvAPI_GPU_GetECCConfigurationInfo => assert(api_of_id(0x77a796f3u32) == Some(Api::NvAPI_GPU_GetECCConfigurationInfo)),
        _ => {},
    }
}

#[verifier::spinoff_prover]
proof fn lemma_api_id_roundtrip_part_9_1(a: Api)
    requires
        a == Api::NvAPI_GPU_SetECCConfiguration
        || a == Api::NvAPI_D3D1x_CreateSwapChain
        || a == Api::NvAPI_D3D9_CreateSwapChain
        || a == Api::NvAPI_D3D_SetFPSIndicatorState
        || a == Api::NvAPI_D3D9_Present
        || a == Api::NvAPI_D3D9_QueryFrameCount
        || a == Api::NvAPI_D3D9_ResetFrameCount
        || a == Api::NvAPI_D3D9_QueryMaxSwapGroup
        || a == Api::NvAPI_D3D9_QuerySwapGroup
        || a == Api::NvAPI_D3D9_JoinSwapGroup,
    ensures
        api_of_id(api_id(a)) == Some(a),
{
    match a {
        Api::NvAPI_GPU_SetECCConfiguration => assert(api_of_id(0x1cf639d9u32) == Some(Api::NvAPI_GPU_SetECCConfiguration)),
        Api::NvAPI_D3D1x_CreateSwapChain => assert(api_of_id(0x1bc21b66u32) == Some(Api::NvAPI_D3D1x_CreateSwapChain)),
        Api::NvAPI_D3D9_CreateSwapChain => assert(api_of_id(0x1a131e09u32) == Some(Api::NvAPI_D3D9_CreateSwapChain)),
        Api::NvAPI_D3D_SetFPSIndicatorState => assert(api_of_id(0xa776e8dbu32) == Some(Api::NvAPI_D3D_SetFPSIndicatorState)),
        Api::NvAPI_D3D9_Present => assert(api_of_id(0x05650bebu32) == Some(Api::NvAPI_D3D9_Present)),
        Api::NvAPI_D3D9_QueryFrameCount => assert(api_of_id(0x9083e53au32) == Some(Api::NvAPI_D3D9_QueryFrameCount)),
        Api::NvAPI_D3D9_ResetFrameCount => assert(api_of_id(0xfa6a0675u32) == Some(Api::NvAPI_D3D9_ResetFrameCount)),
        Api::NvAPI_D3D9_QueryMaxSwapGroup => assert(api_of_id(0x5995410du32) == Some(Api::NvAPI_D3D9_QueryMaxSwapGroup)),
        Api::NvAPI_D3D9_QuerySwapGroup => assert(api_of_id(0xeba4d232u32) == Some(Api::NvAPI_D3D9_QuerySwapGroup)),
        Api::NvAPI_D3D9_JoinSwapGroup => assert(api_of_id(0x7d44bb54u32) == Some(Api::NvAPI_D3D9_JoinSwapGroup)),
        _ => {},
    }
}

#[verifier::spinoff_prover]
proof fn lemma_api_id_roundtrip_part_9_2(a: Api)
    requires
        a == Api::NvAPI_D3D9_BindSwapBarrier
        || a == Api::NvAPI_D3D1x_Present
        || a == Api::NvAPI_D3D1x_QueryFrameCount
        || a == Api::NvAPI_D3D1x_ResetFrameCount
        || a == Api::NvAPI_D3D1x_QueryMaxSwapGroup
        || a == Api::NvAPI_D3D1x_QuerySwapGroup
        || a == Api::NvAPI_D3D1x_JoinSwapGroup
        || a == Api::NvAPI_D3D1x_BindSwapBarrier
        || a == Api::NvAPI_SYS_VenturaGetState
        || a == Api::NvAPI_SYS_VenturaSetState,
    ensures
        api_of_id(api_id(a)) == Some(a),
{
    match a {
        Api::NvAPI_D3D9_BindSwapBarrier => assert(api_of_id(0x9c39c246u32) == Some(Api::NvAPI_D3D9_BindSwapBarrier)),
        Api::NvAPI_D3D1x_Present => assert(api_of_id(0x03b845a1u32) == Some(Api::NvAPI_D3D1x_Present)),
        Api::NvAPI_D3D1x_QueryFrameCount => assert(api_of_id(0x9152e055u32) == Some(Api::NvAPI_D3D1x_QueryFrameCount)),
        Api::NvAPI_D3D1x_ResetFrameCount => assert(api_of_id(0xfbbb031au32) == Some(Api::NvAPI_D3D1x_ResetFrameCount)),
        Api::NvAPI_D3D1x_QueryMaxSwapGroup => assert(api_of_id(0x9bb9d68fu32) == Some(Api::NvAPI_D3D1x_QueryMaxSwapGroup)),
        Api::NvAPI_D3D1x_QuerySwapGroup => assert(api_of_id(0x407f67aau32) == Some(Api::NvAPI_D3D1x_QuerySwapGroup)),
        Api::NvAPI_D3D1x_JoinSwapGroup => assert(api_of_id(0x14610cd7u32) == Some(Api::NvAPI_D3D1x_JoinSwapGroup)),
        Api::NvAPI_D3D1x_BindSwapBarrier => assert(api_of_id(0x9de8c729u32) == Some(Api::NvAPI_D3D1x_BindSwapBarrier)),
        Api::NvAPI_SYS_VenturaGetState => assert(api_of_id(0xcb7c208du32) == Some(Api::NvAPI_SYS_VenturaGetState)),
        Api::NvAPI_SYS_VenturaSetState => assert(api_of_id(0x0ce2e9d9u32) == Some(Api::NvAPI_SYS_VenturaSetState)),
        _ => {},
    }
}

#[verifier::spinoff_prover]
proof fn lemma_api_id_roundtrip_part_9_3(a: Api)
    requires
        a == Api::NvAPI_SYS_VenturaGetCoolingBudget
        || a == Api::NvAPI_SYS_VenturaSetCoolingBudget
        || a == Api::NvAPI_SYS_VenturaGetPowerReading
        || a == Api::NvAPI_DISP_GetDisplayBlankingState
        || a == Api::NvAPI_DISP_SetDisplayBlankingState
        || a == Api::NvAPI_DRS_CreateSession
        || a == Api::NvAPI_DRS_DestroySession
        || a == Api::NvAPI_DRS_LoadSettings
        || a == Api::NvAPI_DRS_SaveSettings
        || a == Api::NvAPI_DRS_LoadSettingsFromFile,
    ensures
        api_of_id(api_id(a)) == Some(a),
{
    match a {
        Api::NvAPI_SYS_VenturaGetCoolingBudget => assert(api_of_id(0xc9d86e33u32) == Some(Api::NvAPI_SYS_VenturaGetCoolingBudget)),
        Api::NvAPI_SYS_VenturaSetCoolingBudget => assert(api_of_id(0x85ff5a15u32) == Some(Api::NvAPI_SYS_VenturaSetCoolingBudget)),
        Api::NvAPI_SYS_VenturaGetPowerReading => assert(api_of_id(0x63685979u32) == Some(Api::NvAPI_SYS_VenturaGetPowerReading)),
        Api::NvAPI_DISP_GetDisplayBlankingState => assert(api_of_id(0x63e5d8dbu32) == Some(Api::NvAPI_DISP_GetDisplayBlankingState)),
        Api::NvAPI_DISP_SetDisplayBlankingState => assert(api_of_id(0x1e17e29bu32) == Some(Api::NvAPI_DISP_SetDisplayBlankingState)),
        Api::NvAPI_DRS_CreateSession => assert(api_of_id(0x0694d52eu32) == Some(Api::NvAPI_DRS_CreateSession)),
        Api::NvAPI_DRS_DestroySession => assert(api_of_id(0xdad9cff8u32) == Some(Api::NvAPI_DRS_DestroySession)),
        Api::NvAPI_DRS_LoadSettings => assert(api_of_id(0x375dbd6bu32) == Some(Api::NvAPI_DRS_LoadSettings)),
        Api::NvAPI_DRS_SaveSettings => assert(api_of_id(0xfcbc7e14u32) == Some(Api::NvAPI_DRS_SaveSettings)),
        Api::NvAPI_DRS_LoadSettingsFromFile => assert(api_of_id(0xd3ede889u32) == Some(Api::NvAPI_DRS_LoadSettingsFromFile)),
        _ => {},
    }
}

#[verifier::spinoff_prover]
proof fn lemma_api_id_roundtrip_part_9_4(a: Api)
    requires
        a == Api::NvAPI_DRS_SaveSettingsToFile
        || a == Api::NvAPI_DRS_CreateProfile
        || a == Api::NvAPI_DRS_DeleteProfile
        || a == Api::NvAPI_DRS_SetCurrentGlobalProfile
        || a == Api::NvAPI_DRS_GetCurrentGlobalProfile
        || a == Api::NvAPI_DRS_GetProfileInfo
        || a == Api::NvAPI_DRS_SetProfileInfo
        || a == Api::NvAPI_DRS_FindProfileByName
        || a == Api::NvAPI_DRS_EnumProfiles
        || a == Api::NvAPI_DRS_GetNumProfiles,
    ensures
        api_of_id(api_id(a)) == Some(a),
{
    match a {
        Api::NvAPI_DRS_SaveSettingsToFile => assert(api_of_id(0x2be25df8u32) == Some(Api::NvAPI_DRS_SaveSettingsToFile)),
        Api::NvAPI_DRS_CreateProfile => assert(api_of_id(0xcc176068u32) == Some(Api::NvAPI_DRS_CreateProfile)),
        Api::NvAPI_DRS_DeleteProfile => assert(api_of_id(0x17093206u32) == Some(Api::NvAPI_DRS_DeleteProfile)),
        Api::NvAPI_DRS_SetCurrentGlobalProfile => assert(api_of_id(0x1c89c5dfu32) == Some(Api::NvAPI_DRS_SetCurrentGlobalProfile)),
        Api::NvAPI_DRS_GetCurrentGlobalProfile => assert(api_of_id(0x617bff9fu32) == Some(Api::NvAPI_DRS_GetCurrentGlobalProfile)),
        Api::NvAPI_DRS_GetProfileInfo => assert(api_of_id(0x61cd6fd6u32) == Some(Api::NvAPI_DRS_GetProfileInfo)),
        Api::NvAPI_DRS_SetProfileInfo => assert(api_of_id(0x16abd3a9u32) == Some(Api::NvAPI_DRS_SetProfileInfo)),
        Api::NvAPI_DRS_FindProfileByName => assert(api_of_id(0x7e4a9a0bu32) == Some(Api::NvAPI_DRS_FindProfileByName)),
        Api::NvAPI_DRS_EnumProfiles => assert(api_of_id(0xbc371ee0u32) == Some(Api::NvAPI_DRS_EnumProfiles)),
        Api::NvAPI_DRS_GetNumProfiles => assert(api_of_id(0x1dae4fbcu32) == Some(Api::NvAPI_DRS_GetNumProfiles)),
        _ => {},
    }
}

proof fn lemma_api_id_roundtrip_part_9(a: Api)
    requires
        api_id_part_9(a) is Some,
    ensures
        api_of_id(api_id(a)) == Some(a),
{
    if a == Api::NvAPI_DISP_GetPreferredStereoDisplay || a == Api::NvAPI_DISP_GetNvManagedDedicatedDisplays || a == Api::NvAPI_DISP_AcquireDedicatedDisplay || a == Api::NvAPI_DISP_ReleaseDedicatedDisplay || a == Api::NvAPI_GPU_GetPixelClockRange || a == Api::NvAPI_GPU_SetPixelClockRange || a == Api::NvAPI_GPU_GetECCStatusInfo || a == Api::NvAPI_GPU_GetECCErrorInfo || a == Api::NvAPI_GPU_ResetECCErrorInfo || a == Api::NvAPI_GPU_GetECCConfigurationInfo {
        lemma_api_id_roundtrip_part_9_0(a);
    } else if a == Api::NvAPI_GPU_SetECCConfiguration || a == Api::NvAPI_D3D1x_CreateSwapChain || a == Api::NvAPI_D3D9_CreateSwapChain || a == Api::NvAPI_D3D_SetFPSIndicatorState || a == Api::NvAPI_D3D9_Present || a == Api::NvAPI_D3D9_QueryFrameCount || a == Api::NvAPI_D3D9_ResetFrameCount || a == Api::NvAPI_D3D9_QueryMaxSwapGroup || a == Api::NvAPI_D3D9_QuerySwapGroup || a == Api::NvAPI_D3D9_JoinSwapGroup {
        lemma_api_id_roundtrip_part_9_1(a);
    } else if a == Api::NvAPI_D3D9_BindSwapBarrier || a == Api::NvAPI_D3D1x_Present || a == Api::NvAPI_D3D1x_QueryFrameCount || a == Api::NvAPI_D3D1x_ResetFrameCount || a == Api::NvAPI_D3D1x_QueryMaxSwapGroup || a == Api::NvAPI_D3D1x_QuerySwapGroup || a == Api::NvAPI_D3D1x_JoinSwapGroup || a == Api::NvAPI_D3D1x_BindSwapBarrier || a == Api::NvAPI_SYS_VenturaGetState || a == Api::NvAPI_SYS_VenturaSetState {
        lemma_api_id_roundtrip_part_9_2(a);
    } else if a == Api::NvAPI_SYS_VenturaGetCoolingBudget || a == Api::NvAPI_SYS_VenturaSetCoolingBudget || a == Api::NvAPI_SYS_VenturaGetPowerReading || a == Api::NvAPI_DISP_GetDisplayBlankingState || a == Api::NvAPI_DISP_SetDisplayBlankingState || a == Api::NvAPI_DRS_CreateSession || a == Api::NvAPI_DRS_DestroySession || a == Api::NvAPI_DRS_LoadSettings || a == Api::NvAPI_DRS_SaveSettings || a == Api::NvAPI_DRS_LoadSettingsFromFile {
        lemma_api_id_roundtrip_part_9_3(a);
    } else {
        lemma_api_id_roundtrip_part_9_4(a);
    }
}

#[verifier::spinoff_prover]
proof fn lemma_api_id_roundtrip_part_10_0(a: Api)
    requires
        a == Api::NvAPI_DRS_CreateApplication
        || a == Api::NvAPI_DRS_DeleteApplicationEx
        || a == Api::NvAPI_DRS_DeleteApplication
        || a == Api::NvAPI_DRS_GetApplicationInfo
        || a == Api::NvAPI_DRS_EnumApplications
        || a == Api::NvAPI_DRS_FindApplicationByName
        || a == Api::NvAPI_DRS_SetSetting
        || a == Api::NvAPI_DRS_GetSetting
        || a == Api::NvAPI_DRS_EnumSettings
        || a == Api::NvAPI_DRS_EnumAvailableSettingIds,
    ensures
        api_of_id(api_id(a)) == Some(a),
{
    match a {
        Api::NvAPI_DRS_CreateApplication => assert(api_of_id(0x4347a9deu32) == Some(Api::NvAPI_DRS_CreateApplication)),
        Api::NvAPI_DRS_DeleteApplicationEx => assert(api_of_id(0xc5ea85a1u32) == Some(Api::NvAPI_DRS_DeleteApplicationEx)),
        Api::NvAPI_DRS_DeleteApplication => assert(api_of_id(0x2c694bc6u32) == Some(Api::NvAPI_DRS_DeleteApplication)),
        Api::NvAPI_DRS_GetApplicationInfo => assert(api_of_id(0xed1f8c69u32) == Some(Api::NvAPI_DRS_GetApplicationInfo)),
        Api::NvAPI_DRS_EnumApplications => assert(api_of_id(0x7fa2173au32) == Some(Api::NvAPI_DRS_EnumApplications)),
        Api::NvAPI_DRS_FindApplicationByName => assert(api_of_id(0xeee566b2u32) == Some(Api::NvAPI_DRS_FindApplicationByName)),
        Api::NvAPI_DRS_SetSetting => assert(api_of_id(0x577dd202u32) == Some(Api::NvAPI_DRS_SetSetting)),
        Api::NvAPI_DRS_GetSetting => assert(api_of_id(0x73bf8338u32) == Some(Api::NvAPI_DRS_GetSetting)),
        Api::NvAPI_DRS_EnumSettings => assert(api_of_id(0xae3039dau32) == Some(Api::NvAPI_DRS_EnumSettings)),
        Api::NvAPI_DRS_EnumAvailableSettingIds => assert(api_of_id(0xf020614au32) == Some(Api::NvAPI_DRS_EnumAvailableSettingIds)),
        _ => {},
    }
}

#[verifier::spinoff_prover]
proof fn lemma_api_id_roundtrip_part_10_1(a: Api)
    requires
        a == Api::NvAPI_DRS_EnumAvailableSettingValues
        || a == Api::NvAPI_DRS_GetSettingIdFromName
        || a == Api::NvAPI_DRS_GetSettingNameFromId
        || a == Api::NvAPI_DRS_DeleteProfileSetting
        || a == Api::NvAPI_DRS_RestoreAllDefaults
        || a == Api::NvAPI_DRS_RestoreProfileDefault
        || a == Api::NvAPI_DRS_RestoreProfileDefaultSetting
        || a == Api::NvAPI_DRS_GetBaseProfile
        || a == Api::NvAPI_Event_RegisterCallback
        || a == Api::NvAPI_Event_UnregisterCallback,
    ensures
        api_of_id(api_id(a)) == Some(a),
{
    match a {
        Api::NvAPI_DRS_EnumAvailableSettingValues => assert(api_of_id(0x2ec39f90u32) == Some(Api::NvAPI_DRS_EnumAvailableSettingValues)),
        Api::NvAPI_DRS_GetSettingIdFromName => assert(api_of_id(0xcb7309cdu32) == Some(Api::NvAPI_DRS_GetSettingIdFromName)),
        Api::NvAPI_DRS_GetSettingNameFromId => assert(api_of_id(0xd61cbe6eu32) == Some(Api::NvAPI_DRS_GetSettingNameFromId)),
        Api::NvAPI_DRS_DeleteProfileSetting => assert(api_of_id(0xe4a26362u32) == Some(Api::NvAPI_DRS_DeleteProfileSetting)),
        Api::NvAPI_DRS_RestoreAllDefaults => assert(api_of_id(0x5927b094u32) == Some(Api::NvAPI_DRS_RestoreAllDefaults)),
        Api::NvAPI_DRS_RestoreProfileDefault => assert(api_of_id(0xfa5f6134u32) == Some(Api::NvAPI_DRS_RestoreProfileDefault)),
        Api::NvAPI_DRS_RestoreProfileDefaultSetting => assert(api_of_id(0x53f0381eu32) == Some(Api::NvAPI_DRS_RestoreProfileDefaultSetting)),
        Api::NvAPI_DRS_GetBaseProfile => assert(api_of_id(0xda8466a0u32) == Some(Api::NvAPI_DRS_GetBaseProfile)),
        Api::NvAPI_Event_RegisterCallback => assert(api_of_id(0xe6dbea69u32) == Some(Api::NvAPI_Event_RegisterCallback)),
        Api::NvAPI_Event_UnregisterCallback => assert(api_of_id(0xde1f9b45u32) == Some(Api::NvAPI_Event_UnregisterCallback)),
        _ => {},
    }
}

#[verifier::spinoff_prover]
proof fn lemma_api_id_roundtrip_part_10_2(a: Api)
    requires
        a == Api::NvAPI_GPU_GetCurrentThermalLevel
        || a == Api::NvAPI_GPU_GetCurrentFanSpeedLevel
        || a == Api::NvAPI_GPU_SetScanoutIntensity
        || a == Api::NvAPI_GPU_GetScanoutIntensityState
        || a == Api::NvAPI_GPU_SetScanoutWarping
        || a == Api::NvAPI_GPU_GetScanoutWarpingState
        || a == Api::NvAPI_GPU_SetScanoutCompositionParameter
        || a == Api::NvAPI_GPU_GetScanoutCompositionParameter
        || a == Api::NvAPI_GPU_GetScanoutConfiguration
        || a == Api::NvAPI_GPU_GetScanoutConfigurationEx,
    ensures
        api_of_id(api_id(a)) == Some(a),
{
    match a {
        Api::NvAPI_GPU_GetCurrentThermalLevel => assert(api_of_id(0xd2488b79u32) == Some(Api::NvAPI_GPU_GetCurrentThermalLevel)),
        Api::NvAPI_GPU_GetCurrentFanSpeedLevel => assert(api_of_id(0xbd71f0c9u32) == Some(Api::NvAPI_GPU_GetCurrentFanSpeedLevel)),
        Api::NvAPI_GPU_SetScanoutIntensity => assert(api_of_id(0xa57457a4u32) == Some(Api::NvAPI_GPU_SetScanoutIntensity)),
        Api::NvAPI_GPU_GetScanoutIntensityState => assert(api_of_id(0xe81ce836u32) == Some(Api::NvAPI_GPU_GetScanoutIntensityState)),
        Api::NvAPI_GPU_SetScanoutWarping => assert(api_of_id(0xb34bab4fu32) == Some(Api::NvAPI_GPU_SetScanoutWarping)),
        Api::NvAPI_GPU_GetScanoutWarpingState => assert(api_of_id(0x6f5435afu32) == Some(Api::NvAPI_GPU_GetScanoutWarpingState)),
        Api::NvAPI_GPU_SetScanoutCompositionParameter => assert(api_of_id(0xf898247du32) == Some(Api::NvAPI_GPU_SetScanoutCompositionParameter)),
        Api::NvAPI_GPU_GetScanoutCompositionParameter => assert(api_of_id(0x58fe51e6u32) == Some(Api::NvAPI_GPU_GetScanoutCompositionParameter)),
        Api::NvAPI_GPU_GetScanoutConfiguration => assert(api_of_id(0x6a9f5b63u32) == Some(Api::NvAPI_GPU_GetScanoutConfiguration)),
        Api::NvAPI_GPU_GetScanoutConfigurationEx => assert(api_of_id(0xe2e1e6f0u32) == Some(Api::NvAPI_GPU_GetScanoutConfigurationEx)),
        _ => {},
    }
}

#[verifier::spinoff_prover]
proof fn lemma_api_id_roundtrip_part_10_3(a: Api)
    requires
        a == Api::NvAPI_DISP_SetHCloneTopology
        || a == Api::NvAPI_DISP_GetHCloneTopology
        || a == Api::NvAPI_DISP_ValidateHCloneTopology
        || a == Api::NvAPI_GPU_GetAdapterIdFromPhysicalGpu
        || a == Api::NvAPI_GPU_GetVirtualizationInfo
        || a == Api::NvAPI_GPU_GetLogicalGpuInfo
        || a == Api::NvAPI_GPU_GetLicensableFeatures
        || a == Api::NvAPI_GPU_GetVRReadyData
        || a == Api::NvAPI_GPU_GetPerfDecreaseInfo
        || a == Api::NvAPI_GPU_QueryIlluminationSupport,
    ensures
        api_of_id(api_id(a)) == Some(a),
{
    match a {
        Api::NvAPI_DISP_SetHCloneTopology => assert(api_of_id(0x61041c24u32) == Some(Api::NvAPI_DISP_SetHCloneTopology)),
        Api::NvAPI_DISP_GetHCloneTopology => assert(api_of_id(0x47bad137u32) == Some(Api::NvAPI_DISP_GetHCloneTopology)),
        Api::NvAPI_DISP_ValidateHCloneTopology => assert(api_of_id(0x5f4c2664u32) == Some(Api::NvAPI_DISP_ValidateHCloneTopology)),
        Api::NvAPI_GPU_GetAdapterIdFromPhysicalGpu => assert(api_of_id(0x0ff07fdeu32) == Some(Api::NvAPI_GPU_GetAdapterIdFromPhysicalGpu)),
        Api::NvAPI_GPU_GetVirtualizationInfo => assert(api_of_id(0x44e022a9u32) == Some(Api::NvAPI_GPU_GetVirtualizationInfo)),
        Api::NvAPI_GPU_GetLogicalGpuInfo => assert(api_of_id(0x842b066eu32) == Some(Api::NvAPI_GPU_GetLogicalGpuInfo)),
        Api::NvAPI_GPU_GetLicensableFeatures => assert(api_of_id(0x3fc596aau32) == Some(Api::NvAPI_GPU_GetLicensableFeatures)),
        Api::NvAPI_GPU_GetVRReadyData => assert(api_of_id(0x81d629c5u32) == Some(Api::NvAPI_GPU_GetVRReadyData)),
        Api::NvAPI_GPU_GetPerfDecreaseInfo => assert(api_of_id(0x7f7f4600u32) == Some(Api::NvAPI_GPU_GetPerfDecreaseInfo)),
        Api::NvAPI_GPU_QueryIlluminationSupport => assert(api_of_id(0xa629da31u32) == Some(Api::NvAPI_GPU_QueryIlluminationSupport)),
        _ => {},
    }
}

#[verifier::spinoff_prover]
proof fn lemma_api_id_roundtrip_part_10_4(a: Api)
    requires
        a == Api::NvAPI_GPU_GetIllumination
        || a == Api::NvAPI_GPU_SetIllumination
        || a == Api::NvAPI_D3D1x_IFR_SetUpTargetBufferToSys
        || a == Api::NvAPI_D3D1x_IFR_TransferRenderTarget
        || a == Api::NvAPI_GetPhysicalGPUFromDisplay
        || a == Api::NvAPI_GetPhysicalGPUFromGPUID
        || a == Api::NvAPI_GetGPUIDfromPhysicalGPU
        || a == Api::NvAPI_GetInfoFrameStatePvt
        || a == Api::NvAPI_GPU_GetMemoryInfo
        || a == Api::NvAPI_GPU_GetMemoryInfoEx,
    ensures
        api_of_id(api_id(a)) == Some(a),
{
    match a {
        Api::NvAPI_GPU_GetIllumination => assert(api_of_id(0x9a1b9365u32) == Some(Api::NvAPI_GPU_GetIllumination)),
        Api::NvAPI_GPU_SetIllumination => assert(api_of_id(0x0254a187u32) == Some(Api::NvAPI_GPU_SetIllumination)),
        Api::NvAPI_D3D1x_IFR_SetUpTargetBufferToSys => assert(api_of_id(0x473f7828u32) == Some(Api::NvAPI_D3D1x_IFR_SetUpTargetBufferToSys)),
        Api::NvAPI_D3D1x_IFR_TransferRenderTarget => assert(api_of_id(0x9fbae4ebu32) == Some(Api::NvAPI_D3D1x_IFR_TransferRenderTarget)),
        Api::NvAPI_GetPhysicalGPUFromDisplay => assert(api_of_id(0x1890e8dau32) == Some(Api::NvAPI_GetPhysicalGPUFromDisplay)),
        Api::NvAPI_GetPhysicalGPUFromGPUID => assert(api_of_id(0x5380ad1au32) == Some(Api::NvAPI_GetPhysicalGPUFromGPUID)),
        Api::NvAPI_GetGPUIDfromPhysicalGPU => assert(api_of_id(0x6533ea3eu32) == Some(Api::NvAPI_GetGPUIDfromPhysicalGPU)),
        Api::NvAPI_GetInfoFrameStatePvt => assert(api_of_id(0x7fc17574u32) == Some(Api::NvAPI_GetInfoFrameStatePvt)),
        Api::NvAPI_GPU_GetMemoryInfo => assert(api_of_id(0x07f9b368u32) == Some(Api::NvAPI_GPU_GetMemoryInfo)),
        Api::NvAPI_GPU_GetMemoryInfoEx => assert(api_of_id(0xc0599498u32) == Some(Api::NvAPI_GPU_GetMemoryInfoEx)),
        _ => {},
    }
}

proof fn lemma_api_id_roundtrip_part_10(a: Api)
    requires
        api_id_part_10(a) is Some,
    ensures
        api_of_id(api_id(a)) == Some(a),
{
    if a == Api::NvAPI_DRS_CreateApplication || a == Api::NvAPI_DRS_DeleteApplicationEx || a == Api::NvAPI_DRS_DeleteApplication || a == Api::NvAPI_DRS_GetApplicationInfo || a == Api::NvAPI_DRS_EnumApplications || a == Api::NvAPI_DRS_FindApplicationByName || a == Api::NvAPI_DRS_SetSetting || a == Api::NvAPI_DRS_GetSetting || a == Api::NvAPI_DRS_EnumSettings || a == Api::NvAPI_DRS_EnumAvailableSettingIds {
        lemma_api_id_roundtrip_part_10_0(a);
    } else if a == Api::NvAPI_DRS_EnumAvailableSettingValues || a == Api::NvAPI_DRS_GetSettingIdFromName || a == Api::NvAPI_DRS_GetSettingNameFromId || a == Api::NvAPI_DRS_DeleteProfileSetting || a == Api::NvAPI_DRS_RestoreAllDefaults || a == Api::NvAPI_DRS_RestoreProfileDefault || a == Api::NvAPI_DRS_RestoreProfileDefaultSetting || a == Api::NvAPI_DRS_GetBaseProfile || a == Api::NvAPI_Event_RegisterCallback || a == Api::NvAPI_Event_UnregisterCallback {
        lemma_api_id_roundtrip_part_10_1(a);
    } else if a == Api::NvAPI_GPU_GetCurrentThermalLevel || a == Api::NvAPI_GPU_GetCurrentFanSpeedLevel || a == Api::NvAPI_GPU_SetScanoutIntensity || a == Api::NvAPI_GPU_GetScanoutIntensityState || a == Api::NvAPI_GPU_SetScanoutWarping || a == Api::NvAPI_GPU_GetScanoutWarpingState || a == Api::NvAPI_GPU_SetScanoutCompositionParameter || a == Api::NvAPI_GPU_GetScanoutCompositionParameter || a == Api::NvAPI_GPU_GetScanoutConfiguration || a == Api::NvAPI_GPU_GetScanoutConfigurationEx {
        lemma_api_id_roundtrip_part_10_2(a);
    } else if a == Api::NvAPI_DISP_SetHCloneTopology || a == Api::NvAPI_DISP_GetHCloneTopology || a == Api::NvAPI_DISP_ValidateHCloneTopology || a == Api::NvAPI_GPU_GetAdapterIdFromPhysicalGpu || a == Api::NvAPI_GPU_GetVirtualizationInfo || a == Api::NvAPI_GPU_GetLogicalGpuInfo || a == Api::NvAPI_GPU_GetLicensableFeatures || a == Api::NvAPI_GPU_GetVRReadyData || a == Api::NvAPI_GPU_GetPerfDecreaseInfo || a == Api::NvAPI_GPU_QueryIlluminationSupport {
        lemma_api_id_roundtrip_part_10_3(a);
    } else {
        lemma_api_id_roundtrip_part_10_4(a);
    }
}

#[verifier::spinoff_prover]
proof fn lemma_api_id_roundtrip_part_11_0(a: Api)
    requires
        a == Api::NvAPI_LoadMicrocode
        || a == Api::NvAPI_GetLoadedMicrocodePrograms
        || a == Api::NvAPI_GetDisplayDriverBuildTitle
        || a == Api::NvAPI_GetDisplayDriverCompileType
        || a == Api::NvAPI_GetDisplayDriverSecurityLevel
        || a == Api::NvAPI_AccessDisplayDriverRegistry
        || a == Api::NvAPI_GetDisplayDriverRegistryPath
        || a == Api::NvAPI_GetUnAttachedDisplayDriverRegistryPath
        || a == Api::NvAPI_GPU_GetRawFuseData
        || a == Api::NvAPI_GPU_GetFoundry,
    ensures
        api_of_id(api_id(a)) == Some(a),
{
    match a {
        Api::NvAPI_LoadMicrocode => assert(api_of_id(0x3119f36eu32) == Some(Api::NvAPI_LoadMicrocode)),
        Api::NvAPI_GetLoadedMicrocodePrograms => assert(api_of_id(0x919b3136u32) == Some(Api::NvAPI_GetLoadedMicrocodePrograms)),
        Api::NvAPI_GetDisplayDriverBuildTitle => assert(api_of_id(0x7562e947u32) == Some(Api::NvAPI_GetDisplayDriverBuildTitle)),
        Api::NvAPI_GetDisplayDriverCompileType => assert(api_of_id(0x988aea78u32) == Some(Api::NvAPI_GetDisplayDriverCompileType)),
        Api::NvAPI_GetDisplayDriverSecurityLevel => assert(api_of_id(0x9d772bbau32) == Some(Api::NvAPI_GetDisplayDriverSecurityLevel)),
        Api::NvAPI_AccessDisplayDriverRegistry => assert(api_of_id(0xf5579360u32) == Some(Api::NvAPI_AccessDisplayDriverRegistry)),
        Api::NvAPI_GetDisplayDriverRegistryPath => assert(api_of_id(0x0e24ceeeu32) == Some(Api::NvAPI_GetDisplayDriverRegistryPath)),
        Api::NvAPI_GetUnAttachedDisplayDriverRegistryPath => assert(api_of_id(0x633252d8u32) == Some(Api::NvAPI_GetUnAttachedDisplayDriverRegistryPath)),
        Api::NvAPI_GPU_GetRawFuseData => assert(api_of_id(0xe0b1dce9u32) == Some(Api::NvAPI_GPU_GetRawFuseData)),
        Api::NvAPI_GPU_GetFoundry => assert(api_of_id(0x5d857a00u32) == Some(Api::NvAPI_GPU_GetFoundry)),
        _ => {},
    }
}

#[verifier::spinoff_prover]
proof fn lemma_api_id_roundtrip_part_11_1(a: Api)
    requires
        a == Api::NvAPI_GPU_GetVPECount
        || a == Api::NvAPI_GPU_GetTargetID
        || a == Api::NvAPI_GPU_GetShortName
        || a == Api::NvAPI_GPU_GetVbiosMxmVersion
        || a == Api::NvAPI_GPU_GetVbiosImage
        || a == Api::NvAPI_GPU_GetMXMBlock
        || a == Api::NvAPI_GPU_SetCurrentPCIEWidth
        || a == Api::NvAPI_GPU_SetCurrentPCIESpeed
        || a == Api::NvAPI_GPU_GetPCIEInfo
        || a == Api::NvAPI_GPU_ClearPCIELinkErrorInfo,
    ensures
        api_of_id(api_id(a)) == Some(a),
{
    match a {
        Api::NvAPI_GPU_GetVPECount => assert(api_of_id(0xd8cbf37bu32) == Some(Api::NvAPI_GPU_GetVPECount)),
        Api::NvAPI_GPU_GetTargetID => assert(api_of_id(0x35b5fd2fu32) == Some(Api::NvAPI_GPU_GetTargetID)),
        Api::NvAPI_GPU_GetShortName => assert(api_of_id(0xd988f0f3u32) == Some(Api::NvAPI_GPU_GetShortName)),
        Api::NvAPI_GPU_GetVbiosMxmVersion => assert(api_of_id(0xe1d5dabau32) == Some(Api::NvAPI_GPU_GetVbiosMxmVersion)),
        Api::NvAPI_GPU_GetVbiosImage => assert(api_of_id(0xfc13ee11u32) == Some(Api::NvAPI_GPU_GetVbiosImage)),
        Api::NvAPI_GPU_GetMXMBlock => assert(api_of_id(0xb7ab19b9u32) == Some(Api::NvAPI_GPU_GetMXMBlock)),
        Api::NvAPI_GPU_SetCurrentPCIEWidth => assert(api_of_id(0x3f28e1b9u32) == Some(Api::NvAPI_GPU_SetCurrentPCIEWidth)),
        Api::NvAPI_GPU_SetCurrentPCIESpeed => assert(api_of_id(0x3bd32008u32) == Some(Api::NvAPI_GPU_SetCurrentPCIESpeed)),
        Api::NvAPI_GPU_GetPCIEInfo => assert(api_of_id(0xe3795199u32) == Some(Api::NvAPI_GPU_GetPCIEInfo)),
        Api::NvAPI_GPU_ClearPCIELinkErrorInfo => assert(api_of_id(0x8456ff3du32) == Some(Api::NvAPI_GPU_ClearPCIELinkErrorInfo)),
        _ => {},
    }
}

#[verifier::spinoff_prover]
proof fn lemma_api_id_roundtrip_part_11_2(a: Api)
    requires
        a == Api::NvAPI_GPU_ClearPCIELinkAERInfo
        || a == Api::NvAPI_GPU_GetFrameBufferCalibrationLockFailures
        || a == Api::NvAPI_GPU_SetDisplayUnderflowMode
        || a == Api::NvAPI_GPU_GetDisplayUnderflowStatus
        || a == Api::NvAPI_GPU_GetBarInfo
        || a == Api::NvAPI_GPU_GetPSFloorSweepStatus
        || a == Api::NvAPI_GPU_GetVSFloorSweepStatus
        || a == Api::NvAPI_GPU_GetSerialNumber
        || a == Api::NvAPI_GPU_GetManufacturingInfo
        || a == Api::NvAPI_GPU_GetRamConfigStrap,
    ensures
        api_of_id(api_id(a)) == Some(a),
{
    match a {
        Api::NvAPI_GPU_ClearPCIELinkAERInfo => assert(api_of_id(0x521566bbu32) == Some(Api::NvAPI_GPU_ClearPCIELinkAERInfo)),
        Api::NvAPI_GPU_GetFrameBufferCalibrationLockFailures => assert(api_of_id(0x524b9773u32) == Some(Api::NvAPI_GPU_GetFrameBufferCalibrationLockFailures)),
        Api::NvAPI_GPU_SetDisplayUnderflowMode => assert(api_of_id(0x387b2e41u32) == Some(Api::NvAPI_GPU_SetDisplayUnderflowMode)),
        Api::NvAPI_GPU_GetDisplayUnderflowStatus => assert(api_of_id(0xed9e8057u32) == Some(Api::NvAPI_GPU_GetDisplayUnderflowStatus)),
        Api::NvAPI_GPU_GetBarInfo => assert(api_of_id(0xe4b701e3u32) == Some(Api::NvAPI_GPU_GetBarInfo)),
        Api::NvAPI_GPU_GetPSFloorSweepStatus => assert(api_of_id(0xdee047abu32) == Some(Api::NvAPI_GPU_GetPSFloorSweepStatus)),
        Api::NvAPI_GPU_GetVSFloorSweepStatus => assert(api_of_id(0xd4f3944cu32) == Some(Api::NvAPI_GPU_GetVSFloorSweepStatus)),
        Api::NvAPI_GPU_GetSerialNumber => assert(api_of_id(0x14b83a5fu32) == Some(Api::NvAPI_GPU_GetSerialNumber)),
        Api::NvAPI_GPU_GetManufacturingInfo => assert(api_of_id(0xa4218928u32) == Some(Api::NvAPI_GPU_GetManufacturingInfo)),
        Api::NvAPI_GPU_GetRamConfigStrap => assert(api_of_id(0x51ccdb2au32) == Some(Api::NvAPI_GPU_GetRamConfigStrap)),
        _ => {},
    }
}

#[verifier::spinoff_prover]
proof fn lemma_api_id_roundtrip_part_11_3(a: Api)
    requires
        a == Api::NvAPI_GPU_GetRamBusWidth
        || a == Api::NvAPI_GPU_GetRamBankCount
        || a == Api::NvAPI_GPU_GetArchInfo
        || a == Api::NvAPI_GPU_GetExtendedMinorRevision
        || a == Api::NvAPI_GPU_GetSampleType
        || a == Api::NvAPI_GPU_GetHardwareQualType
        || a == Api::NvAPI_GPU_GetAllClocks
        || a == Api::NvAPI_GPU_SetClocks
        || a == Api::NvAPI_GPU_SetPerfHybridMode
        || a == Api::NvAPI_GPU_GetPerfHybridMode,
    ensures
        api_of_id(api_id(a)) == Some(a),
{
    match a {
        Api::NvAPI_GPU_GetRamBusWidth => assert(api_of_id(0x7975c581u32) == Some(Api::NvAPI_GPU_GetRamBusWidth)),
        Api::NvAPI_GPU_GetRamBankCount => assert(api_of_id(0x17073a3cu32) == Some(Api::NvAPI_GPU_GetRamBankCount)),
        Api::NvAPI_GPU_GetArchInfo => assert(api_of_id(0xd8265d24u32) == Some(Api::NvAPI_GPU_GetArchInfo)),
        Api::NvAPI_GPU_GetExtendedMinorRevision => assert(api_of_id(0x25f17421u32) == Some(Api::NvAPI_GPU_GetExtendedMinorRevision)),
        Api::NvAPI_GPU_GetSampleType => assert(api_of_id(0x32e1d697u32) == Some(Api::NvAPI_GPU_GetSampleType)),
        Api::NvAPI_GPU_GetHardwareQualType => assert(api_of_id(0xf91e777bu32) == Some(Api::NvAPI_GPU_GetHardwareQualType)),
        Api::NvAPI_GPU_GetAllClocks => assert(api_of_id(0x1bd69f49u32) == Some(Api::NvAPI_GPU_GetAllClocks)),
        Api::NvAPI_GPU_SetClocks => assert(api_of_id(0x6f151055u32) == Some(Api::NvAPI_GPU_SetClocks)),
        Api::NvAPI_GPU_SetPerfHybridMode => assert(api_of_id(0x7bc207f8u32) == Some(Api::NvAPI_GPU_SetPerfHybridMode)),
        Api::NvAPI_GPU_GetPerfHybridMode => assert(api_of_id(0x5d7ccaebu32) == Some(Api::NvAPI_GPU_GetPerfHybridMode)),
        _ => {},
    }
}

#[verifier::spinoff_prover]
proof fn lemma_api_id_roundtrip_part_11_4(a: Api)
    requires
        a == Api::NvAPI_GPU_GetHybridControllerInfo
        || a == Api::NvAPI_RestartDisplayDriver
        || a == Api::NvAPI_GPU_GetAllGpusOnSameBoard
        || a == Api::NvAPI_SetTopologyDisplayGPU
        || a == Api::NvAPI_GetTopologyDisplayGPU
        || a == Api::NvAPI_SYS_GetSliApprovalCookie
        || a == Api::NvAPI_CreateUnAttachedDisplayFromDisplay
        || a == Api::NvAPI_GetDriverModel
        || a == Api::NvAPI_GPU_CudaEnumComputeCapableGpus
        || a == Api::NvAPI_GPU_PhysxSetState,
    ensures
        api_of_id(api_id(a)) == Some(a),
{
    match a {
        Api::NvAPI_GPU_GetHybridControllerInfo => assert(api_of_id(0xd26b8a58u32) == Some(Api::NvAPI_GPU_GetHybridControllerInfo)),
        Api::NvAPI_RestartDisplayDriver => assert(api_of_id(0xb4b26b65u32) == Some(Api::NvAPI_RestartDisplayDriver)),
        Api::NvAPI_GPU_GetAllGpusOnSameBoard => assert(api_of_id(0x4db019e6u32) == Some(Api::NvAPI_GPU_GetAllGpusOnSameBoard)),
        Api::NvAPI_SetTopologyDisplayGPU => assert(api_of_id(0xf409d5e5u32) == Some(Api::NvAPI_SetTopologyDisplayGPU)),
        Api::NvAPI_GetTopologyDisplayGPU => assert(api_of_id(0x813d89a8u32) == Some(Api::NvAPI_GetTopologyDisplayGPU)),
        Api::NvAPI_SYS_GetSliApprovalCookie => assert(api_of_id(0xb539a26eu32) == Some(Api::NvAPI_SYS_GetSliApprovalCookie)),
        Api::NvAPI_CreateUnAttachedDisplayFromDisplay => assert(api_of_id(0xa0c72ee4u32) == Some(Api::NvAPI_CreateUnAttachedDisplayFromDisplay)),
        Api::NvAPI_GetDriverModel => assert(api_of_id(0x25eeb2c4u32) == Some(Api::NvAPI_GetDriverModel)),
        Api::NvAPI_GPU_CudaEnumComputeCapableGpus => assert(api_of_id(0x5786cc6eu32) == Some(Api::NvAPI_GPU_CudaEnumComputeCapableGpus)),
        Api::NvAPI_GPU_PhysxSetState => assert(api_of_id(0x4071b85eu32) == Some(Api::NvAPI_GPU_PhysxSetState)),
        _ => {},
    }
}

proof fn lemma_api_id_roundtrip_part_11(a: Api)
    requires
        api_id_part_11(a) is Some,
    ensures
        api_of_id(api_id(a)) == Some(a),
{
    if a == Api::NvAPI_LoadMicrocode || a == Api::NvAPI_GetLoadedMicrocodePrograms || a == Api::NvAPI_GetDisplayDriverBuildTitle || a == Api::NvAPI_GetDisplayDriverCompileType || a == Api::NvAPI_GetDisplayDriverSecurityLevel || a == Api::NvAPI_AccessDisplayDriverRegistry || a == Api::NvAPI_GetDisplayDriverRegistryPath || a == Api::NvAPI_GetUnAttachedDisplayDriverRegistryPath || a == Api::NvAPI_GPU_GetRawFuseData || a == Api::NvAPI_GPU_GetFoundry {
        lemma_api_id_roundtrip_part_11_0(a);
    } else if a == Api::NvAPI_GPU_GetVPECount || a == Api::NvAPI_GPU_GetTargetID || a == Api::NvAPI_GPU_GetShortName || a == Api::NvAPI_GPU_GetVbiosMxmVersion || a == Api::NvAPI_GPU_GetVbiosImage || a == Api::NvAPI_GPU_GetMXMBlock || a == Api::NvAPI_GPU_SetCurrentPCIEWidth || a == Api::NvAPI_GPU_SetCurrentPCIESpeed || a == Api::NvAPI_GPU_GetPCIEInfo || a == Api::NvAPI_GPU_ClearPCIELinkErrorInfo {
        lemma_api_id_roundtrip_part_11_1(a);
    } else if a == Api::NvAPI_GPU_ClearPCIELinkAERInfo || a == Api::NvAPI_GPU_GetFrameBufferCalibrationLockFailures || a == Api::NvAPI_GPU_SetDisplayUnderflowMode || a == Api::NvAPI_GPU_GetDisplayUnderflowStatus || a == Api::NvAPI_GPU_GetBarInfo || a == Api::NvAPI_GPU_GetPSFloorSweepStatus || a == Api::NvAPI_GPU_GetVSFloorSweepStatus || a == Api::NvAPI_GPU_GetSerialNumber || a == Api::NvAPI_GPU_GetManufacturingInfo || a == Api::NvAPI_GPU_GetRamConfigStrap {
        lemma_api_id_roundtrip_part_11_2(a);
    } else if a == Api::NvAPI_GPU_GetRamBusWidth || a == Api::NvAPI_GPU_GetRamBankCount || a == Api::NvAPI_GPU_GetArchInfo || a == Api::NvAPI_GPU_GetExtendedMinorRevision || a == Api::NvAPI_GPU_GetSampleType || a == Api::NvAPI_GPU_GetHardwareQualType || a == Api::NvAPI_GPU_GetAllClocks || a == Api::NvAPI_GPU_SetClocks || a == Api::NvAPI_GPU_SetPerfHybridMode || a == Api::NvAPI_GPU_GetPerfHybridMode {
        lemma_api_id_roundtrip_part_11_3(a);
    } else {
        lemma_api_id_roundtrip_part_11_4(a);
    }
}

#[verifier::spinoff_prover]
proof fn lemma_api_id_roundtrip_part_12_0(a: Api)
    requires
        a == Api::NvAPI_GPU_PhysxQueryRecommendedState
        || a == Api::NvAPI_GPU_GetDeepIdleState
        || a == Api::NvAPI_GPU_SetDeepIdleState
        || a == Api::NvAPI_GetScalingCaps
        || a == Api::NvAPI_GPU_GetThermalTable
        || a == Api::NvAPI_SYS_SetPostOutput
        || a == Api::NvAPI_GPU_PerfPoliciesGetInfo
        || a == Api::NvAPI_GPU_PerfPoliciesGetStatus
        || a == Api::NvAPI_GPU_ClientThermalPoliciesGetInfo
        || a == Api::NvAPI_GPU_ClientThermalPoliciesGetStatus,
    ensures
        api_of_id(api_id(a)) == Some(a),
{
    match a {
        Api::NvAPI_GPU_PhysxQueryRecommendedState => assert(api_of_id(0x7a4174f4u32) == Some(Api::NvAPI_GPU_PhysxQueryRecommendedState)),
        Api::NvAPI_GPU_GetDeepIdleState => assert(api_of_id(0x1aad16b4u32) == Some(Api::NvAPI_GPU_GetDeepIdleState)),
        Api::NvAPI_GPU_SetDeepIdleState => assert(api_of_id(0x568a2292u32) == Some(Api::NvAPI_GPU_SetDeepIdleState)),
        Api::NvAPI_GetScalingCaps => assert(api_of_id(0x8e875cf9u32) == Some(Api::NvAPI_GetScalingCaps)),
        Api::NvAPI_GPU_GetThermalTable => assert(api_of_id(0xc729203cu32) == Some(Api::NvAPI_GPU_GetThermalTable)),
        Api::NvAPI_SYS_SetPostOutput => assert(api_of_id(0xd3a092b1u32) == Some(Api::NvAPI_SYS_SetPostOutput)),
        Api::NvAPI_GPU_PerfPoliciesGetInfo => assert(api_of_id(0x409d9841u32) == Some(Api::NvAPI_GPU_PerfPoliciesGetInfo)),
        Api::NvAPI_GPU_PerfPoliciesGetStatus => assert(api_of_id(0x3d358a0cu32) == Some(Api::NvAPI_GPU_PerfPoliciesGetStatus)),
        Api::NvAPI_GPU_ClientThermalPoliciesGetInfo => assert(api_of_id(0x0d258bb5u32) == Some(Api::NvAPI_GPU_ClientThermalPoliciesGetInfo)),
        Api::NvAPI_GPU_ClientThermalPoliciesGetStatus => assert(api_of_id(0xe9c425a1u32) == Some(Api::NvAPI_GPU_ClientThermalPoliciesGetStatus)),
        _ => {},
    }
}

#[verifier::spinoff_prover]
proof fn lemma_api_id_roundtrip_part_12_1(a: Api)
    requires
        a == Api::NvAPI_GPU_ClientThermalPoliciesSetStatus
        || a == Api::NvAPI_GPU_ClientVoltRailsGetStatus
        || a == Api::NvAPI_GPU_GetVoltageStep
        || a == Api::NvAPI_GPU_ClockClientClkDomainsGetInfo
        || a == Api::NvAPI_GPU_ClockClientClkVfPointsGetInfo
        || a == Api::NvAPI_GPU_ClockClientClkVfPointsGetControl
        || a == Api::NvAPI_GPU_ClockClientClkVfPointsSetControl
        || a == Api::NvAPI_GPU_ClockClientClkVfPointsGetStatus
        || a == Api::NvAPI_GPU_PerfClientLimitsGetStatus
        || a == Api::NvAPI_GPU_PerfClientLimitsSetStatus,
    ensures
        api_of_id(api_id(a)) == Some(a),
{
    match a {
        Api::NvAPI_GPU_ClientThermalPoliciesSetStatus => assert(api_of_id(0x34c0b13du32) == Some(Api::NvAPI_GPU_ClientThermalPoliciesSetStatus)),
        Api::NvAPI_GPU_ClientVoltRailsGetStatus => assert(api_of_id(0x465f9bcfu32) == Some(Api::NvAPI_GPU_ClientVoltRailsGetStatus)),
        Api::NvAPI_GPU_GetVoltageStep => assert(api_of_id(0x28766157u32) == Some(Api::NvAPI_GPU_GetVoltageStep)),
        Api::NvAPI_GPU_ClockClientClkDomainsGetInfo => assert(api_of_id(0x64b43a6au32) == Some(Api::NvAPI_GPU_ClockClientClkDomainsGetInfo)),
        Api::NvAPI_GPU_ClockClientClkVfPointsGetInfo => assert(api_of_id(0x507b4b59u32) == Some(Api::NvAPI_GPU_ClockClientClkVfPointsGetInfo)),
        Api::NvAPI_GPU_ClockClientClkVfPointsGetControl => assert(api_of_id(0x23f1b133u32) == Some(Api::NvAPI_GPU_ClockClientClkVfPointsGetControl)),
        Api::NvAPI_GPU_ClockClientClkVfPointsSetControl => assert(api_of_id(0x0733e009u32) == Some(Api::NvAPI_GPU_ClockClientClkVfPointsSetControl)),
        Api::NvAPI_GPU_ClockClientClkVfPointsGetStatus => assert(api_of_id(0x21537ad4u32) == Some(Api::NvAPI_GPU_ClockClientClkVfPointsGetStatus)),
        Api::NvAPI_GPU_PerfClientLimitsGetStatus => assert(api_of_id(0xe440b867u32) == Some(Api::NvAPI_GPU_PerfClientLimitsGetStatus)),
        Api::NvAPI_GPU_PerfClientLimitsSetStatus => assert(api_of_id(0x39442cfbu32) == Some(Api::NvAPI_GPU_PerfClientLimitsSetStatus)),
        _ => {},
    }
}

#[verifier::spinoff_prover]
proof fn lemma_api_id_roundtrip_part_12_2(a: Api)
    requires
        a == Api::NvAPI_GPU_ClientVoltRailsGetControl
        || a == Api::NvAPI_GPU_ClientVoltRailsSetControl
        || a == Api::NvAPI_GPU_ClientFanArbitersGetControl
        || a == Api::NvAPI_GPU_ClientFanArbitersGetInfo
        || a == Api::NvAPI_GPU_ClientFanArbitersGetStatus
        || a == Api::NvAPI_GPU_ClientFanArbitersSetControl
        || a == Api::NvAPI_GPU_ClientFanCoolersGetControl
        || a == Api::NvAPI_GPU_ClientFanCoolersGetInfo
        || a == Api::NvAPI_GPU_ClientFanCoolersGetStatus
        || a == Api::NvAPI_GPU_ClientFanCoolersSetControl,
    ensures
        api_of_id(api_id(a)) == Some(a),
{
    match a {
        Api::NvAPI_GPU_ClientVoltRailsGetControl => assert(api_of_id(0x9df23ca1u32) == Some(Api::NvAPI_GPU_ClientVoltRailsGetControl)),
        Api::NvAPI_GPU_ClientVoltRailsSetControl => assert(api_of_id(0xb9306d9bu32) == Some(Api::NvAPI_GPU_ClientVoltRailsSetControl)),
        Api::NvAPI_GPU_ClientFanArbitersGetControl => assert(api_of_id(0x600f612eu32) == Some(Api::NvAPI_GPU_ClientFanArbitersGetControl)),
        Api::NvAPI_GPU_ClientFanArbitersGetInfo => assert(api_of_id(0xdddfda38u32) == Some(Api::NvAPI_GPU_ClientFanArbitersGetInfo)),
        Api::NvAPI_GPU_ClientFanArbitersGetStatus => assert(api_of_id(0xcde021b9u32) == Some(Api::NvAPI_GPU_ClientFanArbitersGetStatus)),
        Api::NvAPI_GPU_ClientFanArbitersSetControl => assert(api_of_id(0x44cd3014u32) == Some(Api::NvAPI_GPU_ClientFanArbitersSetControl)),
        Api::NvAPI_GPU_ClientFanCoolersGetControl => assert(api_of_id(0x814b209fu32) == Some(Api::NvAPI_GPU_ClientFanCoolersGetControl)),
        Api::NvAPI_GPU_ClientFanCoolersGetInfo => assert(api_of_id(0xfb85b01eu32) == Some(Api::NvAPI_GPU_ClientFanCoolersGetInfo)),
        Api::NvAPI_GPU_ClientFanCoolersGetStatus => assert(api_of_id(0x35aed5e8u32) == Some(Api::NvAPI_GPU_ClientFanCoolersGetStatus)),
        Api::NvAPI_GPU_ClientFanCoolersSetControl => assert(api_of_id(0xa58971a5u32) == Some(Api::NvAPI_GPU_ClientFanCoolersSetControl)),
        _ => {},
    }
}

#[verifier::spinoff_prover]
proof fn lemma_api_id_roundtrip_part_12_3(a: Api)
    requires
        a == Api::NvAPI_GPU_ClientFanPoliciesGetControl
        || a == Api::NvAPI_GPU_ClientFanPoliciesGetInfo
        || a == Api::NvAPI_GPU_ClientFanPoliciesSetControl
        || a == Api::NvAPI_GPU_ClientGetLastOcScannerResults
        || a == Api::NvAPI_GPU_ClientGetOcConfig
        || a == Api::NvAPI_GPU_ClientIllumDevicesGetInfo
        || a == Api::NvAPI_GPU_ClientIllumDevicesGetControl
        || a == Api::NvAPI_GPU_ClientIllumDevicesSetControl
        || a == Api::NvAPI_GPU_ClientIllumZonesGetControl
        || a == Api::NvAPI_GPU_ClientIllumZonesGetInfo,
    ensures
        api_of_id(api_id(a)) == Some(a),
{
    match a {
        Api::NvAPI_GPU_ClientFanPoliciesGetControl => assert(api_of_id(0xe543c540u32) == Some(Api::NvAPI_GPU_ClientFanPoliciesGetControl)),
        Api::NvAPI_GPU_ClientFanPoliciesGetInfo => assert(api_of_id(0x52b76d12u32) == Some(Api::NvAPI_GPU_ClientFanPoliciesGetInfo)),
        Api::NvAPI_GPU_ClientFanPoliciesSetControl => assert(api_of_id(0xc181947au32) == Some(Api::NvAPI_GPU_ClientFanPoliciesSetControl)),
        Api::NvAPI_GPU_ClientGetLastOcScannerResults => assert(api_of_id(0x593e8e72u32) == Some(Api::NvAPI_GPU_ClientGetLastOcScannerResults)),
        Api::NvAPI_GPU_ClientGetOcConfig => assert(api_of_id(0x210f1841u32) == Some(Api::NvAPI_GPU_ClientGetOcConfig)),
        Api::NvAPI_GPU_ClientIllumDevicesGetInfo => assert(api_of_id(0xd4100e58u32) == Some(Api::NvAPI_GPU_ClientIllumDevicesGetInfo)),
        Api::NvAPI_GPU_ClientIllumDevicesGetControl => assert(api_of_id(0x73c01d58u32) == Some(Api::NvAPI_GPU_ClientIllumDevicesGetControl)),
        Api::NvAPI_GPU_ClientIllumDevicesSetControl => assert(api_of_id(0x57024c62u32) == Some(Api::NvAPI_GPU_ClientIllumDevicesSetControl)),
        Api::NvAPI_GPU_ClientIllumZonesGetControl => assert(api_of_id(0x3dbf5764u32) == Some(Api::NvAPI_GPU_ClientIllumZonesGetControl)),
        Api::NvAPI_GPU_ClientIllumZonesGetInfo => assert(api_of_id(0x4b81241bu32) == Some(Api::NvAPI_GPU_ClientIllumZonesGetInfo)),
        _ => {},
    }
}

#[verifier::spinoff_prover]
proof fn lemma_api_id_roundtrip_part_12_4(a: Api)
    requires
        a == Api::NvAPI_GPU_ClientIllumZonesSetControl
        || a == Api::NvAPI_GPU_ClientRegisterForOcConfigChangedUpdates
        || a == Api::NvAPI_GPU_ClientRegisterForOcScannerStatusUpdates
        || a == Api::NvAPI_GPU_ClientRevertOc
        || a == Api::NvAPI_GPU_ClientStartOcScanner
        || a == Api::NvAPI_GPU_ClientStopOcScanner
        || a == Api::NvAPI_GPU_GetUsages
        || a == Api::NvAPI_GPU_GetRamMaker
        || a == Api::NvAPI_D3D_GetObjectHandleForResource
        || a == Api::NvAPI_D3D_SetResourceHint,
    ensures
        api_of_id(api_id(a)) == Some(a),
{
    match a {
        Api::NvAPI_GPU_ClientIllumZonesSetControl => assert(api_of_id(0x197d065eu32) == Some(Api::NvAPI_GPU_ClientIllumZonesSetControl)),
        Api::NvAPI_GPU_ClientRegisterForOcConfigChangedUpdates => assert(api_of_id(0xf627074fu32) == Some(Api::NvAPI_GPU_ClientRegisterForOcConfigChangedUpdates)),
        Api::NvAPI_GPU_ClientRegisterForOcScannerStatusUpdates => assert(api_of_id(0x1cb41116u32) == Some(Api::NvAPI_GPU_ClientRegisterForOcScannerStatusUpdates)),
        Api::NvAPI_GPU_ClientRevertOc => assert(api_of_id(0xcc727b22u32) == Some(Api::NvAPI_GPU_ClientRevertOc)),
        Api::NvAPI_GPU_ClientStartOcScanner => assert(api_of_id(0xbc4aee25u32) == Some(Api::NvAPI_GPU_ClientStartOcScanner)),
        Api::NvAPI_GPU_ClientStopOcScanner => assert(api_of_id(0xc28b73deu32) == Some(Api::NvAPI_GPU_ClientStopOcScanner)),
        Api::NvAPI_GPU_GetUsages => assert(api_of_id(0x189a1fdfu32) == Some(Api::NvAPI_GPU_GetUsages)),
        Api::NvAPI_GPU_GetRamMaker => assert(api_of_id(0x42aea16au32) == Some(Api::NvAPI_GPU_GetRamMaker)),
        Api::NvAPI_D3D_GetObjectHandleForResource => assert(api_of_id(0xfceac864u32) == Some(Api::NvAPI_D3D_GetObjectHandleForResource)),
        Api::NvAPI_D3D_SetResourceHint => assert(api_of_id(0x6c0ed98cu32) == Some(Api::NvAPI_D3D_SetResourceHint)),
        _ => {},
    }
}

proof fn lemma_api_id_roundtrip_part_12(a: Api)
    requires
        api_id_part_12(a) is Some,
    ensures
        api_of_id(api_id(a)) == Some(a),
{
    if a == Api::NvAPI_GPU_PhysxQueryRecommendedState || a == Api::NvAPI_GPU_GetDeepIdleState || a == Api::NvAPI_GPU_SetDeepIdleState || a == Api::NvAPI_GetScalingCaps || a == Api::NvAPI_GPU_GetThermalTable || a == Api::NvAPI_SYS_SetPostOutput || a == Api::NvAPI_GPU_PerfPoliciesGetInfo || a == Api::NvAPI_GPU_PerfPoliciesGetStatus || a == Api::NvAPI_GPU_ClientThermalPoliciesGetInfo || a == Api::NvAPI_GPU_ClientThermalPoliciesGetStatus {
        lemma_api_id_roundtrip_part_12_0(a);
    } else if a == Api::NvAPI_GPU_ClientThermalPoliciesSetStatus || a == Api::NvAPI_GPU_ClientVoltRailsGetStatus || a == Api::NvAPI_GPU_GetVoltageStep || a == Api::NvAPI_GPU_ClockClientClkDomainsGetInfo || a == Api::NvAPI_GPU_ClockClientClkVfPointsGetInfo || a == Api::NvAPI_GPU_ClockClientClkVfPointsGetControl || a == Api::NvAPI_GPU_ClockClientClkVfPointsSetControl || a == Api::NvAPI_GPU_ClockClientClkVfPointsGetStatus || a == Api::NvAPI_GPU_PerfClientLimitsGetStatus || a == Api::NvAPI_GPU_PerfClientLimitsSetStatus {
        lemma_api_id_roundtrip_part_12_1(a);
    } else if a == Api::NvAPI_GPU_ClientVoltRailsGetControl || a == Api::NvAPI_GPU_ClientVoltRailsSetControl || a == Api::NvAPI_GPU_ClientFanArbitersGetControl || a == Api::NvAPI_GPU_ClientFanArbitersGetInfo || a == Api::NvAPI_GPU_ClientFanArbitersGetStatus || a == Api::NvAPI_GPU_ClientFanArbitersSetControl || a == Api::NvAPI_GPU_ClientFanCoolersGetControl || a == Api::NvAPI_GPU_ClientFanCoolersGetInfo || a == Api::NvAPI_GPU_ClientFanCoolersGetStatus || a == Api::NvAPI_GPU_ClientFanCoolersSetControl {
        lemma_api_id_roundtrip_part_12_2(a);
    } else if a == Api::NvAPI_GPU_ClientFanPoliciesGetControl || a == Api::NvAPI_GPU_ClientFanPoliciesGetInfo || a == Api::NvAPI_GPU_ClientFanPoliciesSetControl || a == Api::NvAPI_GPU_ClientGetLastOcScannerResults || a == Api::NvAPI_GPU_ClientGetOcConfig || a == Api::NvAPI_GPU_ClientIllumDevicesGetInfo || a == Api::NvAPI_GPU_ClientIllumDevicesGetControl || a == Api::NvAPI_GPU_ClientIllumDevicesSetControl || a == Api::NvAPI_GPU_ClientIllumZonesGetControl || a == Api::NvAPI_GPU_ClientIllumZonesGetInfo {
        lemma_api_id_roundtrip_part_12_3(a);
    } else {
        lemma_api_id_roundtrip_part_12_4(a);
    }
}

#[verifier::spinoff_prover]
proof fn lemma_api_id_roundtrip_part_13_0(a: Api)
    requires
        a == Api::NvAPI_D3D_BeginResourceRendering
        || a == Api::NvAPI_D3D_EndResourceRendering
        || a == Api::NvAPI_D3D12_QueryPresentBarrierSupport
        || a == Api::NvAPI_D3D12_CreatePresentBarrierClient
        || a == Api::NvAPI_D3D12_RegisterPresentBarrierResources
        || a == Api::NvAPI_DestroyPresentBarrierClient
        || a == Api::NvAPI_JoinPresentBarrier
        || a == Api::NvAPI_LeavePresentBarrier
        || a == Api::NvAPI_QueryPresentBarrierFrameStatistics
        || a == Api::NvAPI_D3D12_CreateDDisplayPresentBarrierClient,
    ensures
        api_of_id(api_id(a)) == Some(a),
{
    match a {
        Api::NvAPI_D3D_BeginResourceRendering => assert(api_of_id(0x91123d6au32) == Some(Api::NvAPI_D3D_BeginResourceRendering)),
        Api::NvAPI_D3D_EndResourceRendering => assert(api_of_id(0x37e7191cu32) == Some(Api::NvAPI_D3D_EndResourceRendering)),
        Api::NvAPI_D3D12_QueryPresentBarrierSupport => assert(api_of_id(0xa15faef7u32) == Some(Api::NvAPI_D3D12_QueryPresentBarrierSupport)),
        Api::NvAPI_D3D12_CreatePresentBarrierClient => assert(api_of_id(0x4d815de9u32) == Some(Api::NvAPI_D3D12_CreatePresentBarrierClient)),
        Api::NvAPI_D3D12_RegisterPresentBarrierResources => assert(api_of_id(0xd53c9ef0u32) == Some(Api::NvAPI_D3D12_RegisterPresentBarrierResources)),
        Api::NvAPI_DestroyPresentBarrierClient => assert(api_of_id(0x3c5c351bu32) == Some(Api::NvAPI_DestroyPresentBarrierClient)),
        Api::NvAPI_JoinPresentBarrier => assert(api_of_id(0x17f6bf82u32) == Some(Api::NvAPI_JoinPresentBarrier)),
        Api::NvAPI_LeavePresentBarrier => assert(api_of_id(0xc3ec5a7fu32) == Some(Api::NvAPI_LeavePresentBarrier)),
        Api::NvAPI_QueryPresentBarrierFrameStatistics => assert(api_of_id(0x61b844a1u32) == Some(Api::NvAPI_QueryPresentBarrierFrameStatistics)),
        Api::NvAPI_D3D12_CreateDDisplayPresentBarrierClient => assert(api_of_id(0xb5a21987u32) == Some(Api::NvAPI_D3D12_CreateDDisplayPresentBarrierClient)),
        _ => {},
    }
}

#[verifier::spinoff_prover]
proof fn lemma_api_id_roundtrip_part_13_1(a: Api)
    requires
        a == Api::NvAPI_D3D11_CreateRasterizerState
        || a == Api::NvAPI_D3D_ConfigureAnsel
        || a == Api::NvAPI_D3D11_CreateTiledTexture2DArray
        || a == Api::NvAPI_D3D11_CheckFeatureSupport
        || a == Api::NvAPI_D3D11_CreateImplicitMSAATexture2D
        || a == Api::NvAPI_D3D12_CreateCommittedImplicitMSAATexture2D
        || a == Api::NvAPI_D3D11_ResolveSubresourceRegion
        || a == Api::NvAPI_D3D12_ResolveSubresourceRegion
        || a == Api::NvAPI_D3D11_TiledTexture2DArrayGetDesc
        || a == Api::NvAPI_D3D11_UpdateTileMappings,
    ensures
        api_of_id(api_id(a)) == Some(a),
{
    match a {
        Api::NvAPI_D3D11_CreateRasterizerState => assert(api_of_id(0xdb8d28afu32) == Some(Api::NvAPI_D3D11_CreateRasterizerState)),
        Api::NvAPI_D3D_ConfigureAnsel => assert(api_of_id(0x341c6c7fu32) == Some(Api::NvAPI_D3D_ConfigureAnsel)),
        Api::NvAPI_D3D11_CreateTiledTexture2DArray => assert(api_of_id(0x7886981au32) == Some(Api::NvAPI_D3D11_CreateTiledTexture2DArray)),
        Api::NvAPI_D3D11_CheckFeatureSupport => assert(api_of_id(0x106a487eu32) == Some(Api::NvAPI_D3D11_CheckFeatureSupport)),
        Api::NvAPI_D3D11_CreateImplicitMSAATexture2D => assert(api_of_id(0xb8f79632u32) == Some(Api::NvAPI_D3D11_CreateImplicitMSAATexture2D)),
        Api::NvAPI_D3D12_CreateCommittedImplicitMSAATexture2D => assert(api_of_id(0x24c6a07bu32) == Some(Api::NvAPI_D3D12_CreateCommittedImplicitMSAATexture2D)),
        Api::NvAPI_D3D11_ResolveSubresourceRegion => assert(api_of_id(0xe6bfedd6u32) == Some(Api::NvAPI_D3D11_ResolveSubresourceRegion)),
        Api::NvAPI_D3D12_ResolveSubresourceRegion => assert(api_of_id(0xc24a15bfu32) == Some(Api::NvAPI_D3D12_ResolveSubresourceRegion)),
        Api::NvAPI_D3D11_TiledTexture2DArrayGetDesc => assert(api_of_id(0xf1a2b9d5u32) == Some(Api::NvAPI_D3D11_TiledTexture2DArrayGetDesc)),
        Api::NvAPI_D3D11_UpdateTileMappings => assert(api_of_id(0x9a06ea07u32) == Some(Api::NvAPI_D3D11_UpdateTileMappings)),
        _ => {},
    }
}

#[verifier::spinoff_prover]
proof fn lemma_api_id_roundtrip_part_13_2(a: Api)
    requires
        a == Api::NvAPI_D3D11_CopyTileMappings
        || a == Api::NvAPI_D3D11_TiledResourceBarrier
        || a == Api::NvAPI_D3D11_AliasMSAATexture2DAsNonMSAA
        || a == Api::NvAPI_D3D11_CreateGeometryShaderEx_2
        || a == Api::NvAPI_D3D11_CreateVertexShaderEx
        || a == Api::NvAPI_D3D11_CreateHullShaderEx
        || a == Api::NvAPI_D3D11_CreateDomainShaderEx
        || a == Api::NvAPI_D3D11_CreatePixelShaderEx_2
        || a == Api::NvAPI_D3D11_CreateFastGeometryShaderExplicit
        || a == Api::NvAPI_D3D11_CreateFastGeometryShader,
    ensures
        api_of_id(api_id(a)) == Some(a),
{
    match a {
        Api::NvAPI_D3D11_CopyTileMappings => assert(api_of_id(0xc09ee6bcu32) == Some(Api::NvAPI_D3D11_CopyTileMappings)),
        Api::NvAPI_D3D11_TiledResourceBarrier => assert(api_of_id(0xd6839099u32) == Some(Api::NvAPI_D3D11_TiledResourceBarrier)),
        Api::NvAPI_D3D11_AliasMSAATexture2DAsNonMSAA => assert(api_of_id(0xf1c54fc9u32) == Some(Api::NvAPI_D3D11_AliasMSAATexture2DAsNonMSAA)),
        Api::NvAPI_D3D11_CreateGeometryShaderEx_2 => assert(api_of_id(0x99ed5c1cu32) == Some(Api::NvAPI_D3D11_CreateGeometryShaderEx_2)),
        Api::NvAPI_D3D11_CreateVertexShaderEx => assert(api_of_id(0x0beaa0b2u32) == Some(Api::NvAPI_D3D11_CreateVertexShaderEx)),
        Api::NvAPI_D3D11_CreateHullShaderEx => assert(api_of_id(0xb53cab00u32) == Some(Api::NvAPI_D3D11_CreateHullShaderEx)),
        Api::NvAPI_D3D11_CreateDomainShaderEx => assert(api_of_id(0xa0d7180du32) == Some(Api::NvAPI_D3D11_CreateDomainShaderEx)),
        Api::NvAPI_D3D11_CreatePixelShaderEx_2 => assert(api_of_id(0x4162822bu32) == Some(Api::NvAPI_D3D11_CreatePixelShaderEx_2)),
        Api::NvAPI_D3D11_CreateFastGeometryShaderExplicit => assert(api_of_id(0x71ab7c9cu32) == Some(Api::NvAPI_D3D11_CreateFastGeometryShaderExplicit)),
        Api::NvAPI_D3D11_CreateFastGeometryShader => assert(api_of_id(0x525d43beu32) == Some(Api::NvAPI_D3D11_CreateFastGeometryShader)),
        _ => {},
    }
}

#[verifier::spinoff_prover]
proof fn lemma_api_id_roundtrip_part_13_3(a: Api)
    requires
        a == Api::NvAPI_D3D11_DecompressView
        || a == Api::NvAPI_D3D12_CreateGraphicsPipelineState
        || a == Api::NvAPI_D3D12_CreateComputePipelineState
        || a == Api::NvAPI_D3D12_SetDepthBoundsTestValues
        || a == Api::NvAPI_D3D12_CreateReservedResource
        || a == Api::NvAPI_D3D12_CreateHeap
        || a == Api::NvAPI_D3D12_CreateHeap2
        || a == Api::NvAPI_D3D12_QueryCpuVisibleVidmem
        || a == Api::NvAPI_D3D12_ReservedResourceGetDesc
        || a == Api::NvAPI_D3D12_UpdateTileMappings,
    ensures
        api_of_id(api_id(a)) == Some(a),
{
    match a {
        Api::NvAPI_D3D11_DecompressView => assert(api_of_id(0x3a94e822u32) == Some(Api::NvAPI_D3D11_DecompressView)),
        Api::NvAPI_D3D12_CreateGraphicsPipelineState => assert(api_of_id(0x2fc28856u32) == Some(Api::NvAPI_D3D12_CreateGraphicsPipelineState)),
        Api::NvAPI_D3D12_CreateComputePipelineState => assert(api_of_id(0x2762deacu32) == Some(Api::NvAPI_D3D12_CreateComputePipelineState)),
        Api::NvAPI_D3D12_SetDepthBoundsTestValues => assert(api_of_id(0xb9333fe9u32) == Some(Api::NvAPI_D3D12_SetDepthBoundsTestValues)),
        Api::NvAPI_D3D12_CreateReservedResource => assert(api_of_id(0x2c85f101u32) == Some(Api::NvAPI_D3D12_CreateReservedResource)),
        Api::NvAPI_D3D12_CreateHeap => assert(api_of_id(0x5cb397cfu32) == Some(Api::NvAPI_D3D12_CreateHeap)),
        Api::NvAPI_D3D12_CreateHeap2 => assert(api_of_id(0x924be9d6u32) == Some(Api::NvAPI_D3D12_CreateHeap2)),
        Api::NvAPI_D3D12_QueryCpuVisibleVidmem => assert(api_of_id(0x26322bc3u32) == Some(Api::NvAPI_D3D12_QueryCpuVisibleVidmem)),
        Api::NvAPI_D3D12_ReservedResourceGetDesc => assert(api_of_id(0x9aa2aabbu32) == Some(Api::NvAPI_D3D12_ReservedResourceGetDesc)),
        Api::NvAPI_D3D12_UpdateTileMappings => assert(api_of_id(0xc6017a7du32) == Some(Api::NvAPI_D3D12_UpdateTileMappings)),
        _ => {},
    }
}

#[verifier::spinoff_prover]
proof fn lemma_api_id_roundtrip_part_13_4(a: Api)
    requires
        a == Api::NvAPI_D3D12_CopyTileMappings
        || a == Api::NvAPI_D3D12_ResourceAliasingBarrier
        || a == Api::NvAPI_D3D12_CaptureUAVInfo
        || a == Api::NvAPI_D3D11_GetResourceGPUVirtualAddressEx
        || a == Api::NvAPI_D3D11_EnumerateMetaCommands
        || a == Api::NvAPI_D3D11_CreateMetaCommand
        || a == Api::NvAPI_D3D11_InitializeMetaCommand
        || a == Api::NvAPI_D3D11_ExecuteMetaCommand
        || a == Api::NvAPI_D3D12_EnumerateMetaCommands
        || a == Api::NvAPI_D3D12_CreateMetaCommand,
    ensures
        api_of_id(api_id(a)) == Some(a),
{
    match a {
        Api::NvAPI_D3D12_CopyTileMappings => assert(api_of_id(0x47f78194u32) == Some(Api::NvAPI_D3D12_CopyTileMappings)),
        Api::NvAPI_D3D12_ResourceAliasingBarrier => assert(api_of_id(0xb942bab7u32) == Some(Api::NvAPI_D3D12_ResourceAliasingBarrier)),
        Api::NvAPI_D3D12_CaptureUAVInfo => assert(api_of_id(0x6e5ea9dbu32) == Some(Api::NvAPI_D3D12_CaptureUAVInfo)),
        Api::NvAPI_D3D11_GetResourceGPUVirtualAddressEx => assert(api_of_id(0xaf6d14dau32) == Some(Api::NvAPI_D3D11_GetResourceGPUVirtualAddressEx)),
        Api::NvAPI_D3D11_EnumerateMetaCommands => assert(api_of_id(0xc7453ba8u32) == Some(Api::NvAPI_D3D11_EnumerateMetaCommands)),
        Api::NvAPI_D3D11_CreateMetaCommand => assert(api_of_id(0xf505fba0u32) == Some(Api::NvAPI_D3D11_CreateMetaCommand)),
        Api::NvAPI_D3D11_InitializeMetaCommand => assert(api_of_id(0xaec629e9u32) == Some(Api::NvAPI_D3D11_InitializeMetaCommand)),
        Api::NvAPI_D3D11_ExecuteMetaCommand => assert(api_of_id(0x82236c47u32) == Some(Api::NvAPI_D3D11_ExecuteMetaCommand)),
        Api::NvAPI_D3D12_EnumerateMetaCommands => assert(api_of_id(0xcd9141d8u32) == Some(Api::NvAPI_D3D12_EnumerateMetaCommands)),
        Api::NvAPI_D3D12_CreateMetaCommand => assert(api_of_id(0xeb29634bu32) == Some(Api::NvAPI_D3D12_CreateMetaCommand)),
        _ => {},
    }
}

proof fn lemma_api_id_roundtrip_part_13(a: Api)
    requires
        api_id_part_13(a) is Some,
    ensures
        api_of_id(api_id(a)) == Some(a),
{
    if a == Api::NvAPI_D3D_BeginResourceRendering || a == Api::NvAPI_D3D_EndResourceRendering || a == Api::NvAPI_D3D12_QueryPresentBarrierSupport || a == Api::NvAPI_D3D12_CreatePresentBarrierClient || a == Api::NvAPI_D3D12_RegisterPresentBarrierResources || a == Api::NvAPI_DestroyPresentBarrierClient || a == Api::NvAPI_JoinPresentBarrier || a == Api::NvAPI_LeavePresentBarrier || a == Api::NvAPI_QueryPresentBarrierFrameStatistics || a == Api::NvAPI_D3D12_CreateDDisplayPresentBarrierClient {
        lemma_api_id_roundtrip_part_13_0(a);
    } else if a == Api::NvAPI_D3D11_CreateRasterizerState || a == Api::NvAPI_D3D_ConfigureAnsel || a == Api::NvAPI_D3D11_CreateTiledTexture2DArray || a == Api::NvAPI_D3D11_CheckFeatureSupport || a == Api::NvAPI_D3D11_CreateImplicitMSAATexture2D || a == Api::NvAPI_D3D12_CreateCommittedImplicitMSAATexture2D || a == Api::NvAPI_D3D11_ResolveSubresourceRegion || a == Api::NvAPI_D3D12_ResolveSubresourceRegion || a == Api::NvAPI_D3D11_TiledTexture2DArrayGetDesc || a == Api::NvAPI_D3D11_UpdateTileMappings {
        lemma_api_id_roundtrip_part_13_1(a);
    } else if a == Api::NvAPI_D3D11_CopyTileMappings || a == Api::NvAPI_D3D11_TiledResourceBarrier || a == Api::NvAPI_D3D11_AliasMSAATexture2DAsNonMSAA || a == Api::NvAPI_D3D11_CreateGeometryShaderEx_2 || a == Api::NvAPI_D3D11_CreateVertexShaderEx || a == Api::NvAPI_D3D11_CreateHullShaderEx || a == Api::NvAPI_D3D11_CreateDomainShaderEx || a == Api::NvAPI_D3D11_CreatePixelShaderEx_2 || a == Api::NvAPI_D3D11_CreateFastGeometryShaderExplicit || a == Api::NvAPI_D3D11_CreateFastGeometryShader {
        lemma_api_id_roundtrip_part_13_2(a);
    } else if a == Api::NvAPI_D3D11_DecompressView || a == Api::NvAPI_D3D12_CreateGraphicsPipelineState || a == Api::NvAPI_D3D12_CreateComputePipelineState || a == Api::NvAPI_D3D12_SetDepthBoundsTestValues || a == Api::NvAPI_D3D12_CreateReservedResource || a == Api::NvAPI_D3D12_CreateHeap || a == Api::NvAPI_D3D12_CreateHeap2 || a == Api::NvAPI_D3D12_QueryCpuVisibleVidmem || a == Api::NvAPI_D3D12_ReservedResourceGetDesc || a == Api::NvAPI_D3D12_UpdateTileMappings {
        lemma_api_id_roundtrip_part_13_3(a);
    } else {
        lemma_api_id_roundtrip_part_13_4(a);
    }
}

#[verifier::spinoff_prover]
proof fn lemma_api_id_roundtrip_part_14_0(a: Api)
    requires
        a == Api::NvAPI_D3D12_InitializeMetaCommand
        || a == Api::NvAPI_D3D12_ExecuteMetaCommand
        || a == Api::NvAPI_D3D12_CreateCommittedResource
        || a == Api::NvAPI_D3D12_GetCopyableFootprints
        || a == Api::NvAPI_D3D12_CopyTextureRegion
        || a == Api::NvAPI_D3D12_IsNvShaderExtnOpCodeSupported
        || a == Api::NvAPI_D3D12_GetOptimalThreadCountForMesh
        || a == Api::NvAPI_D3D_IsGSyncCapable
        || a == Api::NvAPI_D3D_IsGSyncActive
        || a == Api::NvAPI_D3D1x_DisableShaderDiskCache,
    ensures
        api_of_id(api_id(a)) == Some(a),
{
    match a {
        Api::NvAPI_D3D12_InitializeMetaCommand => assert(api_of_id(0xa4125399u32) == Some(Api::NvAPI_D3D12_InitializeMetaCommand)),
        Api::NvAPI_D3D12_ExecuteMetaCommand => assert(api_of_id(0xde24fc3du32) == Some(Api::NvAPI_D3D12_ExecuteMetaCommand)),
        Api::NvAPI_D3D12_CreateCommittedResource => assert(api_of_id(0x027e98aeu32) == Some(Api::NvAPI_D3D12_CreateCommittedResource)),
        Api::NvAPI_D3D12_GetCopyableFootprints => assert(api_of_id(0xf6305eb5u32) == Some(Api::NvAPI_D3D12_GetCopyableFootprints)),
        Api::NvAPI_D3D12_CopyTextureRegion => assert(api_of_id(0x82b91b25u32) == Some(Api::NvAPI_D3D12_CopyTextureRegion)),
        Api::NvAPI_D3D12_IsNvShaderExtnOpCodeSupported => assert(api_of_id(0x3dfacec8u32) == Some(Api::NvAPI_D3D12_IsNvShaderExtnOpCodeSupported)),
        Api::NvAPI_D3D12_GetOptimalThreadCountForMesh => assert(api_of_id(0xb43995cbu32) == Some(Api::NvAPI_D3D12_GetOptimalThreadCountForMesh)),
        Api::NvAPI_D3D_IsGSyncCapable => assert(api_of_id(0x9c1eed78u32) == Some(Api::NvAPI_D3D_IsGSyncCapable)),
        Api::NvAPI_D3D_IsGSyncActive => assert(api_of_id(0xe942b0ffu32) == Some(Api::NvAPI_D3D_IsGSyncActive)),
        Api::NvAPI_D3D1x_DisableShaderDiskCache => assert(api_of_id(0xd0cbca7du32) == Some(Api::NvAPI_D3D1x_DisableShaderDiskCache)),
        _ => {},
    }
}

#[verifier::spinoff_prover]
proof fn lemma_api_id_roundtrip_part_14_1(a: Api)
    requires
        a == Api::NvAPI_D3D11_MultiGPU_GetCaps
        || a == Api::NvAPI_D3D11_MultiGPU_Init
        || a == Api::NvAPI_D3D11_CreateMultiGPUDevice
        || a == Api::NvAPI_D3D_QuerySinglePassStereoSupport
        || a == Api::NvAPI_D3D_SetSinglePassStereoMode
        || a == Api::NvAPI_D3D12_QuerySinglePassStereoSupport
        || a == Api::NvAPI_D3D12_SetSinglePassStereoMode
        || a == Api::NvAPI_D3D_QueryMultiViewSupport
        || a == Api::NvAPI_D3D_SetMultiViewMode
        || a == Api::NvAPI_D3D_QueryModifiedWSupport,
    ensures
        api_of_id(api_id(a)) == Some(a),
{
    match a {
        Api::NvAPI_D3D11_MultiGPU_GetCaps => assert(api_of_id(0xd2d25687u32) == Some(Api::NvAPI_D3D11_MultiGPU_GetCaps)),
        Api::NvAPI_D3D11_MultiGPU_Init => assert(api_of_id(0x017be49eu32) == Some(Api::NvAPI_D3D11_MultiGPU_Init)),
        Api::NvAPI_D3D11_CreateMultiGPUDevice => assert(api_of_id(0xbdb20007u32) == Some(Api::NvAPI_D3D11_CreateMultiGPUDevice)),
        Api::NvAPI_D3D_QuerySinglePassStereoSupport => assert(api_of_id(0x6f5f0a6du32) == Some(Api::NvAPI_D3D_QuerySinglePassStereoSupport)),
        Api::NvAPI_D3D_SetSinglePassStereoMode => assert(api_of_id(0xa39e6e6eu32) == Some(Api::NvAPI_D3D_SetSinglePassStereoMode)),
        Api::NvAPI_D3D12_QuerySinglePassStereoSupport => assert(api_of_id(0x3b03791bu32) == Some(Api::NvAPI_D3D12_QuerySinglePassStereoSupport)),
        Api::NvAPI_D3D12_SetSinglePassStereoMode => assert(api_of_id(0x83556d87u32) == Some(Api::NvAPI_D3D12_SetSinglePassStereoMode)),
        Api::NvAPI_D3D_QueryMultiViewSupport => assert(api_of_id(0xb6e0a41cu32) == Some(Api::NvAPI_D3D_QueryMultiViewSupport)),
        Api::NvAPI_D3D_SetMultiViewMode => assert(api_of_id(0x8285c8dau32) == Some(Api::NvAPI_D3D_SetMultiViewMode)),
        Api::NvAPI_D3D_QueryModifiedWSupport => assert(api_of_id(0xcbf9f4f5u32) == Some(Api::NvAPI_D3D_QueryModifiedWSupport)),
        _ => {},
    }
}

#[verifier::spinoff_prover]
proof fn lemma_api_id_roundtrip_part_14_2(a: Api)
    requires
        a == Api::NvAPI_D3D_SetModifiedWMode
        || a == Api::NvAPI_D3D12_QueryModifiedWSupport
        || a == Api::NvAPI_D3D12_SetModifiedWMode
        || a == Api::NvAPI_D3D_CreateLateLatchObject
        || a == Api::NvAPI_D3D_QueryLateLatchSupport
        || a == Api::NvAPI_D3D_RegisterDevice
        || a == Api::NvAPI_D3D11_MultiDrawInstancedIndirect
        || a == Api::NvAPI_D3D11_MultiDrawIndexedInstancedIndirect
        || a == Api::NvAPI_D3D_ImplicitSLIControl
        || a == Api::NvAPI_D3D12_UseDriverHeapPriorities,
    ensures
        api_of_id(api_id(a)) == Some(a),
{
    match a {
        Api::NvAPI_D3D_SetModifiedWMode => assert(api_of_id(0x06ea4bf4u32) == Some(Api::NvAPI_D3D_SetModifiedWMode)),
        Api::NvAPI_D3D12_QueryModifiedWSupport => assert(api_of_id(0x51235248u32) == Some(Api::NvAPI_D3D12_QueryModifiedWSupport)),
        Api::NvAPI_D3D12_SetModifiedWMode => assert(api_of_id(0xe1fdaba7u32) == Some(Api::NvAPI_D3D12_SetModifiedWMode)),
        Api::NvAPI_D3D_CreateLateLatchObject => assert(api_of_id(0x2db27d09u32) == Some(Api::NvAPI_D3D_CreateLateLatchObject)),
        Api::NvAPI_D3D_QueryLateLatchSupport => assert(api_of_id(0x8ceca0ecu32) == Some(Api::NvAPI_D3D_QueryLateLatchSupport)),
        Api::NvAPI_D3D_RegisterDevice => assert(api_of_id(0x8c02c4d0u32) == Some(Api::NvAPI_D3D_RegisterDevice)),
        Api::NvAPI_D3D11_MultiDrawInstancedIndirect => assert(api_of_id(0xd4e26bbfu32) == Some(Api::NvAPI_D3D11_MultiDrawInstancedIndirect)),
        Api::NvAPI_D3D11_MultiDrawIndexedInstancedIndirect => assert(api_of_id(0x59e890f9u32) == Some(Api::NvAPI_D3D11_MultiDrawIndexedInstancedIndirect)),
        Api::NvAPI_D3D_ImplicitSLIControl => assert(api_of_id(0x2aede111u32) == Some(Api::NvAPI_D3D_ImplicitSLIControl)),
        Api::NvAPI_D3D12_UseDriverHeapPriorities => assert(api_of_id(0xf0d978a8u32) == Some(Api::NvAPI_D3D12_UseDriverHeapPriorities)),
        _ => {},
    }
}

#[verifier::spinoff_prover]
proof fn lemma_api_id_roundtrip_part_14_3(a: Api)
    requires
        a == Api::NvAPI_D3D12_Mosaic_GetCompanionAllocations
        || a == Api::NvAPI_D3D12_Mosaic_GetViewportAndGpuPartitions
        || a == Api::NvAPI_D3D1x_GetGraphicsCapabilities
        || a == Api::NvAPI_D3D12_GetGraphicsCapabilities
        || a == Api::NvAPI_D3D11_RSSetExclusiveScissorRects
        || a == Api::NvAPI_D3D11_RSSetViewportsPixelShadingRates
        || a == Api::NvAPI_D3D11_CreateShadingRateResourceView
        || a == Api::NvAPI_D3D11_RSSetShadingRateResourceView
        || a == Api::NvAPI_D3D11_RSGetPixelShadingRateSampleOrder
        || a == Api::NvAPI_D3D11_RSSetPixelShadingRateSampleOrder,
    ensures
        api_of_id(api_id(a)) == Some(a),
{
    match a {
        Api::NvAPI_D3D12_Mosaic_GetCompanionAllocations => assert(api_of_id(0xa46022c7u32) == Some(Api::NvAPI_D3D12_Mosaic_GetCompanionAllocations)),
        Api::NvAPI_D3D12_Mosaic_GetViewportAndGpuPartitions => assert(api_of_id(0xb092b818u32) == Some(Api::NvAPI_D3D12_Mosaic_GetViewportAndGpuPartitions)),
        Api::NvAPI_D3D1x_GetGraphicsCapabilities => assert(api_of_id(0x52b1499au32) == Some(Api::NvAPI_D3D1x_GetGraphicsCapabilities)),
        Api::NvAPI_D3D12_GetGraphicsCapabilities => assert(api_of_id(0x01e87354u32) == Some(Api::NvAPI_D3D12_GetGraphicsCapabilities)),
        Api::NvAPI_D3D11_RSSetExclusiveScissorRects => assert(api_of_id(0xae4d73efu32) == Some(Api::NvAPI_D3D11_RSSetExclusiveScissorRects)),
        Api::NvAPI_D3D11_RSSetViewportsPixelShadingRates => assert(api_of_id(0x34f7938fu32) == Some(Api::NvAPI_D3D11_RSSetViewportsPixelShadingRates)),
        Api::NvAPI_D3D11_CreateShadingRateResourceView => assert(api_of_id(0x99ca2dffu32) == Some(Api::NvAPI_D3D11_CreateShadingRateResourceView)),
        Api::NvAPI_D3D11_RSSetShadingRateResourceView => assert(api_of_id(0x1b0c2f83u32) == Some(Api::NvAPI_D3D11_RSSetShadingRateResourceView)),
        Api::NvAPI_D3D11_RSGetPixelShadingRateSampleOrder => assert(api_of_id(0x092442a1u32) == Some(Api::NvAPI_D3D11_RSGetPixelShadingRateSampleOrder)),
        Api::NvAPI_D3D11_RSSetPixelShadingRateSampleOrder => assert(api_of_id(0xa942373au32) == Some(Api::NvAPI_D3D11_RSSetPixelShadingRateSampleOrder)),
        _ => {},
    }
}

#[verifier::spinoff_prover]
proof fn lemma_api_id_roundtrip_part_14_4(a: Api)
    requires
        a == Api::NvAPI_D3D_InitializeVRSHelper
        || a == Api::NvAPI_D3D_InitializeNvGazeHandler
        || a == Api::NvAPI_D3D_InitializeSMPAssist
        || a == Api::NvAPI_D3D_QuerySMPAssistSupport
        || a == Api::NvAPI_D3D_GetSleepStatus
        || a == Api::NvAPI_D3D_SetSleepMode
        || a == Api::NvAPI_D3D_Sleep
        || a == Api::NvAPI_D3D_GetLatency
        || a == Api::NvAPI_D3D_SetLatencyMarker
        || a == Api::NvAPI_D3D12_SetAsyncFrameMarker,
    ensures
        api_of_id(api_id(a)) == Some(a),
{
    match a {
        Api::NvAPI_D3D_InitializeVRSHelper => assert(api_of_id(0x4780d70bu32) == Some(Api::NvAPI_D3D_InitializeVRSHelper)),
        Api::NvAPI_D3D_InitializeNvGazeHandler => assert(api_of_id(0x5b3b7479u32) == Some(Api::NvAPI_D3D_InitializeNvGazeHandler)),
        Api::NvAPI_D3D_InitializeSMPAssist => assert(api_of_id(0x42763d0cu32) == Some(Api::NvAPI_D3D_InitializeSMPAssist)),
        Api::NvAPI_D3D_QuerySMPAssistSupport => assert(api_of_id(0xc57921deu32) == Some(Api::NvAPI_D3D_QuerySMPAssistSupport)),
        Api::NvAPI_D3D_GetSleepStatus => assert(api_of_id(0xaef96ca1u32) == Some(Api::NvAPI_D3D_GetSleepStatus)),
        Api::NvAPI_D3D_SetSleepMode => assert(api_of_id(0xac1ca9e0u32) == Some(Api::NvAPI_D3D_SetSleepMode)),
        Api::NvAPI_D3D_Sleep => assert(api_of_id(0x852cd1d2u32) == Some(Api::NvAPI_D3D_Sleep)),
        Api::NvAPI_D3D_GetLatency => assert(api_of_id(0x1a587f9cu32) == Some(Api::NvAPI_D3D_GetLatency)),
        Api::NvAPI_D3D_SetLatencyMarker => assert(api_of_id(0xd9984c05u32) == Some(Api::NvAPI_D3D_SetLatencyMarker)),
        Api::NvAPI_D3D12_SetAsyncFrameMarker => assert(api_of_id(0x13c98f73u32) == Some(Api::NvAPI_D3D12_SetAsyncFrameMarker)),
        _ => {},
    }
}

proof fn lemma_api_id_roundtrip_part_14(a: Api)
    requires
        api_id_part_14(a) is Some,
    ensures
        api_of_id(api_id(a)) == Some(a),
{
    if a == Api::NvAPI_D3D12_InitializeMetaCommand || a == Api::NvAPI_D3D12_ExecuteMetaCommand || a == Api::NvAPI_D3D12_CreateCommittedResource || a == Api::NvAPI_D3D12_GetCopyableFootprints || a == Api::NvAPI_D3D12_CopyTextureRegion || a == Api::NvAPI_D3D12_IsNvShaderExtnOpCodeSupported || a == Api::NvAPI_D3D12_GetOptimalThreadCountForMesh || a == Api::NvAPI_D3D_IsGSyncCapable || a == Api::NvAPI_D3D_IsGSyncActive || a == Api::NvAPI_D3D1x_DisableShaderDiskCache {
        lemma_api_id_roundtrip_part_14_0(a);
    } else if a == Api::NvAPI_D3D11_MultiGPU_GetCaps || a == Api::NvAPI_D3D11_MultiGPU_Init || a == Api::NvAPI_D3D11_CreateMultiGPUDevice || a == Api::NvAPI_D3D_QuerySinglePassStereoSupport || a == Api::NvAPI_D3D_SetSinglePassStereoMode || a == Api::NvAPI_D3D12_QuerySinglePassStereoSupport || a == Api::NvAPI_D3D12_SetSinglePassStereoMode || a == Api::NvAPI_D3D_QueryMultiViewSupport || a == Api::NvAPI_D3D_SetMultiViewMode || a == Api::NvAPI_D3D_QueryModifiedWSupport {
        lemma_api_id_roundtrip_part_14_1(a);
    } else if a == Api::NvAPI_D3D_SetModifiedWMode || a == Api::NvAPI_D3D12_QueryModifiedWSupport || a == Api::NvAPI_D3D12_SetModifiedWMode || a == Api::NvAPI_D3D_CreateLateLatchObject || a == Api::NvAPI_D3D_QueryLateLatchSupport || a == Api::NvAPI_D3D_RegisterDevice || a == Api::NvAPI_D3D11_MultiDrawInstancedIndirect || a == Api::NvAPI_D3D11_MultiDrawIndexedInstancedIndirect || a == Api::NvAPI_D3D_ImplicitSLIControl || a == Api::NvAPI_D3D12_UseDriverHeapPriorities {
        lemma_api_id_roundtrip_part_14_2(a);
    } else if a == Api::NvAPI_D3D12_Mosaic_GetCompanionAllocations || a == Api::NvAPI_D3D12_Mosaic_GetViewportAndGpuPartitions || a == Api::NvAPI_D3D1x_GetGraphicsCapabilities || a == Api::NvAPI_D3D12_GetGraphicsCapabilities || a == Api::NvAPI_D3D11_RSSetExclusiveScissorRects || a == Api::NvAPI_D3D11_RSSetViewportsPixelShadingRates || a == Api::NvAPI_D3D11_CreateShadingRateResourceView || a == Api::NvAPI_D3D11_RSSetShadingRateResourceView || a == Api::NvAPI_D3D11_RSGetPixelShadingRateSampleOrder || a == Api::NvAPI_D3D11_RSSetPixelShadingRateSampleOrder {
        lemma_api_id_roundtrip_part_14_3(a);
    } else {
        lemma_api_id_roundtrip_part_14_4(a);
    }
}

#[verifier::spinoff_prover]
proof fn lemma_api_id_roundtrip_part_15_0(a: Api)
    requires
        a == Api::NvAPI_D3D12_NotifyOutOfBandCommandQueue
        || a == Api::NvAPI_D3D12_CreateCubinComputeShader
        || a == Api::NvAPI_D3D12_CreateCubinComputeShaderEx
        || a == Api::NvAPI_D3D12_CreateCubinComputeShaderWithName
        || a == Api::NvAPI_D3D12_LaunchCubinShader
        || a == Api::NvAPI_D3D12_DestroyCubinComputeShader
        || a == Api::NvAPI_D3D12_GetCudaTextureObject
        || a == Api::NvAPI_D3D12_GetCudaSurfaceObject
        || a == Api::NvAPI_D3D12_IsFatbinPTXSupported
        || a == Api::NvAPI_D3D12_CreateCuModule,
    ensures
        api_of_id(api_id(a)) == Some(a),
{
    match a {
        Api::NvAPI_D3D12_NotifyOutOfBandCommandQueue => assert(api_of_id(0x03d6e8cbu32) == Some(Api::NvAPI_D3D12_NotifyOutOfBandCommandQueue)),
        Api::NvAPI_D3D12_CreateCubinComputeShader => assert(api_of_id(0x2a2c79e8u32) == Some(Api::NvAPI_D3D12_CreateCubinComputeShader)),
        Api::NvAPI_D3D12_CreateCubinComputeShaderEx => assert(api_of_id(0x3151211bu32) == Some(Api::NvAPI_D3D12_CreateCubinComputeShaderEx)),
        Api::NvAPI_D3D12_CreateCubinComputeShaderWithName => assert(api_of_id(0x1dc7261fu32) == Some(Api::NvAPI_D3D12_CreateCubinComputeShaderWithName)),
        Api::NvAPI_D3D12_LaunchCubinShader => assert(api_of_id(0x5c52bb86u32) == Some(Api::NvAPI_D3D12_LaunchCubinShader)),
        Api::NvAPI_D3D12_DestroyCubinComputeShader => assert(api_of_id(0x7fb785bau32) == Some(Api::NvAPI_D3D12_DestroyCubinComputeShader)),
        Api::NvAPI_D3D12_GetCudaTextureObject => assert(api_of_id(0x80403fc9u32) == Some(Api::NvAPI_D3D12_GetCudaTextureObject)),
        Api::NvAPI_D3D12_GetCudaSurfaceObject => assert(api_of_id(0x48f5b2eeu32) == Some(Api::NvAPI_D3D12_GetCudaSurfaceObject)),
        Api::NvAPI_D3D12_IsFatbinPTXSupported => assert(api_of_id(0x70c07832u32) == Some(Api::NvAPI_D3D12_IsFatbinPTXSupported)),
        Api::NvAPI_D3D12_CreateCuModule => assert(api_of_id(0xad1a677du32) == Some(Api::NvAPI_D3D12_CreateCuModule)),
        _ => {},
    }
}

#[verifier::spinoff_prover]
proof fn lemma_api_id_roundtrip_part_15_1(a: Api)
    requires
        a == Api::NvAPI_D3D12_EnumFunctionsInModule
        || a == Api::NvAPI_D3D12_CreateCuFunction
        || a == Api::NvAPI_D3D12_LaunchCuKernelChain
        || a == Api::NvAPI_D3D12_DestroyCuModule
        || a == Api::NvAPI_D3D12_DestroyCuFunction
        || a == Api::NvAPI_D3D11_CreateCubinComputeShader
        || a == Api::NvAPI_D3D11_CreateCubinComputeShaderEx
        || a == Api::NvAPI_D3D11_CreateCubinComputeShaderWithName
        || a == Api::NvAPI_D3D11_LaunchCubinShader
        || a == Api::NvAPI_D3D11_DestroyCubinComputeShader,
    ensures
        api_of_id(api_id(a)) == Some(a),
{
    match a {
        Api::NvAPI_D3D12_EnumFunctionsInModule => assert(api_of_id(0x7ab88d88u32) == Some(Api::NvAPI_D3D12_EnumFunctionsInModule)),
        Api::NvAPI_D3D12_CreateCuFunction => assert(api_of_id(0xe2436e22u32) == Some(Api::NvAPI_D3D12_CreateCuFunction)),
        Api::NvAPI_D3D12_LaunchCuKernelChain => assert(api_of_id(0x24973538u32) == Some(Api::NvAPI_D3D12_LaunchCuKernelChain)),
        Api::NvAPI_D3D12_DestroyCuModule => assert(api_of_id(0x41c65285u32) == Some(Api::NvAPI_D3D12_DestroyCuModule)),
        Api::NvAPI_D3D12_DestroyCuFunction => assert(api_of_id(0xdf295ea6u32) == Some(Api::NvAPI_D3D12_DestroyCuFunction)),
        Api::NvAPI_D3D11_CreateCubinComputeShader => assert(api_of_id(0x0ed98181u32) == Some(Api::NvAPI_D3D11_CreateCubinComputeShader)),
        Api::NvAPI_D3D11_CreateCubinComputeShaderEx => assert(api_of_id(0x32c2a0f6u32) == Some(Api::NvAPI_D3D11_CreateCubinComputeShaderEx)),
        Api::NvAPI_D3D11_CreateCubinComputeShaderWithName => assert(api_of_id(0xb672be19u32) == Some(Api::NvAPI_D3D11_CreateCubinComputeShaderWithName)),
        Api::NvAPI_D3D11_LaunchCubinShader => assert(api_of_id(0x427e236du32) == Some(Api::NvAPI_D3D11_LaunchCubinShader)),
        Api::NvAPI_D3D11_DestroyCubinComputeShader => assert(api_of_id(0x01682c86u32) == Some(Api::NvAPI_D3D11_DestroyCubinComputeShader)),
        _ => {},
    }
}

#[verifier::spinoff_prover]
proof fn lemma_api_id_roundtrip_part_15_2(a: Api)
    requires
        a == Api::NvAPI_D3D11_IsFatbinPTXSupported
        || a == Api::NvAPI_D3D11_CreateUnorderedAccessView
        || a == Api::NvAPI_D3D11_CreateShaderResourceView
        || a == Api::NvAPI_D3D11_CreateSamplerState
        || a == Api::NvAPI_D3D11_GetCudaTextureObject
        || a == Api::NvAPI_D3D11_GetResourceGPUVirtualAddress
        || a == Api::NvAPI_D3D12_GetRaytracingCaps
        || a == Api::NvAPI_D3D12_GetRaytracingOpacityMicromapArrayPrebuildInfo
        || a == Api::NvAPI_D3D12_SetCreatePipelineStateOptions
        || a == Api::NvAPI_D3D12_CheckDriverMatchingIdentifierEx,
    ensures
        api_of_id(api_id(a)) == Some(a),
{
    match a {
        Api::NvAPI_D3D11_IsFatbinPTXSupported => assert(api_of_id(0x6086bd93u32) == Some(Api::NvAPI_D3D11_IsFatbinPTXSupported)),
        Api::NvAPI_D3D11_CreateUnorderedAccessView => assert(api_of_id(0x74a497a1u32) == Some(Api::NvAPI_D3D11_CreateUnorderedAccessView)),
        Api::NvAPI_D3D11_CreateShaderResourceView => assert(api_of_id(0x65cb431eu32) == Some(Api::NvAPI_D3D11_CreateShaderResourceView)),
        Api::NvAPI_D3D11_CreateSamplerState => assert(api_of_id(0x89eca416u32) == Some(Api::NvAPI_D3D11_CreateSamplerState)),
        Api::NvAPI_D3D11_GetCudaTextureObject => assert(api_of_id(0x9006fa68u32) == Some(Api::NvAPI_D3D11_GetCudaTextureObject)),
        Api::NvAPI_D3D11_GetResourceGPUVirtualAddress => assert(api_of_id(0x1819b423u32) == Some(Api::NvAPI_D3D11_GetResourceGPUVirtualAddress)),
        Api::NvAPI_D3D12_GetRaytracingCaps => assert(api_of_id(0x85a6c2a0u32) == Some(Api::NvAPI_D3D12_GetRaytracingCaps)),
        Api::NvAPI_D3D12_GetRaytracingOpacityMicromapArrayPrebuildInfo => assert(api_of_id(0x4726d180u32) == Some(Api::NvAPI_D3D12_GetRaytracingOpacityMicromapArrayPrebuildInfo)),
        Api::NvAPI_D3D12_SetCreatePipelineStateOptions => assert(api_of_id(0x5c607a27u32) == Some(Api::NvAPI_D3D12_SetCreatePipelineStateOptions)),
        Api::NvAPI_D3D12_CheckDriverMatchingIdentifierEx => assert(api_of_id(0xafb237d4u32) == Some(Api::NvAPI_D3D12_CheckDriverMatchingIdentifierEx)),
        _ => {},
    }
}

#[verifier::spinoff_prover]
proof fn lemma_api_id_roundtrip_part_15_3(a: Api)
    requires
        a == Api::NvAPI_D3D12_GetRaytracingAccelerationStructurePrebuildInfoEx
        || a == Api::NvAPI_D3D12_BuildRaytracingOpacityMicromapArray
        || a == Api::NvAPI_D3D12_RelocateRaytracingOpacityMicromapArray
        || a == Api::NvAPI_D3D12_EmitRaytracingOpacityMicromapArrayPostbuildInfo
        || a == Api::NvAPI_D3D12_BuildRaytracingAccelerationStructureEx
        || a == Api::Unknown_1629A173
        || a == Api::Unknown_F1D2777B
        || a == Api::Unknown_8EFC0978
        || a == Api::Unknown_B7BCF50D
        || a == Api::Unknown_36E39E6B,
    ensures
        api_of_id(api_id(a)) == Some(a),
{
    match a {
        Api::NvAPI_D3D12_GetRaytracingAccelerationStructurePrebuildInfoEx => assert(api_of_id(0x8d025b77u32) == Some(Api::NvAPI_D3D12_GetRaytracingAccelerationStructurePrebuildInfoEx)),
        Api::NvAPI_D3D12_BuildRaytracingOpacityMicromapArray => assert(api_of_id(0x814f8d11u32) == Some(Api::NvAPI_D3D12_BuildRaytracingOpacityMicromapArray)),
        Api::NvAPI_D3D12_RelocateRaytracingOpacityMicromapArray => assert(api_of_id(0x0425c538u32) == Some(Api::NvAPI_D3D12_RelocateRaytracingOpacityMicromapArray)),
        Api::NvAPI_D3D12_EmitRaytracingOpacityMicromapArrayPostbuildInfo => assert(api_of_id(0x1d9a39b6u32) == Some(Api::NvAPI_D3D12_EmitRaytracingOpacityMicromapArrayPostbuildInfo)),
        Api::NvAPI_D3D12_BuildRaytracingAccelerationStructureEx => assert(api_of_id(0xe24ead45u32) == Some(Api::NvAPI_D3D12_BuildRaytracingAccelerationStructureEx)),
        Api::Unknown_1629A173 => assert(api_of_id(0x1629a173u32) == Some(Api::Unknown_1629A173)),
        Api::Unknown_F1D2777B => assert(api_of_id(0xf1d2777bu32) == Some(Api::Unknown_F1D2777B)),
        Api::Unknown_8EFC0978 => assert(api_of_id(0x8efc0978u32) == Some(Api::Unknown_8EFC0978)),
        Api::Unknown_B7BCF50D => assert(api_of_id(0xb7bcf50du32) == Some(Api::Unknown_B7BCF50D)),
        Api::Unknown_36E39E6B => assert(api_of_id(0x36e39e6bu32) == Some(Api::Unknown_36E39E6B)),
        _ => {},
    }
}

#[verifier::spinoff_prover]
proof fn lemma_api_id_roundtrip_part_15_4(a: Api)
    requires
        a == Api::Unknown_GetROPCount,
    ensures
        api_of_id(api_id(a)) == Some(a),
{
    match a {
        Api::Unknown_GetROPCount => assert(api_of_id(0xfdc129fau32) == Some(Api::Unknown_GetROPCount)),
        _ => {},
    }
}

proof fn lemma_api_id_roundtrip_part_15(a: Api)
    requires
        api_id_part_15(a) is Some,
    ensures
        api_of_id(api_id(a)) == Some(a),
{
    if a == Api::NvAPI_D3D12_NotifyOutOfBandCommandQueue || a == Api::NvAPI_D3D12_CreateCubinComputeShader || a == Api::NvAPI_D3D12_CreateCubinComputeShaderEx || a == Api::NvAPI_D3D12_CreateCubinComputeShaderWithName || a == Api::NvAPI_D3D12_LaunchCubinShader || a == Api::NvAPI_D3D12_DestroyCubinComputeShader || a == Api::NvAPI_D3D12_GetCudaTextureObject || a == Api::NvAPI_D3D12_GetCudaSurfaceObject || a == Api::NvAPI_D3D12_IsFatbinPTXSupported || a == Api::NvAPI_D3D12_CreateCuModule {
        lemma_api_id_roundtrip_part_15_0(a);
    } else if a == Api::NvAPI_D3D12_EnumFunctionsInModule || a == Api::NvAPI_D3D12_CreateCuFunction || a == Api::NvAPI_D3D12_LaunchCuKernelChain || a == Api::NvAPI_D3D12_DestroyCuModule || a == Api::NvAPI_D3D12_DestroyCuFunction || a == Api::NvAPI_D3D11_CreateCubinComputeShader || a == Api::NvAPI_D3D11_CreateCubinComputeShaderEx || a == Api::NvAPI_D3D11_CreateCubinComputeShaderWithName || a == Api::NvAPI_D3D11_LaunchCubinShader || a == Api::NvAPI_D3D11_DestroyCubinComputeShader {
        lemma_api_id_roundtrip_part_15_1(a);
    } else if a == Api::NvAPI_D3D11_IsFatbinPTXSupported || a == Api::NvAPI_D3D11_CreateUnorderedAccessView || a == Api::NvAPI_D3D11_CreateShaderResourceView || a == Api::NvAPI_D3D11_CreateSamplerState || a == Api::NvAPI_D3D11_GetCudaTextureObject || a == Api::NvAPI_D3D11_GetResourceGPUVirtualAddress || a == Api::NvAPI_D3D12_GetRaytracingCaps || a == Api::NvAPI_D3D12_GetRaytracingOpacityMicromapArrayPrebuildInfo || a == Api::NvAPI_D3D12_SetCreatePipelineStateOptions || a == Api::NvAPI_D3D12_CheckDriverMatchingIdentifierEx {
        lemma_api_id_roundtrip_part_15_2(a);
    } else if a == Api::NvAPI_D3D12_GetRaytracingAccelerationStructurePrebuildInfoEx || a == Api::NvAPI_D3D12_BuildRaytracingOpacityMicromapArray || a == Api::NvAPI_D3D12_RelocateRaytracingOpacityMicromapArray || a == Api::NvAPI_D3D12_EmitRaytracingOpacityMicromapArrayPostbuildInfo || a == Api::NvAPI_D3D12_BuildRaytracingAccelerationStructureEx || a == Api::Unknown_1629A173 || a == Api::Unknown_F1D2777B || a == Api::Unknown_8EFC0978 || a == Api::Unknown_B7BCF50D || a == Api::Unknown_36E39E6B {
        lemma_api_id_roundtrip_part_15_3(a);
    } else {
        lemma_api_id_roundtrip_part_15_4(a);
    }
}

/// The interface ids of the driver's listing, from `NvAPI_Initialize` to `NvAPI_SetImageSharpeningLevel`:
/// each API is queried under the id the listing gives it.
pub proof fn lemma_api_listing_ids_0()
    ensures
        api_id(Api::NvAPI_Initialize) == 0x0150e828u32,
        api_id(Api::NvAPI_Unload) == 0xd22bdd7eu32,
        api_id(Api::NvAPI_GetErrorMessage) == 0x6c2d048cu32,
        api_id(Api::NvAPI_GetInterfaceVersionString) == 0x01053fa5u32,
        api_id(Api::NvAPI_GetDisplayDriverVersion) == 0xf951a4d1u32,
        api_id(Api::NvAPI_SYS_GetDriverAndBranchVersion) == 0x2926aaadu32,
        api_id(Api::NvAPI_EnumNvidiaDisplayHandle) == 0x9abdd40du32,
        api_id(Api::NvAPI_EnumNvidiaUnAttachedDisplayHandle) == 0x20de9260u32,
        api_id(Api::NvAPI_EnumPhysicalGPUs) == 0xe5ac921fu32,
        api_id(Api::NvAPI_EnumTCCPhysicalGPUs) == 0xd9930b07u32,
        api_id(Api::NvAPI_EnumLogicalGPUs) == 0x48b3ea59u32,
        api_id(Api::NvAPI_GetPhysicalGPUsFromDisplay) == 0x34ef9506u32,
        api_id(Api::NvAPI_GetPhysicalGPUFromUnAttachedDisplay) == 0x5018ed61u32,
        api_id(Api::NvAPI_CreateDisplayFromUnAttachedDisplay) == 0x63f9799eu32,
        api_id(Api::NvAPI_GetLogicalGPUFromDisplay) == 0xee1370cfu32,
        api_id(Api::NvAPI_GetLogicalGPUFromPhysicalGPU) == 0xadd604d1u32,
        api_id(Api::NvAPI_GetPhysicalGPUsFromLogicalGPU) == 0xaea3fa32u32,
        api_id(Api::NvAPI_GetAssociatedNvidiaDisplayHandle) == 0x35c29134u32,
        api_id(Api::NvAPI_DISP_GetAssociatedUnAttachedNvidiaDisplayHandle) == 0xa70503b2u32,
        api_id(Api::NvAPI_GetAssociatedNvidiaDisplayName) == 0x22a78b05u32,
        api_id(Api::NvAPI_GetUnAttachedAssociatedDisplayName) == 0x4888d790u32,
        api_id(Api::NvAPI_EnableHWCursor) == 0x2863148du32,
        api_id(Api::NvAPI_DisableHWCursor) == 0xab163097u32,
        api_id(Api::NvAPI_GetVBlankCounter) == 0x67b5db55u32,
        api_id(Api::NvAPI_SetRefreshRateOverride) == 0x3092ac32u32,
        api_id(Api::NvAPI_GetAssociatedDisplayOutputId) == 0xd995937eu32,
        api_id(Api::NvAPI_GetDisplayPortInfo) == 0xc64ff367u32,
        api_id(Api::NvAPI_SetDisplayPort) == 0xfa13e65au32,
        api_id(Api::NvAPI_GetHDMISupportInfo) == 0x6ae16ec3u32,
        api_id(Api::NvAPI_DISP_EnumHDMIStereoModes) == 0xd2ccf5d6u32,
        api_id(Api::NvAPI_GetInfoFrame) == 0x09734f1du32,
        api_id(Api::NvAPI_SetInfoFrame) == 0x69c6f365u32,
        api_id(Api::NvAPI_SetInfoFrameState) == 0x67efd887u32,
        api_id(Api::NvAPI_GetInfoFrameState) == 0x41511594u32,
        api_id(Api::NvAPI_Disp_InfoFrameControl) == 0x6067af3fu32,
        api_id(Api::NvAPI_Disp_ColorControl) == 0x92f9d80du32,
        api_id(Api::NvAPI_Disp_GetHdrCapabilities) == 0x84f2a8dfu32,
        api_id(Api::NvAPI_Disp_HdrColorControl) == 0x351da224u32,
        api_id(Api::NvAPI_DISP_GetVirtualModeData) == 0x3230d69au32,
        api_id(Api::NvAPI_DISP_OverrideDisplayModeList) == 0x0291bff2u32,
        api_id(Api::NvAPI_GetDisplayDriverMemoryInfo) == 0x774aa982u32,
        api_id(Api::NvAPI_GetDriverMemoryInfo) == 0x2dc95125u32,
        api_id(Api::NvAPI_GetDVCInfo) == 0x4085de45u32,
        api_id(Api::NvAPI_SetDVCLevel) == 0x172409b4u32,
        api_id(Api::NvAPI_GetDVCInfoEx) == 0x0e45002du32,
        api_id(Api::NvAPI_SetDVCLevelEx) == 0x4a82c2b1u32,
        api_id(Api::NvAPI_GetHUEInfo) == 0x95b64341u32,
        api_id(Api::NvAPI_SetHUEAngle) == 0xf5a0f22cu32,
        api_id(Api::NvAPI_GetImageSharpeningInfo) == 0x9fb063dfu32,
        api_id(Api::NvAPI_SetImageSharpeningLevel) == 0x3fc9a59cu32,
{
}

/// The interface ids of the driver's listing, from `NvAPI_D3D_GetCurrentSLIState` to `NvAPI_D3D9_CreateVideo`:
/// each API is queried under the id the listing gives it.
pub proof fn lemma_api_listing_ids_1()
    ensures
        api_id(Api::NvAPI_D3D_GetCurrentSLIState) == 0x4b708b54u32,
        api_id(Api::NvAPI_D3D9_RegisterResource) == 0xa064bdfcu32,
        api_id(Api::NvAPI_D3D9_UnregisterResource) == 0xbb2b17aau32,
        api_id(Api::NvAPI_D3D9_AliasSurfaceAsTexture) == 0xe5ceae41u32,
        api_id(Api::NvAPI_D3D9_StretchRectEx) == 0x22de03aau32,
        api_id(Api::NvAPI_D3D9_ClearRT) == 0x332d3942u32,
        api_id(Api::NvAPI_D3D_CreateQuery) == 0x5d19bca4u32,
        api_id(Api::NvAPI_D3D_DestroyQuery) == 0xc8ff7258u32,
        api_id(Api::NvAPI_D3D_Query_Begin) == 0xe5a9aae0u32,
        api_id(Api::NvAPI_D3D_Query_End) == 0x2ac084fau32,
        api_id(Api::NvAPI_D3D_Query_GetData) == 0xf8b53c69u32,
        api_id(Api::NvAPI_D3D_Query_GetDataSize) == 0xf2a54796u32,
        api_id(Api::NvAPI_D3D_Query_GetType) == 0x4aceeaf7u32,
        api_id(Api::NvAPI_D3D_RegisterApp) == 0xd44d3c4eu32,
        api_id(Api::NvAPI_D3D9_CreatePathContextNV) == 0xa342f682u32,
        api_id(Api::NvAPI_D3D9_DestroyPathContextNV) == 0x667c2929u32,
        api_id(Api::NvAPI_D3D9_CreatePathNV) == 0x71329df3u32,
        api_id(Api::NvAPI_D3D9_DeletePathNV) == 0x73e0019au32,
        api_id(Api::NvAPI_D3D9_PathVerticesNV) == 0xc23df926u32,
        api_id(Api::NvAPI_D3D9_PathParameterfNV) == 0xf7ff00c1u32,
        api_id(Api::NvAPI_D3D9_PathParameteriNV) == 0xfc31236cu32,
        api_id(Api::NvAPI_D3D9_PathMatrixNV) == 0xd2f6c499u32,
        api_id(Api::NvAPI_D3D9_PathDepthNV) == 0xfcb16330u32,
        api_id(Api::NvAPI_D3D9_PathClearDepthNV) == 0x157e45c4u32,
        api_id(Api::NvAPI_D3D9_PathEnableDepthTestNV) == 0xe99ba7f3u32,
        api_id(Api::NvAPI_D3D9_PathEnableColorWriteNV) == 0x3e2804a2u32,
        api_id(Api::NvAPI_D3D9_DrawPathNV) == 0x13199b3du32,
        api_id(Api::NvAPI_D3D9_GetSurfaceHandle) == 0x0f2dd3f2u32,
        api_id(Api::NvAPI_D3D9_GetOverlaySurfaceHandles) == 0x6800f5fcu32,
        api_id(Api::NvAPI_D3D9_GetTextureHandle) == 0xc7985ed5u32,
        api_id(Api::NvAPI_D3D9_GpuSyncGetHandleSize) == 0x80c9fd3bu32,
        api_id(Api::NvAPI_D3D9_GpuSyncInit) == 0x6d6fdad4u32,
        api_id(Api::NvAPI_D3D9_GpuSyncEnd) == 0x754033f0u32,
        api_id(Api::NvAPI_D3D9_GpuSyncMapTexBuffer) == 0xcde4a28au32,
        api_id(Api::NvAPI_D3D9_GpuSyncMapSurfaceBuffer) == 0x2ab714abu32,
        api_id(Api::NvAPI_D3D9_GpuSyncMapVertexBuffer) == 0xdbc803ecu32,
        api_id(Api::NvAPI_D3D9_GpuSyncMapIndexBuffer) == 0x12ee68f2u32,
        api_id(Api::NvAPI_D3D9_SetPitchSurfaceCreation) == 0x18cdf365u32,
        api_id(Api::NvAPI_D3D9_GpuSyncAcquire) == 0xd00b8317u32,
        api_id(Api::NvAPI_D3D9_GpuSyncRelease) == 0x3d7a86bbu32,
        api_id(Api::NvAPI_D3D9_GetCurrentRenderTargetHandle) == 0x022cad61u32,
        api_id(Api::NvAPI_D3D9_GetCurrentZBufferHandle) == 0xb380f218u32,
        api_id(Api::NvAPI_D3D9_GetIndexBufferHandle) == 0xfc5a155bu32,
        api_id(Api::NvAPI_D3D9_GetVertexBufferHandle) == 0x72b19155u32,
        api_id(Api::NvAPI_D3D9_CreateTexture) == 0xd5e13573u32,
        api_id(Api::NvAPI_D3D9_AliasPrimaryAsTexture) == 0x13c7112eu32,
        api_id(Api::NvAPI_D3D9_PresentSurfaceToDesktop) == 0x0f7029c5u32,
        api_id(Api::NvAPI_D3D9_CreateVideoBegin) == 0x84c9d553u32,
        api_id(Api::NvAPI_D3D9_CreateVideoEnd) == 0xb476bf61u32,
        api_id(Api::NvAPI_D3D9_CreateVideo) == 0x89ffd9a3u32,
{
}

/// The interface ids of the driver's listing, from `NvAPI_D3D9_FreeVideo` to `NvAPI_D3D11_BeginUAVOverlap`:
/// each API is queried under the id the listing gives it.
pub proof fn lemma_api_listing_ids_2()
    ensures
        api_id(Api::NvAPI_D3D9_FreeVideo) == 0x3111bed1u32,
        api_id(Api::NvAPI_D3D9_PresentVideo) == 0x5cf7f862u32,
        api_id(Api::NvAPI_D3D9_VideoSetStereoInfo) == 0xb852f4dbu32,
        api_id(Api::NvAPI_D3D9_SetGamutData) == 0x2bbda32eu32,
        api_id(Api::NvAPI_D3D9_SetSurfaceCreationLayout) == 0x5609b86au32,
        api_id(Api::NvAPI_D3D9_GetVideoCapabilities) == 0x3d596b93u32,
        api_id(Api::NvAPI_D3D9_QueryVideoInfo) == 0x1e6634b3u32,
        api_id(Api::NvAPI_D3D9_AliasPrimaryFromDevice) == 0x7c20c5beu32,
        api_id(Api::NvAPI_D3D9_SetResourceHint) == 0x905f5c27u32,
        api_id(Api::NvAPI_D3D9_Lock) == 0x6317345cu32,
        api_id(Api::NvAPI_D3D9_Unlock) == 0xc182027eu32,
        api_id(Api::NvAPI_D3D9_GetVideoState) == 0xa4527bf8u32,
        api_id(Api::NvAPI_D3D9_SetVideoState) == 0xbd4bc56fu32,
        api_id(Api::NvAPI_D3D9_EnumVideoFeatures) == 0x1db7c52cu32,
        api_id(Api::NvAPI_D3D9_GetSLIInfo) == 0x694bff4du32,
        api_id(Api::NvAPI_D3D9_SetSLIMode) == 0xbfdc062cu32,
        api_id(Api::NvAPI_D3D9_QueryAAOverrideMode) == 0xddf5643cu32,
        api_id(Api::NvAPI_D3D9_VideoSurfaceEncryptionControl) == 0x9d2509efu32,
        api_id(Api::NvAPI_D3D9_DMA) == 0x962b8af6u32,
        api_id(Api::NvAPI_D3D9_EnableStereo) == 0x492a6954u32,
        api_id(Api::NvAPI_D3D9_StretchRect) == 0xaeaecd41u32,
        api_id(Api::NvAPI_D3D9_CreateRenderTarget) == 0x0b3827c8u32,
        api_id(Api::NvAPI_D3D9_NVFBC_GetStatus) == 0xbd3eb475u32,
        api_id(Api::NvAPI_D3D9_IFR_SetUpTargetBufferToSys) == 0x55255d05u32,
        api_id(Api::NvAPI_D3D9_GPUBasedCPUSleep) == 0xd504dda7u32,
        api_id(Api::NvAPI_D3D9_IFR_TransferRenderTarget) == 0x0ab7c2dcu32,
        api_id(Api::NvAPI_D3D9_IFR_SetUpTargetBufferToNV12BLVideoSurface) == 0xcfc92c15u32,
        api_id(Api::NvAPI_D3D9_IFR_TransferRenderTargetToNV12BLVideoSurface) == 0x5fe72f64u32,
        api_id(Api::NvAPI_D3D10_AliasPrimaryAsTexture) == 0x8aac133du32,
        api_id(Api::NvAPI_D3D10_SetPrimaryFlipChainCallbacks) == 0x73eb9329u32,
        api_id(Api::NvAPI_D3D10_ProcessCallbacks) == 0xae9c2019u32,
        api_id(Api::NvAPI_D3D10_GetRenderedCursorAsBitmap) == 0xcac3ce5du32,
        api_id(Api::NvAPI_D3D10_BeginShareResource) == 0x35233210u32,
        api_id(Api::NvAPI_D3D10_BeginShareResourceEx) == 0xef303a9du32,
        api_id(Api::NvAPI_D3D10_EndShareResource) == 0x0e9c5853u32,
        api_id(Api::NvAPI_D3D10_SetDepthBoundsTest) == 0x4eadf5d2u32,
        api_id(Api::NvAPI_D3D10_CreateDevice) == 0x2de11d61u32,
        api_id(Api::NvAPI_D3D10_CreateDeviceAndSwapChain) == 0x5b803dafu32,
        api_id(Api::NvAPI_D3D11_CreateDevice) == 0x6a16d3a0u32,
        api_id(Api::NvAPI_D3D11_CreateDeviceAndSwapChain) == 0xbb939ee5u32,
        api_id(Api::NvAPI_D3D11_BeginShareResource) == 0x0121bdc6u32,
        api_id(Api::NvAPI_D3D11_EndShareResource) == 0x8ffb8e26u32,
        api_id(Api::NvAPI_D3D11_SetDepthBoundsTest) == 0x7aaf7a04u32,
        api_id(Api::NvAPI_D3D11_IsNvShaderExtnOpCodeSupported) == 0x5f68da40u32,
        api_id(Api::NvAPI_D3D11_SetNvShaderExtnSlot) == 0x8e90bb9fu32,
        api_id(Api::NvAPI_D3D12_SetNvShaderExtnSlotSpace) == 0xac2dfeb5u32,
        api_id(Api::NvAPI_D3D12_SetNvShaderExtnSlotSpaceLocalThread) == 0x43d867c0u32,
        api_id(Api::NvAPI_D3D11_SetNvShaderExtnSlotLocalThread) == 0x0e6482a0u32,
        api_id(Api::NvAPI_D3D11_BeginUAVOverlapEx) == 0xba08208au32,
        api_id(Api::NvAPI_D3D11_BeginUAVOverlap) == 0x65b93ca8u32,
{
}

/// The interface ids of the driver's listing, from `NvAPI_D3D11_EndUAVOverlap` to `NvAPI_GPU_SetPerfClocks`:
/// each API is queried under the id the listing gives it.
pub proof fn lemma_api_listing_ids_3()
    ensures
        api_id(Api::NvAPI_D3D11_EndUAVOverlap) == 0x2216a357u32,
        api_id(Api::NvAPI_D3D11_GetResourceHandle) == 0x09d52986u32,
        api_id(Api::NvAPI_GPU_GetShaderPipeCount) == 0x63e2f56fu32,
        api_id(Api::NvAPI_GPU_GetShaderSubPipeCount) == 0x0be17923u32,
        api_id(Api::NvAPI_GPU_GetPartitionCount) == 0x86f05d7au32,
        api_id(Api::NvAPI_GPU_GetMemPartitionMask) == 0x329d77cdu32,
        api_id(Api::NvAPI_GPU_GetTPCMask) == 0x4a35df54u32,
        api_id(Api::NvAPI_GPU_GetSMMask) == 0xeb7af173u32,
        api_id(Api::NvAPI_GPU_GetTotalTPCCount) == 0x4e2f76a8u32,
        api_id(Api::NvAPI_GPU_GetTotalSMCount) == 0xae5fbcfeu32,
        api_id(Api::NvAPI_GPU_GetTotalSPCount) == 0xb6d62591u32,
        api_id(Api::NvAPI_GPU_GetGpuCoreCount) == 0xc7026a87u32,
        api_id(Api::NvAPI_GPU_GetAllOutputs) == 0x7d554f8eu32,
        api_id(Api::NvAPI_GPU_GetConnectedOutputs) == 0x1730bfc9u32,
        api_id(Api::NvAPI_GPU_GetConnectedSLIOutputs) == 0x0680de09u32,
        api_id(Api::NvAPI_GPU_GetConnectedDisplayIds) == 0x0078dba2u32,
        api_id(Api::NvAPI_GPU_GetAllDisplayIds) == 0x785210a2u32,
        api_id(Api::NvAPI_GPU_GetConnectedOutputsWithLidState) == 0xcf8caf39u32,
        api_id(Api::NvAPI_GPU_GetConnectedSLIOutputsWithLidState) == 0x96043cc7u32,
        api_id(Api::NvAPI_GPU_GetSystemType) == 0xbaaabfccu32,
        api_id(Api::NvAPI_GPU_GetActiveOutputs) == 0xe3e89b6fu32,
        api_id(Api::NvAPI_GPU_GetEDID) == 0x37d32e69u32,
        api_id(Api::NvAPI_GPU_SetEDID) == 0xe83d6456u32,
        api_id(Api::NvAPI_GPU_GetOutputType) == 0x40a505e4u32,
        api_id(Api::NvAPI_GPU_GetDeviceDisplayMode) == 0xd2277e3au32,
        api_id(Api::NvAPI_GPU_GetFlatPanelInfo) == 0x36cff969u32,
        api_id(Api::NvAPI_GPU_ValidateOutputCombination) == 0x34c9c2d4u32,
        api_id(Api::NvAPI_GPU_GetConnectorInfo) == 0x4eca2c10u32,
        api_id(Api::NvAPI_GPU_GetFullName) == 0xceee8e9fu32,
        api_id(Api::NvAPI_GPU_GetPCIIdentifiers) == 0x2ddfb66eu32,
        api_id(Api::NvAPI_GPU_GetGPUType) == 0xc33baeb1u32,
        api_id(Api::NvAPI_GPU_GetBusType) == 0x1bb18724u32,
        api_id(Api::NvAPI_GPU_GetBusId) == 0x1be0b8e5u32,
        api_id(Api::NvAPI_GPU_GetBusSlotId) == 0x2a0a350fu32,
        api_id(Api::NvAPI_GPU_GetIRQ) == 0xe4715417u32,
        api_id(Api::NvAPI_GPU_GetVbiosRevision) == 0xacc3da0au32,
        api_id(Api::NvAPI_GPU_GetVbiosOEMRevision) == 0x2d43fb31u32,
        api_id(Api::NvAPI_GPU_GetVbiosVersionString) == 0xa561fd7du32,
        api_id(Api::NvAPI_GPU_GetAGPAperture) == 0x6e042794u32,
        api_id(Api::NvAPI_GPU_GetCurrentAGPRate) == 0xc74925a0u32,
        api_id(Api::NvAPI_GPU_GetCurrentPCIEDownstreamWidth) == 0xd048c3b1u32,
        api_id(Api::NvAPI_GPU_GetPhysicalFrameBufferSize) == 0x46fbeb03u32,
        api_id(Api::NvAPI_GPU_GetVirtualFrameBufferSize) == 0x5a04b644u32,
        api_id(Api::NvAPI_GPU_GetQuadroStatus) == 0xe332fa47u32,
        api_id(Api::NvAPI_GPU_GetBoardInfo) == 0x22d54523u32,
        api_id(Api::NvAPI_GPU_GetRamType) == 0x57f7caacu32,
        api_id(Api::NvAPI_GPU_GetFBWidthAndLocation) == 0x11104158u32,
        api_id(Api::NvAPI_GPU_GetAllClockFrequencies) == 0xdcb616c3u32,
        api_id(Api::NvAPI_GPU_GetPerfClocks) == 0x1ea54a3bu32,
        api_id(Api::NvAPI_GPU_SetPerfClocks) == 0x07bcf4acu32,
{
}

/// The interface ids of the driver's listing, from `NvAPI_GPU_GetCoolerSettings` to `NvAPI_GPU_WorkstationFeatureQuery`:
/// each API is queried under the id the listing gives it.
pub proof fn lemma_api_listing_ids_4()
    ensures
        api_id(Api::NvAPI_GPU_GetCoolerSettings) == 0xda141340u32,
        api_id(Api::NvAPI_GPU_SetCoolerLevels) == 0x891fa0aeu32,
        api_id(Api::NvAPI_GPU_RestoreCoolerSettings) == 0x8f6ed0fbu32,
        api_id(Api::NvAPI_GPU_GetCoolerPolicyTable) == 0x0518a32cu32,
        api_id(Api::NvAPI_GPU_SetCoolerPolicyTable) == 0x987947cdu32,
        api_id(Api::NvAPI_GPU_RestoreCoolerPolicyTable) == 0xd8c4fe63u32,
        api_id(Api::NvAPI_GPU_GetPstatesInfo) == 0xba94c56eu32,
        api_id(Api::NvAPI_GPU_GetPstatesInfoEx) == 0x843c0256u32,
        api_id(Api::NvAPI_GPU_SetPstatesInfo) == 0xcdf27911u32,
        api_id(Api::NvAPI_GPU_GetPstates20) == 0x6ff81213u32,
        api_id(Api::NvAPI_GPU_SetPstates20) == 0x0f4dae6bu32,
        api_id(Api::NvAPI_GPU_GetCurrentPstate) == 0x927da4f6u32,
        api_id(Api::NvAPI_GPU_GetPstateClientLimits) == 0x88c82104u32,
        api_id(Api::NvAPI_GPU_SetPstateClientLimits) == 0xfdfc7d49u32,
        api_id(Api::NvAPI_GPU_EnableOverclockedPstates) == 0xb23b70eeu32,
        api_id(Api::NvAPI_GPU_EnableDynamicPstates) == 0xfa579a0fu32,
        api_id(Api::NvAPI_GPU_GetDynamicPstatesInfoEx) == 0x60ded2edu32,
        api_id(Api::NvAPI_GPU_GetVoltages) == 0x7d656244u32,
        api_id(Api::NvAPI_GPU_GetThermalSettings) == 0xe3640a56u32,
        api_id(Api::NvAPI_GPU_SetDitherControl) == 0xdf0dfcddu32,
        api_id(Api::NvAPI_GPU_GetDitherControl) == 0x932ac8fbu32,
        api_id(Api::NvAPI_GPU_GetColorSpaceConversion) == 0x8159e87au32,
        api_id(Api::NvAPI_GPU_SetColorSpaceConversion) == 0xfcabd23au32,
        api_id(Api::NvAPI_GetTVOutputInfo) == 0x30c805d5u32,
        api_id(Api::NvAPI_GetTVEncoderControls) == 0x5757474au32,
        api_id(Api::NvAPI_SetTVEncoderControls) == 0xca36a3abu32,
        api_id(Api::NvAPI_GetTVOutputBorderColor) == 0x6dfd1c8cu32,
        api_id(Api::NvAPI_SetTVOutputBorderColor) == 0xaed02700u32,
        api_id(Api::NvAPI_GetDisplayPosition) == 0x6bb1ee5du32,
        api_id(Api::NvAPI_SetDisplayPosition) == 0x57d9060fu32,
        api_id(Api::NvAPI_GetValidGpuTopologies) == 0x5dfab48au32,
        api_id(Api::NvAPI_GetInvalidGpuTopologies) == 0x15658be6u32,
        api_id(Api::NvAPI_SetGpuTopologies) == 0x25201f3du32,
        api_id(Api::NvAPI_GPU_GetPerGpuTopologyStatus) == 0xa81f8992u32,
        api_id(Api::NvAPI_SYS_GetChipSetTopologyStatus) == 0x8a50f126u32,
        api_id(Api::NvAPI_GPU_Get_DisplayPort_DongleInfo) == 0x76a70e8du32,
        api_id(Api::NvAPI_I2CRead) == 0x2fde12c5u32,
        api_id(Api::NvAPI_I2CWrite) == 0xe812eb07u32,
        api_id(Api::NvAPI_I2CWriteEx) == 0x283ac65au32,
        api_id(Api::NvAPI_I2CReadEx) == 0x4d7b0709u32,
        api_id(Api::NvAPI_GPU_GetPowerMizerInfo) == 0x76bfa16bu32,
        api_id(Api::NvAPI_GPU_SetPowerMizerInfo) == 0x50016c78u32,
        api_id(Api::NvAPI_GPU_GetVoltageDomainsStatus) == 0xc16c7e2cu32,
        api_id(Api::NvAPI_GPU_ClientPowerTopologyGetInfo) == 0xa4dfd3f2u32,
        api_id(Api::NvAPI_GPU_ClientPowerTopologyGetStatus) == 0xedcf624eu32,
        api_id(Api::NvAPI_GPU_ClientPowerPoliciesGetInfo) == 0x34206d86u32,
        api_id(Api::NvAPI_GPU_ClientPowerPoliciesGetStatus) == 0x70916171u32,
        api_id(Api::NvAPI_GPU_ClientPowerPoliciesSetStatus) == 0xad95f5edu32,
        api_id(Api::NvAPI_GPU_WorkstationFeatureSetup) == 0x6c1f3fe4u32,
        api_id(Api::NvAPI_GPU_WorkstationFeatureQuery) == 0x004537dfu32,
{
}

/// The interface ids of the driver's listing, from `NvAPI_GPU_QueryWorkstationFeatureSupport` to `NvAPI_SetPVExtProfile`:
/// each API is queried under the id the listing gives it.
pub proof fn lemma_api_listing_ids_5()
    ensures
        api_id(Api::NvAPI_GPU_QueryWorkstationFeatureSupport) == 0x80b1abb9u32,
        api_id(Api::NvAPI_SYS_GetChipSetInfo) == 0x53dabbcau32,
        api_id(Api::NvAPI_SYS_GetLidAndDockInfo) == 0xcda14d8au32,
        api_id(Api::NvAPI_OGL_ExpertModeSet) == 0x3805ef7au32,
        api_id(Api::NvAPI_OGL_ExpertModeGet) == 0x22ed9516u32,
        api_id(Api::NvAPI_OGL_ExpertModeDefaultsSet) == 0xb47a657eu32,
        api_id(Api::NvAPI_OGL_ExpertModeDefaultsGet) == 0xae921f12u32,
        api_id(Api::NvAPI_SetDisplaySettings) == 0xe04f3d86u32,
        api_id(Api::NvAPI_GetDisplaySettings) == 0xdc27d5d4u32,
        api_id(Api::NvAPI_GetTiming) == 0xafc4833eu32,
        api_id(Api::NvAPI_DISP_GetTiming) == 0x175167e9u32,
        api_id(Api::NvAPI_DISP_GetMonitorCapabilities) == 0x3b05c7e1u32,
        api_id(Api::NvAPI_DISP_GetMonitorColorCapabilities) == 0x6ae4cfb5u32,
        api_id(Api::NvAPI_DISP_EnumCustomDisplay) == 0xa2072d59u32,
        api_id(Api::NvAPI_DISP_TryCustomDisplay) == 0x1f7db630u32,
        api_id(Api::NvAPI_DISP_DeleteCustomDisplay) == 0x552e5b9bu32,
        api_id(Api::NvAPI_DISP_SaveCustomDisplay) == 0x49882876u32,
        api_id(Api::NvAPI_DISP_RevertCustomDisplayTrial) == 0xcbbd40f0u32,
        api_id(Api::NvAPI_EnumCustomDisplay) == 0x42892957u32,
        api_id(Api::NvAPI_TryCustomDisplay) == 0xbf6c1762u32,
        api_id(Api::NvAPI_RevertCustomDisplayTrial) == 0x854ba405u32,
        api_id(Api::NvAPI_DeleteCustomDisplay) == 0xe7cb998du32,
        api_id(Api::NvAPI_SaveCustomDisplay) == 0xa9062c78u32,
        api_id(Api::NvAPI_QueryUnderscanCap) == 0x61d7b624u32,
        api_id(Api::NvAPI_EnumUnderscanConfig) == 0x4144111au32,
        api_id(Api::NvAPI_DeleteUnderscanConfig) == 0xf98854c8u32,
        api_id(Api::NvAPI_SetUnderscanConfig) == 0x3efada1du32,
        api_id(Api::NvAPI_GetDisplayFeatureConfig) == 0x8e985ccdu32,
        api_id(Api::NvAPI_SetDisplayFeatureConfig) == 0xf36a668du32,
        api_id(Api::NvAPI_GetDisplayFeatureConfigDefaults) == 0x0f5f4d01u32,
        api_id(Api::NvAPI_SetView) == 0x0957d7b6u32,
        api_id(Api::NvAPI_GetView) == 0xd6b99d89u32,
        api_id(Api::NvAPI_SetViewEx) == 0x06b89e68u32,
        api_id(Api::NvAPI_GetViewEx) == 0xdbbc0af4u32,
        api_id(Api::NvAPI_GetSupportedViews) == 0x66fb7fc0u32,
        api_id(Api::NvAPI_GetHDCPLinkParameters) == 0xb3bb0772u32,
        api_id(Api::NvAPI_Disp_DpAuxChannelControl) == 0x8eb56969u32,
        api_id(Api::NvAPI_SetHybridMode) == 0xfb22d656u32,
        api_id(Api::NvAPI_GetHybridMode) == 0xe23b68c1u32,
        api_id(Api::NvAPI_Coproc_GetCoprocStatus) == 0x1efc3957u32,
        api_id(Api::NvAPI_Coproc_SetCoprocInfoFlagsEx) == 0xf4c863acu32,
        api_id(Api::NvAPI_Coproc_GetCoprocInfoFlagsEx) == 0x69a9874du32,
        api_id(Api::NvAPI_Coproc_NotifyCoprocPowerState) == 0xcadcb956u32,
        api_id(Api::NvAPI_Coproc_GetApplicationCoprocInfo) == 0x79232685u32,
        api_id(Api::NvAPI_GetVideoState) == 0x1c5659cdu32,
        api_id(Api::NvAPI_SetVideoState) == 0x054fe75au32,
        api_id(Api::NvAPI_SetFrameRateNotify) == 0x18919887u32,
        api_id(Api::NvAPI_SetPVExtName) == 0x4feeb498u32,
        api_id(Api::NvAPI_GetPVExtName) == 0x2f5b08e0u32,
        api_id(Api::NvAPI_SetPVExtProfile) == 0x8354a8f4u32,
{
}

/// The interface ids of the driver's listing, from `NvAPI_GetPVExtProfile` to `NvAPI_Stereo_Enable`:
/// each API is queried under the id the listing gives it.
pub proof fn lemma_api_listing_ids_6()
    ensures
        api_id(Api::NvAPI_GetPVExtProfile) == 0x1b1b9a16u32,
        api_id(Api::NvAPI_VideoSetStereoInfo) == 0x97063269u32,
        api_id(Api::NvAPI_VideoGetStereoInfo) == 0x8e1f8cfeu32,
        api_id(Api::NvAPI_Mosaic_GetSupportedTopoInfo) == 0xfdb63c81u32,
        api_id(Api::NvAPI_Mosaic_GetTopoGroup) == 0xcb89381du32,
        api_id(Api::NvAPI_Mosaic_GetOverlapLimits) == 0x989685f0u32,
        api_id(Api::NvAPI_Mosaic_SetCurrentTopo) == 0x9b542831u32,
        api_id(Api::NvAPI_Mosaic_GetCurrentTopo) == 0xec32944eu32,
        api_id(Api::NvAPI_Mosaic_EnableCurrentTopo) == 0x5f1aa66cu32,
        api_id(Api::NvAPI_Mosaic_SetGridTopology) == 0x3f113c77u32,
        api_id(Api::NvAPI_Mosaic_GetMosaicCapabilities) == 0xda97071eu32,
        api_id(Api::NvAPI_Mosaic_GetDisplayCapabilities) == 0xd58026b9u32,
        api_id(Api::NvAPI_Mosaic_EnumGridTopologies) == 0xa3c55220u32,
        api_id(Api::NvAPI_Mosaic_GetDisplayViewportsByResolution) == 0xdc6dc8d3u32,
        api_id(Api::NvAPI_Mosaic_GetMosaicViewports) == 0x07eba036u32,
        api_id(Api::NvAPI_Mosaic_SetDisplayGrids) == 0x4d959a89u32,
        api_id(Api::NvAPI_Mosaic_ValidateDisplayGridsWithSLI) == 0x1ecfd263u32,
        api_id(Api::NvAPI_Mosaic_ValidateDisplayGrids) == 0xcf43903du32,
        api_id(Api::NvAPI_Mosaic_EnumDisplayModes) == 0x78db97d7u32,
        api_id(Api::NvAPI_Mosaic_ChooseGpuTopologies) == 0xb033b140u32,
        api_id(Api::NvAPI_Mosaic_EnumDisplayGrids) == 0xdf2887afu32,
        api_id(Api::NvAPI_GetSupportedMosaicTopologies) == 0x410b5c25u32,
        api_id(Api::NvAPI_GetCurrentMosaicTopology) == 0xf60852bdu32,
        api_id(Api::NvAPI_SetCurrentMosaicTopology) == 0xd54b8989u32,
        api_id(Api::NvAPI_EnableCurrentMosaicTopology) == 0x74073cc9u32,
        api_id(Api::NvAPI_GSync_EnumSyncDevices) == 0xd9639601u32,
        api_id(Api::NvAPI_GSync_QueryCapabilities) == 0x44a3f1d1u32,
        api_id(Api::NvAPI_GSync_GetTopology) == 0x4562bc38u32,
        api_id(Api::NvAPI_GSync_SetSyncStateSettings) == 0x60acdfddu32,
        api_id(Api::NvAPI_GSync_GetControlParameters) == 0x16de1c6au32,
        api_id(Api::NvAPI_GSync_SetControlParameters) == 0x8bbff88bu32,
        api_id(Api::NvAPI_GSync_AdjustSyncDelay) == 0x2d11ff51u32,
        api_id(Api::NvAPI_GSync_GetSyncStatus) == 0xf1f5b434u32,
        api_id(Api::NvAPI_GSync_GetStatusParameters) == 0x70d404ecu32,
        api_id(Api::NvAPI_QueryNonMigratableApps) == 0xbb9ef1c3u32,
        api_id(Api::NvAPI_GPU_QueryActiveApps) == 0x65b1c5f5u32,
        api_id(Api::NvAPI_Hybrid_QueryUnblockedNonMigratableApps) == 0x5f35bcb5u32,
        api_id(Api::NvAPI_Hybrid_QueryBlockedMigratableApps) == 0xf4c2f8ccu32,
        api_id(Api::NvAPI_Hybrid_SetAppMigrationState) == 0xfa0b9a59u32,
        api_id(Api::NvAPI_Hybrid_IsAppMigrationStateChangeable) == 0x584cb0b6u32,
        api_id(Api::NvAPI_GPU_GPIOQueryLegalPins) == 0xfab69565u32,
        api_id(Api::NvAPI_GPU_GPIOReadFromPin) == 0xf5e10439u32,
        api_id(Api::NvAPI_GPU_GPIOWriteToPin) == 0xf3b11e68u32,
        api_id(Api::NvAPI_GPU_GetHDCPSupportStatus) == 0xf089eef5u32,
        api_id(Api::NvAPI_SetTopologyFocusDisplayAndView) == 0x0a8064f9u32,
        api_id(Api::NvAPI_Stereo_CreateConfigurationProfileRegistryKey) == 0xbe7692ecu32,
        api_id(Api::NvAPI_Stereo_DeleteConfigurationProfileRegistryKey) == 0xf117b834u32,
        api_id(Api::NvAPI_Stereo_SetConfigurationProfileValue) == 0x24409f48u32,
        api_id(Api::NvAPI_Stereo_DeleteConfigurationProfileValue) == 0x49bceecfu32,
        api_id(Api::NvAPI_Stereo_Enable) == 0x239c4545u32,
{
}

/// The interface ids of the driver's listing, from `NvAPI_Stereo_Disable` to `NvAPI_Stereo_GetDefaultProfile`:
/// each API is queried under the id the listing gives it.
pub proof fn lemma_api_listing_ids_7()
    ensures
        api_id(Api::NvAPI_Stereo_Disable) == 0x2ec50c2bu32,
        api_id(Api::NvAPI_Stereo_IsEnabled) == 0x348ff8e1u32,
        api_id(Api::NvAPI_Stereo_GetStereoCaps) == 0xdfc063b7u32,
        api_id(Api::NvAPI_Stereo_GetStereoSupport) == 0x296c434du32,
        api_id(Api::NvAPI_Stereo_CreateHandleFromIUnknown) == 0xac7e37f4u32,
        api_id(Api::NvAPI_Stereo_DestroyHandle) == 0x3a153134u32,
        api_id(Api::NvAPI_Stereo_Activate) == 0xf6a1ad68u32,
        api_id(Api::NvAPI_Stereo_Deactivate) == 0x2d68de96u32,
        api_id(Api::NvAPI_Stereo_IsActivated) == 0x1fb0bc30u32,
        api_id(Api::NvAPI_Stereo_GetSeparation) == 0x451f2134u32,
        api_id(Api::NvAPI_Stereo_SetSeparation) == 0x5c069fa3u32,
        api_id(Api::NvAPI_Stereo_DecreaseSeparation) == 0xda044458u32,
        api_id(Api::NvAPI_Stereo_IncreaseSeparation) == 0xc9a8ececu32,
        api_id(Api::NvAPI_Stereo_GetConvergence) == 0x4ab00934u32,
        api_id(Api::NvAPI_Stereo_SetConvergence) == 0x3dd6b54bu32,
        api_id(Api::NvAPI_Stereo_DecreaseConvergence) == 0x4c87e317u32,
        api_id(Api::NvAPI_Stereo_IncreaseConvergence) == 0xa17daabeu32,
        api_id(Api::NvAPI_Stereo_GetFrustumAdjustMode) == 0xe6839b43u32,
        api_id(Api::NvAPI_Stereo_SetFrustumAdjustMode) == 0x7be27fa2u32,
        api_id(Api::NvAPI_Stereo_CaptureJpegImage) == 0x932cb140u32,
        api_id(Api::NvAPI_Stereo_InitActivation) == 0xc7177702u32,
        api_id(Api::NvAPI_Stereo_Trigger_Activation) == 0x0d6c6cd2u32,
        api_id(Api::NvAPI_Stereo_CapturePngImage) == 0x8b7e99b5u32,
        api_id(Api::NvAPI_Stereo_ReverseStereoBlitControl) == 0x3cd58f89u32,
        api_id(Api::NvAPI_Stereo_SetNotificationMessage) == 0x6b9b409eu32,
        api_id(Api::NvAPI_Stereo_SetActiveEye) == 0x96eea9f8u32,
        api_id(Api::NvAPI_Stereo_SetDriverMode) == 0x5e8f0becu32,
        api_id(Api::NvAPI_Stereo_GetEyeSeparation) == 0xce653127u32,
        api_id(Api::NvAPI_Stereo_IsWindowedModeSupported) == 0x40c8ed5eu32,
        api_id(Api::NvAPI_Stereo_AppHandShake) == 0x8c610bdau32,
        api_id(Api::NvAPI_Stereo_HandShake_Trigger_Activation) == 0xb30cd1a7u32,
        api_id(Api::NvAPI_Stereo_HandShake_Message_Control) == 0x315e0ef0u32,
        api_id(Api::NvAPI_Stereo_SetSurfaceCreationMode) == 0xf5dcfcbau32,
        api_id(Api::NvAPI_Stereo_GetSurfaceCreationMode) == 0x36f1c736u32,
        api_id(Api::NvAPI_Stereo_Debug_WasLastDrawStereoized) == 0xed4416c5u32,
        api_id(Api::NvAPI_Stereo_ForceToScreenDepth) == 0x2d495758u32,
        api_id(Api::NvAPI_Stereo_SetVertexShaderConstantF) == 0x416c07b3u32,
        api_id(Api::NvAPI_Stereo_SetVertexShaderConstantB) == 0x5268716fu32,
        api_id(Api::NvAPI_Stereo_SetVertexShaderConstantI) == 0x7923ba0eu32,
        api_id(Api::NvAPI_Stereo_GetVertexShaderConstantF) == 0x622fdc87u32,
        api_id(Api::NvAPI_Stereo_GetVertexShaderConstantB) == 0x712baa5bu32,
        api_id(Api::NvAPI_Stereo_GetVertexShaderConstantI) == 0x5a60613au32,
        api_id(Api::NvAPI_Stereo_SetPixelShaderConstantF) == 0xa9657f32u32,
        api_id(Api::NvAPI_Stereo_SetPixelShaderConstantB) == 0xba6109eeu32,
        api_id(Api::NvAPI_Stereo_SetPixelShaderConstantI) == 0x912ac28fu32,
        api_id(Api::NvAPI_Stereo_GetPixelShaderConstantF) == 0xd4974572u32,
        api_id(Api::NvAPI_Stereo_GetPixelShaderConstantB) == 0xc79333aeu32,
        api_id(Api::NvAPI_Stereo_GetPixelShaderConstantI) == 0xecd8f8cfu32,
        api_id(Api::NvAPI_Stereo_SetDefaultProfile) == 0x44f0ecd1u32,
        api_id(Api::NvAPI_Stereo_GetDefaultProfile) == 0x624e21c2u32,
{
}

/// The interface ids of the driver's listing, from `NvAPI_Stereo_Is3DCursorSupported` to `NvAPI_DISP_SetPreferredStereoDisplay`:
/// each API is queried under the id the listing gives it.
pub proof fn lemma_api_listing_ids_8()
    ensures
        api_id(Api::NvAPI_Stereo_Is3DCursorSupported) == 0xd7c9ec09u32,
        api_id(Api::NvAPI_Stereo_GetCursorSeparation) == 0x72162b35u32,
        api_id(Api::NvAPI_Stereo_SetCursorSeparation) == 0xfbc08fc1u32,
        api_id(Api::NvAPI_VIO_GetCapabilities) == 0x1dc91303u32,
        api_id(Api::NvAPI_VIO_Open) == 0x44ee4841u32,
        api_id(Api::NvAPI_VIO_Close) == 0xd01bd237u32,
        api_id(Api::NvAPI_VIO_Status) == 0x0e6ce4f1u32,
        api_id(Api::NvAPI_VIO_SyncFormatDetect) == 0x118d48a3u32,
        api_id(Api::NvAPI_VIO_GetConfig) == 0xd34a789bu32,
        api_id(Api::NvAPI_VIO_SetConfig) == 0x0e4eec07u32,
        api_id(Api::NvAPI_VIO_SetCSC) == 0xa1ec8d74u32,
        api_id(Api::NvAPI_VIO_GetCSC) == 0x7b0d72a3u32,
        api_id(Api::NvAPI_VIO_SetGamma) == 0x964bf452u32,
        api_id(Api::NvAPI_VIO_GetGamma) == 0x51d53d06u32,
        api_id(Api::NvAPI_VIO_SetSyncDelay) == 0x2697a8d1u32,
        api_id(Api::NvAPI_VIO_GetSyncDelay) == 0x462214a9u32,
        api_id(Api::NvAPI_VIO_GetPCIInfo) == 0xb981d935u32,
        api_id(Api::NvAPI_VIO_IsRunning) == 0x96bd040eu32,
        api_id(Api::NvAPI_VIO_Start) == 0xcde8e1a3u32,
        api_id(Api::NvAPI_VIO_Stop) == 0x6ba2a5d6u32,
        api_id(Api::NvAPI_VIO_IsFrameLockModeCompatible) == 0x7bf0a94du32,
        api_id(Api::NvAPI_VIO_EnumDevices) == 0xfd7c5557u32,
        api_id(Api::NvAPI_VIO_QueryTopology) == 0x869534e2u32,
        api_id(Api::NvAPI_VIO_EnumSignalFormats) == 0xead72fe4u32,
        api_id(Api::NvAPI_VIO_EnumDataFormats) == 0x221fa8e8u32,
        api_id(Api::NvAPI_GPU_GetTachReading) == 0x5f608315u32,
        api_id(Api::NvAPI_3D_GetProperty) == 0x8061a4b1u32,
        api_id(Api::NvAPI_3D_SetProperty) == 0xc9175e8du32,
        api_id(Api::NvAPI_3D_GetPropertyRange) == 0xb85de27cu32,
        api_id(Api::NvAPI_GPS_GetPowerSteeringStatus) == 0x540ee82eu32,
        api_id(Api::NvAPI_GPS_SetPowerSteeringStatus) == 0x9723d3a2u32,
        api_id(Api::NvAPI_GPS_SetVPStateCap) == 0x68888eb4u32,
        api_id(Api::NvAPI_GPS_GetVPStateCap) == 0x71913023u32,
        api_id(Api::NvAPI_GPS_GetThermalLimit) == 0x583113edu32,
        api_id(Api::NvAPI_GPS_SetThermalLimit) == 0xc07e210fu32,
        api_id(Api::NvAPI_GPS_GetPerfSensors) == 0x271c1109u32,
        api_id(Api::NvAPI_SYS_GetDisplayIdFromGpuAndOutputId) == 0x08f2bab4u32,
        api_id(Api::NvAPI_SYS_GetGpuAndOutputIdFromDisplayId) == 0x112ba1a5u32,
        api_id(Api::NvAPI_GPU_ClientRegisterForUtilizationSampleUpdates) == 0xadeeaf67u32,
        api_id(Api::NvAPI_SYS_GetDisplayDriverInfo) == 0x721facebu32,
        api_id(Api::NvAPI_SYS_GetPhysicalGpuFromDisplayId) == 0x9ea74659u32,
        api_id(Api::NvAPI_DISP_GetDisplayIdByDisplayName) == 0xae457190u32,
        api_id(Api::NvAPI_DISP_GetGDIPrimaryDisplayId) == 0x1e9d8a31u32,
        api_id(Api::NvAPI_DISP_GetDisplayConfig) == 0x11abccf8u32,
        api_id(Api::NvAPI_DISP_SetDisplayConfig) == 0x5d8cf8deu32,
        api_id(Api::NvAPI_DISP_GetAdaptiveSyncData) == 0xb73d1ee9u32,
        api_id(Api::NvAPI_DISP_SetAdaptiveSyncData) == 0x3eebba1du32,
        api_id(Api::NvAPI_DISP_GetVirtualRefreshRateData) == 0x8c00429au32,
        api_id(Api::NvAPI_DISP_SetVirtualRefreshRateData) == 0x5abbe6a3u32,
        api_id(Api::NvAPI_DISP_SetPreferredStereoDisplay) == 0xc9d0e25fu32,
{
}

/// The interface ids of the driver's listing, from `NvAPI_DISP_GetPreferredStereoDisplay` to `NvAPI_DRS_GetNumProfiles`:
/// each API is queried under the id the listing gives it.
pub proof fn lemma_api_listing_ids_9()
    ensures
        api_id(Api::NvAPI_DISP_GetPreferredStereoDisplay) == 0x1f6b4666u32,
        api_id(Api::NvAPI_DISP_GetNvManagedDedicatedDisplays) == 0xdbdf0cb2u32,
        api_id(Api::NvAPI_DISP_AcquireDedicatedDisplay) == 0x47c917bau32,
        api_id(Api::NvAPI_DISP_ReleaseDedicatedDisplay) == 0x1247825fu32,
        api_id(Api::NvAPI_GPU_GetPixelClockRange) == 0x66af10b7u32,
        api_id(Api::NvAPI_GPU_SetPixelClockRange) == 0x5ac7f8e5u32,
        api_id(Api::NvAPI_GPU_GetECCStatusInfo) == 0xca1ddaf3u32,
        api_id(Api::NvAPI_GPU_GetECCErrorInfo) == 0xc71f85a6u32,
        api_id(Api::NvAPI_GPU_ResetECCErrorInfo) == 0xc02eec20u32,
        api_id(Api::NvAPI_GPU_GetECCConfigurationInfo) == 0x77a796f3u32,
        api_id(Api::NvAPI_GPU_SetECCConfiguration) == 0x1cf639d9u32,
        api_id(Api::NvAPI_D3D1x_CreateSwapChain) == 0x1bc21b66u32,
        api_id(Api::NvAPI_D3D9_CreateSwapChain) == 0x1a131e09u32,
        api_id(Api::NvAPI_D3D_SetFPSIndicatorState) == 0xa776e8dbu32,
        api_id(Api::NvAPI_D3D9_Present) == 0x05650bebu32,
        api_id(Api::NvAPI_D3D9_QueryFrameCount) == 0x9083e53au32,
        api_id(Api::NvAPI_D3D9_ResetFrameCount) == 0xfa6a0675u32,
        api_id(Api::NvAPI_D3D9_QueryMaxSwapGroup) == 0x5995410du32,
        api_id(Api::NvAPI_D3D9_QuerySwapGroup) == 0xeba4d232u32,
        api_id(Api::NvAPI_D3D9_JoinSwapGroup) == 0x7d44bb54u32,
        api_id(Api::NvAPI_D3D9_BindSwapBarrier) == 0x9c39c246u32,
        api_id(Api::NvAPI_D3D1x_Present) == 0x03b845a1u32,
        api_id(Api::NvAPI_D3D1x_QueryFrameCount) == 0x9152e055u32,
        api_id(Api::NvAPI_D3D1x_ResetFrameCount) == 0xfbbb031au32,
        api_id(Api::NvAPI_D3D1x_QueryMaxSwapGroup) == 0x9bb9d68fu32,
        api_id(Api::NvAPI_D3D1x_QuerySwapGroup) == 0x407f67aau32,
        api_id(Api::NvAPI_D3D1x_JoinSwapGroup) == 0x14610cd7u32,
        api_id(Api::NvAPI_D3D1x_BindSwapBarrier) == 0x9de8c729u32,
        api_id(Api::NvAPI_SYS_VenturaGetState) == 0xcb7c208du32,
        api_id(Api::NvAPI_SYS_VenturaSetState) == 0x0ce2e9d9u32,
        api_id(Api::NvAPI_SYS_VenturaGetCoolingBudget) == 0xc9d86e33u32,
        api_id(Api::NvAPI_SYS_VenturaSetCoolingBudget) == 0x85ff5a15u32,
        api_id(Api::NvAPI_SYS_VenturaGetPowerReading) == 0x63685979u32,
        api_id(Api::NvAPI_DISP_GetDisplayBlankingState) == 0x63e5d8dbu32,
        api_id(Api::NvAPI_DISP_SetDisplayBlankingState) == 0x1e17e29bu32,
        api_id(Api::NvAPI_DRS_CreateSession) == 0x0694d52eu32,
        api_id(Api::NvAPI_DRS_DestroySession) == 0xdad9cff8u32,
        api_id(Api::NvAPI_DRS_LoadSettings) == 0x375dbd6bu32,
        api_id(Api::NvAPI_DRS_SaveSettings) == 0xfcbc7e14u32,
        api_id(Api::NvAPI_DRS_LoadSettingsFromFile) == 0xd3ede889u32,
        api_id(Api::NvAPI_DRS_SaveSettingsToFile) == 0x2be25df8u32,
        api_id(Api::NvAPI_DRS_CreateProfile) == 0xcc176068u32,
        api_id(Api::NvAPI_DRS_DeleteProfile) == 0x17093206u32,
        api_id(Api::NvAPI_DRS_SetCurrentGlobalProfile) == 0x1c89c5dfu32,
        api_id(Api::NvAPI_DRS_GetCurrentGlobalProfile) == 0x617bff9fu32,
        api_id(Api::NvAPI_DRS_GetProfileInfo) == 0x61cd6fd6u32,
        api_id(Api::NvAPI_DRS_SetProfileInfo) == 0x16abd3a9u32,
        api_id(Api::NvAPI_DRS_FindProfileByName) == 0x7e4a9a0bu32,
        api_id(Api::NvAPI_DRS_EnumProfiles) == 0xbc371ee0u32,
        api_id(Api::NvAPI_DRS_GetNumProfiles) == 0x1dae4fbcu32,
{
}

/// The interface ids of the driver's listing, from `NvAPI_DRS_CreateApplication` to `NvAPI_GPU_GetMemoryInfoEx`:
/// each API is queried under the id the listing gives it.
pub proof fn lemma_api_listing_ids_10()
    ensures
        api_id(Api::NvAPI_DRS_CreateApplication) == 0x4347a9deu32,
        api_id(Api::NvAPI_DRS_DeleteApplicationEx) == 0xc5ea85a1u32,
        api_id(Api::NvAPI_DRS_DeleteApplication) == 0x2c694bc6u32,
        api_id(Api::NvAPI_DRS_GetApplicationInfo) == 0xed1f8c69u32,
        api_id(Api::NvAPI_DRS_EnumApplications) == 0x7fa2173au32,
        api_id(Api::NvAPI_DRS_FindApplicationByName) == 0xeee566b2u32,
        api_id(Api::NvAPI_DRS_SetSetting) == 0x577dd202u32,
        api_id(Api::NvAPI_DRS_GetSetting) == 0x73bf8338u32,
        api_id(Api::NvAPI_DRS_EnumSettings) == 0xae3039dau32,
        api_id(Api::NvAPI_DRS_EnumAvailableSettingIds) == 0xf020614au32,
        api_id(Api::NvAPI_DRS_EnumAvailableSettingValues) == 0x2ec39f90u32,
        api_id(Api::NvAPI_DRS_GetSettingIdFromName) == 0xcb7309cdu32,
        api_id(Api::NvAPI_DRS_GetSettingNameFromId) == 0xd61cbe6eu32,
        api_id(Api::NvAPI_DRS_DeleteProfileSetting) == 0xe4a26362u32,
        api_id(Api::NvAPI_DRS_RestoreAllDefaults) == 0x5927b094u32,
        api_id(Api::NvAPI_DRS_RestoreProfileDefault) == 0xfa5f6134u32,
        api_id(Api::NvAPI_DRS_RestoreProfileDefaultSetting) == 0x53f0381eu32,
        api_id(Api::NvAPI_DRS_GetBaseProfile) == 0xda8466a0u32,
        api_id(Api::NvAPI_Event_RegisterCallback) == 0xe6dbea69u32,
        api_id(Api::NvAPI_Event_UnregisterCallback) == 0xde1f9b45u32,
        api_id(Api::NvAPI_GPU_GetCurrentThermalLevel) == 0xd2488b79u32,
        api_id(Api::NvAPI_GPU_GetCurrentFanSpeedLevel) == 0xbd71f0c9u32,
        api_id(Api::NvAPI_GPU_SetScanoutIntensity) == 0xa57457a4u32,
        api_id(Api::NvAPI_GPU_GetScanoutIntensityState) == 0xe81ce836u32,
        api_id(Api::NvAPI_GPU_SetScanoutWarping) == 0xb34bab4fu32,
        api_id(Api::NvAPI_GPU_GetScanoutWarpingState) == 0x6f5435afu32,
        api_id(Api::NvAPI_GPU_SetScanoutCompositionParameter) == 0xf898247du32,
        api_id(Api::NvAPI_GPU_GetScanoutCompositionParameter) == 0x58fe51e6u32,
        api_id(Api::NvAPI_GPU_GetScanoutConfiguration) == 0x6a9f5b63u32,
        api_id(Api::NvAPI_GPU_GetScanoutConfigurationEx) == 0xe2e1e6f0u32,
        api_id(Api::NvAPI_DISP_SetHCloneTopology) == 0x61041c24u32,
        api_id(Api::NvAPI_DISP_GetHCloneTopology) == 0x47bad137u32,
        api_id(Api::NvAPI_DISP_ValidateHCloneTopology) == 0x5f4c2664u32,
        api_id(Api::NvAPI_GPU_GetAdapterIdFromPhysicalGpu) == 0x0ff07fdeu32,
        api_id(Api::NvAPI_GPU_GetVirtualizationInfo) == 0x44e022a9u32,
        api_id(Api::NvAPI_GPU_GetLogicalGpuInfo) == 0x842b066eu32,
        api_id(Api::NvAPI_GPU_GetLicensableFeatures) == 0x3fc596aau32,
        api_id(Api::NvAPI_GPU_GetVRReadyData) == 0x81d629c5u32,
        api_id(Api::NvAPI_GPU_GetPerfDecreaseInfo) == 0x7f7f4600u32,
        api_id(Api::NvAPI_GPU_QueryIlluminationSupport) == 0xa629da31u32,
        api_id(Api::NvAPI_GPU_GetIllumination) == 0x9a1b9365u32,
        api_id(Api::NvAPI_GPU_SetIllumination) == 0x0254a187u32,
        api_id(Api::NvAPI_D3D1x_IFR_SetUpTargetBufferToSys) == 0x473f7828u32,
        api_id(Api::NvAPI_D3D1x_IFR_TransferRenderTarget) == 0x9fbae4ebu32,
        api_id(Api::NvAPI_GetPhysicalGPUFromDisplay) == 0x1890e8dau32,
        api_id(Api::NvAPI_GetPhysicalGPUFromGPUID) == 0x5380ad1au32,
        api_id(Api::NvAPI_GetGPUIDfromPhysicalGPU) == 0x6533ea3eu32,
        api_id(Api::NvAPI_GetInfoFrameStatePvt) == 0x7fc17574u32,
        api_id(Api::NvAPI_GPU_GetMemoryInfo) == 0x07f9b368u32,
        api_id(Api::NvAPI_GPU_GetMemoryInfoEx) == 0xc0599498u32,
{
}

/// The interface ids of the driver's listing, from `NvAPI_LoadMicrocode` to `NvAPI_GPU_PhysxSetState`:
/// each API is queried under the id the listing gives it.
pub proof fn lemma_api_listing_ids_11()
    ensures
        api_id(Api::NvAPI_LoadMicrocode) == 0x3119f36eu32,
        api_id(Api::NvAPI_GetLoadedMicrocodePrograms) == 0x919b3136u32,
        api_id(Api::NvAPI_GetDisplayDriverBuildTitle) == 0x7562e947u32,
        api_id(Api::NvAPI_GetDisplayDriverCompileType) == 0x988aea78u32,
        api_id(Api::NvAPI_GetDisplayDriverSecurityLevel) == 0x9d772bbau32,
        api_id(Api::NvAPI_AccessDisplayDriverRegistry) == 0xf5579360u32,
        api_id(Api::NvAPI_GetDisplayDriverRegistryPath) == 0x0e24ceeeu32,
        api_id(Api::NvAPI_GetUnAttachedDisplayDriverRegistryPath) == 0x633252d8u32,
        api_id(Api::NvAPI_GPU_GetRawFuseData) == 0xe0b1dce9u32,
        api_id(Api::NvAPI_GPU_GetFoundry) == 0x5d857a00u32,
        api_id(Api::NvAPI_GPU_GetVPECount) == 0xd8cbf37bu32,
        api_id(Api::NvAPI_GPU_GetTargetID) == 0x35b5fd2fu32,
        api_id(Api::NvAPI_GPU_GetShortName) == 0xd988f0f3u32,
        api_id(Api::NvAPI_GPU_GetVbiosMxmVersion) == 0xe1d5dabau32,
        api_id(Api::NvAPI_GPU_GetVbiosImage) == 0xfc13ee11u32,
        api_id(Api::NvAPI_GPU_GetMXMBlock) == 0xb7ab19b9u32,
        api_id(Api::NvAPI_GPU_SetCurrentPCIEWidth) == 0x3f28e1b9u32,
        api_id(Api::NvAPI_GPU_SetCurrentPCIESpeed) == 0x3bd32008u32,
        api_id(Api::NvAPI_GPU_GetPCIEInfo) == 0xe3795199u32,
        api_id(Api::NvAPI_GPU_ClearPCIELinkErrorInfo) == 0x8456ff3du32,
        api_id(Api::NvAPI_GPU_ClearPCIELinkAERInfo) == 0x521566bbu32,
        api_id(Api::NvAPI_GPU_GetFrameBufferCalibrationLockFailures) == 0x524b9773u32,
        api_id(Api::NvAPI_GPU_SetDisplayUnderflowMode) == 0x387b2e41u32,
        api_id(Api::NvAPI_GPU_GetDisplayUnderflowStatus) == 0xed9e8057u32,
        api_id(Api::NvAPI_GPU_GetBarInfo) == 0xe4b701e3u32,
        api_id(Api::NvAPI_GPU_GetPSFloorSweepStatus) == 0xdee047abu32,
        api_id(Api::NvAPI_GPU_GetVSFloorSweepStatus) == 0xd4f3944cu32,
        api_id(Api::NvAPI_GPU_GetSerialNumber) == 0x14b83a5fu32,
        api_id(Api::NvAPI_GPU_GetManufacturingInfo) == 0xa4218928u32,
        api_id(Api::NvAPI_GPU_GetRamConfigStrap) == 0x51ccdb2au32,
        api_id(Api::NvAPI_GPU_GetRamBusWidth) == 0x7975c581u32,
        api_id(Api::NvAPI_GPU_GetRamBankCount) == 0x17073a3cu32,
        api_id(Api::NvAPI_GPU_GetArchInfo) == 0xd8265d24u32,
        api_id(Api::NvAPI_GPU_GetExtendedMinorRevision) == 0x25f17421u32,
        api_id(Api::NvAPI_GPU_GetSampleType) == 0x32e1d697u32,
        api_id(Api::NvAPI_GPU_GetHardwareQualType) == 0xf91e777bu32,
        api_id(Api::NvAPI_GPU_GetAllClocks) == 0x1bd69f49u32,
        api_id(Api::NvAPI_GPU_SetClocks) == 0x6f151055u32,
        api_id(Api::NvAPI_GPU_SetPerfHybridMode) == 0x7bc207f8u32,
        api_id(Api::NvAPI_GPU_GetPerfHybridMode) == 0x5d7ccaebu32,
        api_id(Api::NvAPI_GPU_GetHybridControllerInfo) == 0xd26b8a58u32,
        api_id(Api::NvAPI_RestartDisplayDriver) == 0xb4b26b65u32,
        api_id(Api::NvAPI_GPU_GetAllGpusOnSameBoard) == 0x4db019e6u32,
        api_id(Api::NvAPI_SetTopologyDisplayGPU) == 0xf409d5e5u32,
        api_id(Api::NvAPI_GetTopologyDisplayGPU) == 0x813d89a8u32,
        api_id(Api::NvAPI_SYS_GetSliApprovalCookie) == 0xb539a26eu32,
        api_id(Api::NvAPI_CreateUnAttachedDisplayFromDisplay) == 0xa0c72ee4u32,
        api_id(Api::NvAPI_GetDriverModel) == 0x25eeb2c4u32,
        api_id(Api::NvAPI_GPU_CudaEnumComputeCapableGpus) == 0x5786cc6eu32,
        api_id(Api::NvAPI_GPU_PhysxSetState) == 0x4071b85eu32,
{
}

/// The interface ids of the driver's listing, from `NvAPI_GPU_PhysxQueryRecommendedState` to `NvAPI_D3D_SetResourceHint`:
/// each API is queried under the id the listing gives it.
pub proof fn lemma_api_listing_ids_12()
    ensures
        api_id(Api::NvAPI_GPU_PhysxQueryRecommendedState) == 0x7a4174f4u32,
        api_id(Api::NvAPI_GPU_GetDeepIdleState) == 0x1aad16b4u32,
        api_id(Api::NvAPI_GPU_SetDeepIdleState) == 0x568a2292u32,
        api_id(Api::NvAPI_GetScalingCaps) == 0x8e875cf9u32,
        api_id(Api::NvAPI_GPU_GetThermalTable) == 0xc729203cu32,
        api_id(Api::NvAPI_SYS_SetPostOutput) == 0xd3a092b1u32,
        api_id(Api::NvAPI_GPU_PerfPoliciesGetInfo) == 0x409d9841u32,
        api_id(Api::NvAPI_GPU_PerfPoliciesGetStatus) == 0x3d358a0cu32,
        api_id(Api::NvAPI_GPU_ClientThermalPoliciesGetInfo) == 0x0d258bb5u32,
        api_id(Api::NvAPI_GPU_ClientThermalPoliciesGetStatus) == 0xe9c425a1u32,
        api_id(Api::NvAPI_GPU_ClientThermalPoliciesSetStatus) == 0x34c0b13du32,
        api_id(Api::NvAPI_GPU_ClientVoltRailsGetStatus) == 0x465f9bcfu32,
        api_id(Api::NvAPI_GPU_GetVoltageStep) == 0x28766157u32,
        api_id(Api::NvAPI_GPU_ClockClientClkDomainsGetInfo) == 0x64b43a6au32,
        api_id(Api::NvAPI_GPU_ClockClientClkVfPointsGetInfo) == 0x507b4b59u32,
        api_id(Api::NvAPI_GPU_ClockClientClkVfPointsGetControl) == 0x23f1b133u32,
        api_id(Api::NvAPI_GPU_ClockClientClkVfPointsSetControl) == 0x0733e009u32,
        api_id(Api::NvAPI_GPU_ClockClientClkVfPointsGetStatus) == 0x21537ad4u32,
        api_id(Api::NvAPI_GPU_PerfClientLimitsGetStatus) == 0xe440b867u32,
        api_id(Api::NvAPI_GPU_PerfClientLimitsSetStatus) == 0x39442cfbu32,
        api_id(Api::NvAPI_GPU_ClientVoltRailsGetControl) == 0x9df23ca1u32,
        api_id(Api::NvAPI_GPU_ClientVoltRailsSetControl) == 0xb9306d9bu32,
        api_id(Api::NvAPI_GPU_ClientFanArbitersGetControl) == 0x600f612eu32,
        api_id(Api::NvAPI_GPU_ClientFanArbitersGetInfo) == 0xdddfda38u32,
        api_id(Api::NvAPI_GPU_ClientFanArbitersGetStatus) == 0xcde021b9u32,
        api_id(Api::NvAPI_GPU_ClientFanArbitersSetControl) == 0x44cd3014u32,
        api_id(Api::NvAPI_GPU_ClientFanCoolersGetControl) == 0x814b209fu32,
        api_id(Api::NvAPI_GPU_ClientFanCoolersGetInfo) == 0xfb85b01eu32,
        api_id(Api::NvAPI_GPU_ClientFanCoolersGetStatus) == 0x35aed5e8u32,
        api_id(Api::NvAPI_GPU_ClientFanCoolersSetControl) == 0xa58971a5u32,
        api_id(Api::NvAPI_GPU_ClientFanPoliciesGetControl) == 0xe543c540u32,
        api_id(Api::NvAPI_GPU_ClientFanPoliciesGetInfo) == 0x52b76d12u32,
        api_id(Api::NvAPI_GPU_ClientFanPoliciesSetControl) == 0xc181947au32,
        api_id(Api::NvAPI_GPU_ClientGetLastOcScannerResults) == 0x593e8e72u32,
        api_id(Api::NvAPI_GPU_ClientGetOcConfig) == 0x210f1841u32,
        api_id(Api::NvAPI_GPU_ClientIllumDevicesGetInfo) == 0xd4100e58u32,
        api_id(Api::NvAPI_GPU_ClientIllumDevicesGetControl) == 0x73c01d58u32,
        api_id(Api::NvAPI_GPU_ClientIllumDevicesSetControl) == 0x57024c62u32,
        api_id(Api::NvAPI_GPU_ClientIllumZonesGetControl) == 0x3dbf5764u32,
        api_id(Api::NvAPI_GPU_ClientIllumZonesGetInfo) == 0x4b81241bu32,
        api_id(Api::NvAPI_GPU_ClientIllumZonesSetControl) == 0x197d065eu32,
        api_id(Api::NvAPI_GPU_ClientRegisterForOcConfigChangedUpdates) == 0xf627074fu32,
        api_id(Api::NvAPI_GPU_ClientRegisterForOcScannerStatusUpdates) == 0x1cb41116u32,
        api_id(Api::NvAPI_GPU_ClientRevertOc) == 0xcc727b22u32,
        api_id(Api::NvAPI_GPU_ClientStartOcScanner) == 0xbc4aee25u32,
        api_id(Api::NvAPI_GPU_ClientStopOcScanner) == 0xc28b73deu32,
        api_id(Api::NvAPI_GPU_GetUsages) == 0x189a1fdfu32,
        api_id(Api::NvAPI_GPU_GetRamMaker) == 0x42aea16au32,
        api_id(Api::NvAPI_D3D_GetObjectHandleForResource) == 0xfceac864u32,
        api_id(Api::NvAPI_D3D_SetResourceHint) == 0x6c0ed98cu32,
{
}

/// The interface ids of the driver's listing, from `NvAPI_D3D_BeginResourceRendering` to `NvAPI_D3D12_CreateMetaCommand`:
/// each API is queried under the id the listing gives it.
pub proof fn lemma_api_listing_ids_13()
    ensures
        api_id(Api::NvAPI_D3D_BeginResourceRendering) == 0x91123d6au32,
        api_id(Api::NvAPI_D3D_EndResourceRendering) == 0x37e7191cu32,
        api_id(Api::NvAPI_D3D12_QueryPresentBarrierSupport) == 0xa15faef7u32,
        api_id(Api::NvAPI_D3D12_CreatePresentBarrierClient) == 0x4d815de9u32,
        api_id(Api::NvAPI_D3D12_RegisterPresentBarrierResources) == 0xd53c9ef0u32,
        api_id(Api::NvAPI_DestroyPresentBarrierClient) == 0x3c5c351bu32,
        api_id(Api::NvAPI_JoinPresentBarrier) == 0x17f6bf82u32,
        api_id(Api::NvAPI_LeavePresentBarrier) == 0xc3ec5a7fu32,
        api_id(Api::NvAPI_QueryPresentBarrierFrameStatistics) == 0x61b844a1u32,
        api_id(Api::NvAPI_D3D12_CreateDDisplayPresentBarrierClient) == 0xb5a21987u32,
        api_id(Api::NvAPI_D3D11_CreateRasterizerState) == 0xdb8d28afu32,
        api_id(Api::NvAPI_D3D_ConfigureAnsel) == 0x341c6c7fu32,
        api_id(Api::NvAPI_D3D11_CreateTiledTexture2DArray) == 0x7886981au32,
        api_id(Api::NvAPI_D3D11_CheckFeatureSupport) == 0x106a487eu32,
        api_id(Api::NvAPI_D3D11_CreateImplicitMSAATexture2D) == 0xb8f79632u32,
        api_id(Api::NvAPI_D3D12_CreateCommittedImplicitMSAATexture2D) == 0x24c6a07bu32,
        api_id(Api::NvAPI_D3D11_ResolveSubresourceRegion) == 0xe6bfedd6u32,
        api_id(Api::NvAPI_D3D12_ResolveSubresourceRegion) == 0xc24a15bfu32,
        api_id(Api::NvAPI_D3D11_TiledTexture2DArrayGetDesc) == 0xf1a2b9d5u32,
        api_id(Api::NvAPI_D3D11_UpdateTileMappings) == 0x9a06ea07u32,
        api_id(Api::NvAPI_D3D11_CopyTileMappings) == 0xc09ee6bcu32,
        api_id(Api::NvAPI_D3D11_TiledResourceBarrier) == 0xd6839099u32,
        api_id(Api::NvAPI_D3D11_AliasMSAATexture2DAsNonMSAA) == 0xf1c54fc9u32,
        api_id(Api::NvAPI_D3D11_CreateGeometryShaderEx_2) == 0x99ed5c1cu32,
        api_id(Api::NvAPI_D3D11_CreateVertexShaderEx) == 0x0beaa0b2u32,
        api_id(Api::NvAPI_D3D11_CreateHullShaderEx) == 0xb53cab00u32,
        api_id(Api::NvAPI_D3D11_CreateDomainShaderEx) == 0xa0d7180du32,
        api_id(Api::NvAPI_D3D11_CreatePixelShaderEx_2) == 0x4162822bu32,
        api_id(Api::NvAPI_D3D11_CreateFastGeometryShaderExplicit) == 0x71ab7c9cu32,
        api_id(Api::NvAPI_D3D11_CreateFastGeometryShader) == 0x525d43beu32,
        api_id(Api::NvAPI_D3D11_DecompressView) == 0x3a94e822u32,
        api_id(Api::NvAPI_D3D12_CreateGraphicsPipelineState) == 0x2fc28856u32,
        api_id(Api::NvAPI_D3D12_CreateComputePipelineState) == 0x2762deacu32,
        api_id(Api::NvAPI_D3D12_SetDepthBoundsTestValues) == 0xb9333fe9u32,
        api_id(Api::NvAPI_D3D12_CreateReservedResource) == 0x2c85f101u32,
        api_id(Api::NvAPI_D3D12_CreateHeap) == 0x5cb397cfu32,
        api_id(Api::NvAPI_D3D12_CreateHeap2) == 0x924be9d6u32,
        api_id(Api::NvAPI_D3D12_QueryCpuVisibleVidmem) == 0x26322bc3u32,
        api_id(Api::NvAPI_D3D12_ReservedResourceGetDesc) == 0x9aa2aabbu32,
        api_id(Api::NvAPI_D3D12_UpdateTileMappings) == 0xc6017a7du32,
        api_id(Api::NvAPI_D3D12_CopyTileMappings) == 0x47f78194u32,
        api_id(Api::NvAPI_D3D12_ResourceAliasingBarrier) == 0xb942bab7u32,
        api_id(Api::NvAPI_D3D12_CaptureUAVInfo) == 0x6e5ea9dbu32,
        api_id(Api::NvAPI_D3D11_GetResourceGPUVirtualAddressEx) == 0xaf6d14dau32,
        api_id(Api::NvAPI_D3D11_EnumerateMetaCommands) == 0xc7453ba8u32,
        api_id(Api::NvAPI_D3D11_CreateMetaCommand) == 0xf505fba0u32,
        api_id(Api::NvAPI_D3D11_InitializeMetaCommand) == 0xaec629e9u32,
        api_id(Api::NvAPI_D3D11_ExecuteMetaCommand) == 0x82236c47u32,
        api_id(Api::NvAPI_D3D12_EnumerateMetaCommands) == 0xcd9141d8u32,
        api_id(Api::NvAPI_D3D12_CreateMetaCommand) == 0xeb29634bu32,
{
}

/// The interface ids of the driver's listing, from `NvAPI_D3D12_InitializeMetaCommand` to `NvAPI_D3D12_SetAsyncFrameMarker`:
/// each API is queried under the id the listing gives it.
pub proof fn lemma_api_listing_ids_14()
    ensures
        api_id(Api::NvAPI_D3D12_InitializeMetaCommand) == 0xa4125399u32,
        api_id(Api::NvAPI_D3D12_ExecuteMetaCommand) == 0xde24fc3du32,
        api_id(Api::NvAPI_D3D12_CreateCommittedResource) == 0x027e98aeu32,
        api_id(Api::NvAPI_D3D12_GetCopyableFootprints) == 0xf6305eb5u32,
        api_id(Api::NvAPI_D3D12_CopyTextureRegion) == 0x82b91b25u32,
        api_id(Api::NvAPI_D3D12_IsNvShaderExtnOpCodeSupported) == 0x3dfacec8u32,
        api_id(Api::NvAPI_D3D12_GetOptimalThreadCountForMesh) == 0xb43995cbu32,
        api_id(Api::NvAPI_D3D_IsGSyncCapable) == 0x9c1eed78u32,
        api_id(Api::NvAPI_D3D_IsGSyncActive) == 0xe942b0ffu32,
        api_id(Api::NvAPI_D3D1x_DisableShaderDiskCache) == 0xd0cbca7du32,
        api_id(Api::NvAPI_D3D11_MultiGPU_GetCaps) == 0xd2d25687u32,
        api_id(Api::NvAPI_D3D11_MultiGPU_Init) == 0x017be49eu32,
        api_id(Api::NvAPI_D3D11_CreateMultiGPUDevice) == 0xbdb20007u32,
        api_id(Api::NvAPI_D3D_QuerySinglePassStereoSupport) == 0x6f5f0a6du32,
        api_id(Api::NvAPI_D3D_SetSinglePassStereoMode) == 0xa39e6e6eu32,
        api_id(Api::NvAPI_D3D12_QuerySinglePassStereoSupport) == 0x3b03791bu32,
        api_id(Api::NvAPI_D3D12_SetSinglePassStereoMode) == 0x83556d87u32,
        api_id(Api::NvAPI_D3D_QueryMultiViewSupport) == 0xb6e0a41cu32,
        api_id(Api::NvAPI_D3D_SetMultiViewMode) == 0x8285c8dau32,
        api_id(Api::NvAPI_D3D_QueryModifiedWSupport) == 0xcbf9f4f5u32,
        api_id(Api::NvAPI_D3D_SetModifiedWMode) == 0x06ea4bf4u32,
        api_id(Api::NvAPI_D3D12_QueryModifiedWSupport) == 0x51235248u32,
        api_id(Api::NvAPI_D3D12_SetModifiedWMode) == 0xe1fdaba7u32,
        api_id(Api::NvAPI_D3D_CreateLateLatchObject) == 0x2db27d09u32,
        api_id(Api::NvAPI_D3D_QueryLateLatchSupport) == 0x8ceca0ecu32,
        api_id(Api::NvAPI_D3D_RegisterDevice) == 0x8c02c4d0u32,
        api_id(Api::NvAPI_D3D11_MultiDrawInstancedIndirect) == 0xd4e26bbfu32,
        api_id(Api::NvAPI_D3D11_MultiDrawIndexedInstancedIndirect) == 0x59e890f9u32,
        api_id(Api::NvAPI_D3D_ImplicitSLIControl) == 0x2aede111u32,
        api_id(Api::NvAPI_D3D12_UseDriverHeapPriorities) == 0xf0d978a8u32,
        api_id(Api::NvAPI_D3D12_Mosaic_GetCompanionAllocations) == 0xa46022c7u32,
        api_id(Api::NvAPI_D3D12_Mosaic_GetViewportAndGpuPartitions) == 0xb092b818u32,
        api_id(Api::NvAPI_D3D1x_GetGraphicsCapabilities) == 0x52b1499au32,
        api_id(Api::NvAPI_D3D12_GetGraphicsCapabilities) == 0x01e87354u32,
        api_id(Api::NvAPI_D3D11_RSSetExclusiveScissorRects) == 0xae4d73efu32,
        api_id(Api::NvAPI_D3D11_RSSetViewportsPixelShadingRates) == 0x34f7938fu32,
        api_id(Api::NvAPI_D3D11_CreateShadingRateResourceView) == 0x99ca2dffu32,
        api_id(Api::NvAPI_D3D11_RSSetShadingRateResourceView) == 0x1b0c2f83u32,
        api_id(Api::NvAPI_D3D11_RSGetPixelShadingRateSampleOrder) == 0x092442a1u32,
        api_id(Api::NvAPI_D3D11_RSSetPixelShadingRateSampleOrder) == 0xa942373au32,
        api_id(Api::NvAPI_D3D_InitializeVRSHelper) == 0x4780d70bu32,
        api_id(Api::NvAPI_D3D_InitializeNvGazeHandler) == 0x5b3b7479u32,
        api_id(Api::NvAPI_D3D_InitializeSMPAssist) == 0x42763d0cu32,
        api_id(Api::NvAPI_D3D_QuerySMPAssistSupport) == 0xc57921deu32,
        api_id(Api::NvAPI_D3D_GetSleepStatus) == 0xaef96ca1u32,
        api_id(Api::NvAPI_D3D_SetSleepMode) == 0xac1ca9e0u32,
        api_id(Api::NvAPI_D3D_Sleep) == 0x852cd1d2u32,
        api_id(Api::NvAPI_D3D_GetLatency) == 0x1a587f9cu32,
        api_id(Api::NvAPI_D3D_SetLatencyMarker) == 0xd9984c05u32,
        api_id(Api::NvAPI_D3D12_SetAsyncFrameMarker) == 0x13c98f73u32,
{
}

/// The interface ids of the driver's listing, from `NvAPI_D3D12_NotifyOutOfBandCommandQueue` to `Unknown_GetROPCount`:
/// each API is queried under the id the listing gives it.
pub proof fn lemma_api_listing_ids_15()
    ensures
        api_id(Api::NvAPI_D3D12_NotifyOutOfBandCommandQueue) == 0x03d6e8cbu32,
        api_id(Api::NvAPI_D3D12_CreateCubinComputeShader) == 0x2a2c79e8u32,
        api_id(Api::NvAPI_D3D12_CreateCubinComputeShaderEx) == 0x3151211bu32,
        api_id(Api::NvAPI_D3D12_CreateCubinComputeShaderWithName) == 0x1dc7261fu32,
        api_id(Api::NvAPI_D3D12_LaunchCubinShader) == 0x5c52bb86u32,
        api_id(Api::NvAPI_D3D12_DestroyCubinComputeShader) == 0x7fb785bau32,
        api_id(Api::NvAPI_D3D12_GetCudaTextureObject) == 0x80403fc9u32,
        api_id(Api::NvAPI_D3D12_GetCudaSurfaceObject) == 0x48f5b2eeu32,
        api_id(Api::NvAPI_D3D12_IsFatbinPTXSupported) == 0x70c07832u32,
        api_id(Api::NvAPI_D3D12_CreateCuModule) == 0xad1a677du32,
        api_id(Api::NvAPI_D3D12_EnumFunctionsInModule) == 0x7ab88d88u32,
        api_id(Api::NvAPI_D3D12_CreateCuFunction) == 0xe2436e22u32,
        api_id(Api::NvAPI_D3D12_LaunchCuKernelChain) == 0x24973538u32,
        api_id(Api::NvAPI_D3D12_DestroyCuModule) == 0x41c65285u32,
        api_id(Api::NvAPI_D3D12_DestroyCuFunction) == 0xdf295ea6u32,
        api_id(Api::NvAPI_D3D11_CreateCubinComputeShader) == 0x0ed98181u32,
        api_id(Api::NvAPI_D3D11_CreateCubinComputeShaderEx) == 0x32c2a0f6u32,
        api_id(Api::NvAPI_D3D11_CreateCubinComputeShaderWithName) == 0xb672be19u32,
        api_id(Api::NvAPI_D3D11_LaunchCubinShader) == 0x427e236du32,
        api_id(Api::NvAPI_D3D11_DestroyCubinComputeShader) == 0x01682c86u32,
        api_id(Api::NvAPI_D3D11_IsFatbinPTXSupported) == 0x6086bd93u32,
        api_id(Api::NvAPI_D3D11_CreateUnorderedAccessView) == 0x74a497a1u32,
        api_id(Api::NvAPI_D3D11_CreateShaderResourceView) == 0x65cb431eu32,
        api_id(Api::NvAPI_D3D11_CreateSamplerState) == 0x89eca416u32,
        api_id(Api::NvAPI_D3D11_GetCudaTextureObject) == 0x9006fa68u32,
        api_id(Api::NvAPI_D3D11_GetResourceGPUVirtualAddress) == 0x1819b423u32,
        api_id(Api::NvAPI_D3D12_GetRaytracingCaps) == 0x85a6c2a0u32,
        api_id(Api::NvAPI_D3D12_GetRaytracingOpacityMicromapArrayPrebuildInfo) == 0x4726d180u32,
        api_id(Api::NvAPI_D3D12_SetCreatePipelineStateOptions) == 0x5c607a27u32,
        api_id(Api::NvAPI_D3D12_CheckDriverMatchingIdentifierEx) == 0xafb237d4u32,
        api_id(Api::NvAPI_D3D12_GetRaytracingAccelerationStructurePrebuildInfoEx) == 0x8d025b77u32,
        api_id(Api::NvAPI_D3D12_BuildRaytracingOpacityMicromapArray) == 0x814f8d11u32,
        api_id(Api::NvAPI_D3D12_RelocateRaytracingOpacityMicromapArray) == 0x0425c538u32,
        api_id(Api::NvAPI_D3D12_EmitRaytracingOpacityMicromapArrayPostbuildInfo) == 0x1d9a39b6u32,
        api_id(Api::NvAPI_D3D12_BuildRaytracingAccelerationStructureEx) == 0xe24ead45u32,
        api_id(Api::Unknown_1629A173) == 0x1629a173u32,
        api_id(Api::Unknown_F1D2777B) == 0xf1d2777bu32,
        api_id(Api::Unknown_8EFC0978) == 0x8efc0978u32,
        api_id(Api::Unknown_B7BCF50D) == 0xb7bcf50du32,
        api_id(Api::Unknown_36E39E6B) == 0x36e39e6bu32,
        api_id(Api::Unknown_GetROPCount) == 0xfdc129fau32,
{
}

/// The names of the driver's listing, from `NvAPI_Initialize` to `NvAPI_SetImageSharpeningLevel`:
/// each API is named by its entry in the listing.
pub proof fn lemma_api_listing_names_0()
    ensures
        api_name(Api::NvAPI_Initialize) == "NvAPI_Initialize"@,
        api_name(Api::NvAPI_Unload) == "NvAPI_Unload"@,
        api_name(Api::NvAPI_GetErrorMessage) == "NvAPI_GetErrorMessage"@,
        api_name(Api::NvAPI_GetInterfaceVersionString) == "NvAPI_GetInterfaceVersionString"@,
        api_name(Api::NvAPI_GetDisplayDriverVersion) == "NvAPI_GetDisplayDriverVersion"@,
        api_name(Api::NvAPI_SYS_GetDriverAndBranchVersion) == "NvAPI_SYS_GetDriverAndBranchVersion"@,
        api_name(Api::NvAPI_EnumNvidiaDisplayHandle) == "NvAPI_EnumNvidiaDisplayHandle"@,
        api_name(Api::NvAPI_EnumNvidiaUnAttachedDisplayHandle) == "NvAPI_EnumNvidiaUnAttachedDisplayHandle"@,
        api_name(Api::NvAPI_EnumPhysicalGPUs) == "NvAPI_EnumPhysicalGPUs"@,
        api_name(Api::NvAPI_EnumTCCPhysicalGPUs) == "NvAPI_EnumTCCPhysicalGPUs"@,
        api_name(Api::NvAPI_EnumLogicalGPUs) == "NvAPI_EnumLogicalGPUs"@,
        api_name(Api::NvAPI_GetPhysicalGPUsFromDisplay) == "NvAPI_GetPhysicalGPUsFromDisplay"@,
        api_name(Api::NvAPI_GetPhysicalGPUFromUnAttachedDisplay) == "NvAPI_GetPhysicalGPUFromUnAttachedDisplay"@,
        api_name(Api::NvAPI_CreateDisplayFromUnAttachedDisplay) == "NvAPI_CreateDisplayFromUnAttachedDisplay"@,
        api_name(Api::NvAPI_GetLogicalGPUFromDisplay) == "NvAPI_GetLogicalGPUFromDisplay"@,
        api_name(Api::NvAPI_GetLogicalGPUFromPhysicalGPU) == "NvAPI_GetLogicalGPUFromPhysicalGPU"@,
        api_name(Api::NvAPI_GetPhysicalGPUsFromLogicalGPU) == "NvAPI_GetPhysicalGPUsFromLogicalGPU"@,
        api_name(Api::NvAPI_GetAssociatedNvidiaDisplayHandle) == "NvAPI_GetAssociatedNvidiaDisplayHandle"@,
        api_name(Api::NvAPI_DISP_GetAssociatedUnAttachedNvidiaDisplayHandle) == "NvAPI_DISP_GetAssociatedUnAttachedNvidiaDisplayHandle"@,
        api_name(Api::NvAPI_GetAssociatedNvidiaDisplayName) == "NvAPI_GetAssociatedNvidiaDisplayName"@,
        api_name(Api::NvAPI_GetUnAttachedAssociatedDisplayName) == "NvAPI_GetUnAttachedAssociatedDisplayName"@,
        api_name(Api::NvAPI_EnableHWCursor) == "NvAPI_EnableHWCursor"@,
        api_name(Api::NvAPI_DisableHWCursor) == "NvAPI_DisableHWCursor"@,
        api_name(Api::NvAPI_GetVBlankCounter) == "NvAPI_GetVBlankCounter"@,
        api_name(Api::NvAPI_SetRefreshRateOverride) == "NvAPI_SetRefreshRateOverride"@,
        api_name(Api::NvAPI_GetAssociatedDisplayOutputId) == "NvAPI_GetAssociatedDisplayOutputId"@,
        api_name(Api::NvAPI_GetDisplayPortInfo) == "NvAPI_GetDisplayPortInfo"@,
        api_name(Api::NvAPI_SetDisplayPort) == "NvAPI_SetDisplayPort"@,
        api_name(Api::NvAPI_GetHDMISupportInfo) == "NvAPI_GetHDMISupportInfo"@,
        api_name(Api::NvAPI_DISP_EnumHDMIStereoModes) == "NvAPI_DISP_EnumHDMIStereoModes"@,
        api_name(Api::NvAPI_GetInfoFrame) == "NvAPI_GetInfoFrame"@,
        api_name(Api::NvAPI_SetInfoFrame) == "NvAPI_SetInfoFrame"@,
        api_name(Api::NvAPI_SetInfoFrameState) == "NvAPI_SetInfoFrameState"@,
        api_name(Api::NvAPI_GetInfoFrameState) == "NvAPI_GetInfoFrameState"@,
        api_name(Api::NvAPI_Disp_InfoFrameControl) == "NvAPI_Disp_InfoFrameControl"@,
        api_name(Api::NvAPI_Disp_ColorControl) == "NvAPI_Disp_ColorControl"@,
        api_name(Api::NvAPI_Disp_GetHdrCapabilities) == "NvAPI_Disp_GetHdrCapabilities"@,
        api_name(Api::NvAPI_Disp_HdrColorControl) == "NvAPI_Disp_HdrColorControl"@,
        api_name(Api::NvAPI_DISP_GetVirtualModeData) == "NvAPI_DISP_GetVirtualModeData"@,
        api_name(Api::NvAPI_DISP_OverrideDisplayModeList) == "NvAPI_DISP_OverrideDisplayModeList"@,
        api_name(Api::NvAPI_GetDisplayDriverMemoryInfo) == "NvAPI_GetDisplayDriverMemoryInfo"@,
        api_name(Api::NvAPI_GetDriverMemoryInfo) == "NvAPI_GetDriverMemoryInfo"@,
        api_name(Api::NvAPI_GetDVCInfo) == "NvAPI_GetDVCInfo"@,
        api_name(Api::NvAPI_SetDVCLevel) == "NvAPI_SetDVCLevel"@,
        api_name(Api::NvAPI_GetDVCInfoEx) == "NvAPI_GetDVCInfoEx"@,
        api_name(Api::NvAPI_SetDVCLevelEx) == "NvAPI_SetDVCLevelEx"@,
        api_name(Api::NvAPI_GetHUEInfo) == "NvAPI_GetHUEInfo"@,
        api_name(Api::NvAPI_SetHUEAngle) == "NvAPI_SetHUEAngle"@,
        api_name(Api::NvAPI_GetImageSharpeningInfo) == "NvAPI_GetImageSharpeningInfo"@,
        api_name(Api::NvAPI_SetImageSharpeningLevel) == "NvAPI_SetImageSharpeningLevel"@,
{
}

/// The names of the driver's listing, from `NvAPI_D3D_GetCurrentSLIState` to `NvAPI_D3D9_CreateVideo`:
/// each API is named by its entry in the listing.
pub proof fn lemma_api_listing_names_1()
    ensures
        api_name(Api::NvAPI_D3D_GetCurrentSLIState) == "NvAPI_D3D_GetCurrentSLIState"@,
        api_name(Api::NvAPI_D3D9_RegisterResource) == "NvAPI_D3D9_RegisterResource"@,
        api_name(Api::NvAPI_D3D9_UnregisterResource) == "NvAPI_D3D9_UnregisterResource"@,
        api_name(Api::NvAPI_D3D9_AliasSurfaceAsTexture) == "NvAPI_D3D9_AliasSurfaceAsTexture"@,
        api_name(Api::NvAPI_D3D9_StretchRectEx) == "NvAPI_D3D9_StretchRectEx"@,
        api_name(Api::NvAPI_D3D9_ClearRT) == "NvAPI_D3D9_ClearRT"@,
        api_name(Api::NvAPI_D3D_CreateQuery) == "NvAPI_D3D_CreateQuery"@,
        api_name(Api::NvAPI_D3D_DestroyQuery) == "NvAPI_D3D_DestroyQuery"@,
        api_name(Api::NvAPI_D3D_Query_Begin) == "NvAPI_D3D_Query_Begin"@,
        api_name(Api::NvAPI_D3D_Query_End) == "NvAPI_D3D_Query_End"@,
        api_name(Api::NvAPI_D3D_Query_GetData) == "NvAPI_D3D_Query_GetData"@,
        api_name(Api::NvAPI_D3D_Query_GetDataSize) == "NvAPI_D3D_Query_GetDataSize"@,
        api_name(Api::NvAPI_D3D_Query_GetType) == "NvAPI_D3D_Query_GetType"@,
        api_name(Api::NvAPI_D3D_RegisterApp) == "NvAPI_D3D_RegisterApp"@,
        api_name(Api::NvAPI_D3D9_CreatePathContextNV) == "NvAPI_D3D9_CreatePathContextNV"@,
        api_name(Api::NvAPI_D3D9_DestroyPathContextNV) == "NvAPI_D3D9_DestroyPathContextNV"@,
        api_name(Api::NvAPI_D3D9_CreatePathNV) == "NvAPI_D3D9_CreatePathNV"@,
        api_name(Api::NvAPI_D3D9_DeletePathNV) == "NvAPI_D3D9_DeletePathNV"@,
        api_name(Api::NvAPI_D3D9_PathVerticesNV) == "NvAPI_D3D9_PathVerticesNV"@,
        api_name(Api::NvAPI_D3D9_PathParameterfNV) == "NvAPI_D3D9_PathParameterfNV"@,
        api_name(Api::NvAPI_D3D9_PathParameteriNV) == "NvAPI_D3D9_PathParameteriNV"@,
        api_name(Api::NvAPI_D3D9_PathMatrixNV) == "NvAPI_D3D9_PathMatrixNV"@,
        api_name(Api::NvAPI_D3D9_PathDepthNV) == "NvAPI_D3D9_PathDepthNV"@,
        api_name(Api::NvAPI_D3D9_PathClearDepthNV) == "NvAPI_D3D9_PathClearDepthNV"@,
        api_name(Api::NvAPI_D3D9_PathEnableDepthTestNV) == "NvAPI_D3D9_PathEnableDepthTestNV"@,
        api_name(Api::NvAPI_D3D9_PathEnableColorWriteNV) == "NvAPI_D3D9_PathEnableColorWriteNV"@,
        api_name(Api::NvAPI_D3D9_DrawPathNV) == "NvAPI_D3D9_DrawPathNV"@,
        api_name(Api::NvAPI_D3D9_GetSurfaceHandle) == "NvAPI_D3D9_GetSurfaceHandle"@,
        api_name(Api::NvAPI_D3D9_GetOverlaySurfaceHandles) == "NvAPI_D3D9_GetOverlaySurfaceHandles"@,
        api_name(Api::NvAPI_D3D9_GetTextureHandle) == "NvAPI_D3D9_GetTextureHandle"@,
        api_name(Api::NvAPI_D3D9_GpuSyncGetHandleSize) == "NvAPI_D3D9_GpuSyncGetHandleSize"@,
        api_name(Api::NvAPI_D3D9_GpuSyncInit) == "NvAPI_D3D9_GpuSyncInit"@,
        api_name(Api::NvAPI_D3D9_GpuSyncEnd) == "NvAPI_D3D9_GpuSyncEnd"@,
        api_name(Api::NvAPI_D3D9_GpuSyncMapTexBuffer) == "NvAPI_D3D9_GpuSyncMapTexBuffer"@,
        api_name(Api::NvAPI_D3D9_GpuSyncMapSurfaceBuffer) == "NvAPI_D3D9_GpuSyncMapSurfaceBuffer"@,
        api_name(Api::NvAPI_D3D9_GpuSyncMapVertexBuffer) == "NvAPI_D3D9_GpuSyncMapVertexBuffer"@,
        api_name(Api::NvAPI_D3D9_GpuSyncMapIndexBuffer) == "NvAPI_D3D9_GpuSyncMapIndexBuffer"@,
        api_name(Api::NvAPI_D3D9_SetPitchSurfaceCreation) == "NvAPI_D3D9_SetPitchSurfaceCreation"@,
        api_name(Api::NvAPI_D3D9_GpuSyncAcquire) == "NvAPI_D3D9_GpuSyncAcquire"@,
        api_name(Api::NvAPI_D3D9_GpuSyncRelease) == "NvAPI_D3D9_GpuSyncRelease"@,
        api_name(Api::NvAPI_D3D9_GetCurrentRenderTargetHandle) == "NvAPI_D3D9_GetCurrentRenderTargetHandle"@,
        api_name(Api::NvAPI_D3D9_GetCurrentZBufferHandle) == "NvAPI_D3D9_GetCurrentZBufferHandle"@,
        api_name(Api::NvAPI_D3D9_GetIndexBufferHandle) == "NvAPI_D3D9_GetIndexBufferHandle"@,
        api_name(Api::NvAPI_D3D9_GetVertexBufferHandle) == "NvAPI_D3D9_GetVertexBufferHandle"@,
        api_name(Api::NvAPI_D3D9_CreateTexture) == "NvAPI_D3D9_CreateTexture"@,
        api_name(Api::NvAPI_D3D9_AliasPrimaryAsTexture) == "NvAPI_D3D9_AliasPrimaryAsTexture"@,
        api_name(Api::NvAPI_D3D9_PresentSurfaceToDesktop) == "NvAPI_D3D9_PresentSurfaceToDesktop"@,
        api_name(Api::NvAPI_D3D9_CreateVideoBegin) == "NvAPI_D3D9_CreateVideoBegin"@,
        api_name(Api::NvAPI_D3D9_CreateVideoEnd) == "NvAPI_D3D9_CreateVideoEnd"@,
        api_name(Api::NvAPI_D3D9_CreateVideo) == "NvAPI_D3D9_CreateVideo"@,
{
}

/// The names of the driver's listing, from `NvAPI_D3D9_FreeVideo` to `NvAPI_D3D11_BeginUAVOverlap`:
/// each API is named by its entry in the listing.
pub proof fn lemma_api_listing_names_2()
    ensures
        api_name(Api::NvAPI_D3D9_FreeVideo) == "NvAPI_D3D9_FreeVideo"@,
        api_name(Api::NvAPI_D3D9_PresentVideo) == "NvAPI_D3D9_PresentVideo"@,
        api_name(Api::NvAPI_D3D9_VideoSetStereoInfo) == "NvAPI_D3D9_VideoSetStereoInfo"@,
        api_name(Api::NvAPI_D3D9_SetGamutData) == "NvAPI_D3D9_SetGamutData"@,
        api_name(Api::NvAPI_D3D9_SetSurfaceCreationLayout) == "NvAPI_D3D9_SetSurfaceCreationLayout"@,
        api_name(Api::NvAPI_D3D9_GetVideoCapabilities) == "NvAPI_D3D9_GetVideoCapabilities"@,
        api_name(Api::NvAPI_D3D9_QueryVideoInfo) == "NvAPI_D3D9_QueryVideoInfo"@,
        api_name(Api::NvAPI_D3D9_AliasPrimaryFromDevice) == "NvAPI_D3D9_AliasPrimaryFromDevice"@,
        api_name(Api::NvAPI_D3D9_SetResourceHint) == "NvAPI_D3D9_SetResourceHint"@,
        api_name(Api::NvAPI_D3D9_Lock) == "NvAPI_D3D9_Lock"@,
        api_name(Api::NvAPI_D3D9_Unlock) == "NvAPI_D3D9_Unlock"@,
        api_name(Api::NvAPI_D3D9_GetVideoState) == "NvAPI_D3D9_GetVideoState"@,
        api_name(Api::NvAPI_D3D9_SetVideoState) == "NvAPI_D3D9_SetVideoState"@,
        api_name(Api::NvAPI_D3D9_EnumVideoFeatures) == "NvAPI_D3D9_EnumVideoFeatures"@,
        api_name(Api::NvAPI_D3D9_GetSLIInfo) == "NvAPI_D3D9_GetSLIInfo"@,
        api_name(Api::NvAPI_D3D9_SetSLIMode) == "NvAPI_D3D9_SetSLIMode"@,
        api_name(Api::NvAPI_D3D9_QueryAAOverrideMode) == "NvAPI_D3D9_QueryAAOverrideMode"@,
        api_name(Api::NvAPI_D3D9_VideoSurfaceEncryptionControl) == "NvAPI_D3D9_VideoSurfaceEncryptionControl"@,
        api_name(Api::NvAPI_D3D9_DMA) == "NvAPI_D3D9_DMA"@,
        api_name(Api::NvAPI_D3D9_EnableStereo) == "NvAPI_D3D9_EnableStereo"@,
        api_name(Api::NvAPI_D3D9_StretchRect) == "NvAPI_D3D9_StretchRect"@,
        api_name(Api::NvAPI_D3D9_CreateRenderTarget) == "NvAPI_D3D9_CreateRenderTarget"@,
        api_name(Api::NvAPI_D3D9_NVFBC_GetStatus) == "NvAPI_D3D9_NVFBC_GetStatus"@,
        api_name(Api::NvAPI_D3D9_IFR_SetUpTargetBufferToSys) == "NvAPI_D3D9_IFR_SetUpTargetBufferToSys"@,
        api_name(Api::NvAPI_D3D9_GPUBasedCPUSleep) == "NvAPI_D3D9_GPUBasedCPUSleep"@,
        api_name(Api::NvAPI_D3D9_IFR_TransferRenderTarget) == "NvAPI_D3D9_IFR_TransferRenderTarget"@,
        api_name(Api::NvAPI_D3D9_IFR_SetUpTargetBufferToNV12BLVideoSurface) == "NvAPI_D3D9_IFR_SetUpTargetBufferToNV12BLVideoSurface"@,
        api_name(Api::NvAPI_D3D9_IFR_TransferRenderTargetToNV12BLVideoSurface) == "NvAPI_D3D9_IFR_TransferRenderTargetToNV12BLVideoSurface"@,
        api_name(Api::NvAPI_D3D10_AliasPrimaryAsTexture) == "NvAPI_D3D10_AliasPrimaryAsTexture"@,
        api_name(Api::NvAPI_D3D10_SetPrimaryFlipChainCallbacks) == "NvAPI_D3D10_SetPrimaryFlipChainCallbacks"@,
        api_name(Api::NvAPI_D3D10_ProcessCallbacks) == "NvAPI_D3D10_ProcessCallbacks"@,
        api_name(Api::NvAPI_D3D10_GetRenderedCursorAsBitmap) == "NvAPI_D3D10_GetRenderedCursorAsBitmap"@,
        api_name(Api::NvAPI_D3D10_BeginShareResource) == "NvAPI_D3D10_BeginShareResource"@,
        api_name(Api::NvAPI_D3D10_BeginShareResourceEx) == "NvAPI_D3D10_BeginShareResourceEx"@,
        api_name(Api::NvAPI_D3D10_EndShareResource) == "NvAPI_D3D10_EndShareResource"@,
        api_name(Api::NvAPI_D3D10_SetDepthBoundsTest) == "NvAPI_D3D10_SetDepthBoundsTest"@,
        api_name(Api::NvAPI_D3D10_CreateDevice) == "NvAPI_D3D10_CreateDevice"@,
        api_name(Api::NvAPI_D3D10_CreateDeviceAndSwapChain) == "NvAPI_D3D10_CreateDeviceAndSwapChain"@,
        api_name(Api::NvAPI_D3D11_CreateDevice) == "NvAPI_D3D11_CreateDevice"@,
        api_name(Api::NvAPI_D3D11_CreateDeviceAndSwapChain) == "NvAPI_D3D11_CreateDeviceAndSwapChain"@,
        api_name(Api::NvAPI_D3D11_BeginShareResource) == "NvAPI_D3D11_BeginShareResource"@,
        api_name(Api::NvAPI_D3D11_EndShareResource) == "NvAPI_D3D11_EndShareResource"@,
        api_name(Api::NvAPI_D3D11_SetDepthBoundsTest) == "NvAPI_D3D11_SetDepthBoundsTest"@,
        api_name(Api::NvAPI_D3D11_IsNvShaderExtnOpCodeSupported) == "NvAPI_D3D11_IsNvShaderExtnOpCodeSupported"@,
        api_name(Api::NvAPI_D3D11_SetNvShaderExtnSlot) == "NvAPI_D3D11_SetNvShaderExtnSlot"@,
        api_name(Api::NvAPI_D3D12_SetNvShaderExtnSlotSpace) == "NvAPI_D3D12_SetNvShaderExtnSlotSpace"@,
        api_name(Api::NvAPI_D3D12_SetNvShaderExtnSlotSpaceLocalThread) == "NvAPI_D3D12_SetNvShaderExtnSlotSpaceLocalThread"@,
        api_name(Api::NvAPI_D3D11_SetNvShaderExtnSlotLocalThread) == "NvAPI_D3D11_SetNvShaderExtnSlotLocalThread"@,
        api_name(Api::NvAPI_D3D11_BeginUAVOverlapEx) == "NvAPI_D3D11_BeginUAVOverlapEx"@,
        api_name(Api::NvAPI_D3D11_BeginUAVOverlap) == "NvAPI_D3D11_BeginUAVOverlap"@,
{
}

/// The names of the driver's listing, from `NvAPI_D3D11_EndUAVOverlap` to `NvAPI_GPU_SetPerfClocks`:
/// each API is named by its entry in the listing.
pub proof fn lemma_api_listing_names_3()
    ensures
        api_name(Api::NvAPI_D3D11_EndUAVOverlap) == "NvAPI_D3D11_EndUAVOverlap"@,
        api_name(Api::NvAPI_D3D11_GetResourceHandle) == "NvAPI_D3D11_GetResourceHandle"@,
        api_name(Api::NvAPI_GPU_GetShaderPipeCount) == "NvAPI_GPU_GetShaderPipeCount"@,
        api_name(Api::NvAPI_GPU_GetShaderSubPipeCount) == "NvAPI_GPU_GetShaderSubPipeCount"@,
        api_name(Api::NvAPI_GPU_GetPartitionCount) == "NvAPI_GPU_GetPartitionCount"@,
        api_name(Api::NvAPI_GPU_GetMemPartitionMask) == "NvAPI_GPU_GetMemPartitionMask"@,
        api_name(Api::NvAPI_GPU_GetTPCMask) == "NvAPI_GPU_GetTPCMask"@,
        api_name(Api::NvAPI_GPU_GetSMMask) == "NvAPI_GPU_GetSMMask"@,
        api_name(Api::NvAPI_GPU_GetTotalTPCCount) == "NvAPI_GPU_GetTotalTPCCount"@,
        api_name(Api::NvAPI_GPU_GetTotalSMCount) == "NvAPI_GPU_GetTotalSMCount"@,
        api_name(Api::NvAPI_GPU_GetTotalSPCount) == "NvAPI_GPU_GetTotalSPCount"@,
        api_name(Api::NvAPI_GPU_GetGpuCoreCount) == "NvAPI_GPU_GetGpuCoreCount"@,
        api_name(Api::NvAPI_GPU_GetAllOutputs) == "NvAPI_GPU_GetAllOutputs"@,
        api_name(Api::NvAPI_GPU_GetConnectedOutputs) == "NvAPI_GPU_GetConnectedOutputs"@,
        api_name(Api::NvAPI_GPU_GetConnectedSLIOutputs) == "NvAPI_GPU_GetConnectedSLIOutputs"@,
        api_name(Api::NvAPI_GPU_GetConnectedDisplayIds) == "NvAPI_GPU_GetConnectedDisplayIds"@,
        api_name(Api::NvAPI_GPU_GetAllDisplayIds) == "NvAPI_GPU_GetAllDisplayIds"@,
        api_name(Api::NvAPI_GPU_GetConnectedOutputsWithLidState) == "NvAPI_GPU_GetConnectedOutputsWithLidState"@,
        api_name(Api::NvAPI_GPU_GetConnectedSLIOutputsWithLidState) == "NvAPI_GPU_GetConnectedSLIOutputsWithLidState"@,
        api_name(Api::NvAPI_GPU_GetSystemType) == "NvAPI_GPU_GetSystemType"@,
        api_name(Api::NvAPI_GPU_GetActiveOutputs) == "NvAPI_GPU_GetActiveOutputs"@,
        api_name(Api::NvAPI_GPU_GetEDID) == "NvAPI_GPU_GetEDID"@,
        api_name(Api::NvAPI_GPU_SetEDID) == "NvAPI_GPU_SetEDID"@,
        api_name(Api::NvAPI_GPU_GetOutputType) == "NvAPI_GPU_GetOutputType"@,
        api_name(Api::NvAPI_GPU_GetDeviceDisplayMode) == "NvAPI_GPU_GetDeviceDisplayMode"@,
        api_name(Api::NvAPI_GPU_GetFlatPanelInfo) == "NvAPI_GPU_GetFlatPanelInfo"@,
        api_name(Api::NvAPI_GPU_ValidateOutputCombination) == "NvAPI_GPU_ValidateOutputCombination"@,
        api_name(Api::NvAPI_GPU_GetConnectorInfo) == "NvAPI_GPU_GetConnectorInfo"@,
        api_name(Api::NvAPI_GPU_GetFullName) == "NvAPI_GPU_GetFullName"@,
        api_name(Api::NvAPI_GPU_GetPCIIdentifiers) == "NvAPI_GPU_GetPCIIdentifiers"@,
        api_name(Api::NvAPI_GPU_GetGPUType) == "NvAPI_GPU_GetGPUType"@,
        api_name(Api::NvAPI_GPU_GetBusType) == "NvAPI_GPU_GetBusType"@,
        api_name(Api::NvAPI_GPU_GetBusId) == "NvAPI_GPU_GetBusId"@,
        api_name(Api::NvAPI_GPU_GetBusSlotId) == "NvAPI_GPU_GetBusSlotId"@,
        api_name(Api::NvAPI_GPU_GetIRQ) == "NvAPI_GPU_GetIRQ"@,
        api_name(Api::NvAPI_GPU_GetVbiosRevision) == "NvAPI_GPU_GetVbiosRevision"@,
        api_name(Api::NvAPI_GPU_GetVbiosOEMRevision) == "NvAPI_GPU_GetVbiosOEMRevision"@,
        api_name(Api::NvAPI_GPU_GetVbiosVersionString) == "NvAPI_GPU_GetVbiosVersionString"@,
        api_name(Api::NvAPI_GPU_GetAGPAperture) == "NvAPI_GPU_GetAGPAperture"@,
        api_name(Api::NvAPI_GPU_GetCurrentAGPRate) == "NvAPI_GPU_GetCurrentAGPRate"@,
        api_name(Api::NvAPI_GPU_GetCurrentPCIEDownstreamWidth) == "NvAPI_GPU_GetCurrentPCIEDownstreamWidth"@,
        api_name(Api::NvAPI_GPU_GetPhysicalFrameBufferSize) == "NvAPI_GPU_GetPhysicalFrameBufferSize"@,
        api_name(Api::NvAPI_GPU_GetVirtualFrameBufferSize) == "NvAPI_GPU_GetVirtualFrameBufferSize"@,
        api_name(Api::NvAPI_GPU_GetQuadroStatus) == "NvAPI_GPU_GetQuadroStatus"@,
        api_name(Api::NvAPI_GPU_GetBoardInfo) == "NvAPI_GPU_GetBoardInfo"@,
        api_name(Api::NvAPI_GPU_GetRamType) == "NvAPI_GPU_GetRamType"@,
        api_name(Api::NvAPI_GPU_GetFBWidthAndLocation) == "NvAPI_GPU_GetFBWidthAndLocation"@,
        api_name(Api::NvAPI_GPU_GetAllClockFrequencies) == "NvAPI_GPU_GetAllClockFrequencies"@,
        api_name(Api::NvAPI_GPU_GetPerfClocks) == "NvAPI_GPU_GetPerfClocks"@,
        api_name(Api::NvAPI_GPU_SetPerfClocks) == "NvAPI_GPU_SetPerfClocks"@,
{
}

/// The names of the driver's listing, from `NvAPI_GPU_GetCoolerSettings` to `NvAPI_GPU_WorkstationFeatureQuery`:
/// each API is named by its entry in the listing.
pub proof fn lemma_api_listing_names_4()
    ensures
        api_name(Api::NvAPI_GPU_GetCoolerSettings) == "NvAPI_GPU_GetCoolerSettings"@,
        api_name(Api::NvAPI_GPU_SetCoolerLevels) == "NvAPI_GPU_SetCoolerLevels"@,
        api_name(Api::NvAPI_GPU_RestoreCoolerSettings) == "NvAPI_GPU_RestoreCoolerSettings"@,
        api_name(Api::NvAPI_GPU_GetCoolerPolicyTable) == "NvAPI_GPU_GetCoolerPolicyTable"@,
        api_name(Api::NvAPI_GPU_SetCoolerPolicyTable) == "NvAPI_GPU_SetCoolerPolicyTable"@,
        api_name(Api::NvAPI_GPU_RestoreCoolerPolicyTable) == "NvAPI_GPU_RestoreCoolerPolicyTable"@,
        api_name(Api::NvAPI_GPU_GetPstatesInfo) == "NvAPI_GPU_GetPstatesInfo"@,
        api_name(Api::NvAPI_GPU_GetPstatesInfoEx) == "NvAPI_GPU_GetPstatesInfoEx"@,
        api_name(Api::NvAPI_GPU_SetPstatesInfo) == "NvAPI_GPU_SetPstatesInfo"@,
        api_name(Api::NvAPI_GPU_GetPstates20) == "NvAPI_GPU_GetPstates20"@,
        api_name(Api::NvAPI_GPU_SetPstates20) == "NvAPI_GPU_SetPstates20"@,
        api_name(Api::NvAPI_GPU_GetCurrentPstate) == "NvAPI_GPU_GetCurrentPstate"@,
        api_name(Api::NvAPI_GPU_GetPstateClientLimits) == "NvAPI_GPU_GetPstateClientLimits"@,
        api_name(Api::NvAPI_GPU_SetPstateClientLimits) == "NvAPI_GPU_SetPstateClientLimits"@,
        api_name(Api::NvAPI_GPU_EnableOverclockedPstates) == "NvAPI_GPU_EnableOverclockedPstates"@,
        api_name(Api::NvAPI_GPU_EnableDynamicPstates) == "NvAPI_GPU_EnableDynamicPstates"@,
        api_name(Api::NvAPI_GPU_GetDynamicPstatesInfoEx) == "NvAPI_GPU_GetDynamicPstatesInfoEx"@,
        api_name(Api::NvAPI_GPU_GetVoltages) == "NvAPI_GPU_GetVoltages"@,
        api_name(Api::NvAPI_GPU_GetThermalSettings) == "NvAPI_GPU_GetThermalSettings"@,
        api_name(Api::NvAPI_GPU_SetDitherControl) == "NvAPI_GPU_SetDitherControl"@,
        api_name(Api::NvAPI_GPU_GetDitherControl) == "NvAPI_GPU_GetDitherControl"@,
        api_name(Api::NvAPI_GPU_GetColorSpaceConversion) == "NvAPI_GPU_GetColorSpaceConversion"@,
        api_name(Api::NvAPI_GPU_SetColorSpaceConversion) == "NvAPI_GPU_SetColorSpaceConversion"@,
        api_name(Api::NvAPI_GetTVOutputInfo) == "NvAPI_GetTVOutputInfo"@,
        api_name(Api::NvAPI_GetTVEncoderControls) == "NvAPI_GetTVEncoderControls"@,
        api_name(Api::NvAPI_SetTVEncoderControls) == "NvAPI_SetTVEncoderControls"@,
        api_name(Api::NvAPI_GetTVOutputBorderColor) == "NvAPI_GetTVOutputBorderColor"@,
        api_name(Api::NvAPI_SetTVOutputBorderColor) == "NvAPI_SetTVOutputBorderColor"@,
        api_name(Api::NvAPI_GetDisplayPosition) == "NvAPI_GetDisplayPosition"@,
        api_name(Api::NvAPI_SetDisplayPosition) == "NvAPI_SetDisplayPosition"@,
        api_name(Api::NvAPI_GetValidGpuTopologies) == "NvAPI_GetValidGpuTopologies"@,
        api_name(Api::NvAPI_GetInvalidGpuTopologies) == "NvAPI_GetInvalidGpuTopologies"@,
        api_name(Api::NvAPI_SetGpuTopologies) == "NvAPI_SetGpuTopologies"@,
        api_name(Api::NvAPI_GPU_GetPerGpuTopologyStatus) == "NvAPI_GPU_GetPerGpuTopologyStatus"@,
        api_name(Api::NvAPI_SYS_GetChipSetTopologyStatus) == "NvAPI_SYS_GetChipSetTopologyStatus"@,
        api_name(Api::NvAPI_GPU_Get_DisplayPort_DongleInfo) == "NvAPI_GPU_Get_DisplayPort_DongleInfo"@,
        api_name(Api::NvAPI_I2CRead) == "NvAPI_I2CRead"@,
        api_name(Api::NvAPI_I2CWrite) == "NvAPI_I2CWrite"@,
        api_name(Api::NvAPI_I2CWriteEx) == "NvAPI_I2CWriteEx"@,
        api_name(Api::NvAPI_I2CReadEx) == "NvAPI_I2CReadEx"@,
        api_name(Api::NvAPI_GPU_GetPowerMizerInfo) == "NvAPI_GPU_GetPowerMizerInfo"@,
        api_name(Api::NvAPI_GPU_SetPowerMizerInfo) == "NvAPI_GPU_SetPowerMizerInfo"@,
        api_name(Api::NvAPI_GPU_GetVoltageDomainsStatus) == "NvAPI_GPU_GetVoltageDomainsStatus"@,
        api_name(Api::NvAPI_GPU_ClientPowerTopologyGetInfo) == "NvAPI_GPU_ClientPowerTopologyGetInfo"@,
        api_name(Api::NvAPI_GPU_ClientPowerTopologyGetStatus) == "NvAPI_GPU_ClientPowerTopologyGetStatus"@,
        api_name(Api::NvAPI_GPU_ClientPowerPoliciesGetInfo) == "NvAPI_GPU_ClientPowerPoliciesGetInfo"@,
        api_name(Api::NvAPI_GPU_ClientPowerPoliciesGetStatus) == "NvAPI_GPU_ClientPowerPoliciesGetStatus"@,
        api_name(Api::NvAPI_GPU_ClientPowerPoliciesSetStatus) == "NvAPI_GPU_ClientPowerPoliciesSetStatus"@,
        api_name(Api::NvAPI_GPU_WorkstationFeatureSetup) == "NvAPI_GPU_WorkstationFeatureSetup"@,
        api_name(Api::NvAPI_GPU_WorkstationFeatureQuery) == "NvAPI_GPU_WorkstationFeatureQuery"@,
{
}

/// The names of the driver's listing, from `NvAPI_GPU_QueryWorkstationFeatureSupport` to `NvAPI_SetPVExtProfile`:
/// each API is named by its entry in the listing.
pub proof fn lemma_api_listing_names_5()
    ensures
        api_name(Api::NvAPI_GPU_QueryWorkstationFeatureSupport) == "NvAPI_GPU_QueryWorkstationFeatureSupport"@,
        api_name(Api::NvAPI_SYS_GetChipSetInfo) == "NvAPI_SYS_GetChipSetInfo"@,
        api_name(Api::NvAPI_SYS_GetLidAndDockInfo) == "NvAPI_SYS_GetLidAndDockInfo"@,
        api_name(Api::NvAPI_OGL_ExpertModeSet) == "NvAPI_OGL_ExpertModeSet"@,
        api_name(Api::NvAPI_OGL_ExpertModeGet) == "NvAPI_OGL_ExpertModeGet"@,
        api_name(Api::NvAPI_OGL_ExpertModeDefaultsSet) == "NvAPI_OGL_ExpertModeDefaultsSet"@,
        api_name(Api::NvAPI_OGL_ExpertModeDefaultsGet) == "NvAPI_OGL_ExpertModeDefaultsGet"@,
        api_name(Api::NvAPI_SetDisplaySettings) == "NvAPI_SetDisplaySettings"@,
        api_name(Api::NvAPI_GetDisplaySettings) == "NvAPI_GetDisplaySettings"@,
        api_name(Api::NvAPI_GetTiming) == "NvAPI_GetTiming"@,
        api_name(Api::NvAPI_DISP_GetTiming) == "NvAPI_DISP_GetTiming"@,
        api_name(Api::NvAPI_DISP_GetMonitorCapabilities) == "NvAPI_DISP_GetMonitorCapabilities"@,
        api_name(Api::NvAPI_DISP_GetMonitorColorCapabilities) == "NvAPI_DISP_GetMonitorColorCapabilities"@,
        api_name(Api::NvAPI_DISP_EnumCustomDisplay) == "NvAPI_DISP_EnumCustomDisplay"@,
        api_name(Api::NvAPI_DISP_TryCustomDisplay) == "NvAPI_DISP_TryCustomDisplay"@,
        api_name(Api::NvAPI_DISP_DeleteCustomDisplay) == "NvAPI_DISP_DeleteCustomDisplay"@,
        api_name(Api::NvAPI_DISP_SaveCustomDisplay) == "NvAPI_DISP_SaveCustomDisplay"@,
        api_name(Api::NvAPI_DISP_RevertCustomDisplayTrial) == "NvAPI_DISP_RevertCustomDisplayTrial"@,
        api_name(Api::NvAPI_EnumCustomDisplay) == "NvAPI_EnumCustomDisplay"@,
        api_name(Api::NvAPI_TryCustomDisplay) == "NvAPI_TryCustomDisplay"@,
        api_name(Api::NvAPI_RevertCustomDisplayTrial) == "NvAPI_RevertCustomDisplayTrial"@,
        api_name(Api::NvAPI_DeleteCustomDisplay) == "NvAPI_DeleteCustomDisplay"@,
        api_name(Api::NvAPI_SaveCustomDisplay) == "NvAPI_SaveCustomDisplay"@,
        api_name(Api::NvAPI_QueryUnderscanCap) == "NvAPI_QueryUnderscanCap"@,
        api_name(Api::NvAPI_EnumUnderscanConfig) == "NvAPI_EnumUnderscanConfig"@,
        api_name(Api::NvAPI_DeleteUnderscanConfig) == "NvAPI_DeleteUnderscanConfig"@,
        api_name(Api::NvAPI_SetUnderscanConfig) == "NvAPI_SetUnderscanConfig"@,
        api_name(Api::NvAPI_GetDisplayFeatureConfig) == "NvAPI_GetDisplayFeatureConfig"@,
        api_name(Api::NvAPI_SetDisplayFeatureConfig) == "NvAPI_SetDisplayFeatureConfig"@,
        api_name(Api::NvAPI_GetDisplayFeatureConfigDefaults) == "NvAPI_GetDisplayFeatureConfigDefaults"@,
        api_name(Api::NvAPI_SetView) == "NvAPI_SetView"@,
        api_name(Api::NvAPI_GetView) == "NvAPI_GetView"@,
        api_name(Api::NvAPI_SetViewEx) == "NvAPI_SetViewEx"@,
        api_name(Api::NvAPI_GetViewEx) == "NvAPI_GetViewEx"@,
        api_name(Api::NvAPI_GetSupportedViews) == "NvAPI_GetSupportedViews"@,
        api_name(Api::NvAPI_GetHDCPLinkParameters) == "NvAPI_GetHDCPLinkParameters"@,
        api_name(Api::NvAPI_Disp_DpAuxChannelControl) == "NvAPI_Disp_DpAuxChannelControl"@,
        api_name(Api::NvAPI_SetHybridMode) == "NvAPI_SetHybridMode"@,
        api_name(Api::NvAPI_GetHybridMode) == "NvAPI_GetHybridMode"@,
        api_name(Api::NvAPI_Coproc_GetCoprocStatus) == "NvAPI_Coproc_GetCoprocStatus"@,
        api_name(Api::NvAPI_Coproc_SetCoprocInfoFlagsEx) == "NvAPI_Coproc_SetCoprocInfoFlagsEx"@,
        api_name(Api::NvAPI_Coproc_GetCoprocInfoFlagsEx) == "NvAPI_Coproc_GetCoprocInfoFlagsEx"@,
        api_name(Api::NvAPI_Coproc_NotifyCoprocPowerState) == "NvAPI_Coproc_NotifyCoprocPowerState"@,
        api_name(Api::NvAPI_Coproc_GetApplicationCoprocInfo) == "NvAPI_Coproc_GetApplicationCoprocInfo"@,
        api_name(Api::NvAPI_GetVideoState) == "NvAPI_GetVideoState"@,
        api_name(Api::NvAPI_SetVideoState) == "NvAPI_SetVideoState"@,
        api_name(Api::NvAPI_SetFrameRateNotify) == "NvAPI_SetFrameRateNotify"@,
        api_name(Api::NvAPI_SetPVExtName) == "NvAPI_SetPVExtName"@,
        api_name(Api::NvAPI_GetPVExtName) == "NvAPI_GetPVExtName"@,
        api_name(Api::NvAPI_SetPVExtProfile) == "NvAPI_SetPVExtProfile"@,
{
}

/// The names of the driver's listing, from `NvAPI_GetPVExtProfile` to `NvAPI_Stereo_Enable`:
/// each API is named by its entry in the listing.
pub proof fn lemma_api_listing_names_6()
    ensures
        api_name(Api::NvAPI_GetPVExtProfile) == "NvAPI_GetPVExtProfile"@,
        api_name(Api::NvAPI_VideoSetStereoInfo) == "NvAPI_VideoSetStereoInfo"@,
        api_name(Api::NvAPI_VideoGetStereoInfo) == "NvAPI_VideoGetStereoInfo"@,
        api_name(Api::NvAPI_Mosaic_GetSupportedTopoInfo) == "NvAPI_Mosaic_GetSupportedTopoInfo"@,
        api_name(Api::NvAPI_Mosaic_GetTopoGroup) == "NvAPI_Mosaic_GetTopoGroup"@,
        api_name(Api::NvAPI_Mosaic_GetOverlapLimits) == "NvAPI_Mosaic_GetOverlapLimits"@,
        api_name(Api::NvAPI_Mosaic_SetCurrentTopo) == "NvAPI_Mosaic_SetCurrentTopo"@,
        api_name(Api::NvAPI_Mosaic_GetCurrentTopo) == "NvAPI_Mosaic_GetCurrentTopo"@,
        api_name(Api::NvAPI_Mosaic_EnableCurrentTopo) == "NvAPI_Mosaic_EnableCurrentTopo"@,
        api_name(Api::NvAPI_Mosaic_SetGridTopology) == "NvAPI_Mosaic_SetGridTopology"@,
        api_name(Api::NvAPI_Mosaic_GetMosaicCapabilities) == "NvAPI_Mosaic_GetMosaicCapabilities"@,
        api_name(Api::NvAPI_Mosaic_GetDisplayCapabilities) == "NvAPI_Mosaic_GetDisplayCapabilities"@,
        api_name(Api::NvAPI_Mosaic_EnumGridTopologies) == "NvAPI_Mosaic_EnumGridTopologies"@,
        api_name(Api::NvAPI_Mosaic_GetDisplayViewportsByResolution) == "NvAPI_Mosaic_GetDisplayViewportsByResolution"@,
        api_name(Api::NvAPI_Mosaic_GetMosaicViewports) == "NvAPI_Mosaic_GetMosaicViewports"@,
        api_name(Api::NvAPI_Mosaic_SetDisplayGrids) == "NvAPI_Mosaic_SetDisplayGrids"@,
        api_name(Api::NvAPI_Mosaic_ValidateDisplayGridsWithSLI) == "NvAPI_Mosaic_ValidateDisplayGridsWithSLI"@,
        api_name(Api::NvAPI_Mosaic_ValidateDisplayGrids) == "NvAPI_Mosaic_ValidateDisplayGrids"@,
        api_name(Api::NvAPI_Mosaic_EnumDisplayModes) == "NvAPI_Mosaic_EnumDisplayModes"@,
        api_name(Api::NvAPI_Mosaic_ChooseGpuTopologies) == "NvAPI_Mosaic_ChooseGpuTopologies"@,
        api_name(Api::NvAPI_Mosaic_EnumDisplayGrids) == "NvAPI_Mosaic_EnumDisplayGrids"@,
        api_name(Api::NvAPI_GetSupportedMosaicTopologies) == "NvAPI_GetSupportedMosaicTopologies"@,
        api_name(Api::NvAPI_GetCurrentMosaicTopology) == "NvAPI_GetCurrentMosaicTopology"@,
        api_name(Api::NvAPI_SetCurrentMosaicTopology) == "NvAPI_SetCurrentMosaicTopology"@,
        api_name(Api::NvAPI_EnableCurrentMosaicTopology) == "NvAPI_EnableCurrentMosaicTopology"@,
        api_name(Api::NvAPI_GSync_EnumSyncDevices) == "NvAPI_GSync_EnumSyncDevices"@,
        api_name(Api::NvAPI_GSync_QueryCapabilities) == "NvAPI_GSync_QueryCapabilities"@,
        api_name(Api::NvAPI_GSync_GetTopology) == "NvAPI_GSync_GetTopology"@,
        api_name(Api::NvAPI_GSync_SetSyncStateSettings) == "NvAPI_GSync_SetSyncStateSettings"@,
        api_name(Api::NvAPI_GSync_GetControlParameters) == "NvAPI_GSync_GetControlParameters"@,
        api_name(Api::NvAPI_GSync_SetControlParameters) == "NvAPI_GSync_SetControlParameters"@,
        api_name(Api::NvAPI_GSync_AdjustSyncDelay) == "NvAPI_GSync_AdjustSyncDelay"@,
        api_name(Api::NvAPI_GSync_GetSyncStatus) == "NvAPI_GSync_GetSyncStatus"@,
        api_name(Api::NvAPI_GSync_GetStatusParameters) == "NvAPI_GSync_GetStatusParameters"@,
        api_name(Api::NvAPI_QueryNonMigratableApps) == "NvAPI_QueryNonMigratableApps"@,
        api_name(Api::NvAPI_GPU_QueryActiveApps) == "NvAPI_GPU_QueryActiveApps"@,
        api_name(Api::NvAPI_Hybrid_QueryUnblockedNonMigratableApps) == "NvAPI_Hybrid_QueryUnblockedNonMigratableApps"@,
        api_name(Api::NvAPI_Hybrid_QueryBlockedMigratableApps) == "NvAPI_Hybrid_QueryBlockedMigratableApps"@,
        api_name(Api::NvAPI_Hybrid_SetAppMigrationState) == "NvAPI_Hybrid_SetAppMigrationState"@,
        api_name(Api::NvAPI_Hybrid_IsAppMigrationStateChangeable) == "NvAPI_Hybrid_IsAppMigrationStateChangeable"@,
        api_name(Api::NvAPI_GPU_GPIOQueryLegalPins) == "NvAPI_GPU_GPIOQueryLegalPins"@,
        api_name(Api::NvAPI_GPU_GPIOReadFromPin) == "NvAPI_GPU_GPIOReadFromPin"@,
        api_name(Api::NvAPI_GPU_GPIOWriteToPin) == "NvAPI_GPU_GPIOWriteToPin"@,
        api_name(Api::NvAPI_GPU_GetHDCPSupportStatus) == "NvAPI_GPU_GetHDCPSupportStatus"@,
        api_name(Api::NvAPI_SetTopologyFocusDisplayAndView) == "NvAPI_SetTopologyFocusDisplayAndView"@,
        api_name(Api::NvAPI_Stereo_CreateConfigurationProfileRegistryKey) == "NvAPI_Stereo_CreateConfigurationProfileRegistryKey"@,
        api_name(Api::NvAPI_Stereo_DeleteConfigurationProfileRegistryKey) == "NvAPI_Stereo_DeleteConfigurationProfileRegistryKey"@,
        api_name(Api::NvAPI_Stereo_SetConfigurationProfileValue) == "NvAPI_Stereo_SetConfigurationProfileValue"@,
        api_name(Api::NvAPI_Stereo_DeleteConfigurationProfileValue) == "NvAPI_Stereo_DeleteConfigurationProfileValue"@,
        api_name(Api::NvAPI_Stereo_Enable) == "NvAPI_Stereo_Enable"@,
{
}

/// The names of the driver's listing, from `NvAPI_Stereo_Disable` to `NvAPI_Stereo_GetDefaultProfile`:
/// each API is named by its entry in the listing.
pub proof fn lemma_api_listing_names_7()
    ensures
        api_name(Api::NvAPI_Stereo_Disable) == "NvAPI_Stereo_Disable"@,
        api_name(Api::NvAPI_Stereo_IsEnabled) == "NvAPI_Stereo_IsEnabled"@,
        api_name(Api::NvAPI_Stereo_GetStereoCaps) == "NvAPI_Stereo_GetStereoCaps"@,
        api_name(Api::NvAPI_Stereo_GetStereoSupport) == "NvAPI_Stereo_GetStereoSupport"@,
        api_name(Api::NvAPI_Stereo_CreateHandleFromIUnknown) == "NvAPI_Stereo_CreateHandleFromIUnknown"@,
        api_name(Api::NvAPI_Stereo_DestroyHandle) == "NvAPI_Stereo_DestroyHandle"@,
        api_name(Api::NvAPI_Stereo_Activate) == "NvAPI_Stereo_Activate"@,
        api_name(Api::NvAPI_Stereo_Deactivate) == "NvAPI_Stereo_Deactivate"@,
        api_name(Api::NvAPI_Stereo_IsActivated) == "NvAPI_Stereo_IsActivated"@,
        api_name(Api::NvAPI_Stereo_GetSeparation) == "NvAPI_Stereo_GetSeparation"@,
        api_name(Api::NvAPI_Stereo_SetSeparation) == "NvAPI_Stereo_SetSeparation"@,
        api_name(Api::NvAPI_Stereo_DecreaseSeparation) == "NvAPI_Stereo_DecreaseSeparation"@,
        api_name(Api::NvAPI_Stereo_IncreaseSeparation) == "NvAPI_Stereo_IncreaseSeparation"@,
        api_name(Api::NvAPI_Stereo_GetConvergence) == "NvAPI_Stereo_GetConvergence"@,
        api_name(Api::NvAPI_Stereo_SetConvergence) == "NvAPI_Stereo_SetConvergence"@,
        api_name(Api::NvAPI_Stereo_DecreaseConvergence) == "NvAPI_Stereo_DecreaseConvergence"@,
        api_name(Api::NvAPI_Stereo_IncreaseConvergence) == "NvAPI_Stereo_IncreaseConvergence"@,
        api_name(Api::NvAPI_Stereo_GetFrustumAdjustMode) == "NvAPI_Stereo_GetFrustumAdjustMode"@,
        api_name(Api::NvAPI_Stereo_SetFrustumAdjustMode) == "NvAPI_Stereo_SetFrustumAdjustMode"@,
        api_name(Api::NvAPI_Stereo_CaptureJpegImage) == "NvAPI_Stereo_CaptureJpegImage"@,
        api_name(Api::NvAPI_Stereo_InitActivation) == "NvAPI_Stereo_InitActivation"@,
        api_name(Api::NvAPI_Stereo_Trigger_Activation) == "NvAPI_Stereo_Trigger_Activation"@,
        api_name(Api::NvAPI_Stereo_CapturePngImage) == "NvAPI_Stereo_CapturePngImage"@,
        api_name(Api::NvAPI_Stereo_ReverseStereoBlitControl) == "NvAPI_Stereo_ReverseStereoBlitControl"@,
        api_name(Api::NvAPI_Stereo_SetNotificationMessage) == "NvAPI_Stereo_SetNotificationMessage"@,
        api_name(Api::NvAPI_Stereo_SetActiveEye) == "NvAPI_Stereo_SetActiveEye"@,
        api_name(Api::NvAPI_Stereo_SetDriverMode) == "NvAPI_Stereo_SetDriverMode"@,
        api_name(Api::NvAPI_Stereo_GetEyeSeparation) == "NvAPI_Stereo_GetEyeSeparation"@,
        api_name(Api::NvAPI_Stereo_IsWindowedModeSupported) == "NvAPI_Stereo_IsWindowedModeSupported"@,
        api_name(Api::NvAPI_Stereo_AppHandShake) == "NvAPI_Stereo_AppHandShake"@,
        api_name(Api::NvAPI_Stereo_HandShake_Trigger_Activation) == "NvAPI_Stereo_HandShake_Trigger_Activation"@,
        api_name(Api::NvAPI_Stereo_HandShake_Message_Control) == "NvAPI_Stereo_HandShake_Message_Control"@,
        api_name(Api::NvAPI_Stereo_SetSurfaceCreationMode) == "NvAPI_Stereo_SetSurfaceCreationMode"@,
        api_name(Api::NvAPI_Stereo_GetSurfaceCreationMode) == "NvAPI_Stereo_GetSurfaceCreationMode"@,
        api_name(Api::NvAPI_Stereo_Debug_WasLastDrawStereoized) == "NvAPI_Stereo_Debug_WasLastDrawStereoized"@,
        api_name(Api::NvAPI_Stereo_ForceToScreenDepth) == "NvAPI_Stereo_ForceToScreenDepth"@,
        api_name(Api::NvAPI_Stereo_SetVertexShaderConstantF) == "NvAPI_Stereo_SetVertexShaderConstantF"@,
        api_name(Api::NvAPI_Stereo_SetVertexShaderConstantB) == "NvAPI_Stereo_SetVertexShaderConstantB"@,
        api_name(Api::NvAPI_Stereo_SetVertexShaderConstantI) == "NvAPI_Stereo_SetVertexShaderConstantI"@,
        api_name(Api::NvAPI_Stereo_GetVertexShaderConstantF) == "NvAPI_Stereo_GetVertexShaderConstantF"@,
        api_name(Api::NvAPI_Stereo_GetVertexShaderConstantB) == "NvAPI_Stereo_GetVertexShaderConstantB"@,
        api_name(Api::NvAPI_Stereo_GetVertexShaderConstantI) == "NvAPI_Stereo_GetVertexShaderConstantI"@,
        api_name(Api::NvAPI_Stereo_SetPixelShaderConstantF) == "NvAPI_Stereo_SetPixelShaderConstantF"@,
        api_name(Api::NvAPI_Stereo_SetPixelShaderConstantB) == "NvAPI_Stereo_SetPixelShaderConstantB"@,
        api_name(Api::NvAPI_Stereo_SetPixelShaderConstantI) == "NvAPI_Stereo_SetPixelShaderConstantI"@,
        api_name(Api::NvAPI_Stereo_GetPixelShaderConstantF) == "NvAPI_Stereo_GetPixelShaderConstantF"@,
        api_name(Api::NvAPI_Stereo_GetPixelShaderConstantB) == "NvAPI_Stereo_GetPixelShaderConstantB"@,
        api_name(Api::NvAPI_Stereo_GetPixelShaderConstantI) == "NvAPI_Stereo_GetPixelShaderConstantI"@,
        api_name(Api::NvAPI_Stereo_SetDefaultProfile) == "NvAPI_Stereo_SetDefaultProfile"@,
        api_name(Api::NvAPI_Stereo_GetDefaultProfile) == "NvAPI_Stereo_GetDefaultProfile"@,
{
}

/// The names of the driver's listing, from `NvAPI_Stereo_Is3DCursorSupported` to `NvAPI_DISP_SetPreferredStereoDisplay`:
/// each API is named by its entry in the listing.
pub proof fn lemma_api_listing_names_8()
    ensures
        api_name(Api::NvAPI_Stereo_Is3DCursorSupported) == "NvAPI_Stereo_Is3DCursorSupported"@,
        api_name(Api::NvAPI_Stereo_GetCursorSeparation) == "NvAPI_Stereo_GetCursorSeparation"@,
        api_name(Api::NvAPI_Stereo_SetCursorSeparation) == "NvAPI_Stereo_SetCursorSeparation"@,
        api_name(Api::NvAPI_VIO_GetCapabilities) == "NvAPI_VIO_GetCapabilities"@,
        api_name(Api::NvAPI_VIO_Open) == "NvAPI_VIO_Open"@,
        api_name(Api::NvAPI_VIO_Close) == "NvAPI_VIO_Close"@,
        api_name(Api::NvAPI_VIO_Status) == "NvAPI_VIO_Status"@,
        api_name(Api::NvAPI_VIO_SyncFormatDetect) == "NvAPI_VIO_SyncFormatDetect"@,
        api_name(Api::NvAPI_VIO_GetConfig) == "NvAPI_VIO_GetConfig"@,
        api_name(Api::NvAPI_VIO_SetConfig) == "NvAPI_VIO_SetConfig"@,
        api_name(Api::NvAPI_VIO_SetCSC) == "NvAPI_VIO_SetCSC"@,
        api_name(Api::NvAPI_VIO_GetCSC) == "NvAPI_VIO_GetCSC"@,
        api_name(Api::NvAPI_VIO_SetGamma) == "NvAPI_VIO_SetGamma"@,
        api_name(Api::NvAPI_VIO_GetGamma) == "NvAPI_VIO_GetGamma"@,
        api_name(Api::NvAPI_VIO_SetSyncDelay) == "NvAPI_VIO_SetSyncDelay"@,
        api_name(Api::NvAPI_VIO_GetSyncDelay) == "NvAPI_VIO_GetSyncDelay"@,
        api_name(Api::NvAPI_VIO_GetPCIInfo) == "NvAPI_VIO_GetPCIInfo"@,
        api_name(Api::NvAPI_VIO_IsRunning) == "NvAPI_VIO_IsRunning"@,
        api_name(Api::NvAPI_VIO_Start) == "NvAPI_VIO_Start"@,
        api_name(Api::NvAPI_VIO_Stop) == "NvAPI_VIO_Stop"@,
        api_name(Api::NvAPI_VIO_IsFrameLockModeCompatible) == "NvAPI_VIO_IsFrameLockModeCompatible"@,
        api_name(Api::NvAPI_VIO_EnumDevices) == "NvAPI_VIO_EnumDevices"@,
        api_name(Api::NvAPI_VIO_QueryTopology) == "NvAPI_VIO_QueryTopology"@,
        api_name(Api::NvAPI_VIO_EnumSignalFormats) == "NvAPI_VIO_EnumSignalFormats"@,
        api_name(Api::NvAPI_VIO_EnumDataFormats) == "NvAPI_VIO_EnumDataFormats"@,
        api_name(Api::NvAPI_GPU_GetTachReading) == "NvAPI_GPU_GetTachReading"@,
        api_name(Api::NvAPI_3D_GetProperty) == "NvAPI_3D_GetProperty"@,
        api_name(Api::NvAPI_3D_SetProperty) == "NvAPI_3D_SetProperty"@,
        api_name(Api::NvAPI_3D_GetPropertyRange) == "NvAPI_3D_GetPropertyRange"@,
        api_name(Api::NvAPI_GPS_GetPowerSteeringStatus) == "NvAPI_GPS_GetPowerSteeringStatus"@,
        api_name(Api::NvAPI_GPS_SetPowerSteeringStatus) == "NvAPI_GPS_SetPowerSteeringStatus"@,
        api_name(Api::NvAPI_GPS_SetVPStateCap) == "NvAPI_GPS_SetVPStateCap"@,
        api_name(Api::NvAPI_GPS_GetVPStateCap) == "NvAPI_GPS_GetVPStateCap"@,
        api_name(Api::NvAPI_GPS_GetThermalLimit) == "NvAPI_GPS_GetThermalLimit"@,
        api_name(Api::NvAPI_GPS_SetThermalLimit) == "NvAPI_GPS_SetThermalLimit"@,
        api_name(Api::NvAPI_GPS_GetPerfSensors) == "NvAPI_GPS_GetPerfSensors"@,
        api_name(Api::NvAPI_SYS_GetDisplayIdFromGpuAndOutputId) == "NvAPI_SYS_GetDisplayIdFromGpuAndOutputId"@,
        api_name(Api::NvAPI_SYS_GetGpuAndOutputIdFromDisplayId) == "NvAPI_SYS_GetGpuAndOutputIdFromDisplayId"@,
        api_name(Api::NvAPI_GPU_ClientRegisterForUtilizationSampleUpdates) == "NvAPI_GPU_ClientRegisterForUtilizationSampleUpdates"@,
        api_name(Api::NvAPI_SYS_GetDisplayDriverInfo) == "NvAPI_SYS_GetDisplayDriverInfo"@,
        api_name(Api::NvAPI_SYS_GetPhysicalGpuFromDisplayId) == "NvAPI_SYS_GetPhysicalGpuFromDisplayId"@,
        api_name(Api::NvAPI_DISP_GetDisplayIdByDisplayName) == "NvAPI_DISP_GetDisplayIdByDisplayName"@,
        api_name(Api::NvAPI_DISP_GetGDIPrimaryDisplayId) == "NvAPI_DISP_GetGDIPrimaryDisplayId"@,
        api_name(Api::NvAPI_DISP_GetDisplayConfig) == "NvAPI_DISP_GetDisplayConfig"@,
        api_name(Api::NvAPI_DISP_SetDisplayConfig) == "NvAPI_DISP_SetDisplayConfig"@,
        api_name(Api::NvAPI_DISP_GetAdaptiveSyncData) == "NvAPI_DISP_GetAdaptiveSyncData"@,
        api_name(Api::NvAPI_DISP_SetAdaptiveSyncData) == "NvAPI_DISP_SetAdaptiveSyncData"@,
        api_name(Api::NvAPI_DISP_GetVirtualRefreshRateData) == "NvAPI_DISP_GetVirtualRefreshRateData"@,
        api_name(Api::NvAPI_DISP_SetVirtualRefreshRateData) == "NvAPI_DISP_SetVirtualRefreshRateData"@,
        api_name(Api::NvAPI_DISP_SetPreferredStereoDisplay) == "NvAPI_DISP_SetPreferredStereoDisplay"@,
{
}

/// The names of the driver's listing, from `NvAPI_DISP_GetPreferredStereoDisplay` to `NvAPI_DRS_GetNumProfiles`:
/// each API is named by its entry in the listing.
pub proof fn lemma_api_listing_names_9()
    ensures
        api_name(Api::NvAPI_DISP_GetPreferredStereoDisplay) == "NvAPI_DISP_GetPreferredStereoDisplay"@,
        api_name(Api::NvAPI_DISP_GetNvManagedDedicatedDisplays) == "NvAPI_DISP_GetNvManagedDedicatedDisplays"@,
        api_name(Api::NvAPI_DISP_AcquireDedicatedDisplay) == "NvAPI_DISP_AcquireDedicatedDisplay"@,
        api_name(Api::NvAPI_DISP_ReleaseDedicatedDisplay) == "NvAPI_DISP_ReleaseDedicatedDisplay"@,
        api_name(Api::NvAPI_GPU_GetPixelClockRange) == "NvAPI_GPU_GetPixelClockRange"@,
        api_name(Api::NvAPI_GPU_SetPixelClockRange) == "NvAPI_GPU_SetPixelClockRange"@,
        api_name(Api::NvAPI_GPU_GetECCStatusInfo) == "NvAPI_GPU_GetECCStatusInfo"@,
        api_name(Api::NvAPI_GPU_GetECCErrorInfo) == "NvAPI_GPU_GetECCErrorInfo"@,
        api_name(Api::NvAPI_GPU_ResetECCErrorInfo) == "NvAPI_GPU_ResetECCErrorInfo"@,
        api_name(Api::NvAPI_GPU_GetECCConfigurationInfo) == "NvAPI_GPU_GetECCConfigurationInfo"@,
        api_name(Api::NvAPI_GPU_SetECCConfiguration) == "NvAPI_GPU_SetECCConfiguration"@,
        api_name(Api::NvAPI_D3D1x_CreateSwapChain) == "NvAPI_D3D1x_CreateSwapChain"@,
        api_name(Api::NvAPI_D3D9_CreateSwapChain) == "NvAPI_D3D9_CreateSwapChain"@,
        api_name(Api::NvAPI_D3D_SetFPSIndicatorState) == "NvAPI_D3D_SetFPSIndicatorState"@,
        api_name(Api::NvAPI_D3D9_Present) == "NvAPI_D3D9_Present"@,
        api_name(Api::NvAPI_D3D9_QueryFrameCount) == "NvAPI_D3D9_QueryFrameCount"@,
        api_name(Api::NvAPI_D3D9_ResetFrameCount) == "NvAPI_D3D9_ResetFrameCount"@,
        api_name(Api::NvAPI_D3D9_QueryMaxSwapGroup) == "NvAPI_D3D9_QueryMaxSwapGroup"@,
        api_name(Api::NvAPI_D3D9_QuerySwapGroup) == "NvAPI_D3D9_QuerySwapGroup"@,
        api_name(Api::NvAPI_D3D9_JoinSwapGroup) == "NvAPI_D3D9_JoinSwapGroup"@,
        api_name(Api::NvAPI_D3D9_BindSwapBarrier) == "NvAPI_D3D9_BindSwapBarrier"@,
        api_name(Api::NvAPI_D3D1x_Present) == "NvAPI_D3D1x_Present"@,
        api_name(Api::NvAPI_D3D1x_QueryFrameCount) == "NvAPI_D3D1x_QueryFrameCount"@,
        api_name(Api::NvAPI_D3D1x_ResetFrameCount) == "NvAPI_D3D1x_ResetFrameCount"@,
        api_name(Api::NvAPI_D3D1x_QueryMaxSwapGroup) == "NvAPI_D3D1x_QueryMaxSwapGroup"@,
        api_name(Api::NvAPI_D3D1x_QuerySwapGroup) == "NvAPI_D3D1x_QuerySwapGroup"@,
        api_name(Api::NvAPI_D3D1x_JoinSwapGroup) == "NvAPI_D3D1x_JoinSwapGroup"@,
        api_name(Api::NvAPI_D3D1x_BindSwapBarrier) == "NvAPI_D3D1x_BindSwapBarrier"@,
        api_name(Api::NvAPI_SYS_VenturaGetState) == "NvAPI_SYS_VenturaGetState"@,
        api_name(Api::NvAPI_SYS_VenturaSetState) == "NvAPI_SYS_VenturaSetState"@,
        api_name(Api::NvAPI_SYS_VenturaGetCoolingBudget) == "NvAPI_SYS_VenturaGetCoolingBudget"@,
        api_name(Api::NvAPI_SYS_VenturaSetCoolingBudget) == "NvAPI_SYS_VenturaSetCoolingBudget"@,
        api_name(Api::NvAPI_SYS_VenturaGetPowerReading) == "NvAPI_SYS_VenturaGetPowerReading"@,
        api_name(Api::NvAPI_DISP_GetDisplayBlankingState) == "NvAPI_DISP_GetDisplayBlankingState"@,
        api_name(Api::NvAPI_DISP_SetDisplayBlankingState) == "NvAPI_DISP_SetDisplayBlankingState"@,
        api_name(Api::NvAPI_DRS_CreateSession) == "NvAPI_DRS_CreateSession"@,
        api_name(Api::NvAPI_DRS_DestroySession) == "NvAPI_DRS_DestroySession"@,
        api_name(Api::NvAPI_DRS_LoadSettings) == "NvAPI_DRS_LoadSettings"@,
        api_name(Api::NvAPI_DRS_SaveSettings) == "NvAPI_DRS_SaveSettings"@,
        api_name(Api::NvAPI_DRS_LoadSettingsFromFile) == "NvAPI_DRS_LoadSettingsFromFile"@,
        api_name(Api::NvAPI_DRS_SaveSettingsToFile) == "NvAPI_DRS_SaveSettingsToFile"@,
        api_name(Api::NvAPI_DRS_CreateProfile) == "NvAPI_DRS_CreateProfile"@,
        api_name(Api::NvAPI_DRS_DeleteProfile) == "NvAPI_DRS_DeleteProfile"@,
        api_name(Api::NvAPI_DRS_SetCurrentGlobalProfile) == "NvAPI_DRS_SetCurrentGlobalProfile"@,
        api_name(Api::NvAPI_DRS_GetCurrentGlobalProfile) == "NvAPI_DRS_GetCurrentGlobalProfile"@,
        api_name(Api::NvAPI_DRS_GetProfileInfo) == "NvAPI_DRS_GetProfileInfo"@,
        api_name(Api::NvAPI_DRS_SetProfileInfo) == "NvAPI_DRS_SetProfileInfo"@,
        api_name(Api::NvAPI_DRS_FindProfileByName) == "NvAPI_DRS_FindProfileByName"@,
        api_name(Api::NvAPI_DRS_EnumProfiles) == "NvAPI_DRS_EnumProfiles"@,
        api_name(Api::NvAPI_DRS_GetNumProfiles) == "NvAPI_DRS_GetNumProfiles"@,
{
}

/// The names of the driver's listing, from `NvAPI_DRS_CreateApplication` to `NvAPI_GPU_GetMemoryInfoEx`:
/// each API is named by its entry in the listing.
pub proof fn lemma_api_listing_names_10()
    ensures
        api_name(Api::NvAPI_DRS_CreateApplication) == "NvAPI_DRS_CreateApplication"@,
        api_name(Api::NvAPI_DRS_DeleteApplicationEx) == "NvAPI_DRS_DeleteApplicationEx"@,
        api_name(Api::NvAPI_DRS_DeleteApplication) == "NvAPI_DRS_DeleteApplication"@,
        api_name(Api::NvAPI_DRS_GetApplicationInfo) == "NvAPI_DRS_GetApplicationInfo"@,
        api_name(Api::NvAPI_DRS_EnumApplications) == "NvAPI_DRS_EnumApplications"@,
        api_name(Api::NvAPI_DRS_FindApplicationByName) == "NvAPI_DRS_FindApplicationByName"@,
        api_name(Api::NvAPI_DRS_SetSetting) == "NvAPI_DRS_SetSetting"@,
        api_name(Api::NvAPI_DRS_GetSetting) == "NvAPI_DRS_GetSetting"@,
        api_name(Api::NvAPI_DRS_EnumSettings) == "NvAPI_DRS_EnumSettings"@,
        api_name(Api::NvAPI_DRS_EnumAvailableSettingIds) == "NvAPI_DRS_EnumAvailableSettingIds"@,
        api_name(Api::NvAPI_DRS_EnumAvailableSettingValues) == "NvAPI_DRS_EnumAvailableSettingValues"@,
        api_name(Api::NvAPI_DRS_GetSettingIdFromName) == "NvAPI_DRS_GetSettingIdFromName"@,
        api_name(Api::NvAPI_DRS_GetSettingNameFromId) == "NvAPI_DRS_GetSettingNameFromId"@,
        api_name(Api::NvAPI_DRS_DeleteProfileSetting) == "NvAPI_DRS_DeleteProfileSetting"@,
        api_name(Api::NvAPI_DRS_RestoreAllDefaults) == "NvAPI_DRS_RestoreAllDefaults"@,
        api_name(Api::NvAPI_DRS_RestoreProfileDefault) == "NvAPI_DRS_RestoreProfileDefault"@,
        api_name(Api::NvAPI_DRS_RestoreProfileDefaultSetting) == "NvAPI_DRS_RestoreProfileDefaultSetting"@,
        api_name(Api::NvAPI_DRS_GetBaseProfile) == "NvAPI_DRS_GetBaseProfile"@,
        api_name(Api::NvAPI_Event_RegisterCallback) == "NvAPI_Event_RegisterCallback"@,
        api_name(Api::NvAPI_Event_UnregisterCallback) == "NvAPI_Event_UnregisterCallback"@,
        api_name(Api::NvAPI_GPU_GetCurrentThermalLevel) == "NvAPI_GPU_GetCurrentThermalLevel"@,
        api_name(Api::NvAPI_GPU_GetCurrentFanSpeedLevel) == "NvAPI_GPU_GetCurrentFanSpeedLevel"@,
        api_name(Api::NvAPI_GPU_SetScanoutIntensity) == "NvAPI_GPU_SetScanoutIntensity"@,
        api_name(Api::NvAPI_GPU_GetScanoutIntensityState) == "NvAPI_GPU_GetScanoutIntensityState"@,
        api_name(Api::NvAPI_GPU_SetScanoutWarping) == "NvAPI_GPU_SetScanoutWarping"@,
        api_name(Api::NvAPI_GPU_GetScanoutWarpingState) == "NvAPI_GPU_GetScanoutWarpingState"@,
        api_name(Api::NvAPI_GPU_SetScanoutCompositionParameter) == "NvAPI_GPU_SetScanoutCompositionParameter"@,
        api_name(Api::NvAPI_GPU_GetScanoutCompositionParameter) == "NvAPI_GPU_GetScanoutCompositionParameter"@,
        api_name(Api::NvAPI_GPU_GetScanoutConfiguration) == "NvAPI_GPU_GetScanoutConfiguration"@,
        api_name(Api::NvAPI_GPU_GetScanoutConfigurationEx) == "NvAPI_GPU_GetScanoutConfigurationEx"@,
        api_name(Api::NvAPI_DISP_SetHCloneTopology) == "NvAPI_DISP_SetHCloneTopology"@,
        api_name(Api::NvAPI_DISP_GetHCloneTopology) == "NvAPI_DISP_GetHCloneTopology"@,
        api_name(Api::NvAPI_DISP_ValidateHCloneTopology) == "NvAPI_DISP_ValidateHCloneTopology"@,
        api_name(Api::NvAPI_GPU_GetAdapterIdFromPhysicalGpu) == "NvAPI_GPU_GetAdapterIdFromPhysicalGpu"@,
        api_name(Api::NvAPI_GPU_GetVirtualizationInfo) == "NvAPI_GPU_GetVirtualizationInfo"@,
        api_name(Api::NvAPI_GPU_GetLogicalGpuInfo) == "NvAPI_GPU_GetLogicalGpuInfo"@,
        api_name(Api::NvAPI_GPU_GetLicensableFeatures) == "NvAPI_GPU_GetLicensableFeatures"@,
        api_name(Api::NvAPI_GPU_GetVRReadyData) == "NvAPI_GPU_GetVRReadyData"@,
        api_name(Api::NvAPI_GPU_GetPerfDecreaseInfo) == "NvAPI_GPU_GetPerfDecreaseInfo"@,
        api_name(Api::NvAPI_GPU_QueryIlluminationSupport) == "NvAPI_GPU_QueryIlluminationSupport"@,
        api_name(Api::NvAPI_GPU_GetIllumination) == "NvAPI_GPU_GetIllumination"@,
        api_name(Api::NvAPI_GPU_SetIllumination) == "NvAPI_GPU_SetIllumination"@,
        api_name(Api::NvAPI_D3D1x_IFR_SetUpTargetBufferToSys) == "NvAPI_D3D1x_IFR_SetUpTargetBufferToSys"@,
        api_name(Api::NvAPI_D3D1x_IFR_TransferRenderTarget) == "NvAPI_D3D1x_IFR_TransferRenderTarget"@,
        api_name(Api::NvAPI_GetPhysicalGPUFromDisplay) == "NvAPI_GetPhysicalGPUFromDisplay"@,
        api_name(Api::NvAPI_GetPhysicalGPUFromGPUID) == "NvAPI_GetPhysicalGPUFromGPUID"@,
        api_name(Api::NvAPI_GetGPUIDfromPhysicalGPU) == "NvAPI_GetGPUIDfromPhysicalGPU"@,
        api_name(Api::NvAPI_GetInfoFrameStatePvt) == "NvAPI_GetInfoFrameStatePvt"@,
        api_name(Api::NvAPI_GPU_GetMemoryInfo) == "NvAPI_GPU_GetMemoryInfo"@,
        api_name(Api::NvAPI_GPU_GetMemoryInfoEx) == "NvAPI_GPU_GetMemoryInfoEx"@,
{
}

/// The names of the driver's listing, from `NvAPI_LoadMicrocode` to `NvAPI_GPU_PhysxSetState`:
/// each API is named by its entry in the listing.
pub proof fn lemma_api_listing_names_11()
    ensures
        api_name(Api::NvAPI_LoadMicrocode) == "NvAPI_LoadMicrocode"@,
        api_name(Api::NvAPI_GetLoadedMicrocodePrograms) == "NvAPI_GetLoadedMicrocodePrograms"@,
        api_name(Api::NvAPI_GetDisplayDriverBuildTitle) == "NvAPI_GetDisplayDriverBuildTitle"@,
        api_name(Api::NvAPI_GetDisplayDriverCompileType) == "NvAPI_GetDisplayDriverCompileType"@,
        api_name(Api::NvAPI_GetDisplayDriverSecurityLevel) == "NvAPI_GetDisplayDriverSecurityLevel"@,
        api_name(Api::NvAPI_AccessDisplayDriverRegistry) == "NvAPI_AccessDisplayDriverRegistry"@,
        api_name(Api::NvAPI_GetDisplayDriverRegistryPath) == "NvAPI_GetDisplayDriverRegistryPath"@,
        api_name(Api::NvAPI_GetUnAttachedDisplayDriverRegistryPath) == "NvAPI_GetUnAttachedDisplayDriverRegistryPath"@,
        api_name(Api::NvAPI_GPU_GetRawFuseData) == "NvAPI_GPU_GetRawFuseData"@,
        api_name(Api::NvAPI_GPU_GetFoundry) == "NvAPI_GPU_GetFoundry"@,
        api_name(Api::NvAPI_GPU_GetVPECount) == "NvAPI_GPU_GetVPECount"@,
        api_name(Api::NvAPI_GPU_GetTargetID) == "NvAPI_GPU_GetTargetID"@,
        api_name(Api::NvAPI_GPU_GetShortName) == "NvAPI_GPU_GetShortName"@,
        api_name(Api::NvAPI_GPU_GetVbiosMxmVersion) == "NvAPI_GPU_GetVbiosMxmVersion"@,
        api_name(Api::NvAPI_GPU_GetVbiosImage) == "NvAPI_GPU_GetVbiosImage"@,
        api_name(Api::NvAPI_GPU_GetMXMBlock) == "NvAPI_GPU_GetMXMBlock"@,
        api_name(Api::NvAPI_GPU_SetCurrentPCIEWidth) == "NvAPI_GPU_SetCurrentPCIEWidth"@,
        api_name(Api::NvAPI_GPU_SetCurrentPCIESpeed) == "NvAPI_GPU_SetCurrentPCIESpeed"@,
        api_name(Api::NvAPI_GPU_GetPCIEInfo) == "NvAPI_GPU_GetPCIEInfo"@,
        api_name(Api::NvAPI_GPU_ClearPCIELinkErrorInfo) == "NvAPI_GPU_ClearPCIELinkErrorInfo"@,
        api_name(Api::NvAPI_GPU_ClearPCIELinkAERInfo) == "NvAPI_GPU_ClearPCIELinkAERInfo"@,
        api_name(Api::NvAPI_GPU_GetFrameBufferCalibrationLockFailures) == "NvAPI_GPU_GetFrameBufferCalibrationLockFailures"@,
        api_name(Api::NvAPI_GPU_SetDisplayUnderflowMode) == "NvAPI_GPU_SetDisplayUnderflowMode"@,
        api_name(Api::NvAPI_GPU_GetDisplayUnderflowStatus) == "NvAPI_GPU_GetDisplayUnderflowStatus"@,
        api_name(Api::NvAPI_GPU_GetBarInfo) == "NvAPI_GPU_GetBarInfo"@,
        api_name(Api::NvAPI_GPU_GetPSFloorSweepStatus) == "NvAPI_GPU_GetPSFloorSweepStatus"@,
        api_name(Api::NvAPI_GPU_GetVSFloorSweepStatus) == "NvAPI_GPU_GetVSFloorSweepStatus"@,
        api_name(Api::NvAPI_GPU_GetSerialNumber) == "NvAPI_GPU_GetSerialNumber"@,
        api_name(Api::NvAPI_GPU_GetManufacturingInfo) == "NvAPI_GPU_GetManufacturingInfo"@,
        api_name(Api::NvAPI_GPU_GetRamConfigStrap) == "NvAPI_GPU_GetRamConfigStrap"@,
        api_name(Api::NvAPI_GPU_GetRamBusWidth) == "NvAPI_GPU_GetRamBusWidth"@,
        api_name(Api::NvAPI_GPU_GetRamBankCount) == "NvAPI_GPU_GetRamBankCount"@,
        api_name(Api::NvAPI_GPU_GetArchInfo) == "NvAPI_GPU_GetArchInfo"@,
        api_name(Api::NvAPI_GPU_GetExtendedMinorRevision) == "NvAPI_GPU_GetExtendedMinorRevision"@,
        api_name(Api::NvAPI_GPU_GetSampleType) == "NvAPI_GPU_GetSampleType"@,
        api_name(Api::NvAPI_GPU_GetHardwareQualType) == "NvAPI_GPU_GetHardwareQualType"@,
        api_name(Api::NvAPI_GPU_GetAllClocks) == "NvAPI_GPU_GetAllClocks"@,
        api_name(Api::NvAPI_GPU_SetClocks) == "NvAPI_GPU_SetClocks"@,
        api_name(Api::NvAPI_GPU_SetPerfHybridMode) == "NvAPI_GPU_SetPerfHybridMode"@,
        api_name(Api::NvAPI_GPU_GetPerfHybridMode) == "NvAPI_GPU_GetPerfHybridMode"@,
        api_name(Api::NvAPI_GPU_GetHybridControllerInfo) == "NvAPI_GPU_GetHybridControllerInfo"@,
        api_name(Api::NvAPI_RestartDisplayDriver) == "NvAPI_RestartDisplayDriver"@,
        api_name(Api::NvAPI_GPU_GetAllGpusOnSameBoard) == "NvAPI_GPU_GetAllGpusOnSameBoard"@,
        api_name(Api::NvAPI_SetTopologyDisplayGPU) == "NvAPI_SetTopologyDisplayGPU"@,
        api_name(Api::NvAPI_GetTopologyDisplayGPU) == "NvAPI_GetTopologyDisplayGPU"@,
        api_name(Api::NvAPI_SYS_GetSliApprovalCookie) == "NvAPI_SYS_GetSliApprovalCookie"@,
        api_name(Api::NvAPI_CreateUnAttachedDisplayFromDisplay) == "NvAPI_CreateUnAttachedDisplayFromDisplay"@,
        api_name(Api::NvAPI_GetDriverModel) == "NvAPI_GetDriverModel"@,
        api_name(Api::NvAPI_GPU_CudaEnumComputeCapableGpus) == "NvAPI_GPU_CudaEnumComputeCapableGpus"@,
        api_name(Api::NvAPI_GPU_PhysxSetState) == "NvAPI_GPU_PhysxSetState"@,
{
}

/// The names of the driver's listing, from `NvAPI_GPU_PhysxQueryRecommendedState` to `NvAPI_D3D_SetResourceHint`:
/// each API is named by its entry in the listing.
pub proof fn lemma_api_listing_names_12()
    ensures
        api_name(Api::NvAPI_GPU_PhysxQueryRecommendedState) == "NvAPI_GPU_PhysxQueryRecommendedState"@,
        api_name(Api::NvAPI_GPU_GetDeepIdleState) == "NvAPI_GPU_GetDeepIdleState"@,
        api_name(Api::NvAPI_GPU_SetDeepIdleState) == "NvAPI_GPU_SetDeepIdleState"@,
        api_name(Api::NvAPI_GetScalingCaps) == "NvAPI_GetScalingCaps"@,
        api_name(Api::NvAPI_GPU_GetThermalTable) == "NvAPI_GPU_GetThermalTable"@,
        api_name(Api::NvAPI_SYS_SetPostOutput) == "NvAPI_SYS_SetPostOutput"@,
        api_name(Api::NvAPI_GPU_PerfPoliciesGetInfo) == "NvAPI_GPU_PerfPoliciesGetInfo"@,
        api_name(Api::NvAPI_GPU_PerfPoliciesGetStatus) == "NvAPI_GPU_PerfPoliciesGetStatus"@,
        api_name(Api::NvAPI_GPU_ClientThermalPoliciesGetInfo) == "NvAPI_GPU_ClientThermalPoliciesGetInfo"@,
        api_name(Api::NvAPI_GPU_ClientThermalPoliciesGetStatus) == "NvAPI_GPU_ClientThermalPoliciesGetStatus"@,
        api_name(Api::NvAPI_GPU_ClientThermalPoliciesSetStatus) == "NvAPI_GPU_ClientThermalPoliciesSetStatus"@,
        api_name(Api::NvAPI_GPU_ClientVoltRailsGetStatus) == "NvAPI_GPU_ClientVoltRailsGetStatus"@,
        api_name(Api::NvAPI_GPU_GetVoltageStep) == "NvAPI_GPU_GetVoltageStep"@,
        api_name(Api::NvAPI_GPU_ClockClientClkDomainsGetInfo) == "NvAPI_GPU_ClockClientClkDomainsGetInfo"@,
        api_name(Api::NvAPI_GPU_ClockClientClkVfPointsGetInfo) == "NvAPI_GPU_ClockClientClkVfPointsGetInfo"@,
        api_name(Api::NvAPI_GPU_ClockClientClkVfPointsGetControl) == "NvAPI_GPU_ClockClientClkVfPointsGetControl"@,
        api_name(Api::NvAPI_GPU_ClockClientClkVfPointsSetControl) == "NvAPI_GPU_ClockClientClkVfPointsSetControl"@,
        api_name(Api::NvAPI_GPU_ClockClientClkVfPointsGetStatus) == "NvAPI_GPU_ClockClientClkVfPointsGetStatus"@,
        api_name(Api::NvAPI_GPU_PerfClientLimitsGetStatus) == "NvAPI_GPU_PerfClientLimitsGetStatus"@,
        api_name(Api::NvAPI_GPU_PerfClientLimitsSetStatus) == "NvAPI_GPU_PerfClientLimitsSetStatus"@,
        api_name(Api::NvAPI_GPU_ClientVoltRailsGetControl) == "NvAPI_GPU_ClientVoltRailsGetControl"@,
        api_name(Api::NvAPI_GPU_ClientVoltRailsSetControl) == "NvAPI_GPU_ClientVoltRailsSetControl"@,
        api_name(Api::NvAPI_GPU_ClientFanArbitersGetControl) == "NvAPI_GPU_ClientFanArbitersGetControl"@,
        api_name(Api::NvAPI_GPU_ClientFanArbitersGetInfo) == "NvAPI_GPU_ClientFanArbitersGetInfo"@,
        api_name(Api::NvAPI_GPU_ClientFanArbitersGetStatus) == "NvAPI_GPU_ClientFanArbitersGetStatus"@,
        api_name(Api::NvAPI_GPU_ClientFanArbitersSetControl) == "NvAPI_GPU_ClientFanArbitersSetControl"@,
        api_name(Api::NvAPI_GPU_ClientFanCoolersGetControl) == "NvAPI_GPU_ClientFanCoolersGetControl"@,
        api_name(Api::NvAPI_GPU_ClientFanCoolersGetInfo) == "NvAPI_GPU_ClientFanCoolersGetInfo"@,
        api_name(Api::NvAPI_GPU_ClientFanCoolersGetStatus) == "NvAPI_GPU_ClientFanCoolersGetStatus"@,
        api_name(Api::NvAPI_GPU_ClientFanCoolersSetControl) == "NvAPI_GPU_ClientFanCoolersSetControl"@,
        api_name(Api::NvAPI_GPU_ClientFanPoliciesGetControl) == "NvAPI_GPU_ClientFanPoliciesGetControl"@,
        api_name(Api::NvAPI_GPU_ClientFanPoliciesGetInfo) == "NvAPI_GPU_ClientFanPoliciesGetInfo"@,
        api_name(Api::NvAPI_GPU_ClientFanPoliciesSetControl) == "NvAPI_GPU_ClientFanPoliciesSetControl"@,
        api_name(Api::NvAPI_GPU_ClientGetLastOcScannerResults) == "NvAPI_GPU_ClientGetLastOcScannerResults"@,
        api_name(Api::NvAPI_GPU_ClientGetOcConfig) == "NvAPI_GPU_ClientGetOcConfig"@,
        api_name(Api::NvAPI_GPU_ClientIllumDevicesGetInfo) == "NvAPI_GPU_ClientIllumDevicesGetInfo"@,
        api_name(Api::NvAPI_GPU_ClientIllumDevicesGetControl) == "NvAPI_GPU_ClientIllumDevicesGetControl"@,
        api_name(Api::NvAPI_GPU_ClientIllumDevicesSetControl) == "NvAPI_GPU_ClientIllumDevicesSetControl"@,
        api_name(Api::NvAPI_GPU_ClientIllumZonesGetControl) == "NvAPI_GPU_ClientIllumZonesGetControl"@,
        api_name(Api::NvAPI_GPU_ClientIllumZonesGetInfo) == "NvAPI_GPU_ClientIllumZonesGetInfo"@,
        api_name(Api::NvAPI_GPU_ClientIllumZonesSetControl) == "NvAPI_GPU_ClientIllumZonesSetControl"@,
        api_name(Api::NvAPI_GPU_ClientRegisterForOcConfigChangedUpdates) == "NvAPI_GPU_ClientRegisterForOcConfigChangedUpdates"@,
        api_name(Api::NvAPI_GPU_ClientRegisterForOcScannerStatusUpdates) == "NvAPI_GPU_ClientRegisterForOcScannerStatusUpdates"@,
        api_name(Api::NvAPI_GPU_ClientRevertOc) == "NvAPI_GPU_ClientRevertOc"@,
        api_name(Api::NvAPI_GPU_ClientStartOcScanner) == "NvAPI_GPU_ClientStartOcScanner"@,
        api_name(Api::NvAPI_GPU_ClientStopOcScanner) == "NvAPI_GPU_ClientStopOcScanner"@,
        api_name(Api::NvAPI_GPU_GetUsages) == "NvAPI_GPU_GetUsages"@,
        api_name(Api::NvAPI_GPU_GetRamMaker) == "NvAPI_GPU_GetRamMaker"@,
        api_name(Api::NvAPI_D3D_GetObjectHandleForResource) == "NvAPI_D3D_GetObjectHandleForResource"@,
        api_name(Api::NvAPI_D3D_SetResourceHint) == "NvAPI_D3D_SetResourceHint"@,
{
}

/// The names of the driver's listing, from `NvAPI_D3D_BeginResourceRendering` to `NvAPI_D3D12_CreateMetaCommand`:
/// each API is named by its entry in the listing.
pub proof fn lemma_api_listing_names_13()
    ensures
        api_name(Api::NvAPI_D3D_BeginResourceRendering) == "NvAPI_D3D_BeginResourceRendering"@,
        api_name(Api::NvAPI_D3D_EndResourceRendering) == "NvAPI_D3D_EndResourceRendering"@,
        api_name(Api::NvAPI_D3D12_QueryPresentBarrierSupport) == "NvAPI_D3D12_QueryPresentBarrierSupport"@,
        api_name(Api::NvAPI_D3D12_CreatePresentBarrierClient) == "NvAPI_D3D12_CreatePresentBarrierClient"@,
        api_name(Api::NvAPI_D3D12_RegisterPresentBarrierResources) == "NvAPI_D3D12_RegisterPresentBarrierResources"@,
        api_name(Api::NvAPI_DestroyPresentBarrierClient) == "NvAPI_DestroyPresentBarrierClient"@,
        api_name(Api::NvAPI_JoinPresentBarrier) == "NvAPI_JoinPresentBarrier"@,
        api_name(Api::NvAPI_LeavePresentBarrier) == "NvAPI_LeavePresentBarrier"@,
        api_name(Api::NvAPI_QueryPresentBarrierFrameStatistics) == "NvAPI_QueryPresentBarrierFrameStatistics"@,
        api_name(Api::NvAPI_D3D12_CreateDDisplayPresentBarrierClient) == "NvAPI_D3D12_CreateDDisplayPresentBarrierClient"@,
        api_name(Api::NvAPI_D3D11_CreateRasterizerState) == "NvAPI_D3D11_CreateRasterizerState"@,
        api_name(Api::NvAPI_D3D_ConfigureAnsel) == "NvAPI_D3D_ConfigureAnsel"@,
        api_name(Api::NvAPI_D3D11_CreateTiledTexture2DArray) == "NvAPI_D3D11_CreateTiledTexture2DArray"@,
        api_name(Api::NvAPI_D3D11_CheckFeatureSupport) == "NvAPI_D3D11_CheckFeatureSupport"@,
        api_name(Api::NvAPI_D3D11_CreateImplicitMSAATexture2D) == "NvAPI_D3D11_CreateImplicitMSAATexture2D"@,
        api_name(Api::NvAPI_D3D12_CreateCommittedImplicitMSAATexture2D) == "NvAPI_D3D12_CreateCommittedImplicitMSAATexture2D"@,
        api_name(Api::NvAPI_D3D11_ResolveSubresourceRegion) == "NvAPI_D3D11_ResolveSubresourceRegion"@,
        api_name(Api::NvAPI_D3D12_ResolveSubresourceRegion) == "NvAPI_D3D12_ResolveSubresourceRegion"@,
        api_name(Api::NvAPI_D3D11_TiledTexture2DArrayGetDesc) == "NvAPI_D3D11_TiledTexture2DArrayGetDesc"@,
        api_name(Api::NvAPI_D3D11_UpdateTileMappings) == "NvAPI_D3D11_UpdateTileMappings"@,
        api_name(Api::NvAPI_D3D11_CopyTileMappings) == "NvAPI_D3D11_CopyTileMappings"@,
        api_name(Api::NvAPI_D3D11_TiledResourceBarrier) == "NvAPI_D3D11_TiledResourceBarrier"@,
        api_name(Api::NvAPI_D3D11_AliasMSAATexture2DAsNonMSAA) == "NvAPI_D3D11_AliasMSAATexture2DAsNonMSAA"@,
        api_name(Api::NvAPI_D3D11_CreateGeometryShaderEx_2) == "NvAPI_D3D11_CreateGeometryShaderEx_2"@,
        api_name(Api::NvAPI_D3D11_CreateVertexShaderEx) == "NvAPI_D3D11_CreateVertexShaderEx"@,
        api_name(Api::NvAPI_D3D11_CreateHullShaderEx) == "NvAPI_D3D11_CreateHullShaderEx"@,
        api_name(Api::NvAPI_D3D11_CreateDomainShaderEx) == "NvAPI_D3D11_CreateDomainShaderEx"@,
        api_name(Api::NvAPI_D3D11_CreatePixelShaderEx_2) == "NvAPI_D3D11_CreatePixelShaderEx_2"@,
        api_name(Api::NvAPI_D3D11_CreateFastGeometryShaderExplicit) == "NvAPI_D3D11_CreateFastGeometryShaderExplicit"@,
        api_name(Api::NvAPI_D3D11_CreateFastGeometryShader) == "NvAPI_D3D11_CreateFastGeometryShader"@,
        api_name(Api::NvAPI_D3D11_DecompressView) == "NvAPI_D3D11_DecompressView"@,
        api_name(Api::NvAPI_D3D12_CreateGraphicsPipelineState) == "NvAPI_D3D12_CreateGraphicsPipelineState"@,
        api_name(Api::NvAPI_D3D12_CreateComputePipelineState) == "NvAPI_D3D12_CreateComputePipelineState"@,
        api_name(Api::NvAPI_D3D12_SetDepthBoundsTestValues) == "NvAPI_D3D12_SetDepthBoundsTestValues"@,
        api_name(Api::NvAPI_D3D12_CreateReservedResource) == "NvAPI_D3D12_CreateReservedResource"@,
        api_name(Api::NvAPI_D3D12_CreateHeap) == "NvAPI_D3D12_CreateHeap"@,
        api_name(Api::NvAPI_D3D12_CreateHeap2) == "NvAPI_D3D12_CreateHeap2"@,
        api_name(Api::NvAPI_D3D12_QueryCpuVisibleVidmem) == "NvAPI_D3D12_QueryCpuVisibleVidmem"@,
        api_name(Api::NvAPI_D3D12_ReservedResourceGetDesc) == "NvAPI_D3D12_ReservedResourceGetDesc"@,
        api_name(Api::NvAPI_D3D12_UpdateTileMappings) == "NvAPI_D3D12_UpdateTileMappings"@,
        api_name(Api::NvAPI_D3D12_CopyTileMappings) == "NvAPI_D3D12_CopyTileMappings"@,
        api_name(Api::NvAPI_D3D12_ResourceAliasingBarrier) == "NvAPI_D3D12_ResourceAliasingBarrier"@,
        api_name(Api::NvAPI_D3D12_CaptureUAVInfo) == "NvAPI_D3D12_CaptureUAVInfo"@,
        api_name(Api::NvAPI_D3D11_GetResourceGPUVirtualAddressEx) == "NvAPI_D3D11_GetResourceGPUVirtualAddressEx"@,
        api_name(Api::NvAPI_D3D11_EnumerateMetaCommands) == "NvAPI_D3D11_EnumerateMetaCommands"@,
        api_name(Api::NvAPI_D3D11_CreateMetaCommand) == "NvAPI_D3D11_CreateMetaCommand"@,
        api_name(Api::NvAPI_D3D11_InitializeMetaCommand) == "NvAPI_D3D11_InitializeMetaCommand"@,
        api_name(Api::NvAPI_D3D11_ExecuteMetaCommand) == "NvAPI_D3D11_ExecuteMetaCommand"@,
        api_name(Api::NvAPI_D3D12_EnumerateMetaCommands) == "NvAPI_D3D12_EnumerateMetaCommands"@,
        api_name(Api::NvAPI_D3D12_CreateMetaCommand) == "NvAPI_D3D12_CreateMetaCommand"@,
{
}

/// The names of the driver's listing, from `NvAPI_D3D12_InitializeMetaCommand` to `NvAPI_D3D12_SetAsyncFrameMarker`:
/// each API is named by its entry in the listing.
pub proof fn lemma_api_listing_names_14()
    ensures
        api_name(Api::NvAPI_D3D12_InitializeMetaCommand) == "NvAPI_D3D12_InitializeMetaCommand"@,
        api_name(Api::NvAPI_D3D12_ExecuteMetaCommand) == "NvAPI_D3D12_ExecuteMetaCommand"@,
        api_name(Api::NvAPI_D3D12_CreateCommittedResource) == "NvAPI_D3D12_CreateCommittedResource"@,
        api_name(Api::NvAPI_D3D12_GetCopyableFootprints) == "NvAPI_D3D12_GetCopyableFootprints"@,
        api_name(Api::NvAPI_D3D12_CopyTextureRegion) == "NvAPI_D3D12_CopyTextureRegion"@,
        api_name(Api::NvAPI_D3D12_IsNvShaderExtnOpCodeSupported) == "NvAPI_D3D12_IsNvShaderExtnOpCodeSupported"@,
        api_name(Api::NvAPI_D3D12_GetOptimalThreadCountForMesh) == "NvAPI_D3D12_GetOptimalThreadCountForMesh"@,
        api_name(Api::NvAPI_D3D_IsGSyncCapable) == "NvAPI_D3D_IsGSyncCapable"@,
        api_name(Api::NvAPI_D3D_IsGSyncActive) == "NvAPI_D3D_IsGSyncActive"@,
        api_name(Api::NvAPI_D3D1x_DisableShaderDiskCache) == "NvAPI_D3D1x_DisableShaderDiskCache"@,
        api_name(Api::NvAPI_D3D11_MultiGPU_GetCaps) == "NvAPI_D3D11_MultiGPU_GetCaps"@,
        api_name(Api::NvAPI_D3D11_MultiGPU_Init) == "NvAPI_D3D11_MultiGPU_Init"@,
        api_name(Api::NvAPI_D3D11_CreateMultiGPUDevice) == "NvAPI_D3D11_CreateMultiGPUDevice"@,
        api_name(Api::NvAPI_D3D_QuerySinglePassStereoSupport) == "NvAPI_D3D_QuerySinglePassStereoSupport"@,
        api_name(Api::NvAPI_D3D_SetSinglePassStereoMode) == "NvAPI_D3D_SetSinglePassStereoMode"@,
        api_name(Api::NvAPI_D3D12_QuerySinglePassStereoSupport) == "NvAPI_D3D12_QuerySinglePassStereoSupport"@,
        api_name(Api::NvAPI_D3D12_SetSinglePassStereoMode) == "NvAPI_D3D12_SetSinglePassStereoMode"@,
        api_name(Api::NvAPI_D3D_QueryMultiViewSupport) == "NvAPI_D3D_QueryMultiViewSupport"@,
        api_name(Api::NvAPI_D3D_SetMultiViewMode) == "NvAPI_D3D_SetMultiViewMode"@,
        api_name(Api::NvAPI_D3D_QueryModifiedWSupport) == "NvAPI_D3D_QueryModifiedWSupport"@,
        api_name(Api::NvAPI_D3D_SetModifiedWMode) == "NvAPI_D3D_SetModifiedWMode"@,
        api_name(Api::NvAPI_D3D12_QueryModifiedWSupport) == "NvAPI_D3D12_QueryModifiedWSupport"@,
        api_name(Api::NvAPI_D3D12_SetModifiedWMode) == "NvAPI_D3D12_SetModifiedWMode"@,
        api_name(Api::NvAPI_D3D_CreateLateLatchObject) == "NvAPI_D3D_CreateLateLatchObject"@,
        api_name(Api::NvAPI_D3D_QueryLateLatchSupport) == "NvAPI_D3D_QueryLateLatchSupport"@,
        api_name(Api::NvAPI_D3D_RegisterDevice) == "NvAPI_D3D_RegisterDevice"@,
        api_name(Api::NvAPI_D3D11_MultiDrawInstancedIndirect) == "NvAPI_D3D11_MultiDrawInstancedIndirect"@,
        api_name(Api::NvAPI_D3D11_MultiDrawIndexedInstancedIndirect) == "NvAPI_D3D11_MultiDrawIndexedInstancedIndirect"@,
        api_name(Api::NvAPI_D3D_ImplicitSLIControl) == "NvAPI_D3D_ImplicitSLIControl"@,
        api_name(Api::NvAPI_D3D12_UseDriverHeapPriorities) == "NvAPI_D3D12_UseDriverHeapPriorities"@,
        api_name(Api::NvAPI_D3D12_Mosaic_GetCompanionAllocations) == "NvAPI_D3D12_Mosaic_GetCompanionAllocations"@,
        api_name(Api::NvAPI_D3D12_Mosaic_GetViewportAndGpuPartitions) == "NvAPI_D3D12_Mosaic_GetViewportAndGpuPartitions"@,
        api_name(Api::NvAPI_D3D1x_GetGraphicsCapabilities) == "NvAPI_D3D1x_GetGraphicsCapabilities"@,
        api_name(Api::NvAPI_D3D12_GetGraphicsCapabilities) == "NvAPI_D3D12_GetGraphicsCapabilities"@,
        api_name(Api::NvAPI_D3D11_RSSetExclusiveScissorRects) == "NvAPI_D3D11_RSSetExclusiveScissorRects"@,
        api_name(Api::NvAPI_D3D11_RSSetViewportsPixelShadingRates) == "NvAPI_D3D11_RSSetViewportsPixelShadingRates"@,
        api_name(Api::NvAPI_D3D11_CreateShadingRateResourceView) == "NvAPI_D3D11_CreateShadingRateResourceView"@,
        api_name(Api::NvAPI_D3D11_RSSetShadingRateResourceView) == "NvAPI_D3D11_RSSetShadingRateResourceView"@,
        api_name(Api::NvAPI_D3D11_RSGetPixelShadingRateSampleOrder) == "NvAPI_D3D11_RSGetPixelShadingRateSampleOrder"@,
        api_name(Api::NvAPI_D3D11_RSSetPixelShadingRateSampleOrder) == "NvAPI_D3D11_RSSetPixelShadingRateSampleOrder"@,
        api_name(Api::NvAPI_D3D_InitializeVRSHelper) == "NvAPI_D3D_InitializeVRSHelper"@,
        api_name(Api::NvAPI_D3D_InitializeNvGazeHandler) == "NvAPI_D3D_InitializeNvGazeHandler"@,
        api_name(Api::NvAPI_D3D_InitializeSMPAssist) == "NvAPI_D3D_InitializeSMPAssist"@,
        api_name(Api::NvAPI_D3D_QuerySMPAssistSupport) == "NvAPI_D3D_QuerySMPAssistSupport"@,
        api_name(Api::NvAPI_D3D_GetSleepStatus) == "NvAPI_D3D_GetSleepStatus"@,
        api_name(Api::NvAPI_D3D_SetSleepMode) == "NvAPI_D3D_SetSleepMode"@,
        api_name(Api::NvAPI_D3D_Sleep) == "NvAPI_D3D_Sleep"@,
        api_name(Api::NvAPI_D3D_GetLatency) == "NvAPI_D3D_GetLatency"@,
        api_name(Api::NvAPI_D3D_SetLatencyMarker) == "NvAPI_D3D_SetLatencyMarker"@,
        api_name(Api::NvAPI_D3D12_SetAsyncFrameMarker) == "NvAPI_D3D12_SetAsyncFrameMarker"@,
{
}

/// The names of the driver's listing, from `NvAPI_D3D12_NotifyOutOfBandCommandQueue` to `Unknown_GetROPCount`:
/// each API is named by its entry in the listing.
pub proof fn lemma_api_listing_names_15()
    ensures
        api_name(Api::NvAPI_D3D12_NotifyOutOfBandCommandQueue) == "NvAPI_D3D12_NotifyOutOfBandCommandQueue"@,
        api_name(Api::NvAPI_D3D12_CreateCubinComputeShader) == "NvAPI_D3D12_CreateCubinComputeShader"@,
        api_name(Api::NvAPI_D3D12_CreateCubinComputeShaderEx) == "NvAPI_D3D12_CreateCubinComputeShaderEx"@,
        api_name(Api::NvAPI_D3D12_CreateCubinComputeShaderWithName) == "NvAPI_D3D12_CreateCubinComputeShaderWithName"@,
        api_name(Api::NvAPI_D3D12_LaunchCubinShader) == "NvAPI_D3D12_LaunchCubinShader"@,
        api_name(Api::NvAPI_D3D12_DestroyCubinComputeShader) == "NvAPI_D3D12_DestroyCubinComputeShader"@,
        api_name(Api::NvAPI_D3D12_GetCudaTextureObject) == "NvAPI_D3D12_GetCudaTextureObject"@,
        api_name(Api::NvAPI_D3D12_GetCudaSurfaceObject) == "NvAPI_D3D12_GetCudaSurfaceObject"@,
        api_name(Api::NvAPI_D3D12_IsFatbinPTXSupported) == "NvAPI_D3D12_IsFatbinPTXSupported"@,
        api_name(Api::NvAPI_D3D12_CreateCuModule) == "NvAPI_D3D12_CreateCuModule"@,
        api_name(Api::NvAPI_D3D12_EnumFunctionsInModule) == "NvAPI_D3D12_EnumFunctionsInModule"@,
        api_name(Api::NvAPI_D3D12_CreateCuFunction) == "NvAPI_D3D12_CreateCuFunction"@,
        api_name(Api::NvAPI_D3D12_LaunchCuKernelChain) == "NvAPI_D3D12_LaunchCuKernelChain"@,
        api_name(Api::NvAPI_D3D12_DestroyCuModule) == "NvAPI_D3D12_DestroyCuModule"@,
        api_name(Api::NvAPI_D3D12_DestroyCuFunction) == "NvAPI_D3D12_DestroyCuFunction"@,
        api_name(Api::NvAPI_D3D11_CreateCubinComputeShader) == "NvAPI_D3D11_CreateCubinComputeShader"@,
        api_name(Api::NvAPI_D3D11_CreateCubinComputeShaderEx) == "NvAPI_D3D11_CreateCubinComputeShaderEx"@,
        api_name(Api::NvAPI_D3D11_CreateCubinComputeShaderWithName) == "NvAPI_D3D11_CreateCubinComputeShaderWithName"@,
        api_name(Api::NvAPI_D3D11_LaunchCubinShader) == "NvAPI_D3D11_LaunchCubinShader"@,
        api_name(Api::NvAPI_D3D11_DestroyCubinComputeShader) == "NvAPI_D3D11_DestroyCubinComputeShader"@,
        api_name(Api::NvAPI_D3D11_IsFatbinPTXSupported) == "NvAPI_D3D11_IsFatbinPTXSupported"@,
        api_name(Api::NvAPI_D3D11_CreateUnorderedAccessView) == "NvAPI_D3D11_CreateUnorderedAccessView"@,
        api_name(Api::NvAPI_D3D11_CreateShaderResourceView) == "NvAPI_D3D11_CreateShaderResourceView"@,
        api_name(Api::NvAPI_D3D11_CreateSamplerState) == "NvAPI_D3D11_CreateSamplerState"@,
        api_name(Api::NvAPI_D3D11_GetCudaTextureObject) == "NvAPI_D3D11_GetCudaTextureObject"@,
        api_name(Api::NvAPI_D3D11_GetResourceGPUVirtualAddress) == "NvAPI_D3D11_GetResourceGPUVirtualAddress"@,
        api_name(Api::NvAPI_D3D12_GetRaytracingCaps) == "NvAPI_D3D12_GetRaytracingCaps"@,
        api_name(Api::NvAPI_D3D12_GetRaytracingOpacityMicromapArrayPrebuildInfo) == "NvAPI_D3D12_GetRaytracingOpacityMicromapArrayPrebuildInfo"@,
        api_name(Api::NvAPI_D3D12_SetCreatePipelineStateOptions) == "NvAPI_D3D12_SetCreatePipelineStateOptions"@,
        api_name(Api::NvAPI_D3D12_CheckDriverMatchingIdentifierEx) == "NvAPI_D3D12_CheckDriverMatchingIdentifierEx"@,
        api_name(Api::NvAPI_D3D12_GetRaytracingAccelerationStructurePrebuildInfoEx) == "NvAPI_D3D12_GetRaytracingAccelerationStructurePrebuildInfoEx"@,
        api_name(Api::NvAPI_D3D12_BuildRaytracingOpacityMicromapArray) == "NvAPI_D3D12_BuildRaytracingOpacityMicromapArray"@,
        api_name(Api::NvAPI_D3D12_RelocateRaytracingOpacityMicromapArray) == "NvAPI_D3D12_RelocateRaytracingOpacityMicromapArray"@,
        api_name(Api::NvAPI_D3D12_EmitRaytracingOpacityMicromapArrayPostbuildInfo) == "NvAPI_D3D12_EmitRaytracingOpacityMicromapArrayPostbuildInfo"@,
        api_name(Api::NvAPI_D3D12_BuildRaytracingAccelerationStructureEx) == "NvAPI_D3D12_BuildRaytracingAccelerationStructureEx"@,
        api_name(Api::Unknown_1629A173) == "Unknown_1629A173"@,
        api_name(Api::Unknown_F1D2777B) == "Unknown_F1D2777B"@,
        api_name(Api::Unknown_8EFC0978) == "Unknown_8EFC0978"@,
        api_name(Api::Unknown_B7BCF50D) == "Unknown_B7BCF50D"@,
        api_name(Api::Unknown_36E39E6B) == "Unknown_36E39E6B"@,
        api_name(Api::Unknown_GetROPCount) == "Unknown_GetROPCount"@,
{
}

/// Looking up the interface id of an API gives that API back.
pub proof fn lemma_api_id_roundtrip(a: Api)
    ensures
        api_of_id(api_id(a)) == Some(a),
{
    lemma_api_id_parts(a);
    if api_id_part_0(a) is Some {
        lemma_api_id_roundtrip_part_0(a);
    } else if api_id_part_1(a) is Some {
        lemma_api_id_roundtrip_part_1(a);
    } else if api_id_part_2(a) is Some {
        lemma_api_id_roundtrip_part_2(a);
    } else if api_id_part_3(a) is Some {
        lemma_api_id_roundtrip_part_3(a);
    } else if api_id_part_4(a) is Some {
        lemma_api_id_roundtrip_part_4(a);
    } else if api_id_part_5(a) is Some {
        lemma_api_id_roundtrip_part_5(a);
    } else if api_id_part_6(a) is Some {
        lemma_api_id_roundtrip_part_6(a);
    } else if api_id_part_7(a) is Some {
        lemma_api_id_roundtrip_part_7(a);
    } else if api_id_part_8(a) is Some {
        lemma_api_id_roundtrip_part_8(a);
    } else if api_id_part_9(a) is Some {
        lemma_api_id_roundtrip_part_9(a);
    } else if api_id_part_10(a) is Some {
        lemma_api_id_roundtrip_part_10(a);
    } else if api_id_part_11(a) is Some {
        lemma_api_id_roundtrip_part_11(a);
    } else if api_id_part_12(a) is Some {
        lemma_api_id_roundtrip_part_12(a);
    } else if api_id_part_13(a) is Some {
        lemma_api_id_roundtrip_part_13(a);
    } else if api_id_part_14(a) is Some {
        lemma_api_id_roundtrip_part_14(a);
    } else {
        lemma_api_id_roundtrip_part_15(a);
    }
}

#[verifier::spinoff_prover]
proof fn lemma_api_of_id_inverse_0_0(id: u32)
    requires
        id == 0x0150e828u32
        || id == 0x01053fa5u32
        || id == 0x09734f1du32
        || id == 0x0291bff2u32
        || id == 0x0e45002du32
        || id == 0x0f2dd3f2u32
        || id == 0x022cad61u32
        || id == 0x0f7029c5u32
        || id == 0x0b3827c8u32
        || id == 0x0ab7c2dcu32,
    ensures
        api_of_id(id) matches Some(a) && api_id(a) == id,
{
    if id == 0x0150e828u32 {
        assert(api_of_id(id) == Some(Api::NvAPI_Initialize));
    } else if id == 0x01053fa5u32 {
        assert(api_of_id(id) == Some(Api::NvAPI_GetInterfaceVersionString));
    } else if id == 0x09734f1du32 {
        assert(api_of_id(id) == Some(Api::NvAPI_GetInfoFrame));
    } else if id == 0x0291bff2u32 {
        assert(api_of_id(id) == Some(Api::NvAPI_DISP_OverrideDisplayModeList));
    } else if id == 0x0e45002du32 {
        assert(api_of_id(id) == Some(Api::NvAPI_GetDVCInfoEx));
    } else if id == 0x0f2dd3f2u32 {
        assert(api_of_id(id) == Some(Api::NvAPI_D3D9_GetSurfaceHandle));
    } else if id == 0x022cad61u32 {
        assert(api_of_id(id) == Some(Api::NvAPI_D3D9_GetCurrentRenderTargetHandle));
    } else if id == 0x0f7029c5u32 {
        assert(api_of_id(id) == Some(Api::NvAPI_D3D9_PresentSurfaceToDesktop));
    } else if id == 0x0b3827c8u32 {
        assert(api_of_id(id) == Some(Api::NvAPI_D3D9_CreateRenderTarget));
    } else if id == 0x0ab7c2dcu32 {
        assert(api_of_id(id) == Some(Api::NvAPI_D3D9_IFR_TransferRenderTarget));
    }
}

#[verifier::spinoff_prover]
proof fn lemma_api_of_id_inverse_0_1(id: u32)
    requires
        id == 0x0e9c5853u32
        || id == 0x0121bdc6u32
        || id == 0x0e6482a0u32
        || id == 0x09d52986u32
        || id == 0x0be17923u32
        || id == 0x0680de09u32
        || id == 0x0078dba2u32
        || id == 0x07bcf4acu32
        || id == 0x0518a32cu32
        || id == 0x0f4dae6bu32,
    ensures
        api_of_id(id) matches Some(a) && api_id(a) == id,
{
    if id == 0x0e9c5853u32 {
        assert(api_of_id(id) == Some(Api::NvAPI_D3D10_EndShareResource));
    } else if id == 0x0121bdc6u32 {
        assert(api_of_id(id) == Some(Api::NvAPI_D3D11_BeginShareResource));
    } else if id == 0x0e6482a0u32 {
        assert(api_of_id(id) == Some(Api::NvAPI_D3D11_SetNvShaderExtnSlotLocalThread));
    } else if id == 0x09d52986u32 {
        assert(api_of_id(id) == Some(Api::NvAPI_D3D11_GetResourceHandle));
    } else if id == 0x0be17923u32 {
        assert(api_of_id(id) == Some(Api::NvAPI_GPU_GetShaderSubPipeCount));
    } else if id == 0x0680de09u32 {
        assert(api_of_id(id) == Some(Api::NvAPI_GPU_GetConnectedSLIOutputs));
    } else if id == 0x0078dba2u32 {
        assert(api_of_id(id) == Some(Api::NvAPI_GPU_GetConnectedDisplayIds));
    } else if id == 0x07bcf4acu32 {
        assert(api_of_id(id) == Some(Api::NvAPI_GPU_SetPerfClocks));
    } else if id == 0x0518a32cu32 {
        assert(api_of_id(id) == Some(Api::NvAPI_GPU_GetCoolerPolicyTable));
    } else if id == 0x0f4dae6bu32 {
        assert(api_of_id(id) == Some(Api::NvAPI_GPU_SetPstates20));
    }
}

#[verifier::spinoff_prover]
proof fn lemma_api_of_id_inverse_0_2(id: u32)
    requires
        id == 0x004537dfu32
        || id == 0x0f5f4d01u32
        || id == 0x0957d7b6u32
        || id == 0x06b89e68u32
        || id == 0x054fe75au32
        || id == 0x07eba036u32
        || id == 0x0a8064f9u32
        || id == 0x0d6c6cd2u32
        || id == 0x0e6ce4f1u32
        || id == 0x0e4eec07u32,
    ensures
        api_of_id(id) matches Some(a) && api_id(a) == id,
{
    if id == 0x004537dfu32 {
        assert(api_of_id(id) == Some(Api::NvAPI_GPU_WorkstationFeatureQuery));
    } else if id == 0x0f5f4d01u32 {
        assert(api_of_id(id) == Some(Api::NvAPI_GetDisplayFeatureConfigDefaults));
    } else if id == 0x0957d7b6u32 {
        assert(api_of_id(id) == Some(Api::NvAPI_SetView));
    } else if id == 0x06b89e68u32 {
        assert(api_of_id(id) == Some(Api::NvAPI_SetViewEx));
    } else if id == 0x054fe75au32 {
        assert(api_of_id(id) == Some(Api::NvAPI_SetVideoState));
    } else if id == 0x07eba036u32 {
        assert(api_of_id(id) == Some(Api::NvAPI_Mosaic_GetMosaicViewports));
    } else if id == 0x0a8064f9u32 {
        assert(api_of_id(id) == Some(Api::NvAPI_SetTopologyFocusDisplayAndView));
    } else if id == 0x0d6c6cd2u32 {
        assert(api_of_id(id) == Some(Api::NvAPI_Stereo_Trigger_Activation));
    } else if id == 0x0e6ce4f1u32 {
        assert(api_of_id(id) == Some(Api::NvAPI_VIO_Status));
    } else if id == 0x0e4eec07u32 {
        assert(api_of_id(id) == Some(Api::NvAPI_VIO_SetConfig));
    }
}

#[verifier::spinoff_prover]
proof fn lemma_api_of_id_inverse_0_3(id: u32)
    requires
        id == 0x08f2bab4u32
        || id == 0x05650bebu32
        || id == 0x03b845a1u32
        || id == 0x0ce2e9d9u32
        || id == 0x0694d52eu32
        || id == 0x0ff07fdeu32
        || id == 0x0254a187u32
        || id == 0x07f9b368u32
        || id == 0x0e24ceeeu32
        || id == 0x0d258bb5u32,
    ensures
        api_of_id(id) matches Some(a) && api_id(a) == id,
{
    if id == 0x08f2bab4u32 {
        assert(api_of_id(id) == Some(Api::NvAPI_SYS_GetDisplayIdFromGpuAndOutputId));
    } else if id == 0x05650bebu32 {
        assert(api_of_id(id) == Some(Api::NvAPI_D3D9_Present));
    } else if id == 0x03b845a1u32 {
        assert(api_of_id(id) == Some(Api::NvAPI_D3D1x_Present));
    } else if id == 0x0ce2e9d9u32 {
        assert(api_of_id(id) == Some(Api::NvAPI_SYS_VenturaSetState));
    } else if id == 0x0694d52eu32 {
        assert(api_of_id(id) == Some(Api::NvAPI_DRS_CreateSession));
    } else if id == 0x0ff07fdeu32 {
        assert(api_of_id(id) == Some(Api::NvAPI_GPU_GetAdapterIdFromPhysicalGpu));
    } else if id == 0x0254a187u32 {
        assert(api_of_id(id) == Some(Api::NvAPI_GPU_SetIllumination));
    } else if id == 0x07f9b368u32 {
        assert(api_of_id(id) == Some(Api::NvAPI_GPU_GetMemoryInfo));
    } else if id == 0x0e24ceeeu32 {
        assert(api_of_id(id) == Some(Api::NvAPI_GetDisplayDriverRegistryPath));
    } else if id == 0x0d258bb5u32 {
        assert(api_of_id(id) == Some(Api::NvAPI_GPU_ClientThermalPoliciesGetInfo));
    }
}

#[verifier::spinoff_prover]
proof fn lemma_api_of_id_inverse_0_4(id: u32)
    requires
        id == 0x0733e009u32
        || id == 0x0beaa0b2u32
        || id == 0x027e98aeu32
        || id == 0x017be49eu32
        || id == 0x06ea4bf4u32
        || id == 0x01e87354u32
        || id == 0x092442a1u32
        || id == 0x03d6e8cbu32
        || id == 0x0ed98181u32
        || id == 0x01682c86u32,
    ensures
        api_of_id(id) matches Some(a) && api_id(a) == id,
{
    if id == 0x0733e009u32 {
        assert(api_of_id(id) == Some(Api::NvAPI_GPU_ClockClientClkVfPointsSetControl));
    } else if id == 0x0beaa0b2u32 {
        assert(api_of_id(id) == Some(Api::NvAPI_D3D11_CreateVertexShaderEx));
    } else if id == 0x027e98aeu32 {
        assert(api_of_id(id) == Some(Api::NvAPI_D3D12_CreateCommittedResource));
    } else if id == 0x017be49eu32 {
        assert(api_of_id(id) == Some(Api::NvAPI_D3D11_MultiGPU_Init));
    } else if id == 0x06ea4bf4u32 {
        assert(api_of_id(id) == Some(Api::NvAPI_D3D_SetModifiedWMode));
    } else if id == 0x01e87354u32 {
        assert(api_of_id(id) == Some(Api::NvAPI_D3D12_GetGraphicsCapabilities));
    } else if id == 0x092442a1u32 {
        assert(api_of_id(id) == Some(Api::NvAPI_D3D11_RSGetPixelShadingRateSampleOrder));
    } else if id == 0x03d6e8cbu32 {
        assert(api_of_id(id) == Some(Api::NvAPI_D3D12_NotifyOutOfBandCommandQueue));
    } else if id == 0x0ed98181u32 {
        assert(api_of_id(id) == Some(Api::NvAPI_D3D11_CreateCubinComputeShader));
    } else if id == 0x01682c86u32 {
        assert(api_of_id(id) == Some(Api::NvAPI_D3D11_DestroyCubinComputeShader));
    }
}

#[verifier::spinoff_prover]
proof fn lemma_api_of_id_inverse_0_5(id: u32)
    requires
        id == 0x0425c538u32,
    ensures
        api_of_id(id) matches Some(a) && api_id(a) == id,
{
    if id == 0x0425c538u32 {
        assert(api_of_id(id) == Some(Api::NvAPI_D3D12_RelocateRaytracingOpacityMicromapArray));
    }
}

#[verifier::spinoff_prover]
proof fn lemma_api_of_id_inverse_1_0(id: u32)
    requires
        id == 0x172409b4u32
        || id == 0x157e45c4u32
        || id == 0x13199b3du32
        || id == 0x12ee68f2u32
        || id == 0x18cdf365u32
        || id == 0x13c7112eu32
        || id == 0x1e6634b3u32
        || id == 0x1db7c52cu32
        || id == 0x1730bfc9u32
        || id == 0x1bb18724u32,
    ensures
        api_of_id(id) matches Some(a) && api_id(a) == id,
{
    if id == 0x172409b4u32 {
        assert(api_of_id(id) == Some(Api::NvAPI_SetDVCLevel));
    } else if id == 0x157e45c4u32 {
        assert(api_of_id(id) == Some(Api::NvAPI_D3D9_PathClearDepthNV));
    } else if id == 0x13199b3du32 {
        assert(api_of_id(id) == Some(Api::NvAPI_D3D9_DrawPathNV));
    } else if id == 0x12ee68f2u32 {
        assert(api_of_id(id) == Some(Api::NvAPI_D3D9_GpuSyncMapIndexBuffer));
    } else if id == 0x18cdf365u32 {
        assert(api_of_id(id) == Some(Api::NvAPI_D3D9_SetPitchSurfaceCreation));
    } else if id == 0x13c7112eu32 {
        assert(api_of_id(id) == Some(Api::NvAPI_D3D9_AliasPrimaryAsTexture));
    } else if id == 0x1e6634b3u32 {
        assert(api_of_id(id) == Some(Api::NvAPI_D3D9_QueryVideoInfo));
    } else if id == 0x1db7c52cu32 {
        assert(api_of_id(id) == Some(Api::NvAPI_D3D9_EnumVideoFeatures));
    } else if id == 0x1730bfc9u32 {
        assert(api_of_id(id) == Some(Api::NvAPI_GPU_GetConnectedOutputs));
    } else if id == 0x1bb18724u32 {
        assert(api_of_id(id) == Some(Api::NvAPI_GPU_GetBusType));
    }
}

#[verifier::spinoff_prover]
proof fn lemma_api_of_id_inverse_1_1(id: u32)
    requires
        id == 0x1be0b8e5u32
        || id == 0x11104158u32
        || id == 0x1ea54a3bu32
        || id == 0x15658be6u32
        || id == 0x175167e9u32
        || id == 0x1f7db630u32
        || id == 0x1efc3957u32
        || id == 0x1c5659cdu32
        || id == 0x18919887u32
        || id == 0x1b1b9a16u32,
    ensures
        api_of_id(id) matches Some(a) && api_id(a) == id,
{
    if id == 0x1be0b8e5u32 {
        assert(api_of_id(id) == Some(Api::NvAPI_GPU_GetBusId));
    } else if id == 0x11104158u32 {
        assert(api_of_id(id) == Some(Api::NvAPI_GPU_GetFBWidthAndLocation));
    } else if id == 0x1ea54a3bu32 {
        assert(api_of_id(id) == Some(Api::NvAPI_GPU_GetPerfClocks));
    } else if id == 0x15658be6u32 {
        assert(api_of_id(id) == Some(Api::NvAPI_GetInvalidGpuTopologies));
    } else if id == 0x175167e9u32 {
        assert(api_of_id(id) == Some(Api::NvAPI_DISP_GetTiming));
    } else if id == 0x1f7db630u32 {
        assert(api_of_id(id) == Some(Api::NvAPI_DISP_TryCustomDisplay));
    } else if id == 0x1efc3957u32 {
        assert(api_of_id(id) == Some(Api::NvAPI_Coproc_GetCoprocStatus));
    } else if id == 0x1c5659cdu32 {
        assert(api_of_id(id) == Some(Api::NvAPI_GetVideoState));
    } else if id == 0x18919887u32 {
        assert(api_of_id(id) == Some(Api::NvAPI_SetFrameRateNotify));
    } else if id == 0x1b1b9a16u32 {
        assert(api_of_id(id) == Some(Api::NvAPI_GetPVExtProfile));
    }
}

#[verifier::spinoff_prover]
proof fn lemma_api_of_id_inverse_1_2(id: u32)
    requires
        id == 0x1ecfd263u32
        || id == 0x16de1c6au32
        || id == 0x1fb0bc30u32
        || id == 0x1dc91303u32
        || id == 0x118d48a3u32
        || id == 0x112ba1a5u32
        || id == 0x1e9d8a31u32
        || id == 0x11abccf8u32
        || id == 0x1f6b4666u32
        || id == 0x1247825fu32,
    ensures
        api_of_id(id) matches Some(a) && api_id(a) == id,
{
    if id == 0x1ecfd263u32 {
        assert(api_of_id(id) == Some(Api::NvAPI_Mosaic_ValidateDisplayGridsWithSLI));
    } else if id == 0x16de1c6au32 {
        assert(api_of_id(id) == Some(Api::NvAPI_GSync_GetControlParameters));
    } else if id == 0x1fb0bc30u32 {
        assert(api_of_id(id) == Some(Api::NvAPI_Stereo_IsActivated));
    } else if id == 0x1dc91303u32 {
        assert(api_of_id(id) == Some(Api::NvAPI_VIO_GetCapabilities));
    } else if id == 0x118d48a3u32 {
        assert(api_of_id(id) == Some(Api::NvAPI_VIO_SyncFormatDetect));
    } else if id == 0x112ba1a5u32 {
        assert(api_of_id(id) == Some(Api::NvAPI_SYS_GetGpuAndOutputIdFromDisplayId));
    } else if id == 0x1e9d8a31u32 {
        assert(api_of_id(id) == Some(Api::NvAPI_DISP_GetGDIPrimaryDisplayId));
    } else if id == 0x11abccf8u32 {
        assert(api_of_id(id) == Some(Api::NvAPI_DISP_GetDisplayConfig));
    } else if id == 0x1f6b4666u32 {
        assert(api_of_id(id) == Some(Api::NvAPI_DISP_GetPreferredStereoDisplay));
    } else if id == 0x1247825fu32 {
        assert(api_of_id(id) == Some(Api::NvAPI_DISP_ReleaseDedicatedDisplay));
    }
}

#[verifier::spinoff_prover]
proof fn lemma_api_of_id_inverse_1_3(id: u32)
    requires
        id == 0x1cf639d9u32
        || id == 0x1bc21b66u32
        || id == 0x1a131e09u32
        || id == 0x14610cd7u32
        || id == 0x1e17e29bu32
        || id == 0x17093206u32
        || id == 0x1c89c5dfu32
        || id == 0x16abd3a9u32
        || id == 0x1dae4fbcu32
        || id == 0x1890e8dau32,
    ensures
        api_of_id(id) matches Some(a) && api_id(a) == id,
{
    if id == 0x1cf639d9u32 {
        assert(api_of_id(id) == Some(Api::NvAPI_GPU_SetECCConfiguration));
    } else if id == 0x1bc21b66u32 {
        assert(api_of_id(id) == Some(Api::NvAPI_D3D1x_CreateSwapChain));
    } else if id == 0x1a131e09u32 {
        assert(api_of_id(id) == Some(Api::NvAPI_D3D9_CreateSwapChain));
    } else if id == 0x14610cd7u32 {
        assert(api_of_id(id) == Some(Api::NvAPI_D3D1x_JoinSwapGroup));
    } else if id == 0x1e17e29bu32 {
        assert(api_of_id(id) == Some(Api::NvAPI_DISP_SetDisplayBlankingState));
    } else if id == 0x17093206u32 {
        assert(api_of_id(id) == Some(Api::NvAPI_DRS_DeleteProfile));
    } else if id == 0x1c89c5dfu32 {
        assert(api_of_id(id) == Some(Api::NvAPI_DRS_SetCurrentGlobalProfile));
    } else if id == 0x16abd3a9u32 {
        assert(api_of_id(id) == Some(Api::NvAPI_DRS_SetProfileInfo));
    } else if id == 0x1dae4fbcu32 {
        assert(api_of_id(id) == Some(Api::NvAPI_DRS_GetNumProfiles));
    } else if id == 0x1890e8dau32 {
        assert(api_of_id(id) == Some(Api::NvAPI_GetPhysicalGPUFromDisplay));
    }
}

#[verifier::spinoff_prover]
proof fn lemma_api_of_id_inverse_1_4(id: u32)
    requires
        id == 0x14b83a5fu32
        || id == 0x17073a3cu32
        || id == 0x1bd69f49u32
        || id == 0x1aad16b4u32
        || id == 0x197d065eu32
        || id == 0x1cb41116u32
        || id == 0x189a1fdfu32
        || id == 0x17f6bf82u32
        || id == 0x106a487eu32
        || id == 0x1b0c2f83u32,
    ensures
        api_of_id(id) matches Some(a) && api_id(a) == id,
{
    if id == 0x14b83a5fu32 {
        assert(api_of_id(id) == Some(Api::NvAPI_GPU_GetSerialNumber));
    } else if id == 0x17073a3cu32 {
        assert(api_of_id(id) == Some(Api::NvAPI_GPU_GetRamBankCount));
    } else if id == 0x1bd69f49u32 {
        assert(api_of_id(id) == Some(Api::NvAPI_GPU_GetAllClocks));
    } else if id == 0x1aad16b4u32 {
        assert(api_of_id(id) == Some(Api::NvAPI_GPU_GetDeepIdleState));
    } else if id == 0x197d065eu32 {
        assert(api_of_id(id) == Some(Api::NvAPI_GPU_ClientIllumZonesSetControl));
    } else if id == 0x1cb41116u32 {
        assert(api_of_id(id) == Some(Api::NvAPI_GPU_ClientRegisterForOcScannerStatusUpdates));
    } else if id == 0x189a1fdfu32 {
        assert(api_of_id(id) == Some(Api::NvAPI_GPU_GetUsages));
    } else if id == 0x17f6bf82u32 {
        assert(api_of_id(id) == Some(Api::NvAPI_JoinPresentBarrier));
    } else if id == 0x106a487eu32 {
        assert(api_of_id(id) == Some(Api::NvAPI_D3D11_CheckFeatureSupport));
    } else if id == 0x1b0c2f83u32 {
        assert(api_of_id(id) == Some(Api::NvAPI_D3D11_RSSetShadingRateResourceView));
    }
}

#[verifier::spinoff_prover]
proof fn lemma_api_of_id_inverse_1_5(id: u32)
    requires
        id == 0x1a587f9cu32
        || id == 0x13c98f73u32
        || id == 0x1dc7261fu32
        || id == 0x1819b423u32
        || id == 0x1d9a39b6u32
        || id == 0x1629a173u32,
    ensures
        api_of_id(id) matches Some(a) && api_id(a) == id,
{
    if id == 0x1a587f9cu32 {
        assert(api_of_id(id) == Some(Api::NvAPI_D3D_GetLatency));
    } else if id == 0x13c98f73u32 {
        assert(api_of_id(id) == Some(Api::NvAPI_D3D12_SetAsyncFrameMarker));
    } else if id == 0x1dc7261fu32 {
        assert(api_of_id(id) == Some(Api::NvAPI_D3D12_CreateCubinComputeShaderWithName));
    } else if id == 0x1819b423u32 {
        assert(api_of_id(id) == Some(Api::NvAPI_D3D11_GetResourceGPUVirtualAddress));
    } else if id == 0x1d9a39b6u32 {
        assert(api_of_id(id) == Some(Api::NvAPI_D3D12_EmitRaytracingOpacityMicromapArrayPostbuildInfo));
    } else if id == 0x1629a173u32 {
        assert(api_of_id(id) == Some(Api::Unknown_1629A173));
    }
}

#[verifier::spinoff_prover]
proof fn lemma_api_of_id_inverse_2_0(id: u32)
    requires
        id == 0x2926aaadu32
        || id == 0x20de9260u32
        || id == 0x22a78b05u32
        || id == 0x2863148du32
        || id == 0x2dc95125u32
        || id == 0x22de03aau32
        || id == 0x2ac084fau32
        || id == 0x2ab714abu32
        || id == 0x2bbda32eu32
        || id == 0x2de11d61u32,
    ensures
        api_of_id(id) matches Some(a) && api_id(a) == id,
{
    if id == 0x2926aaadu32 {
        assert(api_of_id(id) == Some(Api::NvAPI_SYS_GetDriverAndBranchVersion));
    } else if id == 0x20de9260u32 {
        assert(api_of_id(id) == Some(Api::NvAPI_EnumNvidiaUnAttachedDisplayHandle));
    } else if id == 0x22a78b05u32 {
        assert(api_of_id(id) == Some(Api::NvAPI_GetAssociatedNvidiaDisplayName));
    } else if id == 0x2863148du32 {
        assert(api_of_id(id) == Some(Api::NvAPI_EnableHWCursor));
    } else if id == 0x2dc95125u32 {
        assert(api_of_id(id) == Some(Api::NvAPI_GetDriverMemoryInfo));
    } else if id == 0x22de03aau32 {
        assert(api_of_id(id) == Some(Api::NvAPI_D3D9_StretchRectEx));
    } else if id == 0x2ac084fau32 {
        assert(api_of_id(id) == Some(Api::NvAPI_D3D_Query_End));
    } else if id == 0x2ab714abu32 {
        assert(api_of_id(id) == Some(Api::NvAPI_D3D9_GpuSyncMapSurfaceBuffer));
    } else if id == 0x2bbda32eu32 {
        assert(api_of_id(id) == Some(Api::NvAPI_D3D9_SetGamutData));
    } else if id == 0x2de11d61u32 {
        assert(api_of_id(id) == Some(Api::NvAPI_D3D10_CreateDevice));
    }
}

#[verifier::spinoff_prover]
proof fn lemma_api_of_id_inverse_2_1(id: u32)
    requires
        id == 0x2216a357u32
        || id == 0x2ddfb66eu32
        || id == 0x2a0a350fu32
        || id == 0x2d43fb31u32
        || id == 0x22d54523u32
        || id == 0x25201f3du32
        || id == 0x2fde12c5u32
        || id == 0x283ac65au32
        || id == 0x22ed9516u32
        || id == 0x2f5b08e0u32,
    ensures
        api_of_id(id) matches Some(a) && api_id(a) == id,
{
    if id == 0x2216a357u32 {
        assert(api_of_id(id) == Some(Api::NvAPI_D3D11_EndUAVOverlap));
    } else if id == 0x2ddfb66eu32 {
        assert(api_of_id(id) == Some(Api::NvAPI_GPU_GetPCIIdentifiers));
    } else if id == 0x2a0a350fu32 {
        assert(api_of_id(id) == Some(Api::NvAPI_GPU_GetBusSlotId));
    } else if id == 0x2d43fb31u32 {
        assert(api_of_id(id) == Some(Api::NvAPI_GPU_GetVbiosOEMRevision));
    } else if id == 0x22d54523u32 {
        assert(api_of_id(id) == Some(Api::NvAPI_GPU_GetBoardInfo));
    } else if id == 0x25201f3du32 {
        assert(api_of_id(id) == Some(Api::NvAPI_SetGpuTopologies));
    } else if id == 0x2fde12c5u32 {
        assert(api_of_id(id) == Some(Api::NvAPI_I2CRead));
    } else if id == 0x283ac65au32 {
        assert(api_of_id(id) == Some(Api::NvAPI_I2CWriteEx));
    } else if id == 0x22ed9516u32 {
        assert(api_of_id(id) == Some(Api::NvAPI_OGL_ExpertModeGet));
    } else if id == 0x2f5b08e0u32 {
        assert(api_of_id(id) == Some(Api::NvAPI_GetPVExtName));
    }
}

#[verifier::spinoff_prover]
proof fn lemma_api_of_id_inverse_2_2(id: u32)
    requires
        id == 0x2d11ff51u32
        || id == 0x24409f48u32
        || id == 0x239c4545u32
        || id == 0x2ec50c2bu32
        || id == 0x296c434du32
        || id == 0x2d68de96u32
        || id == 0x2d495758u32
        || id == 0x2697a8d1u32
        || id == 0x221fa8e8u32
        || id == 0x271c1109u32,
    ensures
        api_of_id(id) matches Some(a) && api_id(a) == id,
{
    if id == 0x2d11ff51u32 {
        assert(api_of_id(id) == Some(Api::NvAPI_GSync_AdjustSyncDelay));
    } else if id == 0x24409f48u32 {
        assert(api_of_id(id) == Some(Api::NvAPI_Stereo_SetConfigurationProfileValue));
    } else if id == 0x239c4545u32 {
        assert(api_of_id(id) == Some(Api::NvAPI_Stereo_Enable));
    } else if id == 0x2ec50c2bu32 {
        assert(api_of_id(id) == Some(Api::NvAPI_Stereo_Disable));
    } else if id == 0x296c434du32 {
        assert(api_of_id(id) == Some(Api::NvAPI_Stereo_GetStereoSupport));
    } else if id == 0x2d68de96u32 {
        assert(api_of_id(id) == Some(Api::NvAPI_Stereo_Deactivate));
    } else if id == 0x2d495758u32 {
        assert(api_of_id(id) == Some(Api::NvAPI_Stereo_ForceToScreenDepth));
    } else if id == 0x2697a8d1u32 {
        assert(api_of_id(id) == Some(Api::NvAPI_VIO_SetSyncDelay));
    } else if id == 0x221fa8e8u32 {
        assert(api_of_id(id) == Some(Api::NvAPI_VIO_EnumDataFormats));
    } else if id == 0x271c1109u32 {
        assert(api_of_id(id) == Some(Api::NvAPI_GPS_GetPerfSensors));
    }
}

#[verifier::spinoff_prover]
proof fn lemma_api_of_id_inverse_2_3(id: u32)
    requires
        id == 0x2be25df8u32
        || id == 0x2c694bc6u32
        || id == 0x2ec39f90u32
        || id == 0x25f17421u32
        || id == 0x25eeb2c4u32
        || id == 0x28766157u32
        || id == 0x23f1b133u32
        || id == 0x21537ad4u32
        || id == 0x210f1841u32
        || id == 0x24c6a07bu32,
    ensures
        api_of_id(id) matches Some(a) && api_id(a) == id,
{
    if id == 0x2be25df8u32 {
        assert(api_of_id(id) == Some(Api::NvAPI_DRS_SaveSettingsToFile));
    } else if id == 0x2c694bc6u32 {
        assert(api_of_id(id) == Some(Api::NvAPI_DRS_DeleteApplication));
    } else if id == 0x2ec39f90u32 {
        assert(api_of_id(id) == Some(Api::NvAPI_DRS_EnumAvailableSettingValues));
    } else if id == 0x25f17421u32 {
        assert(api_of_id(id) == Some(Api::NvAPI_GPU_GetExtendedMinorRevision));
    } else if id == 0x25eeb2c4u32 {
        assert(api_of_id(id) == Some(Api::NvAPI_GetDriverModel));
    } else if id == 0x28766157u32 {
        assert(api_of_id(id) == Some(Api::NvAPI_GPU_GetVoltageStep));
    } else if id == 0x23f1b133u32 {
        assert(api_of_id(id) == Some(Api::NvAPI_GPU_ClockClientClkVfPointsGetControl));
    } else if id == 0x21537ad4u32 {
        assert(api_of_id(id) == Some(Api::NvAPI_GPU_ClockClientClkVfPointsGetStatus));
    } else if id == 0x210f1841u32 {
        assert(api_of_id(id) == Some(Api::NvAPI_GPU_ClientGetOcConfig));
    } else if id == 0x24c6a07bu32 {
        assert(api_of_id(id) == Some(Api::NvAPI_D3D12_CreateCommittedImplicitMSAATexture2D));
    }
}

#[verifier::spinoff_prover]
proof fn lemma_api_of_id_inverse_2_4(id: u32)
    requires
        id == 0x2fc28856u32
        || id == 0x2762deacu32
        || id == 0x2c85f101u32
        || id == 0x26322bc3u32
        || id == 0x2db27d09u32
        || id == 0x2aede111u32
        || id == 0x2a2c79e8u32
        || id == 0x24973538u32,
    ensures
        api_of_id(id) matches Some(a) && api_id(a) == id,
{
    if id == 0x2fc28856u32 {
        assert(api_of_id(id) == Some(Api::NvAPI_D3D12_CreateGraphicsPipelineState));
    } else if id == 0x2762deacu32 {
        assert(api_of_id(id) == Some(Api::NvAPI_D3D12_CreateComputePipelineState));
    } else if id == 0x2c85f101u32 {
        assert(api_of_id(id) == Some(Api::NvAPI_D3D12_CreateReservedResource));
    } else if id == 0x26322bc3u32 {
        assert(api_of_id(id) == Some(Api::NvAPI_D3D12_QueryCpuVisibleVidmem));
    } else if id == 0x2db27d09u32 {
        assert(api_of_id(id) == Some(Api::NvAPI_D3D_CreateLateLatchObject));
    } else if id == 0x2aede111u32 {
        assert(api_of_id(id) == Some(Api::NvAPI_D3D_ImplicitSLIControl));
    } else if id == 0x2a2c79e8u32 {
        assert(api_of_id(id) == Some(Api::NvAPI_D3D12_CreateCubinComputeShader));
    } else if id == 0x24973538u32 {
        assert(api_of_id(id) == Some(Api::NvAPI_D3D12_LaunchCuKernelChain));
    }
}

#[verifier::spinoff_prover]
proof fn lemma_api_of_id_inverse_3_0(id: u32)
    requires
        id == 0x34ef9506u32
        || id == 0x35c29134u32
        || id == 0x3092ac32u32
        || id == 0x351da224u32
        || id == 0x3230d69au32
        || id == 0x3fc9a59cu32
        || id == 0x332d3942u32
        || id == 0x3e2804a2u32
        || id == 0x3d7a86bbu32
        || id == 0x3111bed1u32,
    ensures
        api_of_id(id) matches Some(a) && api_id(a) == id,
{
    if id == 0x34ef9506u32 {
        assert(api_of_id(id) == Some(Api::NvAPI_GetPhysicalGPUsFromDisplay));
    } else if id == 0x35c29134u32 {
        assert(api_of_id(id) == Some(Api::NvAPI_GetAssociatedNvidiaDisplayHandle));
    } else if id == 0x3092ac32u32 {
        assert(api_of_id(id) == Some(Api::NvAPI_SetRefreshRateOverride));
    } else if id == 0x351da224u32 {
        assert(api_of_id(id) == Some(Api::NvAPI_Disp_HdrColorControl));
    } else if id == 0x3230d69au32 {
        assert(api_of_id(id) == Some(Api::NvAPI_DISP_GetVirtualModeData));
    } else if id == 0x3fc9a59cu32 {
        assert(api_of_id(id) == Some(Api::NvAPI_SetImageSharpeningLevel));
    } else if id == 0x332d3942u32 {
        assert(api_of_id(id) == Some(Api::NvAPI_D3D9_ClearRT));
    } else if id == 0x3e2804a2u32 {
        assert(api_of_id(id) == Some(Api::NvAPI_D3D9_PathEnableColorWriteNV));
    } else if id == 0x3d7a86bbu32 {
        assert(api_of_id(id) == Some(Api::NvAPI_D3D9_GpuSyncRelease));
    } else if id == 0x3111bed1u32 {
        assert(api_of_id(id) == Some(Api::NvAPI_D3D9_FreeVideo));
    }
}

#[verifier::spinoff_prover]
proof fn lemma_api_of_id_inverse_3_1(id: u32)
    requires
        id == 0x3d596b93u32
        || id == 0x35233210u32
        || id == 0x329d77cdu32
        || id == 0x37d32e69u32
        || id == 0x36cff969u32
        || id == 0x34c9c2d4u32
        || id == 0x30c805d5u32
        || id == 0x34206d86u32
        || id == 0x3805ef7au32
        || id == 0x3b05c7e1u32,
    ensures
        api_of_id(id) matches Some(a) && api_id(a) == id,
{
    if id == 0x3d596b93u32 {
        assert(api_of_id(id) == Some(Api::NvAPI_D3D9_GetVideoCapabilities));
    } else if id == 0x35233210u32 {
        assert(api_of_id(id) == Some(Api::NvAPI_D3D10_BeginShareResource));
    } else if id == 0x329d77cdu32 {
        assert(api_of_id(id) == Some(Api::NvAPI_GPU_GetMemPartitionMask));
    } else if id == 0x37d32e69u32 {
        assert(api_of_id(id) == Some(Api::NvAPI_GPU_GetEDID));
    } else if id == 0x36cff969u32 {
        assert(api_of_id(id) == Some(Api::NvAPI_GPU_GetFlatPanelInfo));
    } else if id == 0x34c9c2d4u32 {
        assert(api_of_id(id) == Some(Api::NvAPI_GPU_ValidateOutputCombination));
    } else if id == 0x30c805d5u32 {
        assert(api_of_id(id) == Some(Api::NvAPI_GetTVOutputInfo));
    } else if id == 0x34206d86u32 {
        assert(api_of_id(id) == Some(Api::NvAPI_GPU_ClientPowerPoliciesGetInfo));
    } else if id == 0x3805ef7au32 {
        assert(api_of_id(id) == Some(Api::NvAPI_OGL_ExpertModeSet));
    } else if id == 0x3b05c7e1u32 {
        assert(api_of_id(id) == Some(Api::NvAPI_DISP_GetMonitorCapabilities));
    }
}

#[verifier::spinoff_prover]
proof fn lemma_api_of_id_inverse_3_2(id: u32)
    requires
        id == 0x3efada1du32
        || id == 0x3f113c77u32
        || id == 0x348ff8e1u32
        || id == 0x3a153134u32
        || id == 0x3dd6b54bu32
        || id == 0x3cd58f89u32
        || id == 0x315e0ef0u32
        || id == 0x36f1c736u32
        || id == 0x3eebba1du32
        || id == 0x375dbd6bu32,
    ensures
        api_of_id(id) matches Some(a) && api_id(a) == id,
{
    if id == 0x3efada1du32 {
        assert(api_of_id(id) == Some(Api::NvAPI_SetUnderscanConfig));
    } else if id == 0x3f113c77u32 {
        assert(api_of_id(id) == Some(Api::NvAPI_Mosaic_SetGridTopology));
    } else if id == 0x348ff8e1u32 {
        assert(api_of_id(id) == Some(Api::NvAPI_Stereo_IsEnabled));
    } else if id == 0x3a153134u32 {
        assert(api_of_id(id) == Some(Api::NvAPI_Stereo_DestroyHandle));
    } else if id == 0x3dd6b54bu32 {
        assert(api_of_id(id) == Some(Api::NvAPI_Stereo_SetConvergence));
    } else if id == 0x3cd58f89u32 {
        assert(api_of_id(id) == Some(Api::NvAPI_Stereo_ReverseStereoBlitControl));
    } else if id == 0x315e0ef0u32 {
        assert(api_of_id(id) == Some(Api::NvAPI_Stereo_HandShake_Message_Control));
    } else if id == 0x36f1c736u32 {
        assert(api_of_id(id) == Some(Api::NvAPI_Stereo_GetSurfaceCreationMode));
    } else if id == 0x3eebba1du32 {
        assert(api_of_id(id) == Some(Api::NvAPI_DISP_SetAdaptiveSyncData));
    } else if id == 0x375dbd6bu32 {
        assert(api_of_id(id) == Some(Api::NvAPI_DRS_LoadSettings));
    }
}

#[verifier::spinoff_prover]
proof fn lemma_api_of_id_inverse_3_3(id: u32)
    requires
        id == 0x3fc596aau32
        || id == 0x3119f36eu32
        || id == 0x35b5fd2fu32
        || id == 0x3f28e1b9u32
        || id == 0x3bd32008u32
        || id == 0x387b2e41u32
        || id == 0x32e1d697u32
        || id == 0x3d358a0cu32
        || id == 0x34c0b13du32
        || id == 0x39442cfbu32,
    ensures
        api_of_id(id) matches Some(a) && api_id(a) == id,
{
    if id == 0x3fc596aau32 {
        assert(api_of_id(id) == Some(Api::NvAPI_GPU_GetLicensableFeatures));
    } else if id == 0x3119f36eu32 {
        assert(api_of_id(id) == Some(Api::NvAPI_LoadMicrocode));
    } else if id == 0x35b5fd2fu32 {
        assert(api_of_id(id) == Some(Api::NvAPI_GPU_GetTargetID));
    } else if id == 0x3f28e1b9u32 {
        assert(api_of_id(id) == Some(Api::NvAPI_GPU_SetCurrentPCIEWidth));
    } else if id == 0x3bd32008u32 {
        assert(api_of_id(id) == Some(Api::NvAPI_GPU_SetCurrentPCIESpeed));
    } else if id == 0x387b2e41u32 {
        assert(api_of_id(id) == Some(Api::NvAPI_GPU_SetDisplayUnderflowMode));
    } else if id == 0x32e1d697u32 {
        assert(api_of_id(id) == Some(Api::NvAPI_GPU_GetSampleType));
    } else if id == 0x3d358a0cu32 {
        assert(api_of_id(id) == Some(Api::NvAPI_GPU_PerfPoliciesGetStatus));
    } else if id == 0x34c0b13du32 {
        assert(api_of_id(id) == Some(Api::NvAPI_GPU_ClientThermalPoliciesSetStatus));
    } else if id == 0x39442cfbu32 {
        assert(api_of_id(id) == Some(Api::NvAPI_GPU_PerfClientLimitsSetStatus));
    }
}

#[verifier::spinoff_prover]
proof fn lemma_api_of_id_inverse_3_4(id: u32)
    requires
        id == 0x35aed5e8u32
        || id == 0x3dbf5764u32
        || id == 0x37e7191cu32
        || id == 0x3c5c351bu32
        || id == 0x341c6c7fu32
        || id == 0x3a94e822u32
        || id == 0x3dfacec8u32
        || id == 0x3b03791bu32
        || id == 0x34f7938fu32
        || id == 0x3151211bu32,
    ensures
        api_of_id(id) matches Some(a) && api_id(a) == id,
{
    if id == 0x35aed5e8u32 {
        assert(api_of_id(id) == Some(Api::NvAPI_GPU_ClientFanCoolersGetStatus));
    } else if id == 0x3dbf5764u32 {
        assert(api_of_id(id) == Some(Api::NvAPI_GPU_ClientIllumZonesGetControl));
    } else if id == 0x37e7191cu32 {
        assert(api_of_id(id) == Some(Api::NvAPI_D3D_EndResourceRendering));
    } else if id == 0x3c5c351bu32 {
        assert(api_of_id(id) == Some(Api::NvAPI_DestroyPresentBarrierClient));
    } else if id == 0x341c6c7fu32 {
        assert(api_of_id(id) == Some(Api::NvAPI_D3D_ConfigureAnsel));
    } else if id == 0x3a94e822u32 {
        assert(api_of_id(id) == Some(Api::NvAPI_D3D11_DecompressView));
    } else if id == 0x3dfacec8u32 {
        assert(api_of_id(id) == Some(Api::NvAPI_D3D12_IsNvShaderExtnOpCodeSupported));
    } else if id == 0x3b03791bu32 {
        assert(api_of_id(id) == Some(Api::NvAPI_D3D12_QuerySinglePassStereoSupport));
    } else if id == 0x34f7938fu32 {
        assert(api_of_id(id) == Some(Api::NvAPI_D3D11_RSSetViewportsPixelShadingRates));
    } else if id == 0x3151211bu32 {
        assert(api_of_id(id) == Some(Api::NvAPI_D3D12_CreateCubinComputeShaderEx));
    }
}

#[verifier::spinoff_prover]
proof fn lemma_api_of_id_inverse_3_5(id: u32)
    requires
        id == 0x32c2a0f6u32
        || id == 0x36e39e6bu32,
    ensures
        api_of_id(id) matches Some(a) && api_id(a) == id,
{
    if id == 0x32c2a0f6u32 {
        assert(api_of_id(id) == Some(Api::NvAPI_D3D11_CreateCubinComputeShaderEx));
    } else if id == 0x36e39e6bu32 {
        assert(api_of_id(id) == Some(Api::Unknown_36E39E6B));
    }
}

#[verifier::spinoff_prover]
proof fn lemma_api_of_id_inverse_4_0(id: u32)
    requires
        id == 0x48b3ea59u32
        || id == 0x4888d790u32
        || id == 0x41511594u32
        || id == 0x4085de45u32
        || id == 0x4a82c2b1u32
        || id == 0x4b708b54u32
        || id == 0x4aceeaf7u32
        || id == 0x492a6954u32
        || id == 0x4eadf5d2u32
        || id == 0x43d867c0u32,
    ensures
        api_of_id(id) matches Some(a) && api_id(a) == id,
{
    if id == 0x48b3ea59u32 {
        assert(api_of_id(id) == Some(Api::NvAPI_EnumLogicalGPUs));
    } else if id == 0x4888d790u32 {
        assert(api_of_id(id) == Some(Api::NvAPI_GetUnAttachedAssociatedDisplayName));
    } else if id == 0x41511594u32 {
        assert(api_of_id(id) == Some(Api::NvAPI_GetInfoFrameState));
    } else if id == 0x4085de45u32 {
        assert(api_of_id(id) == Some(Api::NvAPI_GetDVCInfo));
    } else if id == 0x4a82c2b1u32 {
        assert(api_of_id(id) == Some(Api::NvAPI_SetDVCLevelEx));
    } else if id == 0x4b708b54u32 {
        assert(api_of_id(id) == Some(Api::NvAPI_D3D_GetCurrentSLIState));
    } else if id == 0x4aceeaf7u32 {
        assert(api_of_id(id) == Some(Api::NvAPI_D3D_Query_GetType));
    } else if id == 0x492a6954u32 {
        assert(api_of_id(id) == Some(Api::NvAPI_D3D9_EnableStereo));
    } else if id == 0x4eadf5d2u32 {
        assert(api_of_id(id) == Some(Api::NvAPI_D3D10_SetDepthBoundsTest));
    } else if id == 0x43d867c0u32 {
        assert(api_of_id(id) == Some(Api::NvAPI_D3D12_SetNvShaderExtnSlotSpaceLocalThread));
    }
}

#[verifier::spinoff_prover]
proof fn lemma_api_of_id_inverse_4_1(id: u32)
    requires
        id == 0x4a35df54u32
        || id == 0x4e2f76a8u32
        || id == 0x40a505e4u32
        || id == 0x4eca2c10u32
        || id == 0x46fbeb03u32
        || id == 0x4d7b0709u32
        || id == 0x49882876u32
        || id == 0x42892957u32
        || id == 0x4144111au32
        || id == 0x4feeb498u32,
    ensures
        api_of_id(id) matches Some(a) && api_id(a) == id,
{
    if id == 0x4a35df54u32 {
        assert(api_of_id(id) == Some(Api::NvAPI_GPU_GetTPCMask));
    } else if id == 0x4e2f76a8u32 {
        assert(api_of_id(id) == Some(Api::NvAPI_GPU_GetTotalTPCCount));
    } else if id == 0x40a505e4u32 {
        assert(api_of_id(id) == Some(Api::NvAPI_GPU_GetOutputType));
    } else if id == 0x4eca2c10u32 {
        assert(api_of_id(id) == Some(Api::NvAPI_GPU_GetConnectorInfo));
    } else if id == 0x46fbeb03u32 {
        assert(api_of_id(id) == Some(Api::NvAPI_GPU_GetPhysicalFrameBufferSize));
    } else if id == 0x4d7b0709u32 {
        assert(api_of_id(id) == Some(Api::NvAPI_I2CReadEx));
    } else if id == 0x49882876u32 {
        assert(api_of_id(id) == Some(Api::NvAPI_DISP_SaveCustomDisplay));
    } else if id == 0x42892957u32 {
        assert(api_of_id(id) == Some(Api::NvAPI_EnumCustomDisplay));
    } else if id == 0x4144111au32 {
        assert(api_of_id(id) == Some(Api::NvAPI_EnumUnderscanConfig));
    } else if id == 0x4feeb498u32 {
        assert(api_of_id(id) == Some(Api::NvAPI_SetPVExtName));
    }
}

#[verifier::spinoff_prover]
proof fn lemma_api_of_id_inverse_4_2(id: u32)
    requires
        id == 0x4d959a89u32
        || id == 0x410b5c25u32
        || id == 0x44a3f1d1u32
        || id == 0x4562bc38u32
        || id == 0x49bceecfu32
        || id == 0x451f2134u32
        || id == 0x4ab00934u32
        || id == 0x4c87e317u32
        || id == 0x40c8ed5eu32
        || id == 0x416c07b3u32,
    ensures
        api_of_id(id) matches Some(a) && api_id(a) == id,
{
    if id == 0x4d959a89u32 {
        assert(api_of_id(id) == Some(Api::NvAPI_Mosaic_SetDisplayGrids));
    } else if id == 0x410b5c25u32 {
        assert(api_of_id(id) == Some(Api::NvAPI_GetSupportedMosaicTopologies));
    } else if id == 0x44a3f1d1u32 {
        assert(api_of_id(id) == Some(Api::NvAPI_GSync_QueryCapabilities));
    } else if id == 0x4562bc38u32 {
        assert(api_of_id(id) == Some(Api::NvAPI_GSync_GetTopology));
    } else if id == 0x49bceecfu32 {
        assert(api_of_id(id) == Some(Api::NvAPI_Stereo_DeleteConfigurationProfileValue));
    } else if id == 0x451f2134u32 {
        assert(api_of_id(id) == Some(Api::NvAPI_Stereo_GetSeparation));
    } else if id == 0x4ab00934u32 {
        assert(api_of_id(id) == Some(Api::NvAPI_Stereo_GetConvergence));
    } else if id == 0x4c87e317u32 {
        assert(api_of_id(id) == Some(Api::NvAPI_Stereo_DecreaseConvergence));
    } else if id == 0x40c8ed5eu32 {
        assert(api_of_id(id) == Some(Api::NvAPI_Stereo_IsWindowedModeSupported));
    } else if id == 0x416c07b3u32 {
        assert(api_of_id(id) == Some(Api::NvAPI_Stereo_SetVertexShaderConstantF));
    }
}

#[verifier::spinoff_prover]
proof fn lemma_api_of_id_inverse_4_3(id: u32)
    requires
        id == 0x44f0ecd1u32
        || id == 0x44ee4841u32
        || id == 0x462214a9u32
        || id == 0x47c917bau32
        || id == 0x407f67aau32
        || id == 0x4347a9deu32
        || id == 0x47bad137u32
        || id == 0x44e022a9u32
        || id == 0x473f7828u32
        || id == 0x4db019e6u32,
    ensures
        api_of_id(id) matches Some(a) && api_id(a) == id,
{
    if id == 0x44f0ecd1u32 {
        assert(api_of_id(id) == Some(Api::NvAPI_Stereo_SetDefaultProfile));
    } else if id == 0x44ee4841u32 {
        assert(api_of_id(id) == Some(Api::NvAPI_VIO_Open));
    } else if id == 0x462214a9u32 {
        assert(api_of_id(id) == Some(Api::NvAPI_VIO_GetSyncDelay));
    } else if id == 0x47c917bau32 {
        assert(api_of_id(id) == Some(Api::NvAPI_DISP_AcquireDedicatedDisplay));
    } else if id == 0x407f67aau32 {
        assert(api_of_id(id) == Some(Api::NvAPI_D3D1x_QuerySwapGroup));
    } else if id == 0x4347a9deu32 {
        assert(api_of_id(id) == Some(Api::NvAPI_DRS_CreateApplication));
    } else if id == 0x47bad137u32 {
        assert(api_of_id(id) == Some(Api::NvAPI_DISP_GetHCloneTopology));
    } else if id == 0x44e022a9u32 {
        assert(api_of_id(id) == Some(Api::NvAPI_GPU_GetVirtualizationInfo));
    } else if id == 0x473f7828u32 {
        assert(api_of_id(id) == Some(Api::NvAPI_D3D1x_IFR_SetUpTargetBufferToSys));
    } else if id == 0x4db019e6u32 {
        assert(api_of_id(id) == Some(Api::NvAPI_GPU_GetAllGpusOnSameBoard));
    }
}

#[verifier::spinoff_prover]
proof fn lemma_api_of_id_inverse_4_4(id: u32)
    requires
        id == 0x4071b85eu32
        || id == 0x409d9841u32
        || id == 0x465f9bcfu32
        || id == 0x44cd3014u32
        || id == 0x4b81241bu32
        || id == 0x42aea16au32
        || id == 0x4d815de9u32
        || id == 0x4162822bu32
        || id == 0x47f78194u32
        || id == 0x4780d70bu32,
    ensures
        api_of_id(id) matches Some(a) && api_id(a) == id,
{
    if id == 0x4071b85eu32 {
        assert(api_of_id(id) == Some(Api::NvAPI_GPU_PhysxSetState));
    } else if id == 0x409d9841u32 {
        assert(api_of_id(id) == Some(Api::NvAPI_GPU_PerfPoliciesGetInfo));
    } else if id == 0x465f9bcfu32 {
        assert(api_of_id(id) == Some(Api::NvAPI_GPU_ClientVoltRailsGetStatus));
    } else if id == 0x44cd3014u32 {
        assert(api_of_id(id) == Some(Api::NvAPI_GPU_ClientFanArbitersSetControl));
    } else if id == 0x4b81241bu32 {
        assert(api_of_id(id) == Some(Api::NvAPI_GPU_ClientIllumZonesGetInfo));
    } else if id == 0x42aea16au32 {
        assert(api_of_id(id) == Some(Api::NvAPI_GPU_GetRamMaker));
    } else if id == 0x4d815de9u32 {
        assert(api_of_id(id) == Some(Api::NvAPI_D3D12_CreatePresentBarrierClient));
    } else if id == 0x4162822bu32 {
        assert(api_of_id(id) == Some(Api::NvAPI_D3D11_CreatePixelShaderEx_2));
    } else if id == 0x47f78194u32 {
        assert(api_of_id(id) == Some(Api::NvAPI_D3D12_CopyTileMappings));
    } else if id == 0x4780d70bu32 {
        assert(api_of_id(id) == Some(Api::NvAPI_D3D_InitializeVRSHelper));
    }
}

#[verifier::spinoff_prover]
proof fn lemma_api_of_id_inverse_4_5(id: u32)
    requires
        id == 0x42763d0cu32
        || id == 0x48f5b2eeu32
        || id == 0x41c65285u32
        || id == 0x427e236du32
        || id == 0x4726d180u32,
    ensures
        api_of_id(id) matches Some(a) && api_id(a) == id,
{
    if id == 0x42763d0cu32 {
        assert(api_of_id(id) == Some(Api::NvAPI_D3D_InitializeSMPAssist));
    } else if id == 0x48f5b2eeu32 {
        assert(api_of_id(id) == Some(Api::NvAPI_D3D12_GetCudaSurfaceObject));
    } else if id == 0x41c65285u32 {
        assert(api_of_id(id) == Some(Api::NvAPI_D3D12_DestroyCuModule));
    } else if id == 0x427e236du32 {
        assert(api_of_id(id) == Some(Api::NvAPI_D3D11_LaunchCubinShader));
    } else if id == 0x4726d180u32 {
        assert(api_of_id(id) == Some(Api::NvAPI_D3D12_GetRaytracingOpacityMicromapArrayPrebuildInfo));
    }
}

#[verifier::spinoff_prover]
proof fn lemma_api_of_id_inverse_5_0(id: u32)
    requires
        id == 0x5018ed61u32
        || id == 0x5d19bca4u32
        || id == 0x5cf7f862u32
        || id == 0x5609b86au32
        || id == 0x55255d05u32
        || id == 0x5fe72f64u32
        || id == 0x5b803dafu32
        || id == 0x5f68da40u32
        || id == 0x5a04b644u32
        || id == 0x57f7caacu32,
    ensures
        api_of_id(id) matches Some(a) && api_id(a) == id,
{
    if id == 0x5018ed61u32 {
        assert(api_of_id(id) == Some(Api::NvAPI_GetPhysicalGPUFromUnAttachedDisplay));
    } else if id == 0x5d19bca4u32 {
        assert(api_of_id(id) == Some(Api::NvAPI_D3D_CreateQuery));
    } else if id == 0x5cf7f862u32 {
        assert(api_of_id(id) == Some(Api::NvAPI_D3D9_PresentVideo));
    } else if id == 0x5609b86au32 {
        assert(api_of_id(id) == Some(Api::NvAPI_D3D9_SetSurfaceCreationLayout));
    } else if id == 0x55255d05u32 {
        assert(api_of_id(id) == Some(Api::NvAPI_D3D9_IFR_SetUpTargetBufferToSys));
    } else if id == 0x5fe72f64u32 {
        assert(api_of_id(id) == Some(Api::NvAPI_D3D9_IFR_TransferRenderTargetToNV12BLVideoSurface));
    } else if id == 0x5b803dafu32 {
        assert(api_of_id(id) == Some(Api::NvAPI_D3D10_CreateDeviceAndSwapChain));
    } else if id == 0x5f68da40u32 {
        assert(api_of_id(id) == Some(Api::NvAPI_D3D11_IsNvShaderExtnOpCodeSupported));
    } else if id == 0x5a04b644u32 {
        assert(api_of_id(id) == Some(Api::NvAPI_GPU_GetVirtualFrameBufferSize));
    } else if id == 0x57f7caacu32 {
        assert(api_of_id(id) == Some(Api::NvAPI_GPU_GetRamType));
    }
}

#[verifier::spinoff_prover]
proof fn lemma_api_of_id_inverse_5_1(id: u32)
    requires
        id == 0x5757474au32
        || id == 0x57d9060fu32
        || id == 0x5dfab48au32
        || id == 0x50016c78u32
        || id == 0x53dabbcau32
        || id == 0x552e5b9bu32
        || id == 0x5f1aa66cu32
        || id == 0x5f35bcb5u32
        || id == 0x584cb0b6u32
        || id == 0x5c069fa3u32,
    ensures
        api_of_id(id) matches Some(a) && api_id(a) == id,
{
    if id == 0x5757474au32 {
        assert(api_of_id(id) == Some(Api::NvAPI_GetTVEncoderControls));
    } else if id == 0x57d9060fu32 {
        assert(api_of_id(id) == Some(Api::NvAPI_SetDisplayPosition));
    } else if id == 0x5dfab48au32 {
        assert(api_of_id(id) == Some(Api::NvAPI_GetValidGpuTopologies));
    } else if id == 0x50016c78u32 {
        assert(api_of_id(id) == Some(Api::NvAPI_GPU_SetPowerMizerInfo));
    } else if id == 0x53dabbcau32 {
        assert(api_of_id(id) == Some(Api::NvAPI_SYS_GetChipSetInfo));
    } else if id == 0x552e5b9bu32 {
        assert(api_of_id(id) == Some(Api::NvAPI_DISP_DeleteCustomDisplay));
    } else if id == 0x5f1aa66cu32 {
        assert(api_of_id(id) == Some(Api::NvAPI_Mosaic_EnableCurrentTopo));
    } else if id == 0x5f35bcb5u32 {
        assert(api_of_id(id) == Some(Api::NvAPI_Hybrid_QueryUnblockedNonMigratableApps));
    } else if id == 0x584cb0b6u32 {
        assert(api_of_id(id) == Some(Api::NvAPI_Hybrid_IsAppMigrationStateChangeable));
    } else if id == 0x5c069fa3u32 {
        assert(api_of_id(id) == Some(Api::NvAPI_Stereo_SetSeparation));
    }
}

#[verifier::spinoff_prover]
proof fn lemma_api_of_id_inverse_5_2(id: u32)
    requires
        id == 0x5e8f0becu32
        || id == 0x5268716fu32
        || id == 0x5a60613au32
        || id == 0x51d53d06u32
        || id == 0x5f608315u32
        || id == 0x540ee82eu32
        || id == 0x583113edu32
        || id == 0x5d8cf8deu32
        || id == 0x5abbe6a3u32
        || id == 0x5ac7f8e5u32,
    ensures
        api_of_id(id) matches Some(a) && api_id(a) == id,
{
    if id == 0x5e8f0becu32 {
        assert(api_of_id(id) == Some(Api::NvAPI_Stereo_SetDriverMode));
    } else if id == 0x5268716fu32 {
        assert(api_of_id(id) == Some(Api::NvAPI_Stereo_SetVertexShaderConstantB));
    } else if id == 0x5a60613au32 {
        assert(api_of_id(id) == Some(Api::NvAPI_Stereo_GetVertexShaderConstantI));
    } else if id == 0x51d53d06u32 {
        assert(api_of_id(id) == Some(Api::NvAPI_VIO_GetGamma));
    } else if id == 0x5f608315u32 {
        assert(api_of_id(id) == Some(Api::NvAPI_GPU_GetTachReading));
    } else if id == 0x540ee82eu32 {
        assert(api_of_id(id) == Some(Api::NvAPI_GPS_GetPowerSteeringStatus));
    } else if id == 0x583113edu32 {
        assert(api_of_id(id) == Some(Api::NvAPI_GPS_GetThermalLimit));
    } else if id == 0x5d8cf8deu32 {
        assert(api_of_id(id) == Some(Api::NvAPI_DISP_SetDisplayConfig));
    } else if id == 0x5abbe6a3u32 {
        assert(api_of_id(id) == Some(Api::NvAPI_DISP_SetVirtualRefreshRateData));
    } else if id == 0x5ac7f8e5u32 {
        assert(api_of_id(id) == Some(Api::NvAPI_GPU_SetPixelClockRange));
    }
}

#[verifier::spinoff_prover]
proof fn lemma_api_of_id_inverse_5_3(id: u32)
    requires
        id == 0x5995410du32
        || id == 0x577dd202u32
        || id == 0x5927b094u32
        || id == 0x53f0381eu32
        || id == 0x58fe51e6u32
        || id == 0x5f4c2664u32
        || id == 0x5380ad1au32
        || id == 0x5d857a00u32
        || id == 0x521566bbu32
        || id == 0x524b9773u32,
    ensures
        api_of_id(id) matches Some(a) && api_id(a) == id,
{
    if id == 0x5995410du32 {
        assert(api_of_id(id) == Some(Api::NvAPI_D3D9_QueryMaxSwapGroup));
    } else if id == 0x577dd202u32 {
        assert(api_of_id(id) == Some(Api::NvAPI_DRS_SetSetting));
    } else if id == 0x5927b094u32 {
        assert(api_of_id(id) == Some(Api::NvAPI_DRS_RestoreAllDefaults));
    } else if id == 0x53f0381eu32 {
        assert(api_of_id(id) == Some(Api::NvAPI_DRS_RestoreProfileDefaultSetting));
    } else if id == 0x58fe51e6u32 {
        assert(api_of_id(id) == Some(Api::NvAPI_GPU_GetScanoutCompositionParameter));
    } else if id == 0x5f4c2664u32 {
        assert(api_of_id(id) == Some(Api::NvAPI_DISP_ValidateHCloneTopology));
    } else if id == 0x5380ad1au32 {
        assert(api_of_id(id) == Some(Api::NvAPI_GetPhysicalGPUFromGPUID));
    } else if id == 0x5d857a00u32 {
        assert(api_of_id(id) == Some(Api::NvAPI_GPU_GetFoundry));
    } else if id == 0x521566bbu32 {
        assert(api_of_id(id) == Some(Api::NvAPI_GPU_ClearPCIELinkAERInfo));
    } else if id == 0x524b9773u32 {
        assert(api_of_id(id) == Some(Api::NvAPI_GPU_GetFrameBufferCalibrationLockFailures));
    }
}

#[verifier::spinoff_prover]
proof fn lemma_api_of_id_inverse_5_4(id: u32)
    requires
        id == 0x51ccdb2au32
        || id == 0x5d7ccaebu32
        || id == 0x5786cc6eu32
        || id == 0x568a2292u32
        || id == 0x507b4b59u32
        || id == 0x52b76d12u32
        || id == 0x593e8e72u32
        || id == 0x57024c62u32
        || id == 0x525d43beu32
        || id == 0x5cb397cfu32,
    ensures
        api_of_id(id) matches Some(a) && api_id(a) == id,
{
    if id == 0x51ccdb2au32 {
        assert(api_of_id(id) == Some(Api::NvAPI_GPU_GetRamConfigStrap));
    } else if id == 0x5d7ccaebu32 {
        assert(api_of_id(id) == Some(Api::NvAPI_GPU_GetPerfHybridMode));
    } else if id == 0x5786cc6eu32 {
        assert(api_of_id(id) == Some(Api::NvAPI_GPU_CudaEnumComputeCapableGpus));
    } else if id == 0x568a2292u32 {
        assert(api_of_id(id) == Some(Api::NvAPI_GPU_SetDeepIdleState));
    } else if id == 0x507b4b59u32 {
        assert(api_of_id(id) == Some(Api::NvAPI_GPU_ClockClientClkVfPointsGetInfo));
    } else if id == 0x52b76d12u32 {
        assert(api_of_id(id) == Some(Api::NvAPI_GPU_ClientFanPoliciesGetInfo));
    } else if id == 0x593e8e72u32 {
        assert(api_of_id(id) == Some(Api::NvAPI_GPU_ClientGetLastOcScannerResults));
    } else if id == 0x57024c62u32 {
        assert(api_of_id(id) == Some(Api::NvAPI_GPU_ClientIllumDevicesSetControl));
    } else if id == 0x525d43beu32 {
        assert(api_of_id(id) == Some(Api::NvAPI_D3D11_CreateFastGeometryShader));
    } else if id == 0x5cb397cfu32 {
        assert(api_of_id(id) == Some(Api::NvAPI_D3D12_CreateHeap));
    }
}

#[verifier::spinoff_prover]
proof fn lemma_api_of_id_inverse_5_5(id: u32)
    requires
        id == 0x51235248u32
        || id == 0x59e890f9u32
        || id == 0x52b1499au32
        || id == 0x5b3b7479u32
        || id == 0x5c52bb86u32
        || id == 0x5c607a27u32,
    ensures
        api_of_id(id) matches Some(a) && api_id(a) == id,
{
    if id == 0x51235248u32 {
        assert(api_of_id(id) == Some(Api::NvAPI_D3D12_QueryModifiedWSupport));
    } else if id == 0x59e890f9u32 {
        assert(api_of_id(id) == Some(Api::NvAPI_D3D11_MultiDrawIndexedInstancedIndirect));
    } else if id == 0x52b1499au32 {
        assert(api_of_id(id) == Some(Api::NvAPI_D3D1x_GetGraphicsCapabilities));
    } else if id == 0x5b3b7479u32 {
        assert(api_of_id(id) == Some(Api::NvAPI_D3D_InitializeNvGazeHandler));
    } else if id == 0x5c52bb86u32 {
        assert(api_of_id(id) == Some(Api::NvAPI_D3D12_LaunchCubinShader));
    } else if id == 0x5c607a27u32 {
        assert(api_of_id(id) == Some(Api::NvAPI_D3D12_SetCreatePipelineStateOptions));
    }
}

#[verifier::spinoff_prover]
proof fn lemma_api_of_id_inverse_6_0(id: u32)
    requires
        id == 0x6c2d048cu32
        || id == 0x63f9799eu32
        || id == 0x67b5db55u32
        || id == 0x6ae16ec3u32
        || id == 0x69c6f365u32
        || id == 0x67efd887u32
        || id == 0x6067af3fu32
        || id == 0x667c2929u32
        || id == 0x6800f5fcu32
        || id == 0x6d6fdad4u32,
    ensures
        api_of_id(id) matches Some(a) && api_id(a) == id,
{
    if id == 0x6c2d048cu32 {
        assert(api_of_id(id) == Some(Api::NvAPI_GetErrorMessage));
    } else if id == 0x63f9799eu32 {
        assert(api_of_id(id) == Some(Api::NvAPI_CreateDisplayFromUnAttachedDisplay));
    } else if id == 0x67b5db55u32 {
        assert(api_of_id(id) == Some(Api::NvAPI_GetVBlankCounter));
    } else if id == 0x6ae16ec3u32 {
        assert(api_of_id(id) == Some(Api::NvAPI_GetHDMISupportInfo));
    } else if id == 0x69c6f365u32 {
        assert(api_of_id(id) == Some(Api::NvAPI_SetInfoFrame));
    } else if id == 0x67efd887u32 {
        assert(api_of_id(id) == Some(Api::NvAPI_SetInfoFrameState));
    } else if id == 0x6067af3fu32 {
        assert(api_of_id(id) == Some(Api::NvAPI_Disp_InfoFrameControl));
    } else if id == 0x667c2929u32 {
        assert(api_of_id(id) == Some(Api::NvAPI_D3D9_DestroyPathContextNV));
    } else if id == 0x6800f5fcu32 {
        assert(api_of_id(id) == Some(Api::NvAPI_D3D9_GetOverlaySurfaceHandles));
    } else if id == 0x6d6fdad4u32 {
        assert(api_of_id(id) == Some(Api::NvAPI_D3D9_GpuSyncInit));
    }
}

#[verifier::spinoff_prover]
proof fn lemma_api_of_id_inverse_6_1(id: u32)
    requires
        id == 0x6317345cu32
        || id == 0x694bff4du32
        || id == 0x6a16d3a0u32
        || id == 0x65b93ca8u32
        || id == 0x63e2f56fu32
        || id == 0x6e042794u32
        || id == 0x6ff81213u32
        || id == 0x60ded2edu32
        || id == 0x6dfd1c8cu32
        || id == 0x6bb1ee5du32,
    ensures
        api_of_id(id) matches Some(a) && api_id(a) == id,
{
    if id == 0x6317345cu32 {
        assert(api_of_id(id) == Some(Api::NvAPI_D3D9_Lock));
    } else if id == 0x694bff4du32 {
        assert(api_of_id(id) == Some(Api::NvAPI_D3D9_GetSLIInfo));
    } else if id == 0x6a16d3a0u32 {
        assert(api_of_id(id) == Some(Api::NvAPI_D3D11_CreateDevice));
    } else if id == 0x65b93ca8u32 {
        assert(api_of_id(id) == Some(Api::NvAPI_D3D11_BeginUAVOverlap));
    } else if id == 0x63e2f56fu32 {
        assert(api_of_id(id) == Some(Api::NvAPI_GPU_GetShaderPipeCount));
    } else if id == 0x6e042794u32 {
        assert(api_of_id(id) == Some(Api::NvAPI_GPU_GetAGPAperture));
    } else if id == 0x6ff81213u32 {
        assert(api_of_id(id) == Some(Api::NvAPI_GPU_GetPstates20));
    } else if id == 0x60ded2edu32 {
        assert(api_of_id(id) == Some(Api::NvAPI_GPU_GetDynamicPstatesInfoEx));
    } else if id == 0x6dfd1c8cu32 {
        assert(api_of_id(id) == Some(Api::NvAPI_GetTVOutputBorderColor));
    } else if id == 0x6bb1ee5du32 {
        assert(api_of_id(id) == Some(Api::NvAPI_GetDisplayPosition));
    }
}

#[verifier::spinoff_prover]
proof fn lemma_api_of_id_inverse_6_2(id: u32)
    requires
        id == 0x6c1f3fe4u32
        || id == 0x6ae4cfb5u32
        || id == 0x61d7b624u32
        || id == 0x66fb7fc0u32
        || id == 0x69a9874du32
        || id == 0x60acdfddu32
        || id == 0x65b1c5f5u32
        || id == 0x6b9b409eu32
        || id == 0x622fdc87u32
        || id == 0x624e21c2u32,
    ensures
        api_of_id(id) matches Some(a) && api_id(a) == id,
{
    if id == 0x6c1f3fe4u32 {
        assert(api_of_id(id) == Some(Api::NvAPI_GPU_WorkstationFeatureSetup));
    } else if id == 0x6ae4cfb5u32 {
        assert(api_of_id(id) == Some(Api::NvAPI_DISP_GetMonitorColorCapabilities));
    } else if id == 0x61d7b624u32 {
        assert(api_of_id(id) == Some(Api::NvAPI_QueryUnderscanCap));
    } else if id == 0x66fb7fc0u32 {
        assert(api_of_id(id) == Some(Api::NvAPI_GetSupportedViews));
    } else if id == 0x69a9874du32 {
        assert(api_of_id(id) == Some(Api::NvAPI_Coproc_GetCoprocInfoFlagsEx));
    } else if id == 0x60acdfddu32 {
        assert(api_of_id(id) == Some(Api::NvAPI_GSync_SetSyncStateSettings));
    } else if id == 0x65b1c5f5u32 {
        assert(api_of_id(id) == Some(Api::NvAPI_GPU_QueryActiveApps));
    } else if id == 0x6b9b409eu32 {
        assert(api_of_id(id) == Some(Api::NvAPI_Stereo_SetNotificationMessage));
    } else if id == 0x622fdc87u32 {
        assert(api_of_id(id) == Some(Api::NvAPI_Stereo_GetVertexShaderConstantF));
    } else if id == 0x624e21c2u32 {
        assert(api_of_id(id) == Some(Api::NvAPI_Stereo_GetDefaultProfile));
    }
}

#[verifier::spinoff_prover]
proof fn lemma_api_of_id_inverse_6_3(id: u32)
    requires
        id == 0x6ba2a5d6u32
        || id == 0x68888eb4u32
        || id == 0x66af10b7u32
        || id == 0x63685979u32
        || id == 0x63e5d8dbu32
        || id == 0x617bff9fu32
        || id == 0x61cd6fd6u32
        || id == 0x6f5435afu32
        || id == 0x6a9f5b63u32
        || id == 0x61041c24u32,
    ensures
        api_of_id(id) matches Some(a) && api_id(a) == id,
{
    if id == 0x6ba2a5d6u32 {
        assert(api_of_id(id) == Some(Api::NvAPI_VIO_Stop));
    } else if id == 0x68888eb4u32 {
        assert(api_of_id(id) == Some(Api::NvAPI_GPS_SetVPStateCap));
    } else if id == 0x66af10b7u32 {
        assert(api_of_id(id) == Some(Api::NvAPI_GPU_GetPixelClockRange));
    } else if id == 0x63685979u32 {
        assert(api_of_id(id) == Some(Api::NvAPI_SYS_VenturaGetPowerReading));
    } else if id == 0x63e5d8dbu32 {
        assert(api_of_id(id) == Some(Api::NvAPI_DISP_GetDisplayBlankingState));
    } else if id == 0x617bff9fu32 {
        assert(api_of_id(id) == Some(Api::NvAPI_DRS_GetCurrentGlobalProfile));
    } else if id == 0x61cd6fd6u32 {
        assert(api_of_id(id) == Some(Api::NvAPI_DRS_GetProfileInfo));
    } else if id == 0x6f5435afu32 {
        assert(api_of_id(id) == Some(Api::NvAPI_GPU_GetScanoutWarpingState));
    } else if id == 0x6a9f5b63u32 {
        assert(api_of_id(id) == Some(Api::NvAPI_GPU_GetScanoutConfiguration));
    } else if id == 0x61041c24u32 {
        assert(api_of_id(id) == Some(Api::NvAPI_DISP_SetHCloneTopology));
    }
}

#[verifier::spinoff_prover]
proof fn lemma_api_of_id_inverse_6_4(id: u32)
    requires
        id == 0x6533ea3eu32
        || id == 0x633252d8u32
        || id == 0x6f151055u32
        || id == 0x64b43a6au32
        || id == 0x600f612eu32
        || id == 0x6c0ed98cu32
        || id == 0x61b844a1u32
        || id == 0x6e5ea9dbu32
        || id == 0x6f5f0a6du32
        || id == 0x6086bd93u32,
    ensures
        api_of_id(id) matches Some(a) && api_id(a) == id,
{
    if id == 0x6533ea3eu32 {
        assert(api_of_id(id) == Some(Api::NvAPI_GetGPUIDfromPhysicalGPU));
    } else if id == 0x633252d8u32 {
        assert(api_of_id(id) == Some(Api::NvAPI_GetUnAttachedDisplayDriverRegistryPath));
    } else if id == 0x6f151055u32 {
        assert(api_of_id(id) == Some(Api::NvAPI_GPU_SetClocks));
    } else if id == 0x64b43a6au32 {
        assert(api_of_id(id) == Some(Api::NvAPI_GPU_ClockClientClkDomainsGetInfo));
    } else if id == 0x600f612eu32 {
        assert(api_of_id(id) == Some(Api::NvAPI_GPU_ClientFanArbitersGetControl));
    } else if id == 0x6c0ed98cu32 {
        assert(api_of_id(id) == Some(Api::NvAPI_D3D_SetResourceHint));
    } else if id == 0x61b844a1u32 {
        assert(api_of_id(id) == Some(Api::NvAPI_QueryPresentBarrierFrameStatistics));
    } else if id == 0x6e5ea9dbu32 {
        assert(api_of_id(id) == Some(Api::NvAPI_D3D12_CaptureUAVInfo));
    } else if id == 0x6f5f0a6du32 {
        assert(api_of_id(id) == Some(Api::NvAPI_D3D_QuerySinglePassStereoSupport));
    } else if id == 0x6086bd93u32 {
        assert(api_of_id(id) == Some(Api::NvAPI_D3D11_IsFatbinPTXSupported));
    }
}

#[verifier::spinoff_prover]
proof fn lemma_api_of_id_inverse_6_5(id: u32)
    requires
        id == 0x65cb431eu32,
    ensures
        api_of_id(id) matches Some(a) && api_id(a) == id,
{
    if id == 0x65cb431eu32 {
        assert(api_of_id(id) == Some(Api::NvAPI_D3D11_CreateShaderResourceView));
    }
}

#[verifier::spinoff_prover]
proof fn lemma_api_of_id_inverse_7_0(id: u32)
    requires
        id == 0x774aa982u32
        || id == 0x71329df3u32
        || id == 0x73e0019au32
        || id == 0x754033f0u32
        || id == 0x72b19155u32
        || id == 0x7c20c5beu32
        || id == 0x73eb9329u32
        || id == 0x7aaf7a04u32
        || id == 0x7d554f8eu32
        || id == 0x785210a2u32,
    ensures
        api_of_id(id) matches Some(a) && api_id(a) == id,
{
    if id == 0x774aa982u32 {
        assert(api_of_id(id) == Some(Api::NvAPI_GetDisplayDriverMemoryInfo));
    } else if id == 0x71329df3u32 {
        assert(api_of_id(id) == Some(Api::NvAPI_D3D9_CreatePathNV));
    } else if id == 0x73e0019au32 {
        assert(api_of_id(id) == Some(Api::NvAPI_D3D9_DeletePathNV));
    } else if id == 0x754033f0u32 {
        assert(api_of_id(id) == Some(Api::NvAPI_D3D9_GpuSyncEnd));
    } else if id == 0x72b19155u32 {
        assert(api_of_id(id) == Some(Api::NvAPI_D3D9_GetVertexBufferHandle));
    } else if id == 0x7c20c5beu32 {
        assert(api_of_id(id) == Some(Api::NvAPI_D3D9_AliasPrimaryFromDevice));
    } else if id == 0x73eb9329u32 {
        assert(api_of_id(id) == Some(Api::NvAPI_D3D10_SetPrimaryFlipChainCallbacks));
    } else if id == 0x7aaf7a04u32 {
        assert(api_of_id(id) == Some(Api::NvAPI_D3D11_SetDepthBoundsTest));
    } else if id == 0x7d554f8eu32 {
        assert(api_of_id(id) == Some(Api::NvAPI_GPU_GetAllOutputs));
    } else if id == 0x785210a2u32 {
        assert(api_of_id(id) == Some(Api::NvAPI_GPU_GetAllDisplayIds));
    }
}

#[verifier::spinoff_prover]
proof fn lemma_api_of_id_inverse_7_1(id: u32)
    requires
        id == 0x7d656244u32
        || id == 0x76a70e8du32
        || id == 0x76bfa16bu32
        || id == 0x70916171u32
        || id == 0x79232685u32
        || id == 0x78db97d7u32
        || id == 0x74073cc9u32
        || id == 0x70d404ecu32
        || id == 0x7be27fa2u32
        || id == 0x7923ba0eu32,
    ensures
        api_of_id(id) matches Some(a) && api_id(a) == id,
{
    if id == 0x7d656244u32 {
        assert(api_of_id(id) == Some(Api::NvAPI_GPU_GetVoltages));
    } else if id == 0x76a70e8du32 {
        assert(api_of_id(id) == Some(Api::NvAPI_GPU_Get_DisplayPort_DongleInfo));
    } else if id == 0x76bfa16bu32 {
        assert(api_of_id(id) == Some(Api::NvAPI_GPU_GetPowerMizerInfo));
    } else if id == 0x70916171u32 {
        assert(api_of_id(id) == Some(Api::NvAPI_GPU_ClientPowerPoliciesGetStatus));
    } else if id == 0x79232685u32 {
        assert(api_of_id(id) == Some(Api::NvAPI_Coproc_GetApplicationCoprocInfo));
    } else if id == 0x78db97d7u32 {
        assert(api_of_id(id) == Some(Api::NvAPI_Mosaic_EnumDisplayModes));
    } else if id == 0x74073cc9u32 {
        assert(api_of_id(id) == Some(Api::NvAPI_EnableCurrentMosaicTopology));
    } else if id == 0x70d404ecu32 {
        assert(api_of_id(id) == Some(Api::NvAPI_GSync_GetStatusParameters));
    } else if id == 0x7be27fa2u32 {
        assert(api_of_id(id) == Some(Api::NvAPI_Stereo_SetFrustumAdjustMode));
    } else if id == 0x7923ba0eu32 {
        assert(api_of_id(id) == Some(Api::NvAPI_Stereo_SetVertexShaderConstantI));
    }
}

#[verifier::spinoff_prover]
proof fn lemma_api_of_id_inverse_7_2(id: u32)
    requires
        id == 0x712baa5bu32
        || id == 0x72162b35u32
        || id == 0x7b0d72a3u32
        || id == 0x7bf0a94du32
        || id == 0x71913023u32
        || id == 0x721facebu32
        || id == 0x77a796f3u32
        || id == 0x7d44bb54u32
        || id == 0x7e4a9a0bu32
        || id == 0x7fa2173au32,
    ensures
        api_of_id(id) matches Some(a) && api_id(a) == id,
{
    if id == 0x712baa5bu32 {
        assert(api_of_id(id) == Some(Api::NvAPI_Stereo_GetVertexShaderConstantB));
    } else if id == 0x72162b35u32 {
        assert(api_of_id(id) == Some(Api::NvAPI_Stereo_GetCursorSeparation));
    } else if id == 0x7b0d72a3u32 {
        assert(api_of_id(id) == Some(Api::NvAPI_VIO_GetCSC));
    } else if id == 0x7bf0a94du32 {
        assert(api_of_id(id) == Some(Api::NvAPI_VIO_IsFrameLockModeCompatible));
    } else if id == 0x71913023u32 {
        assert(api_of_id(id) == Some(Api::NvAPI_GPS_GetVPStateCap));
    } else if id == 0x721facebu32 {
        assert(api_of_id(id) == Some(Api::NvAPI_SYS_GetDisplayDriverInfo));
    } else if id == 0x77a796f3u32 {
        assert(api_of_id(id) == Some(Api::NvAPI_GPU_GetECCConfigurationInfo));
    } else if id == 0x7d44bb54u32 {
        assert(api_of_id(id) == Some(Api::NvAPI_D3D9_JoinSwapGroup));
    } else if id == 0x7e4a9a0bu32 {
        assert(api_of_id(id) == Some(Api::NvAPI_DRS_FindProfileByName));
    } else if id == 0x7fa2173au32 {
        assert(api_of_id(id) == Some(Api::NvAPI_DRS_EnumApplications));
    }
}

#[verifier::spinoff_prover]
proof fn lemma_api_of_id_inverse_7_3(id: u32)
    requires
        id == 0x73bf8338u32
        || id == 0x7f7f4600u32
        || id == 0x7fc17574u32
        || id == 0x7562e947u32
        || id == 0x7975c581u32
        || id == 0x7bc207f8u32
        || id == 0x7a4174f4u32
        || id == 0x73c01d58u32
        || id == 0x7886981au32
        || id == 0x71ab7c9cu32,
    ensures
        api_of_id(id) matches Some(a) && api_id(a) == id,
{
    if id == 0x73bf8338u32 {
        assert(api_of_id(id) == Some(Api::NvAPI_DRS_GetSetting));
    } else if id == 0x7f7f4600u32 {
        assert(api_of_id(id) == Some(Api::NvAPI_GPU_GetPerfDecreaseInfo));
    } else if id == 0x7fc17574u32 {
        assert(api_of_id(id) == Some(Api::NvAPI_GetInfoFrameStatePvt));
    } else if id == 0x7562e947u32 {
        assert(api_of_id(id) == Some(Api::NvAPI_GetDisplayDriverBuildTitle));
    } else if id == 0x7975c581u32 {
        assert(api_of_id(id) == Some(Api::NvAPI_GPU_GetRamBusWidth));
    } else if id == 0x7bc207f8u32 {
        assert(api_of_id(id) == Some(Api::NvAPI_GPU_SetPerfHybridMode));
    } else if id == 0x7a4174f4u32 {
        assert(api_of_id(id) == Some(Api::NvAPI_GPU_PhysxQueryRecommendedState));
    } else if id == 0x73c01d58u32 {
        assert(api_of_id(id) == Some(Api::NvAPI_GPU_ClientIllumDevicesGetControl));
    } else if id == 0x7886981au32 {
        assert(api_of_id(id) == Some(Api::NvAPI_D3D11_CreateTiledTexture2DArray));
    } else if id == 0x71ab7c9cu32 {
        assert(api_of_id(id) == Some(Api::NvAPI_D3D11_CreateFastGeometryShaderExplicit));
    }
}

#[verifier::spinoff_prover]
proof fn lemma_api_of_id_inverse_7_4(id: u32)
    requires
        id == 0x7fb785bau32
        || id == 0x70c07832u32
        || id == 0x7ab88d88u32
        || id == 0x74a497a1u32,
    ensures
        api_of_id(id) matches Some(a) && api_id(a) == id,
{
    if id == 0x7fb785bau32 {
        assert(api_of_id(id) == Some(Api::NvAPI_D3D12_DestroyCubinComputeShader));
    } else if id == 0x70c07832u32 {
        assert(api_of_id(id) == Some(Api::NvAPI_D3D12_IsFatbinPTXSupported));
    } else if id == 0x7ab88d88u32 {
        assert(api_of_id(id) == Some(Api::NvAPI_D3D12_EnumFunctionsInModule));
    } else if id == 0x74a497a1u32 {
        assert(api_of_id(id) == Some(Api::NvAPI_D3D11_CreateUnorderedAccessView));
    }
}

#[verifier::spinoff_prover]
proof fn lemma_api_of_id_inverse_8_0(id: u32)
    requires
        id == 0x84f2a8dfu32
        || id == 0x80c9fd3bu32
        || id == 0x84c9d553u32
        || id == 0x89ffd9a3u32
        || id == 0x8aac133du32
        || id == 0x8ffb8e26u32
        || id == 0x8e90bb9fu32
        || id == 0x86f05d7au32
        || id == 0x891fa0aeu32
        || id == 0x8f6ed0fbu32,
    ensures
        api_of_id(id) matches Some(a) && api_id(a) == id,
{
    if id == 0x84f2a8dfu32 {
        assert(api_of_id(id) == Some(Api::NvAPI_Disp_GetHdrCapabilities));
    } else if id == 0x80c9fd3bu32 {
        assert(api_of_id(id) == Some(Api::NvAPI_D3D9_GpuSyncGetHandleSize));
    } else if id == 0x84c9d553u32 {
        assert(api_of_id(id) == Some(Api::NvAPI_D3D9_CreateVideoBegin));
    } else if id == 0x89ffd9a3u32 {
        assert(api_of_id(id) == Some(Api::NvAPI_D3D9_CreateVideo));
    } else if id == 0x8aac133du32 {
        assert(api_of_id(id) == Some(Api::NvAPI_D3D10_AliasPrimaryAsTexture));
    } else if id == 0x8ffb8e26u32 {
        assert(api_of_id(id) == Some(Api::NvAPI_D3D11_EndShareResource));
    } else if id == 0x8e90bb9fu32 {
        assert(api_of_id(id) == Some(Api::NvAPI_D3D11_SetNvShaderExtnSlot));
    } else if id == 0x86f05d7au32 {
        assert(api_of_id(id) == Some(Api::NvAPI_GPU_GetPartitionCount));
    } else if id == 0x891fa0aeu32 {
        assert(api_of_id(id) == Some(Api::NvAPI_GPU_SetCoolerLevels));
    } else if id == 0x8f6ed0fbu32 {
        assert(api_of_id(id) == Some(Api::NvAPI_GPU_RestoreCoolerSettings));
    }
}

#[verifier::spinoff_prover]
proof fn lemma_api_of_id_inverse_8_1(id: u32)
    requires
        id == 0x843c0256u32
        || id == 0x88c82104u32
        || id == 0x8159e87au32
        || id == 0x8a50f126u32
        || id == 0x80b1abb9u32
        || id == 0x854ba405u32
        || id == 0x8e985ccdu32
        || id == 0x8eb56969u32
        || id == 0x8354a8f4u32
        || id == 0x8e1f8cfeu32,
    ensures
        api_of_id(id) matches Some(a) && api_id(a) == id,
{
    if id == 0x843c0256u32 {
        assert(api_of_id(id) == Some(Api::NvAPI_GPU_GetPstatesInfoEx));
    } else if id == 0x88c82104u32 {
        assert(api_of_id(id) == Some(Api::NvAPI_GPU_GetPstateClientLimits));
    } else if id == 0x8159e87au32 {
        assert(api_of_id(id) == Some(Api::NvAPI_GPU_GetColorSpaceConversion));
    } else if id == 0x8a50f126u32 {
        assert(api_of_id(id) == Some(Api::NvAPI_SYS_GetChipSetTopologyStatus));
    } else if id == 0x80b1abb9u32 {
        assert(api_of_id(id) == Some(Api::NvAPI_GPU_QueryWorkstationFeatureSupport));
    } else if id == 0x854ba405u32 {
        assert(api_of_id(id) == Some(Api::NvAPI_RevertCustomDisplayTrial));
    } else if id == 0x8e985ccdu32 {
        assert(api_of_id(id) == Some(Api::NvAPI_GetDisplayFeatureConfig));
    } else if id == 0x8eb56969u32 {
        assert(api_of_id(id) == Some(Api::NvAPI_Disp_DpAuxChannelControl));
    } else if id == 0x8354a8f4u32 {
        assert(api_of_id(id) == Some(Api::NvAPI_SetPVExtProfile));
    } else if id == 0x8e1f8cfeu32 {
        assert(api_of_id(id) == Some(Api::NvAPI_VideoGetStereoInfo));
    }
}

#[verifier::spinoff_prover]
proof fn lemma_api_of_id_inverse_8_2(id: u32)
    requires
        id == 0x8bbff88bu32
        || id == 0x8b7e99b5u32
        || id == 0x8c610bdau32
        || id == 0x869534e2u32
        || id == 0x8061a4b1u32
        || id == 0x8c00429au32
        || id == 0x85ff5a15u32
        || id == 0x842b066eu32
        || id == 0x81d629c5u32
        || id == 0x8456ff3du32,
    ensures
        api_of_id(id) matches Some(a) && api_id(a) == id,
{
    if id == 0x8bbff88bu32 {
        assert(api_of_id(id) == Some(Api::NvAPI_GSync_SetControlParameters));
    } else if id == 0x8b7e99b5u32 {
        assert(api_of_id(id) == Some(Api::NvAPI_Stereo_CapturePngImage));
    } else if id == 0x8c610bdau32 {
        assert(api_of_id(id) == Some(Api::NvAPI_Stereo_AppHandShake));
    } else if id == 0x869534e2u32 {
        assert(api_of_id(id) == Some(Api::NvAPI_VIO_QueryTopology));
    } else if id == 0x8061a4b1u32 {
        assert(api_of_id(id) == Some(Api::NvAPI_3D_GetProperty));
    } else if id == 0x8c00429au32 {
        assert(api_of_id(id) == Some(Api::NvAPI_DISP_GetVirtualRefreshRateData));
    } else if id == 0x85ff5a15u32 {
        assert(api_of_id(id) == Some(Api::NvAPI_SYS_VenturaSetCoolingBudget));
    } else if id == 0x842b066eu32 {
        assert(api_of_id(id) == Some(Api::NvAPI_GPU_GetLogicalGpuInfo));
    } else if id == 0x81d629c5u32 {
        assert(api_of_id(id) == Some(Api::NvAPI_GPU_GetVRReadyData));
    } else if id == 0x8456ff3du32 {
        assert(api_of_id(id) == Some(Api::NvAPI_GPU_ClearPCIELinkErrorInfo));
    }
}

#[verifier::spinoff_prover]
proof fn lemma_api_of_id_inverse_8_3(id: u32)
    requires
        id == 0x813d89a8u32
        || id == 0x8e875cf9u32
        || id == 0x814b209fu32
        || id == 0x82236c47u32
        || id == 0x82b91b25u32
        || id == 0x83556d87u32
        || id == 0x8285c8dau32
        || id == 0x8ceca0ecu32
        || id == 0x8c02c4d0u32
        || id == 0x852cd1d2u32,
    ensures
        api_of_id(id) matches Some(a) && api_id(a) == id,
{
    if id == 0x813d89a8u32 {
        assert(api_of_id(id) == Some(Api::NvAPI_GetTopologyDisplayGPU));
    } else if id == 0x8e875cf9u32 {
        assert(api_of_id(id) == Some(Api::NvAPI_GetScalingCaps));
    } else if id == 0x814b209fu32 {
        assert(api_of_id(id) == Some(Api::NvAPI_GPU_ClientFanCoolersGetControl));
    } else if id == 0x82236c47u32 {
        assert(api_of_id(id) == Some(Api::NvAPI_D3D11_ExecuteMetaCommand));
    } else if id == 0x82b91b25u32 {
        assert(api_of_id(id) == Some(Api::NvAPI_D3D12_CopyTextureRegion));
    } else if id == 0x83556d87u32 {
        assert(api_of_id(id) == Some(Api::NvAPI_D3D12_SetSinglePassStereoMode));
    } else if id == 0x8285c8dau32 {
        assert(api_of_id(id) == Some(Api::NvAPI_D3D_SetMultiViewMode));
    } else if id == 0x8ceca0ecu32 {
        assert(api_of_id(id) == Some(Api::NvAPI_D3D_QueryLateLatchSupport));
    } else if id == 0x8c02c4d0u32 {
        assert(api_of_id(id) == Some(Api::NvAPI_D3D_RegisterDevice));
    } else if id == 0x852cd1d2u32 {
        assert(api_of_id(id) == Some(Api::NvAPI_D3D_Sleep));
    }
}

#[verifier::spinoff_prover]
proof fn lemma_api_of_id_inverse_8_4(id: u32)
    requires
        id == 0x80403fc9u32
        || id == 0x89eca416u32
        || id == 0x85a6c2a0u32
        || id == 0x8d025b77u32
        || id == 0x814f8d11u32
        || id == 0x8efc0978u32,
    ensures
        api_of_id(id) matches Some(a) && api_id(a) == id,
{
    if id == 0x80403fc9u32 {
        assert(api_of_id(id) == Some(Api::NvAPI_D3D12_GetCudaTextureObject));
    } else if id == 0x89eca416u32 {
        assert(api_of_id(id) == Some(Api::NvAPI_D3D11_CreateSamplerState));
    } else if id == 0x85a6c2a0u32 {
        assert(api_of_id(id) == Some(Api::NvAPI_D3D12_GetRaytracingCaps));
    } else if id == 0x8d025b77u32 {
        assert(api_of_id(id) == Some(Api::NvAPI_D3D12_GetRaytracingAccelerationStructurePrebuildInfoEx));
    } else if id == 0x814f8d11u32 {
        assert(api_of_id(id) == Some(Api::NvAPI_D3D12_BuildRaytracingOpacityMicromapArray));
    } else if id == 0x8efc0978u32 {
        assert(api_of_id(id) == Some(Api::Unknown_8EFC0978));
    }
}

#[verifier::spinoff_prover]
proof fn lemma_api_of_id_inverse_9_0(id: u32)
    requires
        id == 0x9abdd40du32
        || id == 0x92f9d80du32
        || id == 0x95b64341u32
        || id == 0x9fb063dfu32
        || id == 0x905f5c27u32
        || id == 0x9d2509efu32
        || id == 0x962b8af6u32
        || id == 0x96043cc7u32
        || id == 0x987947cdu32
        || id == 0x927da4f6u32,
    ensures
        api_of_id(id) matches Some(a) && api_id(a) == id,
{
    if id == 0x9abdd40du32 {
        assert(api_of_id(id) == Some(Api::NvAPI_EnumNvidiaDisplayHandle));
    } else if id == 0x92f9d80du32 {
        assert(api_of_id(id) == Some(Api::NvAPI_Disp_ColorControl));
    } else if id == 0x95b64341u32 {
        assert(api_of_id(id) == Some(Api::NvAPI_GetHUEInfo));
    } else if id == 0x9fb063dfu32 {
        assert(api_of_id(id) == Some(Api::NvAPI_GetImageSharpeningInfo));
    } else if id == 0x905f5c27u32 {
        assert(api_of_id(id) == Some(Api::NvAPI_D3D9_SetResourceHint));
    } else if id == 0x9d2509efu32 {
        assert(api_of_id(id) == Some(Api::NvAPI_D3D9_VideoSurfaceEncryptionControl));
    } else if id == 0x962b8af6u32 {
        assert(api_of_id(id) == Some(Api::NvAPI_D3D9_DMA));
    } else if id == 0x96043cc7u32 {
        assert(api_of_id(id) == Some(Api::NvAPI_GPU_GetConnectedSLIOutputsWithLidState));
    } else if id == 0x987947cdu32 {
        assert(api_of_id(id) == Some(Api::NvAPI_GPU_SetCoolerPolicyTable));
    } else if id == 0x927da4f6u32 {
        assert(api_of_id(id) == Some(Api::NvAPI_GPU_GetCurrentPstate));
    }
}

#[verifier::spinoff_prover]
proof fn lemma_api_of_id_inverse_9_1(id: u32)
    requires
        id == 0x932ac8fbu32
        || id == 0x97063269u32
        || id == 0x989685f0u32
        || id == 0x9b542831u32
        || id == 0x932cb140u32
        || id == 0x96eea9f8u32
        || id == 0x912ac28fu32
        || id == 0x964bf452u32
        || id == 0x96bd040eu32
        || id == 0x9723d3a2u32,
    ensures
        api_of_id(id) matches Some(a) && api_id(a) == id,
{
    if id == 0x932ac8fbu32 {
        assert(api_of_id(id) == Some(Api::NvAPI_GPU_GetDitherControl));
    } else if id == 0x97063269u32 {
        assert(api_of_id(id) == Some(Api::NvAPI_VideoSetStereoInfo));
    } else if id == 0x989685f0u32 {
        assert(api_of_id(id) == Some(Api::NvAPI_Mosaic_GetOverlapLimits));
    } else if id == 0x9b542831u32 {
        assert(api_of_id(id) == Some(Api::NvAPI_Mosaic_SetCurrentTopo));
    } else if id == 0x932cb140u32 {
        assert(api_of_id(id) == Some(Api::NvAPI_Stereo_CaptureJpegImage));
    } else if id == 0x96eea9f8u32 {
        assert(api_of_id(id) == Some(Api::NvAPI_Stereo_SetActiveEye));
    } else if id == 0x912ac28fu32 {
        assert(api_of_id(id) == Some(Api::NvAPI_Stereo_SetPixelShaderConstantI));
    } else if id == 0x964bf452u32 {
        assert(api_of_id(id) == Some(Api::NvAPI_VIO_SetGamma));
    } else if id == 0x96bd040eu32 {
        assert(api_of_id(id) == Some(Api::NvAPI_VIO_IsRunning));
    } else if id == 0x9723d3a2u32 {
        assert(api_of_id(id) == Some(Api::NvAPI_GPS_SetPowerSteeringStatus));
    }
}

#[verifier::spinoff_prover]
proof fn lemma_api_of_id_inverse_9_2(id: u32)
    requires
        id == 0x9ea74659u32
        || id == 0x9083e53au32
        || id == 0x9c39c246u32
        || id == 0x9152e055u32
        || id == 0x9bb9d68fu32
        || id == 0x9de8c729u32
        || id == 0x9a1b9365u32
        || id == 0x9fbae4ebu32
        || id == 0x919b3136u32
        || id == 0x988aea78u32,
    ensures
        api_of_id(id) matches Some(a) && api_id(a) == id,
{
    if id == 0x9ea74659u32 {
        assert(api_of_id(id) == Some(Api::NvAPI_SYS_GetPhysicalGpuFromDisplayId));
    } else if id == 0x9083e53au32 {
        assert(api_of_id(id) == Some(Api::NvAPI_D3D9_QueryFrameCount));
    } else if id == 0x9c39c246u32 {
        assert(api_of_id(id) == Some(Api::NvAPI_D3D9_BindSwapBarrier));
    } else if id == 0x9152e055u32 {
        assert(api_of_id(id) == Some(Api::NvAPI_D3D1x_QueryFrameCount));
    } else if id == 0x9bb9d68fu32 {
        assert(api_of_id(id) == Some(Api::NvAPI_D3D1x_QueryMaxSwapGroup));
    } else if id == 0x9de8c729u32 {
        assert(api_of_id(id) == Some(Api::NvAPI_D3D1x_BindSwapBarrier));
    } else if id == 0x9a1b9365u32 {
        assert(api_of_id(id) == Some(Api::NvAPI_GPU_GetIllumination));
    } else if id == 0x9fbae4ebu32 {
        assert(api_of_id(id) == Some(Api::NvAPI_D3D1x_IFR_TransferRenderTarget));
    } else if id == 0x919b3136u32 {
        assert(api_of_id(id) == Some(Api::NvAPI_GetLoadedMicrocodePrograms));
    } else if id == 0x988aea78u32 {
        assert(api_of_id(id) == Some(Api::NvAPI_GetDisplayDriverCompileType));
    }
}

#[verifier::spinoff_prover]
proof fn lemma_api_of_id_inverse_9_3(id: u32)
    requires
        id == 0x9d772bbau32
        || id == 0x9df23ca1u32
        || id == 0x91123d6au32
        || id == 0x9a06ea07u32
        || id == 0x99ed5c1cu32
        || id == 0x924be9d6u32
        || id == 0x9aa2aabbu32
        || id == 0x9c1eed78u32
        || id == 0x99ca2dffu32
        || id == 0x9006fa68u32,
    ensures
        api_of_id(id) matches Some(a) && api_id(a) == id,
{
    if id == 0x9d772bbau32 {
        assert(api_of_id(id) == Some(Api::NvAPI_GetDisplayDriverSecurityLevel));
    } else if id == 0x9df23ca1u32 {
        assert(api_of_id(id) == Some(Api::NvAPI_GPU_ClientVoltRailsGetControl));
    } else if id == 0x91123d6au32 {
        assert(api_of_id(id) == Some(Api::NvAPI_D3D_BeginResourceRendering));
    } else if id == 0x9a06ea07u32 {
        assert(api_of_id(id) == Some(Api::NvAPI_D3D11_UpdateTileMappings));
    } else if id == 0x99ed5c1cu32 {
        assert(api_of_id(id) == Some(Api::NvAPI_D3D11_CreateGeometryShaderEx_2));
    } else if id == 0x924be9d6u32 {
        assert(api_of_id(id) == Some(Api::NvAPI_D3D12_CreateHeap2));
    } else if id == 0x9aa2aabbu32 {
        assert(api_of_id(id) == Some(Api::NvAPI_D3D12_ReservedResourceGetDesc));
    } else if id == 0x9c1eed78u32 {
        assert(api_of_id(id) == Some(Api::NvAPI_D3D_IsGSyncCapable));
    } else if id == 0x99ca2dffu32 {
        assert(api_of_id(id) == Some(Api::NvAPI_D3D11_CreateShadingRateResourceView));
    } else if id == 0x9006fa68u32 {
        assert(api_of_id(id) == Some(Api::NvAPI_D3D11_GetCudaTextureObject));
    }
}

#[verifier::spinoff_prover]
proof fn lemma_api_of_id_inverse_a_0(id: u32)
    requires
        id == 0xadd604d1u32
        || id == 0xaea3fa32u32
        || id == 0xa70503b2u32
        || id == 0xab163097u32
        || id == 0xa064bdfcu32
        || id == 0xa342f682u32
        || id == 0xa4527bf8u32
        || id == 0xaeaecd41u32
        || id == 0xae9c2019u32
        || id == 0xac2dfeb5u32,
    ensures
        api_of_id(id) matches Some(a) && api_id(a) == id,
{
    if id == 0xadd604d1u32 {
        assert(api_of_id(id) == Some(Api::NvAPI_GetLogicalGPUFromPhysicalGPU));
    } else if id == 0xaea3fa32u32 {
        assert(api_of_id(id) == Some(Api::NvAPI_GetPhysicalGPUsFromLogicalGPU));
    } else if id == 0xa70503b2u32 {
        assert(api_of_id(id) == Some(Api::NvAPI_DISP_GetAssociatedUnAttachedNvidiaDisplayHandle));
    } else if id == 0xab163097u32 {
        assert(api_of_id(id) == Some(Api::NvAPI_DisableHWCursor));
    } else if id == 0xa064bdfcu32 {
        assert(api_of_id(id) == Some(Api::NvAPI_D3D9_RegisterResource));
    } else if id == 0xa342f682u32 {
        assert(api_of_id(id) == Some(Api::NvAPI_D3D9_CreatePathContextNV));
    } else if id == 0xa4527bf8u32 {
        assert(api_of_id(id) == Some(Api::NvAPI_D3D9_GetVideoState));
    } else if id == 0xaeaecd41u32 {
        assert(api_of_id(id) == Some(Api::NvAPI_D3D9_StretchRect));
    } else if id == 0xae9c2019u32 {
        assert(api_of_id(id) == Some(Api::NvAPI_D3D10_ProcessCallbacks));
    } else if id == 0xac2dfeb5u32 {
        assert(api_of_id(id) == Some(Api::NvAPI_D3D12_SetNvShaderExtnSlotSpace));
    }
}

#[verifier::spinoff_prover]
proof fn lemma_api_of_id_inverse_a_1(id: u32)
    requires
        id == 0xae5fbcfeu32
        || id == 0xacc3da0au32
        || id == 0xa561fd7du32
        || id == 0xaed02700u32
        || id == 0xa81f8992u32
        || id == 0xa4dfd3f2u32
        || id == 0xad95f5edu32
        || id == 0xae921f12u32
        || id == 0xafc4833eu32
        || id == 0xa2072d59u32,
    ensures
        api_of_id(id) matches Some(a) && api_id(a) == id,
{
    if id == 0xae5fbcfeu32 {
        assert(api_of_id(id) == Some(Api::NvAPI_GPU_GetTotalSMCount));
    } else if id == 0xacc3da0au32 {
        assert(api_of_id(id) == Some(Api::NvAPI_GPU_GetVbiosRevision));
    } else if id == 0xa561fd7du32 {
        assert(api_of_id(id) == Some(Api::NvAPI_GPU_GetVbiosVersionString));
    } else if id == 0xaed02700u32 {
        assert(api_of_id(id) == Some(Api::NvAPI_SetTVOutputBorderColor));
    } else if id == 0xa81f8992u32 {
        assert(api_of_id(id) == Some(Api::NvAPI_GPU_GetPerGpuTopologyStatus));
    } else if id == 0xa4dfd3f2u32 {
        assert(api_of_id(id) == Some(Api::NvAPI_GPU_ClientPowerTopologyGetInfo));
    } else if id == 0xad95f5edu32 {
        assert(api_of_id(id) == Some(Api::NvAPI_GPU_ClientPowerPoliciesSetStatus));
    } else if id == 0xae921f12u32 {
        assert(api_of_id(id) == Some(Api::NvAPI_OGL_ExpertModeDefaultsGet));
    } else if id == 0xafc4833eu32 {
        assert(api_of_id(id) == Some(Api::NvAPI_GetTiming));
    } else if id == 0xa2072d59u32 {
        assert(api_of_id(id) == Some(Api::NvAPI_DISP_EnumCustomDisplay));
    }
}

#[verifier::spinoff_prover]
proof fn lemma_api_of_id_inverse_a_2(id: u32)
    requires
        id == 0xa9062c78u32
        || id == 0xa3c55220u32
        || id == 0xac7e37f4u32
        || id == 0xa17daabeu32
        || id == 0xa9657f32u32
        || id == 0xa1ec8d74u32
        || id == 0xadeeaf67u32
        || id == 0xae457190u32
        || id == 0xa776e8dbu32
        || id == 0xae3039dau32,
    ensures
        api_of_id(id) matches Some(a) && api_id(a) == id,
{
    if id == 0xa9062c78u32 {
        assert(api_of_id(id) == Some(Api::NvAPI_SaveCustomDisplay));
    } else if id == 0xa3c55220u32 {
        assert(api_of_id(id) == Some(Api::NvAPI_Mosaic_EnumGridTopologies));
    } else if id == 0xac7e37f4u32 {
        assert(api_of_id(id) == Some(Api::NvAPI_Stereo_CreateHandleFromIUnknown));
    } else if id == 0xa17daabeu32 {
        assert(api_of_id(id) == Some(Api::NvAPI_Stereo_IncreaseConvergence));
    } else if id == 0xa9657f32u32 {
        assert(api_of_id(id) == Some(Api::NvAPI_Stereo_SetPixelShaderConstantF));
    } else if id == 0xa1ec8d74u32 {
        assert(api_of_id(id) == Some(Api::NvAPI_VIO_SetCSC));
    } else if id == 0xadeeaf67u32 {
        assert(api_of_id(id) == Some(Api::NvAPI_GPU_ClientRegisterForUtilizationSampleUpdates));
    } else if id == 0xae457190u32 {
        assert(api_of_id(id) == Some(Api::NvAPI_DISP_GetDisplayIdByDisplayName));
    } else if id == 0xa776e8dbu32 {
        assert(api_of_id(id) == Some(Api::NvAPI_D3D_SetFPSIndicatorState));
    } else if id == 0xae3039dau32 {
        assert(api_of_id(id) == Some(Api::NvAPI_DRS_EnumSettings));
    }
}

#[verifier::spinoff_prover]
proof fn lemma_api_of_id_inverse_a_3(id: u32)
    requires
        id == 0xa57457a4u32
        || id == 0xa629da31u32
        || id == 0xa4218928u32
        || id == 0xa0c72ee4u32
        || id == 0xa58971a5u32
        || id == 0xa15faef7u32
        || id == 0xa0d7180du32
        || id == 0xaf6d14dau32
        || id == 0xaec629e9u32
        || id == 0xa4125399u32,
    ensures
        api_of_id(id) matches Some(a) && api_id(a) == id,
{
    if id == 0xa57457a4u32 {
        assert(api_of_id(id) == Some(Api::NvAPI_GPU_SetScanoutIntensity));
    } else if id == 0xa629da31u32 {
        assert(api_of_id(id) == Some(Api::NvAPI_GPU_QueryIlluminationSupport));
    } else if id == 0xa4218928u32 {
        assert(api_of_id(id) == Some(Api::NvAPI_GPU_GetManufacturingInfo));
    } else if id == 0xa0c72ee4u32 {
        assert(api_of_id(id) == Some(Api::NvAPI_CreateUnAttachedDisplayFromDisplay));
    } else if id == 0xa58971a5u32 {
        assert(api_of_id(id) == Some(Api::NvAPI_GPU_ClientFanCoolersSetControl));
    } else if id == 0xa15faef7u32 {
        assert(api_of_id(id) == Some(Api::NvAPI_D3D12_QueryPresentBarrierSupport));
    } else if id == 0xa0d7180du32 {
        assert(api_of_id(id) == Some(Api::NvAPI_D3D11_CreateDomainShaderEx));
    } else if id == 0xaf6d14dau32 {
        assert(api_of_id(id) == Some(Api::NvAPI_D3D11_GetResourceGPUVirtualAddressEx));
    } else if id == 0xaec629e9u32 {
        assert(api_of_id(id) == Some(Api::NvAPI_D3D11_InitializeMetaCommand));
    } else if id == 0xa4125399u32 {
        assert(api_of_id(id) == Some(Api::NvAPI_D3D12_InitializeMetaCommand));
    }
}

#[verifier::spinoff_prover]
proof fn lemma_api_of_id_inverse_a_4(id: u32)
    requires
        id == 0xa39e6e6eu32
        || id == 0xa46022c7u32
        || id == 0xae4d73efu32
        || id == 0xa942373au32
        || id == 0xaef96ca1u32
        || id == 0xac1ca9e0u32
        || id == 0xad1a677du32
        || id == 0xafb237d4u32,
    ensures
        api_of_id(id) matches Some(a) && api_id(a) == id,
{
    if id == 0xa39e6e6eu32 {
        assert(api_of_id(id) == Some(Api::NvAPI_D3D_SetSinglePassStereoMode));
    } else if id == 0xa46022c7u32 {
        assert(api_of_id(id) == Some(Api::NvAPI_D3D12_Mosaic_GetCompanionAllocations));
    } else if id == 0xae4d73efu32 {
        assert(api_of_id(id) == Some(Api::NvAPI_D3D11_RSSetExclusiveScissorRects));
    } else if id == 0xa942373au32 {
        assert(api_of_id(id) == Some(Api::NvAPI_D3D11_RSSetPixelShadingRateSampleOrder));
    } else if id == 0xaef96ca1u32 {
        assert(api_of_id(id) == Some(Api::NvAPI_D3D_GetSleepStatus));
    } else if id == 0xac1ca9e0u32 {
        assert(api_of_id(id) == Some(Api::NvAPI_D3D_SetSleepMode));
    } else if id == 0xad1a677du32 {
        assert(api_of_id(id) == Some(Api::NvAPI_D3D12_CreateCuModule));
    } else if id == 0xafb237d4u32 {
        assert(api_of_id(id) == Some(Api::NvAPI_D3D12_CheckDriverMatchingIdentifierEx));
    }
}

#[verifier::spinoff_prover]
proof fn lemma_api_of_id_inverse_b_0(id: u32)
    requires
        id == 0xbb2b17aau32
        || id == 0xb380f218u32
        || id == 0xb476bf61u32
        || id == 0xb852f4dbu32
        || id == 0xbd4bc56fu32
        || id == 0xbfdc062cu32
        || id == 0xbd3eb475u32
        || id == 0xbb939ee5u32
        || id == 0xba08208au32
        || id == 0xb6d62591u32,
    ensures
        api_of_id(id) matches Some(a) && api_id(a) == id,
{
    if id == 0xbb2b17aau32 {
        assert(api_of_id(id) == Some(Api::NvAPI_D3D9_UnregisterResource));
    } else if id == 0xb380f218u32 {
        assert(api_of_id(id) == Some(Api::NvAPI_D3D9_GetCurrentZBufferHandle));
    } else if id == 0xb476bf61u32 {
        assert(api_of_id(id) == Some(Api::NvAPI_D3D9_CreateVideoEnd));
    } else if id == 0xb852f4dbu32 {
        assert(api_of_id(id) == Some(Api::NvAPI_D3D9_VideoSetStereoInfo));
    } else if id == 0xbd4bc56fu32 {
        assert(api_of_id(id) == Some(Api::NvAPI_D3D9_SetVideoState));
    } else if id == 0xbfdc062cu32 {
        assert(api_of_id(id) == Some(Api::NvAPI_D3D9_SetSLIMode));
    } else if id == 0xbd3eb475u32 {
        assert(api_of_id(id) == Some(Api::NvAPI_D3D9_NVFBC_GetStatus));
    } else if id == 0xbb939ee5u32 {
        assert(api_of_id(id) == Some(Api::NvAPI_D3D11_CreateDeviceAndSwapChain));
    } else if id == 0xba08208au32 {
        assert(api_of_id(id) == Some(Api::NvAPI_D3D11_BeginUAVOverlapEx));
    } else if id == 0xb6d62591u32 {
        assert(api_of_id(id) == Some(Api::NvAPI_GPU_GetTotalSPCount));
    }
}

#[verifier::spinoff_prover]
proof fn lemma_api_of_id_inverse_b_1(id: u32)
    requires
        id == 0xbaaabfccu32
        || id == 0xba94c56eu32
        || id == 0xb23b70eeu32
        || id == 0xb47a657eu32
        || id == 0xbf6c1762u32
        || id == 0xb3bb0772u32
        || id == 0xb033b140u32
        || id == 0xbb9ef1c3u32
        || id == 0xbe7692ecu32
        || id == 0xb30cd1a7u32,
    ensures
        api_of_id(id) matches Some(a) && api_id(a) == id,
{
    if id == 0xbaaabfccu32 {
        assert(api_of_id(id) == Some(Api::NvAPI_GPU_GetSystemType));
    } else if id == 0xba94c56eu32 {
        assert(api_of_id(id) == Some(Api::NvAPI_GPU_GetPstatesInfo));
    } else if id == 0xb23b70eeu32 {
        assert(api_of_id(id) == Some(Api::NvAPI_GPU_EnableOverclockedPstates));
    } else if id == 0xb47a657eu32 {
        assert(api_of_id(id) == Some(Api::NvAPI_OGL_ExpertModeDefaultsSet));
    } else if id == 0xbf6c1762u32 {
        assert(api_of_id(id) == Some(Api::NvAPI_TryCustomDisplay));
    } else if id == 0xb3bb0772u32 {
        assert(api_of_id(id) == Some(Api::NvAPI_GetHDCPLinkParameters));
    } else if id == 0xb033b140u32 {
        assert(api_of_id(id) == Some(Api::NvAPI_Mosaic_ChooseGpuTopologies));
    } else if id == 0xbb9ef1c3u32 {
        assert(api_of_id(id) == Some(Api::NvAPI_QueryNonMigratableApps));
    } else if id == 0xbe7692ecu32 {
        assert(api_of_id(id) == Some(Api::NvAPI_Stereo_CreateConfigurationProfileRegistryKey));
    } else if id == 0xb30cd1a7u32 {
        assert(api_of_id(id) == Some(Api::NvAPI_Stereo_HandShake_Trigger_Activation));
    }
}

#[verifier::spinoff_prover]
proof fn lemma_api_of_id_inverse_b_2(id: u32)
    requires
        id == 0xba6109eeu32
        || id == 0xb981d935u32
        || id == 0xb85de27cu32
        || id == 0xb73d1ee9u32
        || id == 0xbc371ee0u32
        || id == 0xbd71f0c9u32
        || id == 0xb34bab4fu32
        || id == 0xb7ab19b9u32
        || id == 0xb4b26b65u32
        || id == 0xb539a26eu32,
    ensures
        api_of_id(id) matches Some(a) && api_id(a) == id,
{
    if id == 0xba6109eeu32 {
        assert(api_of_id(id) == Some(Api::NvAPI_Stereo_SetPixelShaderConstantB));
    } else if id == 0xb981d935u32 {
        assert(api_of_id(id) == Some(Api::NvAPI_VIO_GetPCIInfo));
    } else if id == 0xb85de27cu32 {
        assert(api_of_id(id) == Some(Api::NvAPI_3D_GetPropertyRange));
    } else if id == 0xb73d1ee9u32 {
        assert(api_of_id(id) == Some(Api::NvAPI_DISP_GetAdaptiveSyncData));
    } else if id == 0xbc371ee0u32 {
        assert(api_of_id(id) == Some(Api::NvAPI_DRS_EnumProfiles));
    } else if id == 0xbd71f0c9u32 {
        assert(api_of_id(id) == Some(Api::NvAPI_GPU_GetCurrentFanSpeedLevel));
    } else if id == 0xb34bab4fu32 {
        assert(api_of_id(id) == Some(Api::NvAPI_GPU_SetScanoutWarping));
    } else if id == 0xb7ab19b9u32 {
        assert(api_of_id(id) == Some(Api::NvAPI_GPU_GetMXMBlock));
    } else if id == 0xb4b26b65u32 {
        assert(api_of_id(id) == Some(Api::NvAPI_RestartDisplayDriver));
    } else if id == 0xb539a26eu32 {
        assert(api_of_id(id) == Some(Api::NvAPI_SYS_GetSliApprovalCookie));
    }
}

#[verifier::spinoff_prover]
proof fn lemma_api_of_id_inverse_b_3(id: u32)
    requires
        id == 0xb9306d9bu32
        || id == 0xbc4aee25u32
        || id == 0xb5a21987u32
        || id == 0xb8f79632u32
        || id == 0xb53cab00u32
        || id == 0xb9333fe9u32
        || id == 0xb942bab7u32
        || id == 0xb43995cbu32
        || id == 0xbdb20007u32
        || id == 0xb6e0a41cu32,
    ensures
        api_of_id(id) matches Some(a) && api_id(a) == id,
{
    if id == 0xb9306d9bu32 {
        assert(api_of_id(id) == Some(Api::NvAPI_GPU_ClientVoltRailsSetControl));
    } else if id == 0xbc4aee25u32 {
        assert(api_of_id(id) == Some(Api::NvAPI_GPU_ClientStartOcScanner));
    } else if id == 0xb5a21987u32 {
        assert(api_of_id(id) == Some(Api::NvAPI_D3D12_CreateDDisplayPresentBarrierClient));
    } else if id == 0xb8f79632u32 {
        assert(api_of_id(id) == Some(Api::NvAPI_D3D11_CreateImplicitMSAATexture2D));
    } else if id == 0xb53cab00u32 {
        assert(api_of_id(id) == Some(Api::NvAPI_D3D11_CreateHullShaderEx));
    } else if id == 0xb9333fe9u32 {
        assert(api_of_id(id) == Some(Api::NvAPI_D3D12_SetDepthBoundsTestValues));
    } else if id == 0xb942bab7u32 {
        assert(api_of_id(id) == Some(Api::NvAPI_D3D12_ResourceAliasingBarrier));
    } else if id == 0xb43995cbu32 {
        assert(api_of_id(id) == Some(Api::NvAPI_D3D12_GetOptimalThreadCountForMesh));
    } else if id == 0xbdb20007u32 {
        assert(api_of_id(id) == Some(Api::NvAPI_D3D11_CreateMultiGPUDevice));
    } else if id == 0xb6e0a41cu32 {
        assert(api_of_id(id) == Some(Api::NvAPI_D3D_QueryMultiViewSupport));
    }
}

#[verifier::spinoff_prover]
proof fn lemma_api_of_id_inverse_b_4(id: u32)
    requires
        id == 0xb092b818u32
        || id == 0xb672be19u32
        || id == 0xb7bcf50du32,
    ensures
        api_of_id(id) matches Some(a) && api_id(a) == id,
{
    if id == 0xb092b818u32 {
        assert(api_of_id(id) == Some(Api::NvAPI_D3D12_Mosaic_GetViewportAndGpuPartitions));
    } else if id == 0xb672be19u32 {
        assert(api_of_id(id) == Some(Api::NvAPI_D3D11_CreateCubinComputeShaderWithName));
    } else if id == 0xb7bcf50du32 {
        assert(api_of_id(id) == Some(Api::Unknown_B7BCF50D));
    }
}

#[verifier::spinoff_prover]
proof fn lemma_api_of_id_inverse_c_0(id: u32)
    requires
        id == 0xc64ff367u32
        || id == 0xc8ff7258u32
        || id == 0xc23df926u32
        || id == 0xc7985ed5u32
        || id == 0xcde4a28au32
        || id == 0xc182027eu32
        || id == 0xcfc92c15u32
        || id == 0xcac3ce5du32
        || id == 0xc7026a87u32
        || id == 0xcf8caf39u32,
    ensures
        api_of_id(id) matches Some(a) && api_id(a) == id,
{
    if id == 0xc64ff367u32 {
        assert(api_of_id(id) == Some(Api::NvAPI_GetDisplayPortInfo));
    } else if id == 0xc8ff7258u32 {
        assert(api_of_id(id) == Some(Api::NvAPI_D3D_DestroyQuery));
    } else if id == 0xc23df926u32 {
        assert(api_of_id(id) == Some(Api::NvAPI_D3D9_PathVerticesNV));
    } else if id == 0xc7985ed5u32 {
        assert(api_of_id(id) == Some(Api::NvAPI_D3D9_GetTextureHandle));
    } else if id == 0xcde4a28au32 {
        assert(api_of_id(id) == Some(Api::NvAPI_D3D9_GpuSyncMapTexBuffer));
    } else if id == 0xc182027eu32 {
        assert(api_of_id(id) == Some(Api::NvAPI_D3D9_Unlock));
    } else if id == 0xcfc92c15u32 {
        assert(api_of_id(id) == Some(Api::NvAPI_D3D9_IFR_SetUpTargetBufferToNV12BLVideoSurface));
    } else if id == 0xcac3ce5du32 {
        assert(api_of_id(id) == Some(Api::NvAPI_D3D10_GetRenderedCursorAsBitmap));
    } else if id == 0xc7026a87u32 {
        assert(api_of_id(id) == Some(Api::NvAPI_GPU_GetGpuCoreCount));
    } else if id == 0xcf8caf39u32 {
        assert(api_of_id(id) == Some(Api::NvAPI_GPU_GetConnectedOutputsWithLidState));
    }
}

#[verifier::spinoff_prover]
proof fn lemma_api_of_id_inverse_c_1(id: u32)
    requires
        id == 0xceee8e9fu32
        || id == 0xc33baeb1u32
        || id == 0xc74925a0u32
        || id == 0xcdf27911u32
        || id == 0xca36a3abu32
        || id == 0xc16c7e2cu32
        || id == 0xcda14d8au32
        || id == 0xcbbd40f0u32
        || id == 0xcadcb956u32
        || id == 0xcb89381du32,
    ensures
        api_of_id(id) matches Some(a) && api_id(a) == id,
{
    if id == 0xceee8e9fu32 {
        assert(api_of_id(id) == Some(Api::NvAPI_GPU_GetFullName));
    } else if id == 0xc33baeb1u32 {
        assert(api_of_id(id) == Some(Api::NvAPI_GPU_GetGPUType));
    } else if id == 0xc74925a0u32 {
        assert(api_of_id(id) == Some(Api::NvAPI_GPU_GetCurrentAGPRate));
    } else if id == 0xcdf27911u32 {
        assert(api_of_id(id) == Some(Api::NvAPI_GPU_SetPstatesInfo));
    } else if id == 0xca36a3abu32 {
        assert(api_of_id(id) == Some(Api::NvAPI_SetTVEncoderControls));
    } else if id == 0xc16c7e2cu32 {
        assert(api_of_id(id) == Some(Api::NvAPI_GPU_GetVoltageDomainsStatus));
    } else if id == 0xcda14d8au32 {
        assert(api_of_id(id) == Some(Api::NvAPI_SYS_GetLidAndDockInfo));
    } else if id == 0xcbbd40f0u32 {
        assert(api_of_id(id) == Some(Api::NvAPI_DISP_RevertCustomDisplayTrial));
    } else if id == 0xcadcb956u32 {
        assert(api_of_id(id) == Some(Api::NvAPI_Coproc_NotifyCoprocPowerState));
    } else if id == 0xcb89381du32 {
        assert(api_of_id(id) == Some(Api::NvAPI_Mosaic_GetTopoGroup));
    }
}

#[verifier::spinoff_prover]
proof fn lemma_api_of_id_inverse_c_2(id: u32)
    requires
        id == 0xcf43903du32
        || id == 0xc9a8ececu32
        || id == 0xc7177702u32
        || id == 0xce653127u32
        || id == 0xc79333aeu32
        || id == 0xcde8e1a3u32
        || id == 0xc9175e8du32
        || id == 0xc07e210fu32
        || id == 0xc9d0e25fu32
        || id == 0xca1ddaf3u32,
    ensures
        api_of_id(id) matches Some(a) && api_id(a) == id,
{
    if id == 0xcf43903du32 {
        assert(api_of_id(id) == Some(Api::NvAPI_Mosaic_ValidateDisplayGrids));
    } else if id == 0xc9a8ececu32 {
        assert(api_of_id(id) == Some(Api::NvAPI_Stereo_IncreaseSeparation));
    } else if id == 0xc7177702u32 {
        assert(api_of_id(id) == Some(Api::NvAPI_Stereo_InitActivation));
    } else if id == 0xce653127u32 {
        assert(api_of_id(id) == Some(Api::NvAPI_Stereo_GetEyeSeparation));
    } else if id == 0xc79333aeu32 {
        assert(api_of_id(id) == Some(Api::NvAPI_Stereo_GetPixelShaderConstantB));
    } else if id == 0xcde8e1a3u32 {
        assert(api_of_id(id) == Some(Api::NvAPI_VIO_Start));
    } else if id == 0xc9175e8du32 {
        assert(api_of_id(id) == Some(Api::NvAPI_3D_SetProperty));
    } else if id == 0xc07e210fu32 {
        assert(api_of_id(id) == Some(Api::NvAPI_GPS_SetThermalLimit));
    } else if id == 0xc9d0e25fu32 {
        assert(api_of_id(id) == Some(Api::NvAPI_DISP_SetPreferredStereoDisplay));
    } else if id == 0xca1ddaf3u32 {
        assert(api_of_id(id) == Some(Api::NvAPI_GPU_GetECCStatusInfo));
    }
}

#[verifier::spinoff_prover]
proof fn lemma_api_of_id_inverse_c_3(id: u32)
    requires
        id == 0xc71f85a6u32
        || id == 0xc02eec20u32
        || id == 0xcb7c208du32
        || id == 0xc9d86e33u32
        || id == 0xcc176068u32
        || id == 0xc5ea85a1u32
        || id == 0xcb7309cdu32
        || id == 0xc0599498u32
        || id == 0xc729203cu32
        || id == 0xcde021b9u32,
    ensures
        api_of_id(id) matches Some(a) && api_id(a) == id,
{
    if id == 0xc71f85a6u32 {
        assert(api_of_id(id) == Some(Api::NvAPI_GPU_GetECCErrorInfo));
    } else if id == 0xc02eec20u32 {
        assert(api_of_id(id) == Some(Api::NvAPI_GPU_ResetECCErrorInfo));
    } else if id == 0xcb7c208du32 {
        assert(api_of_id(id) == Some(Api::NvAPI_SYS_VenturaGetState));
    } else if id == 0xc9d86e33u32 {
        assert(api_of_id(id) == Some(Api::NvAPI_SYS_VenturaGetCoolingBudget));
    } else if id == 0xcc176068u32 {
        assert(api_of_id(id) == Some(Api::NvAPI_DRS_CreateProfile));
    } else if id == 0xc5ea85a1u32 {
        assert(api_of_id(id) == Some(Api::NvAPI_DRS_DeleteApplicationEx));
    } else if id == 0xcb7309cdu32 {
        assert(api_of_id(id) == Some(Api::NvAPI_DRS_GetSettingIdFromName));
    } else if id == 0xc0599498u32 {
        assert(api_of_id(id) == Some(Api::NvAPI_GPU_GetMemoryInfoEx));
    } else if id == 0xc729203cu32 {
        assert(api_of_id(id) == Some(Api::NvAPI_GPU_GetThermalTable));
    } else if id == 0xcde021b9u32 {
        assert(api_of_id(id) == Some(Api::NvAPI_GPU_ClientFanArbitersGetStatus));
    }
}

#[verifier::spinoff_prover]
proof fn lemma_api_of_id_inverse_c_4(id: u32)
    requires
        id == 0xc181947au32
        || id == 0xcc727b22u32
        || id == 0xc28b73deu32
        || id == 0xc3ec5a7fu32
        || id == 0xc24a15bfu32
        || id == 0xc09ee6bcu32
        || id == 0xc6017a7du32
        || id == 0xc7453ba8u32
        || id == 0xcd9141d8u32
        || id == 0xcbf9f4f5u32,
    ensures
        api_of_id(id) matches Some(a) && api_id(a) == id,
{
    if id == 0xc181947au32 {
        assert(api_of_id(id) == Some(Api::NvAPI_GPU_ClientFanPoliciesSetControl));
    } else if id == 0xcc727b22u32 {
        assert(api_of_id(id) == Some(Api::NvAPI_GPU_ClientRevertOc));
    } else if id == 0xc28b73deu32 {
        assert(api_of_id(id) == Some(Api::NvAPI_GPU_ClientStopOcScanner));
    } else if id == 0xc3ec5a7fu32 {
        assert(api_of_id(id) == Some(Api::NvAPI_LeavePresentBarrier));
    } else if id == 0xc24a15bfu32 {
        assert(api_of_id(id) == Some(Api::NvAPI_D3D12_ResolveSubresourceRegion));
    } else if id == 0xc09ee6bcu32 {
        assert(api_of_id(id) == Some(Api::NvAPI_D3D11_CopyTileMappings));
    } else if id == 0xc6017a7du32 {
        assert(api_of_id(id) == Some(Api::NvAPI_D3D12_UpdateTileMappings));
    } else if id == 0xc7453ba8u32 {
        assert(api_of_id(id) == Some(Api::NvAPI_D3D11_EnumerateMetaCommands));
    } else if id == 0xcd9141d8u32 {
        assert(api_of_id(id) == Some(Api::NvAPI_D3D12_EnumerateMetaCommands));
    } else if id == 0xcbf9f4f5u32 {
        assert(api_of_id(id) == Some(Api::NvAPI_D3D_QueryModifiedWSupport));
    }
}

#[verifier::spinoff_prover]
proof fn lemma_api_of_id_inverse_c_5(id: u32)
    requires
        id == 0xc57921deu32,
    ensures
        api_of_id(id) matches Some(a) && api_id(a) == id,
{
    if id == 0xc57921deu32 {
        assert(api_of_id(id) == Some(Api::NvAPI_D3D_QuerySMPAssistSupport));
    }
}

#[verifier::spinoff_prover]
proof fn lemma_api_of_id_inverse_d_0(id: u32)
    requires
        id == 0xd22bdd7eu32
        || id == 0xd9930b07u32
        || id == 0xd995937eu32
        || id == 0xd2ccf5d6u32
        || id == 0xd44d3c4eu32
        || id == 0xd2f6c499u32
        || id == 0xdbc803ecu32
        || id == 0xd00b8317u32
        || id == 0xd5e13573u32
        || id == 0xddf5643cu32,
    ensures
        api_of_id(id) matches Some(a) && api_id(a) == id,
{
    if id == 0xd22bdd7eu32 {
        assert(api_of_id(id) == Some(Api::NvAPI_Unload));
    } else if id == 0xd9930b07u32 {
        assert(api_of_id(id) == Some(Api::NvAPI_EnumTCCPhysicalGPUs));
    } else if id == 0xd995937eu32 {
        assert(api_of_id(id) == Some(Api::NvAPI_GetAssociatedDisplayOutputId));
    } else if id == 0xd2ccf5d6u32 {
        assert(api_of_id(id) == Some(Api::NvAPI_DISP_EnumHDMIStereoModes));
    } else if id == 0xd44d3c4eu32 {
        assert(api_of_id(id) == Some(Api::NvAPI_D3D_RegisterApp));
    } else if id == 0xd2f6c499u32 {
        assert(api_of_id(id) == Some(Api::NvAPI_D3D9_PathMatrixNV));
    } else if id == 0xdbc803ecu32 {
        assert(api_of_id(id) == Some(Api::NvAPI_D3D9_GpuSyncMapVertexBuffer));
    } else if id == 0xd00b8317u32 {
        assert(api_of_id(id) == Some(Api::NvAPI_D3D9_GpuSyncAcquire));
    } else if id == 0xd5e13573u32 {
        assert(api_of_id(id) == Some(Api::NvAPI_D3D9_CreateTexture));
    } else if id == 0xddf5643cu32 {
        assert(api_of_id(id) == Some(Api::NvAPI_D3D9_QueryAAOverrideMode));
    }
}

#[verifier::spinoff_prover]
proof fn lemma_api_of_id_inverse_d_1(id: u32)
    requires
        id == 0xd504dda7u32
        || id == 0xd2277e3au32
        || id == 0xd048c3b1u32
        || id == 0xdcb616c3u32
        || id == 0xda141340u32
        || id == 0xd8c4fe63u32
        || id == 0xdf0dfcddu32
        || id == 0xdc27d5d4u32
        || id == 0xd6b99d89u32
        || id == 0xdbbc0af4u32,
    ensures
        api_of_id(id) matches Some(a) && api_id(a) == id,
{
    if id == 0xd504dda7u32 {
        assert(api_of_id(id) == Some(Api::NvAPI_D3D9_GPUBasedCPUSleep));
    } else if id == 0xd2277e3au32 {
        assert(api_of_id(id) == Some(Api::NvAPI_GPU_GetDeviceDisplayMode));
    } else if id == 0xd048c3b1u32 {
        assert(api_of_id(id) == Some(Api::NvAPI_GPU_GetCurrentPCIEDownstreamWidth));
    } else if id == 0xdcb616c3u32 {
        assert(api_of_id(id) == Some(Api::NvAPI_GPU_GetAllClockFrequencies));
    } else if id == 0xda141340u32 {
        assert(api_of_id(id) == Some(Api::NvAPI_GPU_GetCoolerSettings));
    } else if id == 0xd8c4fe63u32 {
        assert(api_of_id(id) == Some(Api::NvAPI_GPU_RestoreCoolerPolicyTable));
    } else if id == 0xdf0dfcddu32 {
        assert(api_of_id(id) == Some(Api::NvAPI_GPU_SetDitherControl));
    } else if id == 0xdc27d5d4u32 {
        assert(api_of_id(id) == Some(Api::NvAPI_GetDisplaySettings));
    } else if id == 0xd6b99d89u32 {
        assert(api_of_id(id) == Some(Api::NvAPI_GetView));
    } else if id == 0xdbbc0af4u32 {
        assert(api_of_id(id) == Some(Api::NvAPI_GetViewEx));
    }
}

#[verifier::spinoff_prover]
proof fn lemma_api_of_id_inverse_d_2(id: u32)
    requires
        id == 0xda97071eu32
        || id == 0xd58026b9u32
        || id == 0xdc6dc8d3u32
        || id == 0xdf2887afu32
        || id == 0xd54b8989u32
        || id == 0xd9639601u32
        || id == 0xdfc063b7u32
        || id == 0xda044458u32
        || id == 0xd4974572u32
        || id == 0xd7c9ec09u32,
    ensures
        api_of_id(id) matches Some(a) && api_id(a) == id,
{
    if id == 0xda97071eu32 {
        assert(api_of_id(id) == Some(Api::NvAPI_Mosaic_GetMosaicCapabilities));
    } else if id == 0xd58026b9u32 {
        assert(api_of_id(id) == Some(Api::NvAPI_Mosaic_GetDisplayCapabilities));
    } else if id == 0xdc6dc8d3u32 {
        assert(api_of_id(id) == Some(Api::NvAPI_Mosaic_GetDisplayViewportsByResolution));
    } else if id == 0xdf2887afu32 {
        assert(api_of_id(id) == Some(Api::NvAPI_Mosaic_EnumDisplayGrids));
    } else if id == 0xd54b8989u32 {
        assert(api_of_id(id) == Some(Api::NvAPI_SetCurrentMosaicTopology));
    } else if id == 0xd9639601u32 {
        assert(api_of_id(id) == Some(Api::NvAPI_GSync_EnumSyncDevices));
    } else if id == 0xdfc063b7u32 {
        assert(api_of_id(id) == Some(Api::NvAPI_Stereo_GetStereoCaps));
    } else if id == 0xda044458u32 {
        assert(api_of_id(id) == Some(Api::NvAPI_Stereo_DecreaseSeparation));
    } else if id == 0xd4974572u32 {
        assert(api_of_id(id) == Some(Api::NvAPI_Stereo_GetPixelShaderConstantF));
    } else if id == 0xd7c9ec09u32 {
        assert(api_of_id(id) == Some(Api::NvAPI_Stereo_Is3DCursorSupported));
    }
}

#[verifier::spinoff_prover]
proof fn lemma_api_of_id_inverse_d_3(id: u32)
    requires
        id == 0xd01bd237u32
        || id == 0xd34a789bu32
        || id == 0xdbdf0cb2u32
        || id == 0xdad9cff8u32
        || id == 0xd3ede889u32
        || id == 0xd61cbe6eu32
        || id == 0xda8466a0u32
        || id == 0xde1f9b45u32
        || id == 0xd2488b79u32
        || id == 0xd8cbf37bu32,
    ensures
        api_of_id(id) matches Some(a) && api_id(a) == id,
{
    if id == 0xd01bd237u32 {
        assert(api_of_id(id) == Some(Api::NvAPI_VIO_Close));
    } else if id == 0xd34a789bu32 {
        assert(api_of_id(id) == Some(Api::NvAPI_VIO_GetConfig));
    } else if id == 0xdbdf0cb2u32 {
        assert(api_of_id(id) == Some(Api::NvAPI_DISP_GetNvManagedDedicatedDisplays));
    } else if id == 0xdad9cff8u32 {
        assert(api_of_id(id) == Some(Api::NvAPI_DRS_DestroySession));
    } else if id == 0xd3ede889u32 {
        assert(api_of_id(id) == Some(Api::NvAPI_DRS_LoadSettingsFromFile));
    } else if id == 0xd61cbe6eu32 {
        assert(api_of_id(id) == Some(Api::NvAPI_DRS_GetSettingNameFromId));
    } else if id == 0xda8466a0u32 {
        assert(api_of_id(id) == Some(Api::NvAPI_DRS_GetBaseProfile));
    } else if id == 0xde1f9b45u32 {
        assert(api_of_id(id) == Some(Api::NvAPI_Event_UnregisterCallback));
    } else if id == 0xd2488b79u32 {
        assert(api_of_id(id) == Some(Api::NvAPI_GPU_GetCurrentThermalLevel));
    } else if id == 0xd8cbf37bu32 {
        assert(api_of_id(id) == Some(Api::NvAPI_GPU_GetVPECount));
    }
}

#[verifier::spinoff_prover]
proof fn lemma_api_of_id_inverse_d_4(id: u32)
    requires
        id == 0xd988f0f3u32
        || id == 0xdee047abu32
        || id == 0xd4f3944cu32
        || id == 0xd8265d24u32
        || id == 0xd26b8a58u32
        || id == 0xd3a092b1u32
        || id == 0xdddfda38u32
        || id == 0xd4100e58u32
        || id == 0xd53c9ef0u32
        || id == 0xdb8d28afu32,
    ensures
        api_of_id(id) matches Some(a) && api_id(a) == id,
{
    if id == 0xd988f0f3u32 {
        assert(api_of_id(id) == Some(Api::NvAPI_GPU_GetShortName));
    } else if id == 0xdee047abu32 {
        assert(api_of_id(id) == Some(Api::NvAPI_GPU_GetPSFloorSweepStatus));
    } else if id == 0xd4f3944cu32 {
        assert(api_of_id(id) == Some(Api::NvAPI_GPU_GetVSFloorSweepStatus));
    } else if id == 0xd8265d24u32 {
        assert(api_of_id(id) == Some(Api::NvAPI_GPU_GetArchInfo));
    } else if id == 0xd26b8a58u32 {
        assert(api_of_id(id) == Some(Api::NvAPI_GPU_GetHybridControllerInfo));
    } else if id == 0xd3a092b1u32 {
        assert(api_of_id(id) == Some(Api::NvAPI_SYS_SetPostOutput));
    } else if id == 0xdddfda38u32 {
        assert(api_of_id(id) == Some(Api::NvAPI_GPU_ClientFanArbitersGetInfo));
    } else if id == 0xd4100e58u32 {
        assert(api_of_id(id) == Some(Api::NvAPI_GPU_ClientIllumDevicesGetInfo));
    } else if id == 0xd53c9ef0u32 {
        assert(api_of_id(id) == Some(Api::NvAPI_D3D12_RegisterPresentBarrierResources));
    } else if id == 0xdb8d28afu32 {
        assert(api_of_id(id) == Some(Api::NvAPI_D3D11_CreateRasterizerState));
    }
}

#[verifier::spinoff_prover]
proof fn lemma_api_of_id_inverse_d_5(id: u32)
    requires
        id == 0xd6839099u32
        || id == 0xde24fc3du32
        || id == 0xd0cbca7du32
        || id == 0xd2d25687u32
        || id == 0xd4e26bbfu32
        || id == 0xd9984c05u32
        || id == 0xdf295ea6u32,
    ensures
        api_of_id(id) matches Some(a) && api_id(a) == id,
{
    if id == 0xd6839099u32 {
        assert(api_of_id(id) == Some(Api::NvAPI_D3D11_TiledResourceBarrier));
    } else if id == 0xde24fc3du32 {
        assert(api_of_id(id) == Some(Api::NvAPI_D3D12_ExecuteMetaCommand));
    } else if id == 0xd0cbca7du32 {
        assert(api_of_id(id) == Some(Api::NvAPI_D3D1x_DisableShaderDiskCache));
    } else if id == 0xd2d25687u32 {
        assert(api_of_id(id) == Some(Api::NvAPI_D3D11_MultiGPU_GetCaps));
    } else if id == 0xd4e26bbfu32 {
        assert(api_of_id(id) == Some(Api::NvAPI_D3D11_MultiDrawInstancedIndirect));
    } else if id == 0xd9984c05u32 {
        assert(api_of_id(id) == Some(Api::NvAPI_D3D_SetLatencyMarker));
    } else if id == 0xdf295ea6u32 {
        assert(api_of_id(id) == Some(Api::NvAPI_D3D12_DestroyCuFunction));
    }
}

#[verifier::spinoff_prover]
proof fn lemma_api_of_id_inverse_e_0(id: u32)
    requires
        id == 0xe5ac921fu32
        || id == 0xee1370cfu32
        || id == 0xe5ceae41u32
        || id == 0xe5a9aae0u32
        || id == 0xe99ba7f3u32
        || id == 0xef303a9du32
        || id == 0xeb7af173u32
        || id == 0xe3e89b6fu32
        || id == 0xe83d6456u32
        || id == 0xe4715417u32,
    ensures
        api_of_id(id) matches Some(a) && api_id(a) == id,
{
    if id == 0xe5ac921fu32 {
        assert(api_of_id(id) == Some(Api::NvAPI_EnumPhysicalGPUs));
    } else if id == 0xee1370cfu32 {
        assert(api_of_id(id) == Some(Api::NvAPI_GetLogicalGPUFromDisplay));
    } else if id == 0xe5ceae41u32 {
        assert(api_of_id(id) == Some(Api::NvAPI_D3D9_AliasSurfaceAsTexture));
    } else if id == 0xe5a9aae0u32 {
        assert(api_of_id(id) == Some(Api::NvAPI_D3D_Query_Begin));
    } else if id == 0xe99ba7f3u32 {
        assert(api_of_id(id) == Some(Api::NvAPI_D3D9_PathEnableDepthTestNV));
    } else if id == 0xef303a9du32 {
        assert(api_of_id(id) == Some(Api::NvAPI_D3D10_BeginShareResourceEx));
    } else if id == 0xeb7af173u32 {
        assert(api_of_id(id) == Some(Api::NvAPI_GPU_GetSMMask));
    } else if id == 0xe3e89b6fu32 {
        assert(api_of_id(id) == Some(Api::NvAPI_GPU_GetActiveOutputs));
    } else if id == 0xe83d6456u32 {
        assert(api_of_id(id) == Some(Api::NvAPI_GPU_SetEDID));
    } else if id == 0xe4715417u32 {
        assert(api_of_id(id) == Some(Api::NvAPI_GPU_GetIRQ));
    }
}

#[verifier::spinoff_prover]
proof fn lemma_api_of_id_inverse_e_1(id: u32)
    requires
        id == 0xe332fa47u32
        || id == 0xe3640a56u32
        || id == 0xe812eb07u32
        || id == 0xedcf624eu32
        || id == 0xe04f3d86u32
        || id == 0xe7cb998du32
        || id == 0xe23b68c1u32
        || id == 0xec32944eu32
        || id == 0xe6839b43u32
        || id == 0xed4416c5u32,
    ensures
        api_of_id(id) matches Some(a) && api_id(a) == id,
{
    if id == 0xe332fa47u32 {
        assert(api_of_id(id) == Some(Api::NvAPI_GPU_GetQuadroStatus));
    } else if id == 0xe3640a56u32 {
        assert(api_of_id(id) == Some(Api::NvAPI_GPU_GetThermalSettings));
    } else if id == 0xe812eb07u32 {
        assert(api_of_id(id) == Some(Api::NvAPI_I2CWrite));
    } else if id == 0xedcf624eu32 {
        assert(api_of_id(id) == Some(Api::NvAPI_GPU_ClientPowerTopologyGetStatus));
    } else if id == 0xe04f3d86u32 {
        assert(api_of_id(id) == Some(Api::NvAPI_SetDisplaySettings));
    } else if id == 0xe7cb998du32 {
        assert(api_of_id(id) == Some(Api::NvAPI_DeleteCustomDisplay));
    } else if id == 0xe23b68c1u32 {
        assert(api_of_id(id) == Some(Api::NvAPI_GetHybridMode));
    } else if id == 0xec32944eu32 {
        assert(api_of_id(id) == Some(Api::NvAPI_Mosaic_GetCurrentTopo));
    } else if id == 0xe6839b43u32 {
        assert(api_of_id(id) == Some(Api::NvAPI_Stereo_GetFrustumAdjustMode));
    } else if id == 0xed4416c5u32 {
        assert(api_of_id(id) == Some(Api::NvAPI_Stereo_Debug_WasLastDrawStereoized));
    }
}

#[verifier::spinoff_prover]
proof fn lemma_api_of_id_inverse_e_2(id: u32)
    requires
        id == 0xecd8f8cfu32
        || id == 0xead72fe4u32
        || id == 0xeba4d232u32
        || id == 0xed1f8c69u32
        || id == 0xeee566b2u32
        || id == 0xe4a26362u32
        || id == 0xe6dbea69u32
        || id == 0xe81ce836u32
        || id == 0xe2e1e6f0u32
        || id == 0xe0b1dce9u32,
    ensures
        api_of_id(id) matches Some(a) && api_id(a) == id,
{
    if id == 0xecd8f8cfu32 {
        assert(api_of_id(id) == Some(Api::NvAPI_Stereo_GetPixelShaderConstantI));
    } else if id == 0xead72fe4u32 {
        assert(api_of_id(id) == Some(Api::NvAPI_VIO_EnumSignalFormats));
    } else if id == 0xeba4d232u32 {
        assert(api_of_id(id) == Some(Api::NvAPI_D3D9_QuerySwapGroup));
    } else if id == 0xed1f8c69u32 {
        assert(api_of_id(id) == Some(Api::NvAPI_DRS_GetApplicationInfo));
    } else if id == 0xeee566b2u32 {
        assert(api_of_id(id) == Some(Api::NvAPI_DRS_FindApplicationByName));
    } else if id == 0xe4a26362u32 {
        assert(api_of_id(id) == Some(Api::NvAPI_DRS_DeleteProfileSetting));
    } else if id == 0xe6dbea69u32 {
        assert(api_of_id(id) == Some(Api::NvAPI_Event_RegisterCallback));
    } else if id == 0xe81ce836u32 {
        assert(api_of_id(id) == Some(Api::NvAPI_GPU_GetScanoutIntensityState));
    } else if id == 0xe2e1e6f0u32 {
        assert(api_of_id(id) == Some(Api::NvAPI_GPU_GetScanoutConfigurationEx));
    } else if id == 0xe0b1dce9u32 {
        assert(api_of_id(id) == Some(Api::NvAPI_GPU_GetRawFuseData));
    }
}

#[verifier::spinoff_prover]
proof fn lemma_api_of_id_inverse_e_3(id: u32)
    requires
        id == 0xe1d5dabau32
        || id == 0xe3795199u32
        || id == 0xed9e8057u32
        || id == 0xe4b701e3u32
        || id == 0xe9c425a1u32
        || id == 0xe440b867u32
        || id == 0xe543c540u32
        || id == 0xe6bfedd6u32
        || id == 0xeb29634bu32
        || id == 0xe942b0ffu32,
    ensures
        api_of_id(id) matches Some(a) && api_id(a) == id,
{
    if id == 0xe1d5dabau32 {
        assert(api_of_id(id) == Some(Api::NvAPI_GPU_GetVbiosMxmVersion));
    } else if id == 0xe3795199u32 {
        assert(api_of_id(id) == Some(Api::NvAPI_GPU_GetPCIEInfo));
    } else if id == 0xed9e8057u32 {
        assert(api_of_id(id) == Some(Api::NvAPI_GPU_GetDisplayUnderflowStatus));
    } else if id == 0xe4b701e3u32 {
        assert(api_of_id(id) == Some(Api::NvAPI_GPU_GetBarInfo));
    } else if id == 0xe9c425a1u32 {
        assert(api_of_id(id) == Some(Api::NvAPI_GPU_ClientThermalPoliciesGetStatus));
    } else if id == 0xe440b867u32 {
        assert(api_of_id(id) == Some(Api::NvAPI_GPU_PerfClientLimitsGetStatus));
    } else if id == 0xe543c540u32 {
        assert(api_of_id(id) == Some(Api::NvAPI_GPU_ClientFanPoliciesGetControl));
    } else if id == 0xe6bfedd6u32 {
        assert(api_of_id(id) == Some(Api::NvAPI_D3D11_ResolveSubresourceRegion));
    } else if id == 0xeb29634bu32 {
        assert(api_of_id(id) == Some(Api::NvAPI_D3D12_CreateMetaCommand));
    } else if id == 0xe942b0ffu32 {
        assert(api_of_id(id) == Some(Api::NvAPI_D3D_IsGSyncActive));
    }
}

#[verifier::spinoff_prover]
proof fn lemma_api_of_id_inverse_e_4(id: u32)
    requires
        id == 0xe1fdaba7u32
        || id == 0xe2436e22u32
        || id == 0xe24ead45u32,
    ensures
        api_of_id(id) matches Some(a) && api_id(a) == id,
{
    if id == 0xe1fdaba7u32 {
        assert(api_of_id(id) == Some(Api::NvAPI_D3D12_SetModifiedWMode));
    } else if id == 0xe2436e22u32 {
        assert(api_of_id(id) == Some(Api::NvAPI_D3D12_CreateCuFunction));
    } else if id == 0xe24ead45u32 {
        assert(api_of_id(id) == Some(Api::NvAPI_D3D12_BuildRaytracingAccelerationStructureEx));
    }
}

#[verifier::spinoff_prover]
proof fn lemma_api_of_id_inverse_f_0(id: u32)
    requires
        id == 0xf951a4d1u32
        || id == 0xfa13e65au32
        || id == 0xf5a0f22cu32
        || id == 0xf8b53c69u32
        || id == 0xf2a54796u32
        || id == 0xf7ff00c1u32
        || id == 0xfc31236cu32
        || id == 0xfcb16330u32
        || id == 0xfc5a155bu32
        || id == 0xfdfc7d49u32,
    ensures
        api_of_id(id) matches Some(a) && api_id(a) == id,
{
    if id == 0xf951a4d1u32 {
        assert(api_of_id(id) == Some(Api::NvAPI_GetDisplayDriverVersion));
    } else if id == 0xfa13e65au32 {
        assert(api_of_id(id) == Some(Api::NvAPI_SetDisplayPort));
    } else if id == 0xf5a0f22cu32 {
        assert(api_of_id(id) == Some(Api::NvAPI_SetHUEAngle));
    } else if id == 0xf8b53c69u32 {
        assert(api_of_id(id) == Some(Api::NvAPI_D3D_Query_GetData));
    } else if id == 0xf2a54796u32 {
        assert(api_of_id(id) == Some(Api::NvAPI_D3D_Query_GetDataSize));
    } else if id == 0xf7ff00c1u32 {
        assert(api_of_id(id) == Some(Api::NvAPI_D3D9_PathParameterfNV));
    } else if id == 0xfc31236cu32 {
        assert(api_of_id(id) == Some(Api::NvAPI_D3D9_PathParameteriNV));
    } else if id == 0xfcb16330u32 {
        assert(api_of_id(id) == Some(Api::NvAPI_D3D9_PathDepthNV));
    } else if id == 0xfc5a155bu32 {
        assert(api_of_id(id) == Some(Api::NvAPI_D3D9_GetIndexBufferHandle));
    } else if id == 0xfdfc7d49u32 {
        assert(api_of_id(id) == Some(Api::NvAPI_GPU_SetPstateClientLimits));
    }
}

#[verifier::spinoff_prover]
proof fn lemma_api_of_id_inverse_f_1(id: u32)
    requires
        id == 0xfa579a0fu32
        || id == 0xfcabd23au32
        || id == 0xf98854c8u32
        || id == 0xf36a668du32
        || id == 0xfb22d656u32
        || id == 0xf4c863acu32
        || id == 0xfdb63c81u32
        || id == 0xf60852bdu32
        || id == 0xf1f5b434u32
        || id == 0xf4c2f8ccu32,
    ensures
        api_of_id(id) matches Some(a) && api_id(a) == id,
{
    if id == 0xfa579a0fu32 {
        assert(api_of_id(id) == Some(Api::NvAPI_GPU_EnableDynamicPstates));
    } else if id == 0xfcabd23au32 {
        assert(api_of_id(id) == Some(Api::NvAPI_GPU_SetColorSpaceConversion));
    } else if id == 0xf98854c8u32 {
        assert(api_of_id(id) == Some(Api::NvAPI_DeleteUnderscanConfig));
    } else if id == 0xf36a668du32 {
        assert(api_of_id(id) == Some(Api::NvAPI_SetDisplayFeatureConfig));
    } else if id == 0xfb22d656u32 {
        assert(api_of_id(id) == Some(Api::NvAPI_SetHybridMode));
    } else if id == 0xf4c863acu32 {
        assert(api_of_id(id) == Some(Api::NvAPI_Coproc_SetCoprocInfoFlagsEx));
    } else if id == 0xfdb63c81u32 {
        assert(api_of_id(id) == Some(Api::NvAPI_Mosaic_GetSupportedTopoInfo));
    } else if id == 0xf60852bdu32 {
        assert(api_of_id(id) == Some(Api::NvAPI_GetCurrentMosaicTopology));
    } else if id == 0xf1f5b434u32 {
        assert(api_of_id(id) == Some(Api::NvAPI_GSync_GetSyncStatus));
    } else if id == 0xf4c2f8ccu32 {
        assert(api_of_id(id) == Some(Api::NvAPI_Hybrid_QueryBlockedMigratableApps));
    }
}

#[verifier::spinoff_prover]
proof fn lemma_api_of_id_inverse_f_2(id: u32)
    requires
        id == 0xfa0b9a59u32
        || id == 0xfab69565u32
        || id == 0xf5e10439u32
        || id == 0xf3b11e68u32
        || id == 0xf089eef5u32
        || id == 0xf117b834u32
        || id == 0xf6a1ad68u32
        || id == 0xf5dcfcbau32
        || id == 0xfbc08fc1u32
        || id == 0xfd7c5557u32,
    ensures
        api_of_id(id) matches Some(a) && api_id(a) == id,
{
    if id == 0xfa0b9a59u32 {
        assert(api_of_id(id) == Some(Api::NvAPI_Hybrid_SetAppMigrationState));
    } else if id == 0xfab69565u32 {
        assert(api_of_id(id) == Some(Api::NvAPI_GPU_GPIOQueryLegalPins));
    } else if id == 0xf5e10439u32 {
        assert(api_of_id(id) == Some(Api::NvAPI_GPU_GPIOReadFromPin));
    } else if id == 0xf3b11e68u32 {
        assert(api_of_id(id) == Some(Api::NvAPI_GPU_GPIOWriteToPin));
    } else if id == 0xf089eef5u32 {
        assert(api_of_id(id) == Some(Api::NvAPI_GPU_GetHDCPSupportStatus));
    } else if id == 0xf117b834u32 {
        assert(api_of_id(id) == Some(Api::NvAPI_Stereo_DeleteConfigurationProfileRegistryKey));
    } else if id == 0xf6a1ad68u32 {
        assert(api_of_id(id) == Some(Api::NvAPI_Stereo_Activate));
    } else if id == 0xf5dcfcbau32 {
        assert(api_of_id(id) == Some(Api::NvAPI_Stereo_SetSurfaceCreationMode));
    } else if id == 0xfbc08fc1u32 {
        assert(api_of_id(id) == Some(Api::NvAPI_Stereo_SetCursorSeparation));
    } else if id == 0xfd7c5557u32 {
        assert(api_of_id(id) == Some(Api::NvAPI_VIO_EnumDevices));
    }
}

#[verifier::spinoff_prover]
proof fn lemma_api_of_id_inverse_f_3(id: u32)
    requires
        id == 0xfa6a0675u32
        || id == 0xfbbb031au32
        || id == 0xfcbc7e14u32
        || id == 0xf020614au32
        || id == 0xfa5f6134u32
        || id == 0xf898247du32
        || id == 0xf5579360u32
        || id == 0xfc13ee11u32
        || id == 0xf91e777bu32
        || id == 0xf409d5e5u32,
    ensures
        api_of_id(id) matches Some(a) && api_id(a) == id,
{
    if id == 0xfa6a0675u32 {
        assert(api_of_id(id) == Some(Api::NvAPI_D3D9_ResetFrameCount));
    } else if id == 0xfbbb031au32 {
        assert(api_of_id(id) == Some(Api::NvAPI_D3D1x_ResetFrameCount));
    } else if id == 0xfcbc7e14u32 {
        assert(api_of_id(id) == Some(Api::NvAPI_DRS_SaveSettings));
    } else if id == 0xf020614au32 {
        assert(api_of_id(id) == Some(Api::NvAPI_DRS_EnumAvailableSettingIds));
    } else if id == 0xfa5f6134u32 {
        assert(api_of_id(id) == Some(Api::NvAPI_DRS_RestoreProfileDefault));
    } else if id == 0xf898247du32 {
        assert(api_of_id(id) == Some(Api::NvAPI_GPU_SetScanoutCompositionParameter));
    } else if id == 0xf5579360u32 {
        assert(api_of_id(id) == Some(Api::NvAPI_AccessDisplayDriverRegistry));
    } else if id == 0xfc13ee11u32 {
        assert(api_of_id(id) == Some(Api::NvAPI_GPU_GetVbiosImage));
    } else if id == 0xf91e777bu32 {
        assert(api_of_id(id) == Some(Api::NvAPI_GPU_GetHardwareQualType));
    } else if id == 0xf409d5e5u32 {
        assert(api_of_id(id) == Some(Api::NvAPI_SetTopologyDisplayGPU));
    }
}

#[verifier::spinoff_prover]
proof fn lemma_api_of_id_inverse_f_4(id: u32)
    requires
        id == 0xfb85b01eu32
        || id == 0xf627074fu32
        || id == 0xfceac864u32
        || id == 0xf1a2b9d5u32
        || id == 0xf1c54fc9u32
        || id == 0xf505fba0u32
        || id == 0xf6305eb5u32
        || id == 0xf0d978a8u32
        || id == 0xf1d2777bu32
        || id == 0xfdc129fau32,
    ensures
        api_of_id(id) matches Some(a) && api_id(a) == id,
{
    if id == 0xfb85b01eu32 {
        assert(api_of_id(id) == Some(Api::NvAPI_GPU_ClientFanCoolersGetInfo));
    } else if id == 0xf627074fu32 {
        assert(api_of_id(id) == Some(Api::NvAPI_GPU_ClientRegisterForOcConfigChangedUpdates));
    } else if id == 0xfceac864u32 {
        assert(api_of_id(id) == Some(Api::NvAPI_D3D_GetObjectHandleForResource));
    } else if id == 0xf1a2b9d5u32 {
        assert(api_of_id(id) == Some(Api::NvAPI_D3D11_TiledTexture2DArrayGetDesc));
    } else if id == 0xf1c54fc9u32 {
        assert(api_of_id(id) == Some(Api::NvAPI_D3D11_AliasMSAATexture2DAsNonMSAA));
    } else if id == 0xf505fba0u32 {
        assert(api_of_id(id) == Some(Api::NvAPI_D3D11_CreateMetaCommand));
    } else if id == 0xf6305eb5u32 {
        assert(api_of_id(id) == Some(Api::NvAPI_D3D12_GetCopyableFootprints));
    } else if id == 0xf0d978a8u32 {
        assert(api_of_id(id) == Some(Api::NvAPI_D3D12_UseDriverHeapPriorities));
    } else if id == 0xf1d2777bu32 {
        assert(api_of_id(id) == Some(Api::Unknown_F1D2777B));
    } else if id == 0xfdc129fau32 {
        assert(api_of_id(id) == Some(Api::Unknown_GetROPCount));
    }
}

/// An interface id that names an API is that API's id.
pub proof fn lemma_api_of_id_inverse(id: u32)
    ensures
        api_of_id(id) matches Some(a) ==> api_id(a) == id,
{
    if id == 0x0150e828u32 || id == 0x01053fa5u32 || id == 0x09734f1du32 || id == 0x0291bff2u32 || id == 0x0e45002du32 || id == 0x0f2dd3f2u32 || id == 0x022cad61u32 || id == 0x0f7029c5u32 || id == 0x0b3827c8u32 || id == 0x0ab7c2dcu32 {
        lemma_api_of_id_inverse_0_0(id);
    } else if id == 0x0e9c5853u32 || id == 0x0121bdc6u32 || id == 0x0e6482a0u32 || id == 0x09d52986u32 || id == 0x0be17923u32 || id == 0x0680de09u32 || id == 0x0078dba2u32 || id == 0x07bcf4acu32 || id == 0x0518a32cu32 || id == 0x0f4dae6bu32 {
        lemma_api_of_id_inverse_0_1(id);
    } else if id == 0x004537dfu32 || id == 0x0f5f4d01u32 || id == 0x0957d7b6u32 || id == 0x06b89e68u32 || id == 0x054fe75au32 || id == 0x07eba036u32 || id == 0x0a8064f9u32 || id == 0x0d6c6cd2u32 || id == 0x0e6ce4f1u32 || id == 0x0e4eec07u32 {
        lemma_api_of_id_inverse_0_2(id);
    } else if id == 0x08f2bab4u32 || id == 0x05650bebu32 || id == 0x03b845a1u32 || id == 0x0ce2e9d9u32 || id == 0x0694d52eu32 || id == 0x0ff07fdeu32 || id == 0x0254a187u32 || id == 0x07f9b368u32 || id == 0x0e24ceeeu32 || id == 0x0d258bb5u32 {
        lemma_api_of_id_inverse_0_3(id);
    } else if id == 0x0733e009u32 || id == 0x0beaa0b2u32 || id == 0x027e98aeu32 || id == 0x017be49eu32 || id == 0x06ea4bf4u32 || id == 0x01e87354u32 || id == 0x092442a1u32 || id == 0x03d6e8cbu32 || id == 0x0ed98181u32 || id == 0x01682c86u32 {
        lemma_api_of_id_inverse_0_4(id);
    } else if id == 0x0425c538u32 {
        lemma_api_of_id_inverse_0_5(id);
    } else if id == 0x172409b4u32 || id == 0x157e45c4u32 || id == 0x13199b3du32 || id == 0x12ee68f2u32 || id == 0x18cdf365u32 || id == 0x13c7112eu32 || id == 0x1e6634b3u32 || id == 0x1db7c52cu32 || id == 0x1730bfc9u32 || id == 0x1bb18724u32 {
        lemma_api_of_id_inverse_1_0(id);
    } else if id == 0x1be0b8e5u32 || id == 0x11104158u32 || id == 0x1ea54a3bu32 || id == 0x15658be6u32 || id == 0x175167e9u32 || id == 0x1f7db630u32 || id == 0x1efc3957u32 || id == 0x1c5659cdu32 || id == 0x18919887u32 || id == 0x1b1b9a16u32 {
        lemma_api_of_id_inverse_1_1(id);
    } else if id == 0x1ecfd263u32 || id == 0x16de1c6au32 || id == 0x1fb0bc30u32 || id == 0x1dc91303u32 || id == 0x118d48a3u32 || id == 0x112ba1a5u32 || id == 0x1e9d8a31u32 || id == 0x11abccf8u32 || id == 0x1f6b4666u32 || id == 0x1247825fu32 {
        lemma_api_of_id_inverse_1_2(id);
    } else if id == 0x1cf639d9u32 || id == 0x1bc21b66u32 || id == 0x1a131e09u32 || id == 0x14610cd7u32 || id == 0x1e17e29bu32 || id == 0x17093206u32 || id == 0x1c89c5dfu32 || id == 0x16abd3a9u32 || id == 0x1dae4fbcu32 || id == 0x1890e8dau32 {
        lemma_api_of_id_inverse_1_3(id);
    } else if id == 0x14b83a5fu32 || id == 0x17073a3cu32 || id == 0x1bd69f49u32 || id == 0x1aad16b4u32 || id == 0x197d065eu32 || id == 0x1cb41116u32 || id == 0x189a1fdfu32 || id == 0x17f6bf82u32 || id == 0x106a487eu32 || id == 0x1b0c2f83u32 {
        lemma_api_of_id_inverse_1_4(id);
    } else if id == 0x1a587f9cu32 || id == 0x13c98f73u32 || id == 0x1dc7261fu32 || id == 0x1819b423u32 || id == 0x1d9a39b6u32 || id == 0x1629a173u32 {
        lemma_api_of_id_inverse_1_5(id);
    } else if id == 0x2926aaadu32 || id == 0x20de9260u32 || id == 0x22a78b05u32 || id == 0x2863148du32 || id == 0x2dc95125u32 || id == 0x22de03aau32 || id == 0x2ac084fau32 || id == 0x2ab714abu32 || id == 0x2bbda32eu32 || id == 0x2de11d61u32 {
        lemma_api_of_id_inverse_2_0(id);
    } else if id == 0x2216a357u32 || id == 0x2ddfb66eu32 || id == 0x2a0a350fu32 || id == 0x2d43fb31u32 || id == 0x22d54523u32 || id == 0x25201f3du32 || id == 0x2fde12c5u32 || id == 0x283ac65au32 || id == 0x22ed9516u32 || id == 0x2f5b08e0u32 {
        lemma_api_of_id_inverse_2_1(id);
    } else if id == 0x2d11ff51u32 || id == 0x24409f48u32 || id == 0x239c4545u32 || id == 0x2ec50c2bu32 || id == 0x296c434du32 || id == 0x2d68de96u32 || id == 0x2d495758u32 || id == 0x2697a8d1u32 || id == 0x221fa8e8u32 || id == 0x271c1109u32 {
        lemma_api_of_id_inverse_2_2(id);
    } else if id == 0x2be25df8u32 || id == 0x2c694bc6u32 || id == 0x2ec39f90u32 || id == 0x25f17421u32 || id == 0x25eeb2c4u32 || id == 0x28766157u32 || id == 0x23f1b133u32 || id == 0x21537ad4u32 || id == 0x210f1841u32 || id == 0x24c6a07bu32 {
        lemma_api_of_id_inverse_2_3(id);
    } else if id == 0x2fc28856u32 || id == 0x2762deacu32 || id == 0x2c85f101u32 || id == 0x26322bc3u32 || id == 0x2db27d09u32 || id == 0x2aede111u32 || id == 0x2a2c79e8u32 || id == 0x24973538u32 {
        lemma_api_of_id_inverse_2_4(id);
    } else if id == 0x34ef9506u32 || id == 0x35c29134u32 || id == 0x3092ac32u32 || id == 0x351da224u32 || id == 0x3230d69au32 || id == 0x3fc9a59cu32 || id == 0x332d3942u32 || id == 0x3e2804a2u32 || id == 0x3d7a86bbu32 || id == 0x3111bed1u32 {
        lemma_api_of_id_inverse_3_0(id);
    } else if id == 0x3d596b93u32 || id == 0x35233210u32 || id == 0x329d77cdu32 || id == 0x37d32e69u32 || id == 0x36cff969u32 || id == 0x34c9c2d4u32 || id == 0x30c805d5u32 || id == 0x34206d86u32 || id == 0x3805ef7au32 || id == 0x3b05c7e1u32 {
        lemma_api_of_id_inverse_3_1(id);
    } else if id == 0x3efada1du32 || id == 0x3f113c77u32 || id == 0x348ff8e1u32 || id == 0x3a153134u32 || id == 0x3dd6b54bu32 || id == 0x3cd58f89u32 || id == 0x315e0ef0u32 || id == 0x36f1c736u32 || id == 0x3eebba1du32 || id == 0x375dbd6bu32 {
        lemma_api_of_id_inverse_3_2(id);
    } else if id == 0x3fc596aau32 || id == 0x3119f36eu32 || id == 0x35b5fd2fu32 || id == 0x3f28e1b9u32 || id == 0x3bd32008u32 || id == 0x387b2e41u32 || id == 0x32e1d697u32 || id == 0x3d358a0cu32 || id == 0x34c0b13du32 || id == 0x39442cfbu32 {
        lemma_api_of_id_inverse_3_3(id);
    } else if id == 0x35aed5e8u32 || id == 0x3dbf5764u32 || id == 0x37e7191cu32 || id == 0x3c5c351bu32 || id == 0x341c6c7fu32 || id == 0x3a94e822u32 || id == 0x3dfacec8u32 || id == 0x3b03791bu32 || id == 0x34f7938fu32 || id == 0x3151211bu32 {
        lemma_api_of_id_inverse_3_4(id);
    } else if id == 0x32c2a0f6u32 || id == 0x36e39e6bu32 {
        lemma_api_of_id_inverse_3_5(id);
    } else if id == 0x48b3ea59u32 || id == 0x4888d790u32 || id == 0x41511594u32 || id == 0x4085de45u32 || id == 0x4a82c2b1u32 || id == 0x4b708b54u32 || id == 0x4aceeaf7u32 || id == 0x492a6954u32 || id == 0x4eadf5d2u32 || id == 0x43d867c0u32 {
        lemma_api_of_id_inverse_4_0(id);
    } else if id == 0x4a35df54u32 || id == 0x4e2f76a8u32 || id == 0x40a505e4u32 || id == 0x4eca2c10u32 || id == 0x46fbeb03u32 || id == 0x4d7b0709u32 || id == 0x49882876u32 || id == 0x42892957u32 || id == 0x4144111au32 || id == 0x4feeb498u32 {
        lemma_api_of_id_inverse_4_1(id);
    } else if id == 0x4d959a89u32 || id == 0x410b5c25u32 || id == 0x44a3f1d1u32 || id == 0x4562bc38u32 || id == 0x49bceecfu32 || id == 0x451f2134u32 || id == 0x4ab00934u32 || id == 0x4c87e317u32 || id == 0x40c8ed5eu32 || id == 0x416c07b3u32 {
        lemma_api_of_id_inverse_4_2(id);
    } else if id == 0x44f0ecd1u32 || id == 0x44ee4841u32 || id == 0x462214a9u32 || id == 0x47c917bau32 || id == 0x407f67aau32 || id == 0x4347a9deu32 || id == 0x47bad137u32 || id == 0x44e022a9u32 || id == 0x473f7828u32 || id == 0x4db019e6u32 {
        lemma_api_of_id_inverse_4_3(id);
    } else if id == 0x4071b85eu32 || id == 0x409d9841u32 || id == 0x465f9bcfu32 || id == 0x44cd3014u32 || id == 0x4b81241bu32 || id == 0x42aea16au32 || id == 0x4d815de9u32 || id == 0x4162822bu32 || id == 0x47f78194u32 || id == 0x4780d70bu32 {
        lemma_api_of_id_inverse_4_4(id);
    } else if id == 0x42763d0cu32 || id == 0x48f5b2eeu32 || id == 0x41c65285u32 || id == 0x427e236du32 || id == 0x4726d180u32 {
        lemma_api_of_id_inverse_4_5(id);
    } else if id == 0x5018ed61u32 || id == 0x5d19bca4u32 || id == 0x5cf7f862u32 || id == 0x5609b86au32 || id == 0x55255d05u32 || id == 0x5fe72f64u32 || id == 0x5b803dafu32 || id == 0x5f68da40u32 || id == 0x5a04b644u32 || id == 0x57f7caacu32 {
        lemma_api_of_id_inverse_5_0(id);
    } else if id == 0x5757474au32 || id == 0x57d9060fu32 || id == 0x5dfab48au32 || id == 0x50016c78u32 || id == 0x53dabbcau32 || id == 0x552e5b9bu32 || id == 0x5f1aa66cu32 || id == 0x5f35bcb5u32 || id == 0x584cb0b6u32 || id == 0x5c069fa3u32 {
        lemma_api_of_id_inverse_5_1(id);
    } else if id == 0x5e8f0becu32 || id == 0x5268716fu32 || id == 0x5a60613au32 || id == 0x51d53d06u32 || id == 0x5f608315u32 || id == 0x540ee82eu32 || id == 0x583113edu32 || id == 0x5d8cf8deu32 || id == 0x5abbe6a3u32 || id == 0x5ac7f8e5u32 {
        lemma_api_of_id_inverse_5_2(id);
    } else if id == 0x5995410du32 || id == 0x577dd202u32 || id == 0x5927b094u32 || id == 0x53f0381eu32 || id == 0x58fe51e6u32 || id == 0x5f4c2664u32 || id == 0x5380ad1au32 || id == 0x5d857a00u32 || id == 0x521566bbu32 || id == 0x524b9773u32 {
        lemma_api_of_id_inverse_5_3(id);
    } else if id == 0x51ccdb2au32 || id == 0x5d7ccaebu32 || id == 0x5786cc6eu32 || id == 0x568a2292u32 || id == 0x507b4b59u32 || id == 0x52b76d12u32 || id == 0x593e8e72u32 || id == 0x57024c62u32 || id == 0x525d43beu32 || id == 0x5cb397cfu32 {
        lemma_api_of_id_inverse_5_4(id);
    } else if id == 0x51235248u32 || id == 0x59e890f9u32 || id == 0x52b1499au32 || id == 0x5b3b7479u32 || id == 0x5c52bb86u32 || id == 0x5c607a27u32 {
        lemma_api_of_id_inverse_5_5(id);
    } else if id == 0x6c2d048cu32 || id == 0x63f9799eu32 || id == 0x67b5db55u32 || id == 0x6ae16ec3u32 || id == 0x69c6f365u32 || id == 0x67efd887u32 || id == 0x6067af3fu32 || id == 0x667c2929u32 || id == 0x6800f5fcu32 || id == 0x6d6fdad4u32 {
        lemma_api_of_id_inverse_6_0(id);
    } else if id == 0x6317345cu32 || id == 0x694bff4du32 || id == 0x6a16d3a0u32 || id == 0x65b93ca8u32 || id == 0x63e2f56fu32 || id == 0x6e042794u32 || id == 0x6ff81213u32 || id == 0x60ded2edu32 || id == 0x6dfd1c8cu32 || id == 0x6bb1ee5du32 {
        lemma_api_of_id_inverse_6_1(id);
    } else if id == 0x6c1f3fe4u32 || id == 0x6ae4cfb5u32 || id == 0x61d7b624u32 || id == 0x66fb7fc0u32 || id == 0x69a9874du32 || id == 0x60acdfddu32 || id == 0x65b1c5f5u32 || id == 0x6b9b409eu32 || id == 0x622fdc87u32 || id == 0x624e21c2u32 {
        lemma_api_of_id_inverse_6_2(id);
    } else if id == 0x6ba2a5d6u32 || id == 0x68888eb4u32 || id == 0x66af10b7u32 || id == 0x63685979u32 || id == 0x63e5d8dbu32 || id == 0x617bff9fu32 || id == 0x61cd6fd6u32 || id == 0x6f5435afu32 || id == 0x6a9f5b63u32 || id == 0x61041c24u32 {
        lemma_api_of_id_inverse_6_3(id);
    } else if id == 0x6533ea3eu32 || id == 0x633252d8u32 || id == 0x6f151055u32 || id == 0x64b43a6au32 || id == 0x600f612eu32 || id == 0x6c0ed98cu32 || id == 0x61b844a1u32 || id == 0x6e5ea9dbu32 || id == 0x6f5f0a6du32 || id == 0x6086bd93u32 {
        lemma_api_of_id_inverse_6_4(id);
    } else if id == 0x65cb431eu32 {
        lemma_api_of_id_inverse_6_5(id);
    } else if id == 0x774aa982u32 || id == 0x71329df3u32 || id == 0x73e0019au32 || id == 0x754033f0u32 || id == 0x72b19155u32 || id == 0x7c20c5beu32 || id == 0x73eb9329u32 || id == 0x7aaf7a04u32 || id == 0x7d554f8eu32 || id == 0x785210a2u32 {
        lemma_api_of_id_inverse_7_0(id);
    } else if id == 0x7d656244u32 || id == 0x76a70e8du32 || id == 0x76bfa16bu32 || id == 0x70916171u32 || id == 0x79232685u32 || id == 0x78db97d7u32 || id == 0x74073cc9u32 || id == 0x70d404ecu32 || id == 0x7be27fa2u32 || id == 0x7923ba0eu32 {
        lemma_api_of_id_inverse_7_1(id);
    } else if id == 0x712baa5bu32 || id == 0x72162b35u32 || id == 0x7b0d72a3u32 || id == 0x7bf0a94du32 || id == 0x71913023u32 || id == 0x721facebu32 || id == 0x77a796f3u32 || id == 0x7d44bb54u32 || id == 0x7e4a9a0bu32 || id == 0x7fa2173au32 {
        lemma_api_of_id_inverse_7_2(id);
    } else if id == 0x73bf8338u32 || id == 0x7f7f4600u32 || id == 0x7fc17574u32 || id == 0x7562e947u32 || id == 0x7975c581u32 || id == 0x7bc207f8u32 || id == 0x7a4174f4u32 || id == 0x73c01d58u32 || id == 0x7886981au32 || id == 0x71ab7c9cu32 {
        lemma_api_of_id_inverse_7_3(id);
    } else if id == 0x7fb785bau32 || id == 0x70c07832u32 || id == 0x7ab88d88u32 || id == 0x74a497a1u32 {
        lemma_api_of_id_inverse_7_4(id);
    } else if id == 0x84f2a8dfu32 || id == 0x80c9fd3bu32 || id == 0x84c9d553u32 || id == 0x89ffd9a3u32 || id == 0x8aac133du32 || id == 0x8ffb8e26u32 || id == 0x8e90bb9fu32 || id == 0x86f05d7au32 || id == 0x891fa0aeu32 || id == 0x8f6ed0fbu32 {
        lemma_api_of_id_inverse_8_0(id);
    } else if id == 0x843c0256u32 || id == 0x88c82104u32 || id == 0x8159e87au32 || id == 0x8a50f126u32 || id == 0x80b1abb9u32 || id == 0x854ba405u32 || id == 0x8e985ccdu32 || id == 0x8eb56969u32 || id == 0x8354a8f4u32 || id == 0x8e1f8cfeu32 {
        lemma_api_of_id_inverse_8_1(id);
    } else if id == 0x8bbff88bu32 || id == 0x8b7e99b5u32 || id == 0x8c610bdau32 || id == 0x869534e2u32 || id == 0x8061a4b1u32 || id == 0x8c00429au32 || id == 0x85ff5a15u32 || id == 0x842b066eu32 || id == 0x81d629c5u32 || id == 0x8456ff3du32 {
        lemma_api_of_id_inverse_8_2(id);
    } else if id == 0x813d89a8u32 || id == 0x8e875cf9u32 || id == 0x814b209fu32 || id == 0x82236c47u32 || id == 0x82b91b25u32 || id == 0x83556d87u32 || id == 0x8285c8dau32 || id == 0x8ceca0ecu32 || id == 0x8c02c4d0u32 || id == 0x852cd1d2u32 {
        lemma_api_of_id_inverse_8_3(id);
    } else if id == 0x80403fc9u32 || id == 0x89eca416u32 || id == 0x85a6c2a0u32 || id == 0x8d025b77u32 || id == 0x814f8d11u32 || id == 0x8efc0978u32 {
        lemma_api_of_id_inverse_8_4(id);
    } else if id == 0x9abdd40du32 || id == 0x92f9d80du32 || id == 0x95b64341u32 || id == 0x9fb063dfu32 || id == 0x905f5c27u32 || id == 0x9d2509efu32 || id == 0x962b8af6u32 || id == 0x96043cc7u32 || id == 0x987947cdu32 || id == 0x927da4f6u32 {
        lemma_api_of_id_inverse_9_0(id);
    } else if id == 0x932ac8fbu32 || id == 0x97063269u32 || id == 0x989685f0u32 || id == 0x9b542831u32 || id == 0x932cb140u32 || id == 0x96eea9f8u32 || id == 0x912ac28fu32 || id == 0x964bf452u32 || id == 0x96bd040eu32 || id == 0x9723d3a2u32 {
        lemma_api_of_id_inverse_9_1(id);
    } else if id == 0x9ea74659u32 || id == 0x9083e53au32 || id == 0x9c39c246u32 || id == 0x9152e055u32 || id == 0x9bb9d68fu32 || id == 0x9de8c729u32 || id == 0x9a1b9365u32 || id == 0x9fbae4ebu32 || id == 0x919b3136u32 || id == 0x988aea78u32 {
        lemma_api_of_id_inverse_9_2(id);
    } else if id == 0x9d772bbau32 || id == 0x9df23ca1u32 || id == 0x91123d6au32 || id == 0x9a06ea07u32 || id == 0x99ed5c1cu32 || id == 0x924be9d6u32 || id == 0x9aa2aabbu32 || id == 0x9c1eed78u32 || id == 0x99ca2dffu32 || id == 0x9006fa68u32 {
        lemma_api_of_id_inverse_9_3(id);
    } else if id == 0xadd604d1u32 || id == 0xaea3fa32u32 || id == 0xa70503b2u32 || id == 0xab163097u32 || id == 0xa064bdfcu32 || id == 0xa342f682u32 || id == 0xa4527bf8u32 || id == 0xaeaecd41u32 || id == 0xae9c2019u32 || id == 0xac2dfeb5u32 {
        lemma_api_of_id_inverse_a_0(id);
    } else if id == 0xae5fbcfeu32 || id == 0xacc3da0au32 || id == 0xa561fd7du32 || id == 0xaed02700u32 || id == 0xa81f8992u32 || id == 0xa4dfd3f2u32 || id == 0xad95f5edu32 || id == 0xae921f12u32 || id == 0xafc4833eu32 || id == 0xa2072d59u32 {
        lemma_api_of_id_inverse_a_1(id);
    } else if id == 0xa9062c78u32 || id == 0xa3c55220u32 || id == 0xac7e37f4u32 || id == 0xa17daabeu32 || id == 0xa9657f32u32 || id == 0xa1ec8d74u32 || id == 0xadeeaf67u32 || id == 0xae457190u32 || id == 0xa776e8dbu32 || id == 0xae3039dau32 {
        lemma_api_of_id_inverse_a_2(id);
    } else if id == 0xa57457a4u32 || id == 0xa629da31u32 || id == 0xa4218928u32 || id == 0xa0c72ee4u32 || id == 0xa58971a5u32 || id == 0xa15faef7u32 || id == 0xa0d7180du32 || id == 0xaf6d14dau32 || id == 0xaec629e9u32 || id == 0xa4125399u32 {
        lemma_api_of_id_inverse_a_3(id);
    } else if id == 0xa39e6e6eu32 || id == 0xa46022c7u32 || id == 0xae4d73efu32 || id == 0xa942373au32 || id == 0xaef96ca1u32 || id == 0xac1ca9e0u32 || id == 0xad1a677du32 || id == 0xafb237d4u32 {
        lemma_api_of_id_inverse_a_4(id);
    } else if id == 0xbb2b17aau32 || id == 0xb380f218u32 || id == 0xb476bf61u32 || id == 0xb852f4dbu32 || id == 0xbd4bc56fu32 || id == 0xbfdc062cu32 || id == 0xbd3eb475u32 || id == 0xbb939ee5u32 || id == 0xba08208au32 || id == 0xb6d62591u32 {
        lemma_api_of_id_inverse_b_0(id);
    } else if id == 0xbaaabfccu32 || id == 0xba94c56eu32 || id == 0xb23b70eeu32 || id == 0xb47a657eu32 || id == 0xbf6c1762u32 || id == 0xb3bb0772u32 || id == 0xb033b140u32 || id == 0xbb9ef1c3u32 || id == 0xbe7692ecu32 || id == 0xb30cd1a7u32 {
        lemma_api_of_id_inverse_b_1(id);
    } else if id == 0xba6109eeu32 || id == 0xb981d935u32 || id == 0xb85de27cu32 || id == 0xb73d1ee9u32 || id == 0xbc371ee0u32 || id == 0xbd71f0c9u32 || id == 0xb34bab4fu32 || id == 0xb7ab19b9u32 || id == 0xb4b26b65u32 || id == 0xb539a26eu32 {
        lemma_api_of_id_inverse_b_2(id);
    } else if id == 0xb9306d9bu32 || id == 0xbc4aee25u32 || id == 0xb5a21987u32 || id == 0xb8f79632u32 || id == 0xb53cab00u32 || id == 0xb9333fe9u32 || id == 0xb942bab7u32 || id == 0xb43995cbu32 || id == 0xbdb20007u32 || id == 0xb6e0a41cu32 {
        lemma_api_of_id_inverse_b_3(id);
    } else if id == 0xb092b818u32 || id == 0xb672be19u32 || id == 0xb7bcf50du32 {
        lemma_api_of_id_inverse_b_4(id);
    } else if id == 0xc64ff367u32 || id == 0xc8ff7258u32 || id == 0xc23df926u32 || id == 0xc7985ed5u32 || id == 0xcde4a28au32 || id == 0xc182027eu32 || id == 0xcfc92c15u32 || id == 0xcac3ce5du32 || id == 0xc7026a87u32 || id == 0xcf8caf39u32 {
        lemma_api_of_id_inverse_c_0(id);
    } else if id == 0xceee8e9fu32 || id == 0xc33baeb1u32 || id == 0xc74925a0u32 || id == 0xcdf27911u32 || id == 0xca36a3abu32 || id == 0xc16c7e2cu32 || id == 0xcda14d8au32 || id == 0xcbbd40f0u32 || id == 0xcadcb956u32 || id == 0xcb89381du32 {
        lemma_api_of_id_inverse_c_1(id);
    } else if id == 0xcf43903du32 || id == 0xc9a8ececu32 || id == 0xc7177702u32 || id == 0xce653127u32 || id == 0xc79333aeu32 || id == 0xcde8e1a3u32 || id == 0xc9175e8du32 || id == 0xc07e210fu32 || id == 0xc9d0e25fu32 || id == 0xca1ddaf3u32 {
        lemma_api_of_id_inverse_c_2(id);
    } else if id == 0xc71f85a6u32 || id == 0xc02eec20u32 || id == 0xcb7c208du32 || id == 0xc9d86e33u32 || id == 0xcc176068u32 || id == 0xc5ea85a1u32 || id == 0xcb7309cdu32 || id == 0xc0599498u32 || id == 0xc729203cu32 || id == 0xcde021b9u32 {
        lemma_api_of_id_inverse_c_3(id);
    } else if id == 0xc181947au32 || id == 0xcc727b22u32 || id == 0xc28b73deu32 || id == 0xc3ec5a7fu32 || id == 0xc24a15bfu32 || id == 0xc09ee6bcu32 || id == 0xc6017a7du32 || id == 0xc7453ba8u32 || id == 0xcd9141d8u32 || id == 0xcbf9f4f5u32 {
        lemma_api_of_id_inverse_c_4(id);
    } else if id == 0xc57921deu32 {
        lemma_api_of_id_inverse_c_5(id);
    } else if id == 0xd22bdd7eu32 || id == 0xd9930b07u32 || id == 0xd995937eu32 || id == 0xd2ccf5d6u32 || id == 0xd44d3c4eu32 || id == 0xd2f6c499u32 || id == 0xdbc803ecu32 || id == 0xd00b8317u32 || id == 0xd5e13573u32 || id == 0xddf5643cu32 {
        lemma_api_of_id_inverse_d_0(id);
    } else if id == 0xd504dda7u32 || id == 0xd2277e3au32 || id == 0xd048c3b1u32 || id == 0xdcb616c3u32 || id == 0xda141340u32 || id == 0xd8c4fe63u32 || id == 0xdf0dfcddu32 || id == 0xdc27d5d4u32 || id == 0xd6b99d89u32 || id == 0xdbbc0af4u32 {
        lemma_api_of_id_inverse_d_1(id);
    } else if id == 0xda97071eu32 || id == 0xd58026b9u32 || id == 0xdc6dc8d3u32 || id == 0xdf2887afu32 || id == 0xd54b8989u32 || id == 0xd9639601u32 || id == 0xdfc063b7u32 || id == 0xda044458u32 || id == 0xd4974572u32 || id == 0xd7c9ec09u32 {
        lemma_api_of_id_inverse_d_2(id);
    } else if id == 0xd01bd237u32 || id == 0xd34a789bu32 || id == 0xdbdf0cb2u32 || id == 0xdad9cff8u32 || id == 0xd3ede889u32 || id == 0xd61cbe6eu32 || id == 0xda8466a0u32 || id == 0xde1f9b45u32 || id == 0xd2488b79u32 || id == 0xd8cbf37bu32 {
        lemma_api_of_id_inverse_d_3(id);
    } else if id == 0xd988f0f3u32 || id == 0xdee047abu32 || id == 0xd4f3944cu32 || id == 0xd8265d24u32 || id == 0xd26b8a58u32 || id == 0xd3a092b1u32 || id == 0xdddfda38u32 || id == 0xd4100e58u32 || id == 0xd53c9ef0u32 || id == 0xdb8d28afu32 {
        lemma_api_of_id_inverse_d_4(id);
    } else if id == 0xd6839099u32 || id == 0xde24fc3du32 || id == 0xd0cbca7du32 || id == 0xd2d25687u32 || id == 0xd4e26bbfu32 || id == 0xd9984c05u32 || id == 0xdf295ea6u32 {
        lemma_api_of_id_inverse_d_5(id);
    } else if id == 0xe5ac921fu32 || id == 0xee1370cfu32 || id == 0xe5ceae41u32 || id == 0xe5a9aae0u32 || id == 0xe99ba7f3u32 || id == 0xef303a9du32 || id == 0xeb7af173u32 || id == 0xe3e89b6fu32 || id == 0xe83d6456u32 || id == 0xe4715417u32 {
        lemma_api_of_id_inverse_e_0(id);
    } else if id == 0xe332fa47u32 || id == 0xe3640a56u32 || id == 0xe812eb07u32 || id == 0xedcf624eu32 || id == 0xe04f3d86u32 || id == 0xe7cb998du32 || id == 0xe23b68c1u32 || id == 0xec32944eu32 || id == 0xe6839b43u32 || id == 0xed4416c5u32 {
        lemma_api_of_id_inverse_e_1(id);
    } else if id == 0xecd8f8cfu32 || id == 0xead72fe4u32 || id == 0xeba4d232u32 || id == 0xed1f8c69u32 || id == 0xeee566b2u32 || id == 0xe4a26362u32 || id == 0xe6dbea69u32 || id == 0xe81ce836u32 || id == 0xe2e1e6f0u32 || id == 0xe0b1dce9u32 {
        lemma_api_of_id_inverse_e_2(id);
    } else if id == 0xe1d5dabau32 || id == 0xe3795199u32 || id == 0xed9e8057u32 || id == 0xe4b701e3u32 || id == 0xe9c425a1u32 || id == 0xe440b867u32 || id == 0xe543c540u32 || id == 0xe6bfedd6u32 || id == 0xeb29634bu32 || id == 0xe942b0ffu32 {
        lemma_api_of_id_inverse_e_3(id);
    } else if id == 0xe1fdaba7u32 || id == 0xe2436e22u32 || id == 0xe24ead45u32 {
        lemma_api_of_id_inverse_e_4(id);
    } else if id == 0xf951a4d1u32 || id == 0xfa13e65au32 || id == 0xf5a0f22cu32 || id == 0xf8b53c69u32 || id == 0xf2a54796u32 || id == 0xf7ff00c1u32 || id == 0xfc31236cu32 || id == 0xfcb16330u32 || id == 0xfc5a155bu32 || id == 0xfdfc7d49u32 {
        lemma_api_of_id_inverse_f_0(id);
    } else if id == 0xfa579a0fu32 || id == 0xfcabd23au32 || id == 0xf98854c8u32 || id == 0xf36a668du32 || id == 0xfb22d656u32 || id == 0xf4c863acu32 || id == 0xfdb63c81u32 || id == 0xf60852bdu32 || id == 0xf1f5b434u32 || id == 0xf4c2f8ccu32 {
        lemma_api_of_id_inverse_f_1(id);
    } else if id == 0xfa0b9a59u32 || id == 0xfab69565u32 || id == 0xf5e10439u32 || id == 0xf3b11e68u32 || id == 0xf089eef5u32 || id == 0xf117b834u32 || id == 0xf6a1ad68u32 || id == 0xf5dcfcbau32 || id == 0xfbc08fc1u32 || id == 0xfd7c5557u32 {
        lemma_api_of_id_inverse_f_2(id);
    } else if id == 0xfa6a0675u32 || id == 0xfbbb031au32 || id == 0xfcbc7e14u32 || id == 0xf020614au32 || id == 0xfa5f6134u32 || id == 0xf898247du32 || id == 0xf5579360u32 || id == 0xfc13ee11u32 || id == 0xf91e777bu32 || id == 0xf409d5e5u32 {
        lemma_api_of_id_inverse_f_3(id);
    } else if id == 0xfb85b01eu32 || id == 0xf627074fu32 || id == 0xfceac864u32 || id == 0xf1a2b9d5u32 || id == 0xf1c54fc9u32 || id == 0xf505fba0u32 || id == 0xf6305eb5u32 || id == 0xf0d978a8u32 || id == 0xf1d2777bu32 || id == 0xfdc129fau32 {
        lemma_api_of_id_inverse_f_4(id);
    } else {
        assert(api_of_id(id) is None);
    }
}

} // verus!
