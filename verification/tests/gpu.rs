use nvapi::status::{Status, NvAPI_Status, ArgumentRangeError};
use nvapi::error::{Api, NvapiError};
use nvapi::types::{Rpm, Kibibytes};
use nvapi::version::NvVersion;
use nvapi::string::NvString;
use nvapi::gpu::{
    PciIdentifiers, DriverModel, Architecture, ArchInfo, NV_GPU_ARCH_INFO_V1, Bus, BusInfo,
    MemoryInfo, NV_DISPLAY_DRIVER_MEMORY_INFO_V1, NV_DISPLAY_DRIVER_MEMORY_INFO_V2,
    NV_DISPLAY_DRIVER_MEMORY_INFO_V3, PhysicalGpu, NvPhysicalGpuHandle, VersionStep,
    NV_GPU_DISPLAYIDS, allow_version_compat, memory_info_request, version_step, thermal_settings_index,
    NVAPI_GPU_BUS_TYPE_PCI_EXPRESS, NVAPI_GPU_BUS_TYPE_AGP,
};

fn gpu() -> PhysicalGpu {
    PhysicalGpu::with_handle(NvPhysicalGpuHandle(0x1000))
}

fn err(s: Status, nvid: Api) -> NvapiError {
    NvapiError::new(NvAPI_Status::new(s), nvid)
}

#[test]
fn pci_ids_of_a_board_with_subsystem() {
    let p = PciIdentifiers { device_id: 0x1b8010de, subsystem_id: 0x37331458, revision_id: 0xa1, ext_device_id: 0x1b80 };
    assert_eq!(p.ids(), (0x1458, 0x3733));
    assert_eq!(p.product_id(), 0x3733);
    assert_eq!(p.vendor_id(), 0x1458);
}

#[test]
fn pci_ids_keep_chip_product_when_subsystem_has_none() {
    let p = PciIdentifiers { device_id: 0x1b8010de, subsystem_id: 0x00001458, revision_id: 0, ext_device_id: 0 };
    assert_eq!(p.ids(), (0x1458, 0x1b80));
}

#[test]
fn pci_ids_of_other_vendor_or_no_subsystem() {
    let p = PciIdentifiers { device_id: 0x67df1002, subsystem_id: 0x37331458, revision_id: 0, ext_device_id: 0 };
    assert_eq!(p.ids(), (0x1002, 0x67df));
    let q = PciIdentifiers { device_id: 0x1b8010de, subsystem_id: 0, revision_id: 0, ext_device_id: 0 };
    assert_eq!(q.ids(), (0x10de, 0x1b80));
}

#[test]
fn driver_model_wddm() {
    assert_eq!(DriverModel::new(0x2000).wddm(), (2, 0));
    assert_eq!(DriverModel::new(0x2300).wddm(), (2, 0));
    assert_eq!(DriverModel::new(0x1300).wddm(), (1, 3));
    assert_eq!(DriverModel::new(0x1100).wddm(), (1, 1));
}

#[test]
fn architecture_from_ids() {
    assert_eq!(Architecture::try_with_arch(0x160, 2), Ok(Architecture::TU100(2)));
    assert_eq!(Architecture::try_with_arch(0xD0, 2), Err(ArgumentRangeError));
    assert_eq!(Architecture::try_with_arch(0x180, 2), Err(ArgumentRangeError));
    assert_eq!(Architecture::with_arch(0x180, 2), Architecture::Unknown { id: 0x180, implementation: 2 });
    assert_eq!(Architecture::with_arch(0xE0000020, 0).id(), 0xE0000020);
    assert_eq!(Architecture::AD100(1).id(), 0x180);
}

#[test]
fn architecture_keeps_its_ids() {
    for id in [0x40u32, 0x60, 0xA0, 0xD0, 0x170, 0x180, 0x999] {
        let a = Architecture::with_arch(id, 5);
        assert_eq!(a.id(), id);
    }
}

#[test]
fn arch_info_arch() {
    let info = ArchInfo::V1(NV_GPU_ARCH_INFO_V1 { version: NvVersion::with_version(0), architecture: 0x170, implementation: 4, revision: 0xa1 });
    assert_eq!(info.arch(), Architecture::GA100(4));
    assert_eq!(info.revision(), 0xa1);
}

#[test]
fn bus_queries() {
    let ids = PciIdentifiers { device_id: 0x1b8010de, subsystem_id: 0, revision_id: 0, ext_device_id: 0 };
    let pcie = Bus::PciExpress { ids, lanes: 16 };
    assert_eq!(pcie.bus_type(), NVAPI_GPU_BUS_TYPE_PCI_EXPRESS);
    assert_eq!(pcie.pci_ids(), Some(&ids));
    assert_eq!(pcie.vendor_id(), Some(0x10de));
    let other = Bus::Other(NVAPI_GPU_BUS_TYPE_AGP);
    assert_eq!(other.bus_type(), NVAPI_GPU_BUS_TYPE_AGP);
    assert_eq!(other.vendor_id(), None);
    assert_eq!(Bus::default(), Bus::Other(0));
}

#[test]
fn bus_info_from_replies() {
    let g = gpu();
    let info = g.bus_info(Ok(3), Ok(16), Ok(1), Ok(2), Ok((0x1b8010de, 0, 0, 0)), Ok(8)).unwrap();
    assert_eq!(info, BusInfo {
        id: 1, slot_id: 2, irq: 16,
        bus: Bus::PciExpress { ids: PciIdentifiers { device_id: 0x1b8010de, subsystem_id: 0, revision_id: 0, ext_device_id: 0 }, lanes: 8 },
    });
    assert_eq!(
        g.bus_info(Ok(3), Ok(16), Ok(1), Ok(2), Ok((0, 0, 0, 0)), Err(Status::NotSupported)),
        Err(err(Status::NotSupported, Api::NvAPI_GPU_GetCurrentPCIEDownstreamWidth))
    );
    assert_eq!(
        g.bus_info(Err(Status::Error), Err(Status::InvalidArgument), Ok(1), Ok(2), Ok((0, 0, 0, 0)), Ok(1)),
        Err(err(Status::Error, Api::NvAPI_GPU_GetBusType))
    );
    let agp = g.bus_info(Ok(2), Ok(1), Ok(1), Ok(1), Err(Status::Error), Err(Status::Error)).unwrap();
    assert_eq!(agp.bus, Bus::Other(2));
}

#[test]
fn memory_info_accessors() {
    let v1 = NV_DISPLAY_DRIVER_MEMORY_INFO_V1 {
        version: NvVersion::with_version(0), dedicatedVideoMemory: 8192, availableDedicatedVideoMemory: 8000,
        systemVideoMemory: 0, sharedSystemMemory: 4096,
    };
    let v2 = NV_DISPLAY_DRIVER_MEMORY_INFO_V2 { v1, curAvailableDedicatedVideoMemory: 6000 };
    let v3 = MemoryInfo::V3(NV_DISPLAY_DRIVER_MEMORY_INFO_V3 { v2, dedicatedVideoMemoryEvictionsSize: 12, dedicatedVideoMemoryEvictionCount: 3 });
    assert_eq!(v3.dedicated(), Kibibytes(8192));
    assert_eq!(v3.shared(), Kibibytes(4096));
    assert_eq!(v3.dedicated_available_current(), Some(Kibibytes(6000)));
    assert_eq!(v3.dedicated_evictions(), Some(3));
    assert_eq!(MemoryInfo::V2(v2).dedicated_available_current(), Some(Kibibytes(6000)));
    assert_eq!(MemoryInfo::V1(v1).dedicated_available_current(), None);
    assert_eq!(MemoryInfo::V1(v1).version(), 1);
}

#[test]
fn version_fallback_steps() {
    let g = gpu();
    match g.memory_info(3, Err(Status::IncompatibleStructVersion)) {
        VersionStep::Retry(v) => assert_eq!(v, 2),
        _ => panic!("expected a retry"),
    }
    match g.memory_info(1, Err(Status::IncompatibleStructVersion)) {
        VersionStep::Done(r) => assert_eq!(r, Err(err(Status::IncompatibleStructVersion, Api::NvAPI_GPU_GetMemoryInfo))),
        _ => panic!("expected an answer"),
    }
    let words = [0x30020, 8000, 7000, 100, 200, 6000, 11, 3];
    match g.memory_info(3, Ok(words)) {
        VersionStep::Done(Ok(m)) => {
            assert!(matches!(m, MemoryInfo::V3(..)));
            assert_eq!(m.dedicated_available_current(), Some(Kibibytes(6000)));
        },
        _ => panic!("expected an answer"),
    }
    match g.memory_info(1, Ok(words)) {
        VersionStep::Done(Ok(m)) => assert_eq!(m.dedicated_available_current(), None),
        _ => panic!("expected an answer"),
    }
    assert_eq!(memory_info_request(2), [(2 << 16) | 24, 0, 0, 0, 0, 0, 0, 0]);
    let c = g.clock_frequencies_request(3, 6);
    assert_eq!(c.version.data, (3 << 16) | 264);
    assert_eq!(c.reserved, 2);
    assert_eq!(c.domain[31].frequency, 0);
    match g.memory_info(3, Err(Status::InvalidArgument)) {
        VersionStep::Done(r) => assert_eq!(r, Err(err(Status::InvalidArgument, Api::NvAPI_GPU_GetMemoryInfo))),
        _ => panic!("expected an answer"),
    }
    match g.thermal_limit_info(2, Err(Status::NotSupported)) {
        VersionStep::Done(r) => assert!(r.is_err()),
        _ => panic!("the second version is the oldest"),
    }
    match g.thermal_limit(3, Err(Status::NoImplementation)) {
        VersionStep::Retry(v) => assert_eq!(v, 2),
        _ => panic!("expected a retry"),
    }
}

#[test]
fn allow_version_compat_cases() {
    let ok: Result<u8, NvapiError> = Ok(1);
    assert_eq!(allow_version_compat(ok), Ok(Some(1)));
    let e = err(Status::NotSupported, Api::NvAPI_GPU_GetPstates20);
    assert_eq!(allow_version_compat::<u8>(Err(e)), Ok(None));
    let e = err(Status::Error, Api::NvAPI_GPU_GetPstates20);
    assert_eq!(allow_version_compat::<u8>(Err(e)), Err(e));
    match version_step::<u8>(Err(err(Status::NotSupported, Api::NvAPI_GPU_GetPstates20)), None) {
        VersionStep::Done(r) => assert!(r.is_err()),
        _ => panic!("no older version"),
    }
}

#[test]
fn display_ids_fall_back_to_first_version() {
    let g = gpu();
    match g.display_ids_all(3, Err(Status::IncompatibleStructVersion)) {
        VersionStep::Retry(v) => assert_eq!(v, 1),
        _ => panic!("expected a retry"),
    }
    let d = NV_GPU_DISPLAYIDS { version: 0, connectorType: 8, displayId: 0x1000, flags: 0x44 };
    match g.display_ids_connected(1, Ok(vec![d, d])) {
        VersionStep::Done(Ok(ids)) => {
            assert_eq!(ids.len(), 2);
            assert_eq!(ids[0].display_id(), 0x1000);
            assert_eq!(ids[1].connector(), 8);
            assert_eq!(ids[1].flags(), 0x44);
        },
        _ => panic!("expected the ids"),
    }
}

#[test]
fn simple_queries() {
    let g = gpu();
    assert_eq!(g.tachometer(Ok(1500)), Ok(Rpm(1500)));
    assert_eq!(g.tachometer(Err(Status::NotSupported)), Err(err(Status::NotSupported, Api::NvAPI_GPU_GetTachReading)));
    assert_eq!(g.driver_model(Ok(0x2000)), Ok(DriverModel::new(0x2000)));
    assert_eq!(g.vbios_version(Ok(1), Ok(2)), Ok((1, 2)));
    assert_eq!(g.vbios_version(Ok(1), Err(Status::Error)), Err(err(Status::Error, Api::NvAPI_GPU_GetVbiosOEMRevision)));
    assert_eq!(g.pci_identifiers(Ok((1, 2, 3, 4))), Ok(PciIdentifiers { device_id: 1, subsystem_id: 2, revision_id: 3, ext_device_id: 4 }));
    let mut name = [0u8; 64];
    name[..7].copy_from_slice(b"GeForce");
    name[8] = b'X';
    assert_eq!(g.full_name(Ok(NvString(name))), Ok(String::from("GeForce")));
    let mut bad = [0u8; 64];
    bad[0] = b'A';
    bad[1] = 0xff;
    assert_eq!(g.short_name(Ok(NvString(bad))), Ok(String::from("A\u{fffd}")));
    assert_eq!(g.vbios_version_string(Err(Status::Error)), Err(err(Status::Error, Api::NvAPI_GPU_GetVbiosVersionString)));
    assert_eq!(g.handle(), &NvPhysicalGpuHandle(0x1000));
    assert_eq!(thermal_settings_index(None), 15);
    assert_eq!(thermal_settings_index(Some(1)), 1);
}

#[test]
fn enumerate_gpus() {
    let mut handles = [NvPhysicalGpuHandle(0); 64];
    handles[0] = NvPhysicalGpuHandle(11);
    handles[1] = NvPhysicalGpuHandle(22);
    let t = NvPhysicalGpuHandle::EnumPhysicalGPUs(Ok((handles, 2)));
    let gpus = PhysicalGpu::enumerate(t).unwrap();
    assert_eq!(gpus.len(), 2);
    assert_eq!(gpus[1].handle(), &NvPhysicalGpuHandle(22));
    let none = NvPhysicalGpuHandle::EnumPhysicalGPUs(Err(Status::NvidiaDeviceNotFound));
    assert_eq!(PhysicalGpu::enumerate(none).unwrap().len(), 0);
    let failed = NvPhysicalGpuHandle::EnumPhysicalGPUs(Err(Status::Error));
    assert_eq!(PhysicalGpu::enumerate(failed).unwrap_err(), err(Status::Error, Api::NvAPI_EnumPhysicalGPUs));
}

#[test]
fn connected_ids_flags() {
    assert_eq!(nvapi::gpu::ConnectedIdsFlags::from_bits_truncate(0xff).bits(), 0x1f);
    assert_eq!(nvapi::gpu::ConnectedIdsFlags::from_bits(0x20), None);
    let flags = nvapi::gpu::ConnectedIdsFlags::UNCACHED | nvapi::gpu::ConnectedIdsFlags::FAKE;
    assert_eq!(nvapi::gpu::ConnectedIdsFlags::from_bits(flags).map(|f| f.bits()), Some(9));
}
