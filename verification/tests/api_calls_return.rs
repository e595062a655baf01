// Each test walks a query the way a caller does and expects it to return
// without a crash; the driver's replies are given, with no display attached.

use nvapi::status::Status;
use nvapi::info::initialize;
use nvapi::gpu::{PhysicalGpu, NvPhysicalGpuHandle, VersionStep, NV_GPU_DISPLAYIDS};

fn gpus() -> Vec<PhysicalGpu> {
    let mut handles = [NvPhysicalGpuHandle(0); 64];
    handles[0] = NvPhysicalGpuHandle(0x100);
    PhysicalGpu::enumerate(NvPhysicalGpuHandle::EnumPhysicalGPUs(Ok((handles, 1)))).unwrap_or_default()
}

fn no_displays() -> Result<Vec<NV_GPU_DISPLAYIDS>, Status> {
    Ok(Vec::new())
}

#[test]
fn physicalgpu_display_ids_connected() {
    if let Ok(_) = initialize(Ok(())) {
        for gpu in gpus() {
            match gpu.display_ids_connected(3, no_displays()) {
                VersionStep::Done(res) => assert_eq!(res.map(|ids| ids.len()), Ok(0)),
                VersionStep::Retry(_) => panic!("an answer with no display is final"),
            }
        }
    }
    assert!(initialize(Err(Status::LibraryNotFound)).is_err());
}

#[test]
fn physicalgpu_display_ids_all() {
    if let Ok(_) = initialize(Ok(())) {
        for gpu in gpus() {
            match gpu.display_ids_all(3, no_displays()) {
                VersionStep::Done(res) => assert_eq!(res.map(|ids| ids.len()), Ok(0)),
                VersionStep::Retry(_) => panic!("an answer with no display is final"),
            }
        }
    }
}
