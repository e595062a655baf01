#![allow(non_camel_case_types, non_snake_case)]
use vstd::prelude::*;
use crate::boolu32::BoolU32;
use crate::version::NvVersion;
use crate::status::{Status, NvAPI_Status};
use crate::error::{Api, NvapiError, NvapiResult, with_api};
use crate::gpu::spec_api_error;

verus! {

/// The most sync devices the driver enumerates.
pub const NVAPI_MAX_GSYNC_DEVICES: usize = 4;

/// The driver's handle for one sync device.
#[derive(Copy, Clone, Debug, Default, PartialEq, Eq, Structural, Hash)]
pub struct NvGSyncDeviceHandle(pub usize);

/// The sync status of a GPU (`NV_GSYNC_STATUS`).
#[derive(Copy, Clone, Debug, PartialEq, Eq, Structural)]
pub struct NV_GSYNC_STATUS {
    pub version: NvVersion,
    pub bIsSynced: BoolU32,
    pub bIsStereoSynced: BoolU32,
    pub bIsSyncSignalAvailable: BoolU32,
}

/// The capabilities of a sync board (version 1).
#[derive(Copy, Clone, Debug, PartialEq, Eq, Structural)]
pub struct NV_GSYNC_CAPABILITIES_V1 {
    pub version: NvVersion,
    pub boardId: u32,
    pub revision: u32,
    pub capFlags: u32,
}

/// The capabilities of a sync board (version 2): adds the minor revision.
#[derive(Copy, Clone, Debug, PartialEq, Eq, Structural)]
pub struct NV_GSYNC_CAPABILITIES_V2 {
    pub v1: NV_GSYNC_CAPABILITIES_V1,
    pub extendedRevision: u32,
}

/// The sync status of a GPU.
#[derive(Copy, Clone, Debug, Default, PartialEq, Eq, Structural, Hash)]
pub struct GSyncStatus {
    pub synced: bool,
    pub stereo_synced: bool,
    pub sync_signal_available: bool,
}

/// The capabilities of a sync board.
#[derive(Copy, Clone, Debug, Default, PartialEq, Eq, Structural, Hash)]
pub struct GSyncCapabilities {
    pub board_id: u32,
    pub revision: u32,
    pub extended_revision: u32,
    pub max_mul_div: Option<u32>,
}

impl NV_GSYNC_STATUS {
    /// The status with each flag read.
    pub fn convert_raw(&self) -> (r: GSyncStatus)
        ensures
            r == (GSyncStatus {
                synced: self.bIsSynced.spec_get(),
                stereo_synced: self.bIsStereoSynced.spec_get(),
                sync_signal_available: self.bIsSyncSignalAvailable.spec_get(),
            }),
    {
        GSyncStatus {
            synced: self.bIsSynced.get(),
            stereo_synced: self.bIsStereoSynced.get(),
            sync_signal_available: self.bIsSyncSignalAvailable.get(),
        }
    }
}

impl NV_GSYNC_CAPABILITIES_V1 {
    /// The board id and revision; the later fields are unknown in this version.
    pub fn convert_raw(&self) -> (r: GSyncCapabilities)
        ensures
            r == (GSyncCapabilities { board_id: self.boardId, revision: self.revision, extended_revision: 0, max_mul_div: None }),
    {
        GSyncCapabilities { board_id: self.boardId, revision: self.revision, extended_revision: 0, max_mul_div: None }
    }
}

impl NV_GSYNC_CAPABILITIES_V2 {
    /// The capabilities of the first version with the minor revision.
    pub fn convert_raw(&self) -> (r: GSyncCapabilities)
        ensures
            r == (GSyncCapabilities {
                board_id: self.v1.boardId,
                revision: self.v1.revision,
                extended_revision: self.extendedRevision,
                max_mul_div: None,
            }),
    {
        let v1 = self.v1.convert_raw();
        GSyncCapabilities { extended_revision: self.extendedRevision, ..v1 }
    }
}

/// A sync device.
#[derive(Copy, Clone, Debug, PartialEq, Eq, Structural)]
pub struct GSyncDevice {
    handle: NvGSyncDeviceHandle,
}

impl GSyncDevice {
    pub closed spec fn spec_handle(&self) -> NvGSyncDeviceHandle {
        self.handle
    }

    pub fn with_handle(handle: NvGSyncDeviceHandle) -> (r: Self)
        ensures
            r.spec_handle() == handle,
    {
        GSyncDevice { handle }
    }

    pub fn handle(&self) -> (r: &NvGSyncDeviceHandle)
        ensures
            *r == self.spec_handle(),
    {
        &self.handle
    }

    /// The sync devices, from the driver's reply (the handle array and the
    /// number of valid entries). No NVIDIA device means no sync device.
    pub fn enumerate(reply: Result<([NvGSyncDeviceHandle; 4], u32), Status>) -> (r: NvapiResult<Vec<Self>>)
        requires
            reply matches Ok((_, n)) ==> n <= 4,
        ensures
            match reply {
                Ok((handles, n)) => r matches Ok(v) && v@.len() == n
                    && forall|i: int| 0 <= i < n ==> #[trigger] v@[i].spec_handle() == handles@[i],
                Err(s) => if s == Status::NvidiaDeviceNotFound {
                    r matches Ok(v) && v@.len() == 0
                } else {
                    r == Err::<Vec<Self>, NvapiError>(spec_api_error(s, Api::NvAPI_GSync_EnumSyncDevices))
                },
            },
    {
        match reply {
            Err(Status::NvidiaDeviceNotFound) => Ok(Vec::new()),
            Err(s) => Err(NvapiError::new(NvAPI_Status::new(s), Api::NvAPI_GSync_EnumSyncDevices)),
            Ok((handles, n)) => {
                let mut out: Vec<Self> = Vec::new();
                let mut i: usize = 0;
                let n = n as usize;
                while i < n
                    invariant
                        n <= 4,
                        i <= n,
                        out@.len() == i,
                        forall|j: int| 0 <= j < i ==> #[trigger] out@[j].spec_handle() == handles@[j],
                    decreases n - i,
                {
                    out.push(GSyncDevice::with_handle(handles[i]));
                    i += 1;
                }
                Ok(out)
            },
        }
    }

    /// The sync status of a GPU from the driver's reply.
    pub fn sync_status(&self, reply: Result<NV_GSYNC_STATUS, Status>) -> (r: NvapiResult<GSyncStatus>)
        ensures
            r == (match reply {
                Ok(s) => Ok(GSyncStatus {
                    synced: s.bIsSynced.spec_get(),
                    stereo_synced: s.bIsStereoSynced.spec_get(),
                    sync_signal_available: s.bIsSyncSignalAvailable.spec_get(),
                }),
                Err(s) => Err(spec_api_error(s, Api::NvAPI_GSync_GetSyncStatus)),
            }),
    {
        match with_api(reply, Api::NvAPI_GSync_GetSyncStatus) {
            Ok(s) => Ok(s.convert_raw()),
            Err(e) => Err(e),
        }
    }

    /// The capabilities of the board from the driver's reply.
    pub fn capabilities(&self, reply: Result<NV_GSYNC_CAPABILITIES_V2, Status>) -> (r: NvapiResult<GSyncCapabilities>)
        ensures
            r == (match reply {
                Ok(c) => Ok(GSyncCapabilities {
                    board_id: c.v1.boardId,
                    revision: c.v1.revision,
                    extended_revision: c.extendedRevision,
                    max_mul_div: None,
                }),
                Err(s) => Err(spec_api_error(s, Api::NvAPI_GSync_QueryCapabilities)),
            }),
    {
        match with_api(reply, Api::NvAPI_GSync_QueryCapabilities) {
            Ok(c) => Ok(c.convert_raw()),
            Err(e) => Err(e),
        }
    }
}

} // verus!
