use nvapi::status::{Status, NvAPI_Status, ArgumentRangeError};
use nvapi::error::{Api, NvapiError, Error, with_api};

#[test]
fn status_raw_roundtrip_for_every_value() {
    for s in Status::values() {
        assert_eq!(Status::from_raw(s.raw()), Ok(s));
    }
}

#[test]
fn status_known_codes() {
    assert_eq!(Status::Success.raw(), 0);
    assert_eq!(Status::Error.raw(), -1);
    assert_eq!(Status::NvidiaDeviceNotFound.raw(), -6);
    assert_eq!(Status::IncompatibleStructVersion.raw(), -9);
    assert_eq!(Status::from_raw(-104), Ok(Status::NotSupported));
}

#[test]
fn status_unknown_code_is_range_error() {
    assert_eq!(Status::from_raw(12345), Err(ArgumentRangeError));
    assert_eq!(Status::from_raw(1), Err(ArgumentRangeError));
}

#[test]
fn nvapi_status_to_result() {
    assert_eq!(NvAPI_Status::with_repr(0).to_result(), Ok(()));
    let e = NvAPI_Status::with_repr(-6);
    assert_eq!(e.to_result(), Err(e));
    assert_eq!(NvAPI_Status::with_repr(99999).to_status(), Status::Error);
}

#[test]
fn range_error_status() {
    assert_eq!(ArgumentRangeError.to_status(), Status::ArgumentExceedMaxSize);
}

#[test]
fn with_api_tags_the_failure() {
    let ok: Result<u32, Status> = Ok(7);
    assert_eq!(with_api(ok, Api::NvAPI_GPU_GetTachReading), Ok(7));
    let err: Result<u32, Status> = Err(Status::InvalidArgument);
    assert_eq!(
        with_api(err, Api::NvAPI_GPU_GetTachReading),
        Err(NvapiError { status: NvAPI_Status::new(Status::InvalidArgument), nvid: Api::NvAPI_GPU_GetTachReading })
    );
}

#[test]
fn version_incompat_is_allowed() {
    for code in [-9, -3, -104] {
        let e = NvapiError::new(NvAPI_Status::with_repr(code), Api::NvAPI_GPU_GetMemoryInfo);
        assert_eq!(e.allow_version_incompat(), Ok(()));
    }
    let e = NvapiError::new(NvAPI_Status::with_repr(-5), Api::NvAPI_GPU_GetMemoryInfo);
    assert_eq!(e.allow_version_incompat(), Err(e));
}

#[test]
fn new_result_maps_success() {
    assert_eq!(NvapiError::new_result(NvAPI_Status::with_repr(0), Api::NvAPI_Unload), Ok(()));
    let s = NvAPI_Status::with_repr(-1);
    assert_eq!(NvapiError::new_result(s, Api::NvAPI_Unload), Err(NvapiError { status: s, nvid: Api::NvAPI_Unload }));
}

#[test]
fn allowable_result_cases() {
    let ok: Result<u8, Error> = Ok(3);
    assert_eq!(Error::allowable_result(ok), Ok(Some(3)));
    let range: Result<u8, Error> = Err(Error::ArgumentRange(ArgumentRangeError));
    assert_eq!(Error::allowable_result(range), Ok(None));
    let incompat: Result<u8, Error> = Err(Error::Nvapi(NvapiError::new(NvAPI_Status::with_repr(-9), Api::NvAPI_GPU_GetArchInfo)));
    assert_eq!(Error::allowable_result(incompat), Ok(None));
    let exceed: Result<u8, Error> = Err(Error::Nvapi(NvapiError::new(NvAPI_Status::new(Status::ArgumentExceedMaxSize), Api::NvAPI_GPU_GetArchInfo)));
    assert_eq!(Error::allowable_result(exceed), Ok(None));
    let e = Error::Nvapi(NvapiError::new(NvAPI_Status::with_repr(-5), Api::NvAPI_GPU_GetArchInfo));
    let other: Result<u8, Error> = Err(e);
    assert_eq!(Error::allowable_result(other), Err(e));
}

#[test]
fn api_id_roundtrip() {
    assert_eq!(Api::NvAPI_Unload.id(), 0xd22bdd7e);
    assert_eq!(Api::from_id(0xd22bdd7e), Ok(Api::NvAPI_Unload));
    assert_eq!(Api::from_id(0x1234), Err(()));
    assert_eq!(Api::from_id(Api::NvAPI_GSync_GetSyncStatus.id()), Ok(Api::NvAPI_GSync_GetSyncStatus));
    assert_eq!(Api::from_id(0x6c2d048c), Ok(Api::NvAPI_GetErrorMessage));
    assert_eq!(Api::NvAPI_GetErrorMessage.id(), 0x6c2d048c);
    assert_eq!(Api::from_id(0x0150e828), Ok(Api::NvAPI_Initialize));
    assert!(Api::NvAPI_Initialize < Api::NvAPI_Unload);
}
